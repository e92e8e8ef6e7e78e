use crate::model::{names, views};
use crate::syntax::attribute::{
    copy_attributes, copy_optional_node, optional_node, Attribute, AttributeView,
    DiagnosticSeverity,
};
use crate::syntax::expression::{
    ExpressionNode, ExpressionNodeView, TypeExpression, TypeExpressionView,
};
use vstd::prelude::*;

verus! {

#[derive(Clone, Copy, Debug, PartialEq, Eq, Structural)]
pub enum AccessMode {
    Read,
    Write,
    ReadWrite,
}

#[derive(Clone, Copy, Debug, PartialEq, Eq, Structural)]
pub enum AddressSpace {
    Function,
    Private,
    Workgroup,
    Uniform,
    Storage(Option<AccessMode>),
    Handle,
}

#[derive(Clone, Copy, Debug, PartialEq, Eq, Structural)]
pub enum DeclarationKind {
    Const,
    Override,
    Let,
    Var(Option<AddressSpace>),
}

/// The view of a type expression that may be absent.
pub open spec fn optional_type(ty: Option<TypeExpression>) -> Option<TypeExpressionView> {
    match ty {
        Some(t) => Some(t@),
        None => None,
    }
}

/// A `const`, `override`, `let` or `var` declaration.
#[derive(Debug, PartialEq)]
pub struct Declaration {
    pub attributes: Vec<Attribute>,
    pub kind: DeclarationKind,
    pub name: String,
    pub ty: Option<TypeExpression>,
    pub initializer: Option<ExpressionNode>,
}

pub struct DeclarationView {
    pub attributes: Seq<AttributeView>,
    pub kind: DeclarationKind,
    pub name: Seq<char>,
    pub ty: Option<TypeExpressionView>,
    pub initializer: Option<ExpressionNodeView>,
}

impl View for Declaration {
    type V = DeclarationView;

    open spec fn view(&self) -> DeclarationView {
        DeclarationView {
            attributes: views(self.attributes@),
            kind: self.kind,
            name: self.name@,
            ty: optional_type(self.ty),
            initializer: optional_node(self.initializer),
        }
    }
}

/// A name for a type: `alias name = ty;`.
#[derive(Debug, PartialEq)]
pub struct TypeAlias {
    pub attributes: Vec<Attribute>,
    pub name: String,
    pub ty: TypeExpression,
}

pub struct TypeAliasView {
    pub attributes: Seq<AttributeView>,
    pub name: Seq<char>,
    pub ty: TypeExpressionView,
}

impl View for TypeAlias {
    type V = TypeAliasView;

    open spec fn view(&self) -> TypeAliasView {
        TypeAliasView { attributes: views(self.attributes@), name: self.name@, ty: self.ty@ }
    }
}

/// A member of a struct.
#[derive(Debug, PartialEq)]
pub struct StructMember {
    pub attributes: Vec<Attribute>,
    pub name: String,
    pub ty: TypeExpression,
}

pub struct StructMemberView {
    pub attributes: Seq<AttributeView>,
    pub name: Seq<char>,
    pub ty: TypeExpressionView,
}

impl View for StructMember {
    type V = StructMemberView;

    open spec fn view(&self) -> StructMemberView {
        StructMemberView { attributes: views(self.attributes@), name: self.name@, ty: self.ty@ }
    }
}

/// A struct declaration.
#[derive(Debug, PartialEq)]
pub struct Struct {
    pub attributes: Vec<Attribute>,
    pub name: String,
    pub members: Vec<StructMember>,
}

pub struct StructView {
    pub attributes: Seq<AttributeView>,
    pub name: Seq<char>,
    pub members: Seq<StructMemberView>,
}

impl View for Struct {
    type V = StructView;

    open spec fn view(&self) -> StructView {
        StructView {
            attributes: views(self.attributes@),
            name: self.name@,
            members: views(self.members@),
        }
    }
}

/// A parameter of a function.
#[derive(Debug, PartialEq)]
pub struct FormalParameter {
    pub attributes: Vec<Attribute>,
    pub name: String,
    pub ty: TypeExpression,
}

pub struct FormalParameterView {
    pub attributes: Seq<AttributeView>,
    pub name: Seq<char>,
    pub ty: TypeExpressionView,
}

impl View for FormalParameter {
    type V = FormalParameterView;

    open spec fn view(&self) -> FormalParameterView {
        FormalParameterView { attributes: views(self.attributes@), name: self.name@, ty: self.ty@ }
    }
}

/// An assertion that is checked at compile time.
#[derive(Debug, PartialEq)]
pub struct ConstAssert {
    pub attributes: Vec<Attribute>,
    pub expression: ExpressionNode,
}

pub struct ConstAssertView {
    pub attributes: Seq<AttributeView>,
    pub expression: ExpressionNodeView,
}

impl View for ConstAssert {
    type V = ConstAssertView;

    open spec fn view(&self) -> ConstAssertView {
        ConstAssertView { attributes: views(self.attributes@), expression: self.expression@ }
    }
}

/// An import of one item of another module, under its own name or another.
#[derive(Debug, PartialEq)]
pub struct Import {
    pub attributes: Vec<Attribute>,
    pub path: Vec<String>,
    pub name: String,
    pub rename: Option<String>,
}

pub struct ImportView {
    pub attributes: Seq<AttributeView>,
    pub path: Seq<Seq<char>>,
    pub name: Seq<char>,
    pub rename: Option<Seq<char>>,
}

impl View for Import {
    type V = ImportView;

    open spec fn view(&self) -> ImportView {
        ImportView {
            attributes: views(self.attributes@),
            path: names(self.path@),
            name: self.name@,
            rename: match self.rename {
                Some(r) => Some(r@),
                None => None,
            },
        }
    }
}

/// A directive at the top of a module.
#[derive(Debug, PartialEq)]
pub enum GlobalDirective {
    Diagnostic { attributes: Vec<Attribute>, severity: DiagnosticSeverity, rule_name: String },
    Enable { attributes: Vec<Attribute>, extensions: Vec<String> },
    Requires { attributes: Vec<Attribute>, extensions: Vec<String> },
}

pub enum GlobalDirectiveView {
    Diagnostic {
        attributes: Seq<AttributeView>,
        severity: DiagnosticSeverity,
        rule_name: Seq<char>,
    },
    Enable { attributes: Seq<AttributeView>, extensions: Seq<Seq<char>> },
    Requires { attributes: Seq<AttributeView>, extensions: Seq<Seq<char>> },
}

impl View for GlobalDirective {
    type V = GlobalDirectiveView;

    open spec fn view(&self) -> GlobalDirectiveView {
        match self {
            GlobalDirective::Diagnostic { attributes, severity, rule_name } => {
                GlobalDirectiveView::Diagnostic {
                    attributes: views(attributes@),
                    severity: *severity,
                    rule_name: rule_name@,
                }
            },
            GlobalDirective::Enable { attributes, extensions } => GlobalDirectiveView::Enable {
                attributes: views(attributes@),
                extensions: names(extensions@),
            },
            GlobalDirective::Requires { attributes, extensions } => GlobalDirectiveView::Requires {
                attributes: views(attributes@),
                extensions: names(extensions@),
            },
        }
    }
}

/// A copy of a type that may be absent.
pub fn copy_optional_type(ty: &Option<TypeExpression>) -> (copy: Option<TypeExpression>)
    ensures
        optional_type(copy) == optional_type(*ty),
{
    match ty {
        Some(t) => Some(t.clone()),
        None => None,
    }
}

/// A copy of a list of names.
pub fn copy_names(list: &Vec<String>) -> (copy: Vec<String>)
    ensures
        names(copy@) == names(list@),
{
    let mut copy: Vec<String> = Vec::new();
    let mut i: usize = 0;
    while i < list.len()
        invariant
            i <= list.len(),
            copy@.len() == i,
            forall|k: int| 0 <= k < i ==> (#[trigger] copy@[k])@ == list@[k]@,
        decreases list.len() - i,
    {
        copy.push(list[i].clone());
        i += 1;
    }
    assert(names(copy@) =~= names(list@));
    copy
}

impl Clone for Declaration {
    fn clone(&self) -> (copy: Declaration)
        ensures
            copy@ == self@,
    {
        Declaration {
            attributes: copy_attributes(&self.attributes),
            kind: self.kind,
            name: self.name.clone(),
            ty: copy_optional_type(&self.ty),
            initializer: copy_optional_node(&self.initializer),
        }
    }
}

impl Clone for TypeAlias {
    fn clone(&self) -> (copy: TypeAlias)
        ensures
            copy@ == self@,
    {
        TypeAlias {
            attributes: copy_attributes(&self.attributes),
            name: self.name.clone(),
            ty: self.ty.clone(),
        }
    }
}

impl Clone for StructMember {
    fn clone(&self) -> (copy: StructMember)
        ensures
            copy@ == self@,
    {
        StructMember {
            attributes: copy_attributes(&self.attributes),
            name: self.name.clone(),
            ty: self.ty.clone(),
        }
    }
}

impl Clone for Struct {
    fn clone(&self) -> (copy: Struct)
        ensures
            copy@ == self@,
    {
        let mut members: Vec<StructMember> = Vec::new();
        let mut i: usize = 0;
        while i < self.members.len()
            invariant
                i <= self.members.len(),
                members@.len() == i,
                forall|k: int| 0 <= k < i ==> (#[trigger] members@[k])@ == self.members@[k]@,
            decreases self.members.len() - i,
        {
            members.push(self.members[i].clone());
            i += 1;
        }
        assert(views(members@) =~= views(self.members@));
        Struct { attributes: copy_attributes(&self.attributes), name: self.name.clone(), members }
    }
}

impl Clone for FormalParameter {
    fn clone(&self) -> (copy: FormalParameter)
        ensures
            copy@ == self@,
    {
        FormalParameter {
            attributes: copy_attributes(&self.attributes),
            name: self.name.clone(),
            ty: self.ty.clone(),
        }
    }
}

impl Clone for ConstAssert {
    fn clone(&self) -> (copy: ConstAssert)
        ensures
            copy@ == self@,
    {
        ConstAssert {
            attributes: copy_attributes(&self.attributes),
            expression: self.expression.clone(),
        }
    }
}

impl Clone for Import {
    fn clone(&self) -> (copy: Import)
        ensures
            copy@ == self@,
    {
        Import {
            attributes: copy_attributes(&self.attributes),
            path: copy_names(&self.path),
            name: self.name.clone(),
            rename: match &self.rename {
                Some(r) => Some(r.clone()),
                None => None,
            },
        }
    }
}

impl Clone for GlobalDirective {
    fn clone(&self) -> (copy: GlobalDirective)
        ensures
            copy@ == self@,
    {
        match self {
            GlobalDirective::Diagnostic { attributes, severity, rule_name } => {
                GlobalDirective::Diagnostic {
                    attributes: copy_attributes(attributes),
                    severity: *severity,
                    rule_name: rule_name.clone(),
                }
            },
            GlobalDirective::Enable { attributes, extensions } => GlobalDirective::Enable {
                attributes: copy_attributes(attributes),
                extensions: copy_names(extensions),
            },
            GlobalDirective::Requires { attributes, extensions } => GlobalDirective::Requires {
                attributes: copy_attributes(attributes),
                extensions: copy_names(extensions),
            },
        }
    }
}

} // verus!
