use crate::model::views;
use crate::syntax::attribute::{copy_attributes, Attribute, AttributeView};
use crate::syntax::declaration::{
    copy_optional_type, optional_type, ConstAssert, ConstAssertView, Declaration, DeclarationView,
    FormalParameter, FormalParameterView, GlobalDirective, GlobalDirectiveView, Import, ImportView,
    Struct, StructView, TypeAlias, TypeAliasView,
};
use crate::syntax::expression::{TypeExpression, TypeExpressionView};
use crate::syntax::statement::{CompoundStatement, CompoundStatementView};
use vstd::prelude::*;

verus! {

/// A function declaration.
#[derive(Debug, PartialEq)]
pub struct Function {
    pub attributes: Vec<Attribute>,
    pub name: String,
    pub parameters: Vec<FormalParameter>,
    pub return_attributes: Vec<Attribute>,
    pub return_type: Option<TypeExpression>,
    pub body: CompoundStatement,
}

pub struct FunctionView {
    pub attributes: Seq<AttributeView>,
    pub name: Seq<char>,
    pub parameters: Seq<FormalParameterView>,
    pub return_attributes: Seq<AttributeView>,
    pub return_type: Option<TypeExpressionView>,
    pub body: CompoundStatementView,
}

impl View for Function {
    type V = FunctionView;

    open spec fn view(&self) -> FunctionView {
        FunctionView {
            attributes: views(self.attributes@),
            name: self.name@,
            parameters: views(self.parameters@),
            return_attributes: views(self.return_attributes@),
            return_type: optional_type(self.return_type),
            body: self.body@,
        }
    }
}

/// A declaration at module scope.
#[derive(Debug, PartialEq)]
pub enum GlobalDeclaration {
    Declaration(Declaration),
    TypeAlias(TypeAlias),
    Struct(Struct),
    Function(Function),
    ConstAssert(ConstAssert),
}

pub enum GlobalDeclarationView {
    Declaration(DeclarationView),
    TypeAlias(TypeAliasView),
    Struct(StructView),
    Function(FunctionView),
    ConstAssert(ConstAssertView),
}

impl View for GlobalDeclaration {
    type V = GlobalDeclarationView;

    open spec fn view(&self) -> GlobalDeclarationView {
        match self {
            GlobalDeclaration::Declaration(d) => GlobalDeclarationView::Declaration(d@),
            GlobalDeclaration::TypeAlias(d) => GlobalDeclarationView::TypeAlias(d@),
            GlobalDeclaration::Struct(d) => GlobalDeclarationView::Struct(d@),
            GlobalDeclaration::Function(d) => GlobalDeclarationView::Function(d@),
            GlobalDeclaration::ConstAssert(d) => GlobalDeclarationView::ConstAssert(d@),
        }
    }
}

/// A whole module as it was parsed: imports, directives, declarations.
#[derive(Debug, PartialEq)]
pub struct TranslationUnit {
    pub imports: Vec<Import>,
    pub global_directives: Vec<GlobalDirective>,
    pub global_declarations: Vec<GlobalDeclaration>,
}

pub struct TranslationUnitView {
    pub imports: Seq<ImportView>,
    pub global_directives: Seq<GlobalDirectiveView>,
    pub global_declarations: Seq<GlobalDeclarationView>,
}

impl View for TranslationUnit {
    type V = TranslationUnitView;

    open spec fn view(&self) -> TranslationUnitView {
        TranslationUnitView {
            imports: views(self.imports@),
            global_directives: views(self.global_directives@),
            global_declarations: views(self.global_declarations@),
        }
    }
}

impl Clone for Function {
    fn clone(&self) -> (copy: Function)
        ensures
            copy@ == self@,
    {
        let mut parameters: Vec<FormalParameter> = Vec::new();
        let mut i: usize = 0;
        while i < self.parameters.len()
            invariant
                i <= self.parameters.len(),
                parameters@.len() == i,
                forall|k: int|
                    0 <= k < i ==> (#[trigger] parameters@[k])@ == self.parameters@[k]@,
            decreases self.parameters.len() - i,
        {
            parameters.push(self.parameters[i].clone());
            i += 1;
        }
        assert(views(parameters@) =~= views(self.parameters@));
        Function {
            attributes: copy_attributes(&self.attributes),
            name: self.name.clone(),
            parameters,
            return_attributes: copy_attributes(&self.return_attributes),
            return_type: copy_optional_type(&self.return_type),
            body: self.body.clone(),
        }
    }
}

impl Clone for GlobalDeclaration {
    fn clone(&self) -> (copy: GlobalDeclaration)
        ensures
            copy@ == self@,
    {
        match self {
            GlobalDeclaration::Declaration(d) => GlobalDeclaration::Declaration(d.clone()),
            GlobalDeclaration::TypeAlias(d) => GlobalDeclaration::TypeAlias(d.clone()),
            GlobalDeclaration::Struct(d) => GlobalDeclaration::Struct(d.clone()),
            GlobalDeclaration::Function(d) => GlobalDeclaration::Function(d.clone()),
            GlobalDeclaration::ConstAssert(d) => GlobalDeclaration::ConstAssert(d.clone()),
        }
    }
}

impl Clone for TranslationUnit {
    fn clone(&self) -> (copy: TranslationUnit)
        ensures
            copy@ == self@,
    {
        let mut imports: Vec<Import> = Vec::new();
        let mut i: usize = 0;
        while i < self.imports.len()
            invariant
                i <= self.imports.len(),
                imports@.len() == i,
                forall|k: int| 0 <= k < i ==> (#[trigger] imports@[k])@ == self.imports@[k]@,
            decreases self.imports.len() - i,
        {
            imports.push(self.imports[i].clone());
            i += 1;
        }
        assert(views(imports@) =~= views(self.imports@));
        let mut global_directives: Vec<GlobalDirective> = Vec::new();
        let mut i: usize = 0;
        while i < self.global_directives.len()
            invariant
                i <= self.global_directives.len(),
                global_directives@.len() == i,
                views(imports@) == views(self.imports@),
                forall|k: int|
                    0 <= k < i ==> (#[trigger] global_directives@[k])@
                        == self.global_directives@[k]@,
            decreases self.global_directives.len() - i,
        {
            global_directives.push(self.global_directives[i].clone());
            i += 1;
        }
        assert(views(global_directives@) =~= views(self.global_directives@));
        let mut global_declarations: Vec<GlobalDeclaration> = Vec::new();
        let mut i: usize = 0;
        while i < self.global_declarations.len()
            invariant
                i <= self.global_declarations.len(),
                global_declarations@.len() == i,
                views(imports@) == views(self.imports@),
                views(global_directives@) == views(self.global_directives@),
                forall|k: int|
                    0 <= k < i ==> (#[trigger] global_declarations@[k])@
                        == self.global_declarations@[k]@,
            decreases self.global_declarations.len() - i,
        {
            global_declarations.push(self.global_declarations[i].clone());
            i += 1;
        }
        assert(views(global_declarations@) =~= views(self.global_declarations@));
        TranslationUnit { imports, global_directives, global_declarations }
    }
}

} // verus!
