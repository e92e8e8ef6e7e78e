use crate::model::views;
use crate::syntax::declaration::{Struct, StructView};
use crate::syntax::expression::{TypeExpression, TypeExpressionView};
use crate::syntax::unit::{GlobalDeclaration, GlobalDeclarationView, TranslationUnit};
use crate::text::str_eq;
use vstd::prelude::*;

verus! {

/// What type derivation reads of the module that is compiled.
pub struct Context<'a> {
    pub source: &'a TranslationUnit,
}

/// `i` is where the first alias named `name` is declared.
pub open spec fn is_alias_at(
    declarations: Seq<GlobalDeclarationView>,
    name: Seq<char>,
    i: int,
) -> bool {
    &&& 0 <= i < declarations.len()
    &&& declarations[i] matches GlobalDeclarationView::TypeAlias(a) && a.name == name
    &&& forall|j: int|
        0 <= j < i ==> !((#[trigger] declarations[j]) matches GlobalDeclarationView::TypeAlias(a)
            && a.name == name)
}

/// The type that the first alias named `name` stands for, if one is declared.
pub open spec fn alias_of(declarations: Seq<GlobalDeclarationView>, name: Seq<char>) -> Option<
    TypeExpressionView,
> {
    if exists|i: int| is_alias_at(declarations, name, i) {
        Some(declarations[choose|i: int| is_alias_at(declarations, name, i)]->TypeAlias_0.ty)
    } else {
        None
    }
}

/// `i` is where the first struct named `name` is declared.
pub open spec fn is_struct_at(
    declarations: Seq<GlobalDeclarationView>,
    name: Seq<char>,
    i: int,
) -> bool {
    &&& 0 <= i < declarations.len()
    &&& declarations[i] matches GlobalDeclarationView::Struct(s) && s.name == name
    &&& forall|j: int|
        0 <= j < i ==> !((#[trigger] declarations[j]) matches GlobalDeclarationView::Struct(s)
            && s.name == name)
}

/// The first struct named `name`, if one is declared.
pub open spec fn struct_of(declarations: Seq<GlobalDeclarationView>, name: Seq<char>) -> Option<
    StructView,
> {
    if exists|i: int| is_struct_at(declarations, name, i) {
        Some(declarations[choose|i: int| is_struct_at(declarations, name, i)]->Struct_0)
    } else {
        None
    }
}

proof fn lemma_alias_unique(declarations: Seq<GlobalDeclarationView>, name: Seq<char>, i: int)
    requires
        is_alias_at(declarations, name, i),
    ensures
        alias_of(declarations, name) == Some(declarations[i]->TypeAlias_0.ty),
{
    let k = choose|k: int| is_alias_at(declarations, name, k);
    if k < i {
        assert(!(declarations[k] matches GlobalDeclarationView::TypeAlias(a) && a.name == name));
    } else if i < k {
        assert(!(declarations[i] matches GlobalDeclarationView::TypeAlias(a) && a.name == name));
    }
}

proof fn lemma_struct_unique(declarations: Seq<GlobalDeclarationView>, name: Seq<char>, i: int)
    requires
        is_struct_at(declarations, name, i),
    ensures
        struct_of(declarations, name) == Some(declarations[i]->Struct_0),
{
    let k = choose|k: int| is_struct_at(declarations, name, k);
    if k < i {
        assert(!(declarations[k] matches GlobalDeclarationView::Struct(s) && s.name == name));
    } else if i < k {
        assert(!(declarations[i] matches GlobalDeclarationView::Struct(s) && s.name == name));
    }
}

impl TranslationUnit {
    /// The type that the alias named `name` stands for, if the module
    /// declares such an alias.
    pub fn resolve_alias(&self, name: &str) -> (ty: Option<TypeExpression>)
        ensures
            match ty {
                Some(t) => alias_of(self@.global_declarations, name@) == Some(t@),
                None => alias_of(self@.global_declarations, name@) is None,
            },
    {
        let ghost declarations = self@.global_declarations;
        let mut i: usize = 0;
        while i < self.global_declarations.len()
            invariant
                i <= self.global_declarations.len(),
                declarations == views(self.global_declarations@),
                forall|j: int|
                    0 <= j < i ==> !((#[trigger] declarations[j])
                        matches GlobalDeclarationView::TypeAlias(a) && a.name == name@),
            decreases self.global_declarations.len() - i,
        {
            match &self.global_declarations[i] {
                GlobalDeclaration::TypeAlias(alias) => {
                    if str_eq(alias.name.as_str(), name) {
                        proof {
                            lemma_alias_unique(declarations, name@, i as int);
                        }
                        return Some(alias.ty.clone());
                    }
                },
                _ => {},
            }
            i += 1;
        }
        None
    }

    /// The struct named `name`, if the module declares one.
    pub fn decl_struct(&self, name: &str) -> (decl: Option<&Struct>)
        ensures
            match decl {
                Some(s) => struct_of(self@.global_declarations, name@) == Some(s@),
                None => struct_of(self@.global_declarations, name@) is None,
            },
    {
        let ghost declarations = self@.global_declarations;
        let mut i: usize = 0;
        while i < self.global_declarations.len()
            invariant
                i <= self.global_declarations.len(),
                declarations == views(self.global_declarations@),
                forall|j: int|
                    0 <= j < i ==> !((#[trigger] declarations[j])
                        matches GlobalDeclarationView::Struct(s) && s.name == name@),
            decreases self.global_declarations.len() - i,
        {
            match &self.global_declarations[i] {
                GlobalDeclaration::Struct(s) => {
                    if str_eq(s.name.as_str(), name) {
                        proof {
                            lemma_struct_unique(declarations, name@, i as int);
                        }
                        return Some(s);
                    }
                },
                _ => {},
            }
            i += 1;
        }
        None
    }
}

} // verus!
