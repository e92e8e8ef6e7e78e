use crate::consteval::ty::{Type, TypeView};
use crate::syntax::expression::{TypeExpression, TypeExpressionView};
use vstd::prelude::*;

verus! {

/// Why a value or a type could not be derived.
#[derive(Debug, PartialEq)]
pub enum ConstEvalError {
    /// The name is no builtin type, no alias and no struct.
    UnknownType(TypeExpression),
    /// Template arguments on a type that takes none.
    UnexpectedTemplate(Type),
    /// No template arguments on a type that needs them.
    MissingTemplate(&'static str),
    /// Template arguments of the wrong number or kind.
    TemplateArgs(&'static str),
    /// A vector or matrix built from a number of components other than 2, 3 or 4.
    ArityMismatch(usize),
    /// An array built from components of different types.
    ComponentTypes,
    /// A value whose type cannot be read off, such as an array without
    /// components.
    Untyped,
    /// A value read while it is borrowed for writing, or borrowed for writing
    /// while it is borrowed at all.
    BorrowConflict,
    /// A reference whose path leads to no value.
    InvalidReference,
}

pub enum ConstEvalErrorView {
    UnknownType(TypeExpressionView),
    UnexpectedTemplate(TypeView),
    MissingTemplate(Seq<char>),
    TemplateArgs(Seq<char>),
    ArityMismatch(usize),
    ComponentTypes,
    Untyped,
    BorrowConflict,
    InvalidReference,
}

impl View for ConstEvalError {
    type V = ConstEvalErrorView;

    open spec fn view(&self) -> ConstEvalErrorView {
        match self {
            ConstEvalError::UnknownType(ty) => ConstEvalErrorView::UnknownType(ty@),
            ConstEvalError::UnexpectedTemplate(ty) => ConstEvalErrorView::UnexpectedTemplate(ty@),
            ConstEvalError::MissingTemplate(name) => ConstEvalErrorView::MissingTemplate(name@),
            ConstEvalError::TemplateArgs(name) => ConstEvalErrorView::TemplateArgs(name@),
            ConstEvalError::ArityMismatch(n) => ConstEvalErrorView::ArityMismatch(*n),
            ConstEvalError::ComponentTypes => ConstEvalErrorView::ComponentTypes,
            ConstEvalError::Untyped => ConstEvalErrorView::Untyped,
            ConstEvalError::BorrowConflict => ConstEvalErrorView::BorrowConflict,
            ConstEvalError::InvalidReference => ConstEvalErrorView::InvalidReference,
        }
    }
}

impl Clone for ConstEvalError {
    fn clone(&self) -> (copy: ConstEvalError)
        ensures
            copy@ == self@,
    {
        match self {
            ConstEvalError::UnknownType(ty) => ConstEvalError::UnknownType(ty.clone()),
            ConstEvalError::UnexpectedTemplate(ty) => ConstEvalError::UnexpectedTemplate(
                ty.clone(),
            ),
            ConstEvalError::MissingTemplate(name) => ConstEvalError::MissingTemplate(name),
            ConstEvalError::TemplateArgs(name) => ConstEvalError::TemplateArgs(name),
            ConstEvalError::ArityMismatch(n) => ConstEvalError::ArityMismatch(*n),
            ConstEvalError::ComponentTypes => ConstEvalError::ComponentTypes,
            ConstEvalError::Untyped => ConstEvalError::Untyped,
            ConstEvalError::BorrowConflict => ConstEvalError::BorrowConflict,
            ConstEvalError::InvalidReference => ConstEvalError::InvalidReference,
        }
    }
}

} // verus!
