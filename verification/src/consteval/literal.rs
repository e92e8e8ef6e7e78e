use crate::consteval::ty::{Type, TypeView};
use vstd::prelude::*;

verus! {

/// A scalar value. A floating-point value is held as its IEEE-754 bit
/// pattern; an `F16` is held widened to 32 bits.
#[derive(Clone, Copy, Debug, PartialEq, Eq, Structural)]
pub enum LiteralInstance {
    Bool(bool),
    AbstractInt(i64),
    AbstractFloat(u64),
    I32(i32),
    U32(u32),
    F32(u32),
    F16(u32),
}

/// What has a type: a value, a part of a value, or a type itself.
pub trait Ty {
    /// Whether the type can be read off: a vector or matrix has its
    /// components, and an array has at least one.
    spec fn typed(&self) -> bool;

    spec fn type_of(&self) -> TypeView;

    /// The type of the components, one level down; for what has no
    /// components, the type itself.
    spec fn inner_type_of(&self) -> TypeView;

    fn ty(&self) -> (ty: Type)
        requires
            self.typed(),
        ensures
            ty@ == self.type_of(),
    ;

    fn inner_ty(&self) -> (ty: Type)
        requires
            self.typed(),
        ensures
            ty@ == self.inner_type_of(),
    ;
}

impl LiteralInstance {
    /// The scalar type of a literal.
    pub open spec fn scalar(self) -> TypeView {
        match self {
            LiteralInstance::Bool(_) => TypeView::Bool,
            LiteralInstance::AbstractInt(_) => TypeView::AbstractInt,
            LiteralInstance::AbstractFloat(_) => TypeView::AbstractFloat,
            LiteralInstance::I32(_) => TypeView::I32,
            LiteralInstance::U32(_) => TypeView::U32,
            LiteralInstance::F32(_) => TypeView::F32,
            LiteralInstance::F16(_) => TypeView::F16,
        }
    }
}

impl Ty for LiteralInstance {
    open spec fn typed(&self) -> bool {
        true
    }

    open spec fn type_of(&self) -> TypeView {
        self.scalar()
    }

    open spec fn inner_type_of(&self) -> TypeView {
        self.scalar()
    }

    fn ty(&self) -> (ty: Type) {
        match self {
            LiteralInstance::Bool(_) => Type::Bool,
            LiteralInstance::AbstractInt(_) => Type::AbstractInt,
            LiteralInstance::AbstractFloat(_) => Type::AbstractFloat,
            LiteralInstance::I32(_) => Type::I32,
            LiteralInstance::U32(_) => Type::U32,
            LiteralInstance::F32(_) => Type::F32,
            LiteralInstance::F16(_) => Type::F16,
        }
    }

    fn inner_ty(&self) -> (ty: Type) {
        self.ty()
    }
}

impl Ty for Type {
    open spec fn typed(&self) -> bool {
        true
    }

    open spec fn type_of(&self) -> TypeView {
        self@
    }

    open spec fn inner_type_of(&self) -> TypeView {
        self@.inner()
    }

    fn ty(&self) -> (ty: Type) {
        self.clone()
    }

    fn inner_ty(&self) -> (ty: Type) {
        match self {
            Type::Array(_, ty) => (**ty).clone(),
            Type::Vec(_, ty) => (**ty).clone(),
            Type::Mat(_, _, ty) => (**ty).clone(),
            Type::Atomic(ty) => (**ty).clone(),
            _ => self.clone(),
        }
    }
}

} // verus!
