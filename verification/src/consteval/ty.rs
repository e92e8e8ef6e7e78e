use vstd::prelude::*;
use vstd::std_specs::cmp::PartialEqSpecImpl;

verus! {

/// The type of a value. A vector has 2, 3 or 4 components, a matrix 2, 3 or 4
/// columns and rows; an array may carry its length.
#[derive(Debug)]
pub enum Type {
    Bool,
    AbstractInt,
    AbstractFloat,
    I32,
    U32,
    F32,
    F16,
    Struct(String),
    Array(Option<usize>, Box<Type>),
    Vec(u8, Box<Type>),
    Mat(u8, u8, Box<Type>),
    Atomic(Box<Type>),
    Ptr(Box<Type>),
    Void,
}

pub enum TypeView {
    Bool,
    AbstractInt,
    AbstractFloat,
    I32,
    U32,
    F32,
    F16,
    Struct(Seq<char>),
    Array(Option<usize>, Box<TypeView>),
    Vec(u8, Box<TypeView>),
    Mat(u8, u8, Box<TypeView>),
    Atomic(Box<TypeView>),
    Ptr(Box<TypeView>),
    Void,
}

impl TypeView {
    /// The eight kinds of scalar.
    pub open spec fn is_scalar(self) -> bool {
        self is Bool || self is AbstractInt || self is AbstractFloat || self is I32 || self is U32
            || self is F32 || self is F16
    }

    /// The scalars but `bool`.
    pub open spec fn is_numeric(self) -> bool {
        self.is_scalar() && !(self is Bool)
    }

    /// The three kinds of integer.
    pub open spec fn is_integer(self) -> bool {
        self is AbstractInt || self is I32 || self is U32
    }

    /// The two abstract scalars, and every array, vector and matrix of
    /// abstract elements.
    pub open spec fn is_abstract(self) -> bool
        decreases self,
    {
        match self {
            TypeView::AbstractInt => true,
            TypeView::AbstractFloat => true,
            TypeView::Array(_, ty) => ty.is_abstract(),
            TypeView::Vec(_, ty) => ty.is_abstract(),
            TypeView::Mat(_, _, ty) => ty.is_abstract(),
            _ => false,
        }
    }

    /// What is not abstract.
    pub open spec fn is_concrete(self) -> bool {
        !self.is_abstract()
    }

    /// The type of the components of an array, a vector, a matrix or an
    /// atomic, one level down; every other type is its own inner type.
    pub open spec fn inner(self) -> TypeView {
        match self {
            TypeView::Array(_, ty) => *ty,
            TypeView::Vec(_, ty) => *ty,
            TypeView::Mat(_, _, ty) => *ty,
            TypeView::Atomic(ty) => *ty,
            _ => self,
        }
    }
}

impl Type {
    pub open spec fn model(self) -> TypeView
        decreases self,
    {
        match self {
            Type::Bool => TypeView::Bool,
            Type::AbstractInt => TypeView::AbstractInt,
            Type::AbstractFloat => TypeView::AbstractFloat,
            Type::I32 => TypeView::I32,
            Type::U32 => TypeView::U32,
            Type::F32 => TypeView::F32,
            Type::F16 => TypeView::F16,
            Type::Struct(name) => TypeView::Struct(name@),
            Type::Array(n, ty) => TypeView::Array(n, Box::new(ty.model())),
            Type::Vec(n, ty) => TypeView::Vec(n, Box::new(ty.model())),
            Type::Mat(c, r, ty) => TypeView::Mat(c, r, Box::new(ty.model())),
            Type::Atomic(ty) => TypeView::Atomic(Box::new(ty.model())),
            Type::Ptr(ty) => TypeView::Ptr(Box::new(ty.model())),
            Type::Void => TypeView::Void,
        }
    }
}

impl View for Type {
    type V = TypeView;

    open spec fn view(&self) -> TypeView {
        self.model()
    }
}

impl Type {
    pub fn is_scalar(&self) -> (scalar: bool)
        ensures
            scalar == self@.is_scalar(),
    {
        match self {
            Type::Bool
            | Type::AbstractInt
            | Type::AbstractFloat
            | Type::I32
            | Type::U32
            | Type::F32
            | Type::F16 => true,
            _ => false,
        }
    }

    pub fn is_numeric(&self) -> (numeric: bool)
        ensures
            numeric == self@.is_numeric(),
    {
        match self {
            Type::AbstractInt
            | Type::AbstractFloat
            | Type::I32
            | Type::U32
            | Type::F32
            | Type::F16 => true,
            _ => false,
        }
    }

    /// The three kinds of integer.
    pub fn is_integer(&self) -> (integer: bool)
        ensures
            integer == self@.is_integer(),
    {
        match self {
            Type::AbstractInt | Type::I32 | Type::U32 => true,
            _ => false,
        }
    }

    pub fn is_abstract(&self) -> (is_abstract: bool)
        ensures
            is_abstract == self@.is_abstract(),
        decreases self,
    {
        match self {
            Type::AbstractInt => true,
            Type::AbstractFloat => true,
            Type::Array(_, ty) | Type::Vec(_, ty) | Type::Mat(_, _, ty) => ty.is_abstract(),
            _ => false,
        }
    }

    /// What is not abstract.
    pub fn is_concrete(&self) -> (concrete: bool)
        ensures
            concrete == self@.is_concrete(),
    {
        !self.is_abstract()
    }

    pub fn copy(&self) -> (copy: Type)
        ensures
            copy@ == self@,
        decreases self,
    {
        match self {
            Type::Bool => Type::Bool,
            Type::AbstractInt => Type::AbstractInt,
            Type::AbstractFloat => Type::AbstractFloat,
            Type::I32 => Type::I32,
            Type::U32 => Type::U32,
            Type::F32 => Type::F32,
            Type::F16 => Type::F16,
            Type::Struct(name) => Type::Struct(name.clone()),
            Type::Array(n, ty) => Type::Array(*n, Box::new(ty.copy())),
            Type::Vec(n, ty) => Type::Vec(*n, Box::new(ty.copy())),
            Type::Mat(c, r, ty) => Type::Mat(*c, *r, Box::new(ty.copy())),
            Type::Atomic(ty) => Type::Atomic(Box::new(ty.copy())),
            Type::Ptr(ty) => Type::Ptr(Box::new(ty.copy())),
            Type::Void => Type::Void,
        }
    }

    /// Whether two types are the same type.
    pub fn same(&self, other: &Type) -> (same: bool)
        ensures
            same == (self@ == other@),
        decreases self,
    {
        match (self, other) {
            (Type::Bool, Type::Bool) => true,
            (Type::AbstractInt, Type::AbstractInt) => true,
            (Type::AbstractFloat, Type::AbstractFloat) => true,
            (Type::I32, Type::I32) => true,
            (Type::U32, Type::U32) => true,
            (Type::F32, Type::F32) => true,
            (Type::F16, Type::F16) => true,
            (Type::Struct(a), Type::Struct(b)) => *a == *b,
            (Type::Array(n, a), Type::Array(m, b)) => {
                let lengths = match (n, m) {
                    (Some(x), Some(y)) => *x == *y,
                    (None, None) => true,
                    _ => false,
                };
                lengths && a.same(b)
            },
            (Type::Vec(n, a), Type::Vec(m, b)) => *n == *m && a.same(b),
            (Type::Mat(c, r, a), Type::Mat(d, s, b)) => *c == *d && *r == *s && a.same(b),
            (Type::Atomic(a), Type::Atomic(b)) => a.same(b),
            (Type::Ptr(a), Type::Ptr(b)) => a.same(b),
            (Type::Void, Type::Void) => true,
            _ => false,
        }
    }
}

impl Clone for Type {
    fn clone(&self) -> (copy: Type)
        ensures
            copy@ == self@,
    {
        self.copy()
    }
}

impl PartialEq for Type {
    fn eq(&self, other: &Type) -> (same: bool) {
        self.same(other)
    }
}

impl PartialEqSpecImpl for Type {
    open spec fn obeys_eq_spec() -> bool {
        true
    }

    open spec fn eq_spec(&self, other: &Type) -> bool {
        self@ == other@
    }
}

} // verus!
