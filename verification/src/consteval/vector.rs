use crate::consteval::error::{ConstEvalError, ConstEvalErrorView};
use crate::consteval::literal::{LiteralInstance, Ty};
use crate::consteval::ty::{Type, TypeView};
use vstd::prelude::*;

verus! {

/// Whether a vector may have `n` components, or a matrix `n` columns or rows.
pub open spec fn arity(n: int) -> bool {
    2 <= n <= 4
}

/// A vector of `N` scalars.
#[derive(Debug, PartialEq)]
pub struct VecInner<const N: usize> {
    pub components: Vec<LiteralInstance>,
}

pub type Vec2 = VecInner<2>;

pub type Vec3 = VecInner<3>;

pub type Vec4 = VecInner<4>;

impl<const N: usize> View for VecInner<N> {
    type V = Seq<LiteralInstance>;

    open spec fn view(&self) -> Seq<LiteralInstance> {
        self.components@
    }
}

impl<const N: usize> VecInner<N> {
    /// The vector holds `N` components, and `N` is 2, 3 or 4.
    pub open spec fn wf(&self) -> bool {
        self@.len() == N && arity(N as int)
    }

    /// A vector of the given components: an arity error unless there are `N`
    /// of them and `N` is 2, 3 or 4.
    pub fn new(components: Vec<LiteralInstance>) -> (result: Result<Self, ConstEvalError>)
        ensures
            match result {
                Ok(v) => v@ == components@ && v.wf(),
                Err(e) => e@ == ConstEvalErrorView::ArityMismatch(components@.len() as usize) && !(
                components@.len() == N && arity(N as int)),
            },
    {
        if components.len() == N && 2 <= N && N <= 4 {
            Ok(VecInner { components })
        } else {
            Err(ConstEvalError::ArityMismatch(components.len()))
        }
    }

    /// A vector whose `N` components are all `val`: an arity error unless `N`
    /// is 2, 3 or 4.
    pub fn new_with_value(val: &LiteralInstance) -> (result: Result<Self, ConstEvalError>)
        ensures
            match result {
                Ok(v) => v.wf() && forall|i: int| 0 <= i < N ==> v@[i] == *val,
                Err(e) => e@ == ConstEvalErrorView::ArityMismatch(N) && !arity(N as int),
            },
    {
        if !(2 <= N && N <= 4) {
            return Err(ConstEvalError::ArityMismatch(N));
        }
        let mut components: Vec<LiteralInstance> = Vec::new();
        let mut i: usize = 0;
        while i < N
            invariant
                i <= N,
                components@.len() == i,
                forall|k: int| 0 <= k < i ==> components@[k] == *val,
            decreases N - i,
        {
            components.push(*val);
            i += 1;
        }
        Ok(VecInner { components })
    }

    /// The component at position `i`, if there is one.
    pub fn get(&self, i: usize) -> (component: Option<&LiteralInstance>)
        ensures
            component == if i < self@.len() {
                Some(&self@[i as int])
            } else {
                None
            },
    {
        if i < self.components.len() {
            Some(&self.components[i])
        } else {
            None
        }
    }

    /// The components in order.
    pub fn iter(&self) -> (components: &Vec<LiteralInstance>)
        ensures
            components@ == self@,
    {
        &self.components
    }

    /// The components in order, for writing.
    pub fn iter_mut(&mut self) -> (components: &mut Vec<LiteralInstance>)
        ensures
            components@ == old(self)@,
            final(self)@ == final(components)@,
    {
        &mut self.components
    }

    pub fn copy(&self) -> (copy: Self)
        ensures
            copy@ == self@,
    {
        let mut components: Vec<LiteralInstance> = Vec::new();
        let mut i: usize = 0;
        while i < self.components.len()
            invariant
                i <= self.components.len(),
                components@ == self@.subrange(0, i as int),
            decreases self.components.len() - i,
        {
            components.push(self.components[i]);
            assert(components@ =~= self@.subrange(0, i + 1));
            i += 1;
        }
        assert(components@ =~= self@);
        VecInner { components }
    }
}

impl<const N: usize> Clone for VecInner<N> {
    fn clone(&self) -> (copy: Self)
        ensures
            copy@ == self@,
    {
        self.copy()
    }
}

/// The type of a vector of the given components.
pub open spec fn vector_type(components: Seq<LiteralInstance>) -> TypeView {
    TypeView::Vec(components.len() as u8, Box::new(components[0].scalar()))
}

impl<const N: usize> Ty for VecInner<N> {
    open spec fn typed(&self) -> bool {
        self.wf()
    }

    open spec fn type_of(&self) -> TypeView {
        vector_type(self@)
    }

    /// The type of the first component.
    open spec fn inner_type_of(&self) -> TypeView {
        self@[0].scalar()
    }

    fn ty(&self) -> (ty: Type) {
        let n: u8 = if N == 2 {
            2
        } else if N == 3 {
            3
        } else {
            4
        };
        Type::Vec(n, Box::new(self.inner_ty()))
    }

    fn inner_ty(&self) -> (ty: Type) {
        self.components[0].ty()
    }
}

/// A vector of 2, 3 or 4 scalars.
#[derive(Debug, PartialEq)]
pub enum VecInstance {
    Vec2(Vec2),
    Vec3(Vec3),
    Vec4(Vec4),
}

impl View for VecInstance {
    type V = Seq<LiteralInstance>;

    open spec fn view(&self) -> Seq<LiteralInstance> {
        match self {
            VecInstance::Vec2(v) => v@,
            VecInstance::Vec3(v) => v@,
            VecInstance::Vec4(v) => v@,
        }
    }
}

impl VecInstance {
    /// The number of components that the variant stands for.
    pub open spec fn arity(&self) -> int {
        match self {
            VecInstance::Vec2(_) => 2,
            VecInstance::Vec3(_) => 3,
            VecInstance::Vec4(_) => 4,
        }
    }

    /// The vector holds as many components as its variant says.
    pub open spec fn wf(&self) -> bool {
        self@.len() == self.arity()
    }

    /// A vector of the given components: an arity error unless there are 2, 3
    /// or 4 of them.
    pub fn new(components: Vec<LiteralInstance>) -> (result: Result<VecInstance, ConstEvalError>)
        ensures
            match result {
                Ok(v) => v@ == components@ && v.wf() && arity(components@.len() as int),
                Err(e) => e@ == ConstEvalErrorView::ArityMismatch(components@.len() as usize)
                    && !arity(components@.len() as int),
            },
    {
        let n = components.len();
        if n == 2 {
            Ok(VecInstance::Vec2(VecInner { components }))
        } else if n == 3 {
            Ok(VecInstance::Vec3(VecInner { components }))
        } else if n == 4 {
            Ok(VecInstance::Vec4(VecInner { components }))
        } else {
            Err(ConstEvalError::ArityMismatch(n))
        }
    }

    /// The number of components.
    pub fn n(&self) -> (n: u8)
        ensures
            n == self.arity(),
    {
        match self {
            VecInstance::Vec2(_) => 2,
            VecInstance::Vec3(_) => 3,
            VecInstance::Vec4(_) => 4,
        }
    }

    /// The component at position `i`, if there is one.
    pub fn get(&self, i: usize) -> (component: Option<&LiteralInstance>)
        ensures
            component == if i < self@.len() {
                Some(&self@[i as int])
            } else {
                None
            },
    {
        match self {
            VecInstance::Vec2(v) => v.get(i),
            VecInstance::Vec3(v) => v.get(i),
            VecInstance::Vec4(v) => v.get(i),
        }
    }

    /// The components in order.
    pub fn iter(&self) -> (components: &Vec<LiteralInstance>)
        ensures
            components@ == self@,
    {
        match self {
            VecInstance::Vec2(v) => v.iter(),
            VecInstance::Vec3(v) => v.iter(),
            VecInstance::Vec4(v) => v.iter(),
        }
    }

    /// The components in order, for writing.
    pub fn iter_mut(&mut self) -> (components: &mut Vec<LiteralInstance>)
        ensures
            components@ == old(self)@,
            final(self)@ == final(components)@,
            final(self).arity() == old(self).arity(),
    {
        match self {
            VecInstance::Vec2(v) => v.iter_mut(),
            VecInstance::Vec3(v) => v.iter_mut(),
            VecInstance::Vec4(v) => v.iter_mut(),
        }
    }
}

impl Ty for VecInstance {
    open spec fn typed(&self) -> bool {
        self.wf()
    }

    open spec fn type_of(&self) -> TypeView {
        vector_type(self@)
    }

    open spec fn inner_type_of(&self) -> TypeView {
        self@[0].scalar()
    }

    fn ty(&self) -> (ty: Type) {
        Type::Vec(self.n(), Box::new(self.inner_ty()))
    }

    fn inner_ty(&self) -> (ty: Type) {
        match self {
            VecInstance::Vec2(v) => v.inner_ty(),
            VecInstance::Vec3(v) => v.inner_ty(),
            VecInstance::Vec4(v) => v.inner_ty(),
        }
    }
}

impl Clone for VecInstance {
    fn clone(&self) -> (copy: VecInstance)
        ensures
            copy@ == self@,
            copy.arity() == self.arity(),
    {
        match self {
            VecInstance::Vec2(v) => VecInstance::Vec2(v.copy()),
            VecInstance::Vec3(v) => VecInstance::Vec3(v.copy()),
            VecInstance::Vec4(v) => VecInstance::Vec4(v.copy()),
        }
    }
}

} // verus!
