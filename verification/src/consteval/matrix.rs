use crate::consteval::error::{ConstEvalError, ConstEvalErrorView};
use crate::consteval::literal::{LiteralInstance, Ty};
use crate::consteval::ty::{Type, TypeView};
use crate::consteval::vector::{arity, vector_type, VecInner, VecInstance};
use crate::model::views;
use vstd::prelude::*;

verus! {

/// A matrix of `C` columns, each a vector of `R` scalars.
#[derive(Debug, PartialEq)]
pub struct MatInner<const C: usize, const R: usize> {
    pub components: Vec<VecInner<R>>,
}

pub type Mat2x2 = MatInner<2, 2>;

pub type Mat2x3 = MatInner<2, 3>;

pub type Mat2x4 = MatInner<2, 4>;

pub type Mat3x2 = MatInner<3, 2>;

pub type Mat3x3 = MatInner<3, 3>;

pub type Mat3x4 = MatInner<3, 4>;

pub type Mat4x2 = MatInner<4, 2>;

pub type Mat4x3 = MatInner<4, 3>;

pub type Mat4x4 = MatInner<4, 4>;

impl<const C: usize, const R: usize> View for MatInner<C, R> {
    type V = Seq<Seq<LiteralInstance>>;

    /// The columns in order.
    open spec fn view(&self) -> Seq<Seq<LiteralInstance>> {
        views(self.components@)
    }
}

/// The scalars of the first `n` columns, column after column.
pub open spec fn flattened(columns: Seq<Seq<LiteralInstance>>, n: nat) -> Seq<LiteralInstance>
    decreases n,
{
    if n == 0 || n > columns.len() {
        Seq::empty()
    } else {
        flattened(columns, (n - 1) as nat) + columns[n - 1]
    }
}

/// The scalar in column `i` and row `j`, if the matrix has one there.
pub open spec fn entry(columns: Seq<Seq<LiteralInstance>>, i: int, j: int) -> Option<
    LiteralInstance,
> {
    if 0 <= i < columns.len() && 0 <= j < columns[i].len() {
        Some(columns[i][j])
    } else {
        None
    }
}

/// What is wrong with the shape of a matrix that is to have `c` columns and
/// `r` rows, and the number `n` that tells it: `c` or `r` where that is not
/// 2, 3 or 4; else the number of columns where that is not `c`; else the
/// length of the first column that is not of length `r`.
pub open spec fn misshapen(columns: Seq<Seq<LiteralInstance>>, c: int, r: int, n: int) -> bool {
    if !arity(c) {
        n == c
    } else if !arity(r) {
        n == r
    } else if columns.len() != c {
        n == columns.len()
    } else {
        exists|i: int|
            0 <= i < c && n == (#[trigger] columns[i]).len() && n != r && forall|j: int|
                0 <= j < i ==> (#[trigger] columns[j]).len() == r
    }
}

/// The columns with the scalar in column `i` and row `j` replaced.
pub open spec fn written(
    columns: Seq<Seq<LiteralInstance>>,
    i: int,
    j: int,
    scalar: LiteralInstance,
) -> Seq<Seq<LiteralInstance>> {
    columns.update(i, columns[i].update(j, scalar))
}

/// The type of a matrix of `c` columns and `r` rows: its third part is the
/// type of the first column.
pub open spec fn matrix_type(columns: Seq<Seq<LiteralInstance>>, c: int, r: int) -> TypeView {
    TypeView::Mat(c as u8, r as u8, Box::new(vector_type(columns[0])))
}

impl<const C: usize, const R: usize> MatInner<C, R> {
    /// The matrix holds `C` columns of `R` scalars each, and `C` and `R` are
    /// 2, 3 or 4.
    pub open spec fn wf(&self) -> bool {
        &&& arity(C as int)
        &&& arity(R as int)
        &&& self@.len() == C
        &&& forall|i: int| 0 <= i < C ==> (#[trigger] self@[i]).len() == R
    }

    /// A matrix of the given columns: an arity error unless there are `C` of
    /// them, each of `R` scalars, with `C` and `R` among 2, 3 and 4.
    pub fn new(components: Vec<VecInner<R>>) -> (result: Result<Self, ConstEvalError>)
        ensures
            match result {
                Ok(m) => m@ == views(components@) && m.wf(),
                Err(e) => e@ matches ConstEvalErrorView::ArityMismatch(n) && misshapen(
                    views(components@),
                    C as int,
                    R as int,
                    n as int,
                ),
            },
    {
        if !(2 <= C && C <= 4) {
            return Err(ConstEvalError::ArityMismatch(C));
        }
        if !(2 <= R && R <= 4) {
            return Err(ConstEvalError::ArityMismatch(R));
        }
        if components.len() != C {
            return Err(ConstEvalError::ArityMismatch(components.len()));
        }
        let mut i: usize = 0;
        while i < C
            invariant
                i <= C,
                arity(C as int),
                arity(R as int),
                components@.len() == C,
                forall|k: int| 0 <= k < i ==> (#[trigger] components@[k])@.len() == R,
            decreases C - i,
        {
            if components[i].components.len() != R {
                proof {
                    let columns = views(components@);
                    let n = components@[i as int]@.len() as int;
                    assert(columns[i as int].len() == n);
                    assert forall|j: int| 0 <= j < i implies (#[trigger] columns[j]).len()
                        == R by {
                        assert(components@[j]@.len() == R);
                    }
                    assert(0 <= i < C && n == columns[i as int].len() && n != R && forall|j: int|
                        0 <= j < i ==> (#[trigger] columns[j]).len() == R);
                    assert(misshapen(columns, C as int, R as int, n));
                }
                return Err(ConstEvalError::ArityMismatch(components[i].components.len()));
            }
            i += 1;
        }
        Ok(MatInner { components })
    }

    /// A matrix whose scalars are all `val`: an arity error unless `C` and
    /// `R` are among 2, 3 and 4.
    pub fn new_with_value(val: &LiteralInstance) -> (result: Result<Self, ConstEvalError>)
        ensures
            match result {
                Ok(m) => m.wf() && forall|i: int, j: int|
                    0 <= i < C && 0 <= j < R ==> entry(m@, i, j) == Some(*val),
                Err(e) => e@ == ConstEvalErrorView::ArityMismatch(
                    if arity(C as int) {
                        R
                    } else {
                        C
                    },
                ) && !(arity(C as int) && arity(R as int)),
            },
    {
        if !(2 <= C && C <= 4) {
            return Err(ConstEvalError::ArityMismatch(C));
        }
        let mut components: Vec<VecInner<R>> = Vec::new();
        let mut i: usize = 0;
        while i < C
            invariant
                i <= C,
                arity(C as int),
                components@.len() == i,
                arity(R as int) || i == 0,
                forall|k: int|
                    0 <= k < i ==> (#[trigger] components@[k])@.len() == R && forall|j: int|
                        0 <= j < R ==> components@[k]@[j] == *val,
            decreases C - i,
        {
            match VecInner::<R>::new_with_value(val) {
                Ok(column) => components.push(column),
                Err(e) => {
                    return Err(e);
                },
            }
            i += 1;
        }
        Ok(MatInner { components })
    }

    /// Whether the matrix holds `C` columns of `R` scalars each, with `C`
    /// and `R` among 2, 3 and 4.
    pub fn is_wf(&self) -> (wf: bool)
        ensures
            wf == self.wf(),
    {
        if !(2 <= C && C <= 4 && 2 <= R && R <= 4) {
            return false;
        }
        if self.components.len() != C {
            return false;
        }
        let mut i: usize = 0;
        while i < C
            invariant
                i <= C,
                self.components@.len() == C,
                forall|k: int| 0 <= k < i ==> (#[trigger] self@[k]).len() == R,
            decreases C - i,
        {
            if self.components[i].components.len() != R {
                assert(self@[i as int].len() != R);
                return false;
            }
            i += 1;
        }
        true
    }

    /// The column at position `i`, if there is one.
    pub fn column(&self, i: usize) -> (column: Option<&VecInner<R>>)
        ensures
            match column {
                Some(v) => i < self@.len() && v@ == self@[i as int],
                None => i >= self@.len(),
            },
    {
        if i < self.components.len() {
            Some(&self.components[i])
        } else {
            None
        }
    }

    /// A copy of the scalars of the column at position `i`, if there is one.
    pub fn column_scalars(&self, i: usize) -> (scalars: Option<Vec<LiteralInstance>>)
        ensures
            match scalars {
                Some(v) => i < self@.len() && v@ == self@[i as int],
                None => i >= self@.len(),
            },
    {
        match self.column(i) {
            Some(v) => Some(v.copy().components),
            None => None,
        }
    }

    /// The scalar in column `i` and row `j`, if there is one.
    pub fn get(&self, i: usize, j: usize) -> (component: Option<&LiteralInstance>)
        ensures
            match component {
                Some(l) => entry(self@, i as int, j as int) == Some(*l),
                None => entry(self@, i as int, j as int) is None,
            },
    {
        match self.column(i) {
            Some(v) => v.get(j),
            None => None,
        }
    }

    /// The scalar in column `i` and row `j`, for writing.
    pub fn get_mut(&mut self, i: usize, j: usize) -> (component: Option<&mut LiteralInstance>)
        ensures
            match component {
                Some(l) => {
                    &&& entry(old(self)@, i as int, j as int) == Some(*l)
                    &&& final(self)@ == written(old(self)@, i as int, j as int, *final(l))
                },
                None => {
                    &&& entry(old(self)@, i as int, j as int) is None
                    &&& final(self)@ == old(self)@
                },
            },
    {
        if i < self.components.len() {
            if j < self.components[i].components.len() {
                let ghost future = *final(self);
                let component = &mut self.components[i].components[j];
                proof {
                    assert(future@ =~= written(
                        old(self)@,
                        i as int,
                        j as int,
                        future@[i as int][j as int],
                    ));
                }
                return Some(component);
            }
        }
        None
    }

    /// The columns in order, for writing.
    pub fn iter_mut(&mut self) -> (columns: &mut Vec<VecInner<R>>)
        ensures
            views(columns@) == old(self)@,
            final(self)@ == views(final(columns)@),
    {
        &mut self.components
    }

    /// The scalars, column after column.
    pub fn iter(&self) -> (scalars: Vec<LiteralInstance>)
        ensures
            scalars@ == flattened(self@, self@.len()),
    {
        let mut scalars: Vec<LiteralInstance> = Vec::new();
        let mut i: usize = 0;
        while i < self.components.len()
            invariant
                i <= self.components.len(),
                scalars@ == flattened(self@, i as nat),
            decreases self.components.len() - i,
        {
            let column = &self.components[i];
            let ghost before = scalars@;
            let mut j: usize = 0;
            while j < column.components.len()
                invariant
                    j <= column.components.len(),
                    scalars@ == before + column@.subrange(0, j as int),
                decreases column.components.len() - j,
            {
                scalars.push(column.components[j]);
                assert(scalars@ =~= before + column@.subrange(0, j + 1));
                j += 1;
            }
            assert(column@.subrange(0, j as int) =~= column@);
            i += 1;
        }
        scalars
    }
}

impl<const C: usize, const R: usize> Ty for MatInner<C, R> {
    open spec fn typed(&self) -> bool {
        self.wf()
    }

    open spec fn type_of(&self) -> TypeView {
        matrix_type(self@, C as int, R as int)
    }

    /// The type of the first column.
    open spec fn inner_type_of(&self) -> TypeView {
        vector_type(self@[0])
    }

    fn ty(&self) -> (ty: Type) {
        let c: u8 = if C == 2 {
            2
        } else if C == 3 {
            3
        } else {
            4
        };
        let r: u8 = if R == 2 {
            2
        } else if R == 3 {
            3
        } else {
            4
        };
        Type::Mat(c, r, Box::new(self.inner_ty()))
    }

    fn inner_ty(&self) -> (ty: Type) {
        assert(self@[0].len() == R);
        self.components[0].ty()
    }
}

/// A matrix of 2, 3 or 4 columns and 2, 3 or 4 rows.
#[derive(Debug, PartialEq)]
pub enum MatInstance {
    Mat2x2(Mat2x2),
    Mat2x3(Mat2x3),
    Mat2x4(Mat2x4),
    Mat3x2(Mat3x2),
    Mat3x3(Mat3x3),
    Mat3x4(Mat3x4),
    Mat4x2(Mat4x2),
    Mat4x3(Mat4x3),
    Mat4x4(Mat4x4),
}

impl View for MatInstance {
    type V = Seq<Seq<LiteralInstance>>;

    open spec fn view(&self) -> Seq<Seq<LiteralInstance>> {
        match self {
            MatInstance::Mat2x2(m) => m@,
            MatInstance::Mat2x3(m) => m@,
            MatInstance::Mat2x4(m) => m@,
            MatInstance::Mat3x2(m) => m@,
            MatInstance::Mat3x3(m) => m@,
            MatInstance::Mat3x4(m) => m@,
            MatInstance::Mat4x2(m) => m@,
            MatInstance::Mat4x3(m) => m@,
            MatInstance::Mat4x4(m) => m@,
        }
    }
}

impl MatInstance {
    /// The number of rows that the variant stands for.
    pub open spec fn rows(&self) -> int {
        match self {
            MatInstance::Mat2x2(_) => 2,
            MatInstance::Mat2x3(_) => 3,
            MatInstance::Mat2x4(_) => 4,
            MatInstance::Mat3x2(_) => 2,
            MatInstance::Mat3x3(_) => 3,
            MatInstance::Mat3x4(_) => 4,
            MatInstance::Mat4x2(_) => 2,
            MatInstance::Mat4x3(_) => 3,
            MatInstance::Mat4x4(_) => 4,
        }
    }

    /// The number of columns that the variant stands for.
    pub open spec fn columns(&self) -> int {
        match self {
            MatInstance::Mat2x2(_) => 2,
            MatInstance::Mat2x3(_) => 2,
            MatInstance::Mat2x4(_) => 2,
            MatInstance::Mat3x2(_) => 3,
            MatInstance::Mat3x3(_) => 3,
            MatInstance::Mat3x4(_) => 3,
            MatInstance::Mat4x2(_) => 4,
            MatInstance::Mat4x3(_) => 4,
            MatInstance::Mat4x4(_) => 4,
        }
    }

    /// The matrix holds the columns and rows that its variant says.
    pub open spec fn wf(&self) -> bool {
        match self {
            MatInstance::Mat2x2(m) => m.wf(),
            MatInstance::Mat2x3(m) => m.wf(),
            MatInstance::Mat2x4(m) => m.wf(),
            MatInstance::Mat3x2(m) => m.wf(),
            MatInstance::Mat3x3(m) => m.wf(),
            MatInstance::Mat3x4(m) => m.wf(),
            MatInstance::Mat4x2(m) => m.wf(),
            MatInstance::Mat4x3(m) => m.wf(),
            MatInstance::Mat4x4(m) => m.wf(),
        }
    }

    /// Whether the matrix holds the columns and rows that its variant says.
    pub fn is_wf(&self) -> (wf: bool)
        ensures
            wf == self.wf(),
    {
        match self {
            MatInstance::Mat2x2(m) => m.is_wf(),
            MatInstance::Mat2x3(m) => m.is_wf(),
            MatInstance::Mat2x4(m) => m.is_wf(),
            MatInstance::Mat3x2(m) => m.is_wf(),
            MatInstance::Mat3x3(m) => m.is_wf(),
            MatInstance::Mat3x4(m) => m.is_wf(),
            MatInstance::Mat4x2(m) => m.is_wf(),
            MatInstance::Mat4x3(m) => m.is_wf(),
            MatInstance::Mat4x4(m) => m.is_wf(),
        }
    }

    /// The number of rows.
    pub fn r(&self) -> (r: u8)
        ensures
            r == self.rows(),
    {
        match self {
            MatInstance::Mat2x2(_) => 2,
            MatInstance::Mat2x3(_) => 3,
            MatInstance::Mat2x4(_) => 4,
            MatInstance::Mat3x2(_) => 2,
            MatInstance::Mat3x3(_) => 3,
            MatInstance::Mat3x4(_) => 4,
            MatInstance::Mat4x2(_) => 2,
            MatInstance::Mat4x3(_) => 3,
            MatInstance::Mat4x4(_) => 4,
        }
    }

    /// The number of columns.
    pub fn c(&self) -> (c: u8)
        ensures
            c == self.columns(),
    {
        match self {
            MatInstance::Mat2x2(_) => 2,
            MatInstance::Mat2x3(_) => 2,
            MatInstance::Mat2x4(_) => 2,
            MatInstance::Mat3x2(_) => 3,
            MatInstance::Mat3x3(_) => 3,
            MatInstance::Mat3x4(_) => 3,
            MatInstance::Mat4x2(_) => 4,
            MatInstance::Mat4x3(_) => 4,
            MatInstance::Mat4x4(_) => 4,
        }
    }

    /// A copy of the column at position `i`, if there is one and it has 2, 3
    /// or 4 scalars.
    pub fn col(&self, i: usize) -> (column: Option<VecInstance>)
        ensures
            match column {
                Some(v) => i < self@.len() && v@ == self@[i as int] && v.wf(),
                None => i >= self@.len() || !arity(self@[i as int].len() as int),
            },
    {
        let scalars = match self {
            MatInstance::Mat2x2(m) => m.column_scalars(i),
            MatInstance::Mat2x3(m) => m.column_scalars(i),
            MatInstance::Mat2x4(m) => m.column_scalars(i),
            MatInstance::Mat3x2(m) => m.column_scalars(i),
            MatInstance::Mat3x3(m) => m.column_scalars(i),
            MatInstance::Mat3x4(m) => m.column_scalars(i),
            MatInstance::Mat4x2(m) => m.column_scalars(i),
            MatInstance::Mat4x3(m) => m.column_scalars(i),
            MatInstance::Mat4x4(m) => m.column_scalars(i),
        };
        match scalars {
            Some(components) => match VecInstance::new(components) {
                Ok(v) => Some(v),
                Err(_) => None,
            },
            None => None,
        }
    }

    /// The scalar in column `i` and row `j`, if there is one.
    pub fn get(&self, i: usize, j: usize) -> (component: Option<&LiteralInstance>)
        ensures
            match component {
                Some(l) => entry(self@, i as int, j as int) == Some(*l),
                None => entry(self@, i as int, j as int) is None,
            },
    {
        match self {
            MatInstance::Mat2x2(m) => m.get(i, j),
            MatInstance::Mat2x3(m) => m.get(i, j),
            MatInstance::Mat2x4(m) => m.get(i, j),
            MatInstance::Mat3x2(m) => m.get(i, j),
            MatInstance::Mat3x3(m) => m.get(i, j),
            MatInstance::Mat3x4(m) => m.get(i, j),
            MatInstance::Mat4x2(m) => m.get(i, j),
            MatInstance::Mat4x3(m) => m.get(i, j),
            MatInstance::Mat4x4(m) => m.get(i, j),
        }
    }

    /// The scalar in column `i` and row `j`, for writing.
    pub fn get_mut(&mut self, i: usize, j: usize) -> (component: Option<&mut LiteralInstance>)
        ensures
            final(self).columns() == old(self).columns(),
            final(self).rows() == old(self).rows(),
            match component {
                Some(l) => {
                    &&& entry(old(self)@, i as int, j as int) == Some(*l)
                    &&& final(self)@ == written(old(self)@, i as int, j as int, *final(l))
                },
                None => {
                    &&& entry(old(self)@, i as int, j as int) is None
                    &&& final(self)@ == old(self)@
                },
            },
    {
        match self {
            MatInstance::Mat2x2(m) => m.get_mut(i, j),
            MatInstance::Mat2x3(m) => m.get_mut(i, j),
            MatInstance::Mat2x4(m) => m.get_mut(i, j),
            MatInstance::Mat3x2(m) => m.get_mut(i, j),
            MatInstance::Mat3x3(m) => m.get_mut(i, j),
            MatInstance::Mat3x4(m) => m.get_mut(i, j),
            MatInstance::Mat4x2(m) => m.get_mut(i, j),
            MatInstance::Mat4x3(m) => m.get_mut(i, j),
            MatInstance::Mat4x4(m) => m.get_mut(i, j),
        }
    }

    /// The scalars, column after column.
    pub fn iter(&self) -> (scalars: Vec<LiteralInstance>)
        ensures
            scalars@ == flattened(self@, self@.len()),
    {
        match self {
            MatInstance::Mat2x2(m) => m.iter(),
            MatInstance::Mat2x3(m) => m.iter(),
            MatInstance::Mat2x4(m) => m.iter(),
            MatInstance::Mat3x2(m) => m.iter(),
            MatInstance::Mat3x3(m) => m.iter(),
            MatInstance::Mat3x4(m) => m.iter(),
            MatInstance::Mat4x2(m) => m.iter(),
            MatInstance::Mat4x3(m) => m.iter(),
            MatInstance::Mat4x4(m) => m.iter(),
        }
    }
}

impl Ty for MatInstance {
    open spec fn typed(&self) -> bool {
        self.wf()
    }

    open spec fn type_of(&self) -> TypeView {
        matrix_type(self@, self.columns(), self.rows())
    }

    open spec fn inner_type_of(&self) -> TypeView {
        vector_type(self@[0])
    }

    fn ty(&self) -> (ty: Type) {
        Type::Mat(self.c(), self.r(), Box::new(self.inner_ty()))
    }

    fn inner_ty(&self) -> (ty: Type) {
        match self {
            MatInstance::Mat2x2(m) => m.inner_ty(),
            MatInstance::Mat2x3(m) => m.inner_ty(),
            MatInstance::Mat2x4(m) => m.inner_ty(),
            MatInstance::Mat3x2(m) => m.inner_ty(),
            MatInstance::Mat3x3(m) => m.inner_ty(),
            MatInstance::Mat3x4(m) => m.inner_ty(),
            MatInstance::Mat4x2(m) => m.inner_ty(),
            MatInstance::Mat4x3(m) => m.inner_ty(),
            MatInstance::Mat4x4(m) => m.inner_ty(),
        }
    }
}

impl<const C: usize, const R: usize> MatInner<C, R> {
    pub fn copy(&self) -> (copy: Self)
        ensures
            copy@ == self@,
    {
        let mut components: Vec<VecInner<R>> = Vec::new();
        let mut i: usize = 0;
        while i < self.components.len()
            invariant
                i <= self.components.len(),
                components@.len() == i,
                forall|k: int| 0 <= k < i ==> (#[trigger] components@[k])@ == self.components@[k]@,
            decreases self.components.len() - i,
        {
            components.push(self.components[i].copy());
            i += 1;
        }
        assert(views(components@) =~= views(self.components@));
        MatInner { components }
    }
}

impl<const C: usize, const R: usize> Clone for MatInner<C, R> {
    fn clone(&self) -> (copy: Self)
        ensures
            copy@ == self@,
    {
        self.copy()
    }
}

impl Clone for MatInstance {
    fn clone(&self) -> (copy: MatInstance)
        ensures
            copy@ == self@,
            copy.columns() == self.columns(),
            copy.rows() == self.rows(),
    {
        match self {
            MatInstance::Mat2x2(m) => MatInstance::Mat2x2(m.copy()),
            MatInstance::Mat2x3(m) => MatInstance::Mat2x3(m.copy()),
            MatInstance::Mat2x4(m) => MatInstance::Mat2x4(m.copy()),
            MatInstance::Mat3x2(m) => MatInstance::Mat3x2(m.copy()),
            MatInstance::Mat3x3(m) => MatInstance::Mat3x3(m.copy()),
            MatInstance::Mat3x4(m) => MatInstance::Mat3x4(m.copy()),
            MatInstance::Mat4x2(m) => MatInstance::Mat4x2(m.copy()),
            MatInstance::Mat4x3(m) => MatInstance::Mat4x3(m.copy()),
            MatInstance::Mat4x4(m) => MatInstance::Mat4x4(m.copy()),
        }
    }
}

} // verus!
