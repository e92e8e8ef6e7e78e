pub mod array;
pub mod context;
pub mod convert;
pub mod error;
pub mod eval_ty;
pub mod instance;
pub mod laws;
pub mod literal;
pub mod matrix;
pub mod memory;
pub mod ty;
pub mod vector;
pub mod view;

pub use context::Context;
pub use error::ConstEvalError;
pub use eval_ty::EvalTy;
pub use instance::{ArrayInstance, Instance, PtrInstance, RefInstance, StructInstance};
pub use literal::{LiteralInstance, Ty};
pub use matrix::{
    Mat2x2, Mat2x3, Mat2x4, Mat3x2, Mat3x3, Mat3x4, Mat4x2, Mat4x3, Mat4x4, MatInner, MatInstance,
};
pub use memory::{Memory, RefView, RefViewMut, Slot};
pub use ty::Type;
pub use vector::{Vec2, Vec3, Vec4, VecInner, VecInstance};
pub use view::MemView;
