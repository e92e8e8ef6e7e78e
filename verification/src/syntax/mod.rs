pub mod attribute;
pub mod declaration;
pub mod decorated;
pub mod expression;
pub mod statement;
pub mod unit;

pub use decorated::Decorated;
