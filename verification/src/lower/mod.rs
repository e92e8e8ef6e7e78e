pub mod declaration;
pub mod expression;
pub mod passes;
pub mod statement;
pub mod unit;

pub use passes::{lower, remove_global_consts, remove_type_aliases};
