pub mod fold;
pub mod height;
pub mod laws;
pub mod prune;
pub mod traverse;
pub mod unit;
pub mod untouched;

pub use fold::{eval_attr, CondCompError};
pub use prune::{eval_if_attr, eval_if_attributes, eval_if_slot, Diagnostic};
pub use traverse::statement_eval_if_attributes;
pub use unit::run;
