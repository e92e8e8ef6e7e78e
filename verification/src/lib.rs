pub mod condcomp;
pub mod consteval;
pub mod lower;
pub mod model;
pub mod parser_support;
pub mod span;
pub mod sweep;
pub mod syntax;
pub mod text;
