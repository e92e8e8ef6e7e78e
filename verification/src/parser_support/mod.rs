pub mod attributes;
pub mod components;
pub mod keywords;

pub use attributes::{parse_attribute, parse_var_template, CustomLalrError};
pub use components::{apply_components, Component, ComponentNode};
