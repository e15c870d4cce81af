//! A small CSS engine: tokens come from `cssparser`, and everything built on them
//! (values, declarations, selectors, rules and the style they produce) is verified.

pub mod classes;
pub mod color;
pub mod declaration;
pub mod diagnostics;
pub mod errors;
pub mod keywords;
pub mod laws;
pub mod length;
pub mod number;
pub mod parse;
pub mod ratio;
pub mod rules;
pub mod selectors;
pub mod style;
pub mod stylesheet;
pub mod text;
pub mod tokens;
pub mod values;
