//! Terminal style values and the rule that composes successive style overrides.

pub mod color;
pub mod debug_text;
pub mod style;

pub use color::Color;
pub use style::{Modifier, Style};
