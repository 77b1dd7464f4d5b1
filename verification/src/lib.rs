//! A table widget for iced: which cells and rows a table is made of, how its
//! rows are styled, what a row press reports, how a column divider answers
//! the mouse, and the default style of iced's built-in themes.
pub mod divider;
pub mod layout;
pub mod palette;
pub mod style;

pub use style::Catalog;
