//! Renders benchmark comparison tables as GitHub Flavored Markdown with
//! aligned, fixed-width cells and a generated table of contents.

pub mod alignment;
pub mod anchor;
pub mod comparison;
pub mod dataset;
pub mod document;
pub mod layout;
pub mod render;
pub mod sections;
pub mod table;
pub mod text;

pub use layout::GFMFormatter;
