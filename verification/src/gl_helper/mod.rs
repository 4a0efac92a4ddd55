//! What the drawing helpers decide: which texture settings a file gets, where
//! each glyph of a text goes, and how the vertices of a loaded mesh are laid out.

pub mod draw_text;
pub mod model;
pub mod texture;
