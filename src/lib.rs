//! Text-to-geometry pipeline for GPU text rendering: line layout in fixed-point
//! units, the client side of a glyph-atlas cache, coverage-to-RGBA texture sync
//! and quad emission in exact clip-space coordinates.
pub mod clip;
pub mod font;
pub mod layout;
pub mod layout_laws;
pub mod mesh;
pub mod upload;
pub mod atlas;
