//! Row-flow layout of rectangular cut panels onto a drawing sheet.
//!
//! The layout engine packs an ordered sequence of rectangles into fixed-size
//! rows, emits one closed outline per rectangle, and reports the sheet's
//! bounding box.  The render module turns the outlines into an SVG document;
//! writing that document to disk is the caller's concern.

pub mod layout;
pub mod render;
