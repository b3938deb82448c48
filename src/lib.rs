//! Annotation editing engine: points, polygons and lines over a still image,
//! undo/redo history, vertex picking, the interaction state machine and the
//! text transform used by the YAML encoding.

pub mod annotation;
pub mod editor;
pub mod format;
pub mod geometry;
pub mod history;
pub mod media;
pub mod project;
mod text;
pub mod yaml;
