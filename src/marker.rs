//! Type markers.
pub mod mode;
