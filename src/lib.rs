//! Selecting image files by shape and pixel dimensions, and planning the
//! file operation applied to each selected file.
pub mod selection;
pub mod probe;
pub mod action;
