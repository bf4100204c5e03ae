//! A modal, keyboard-driven editor for a small bounded palette of colors.

pub mod action;
pub mod app;
pub mod color;
pub mod error;
pub mod key;
pub mod laws;
pub mod model;
pub mod text;
