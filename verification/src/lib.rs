//! Snippet picking, validation and paste planning for a hotkey snippet tool.

pub mod cli;
pub mod config;
pub mod editor;
pub mod injector;
pub mod picker;
pub mod snippet;
pub mod text;
pub mod tools;
