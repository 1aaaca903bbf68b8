//! Branch management logic of a terminal branch switcher for git.

pub mod text;
pub mod git;
pub mod app;
pub mod model;
pub mod laws;
pub mod ui;
