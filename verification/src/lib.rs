//! A two-level list manager: a collection of named lists, each holding named
//! items with optional descriptions, driven by line commands.

pub mod cli;
pub mod lists;
pub mod menu;
pub mod render;
pub mod session;
pub mod text;
