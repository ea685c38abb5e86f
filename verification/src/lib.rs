//! Statusline renderer: turns a session snapshot (model identity, accumulated
//! cost, working directory, context-window usage) into the two plain-text
//! lines of a status display.

pub mod context;
pub mod cost;
pub mod gitmeta;
pub mod laws;
pub mod model;
pub mod numfmt;
pub mod paths;
pub mod render;
pub mod text;
