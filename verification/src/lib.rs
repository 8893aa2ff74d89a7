//! Core of an interactive terminal front-end for a line-oriented REPL:
//! a modal key-driven editor, a completion-suggestion engine, and the
//! state updates of the render loop. The evaluation engine, terminal
//! session, and file system are external collaborators; this crate holds
//! the verified logic and speaks to them through narrow boundaries.

pub mod app;
pub mod auto_complete;
pub mod buffer;
pub mod editor;
pub mod markup;
pub mod text;
pub mod ui;
