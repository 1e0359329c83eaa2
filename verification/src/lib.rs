//! The shared document model of a multi-cursor text editor, the editing
//! algorithms that act on it, and the protocol by which an interactive actor
//! and a background worker share one session.

pub mod background_tasks;
pub mod document;
pub mod cursor_fns;
pub mod error_chain;
pub mod errors;
pub mod events;
pub mod fns;
pub mod hjson;
pub mod program_data;
pub mod render;
pub mod session;
pub mod settings;
pub mod theorems;
pub mod update;
