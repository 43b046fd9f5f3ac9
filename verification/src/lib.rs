//! Editing core of a modal terminal text editor: a viewport with a cursor
//! over a rope, a per-mode key dispatcher, and a one-line command editor.

pub mod lines;
pub mod buffer;
pub mod window;
pub mod window_proofs;
pub mod keys;
pub mod commands;
pub mod ex;
pub mod excmd;
pub mod editor;
