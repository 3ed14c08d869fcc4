//! Clipboard backends for a terminal text editor, and the arithmetic of its
//! line-number gutter.
//!
//! Nothing in this crate performs I/O. Every backend says which external
//! action it needs (a process to run, a sequence to write to the terminal)
//! and turns the outcome of that action into the result of the clipboard
//! operation; the host carries the action out.

pub mod clipboard;
pub mod gutter;
