//! Guest-facing filesystem state of a WebAssembly system-interface runtime.
//!
//! The crate keeps the whole filesystem picture that a sandboxed guest is
//! allowed to see: an arena of inode records addressed by generational
//! references, a table of open descriptors gated by capability rights, and
//! symlink-chain resolution under a fixed hop bound.  Host input and output
//! (opening the preopened directories, flushing real streams) stays outside;
//! the functions here only decide, over plain values, what the embedder must
//! do next.

pub mod arena;
pub mod exception;
pub mod fd;
pub mod state;
pub mod inode;
pub mod types;
