//! The decisions of a small task-board backend: what each request asks of the
//! document store and what is answered for each thing the store may report.
//!
//! Nothing here performs I/O. A driver reads requests, runs the store
//! operations that this library asks for and hands the outcomes back.

pub mod board;
mod clock;
pub mod document;
pub mod handlers;
pub mod reply;
pub mod task;
pub mod text;
