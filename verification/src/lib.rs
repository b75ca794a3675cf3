//! Core of a terminal feed reader: cyclic selectable lists, a navigable
//! application state machine with a drill-down counter, and FIFO dispatch of
//! fetch requests to a background worker that merges parsed feed documents
//! back into the shared state.
//!
//! Terminal drawing, key decoding and the HTTP transport live outside this
//! library; they hand in plain values (key semantics, response bytes) and read
//! the state back.

pub mod app;
pub mod feed;
pub mod list;
pub mod network;
