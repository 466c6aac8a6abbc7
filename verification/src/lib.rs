//! The state behind a live, scrollable view of a stream of JSON log records.
//!
//! Records arrive from a producer over a channel while an operator scrolls.
//! This crate holds the rules of that view: how the selection cursor moves,
//! what happens to it when records arrive, how a record is turned into the
//! text of one row, how a key becomes a command, and when the queue is
//! drained. Drawing, waiting for keys and reading the input are left to the
//! program that links it.

pub mod app;
pub mod keys;
pub mod list_view;
pub mod pump;
pub mod record;
pub mod row;
pub mod stateful_list;
pub mod tick;
pub mod title;
