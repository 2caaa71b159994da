//! Core of a terminal dashboard for browsing and editing a list of financial
//! transactions.
//!
//! This crate holds the verified logic: a 2-D cell selection model with
//! scroll synchronization, a single-line edit buffer, the table controller
//! that composes them, a stack of screens with a notifications popup, the
//! top-level key-routing state machine, and the formatting and parsing of
//! the transaction fields that the table displays and edits.
//!
//! Everything that touches the outside world — the terminal, the database,
//! the render buffers — lives in the unverified shell around this crate.
//! The shell feeds key presses and freshly listed transactions in, and
//! carries the storage commands that the state machine emits back out.

pub mod account;
pub mod app;
pub mod chars;
pub mod digits;
pub mod editor;
pub mod fields;
pub mod notifications;
pub mod screens;
pub mod store;
pub mod table;
pub mod types;
