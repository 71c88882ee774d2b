//! A pollable source of raw terminal keystrokes.
//!
//! A reading task takes bytes off the input stream one by one and appends
//! them to a queue; the terminal polls the queue without ever waiting and
//! hands out what it finds, except zero bytes.

pub mod bridge;
pub mod key;
pub mod reader;
pub mod terminal;

pub use crate::terminal::TTYTerminal;
