//! Panic reports without run-varying detail.
//!
//! The default report of a panic names the panicking thread by an identifier
//! that differs from run to run, which spoils snapshots of a program's error
//! output. This library computes the report without it: [`report::panic_hook`] maps
//! what is known of a panic to the lines that go to the error stream, and its
//! contract pins every character of them.

pub mod decimal;
pub mod model;
pub mod report;
pub mod text;
pub mod laws;
