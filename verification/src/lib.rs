//! The session controller of a terminal client for a relational database:
//! the query line with its cursor, the two modes, the state of the session,
//! what each key does, and how the outcome of a statement is recorded.
//!
//! Nothing here reads a key, draws a screen or talks to a server. The
//! caller hands in key presses and outcomes, and runs the statements that
//! the controller hands out.

pub mod config;
pub mod controller;
pub mod database;
pub mod input;
pub mod keys;
pub mod panels;
pub mod query;
pub mod state;
pub mod text;
