//! Backend logic of a Pomodoro-style focus timer.
//!
//! - [`commands`]: the active-session timer, its transitions and its status.
//! - [`database`]: the records, and the decisions of the persistence gateway.
//! - [`store`]: the statements that the gateway sends to the store.
//! - [`clock`]: instants, intervals and the wall clock.
//! - [`error`]: the failure kinds.
//!
//! The library neither opens a store nor holds a lock: it decides, and
//! leaves reading, writing and waiting to its caller.

pub mod clock;
pub mod commands;
pub mod database;
pub mod error;
pub mod ident;
pub mod store;
