//! A small transit departure-board library.
//!
//! The library holds the verified core of a departure-board widget: the
//! colour table for transit lines, the clock and delta time formatters, the
//! parsing and filtering of a station-board JSON payload, the application
//! state machine, and the pure renderer that projects the state into rows.
//! The surrounding HTTP polling and on-screen drawing live outside it.

pub mod colors;
pub mod error;
pub mod fetch;
pub mod json;
pub mod numfmt;
pub mod render;
pub mod state;
pub mod time;
