//! Control client for an LED-matrix device's HTTP API: the device's
//! configuration and state objects, their wire encodings, and the requests
//! that carry them.
//!
//! Nothing in this library touches the network or the disk. A `Client`
//! turns each operation into a `Request` and reads each `Response`; the
//! program around it sends the one and hands back the other.

pub mod cli;
pub mod client;
pub mod commands;
pub mod config;
pub mod error;
pub mod json;
pub mod models;
pub mod prelude;
pub mod text;
pub mod utils;
pub mod wire;

pub use client::{Client, ClientBuilder};
pub use error::AwtrixError;
pub use models::{Color, CustomApp, Effect, Notification, Settings, Transition};

use vstd::prelude::*;

verus! {

/// The version of this library.
pub const VERSION: &'static str = "1.0.0";

} // verus!
