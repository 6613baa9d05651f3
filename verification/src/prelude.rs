//! The names that most programs need.

pub use crate::client::{Client, ClientBuilder};
pub use crate::error::AwtrixError;
pub use crate::models::{CustomApp, Notification};
