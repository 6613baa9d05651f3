//! The value objects exchanged with the device.

pub mod app;
pub mod color;
pub mod effect;
pub mod notification;
pub mod response;
pub mod settings;

pub use app::{AppInfo, CustomApp};
pub use color::Color;
pub use effect::{Effect, Transition};
pub use notification::{Notification, NotificationBuilder};
pub use response::{LoopInfo, Stats};
pub use settings::Settings;
