//! Bootstrap of a windowed GPU application: the negotiation of adapter,
//! device and surface configuration, and the decision when the event loop
//! ends. The library decides; its caller owns the window and talks to the
//! graphics driver.

pub mod context;
pub mod error;
pub mod event;
pub mod format;
pub mod init;
pub mod request;
pub mod run;
pub mod surface;

pub use crate::context::Context;
pub use crate::request::PowerPreference;
