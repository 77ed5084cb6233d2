//! Screen capture core: capture-backend protocol logic, the backend fallback
//! chain, raw framebuffer decoding, and the interactive region-selection
//! state machine. Everything here is pure computation on plain values; the
//! surrounding program performs the I/O and hands the outcomes in.

pub mod cli;
pub mod codec;
pub mod crop;
pub mod dbus;
pub mod error;
pub mod error_handling;
pub mod geometry;
pub mod naming;
pub mod notifications;
pub mod pixels;
pub mod screenshot;
pub mod settings;
pub mod shell;
pub mod snipper;
pub mod text;
pub mod ui;

pub use screenshot::manager::ScreenshotManager;
pub use screenshot::{ScreenshotError, ScreenshotKind, ScreenshotOptions, ScreenshotResult};
pub use snipper::canvas::Snipper;
pub use snipper::{SnipperMessage, SnipperResult, SnipperState};
