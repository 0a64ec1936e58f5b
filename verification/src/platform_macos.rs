//! macOS Platform Implementation
//!
//! The decisions of the macOS layer: key code mapping, the capture state,
//! display geometry and the accessibility message. The calls into
//! CoreGraphics and the accessibility API are made by the application.

pub mod input;
pub mod display;
pub mod accessibility;

pub use input::MacOSInput;
pub use display::MacOSDisplay;
