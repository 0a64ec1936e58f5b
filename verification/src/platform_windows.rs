//! Windows Platform Implementation
//!
//! The decisions of the Windows layer: key code mapping, the capture
//! state and display geometry. Hooks and `SendInput` are driven by the
//! application.

pub mod input;
pub mod display;

pub use input::WindowsInput;
pub use display::WindowsDisplay;
