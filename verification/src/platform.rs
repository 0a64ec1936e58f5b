//! Platform abstraction layer
//!
//! Input events, and the fallback used on platforms that have no native
//! input layer. The asynchronous `PlatformInput` and `PlatformDisplay` traits,
//! and their native implementations, belong to the application.

use vstd::prelude::*;
use crate::error::Error;
use crate::screen::CursorPosition;
use crate::display::DisplayRect;

verus! {

/// Input events that can be captured or injected
#[derive(Debug, Clone)]
pub enum InputEvent {
    // Keyboard events
    KeyDown { key_code: u16, modifiers: u16, scan_code: u16 },
    KeyUp { key_code: u16, modifiers: u16, scan_code: u16 },
    // Mouse events
    MouseMove { x: i32, y: i32, absolute: bool },
    MouseDown { button: MouseButton },
    MouseUp { button: MouseButton },
    MouseWheel { delta_x: i32, delta_y: i32 },
}

#[derive(Debug, Clone, Copy, PartialEq, Eq, Structural)]
pub enum MouseButton {
    Left,
    Right,
    Middle,
    Back,
    Forward,
}

pub open spec fn unsupported_message() -> Seq<char> {
    "Unsupported platform"@
}

/// Whether `r` is the error of an unsupported platform.
pub open spec fn is_unsupported<T>(r: Result<T, Error>) -> bool {
    r matches Err(Error::Platform(m)) && m@ == unsupported_message()
}

/// Input on a platform without a native implementation.
pub struct PlatformInputImpl;

impl PlatformInputImpl {
    pub fn start_capture(&mut self) -> (r: Result<(), Error>)
        ensures
            is_unsupported(r),
    {
        Err(Error::Platform("Unsupported platform".to_owned()))
    }

    pub fn stop_capture(&mut self) -> (r: Result<(), Error>)
        ensures
            r is Ok,
    {
        Ok(())
    }

    pub fn inject_event(&self, event: InputEvent) -> (r: Result<(), Error>)
        ensures
            is_unsupported(r),
    {
        Err(Error::Platform("Unsupported platform".to_owned()))
    }

    pub fn get_cursor_position(&self) -> (r: Result<CursorPosition, Error>)
        ensures
            r matches Ok(p) && p == (CursorPosition { x: 0, y: 0 }),
    {
        Ok(CursorPosition::new(0, 0))
    }

    pub fn set_cursor_position(&self, pos: CursorPosition) -> (r: Result<(), Error>)
        ensures
            r is Ok,
    {
        Ok(())
    }

    pub fn hide_cursor(&self) -> (r: Result<(), Error>)
        ensures
            r is Ok,
    {
        Ok(())
    }

    pub fn show_cursor(&self) -> (r: Result<(), Error>)
        ensures
            r is Ok,
    {
        Ok(())
    }

    /// Check if accessibility permissions are granted (always, here)
    pub fn check_accessibility_permission(&self) -> (r: bool)
        ensures
            r,
    {
        true
    }

    /// Request accessibility permissions (nothing to do here)
    pub fn request_accessibility_permission(&self) -> (r: Result<(), Error>)
        ensures
            r is Ok,
    {
        Ok(())
    }
}

/// Displays on a platform without a native implementation.
pub struct PlatformDisplayImpl;

impl PlatformDisplayImpl {
    pub fn get_displays(&self) -> (r: Result<Vec<DisplayRect>, Error>)
        ensures
            r matches Ok(v) && v@.len() == 0,
    {
        Ok(Vec::new())
    }

    pub fn get_primary_display(&self) -> (r: Result<DisplayRect, Error>)
        ensures
            is_unsupported(r),
    {
        Err(Error::Platform("Unsupported platform".to_owned()))
    }

    pub fn get_display_at(&self, x: i32, y: i32) -> (r: Result<Option<DisplayRect>, Error>)
        ensures
            r matches Ok(d) && d is None,
    {
        Ok(None)
    }
}

} // verus!
