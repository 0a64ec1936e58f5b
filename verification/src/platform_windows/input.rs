//! Windows Input Capture and Injection
//!
//! The capture state and the key code table. Hooks and `SendInput` are
//! driven by the application.

use vstd::prelude::*;

verus! {

/// Windows input handler
pub struct WindowsInput {
    capturing: bool,
}

impl View for WindowsInput {
    type V = bool;

    /// Whether input is being captured.
    closed spec fn view(&self) -> bool {
        self.capturing
    }
}

impl WindowsInput {
    pub fn new() -> (i: Self)
        ensures
            !i@,
    {
        Self { capturing: false }
    }

    /// Checks that a capture may start: it may not while one is running.
    /// The application installs the hooks after this succeeds and then calls
    /// [`WindowsInput::capture_started`].
    pub fn begin_capture(&self) -> (r: Result<(), String>)
        ensures
            self@ ==> (r matches Err(e) && e@ == "Already capturing"@),
            !self@ ==> r is Ok,
    {
        if self.capturing {
            return Err("Already capturing".to_owned());
        }
        Ok(())
    }

    /// Records that both hooks are installed.
    pub fn capture_started(&mut self)
        ensures
            final(self)@,
    {
        self.capturing = true;
    }

    /// Stop capturing input events
    pub fn stop_capture(&mut self)
        ensures
            !final(self)@,
    {
        self.capturing = false;
    }
}

impl Default for WindowsInput {
    fn default() -> (i: Self)
        ensures
            !i@,
    {
        Self::new()
    }
}

#[derive(Debug, Clone, Copy, PartialEq, Eq, Structural)]
pub enum MouseButton {
    Left,
    Right,
    Middle,
}

/// The Synergy/Deskflow key code that a Windows virtual key code stands for:
/// the letters VK_A..VK_Z become the lower-case ASCII letters, the digits stay
/// as they are, the function, modifier, editing, arrow and lock keys follow
/// the table below, and any other code is passed through.
pub open spec fn spec_windows_keycode(vk_code: u16) -> u16 {
    if 0x41 <= vk_code <= 0x5A {
        (vk_code + 0x20) as u16
    } else {
        match vk_code {
            0x70 => 0xFFBE,
            0x71 => 0xFFBF,
            0x72 => 0xFFC0,
            0x73 => 0xFFC1,
            0x74 => 0xFFC2,
            0x75 => 0xFFC3,
            0x76 => 0xFFC4,
            0x77 => 0xFFC5,
            0x78 => 0xFFC6,
            0x79 => 0xFFC7,
            0x7A => 0xFFC8,
            0x7B => 0xFFC9,
            0x10 => 0xFFE1,
            0x11 => 0xFFE3,
            0x12 => 0xFFE9,
            0x5B => 0xFFEB,
            0x5C => 0xFFEC,
            0x0D => 0xFF0D,
            0x09 => 0xFF09,
            0x20 => 0x0020,
            0x08 => 0xFF08,
            0x2E => 0xFFFF,
            0x2D => 0xFF63,
            0x24 => 0xFF50,
            0x23 => 0xFF57,
            0x21 => 0xFF55,
            0x22 => 0xFF56,
            0x1B => 0xFF1B,
            0x25 => 0xFF51,
            0x26 => 0xFF52,
            0x27 => 0xFF53,
            0x28 => 0xFF54,
            0x14 => 0xFFE5,
            0x90 => 0xFF7F,
            0x91 => 0xFF14,
            _ => vk_code,
        }
    }
}

/// The letter keys VK_A to VK_Z (0x41 to 0x5A) give the ASCII codes of the
/// lower-case letters, the digit keys VK_0 to VK_9 (0x30 to 0x39) those of the
/// digits, and the function keys VK_F1 to VK_F12 (0x70 to 0x7B) the
/// consecutive key codes of F1 to F12.
pub proof fn lemma_windows_letter_digit_function_keys()
    ensures
        forall|i: int| 0 <= i < 26 ==> #[trigger] spec_windows_keycode((0x41 + i) as u16) == 0x61 + i,
        forall|d: int| 0 <= d < 10 ==> #[trigger] spec_windows_keycode((0x30 + d) as u16) == 0x30 + d,
        forall|k: int| 0 <= k < 12 ==> #[trigger] spec_windows_keycode((0x70 + k) as u16) == 0xFFBE + k,
{
    assert forall|d: int| 0 <= d < 10 implies #[trigger] spec_windows_keycode((0x30 + d) as u16) == 0x30
        + d by {
        if d == 0 {
        } else if d == 1 {
        } else if d == 2 {
        } else if d == 3 {
        } else if d == 4 {
        } else if d == 5 {
        } else if d == 6 {
        } else if d == 7 {
        } else if d == 8 {
        } else if d == 9 {
        }
    }
    assert forall|k: int| 0 <= k < 12 implies #[trigger] spec_windows_keycode((0x70 + k) as u16) == 0xFFBE
        + k by {
        if k == 0 {
        } else if k == 1 {
        } else if k == 2 {
        } else if k == 3 {
        } else if k == 4 {
        } else if k == 5 {
        } else if k == 6 {
        } else if k == 7 {
        } else if k == 8 {
        } else if k == 9 {
        } else if k == 10 {
        } else if k == 11 {
        }
    }
}

/// Convert Windows virtual key code to Synergy/Deskflow keycode
pub fn windows_to_synergy_keycode(vk_code: u16) -> (r: u16)
    ensures
        r == spec_windows_keycode(vk_code),
{
    match vk_code {
        // Letters (VK_A through VK_Z are 0x41-0x5A)
        0x41..=0x5A => 0x0061 + (vk_code - 0x41), // Convert to lowercase ASCII
        // Numbers (VK_0 through VK_9 are 0x30-0x39)
        0x30..=0x39 => vk_code, // Same as ASCII
        0x70 => 0xFFBE, // F1
        0x71 => 0xFFBF, // F2
        0x72 => 0xFFC0, // F3
        0x73 => 0xFFC1, // F4
        0x74 => 0xFFC2, // F5
        0x75 => 0xFFC3, // F6
        0x76 => 0xFFC4, // F7
        0x77 => 0xFFC5, // F8
        0x78 => 0xFFC6, // F9
        0x79 => 0xFFC7, // F10
        0x7A => 0xFFC8, // F11
        0x7B => 0xFFC9, // F12
        0x10 => 0xFFE1, // VK_SHIFT
        0x11 => 0xFFE3, // VK_CONTROL
        0x12 => 0xFFE9, // VK_MENU (Alt)
        0x5B => 0xFFEB, // VK_LWIN
        0x5C => 0xFFEC, // VK_RWIN
        0x0D => 0xFF0D, // VK_RETURN
        0x09 => 0xFF09, // VK_TAB
        0x20 => 0x0020, // VK_SPACE
        0x08 => 0xFF08, // VK_BACK
        0x2E => 0xFFFF, // VK_DELETE
        0x2D => 0xFF63, // VK_INSERT
        0x24 => 0xFF50, // VK_HOME
        0x23 => 0xFF57, // VK_END
        0x21 => 0xFF55, // VK_PRIOR (Page Up)
        0x22 => 0xFF56, // VK_NEXT (Page Down)
        0x1B => 0xFF1B, // VK_ESCAPE
        0x25 => 0xFF51, // VK_LEFT
        0x26 => 0xFF52, // VK_UP
        0x27 => 0xFF53, // VK_RIGHT
        0x28 => 0xFF54, // VK_DOWN
        0x14 => 0xFFE5, // VK_CAPITAL (Caps Lock)
        0x90 => 0xFF7F, // VK_NUMLOCK
        0x91 => 0xFF14, // VK_SCROLL
        // Default: pass through
        _ => vk_code,
    }
}

} // verus!
