//! macOS Input Capture and Injection
//!
//! The capture state, the cursor's visibility and the key code table.
//! Posting events and hiding the system cursor through CoreGraphics is done
//! by the application.

use vstd::prelude::*;

verus! {

/// macOS input handler
pub struct MacOSInput {
    capturing: bool,
    cursor_hidden: bool,
}

impl View for MacOSInput {
    type V = bool;

    /// Whether input is being captured.
    closed spec fn view(&self) -> bool {
        self.capturing
    }
}

pub open spec fn already_capturing_message() -> Seq<char> {
    "Already capturing"@
}

pub open spec fn permission_required_message() -> Seq<char> {
    "Accessibility permission required. Please enable in System Settings > Privacy & Security > Accessibility"@
}

impl MacOSInput {
    /// Whether the cursor is hidden: from a call of `hide_cursor` until the
    /// next call of `show_cursor`.
    pub closed spec fn cursor_hidden(&self) -> bool {
        self.cursor_hidden
    }

    pub fn new() -> (i: Self)
        ensures
            !i@,
            !i.cursor_hidden(),
    {
        Self { capturing: false, cursor_hidden: false }
    }

    /// Start capturing input events. `accessibility_granted` is what the
    /// accessibility check answered.
    pub fn start_capture(&mut self, accessibility_granted: bool) -> (r: Result<(), String>)
        ensures
            old(self)@ ==> final(self)@ && (r matches Err(e) && e@ == already_capturing_message()),
            !old(self)@ && !accessibility_granted ==> !final(self)@ && (r matches Err(e) && e@
                == permission_required_message()),
            !old(self)@ && accessibility_granted ==> final(self)@ && r is Ok,
            final(self).cursor_hidden() == old(self).cursor_hidden(),
    {
        if self.capturing {
            return Err("Already capturing".to_owned());
        }
        // Check accessibility permissions first
        if !accessibility_granted {
            return Err(
                "Accessibility permission required. Please enable in System Settings > Privacy & Security > Accessibility".to_owned(),
            );
        }
        self.capturing = true;
        Ok(())
    }

    /// Stop capturing input events
    pub fn stop_capture(&mut self)
        ensures
            !final(self)@,
            final(self).cursor_hidden() == old(self).cursor_hidden(),
    {
        self.capturing = false;
    }

    /// Hide the cursor; it stays hidden until `show_cursor` is called. The
    /// application hides the system cursor after this call.
    pub fn hide_cursor(&mut self) -> (r: Result<(), String>)
        ensures
            r is Ok,
            final(self).cursor_hidden(),
            final(self)@ == old(self)@,
    {
        self.cursor_hidden = true;
        Ok(())
    }

    /// Show the cursor again. The application shows the system cursor after
    /// this call.
    pub fn show_cursor(&mut self) -> (r: Result<(), String>)
        ensures
            r is Ok,
            !final(self).cursor_hidden(),
            final(self)@ == old(self)@,
    {
        self.cursor_hidden = false;
        Ok(())
    }

    /// Whether the cursor is hidden.
    pub fn is_cursor_hidden(&self) -> (r: bool)
        ensures
            r == self.cursor_hidden(),
    {
        self.cursor_hidden
    }
}

impl Default for MacOSInput {
    fn default() -> (i: Self)
        ensures
            !i@,
            !i.cursor_hidden(),
    {
        Self::new()
    }
}

#[derive(Debug, Clone, Copy, PartialEq, Eq, Structural)]
pub enum MouseButton {
    Left,
    Right,
    Middle,
}

/// The Synergy/Deskflow key code that a macOS virtual key code stands for:
/// the letters, digits, editing, modifier, arrow and function keys that the
/// table below lists; any other code is passed through.
pub open spec fn spec_macos_keycode(keycode: u16) -> u16 {
    match keycode {
        0x00 => 0x0061,
        0x01 => 0x0073,
        0x02 => 0x0064,
        0x03 => 0x0066,
        0x04 => 0x0068,
        0x05 => 0x0067,
        0x06 => 0x007A,
        0x07 => 0x0078,
        0x08 => 0x0063,
        0x09 => 0x0076,
        0x0B => 0x0062,
        0x0C => 0x0071,
        0x0D => 0x0077,
        0x0E => 0x0065,
        0x0F => 0x0072,
        0x10 => 0x0079,
        0x11 => 0x0074,
        0x12 => 0x0031,
        0x13 => 0x0032,
        0x14 => 0x0033,
        0x15 => 0x0034,
        0x16 => 0x0036,
        0x17 => 0x0035,
        0x19 => 0x0039,
        0x1A => 0x0037,
        0x1C => 0x0038,
        0x1D => 0x0030,
        0x24 => 0xFF0D,
        0x30 => 0xFF09,
        0x31 => 0x0020,
        0x33 => 0xFF08,
        0x35 => 0xFF1B,
        0x37 => 0xFFE7,
        0x38 => 0xFFE1,
        0x3A => 0xFFE9,
        0x3B => 0xFFE3,
        0x36 => 0xFFE8,
        0x3C => 0xFFE2,
        0x3D => 0xFFEA,
        0x3E => 0xFFE4,
        0x7B => 0xFF51,
        0x7C => 0xFF53,
        0x7D => 0xFF54,
        0x7E => 0xFF52,
        0x7A => 0xFFBE,
        0x78 => 0xFFBF,
        0x63 => 0xFFC0,
        0x76 => 0xFFC1,
        0x60 => 0xFFC2,
        0x61 => 0xFFC3,
        0x62 => 0xFFC4,
        0x64 => 0xFFC5,
        0x65 => 0xFFC6,
        0x6D => 0xFFC7,
        0x67 => 0xFFC8,
        0x6F => 0xFFC9,
        _ => keycode,
    }
}

/// The macOS virtual key code of the ANSI digit key `d` (`kVK_ANSI_0` to
/// `kVK_ANSI_9` in Carbon's Events.h).
pub open spec fn ansi_digit_keycode(d: int) -> u16 {
    if d == 0 {
        0x1D
    } else if d == 1 {
        0x12
    } else if d == 2 {
        0x13
    } else if d == 3 {
        0x14
    } else if d == 4 {
        0x15
    } else if d == 5 {
        0x17
    } else if d == 6 {
        0x16
    } else if d == 7 {
        0x1A
    } else if d == 8 {
        0x1C
    } else {
        0x19
    }
}

/// The macOS virtual key code of the ANSI letter key at alphabet position
/// `i` (0 for A, 25 for Z; `kVK_ANSI_A` to `kVK_ANSI_Z` in Carbon's Events.h).
pub open spec fn ansi_letter_keycode(i: int) -> u16 {
    if i == 0 {
        0x00
    } else if i == 1 {
        0x0B
    } else if i == 2 {
        0x08
    } else if i == 3 {
        0x02
    } else if i == 4 {
        0x0E
    } else if i == 5 {
        0x03
    } else if i == 6 {
        0x05
    } else if i == 7 {
        0x04
    } else if i == 8 {
        0x22
    } else if i == 9 {
        0x26
    } else if i == 10 {
        0x28
    } else if i == 11 {
        0x25
    } else if i == 12 {
        0x2E
    } else if i == 13 {
        0x2D
    } else if i == 14 {
        0x1F
    } else if i == 15 {
        0x23
    } else if i == 16 {
        0x0C
    } else if i == 17 {
        0x0F
    } else if i == 18 {
        0x01
    } else if i == 19 {
        0x11
    } else if i == 20 {
        0x20
    } else if i == 21 {
        0x09
    } else if i == 22 {
        0x0D
    } else if i == 23 {
        0x07
    } else if i == 24 {
        0x10
    } else {
        0x06
    }
}

/// Each digit key gives the ASCII code of its digit, and each letter key of
/// the letter block that the table maps (A, S, D, F, H, G, Z, X, C, V, B, Q,
/// W, E, R, Y, T: codes below 0x12) gives the ASCII code of its lower-case
/// letter; the other letter keys are passed through unchanged.
pub proof fn lemma_macos_letter_and_digit_keys()
    ensures
        forall|d: int| 0 <= d <= 9 ==> #[trigger] spec_macos_keycode(ansi_digit_keycode(d)) == 0x30 + d,
        forall|i: int|
            0 <= i < 26 ==> #[trigger] spec_macos_keycode(ansi_letter_keycode(i)) == if ansi_letter_keycode(i)
                < 0x12 {
                0x61 + i
            } else {
                ansi_letter_keycode(i) as int
            },
{
    assert forall|d: int| 0 <= d <= 9 implies #[trigger] spec_macos_keycode(ansi_digit_keycode(d)) == 0x30
        + d by {
        if d == 0 {
        } else if d == 1 {
        } else if d == 2 {
        } else if d == 3 {
        } else if d == 4 {
        } else if d == 5 {
        } else if d == 6 {
        } else if d == 7 {
        } else if d == 8 {
        } else if d == 9 {
        }
    }
    assert forall|i: int|
        0 <= i < 26 implies #[trigger] spec_macos_keycode(ansi_letter_keycode(i)) == if ansi_letter_keycode(
            i,
        ) < 0x12 {
            0x61 + i
        } else {
            ansi_letter_keycode(i) as int
        } by {
        if i == 0 {
        } else if i == 1 {
        } else if i == 2 {
        } else if i == 3 {
        } else if i == 4 {
        } else if i == 5 {
        } else if i == 6 {
        } else if i == 7 {
        } else if i == 8 {
        } else if i == 9 {
        } else if i == 10 {
        } else if i == 11 {
        } else if i == 12 {
        } else if i == 13 {
        } else if i == 14 {
        } else if i == 15 {
        } else if i == 16 {
        } else if i == 17 {
        } else if i == 18 {
        } else if i == 19 {
        } else if i == 20 {
        } else if i == 21 {
        } else if i == 22 {
        } else if i == 23 {
        } else if i == 24 {
        } else if i == 25 {
        }
    }
}

/// The macOS virtual key code of function key F`k+1` (`kVK_F1` to `kVK_F12`
/// in Carbon's Events.h), for `k` from 0 to 11.
pub open spec fn function_keycode(k: int) -> u16 {
    if k == 0 {
        0x7A
    } else if k == 1 {
        0x78
    } else if k == 2 {
        0x63
    } else if k == 3 {
        0x76
    } else if k == 4 {
        0x60
    } else if k == 5 {
        0x61
    } else if k == 6 {
        0x62
    } else if k == 7 {
        0x64
    } else if k == 8 {
        0x65
    } else if k == 9 {
        0x6D
    } else if k == 10 {
        0x67
    } else {
        0x6F
    }
}

/// The function keys F1 to F12 give the consecutive key codes of F1 to F12.
pub proof fn lemma_macos_function_keys()
    ensures
        forall|k: int| 0 <= k < 12 ==> #[trigger] spec_macos_keycode(function_keycode(k)) == 0xFFBE + k,
{
    assert forall|k: int| 0 <= k < 12 implies #[trigger] spec_macos_keycode(function_keycode(k)) == 0xFFBE
        + k by {
        if k == 0 {
        } else if k == 1 {
        } else if k == 2 {
        } else if k == 3 {
        } else if k == 4 {
        } else if k == 5 {
        } else if k == 6 {
        } else if k == 7 {
        } else if k == 8 {
        } else if k == 9 {
        } else if k == 10 {
        } else if k == 11 {
        }
    }
}

/// Convert macOS keycode to Synergy/Deskflow keycode
pub fn macos_to_synergy_keycode(keycode: u16) -> (r: u16)
    ensures
        r == spec_macos_keycode(keycode),
{
    // macOS keycodes are different from X11/Synergy keycodes
    match keycode {
        0x00 => 0x0061, // A
        0x01 => 0x0073, // S
        0x02 => 0x0064, // D
        0x03 => 0x0066, // F
        0x04 => 0x0068, // H
        0x05 => 0x0067, // G
        0x06 => 0x007A, // Z
        0x07 => 0x0078, // X
        0x08 => 0x0063, // C
        0x09 => 0x0076, // V
        0x0B => 0x0062, // B
        0x0C => 0x0071, // Q
        0x0D => 0x0077, // W
        0x0E => 0x0065, // E
        0x0F => 0x0072, // R
        0x10 => 0x0079, // Y
        0x11 => 0x0074, // T
        0x12 => 0x0031, // 1
        0x13 => 0x0032, // 2
        0x14 => 0x0033, // 3
        0x15 => 0x0034, // 4
        0x16 => 0x0036, // 6
        0x17 => 0x0035, // 5
        0x19 => 0x0039, // 9
        0x1A => 0x0037, // 7
        0x1C => 0x0038, // 8
        0x1D => 0x0030, // 0
        0x24 => 0xFF0D, // Return
        0x30 => 0xFF09, // Tab
        0x31 => 0x0020, // Space
        0x33 => 0xFF08, // Backspace
        0x35 => 0xFF1B, // Escape
        0x37 => 0xFFE7, // Command (Left)
        0x38 => 0xFFE1, // Shift (Left)
        0x3A => 0xFFE9, // Option/Alt (Left)
        0x3B => 0xFFE3, // Control (Left)
        0x36 => 0xFFE8, // Command (Right)
        0x3C => 0xFFE2, // Shift (Right)
        0x3D => 0xFFEA, // Option/Alt (Right)
        0x3E => 0xFFE4, // Control (Right)
        0x7B => 0xFF51, // Left
        0x7C => 0xFF53, // Right
        0x7D => 0xFF54, // Down
        0x7E => 0xFF52, // Up
        0x7A => 0xFFBE, // F1
        0x78 => 0xFFBF, // F2
        0x63 => 0xFFC0, // F3
        0x76 => 0xFFC1, // F4
        0x60 => 0xFFC2, // F5
        0x61 => 0xFFC3, // F6
        0x62 => 0xFFC4, // F7
        0x64 => 0xFFC5, // F8
        0x65 => 0xFFC6, // F9
        0x6D => 0xFFC7, // F10
        0x67 => 0xFFC8, // F11
        0x6F => 0xFFC9, // F12
        // Default: pass through
        _ => keycode,
    }
}

} // verus!
