//! Common key codes (virtual key codes)

use vstd::prelude::*;

verus! {

// Modifier keys
pub const SHIFT_L: u16 = 0xFFE1;
pub const SHIFT_R: u16 = 0xFFE2;
pub const CTRL_L: u16 = 0xFFE3;
pub const CTRL_R: u16 = 0xFFE4;
pub const ALT_L: u16 = 0xFFE9;
pub const ALT_R: u16 = 0xFFEA;
pub const META_L: u16 = 0xFFE7;
pub const META_R: u16 = 0xFFE8;
pub const SUPER_L: u16 = 0xFFEB;
pub const SUPER_R: u16 = 0xFFEC;

// Function keys
pub const F1: u16 = 0xFFBE;
pub const F2: u16 = 0xFFBF;
pub const F3: u16 = 0xFFC0;
pub const F4: u16 = 0xFFC1;
pub const F5: u16 = 0xFFC2;
pub const F6: u16 = 0xFFC3;
pub const F7: u16 = 0xFFC4;
pub const F8: u16 = 0xFFC5;
pub const F9: u16 = 0xFFC6;
pub const F10: u16 = 0xFFC7;
pub const F11: u16 = 0xFFC8;
pub const F12: u16 = 0xFFC9;

// Navigation
pub const ESCAPE: u16 = 0xFF1B;
pub const TAB: u16 = 0xFF09;
pub const RETURN: u16 = 0xFF0D;
pub const BACKSPACE: u16 = 0xFF08;
pub const DELETE: u16 = 0xFFFF;
pub const INSERT: u16 = 0xFF63;
pub const HOME: u16 = 0xFF50;
pub const END: u16 = 0xFF57;
pub const PAGE_UP: u16 = 0xFF55;
pub const PAGE_DOWN: u16 = 0xFF56;
pub const UP: u16 = 0xFF52;
pub const DOWN: u16 = 0xFF54;
pub const LEFT: u16 = 0xFF51;
pub const RIGHT: u16 = 0xFF53;

// Locks
pub const CAPS_LOCK: u16 = 0xFFE5;
pub const NUM_LOCK: u16 = 0xFF7F;
pub const SCROLL_LOCK: u16 = 0xFF14;

// Space and others
pub const SPACE: u16 = 0x0020;

} // verus!
