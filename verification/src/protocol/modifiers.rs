//! Key modifier flags (compatible with Synergy/Deskflow)

use vstd::prelude::*;

verus! {

pub const SHIFT: u16 = 0x0001;

pub const CTRL: u16 = 0x0002;

pub const ALT: u16 = 0x0004;

/// Windows key / Command key
pub const META: u16 = 0x0008;

pub const SUPER: u16 = 0x0010;

pub const CAPS_LOCK: u16 = 0x1000;

pub const NUM_LOCK: u16 = 0x2000;

pub const SCROLL_LOCK: u16 = 0x4000;

} // verus!
