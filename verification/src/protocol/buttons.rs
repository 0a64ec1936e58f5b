//! Mouse button IDs

use vstd::prelude::*;

verus! {

pub const LEFT: i8 = 1;

pub const MIDDLE: i8 = 2;

pub const RIGHT: i8 = 3;

pub const BACK: i8 = 4;

pub const FORWARD: i8 = 5;

} // verus!
