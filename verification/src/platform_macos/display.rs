//! macOS Display Information

use vstd::prelude::*;
use crate::display::{
    DisplayRect, bounds_fit, display_contains, min_left, min_top, max_right, max_bottom,
    display_at, primary_display, virtual_screen_bounds,
};

verus! {

/// macOS display handler
pub struct MacOSDisplay;

impl MacOSDisplay {
    pub fn new() -> (d: Self) {
        Self
    }

    /// Get the primary display among `displays` (the displays that
    /// CoreGraphics reported), as an index into them.
    pub fn get_primary_display(&self, displays: &[DisplayRect]) -> (r: Result<usize, String>)
        ensures
            match r {
                Ok(i) => i < displays@.len() && displays@[i as int].is_primary && forall|j: int|
                    0 <= j < i ==> !(#[trigger] displays@[j]).is_primary,
                Err(e) => e@ == "No primary display found"@ && forall|j: int|
                    0 <= j < displays@.len() ==> !(#[trigger] displays@[j]).is_primary,
            },
    {
        match primary_display(displays) {
            Some(i) => Ok(i),
            None => Err("No primary display found".to_owned()),
        }
    }

    /// Get the display at a specific point, as an index into `displays`.
    pub fn get_display_at(&self, displays: &[DisplayRect], x: i32, y: i32) -> (r: Option<usize>)
        ensures
            match r {
                Some(i) => i < displays@.len() && display_contains(
                    displays@[i as int],
                    x as int,
                    y as int,
                ) && forall|j: int|
                    0 <= j < i ==> !display_contains(#[trigger] displays@[j], x as int, y as int),
                None => forall|j: int|
                    0 <= j < displays@.len() ==> !display_contains(
                        #[trigger] displays@[j],
                        x as int,
                        y as int,
                    ),
            },
    {
        display_at(displays, x, y)
    }

    /// Get total virtual screen bounds (all displays combined)
    pub fn get_virtual_screen_bounds(&self, displays: &[DisplayRect]) -> (r: Result<(i32, i32, i32, i32), String>)
        requires
            bounds_fit(displays@),
        ensures
            match r {
                Ok((x, y, w, h)) => displays@.len() > 0 && x == min_left(displays@) && y == min_top(
                    displays@,
                ) && w == max_right(displays@) - min_left(displays@) && h == max_bottom(displays@)
                    - min_top(displays@),
                Err(e) => displays@.len() == 0 && e@ == "No displays found"@,
            },
    {
        virtual_screen_bounds(displays)
    }
}

impl Default for MacOSDisplay {
    fn default() -> (d: Self) {
        Self::new()
    }
}

} // verus!
