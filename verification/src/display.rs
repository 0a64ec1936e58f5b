//! Geometry of connected displays.
//!
//! The platform layers read the displays from the operating system; the
//! decisions about them (which one holds a point, which one is primary, the
//! box around all of them) are made here on a plain description of each.

use vstd::prelude::*;

verus! {

/// The placement of one display on the virtual desktop.
#[derive(Debug, Clone)]
pub struct DisplayRect {
    pub id: u32,
    pub name: String,
    pub x: i32,
    pub y: i32,
    pub width: i32,
    pub height: i32,
    pub is_primary: bool,
}

/// Whether the point (x, y) lies on display `d` (left and top edges included,
/// right and bottom excluded).
pub open spec fn display_contains(d: DisplayRect, x: int, y: int) -> bool {
    &&& d.x <= x < d.x + d.width
    &&& d.y <= y < d.y + d.height
}

/// The right and bottom edges of every display fit in an `i32`.
pub open spec fn edges_fit(ds: Seq<DisplayRect>) -> bool {
    forall|i: int|
        0 <= i < ds.len() ==> {
            &&& i32::MIN <= #[trigger] ds[i].x + ds[i].width <= i32::MAX
            &&& i32::MIN <= ds[i].y + ds[i].height <= i32::MAX
        }
}

pub open spec fn min_i(a: int, b: int) -> int {
    if a <= b {
        a
    } else {
        b
    }
}

pub open spec fn max_i(a: int, b: int) -> int {
    if a >= b {
        a
    } else {
        b
    }
}

/// The least left edge, starting from `i32::MAX`.
pub open spec fn min_left(ds: Seq<DisplayRect>) -> int
    decreases ds.len(),
{
    if ds.len() == 0 {
        i32::MAX as int
    } else {
        min_i(min_left(ds.drop_last()), ds.last().x as int)
    }
}

/// The least top edge, starting from `i32::MAX`.
pub open spec fn min_top(ds: Seq<DisplayRect>) -> int
    decreases ds.len(),
{
    if ds.len() == 0 {
        i32::MAX as int
    } else {
        min_i(min_top(ds.drop_last()), ds.last().y as int)
    }
}

/// The greatest right edge, starting from `i32::MIN`.
pub open spec fn max_right(ds: Seq<DisplayRect>) -> int
    decreases ds.len(),
{
    if ds.len() == 0 {
        i32::MIN as int
    } else {
        max_i(max_right(ds.drop_last()), ds.last().x + ds.last().width)
    }
}

/// The greatest bottom edge, starting from `i32::MIN`.
pub open spec fn max_bottom(ds: Seq<DisplayRect>) -> int
    decreases ds.len(),
{
    if ds.len() == 0 {
        i32::MIN as int
    } else {
        max_i(max_bottom(ds.drop_last()), ds.last().y + ds.last().height)
    }
}

/// The bounding box of all displays fits in `i32` (its size included).
pub open spec fn bounds_fit(ds: Seq<DisplayRect>) -> bool {
    &&& edges_fit(ds)
    &&& max_right(ds) - min_left(ds) <= i32::MAX
    &&& max_bottom(ds) - min_top(ds) <= i32::MAX
}

/// The virtual screen's box holds every display: no display reaches left of
/// or above its origin, or right of or below its far edges.
pub proof fn lemma_bounds_cover(ds: Seq<DisplayRect>)
    ensures
        forall|i: int|
            0 <= i < ds.len() ==> {
                &&& min_left(ds) <= (#[trigger] ds[i]).x
                &&& ds[i].x + ds[i].width <= max_right(ds)
                &&& min_top(ds) <= ds[i].y
                &&& ds[i].y + ds[i].height <= max_bottom(ds)
            },
    decreases ds.len(),
{
    if ds.len() > 0 {
        let t = ds.drop_last();
        lemma_bounds_cover(t);
        assert forall|i: int| 0 <= i < ds.len() implies {
            &&& min_left(ds) <= (#[trigger] ds[i]).x
            &&& ds[i].x + ds[i].width <= max_right(ds)
            &&& min_top(ds) <= ds[i].y
            &&& ds[i].y + ds[i].height <= max_bottom(ds)
        } by {
            if i < t.len() {
                assert(ds[i] == t[i]);
            }
        }
    }
}

/// The index of the first display that holds the point, if any.
pub fn display_at(displays: &[DisplayRect], x: i32, y: i32) -> (r: Option<usize>)
    ensures
        match r {
            Some(i) => i < displays@.len() && display_contains(displays@[i as int], x as int, y as int)
                && forall|j: int|
                0 <= j < i ==> !display_contains(#[trigger] displays@[j], x as int, y as int),
            None => forall|j: int|
                0 <= j < displays@.len() ==> !display_contains(
                    #[trigger] displays@[j],
                    x as int,
                    y as int,
                ),
        },
{
    let mut i: usize = 0;
    while i < displays.len()
        invariant
            i <= displays@.len(),
            forall|j: int|
                0 <= j < i ==> !display_contains(#[trigger] displays@[j], x as int, y as int),
        decreases displays@.len() - i,
    {
        let d = &displays[i];
        let (x0, y0) = (d.x as i64, d.y as i64);
        if x as i64 >= x0 && (x as i64) < x0 + d.width as i64 && y as i64 >= y0 && (y as i64) < y0
            + d.height as i64 {
            return Some(i);
        }
        i = i + 1;
    }
    None
}

/// The index of the first display marked primary, if any.
pub fn primary_display(displays: &[DisplayRect]) -> (r: Option<usize>)
    ensures
        match r {
            Some(i) => i < displays@.len() && displays@[i as int].is_primary && forall|j: int|
                0 <= j < i ==> !(#[trigger] displays@[j]).is_primary,
            None => forall|j: int| 0 <= j < displays@.len() ==> !(#[trigger] displays@[j]).is_primary,
        },
{
    let mut i: usize = 0;
    while i < displays.len()
        invariant
            i <= displays@.len(),
            forall|j: int| 0 <= j < i ==> !(#[trigger] displays@[j]).is_primary,
        decreases displays@.len() - i,
    {
        if displays[i].is_primary {
            return Some(i);
        }
        i = i + 1;
    }
    None
}

/// Total virtual screen bounds (all displays combined): the least left and
/// top edges, then the width and height of the box that reaches the greatest
/// right and bottom edges.
pub fn virtual_screen_bounds(displays: &[DisplayRect]) -> (r: Result<(i32, i32, i32, i32), String>)
    requires
        bounds_fit(displays@),
    ensures
        match r {
            Ok((x, y, w, h)) => displays@.len() > 0 && x == min_left(displays@) && y == min_top(
                displays@,
            ) && w == max_right(displays@) - min_left(displays@) && h == max_bottom(displays@)
                - min_top(displays@),
            Err(e) => displays@.len() == 0 && e@ == "No displays found"@,
        },
{
    if displays.len() == 0 {
        return Err("No displays found".to_owned());
    }
    let mut min_x = i32::MAX;
    let mut min_y = i32::MAX;
    let mut max_x = i32::MIN;
    let mut max_y = i32::MIN;
    let mut i: usize = 0;
    while i < displays.len()
        invariant
            i <= displays@.len(),
            edges_fit(displays@),
            min_x == min_left(displays@.take(i as int)),
            min_y == min_top(displays@.take(i as int)),
            max_x == max_right(displays@.take(i as int)),
            max_y == max_bottom(displays@.take(i as int)),
        decreases displays@.len() - i,
    {
        proof {
            assert(displays@.take(i + 1).drop_last() =~= displays@.take(i as int));
        }
        let d = &displays[i];
        if d.x < min_x {
            min_x = d.x;
        }
        if d.y < min_y {
            min_y = d.y;
        }
        if d.x + d.width > max_x {
            max_x = d.x + d.width;
        }
        if d.y + d.height > max_y {
            max_y = d.y + d.height;
        }
        i = i + 1;
    }
    assert(displays@.take(displays@.len() as int) =~= displays@);
    Ok((min_x, min_y, max_x - min_x, max_y - min_y))
}

} // verus!
