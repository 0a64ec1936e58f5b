//! Screen edge detection and cursor management

use vstd::prelude::*;
use crate::config::{Direction, ScreenConfig, ScreenNeighbor};
use crate::text::str_eq;

verus! {

/// Represents a cursor position
#[derive(Debug, Clone, Copy, PartialEq, Eq, Structural)]
pub struct CursorPosition {
    pub x: i32,
    pub y: i32,
}

impl CursorPosition {
    pub fn new(x: i32, y: i32) -> (p: Self)
        ensures
            p == (CursorPosition { x, y }),
    {
        Self { x, y }
    }
}

/// Screen edge detector
pub struct ScreenEdgeDetector {
    config: ScreenConfig,
}

impl View for ScreenEdgeDetector {
    type V = ScreenConfig;

    closed spec fn view(&self) -> ScreenConfig {
        self.config
    }
}

/// Whether one of the neighbours lies in `d`.
pub open spec fn spec_has_neighbor(c: ScreenConfig, d: Direction) -> bool {
    exists|i: int| 0 <= i < c.neighbors@.len() && #[trigger] c.neighbors@[i].direction == d
}

pub open spec fn fits_i32(v: int) -> bool {
    i32::MIN <= v <= i32::MAX
}

/// The edge check stays clear of `i32` overflow for this position: each
/// difference and sum that it computes on its way to an answer fits.
pub open spec fn check_edge_defined(c: ScreenConfig, pos: CursorPosition) -> bool {
    let t = c.edge_threshold as int;
    let w = c.width as int;
    let h = c.height as int;
    if pos.x <= t && spec_has_neighbor(c, Direction::Left) {
        fits_i32(w - t) && fits_i32(w - t - 1)
    } else {
        &&& fits_i32(w - t)
        &&& if pos.x >= w - t && spec_has_neighbor(c, Direction::Right) {
            fits_i32(t + 1)
        } else if pos.y <= t && spec_has_neighbor(c, Direction::Top) {
            fits_i32(h - t) && fits_i32(h - t - 1)
        } else {
            &&& fits_i32(h - t)
            &&& (pos.y >= h - t && spec_has_neighbor(c, Direction::Bottom) ==> fits_i32(t + 1))
        }
    }
}

/// Where the cursor leaves the screen, if it does: the first of left, right,
/// top and bottom whose edge zone holds `pos` and that has a neighbour, with
/// the position at which the cursor reappears on the far side.
pub open spec fn spec_check_edge(c: ScreenConfig, pos: CursorPosition) -> Option<
    (Direction, CursorPosition),
> {
    let t = c.edge_threshold;
    if pos.x <= t && spec_has_neighbor(c, Direction::Left) {
        Some((Direction::Left, CursorPosition { x: (c.width - t - 1) as i32, y: pos.y }))
    } else if pos.x >= c.width - t && spec_has_neighbor(c, Direction::Right) {
        Some((Direction::Right, CursorPosition { x: (t + 1) as i32, y: pos.y }))
    } else if pos.y <= t && spec_has_neighbor(c, Direction::Top) {
        Some((Direction::Top, CursorPosition { x: pos.x, y: (c.height - t - 1) as i32 }))
    } else if pos.y >= c.height - t && spec_has_neighbor(c, Direction::Bottom) {
        Some((Direction::Bottom, CursorPosition { x: pos.x, y: (t + 1) as i32 }))
    } else {
        None
    }
}

pub open spec fn clamp(v: int, lo: int, hi: int) -> int {
    if v < lo {
        lo
    } else if v > hi {
        hi
    } else {
        v
    }
}

/// Entering from `from` stays clear of arithmetic overflow and of a clamp
/// whose upper bound is below its lower bound.
pub open spec fn entry_defined(c: ScreenConfig, from: Direction) -> bool {
    match from {
        Direction::Left => c.height >= 1 && c.edge_threshold + 1 <= i32::MAX,
        Direction::Right => c.height >= 1 && i32::MIN <= c.width - c.edge_threshold - 1
            && c.width - c.edge_threshold <= i32::MAX,
        Direction::Top => c.width >= 1 && c.edge_threshold + 1 <= i32::MAX,
        Direction::Bottom => c.width >= 1 && i32::MIN <= c.height - c.edge_threshold - 1
            && c.height - c.edge_threshold <= i32::MAX,
    }
}

/// Where the cursor lands when it enters this screen from `from`: just inside
/// that edge, with the other coordinate kept inside the screen.
pub open spec fn spec_entry_position(c: ScreenConfig, from: Direction, rel: CursorPosition) -> CursorPosition {
    let t = c.edge_threshold;
    match from {
        Direction::Left => CursorPosition {
            x: (t + 1) as i32,
            y: clamp(rel.y as int, 0, c.height - 1) as i32,
        },
        Direction::Right => CursorPosition {
            x: (c.width - t - 1) as i32,
            y: clamp(rel.y as int, 0, c.height - 1) as i32,
        },
        Direction::Top => CursorPosition {
            x: clamp(rel.x as int, 0, c.width - 1) as i32,
            y: (t + 1) as i32,
        },
        Direction::Bottom => CursorPosition {
            x: clamp(rel.x as int, 0, c.width - 1) as i32,
            y: (c.height - t - 1) as i32,
        },
    }
}

fn clamp_i32(v: i32, lo: i32, hi: i32) -> (r: i32)
    requires
        lo <= hi,
    ensures
        r == clamp(v as int, lo as int, hi as int),
{
    if v < lo {
        lo
    } else if v > hi {
        hi
    } else {
        v
    }
}

impl ScreenEdgeDetector {
    pub fn new(config: ScreenConfig) -> (d: Self)
        ensures
            d@ == config,
    {
        Self { config }
    }

    /// Update the screen configuration
    pub fn update_config(&mut self, config: ScreenConfig)
        ensures
            final(self)@ == config,
    {
        self.config = config;
    }

    /// Check if cursor is at a screen edge and should switch to another screen
    /// Returns the direction and relative position if switching should occur
    pub fn check_edge(&self, pos: CursorPosition) -> (r: Option<(Direction, CursorPosition)>)
        requires
            check_edge_defined(self@, pos),
        ensures
            r == spec_check_edge(self@, pos),
    {
        let threshold = self.config.edge_threshold;
        // Check left edge
        if pos.x <= threshold {
            if self.has_neighbor(Direction::Left) {
                return Some(
                    (Direction::Left, CursorPosition::new(self.config.width - threshold - 1, pos.y)),
                );
            }
        }
        // Check right edge
        if pos.x >= self.config.width - threshold {
            if self.has_neighbor(Direction::Right) {
                return Some((Direction::Right, CursorPosition::new(threshold + 1, pos.y)));
            }
        }
        // Check top edge
        if pos.y <= threshold {
            if self.has_neighbor(Direction::Top) {
                return Some(
                    (Direction::Top, CursorPosition::new(pos.x, self.config.height - threshold - 1)),
                );
            }
        }
        // Check bottom edge
        if pos.y >= self.config.height - threshold {
            if self.has_neighbor(Direction::Bottom) {
                return Some((Direction::Bottom, CursorPosition::new(pos.x, threshold + 1)));
            }
        }
        None
    }

    /// Get the neighbor in a specific direction
    pub fn get_neighbor(&self, direction: Direction) -> (r: Option<&ScreenNeighbor>)
        ensures
            match r {
                Some(n) => exists|i: int|
                    0 <= i < self@.neighbors@.len() && self@.neighbors@[i] == *n && n.direction
                        == direction && forall|j: int|
                        0 <= j < i ==> #[trigger] self@.neighbors@[j].direction != direction,
                None => !spec_has_neighbor(self@, direction),
            },
    {
        let mut i: usize = 0;
        while i < self.config.neighbors.len()
            invariant
                i <= self@.neighbors@.len(),
                self@ == self.config,
                forall|j: int| 0 <= j < i ==> #[trigger] self@.neighbors@[j].direction != direction,
            decreases self@.neighbors@.len() - i,
        {
            if self.config.neighbors[i].direction == direction {
                return Some(&self.config.neighbors[i]);
            }
            i = i + 1;
        }
        None
    }

    /// Check if there's a neighbor in a specific direction
    pub fn has_neighbor(&self, direction: Direction) -> (r: bool)
        ensures
            r == spec_has_neighbor(self@, direction),
    {
        let mut i: usize = 0;
        while i < self.config.neighbors.len()
            invariant
                i <= self@.neighbors@.len(),
                self@ == self.config,
                forall|j: int| 0 <= j < i ==> #[trigger] self@.neighbors@[j].direction != direction,
            decreases self@.neighbors@.len() - i,
        {
            if self.config.neighbors[i].direction == direction {
                return true;
            }
            i = i + 1;
        }
        false
    }

    /// Calculate the entry position when entering this screen from a direction
    pub fn calculate_entry_position(&self, from_direction: Direction, relative_pos: CursorPosition) -> (p: CursorPosition)
        requires
            entry_defined(self@, from_direction),
        ensures
            p == spec_entry_position(self@, from_direction, relative_pos),
    {
        let threshold = self.config.edge_threshold;
        match from_direction {
            Direction::Left => {
                // Entering from left means we're coming from the left screen
                CursorPosition::new(
                    threshold + 1,
                    clamp_i32(relative_pos.y, 0, self.config.height - 1),
                )
            },
            Direction::Right => {
                // Entering from right
                CursorPosition::new(
                    self.config.width - threshold - 1,
                    clamp_i32(relative_pos.y, 0, self.config.height - 1),
                )
            },
            Direction::Top => {
                // Entering from top
                CursorPosition::new(
                    clamp_i32(relative_pos.x, 0, self.config.width - 1),
                    threshold + 1,
                )
            },
            Direction::Bottom => {
                // Entering from bottom
                CursorPosition::new(
                    clamp_i32(relative_pos.x, 0, self.config.width - 1),
                    self.config.height - threshold - 1,
                )
            },
        }
    }

    /// Get screen dimensions
    pub fn dimensions(&self) -> (r: (i32, i32))
        ensures
            r == (self@.width, self@.height),
    {
        (self.config.width, self.config.height)
    }
}

/// A global point in a screen's local coordinates.
pub open spec fn spec_global_to_local(s: ScreenInfo, x: int, y: int) -> (int, int) {
    (x - s.position.0, y - s.position.1)
}

/// A screen-local point in global coordinates.
pub open spec fn spec_local_to_global(s: ScreenInfo, x: int, y: int) -> (int, int) {
    (x + s.position.0, y + s.position.1)
}

/// Converting a point to a screen's local coordinates and back gives the
/// point again, and so does the other order.
pub proof fn lemma_local_global_inverse(s: ScreenInfo, x: int, y: int)
    ensures
        ({
            let (lx, ly) = spec_global_to_local(s, x, y);
            spec_local_to_global(s, lx, ly)
        }) == (x, y),
        ({
            let (gx, gy) = spec_local_to_global(s, x, y);
            spec_global_to_local(s, gx, gy)
        }) == (x, y),
{
}

/// A global point lies on a screen exactly when its local coordinates lie
/// within the screen's size.
pub proof fn lemma_contains_local(s: ScreenInfo, x: int, y: int)
    ensures
        screen_contains(s, x, y) <==> ({
            let (lx, ly) = spec_global_to_local(s, x, y);
            0 <= lx < s.width && 0 <= ly < s.height
        }),
{
}

/// The cursor switches only toward a side that has a neighbour, and it
/// reappears outside the edge zone it would cross to come straight back.
pub proof fn lemma_edge_crossing(c: ScreenConfig, pos: CursorPosition)
    requires
        check_edge_defined(c, pos),
    ensures
        spec_check_edge(c, pos) matches Some((d, q)) ==> {
            &&& spec_has_neighbor(c, d)
            &&& match d {
                Direction::Left => q.x < c.width - c.edge_threshold && q.y == pos.y,
                Direction::Right => q.x > c.edge_threshold && q.y == pos.y,
                Direction::Top => q.y < c.height - c.edge_threshold && q.x == pos.x,
                Direction::Bottom => q.y > c.edge_threshold && q.x == pos.x,
            }
        },
{
}

/// With no neighbour at all, the cursor never switches screens.
pub proof fn lemma_no_neighbors_no_switch(c: ScreenConfig, pos: CursorPosition)
    requires
        c.neighbors@.len() == 0,
    ensures
        spec_check_edge(c, pos) is None,
{
}

/// A cursor entering from a side lands just inside that side, with its other
/// coordinate on the screen.
pub proof fn lemma_entry_on_screen(c: ScreenConfig, from: Direction, rel: CursorPosition)
    requires
        entry_defined(c, from),
    ensures
        ({
            let p = spec_entry_position(c, from, rel);
            match from {
                Direction::Left => p.x == c.edge_threshold + 1 && 0 <= p.y < c.height,
                Direction::Right => p.x == c.width - c.edge_threshold - 1 && 0 <= p.y < c.height,
                Direction::Top => p.y == c.edge_threshold + 1 && 0 <= p.x < c.width,
                Direction::Bottom => p.y == c.height - c.edge_threshold - 1 && 0 <= p.x < c.width,
            }
        }),
{
}

/// The screens whose name is not `name`, in their order.
pub open spec fn without_name(screens: Seq<ScreenInfo>, name: Seq<char>) -> Seq<ScreenInfo> {
    screens.filter(|s: ScreenInfo| s.name@ != name)
}

/// After the screens with a name are removed, none has that name, and every
/// screen with another name is still there.
pub proof fn lemma_remove_screen(screens: Seq<ScreenInfo>, name: Seq<char>)
    ensures
        forall|i: int|
            0 <= i < without_name(screens, name).len() ==> (#[trigger] without_name(screens, name)[i]).name@
                != name,
        forall|i: int|
            0 <= i < screens.len() && (#[trigger] screens[i]).name@ != name ==> without_name(
                screens,
                name,
            ).contains(screens[i]),
{
    let pred = |s: ScreenInfo| s.name@ != name;
    let f = screens.filter(pred);
    assert forall|i: int| 0 <= i < f.len() implies (#[trigger] f[i]).name@ != name by {
        screens.lemma_filter_pred(pred, i);
    }
    assert forall|i: int| 0 <= i < screens.len() && (#[trigger] screens[i]).name@ != name implies f.contains(
        screens[i],
    ) by {
        screens.lemma_filter_contains(pred, i);
    }
}

/// A screen added under a name that no screen had is the one found under
/// that name.
pub proof fn lemma_added_screen_found(screens: Seq<ScreenInfo>, info: ScreenInfo)
    requires
        forall|i: int| 0 <= i < screens.len() ==> (#[trigger] screens[i]).name@ != info.name@,
    ensures
        first_match(screens.push(info), |s: ScreenInfo| s.name@ == info.name@, Some(&info)),
{
    let s2 = screens.push(info);
    assert(s2[screens.len() as int] == info);
    assert forall|j: int| 0 <= j < screens.len() implies !((|s: ScreenInfo| s.name@ == info.name@)(
        #[trigger] s2[j],
    )) by {
        assert(s2[j] == screens[j]);
    }
}

/// Manages multiple screens in a virtual desktop layout
pub struct ScreenLayout {
    screens: Vec<ScreenInfo>,
}

#[derive(Debug)]
pub struct ScreenInfo {
    pub name: String,
    pub position: (i32, i32),
    pub width: i32,
    pub height: i32,
}

impl Clone for ScreenInfo {
    fn clone(&self) -> (r: Self)
        ensures
            r == *self,
    {
        ScreenInfo {
            name: self.name.clone(),
            position: (self.position.0, self.position.1),
            width: self.width,
            height: self.height,
        }
    }
}

impl View for ScreenLayout {
    type V = Seq<ScreenInfo>;

    closed spec fn view(&self) -> Seq<ScreenInfo> {
        self.screens@
    }
}

/// Whether the global point (x, y) lies on screen `s` (left and top edges
/// included, right and bottom excluded).
pub open spec fn screen_contains(s: ScreenInfo, x: int, y: int) -> bool {
    &&& s.position.0 <= x < s.position.0 + s.width
    &&& s.position.1 <= y < s.position.1 + s.height
}

/// `r` is the first element of `screens` that satisfies `p`, or `None` when
/// none does.
pub open spec fn first_match(screens: Seq<ScreenInfo>, p: spec_fn(ScreenInfo) -> bool, r: Option<&ScreenInfo>) -> bool {
    match r {
        Some(s) => exists|i: int|
            0 <= i < screens.len() && screens[i] == *s && p(*s) && forall|j: int|
                0 <= j < i ==> !p(#[trigger] screens[j]),
        None => forall|i: int| 0 <= i < screens.len() ==> !p(#[trigger] screens[i]),
    }
}

impl ScreenLayout {
    pub fn new() -> (l: Self)
        ensures
            l@ == Seq::<ScreenInfo>::empty(),
    {
        Self { screens: Vec::new() }
    }

    pub fn add_screen(&mut self, info: ScreenInfo)
        ensures
            final(self)@ == old(self)@.push(info),
    {
        self.screens.push(info);
    }

    /// Removes every screen with this name; the others keep their order.
    pub fn remove_screen(&mut self, name: &str)
        ensures
            final(self)@ == without_name(old(self)@, name@),
    {
        let ghost pred = |s: ScreenInfo| s.name@ != name@;
        let ghost before = self.screens@;
        let mut kept: Vec<ScreenInfo> = Vec::new();
        let mut i: usize = 0;
        while i < self.screens.len()
            invariant
                i <= before.len(),
                self.screens@ == before,
                kept@ == before.take(i as int).filter(pred),
                pred == (|s: ScreenInfo| s.name@ != name@),
            decreases before.len() - i,
        {
            proof {
                reveal_with_fuel(Seq::<_>::filter, 1);
                assert(before.take(i + 1).drop_last() =~= before.take(i as int));
            }
            let keep = !str_eq(self.screens[i].name.as_str(), name);
            if keep {
                kept.push(self.screens[i].clone());
            }
            proof {
                assert(before.take(i + 1).last() == before[i as int]);
                assert(pred(before[i as int]) == (before[i as int].name@ != name@));
                assert(pred(before[i as int]) == keep);
            }
            i = i + 1;
        }
        assert(before.take(before.len() as int) =~= before);
        self.screens = kept;
    }

    pub fn get_screen(&self, name: &str) -> (r: Option<&ScreenInfo>)
        ensures
            first_match(self@, |s: ScreenInfo| s.name@ == name@, r),
    {
        let mut i: usize = 0;
        while i < self.screens.len()
            invariant
                i <= self@.len(),
                self@ == self.screens@,
                forall|j: int| 0 <= j < i ==> (#[trigger] self@[j]).name@ != name@,
            decreases self@.len() - i,
        {
            if str_eq(self.screens[i].name.as_str(), name) {
                return Some(&self.screens[i]);
            }
            i = i + 1;
        }
        None
    }

    pub fn screens(&self) -> (r: &[ScreenInfo])
        ensures
            r@ == self@,
    {
        self.screens.as_slice()
    }

    /// Determine which screen a global position belongs to
    pub fn screen_at_position(&self, x: i32, y: i32) -> (r: Option<&ScreenInfo>)
        ensures
            first_match(self@, |s: ScreenInfo| screen_contains(s, x as int, y as int), r),
    {
        let mut i: usize = 0;
        while i < self.screens.len()
            invariant
                i <= self@.len(),
                self@ == self.screens@,
                forall|j: int|
                    0 <= j < i ==> !screen_contains(#[trigger] self@[j], x as int, y as int),
            decreases self@.len() - i,
        {
            let s = &self.screens[i];
            let left = s.position.0 as i64;
            let top = s.position.1 as i64;
            if x as i64 >= left && (x as i64) < left + s.width as i64 && y as i64 >= top && (y as i64)
                < top + s.height as i64 {
                return Some(s);
            }
            i = i + 1;
        }
        None
    }

    /// Convert global position to screen-local position
    pub fn global_to_local(&self, screen: &ScreenInfo, x: i32, y: i32) -> (r: (i32, i32))
        requires
            i32::MIN <= x - screen.position.0 <= i32::MAX,
            i32::MIN <= y - screen.position.1 <= i32::MAX,
        ensures
            (r.0 as int, r.1 as int) == spec_global_to_local(*screen, x as int, y as int),
    {
        (x - screen.position.0, y - screen.position.1)
    }

    /// Convert screen-local position to global position
    pub fn local_to_global(&self, screen: &ScreenInfo, x: i32, y: i32) -> (r: (i32, i32))
        requires
            i32::MIN <= x + screen.position.0 <= i32::MAX,
            i32::MIN <= y + screen.position.1 <= i32::MAX,
        ensures
            (r.0 as int, r.1 as int) == spec_local_to_global(*screen, x as int, y as int),
    {
        (x + screen.position.0, y + screen.position.1)
    }
}

impl Default for ScreenLayout {
    fn default() -> (l: Self)
        ensures
            l@ == Seq::<ScreenInfo>::empty(),
    {
        Self::new()
    }
}

} // verus!
