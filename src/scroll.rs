//! Scroll panes and scroll areas: wheel events and scroll bounds.
use vstd::prelude::*;
use crate::components::ScrollPane;
use crate::geometry::{Point, Rect};
use crate::input::{ScrollUnit, WheelEvent};
use crate::slider::clamp;

verus! {

/// Pixels scrolled by one line of a wheel.
pub const LINE_HEIGHT: i32 = 20;

/// Default sensitivity of a scroll area.
pub const DEFAULT_SENSITIVITY: i32 = 20;

/// The pixel delta of a wheel event: lines count [`LINE_HEIGHT`] pixels each.
pub open spec fn wheel_delta(e: WheelEvent) -> int {
    match e.unit {
        ScrollUnit::Line => e.y * LINE_HEIGHT,
        ScrollUnit::Pixel => e.y as int,
    }
}

/// One scroll step: move by `delta`, then raise to zero and lower to `max`.
pub open spec fn scroll_step(pos: int, max: int, delta: int) -> int {
    let raised = if pos + delta < 0 { 0 } else { pos + delta };
    if raised > max { max } else { raised }
}

/// Position after the wheel events, in order, each delta multiplied by `factor`.
pub open spec fn scroll_after(pos: int, max: int, events: Seq<WheelEvent>, factor: int) -> int
    decreases events.len(),
{
    if events.len() == 0 {
        pos
    } else {
        scroll_step(
            scroll_after(pos, max, events.drop_last(), factor),
            max,
            wheel_delta(events.last()) * factor,
        )
    }
}

/// Scrolling stays within bounds: for a non-negative bound, the position
/// after any non-empty sequence of wheel events lies between zero and the
/// bound, whatever the events and their magnitudes; after no event it is
/// the starting position, so a position within bounds stays within them.
pub proof fn lemma_scroll_within_bounds(pos: int, max: int, events: Seq<WheelEvent>, factor: int)
    requires
        max >= 0,
        events.len() > 0 || 0 <= pos <= max,
    ensures
        0 <= scroll_after(pos, max, events, factor) <= max,
    decreases events.len(),
{
    if events.len() > 1 {
        lemma_scroll_within_bounds(pos, max, events.drop_last(), factor);
    }
}

/// The scroll handlers do not drift: a frame without wheel events leaves
/// the position where it was.
pub proof fn lemma_scroll_without_events(pos: int, max: int, factor: int)
    ensures
        scroll_after(pos, max, Seq::<WheelEvent>::empty(), factor) == pos,
{
}

/// Sum of the heights that are present.
pub open spec fn sum_heights(heights: Seq<Option<i32>>) -> int
    decreases heights.len(),
{
    if heights.len() == 0 {
        0
    } else {
        sum_heights(heights.drop_last()) + match heights.last() {
            Some(h) => h as int,
            None => 0,
        }
    }
}

/// How far content of the given child heights scrolls in a container of
/// `container_height`: the excess of the children over the container, or
/// zero when they fit.
pub open spec fn scroll_bound(container_height: int, heights: Seq<Option<i32>>) -> int {
    let excess = sum_heights(heights) - container_height;
    if excess > 0 { excess } else { 0 }
}

/// [`scroll_bound`], lowered to `i64::MAX` where it exceeds it.
pub fn scroll_bound_of(container_height: i32, heights: &Vec<Option<i32>>) -> (b: i64)
    ensures
        b == (if scroll_bound(container_height as int, heights@) > i64::MAX {
            i64::MAX as int
        } else {
            scroll_bound(container_height as int, heights@)
        }),
        b >= 0,
{
    let mut total: i128 = 0;
    let mut i: usize = 0;
    while i < heights.len()
        invariant
            i <= heights@.len(),
            total == sum_heights(heights@.take(i as int)),
            -(i as int) * 0x8000_0000 <= total <= (i as int) * 0x8000_0000,
        decreases heights@.len() - i,
    {
        assert(heights@.take(i as int + 1).drop_last() =~= heights@.take(i as int));
        match heights[i] {
            Some(h) => {
                total = total + h as i128;
            },
            None => {},
        }
        i = i + 1;
    }
    assert(heights@.take(heights@.len() as int) =~= heights@);
    let excess: i128 = total - container_height as i128;
    if excess <= 0 {
        0
    } else if excess > i64::MAX as i128 {
        i64::MAX
    } else {
        excess as i64
    }
}

/// A scroll area: scrolls along both axes, each wheel delta scaled by its sensitivity.
#[derive(Clone, Copy, Debug, PartialEq, Eq, Structural, Default)]
pub struct ScrollArea {
    /// Current scroll position, in pixels.
    pub scroll_position: Point,
    /// Largest scroll position, in pixels.
    pub max_scroll: Point,
    /// Whether wheel events move it.
    pub enabled: bool,
    /// Factor applied to each wheel delta.
    pub sensitivity: i32,
}

impl ScrollArea {
    /// An enabled scroll area at the origin, with no room to scroll and the
    /// default sensitivity.
    pub fn new() -> (a: ScrollArea)
        ensures
            a.scroll_position == (Point { x: 0, y: 0 }),
            a.max_scroll == (Point { x: 0, y: 0 }),
            a.enabled,
            a.sensitivity == DEFAULT_SENSITIVITY,
    {
        ScrollArea {
            scroll_position: Point { x: 0, y: 0 },
            max_scroll: Point { x: 0, y: 0 },
            enabled: true,
            sensitivity: DEFAULT_SENSITIVITY,
        }
    }

    /// A scroll area with the given sensitivity and every other field at its
    /// default: at the origin, with no room to scroll, and not enabled.
    pub fn with_sensitivity(sensitivity: i32) -> (a: ScrollArea)
        ensures
            a.scroll_position == (Point { x: 0, y: 0 }),
            a.max_scroll == (Point { x: 0, y: 0 }),
            !a.enabled,
            a.sensitivity == sensitivity,
    {
        ScrollArea {
            scroll_position: Point { x: 0, y: 0 },
            max_scroll: Point { x: 0, y: 0 },
            enabled: false,
            sensitivity,
        }
    }

    /// Both coordinates lie between zero and their bound.
    pub open spec fn in_bounds(self) -> bool {
        0 <= self.scroll_position.x <= self.max_scroll.x && 0 <= self.scroll_position.y
            <= self.max_scroll.y
    }
}

/// Handles the wheel events of one frame for a scroll area.
///
/// An enabled area under the cursor moves each coordinate by every event's
/// pixel delta times the sensitivity, kept between zero and that
/// coordinate's bound. Otherwise the area is left as it is.
pub fn scroll_area_system(
    area: &mut ScrollArea,
    events: &Vec<WheelEvent>,
    cursor: Option<Point>,
    rect: Rect,
)
    ensures
        final(area).max_scroll == old(area).max_scroll,
        final(area).enabled == old(area).enabled,
        final(area).sensitivity == old(area).sensitivity,
        (match cursor {
            Some(c) => old(area).enabled && rect.spec_contains(c),
            None => false,
        }) ==> final(area).scroll_position.x == scroll_after(
            old(area).scroll_position.x as int,
            old(area).max_scroll.x as int,
            events@,
            old(area).sensitivity as int,
        ) && final(area).scroll_position.y == scroll_after(
            old(area).scroll_position.y as int,
            old(area).max_scroll.y as int,
            events@,
            old(area).sensitivity as int,
        ),
        !(match cursor {
            Some(c) => old(area).enabled && rect.spec_contains(c),
            None => false,
        }) ==> final(area).scroll_position == old(area).scroll_position,
        old(area).in_bounds() ==> final(area).in_bounds(),
{
    let hit = match cursor {
        Some(c) => area.enabled && rect.contains(c),
        None => false,
    };
    if hit {
        let x = scroll_position_after(area.scroll_position.x, area.max_scroll.x, events, area.sensitivity);
        let y = scroll_position_after(area.scroll_position.y, area.max_scroll.y, events, area.sensitivity);
        proof {
            if old(area).in_bounds() {
                lemma_scroll_within_bounds(
                    old(area).scroll_position.x as int,
                    old(area).max_scroll.x as int,
                    events@,
                    old(area).sensitivity as int,
                );
                lemma_scroll_within_bounds(
                    old(area).scroll_position.y as int,
                    old(area).max_scroll.y as int,
                    events@,
                    old(area).sensitivity as int,
                );
            }
        }
        area.scroll_position = Point { x, y };
    }
}

/// Recomputes how far a scroll area scrolls from the heights of its
/// children (`None` for a child without a size): no horizontal room, and
/// vertically the excess of the children over the container. The position
/// is then brought within the new bounds: horizontally to zero, vertically
/// raised to zero and lowered to the new bound.
pub fn calculate_scroll_bounds_system(
    area: &mut ScrollArea,
    container_height: i32,
    child_heights: &Vec<Option<i32>>,
)
    ensures
        final(area).enabled == old(area).enabled,
        final(area).sensitivity == old(area).sensitivity,
        final(area).max_scroll.x == 0,
        final(area).max_scroll.y == (if scroll_bound(container_height as int, child_heights@)
            > i64::MAX {
            i64::MAX as int
        } else {
            scroll_bound(container_height as int, child_heights@)
        }),
        final(area).scroll_position.x == 0,
        final(area).scroll_position.y == clamp(
            old(area).scroll_position.y as int,
            0,
            final(area).max_scroll.y as int,
        ),
        final(area).in_bounds(),
{
    let b = scroll_bound_of(container_height, child_heights);
    let y = area.scroll_position.y;
    let kept: i64 = if y < 0 {
        0
    } else if y > b {
        b
    } else {
        y
    };
    area.max_scroll = Point { x: 0, y: b };
    area.scroll_position = Point { x: 0, y: kept };
}

/// Handles the wheel events of one frame for a scroll pane.
///
/// Where the cursor lies in the pane's screen rectangle, each event moves
/// the vertical position by its pixel delta, kept between zero and the
/// bound; elsewhere, or without a cursor, the pane is left as it is.
pub fn scroll_pane_system(
    pane: &mut ScrollPane,
    events: &Vec<WheelEvent>,
    cursor: Option<Point>,
    area: Rect,
)
    ensures
        final(pane).max_scroll == old(pane).max_scroll,
        final(pane).scroll_position.x == old(pane).scroll_position.x,
        final(pane).scroll_position.y == (match cursor {
            Some(c) => if area.spec_contains(c) {
                scroll_after(
                    old(pane).scroll_position.y as int,
                    old(pane).max_scroll.y as int,
                    events@,
                    1,
                )
            } else {
                old(pane).scroll_position.y as int
            },
            None => old(pane).scroll_position.y as int,
        }),
        old(pane).in_bounds() ==> final(pane).in_bounds(),
{
    let hit = match cursor {
        Some(c) => area.contains(c),
        None => false,
    };
    if hit {
        let max = pane.max_scroll.y;
        let y = scroll_position_after(pane.scroll_position.y, max, events, 1);
        pane.scroll_position.y = y;
        proof {
            if old(pane).in_bounds() {
                lemma_scroll_within_bounds(old(pane).scroll_position.y as int, max as int, events@, 1);
            }
        }
    }
}

/// [`scroll_after`] on machine integers.
fn scroll_position_after(pos: i64, max: i64, events: &Vec<WheelEvent>, factor: i32) -> (r: i64)
    ensures
        r == scroll_after(pos as int, max as int, events@, factor as int),
{
    let mut cur: i64 = pos;
    let mut i: usize = 0;
    while i < events.len()
        invariant
            i <= events@.len(),
            cur == scroll_after(pos as int, max as int, events@.take(i as int), factor as int),
            i == 0 ==> cur == pos,
            i > 0 ==> cur == max || (0 <= cur <= max),
        decreases events@.len() - i,
    {
        assert(events@.take(i as int + 1).drop_last() =~= events@.take(i as int));
        let e = events[i];
        assert(-0x8000_0000 * 20 <= e.y * LINE_HEIGHT <= 0x8000_0000 * 20) by (nonlinear_arith)
            requires
                -0x8000_0000 <= e.y < 0x8000_0000,
                LINE_HEIGHT == 20,
        ;
        let delta: i128 = match e.unit {
            ScrollUnit::Line => e.y as i128 * LINE_HEIGHT as i128,
            ScrollUnit::Pixel => e.y as i128,
        };
        assert(-0x100_0000_0000_0000_0000 <= delta * factor <= 0x100_0000_0000_0000_0000) by (
        nonlinear_arith)
            requires
                -0x8000_0000 * 20 <= delta <= 0x8000_0000 * 20,
                -0x8000_0000 <= factor <= 0x8000_0000,
        ;
        let moved: i128 = cur as i128 + delta * factor as i128;
        let raised: i128 = if moved < 0 {
            0
        } else {
            moved
        };
        cur = if raised > max as i128 {
            max
        } else {
            raised as i64
        };
        i = i + 1;
    }
    assert(events@.take(events@.len() as int) =~= events@);
    cur
}

} // verus!
