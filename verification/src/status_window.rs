//! Where the "Enhancing…" pill goes: near the cursor, but fully on screen.

use vstd::prelude::*;
use crate::platform::Platform;

verus! {

/// Horizontal offset of the pill from the cursor.
pub const CURSOR_OFFSET_X: i32 = 18;
/// Vertical offset of the pill from the cursor.
pub const CURSOR_OFFSET_Y: i32 = 18;
/// Width of the pill window.
pub const WIN_W: i32 = 220;
/// Height of the pill window.
pub const WIN_H: i32 = 70;
/// Gap kept between a clamped pill and the screen edge.
pub const EDGE_GAP: i32 = 4;

/// The pill's coordinate on one axis: the cursor plus the offset, moved back
/// inside `[lo, hi]` when the window would pass the far edge, then when it
/// would pass the near edge.
pub open spec fn clamp_axis(c: int, offset: int, size: int, lo: int, hi: int) -> int {
    let p = c + offset;
    let p1 = if p + size > hi {
        hi - size - 4
    } else {
        p
    };
    if p1 < lo {
        lo + 4
    } else {
        p1
    }
}

/// The 32-bit arithmetic of `clamp_axis` does not overflow.
pub open spec fn axis_in_range(c: int, offset: int, size: int, lo: int, hi: int) -> bool {
    let p = c + offset;
    let p1 = if p + size > hi {
        hi - size - 4
    } else {
        p
    };
    &&& p + size <= i32::MAX
    &&& p + size > hi ==> hi - size - 4 >= i32::MIN
    &&& p1 < lo ==> lo + 4 <= i32::MAX
}

/// A work area `(left, top, right, bottom)` and a cursor for which the pill's
/// position can be computed in 32-bit arithmetic.
pub open spec fn placement_in_range(cx: int, cy: int, area: (i32, i32, i32, i32)) -> bool {
    &&& axis_in_range(cx, CURSOR_OFFSET_X as int, WIN_W as int, area.0 as int, area.2 as int)
    &&& axis_in_range(cy, CURSOR_OFFSET_Y as int, WIN_H as int, area.1 as int, area.3 as int)
}

/// The pill's top-left corner for the cursor `(cx, cy)` in `area`.
pub open spec fn pill_at(cx: int, cy: int, area: (i32, i32, i32, i32)) -> (int, int) {
    (
        clamp_axis(cx, CURSOR_OFFSET_X as int, WIN_W as int, area.0 as int, area.2 as int),
        clamp_axis(cy, CURSOR_OFFSET_Y as int, WIN_H as int, area.1 as int, area.3 as int),
    )
}

fn clamp_axis_exec(c: i32, offset: i32, size: i32, lo: i32, hi: i32) -> (r: i32)
    requires
        axis_in_range(c as int, offset as int, size as int, lo as int, hi as int),
        offset >= 0,
        size >= 0,
    ensures
        r == clamp_axis(c as int, offset as int, size as int, lo as int, hi as int),
{
    let mut p = c + offset;
    if p + size > hi {
        p = hi - size - 4;
    }
    if p < lo {
        p = lo + 4;
    }
    p
}

/// The pill's top-left corner for the cursor `(cx, cy)` in the work area
/// `(left, top, right, bottom)`: offset from the cursor, clamped so that it
/// stays on screen.
pub fn pill_position(cx: i32, cy: i32, area: (i32, i32, i32, i32)) -> (r: (i32, i32))
    requires
        placement_in_range(cx as int, cy as int, area),
    ensures
        (r.0 as int, r.1 as int) == pill_at(cx as int, cy as int, area),
{
    let x = clamp_axis_exec(cx, CURSOR_OFFSET_X, WIN_W, area.0, area.2);
    let y = clamp_axis_exec(cy, CURSOR_OFFSET_Y, WIN_H, area.1, area.3);
    (x, y)
}

/// Whether the pill's position for the cursor `(cx, cy)` in `area` can be
/// computed in 32-bit arithmetic (the condition of `pill_position`).
pub fn placement_fits(cx: i32, cy: i32, area: (i32, i32, i32, i32)) -> (b: bool)
    ensures
        b == placement_in_range(cx as int, cy as int, area),
{
    axis_fits(cx as i64, CURSOR_OFFSET_X as i64, WIN_W as i64, area.0 as i64, area.2 as i64)
        && axis_fits(cy as i64, CURSOR_OFFSET_Y as i64, WIN_H as i64, area.1 as i64, area.3 as i64)
}

fn axis_fits(c: i64, offset: i64, size: i64, lo: i64, hi: i64) -> (b: bool)
    requires
        i32::MIN <= c <= i32::MAX,
        i32::MIN <= lo <= i32::MAX,
        i32::MIN <= hi <= i32::MAX,
        0 <= offset <= 1000,
        0 <= size <= 1000,
    ensures
        b == axis_in_range(c as int, offset as int, size as int, lo as int, hi as int),
{
    let p = c + offset;
    let p1 = if p + size > hi {
        hi - size - 4
    } else {
        p
    };
    p + size <= i32::MAX as i64 && (!(p + size > hi) || hi - size - 4 >= i32::MIN as i64) && (!(
    p1 < lo) || lo + 4 <= i32::MAX as i64)
}

/// The cursor position used to place the pill: on Windows the position read
/// from the system, `(100, 100)` when it could not be read; elsewhere a fixed
/// spot near the top right, `(1200, 100)`.
pub fn cursor_pos(platform: Platform, reading: Option<(i32, i32)>) -> (r: (i32, i32))
    ensures
        platform == Platform::Windows ==> r == match reading {
            Some(p) => p,
            None => (100i32, 100i32),
        },
        platform != Platform::Windows ==> r == (1200i32, 100i32),
{
    match platform {
        Platform::Windows => match reading {
            Some(p) => p,
            None => (100, 100),
        },
        _ => (1200, 100),
    }
}

/// The work area `(left, top, right, bottom)` of the monitor under the cursor:
/// on Windows the monitor's work area as read from the system, a 1920x1080
/// screen when it could not be read; elsewhere a 1920x1080 screen.
pub fn work_area_around(platform: Platform, monitor: Option<(i32, i32, i32, i32)>) -> (r: (
    i32,
    i32,
    i32,
    i32,
))
    ensures
        platform == Platform::Windows ==> r == match monitor {
            Some(m) => m,
            None => (0i32, 0i32, 1920i32, 1080i32),
        },
        platform != Platform::Windows ==> r == (0i32, 0i32, 1920i32, 1080i32),
{
    match platform {
        Platform::Windows => match monitor {
            Some(m) => m,
            None => (0, 0, 1920, 1080),
        },
        _ => (0, 0, 1920, 1080),
    }
}

/// On a work area at least one window and the edge gap wide (and high), the
/// pill lies entirely within it.
pub proof fn law_pill_stays_on_screen(cx: int, cy: int, area: (i32, i32, i32, i32))
    requires
        area.2 - area.0 >= WIN_W + EDGE_GAP,
        area.3 - area.1 >= WIN_H + EDGE_GAP,
    ensures
        area.0 <= pill_at(cx, cy, area).0,
        pill_at(cx, cy, area).0 + WIN_W <= area.2,
        area.1 <= pill_at(cx, cy, area).1,
        pill_at(cx, cy, area).1 + WIN_H <= area.3,
{
}

/// When the offset pill already fits inside the work area, it sits exactly at
/// the cursor plus the offset.
pub proof fn law_pill_follows_cursor(cx: int, cy: int, area: (i32, i32, i32, i32))
    requires
        area.0 <= cx + CURSOR_OFFSET_X,
        cx + CURSOR_OFFSET_X + WIN_W <= area.2,
        area.1 <= cy + CURSOR_OFFSET_Y,
        cy + CURSOR_OFFSET_Y + WIN_H <= area.3,
    ensures
        pill_at(cx, cy, area) == (cx + CURSOR_OFFSET_X, cy + CURSOR_OFFSET_Y),
{
}

/// A pill that would pass the far edge of a wide enough area is pulled back to
/// end 4 pixels before it, on each axis.
pub proof fn law_pill_pulled_back_from_far_edge(cx: int, cy: int, area: (i32, i32, i32, i32))
    ensures
        cx + CURSOR_OFFSET_X + WIN_W > area.2 && area.2 - area.0 >= WIN_W + EDGE_GAP ==> pill_at(
            cx,
            cy,
            area,
        ).0 + WIN_W == area.2 - EDGE_GAP,
        cy + CURSOR_OFFSET_Y + WIN_H > area.3 && area.3 - area.1 >= WIN_H + EDGE_GAP ==> pill_at(
            cx,
            cy,
            area,
        ).1 + WIN_H == area.3 - EDGE_GAP,
{
}

/// A pill that would start before the near edge is pushed in to start 4 pixels
/// after it, on each axis.
pub proof fn law_pill_pushed_in_from_near_edge(cx: int, cy: int, area: (i32, i32, i32, i32))
    ensures
        cx + CURSOR_OFFSET_X < area.0 && cx + CURSOR_OFFSET_X + WIN_W <= area.2 ==> pill_at(
            cx,
            cy,
            area,
        ).0 == area.0 + EDGE_GAP,
        cy + CURSOR_OFFSET_Y < area.1 && cy + CURSOR_OFFSET_Y + WIN_H <= area.3 ==> pill_at(
            cx,
            cy,
            area,
        ).1 == area.1 + EDGE_GAP,
{
}

} // verus!
