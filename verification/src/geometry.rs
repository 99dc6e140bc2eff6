//! Placement of the overlay window on the monitors, in physical pixels.
//!
//! All coordinates are integers, so the overlap arithmetic is exact; the
//! window counts as visible on a monitor when the part of it that lies on the
//! monitor is at least `MIN_VISIBLE_WIDTH` wide and `MIN_VISIBLE_HEIGHT` high,
//! enough to see it and drag it back.

use vstd::prelude::*;

verus! {

/// Least width, in pixels, of the part of the window that must lie on a monitor.
pub const MIN_VISIBLE_WIDTH: i64 = 60;

/// Least height, in pixels, of the part of the window that must lie on a monitor.
pub const MIN_VISIBLE_HEIGHT: i64 = 40;

/// Where the overlay goes when its saved place is on no monitor.
pub const FALLBACK_X: i32 = 100;

/// Where the overlay goes when its saved place is on no monitor.
pub const FALLBACK_Y: i32 = 100;

/// A point on the desktop, in physical pixels.
#[derive(Clone, Copy, PartialEq, Eq, Debug, Structural)]
pub struct Position {
    pub x: i32,
    pub y: i32,
}

/// A width and a height, in physical pixels.
#[derive(Clone, Copy, PartialEq, Eq, Debug, Structural)]
pub struct Size {
    pub width: u32,
    pub height: u32,
}

/// The area that a monitor covers on the desktop.
#[derive(Clone, Copy, PartialEq, Eq, Debug, Structural)]
pub struct MonitorArea {
    pub position: Position,
    pub size: Size,
}

pub open spec fn min_int(a: int, b: int) -> int {
    if a <= b { a } else { b }
}

pub open spec fn max_int(a: int, b: int) -> int {
    if a >= b { a } else { b }
}

/// Length of the common part of the intervals `[a, a + a_len)` and
/// `[b, b + b_len)`; zero or negative when they do not meet.
pub open spec fn overlap(a: int, a_len: int, b: int, b_len: int) -> int {
    min_int(a + a_len, b + b_len) - max_int(a, b)
}

/// A window at `pos` of `size` shows enough of itself on monitor `m`.
pub open spec fn visible_on(m: MonitorArea, pos: Position, size: Size) -> bool {
    &&& overlap(pos.x as int, size.width as int, m.position.x as int, m.size.width as int)
        >= MIN_VISIBLE_WIDTH
    &&& overlap(pos.y as int, size.height as int, m.position.y as int, m.size.height as int)
        >= MIN_VISIBLE_HEIGHT
}

/// Whether the window counts as visible, given the monitors when they could
/// be listed (`None` when listing them failed): when nothing is known of the
/// monitors it does; otherwise it must be visible on one of them.
pub open spec fn visible_anywhere(monitors: Option<Seq<MonitorArea>>, pos: Position, size: Size) -> bool {
    match monitors {
        None => true,
        Some(ms) => ms.len() == 0 || exists|i: int| 0 <= i < ms.len() && visible_on(#[trigger] ms[i], pos, size),
    }
}

fn overlap_exec(a: i32, a_len: u32, b: i32, b_len: u32) -> (r: i64)
    ensures
        r == overlap(a as int, a_len as int, b as int, b_len as int),
{
    let a_end: i64 = a as i64 + a_len as i64;
    let b_end: i64 = b as i64 + b_len as i64;
    let end: i64 = if a_end <= b_end { a_end } else { b_end };
    let start: i64 = if a >= b { a as i64 } else { b as i64 };
    end - start
}

/// Whether a window at `pos` of `size` shows enough of itself on monitor `m`.
pub fn is_visible_on(m: &MonitorArea, pos: Position, size: Size) -> (r: bool)
    ensures
        r == visible_on(*m, pos, size),
{
    overlap_exec(pos.x, size.width, m.position.x, m.size.width) >= MIN_VISIBLE_WIDTH
        && overlap_exec(pos.y, size.height, m.position.y, m.size.height) >= MIN_VISIBLE_HEIGHT
}

fn visible_on_some(ms: &Vec<MonitorArea>, pos: Position, size: Size) -> (r: bool)
    ensures
        r == exists|i: int| 0 <= i < ms@.len() && visible_on(#[trigger] ms@[i], pos, size),
{
    let n = ms.len();
    for i in 0..n
        invariant
            n == ms@.len(),
            forall|j: int| 0 <= j < i ==> !visible_on(#[trigger] ms@[j], pos, size),
    {
        if is_visible_on(&ms[i], pos, size) {
            assert(visible_on(ms@[i as int], pos, size));
            return true;
        }
    }
    false
}

/// Whether the window has enough visible area on some monitor to be seen and
/// dragged back. `monitors` is `None` when the monitors could not be listed.
pub fn is_window_visible_on_any_monitor(monitors: Option<&Vec<MonitorArea>>, pos: Position, size: Size) -> (r: bool)
    ensures
        r == visible_anywhere(
            match monitors {
                None => None,
                Some(v) => Some(v@),
            },
            pos,
            size,
        ),
{
    match monitors {
        None => true,
        Some(ms) => ms.len() == 0 || visible_on_some(ms, pos, size),
    }
}

/// Where the overlay is placed at start-up: at its saved place when that is
/// visible, otherwise at the fallback place near the main monitor's corner.
pub open spec fn restored(saved: Position, window: Size, monitors: Option<Seq<MonitorArea>>) -> Position {
    if visible_anywhere(monitors, saved, window) {
        saved
    } else {
        Position { x: FALLBACK_X, y: FALLBACK_Y }
    }
}

/// Where to put the overlay at start-up, from its saved place, its size (zero
/// when unknown) and the monitors (`None` when they could not be listed).
pub fn restored_position(saved: Position, window: Size, monitors: Option<&Vec<MonitorArea>>) -> (p: Position)
    ensures
        p == restored(
            saved,
            window,
            match monitors {
                None => None,
                Some(v) => Some(v@),
            },
        ),
{
    if is_window_visible_on_any_monitor(monitors, saved, window) {
        saved
    } else {
        Position { x: FALLBACK_X, y: FALLBACK_Y }
    }
}

/// Whether a reported move of the overlay to `pos` is kept. While monitors are
/// plugged or unplugged the window system may report places off every screen;
/// such a move is dropped when the window's size is known (`window` is `Some`)
/// and the place is on no monitor.
pub open spec fn move_kept(window: Option<Size>, monitors: Option<Seq<MonitorArea>>, pos: Position) -> bool {
    match window {
        None => true,
        Some(size) => visible_anywhere(monitors, pos, size),
    }
}

/// Whether a reported move of the overlay to `pos` is recorded.
pub fn keep_moved_position(window: Option<Size>, monitors: Option<&Vec<MonitorArea>>, pos: Position) -> (r: bool)
    ensures
        r == move_kept(
            window,
            match monitors {
                None => None,
                Some(v) => Some(v@),
            },
            pos,
        ),
{
    match window {
        None => true,
        Some(size) => is_window_visible_on_any_monitor(monitors, pos, size),
    }
}

/// A restored place is the saved one or the fallback one, and a saved place
/// that is visible is kept.
pub proof fn lemma_restore_keeps_visible(saved: Position, window: Size, monitors: Option<Seq<MonitorArea>>)
    ensures
        restored(saved, window, monitors) == saved
            || restored(saved, window, monitors) == (Position { x: FALLBACK_X, y: FALLBACK_Y }),
        visible_anywhere(monitors, saved, window) ==> restored(saved, window, monitors) == saved,
{
}

/// A window lying wholly on a monitor that is at least as large as the least
/// visible area counts as visible.
pub proof fn lemma_inside_monitor_is_visible(m: MonitorArea, pos: Position, size: Size)
    requires
        m.position.x <= pos.x,
        m.position.y <= pos.y,
        pos.x + size.width <= m.position.x + m.size.width,
        pos.y + size.height <= m.position.y + m.size.height,
        size.width >= MIN_VISIBLE_WIDTH,
        size.height >= MIN_VISIBLE_HEIGHT,
    ensures
        visible_on(m, pos, size),
{
}

/// A window that is visible on one of the listed monitors is visible, whatever
/// other monitors are listed with it.
pub proof fn lemma_visible_on_listed_monitor(ms: Seq<MonitorArea>, i: int, pos: Position, size: Size)
    requires
        0 <= i < ms.len(),
        visible_on(ms[i], pos, size),
    ensures
        visible_anywhere(Some(ms), pos, size),
{
}


/// On one axis, a window starting at `a` of length `a_len` shows at least `k`
/// of itself on a monitor starting at `b` of length `b_len` exactly when both
/// are at least `k` long, the window ends at least `k` past the monitor's
/// start, and the monitor ends at least `k` past the window's start.
pub proof fn lemma_overlap_bounds(a: int, a_len: int, b: int, b_len: int, k: int)
    ensures
        overlap(a, a_len, b, b_len) >= k <==> (a_len >= k && b_len >= k && a + a_len - k >= b && b + b_len - k >= a),
{
}

/// A window is visible on a monitor exactly when, on each axis, both are at
/// least the least visible length and each reaches at least that length past
/// the other's start. In particular a window wholly above, below, left or
/// right of a monitor is not visible on it.
pub proof fn lemma_visible_on_bounds(m: MonitorArea, pos: Position, size: Size)
    ensures
        visible_on(m, pos, size) <==> ({
            &&& size.width >= MIN_VISIBLE_WIDTH
            &&& m.size.width >= MIN_VISIBLE_WIDTH
            &&& pos.x + size.width - MIN_VISIBLE_WIDTH >= m.position.x
            &&& m.position.x + m.size.width - MIN_VISIBLE_WIDTH >= pos.x
            &&& size.height >= MIN_VISIBLE_HEIGHT
            &&& m.size.height >= MIN_VISIBLE_HEIGHT
            &&& pos.y + size.height - MIN_VISIBLE_HEIGHT >= m.position.y
            &&& m.position.y + m.size.height - MIN_VISIBLE_HEIGHT >= pos.y
        }),
        pos.y + size.height <= m.position.y ==> !visible_on(m, pos, size),
        m.position.y + m.size.height <= pos.y ==> !visible_on(m, pos, size),
        pos.x + size.width <= m.position.x ==> !visible_on(m, pos, size),
        m.position.x + m.size.width <= pos.x ==> !visible_on(m, pos, size),
{
    lemma_overlap_bounds(pos.x as int, size.width as int, m.position.x as int, m.size.width as int, MIN_VISIBLE_WIDTH as int);
    lemma_overlap_bounds(pos.y as int, size.height as int, m.position.y as int, m.size.height as int, MIN_VISIBLE_HEIGHT as int);
}

/// With the monitors listed and at least one of them, the window counts as
/// visible exactly when one single monitor shows enough of it on both axes;
/// with no monitor listed, or none known, it counts as visible.
pub proof fn lemma_visible_needs_one_monitor(ms: Seq<MonitorArea>, pos: Position, size: Size)
    ensures
        visible_anywhere(None, pos, size),
        visible_anywhere(Some(Seq::<MonitorArea>::empty()), pos, size),
        ms.len() > 0 ==> (visible_anywhere(Some(ms), pos, size) <==> exists|i: int|
            0 <= i < ms.len() && {
                &&& overlap(pos.x as int, size.width as int, (#[trigger] ms[i]).position.x as int, ms[i].size.width as int) >= MIN_VISIBLE_WIDTH
                &&& overlap(pos.y as int, size.height as int, ms[i].position.y as int, ms[i].size.height as int) >= MIN_VISIBLE_HEIGHT
            }),
{
}

} // verus!
