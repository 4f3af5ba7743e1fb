//! Where the tray menu window opens, in physical pixels.

use vstd::prelude::*;

verus! {

/// A rectangle in physical pixels: left and top edges, width and height.
#[derive(Clone, Copy, PartialEq, Eq, Structural, Debug)]
pub struct PixelRect {
    pub left: i32,
    pub top: i32,
    pub width: i32,
    pub height: i32,
}

/// `v / 2` as Rust rounds it, toward zero.
pub open spec fn half(v: int) -> int {
    if v >= 0 {
        v / 2
    } else {
        -((-v) / 2)
    }
}

/// `v.clamp(lo, hi)`.
pub open spec fn clamp_int(v: int, lo: int, hi: int) -> int {
    if v < lo {
        lo
    } else if v > hi {
        hi
    } else {
        v
    }
}

/// Whether the point lies on the rectangle: left and top edges included,
/// right and bottom edges excluded.
pub open spec fn rect_contains(r: PixelRect, x: int, y: int) -> bool {
    r.left <= x < r.left + r.width && r.top <= y < r.top + r.height
}

/// Whether the tray icon at (`x`, `y`) lies on the monitor `monitor`.
pub fn monitor_contains(monitor: PixelRect, x: i32, y: i32) -> (b: bool)
    requires
        i32::MIN <= monitor.left + monitor.width <= i32::MAX,
        i32::MIN <= monitor.top + monitor.height <= i32::MAX,
    ensures
        b == rect_contains(monitor, x as int, y as int),
{
    x >= monitor.left && x < monitor.left + monitor.width && y >= monitor.top && y
        < monitor.top + monitor.height
}

/// The menu's top-left corner: centred on the tray icon, above it where the
/// icon is in the lower half of the work area (a taskbar at the bottom),
/// below it otherwise, `gap` pixels away, and kept within the work area.
pub open spec fn menu_origin_of(
    tray_x: int,
    tray_y: int,
    work: PixelRect,
    width: int,
    height: int,
    gap: int,
) -> (int, int) {
    let x = tray_x - half(width);
    let center_y = work.top + half(work.height as int);
    let y = if tray_y > center_y {
        tray_y - height - gap
    } else {
        tray_y + gap
    };
    (
        clamp_int(x, work.left as int, work.left + work.width - width),
        clamp_int(y, work.top as int, work.top + work.height - height),
    )
}

/// Where to open the menu of `width` by `height` pixels for a click on the
/// tray icon at (`tray_x`, `tray_y`) on a monitor with work area `work`.
pub fn menu_origin(tray_x: i32, tray_y: i32, work: PixelRect, width: i32, height: i32, gap: i32) -> (r: (
    i32,
    i32,
))
    requires
        i32::MIN <= tray_x - half(width as int) <= i32::MAX,
        i32::MIN <= work.top + half(work.height as int) <= i32::MAX,
        i32::MIN <= tray_y - height - gap <= i32::MAX,
        i32::MIN <= tray_y - height <= i32::MAX,
        i32::MIN <= tray_y + gap <= i32::MAX,
        i32::MIN <= work.left + work.width <= i32::MAX,
        i32::MIN <= work.left + work.width - width <= i32::MAX,
        i32::MIN <= work.top + work.height <= i32::MAX,
        i32::MIN <= work.top + work.height - height <= i32::MAX,
        work.left <= work.left + work.width - width,
        work.top <= work.top + work.height - height,
    ensures
        (r.0 as int, r.1 as int) == menu_origin_of(
            tray_x as int,
            tray_y as int,
            work,
            width as int,
            height as int,
            gap as int,
        ),
{
    let x = tray_x - width / 2;
    let center_y = work.top + work.height / 2;
    let y = if tray_y > center_y {
        tray_y - height - gap
    } else {
        tray_y + gap
    };
    let max_x = work.left + work.width - width;
    let max_y = work.top + work.height - height;
    let cx = if x < work.left {
        work.left
    } else if x > max_x {
        max_x
    } else {
        x
    };
    let cy = if y < work.top {
        work.top
    } else if y > max_y {
        max_y
    } else {
        y
    };
    (cx, cy)
}

/// A menu that fits in the work area opens entirely within it.
pub proof fn menu_stays_in_work_area(
    tray_x: int,
    tray_y: int,
    work: PixelRect,
    width: int,
    height: int,
    gap: int,
)
    requires
        0 <= width <= work.width,
        0 <= height <= work.height,
    ensures
        ({
            let (x, y) = menu_origin_of(tray_x, tray_y, work, width, height, gap);
            &&& work.left <= x && x + width <= work.left + work.width
            &&& work.top <= y && y + height <= work.top + work.height
        }),
{
}

/// `v - d`, or the least `i32` where that would be smaller.
pub open spec fn saturating_minus(v: int, d: int) -> int {
    if v - d < i32::MIN {
        i32::MIN as int
    } else {
        v - d
    }
}

/// `v + d`, or the greatest `i32` where that would be larger.
pub open spec fn saturating_plus(v: int, d: int) -> int {
    if v + d > i32::MAX {
        i32::MAX as int
    } else {
        v + d
    }
}

/// Where to open the menu when no monitor is known: 196 pixels left of and
/// 24 pixels below the tray icon, saturating at the edges of `i32`.
pub fn menu_fallback_origin(tray_x: i32, tray_y: i32) -> (r: (i32, i32))
    ensures
        r.0 as int == saturating_minus(tray_x as int, 196),
        r.1 as int == saturating_plus(tray_y as int, 24),
{
    let x = if tray_x >= i32::MIN + 196 {
        tray_x - 196
    } else {
        i32::MIN
    };
    let y = if tray_y <= i32::MAX - 24 {
        tray_y + 24
    } else {
        i32::MAX
    };
    (x, y)
}

} // verus!
