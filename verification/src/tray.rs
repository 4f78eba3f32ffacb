//! Placement of the tray popover.
use vstd::prelude::*;

verus! {

/// `w as i32`: the bit pattern of `w` read as a signed 32-bit integer.
pub open spec fn as_i32(w: u32) -> int {
    if w <= i32::MAX {
        w as int
    } else {
        w - 0x1_0000_0000
    }
}

/// `n / 2` on a signed integer, rounding toward zero.
pub open spec fn half_toward_zero(n: int) -> int {
    if n >= 0 {
        n / 2
    } else {
        -((-n) / 2)
    }
}

/// The panel's left edge, centred under the icon, before clamping.
pub open spec fn anchor_x(icon_x: i32, icon_width: u32, popover_width: u32) -> int {
    icon_x + half_toward_zero(as_i32(icon_width)) - half_toward_zero(as_i32(popover_width))
}

/// The panel's top edge, just below the icon, before clamping.
pub open spec fn anchor_y(icon_y: i32, icon_height: u32) -> int {
    icon_y + as_i32(icon_height)
}

pub open spec fn at_least_zero(v: int) -> int {
    if v < 0 {
        0
    } else {
        v
    }
}

fn wrap_to_i32(w: u32) -> (r: i64)
    ensures
        r == as_i32(w),
{
    if w <= 0x7fff_ffff {
        w as i64
    } else {
        (w as i64) - 0x1_0000_0000
    }
}

fn halve(n: i64) -> (r: i64)
    requires
        n > i64::MIN,
    ensures
        r == half_toward_zero(n as int),
{
    if n >= 0 {
        n / 2
    } else {
        -((-n) / 2)
    }
}

/// Where to put the popover: centred horizontally under the tray icon (in
/// physical pixels), never spilling off the left or top edge of the screen.
/// The sums must stay within `i32`, as the 32-bit pixel arithmetic requires.
pub fn anchor_position(icon_x: i32, icon_y: i32, icon_width: u32, icon_height: u32, popover_width: u32) -> (r: (i32, i32))
    requires
        i32::MIN <= icon_x + half_toward_zero(as_i32(icon_width)) <= i32::MAX,
        i32::MIN <= anchor_x(icon_x, icon_width, popover_width) <= i32::MAX,
        i32::MIN <= anchor_y(icon_y, icon_height) <= i32::MAX,
    ensures
        r.0 == at_least_zero(anchor_x(icon_x, icon_width, popover_width)),
        r.1 == at_least_zero(anchor_y(icon_y, icon_height)),
{
    let x = (icon_x as i64) + halve(wrap_to_i32(icon_width)) - halve(wrap_to_i32(popover_width));
    let y = (icon_y as i64) + wrap_to_i32(icon_height);
    let x = if x < 0 {
        0
    } else {
        x
    };
    let y = if y < 0 {
        0
    } else {
        y
    };
    (x as i32, y as i32)
}

/// `anchor_position`, or `None` where its 32-bit sums would overflow.
pub fn checked_anchor_position(
    icon_x: i32,
    icon_y: i32,
    icon_width: u32,
    icon_height: u32,
    popover_width: u32,
) -> (r: Option<(i32, i32)>)
    ensures
        r is Some <==> {
            &&& i32::MIN <= icon_x + half_toward_zero(as_i32(icon_width)) <= i32::MAX
            &&& i32::MIN <= anchor_x(icon_x, icon_width, popover_width) <= i32::MAX
            &&& i32::MIN <= anchor_y(icon_y, icon_height) <= i32::MAX
        },
        r matches Some(p) ==> p.0 == at_least_zero(anchor_x(icon_x, icon_width, popover_width))
            && p.1 == at_least_zero(anchor_y(icon_y, icon_height)),
{
    let half_icon = (icon_x as i64) + halve(wrap_to_i32(icon_width));
    let x = half_icon - halve(wrap_to_i32(popover_width));
    let y = (icon_y as i64) + wrap_to_i32(icon_height);
    let lo = i32::MIN as i64;
    let hi = i32::MAX as i64;
    if lo <= half_icon && half_icon <= hi && lo <= x && x <= hi && lo <= y && y <= hi {
        Some(anchor_position(icon_x, icon_y, icon_width, icon_height, popover_width))
    } else {
        None
    }
}

} // verus!
