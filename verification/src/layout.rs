use vstd::prelude::*;
use vstd::arithmetic::div_mod::lemma_div_is_ordered;

verus! {

/// A screen region: top-left corner plus extent, in character cells.
#[derive(Clone, Copy, PartialEq, Eq, Structural, Debug)]
pub struct Rect {
    pub x: u16,
    pub y: u16,
    pub width: u16,
    pub height: u16,
}

/// `percent` percent of `total`, rounded down.
pub open spec fn scaled(total: int, percent: int) -> int {
    total * percent / 100
}

/// The space left around a centered span of `percent` percent of `total`,
/// split evenly, rounded down: a single stray unit of slack falls into the
/// trailing margin, not the leading one.
pub open spec fn leading_margin(total: int, percent: int) -> int {
    (total - scaled(total, percent)) / 2
}

proof fn lemma_scaled_bounds(total: int, percent: int)
    requires
        0 <= total,
        0 <= percent <= 100,
    ensures
        0 <= scaled(total, percent) <= total,
{
    assert(0 <= total * percent <= total * 100) by (nonlinear_arith)
        requires
            0 <= total,
            0 <= percent <= 100,
    ;
    lemma_div_is_ordered(0, total * percent, 100);
    lemma_div_is_ordered(total * percent, total * 100, 100);
    assert(total * 100 / 100 == total);
}

/// The two-cell margin that the outer screen split and the inner list
/// split both apply on every side.
pub const REGION_MARGIN: u16 = 2;

/// `r` shrunk by `margin` cells on every side; a region too small for the
/// margin collapses to zero size at its own corner.
pub open spec fn inset(r: Rect, margin: int) -> Rect {
    if r.width >= 2 * margin && r.height >= 2 * margin {
        Rect {
            x: (r.x + margin) as u16,
            y: (r.y + margin) as u16,
            width: (r.width - 2 * margin) as u16,
            height: (r.height - 2 * margin) as u16,
        }
    } else {
        Rect { x: r.x, y: r.y, width: 0, height: 0 }
    }
}

/// The one-row help strip: the top row of the screen under the outer margin.
pub open spec fn help_region(size: Rect) -> Rect {
    let outer = inset(size, REGION_MARGIN as int);
    Rect {
        x: outer.x,
        y: outer.y,
        width: outer.width,
        height: if outer.height >= 1 {
            1
        } else {
            0
        },
    }
}

/// The list region: everything below the help strip, shrunk once more by
/// the same margin.
pub open spec fn list_region(size: Rect) -> Rect {
    let outer = inset(size, REGION_MARGIN as int);
    let help = help_region(size);
    let rest = Rect {
        x: outer.x,
        y: (outer.y + help.height) as u16,
        width: outer.width,
        height: (outer.height - help.height) as u16,
    };
    inset(rest, REGION_MARGIN as int)
}

fn inset_exec(r: Rect, margin: u16) -> (out: Rect)
    requires
        r.x + r.width <= u16::MAX,
        r.y + r.height <= u16::MAX,
    ensures
        out == inset(r, margin as int),
        out.x + out.width <= r.x + r.width,
        out.y + out.height <= r.y + r.height,
        out.x >= r.x,
        out.y >= r.y,
    {
    if margin <= u16::MAX / 2 && r.width >= 2 * margin && r.height >= 2 * margin {
        Rect {
            x: r.x + margin,
            y: r.y + margin,
            width: r.width - 2 * margin,
            height: r.height - 2 * margin,
        }
    } else {
        Rect { x: r.x, y: r.y, width: 0, height: 0 }
    }
}

/// Splits the screen into the help strip and the list region: a fixed
/// margin around everything, one row of help at the top, and the rest,
/// under the margin once more, for the list.
pub fn compute_layout(size: Rect) -> (regions: (Rect, Rect))
    requires
        size.x + size.width <= u16::MAX,
        size.y + size.height <= u16::MAX,
    ensures
        regions.0 == help_region(size),
        regions.1 == list_region(size),
{
    let outer = inset_exec(size, REGION_MARGIN);
    let help_height: u16 = if outer.height >= 1 {
        1
    } else {
        0
    };
    let help = Rect { x: outer.x, y: outer.y, width: outer.width, height: help_height };
    let rest = Rect {
        x: outer.x,
        y: outer.y + help_height,
        width: outer.width,
        height: outer.height - help_height,
    };
    let list = inset_exec(rest, REGION_MARGIN);
    (help, list)
}

/// A rectangle of `percent_x` percent of the width and `percent_y` percent
/// of the height of `bounds`, centered within it; the space around it is
/// split evenly, rounding down, so any odd unit of slack is absorbed into
/// the trailing margin. Used for the popup overlay.
pub fn centered_region(percent_x: u16, percent_y: u16, bounds: Rect) -> (r: Rect)
    requires
        percent_x <= 100,
        percent_y <= 100,
        bounds.x + bounds.width <= u16::MAX,
        bounds.y + bounds.height <= u16::MAX,
    ensures
        r.width == scaled(bounds.width as int, percent_x as int),
        r.height == scaled(bounds.height as int, percent_y as int),
        r.x == bounds.x + leading_margin(bounds.width as int, percent_x as int),
        r.y == bounds.y + leading_margin(bounds.height as int, percent_y as int),
        r.x + r.width <= bounds.x + bounds.width,
        r.y + r.height <= bounds.y + bounds.height,
        r.x >= bounds.x,
        r.y >= bounds.y,
{
    proof {
        lemma_scaled_bounds(bounds.width as int, percent_x as int);
        lemma_scaled_bounds(bounds.height as int, percent_y as int);
    }
    let w: u16 = ((bounds.width as u32) * (percent_x as u32) / 100) as u16;
    let h: u16 = ((bounds.height as u32) * (percent_y as u32) / 100) as u16;
    let left: u16 = (bounds.width - w) / 2;
    let top: u16 = (bounds.height - h) / 2;
    Rect { x: bounds.x + left, y: bounds.y + top, width: w, height: h }
}

/// The cursor cell while the popup is visible: one cell in from the
/// popup's top-left corner, shifted right by the editor's display width.
pub fn cursor_position(popup: Rect, display_width: u16) -> (pos: (u16, u16))
    requires
        popup.x + display_width + 1 <= u16::MAX,
        popup.y + 1 <= u16::MAX,
    ensures
        pos.0 == popup.x + display_width + 1,
        pos.1 == popup.y + 1,
{
    (popup.x + display_width + 1, popup.y + 1)
}

} // verus!
