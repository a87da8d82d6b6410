//! Placing a widget of a given size inside a parent rectangle.

use vstd::prelude::*;

verus! {

/// A rectangle of terminal cells: its top-left corner and its size.
#[derive(Debug, Clone, Copy, PartialEq, Eq, Structural)]
pub struct Area {
    pub x: u16,
    pub y: u16,
    pub width: u16,
    pub height: u16,
}

/// Where a widget sits inside its parent: one of the compass anchors, or a
/// fixed offset from the parent's top-left corner.
#[derive(Debug, Clone, Copy, PartialEq, Eq, Structural)]
pub enum Anchor {
    Center,
    Top,
    Bottom,
    Left,
    Right,
    TopLeft,
    TopRight,
    BottomLeft,
    BottomRight,
    Custom(u16, u16),
}

/// `a - b`, or 0 where `b` exceeds `a`.
pub open spec fn sat_sub(a: nat, b: nat) -> nat {
    if a >= b {
        (a - b) as nat
    } else {
        0
    }
}

/// The horizontal offset of a widget of width `w` in a parent of width `pw`.
pub open spec fn offset_x(anchor: Anchor, pw: nat, w: nat) -> nat {
    match anchor {
        Anchor::Left | Anchor::TopLeft | Anchor::Top | Anchor::BottomLeft | Anchor::Bottom => 0,
        Anchor::Center => sat_sub(pw, w) / 2,
        Anchor::Right | Anchor::TopRight | Anchor::BottomRight => sat_sub(pw, w),
        Anchor::Custom(x, _) => x as nat,
    }
}

/// The vertical offset of a widget of height `h` in a parent of height `ph`.
pub open spec fn offset_y(anchor: Anchor, ph: nat, h: nat) -> nat {
    match anchor {
        Anchor::Top | Anchor::TopLeft | Anchor::TopRight => 0,
        Anchor::Left | Anchor::Right | Anchor::Center => sat_sub(ph, h) / 2,
        Anchor::Bottom | Anchor::BottomLeft | Anchor::BottomRight => sat_sub(ph, h),
        Anchor::Custom(_, y) => y as nat,
    }
}

/// Whether the placed corner can be written in terminal coordinates.
pub open spec fn placement_fits(anchor: Anchor, width: u16, height: u16, parent: Area) -> bool {
    &&& parent.x + offset_x(anchor, parent.width as nat, width as nat) <= u16::MAX
    &&& parent.y + offset_y(anchor, parent.height as nat, height as nat) <= u16::MAX
}

/// The rectangle of a widget of the given size placed by `anchor` in `parent`.
pub open spec fn placed(anchor: Anchor, width: u16, height: u16, parent: Area) -> Area {
    Area {
        x: (parent.x + offset_x(anchor, parent.width as nat, width as nat)) as u16,
        y: (parent.y + offset_y(anchor, parent.height as nat, height as nat)) as u16,
        width,
        height,
    }
}

/// A widget that fits in its parent, placed by a compass anchor in a parent
/// that lies within the coordinate range, lies wholly inside the parent.
pub proof fn lemma_placed_inside(anchor: Anchor, width: u16, height: u16, parent: Area)
    requires
        !(anchor is Custom),
        width <= parent.width,
        height <= parent.height,
        parent.x + parent.width <= u16::MAX,
        parent.y + parent.height <= u16::MAX,
    ensures
        placement_fits(anchor, width, height, parent),
        parent.x <= placed(anchor, width, height, parent).x,
        parent.y <= placed(anchor, width, height, parent).y,
        placed(anchor, width, height, parent).x + width <= parent.x + parent.width,
        placed(anchor, width, height, parent).y + height <= parent.y + parent.height,
{
}

/// Places a widget of size `width` by `height` inside `parent`. The offset
/// from the parent's corner never goes below zero, even for a widget larger
/// than its parent. `None` where the corner would leave the coordinate range.
pub fn place(anchor: Anchor, width: u16, height: u16, parent: Area) -> (r: Option<Area>)
    ensures
        r is Some <==> placement_fits(anchor, width, height, parent),
        r is Some ==> r->Some_0 == placed(anchor, width, height, parent),
{
    let free_w = parent.width.saturating_sub(width);
    let free_h = parent.height.saturating_sub(height);
    let dx: u16 = match anchor {
        Anchor::Left | Anchor::TopLeft | Anchor::Top | Anchor::BottomLeft | Anchor::Bottom => 0,
        Anchor::Center => free_w / 2,
        Anchor::Right | Anchor::TopRight | Anchor::BottomRight => free_w,
        Anchor::Custom(x, _) => x,
    };
    let dy: u16 = match anchor {
        Anchor::Top | Anchor::TopLeft | Anchor::TopRight => 0,
        Anchor::Left | Anchor::Right | Anchor::Center => free_h / 2,
        Anchor::Bottom | Anchor::BottomLeft | Anchor::BottomRight => free_h,
        Anchor::Custom(_, y) => y,
    };
    let x = parent.x.checked_add(dx);
    let y = parent.y.checked_add(dy);
    match (x, y) {
        (Some(x), Some(y)) => Some(Area { x, y, width, height }),
        _ => None,
    }
}

} // verus!
