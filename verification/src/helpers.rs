//! Small computations on screen areas.

use vstd::prelude::*;

use crate::enums::ContainerPositions;

verus! {

/// A rectangular area of the screen, as plain values.
#[derive(Clone, Copy, Debug, PartialEq, Eq, Structural)]
pub struct Rect {
    /// The column of the top left corner.
    pub x: u16,
    /// The row of the top left corner.
    pub y: u16,
    pub width: u16,
    pub height: u16,
}

/// The rectangle at `(x, y)` that is as near to the given size as the screen
/// coordinates allow: its right and lower edges do not pass the largest
/// coordinate.
pub open spec fn spec_rect(x: u16, y: u16, width: u16, height: u16) -> Rect {
    Rect {
        x,
        y,
        width: if width > u16::MAX - x {
            (u16::MAX - x) as u16
        } else {
            width
        },
        height: if height > u16::MAX - y {
            (u16::MAX - y) as u16
        } else {
            height
        },
    }
}

/// The area `rect` drawn in by the given amounts: the corner moves right and
/// down by `left` and `top`, the width shrinks by `right`, and the height by
/// `bottom` as far as there is height.
pub open spec fn spec_inner(rect: Rect, left: u16, top: u16, right: u16, bottom: u16) -> Rect {
    spec_rect(
        (rect.x + left) as u16,
        (rect.y + top) as u16,
        (rect.width - right) as u16,
        if rect.height >= bottom {
            (rect.height - bottom) as u16
        } else {
            0
        },
    )
}

/// `ratatui::layout::Rect::new`: the rectangle at `(x, y)` with the given
/// size, its width and height cut down so that `x + width` and `y + height`
/// stay within `u16`.
#[verifier::external_body]
fn rect_new(x: u16, y: u16, width: u16, height: u16) -> (rect: Rect)
    ensures
        rect == spec_rect(x, y, width, height),
{
    let made = ratatui::layout::Rect::new(x, y, width, height);
    Rect { x: made.x, y: made.y, width: made.width, height: made.height }
}

/// The area `rect` drawn in by the given amounts.
pub fn get_inner(rect: Rect, left: u16, top: u16, right: u16, bottom: u16) -> (inner: Rect)
    requires
        rect.x + left <= u16::MAX,
        rect.y + top <= u16::MAX,
        right <= rect.width,
    ensures
        inner == spec_inner(rect, left, top, right, bottom),
{
    rect_new(rect.x + left, rect.y + top, rect.width - right, rect.height.saturating_sub(bottom))
}

/// The row below the last row of the area, which stops at the largest
/// coordinate.
pub open spec fn spec_bottom(area: Rect) -> int {
    if area.y + area.height > u16::MAX {
        u16::MAX as int
    } else {
        area.y + area.height
    }
}

/// The part of `area` that is `height` rows high and placed as `position`
/// says: at the bottom of the area, or else the whole area.
pub open spec fn spec_position(position: ContainerPositions, height: u16, area: Rect) -> Rect {
    match position {
        ContainerPositions::Bottom => spec_rect(
            area.x,
            (spec_bottom(area) - height) as u16,
            area.width,
            height,
        ),
        _ => area,
    }
}

/// The part of `area` that is `height` rows high and placed as `position`
/// says.
pub fn find_position(position: ContainerPositions, height: u16, area: Rect) -> (placed: Rect)
    requires
        position == ContainerPositions::Bottom ==> height <= spec_bottom(area),
    ensures
        placed == spec_position(position, height, area),
{
    match position {
        ContainerPositions::Bottom => {
            let bottom: u16 = area.y.saturating_add(area.height);
            rect_new(area.x, bottom - height, area.width, height)
        },
        _ => area,
    }
}

/// The widths of the slices of a line of width `width` that is cut into
/// tenths, each slice taking as many tenths as `slices` gives it.
pub fn get_width_by_ratio(width: u16, slices: Vec<u16>) -> (widths: Vec<u16>)
    requires
        forall|i: int| 0 <= i < slices@.len() ==> (width / 10) * slices@[i] <= u16::MAX,
    ensures
        widths@.len() == slices@.len(),
        forall|i: int| 0 <= i < slices@.len() ==> widths@[i] == (width / 10) * slices@[i],
{
    let tenth: u16 = width / 10;
    let mut widths: Vec<u16> = Vec::new();
    let mut at: usize = 0;
    while at < slices.len()
        invariant
            at <= slices@.len(),
            tenth == width / 10,
            widths@.len() == at,
            forall|i: int| 0 <= i < slices@.len() ==> (width / 10) * slices@[i] <= u16::MAX,
            forall|i: int| 0 <= i < at ==> widths@[i] == (width / 10) * slices@[i],
        decreases slices@.len() - at,
    {
        widths.push(tenth * slices[at]);
        at = at + 1;
    }
    widths
}

/// The index after `index` among `count` items, where the one after the last
/// is the first.
pub open spec fn spec_wrap_increment(index: int, count: int) -> int {
    if index + 1 >= count {
        0
    } else {
        index + 1
    }
}

/// The index before `index` among `count` items, where the one before the
/// first is the last. An index behind the items counts as one behind the last.
pub open spec fn spec_wrap_decrement(index: int, count: int) -> int {
    if count <= 0 {
        0
    } else if index <= 0 || index >= count {
        count - 1
    } else {
        index - 1
    }
}

/// The index after `index` among `count` items, going round.
pub fn wrap_increment(index: usize, count: usize) -> (next: usize)
    ensures
        next == spec_wrap_increment(index as int, count as int),
        count > 0 ==> next < count,
        0 < count && index + 1 < count ==> next == index + 1,
        0 < count && index == count - 1 ==> next == 0,
{
    if index >= count || index + 1 >= count {
        0
    } else {
        index + 1
    }
}

/// The index before `index` among `count` items, going round.
pub fn wrap_decrement(index: usize, count: usize) -> (previous: usize)
    ensures
        previous == spec_wrap_decrement(index as int, count as int),
        count > 0 ==> previous < count,
        0 < index < count ==> previous == index - 1,
        0 < count && index == 0 ==> previous == count - 1,
{
    if count == 0 {
        0
    } else if index == 0 || index >= count {
        count - 1
    } else {
        index - 1
    }
}

/// Going round `count` items forwards is counting modulo `count`, and going
/// backwards undoes going forwards.
pub proof fn lemma_wrap_is_modular(index: int, count: int)
    requires
        0 <= index < count,
    ensures
        spec_wrap_increment(index, count) == (index + 1) % count,
        spec_wrap_decrement(index, count) == (index + count - 1) % count,
        spec_wrap_decrement(spec_wrap_increment(index, count), count) == index,
        spec_wrap_increment(spec_wrap_decrement(index, count), count) == index,
        spec_wrap_increment(count - 1, count) == 0,
        spec_wrap_decrement(0, count) == count - 1,
{
    if index + 1 < count {
        assert((index + 1) % count == index + 1) by {
            vstd::arithmetic::div_mod::lemma_small_mod((index + 1) as nat, count as nat);
        }
    } else {
        assert(index + 1 == count);
        assert(count % count == 0) by {
            vstd::arithmetic::div_mod::lemma_mod_self_0(count);
        }
    }
    if index >= 1 {
        assert((index + count - 1) % count == index - 1) by {
            vstd::arithmetic::div_mod::lemma_mod_add_multiples_vanish(index - 1, count);
            vstd::arithmetic::div_mod::lemma_small_mod((index - 1) as nat, count as nat);
        }
    } else {
        assert((count - 1) % count == count - 1) by {
            vstd::arithmetic::div_mod::lemma_small_mod((count - 1) as nat, count as nat);
        }
    }
}

} // verus!
