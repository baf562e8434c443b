//! Places on the screen, lists that scroll, and moving through them.

use crate::number::{add_signed, shifted, smaller};
use crate::tui::width::{display_columns, display_width};
use vstd::prelude::*;
use vstd::string::*;

verus! {

/// A rectangle of cells.
#[derive(Clone, Copy, Debug, PartialEq, Eq, Structural)]
pub struct Rect {
    pub x: u16,
    pub y: u16,
    pub width: u16,
    pub height: u16,
}

/// The sum of two lengths, at most the largest `u16`.
pub open spec fn capped(a: u16, b: u16) -> u16 {
    if a + b > u16::MAX {
        u16::MAX
    } else {
        (a + b) as u16
    }
}

impl Rect {
    pub fn new(x: u16, y: u16, width: u16, height: u16) -> (r: Rect)
        ensures
            r == (Rect { x, y, width, height }),
    {
        Rect { x, y, width, height }
    }

    pub open spec fn right_edge(self) -> u16 {
        capped(self.x, self.width)
    }

    pub open spec fn bottom_edge(self) -> u16 {
        capped(self.y, self.height)
    }

    /// Whether the cell in `column` and `row` lies in the rectangle.
    pub open spec fn covers(self, column: u16, row: u16) -> bool {
        self.x <= column < self.right_edge() && self.y <= row < self.bottom_edge()
    }

    pub fn right(self) -> (r: u16)
        ensures
            r == self.right_edge(),
    {
        self.x.saturating_add(self.width)
    }

    pub fn bottom(self) -> (r: u16)
        ensures
            r == self.bottom_edge(),
    {
        self.y.saturating_add(self.height)
    }

    /// Whether the rectangle ends on the screen.
    pub open spec fn wf(self) -> bool {
        self.x + self.width <= u16::MAX && self.y + self.height <= u16::MAX
    }
}

/// Whether the cell in `column` and `row` lies in `area`.
pub open spec fn within(area: Option<Rect>, column: u16, row: u16) -> bool {
    match area {
        Some(rect) => rect.covers(column, row),
        None => false,
    }
}

pub fn contains_point(area: Option<Rect>, column: u16, row: u16) -> (r: bool)
    ensures
        r == within(area, column, row),
{
    match area {
        Some(rect) => column >= rect.x && column < rect.right() && row >= rect.y && row
            < rect.bottom(),
        None => false,
    }
}

/// What the first of `hitboxes` that covers the cell stands for.
pub open spec fn target_at(hitboxes: Seq<(Rect, usize)>, column: u16, row: u16) -> Option<usize>
    decreases hitboxes.len(),
{
    if hitboxes.len() == 0 {
        None
    } else if hitboxes[0].0.covers(column, row) {
        Some(hitboxes[0].1)
    } else {
        target_at(hitboxes.drop_first(), column, row)
    }
}

/// What the first of `hitboxes` that covers the cell stands for.
pub fn hitbox_target(hitboxes: &Vec<(Rect, usize)>, column: u16, row: u16) -> (r: Option<usize>)
    ensures
        r == target_at(hitboxes@, column, row),
{
    let mut i: usize = 0;
    assert(hitboxes@.skip(0) =~= hitboxes@);
    while i < hitboxes.len()
        invariant
            i <= hitboxes@.len(),
            target_at(hitboxes@.skip(i as int), column, row) == target_at(hitboxes@, column, row),
        decreases hitboxes@.len() - i,
    {
        assert(hitboxes@.skip(i as int)[0] == hitboxes@[i as int]);
        assert(hitboxes@.skip(i as int).drop_first() =~= hitboxes@.skip(i + 1));
        if contains_point(Some(hitboxes[i].0), column, row) {
            return Some(hitboxes[i].1);
        }
        i += 1;
    }
    None
}

/// `a`, but not more than `b`.
pub open spec fn at_most(a: int, b: int) -> int {
    if a <= b {
        a
    } else {
        b
    }
}

/// The last position in a list of `length` entries, or zero.
pub open spec fn last_of(length: int) -> int {
    if length > 0 {
        length - 1
    } else {
        0
    }
}

/// `current` moved by `delta` in a list of `length` entries, without going
/// round.
pub open spec fn scrolled(current: int, length: int, delta: int) -> int {
    if length == 0 {
        0
    } else {
        at_most(shifted(current, delta), length - 1)
    }
}

pub fn scrolled_index(current: usize, length: usize, delta: isize) -> (r: usize)
    ensures
        r == scrolled(current as int, length as int, delta as int),
{
    if length == 0 {
        return 0;
    }
    smaller(add_signed(current, delta), length - 1)
}

/// The entry before `current` in a list of `length` entries, going round.
pub open spec fn before(current: int, length: int) -> int {
    if length == 0 {
        0
    } else if current == 0 {
        length - 1
    } else {
        current - 1
    }
}

/// The entry behind `current` in a list of `length` entries, going round.
pub open spec fn behind(current: int, length: int) -> int {
    if length == 0 {
        0
    } else {
        (current + 1) % length
    }
}

/// The entry before `current` in a list of `length` entries, going round.
pub fn previous_index(current: usize, length: usize) -> (r: usize)
    ensures
        r == before(current as int, length as int),
{
    if length == 0 {
        0
    } else if current == 0 {
        length - 1
    } else {
        current - 1
    }
}

/// The entry behind `current` in a list of `length` entries, going round.
pub fn next_index(current: usize, length: usize) -> (r: usize)
    ensures
        r == behind(current as int, length as int),
{
    if length == 0 {
        0
    } else {
        let rest: usize = current % length;
        proof {
            vstd::arithmetic::div_mod::lemma_add_mod_noop(current as int, 1, length as int);
            vstd::arithmetic::div_mod::lemma_mod_twice(current as int, length as int);
            vstd::arithmetic::div_mod::lemma_add_mod_noop(rest as int, 1, length as int);
        }
        if rest + 1 == length {
            proof {
                vstd::arithmetic::div_mod::lemma_mod_self_0(length as int);
            }
            0
        } else {
            proof {
                vstd::arithmetic::div_mod::lemma_small_mod((rest + 1) as nat, length as nat);
            }
            rest + 1
        }
    }
}

/// Going to the next entry and back, or back and to the next, leads to where
/// one was, and one is always at an entry.
pub proof fn law_navigation_wraps(current: int, length: int)
    requires
        0 <= current < length,
    ensures
        before(behind(current, length), length) == current,
        behind(before(current, length), length) == current,
        0 <= before(current, length) < length,
        0 <= behind(current, length) < length,
{
    if current + 1 < length {
        vstd::arithmetic::div_mod::lemma_small_mod((current + 1) as nat, length as nat);
    } else {
        vstd::arithmetic::div_mod::lemma_mod_self_0(length);
    }
    vstd::arithmetic::div_mod::lemma_small_mod(current as nat, length as nat);
    if current == 0 {
        vstd::arithmetic::div_mod::lemma_mod_self_0(length);
    }
}

/// The part of a list that is on the screen: where, how long the list is, and
/// which entry comes first.
#[derive(Clone, Copy, Debug, PartialEq, Eq, Structural)]
pub struct ListViewport {
    pub area: Option<Rect>,
    pub length: usize,
    pub offset: usize,
}

/// The first entry of the last full view of `height` rows.
pub open spec fn last_offset(length: int, height: int) -> int {
    if length > height {
        length - height
    } else {
        0
    }
}

impl ListViewport {
    pub open spec fn none() -> ListViewport {
        ListViewport { area: None, length: 0, offset: 0 }
    }

    /// The viewport scrolled by `delta` with the mouse in `row`.
    pub open spec fn scrolled(self, delta: int) -> ListViewport {
        ListViewport {
            offset: at_most(
                shifted(self.offset as int, delta),
                last_offset(self.length as int, self.area->0.height as int),
            ) as usize,
            ..self
        }
    }

    /// Whether the mouse scrolls this list.
    pub open spec fn takes(self, column: u16, row: u16) -> bool {
        within(self.area, column, row) && self.length > 0
    }

    /// The entry in `row`, or the last one.
    pub open spec fn entry_in(self, row: u16) -> int {
        at_most(
            shifted(self.offset as int, row - self.area->0.y),
            last_of(self.length as int),
        )
    }

    /// The entry that has the focus after scrolling by `delta`, and what the
    /// viewport is then; without a viewport under the mouse, the entry moves.
    pub open spec fn focus(self, column: u16, row: u16, delta: int, current: int, length: int) -> int {
        if self.takes(column, row) {
            self.scrolled(delta).entry_in(row)
        } else {
            scrolled(current, length, delta)
        }
    }

    pub open spec fn after(self, column: u16, row: u16, delta: int) -> ListViewport {
        if self.takes(column, row) {
            self.scrolled(delta)
        } else {
            self
        }
    }

    pub fn empty() -> (r: ListViewport)
        ensures
            r == ListViewport::none(),
    {
        ListViewport { area: None, length: 0, offset: 0 }
    }

    pub fn offset(self) -> (r: usize)
        ensures
            r == self.offset,
    {
        self.offset
    }

    pub fn update(&mut self, area: Rect, length: usize, offset: usize)
        ensures
            *final(self) == (ListViewport {
                area: Some(area),
                length,
                offset: at_most(
                    offset as int,
                    last_offset(length as int, area.height as int),
                ) as usize,
            }),
    {
        let maximum: usize = length.saturating_sub(area.height as usize);
        self.area = Some(area);
        self.length = length;
        self.offset = smaller(offset, maximum);
    }

    pub fn clear(&mut self)
        ensures
            *final(self) == ListViewport::none(),
    {
        self.area = None;
        self.length = 0;
        self.offset = 0;
    }

    /// Scrolls by `delta` where the list is under the mouse, and tells which
    /// entry is then under it.
    pub fn scroll_at(&mut self, column: u16, row: u16, delta: isize) -> (r: Option<usize>)
        ensures
            *final(self) == old(self).after(column, row, delta as int),
            r is Some <==> old(self).takes(column, row),
            r matches Some(entry) ==> entry == old(self).scrolled(delta as int).entry_in(row),
    {
        let area = match self.area {
            Some(area) => area,
            None => {
                return None;
            },
        };
        if !contains_point(Some(area), column, row) || self.length == 0 {
            return None;
        }
        let maximum: usize = self.length.saturating_sub(area.height as usize);
        self.offset = smaller(add_signed(self.offset, delta), maximum);
        let slot: usize = (row - area.y) as usize;
        let entry: usize = smaller(self.offset.saturating_add(slot), self.length - 1);
        Some(entry)
    }

    /// Scrolls by `delta`, and tells which of `length` entries then has the
    /// focus that `current` had.
    pub fn scroll_focus(
        &mut self,
        column: u16,
        row: u16,
        delta: isize,
        current: usize,
        length: usize,
    ) -> (r: usize)
        ensures
            *final(self) == old(self).after(column, row, delta as int),
            r == old(self).focus(column, row, delta as int, current as int, length as int),
    {
        match self.scroll_at(column, row, delta) {
            Some(entry) => entry,
            None => scrolled_index(current, length, delta),
        }
    }
}

/// Scrolling keeps the entry under the mouse in its row of the screen, unless
/// the list ends there.
pub proof fn law_scrolling_keeps_the_mouse_row(
    viewport: ListViewport,
    column: u16,
    row: u16,
    delta: int,
)
    requires
        viewport.takes(column, row),
        viewport.scrolled(delta).offset + (row - viewport.area->0.y) < viewport.length,
        viewport.length <= usize::MAX,
    ensures
        viewport.scrolled(delta).entry_in(row) - viewport.scrolled(delta).offset == row
            - viewport.area->0.y,
        viewport.scrolled(delta).entry_in(row) < viewport.length,
{
}

/// A rectangle of at most the given size in the middle of `area`, with some
/// room left around it.
pub open spec fn centered(width: u16, height: u16, area: Rect) -> Rect {
    let room_x = if area.width >= 8 {
        area.width - 4
    } else if area.width >= 4 {
        4
    } else {
        area.width as int
    };
    let room_y = if area.height >= 4 {
        area.height - 2
    } else if area.height >= 2 {
        2
    } else {
        area.height as int
    };
    let w = at_most(width as int, room_x);
    let h = at_most(height as int, room_y);
    Rect {
        x: (area.x + (area.width - w) / 2) as u16,
        y: (area.y + (area.height - h) / 2) as u16,
        width: w as u16,
        height: h as u16,
    }
}

/// A rectangle of at most the given size in the middle of `area`.
pub fn centered_rect(width: u16, height: u16, area: Rect) -> (r: Rect)
    requires
        area.wf(),
    ensures
        r == centered(width, height, area),
{
    let least_width: u16 = if area.width < 4 {
        area.width
    } else {
        4
    };
    let least_height: u16 = if area.height < 2 {
        area.height
    } else {
        2
    };
    let mut room_x: u16 = area.width.saturating_sub(4);
    if room_x < least_width {
        room_x = least_width;
    }
    let mut room_y: u16 = area.height.saturating_sub(2);
    if room_y < least_height {
        room_y = least_height;
    }
    let w: u16 = if width < room_x {
        width
    } else {
        room_x
    };
    let h: u16 = if height < room_y {
        height
    } else {
        room_y
    };
    Rect {
        x: area.x + (area.width - w) / 2,
        y: area.y + (area.height - h) / 2,
        width: w,
        height: h,
    }
}

/// What is centered lies inside of the area.
pub proof fn law_centered_rect_stays_inside(width: u16, height: u16, area: Rect)
    requires
        area.wf(),
    ensures
        ({
            let r = centered(width, height, area);
            &&& area.x <= r.x
            &&& r.x + r.width <= area.x + area.width
            &&& area.y <= r.y
            &&& r.y + r.height <= area.y + area.height
            &&& r.width <= width
            &&& r.height <= height
        }),
{
}

/// Columns that a tab with this title takes.
pub open spec fn tab_width_of(title: Seq<char>) -> u16 {
    if display_columns(title) + 2 > u16::MAX {
        u16::MAX
    } else {
        (display_columns(title) + 2) as u16
    }
}

/// Where the titles from `index` on stand, starting in column `x`.
pub open spec fn tab_places(area: Rect, titles: Seq<&str>, index: int, x: u16) -> Seq<(Rect, usize)>
    decreases titles.len() - index,
{
    if index >= titles.len() || index < 0 {
        Seq::empty()
    } else {
        let right = if area.right_edge() > 0 {
            area.right_edge() - 1
        } else {
            0
        };
        let wanted = tab_width_of(titles[index]@);
        let room = if right > x {
            right - x
        } else {
            0
        };
        let width = at_most(wanted as int, room) as u16;
        if width == 0 {
            Seq::empty()
        } else {
            let place = (
                Rect { x, y: capped(area.y, 1), width, height: 1 },
                index as usize,
            );
            let next = if index + 1 < titles.len() {
                capped(capped(x, wanted), 1)
            } else {
                capped(x, wanted)
            };
            seq![place] + tab_places(area, titles, index + 1, next)
        }
    }
}

/// Where the titles of tabs in `area` stand.
pub open spec fn tab_hits(area: Rect, titles: Seq<&str>) -> Seq<(Rect, usize)> {
    if area.width <= 2 || area.height <= 2 {
        Seq::empty()
    } else {
        tab_places(area, titles, 0, capped(area.x, 1))
    }
}

/// Where the titles of tabs in `area` stand.
pub fn tab_hitboxes(area: Rect, titles: &[&str]) -> (r: Vec<(Rect, usize)>)
    ensures
        r@ == tab_hits(area, titles@),
{
    let mut hitboxes: Vec<(Rect, usize)> = Vec::new();
    if area.width <= 2 || area.height <= 2 {
        return hitboxes;
    }
    let mut x: u16 = area.x.saturating_add(1);
    let right: u16 = area.right().saturating_sub(1);
    let mut i: usize = 0;
    assert(hitboxes@ + tab_places(area, titles@, 0, x) =~= tab_places(area, titles@, 0, x));
    while i < titles.len()
        invariant
            i <= titles@.len(),
            titles@.len() == titles.len(),
            area.width > 2,
            area.height > 2,
            right == if area.right_edge() > 0 {
                area.right_edge() - 1
            } else {
                0
            },
            hitboxes@ + tab_places(area, titles@, i as int, x) == tab_places(
                area,
                titles@,
                0,
                capped(area.x, 1),
            ),
        decreases titles@.len() - i,
    {
        let columns: usize = display_width(titles[i]).saturating_add(2);
        let wanted: u16 = if columns > 65535 {
            65535
        } else {
            columns as u16
        };
        assert(wanted == tab_width_of(titles@[i as int]@));
        let room: u16 = right.saturating_sub(x);
        let width: u16 = if wanted < room {
            wanted
        } else {
            room
        };
        if width == 0 {
            assert(hitboxes@ + Seq::<(Rect, usize)>::empty() =~= hitboxes@);
            return hitboxes;
        }
        let ghost listed = hitboxes@;
        let ghost here = x;
        let place = Rect { x, y: area.y.saturating_add(1), width, height: 1 };
        hitboxes.push((place, i));
        x = x.saturating_add(wanted);
        if i + 1 < titles.len() {
            x = x.saturating_add(1);
        }
        proof {
            let rest = tab_places(area, titles@, i + 1, x);
            assert(tab_places(area, titles@, i as int, here) == seq![(place, i)] + rest);
            assert(listed + (seq![(place, i)] + rest) =~= hitboxes@ + rest);
        }
        i += 1;
    }
    assert(hitboxes@ + Seq::<(Rect, usize)>::empty() =~= hitboxes@);
    hitboxes
}

} // verus!
