//! What holds of the screen: what a cell stands for, how lists and logs are scrolled,
//! and how the room is shared out.

use crate::search::lines;
use crate::tui::content::LineView;
use crate::tui::doctor::DoctorView;
use crate::tui::geometry::{
    Rect, before, capped, scrolled, tab_hits, tab_places, tab_width_of, target_at,
};
use crate::tui::labels::InitialLoadProgress;
use crate::tui::layout::{
    Direction, Share, direction, extent, has_room, is_shared_out, least_of_all, parts, shares,
    taken_by,
};
use crate::tui::model::{ToolDiagnosis, conflicts_of, shown_conflicts, shown_diagnoses, shown_from};
use crate::tui::nesting::{Before, lemma_passed, nesting, nesting_from, opened, passed};
use crate::tui::wrapping::{last_scroll, line_at, row_of, rows_before, rows_of};
use vstd::arithmetic::div_mod::*;
use vstd::prelude::*;
use vstd::string::*;

verus! {

/// A cell stands for what the first rectangle that holds it stands for.
pub proof fn law_cells_stand_for_the_first_place(
    places: Seq<(Rect, usize)>,
    column: u16,
    row: u16,
    i: int,
)
    requires
        forall|k: int| 0 <= k < places.len() ==> (#[trigger] places[k]).0.wf(),
    ensures
        0 <= i < places.len() && is_cell_of(places[i].0, column, row) && (forall|k: int|
            0 <= k < i ==> !is_cell_of((#[trigger] places[k]).0, column, row)) ==> target_at(
            places,
            column,
            row,
        ) == Some(places[i].1),
        (forall|k: int|
            0 <= k < places.len() ==> !is_cell_of((#[trigger] places[k]).0, column, row))
            ==> target_at(places, column, row) is None,
    decreases places.len(),
{
    if places.len() > 0 {
        let rest = places.drop_first();
        assert(places[0].0.wf());
        assert forall|k: int| 0 <= k < rest.len() implies (#[trigger] rest[k]).0.wf() by {
            assert(rest[k] == places[k + 1]);
        }
        law_cells_stand_for_the_first_place(rest, column, row, i - 1);
        if 0 < i < places.len() {
            assert(rest[i - 1] == places[i]);
        }
        assert forall|k: int| 0 <= k < rest.len() implies #[trigger] rest[k] == places[k + 1] by {
        }
    }
}

/// Whether the cell in `column` and `row` is one of the cells of a rectangle.
pub open spec fn is_cell_of(area: Rect, column: u16, row: u16) -> bool {
    area.x <= column < area.x + area.width && area.y <= row < area.y + area.height
}

/// Going through a list moves by as many entries as asked for and stops at its ends.
pub proof fn law_lists_are_scrolled_to_their_ends(current: usize, length: int, delta: int)
    requires
        0 < length <= usize::MAX,
        current < length,
    ensures
        ({
            let r = scrolled(current as int, length, delta);
            &&& 0 <= r < length
            &&& 0 <= current + delta < length ==> r == current + delta
            &&& current + delta < 0 ==> r == 0
            &&& current + delta >= length ==> r == length - 1
        }),
{
}

/// How far loading has come is the whole number of percents that are done.
pub proof fn law_progress_is_in_percents(progress: InitialLoadProgress)
    requires
        progress.total > 0,
        progress.completed <= progress.total,
        progress.completed * 100 <= usize::MAX,
    ensures
        0 <= progress.percent() <= 100,
        progress.percent() * progress.total <= progress.completed * 100 < (progress.percent() + 1)
            * progress.total,
        progress.completed == progress.total ==> progress.percent() == 100,
        progress.completed == 0 ==> progress.percent() == 0,
{
    let total = progress.total as int;
    let done = progress.completed * 100;
    let q = done / total;
    lemma_fundamental_div_mod(done, total);
    lemma_mod_bound(done, total);
    assert(q * total == total * q) by (nonlinear_arith);
    assert((q + 1) * total == q * total + total) by (nonlinear_arith);
    assert(0 <= q <= 100) by (nonlinear_arith)
        requires
            total > 0,
            0 <= done <= 100 * total,
            q * total <= done < (q + 1) * total,
    ;
    assert(progress.completed == progress.total ==> q == 100) by (nonlinear_arith)
        requires
            total > 0,
            progress.completed == progress.total ==> done == 100 * total,
            q * total <= done < (q + 1) * total,
    ;
    assert(done == 0 ==> q == 0) by (nonlinear_arith)
        requires
            total > 0,
            q * total <= done < (q + 1) * total,
    ;
}

/// A row shows the line whose rows hold it: the first row of that line is not behind
/// it, and that of the next line is.
pub proof fn law_rows_show_their_line(lines: Seq<LineView>, width: u16, row: int, k: int)
    requires
        0 <= k < lines.len(),
        row_of(lines, width, k) <= row,
    ensures
        ({
            let n = line_at(lines, width, row, k);
            &&& k <= n < lines.len()
            &&& row_of(lines, width, n) <= row
            &&& n + 1 < lines.len() ==> row < row_of(lines, width, n + 1)
        }),
    decreases lines.len() - k,
{
    if k + 1 < lines.len() && row >= row_of(lines, width, k + 1) {
        law_rows_show_their_line(lines, width, row, k + 1);
    }
}

/// Each line takes a row at least, the first one starts in the first row, and each
/// one where the one before it ends.
pub proof fn law_lines_follow_each_other(lines: Seq<LineView>, width: u16, n: int)
    requires
        0 <= n < lines.len(),
    ensures
        rows_before(lines, width, 0) == 0,
        rows_of(lines[n], width) >= 1,
        rows_before(lines, width, n + 1) == rows_before(lines, width, n) + rows_of(
            lines[n],
            width,
        ),
{
}

/// Rows are scrolled so far that the last one is in the last row of the frame, and
/// not at all where all of them are seen.
pub proof fn law_scrolling_ends_with_the_last_row(total: int, area: Rect)
    requires
        0 <= total,
        area.height >= 2,
    ensures
        ({
            let rows = area.height - 2;
            let far = last_scroll(total, area);
            &&& total <= rows ==> far == 0
            &&& total > rows ==> far + rows == total
        }),
{
}

/// Where there is room, the parts of an area follow each other without a gap from its
/// begin on, and a part that asks for a number of cells has just that many.
pub proof fn law_parts_follow_each_other(
    area: Rect,
    direction: Direction,
    shares: Seq<Share>,
    parts: Seq<Rect>,
    k: int,
)
    requires
        is_shared_out(area, direction, shares, parts),
        has_room(shares, extent(area, direction).1 - extent(area, direction).0),
        0 <= k < parts.len(),
    ensures
        parts.len() == shares.len(),
        k == 0 ==> extent(parts[k], direction).0 == extent(area, direction).0,
        k + 1 < parts.len() ==> extent(parts[k], direction).1 == extent(parts[k + 1], direction).0,
        shares[k] matches Share::Exactly(cells) ==> extent(parts[k], direction).1 - extent(
            parts[k],
            direction,
        ).0 == cells,
        shares[k] matches Share::AtLeast(cells) ==> extent(parts[k], direction).1 - extent(
            parts[k],
            direction,
        ).0 >= cells,
{
    let (start, end) = extent(area, direction);
    let spare = end - start - least_of_all(shares);
    assert(extent(parts[k], direction) == (
        start + taken_by(shares, spare, k),
        start + taken_by(shares, spare, k + 1),
    ));
    if k + 1 < parts.len() {
        assert(extent(parts[k + 1], direction).0 == start + taken_by(shares, spare, k + 1));
    }
    assert(shares[k] == shares[(k + 1) - 1]);
}

proof fn lemma_tab_places(area: Rect, titles: Seq<&str>, index: int, x: u16, k: int)
    requires
        area.wf(),
        0 <= index,
        titles.len() <= usize::MAX,
        0 <= k < tab_places(area, titles, index, x).len(),
    ensures
        ({
            let places = tab_places(area, titles, index, x);
            let (place, n) = places[k];
            &&& n == index + k < titles.len()
            &&& place.y == area.y + 1 || area.y == u16::MAX
            &&& place.height == 1
            &&& x <= place.x
            &&& place.width > 0
            &&& place.x + place.width < area.x + area.width
            &&& k > 0 ==> places[k - 1].0.x + places[k - 1].0.width < place.x
        }),
    decreases titles.len() - index,
{
    let places = tab_places(area, titles, index, x);
    assert(index < titles.len());
    let wanted = tab_width_of(titles[index]@);
    let right = area.right_edge() - 1;
    assert(places[0].0.x == x);
    if k > 0 {
        let next = if index + 1 < titles.len() {
            capped(capped(x, wanted), 1)
        } else {
            capped(x, wanted)
        };
        let rest = tab_places(area, titles, index + 1, next);
        assert(places[k] == rest[k - 1]);
        lemma_tab_places(area, titles, index + 1, next, k - 1);
        assert(index + 1 < titles.len());
        if k > 1 {
            assert(places[k - 1] == rest[k - 2]);
        } else {
            assert(rest[0].0.x == next);
            assert(rest[0].0.x + rest[0].0.width < area.x + area.width);
        }
    }
}

/// The titles of tabs stand beside each other in one row inside of the frame, in
/// order and with room between them, so that each stands for its own tab.
pub proof fn law_titles_stand_beside_each_other(area: Rect, titles: Seq<&str>, k: int)
    requires
        area.wf(),
        titles.len() <= usize::MAX,
        0 <= k < tab_hits(area, titles).len(),
    ensures
        ({
            let places = tab_hits(area, titles);
            let (place, n) = places[k];
            &&& n == k
            &&& place.y == area.y + 1
            &&& place.height == 1
            &&& area.x < place.x
            &&& place.x + place.width < area.x + area.width
            &&& k > 0 ==> places[k - 1].0.x + places[k - 1].0.width < place.x
        }),
{
    lemma_tab_places(area, titles, 0, capped(area.x, 1), k);
}

proof fn lemma_shown_from(diagnoses: Seq<ToolDiagnosis>, places: Seq<int>, name: Seq<char>, k: int)
    requires
        0 <= k <= places.len(),
    ensures
        shown_from(diagnoses, places, name, k) matches Some(j) ==> k <= j < places.len()
            && diagnoses[places[j]].name@ == name,
        shown_from(diagnoses, places, name, k) is None ==> forall|j: int|
            k <= j < places.len() ==> diagnoses[#[trigger] places[j]].name@ != name,
    decreases places.len() - k,
{
    if k < places.len() {
        lemma_shown_from(diagnoses, places, name, k + 1);
    }
}

/// A scan keeps the focus on the diagnosis that had it where it is still shown, and
/// the focus always on a row; what is unfolded stays so exactly where it is shown.
pub proof fn law_scans_keep_the_focus(doctor: DoctorView, hide: bool, name: Seq<char>, k: int)
    requires
        shown_diagnoses(doctor.diagnoses, hide).len() <= usize::MAX,
    ensures
        ({
            let after = doctor.reconciled(hide, Some(name));
            let shown = shown_diagnoses(doctor.diagnoses, hide);
            &&& after.diagnoses == doctor.diagnoses
            &&& shown.len() > 0 ==> after.index < shown.len()
            &&& 0 <= k < shown.len() && doctor.diagnoses[shown[k]].name@ == name
                ==> after.focused_name(hide) == Some(name)
            &&& doctor.expanded matches Some(open) ==> 0 <= k < shown.len()
                && doctor.diagnoses[shown[k]].name@ == open@ ==> after.expanded == doctor.expanded
                && after.detail_scroll == doctor.detail_scroll
            &&& doctor.expanded matches Some(open) ==> (forall|j: int|
                0 <= j < shown.len() ==> doctor.diagnoses[#[trigger] shown[j]].name@ != open@)
                ==> after.expanded is None
        }),
{
    let shown = shown_diagnoses(doctor.diagnoses, hide);
    lemma_shown_from(doctor.diagnoses, shown, name, 0);
    if let Some(open) = doctor.expanded {
        lemma_shown_from(doctor.diagnoses, shown, open@, 0);
    }
}

proof fn lemma_conflicts_of(diagnoses: Seq<ToolDiagnosis>, places: Seq<int>, n: int)
    requires
        0 <= n <= places.len(),
    ensures
        conflicts_of(diagnoses, places, n) == places.take(n).filter(
            |i: int| diagnoses[i].has_conflict,
        ).len(),
    decreases n,
{
    reveal(Seq::filter);
    if n > 0 {
        lemma_conflicts_of(diagnoses, places, n - 1);
        assert(places.take(n).drop_last() =~= places.take(n - 1));
        assert(places.take(n).last() == places[n - 1]);
    }
}

/// The conflicts that are counted are the shown diagnoses that have one.
pub proof fn law_shown_conflicts_are_counted(diagnoses: Seq<ToolDiagnosis>, hide: bool)
    ensures
        shown_conflicts(diagnoses, hide) == shown_diagnoses(diagnoses, hide).filter(
            |i: int| diagnoses[i].has_conflict,
        ).len(),
{
    let shown = shown_diagnoses(diagnoses, hide);
    lemma_conflicts_of(diagnoses, shown, shown.len() as int);
    assert(shown.take(shown.len() as int) =~= shown);
}

/// Number of opening brackets among the characters from `i` on.
pub open spec fn brackets_from(s: Seq<char>, i: int) -> nat {
    s.skip(i).filter(|c: char| c == '[' || c == '{').len()
}

proof fn lemma_brackets_from(s: Seq<char>, i: int, j: int)
    requires
        0 <= i <= j <= s.len(),
    ensures
        brackets_from(s, j) <= brackets_from(s, i),
        i < j && (s[i] == '[' || s[i] == '{') ==> brackets_from(s, j) < brackets_from(s, i),
    decreases j - i,
{
    if i < j {
        let p = |c: char| c == '[' || c == '{';
        lemma_brackets_from(s, i + 1, j);
        assert(s.skip(i) =~= seq![s[i]] + s.skip(i + 1));
        Seq::filter_distributes_over_add(seq![s[i]], s.skip(i + 1), p);
        reveal_with_fuel(Seq::filter, 2);
        let one = seq![s[i]];
        assert(one.drop_last() =~= Seq::<char>::empty());
        assert(one.last() == s[i]);
        assert(one.drop_last().filter(p).len() == 0);
        assert(one.filter(p).len() == if p(s[i]) {
            1nat
        } else {
            0nat
        });
    }
}

proof fn lemma_nesting_from(s: Seq<char>, i: int, open: Seq<char>, before: Before)
    requires
        0 <= i <= s.len(),
    ensures
        open.len() <= nesting_from(s, i, open, before) <= open.len() + brackets_from(s, i),
    decreases s.len() - i,
{
    if i < s.len() {
        lemma_passed(s, i, before);
        let (end, after) = passed(s, i, before);
        lemma_brackets_from(s, i, end);
        lemma_nesting_from(s, end, opened(s, i, open, before), after);
    }
}

/// Brackets nest no deeper than there are opening ones, and not at all where there
/// is none.
pub proof fn law_nesting_takes_brackets(s: Seq<char>)
    ensures
        nesting(s) <= s.filter(|c: char| c == '[' || c == '{').len(),
{
    assert(s.skip(0) =~= s);
    lemma_nesting_from(s, 0, Seq::empty(), Before::Nothing);
}

/// Opening brackets one behind the other nest as deep as there are of them, whatever
/// follows.
pub proof fn law_open_brackets_nest(s: Seq<char>, n: int, i: int, open: Seq<char>, before: Before)
    requires
        0 <= i <= n <= s.len(),
        forall|k: int| i <= k < n ==> #[trigger] s[k] == '[' || s[k] == '{',
    ensures
        nesting_from(s, i, open, before) >= open.len() + (n - i),
        i == 0 ==> nesting(s) >= n,
    decreases n - i,
{
    if i < n {
        assert(s[i] == '[' || s[i] == '{');
        law_open_brackets_nest(s, n, i + 1, open.push(s[i]), Before::Nothing);
        if i == 0 {
            let first = Seq::<char>::empty().push(s[0]);
            law_open_brackets_nest(s, n, 1, first, Before::Nothing);
        }
    } else {
        lemma_nesting_from(s, i, open, before);
    }
}

} // verus!
