//! How the screen is shared out: the rows of the views and the columns of the
//! lists.

use crate::tui::geometry::Rect;
use vstd::prelude::*;

verus! {

/// What one part gets of the rows or columns that several parts share.
#[derive(Clone, Copy, Debug, PartialEq, Eq, Structural)]
pub enum Share {
    /// So many.
    Exactly(u16),
    /// So many, and what the others leave.
    AtLeast(u16),
    /// So many of a hundred.
    Percent(u16),
}

/// Something that is shared out.
#[derive(Clone, Copy, Debug, PartialEq, Eq, Structural)]
pub enum Layout {
    /// The tabs and the quota, the view, and the message with the help.
    Screen,
    /// The tabs, and the quota under them.
    Header,
    /// The lines of the screen while the tools are loaded.
    Loading,
    /// The names of the views of the tools, and the list.
    Tools,
    /// The columns of the list of the tools.
    ToolColumns,
    /// The columns of the list of the repositories.
    RepositoryColumns,
    /// The list of the jobs, and the log of the unfolded one.
    Jobs,
    /// The columns of the list of the jobs.
    JobColumns,
    /// The list of the diagnoses, and what was found of the unfolded one.
    Diagnoses,
    /// The columns of the list of the diagnoses.
    DiagnosisColumns,
    /// The list of the settings, and the notes on them.
    Settings,
    /// The columns of the list of the settings.
    SettingColumns,
    /// The path, the text and the help of the TOML editor.
    Editor,
    /// The numbers of the lines of the TOML editor, and its text.
    EditorText { gutter: u16 },
}

/// The shares of the parts, in order.
pub open spec fn shares_of(layout: Layout) -> Seq<Share> {
    match layout {
        Layout::Screen => seq![Share::Exactly(4), Share::AtLeast(5), Share::Exactly(4)],
        Layout::Header => seq![Share::Exactly(3), Share::Exactly(1)],
        Layout::Loading => seq![
            Share::Exactly(1),
            Share::Exactly(1),
            Share::Exactly(1),
            Share::Exactly(1),
            Share::AtLeast(0),
        ],
        Layout::Tools => seq![Share::Exactly(3), Share::AtLeast(3)],
        Layout::ToolColumns => seq![
            Share::Exactly(3),
            Share::Exactly(14),
            Share::Exactly(10),
            Share::Exactly(16),
            Share::Exactly(16),
            Share::Exactly(14),
            Share::Exactly(8),
            Share::AtLeast(16),
        ],
        Layout::RepositoryColumns => seq![
            Share::Exactly(3),
            Share::Exactly(16),
            Share::Exactly(22),
            Share::Exactly(12),
            Share::Exactly(12),
            Share::Exactly(14),
            Share::Exactly(10),
            Share::AtLeast(20),
        ],
        Layout::Jobs => seq![Share::Percent(45), Share::Percent(55)],
        Layout::JobColumns => seq![Share::Exactly(16), Share::Exactly(16), Share::Exactly(19), Share::AtLeast(24)],
        Layout::Diagnoses => seq![Share::Percent(44), Share::Percent(56)],
        Layout::DiagnosisColumns => seq![
            Share::Exactly(12),
            Share::Exactly(11),
            Share::AtLeast(22),
            Share::Exactly(12),
            Share::Exactly(7),
            Share::Exactly(10),
        ],
        Layout::Settings => seq![Share::Exactly(12), Share::AtLeast(3)],
        Layout::SettingColumns => seq![Share::AtLeast(28), Share::Percent(42)],
        Layout::Editor => seq![Share::Exactly(1), Share::AtLeast(3), Share::Exactly(3)],
        Layout::EditorText { gutter } => seq![Share::Exactly(gutter), Share::AtLeast(1)],
    }
}

/// The shares of the parts, in order.
pub fn shares(layout: Layout) -> (r: Vec<Share>)
    ensures
        r@ == shares_of(layout),
{
    match layout {
        Layout::Screen => vec![Share::Exactly(4), Share::AtLeast(5), Share::Exactly(4)],
        Layout::Header => vec![Share::Exactly(3), Share::Exactly(1)],
        Layout::Loading => vec![
            Share::Exactly(1),
            Share::Exactly(1),
            Share::Exactly(1),
            Share::Exactly(1),
            Share::AtLeast(0),
        ],
        Layout::Tools => vec![Share::Exactly(3), Share::AtLeast(3)],
        Layout::ToolColumns => vec![
            Share::Exactly(3),
            Share::Exactly(14),
            Share::Exactly(10),
            Share::Exactly(16),
            Share::Exactly(16),
            Share::Exactly(14),
            Share::Exactly(8),
            Share::AtLeast(16),
        ],
        Layout::RepositoryColumns => vec![
            Share::Exactly(3),
            Share::Exactly(16),
            Share::Exactly(22),
            Share::Exactly(12),
            Share::Exactly(12),
            Share::Exactly(14),
            Share::Exactly(10),
            Share::AtLeast(20),
        ],
        Layout::Jobs => vec![Share::Percent(45), Share::Percent(55)],
        Layout::JobColumns => vec![Share::Exactly(16), Share::Exactly(16), Share::Exactly(19), Share::AtLeast(24)],
        Layout::Diagnoses => vec![Share::Percent(44), Share::Percent(56)],
        Layout::DiagnosisColumns => vec![
            Share::Exactly(12),
            Share::Exactly(11),
            Share::AtLeast(22),
            Share::Exactly(12),
            Share::Exactly(7),
            Share::Exactly(10),
        ],
        Layout::Settings => vec![Share::Exactly(12), Share::AtLeast(3)],
        Layout::SettingColumns => vec![Share::AtLeast(28), Share::Percent(42)],
        Layout::Editor => vec![Share::Exactly(1), Share::AtLeast(3), Share::Exactly(3)],
        Layout::EditorText { gutter } => vec![Share::Exactly(gutter), Share::AtLeast(1)],
    }
}

/// The way in which parts follow each other.
#[derive(Clone, Copy, Debug, PartialEq, Eq, Structural)]
pub enum Direction {
    /// From the top to the bottom.
    Down,
    /// From the left to the right.
    Across,
}

/// The way in which the parts follow each other.
pub open spec fn direction_of(layout: Layout) -> Direction {
    match layout {
        Layout::Screen
        | Layout::Header
        | Layout::Loading
        | Layout::Tools
        | Layout::Jobs
        | Layout::Diagnoses
        | Layout::Settings
        | Layout::Editor => Direction::Down,
        _ => Direction::Across,
    }
}

/// The cells of `area` along a direction: the first one, and the one behind the
/// last that can be counted.
pub open spec fn extent(area: Rect, direction: Direction) -> (int, int) {
    match direction {
        Direction::Down => (area.y as int, area.bottom_edge() as int),
        Direction::Across => (area.x as int, area.right_edge() as int),
    }
}

/// Whether `part` has the breadth of `area`, and lies on it.
pub open spec fn lies_across(part: Rect, area: Rect, direction: Direction) -> bool {
    &&& match direction {
        Direction::Down => part.x == area.x && part.width == area.width,
        Direction::Across => part.y == area.y && part.height == area.height,
    }
    &&& extent(area, direction).0 <= extent(part, direction).0
    &&& extent(part, direction).1 <= extent(area, direction).1
}

/// What a part asks for at least, in cells.
pub open spec fn least(share: Share) -> int {
    match share {
        Share::Exactly(cells) => cells as int,
        Share::AtLeast(cells) => cells as int,
        Share::Percent(_) => 0,
    }
}

/// What the parts ask for at least, in cells.
pub open spec fn least_of_all(shares: Seq<Share>) -> int
    decreases shares.len(),
{
    if shares.len() == 0 {
        0
    } else {
        least_of_all(shares.drop_last()) + least(shares.last())
    }
}

/// Whether `size` cells are enough for parts that ask for cells, of which one
/// takes what is left, if any does.
pub open spec fn has_room(shares: Seq<Share>, size: int) -> bool {
    &&& least_of_all(shares) <= size
    &&& forall|k: int|
        0 <= k < shares.len() ==> match #[trigger] shares[k] {
            Share::Exactly(_) => true,
            Share::AtLeast(cells) => cells <= i16::MAX,
            Share::Percent(_) => false,
        }
    &&& forall|i: int, j: int|
        0 <= i < j < shares.len() ==> !(#[trigger] shares[i] is AtLeast && #[trigger] shares[
            j] is AtLeast)
}

/// How many cells the first `count` parts take where `spare` ones are left.
pub open spec fn taken_by(shares: Seq<Share>, spare: int, count: int) -> int
    decreases count,
{
    if count <= 0 {
        0
    } else {
        let share = shares[count - 1];
        taken_by(shares, spare, count - 1) + least(share) + if share is AtLeast {
            spare
        } else {
            0
        }
    }
}

/// Whether `parts` are what the shares make of `area`: as many, each as broad as
/// the area and on it, and where there is room for all of them, one behind the
/// other, each with its own cells.
pub open spec fn is_shared_out(
    area: Rect,
    direction: Direction,
    shares: Seq<Share>,
    parts: Seq<Rect>,
) -> bool {
    let (start, end) = extent(area, direction);
    let spare = end - start - least_of_all(shares);
    &&& parts.len() == shares.len()
    &&& forall|k: int| 0 <= k < parts.len() ==> lies_across(#[trigger] parts[k], area, direction)
    &&& has_room(shares, end - start) ==> forall|k: int|
        0 <= k < parts.len() ==> extent(#[trigger] parts[k], direction) == (
            start + taken_by(shares, spare, k),
            start + taken_by(shares, spare, k + 1),
        )
}

proof fn lemma_taken_by(shares: Seq<Share>, spare: int, count: int)
    requires
        0 <= count <= shares.len(),
        forall|k: int| 0 <= k < shares.len() ==> !(#[trigger] shares[k] is Percent),
        forall|i: int, j: int|
            0 <= i < j < shares.len() ==> !(#[trigger] shares[i] is AtLeast && #[trigger] shares[
                j] is AtLeast),
    ensures
        (exists|k: int| 0 <= k < count && #[trigger] shares[k] is AtLeast) ==> taken_by(
            shares,
            spare,
            count,
        ) == least_of_all(shares.take(count)) + spare,
        !(exists|k: int| 0 <= k < count && #[trigger] shares[k] is AtLeast) ==> taken_by(
            shares,
            spare,
            count,
        ) == least_of_all(shares.take(count)),
    decreases count,
{
    if count > 0 {
        lemma_taken_by(shares, spare, count - 1);
        assert(shares.take(count).drop_last() =~= shares.take(count - 1));
        assert(shares.take(count).last() == shares[count - 1]);
    }
}

/// Where there is room for every part and one takes what is left, the parts take
/// all the cells.
pub proof fn law_parts_take_all_the_room(shares: Seq<Share>, size: int, greedy: int)
    requires
        has_room(shares, size),
        0 <= greedy < shares.len(),
        shares[greedy] is AtLeast,
    ensures
        taken_by(shares, size - least_of_all(shares), shares.len() as int) == size,
{
    lemma_taken_by(shares, size - least_of_all(shares), shares.len() as int);
    assert(shares.take(shares.len() as int) =~= shares);
}

/// The way in which the parts follow each other.
pub fn direction(layout: Layout) -> (r: Direction)
    ensures
        r == direction_of(layout),
{
    match layout {
        Layout::Screen
        | Layout::Header
        | Layout::Loading
        | Layout::Tools
        | Layout::Jobs
        | Layout::Diagnoses
        | Layout::Settings
        | Layout::Editor => Direction::Down,
        _ => Direction::Across,
    }
}

/// `ratatui::layout::Layout::split` with `Constraint::Length`, `Min` and
/// `Percentage`: as many parts as shares, as broad as the area and inside it.
/// Where there is room for lengths and one minimum, every length is met and the
/// minimum takes the rest, without gaps. Where there is not, and of percentages,
/// nothing more is said: a solver settles it, whose choice among equals is open.
#[verifier::external_body]
pub(crate) fn split(area: Rect, direction: Direction, shares: &Vec<Share>) -> (r: Vec<Rect>)
    ensures
        is_shared_out(area, direction, shares@, r@),
{
    let constraints = shares.iter().map(|share| match *share {
        Share::Exactly(cells) => ratatui::layout::Constraint::Length(cells),
        Share::AtLeast(cells) => ratatui::layout::Constraint::Min(cells),
        Share::Percent(cells) => ratatui::layout::Constraint::Percentage(cells),
    });
    let direction = match direction {
        Direction::Down => ratatui::layout::Direction::Vertical,
        Direction::Across => ratatui::layout::Direction::Horizontal,
    };
    let area = ratatui::layout::Rect { x: area.x, y: area.y, width: area.width, height: area.height };
    let parts = ratatui::layout::Layout::new(direction, constraints).split(area);
    parts.iter().map(|part| Rect::new(part.x, part.y, part.width, part.height)).collect()
}

/// The parts of `area`, in order. (A list parts its columns itself: it leaves a
/// cell between them.)
pub fn parts(area: Rect, layout: Layout) -> (r: Vec<Rect>)
    ensures
        is_shared_out(area, direction_of(layout), shares_of(layout), r@),
{
    split(area, direction(layout), &shares(layout))
}

} // verus!
