//! The log, as it is drawn.

use crate::language::Language;
use crate::search::{begins_with, lines, split, split_on, starts_with, texts};
use crate::text::{chars_of, join3};
use crate::tui::activity::{
    ActivityLog, LogView, activity_style, heads_execution, holds_number,
    is_activity_execution_header, line_look,
};
use crate::tui::app::{App, AppView};
use crate::tui::content::{
    LineView, Piece, PieceView, StyledLine, blank_line, colored, raw, styled, tinted, unstyled,
};
use crate::tui::geometry::{Rect, at_most, before, capped};
use crate::tui::modal::Hitboxes;
use crate::tui::style::{Color, Style};
use crate::tui::tables::less;
use crate::tui::wrapping::{
    content_height, content_width, inner_height, inner_width, last_scroll, limit_scroll,
    line_height, row_of,
};
use vstd::prelude::*;
use vstd::string::*;

verus! {

/// A line of the log, and the entry that it unfolds, if it does.
#[derive(Debug)]
pub struct LogLine {
    pub line: StyledLine,
    pub target: Option<usize>,
}

impl View for LogLine {
    type V = (LineView, Option<usize>);

    open spec fn view(&self) -> (LineView, Option<usize>) {
        (self.line@, self.target)
    }
}

/// What lines of the log show, and what they unfold.
pub open spec fn log_views(lines: Seq<LogLine>) -> Seq<(LineView, Option<usize>)> {
    lines.map_values(|l: LogLine| l@)
}

/// What lines of the log show.
pub open spec fn shown_lines(lines: Seq<(LineView, Option<usize>)>) -> Seq<LineView> {
    lines.map_values(|l: (LineView, Option<usize>)| l.0)
}

/// `text` without the line breaks that it begins with.
pub open spec fn without_breaks(text: Seq<char>) -> Seq<char>
    decreases text.len(),
{
    if text.len() > 0 && (text[0] == '\n' || text[0] == '\r') {
        without_breaks(text.drop_first())
    } else {
        text
    }
}

/// The time of an entry, before its text.
pub open spec fn stamp(log: LogView, i: int) -> PieceView {
    if i < log.stamps.len() {
        tinted("["@ + log.stamps[i] + "] "@, Color::Subtle)
    } else {
        unstyled(Seq::empty())
    }
}

/// The line that begins an execution.
pub open spec fn execution_line(log: LogView, hovered: Option<usize>, i: int) -> (
    LineView,
    Option<usize>,
) {
    let header = without_breaks(log.lines[i]);
    (
        LineView::of(
            seq![
                stamp(log, i),
                tinted(
                    if log.expanded.contains(i) {
                        "▾ "@
                    } else {
                        "▸ "@
                    },
                    Color::Accent,
                ),
                styled(header, line_look(header)),
            ],
        ).over(
            if hovered == Some(i as usize) {
                Style::of(None, Some(Color::SelectionBg))
            } else {
                Style::of(None, None)
            },
        ),
        Some(i as usize),
    )
}

/// One line of what an execution has printed.
pub open spec fn output_line(log: LogView, i: int, text: Seq<char>) -> (LineView, Option<usize>) {
    (
        LineView::of(seq![stamp(log, i), unstyled("  "@), styled(text, line_look(text))]),
        None,
    )
}

/// One line of another entry; `first` for the first one.
pub open spec fn entry_line(log: LogView, i: int, text: Seq<char>, first: bool) -> (
    LineView,
    Option<usize>,
) {
    (
        if first && text.len() == 0 {
            LineView::blank()
        } else {
            LineView::of(seq![stamp(log, i), styled(text, line_look(text))])
        },
        None,
    )
}

/// Whether entry `i` begins with a line break.
pub open spec fn breaks(log: LogView, i: int) -> bool {
    begins_with(log.lines[i], "\n"@)
}

/// The first entry from `i` on that begins with a line break, or the end.
pub open spec fn next_entry(log: LogView, i: int) -> int
    decreases log.lines.len() - i,
{
    if i >= log.lines.len() || breaks(log, i) {
        i
    } else {
        next_entry(log, i + 1)
    }
}

/// The lines of entry `i`, which an execution has printed.
pub open spec fn output_of(log: LogView, i: int) -> Seq<(LineView, Option<usize>)> {
    let pieces = split_on(log.lines[i], '\n');
    Seq::new(pieces.len(), |k: int| output_line(log, i, pieces[k]))
}

/// The lines of the entries from `i` to `end`, which an execution has printed.
pub open spec fn output_between(log: LogView, i: int, end: int) -> Seq<(LineView, Option<usize>)>
    decreases end - i,
{
    if i >= end {
        Seq::empty()
    } else {
        output_of(log, i) + output_between(log, i + 1, end)
    }
}

/// The lines of entry `i`.
pub open spec fn entry_lines(log: LogView, i: int) -> Seq<(LineView, Option<usize>)> {
    let pieces = split_on(log.lines[i], '\n');
    Seq::new(pieces.len(), |k: int| entry_line(log, i, pieces[k], k == 0))
}

/// What stands before the output of an execution.
pub open spec fn execution_head(log: LogView, hovered: Option<usize>, i: int) -> Seq<
    (LineView, Option<usize>),
> {
    if breaks(log, i) {
        seq![(LineView::blank(), None::<usize>), execution_line(log, hovered, i)]
    } else {
        seq![execution_line(log, hovered, i)]
    }
}

/// The lines of the log from entry `i` on: what an execution has printed is
/// shown where it is unfolded.
pub open spec fn log_lines_from(log: LogView, hovered: Option<usize>, i: int) -> Seq<
    (LineView, Option<usize>),
>
    decreases log.lines.len() - i,
{
    if i >= log.lines.len() {
        Seq::empty()
    } else if heads_execution(log.lines[i]) {
        let next = next_entry(log, i + 1);
        if next <= i || next > log.lines.len() {
            Seq::empty()
        } else {
            execution_head(log, hovered, i) + (if log.expanded.contains(i) {
                output_between(log, i + 1, next)
            } else {
                Seq::empty()
            }) + log_lines_from(log, hovered, next)
        }
    } else {
        entry_lines(log, i) + log_lines_from(log, hovered, i + 1)
    }
}

pub proof fn lemma_next_entry(log: LogView, i: int)
    requires
        0 <= i,
    ensures
        i <= next_entry(log, i),
        i <= log.lines.len() ==> next_entry(log, i) <= log.lines.len(),
    decreases log.lines.len() - i,
{
    if i < log.lines.len() && !breaks(log, i) {
        lemma_next_entry(log, i + 1);
    }
}

pub proof fn lemma_log_push(lines: Seq<LogLine>, line: LogLine)
    ensures
        log_views(lines.push(line)) == log_views(lines).push(line@),
{
    assert(log_views(lines.push(line)) =~= log_views(lines).push(line@));
}

/// `text` without the line breaks that it begins with.
pub fn trim_breaks<'a>(text: &'a str) -> (r: &'a str)
    ensures
        r@ == without_breaks(text@),
{
    let chars = chars_of(text);
    let mut i: usize = 0;
    assert(text@.skip(0) =~= text@);
    while i < chars.len() && (chars[i] == '\n' || chars[i] == '\r')
        invariant
            chars@ == text@,
            i <= chars@.len(),
            without_breaks(text@.skip(i as int)) == without_breaks(text@),
        decreases chars@.len() - i,
    {
        assert(text@.skip(i as int).drop_first() =~= text@.skip(i + 1));
        i += 1;
    }
    let rest = text.substring_char(i, chars.len());
    assert(rest@ =~= text@.skip(i as int));
    rest
}

/// The time of an entry, before its text.
fn activity_timestamp_span(log: &ActivityLog, index: usize) -> (r: Piece)
    ensures
        r@ == stamp(log@, index as int),
{
    if index < log.timestamps.len() {
        colored(join3("[", log.timestamps[index].as_str(), "] ").as_str(), Color::Subtle)
    } else {
        proof {
            reveal_strlit("");
            assert(""@ =~= Seq::<char>::empty());
        }
        raw("")
    }
}

fn push_log_line(lines: &mut Vec<LogLine>, line: StyledLine, target: Option<usize>)
    ensures
        log_views(final(lines)@) == log_views(old(lines)@).push((line@, target)),
{
    let entry = LogLine { line, target };
    proof {
        lemma_log_push(lines@, entry);
    }
    lines.push(entry);
}

/// Adds what stands before the output of an execution.
fn push_execution(lines: &mut Vec<LogLine>, log: &ActivityLog, hovered: Option<usize>, i: usize)
    requires
        i < log.lines@.len(),
    ensures
        log_views(final(lines)@) == log_views(old(lines)@) + execution_head(
            log@,
            hovered,
            i as int,
        ),
{
    let ghost before = log_views(lines@);
    let text = log.lines[i].as_str();
    assert(log@.lines[i as int] == text@);
    if starts_with(text, "\n") {
        push_log_line(lines, blank_line(), None);
    }
    let header = trim_breaks(text);
    let marker = if holds_number(&log.expanded, i) {
        "▾ "
    } else {
        "▸ "
    };
    let mut line = blank_line();
    line.add(activity_timestamp_span(log, i));
    line.tint(marker, Color::Accent);
    line.put(header, activity_style(header));
    line.style = if hovered == Some(i) {
        Style { bg: Some(Color::SelectionBg), ..Style::plain() }
    } else {
        Style::plain()
    };
    assert(line@ =~= execution_line(log@, hovered, i as int).0);
    push_log_line(lines, line, Some(i));
    assert(log_views(lines@) =~= before + execution_head(log@, hovered, i as int));
}

/// Adds the lines of an entry that an execution has printed.
fn push_output(lines: &mut Vec<LogLine>, log: &ActivityLog, i: usize)
    requires
        i < log.lines@.len(),
    ensures
        log_views(final(lines)@) == log_views(old(lines)@) + output_of(log@, i as int),
{
    let ghost before = log_views(lines@);
    let ghost all = output_of(log@, i as int);
    let pieces = split(log.lines[i].as_str(), '\n');
    let mut k: usize = 0;
    assert(before + all.take(0) =~= before);
    while k < pieces.len()
        invariant
            k <= pieces@.len(),
            i < log.lines@.len(),
            all == output_of(log@, i as int),
            texts(pieces@) == split_on(log@.lines[i as int], '\n'),
            all.len() == pieces@.len(),
            log_views(lines@) == before + all.take(k as int),
        decreases pieces@.len() - k,
    {
        let text = pieces[k].as_str();
        assert(texts(pieces@)[k as int] == text@);
        assert(all[k as int] == output_line(log@, i as int, text@));
        let mut line = blank_line();
        line.add(activity_timestamp_span(log, i));
        line.plain("  ");
        line.put(text, activity_style(text));
        assert(line@ =~= output_line(log@, i as int, text@).0);
        assert(before + all.take(k + 1) =~= (before + all.take(k as int)).push(all[k as int]));
        push_log_line(lines, line, None);
        k += 1;
    }
    assert(all.take(k as int) =~= all);
}

/// Adds the lines of another entry.
fn push_entry(lines: &mut Vec<LogLine>, log: &ActivityLog, i: usize)
    requires
        i < log.lines@.len(),
    ensures
        log_views(final(lines)@) == log_views(old(lines)@) + entry_lines(log@, i as int),
{
    let ghost before = log_views(lines@);
    let ghost all = entry_lines(log@, i as int);
    let pieces = split(log.lines[i].as_str(), '\n');
    let mut k: usize = 0;
    assert(before + all.take(0) =~= before);
    while k < pieces.len()
        invariant
            k <= pieces@.len(),
            i < log.lines@.len(),
            all == entry_lines(log@, i as int),
            texts(pieces@) == split_on(log@.lines[i as int], '\n'),
            all.len() == pieces@.len(),
            log_views(lines@) == before + all.take(k as int),
        decreases pieces@.len() - k,
    {
        let text = pieces[k].as_str();
        assert(texts(pieces@)[k as int] == text@);
        assert(all[k as int] == entry_line(log@, i as int, text@, k == 0));
        assert(before + all.take(k + 1) =~= (before + all.take(k as int)).push(all[k as int]));
        if k > 0 || !text.is_empty() {
            let mut line = blank_line();
            line.add(activity_timestamp_span(log, i));
            line.put(text, activity_style(text));
            assert(line@ =~= entry_line(log@, i as int, text@, k == 0).0);
            push_log_line(lines, line, None);
        } else {
            push_log_line(lines, blank_line(), None);
        }
        k += 1;
    }
    assert(all.take(k as int) =~= all);
}

/// Adds what an execution has printed, in the entries from `from` on, where it
/// is unfolded; tells where the next entry begins.
fn push_outputs(lines: &mut Vec<LogLine>, log: &ActivityLog, from: usize, unfolded: bool) -> (r:
    usize)
    requires
        from <= log.lines@.len(),
    ensures
        r == next_entry(log@, from as int),
        log_views(final(lines)@) == log_views(old(lines)@) + (if unfolded {
            output_between(log@, from as int, r as int)
        } else {
            Seq::empty()
        }),
{
    let ghost before = log_views(lines@);
    let ghost end = next_entry(log@, from as int);
    let mut next: usize = from;
    proof {
        lemma_next_entry(log@, from as int);
    }
    assert(before + (if unfolded {
        output_between(log@, from as int, end)
    } else {
        Seq::empty()
    }) == log_views(lines@) + (if unfolded {
        output_between(log@, next as int, end)
    } else {
        Seq::empty()
    }));
    while next < log.lines.len() && !starts_with(log.lines[next].as_str(), "\n")
        invariant
            next <= log.lines@.len(),
            end == next_entry(log@, next as int),
            next <= end,
            before + (if unfolded {
                output_between(log@, from as int, end)
            } else {
                Seq::empty()
            }) == log_views(lines@) + (if unfolded {
                output_between(log@, next as int, end)
            } else {
                Seq::empty()
            }),
        decreases log.lines@.len() - next,
    {
        let ghost so_far = log_views(lines@);
        proof {
            lemma_next_entry(log@, next + 1);
        }
        if unfolded {
            push_output(lines, log, next);
            assert(so_far + (output_of(log@, next as int) + output_between(log@, next + 1, end))
                =~= log_views(lines@) + output_between(log@, next + 1, end));
        }
        next += 1;
    }
    assert(log_views(lines@) + Seq::<(LineView, Option<usize>)>::empty() =~= log_views(lines@));
    next
}

/// The lines of the log.
pub fn activity_render_lines(app: &App) -> (r: Vec<LogLine>)
    ensures
        log_views(r@) == log_lines_from(app@.activity, app.hovered_activity, 0),
{
    let log = &app.activity;
    let hovered = app.hovered_activity;
    let mut lines: Vec<LogLine> = Vec::new();
    let mut index: usize = 0;
    let ghost all = log_lines_from(app@.activity, hovered, 0);
    assert(log_views(lines@) + all =~= all);
    while index < log.lines.len()
        invariant
            index <= log.lines@.len(),
            log@ == app@.activity,
            log_views(lines@) + log_lines_from(log@, hovered, index as int) == all,
        decreases log.lines@.len() - index,
    {
        let ghost before = log_views(lines@);
        let text = log.lines[index].as_str();
        if is_activity_execution_header(text) {
            let unfolded = holds_number(&log.expanded, index);
            push_execution(&mut lines, log, hovered, index);
            let ghost between = log_views(lines@);
            proof {
                lemma_next_entry(log@, index + 1);
            }
            let next: usize = push_outputs(&mut lines, log, index + 1, unfolded);
            proof {
                let head = execution_head(log@, hovered, index as int);
                let output = if unfolded {
                    output_between(log@, index + 1, next as int)
                } else {
                    Seq::empty()
                };
                let rest = log_lines_from(log@, hovered, next as int);
                assert(before + (head + output + rest) =~= log_views(lines@) + rest);
            }
            index = next;
        } else {
            push_entry(&mut lines, log, index);
            proof {
                let rest = log_lines_from(log@, hovered, index + 1);
                assert(before + (entry_lines(log@, index as int) + rest) =~= log_views(lines@)
                    + rest);
            }
            index += 1;
        }
    }
    assert(log_views(lines@) + Seq::<(LineView, Option<usize>)>::empty() =~= log_views(lines@));
    lines
}

/// Where line `k` of the log is on the screen, if it is and unfolds something.
pub open spec fn log_place(
    lines: Seq<(LineView, Option<usize>)>,
    area: Rect,
    scroll: int,
    k: int,
) -> Option<(Rect, usize)> {
    let width = inner_width(area);
    let start = row_of(shown_lines(lines), width, k);
    let first = if start > scroll {
        start
    } else {
        scroll
    };
    let end = at_most(
        row_of(shown_lines(lines), width, k + 1),
        at_most(scroll + inner_height(area), usize::MAX as int),
    );
    match lines[k].1 {
        Some(target) => if first < end {
            Some(
                (
                    Rect {
                        x: capped(area.x, 1),
                        y: capped(capped(area.y, 1), (first - scroll) as u16),
                        width: less(area.width, 2),
                        height: (end - first) as u16,
                    },
                    target,
                ),
            )
        } else {
            None
        },
        None => None,
    }
}

/// Where the first `n` lines of the log are on the screen.
pub open spec fn log_places(
    lines: Seq<(LineView, Option<usize>)>,
    area: Rect,
    scroll: int,
    n: int,
) -> Seq<(Rect, usize)>
    decreases n,
{
    if n <= 0 {
        Seq::empty()
    } else {
        match log_place(lines, area, scroll, n - 1) {
            Some(place) => log_places(lines, area, scroll, n - 1).push(place),
            None => log_places(lines, area, scroll, n - 1),
        }
    }
}

/// Number of rows that the lines of the log take.
fn log_height(lines: &Vec<LogLine>, width: u16) -> (r: usize)
    ensures
        r == row_of(shown_lines(log_views(lines@)), width, lines@.len() as int),
{
    let ghost all = shown_lines(log_views(lines@));
    let mut total: usize = 0;
    let mut i: usize = 0;
    while i < lines.len()
        invariant
            i <= lines@.len(),
            all == shown_lines(log_views(lines@)),
            total == row_of(all, width, i as int),
        decreases lines@.len() - i,
    {
        assert(all[i as int] == lines@[i as int].line@);
        total = total.saturating_add(line_height(&lines[i].line, width));
        i += 1;
    }
    total
}

fn log_hitboxes(lines: &Vec<LogLine>, area: Rect, scroll: usize) -> (r: Vec<(Rect, usize)>)
    ensures
        r@ == log_places(log_views(lines@), area, scroll as int, lines@.len() as int),
{
    let ghost views = log_views(lines@);
    let ghost all = shown_lines(views);
    let width = content_width(area);
    let height = content_height(area);
    let mut hitboxes: Vec<(Rect, usize)> = Vec::new();
    let mut start: usize = 0;
    let mut i: usize = 0;
    while i < lines.len()
        invariant
            i <= lines@.len(),
            views == log_views(lines@),
            all == shown_lines(views),
            width == inner_width(area),
            height == inner_height(area),
            start == row_of(all, width, i as int),
            hitboxes@ == log_places(views, area, scroll as int, i as int),
        decreases lines@.len() - i,
    {
        assert(all[i as int] == lines@[i as int].line@);
        assert(views[i as int] == lines@[i as int]@);
        let next: usize = start.saturating_add(line_height(&lines[i].line, width));
        if let Some(target) = lines[i].target {
            let first: usize = if start > scroll {
                start
            } else {
                scroll
            };
            let bottom: usize = scroll.saturating_add(height);
            let end: usize = if next < bottom {
                next
            } else {
                bottom
            };
            if first < end {
                let place = Rect {
                    x: area.x.saturating_add(1),
                    y: area.y.saturating_add(1).saturating_add((first - scroll) as u16),
                    width: area.width.saturating_sub(2),
                    height: (end - first) as u16,
                };
                hitboxes.push((place, target));
            }
        }
        start = next;
        i += 1;
    }
    hitboxes
}

impl App {
    /// Notes where the lines of the log were drawn, and scrolls back where they
    /// have become fewer.
    pub fn activity_drawn(&mut self, area: Rect, lines: &Vec<LogLine>)
        requires
            old(self).wf(),
        ensures
            final(self).wf(),
            ({
                let views = log_views(lines@);
                let total = row_of(shown_lines(views), inner_width(area), lines@.len() as int);
                let scroll = at_most(old(self)@.activity.scroll, last_scroll(total, area));
                &&& final(self).hits.activity@ == log_places(
                    views,
                    area,
                    scroll,
                    lines@.len() as int,
                )
                &&& final(self)@ == (AppView {
                    activity_rendered_height: total as usize,
                    activity: LogView { scroll, ..old(self)@.activity },
                    hits: final(self).hits,
                    ..old(self)@
                })
            }),
            final(self).hits == (Hitboxes {
                activity: final(self).hits.activity,
                ..old(self).hits
            }),
    {
        let total: usize = log_height(lines, content_width(area));
        self.activity_rendered_height = total;
        self.activity.scroll = limit_scroll(self.activity.scroll, total, area);
        self.hits.activity = log_hitboxes(lines, area, self.activity.scroll);
    }
}

/// The title of the log, with what its colours mean.
pub open spec fn activity_legend(language: Language) -> LineView {
    LineView::of(
        seq![
            unstyled(language.pick(" Activity  "@, " 活动  "@)),
            tinted(language.pick("● success"@, "● 成功"@), Color::Success),
            unstyled("  "@),
            tinted(language.pick("● queued"@, "● 已排队"@), Color::Warning),
            unstyled("  "@),
            tinted(language.pick("● failed "@, "● 失败 "@), Color::Error),
        ],
    )
}

/// The title of the log, with what its colours mean.
pub fn activity_title(language: Language) -> (r: StyledLine)
    ensures
        r@ == activity_legend(language),
{
    let mut line = blank_line();
    line.plain(language.text(" Activity  ", " 活动  "));
    line.tint(language.text("● success", "● 成功"), Color::Success);
    line.plain("  ");
    line.tint(language.text("● queued", "● 已排队"), Color::Warning);
    line.plain("  ");
    line.tint(language.text("● failed ", "● 失败 "), Color::Error);
    line
}

/// Folding an execution hides what it has printed and nothing else: its first
/// line stays, and so does all that comes behind it.
pub proof fn law_folding_hides_only_output(log: LogView, hovered: Option<usize>, i: int)
    requires
        0 <= i < log.lines.len(),
        heads_execution(log.lines[i]),
        !log.expanded.contains(i),
    ensures
        log_lines_from(log, hovered, i) == execution_head(log, hovered, i) + log_lines_from(
            log,
            hovered,
            next_entry(log, i + 1),
        ),
{
    lemma_next_entry(log, i + 1);
    let head = execution_head(log, hovered, i);
    assert(head + Seq::<(LineView, Option<usize>)>::empty() =~= head);
}

} // verus!
