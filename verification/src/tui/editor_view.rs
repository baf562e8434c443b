//! The TOML editor, as it is drawn.

use crate::language::Language;
use crate::number::{count_text, decimal_text};
use crate::text::{
    at_boundary, byte_len, char_count, char_position, is_boundary, join2, join3, join4,
    lemma_boundary, lemma_byte_len_take, lemma_char_index, lemma_char_index_order, slice,
    string_of,
};
use crate::tui::app::{App, AppView};
use crate::tui::content::{
    LineView, PieceView, StyledLine, blank_line, lemma_no_pieces, line_of, line_views, piece,
    pieces_text, push_line, styled,
};
use crate::tui::editor::{TomlEditor, TomlEditorMode, is_byte_span};
use crate::tui::geometry::{Rect, at_most, before, capped};
use crate::tui::highlight::{
    TomlHighlight, base_style, bytes_between, colours, highlights_cover, highlights_fit,
};
use crate::tui::input_line::{cells, lemma_pieces_text_add, selected_look};
use crate::tui::lines::{column_of, last_line, line_number, line_spans};
use crate::tui::modal::{Modal, ModalView};
use crate::tui::style::{Color, Style};
use vstd::prelude::*;
use vstd::string::*;

verus! {

/// `edge` where it lies between `at` and `end`, or else `end`.
pub open spec fn nearer(at: int, edge: int, end: int) -> int {
    if at < edge < end {
        edge
    } else {
        end
    }
}

/// The first edge of the first `n` highlights that lies between `at` and `end`,
/// or else `end`.
pub open spec fn edge_behind(highlights: Seq<TomlHighlight>, at: int, end: int, n: int) -> int
decreases n,
{
    if n <= 0 {
        end
    } else {
        let h = highlights[n - 1];
        nearer(
            at,
            h.end as int,
            nearer(at, h.start as int, edge_behind(highlights, at, end, n - 1)),
        )
    }
}

/// Where the style changes behind the byte `at` of a line that ends at `end`.
pub open spec fn style_end(
    highlights: Seq<TomlHighlight>,
    selection: Option<(int, int)>,
    at: int,
    end: int,
) -> int {
    let edge = edge_behind(highlights, at, end, highlights.len() as int);
    match selection {
        Some((from, to)) => nearer(at, to, nearer(at, from, edge)),
        None => edge,
    }
}

/// The style of the first highlight from `i` on that covers the byte `at`.
pub open spec fn highlight_at(highlights: Seq<TomlHighlight>, at: int, i: int) -> Style
decreases highlights.len() - i,
{
    if i >= highlights.len() {
        base_style()
    } else if highlights[i].start <= at < highlights[i].end {
        highlights[i].style
    } else {
        highlight_at(highlights, at, i + 1)
    }
}

/// The style of the byte `at`.
pub open spec fn style_of_byte(
    highlights: Seq<TomlHighlight>,
    selection: Option<(int, int)>,
    at: int,
) -> Style {
    match selection {
        Some((from, to)) => if from <= at < to {
            selected_look()
        } else {
            highlight_at(highlights, at, 0)
        },
        None => highlight_at(highlights, at, 0),
    }
}

/// The pieces of a line from the byte `at` on to the byte `end`.
pub open spec fn highlighted(
    text: Seq<char>,
    highlights: Seq<TomlHighlight>,
    selection: Option<(int, int)>,
    at: int,
    end: int,
) -> Seq<PieceView>
decreases end - at,
{
    let next = style_end(highlights, selection, at, end);
    if at >= end || next <= at || next > end {
        Seq::empty()
    } else {
        seq![
            styled(
                bytes_between(text, at, next),
                style_of_byte(highlights, selection, at),
            ),
        ] + highlighted(text, highlights, selection, next, end)
    }
}

/// The line of the editor from the byte `start` to the byte `end`.
pub open spec fn editor_line(
    text: Seq<char>,
    highlights: Seq<TomlHighlight>,
    selection: Option<(int, int)>,
    start: int,
    end: int,
) -> LineView {
    if start == end {
        LineView::blank().over(base_style())
    } else {
        LineView::of(highlighted(text, highlights, selection, start, end))
    }
}

/// The edge that `edge_behind` finds is one, and lies behind `at`.
proof fn lemma_edge_behind(
    text: Seq<char>,
    highlights: Seq<TomlHighlight>,
    at: int,
    end: int,
    n: int,
)
    requires
        highlights_fit(text, highlights),
        is_boundary(text, end),
        at < end,
        0 <= n <= highlights.len(),
    ensures
        at < edge_behind(highlights, at, end, n) <= end,
        is_boundary(text, edge_behind(highlights, at, end, n)),
    decreases n,
{
    if n > 0 {
        lemma_edge_behind(text, highlights, at, end, n - 1);
    }
}

proof fn lemma_style_end(
    text: Seq<char>,
    highlights: Seq<TomlHighlight>,
    selection: Option<(int, int)>,
    at: int,
    end: int,
)
    requires
        highlights_fit(text, highlights),
        is_boundary(text, end),
        at < end,
        selection matches Some((from, to)) ==> is_boundary(text, from) && is_boundary(text, to),
    ensures
        at < style_end(highlights, selection, at, end) <= end,
        is_boundary(text, style_end(highlights, selection, at, end)),
{
    lemma_edge_behind(text, highlights, at, end, highlights.len() as int);
}

fn nearer_edge(at: usize, edge: usize, end: usize) -> (r: usize)
    ensures
        r == nearer(at as int, edge as int, end as int),
{
    if at < edge && edge < end {
        edge
    } else {
        end
    }
}

fn find_style_end(
    highlights: &Vec<TomlHighlight>,
    selection: Option<(usize, usize)>,
    at: usize,
    end: usize,
) -> (r: usize)
    ensures
        r == style_end(highlights@, byte_pair(selection), at as int, end as int),
{
    let mut edge: usize = end;
    let mut i: usize = 0;
    while i < highlights.len()
        invariant
            i <= highlights@.len(),
            edge == edge_behind(highlights@, at as int, end as int, i as int),
        decreases highlights@.len() - i,
    {
        edge = nearer_edge(at, highlights[i].end, nearer_edge(at, highlights[i].start, edge));
        i += 1;
    }
    match selection {
        Some((from, to)) => nearer_edge(at, to, nearer_edge(at, from, edge)),
        None => edge,
    }
}

/// Two byte offsets as numbers.
pub open spec fn byte_pair(selection: Option<(usize, usize)>) -> Option<(int, int)> {
    match selection {
        Some((from, to)) => Some((from as int, to as int)),
        None => None,
    }
}

fn find_style(highlights: &Vec<TomlHighlight>, selection: Option<(usize, usize)>, at: usize) -> (r:
    Style)
    ensures
        r == style_of_byte(highlights@, byte_pair(selection), at as int),
{
    if let Some((from, to)) = selection {
        if from <= at && at < to {
            return Style::on(Color::Black, Color::Accent).bold();
        }
    }
    let mut i: usize = 0;
    while i < highlights.len()
        invariant
            i <= highlights@.len(),
            highlight_at(highlights@, at as int, 0) == highlight_at(
                highlights@,
                at as int,
                i as int,
            ),
            style_of_byte(highlights@, byte_pair(selection), at as int) == highlight_at(
                highlights@,
                at as int,
                0,
            ),
        decreases highlights@.len() - i,
    {
        if highlights[i].start <= at && at < highlights[i].end {
            return highlights[i].style;
        }
        i += 1;
    }
    Style::on(Color::White, Color::Surface)
}

impl TomlEditor {
    /// The byte offsets of the selection, in order.
    pub open spec fn selected_bytes(self) -> Option<(int, int)> {
        match self.body().selection() {
            Some((from, to)) => Some(
                (
                    byte_len(self.text@.take(from)) as int,
                    byte_len(self.text@.take(to)) as int,
                ),
            ),
            None => None,
        }
    }
}

/// The line of the editor from the byte `start` to the byte `end`.
pub fn toml_editor_line(editor: &TomlEditor, start: usize, end: usize) -> (r: StyledLine)
    requires
        editor.wf(),
        highlights_fit(editor.text@, editor.highlights@),
        is_boundary(editor.text@, start as int),
        is_boundary(editor.text@, end as int),
        start <= end,
    ensures
        r@ == editor_line(
            editor.text@,
            editor.highlights@,
            editor.selected_bytes(),
            start as int,
            end as int,
        ),
{
    let mut line = blank_line();
    if start == end {
        line.style = Style::on(Color::White, Color::Surface);
        return line;
    }
    let text = editor.text.as_str();
    let selection = editor.selection();
    proof {
        if let Some((from, to)) = selection {
            lemma_boundary(text@, from as int);
            lemma_boundary(text@, to as int);
        }
    }
    let ghost marked = byte_pair(selection);
    let ghost all = highlighted(text@, editor.highlights@, marked, start as int, end as int);
    let mut at: usize = start;
    assert(line@.pieces + all =~= all);
    while at < end
        invariant
            start <= at <= end,
            text@ == editor.text@,
            marked == byte_pair(selection),
            marked matches Some((from, to)) ==> is_boundary(text@, from) && is_boundary(text@, to),
            highlights_fit(text@, editor.highlights@),
            is_boundary(text@, at as int),
            is_boundary(text@, end as int),
            line@.style == Style::of(None, None),
            line@.pieces + highlighted(
                text@,
                editor.highlights@,
                marked,
                at as int,
                end as int,
            ) == all,
        decreases end - at,
    {
        let ghost before = line@.pieces;
        proof {
            lemma_style_end(text@, editor.highlights@, marked, at as int, end as int);
        }
        let next: usize = find_style_end(&editor.highlights, selection, at, end);
        let style = find_style(&editor.highlights, selection, at);
        proof {
            lemma_char_index_order(text@, at as int, next as int);
        }
        let piece = slice(text, char_position(text, at), char_position(text, next));
        line.put(piece, style);
        proof {
            let rest = highlighted(
                text@,
                editor.highlights@,
                marked,
                next as int,
                end as int,
            );
            let here = styled(
                bytes_between(text@, at as int, next as int),
                style_of_byte(editor.highlights@, marked, at as int),
            );
            assert(before + (seq![here] + rest) =~= line@.pieces + rest);
        }
        at = next;
    }
    assert(line@.pieces =~= all);
    line
}

/// Whether the highlights of the editor lie between characters of its text.
pub fn highlights_are_placed(editor: &TomlEditor) -> (r: bool)
    ensures
        r == highlights_fit(editor.text@, editor.highlights@),
{
    let text = editor.text.as_str();
    let mut i: usize = 0;
    while i < editor.highlights.len()
        invariant
            i <= editor.highlights@.len(),
            text@ == editor.text@,
            forall|k: int|
                0 <= k < i ==> {
                    &&& (#[trigger] editor.highlights@[k]).start <= editor.highlights@[k].end
                    &&& is_boundary(text@, editor.highlights@[k].start as int)
                    &&& is_boundary(text@, editor.highlights@[k].end as int)
                },
        decreases editor.highlights@.len() - i,
    {
        let h = editor.highlights[i];
        if h.start > h.end || !at_boundary(text, h.start) || !at_boundary(text, h.end) {
            assert(editor.highlights@[i as int] == h);
            return false;
        }
        i += 1;
    }
    true
}

/// The lines of the editor.
pub open spec fn editor_line_views(editor: TomlEditor) -> Seq<LineView> {
    let spans = line_spans(editor.text@);
    Seq::new(
        spans.len(),
        |i: int|
        editor_line(
            editor.text@,
            editor.highlights@,
            editor.selected_bytes(),
            byte_len(editor.text@.take(spans[i].0)) as int,
            byte_len(editor.text@.take(spans[i].1)) as int,
        ),
    )
}

/// The lines of the editor, where its highlights lie between characters of its
/// text.
pub fn editor_content(editor: &TomlEditor) -> (r: Option<Vec<StyledLine>>)
    requires
        editor.wf(),
    ensures
        r is Some <==> highlights_fit(editor.text@, editor.highlights@),
        r matches Some(lines) ==> line_views(lines@) == editor_line_views(*editor),
{
    if !highlights_are_placed(editor) {
        return None;
    }
    let ghost all = editor_line_views(*editor);
    let ghost spans = line_spans(editor.text@);
    let ranges = editor.line_ranges();
    let mut lines: Vec<StyledLine> = Vec::new();
    let mut i: usize = 0;
    proof {
        lemma_no_pieces();
        assert(all.take(0) =~= Seq::<LineView>::empty());
    }
    while i < ranges.len()
        invariant
            editor.wf(),
            highlights_fit(editor.text@, editor.highlights@),
            i <= ranges@.len(),
            spans == line_spans(editor.text@),
            all == editor_line_views(*editor),
            ranges@.len() == spans.len(),
            forall|k: int|
                0 <= k < ranges@.len() ==> is_byte_span(
                    editor.text@,
                    spans[k],
                    #[trigger] ranges@[k],
                ),
            line_views(lines@) == all.take(i as int),
        decreases ranges@.len() - i,
    {
        let (start, end) = ranges[i];
        proof {
            assert(is_byte_span(editor.text@, spans[i as int], ranges@[i as int]));
            lemma_char_index(editor.text@, spans[i as int].0);
            lemma_char_index(editor.text@, spans[i as int].1);
            lemma_byte_len_take(editor.text@, spans[i as int].0, spans[i as int].1);
            assert(all.take(i + 1) =~= all.take(i as int).push(all[i as int]));
        }
        push_line(&mut lines, toml_editor_line(editor, start, end));
        i += 1;
    }
    assert(all.take(i as int) =~= all);
    Some(lines)
}

/// The title of the editor.
pub open spec fn editor_name(editor: TomlEditor, language: Language) -> Seq<char> {
    (if editor.dirty {
            language.pick("TOML editor — modified"@, "TOML 编辑器 — 已修改"@)
        } else {
            language.pick("TOML editor"@, "TOML 编辑器"@)
    }) + " ["@ + editor.mode.name() + "]"@
}

/// The title of the editor.
pub fn editor_title(editor: &TomlEditor, language: Language) -> (r: String)
    ensures
        r@ == editor_name(*editor, language),
{
    let title = if editor.dirty {
        language.text("TOML editor — modified", "TOML 编辑器 — 已修改")
    } else {
        language.text("TOML editor", "TOML 编辑器")
    };
    join4(title, " [", editor.mode.label(), "]")
}

/// The line that names the file.
pub open spec fn file_line(editor: TomlEditor, language: Language) -> LineView {
    LineView::of(
        seq![
            styled(language.pick(" File  "@, " 文件  "@), Style::of(Some(Color::Dim), None)),
            styled(editor.path@, Style::of(Some(Color::Accent), None).heavy()),
        ],
    )
}

/// The line that names the file.
pub fn editor_file_line(editor: &TomlEditor, language: Language) -> (r: StyledLine)
    ensures
        r@ == file_line(*editor, language),
{
    let mut line = blank_line();
    line.put(language.text(" File  ", " 文件  "), Style::with_fg(Color::Dim));
    line.put(editor.path.as_str(), Style::with_fg(Color::Accent).bold());
    line
}

/// The columns of the numbers of the lines.
pub open spec fn number_columns(editor: TomlEditor) -> nat {
    decimal_text((last_line(editor.text@) + 1) as nat).len() + 2
}

/// The columns of the numbers of the lines.
pub fn gutter_width(editor: &TomlEditor) -> (r: usize)
    ensures
        r == at_most(number_columns(*editor) as int, usize::MAX as int),
{
    let count: usize = editor.line_ranges().len();
    char_count(count_text(count).as_str()).saturating_add(2)
}

/// The number of a line, at the right of `width` columns.
pub open spec fn line_label(number: nat, width: int) -> Seq<char> {
    let digits = decimal_text(number);
    let room = if width > digits.len() {
        width - digits.len()
    } else {
        0
    };
    Seq::new(room as nat, |i: int| ' ') + digits + " "@
}

fn number_text(number: usize, width: usize) -> (r: String)
    ensures
        r@ == line_label(number as nat, width as int),
{
    let digits = count_text(number);
    let count: usize = char_count(digits.as_str());
    let room: usize = if width > count {
        width - count
    } else {
        0
    };
    let mut spaces: Vec<char> = Vec::new();
    while spaces.len() < room
        invariant
            spaces@.len() <= room,
            forall|k: int| 0 <= k < spaces@.len() ==> spaces@[k] == ' ',
        decreases room - spaces@.len(),
    {
        spaces.push(' ');
    }
    assert(spaces@ =~= Seq::new(room as nat, |i: int| ' '));
    join3(string_of(spaces.as_slice()).as_str(), digits.as_str(), " ")
}

/// The numbers of the lines, in `width` columns and one behind them.
pub open spec fn gutter_views(editor: TomlEditor, width: int) -> Seq<LineView> {
    Seq::new(
        (last_line(editor.text@) + 1) as nat,
        |i: int|
        LineView::one(
            line_label((i + 1) as nat, width),
            Style::of(Some(Color::Subtle), Some(Color::PanelBg)),
        ),
    )
}

/// The numbers of the lines, in `width` columns and one behind them.
pub fn gutter_lines(editor: &TomlEditor, width: usize) -> (r: Vec<StyledLine>)
    ensures
        line_views(r@) == gutter_views(*editor, width as int),
{
    let ghost all = gutter_views(*editor, width as int);
    let count: usize = editor.line_ranges().len();
    let mut lines: Vec<StyledLine> = Vec::new();
    let mut i: usize = 0;
    proof {
        lemma_no_pieces();
        assert(all.take(0) =~= Seq::<LineView>::empty());
    }
    while i < count
        invariant
            i <= count,
            count == all.len(),
            all == gutter_views(*editor, width as int),
            line_views(lines@) == all.take(i as int),
        decreases count - i,
    {
        let label = number_text(i + 1, width);
        assert(all.take(i + 1) =~= all.take(i as int).push(all[i as int]));
        push_line(
            &mut lines,
            line_of(label.as_str(), Style::on(Color::Subtle, Color::PanelBg)),
        );
        i += 1;
    }
    assert(all.take(i as int) =~= all);
    lines
}

/// The cell of the cursor of the editor, where it is on the screen.
pub open spec fn editor_cursor(editor: TomlEditor, area: Rect) -> Option<(u16, u16)> {
    let line = line_number(editor.text@, editor.body().at);
    let column = column_of(editor.text@, editor.body().at);
    if editor.scroll_y <= line < at_most(editor.scroll_y + area.height, usize::MAX as int)
        && editor.scroll_x <= column < at_most(
        editor.scroll_x + area.width,
        usize::MAX as int,
    ) {
        Some(
            (
                capped(area.x, cells((column - editor.scroll_x) as nat)),
                capped(area.y, cells((line - editor.scroll_y) as nat)),
            ),
        )
    } else {
        None
    }
}

/// The cell of the cursor of the editor, where it is on the screen.
pub fn editor_cursor_cell(editor: &TomlEditor, area: Rect) -> (r: Option<(u16, u16)>)
    requires
        editor.wf(),
    ensures
        r == editor_cursor(*editor, area),
{
    let (line, column) = editor.cursor_line_column();
    if line >= editor.scroll_y && line < editor.scroll_y.saturating_add(area.height as usize)
        && column >= editor.scroll_x && column < editor.scroll_x.saturating_add(
        area.width as usize,
    ) {
        let x: usize = column - editor.scroll_x;
        let y: usize = line - editor.scroll_y;
        Some((area.x.saturating_add(x as u16), area.y.saturating_add(y as u16)))
    } else {
        None
    }
}

/// The keys of the editor.
pub open spec fn standard_keys(language: Language) -> LineView {
    LineView::of(
        seq![
            styled("[Ctrl+S]"@, Style::of(Some(Color::Success), None)),
            styled(language.pick(" save  "@, " 保存  "@), Style::of(None, None)),
            styled("[Esc]"@, Style::of(Some(Color::Error), None)),
            styled(language.pick(" close  "@, " 关闭  "@), Style::of(None, None)),
            styled("[F2]"@, Style::of(Some(Color::Accent), None)),
            styled(language.pick(" Vim  "@, " Vim  "@), Style::of(None, None)),
            styled("[Ctrl+C]"@, Style::of(Some(Color::Accent), None)),
            styled(language.pick(" copy  "@, " 复制  "@), Style::of(None, None)),
            styled("[Ctrl+V]"@, Style::of(Some(Color::Accent), None)),
            styled(language.pick(" paste"@, " 粘贴"@), Style::of(None, None)),
        ],
    )
}

/// The keys of the editor.
pub fn standard_keys_text(language: Language) -> (r: StyledLine)
    ensures
        r@ == standard_keys(language),
{
    let mut line = blank_line();
    line.put("[Ctrl+S]", Style::with_fg(Color::Success));
    line.put(language.text(" save  ", " 保存  "), Style::plain());
    line.put("[Esc]", Style::with_fg(Color::Error));
    line.put(language.text(" close  ", " 关闭  "), Style::plain());
    line.put("[F2]", Style::with_fg(Color::Accent));
    line.put(language.text(" Vim  ", " Vim  "), Style::plain());
    line.put("[Ctrl+C]", Style::with_fg(Color::Accent));
    line.put(language.text(" copy  ", " 复制  "), Style::plain());
    line.put("[Ctrl+V]", Style::with_fg(Color::Accent));
    line.put(language.text(" paste", " 粘贴"), Style::plain());
    line
}

/// The keys of the editor where it takes those of vim.
pub open spec fn vim_keys(language: Language) -> LineView {
    LineView::of(
        seq![
            styled("[F2]"@, Style::of(Some(Color::Accent), None)),
            styled(language.pick(" standard  "@, " 标准模式  "@), Style::of(None, None)),
            styled("[Ctrl+S]"@, Style::of(Some(Color::Success), None)),
            styled(language.pick(" save  "@, " 保存  "@), Style::of(None, None)),
            styled("[Ctrl+Q]"@, Style::of(Some(Color::Error), None)),
            styled(language.pick(" close  "@, " 关闭  "@), Style::of(None, None)),
            styled("[Ctrl+/]"@, Style::of(Some(Color::Accent), None)),
            styled(language.pick(" comment"@, " 注释"@), Style::of(None, None)),
        ],
    )
}

/// The keys of the editor where it takes those of vim.
pub fn vim_keys_text(language: Language) -> (r: StyledLine)
    ensures
        r@ == vim_keys(language),
{
    let mut line = blank_line();
    line.put("[F2]", Style::with_fg(Color::Accent));
    line.put(language.text(" standard  ", " 标准模式  "), Style::plain());
    line.put("[Ctrl+S]", Style::with_fg(Color::Success));
    line.put(language.text(" save  ", " 保存  "), Style::plain());
    line.put("[Ctrl+Q]", Style::with_fg(Color::Error));
    line.put(language.text(" close  ", " 关闭  "), Style::plain());
    line.put("[Ctrl+/]", Style::with_fg(Color::Accent));
    line.put(language.text(" comment", " 注释"), Style::plain());
    line
}

/// What the keys do in a mode of the editor.
pub open spec fn mode_help(mode: TomlEditorMode, language: Language) -> Seq<char> {
    match mode {
        TomlEditorMode::Standard => language.pick(
            "Ctrl+/ comment · Ctrl+Z/Y undo/redo · arrows move · Shift/mouse drag selects · wheel scrolls"@,
            "Ctrl+/ 注释 · Ctrl+Z/Y 撤销/重做 · 方向键移动 · Shift/鼠标拖选 · 滚轮滚动"@,
        ),
        TomlEditorMode::VimNormal => language.pick(
            "NORMAL: h/j/k/l w/b 0/$ gg/G · i/a/I/A insert · v/V select · x dd yy p u Ctrl+R"@,
            "NORMAL：h/j/k/l w/b 0/$ gg/G 移动 · i/a/I/A 插入 · v/V 选择 · x dd yy p u Ctrl+R"@,
        ),
        TomlEditorMode::VimInsert => language.pick(
            "INSERT: type to edit · Esc returns to NORMAL · arrows and standard Ctrl shortcuts work"@,
            "INSERT：直接输入编辑 · Esc 返回 NORMAL · 方向键和标准 Ctrl 快捷键仍可用"@,
        ),
        TomlEditorMode::VimVisual => language.pick(
            "VISUAL: h/j/k/l w/b 0/$ select · y copy · d/x delete · c replace · Esc NORMAL"@,
            "VISUAL：h/j/k/l w/b 0/$ 选择 · y 复制 · d/x 删除 · c 替换 · Esc 返回 NORMAL"@,
        ),
    }
}

fn mode_help_text(mode: TomlEditorMode, language: Language) -> (r: &'static str)
    ensures
        r@ == mode_help(mode, language),
{
    match mode {
        TomlEditorMode::Standard => language.text(
            "Ctrl+/ comment · Ctrl+Z/Y undo/redo · arrows move · Shift/mouse drag selects · wheel scrolls",
            "Ctrl+/ 注释 · Ctrl+Z/Y 撤销/重做 · 方向键移动 · Shift/鼠标拖选 · 滚轮滚动",
        ),
        TomlEditorMode::VimNormal => language.text(
            "NORMAL: h/j/k/l w/b 0/$ gg/G · i/a/I/A insert · v/V select · x dd yy p u Ctrl+R",
            "NORMAL：h/j/k/l w/b 0/$ gg/G 移动 · i/a/I/A 插入 · v/V 选择 · x dd yy p u Ctrl+R",
        ),
        TomlEditorMode::VimInsert => language.text(
            "INSERT: type to edit · Esc returns to NORMAL · arrows and standard Ctrl shortcuts work",
            "INSERT：直接输入编辑 · Esc 返回 NORMAL · 方向键和标准 Ctrl 快捷键仍可用",
        ),
        TomlEditorMode::VimVisual => language.text(
            "VISUAL: h/j/k/l w/b 0/$ select · y copy · d/x delete · c replace · Esc NORMAL",
            "VISUAL：h/j/k/l w/b 0/$ 选择 · y 复制 · d/x 删除 · c 替换 · Esc 返回 NORMAL",
        ),
    }
}

/// The lines under the editor: the message and the keys.
pub open spec fn editor_help_views(
    editor: TomlEditor,
    message: Seq<char>,
    language: Language,
) -> Seq<LineView> {
    seq![
        LineView::one(" "@ + message, Style::of(Some(Color::Warning), None).heavy()),
        if editor.mode == TomlEditorMode::Standard {
            standard_keys(language)
        } else {
            vim_keys(language)
        },
        LineView::one(mode_help(editor.mode, language), Style::of(Some(Color::Dim), None)),
    ]
}

/// The lines under the editor: the message and the keys.
pub fn editor_help(editor: &TomlEditor, message: &str, language: Language) -> (r: Vec<StyledLine>)
    ensures
        line_views(r@) == editor_help_views(*editor, message@, language),
{
    let mut lines: Vec<StyledLine> = Vec::new();
    proof { lemma_no_pieces(); }
    push_line(
        &mut lines,
        line_of(join2(" ", message).as_str(), Style::with_fg(Color::Warning).bold()),
    );
    let line4 = if editor.mode == TomlEditorMode::Standard {
        standard_keys_text(language)
    } else {
        vim_keys_text(language)
    };
    push_line(&mut lines, line4);
    push_line(
        &mut lines,
        line_of(mode_help_text(editor.mode, language), Style::with_fg(Color::Dim)),
    );
    lines
}

/// The editor scrolled to its cursor, where it follows it, in a view of the
/// given size.
pub open spec fn followed(editor: TomlEditor, height: u16, width: u16) -> TomlEditor {
    if !editor.follow_cursor {
        editor
    } else if height == 0 || width == 0 {
        TomlEditor { follow_cursor: false, ..editor }
    } else {
        TomlEditor {
            scroll_y: TomlEditor::scrolled_to(
                editor.scroll_y as int,
                line_number(editor.text@, editor.body().at) as int,
                height as int,
            ) as usize,
            scroll_x: TomlEditor::scrolled_to(
                editor.scroll_x as int,
                column_of(editor.text@, editor.body().at) as int,
                width as int,
            ) as usize,
            follow_cursor: false,
            ..editor
        }
    }
}

/// Scrolls the editor to its cursor, where it follows it.
fn follow(editor: &mut TomlEditor, height: u16, width: u16)
    requires
        old(editor).wf(),
    ensures
        final(editor).wf(),
        *final(editor) == followed(*old(editor), height, width),
{
    if editor.follow_cursor {
        editor.ensure_cursor_visible(height as usize, width as usize);
        editor.follow_cursor = false;
    }
}

impl App {
    /// Colours the text of the TOML editor anew where it has changed.
    pub fn color_editor(&mut self)
        requires
            old(self).wf(),
        ensures
            final(self).wf(),
            match old(self)@.modal {
                ModalView::TomlEditor { editor } => {
                    &&& final(self)@.modal matches ModalView::TomlEditor { editor: after }
                    &&& editor.highlighted_revision == editor.revision ==> after == editor
                    &&& editor.highlighted_revision != editor.revision ==> {
                        &&& after.highlights@ == colours(editor.text@)
                        &&& highlights_cover(after.text@, after.highlights@)
                        &&& after == (TomlEditor {
                            highlights: after.highlights,
                            highlighted_revision: editor.revision,
                            ..editor
                        })
                    }
                },
                _ => final(self)@.modal == old(self)@.modal,
            },
            final(self)@ == old(self)@.with_modal(final(self)@.modal),
    {
        if let Modal::TomlEditor { editor } = &mut self.modal {
            editor.refresh_highlights();
        }
    }

    /// Notes where the text of the TOML editor is drawn, and scrolls it to the
    /// cursor where it follows it.
    pub fn editor_laid_out(&mut self, content: Rect)
        requires
            old(self).wf(),
        ensures
            final(self).wf(),
            final(self)@ == match old(self)@.modal {
                ModalView::TomlEditor { editor } => AppView {
                    modal: ModalView::TomlEditor {
                        editor: followed(editor, content.height, content.width),
                    },
                    toml_editor_area: Some(content),
                    ..old(self)@
                },
                _ => old(self)@,
            },
    {
        if let Modal::TomlEditor { editor } = &mut self.modal {
            follow(editor, content.height, content.width);
            self.toml_editor_area = Some(content);
        }
    }
}

/// Colours do not change the text: the pieces of a line of the editor are its
/// characters.
pub proof fn law_colors_keep_the_text(
    text: Seq<char>,
    highlights: Seq<TomlHighlight>,
    selection: Option<(int, int)>,
    start: int,
    end: int,
)
    requires
        highlights_fit(text, highlights),
        is_boundary(text, start),
        is_boundary(text, end),
        start <= end,
        selection matches Some((from, to)) ==> is_boundary(text, from) && is_boundary(text, to),
    ensures
        editor_line(text, highlights, selection, start, end).text() == bytes_between(
            text,
            start,
            end,
        ),
    decreases end - start,
{
    lemma_boundary(text, start);
    lemma_boundary(text, end);
    lemma_char_index_order(text, start, end);
    if start == end {
        assert(bytes_between(text, start, end) =~= Seq::<char>::empty());
    } else {
        lemma_style_end(text, highlights, selection, start, end);
        let next = style_end(highlights, selection, start, end);
        lemma_boundary(text, next);
        lemma_char_index_order(text, start, next);
        lemma_char_index_order(text, next, end);
        let here = styled(
            bytes_between(text, start, next),
            style_of_byte(highlights, selection, start),
        );
        let rest = highlighted(text, highlights, selection, next, end);
        law_colors_keep_the_text(text, highlights, selection, next, end);
        lemma_pieces_text_add(seq![here], rest);
        assert(seq![here].drop_last() =~= Seq::<PieceView>::empty());
        assert(pieces_text(seq![here]) =~= here.text) by {
            assert(pieces_text(seq![here].drop_last()) =~= Seq::<char>::empty());
        }
        if next == end {
            assert(rest =~= Seq::<PieceView>::empty());
            assert(bytes_between(text, next, end) =~= Seq::<char>::empty());
        }
        assert(bytes_between(text, start, next) + bytes_between(text, next, end)
            =~= bytes_between(text, start, end));
    }
}

} // verus!
