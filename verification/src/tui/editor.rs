//! The TOML editor: text with a cursor, a selection, an undo history and the
//! registers of its modal mode.

use crate::number::{add_signed, larger, shifted, smaller};
use crate::search::{
    drop_trailing, is_char, lines, normalize_newlines, split_on, trim_end_matches, unix_newlines,
};
use crate::text::{
    at_boundary, byte_len, byte_length, byte_offset, char_count, char_index, char_position,
    chars_of, is_boundary, join3, lemma_boundary, lemma_char_index, lemma_char_index_order,
    lemma_ends_are_boundaries, push_char, same, slice,
};
use crate::tui::comment::{
    TomlCommentAction, block_commented, block_untouched, comment_line, content, indent_len,
    indentation, is_blank, is_commented, joined_lines, law_comment_then_uncomment,
    lemma_comment_line, lemma_commented_line, lemma_indent_len, lemma_last_line_blank,
    lemma_split_joined, marker_len, single_lines, toggle_block, toggled_block, toggled_lines,
};
use crate::tui::highlight::{TomlHighlight, colours, highlights_cover, toml_highlights};
use crate::tui::history::{
    TOML_HISTORY_BYTE_LIMIT, TOML_HISTORY_LIMIT, TomlEditorSnapshot, body_view, body_wf, bounded,
    history_bytes, history_view, history_wf, law_history_is_bounded, push_history,
};
use crate::tui::input::InputView;
use crate::tui::lines::{
    at_column, class_start, column_at, column_of, end_of_class, end_of_line, last_line,
    lemma_line_end, lemma_line_number_grows, lemma_line_start, lemma_nth_line_start, line_end,
    line_number, line_spans, line_start, next_word, nth_line_start, number_of_line,
    position_in_line, previous_word, start_of_class, start_of_line, vim_word_class,
};
use vstd::prelude::*;
use vstd::string::*;

verus! {

#[derive(Clone, Copy, Debug, PartialEq, Eq, Structural)]
pub enum TomlEditorMode {
    Standard,
    VimNormal,
    VimInsert,
    VimVisual,
}

impl TomlEditorMode {
    pub fn is_vim(self) -> (r: bool)
        ensures
            r == (self != TomlEditorMode::Standard),
    {
        !matches!(self, TomlEditorMode::Standard)
    }

    /// Whether a typed character goes into the text; in the other modes it is a
    /// command.
    pub open spec fn takes_text(self) -> bool {
        self is Standard || self is VimInsert
    }

    pub fn inserts_text(self) -> (r: bool)
        ensures
            r == self.takes_text(),
    {
        matches!(self, TomlEditorMode::Standard | TomlEditorMode::VimInsert)
    }

    pub open spec fn name(self) -> Seq<char> {
        match self {
            TomlEditorMode::Standard => "STANDARD"@,
            TomlEditorMode::VimNormal => "VIM NORMAL"@,
            TomlEditorMode::VimInsert => "VIM INSERT"@,
            TomlEditorMode::VimVisual => "VIM VISUAL"@,
        }
    }

    pub fn label(self) -> (r: &'static str)
        ensures
            r@ == self.name(),
    {
        match self {
            TomlEditorMode::Standard => "STANDARD",
            TomlEditorMode::VimNormal => "VIM NORMAL",
            TomlEditorMode::VimInsert => "VIM INSERT",
            TomlEditorMode::VimVisual => "VIM VISUAL",
        }
    }
}

/// An open TOML file. The cursor and the end of the selection away from it are
/// byte offsets into the text.
#[derive(Debug)]
pub struct TomlEditor {
    pub path: String,
    pub text: String,
    pub mode: TomlEditorMode,
    pub vim_pending: Option<char>,
    pub vim_register: String,
    pub vim_register_linewise: bool,
    pub cursor: usize,
    pub selection_anchor: Option<usize>,
    pub scroll_y: usize,
    pub scroll_x: usize,
    pub preferred_column: Option<usize>,
    pub follow_cursor: bool,
    pub dirty: bool,
    pub saved_text: String,
    pub revision: u64,
    pub highlighted_revision: u64,
    pub highlights: Vec<TomlHighlight>,
    pub undo_stack: Vec<TomlEditorSnapshot>,
    pub redo_stack: Vec<TomlEditorSnapshot>,
}

/// The revision behind `r`.
pub open spec fn next_revision(r: u64) -> u64 {
    if r == u64::MAX {
        0
    } else {
        (r + 1) as u64
    }
}

/// Whether `bytes` are the byte offsets of the positions in `span`.
pub open spec fn is_byte_span(s: Seq<char>, span: (int, int), bytes: (usize, usize)) -> bool {
    &&& 0 <= span.0 <= span.1 <= s.len()
    &&& bytes.0 == byte_len(s.take(span.0))
    &&& bytes.1 == byte_len(s.take(span.1))
}

/// What vim takes out with a line: the line and one of the line feeds around it.
pub open spec fn whole_line(s: Seq<char>, p: int) -> (int, int) {
    let start = line_start(s, p);
    let end = line_end(s, p);
    if end < s.len() {
        (start, end + 1)
    } else if start > 0 {
        (start - 1, end)
    } else {
        (start, end)
    }
}

impl TomlEditor {
    pub open spec fn body(self) -> InputView {
        body_view(self.text@, self.cursor, self.selection_anchor)
    }

    pub open spec fn undo_view(self) -> Seq<InputView> {
        history_view(self.undo_stack@)
    }

    pub open spec fn redo_view(self) -> Seq<InputView> {
        history_view(self.redo_stack@)
    }

    /// The cursor and the selection lie between characters, here and in every
    /// entry of the two histories, and the histories keep to their limit.
    pub open spec fn wf(self) -> bool {
        &&& body_wf(self.text@, self.cursor, self.selection_anchor)
        &&& history_wf(self.undo_stack@)
        &&& history_wf(self.redo_stack@)
        &&& self.undo_stack@.len() <= TOML_HISTORY_LIMIT
        &&& self.redo_stack@.len() <= TOML_HISTORY_LIMIT
    }

    /// Whether `new` differs from this editor by the place of its cursor and
    /// selection, and by the column that vertical movement keeps to.
    pub open spec fn placed(self, new: TomlEditor, body: InputView, column: Option<usize>) -> bool {
        &&& new.wf()
        &&& new.body() == body
        &&& new == (TomlEditor {
            cursor: new.cursor,
            selection_anchor: new.selection_anchor,
            preferred_column: column,
            follow_cursor: true,
            ..self
        })
    }

    /// Whether `new` is this editor after one edit: the text is `chars`, the
    /// cursor at `at`, and `from` is what undoing will bring back.
    pub open spec fn edited(
        self,
        new: TomlEditor,
        from: InputView,
        chars: Seq<char>,
        at: int,
        anchor: Option<usize>,
    ) -> bool {
        &&& new.text@ == chars
        &&& is_boundary(chars, new.cursor as int)
        &&& char_index(chars, new.cursor as int) == at
        &&& new.undo_view() == bounded(self.undo_view().push(from))
        &&& new.redo_stack@.len() == 0
        &&& history_wf(new.undo_stack@)
        &&& new.undo_stack@.len() <= TOML_HISTORY_LIMIT
        &&& new == (TomlEditor {
            text: new.text,
            cursor: new.cursor,
            selection_anchor: anchor,
            undo_stack: new.undo_stack,
            redo_stack: new.redo_stack,
            preferred_column: None,
            follow_cursor: true,
            dirty: chars != self.saved_text@,
            revision: next_revision(self.revision),
            ..self
        })
    }

    /// The anchor that is left when the selection is taken out.
    pub open spec fn anchor_left(self) -> Option<usize> {
        if self.body().selection() is Some {
            None
        } else {
            self.selection_anchor
        }
    }

    /// The anchor that is left when a character before the cursor is taken out
    /// and the text is then `chars`: the one that is there, where it still lies
    /// between characters.
    pub open spec fn anchor_left_in(self, chars: Seq<char>) -> Option<usize> {
        match self.anchor_left() {
            Some(anchor) => if is_boundary(chars, anchor as int) {
                Some(anchor)
            } else {
                None
            },
            None => None,
        }
    }

    /// What `wf` says of the positions.
    pub proof fn lemma_body(self)
        requires
            self.wf(),
        ensures
            0 <= self.body().at <= self.text@.len(),
            self.cursor == byte_len(self.text@.take(self.body().at)),
            self.body().anchor matches Some(a) ==> 0 <= a <= self.text@.len(),
            self.selection_anchor matches Some(a) ==> {
                &&& a == byte_len(self.text@.take(self.body().anchor->0))
                &&& (a < self.cursor <==> self.body().anchor->0 < self.body().at)
                &&& (a == self.cursor <==> self.body().anchor->0 == self.body().at)
            },
    {
        lemma_boundary(self.text@, self.cursor as int);
        if let Some(a) = self.selection_anchor {
            lemma_boundary(self.text@, a as int);
            lemma_char_index_order(self.text@, a as int, self.cursor as int);
        }
    }

    /// An editor of `text` that nothing was done in yet.
    pub fn new(path: String, text: String) -> (r: TomlEditor)
        ensures
            r.wf(),
            r == (TomlEditor {
                path,
                text,
                mode: TomlEditorMode::Standard,
                vim_pending: None,
                vim_register: r.vim_register,
                vim_register_linewise: false,
                cursor: 0,
                selection_anchor: None,
                scroll_y: 0,
                scroll_x: 0,
                preferred_column: None,
                follow_cursor: true,
                dirty: false,
                saved_text: text,
                revision: 0,
                highlighted_revision: u64::MAX,
                highlights: r.highlights,
                undo_stack: r.undo_stack,
                redo_stack: r.redo_stack,
            }),
            r.vim_register@.len() == 0,
            r.highlights@.len() == 0,
            r.undo_stack@.len() == 0,
            r.redo_stack@.len() == 0,
    {
        proof {
            lemma_ends_are_boundaries(text@);
        }
        let saved_text = text.clone();
        TomlEditor {
            path,
            text,
            mode: TomlEditorMode::Standard,
            vim_pending: None,
            vim_register: String::new(),
            vim_register_linewise: false,
            cursor: 0,
            selection_anchor: None,
            scroll_y: 0,
            scroll_x: 0,
            preferred_column: None,
            follow_cursor: true,
            dirty: false,
            saved_text,
            revision: 0,
            highlighted_revision: u64::MAX,
            highlights: Vec::new(),
            undo_stack: Vec::new(),
            redo_stack: Vec::new(),
        }
    }

    /// Position of the cursor, counted in characters.
    fn at(&self) -> (r: usize)
        requires
            self.wf(),
        ensures
            r == self.body().at,
            r <= self.text@.len(),
    {
        char_position(self.text.as_str(), self.cursor)
    }

    pub fn snapshot(&self) -> (r: TomlEditorSnapshot)
        ensures
            r.text == self.text,
            r.cursor == self.cursor,
            r.selection_anchor == self.selection_anchor,
            r@ == self.body(),
    {
        TomlEditorSnapshot {
            text: self.text.clone(),
            cursor: self.cursor,
            selection_anchor: self.selection_anchor,
        }
    }

    /// Remembers the present state before an edit; what was undone is forgotten.
    pub fn begin_edit(&mut self)
        requires
            old(self).wf(),
        ensures
            final(self).wf(),
            final(self).undo_view() == bounded(old(self).undo_view().push(old(self).body())),
            final(self).redo_stack@.len() == 0,
            *final(self) == (TomlEditor {
                undo_stack: final(self).undo_stack,
                redo_stack: final(self).redo_stack,
                ..*old(self)
            }),
    {
        let snapshot = self.snapshot();
        push_history(&mut self.undo_stack, snapshot);
        self.redo_stack.clear();
    }

    /// Closes an edit.
    pub fn finish_edit(&mut self)
        ensures
            *final(self) == (TomlEditor {
                preferred_column: None,
                follow_cursor: true,
                dirty: old(self).text@ != old(self).saved_text@,
                revision: next_revision(old(self).revision),
                ..*old(self)
            }),
    {
        self.preferred_column = None;
        self.follow_cursor = true;
        self.dirty = !same(self.text.as_str(), self.saved_text.as_str());
        self.revision = self.revision.wrapping_add(1);
    }

    /// Goes back to `snapshot`.
    fn restore_snapshot(&mut self, snapshot: TomlEditorSnapshot)
        ensures
            *final(self) == (TomlEditor {
                text: snapshot.text,
                cursor: snapshot.cursor,
                selection_anchor: snapshot.selection_anchor,
                dirty: snapshot.text@ != old(self).saved_text@,
                preferred_column: None,
                follow_cursor: true,
                revision: next_revision(old(self).revision),
                ..*old(self)
            }),
            final(self).body() == snapshot@,
    {
        self.text = snapshot.text;
        self.cursor = snapshot.cursor;
        self.selection_anchor = snapshot.selection_anchor;
        self.dirty = !same(self.text.as_str(), self.saved_text.as_str());
        self.preferred_column = None;
        self.follow_cursor = true;
        self.revision = self.revision.wrapping_add(1);
    }

    /// Whether `new` is this editor with `body` brought back.
    pub open spec fn restored(self, new: TomlEditor, body: InputView) -> bool {
        &&& new.wf()
        &&& new.body() == body
        &&& new == (TomlEditor {
            text: new.text,
            cursor: new.cursor,
            selection_anchor: new.selection_anchor,
            undo_stack: new.undo_stack,
            redo_stack: new.redo_stack,
            dirty: body.chars != self.saved_text@,
            preferred_column: None,
            follow_cursor: true,
            revision: next_revision(self.revision),
            ..self
        })
    }

    /// Whether `new` is this editor with the last edit taken back.
    pub open spec fn undone(self, new: TomlEditor) -> bool {
        if self.undo_stack@.len() == 0 {
            new == self
        } else {
            &&& self.restored(new, self.undo_view().last())
            &&& new.undo_view() == self.undo_view().drop_last()
            &&& new.redo_view() == bounded(self.redo_view().push(self.body()))
        }
    }

    /// Whether `new` is this editor with the last undone edit brought back.
    pub open spec fn redone(self, new: TomlEditor) -> bool {
        if self.redo_stack@.len() == 0 {
            new == self
        } else {
            &&& self.restored(new, self.redo_view().last())
            &&& new.redo_view() == self.redo_view().drop_last()
            &&& new.undo_view() == bounded(self.undo_view().push(self.body()))
        }
    }

    /// Takes back the last edit; tells whether there was one.
    pub fn undo(&mut self) -> (r: bool)
        requires
            old(self).wf(),
        ensures
            r == (old(self).undo_stack@.len() > 0),
            old(self).undone(*final(self)),
    {
        let ghost entries = self.undo_stack@;
        if self.undo_stack.len() == 0 {
            return false;
        }
        match self.undo_stack.pop() {
            Some(snapshot) => {
                assert(entries.last() == snapshot);
                assert(entries[entries.len() - 1].wf());
                assert(history_view(entries).last() == snapshot@);
                assert(history_view(self.undo_stack@) =~= history_view(entries).drop_last());
                let current = self.snapshot();
                push_history(&mut self.redo_stack, current);
                self.restore_snapshot(snapshot);
                true
            },
            None => false,
        }
    }

    /// Brings back the edit that was taken back last; tells whether there was one.
    pub fn redo(&mut self) -> (r: bool)
        requires
            old(self).wf(),
        ensures
            r == (old(self).redo_stack@.len() > 0),
            old(self).redone(*final(self)),
    {
        let ghost entries = self.redo_stack@;
        if self.redo_stack.len() == 0 {
            return false;
        }
        match self.redo_stack.pop() {
            Some(snapshot) => {
                assert(entries.last() == snapshot);
                assert(entries[entries.len() - 1].wf());
                assert(history_view(entries).last() == snapshot@);
                assert(history_view(self.redo_stack@) =~= history_view(entries).drop_last());
                let current = self.snapshot();
                push_history(&mut self.undo_stack, current);
                self.restore_snapshot(snapshot);
                true
            },
            None => false,
        }
    }

    /// Takes the present text for the one in the file.
    pub fn mark_saved(&mut self)
        ensures
            *final(self) == (TomlEditor {
                saved_text: old(self).text,
                dirty: false,
                ..*old(self)
            }),
    {
        self.saved_text = self.text.clone();
        self.dirty = false;
    }

    pub fn toggle_vim_mode(&mut self)
        ensures
            *final(self) == (TomlEditor {
                mode: if old(self).mode == TomlEditorMode::Standard {
                    TomlEditorMode::VimNormal
                } else {
                    TomlEditorMode::Standard
                },
                vim_pending: None,
                selection_anchor: None,
                ..*old(self)
            }),
            old(self).wf() ==> final(self).wf(),
    {
        self.mode = if self.mode.is_vim() {
            TomlEditorMode::Standard
        } else {
            TomlEditorMode::VimNormal
        };
        self.vim_pending = None;
        self.selection_anchor = None;
    }

    pub fn enter_vim_mode(&mut self, mode: TomlEditorMode)
        ensures
            *final(self) == (TomlEditor {
                mode,
                vim_pending: None,
                selection_anchor: if mode == TomlEditorMode::VimVisual {
                    old(self).selection_anchor
                } else {
                    None
                },
                ..*old(self)
            }),
            old(self).wf() ==> final(self).wf(),
    {
        self.mode = mode;
        self.vim_pending = None;
        if !matches!(mode, TomlEditorMode::VimVisual) {
            self.selection_anchor = None;
        }
    }

    /// Byte offsets of the start and end of each line.
    pub fn line_ranges(&self) -> (r: Vec<(usize, usize)>)
        ensures
            r@.len() == line_spans(self.text@).len(),
            forall|i: int|
                0 <= i < r@.len() ==> is_byte_span(
                    self.text@,
                    line_spans(self.text@)[i],
                    #[trigger] r@[i],
                ),
    {
        let chars = chars_of(self.text.as_str());
        let last: usize = number_of_line(&chars, chars.len());
        let mut ranges: Vec<(usize, usize)> = Vec::new();
        let mut n: usize = 0;
        let mut start: usize = 0;
        let mut done = false;
        while !done
            invariant
                chars@ == self.text@,
                chars@.len() == chars.len(),
                last == last_line(self.text@),
                !done ==> n <= last && start <= chars@.len() && start == nth_line_start(
                    self.text@,
                    n as nat,
                ),
                done ==> n == last,
                ranges@.len() == n + if done {
                    1int
                } else {
                    0
                },
                forall|i: int|
                    0 <= i < ranges@.len() ==> is_byte_span(
                        self.text@,
                        line_spans(self.text@)[i],
                        #[trigger] ranges@[i],
                    ),
            decreases
                last - n + if done {
                    0int
                } else {
                    1
                },
        {
            let end: usize = end_of_line(&chars, start);
            ranges.push(
                (byte_offset(self.text.as_str(), start), byte_offset(self.text.as_str(), end)),
            );
            assert(line_spans(self.text@)[n as int] == (start as int, end as int));
            assert(is_byte_span(
                self.text@,
                line_spans(self.text@)[n as int],
                ranges@[n as int],
            ));
            if n == last {
                done = true;
            } else {
                proof {
                    lemma_nth_line_start(self.text@, n as nat);
                    lemma_nth_line_start(self.text@, (n + 1) as nat);
                }
                start = end + 1;
                n += 1;
            }
        }
        ranges
    }

    /// Byte offsets of the selection, where there is one.
    pub fn selection(&self) -> (r: Option<(usize, usize)>)
        requires
            self.wf(),
        ensures
            r is Some <==> self.body().selection() is Some,
            r matches Some((from, to)) ==> {
                &&& is_boundary(self.text@, from as int)
                &&& is_boundary(self.text@, to as int)
                &&& self.body().selection() == Some(
                    (char_index(self.text@, from as int), char_index(self.text@, to as int)),
                )
                &&& from < to
            },
    {
        proof {
            self.lemma_body();
        }
        match self.selection_anchor {
            Some(anchor) => if anchor < self.cursor {
                Some((anchor, self.cursor))
            } else if self.cursor < anchor {
                Some((self.cursor, anchor))
            } else {
                None
            },
            None => None,
        }
    }

    /// The selected characters, by position.
    fn selected_span(&self) -> (r: Option<(usize, usize)>)
        requires
            self.wf(),
        ensures
            r is Some <==> self.body().selection() is Some,
            r matches Some((from, to)) ==> {
                &&& self.body().selection() == Some((from as int, to as int))
                &&& from < to <= self.text@.len()
            },
    {
        proof {
            self.lemma_body();
        }
        match self.selection() {
            Some((from, to)) => Some(
                (
                    char_position(self.text.as_str(), from),
                    char_position(self.text.as_str(), to),
                ),
            ),
            None => None,
        }
    }

    pub fn selected_text(&self) -> (r: Option<&str>)
        requires
            self.wf(),
        ensures
            r is Some <==> self.body().selection() is Some,
            r matches Some(text) ==> text@ == self.body().selected(),
    {
        match self.selected_span() {
            Some((from, to)) => Some(slice(self.text.as_str(), from, to)),
            None => None,
        }
    }

    pub fn clear_selection(&mut self)
        ensures
            *final(self) == (TomlEditor { selection_anchor: None, ..*old(self) }),
            old(self).wf() ==> final(self).wf(),
    {
        self.selection_anchor = None;
    }

    pub fn select_all(&mut self)
        requires
            old(self).wf(),
        ensures
            old(self).placed(*final(self), old(self).body().everything_selected(), None),
    {
        proof {
            lemma_ends_are_boundaries(self.text@);
        }
        self.selection_anchor = if self.text.as_str().is_empty() {
            None
        } else {
            Some(0)
        };
        self.cursor = byte_length(self.text.as_str());
        self.preferred_column = None;
        self.follow_cursor = true;
    }

    /// Line and column of the cursor.
    pub fn cursor_line_column(&self) -> (r: (usize, usize))
        requires
            self.wf(),
        ensures
            r.0 == line_number(self.text@, self.body().at),
            r.0 <= last_line(self.text@),
            r.1 == column_of(self.text@, self.body().at),
    {
        let chars = chars_of(self.text.as_str());
        let at: usize = self.at();
        proof {
            lemma_line_number_grows(self.text@, at as int, self.text@.len() as int);
        }
        (number_of_line(&chars, at), column_at(self.text.as_str(), &chars, at))
    }

    /// Byte offset of the position in line `line` that is nearest to `column`.
    pub fn byte_at_column(&self, line: usize, column: usize) -> (r: usize)
        ensures
            is_boundary(self.text@, r as int),
            char_index(self.text@, r as int) == at_column(self.text@, line as nat, column as int),
    {
        let chars = chars_of(self.text.as_str());
        let position: usize = position_in_line(&chars, line, column);
        byte_offset(self.text.as_str(), position)
    }

    /// Moves the cursor to the byte offset `target`.
    pub fn move_to(&mut self, target: usize, extend_selection: bool)
        requires
            old(self).wf(),
            is_boundary(old(self).text@, target as int),
        ensures
            old(self).placed(
                *final(self),
                old(self).body().moved(
                    char_index(old(self).text@, target as int),
                    extend_selection,
                ),
                old(self).preferred_column,
            ),
    {
        proof {
            self.lemma_body();
            lemma_char_index_order(self.text@, target as int, self.cursor as int);
            if let Some(a) = self.selection_anchor {
                lemma_char_index_order(self.text@, target as int, a as int);
            }
        }
        if extend_selection {
            if self.selection_anchor.is_none() {
                self.selection_anchor = Some(self.cursor);
            }
        } else {
            self.selection_anchor = None;
        }
        self.cursor = target;
        self.follow_cursor = true;
        if let Some(anchor) = self.selection_anchor {
            if anchor == self.cursor {
                self.selection_anchor = None;
            }
        }
    }

    /// Moves the cursor to position `at`, counted in characters.
    fn move_to_position(&mut self, at: usize, extend_selection: bool)
        requires
            old(self).wf(),
            at <= old(self).text@.len(),
        ensures
            old(self).placed(
                *final(self),
                old(self).body().moved(at as int, extend_selection),
                None,
            ),
    {
        self.preferred_column = None;
        let target: usize = byte_offset(self.text.as_str(), at);
        self.move_to(target, extend_selection);
    }

    pub fn move_left(&mut self, extend_selection: bool)
        requires
            old(self).wf(),
        ensures
            old(self).placed(*final(self), old(self).body().left(extend_selection), None),
    {
        proof {
            self.lemma_body();
        }
        if !extend_selection {
            if let Some((start, _)) = self.selected_span() {
                self.move_to_position(start, false);
                return;
            }
        }
        let at: usize = self.at();
        let target: usize = if at == 0 {
            0
        } else {
            at - 1
        };
        self.move_to_position(target, extend_selection);
    }

    pub fn move_right(&mut self, extend_selection: bool)
        requires
            old(self).wf(),
        ensures
            old(self).placed(*final(self), old(self).body().right(extend_selection), None),
    {
        proof {
            self.lemma_body();
        }
        if !extend_selection {
            if let Some((_, end)) = self.selected_span() {
                self.move_to_position(end, false);
                return;
            }
        }
        let at: usize = self.at();
        let target: usize = if at == char_count(self.text.as_str()) {
            at
        } else {
            at + 1
        };
        self.move_to_position(target, extend_selection);
    }

    /// The column that vertical movement keeps to.
    pub open spec fn kept_column(self) -> int {
        match self.preferred_column {
            Some(column) => column as int,
            None => column_of(self.text@, self.body().at) as int,
        }
    }

    /// Moves `delta` lines down, as near to the kept column as the line allows.
    pub fn move_vertical(&mut self, delta: isize, extend_selection: bool)
        requires
            old(self).wf(),
        ensures
            ({
                let s = old(self).text@;
                let line = shifted(line_number(s, old(self).body().at) as int, delta as int);
                old(self).placed(
                    *final(self),
                    old(self).body().moved(
                        at_column(s, line as nat, old(self).kept_column()),
                        extend_selection,
                    ),
                    Some(old(self).kept_column() as usize),
                )
            }),
    {
        let (line, column) = self.cursor_line_column();
        let column: usize = match self.preferred_column {
            Some(kept) => kept,
            None => column,
        };
        self.preferred_column = Some(column);
        let target_line: usize = add_signed(line, delta);
        let target: usize = self.byte_at_column(target_line, column);
        self.move_to(target, extend_selection);
    }

    pub fn move_home(&mut self, document: bool, extend_selection: bool)
        requires
            old(self).wf(),
        ensures
            old(self).placed(
                *final(self),
                old(self).body().moved(
                    if document {
                        0
                    } else {
                        line_start(old(self).text@, old(self).body().at)
                    },
                    extend_selection,
                ),
                None,
            ),
    {
        let target: usize = if document {
            0
        } else {
            start_of_line(&chars_of(self.text.as_str()), self.at())
        };
        self.move_to_position(target, extend_selection);
    }

    pub fn move_end(&mut self, document: bool, extend_selection: bool)
        requires
            old(self).wf(),
        ensures
            old(self).placed(
                *final(self),
                old(self).body().moved(
                    if document {
                        old(self).text@.len() as int
                    } else {
                        line_end(old(self).text@, old(self).body().at)
                    },
                    extend_selection,
                ),
                None,
            ),
    {
        let target: usize = if document {
            char_count(self.text.as_str())
        } else {
            end_of_line(&chars_of(self.text.as_str()), self.at())
        };
        self.move_to_position(target, extend_selection);
    }

    pub fn move_word_forward(&mut self, extend_selection: bool)
        requires
            old(self).wf(),
        ensures
            old(self).body().at == old(self).text@.len() ==> *final(self) == *old(self),
            old(self).body().at != old(self).text@.len() ==> old(self).placed(
                *final(self),
                old(self).body().moved(
                    next_word(old(self).text@, old(self).body().at),
                    extend_selection,
                ),
                None,
            ),
    {
        let chars = chars_of(self.text.as_str());
        let at: usize = self.at();
        if at == chars.len() {
            return;
        }
        let class: u8 = vim_word_class(chars[at]);
        let mut target: usize = end_of_class(&chars, at, class);
        if class != 0 {
            target = end_of_class(&chars, target, 0);
        }
        self.move_to_position(target, extend_selection);
    }

    pub fn move_word_backward(&mut self, extend_selection: bool)
        requires
            old(self).wf(),
        ensures
            old(self).body().at == 0 ==> *final(self) == *old(self),
            old(self).body().at != 0 ==> old(self).placed(
                *final(self),
                old(self).body().moved(
                    previous_word(old(self).text@, old(self).body().at),
                    extend_selection,
                ),
                if class_start(old(self).text@, old(self).body().at, 0) == 0 {
                    old(self).preferred_column
                } else {
                    None
                },
            ),
    {
        let chars = chars_of(self.text.as_str());
        let at: usize = self.at();
        if at == 0 {
            return;
        }
        let end: usize = start_of_class(&chars, at, 0);
        if end == 0 {
            proof {
                lemma_ends_are_boundaries(self.text@);
            }
            self.move_to(0, extend_selection);
            return;
        }
        let class: u8 = vim_word_class(chars[end - 1]);
        let target: usize = start_of_class(&chars, end, class);
        self.move_to_position(target, extend_selection);
    }

    pub fn select_current_line(&mut self)
        requires
            old(self).wf(),
        ensures
            old(self).placed(
                *final(self),
                (InputView {
                    at: line_end(old(self).text@, old(self).body().at),
                    anchor: Some(line_start(old(self).text@, old(self).body().at)),
                    ..old(self).body()
                }),
                None,
            ),
    {
        let chars = chars_of(self.text.as_str());
        let at: usize = self.at();
        self.selection_anchor = Some(byte_offset(self.text.as_str(), start_of_line(&chars, at)));
        self.cursor = byte_offset(self.text.as_str(), end_of_line(&chars, at));
        self.preferred_column = None;
        self.follow_cursor = true;
    }

    /// What the register holds after the line of the cursor went there.
    pub open spec fn line_text(self) -> Seq<char> {
        self.text@.subrange(
            line_start(self.text@, self.body().at),
            line_end(self.text@, self.body().at),
        ).push('\n')
    }

    pub fn vim_yank_current_line(&mut self)
        requires
            old(self).wf(),
        ensures
            final(self).wf(),
            final(self).vim_register@ == old(self).line_text(),
            *final(self) == (TomlEditor {
                vim_register: final(self).vim_register,
                vim_register_linewise: true,
                ..*old(self)
            }),
    {
        let chars = chars_of(self.text.as_str());
        let at: usize = self.at();
        let start: usize = start_of_line(&chars, at);
        let end: usize = end_of_line(&chars, at);
        let mut register = slice(self.text.as_str(), start, end).to_owned();
        push_char(&mut register, '\n');
        self.vim_register = register;
        self.vim_register_linewise = true;
    }

    /// Puts the selection into the register; tells whether there was one.
    pub fn vim_yank_selection(&mut self) -> (r: bool)
        requires
            old(self).wf(),
        ensures
            final(self).wf(),
            r == (old(self).body().selection() is Some),
            !r ==> *final(self) == *old(self),
            r ==> final(self).vim_register@ == old(self).body().selected(),
            r ==> *final(self) == (TomlEditor {
                vim_register: final(self).vim_register,
                vim_register_linewise: false,
                mode: TomlEditorMode::VimNormal,
                vim_pending: None,
                selection_anchor: None,
                ..*old(self)
            }),
    {
        let selected = match self.selected_text() {
            Some(text) => text.to_owned(),
            None => {
                return false;
            },
        };
        self.vim_register = selected;
        self.vim_register_linewise = false;
        self.enter_vim_mode(TomlEditorMode::VimNormal);
        true
    }

    /// Replaces the text between two positions within one edit and puts the
    /// cursor behind it.
    fn replace(&mut self, from: usize, to: usize, text: &str)
        requires
            old(self).wf(),
            from <= to <= old(self).text@.len(),
        ensures
            final(self).text@ == old(self).text@.take(from as int) + text@ + old(self).text@.skip(
                to as int,
            ),
            is_boundary(final(self).text@, final(self).cursor as int),
            char_index(final(self).text@, final(self).cursor as int) == from + text@.len(),
            *final(self) == (TomlEditor {
                text: final(self).text,
                cursor: final(self).cursor,
                ..*old(self)
            }),
            is_boundary(final(self).text@, byte_len(old(self).text@.take(from as int)) as int),
    {
        let ghost chars = self.text@;
        let length: usize = char_count(self.text.as_str());
        let mut new = slice(self.text.as_str(), 0, from).to_owned();
        new.append(text);
        let behind: usize = char_count(new.as_str());
        new.append(slice(self.text.as_str(), to, length));
        assert(new@ =~= chars.take(from as int) + text@ + chars.skip(to as int));
        self.text = new;
        self.cursor = byte_offset(self.text.as_str(), behind);
        proof {
            lemma_char_index(self.text@, from as int);
            assert(self.text@.take(from as int) =~= chars.take(from as int));
        }
    }

    /// Takes out the line of the cursor and keeps it in the register.
    pub fn vim_delete_current_line(&mut self)
        requires
            old(self).wf(),
        ensures
            final(self).wf(),
            final(self).vim_register@ == old(self).line_text(),
            ({
                let yanked = TomlEditor {
                    vim_register: final(self).vim_register,
                    vim_register_linewise: true,
                    ..*old(self)
                };
                let s = old(self).text@;
                let (from, to) = whole_line(s, old(self).body().at);
                if from == to {
                    *final(self) == yanked
                } else {
                    yanked.edited(
                        *final(self),
                        old(self).body(),
                        s.take(from) + s.skip(to),
                        from,
                        None,
                    )
                }
            }),
    {
        let chars = chars_of(self.text.as_str());
        let at: usize = self.at();
        let start: usize = start_of_line(&chars, at);
        let end: usize = end_of_line(&chars, at);
        let mut register = slice(self.text.as_str(), start, end).to_owned();
        push_char(&mut register, '\n');
        self.vim_register = register;
        self.vim_register_linewise = true;
        let (from, to): (usize, usize) = if end < chars.len() {
            (start, end + 1)
        } else if start > 0 {
            (start - 1, end)
        } else {
            (start, end)
        };
        if from == to {
            return;
        }
        let ghost s = self.text@;
        self.begin_edit();
        self.replace(from, to, "");
        proof {
            reveal_strlit("");
            assert(s.take(from as int) + ""@ + s.skip(to as int) =~= s.take(from as int) + s.skip(
                to as int,
            ));
        }
        self.selection_anchor = None;
        self.finish_edit();
    }

    /// Takes out the selection; tells whether there was one.
    fn delete_selection(&mut self) -> (r: bool)
        requires
            old(self).wf(),
        ensures
            final(self).wf(),
            final(self).body() == old(self).body().unselected(),
            r == (old(self).body().selection() is Some),
            *final(self) == (TomlEditor {
                text: final(self).text,
                cursor: final(self).cursor,
                selection_anchor: old(self).anchor_left(),
                ..*old(self)
            }),
            !r ==> *final(self) == *old(self),
    {
        proof {
            self.lemma_body();
        }
        match self.selected_span() {
            Some((from, to)) => {
                let ghost s = self.text@;
                self.replace(from, to, "");
                self.selection_anchor = None;
                proof {
                    reveal_strlit("");
                    assert(self.text@ =~= s.take(from as int) + s.skip(to as int));
                }
                true
            },
            None => false,
        }
    }

    /// Takes out the selection within an edit and keeps it in the register;
    /// tells whether there was one.
    pub fn vim_delete_selection(&mut self, insert_after: bool) -> (r: bool)
        requires
            old(self).wf(),
        ensures
            final(self).wf(),
            r == (old(self).body().selection() is Some),
            !r ==> *final(self) == *old(self),
            r ==> {
                let body = old(self).body();
                let after = body.unselected();
                &&& final(self).vim_register@ == old(self).body().selected()
                &&& (TomlEditor {
                    vim_register: final(self).vim_register,
                    vim_register_linewise: false,
                    mode: if insert_after {
                        TomlEditorMode::VimInsert
                    } else {
                        TomlEditorMode::VimNormal
                    },
                    vim_pending: None,
                    ..*old(self)
                }).edited(*final(self), body, after.chars, after.at, None)
            },
    {
        let selected = match self.selected_text() {
            Some(text) => text.to_owned(),
            None => {
                return false;
            },
        };
        self.vim_register = selected;
        self.vim_register_linewise = false;
        self.begin_edit();
        let _ = self.delete_selection();
        self.finish_edit();
        self.enter_vim_mode(
            if insert_after {
                TomlEditorMode::VimInsert
            } else {
                TomlEditorMode::VimNormal
            },
        );
        true
    }

    /// Puts `text` in place of the selection, with line feeds for all line
    /// breaks; an empty text changes nothing.
    pub fn insert_text(&mut self, text: &str)
        requires
            old(self).wf(),
        ensures
            final(self).wf(),
            text@.len() == 0 ==> *final(self) == *old(self),
            text@.len() > 0 ==> {
                let after = old(self).body().typed(unix_newlines(text@));
                old(self).edited(
                    *final(self),
                    old(self).body(),
                    after.chars,
                    after.at,
                    old(self).anchor_left(),
                )
            },
    {
        let normalized = normalize_newlines(text);
        if normalized.as_str().is_empty() {
            return;
        }
        self.begin_edit();
        let _ = self.delete_selection();
        proof {
            self.lemma_body();
        }
        let at: usize = self.at();
        self.replace(at, at, normalized.as_str());
        self.finish_edit();
    }

    /// Puts the register behind the cursor, or behind its line.
    pub fn vim_paste(&mut self)
        requires
            old(self).wf(),
        ensures
            final(self).wf(),
            old(self).vim_register@.len() == 0 ==> *final(self) == *old(self),
            old(self).vim_register@.len() > 0 ==> {
                let body = old(self).body();
                let s = body.chars;
                let register = old(self).vim_register@;
                let end = line_end(s, body.at);
                let (from, text) = if !old(self).vim_register_linewise {
                    (body.right(false), register)
                } else if end < s.len() {
                    (InputView { at: end + 1, anchor: None, ..body }, register)
                } else {
                    (
                        InputView { at: end, anchor: None, ..body },
                        seq!['\n'] + drop_trailing(register, is_char('\n')),
                    )
                };
                let after = from.typed(unix_newlines(text));
                (TomlEditor {
                    mode: TomlEditorMode::VimNormal,
                    vim_pending: None,
                    ..*old(self)
                }).edited(*final(self), from, after.chars, after.at, None)
            },
    {
        if self.vim_register.as_str().is_empty() {
            return;
        }
        let register = self.vim_register.clone();
        if self.vim_register_linewise {
            let chars = chars_of(self.text.as_str());
            let at: usize = self.at();
            let end: usize = end_of_line(&chars, at);
            self.selection_anchor = None;
            if end < chars.len() {
                self.cursor = byte_offset(self.text.as_str(), end + 1);
                self.insert_text(register.as_str());
            } else {
                self.cursor = byte_offset(self.text.as_str(), end);
                let mut text = String::new();
                push_char(&mut text, '\n');
                text.append(trim_end_matches(register.as_str(), '\n'));
                assert(text@ =~= seq!['\n'] + drop_trailing(register@, is_char('\n')));
                self.insert_text(text.as_str());
            }
        } else {
            self.move_right(false);
            self.insert_text(register.as_str());
        }
        self.enter_vim_mode(TomlEditorMode::VimNormal);
    }

    /// Takes out the selection, or else the character before the cursor. An empty
    /// selection right at the cursor keeps its byte offset, and is given up where
    /// that no longer lies between characters.
    pub fn backspace(&mut self)
        requires
            old(self).wf(),
        ensures
            final(self).wf(),
            old(self).body().selection() is None && old(self).body().at == 0 ==> *final(self) == (
            TomlEditor { preferred_column: None, ..*old(self) }),
            old(self).body().selection() is Some || old(self).body().at != 0 ==> {
                let after = old(self).body().erased_before();
                old(self).edited(
                    *final(self),
                    old(self).body(),
                    after.chars,
                    after.at,
                    old(self).anchor_left_in(after.chars),
                )
            },
    {
        proof {
            self.lemma_body();
        }
        self.preferred_column = None;
        if self.selected_span().is_some() {
            self.begin_edit();
            let _ = self.delete_selection();
            self.finish_edit();
            return;
        }
        let at: usize = self.at();
        if at == 0 {
            return;
        }
        let ghost s = self.text@;
        self.begin_edit();
        self.replace(at - 1, at, "");
        proof {
            reveal_strlit("");
            assert(self.text@ =~= s.take(at - 1) + s.skip(at as int));
        }
        if let Some(anchor) = self.selection_anchor {
            if !at_boundary(self.text.as_str(), anchor) {
                self.selection_anchor = None;
            }
        }
        self.finish_edit();
    }

    /// Takes out the selection, or else the character behind the cursor.
    pub fn delete(&mut self)
        requires
            old(self).wf(),
        ensures
            final(self).wf(),
            old(self).body().selection() is None && old(self).body().at == old(self).text@.len()
                ==> *final(self) == (TomlEditor { preferred_column: None, ..*old(self) }),
            old(self).body().selection() is Some || old(self).body().at != old(self).text@.len()
                ==> {
                let after = old(self).body().erased_after();
                old(self).edited(
                    *final(self),
                    old(self).body(),
                    after.chars,
                    after.at,
                    old(self).anchor_left(),
                )
            },
    {
        proof {
            self.lemma_body();
        }
        self.preferred_column = None;
        if self.selected_span().is_some() {
            self.begin_edit();
            let _ = self.delete_selection();
            self.finish_edit();
            return;
        }
        let at: usize = self.at();
        if at == char_count(self.text.as_str()) {
            return;
        }
        let ghost s = self.text@;
        self.begin_edit();
        self.replace(at, at + 1, "");
        proof {
            reveal_strlit("");
            assert(self.text@ =~= s.take(at as int) + s.skip(at + 1));
        }
        self.finish_edit();
    }

    /// Where the lines that toggling comments works on start and end: those of
    /// the selection, without the one that only its end touches, or the line of
    /// the cursor.
    pub open spec fn comment_span(self) -> (int, int) {
        let s = self.text@;
        match self.body().selection() {
            Some((from, to)) => (line_start(s, from), line_end(s, to - 1)),
            None => (line_start(s, self.body().at), line_end(s, self.body().at)),
        }
    }

    /// The lines that toggling comments works on.
    pub open spec fn comment_block(self) -> Seq<char> {
        self.text@.subrange(self.comment_span().0, self.comment_span().1)
    }

    /// What toggling comments does, if it does anything.
    pub open spec fn comment_action(self) -> Option<TomlCommentAction> {
        let lines = split_on(self.comment_block(), '\n');
        if block_untouched(lines) {
            None
        } else if block_commented(lines) {
            Some(TomlCommentAction::Uncommented)
        } else {
            Some(TomlCommentAction::Commented)
        }
    }

    /// Whether `new` is this editor with the comments of its lines toggled.
    pub open spec fn comments_toggled(self, new: TomlEditor) -> bool {
        let block = self.comment_block();
        if block_untouched(split_on(block, '\n')) {
            new == self
        } else {
            let s = self.text@;
            let body = self.body();
            let (from, to) = self.comment_span();
            let end = from + toggled_block(block).len();
            let chars = s.take(from) + toggled_block(block) + s.skip(to);
            &&& new.wf()
            &&& self.edited(
                new,
                body,
                chars,
                match body.anchor {
                    Some(a) => if a <= body.at {
                        end
                    } else {
                        from
                    },
                    None => cursor_after_toggle(block, from, body.at),
                },
                match body.anchor {
                    Some(a) => Some(
                        byte_len(
                            chars.take(
                                if a <= body.at {
                                    from
                                } else {
                                    end
                                },
                            ),
                        ) as usize,
                    ),
                    None => None,
                },
            )
            &&& new.body().anchor == match body.anchor {
                Some(a) => Some(
                    if a <= body.at {
                        from
                    } else {
                        end
                    },
                ),
                None => None,
            }
        }
    }

    /// Comments the selected lines, or takes their comments out; tells which.
    pub fn toggle_line_comments(&mut self) -> (r: Option<TomlCommentAction>)
        requires
            old(self).wf(),
        ensures
            final(self).wf(),
            r == old(self).comment_action(),
            old(self).comments_toggled(*final(self)),
    {
        proof {
            self.lemma_body();
        }
        let ghost s = self.text@;
        let chars = chars_of(self.text.as_str());
        let at: usize = self.at();
        let (first, probe): (usize, usize) = match self.selected_span() {
            Some((start, end)) => (start, end - 1),
            None => (at, at),
        };
        let from: usize = start_of_line(&chars, first);
        let to: usize = end_of_line(&chars, probe);
        proof {
            lemma_line_start(s, first as int);
            lemma_line_end(s, probe as int);
        }
        let block = slice(self.text.as_str(), from, to).to_owned();
        assert(block@ == self.comment_block());
        let (text, action) = match toggle_block(block.as_str()) {
            Some(toggled) => toggled,
            None => {
                return None;
            },
        };
        let length: usize = chars.len();
        let new = join3(
            slice(self.text.as_str(), 0, from),
            text.as_str(),
            slice(self.text.as_str(), to, length),
        );
        let total: usize = char_count(new.as_str());
        let end: usize = from + char_count(text.as_str());
        assert(s.subrange(0, from as int) =~= s.take(from as int));
        assert(s.subrange(to as int, s.len() as int) =~= s.skip(to as int));
        match self.selection_anchor {
            Some(anchor) => {
                let ahead = char_position(self.text.as_str(), anchor) <= at;
                if ahead {
                    self.put_text(new, end, Some(from));
                } else {
                    self.put_text(new, from, Some(end));
                }
            },
            None => {
                proof {
                    lemma_single_line_block(s, at as int);
                }
                let mapped: usize = toggled_cursor(block.as_str(), from, at);
                self.put_text(new, mapped, None);
            },
        }
        Some(action)
    }

    /// Puts `text` in place within one edit, with the cursor and the other end
    /// of the selection at the given positions.
    fn put_text(&mut self, text: String, at: usize, anchor: Option<usize>)
        requires
            old(self).wf(),
            at <= text@.len(),
            anchor matches Some(a) ==> a <= text@.len(),
        ensures
            final(self).wf(),
            old(self).edited(
                *final(self),
                old(self).body(),
                text@,
                at as int,
                match anchor {
                    Some(a) => Some(byte_len(text@.take(a as int)) as usize),
                    None => None,
                },
            ),
            final(self).body().anchor == match anchor {
                Some(a) => Some(a as int),
                None => None,
            },
    {
        proof {
            if let Some(a) = anchor {
                lemma_char_index(text@, a as int);
            }
        }
        self.begin_edit();
        self.cursor = byte_offset(text.as_str(), at);
        self.selection_anchor = match anchor {
            Some(a) => Some(byte_offset(text.as_str(), a)),
            None => None,
        };
        self.text = text;
        self.finish_edit();
    }

    /// Where a view of `size` lines or columns has to start so that position
    /// `at` is seen, from `scroll` on.
    pub open spec fn scrolled_to(scroll: int, at: int, size: int) -> int {
        if at < scroll {
            at
        } else if at >= scroll + size {
            at + 1 - size
        } else {
            scroll
        }
    }

    /// Scrolls so that the cursor is seen in a view of `height` lines and
    /// `width` columns.
    pub fn ensure_cursor_visible(&mut self, height: usize, width: usize)
        requires
            old(self).wf(),
        ensures
            final(self).wf(),
            height == 0 || width == 0 ==> *final(self) == *old(self),
            height > 0 && width > 0 ==> {
                let at = old(self).body().at;
                *final(self) == (TomlEditor {
                    scroll_y: Self::scrolled_to(
                        old(self).scroll_y as int,
                        line_number(old(self).text@, at) as int,
                        height as int,
                    ) as usize,
                    scroll_x: Self::scrolled_to(
                        old(self).scroll_x as int,
                        column_of(old(self).text@, at) as int,
                        width as int,
                    ) as usize,
                    ..*old(self)
                })
            },
    {
        if height == 0 || width == 0 {
            return;
        }
        let (line, column) = self.cursor_line_column();
        if line < self.scroll_y {
            self.scroll_y = line;
        } else if line - self.scroll_y >= height {
            self.scroll_y = line - height + 1;
        }
        if column < self.scroll_x {
            self.scroll_x = column;
        } else if column - self.scroll_x >= width {
            self.scroll_x = column - width + 1;
        }
    }

    /// The first line of the last full view of `height` lines.
    pub open spec fn last_scroll(self, height: usize) -> int {
        let rows = if height == 0 {
            1
        } else {
            height as int
        };
        if last_line(self.text@) + 1 > rows {
            last_line(self.text@) + 1 - rows
        } else {
            0
        }
    }

    /// Scrolls by `delta` lines, away from the cursor if need be.
    pub fn scroll_vertical(&mut self, delta: isize, height: usize)
        ensures
            ({
                let target = shifted(old(self).scroll_y as int, delta as int);
                let last = old(self).last_scroll(height);
                *final(self) == (TomlEditor {
                    scroll_y: if target <= last {
                        target
                    } else {
                        last
                    } as usize,
                    follow_cursor: false,
                    ..*old(self)
                })
            }),
            old(self).wf() ==> final(self).wf(),
    {
        let chars = chars_of(self.text.as_str());
        let last: usize = number_of_line(&chars, chars.len());
        let rows: usize = larger(height, 1);
        let limit: usize = last.saturating_sub(rows - 1);
        self.scroll_y = smaller(add_signed(self.scroll_y, delta), limit);
        self.follow_cursor = false;
    }
}

impl TomlEditor {
    /// Colours the text anew where it has changed since it was coloured.
    pub fn refresh_highlights(&mut self)
        ensures
            old(self).highlighted_revision == old(self).revision ==> *final(self) == *old(self),
            old(self).highlighted_revision != old(self).revision ==> {
                &&& final(self).highlights@ == colours(old(self).text@)
                &&& highlights_cover(final(self).text@, final(self).highlights@)
                &&& *final(self) == (TomlEditor {
                    highlights: final(self).highlights,
                    highlighted_revision: old(self).revision,
                    ..*old(self)
                })
            },
            old(self).wf() ==> final(self).wf(),
    {
        if self.highlighted_revision == self.revision {
            return;
        }
        self.highlights = toml_highlights(self.text.as_str());
        self.highlighted_revision = self.revision;
    }
}

/// One edit, taken back and made again: undoing brings back what the edit found,
/// redoing brings back what the edit made of it, and each time the text is held
/// to differ from the file exactly where it does.
pub proof fn law_undo_and_redo_restore(
    before: TomlEditor,
    edited: TomlEditor,
    undone: TomlEditor,
    redone: TomlEditor,
    found: InputView,
    chars: Seq<char>,
    at: int,
    anchor: Option<usize>,
)
    requires
        before.edited(edited, found, chars, at, anchor),
        edited.undone(undone),
        undone.redone(redone),
    ensures
        edited.undo_stack@.len() > 0,
        undone.body() == found,
        undone.saved_text == before.saved_text,
        undone.dirty == (undone.text@ != undone.saved_text@),
        undone.redo_stack@.len() > 0,
        redone.body() == edited.body(),
        redone.saved_text == before.saved_text,
        redone.dirty == (redone.text@ != redone.saved_text@),
{
    law_history_is_bounded(before.undo_view().push(found));
    law_history_is_bounded(edited.redo_view().push(edited.body()));
    assert(undone.body().chars == undone.text@);
    assert(redone.body().chars == redone.text@);
}

/// After an edit there is something to undo and nothing to redo: redoing then
/// leaves everything as it is.
pub proof fn law_an_edit_clears_redo(
    before: TomlEditor,
    edited: TomlEditor,
    redone: TomlEditor,
    found: InputView,
    chars: Seq<char>,
    at: int,
    anchor: Option<usize>,
)
    requires
        before.edited(edited, found, chars, at, anchor),
        edited.redone(redone),
    ensures
        edited.redo_stack@.len() == 0,
        redone == edited,
        0 < edited.undo_stack@.len() <= TOML_HISTORY_LIMIT,
        edited.undo_stack@.len() <= 1 || history_bytes(edited.undo_view())
            <= TOML_HISTORY_BYTE_LIMIT,
{
    law_history_is_bounded(before.undo_view().push(found));
}

/// Where nothing was edited yet, undoing leaves everything as it is.
pub proof fn law_nothing_to_undo(editor: TomlEditor, undone: TomlEditor)
    requires
        editor.undo_stack@.len() == 0,
        editor.undone(undone),
    ensures
        undone == editor,
{
}

/// Toggling the comments of lines, and then those of what came out, gives the
/// text back where the first time put comments in; the second time takes them
/// out.
pub proof fn law_commenting_twice_gives_the_text_back(
    before: TomlEditor,
    once: TomlEditor,
    twice: TomlEditor,
)
    requires
        before.wf(),
        before.comment_action() == Some(TomlCommentAction::Commented),
        before.comments_toggled(once),
        once.comments_toggled(twice),
    ensures
        once.comment_action() == Some(TomlCommentAction::Uncommented),
        twice.text@ == before.text@,
{
    let s = before.text@;
    let (from, to) = before.comment_span();
    lemma_comment_span(before);
    lemma_commented_span(before, once);
    lemma_comments_taken_out(s, from, to);
    assert(once.text@ == commented_text(s, from, to));
}

/// `s` with the comments of its lines between `from` and `to` toggled.
spec fn commented_text(s: Seq<char>, from: int, to: int) -> Seq<char> {
    s.take(from) + toggled_block(s.subrange(from, to)) + s.skip(to)
}

/// Toggling the comments of lines that have just got them takes them out, with
/// or without a last line that is empty.
proof fn lemma_comments_taken_out(s: Seq<char>, from: int, to: int)
    requires
        0 <= from <= to <= s.len(),
        !block_commented(split_on(s.subrange(from, to), '\n')),
        !block_untouched(split_on(s.subrange(from, to), '\n')),
    ensures
        ({
            let t = commented_text(s, from, to);
            let end = from + toggled_block(s.subrange(from, to)).len();
            &&& block_commented(split_on(t.subrange(from, end), '\n'))
            &&& !block_untouched(split_on(t.subrange(from, end), '\n'))
            &&& commented_text(t, from, end) == s
            &&& end > from && t[end - 1] == '\n' ==> {
                &&& block_commented(split_on(t.subrange(from, end - 1), '\n'))
                &&& !block_untouched(split_on(t.subrange(from, end - 1), '\n'))
                &&& commented_text(t, from, end - 1) == s
            }
        }),
{
    let block = s.subrange(from, to);
    let made = toggled_block(block);
    let end = from + made.len();
    let t = commented_text(s, from, to);
    law_comment_then_uncomment(block);
    assert(t.subrange(from, end) =~= made);
    assert(t.take(from) =~= s.take(from));
    assert(t.skip(end) =~= s.skip(to));
    assert(s.take(from) + block + s.skip(to) =~= s);
    if made.len() > 0 && t[end - 1] == '\n' {
        let less = made.drop_last();
        assert(made.last() == t[end - 1]);
        lemma_last_line_blank(block);
        assert(t.subrange(from, end - 1) =~= less);
        assert(t.skip(end - 1) =~= seq!['\n'] + s.skip(to));
        assert(s.take(from) + toggled_block(less) + (seq!['\n'] + s.skip(to)) =~= s.take(from) + (
        toggled_block(less) + seq!['\n']) + s.skip(to));
    }
}

/// The lines that toggling works on once comments were put in: the same ones,
/// but for a last one that is empty.
proof fn lemma_commented_span(before: TomlEditor, once: TomlEditor)
    requires
        before.wf(),
        before.comment_action() == Some(TomlCommentAction::Commented),
        before.comments_toggled(once),
    ensures
        ({
            let (from, to) = before.comment_span();
            let made = toggled_block(before.comment_block());
            let end = from + made.len();
            &&& made.len() > 0
            &&& once.comment_span() == (from, end) || (once.comment_span() == (from, end - 1)
                && once.text@[end - 1] == '\n')
        }),
{
    let s = before.text@;
    let (from, to) = before.comment_span();
    let block = before.comment_block();
    let made = toggled_block(block);
    let end = from + made.len();
    let t = once.text@;
    before.lemma_body();
    once.lemma_body();
    lemma_comment_span(before);
    law_comment_then_uncomment(block);
    lemma_char_index(t, from);
    lemma_char_index(t, end);
    assert(t =~= s.take(from) + made + s.skip(to));
    assert(from == 0 || t[from - 1] == s[from - 1]);
    assert(end < t.len() ==> t[end] == s[to]);
    assert(made.len() > 0) by {
        if made.len() == 0 {
            assert(made =~= Seq::<char>::empty());
            assert(is_blank(split_on(made, '\n')[0]));
        }
    }
    if before.body().anchor is Some {
        assert(once.body().selection() == Some((from, end)));
        lemma_line_bounds(t, from, end);
    } else {
        let at = before.body().at;
        lemma_line_start(s, at);
        lemma_line_end(s, at);
        lemma_single_line_block(s, at);
        lemma_single_line_toggle(block);
        lemma_comment_line(block);
        assert(toggled_lines(split_on(block, '\n')) =~= seq![comment_line(block)]);
        assert(made == comment_line(block));
        lemma_commented_line(block);
        lemma_indent_len(block);
        assert(made.len() == block.len() + 2);
        assert forall|i: int| from <= i < end implies t[i] != '\n' by {
            assert(t[i] == made[i - from]);
        }
        lemma_line_of(t, from, end, once.body().at);
    }
}

/// The lines that toggling works on are whole ones.
proof fn lemma_comment_span(editor: TomlEditor)
    requires
        editor.wf(),
    ensures
        ({
            let s = editor.text@;
            let (from, to) = editor.comment_span();
            &&& 0 <= from <= to <= s.len()
            &&& from == 0 || s[from - 1] == '\n'
            &&& to == s.len() || s[to] == '\n'
        }),
{
    let s = editor.text@;
    editor.lemma_body();
    let (first, probe) = match editor.body().selection() {
        Some((start, end)) => (start, end - 1),
        None => (editor.body().at, editor.body().at),
    };
    lemma_line_start(s, first);
    lemma_line_end(s, probe);
}

/// The line of a position between two others without a line feed between them
/// that are the ends of a line.
proof fn lemma_line_of(s: Seq<char>, from: int, to: int, p: int)
    requires
        0 <= from <= p <= to <= s.len(),
        from == 0 || s[from - 1] == '\n',
        to == s.len() || s[to] == '\n',
        forall|i: int| from <= i < to ==> s[i] != '\n',
    ensures
        line_start(s, p) == from,
        line_end(s, p) == to,
{
    lemma_line_start(s, p);
    lemma_line_end(s, p);
    let a = line_start(s, p);
    let b = line_end(s, p);
    if a < from {
        assert(s[from - 1] != '\n');
    }
    if b > to {
        assert(s[to] != '\n');
    }
}

/// The lines of a selection of whole lines are those, but for a last one that is
/// empty.
proof fn lemma_line_bounds(s: Seq<char>, from: int, to: int)
    requires
        0 <= from < to <= s.len(),
        from == 0 || s[from - 1] == '\n',
        to == s.len() || s[to] == '\n',
    ensures
        line_start(s, from) == from,
        line_end(s, to - 1) == if s[to - 1] == '\n' {
            to - 1
        } else {
            to
        },
{
    lemma_line_start(s, from);
    lemma_line_end(s, to - 1);
    assert(line_end(s, to - 1) == if s[to - 1] == '\n' {
        to - 1
    } else {
        line_end(s, to)
    });
    assert(line_end(s, to) == to);
}

/// The cursor after the comments of its line `block` were toggled, which
/// starts at `from`: it stays where it is in the text, and goes to the start of
/// a marker that was taken out around it.
pub open spec fn cursor_after_toggle(block: Seq<char>, from: int, at: int) -> int {
    let marker = from + indent_len(block);
    let length = marker_len(content(block));
    if at < marker {
        at
    } else if !is_commented(block) {
        at + 2
    } else if at <= marker + length {
        marker
    } else {
        at - length
    }
}

/// The cursor after the comments of its line were toggled.
fn toggled_cursor(block: &str, from: usize, at: usize) -> (r: usize)
    requires
        split_on(block@, '\n').len() == 1,
        split_on(block@, '\n')[0] == block@,
        from <= at <= from + block@.len() <= usize::MAX,
        from + toggled_block(block@).len() <= usize::MAX,
    ensures
        r == cursor_after_toggle(block@, from as int, at as int),
        r <= from + toggled_block(block@).len(),
{
    proof {
        lemma_single_line_toggle(block@);
        reveal_strlit("# ");
        assert(byte_len("# "@) == 2) by {
            reveal_with_fuel(byte_len, 3);
        }
        assert(byte_len(Seq::<char>::empty()) == 0);
        reveal_with_fuel(mapped_position, 3);
        reveal_with_fuel(mappable, 3);
    }
    let chars = chars_of(block);
    let indent: usize = indentation(&chars);
    let marker: usize = from + indent;
    let edit: (usize, usize, String) = if indent < chars.len() && chars[indent] == '#' {
        assert(content(block@)[0] == '#');
        let length: usize = if indent + 1 < chars.len() && chars[indent + 1] == ' ' {
            assert(content(block@)[1] == ' ');
            2
        } else {
            assert(content(block@).len() > 1 ==> content(block@)[1] != ' ');
            1
        };
        assert(is_commented(block@));
        assert(length == marker_len(content(block@)));
        (marker, marker + length, String::new())
    } else {
        assert(content(block@).len() > 0 ==> content(block@)[0] != '#');
        assert(!is_commented(block@));
        (marker, marker, "# ".to_owned())
    };
    let edits: Vec<(usize, usize, String)> = vec![edit];
    map_toml_edit_position(at, edits.as_slice())
}

/// The block of a line without a selection holds no line feed.
proof fn lemma_single_line_block(s: Seq<char>, at: int)
    requires
        0 <= at <= s.len(),
    ensures
        split_on(s.subrange(line_start(s, at), line_end(s, at)), '\n').len() == 1,
        split_on(s.subrange(line_start(s, at), line_end(s, at)), '\n')[0] == s.subrange(
            line_start(s, at),
            line_end(s, at),
        ),
{
    lemma_line_start(s, at);
    lemma_line_end(s, at);
    let block = s.subrange(line_start(s, at), line_end(s, at));
    assert forall|j: int| 0 <= j < block.len() implies block[j] != '\n' by {
        assert(block[j] == s[line_start(s, at) + j]);
    }
    assert(single_lines(seq![block])) by {
        assert forall|i: int, j: int|
            0 <= i < seq![block].len() && 0 <= j < seq![block][i].len() implies #[trigger] seq![
            block,
        ][i][j] != '\n' by {
            assert(block[j] != '\n');
        }
    }
    lemma_split_joined(seq![block]);
    assert(joined_lines(seq![block]) == block);
}

/// How long a single line is after its comments were toggled.
proof fn lemma_single_line_toggle(block: Seq<char>)
    requires
        split_on(block, '\n').len() == 1,
        split_on(block, '\n')[0] == block,
    ensures
        block_commented(split_on(block, '\n')) == is_commented(block),
        is_commented(block) ==> toggled_block(block).len() == block.len() - marker_len(
            content(block),
        ),
        !is_commented(block) ==> toggled_block(block).len() == block.len() + 2,
        0 <= indent_len(block) <= block.len(),
        content(block).len() == block.len() - indent_len(block),
        is_commented(block) ==> marker_len(content(block)) <= content(block).len(),
        forall|k: int|
            0 <= k < content(block).len() ==> #[trigger] content(block)[k] == block[indent_len(
                block,
            ) + k],
{
    let lines = split_on(block, '\n');
    lemma_indent_len(block);
    if is_commented(block) {
        assert(!is_blank(lines[0]));
    }
    assert(joined_lines(toggled_lines(lines)) == toggled_lines(lines)[0]);
}

/// Where `position` lies after `edits`, each of them a start, an end and what
/// comes in between, in order; `delta` is by how much the text before the
/// first one has grown.
pub open spec fn mapped_position(
    position: int,
    edits: Seq<(usize, usize, String)>,
    delta: int,
) -> int
    decreases edits.len(),
{
    if edits.len() == 0 || position < edits[0].0 {
        shifted(position, delta)
    } else if position <= edits[0].1 {
        shifted(shifted(edits[0].0 as int, delta), byte_len(edits[0].2@) as int)
    } else {
        mapped_position(
            position,
            edits.drop_first(),
            delta + byte_len(edits[0].2@) - (edits[0].1 - edits[0].0),
        )
    }
}

/// Whether each edit up to `position` ends behind its start, and the text
/// grows and shrinks by what an `isize` holds.
pub open spec fn mappable(position: int, edits: Seq<(usize, usize, String)>, delta: int) -> bool
    decreases edits.len(),
{
    if edits.len() == 0 || position < edits[0].0 || position <= edits[0].1 {
        true
    } else {
        let grown = delta + byte_len(edits[0].2@) - (edits[0].1 - edits[0].0);
        &&& edits[0].0 <= edits[0].1
        &&& isize::MIN <= grown <= isize::MAX
        &&& mappable(position, edits.drop_first(), grown)
    }
}

/// Where `position` lies after `edits`.
pub fn map_toml_edit_position(position: usize, edits: &[(usize, usize, String)]) -> (r: usize)
    requires
        mappable(position as int, edits@, 0),
    ensures
        r == mapped_position(position as int, edits@, 0),
{
    let mut delta: isize = 0;
    let mut i: usize = 0;
    assert(edits@.skip(0) =~= edits@);
    while i < edits.len()
        invariant
            i <= edits@.len(),
            mappable(position as int, edits@.skip(i as int), delta as int),
            mapped_position(position as int, edits@.skip(i as int), delta as int)
                == mapped_position(position as int, edits@, 0),
        decreases edits@.len() - i,
    {
        let ghost rest = edits@.skip(i as int);
        assert(rest[0] == edits@[i as int]);
        assert(rest.drop_first() =~= edits@.skip(i + 1));
        let start: usize = edits[i].0;
        let end: usize = edits[i].1;
        if position < start {
            return add_signed(position, delta);
        }
        let length: usize = byte_length(edits[i].2.as_str());
        if position <= end {
            return add_signed(start, delta).saturating_add(length);
        }
        let grown: i128 = delta as i128 + length as i128 - (end - start) as i128;
        delta = grown as isize;
        i += 1;
    }
    assert(edits@.skip(i as int).len() == 0);
    add_signed(position, delta)
}

} // verus!
