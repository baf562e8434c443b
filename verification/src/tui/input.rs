//! A line of text being edited, with a cursor and a selection.

use crate::text::{
    byte_len, byte_length, byte_offset, char_count, char_index, char_position, chars_of,
    is_boundary, lemma_boundary, lemma_char_index_order, lemma_ends_are_boundaries, push_char,
    slice, string_of,
};
use crate::tui::width::{display_columns, display_width};
use vstd::prelude::*;
use vstd::string::*;

verus! {

/// One line of editable text. The cursor and the end of the selection away
/// from it are byte offsets.
#[derive(Debug)]
pub struct TextInput {
    pub value: String,
    pub cursor: usize,
    pub selection_anchor: Option<usize>,
}

/// What a `TextInput` holds, counted in characters.
pub struct InputView {
    pub chars: Seq<char>,
    pub at: int,
    pub anchor: Option<int>,
}

/// The two ends of a selection in order, where it holds anything.
pub open spec fn span_between(at: int, anchor: Option<int>) -> Option<(int, int)> {
    match anchor {
        Some(a) => if a < at {
            Some((a, at))
        } else if at < a {
            Some((at, a))
        } else {
            None
        },
        None => None,
    }
}

/// The first position from `i` on from where no more than `width` columns lead
/// to `at`.
pub open spec fn first_seen(chars: Seq<char>, at: int, width: int, i: int) -> int
    decreases at - i,
{
    if i >= at || display_columns(chars.subrange(i, at)) <= width {
        i
    } else {
        first_seen(chars, at, width, i + 1)
    }
}

/// The last position up to `end`, and not before `at`, to where no more than
/// `width` columns lead from `start`.
pub open spec fn last_seen(chars: Seq<char>, start: int, at: int, width: int, end: int) -> int
    decreases end - at,
{
    if end <= at || display_columns(chars.subrange(start, end)) <= width {
        end
    } else {
        last_seen(chars, start, at, width, end - 1)
    }
}

/// What is seen of a line lies in it, and the cursor is among it.
pub proof fn lemma_first_seen(chars: Seq<char>, at: int, width: int, i: int)
    requires
        0 <= i <= at <= chars.len(),
    ensures
        i <= first_seen(chars, at, width, i) <= at,
    decreases at - i,
{
    if i < at {
        lemma_first_seen(chars, at, width, i + 1);
    }
}

pub proof fn lemma_last_seen(chars: Seq<char>, start: int, at: int, width: int, end: int)
    requires
        start <= at <= end <= chars.len(),
    ensures
        at <= last_seen(chars, start, at, width, end) <= end,
    decreases end - at,
{
    if at < end {
        lemma_last_seen(chars, start, at, width, end - 1);
    }
}

/// The cursor is always among the characters that are seen.
pub proof fn law_cursor_is_seen(input: InputView, width: int)
    requires
        0 <= input.at <= input.chars.len(),
        0 <= width,
    ensures
        0 <= input.seen(width).0 <= input.at <= input.seen(width).1 <= input.chars.len(),
{
    if width != 0 {
        lemma_first_seen(input.chars, input.at, width, 0);
        lemma_last_seen(
            input.chars,
            input.seen(width).0,
            input.at,
            width,
            input.chars.len() as int,
        );
    }
}

impl InputView {
    pub open spec fn selection(self) -> Option<(int, int)> {
        span_between(self.at, self.anchor)
    }

    /// The selected characters.
    pub open spec fn selected(self) -> Seq<char> {
        match self.selection() {
            Some((from, to)) => self.chars.subrange(from, to),
            None => Seq::empty(),
        }
    }

    /// The characters that are seen in `width` columns: as many as there is
    /// room for before the cursor, and then behind it.
    pub open spec fn seen(self, width: int) -> (int, int) {
        if width == 0 {
            (self.at, self.at)
        } else {
            let start = first_seen(self.chars, self.at, width, 0);
            (start, last_seen(self.chars, start, self.at, width, self.chars.len() as int))
        }
    }

    /// The cursor at `target`; with `extend` the selection reaches from where
    /// it began to there.
    pub open spec fn moved(self, target: int, extend: bool) -> InputView {
        let anchor = if !extend {
            None
        } else if self.anchor is Some {
            self.anchor
        } else {
            Some(self.at)
        };
        InputView {
            at: target,
            anchor: if anchor == Some(target) {
                None
            } else {
                anchor
            },
            ..self
        }
    }

    /// The selected characters taken out.
    pub open spec fn unselected(self) -> InputView {
        match self.selection() {
            Some((from, to)) => InputView {
                chars: self.chars.take(from) + self.chars.skip(to),
                at: from,
                anchor: None,
            },
            None => self,
        }
    }

    /// `text` in place of the selection, the cursor behind it.
    pub open spec fn typed(self, text: Seq<char>) -> InputView {
        let v = self.unselected();
        InputView {
            chars: v.chars.take(v.at) + text + v.chars.skip(v.at),
            at: v.at + text.len(),
            anchor: v.anchor,
        }
    }

    /// The selection, or else the character before the cursor, taken out.
    pub open spec fn erased_before(self) -> InputView {
        if self.selection() is Some {
            self.unselected()
        } else if self.at == 0 {
            self
        } else {
            InputView {
                chars: self.chars.take(self.at - 1) + self.chars.skip(self.at),
                at: self.at - 1,
                ..self
            }
        }
    }

    /// The selection, or else the character behind the cursor, taken out.
    pub open spec fn erased_after(self) -> InputView {
        if self.selection() is Some {
            self.unselected()
        } else if self.at == self.chars.len() {
            self
        } else {
            InputView {
                chars: self.chars.take(self.at) + self.chars.skip(self.at + 1),
                ..self
            }
        }
    }

    /// One character to the left; a selection is left at its start.
    pub open spec fn left(self, extend: bool) -> InputView {
        match self.selection() {
            Some((from, _)) if !extend => InputView { at: from, anchor: None, ..self },
            _ => self.moved(
                if self.at == 0 {
                    0
                } else {
                    self.at - 1
                },
                extend,
            ),
        }
    }

    /// One character to the right; a selection is left at its end.
    pub open spec fn right(self, extend: bool) -> InputView {
        match self.selection() {
            Some((_, to)) if !extend => InputView { at: to, anchor: None, ..self },
            _ => self.moved(
                if self.at == self.chars.len() {
                    self.at
                } else {
                    self.at + 1
                },
                extend,
            ),
        }
    }

    pub open spec fn everything_selected(self) -> InputView {
        InputView {
            at: self.chars.len() as int,
            anchor: if self.chars.len() > 0 {
                Some(0int)
            } else {
                None
            },
            ..self
        }
    }
}

impl View for TextInput {
    type V = InputView;

    open spec fn view(&self) -> InputView {
        InputView {
            chars: self.value@,
            at: char_index(self.value@, self.cursor as int),
            anchor: match self.selection_anchor {
                Some(a) => Some(char_index(self.value@, a as int)),
                None => None,
            },
        }
    }
}

impl TextInput {
    /// The cursor and the selection lie between characters, and a selection is
    /// not empty.
    pub open spec fn wf(self) -> bool {
        &&& is_boundary(self.value@, self.cursor as int)
        &&& self.selection_anchor matches Some(a) ==> is_boundary(self.value@, a as int) && a
            != self.cursor
    }

    /// What `wf` says of the positions.
    pub proof fn lemma_view(self)
        requires
            self.wf(),
        ensures
            0 <= self@.at <= self@.chars.len(),
            self.cursor == byte_len(self@.chars.take(self@.at)),
            self@.anchor matches Some(a) ==> 0 <= a <= self@.chars.len() && a != self@.at,
            self.selection_anchor matches Some(a) ==> {
                &&& a == byte_len(self@.chars.take(self@.anchor->0))
                &&& (a < self.cursor <==> self@.anchor->0 < self@.at)
            },
    {
        lemma_boundary(self.value@, self.cursor as int);
        if let Some(a) = self.selection_anchor {
            lemma_boundary(self.value@, a as int);
            lemma_char_index_order(self.value@, a as int, self.cursor as int);
        }
    }

    /// Text with the cursor behind its last character.
    pub fn new(value: &str) -> (r: TextInput)
        ensures
            r.wf(),
            r@ == (InputView { chars: value@, at: value@.len() as int, anchor: None }),
    {
        proof {
            lemma_ends_are_boundaries(value@);
        }
        TextInput { cursor: byte_length(value), value: value.to_owned(), selection_anchor: None }
    }

    /// A copy of the input.
    pub fn copy(&self) -> (r: TextInput)
        ensures
            r == *self,
    {
        TextInput {
            value: self.value.clone(),
            cursor: self.cursor,
            selection_anchor: self.selection_anchor,
        }
    }

    /// Puts the characters `chars` in place, with the cursor at position `at`.
    fn put(&mut self, chars: &[char], at: usize)
        requires
            at <= chars@.len(),
        ensures
            final(self).wf(),
            final(self)@ == (InputView { chars: chars@, at: at as int, anchor: None }),
    {
        self.value = string_of(chars);
        self.cursor = byte_offset(self.value.as_str(), at);
        self.selection_anchor = None;
    }

    /// Byte offsets of the selection, where there is one.
    pub fn selection(&self) -> (r: Option<(usize, usize)>)
        requires
            self.wf(),
        ensures
            r is Some <==> self@.selection() is Some,
            r matches Some((from, to)) ==> {
                &&& is_boundary(self.value@, from as int)
                &&& is_boundary(self.value@, to as int)
                &&& self@.selection() == Some(
                    (char_index(self.value@, from as int), char_index(self.value@, to as int)),
                )
                &&& from < to
            },
    {
        proof {
            self.lemma_view();
        }
        match self.selection_anchor {
            Some(anchor) => if anchor < self.cursor {
                Some((anchor, self.cursor))
            } else {
                Some((self.cursor, anchor))
            },
            None => None,
        }
    }

    pub fn clear_selection(&mut self)
        requires
            old(self).wf(),
        ensures
            final(self).wf(),
            final(self)@ == (InputView { anchor: None, ..old(self)@ }),
    {
        self.selection_anchor = None;
    }

    pub fn select_all(&mut self)
        ensures
            final(self).wf(),
            final(self)@ == old(self)@.everything_selected(),
    {
        proof {
            lemma_ends_are_boundaries(self.value@);
            lemma_char_index_order(self.value@, 0, byte_len(self.value@) as int);
        }
        self.selection_anchor = if self.value.as_str().is_empty() {
            None
        } else {
            Some(0)
        };
        self.cursor = byte_length(self.value.as_str());
    }

    /// Byte offsets of the characters that are seen in `max_width` columns.
    pub fn visible_range(&self, max_width: usize) -> (r: (usize, usize))
        requires
            self.wf(),
        ensures
            is_boundary(self.value@, r.0 as int),
            is_boundary(self.value@, r.1 as int),
            r.0 <= self.cursor <= r.1,
            (char_index(self.value@, r.0 as int), char_index(self.value@, r.1 as int))
                == self@.seen(max_width as int),
    {
        proof {
            self.lemma_view();
            law_cursor_is_seen(self@, max_width as int);
        }
        if max_width == 0 {
            return (self.cursor, self.cursor);
        }
        let text = self.value.as_str();
        let at: usize = char_position(text, self.cursor);
        let count: usize = char_count(text);
        let mut start: usize = 0;
        while start < at && display_width(text.substring_char(start, at)) > max_width
            invariant
                start <= at <= text@.len(),
                first_seen(text@, at as int, max_width as int, start as int) == first_seen(
                    text@,
                    at as int,
                    max_width as int,
                    0,
                ),
            decreases at - start,
        {
            start += 1;
        }
        let mut end: usize = count;
        while end > at && display_width(text.substring_char(start, end)) > max_width
            invariant
                start <= at <= end <= text@.len(),
                last_seen(text@, start as int, at as int, max_width as int, end as int)
                    == last_seen(
                    text@,
                    start as int,
                    at as int,
                    max_width as int,
                    text@.len() as int,
                ),
            decreases end - at,
        {
            end -= 1;
        }
        let first: usize = byte_offset(text, start);
        let last: usize = byte_offset(text, end);
        proof {
            lemma_char_index_order(text@, first as int, self.cursor as int);
            lemma_char_index_order(text@, self.cursor as int, last as int);
        }
        (first, last)
    }

    /// Moves the cursor to the byte offset `target`.
    pub fn move_to(&mut self, target: usize, extend_selection: bool)
        requires
            old(self).wf(),
            is_boundary(old(self).value@, target as int),
        ensures
            final(self).wf(),
            final(self)@ == old(self)@.moved(
                char_index(old(self).value@, target as int),
                extend_selection,
            ),
    {
        proof {
            self.lemma_view();
            lemma_char_index_order(self.value@, target as int, self.cursor as int);
            if let Some(a) = self.selection_anchor {
                lemma_char_index_order(self.value@, target as int, a as int);
            }
        }
        if extend_selection {
            if self.selection_anchor.is_none() {
                self.selection_anchor = Some(self.cursor);
            }
        } else {
            self.selection_anchor = None;
        }
        self.cursor = target;
        if let Some(anchor) = self.selection_anchor {
            if anchor == self.cursor {
                self.selection_anchor = None;
            }
        }
    }

    pub fn move_left(&mut self, extend_selection: bool)
        requires
            old(self).wf(),
        ensures
            final(self).wf(),
            final(self)@ == old(self)@.left(extend_selection),
    {
        proof {
            self.lemma_view();
        }
        if !extend_selection {
            if let Some((start, _)) = self.selection() {
                self.cursor = start;
                self.selection_anchor = None;
                return;
            }
        }
        let at: usize = char_position(self.value.as_str(), self.cursor);
        let target: usize = if at == 0 {
            0
        } else {
            byte_offset(self.value.as_str(), at - 1)
        };
        proof {
            lemma_ends_are_boundaries(self.value@);
        }
        self.move_to(target, extend_selection);
    }

    pub fn move_right(&mut self, extend_selection: bool)
        requires
            old(self).wf(),
        ensures
            final(self).wf(),
            final(self)@ == old(self)@.right(extend_selection),
    {
        proof {
            self.lemma_view();
        }
        if !extend_selection {
            if let Some((_, end)) = self.selection() {
                self.cursor = end;
                self.selection_anchor = None;
                return;
            }
        }
        let at: usize = char_position(self.value.as_str(), self.cursor);
        let target: usize = if at == char_count(self.value.as_str()) {
            self.cursor
        } else {
            byte_offset(self.value.as_str(), at + 1)
        };
        self.move_to(target, extend_selection);
    }

    pub fn move_home(&mut self, extend_selection: bool)
        requires
            old(self).wf(),
        ensures
            final(self).wf(),
            final(self)@ == old(self)@.moved(0, extend_selection),
    {
        proof {
            lemma_ends_are_boundaries(self.value@);
        }
        self.move_to(0, extend_selection);
    }

    pub fn move_end(&mut self, extend_selection: bool)
        requires
            old(self).wf(),
        ensures
            final(self).wf(),
            final(self)@ == old(self)@.moved(old(self)@.chars.len() as int, extend_selection),
    {
        proof {
            lemma_ends_are_boundaries(self.value@);
        }
        self.move_to(byte_length(self.value.as_str()), extend_selection);
    }

    /// Takes out the selection; tells whether there was one.
    pub fn delete_selection(&mut self) -> (r: bool)
        requires
            old(self).wf(),
        ensures
            final(self).wf(),
            final(self)@ == old(self)@.unselected(),
            final(self).selection_anchor is None,
            r == (old(self)@.selection() is Some),
    {
        proof {
            self.lemma_view();
        }
        if let Some((start, end)) = self.selection() {
            let from: usize = char_position(self.value.as_str(), start);
            let to: usize = char_position(self.value.as_str(), end);
            let ghost chars = self.value@;
            let mut kept = slice(self.value.as_str(), 0, from).to_owned();
            kept.append(slice(self.value.as_str(), to, char_count(self.value.as_str())));
            assert(kept@ =~= chars.take(from as int) + chars.skip(to as int));
            self.put(chars_of(kept.as_str()).as_slice(), from);
            true
        } else {
            false
        }
    }

    pub fn insert(&mut self, character: char)
        requires
            old(self).wf(),
        ensures
            final(self).wf(),
            final(self)@ == old(self)@.typed(seq![character]),
    {
        let mut text = String::new();
        push_char(&mut text, character);
        assert(text@ =~= seq![character]);
        self.insert_text(text.as_str());
    }

    pub fn insert_text(&mut self, text: &str)
        requires
            old(self).wf(),
        ensures
            final(self).wf(),
            final(self)@ == old(self)@.typed(text@),
    {
        let _ = self.delete_selection();
        proof {
            self.lemma_view();
        }
        let ghost v = self@;
        let at: usize = char_position(self.value.as_str(), self.cursor);
        let length: usize = char_count(self.value.as_str());
        let mut typed = slice(self.value.as_str(), 0, at).to_owned();
        typed.append(text);
        let behind: usize = char_count(typed.as_str());
        typed.append(slice(self.value.as_str(), at, length));
        assert(typed@ =~= v.chars.take(at as int) + text@ + v.chars.skip(at as int));
        self.put(chars_of(typed.as_str()).as_slice(), behind);
    }

    pub fn backspace(&mut self)
        requires
            old(self).wf(),
        ensures
            final(self).wf(),
            final(self)@ == old(self)@.erased_before(),
    {
        proof {
            self.lemma_view();
            lemma_ends_are_boundaries(self.value@);
            lemma_char_index_order(self.value@, 0, self.cursor as int);
        }
        if self.delete_selection() || self.cursor == 0 {
            return;
        }
        let ghost chars = self.value@;
        let at: usize = char_position(self.value.as_str(), self.cursor);
        let length: usize = char_count(self.value.as_str());
        let mut kept = slice(self.value.as_str(), 0, at - 1).to_owned();
        kept.append(slice(self.value.as_str(), at, length));
        assert(kept@ =~= chars.take(at - 1) + chars.skip(at as int));
        self.put(chars_of(kept.as_str()).as_slice(), at - 1);
    }

    pub fn delete(&mut self)
        requires
            old(self).wf(),
        ensures
            final(self).wf(),
            final(self)@ == old(self)@.erased_after(),
    {
        proof {
            self.lemma_view();
            lemma_ends_are_boundaries(self.value@);
            lemma_char_index_order(self.value@, self.cursor as int, byte_len(self.value@) as int);
        }
        if self.delete_selection() || self.cursor == byte_length(self.value.as_str()) {
            return;
        }
        let ghost chars = self.value@;
        let at: usize = char_position(self.value.as_str(), self.cursor);
        let length: usize = char_count(self.value.as_str());
        let mut kept = slice(self.value.as_str(), 0, at).to_owned();
        kept.append(slice(self.value.as_str(), at + 1, length));
        assert(kept@ =~= chars.take(at as int) + chars.skip(at + 1));
        self.put(chars_of(kept.as_str()).as_slice(), at);
    }
}

} // verus!
