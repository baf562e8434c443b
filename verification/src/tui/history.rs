//! The bounded history of an editor.

use crate::text::{byte_len, byte_length, char_index, is_boundary};
use crate::tui::input::InputView;
use vstd::prelude::*;
use vstd::string::*;

verus! {

pub const TOML_HISTORY_LIMIT: usize = 100;

pub const TOML_HISTORY_BYTE_LIMIT: usize = 8388608;

/// A text with its cursor and selection, as an edit found it.
#[derive(Debug)]
pub struct TomlEditorSnapshot {
    pub text: String,
    pub cursor: usize,
    pub selection_anchor: Option<usize>,
}

impl View for TomlEditorSnapshot {
    type V = InputView;

    open spec fn view(&self) -> InputView {
        body_view(self.text@, self.cursor, self.selection_anchor)
    }
}

/// A text with byte offsets into it, counted in characters.
pub open spec fn body_view(chars: Seq<char>, cursor: usize, anchor: Option<usize>) -> InputView {
    InputView {
        chars,
        at: char_index(chars, cursor as int),
        anchor: match anchor {
            Some(a) => Some(char_index(chars, a as int)),
            None => None,
        },
    }
}

/// Whether the cursor and the anchor lie between characters.
pub open spec fn body_wf(chars: Seq<char>, cursor: usize, anchor: Option<usize>) -> bool {
    &&& is_boundary(chars, cursor as int)
    &&& anchor matches Some(a) ==> is_boundary(chars, a as int)
}

impl TomlEditorSnapshot {
    pub open spec fn wf(self) -> bool {
        body_wf(self.text@, self.cursor, self.selection_anchor)
    }
}

/// What a list of snapshots holds.
pub open spec fn history_view(stack: Seq<TomlEditorSnapshot>) -> Seq<InputView> {
    stack.map_values(|s: TomlEditorSnapshot| s@)
}

pub open spec fn history_wf(stack: Seq<TomlEditorSnapshot>) -> bool {
    forall|i: int| 0 <= i < stack.len() ==> (#[trigger] stack[i]).wf()
}

/// Bytes of text that a history holds.
pub open spec fn history_bytes(h: Seq<InputView>) -> nat
    decreases h.len(),
{
    if h.len() == 0 {
        0
    } else {
        byte_len(h[0].chars) + history_bytes(h.drop_first())
    }
}

/// The newest part of a history that keeps to both limits; the newest entry
/// stays in any case.
pub open spec fn bounded(h: Seq<InputView>) -> Seq<InputView>
    decreases h.len(),
{
    if h.len() > TOML_HISTORY_LIMIT || (h.len() > 1 && history_bytes(h)
        > TOML_HISTORY_BYTE_LIMIT) {
        bounded(h.drop_first())
    } else {
        h
    }
}

/// The newest entry of a history stays, at most the limit of entries stay, and
/// the bytes keep to their limit unless one entry alone exceeds it.
pub proof fn law_history_is_bounded(h: Seq<InputView>)
    ensures
        bounded(h).len() <= h.len(),
        bounded(h).len() <= TOML_HISTORY_LIMIT,
        h.len() > 0 ==> bounded(h).len() > 0 && bounded(h).last() == h.last(),
        bounded(h).len() <= 1 || history_bytes(bounded(h)) <= TOML_HISTORY_BYTE_LIMIT,
        bounded(h) == h.skip(h.len() - bounded(h).len()),
    decreases h.len(),
{
    if h.len() > TOML_HISTORY_LIMIT || (h.len() > 1 && history_bytes(h)
        > TOML_HISTORY_BYTE_LIMIT) {
        law_history_is_bounded(h.drop_first());
        let b = bounded(h);
        assert(h.drop_first().skip(h.len() - 1 - b.len()) =~= h.skip(h.len() - b.len()));
    } else {
        assert(h.skip(0) =~= h);
    }
}

/// Bytes of text in `stack`.
fn bytes_in(stack: &Vec<TomlEditorSnapshot>) -> (r: u128)
    ensures
        r == history_bytes(history_view(stack@)),
{
    let mut i: usize = stack.len();
    let mut total: u128 = 0;
    let ghost h = history_view(stack@);
    assert(h.skip(i as int) =~= Seq::<InputView>::empty());
    while i > 0
        invariant
            i <= stack@.len(),
            stack@.len() == stack.len(),
            h == history_view(stack@),
            total == history_bytes(h.skip(i as int)),
            total <= (stack@.len() - i) * 0xffff_ffff_ffff_ffff,
        decreases i,
    {
        i -= 1;
        assert(h.skip(i as int).drop_first() =~= h.skip(i + 1));
        assert(h.skip(i as int)[0].chars == stack@[i as int].text@);
        assert((stack@.len() - i - 1) * 0xffff_ffff_ffff_ffff <= 0xffff_ffff_ffff_fffe
            * 0xffff_ffff_ffff_ffff) by (nonlinear_arith)
            requires
                0 <= stack@.len() - i - 1 <= 0xffff_ffff_ffff_fffe,
        ;
        total = total + byte_length(stack[i].text.as_str()) as u128;
    }
    assert(h.skip(0) =~= h);
    total
}

/// Adds `snapshot` to a history and drops what is over the limits.
pub fn push_history(stack: &mut Vec<TomlEditorSnapshot>, snapshot: TomlEditorSnapshot)
    requires
        history_wf(old(stack)@),
        snapshot.wf(),
    ensures
        history_wf(final(stack)@),
        history_view(final(stack)@) == bounded(history_view(old(stack)@).push(snapshot@)),
        final(stack)@.len() <= TOML_HISTORY_LIMIT,
{
    let ghost before = history_view(stack@).push(snapshot@);
    stack.push(snapshot);
    assert(history_view(stack@) =~= before);
    while stack.len() > TOML_HISTORY_LIMIT || (stack.len() > 1 && bytes_in(stack)
        > TOML_HISTORY_BYTE_LIMIT as u128)
        invariant
            stack@.len() > 0,
            history_wf(stack@),
            bounded(history_view(stack@)) == bounded(before),
        decreases stack@.len(),
    {
        let ghost entries = stack@;
        let _ = stack.remove(0);
        assert(history_view(stack@) =~= history_view(entries).drop_first());
        assert(history_wf(stack@)) by {
            assert forall|i: int| 0 <= i < stack@.len() implies (#[trigger] stack@[i]).wf() by {
                assert(stack@[i] == entries[i + 1]);
            }
        }
    }
}

} // verus!
