//! What the keys do in the TOML editor.

use crate::number::shifted;
use crate::search::{drop_trailing, is_char, lines, split_on, unix_newlines};
use crate::text::char_text;
use crate::tui::comment::{TomlCommentAction, block_commented, block_untouched};
use crate::tui::editor::{TomlEditor, TomlEditorMode, whole_line};
use crate::tui::geometry::Rect;
use crate::tui::input::InputView;
use crate::tui::keys::{Key, KeyCode, is_toml_comment_toggle};
use crate::tui::lines::{
    at_column, class_start, line_end, line_number, line_start, next_word, previous_word,
};
use vstd::prelude::*;
use vstd::string::*;

verus! {

/// What a key in the editor asks of the rest of the interface.
#[derive(Debug)]
pub enum EditorOutcome {
    Nothing,
    Say(&'static str, &'static str),
    Close,
    Save,
    Copy(String),
    Paste,
}

/// What a key in the editor asks of the rest of the interface.
pub enum EditorAsk {
    Nothing,
    Say(Seq<char>, Seq<char>),
    Close,
    Save,
    Copy(Seq<char>),
    Paste,
}

impl View for EditorOutcome {
    type V = EditorAsk;

    open spec fn view(&self) -> EditorAsk {
        match self {
            EditorOutcome::Nothing => EditorAsk::Nothing,
            EditorOutcome::Say(english, chinese) => EditorAsk::Say(english@, chinese@),
            EditorOutcome::Close => EditorAsk::Close,
            EditorOutcome::Save => EditorAsk::Save,
            EditorOutcome::Copy(text) => EditorAsk::Copy(text@),
            EditorOutcome::Paste => EditorAsk::Paste,
        }
    }
}

impl TomlEditor {
    /// Whether `new` is this editor with `text` put in place of the selection.
    pub open spec fn inserted(self, new: TomlEditor, text: Seq<char>) -> bool {
        if text.len() == 0 {
            new == self
        } else {
            let after = self.body().typed(unix_newlines(text));
            new.wf() && self.edited(new, self.body(), after.chars, after.at, self.anchor_left())
        }
    }

    /// Whether `new` is this editor with the cursor `delta` lines further down.
    pub open spec fn went_down(self, new: TomlEditor, delta: int, extend: bool) -> bool {
        let line = shifted(line_number(self.text@, self.body().at) as int, delta);
        self.placed(
            new,
            self.body().moved(at_column(self.text@, line as nat, self.kept_column()), extend),
            Some(self.kept_column() as usize),
        )
    }

    /// Whether `new` is this editor with the cursor at the start of its line.
    pub open spec fn went_home(self, new: TomlEditor, document: bool, extend: bool) -> bool {
        let target = if document {
            0
        } else {
            line_start(self.text@, self.body().at)
        };
        self.placed(new, self.body().moved(target, extend), None)
    }

    /// Whether `new` is this editor with the cursor at the end of its line.
    pub open spec fn went_to_end(self, new: TomlEditor, document: bool, extend: bool) -> bool {
        let target = if document {
            self.text@.len() as int
        } else {
            line_end(self.text@, self.body().at)
        };
        self.placed(new, self.body().moved(target, extend), None)
    }

    /// Whether `new` is this editor with the cursor at the next word.
    pub open spec fn went_word_on(self, new: TomlEditor, extend: bool) -> bool {
        if self.body().at == self.text@.len() {
            new == self
        } else {
            self.placed(
                new,
                self.body().moved(next_word(self.text@, self.body().at), extend),
                None,
            )
        }
    }

    /// Whether `new` is this editor with the cursor at the word before.
    pub open spec fn went_word_back(self, new: TomlEditor, extend: bool) -> bool {
        if self.body().at == 0 {
            new == self
        } else {
            self.placed(
                new,
                self.body().moved(previous_word(self.text@, self.body().at), extend),
                if class_start(self.text@, self.body().at, 0) == 0 {
                    self.preferred_column
                } else {
                    None
                },
            )
        }
    }

    /// Whether `new` is this editor with the line of the cursor selected.
    pub open spec fn selected_line(self, new: TomlEditor) -> bool {
        self.placed(
            new,
            (InputView {
                at: line_end(self.text@, self.body().at),
                anchor: Some(line_start(self.text@, self.body().at)),
                ..self.body()
            }),
            None,
        )
    }

    /// This editor in another mode.
    pub open spec fn in_mode(self, mode: TomlEditorMode) -> TomlEditor {
        TomlEditor {
            mode,
            vim_pending: None,
            selection_anchor: if mode == TomlEditorMode::VimVisual {
                self.selection_anchor
            } else {
                None
            },
            ..self
        }
    }

    /// Whether `new` is this editor without the character behind the cursor.
    pub open spec fn deleted(self, new: TomlEditor) -> bool {
        if self.body().selection() is None && self.body().at == self.text@.len() {
            new == TomlEditor { preferred_column: None, ..self }
        } else {
            let after = self.body().erased_after();
            new.wf() && self.edited(new, self.body(), after.chars, after.at, self.anchor_left())
        }
    }

    /// Whether `new` is this editor without the character before the cursor.
    pub open spec fn rubbed_out(self, new: TomlEditor) -> bool {
        if self.body().selection() is None && self.body().at == 0 {
            new == TomlEditor { preferred_column: None, ..self }
        } else {
            let after = self.body().erased_before();
            new.wf() && self.edited(
                new,
                self.body(),
                after.chars,
                after.at,
                self.anchor_left_in(after.chars),
            )
        }
    }

    /// Whether `new` is this editor with its line taken out into the register.
    pub open spec fn cut_line(self, new: TomlEditor) -> bool {
        let yanked = TomlEditor {
            vim_register: new.vim_register,
            vim_register_linewise: true,
            ..self
        };
        let (from, to) = whole_line(self.text@, self.body().at);
        &&& new.wf()
        &&& new.vim_register@ == self.line_text()
        &&& if from == to {
            new == yanked
        } else {
            yanked.edited(
                new,
                self.body(),
                self.text@.take(from) + self.text@.skip(to),
                from,
                None,
            )
        }
    }

    /// Whether `new` is this editor with its line in the register.
    pub open spec fn yanked_line(self, new: TomlEditor) -> bool {
        &&& new.vim_register@ == self.line_text()
        &&& new == TomlEditor {
            vim_register: new.vim_register,
            vim_register_linewise: true,
            ..self
        }
    }

    /// Whether `new` is this editor with the selection in the register.
    pub open spec fn yanked_selection(self, new: TomlEditor) -> bool {
        if self.body().selection() is None {
            new == self
        } else {
            &&& new.vim_register@ == self.body().selected()
            &&& new == TomlEditor {
                vim_register: new.vim_register,
                vim_register_linewise: false,
                mode: TomlEditorMode::VimNormal,
                vim_pending: None,
                selection_anchor: None,
                ..self
            }
        }
    }

    /// Whether `new` is this editor with the selection taken out into the
    /// register.
    pub open spec fn cut_selection(self, new: TomlEditor, insert_after: bool) -> bool {
        if self.body().selection() is None {
            new == self
        } else {
            let after = self.body().unselected();
            &&& new.wf()
            &&& new.vim_register@ == self.body().selected()
            &&& (TomlEditor {
                vim_register: new.vim_register,
                vim_register_linewise: false,
                mode: if insert_after {
                    TomlEditorMode::VimInsert
                } else {
                    TomlEditorMode::VimNormal
                },
                vim_pending: None,
                ..self
            }).edited(new, self.body(), after.chars, after.at, None)
        }
    }

    /// Whether `new` is this editor with the register put into the text.
    pub open spec fn put_register(self, new: TomlEditor) -> bool {
        if self.vim_register@.len() == 0 {
            new == self
        } else {
            let body = self.body();
            let s = body.chars;
            let end = line_end(s, body.at);
            let (from, text) = if !self.vim_register_linewise {
                (body.right(false), self.vim_register@)
            } else if end < s.len() {
                (InputView { at: end + 1, anchor: None, ..body }, self.vim_register@)
            } else {
                (
                    InputView { at: end, anchor: None, ..body },
                    seq!['\n'] + drop_trailing(self.vim_register@, is_char('\n')),
                )
            };
            let after = from.typed(unix_newlines(text));
            &&& new.wf()
            &&& (TomlEditor {
                mode: TomlEditorMode::VimNormal,
                vim_pending: None,
                ..self
            }).edited(new, from, after.chars, after.at, None)
        }
    }

    /// What a key does to the editor in visual mode.
    pub open spec fn visual_step(self, new: TomlEditor, code: KeyCode) -> bool {
        match code {
            KeyCode::Esc | KeyCode::Char('v') => new == self.in_mode(TomlEditorMode::VimNormal),
            KeyCode::Char('V') => self.selected_line(new),
            KeyCode::Char('y') => self.yanked_selection(new),
            KeyCode::Char('d') | KeyCode::Char('x') => self.cut_selection(new, false),
            KeyCode::Char('c') => self.cut_selection(new, true),
            KeyCode::Left | KeyCode::Char('h') => self.placed(new, self.body().left(true), None),
            KeyCode::Down | KeyCode::Char('j') => self.went_down(new, 1, true),
            KeyCode::Up | KeyCode::Char('k') => self.went_down(new, -1, true),
            KeyCode::Right | KeyCode::Char('l') => self.placed(new, self.body().right(true), None),
            KeyCode::Char('w') => self.went_word_on(new, true),
            KeyCode::Char('b') => self.went_word_back(new, true),
            KeyCode::Char('0') | KeyCode::Home => self.went_home(new, false, true),
            KeyCode::Char('$') | KeyCode::End => self.went_to_end(new, false, true),
            KeyCode::Char('G') => self.went_to_end(new, true, true),
            KeyCode::PageUp => self.went_down(new, -10, true),
            KeyCode::PageDown => self.went_down(new, 10, true),
            _ => new == self,
        }
    }

    /// What a key in visual mode says.
    pub open spec fn visual_answer(self, code: KeyCode) -> Option<(Seq<char>, Seq<char>)> {
        match code {
            KeyCode::Esc | KeyCode::Char('v') => Some(("Vim NORMAL"@, "Vim NORMAL"@)),
            KeyCode::Char('V') => Some(("Vim VISUAL LINE"@, "Vim VISUAL LINE"@)),
            KeyCode::Char('y') if self.body().selection() is Some => Some(
                ("Yanked selection"@, "已复制选区"@),
            ),
            KeyCode::Char('d') | KeyCode::Char('x') => if self.body().selection() is Some {
                Some(("Deleted selection"@, "已删除选区"@))
            } else {
                None
            },
            KeyCode::Char('c') if self.body().selection() is Some => Some(
                ("Vim INSERT"@, "Vim INSERT"@),
            ),
            _ => None,
        }
    }

    /// What a key does to the editor in normal mode, with no command pending.
    pub open spec fn normal_step(self, new: TomlEditor, code: KeyCode) -> bool {
        match code {
            KeyCode::Left | KeyCode::Char('h') => self.placed(new, self.body().left(false), None),
            KeyCode::Down | KeyCode::Char('j') => self.went_down(new, 1, false),
            KeyCode::Up | KeyCode::Char('k') => self.went_down(new, -1, false),
            KeyCode::Right | KeyCode::Char('l') => self.placed(
                new,
                self.body().right(false),
                None,
            ),
            KeyCode::Char('w') => self.went_word_on(new, false),
            KeyCode::Char('b') => self.went_word_back(new, false),
            KeyCode::Char('0') | KeyCode::Home => self.went_home(new, false, false),
            KeyCode::Char('$') | KeyCode::End => self.went_to_end(new, false, false),
            KeyCode::Char('G') => self.went_to_end(new, true, false),
            KeyCode::Char('g') => new == TomlEditor { vim_pending: Some('g'), ..self },
            KeyCode::Char('d') => new == TomlEditor { vim_pending: Some('d'), ..self },
            KeyCode::Char('y') => new == TomlEditor { vim_pending: Some('y'), ..self },
            KeyCode::Char('i') => new == self.in_mode(TomlEditorMode::VimInsert),
            KeyCode::Char('a') => self.in_mode(TomlEditorMode::VimInsert).placed(
                new,
                self.body().right(false),
                None,
            ),
            KeyCode::Char('I') => self.in_mode(TomlEditorMode::VimInsert).went_home(
                new,
                false,
                false,
            ),
            KeyCode::Char('A') => self.in_mode(TomlEditorMode::VimInsert).went_to_end(
                new,
                false,
                false,
            ),
            KeyCode::Char('v') => new == TomlEditor {
                selection_anchor: Some(self.cursor),
                ..self.in_mode(TomlEditorMode::VimVisual)
            },
            KeyCode::Char('V') => self.in_mode(TomlEditorMode::VimVisual).selected_line(new),
            KeyCode::Char('x') | KeyCode::Delete => self.deleted(new),
            KeyCode::Char('p') => self.put_register(new),
            KeyCode::Char('u') => self.undone(new),
            KeyCode::PageUp => self.went_down(new, -10, false),
            KeyCode::PageDown => self.went_down(new, 10, false),
            _ => new == self,
        }
    }

    /// What a key in normal mode says, with no command pending.
    pub open spec fn normal_answer(self, code: KeyCode) -> Option<(Seq<char>, Seq<char>)> {
        match code {
            KeyCode::Esc => Some(("Vim NORMAL"@, "Vim NORMAL"@)),
            KeyCode::Char('G') => Some(("Moved to end of file"@, "已移动到文件末尾"@)),
            KeyCode::Char('i') | KeyCode::Char('a') | KeyCode::Char('I') | KeyCode::Char('A') =>
                Some(("Vim INSERT"@, "Vim INSERT"@)),
            KeyCode::Char('v') => Some(("Vim VISUAL"@, "Vim VISUAL"@)),
            KeyCode::Char('V') => Some(("Vim VISUAL LINE"@, "Vim VISUAL LINE"@)),
            KeyCode::Char('x') | KeyCode::Delete => Some(("Deleted character"@, "已删除字符"@)),
            KeyCode::Char('p') => Some(("Pasted Vim register"@, "已粘贴 Vim 寄存器"@)),
            KeyCode::Char('u') => if self.undo_stack@.len() > 0 {
                Some(("Undid TOML edit"@, "已撤销 TOML 编辑"@))
            } else {
                Some(("Nothing to undo"@, "没有可撤销的编辑"@))
            },
            _ => None,
        }
    }

    /// Whether the key completes the command that is pending in normal mode.
    pub open spec fn completes(self, code: KeyCode) -> bool {
        &&& self.mode == TomlEditorMode::VimNormal
        &&& self.vim_pending matches Some(c)
        &&& c == 'g' || c == 'd' || c == 'y'
        &&& code == KeyCode::Char(c)
    }

    /// This editor with no command pending.
    pub open spec fn settled(self) -> TomlEditor {
        TomlEditor { vim_pending: None, ..self }
    }

    /// What a key does to the editor in one of vim's command modes.
    pub open spec fn vim_step(self, new: TomlEditor, code: KeyCode) -> bool {
        if self.completes(code) {
            if code == KeyCode::Char('g') {
                self.settled().went_home(new, true, false)
            } else if code == KeyCode::Char('d') {
                self.settled().cut_line(new)
            } else {
                self.settled().yanked_line(new)
            }
        } else if self.mode == TomlEditorMode::VimVisual {
            self.visual_step(new, code)
        } else if code == KeyCode::Esc {
            new == self.settled()
        } else if self.mode == TomlEditorMode::VimNormal {
            self.settled().normal_step(new, code)
        } else {
            self.normal_step(new, code)
        }
    }

    /// What a key in one of vim's command modes says.
    pub open spec fn vim_answer(self, code: KeyCode) -> Option<(Seq<char>, Seq<char>)> {
        if self.completes(code) {
            if code == KeyCode::Char('g') {
                Some(("Moved to start of file"@, "已移动到文件开头"@))
            } else if code == KeyCode::Char('d') {
                Some(("Deleted TOML line"@, "已删除 TOML 行"@))
            } else {
                Some(("Yanked TOML line"@, "已复制 TOML 行"@))
            }
        } else if self.mode == TomlEditorMode::VimVisual {
            self.visual_answer(code)
        } else {
            self.normal_answer(code)
        }
    }
}

/// What is said, with the texts as sequences.
pub open spec fn saying(r: Option<(&'static str, &'static str)>) -> Option<(Seq<char>, Seq<char>)> {
    match r {
        Some((english, chinese)) => Some((english@, chinese@)),
        None => None,
    }
}

/// Handles a key in visual mode.
fn handle_visual_key(editor: &mut TomlEditor, code: KeyCode) -> (r: Option<
    (&'static str, &'static str),
>)
    requires
        old(editor).wf(),
    ensures
        final(editor).wf(),
        old(editor).visual_step(*final(editor), code),
        saying(r) == old(editor).visual_answer(code),
{
    match code {
        KeyCode::Esc | KeyCode::Char('v') => {
            editor.enter_vim_mode(TomlEditorMode::VimNormal);
            return Some(("Vim NORMAL", "Vim NORMAL"));
        },
        KeyCode::Char('V') => {
            editor.select_current_line();
            return Some(("Vim VISUAL LINE", "Vim VISUAL LINE"));
        },
        KeyCode::Char('y') => {
            if editor.vim_yank_selection() {
                return Some(("Yanked selection", "已复制选区"));
            }
        },
        KeyCode::Char('d') | KeyCode::Char('x') => {
            if editor.vim_delete_selection(false) {
                return Some(("Deleted selection", "已删除选区"));
            }
        },
        KeyCode::Char('c') => {
            if editor.vim_delete_selection(true) {
                return Some(("Vim INSERT", "Vim INSERT"));
            }
        },
        KeyCode::Left | KeyCode::Char('h') => editor.move_left(true),
        KeyCode::Down | KeyCode::Char('j') => editor.move_vertical(1, true),
        KeyCode::Up | KeyCode::Char('k') => editor.move_vertical(-1, true),
        KeyCode::Right | KeyCode::Char('l') => editor.move_right(true),
        KeyCode::Char('w') => editor.move_word_forward(true),
        KeyCode::Char('b') => editor.move_word_backward(true),
        KeyCode::Char('0') | KeyCode::Home => editor.move_home(false, true),
        KeyCode::Char('$') | KeyCode::End => editor.move_end(false, true),
        KeyCode::Char('G') => editor.move_end(true, true),
        KeyCode::PageUp => editor.move_vertical(-10, true),
        KeyCode::PageDown => editor.move_vertical(10, true),
        _ => {},
    }
    None
}

/// Handles a key in normal mode, with no command pending.
fn handle_plain_normal_key(editor: &mut TomlEditor, code: KeyCode) -> (r: Option<
    (&'static str, &'static str),
>)
    requires
        old(editor).wf(),
        old(editor).vim_pending is None || old(editor).mode != TomlEditorMode::VimNormal,
        code != KeyCode::Esc,
    ensures
        final(editor).wf(),
        old(editor).normal_step(*final(editor), code),
        saying(r) == old(editor).normal_answer(code),
{
    match code {
        KeyCode::Left | KeyCode::Char('h') => {
            editor.move_left(false);
            None
        },
        KeyCode::Down | KeyCode::Char('j') => {
            editor.move_vertical(1, false);
            None
        },
        KeyCode::Up | KeyCode::Char('k') => {
            editor.move_vertical(-1, false);
            None
        },
        KeyCode::Right | KeyCode::Char('l') => {
            editor.move_right(false);
            None
        },
        KeyCode::Char('w') => {
            editor.move_word_forward(false);
            None
        },
        KeyCode::Char('b') => {
            editor.move_word_backward(false);
            None
        },
        KeyCode::Char('0') | KeyCode::Home => {
            editor.move_home(false, false);
            None
        },
        KeyCode::Char('$') | KeyCode::End => {
            editor.move_end(false, false);
            None
        },
        KeyCode::Char('G') => {
            editor.move_end(true, false);
            Some(("Moved to end of file", "已移动到文件末尾"))
        },
        KeyCode::Char('g') => {
            editor.vim_pending = Some('g');
            None
        },
        KeyCode::Char('d') => {
            editor.vim_pending = Some('d');
            None
        },
        KeyCode::Char('y') => {
            editor.vim_pending = Some('y');
            None
        },
        KeyCode::Char('i') => {
            editor.enter_vim_mode(TomlEditorMode::VimInsert);
            Some(("Vim INSERT", "Vim INSERT"))
        },
        KeyCode::Char('a') => {
            editor.move_right(false);
            editor.enter_vim_mode(TomlEditorMode::VimInsert);
            Some(("Vim INSERT", "Vim INSERT"))
        },
        KeyCode::Char('I') => {
            editor.move_home(false, false);
            editor.enter_vim_mode(TomlEditorMode::VimInsert);
            Some(("Vim INSERT", "Vim INSERT"))
        },
        KeyCode::Char('A') => {
            editor.move_end(false, false);
            editor.enter_vim_mode(TomlEditorMode::VimInsert);
            Some(("Vim INSERT", "Vim INSERT"))
        },
        KeyCode::Char('v') => {
            editor.selection_anchor = Some(editor.cursor);
            editor.enter_vim_mode(TomlEditorMode::VimVisual);
            Some(("Vim VISUAL", "Vim VISUAL"))
        },
        KeyCode::Char('V') => {
            editor.enter_vim_mode(TomlEditorMode::VimVisual);
            editor.select_current_line();
            Some(("Vim VISUAL LINE", "Vim VISUAL LINE"))
        },
        KeyCode::Char('x') | KeyCode::Delete => {
            editor.delete();
            Some(("Deleted character", "已删除字符"))
        },
        KeyCode::Char('p') => {
            editor.vim_paste();
            Some(("Pasted Vim register", "已粘贴 Vim 寄存器"))
        },
        KeyCode::Char('u') => if editor.undo() {
            Some(("Undid TOML edit", "已撤销 TOML 编辑"))
        } else {
            Some(("Nothing to undo", "没有可撤销的编辑"))
        },
        KeyCode::PageUp => {
            editor.move_vertical(-10, false);
            None
        },
        KeyCode::PageDown => {
            editor.move_vertical(10, false);
            None
        },
        _ => None,
    }
}

/// Handles a key in one of vim's command modes; returns what is to be said.
pub fn handle_vim_toml_key(editor: &mut TomlEditor, key: &Key) -> (r: Option<
    (&'static str, &'static str),
>)
    requires
        old(editor).wf(),
    ensures
        final(editor).wf(),
        old(editor).vim_step(*final(editor), key.code),
        saying(r) == old(editor).vim_answer(key.code),
{
    if editor.mode == TomlEditorMode::VimNormal {
        if let Some(pending) = editor.vim_pending {
            editor.vim_pending = None;
            if pending == 'g' && key.code == KeyCode::Char('g') {
                editor.move_home(true, false);
                return Some(("Moved to start of file", "已移动到文件开头"));
            }
            if pending == 'd' && key.code == KeyCode::Char('d') {
                editor.vim_delete_current_line();
                return Some(("Deleted TOML line", "已删除 TOML 行"));
            }
            if pending == 'y' && key.code == KeyCode::Char('y') {
                editor.vim_yank_current_line();
                return Some(("Yanked TOML line", "已复制 TOML 行"));
            }
        }
    }
    if editor.mode == TomlEditorMode::VimVisual {
        return handle_visual_key(editor, key.code);
    }
    if key.code == KeyCode::Esc {
        editor.vim_pending = None;
        return Some(("Vim NORMAL", "Vim NORMAL"));
    }
    handle_plain_normal_key(editor, key.code)
}

/// Lines that a page of the editor moves by.
pub open spec fn page_of(area: Option<Rect>) -> int {
    match area {
        Some(rect) => if rect.height <= 2 {
            1
        } else {
            rect.height - 1
        },
        None => 0,
    }
}

/// Whether vim's command modes take the key.
pub open spec fn vim_takes(mode: TomlEditorMode, key: Key) -> bool {
    (mode == TomlEditorMode::VimNormal || mode == TomlEditorMode::VimVisual) && !key.control
        && !key.alt
}

impl TomlEditor {
    /// What a key that edits or moves does to the editor outside of vim's
    /// command modes, in a view that stands in `area`.
    pub open spec fn typing_step(self, new: TomlEditor, key: Key, area: Option<Rect>) -> bool {
        let extend = key.shift;
        match key.code {
            KeyCode::Left => self.placed(new, self.body().left(extend), None),
            KeyCode::Right => self.placed(new, self.body().right(extend), None),
            KeyCode::Up => self.went_down(new, -1, extend),
            KeyCode::Down => self.went_down(new, 1, extend),
            KeyCode::Home => self.went_home(new, key.control, extend),
            KeyCode::End => self.went_to_end(new, key.control, extend),
            KeyCode::PageUp => if area is Some {
                self.went_down(new, -page_of(area), extend)
            } else {
                new == self
            },
            KeyCode::PageDown => if area is Some {
                self.went_down(new, page_of(area), extend)
            } else {
                new == self
            },
            KeyCode::Backspace => self.rubbed_out(new),
            KeyCode::Delete => self.deleted(new),
            KeyCode::Enter => self.inserted(new, seq!['\n']),
            KeyCode::Tab => self.inserted(new, seq!['\t']),
            KeyCode::Char(c) => if !key.control && !key.alt {
                self.inserted(new, seq![c])
            } else {
                new == self
            },
            _ => new == self,
        }
    }

    /// What a letter with Control held does to the editor.
    pub open spec fn control_step(self, new: TomlEditor, key: Key) -> bool {
        if key.is_letter('z', 'Z') && !key.shift {
            self.undone(new)
        } else if key.is_letter('z', 'Z') || key.is_letter('y', 'Y') || (key.is_letter('r', 'R')
            && self.mode != TomlEditorMode::Standard) {
            self.redone(new)
        } else if key.comment_toggle() {
            self.comments_toggled(new)
        } else if key.is_letter('a', 'A') {
            self.placed(new, self.body().everything_selected(), None)
        } else {
            new == self
        }
    }

    /// What a letter with Control held asks for.
    pub open spec fn control_answer(self, key: Key) -> EditorAsk {
        if key.is_letter('q', 'Q') {
            EditorAsk::Close
        } else if key.is_letter('z', 'Z') && !key.shift {
            if self.undo_stack@.len() > 0 {
                EditorAsk::Say("Undid TOML edit"@, "已撤销 TOML 编辑"@)
            } else {
                EditorAsk::Say("Nothing to undo"@, "没有可撤销的编辑"@)
            }
        } else if key.is_letter('z', 'Z') || key.is_letter('y', 'Y') || (key.is_letter('r', 'R')
            && self.mode != TomlEditorMode::Standard) {
            if self.redo_stack@.len() > 0 {
                EditorAsk::Say("Redid TOML edit"@, "已重做 TOML 编辑"@)
            } else {
                EditorAsk::Say("Nothing to redo"@, "没有可重做的编辑"@)
            }
        } else if key.comment_toggle() {
            let lines = split_on(self.comment_block(), '\n');
            if block_untouched(lines) {
                EditorAsk::Say("No TOML line to comment"@, "没有可注释的 TOML 行"@)
            } else if block_commented(lines) {
                EditorAsk::Say("Uncommented TOML line(s)"@, "已取消 TOML 行注释"@)
            } else {
                EditorAsk::Say("Commented TOML line(s)"@, "已注释 TOML 行"@)
            }
        } else if key.is_letter('s', 'S') {
            EditorAsk::Save
        } else if key.is_letter('c', 'C') {
            if self.body().selection() is Some {
                EditorAsk::Copy(self.body().selected())
            } else {
                EditorAsk::Say("Select TOML text before copying"@, "请先选择要复制的 TOML 文本"@)
            }
        } else if key.is_letter('v', 'V') {
            EditorAsk::Paste
        } else {
            EditorAsk::Nothing
        }
    }

    /// What a key does to the editor, in a view that stands in `area`.
    pub open spec fn key_step(self, new: TomlEditor, key: Key, area: Option<Rect>) -> bool {
        if key.code == KeyCode::F(2) && !key.control && !key.alt {
            new == self.in_mode(
                if self.mode == TomlEditorMode::Standard {
                    TomlEditorMode::VimNormal
                } else {
                    TomlEditorMode::Standard
                },
            )
        } else if self.mode == TomlEditorMode::VimInsert && key.code == KeyCode::Esc {
            new == self.in_mode(TomlEditorMode::VimNormal)
        } else if vim_takes(self.mode, key) {
            self.vim_step(new, key.code)
        } else if key.code == KeyCode::Esc {
            new == self
        } else if key.control && key.code is Char {
            self.control_step(new, key)
        } else {
            self.typing_step(new, key, area)
        }
    }

    /// What a key asks for.
    pub open spec fn key_answer(self, key: Key) -> EditorAsk {
        if key.code == KeyCode::F(2) && !key.control && !key.alt {
            if self.mode == TomlEditorMode::Standard {
                EditorAsk::Say("Vim mode enabled — NORMAL"@, "已启用 Vim 模式 — NORMAL"@)
            } else {
                EditorAsk::Say("Standard editor mode enabled"@, "已切换到标准编辑模式"@)
            }
        } else if self.mode == TomlEditorMode::VimInsert && key.code == KeyCode::Esc {
            EditorAsk::Say("Vim NORMAL"@, "Vim NORMAL"@)
        } else if vim_takes(self.mode, key) {
            match self.vim_answer(key.code) {
                Some((english, chinese)) => EditorAsk::Say(english, chinese),
                None => EditorAsk::Nothing,
            }
        } else if key.code == KeyCode::Esc {
            EditorAsk::Close
        } else if key.control && key.code is Char {
            self.control_answer(key)
        } else {
            EditorAsk::Nothing
        }
    }
}

/// Types one character.
fn type_character(editor: &mut TomlEditor, character: char)
    requires
        old(editor).wf(),
    ensures
        final(editor).wf(),
        old(editor).inserted(*final(editor), seq![character]),
{
    let text = char_text(character);
    assert(text@ =~= seq![character]);
    editor.insert_text(text.as_str());
}

/// Handles a key that edits or moves.
fn handle_typing_key(editor: &mut TomlEditor, key: Key, area: Option<Rect>)
    requires
        old(editor).wf(),
        !vim_takes(old(editor).mode, key),
    ensures
        final(editor).wf(),
        old(editor).typing_step(*final(editor), key, area),
{
    let extend: bool = key.shift;
    match key.code {
        KeyCode::Left => editor.move_left(extend),
        KeyCode::Right => editor.move_right(extend),
        KeyCode::Up => editor.move_vertical(-1, extend),
        KeyCode::Down => editor.move_vertical(1, extend),
        KeyCode::Home => editor.move_home(key.control, extend),
        KeyCode::End => editor.move_end(key.control, extend),
        KeyCode::PageUp => {
            if let Some(rect) = area {
                let page: isize = if rect.height <= 2 {
                    1
                } else {
                    (rect.height - 1) as isize
                };
                editor.move_vertical(-page, extend);
            }
        },
        KeyCode::PageDown => {
            if let Some(rect) = area {
                let page: isize = if rect.height <= 2 {
                    1
                } else {
                    (rect.height - 1) as isize
                };
                editor.move_vertical(page, extend);
            }
        },
        KeyCode::Backspace => editor.backspace(),
        KeyCode::Delete => editor.delete(),
        KeyCode::Enter => type_character(editor, '\n'),
        KeyCode::Tab => type_character(editor, '\t'),
        KeyCode::Char(character) => {
            if !key.control && !key.alt {
                type_character(editor, character);
            }
        },
        _ => {},
    }
}

/// Handles a letter with Control held.
fn handle_control_key(editor: &mut TomlEditor, key: Key) -> (r: EditorOutcome)
    requires
        old(editor).wf(),
        key.control,
    ensures
        final(editor).wf(),
        old(editor).control_step(*final(editor), key),
        r@ == old(editor).control_answer(key),
{
    if key.letter('q', 'Q') {
        return EditorOutcome::Close;
    }
    if key.letter('z', 'Z') && !key.shift {
        return if editor.undo() {
            EditorOutcome::Say("Undid TOML edit", "已撤销 TOML 编辑")
        } else {
            EditorOutcome::Say("Nothing to undo", "没有可撤销的编辑")
        };
    }
    if key.letter('z', 'Z') || key.letter('y', 'Y') || (key.letter('r', 'R')
        && editor.mode.is_vim()) {
        return if editor.redo() {
            EditorOutcome::Say("Redid TOML edit", "已重做 TOML 编辑")
        } else {
            EditorOutcome::Say("Nothing to redo", "没有可重做的编辑")
        };
    }
    if is_toml_comment_toggle(&key) {
        return match editor.toggle_line_comments() {
            Some(TomlCommentAction::Commented) => EditorOutcome::Say(
                "Commented TOML line(s)",
                "已注释 TOML 行",
            ),
            Some(TomlCommentAction::Uncommented) => EditorOutcome::Say(
                "Uncommented TOML line(s)",
                "已取消 TOML 行注释",
            ),
            None => EditorOutcome::Say("No TOML line to comment", "没有可注释的 TOML 行"),
        };
    }
    if key.letter('s', 'S') {
        return EditorOutcome::Save;
    }
    if key.letter('c', 'C') {
        return match editor.selected_text() {
            Some(text) => EditorOutcome::Copy(text.to_owned()),
            None => EditorOutcome::Say(
                "Select TOML text before copying",
                "请先选择要复制的 TOML 文本",
            ),
        };
    }
    if key.letter('v', 'V') {
        return EditorOutcome::Paste;
    }
    if key.letter('a', 'A') {
        editor.select_all();
    }
    EditorOutcome::Nothing
}

/// Handles a key in the editor, whose view stands in `area`; returns what it
/// asks of the rest of the interface.
pub fn handle_editor_key(editor: &mut TomlEditor, key: Key, area: Option<Rect>) -> (r:
    EditorOutcome)
    requires
        old(editor).wf(),
    ensures
        final(editor).wf(),
        old(editor).key_step(*final(editor), key, area),
        r@ == old(editor).key_answer(key),
{
    if key.code == KeyCode::F(2) && !key.control && !key.alt {
        editor.toggle_vim_mode();
        return if editor.mode.is_vim() {
            EditorOutcome::Say("Vim mode enabled — NORMAL", "已启用 Vim 模式 — NORMAL")
        } else {
            EditorOutcome::Say("Standard editor mode enabled", "已切换到标准编辑模式")
        };
    }
    if editor.mode == TomlEditorMode::VimInsert && key.code == KeyCode::Esc {
        editor.enter_vim_mode(TomlEditorMode::VimNormal);
        return EditorOutcome::Say("Vim NORMAL", "Vim NORMAL");
    }
    if (editor.mode == TomlEditorMode::VimNormal || editor.mode == TomlEditorMode::VimVisual)
        && !key.control && !key.alt {
        return match handle_vim_toml_key(editor, &key) {
            Some((english, chinese)) => EditorOutcome::Say(english, chinese),
            None => EditorOutcome::Nothing,
        };
    }
    if key.code == KeyCode::Esc {
        return EditorOutcome::Close;
    }
    if key.control && matches!(key.code, KeyCode::Char(_)) {
        return handle_control_key(editor, key);
    }
    handle_typing_key(editor, key, area);
    EditorOutcome::Nothing
}

} // verus!
