//! Keys and mouse events.

use vstd::prelude::*;

verus! {

#[derive(Clone, Copy, Debug, PartialEq, Eq, Structural)]
pub enum KeyCode {
    Char(char),
    Enter,
    Esc,
    Tab,
    BackTab,
    Left,
    Right,
    Up,
    Down,
    Home,
    End,
    PageUp,
    PageDown,
    Backspace,
    Delete,
    F(u8),
    Other,
}

/// A key with the modifiers that were held.
#[derive(Clone, Copy, Debug, PartialEq, Eq, Structural)]
pub struct Key {
    pub code: KeyCode,
    pub control: bool,
    pub alt: bool,
    pub shift: bool,
    pub released: bool,
}

impl Key {
    /// A key pressed without modifiers.
    pub open spec fn bare(code: KeyCode) -> Key {
        Key { code, control: false, alt: false, shift: false, released: false }
    }

    pub fn plain(code: KeyCode) -> (r: Key)
        ensures
            r == Key::bare(code),
    {
        Key { code, control: false, alt: false, shift: false, released: false }
    }

    pub fn with_control(code: KeyCode) -> (r: Key)
        ensures
            r == (Key { control: true, ..Key::bare(code) }),
    {
        Key { code, control: true, alt: false, shift: false, released: false }
    }

    pub fn with_shift(code: KeyCode) -> (r: Key)
        ensures
            r == (Key { shift: true, ..Key::bare(code) }),
    {
        Key { code, control: false, alt: false, shift: true, released: false }
    }

    /// Whether the key is the letter `small`, in either case.
    pub open spec fn is_letter(self, small: char, capital: char) -> bool {
        self.code == KeyCode::Char(small) || self.code == KeyCode::Char(capital)
    }

    /// Whether the key is the letter `small`, in either case.
    pub fn letter(self, small: char, capital: char) -> (r: bool)
        ensures
            r == self.is_letter(small, capital),
    {
        self.code == KeyCode::Char(small) || self.code == KeyCode::Char(capital)
    }

    pub open spec fn ctrl_c(self) -> bool {
        self.is_letter('c', 'C') && self.control
    }

    /// Whether the key goes up in a list.
    pub open spec fn goes_up(self) -> bool {
        self.code == KeyCode::Up || self.code == KeyCode::Char('k')
    }

    /// Whether the key goes down in a list.
    pub open spec fn goes_down(self) -> bool {
        self.code == KeyCode::Down || self.code == KeyCode::Char('j')
    }

    pub fn is_up(self) -> (r: bool)
        ensures
            r == self.goes_up(),
    {
        self.code == KeyCode::Up || self.code == KeyCode::Char('k')
    }

    pub fn is_down(self) -> (r: bool)
        ensures
            r == self.goes_down(),
    {
        self.code == KeyCode::Down || self.code == KeyCode::Char('j')
    }

    pub open spec fn comment_toggle(self) -> bool {
        self.control && (self.code == KeyCode::Char('/') || self.code == KeyCode::Char('7'))
    }

    pub open spec fn shift_tab(self) -> bool {
        self.code == KeyCode::BackTab || (self.code == KeyCode::Tab && self.shift)
    }

    /// Whether the key says yes in a dialog.
    pub open spec fn accepts(self) -> bool {
        self.is_letter('y', 'Y') || self.code == KeyCode::Enter
    }

    /// Whether the key says no in a dialog.
    pub open spec fn declines(self) -> bool {
        self.is_letter('n', 'N') || self.code == KeyCode::Esc
    }

    pub fn is_yes(self) -> (r: bool)
        ensures
            r == self.accepts(),
    {
        self.letter('y', 'Y') || self.code == KeyCode::Enter
    }

    pub fn is_no(self) -> (r: bool)
        ensures
            r == self.declines(),
    {
        self.letter('n', 'N') || self.code == KeyCode::Esc
    }
}

pub fn is_ctrl_c(key: &Key) -> (r: bool)
    ensures
        r == key.ctrl_c(),
{
    key.letter('c', 'C') && key.control
}

pub fn is_toml_comment_toggle(key: &Key) -> (r: bool)
    ensures
        r == key.comment_toggle(),
{
    key.control && (key.code == KeyCode::Char('/') || key.code == KeyCode::Char('7'))
}

pub fn is_shift_tab(key: &Key) -> (r: bool)
    ensures
        r == key.shift_tab(),
{
    key.code == KeyCode::BackTab || (key.code == KeyCode::Tab && key.shift)
}

#[derive(Clone, Copy, Debug, PartialEq, Eq, Structural)]
pub enum MouseKind {
    Moved,
    LeftDown,
    LeftDrag,
    LeftUp,
    ScrollUp,
    ScrollDown,
    Other,
}

/// What the mouse did, and where.
#[derive(Clone, Copy, Debug, PartialEq, Eq, Structural)]
pub struct Mouse {
    pub kind: MouseKind,
    pub column: u16,
    pub row: u16,
}

/// Something that the terminal reports.
#[derive(Debug)]
pub enum Input {
    Key(Key),
    Paste(String),
    Mouse(Mouse),
    Resize,
    Other,
}

/// The character that an input types into the TOML editor, if it does.
pub open spec fn typed_char(input: Input) -> Option<char> {
    match input {
        Input::Key(key) => if key.control || key.alt {
            None
        } else {
            match key.code {
                KeyCode::Char(c) => Some(c),
                KeyCode::Enter => Some('\n'),
                KeyCode::Tab => Some('\t'),
                _ => None,
            }
        },
        _ => None,
    }
}

/// The character that an input types into the TOML editor, if it does.
pub fn toml_editor_input_character(input: &Input) -> (r: Option<char>)
    ensures
        r == typed_char(*input),
{
    match input {
        Input::Key(key) => if key.control || key.alt {
            None
        } else {
            match key.code {
                KeyCode::Char(c) => Some(c),
                KeyCode::Enter => Some('\n'),
                KeyCode::Tab => Some('\t'),
                _ => None,
            }
        },
        _ => None,
    }
}

} // verus!
