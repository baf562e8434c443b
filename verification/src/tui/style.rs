//! Colours and text styles.

use vstd::prelude::*;

verus! {

/// The colours of the interface, by what they stand for.
#[derive(Clone, Copy, Debug, PartialEq, Eq, Structural)]
pub enum Color {
    Accent,
    Dim,
    Subtle,
    Surface,
    Border,
    SelectionBg,
    PanelBg,
    BackdropBg,
    Success,
    Error,
    Warning,
    TomlString,
    TomlNumber,
    TomlBoolean,
    TomlDateTime,
    Metadata,
    White,
    Black,
}

pub const TOML_KEY: Color = Color::Accent;

pub const TOML_COMMENT: Color = Color::Subtle;

impl Color {
    /// Red, green and blue of the colour.
    pub open spec fn components(self) -> (u8, u8, u8) {
        match self {
            Color::Accent => (103, 232, 249),
            Color::Dim => (153, 153, 153),
            Color::Subtle => (110, 110, 120),
            Color::Surface => (25, 25, 33),
            Color::Border => (66, 66, 80),
            Color::SelectionBg => (52, 52, 66),
            Color::PanelBg => (28, 28, 36),
            Color::BackdropBg => (12, 12, 16),
            Color::Success => (78, 186, 101),
            Color::Error => (255, 107, 128),
            Color::Warning => (255, 193, 7),
            Color::TomlString => (134, 239, 172),
            Color::TomlNumber => (251, 191, 36),
            Color::TomlBoolean => (232, 121, 249),
            Color::TomlDateTime => (96, 165, 250),
            Color::Metadata => (120, 170, 210),
            Color::White => (255, 255, 255),
            Color::Black => (0, 0, 0),
        }
    }

    pub fn rgb(self) -> (r: (u8, u8, u8))
        ensures
            r == self.components(),
    {
        match self {
            Color::Accent => (103, 232, 249),
            Color::Dim => (153, 153, 153),
            Color::Subtle => (110, 110, 120),
            Color::Surface => (25, 25, 33),
            Color::Border => (66, 66, 80),
            Color::SelectionBg => (52, 52, 66),
            Color::PanelBg => (28, 28, 36),
            Color::BackdropBg => (12, 12, 16),
            Color::Success => (78, 186, 101),
            Color::Error => (255, 107, 128),
            Color::Warning => (255, 193, 7),
            Color::TomlString => (134, 239, 172),
            Color::TomlNumber => (251, 191, 36),
            Color::TomlBoolean => (232, 121, 249),
            Color::TomlDateTime => (96, 165, 250),
            Color::Metadata => (120, 170, 210),
            Color::White => (255, 255, 255),
            Color::Black => (0, 0, 0),
        }
    }
}

/// How a piece of text looks.
#[derive(Clone, Copy, Debug, PartialEq, Eq, Structural)]
pub struct Style {
    pub fg: Option<Color>,
    pub bg: Option<Color>,
    pub bold: bool,
    pub italic: bool,
    pub underlined: bool,
}

impl Style {
    pub open spec fn of(fg: Option<Color>, bg: Option<Color>) -> Style {
        Style { fg, bg, bold: false, italic: false, underlined: false }
    }

    pub open spec fn heavy(self) -> Style {
        Style { bold: true, ..self }
    }

    /// The terminal's own colours.
    pub fn plain() -> (r: Style)
        ensures
            r == Style::of(None, None),
    {
        Style { fg: None, bg: None, bold: false, italic: false, underlined: false }
    }

    pub fn with_fg(color: Color) -> (r: Style)
        ensures
            r == Style::of(Some(color), None),
    {
        Style { fg: Some(color), bg: None, bold: false, italic: false, underlined: false }
    }

    pub fn on(fg: Color, bg: Color) -> (r: Style)
        ensures
            r == Style::of(Some(fg), Some(bg)),
    {
        Style { fg: Some(fg), bg: Some(bg), bold: false, italic: false, underlined: false }
    }

    pub fn bold(self) -> (r: Style)
        ensures
            r == self.heavy(),
    {
        Style { bold: true, ..self }
    }
}

} // verus!
