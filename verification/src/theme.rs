//! Themes: the styles in which the widgets paint.

use crate::paint::{BorderType, Color, Style};
use vstd::prelude::*;
use vstd::string::*;

verus! {

/// The styles of the widgets.
#[derive(Debug)]
pub struct Theme {
    /// Whether blocks have borders at all.
    pub borders: bool,
    pub border_style: Style,
    pub border_type: BorderType,
    /// The style of the selected entry of a list, and of titles.
    pub highlight_style: Style,
    /// What stands in front of the selected entry of a list.
    pub highlight_symbol: String,
    /// The style of main texts.
    pub primary: Style,
    /// The style of secondary texts, such as authors and ages.
    pub secondary: Style,
}

/// The styles that the themes have in common.
pub open spec fn common_styles(theme: Theme) -> bool {
    &&& theme.borders
    &&& theme.primary == Style::plain()
    &&& theme.secondary == (Style { italic: true, ..Style::plain() })
}

impl Theme {
    /// The classic theme: plain borders, the selection white on yellow, and
    /// no symbol in front of it.
    pub fn classic() -> (theme: Theme)
        ensures
            common_styles(theme),
            theme.border_style == Style::plain(),
            theme.border_type == BorderType::Plain,
            theme.highlight_style == (Style {
                fg: Some(Color::White),
                bg: Some(Color::Yellow),
                ..Style::plain()
            }),
            theme.highlight_symbol@ == Seq::<char>::empty(),
    {
        Theme {
            borders: true,
            border_style: Style::new(),
            border_type: BorderType::Plain,
            highlight_style: Style::new().bg(Color::Yellow).fg(Color::White),
            highlight_symbol: String::new(),
            primary: Style::new(),
            secondary: Style::new().italic(),
        }
    }

    /// The modern theme: rounded borders in pink, the selection in bold
    /// green, and `> ` in front of it.
    pub fn modern() -> (theme: Theme)
        ensures
            common_styles(theme),
            theme.border_style == (Style { fg: Some(Color::Rgb(238, 111, 248)), ..Style::plain() }),
            theme.border_type == BorderType::Rounded,
            theme.highlight_style == (Style {
                fg: Some(Color::Rgb(148, 176, 77)),
                bold: true,
                ..Style::plain()
            }),
            theme.highlight_symbol@ == "> "@,
    {
        Theme {
            borders: true,
            border_style: Style::new().fg(Color::Rgb(238, 111, 248)),
            border_type: BorderType::Rounded,
            highlight_style: Style::new().fg(Color::Rgb(148, 176, 77)).bold(),
            highlight_symbol: String::from_str("> "),
            primary: Style::new(),
            secondary: Style::new().italic(),
        }
    }
}

} // verus!
