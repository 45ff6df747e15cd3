//! What a widget asks to have painted. A widget paints nothing itself: it
//! hands back a list of paint operations, each with the area it is for, and
//! the caller has a terminal carry them out in order.

use crate::layout::Rect;
use vstd::prelude::*;

verus! {

/// A colour of the terminal.
#[derive(Clone, Copy, Debug, PartialEq, Eq, Structural)]
pub enum Color {
    Reset,
    Black,
    Red,
    Green,
    Yellow,
    Blue,
    Magenta,
    Cyan,
    Gray,
    DarkGray,
    White,
    Rgb(u8, u8, u8),
}

/// How text is painted. A colour that is `None` is left as it is.
#[derive(Clone, Copy, Debug, PartialEq, Eq, Structural)]
pub struct Style {
    pub fg: Option<Color>,
    pub bg: Option<Color>,
    pub bold: bool,
    pub italic: bool,
}

impl Style {
    /// The style that changes nothing.
    pub open spec fn plain() -> Style {
        Style { fg: None, bg: None, bold: false, italic: false }
    }

    /// The style that changes nothing.
    pub fn new() -> (style: Style)
        ensures
            style == Style::plain(),
    {
        Style { fg: None, bg: None, bold: false, italic: false }
    }

    /// The style with the given foreground colour.
    pub fn fg(self, color: Color) -> (style: Style)
        ensures
            style == (Style { fg: Some(color), ..self }),
    {
        Style { fg: Some(color), bg: self.bg, bold: self.bold, italic: self.italic }
    }

    /// The style with the given background colour.
    pub fn bg(self, color: Color) -> (style: Style)
        ensures
            style == (Style { bg: Some(color), ..self }),
    {
        Style { fg: self.fg, bg: Some(color), bold: self.bold, italic: self.italic }
    }

    /// The style in bold.
    pub fn bold(self) -> (style: Style)
        ensures
            style == (Style { bold: true, ..self }),
    {
        Style { fg: self.fg, bg: self.bg, bold: true, italic: self.italic }
    }

    /// The style in italics.
    pub fn italic(self) -> (style: Style)
        ensures
            style == (Style { italic: true, ..self }),
    {
        Style { fg: self.fg, bg: self.bg, bold: self.bold, italic: true }
    }
}

/// How the border of a block is drawn.
#[derive(Clone, Copy, Debug, PartialEq, Eq, Structural)]
pub enum BorderType {
    Plain,
    Rounded,
}

/// A piece of text in one style.
#[derive(Debug, PartialEq, Eq)]
pub struct Span {
    pub content: String,
    pub style: Style,
}

/// What a [`Span`] holds.
pub struct SpanView {
    pub content: Seq<char>,
    pub style: Style,
}

impl View for Span {
    type V = SpanView;

    open spec fn view(&self) -> SpanView {
        SpanView { content: self.content@, style: self.style }
    }
}

/// A line of text: spans side by side.
pub type Line = Vec<Span>;

/// What a line holds.
pub open spec fn line_view(line: Seq<Span>) -> Seq<SpanView> {
    Seq::new(line.len(), |i: int| line[i]@)
}

/// What a sequence of lines holds.
pub open spec fn line_views(lines: Seq<Line>) -> Seq<Seq<SpanView>> {
    Seq::new(lines.len(), |i: int| line_view(lines[i]@))
}

/// A frame around an area.
#[derive(Clone, Copy, Debug, PartialEq, Eq, Structural)]
pub struct Block {
    pub borders: bool,
    pub border_style: Style,
    pub border_type: BorderType,
}

/// One line of text in an area.
#[derive(Debug, PartialEq, Eq)]
pub struct Paragraph {
    pub line: Line,
    /// The style of the whole area; `None` leaves the area as it is.
    pub style: Option<Style>,
    pub centered: bool,
}

/// What a [`Paragraph`] holds.
pub struct ParagraphView {
    pub line: Seq<SpanView>,
    pub style: Option<Style>,
    pub centered: bool,
}

impl View for Paragraph {
    type V = ParagraphView;

    open spec fn view(&self) -> ParagraphView {
        ParagraphView { line: line_view(self.line@), style: self.style, centered: self.centered }
    }
}

/// An entry of a list: one or more lines.
#[derive(Debug, PartialEq, Eq)]
pub struct ListItem {
    pub lines: Vec<Line>,
}

impl View for ListItem {
    type V = Seq<Seq<SpanView>>;

    open spec fn view(&self) -> Seq<Seq<SpanView>> {
        line_views(self.lines@)
    }
}

/// What a sequence of list entries holds.
pub open spec fn item_views(items: Seq<ListItem>) -> Seq<Seq<Seq<SpanView>>> {
    Seq::new(items.len(), |i: int| items[i]@)
}

/// The text of a title, if there is one.
pub open spec fn title_view(title: Option<String>) -> Option<Seq<char>> {
    match title {
        Some(title) => Some(title@),
        None => None,
    }
}

/// A list with one entry selected.
#[derive(Debug, PartialEq, Eq)]
pub struct List {
    /// The title of the bordered frame around the list; `None` for a list
    /// without a frame.
    pub title: Option<String>,
    pub items: Vec<ListItem>,
    /// The index of the selected entry, if one is selected.
    pub selected: Option<usize>,
    pub highlight_style: Style,
    pub highlight_symbol: String,
    pub repeat_highlight_symbol: bool,
}

/// What a [`List`] holds.
pub struct ListView {
    pub title: Option<Seq<char>>,
    pub items: Seq<Seq<Seq<SpanView>>>,
    pub selected: Option<usize>,
    pub highlight_style: Style,
    pub highlight_symbol: Seq<char>,
    pub repeat_highlight_symbol: bool,
}

impl View for List {
    type V = ListView;

    open spec fn view(&self) -> ListView {
        ListView {
            title: title_view(self.title),
            items: item_views(self.items@),
            selected: self.selected,
            highlight_style: self.highlight_style,
            highlight_symbol: self.highlight_symbol@,
            repeat_highlight_symbol: self.repeat_highlight_symbol,
        }
    }
}

/// A row of tabs in a bordered frame, one of them selected.
#[derive(Debug, PartialEq, Eq)]
pub struct Tabs {
    pub title: String,
    pub titles: Line,
    pub selected: usize,
    pub highlight_style: Style,
}

/// What [`Tabs`] hold.
pub struct TabsView {
    pub title: Seq<char>,
    pub titles: Seq<SpanView>,
    pub selected: usize,
    pub highlight_style: Style,
}

impl View for Tabs {
    type V = TabsView;

    open spec fn view(&self) -> TabsView {
        TabsView {
            title: self.title@,
            titles: line_view(self.titles@),
            selected: self.selected,
            highlight_style: self.highlight_style,
        }
    }
}

/// A share of a width: `part` out of `whole` equal parts.
#[derive(Clone, Copy, Debug, PartialEq, Eq, Structural)]
pub struct Ratio {
    pub part: u32,
    pub whole: u32,
}

/// A table in a bordered frame: rows of cells, in columns that take the
/// given shares of the width.
#[derive(Debug, PartialEq, Eq)]
pub struct Table {
    pub title: String,
    pub widths: Vec<Ratio>,
    pub rows: Vec<Line>,
}

/// What a [`Table`] holds.
pub struct TableView {
    pub title: Seq<char>,
    pub widths: Seq<Ratio>,
    pub rows: Seq<Seq<SpanView>>,
}

impl View for Table {
    type V = TableView;

    open spec fn view(&self) -> TableView {
        TableView { title: self.title@, widths: self.widths@, rows: line_views(self.rows@) }
    }
}

/// One paint operation.
#[derive(Debug, PartialEq, Eq)]
pub enum Paint {
    Block(Block, Rect),
    Paragraph(Paragraph, Rect),
    List(List, Rect),
    Tabs(Tabs, Rect),
    Table(Table, Rect),
}

/// What a [`Paint`] holds.
pub enum PaintView {
    Block(Block, Rect),
    Paragraph(ParagraphView, Rect),
    List(ListView, Rect),
    Tabs(TabsView, Rect),
    Table(TableView, Rect),
}

impl View for Paint {
    type V = PaintView;

    open spec fn view(&self) -> PaintView {
        match self {
            Paint::Block(block, area) => PaintView::Block(*block, *area),
            Paint::Paragraph(paragraph, area) => PaintView::Paragraph(paragraph@, *area),
            Paint::List(list, area) => PaintView::List(list@, *area),
            Paint::Tabs(tabs, area) => PaintView::Tabs(tabs@, *area),
            Paint::Table(table, area) => PaintView::Table(table@, *area),
        }
    }
}

/// What a sequence of paint operations holds.
pub open spec fn paint_views(paints: Seq<Paint>) -> Seq<PaintView> {
    Seq::new(paints.len(), |i: int| paints[i]@)
}

/// Moves the paint operations of `more` behind those of `paints`.
pub fn append_paints(paints: &mut Vec<Paint>, more: Vec<Paint>)
    ensures
        paint_views(final(paints)@) == paint_views(old(paints)@) + paint_views(more@),
{
    let mut rest = more;
    paints.append(&mut rest);
    assert(paint_views(paints@) =~= paint_views(old(paints)@) + paint_views(more@));
}

} // verus!
