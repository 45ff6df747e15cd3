//! The pieces that the widgets are put together from.

use crate::layout::{inner, inner_area, Padding, Rect};
use crate::paint::{
    line_views, Block, Color, Line, List, ListItem, Paragraph, Span, SpanView, Style,
};
use crate::text::{push_char, texts};
use crate::theme::Theme;
use vstd::prelude::*;
use vstd::string::*;

verus! {

/// The frame that `theme` gives an area, with borders only where both the
/// caller and the theme want them.
pub open spec fn framed(theme: Theme, borders: bool) -> Block {
    Block {
        borders: borders && theme.borders,
        border_style: theme.border_style,
        border_type: theme.border_type,
    }
}

/// A frame for `area` in the styles of `theme`, and the area that `padding`
/// leaves inside it.
pub fn block(theme: &Theme, area: Rect, padding: Padding, borders: bool) -> (result: (Block, Rect))
    ensures
        result.0 == framed(*theme, borders),
        result.1 == inner(area, padding),
{
    let borders = if borders {
        theme.borders
    } else {
        false
    };
    let block = Block {
        borders,
        border_style: theme.border_style,
        border_type: theme.border_type,
    };
    (block, inner_area(area, padding))
}

/// `text` with a blank on either side.
pub open spec fn padded(text: Seq<char>) -> Seq<char> {
    seq![' '] + text + seq![' ']
}

/// `text` with a blank on either side.
fn pad(text: &String) -> (result: String)
    ensures
        result@ == padded(text@),
{
    let mut result = String::new();
    push_char(&mut result, ' ');
    result.append(text.as_str());
    push_char(&mut result, ' ');
    assert(result@ =~= padded(text@));
    result
}

/// A paragraph of one line: `text` in `style` with a blank on either side.
/// The area around the text is left as it is.
pub fn paragraph(text: &String, style: Style) -> (result: Paragraph)
    ensures
        result@.line == seq![SpanView { content: padded(text@), style }],
        result@.style == None::<Style>,
        !result@.centered,
{
    let mut line: Line = Vec::new();
    line.push(Span { content: pad(text), style });
    let result = Paragraph { line, style: None, centered: false };
    assert(result@.line =~= seq![SpanView { content: padded(text@), style }]);
    result
}

/// A paragraph of one line: `text` in `style` with a blank on either side,
/// on an area that is in `style` as a whole.
pub fn paragraph_styled(text: &String, style: Style) -> (result: Paragraph)
    ensures
        result@.line == seq![SpanView { content: padded(text@), style }],
        result@.style == Some(style),
        !result@.centered,
{
    let mut line: Line = Vec::new();
    line.push(Span { content: pad(text), style });
    let result = Paragraph { line, style: Some(style), centered: false };
    assert(result@.line =~= seq![SpanView { content: padded(text@), style }]);
    result
}

/// A list of `items` with the entry `selected` highlighted as `theme` says,
/// the highlight symbol in front of each of its lines, and no frame.
pub fn list(items: Vec<ListItem>, selected: usize, theme: &Theme) -> (result: List)
    ensures
        result.title is None,
        result.items == items,
        result.selected == Some(selected),
        result.highlight_style == theme.highlight_style,
        result.highlight_symbol@ == theme.highlight_symbol@,
        result.repeat_highlight_symbol,
{
    List {
        title: None,
        items,
        selected: Some(selected),
        highlight_style: theme.highlight_style,
        highlight_symbol: theme.highlight_symbol.clone(),
        repeat_highlight_symbol: true,
    }
}

/// `count` blanks.
pub open spec fn blanks(count: nat) -> Seq<char> {
    Seq::new(count, |i: int| ' ')
}

/// A string of `indent` blanks.
pub fn whitespaces(indent: u16) -> (spaces: String)
    ensures
        spaces@ == blanks(indent as nat),
{
    let mut spaces = String::new();
    let mut i: u16 = 0;
    while i < indent
        invariant
            i <= indent,
            spaces@ == blanks(i as nat),
        decreases indent - i,
    {
        push_char(&mut spaces, ' ');
        i += 1;
        assert(spaces@ =~= blanks(i as nat));
    }
    spaces
}

/// The lines into which `content` is wrapped for columns of `width`
/// characters, each line behind `indent`.
pub uninterp spec fn wrapped(content: Seq<char>, width: usize, indent: Seq<char>) -> Seq<Seq<char>>;

/// Wraps `content` with `textwrap::wrap`, with `indent` as the first and as
/// every later indent and the defaults of `textwrap::Options` otherwise.
///
/// Trusted: the result is the wrapping named by [`wrapped`].
#[verifier::external_body]
pub(crate) fn wrap(content: &str, width: usize, indent: &str) -> (lines: Vec<String>)
    ensures
        texts(lines@) == wrapped(content@, width, indent@),
{
    let options = textwrap::Options::new(width).initial_indent(indent).subsequent_indent(indent);
    textwrap::wrap(content, options).iter().map(|line| line.to_string()).collect()
}

/// The width to wrap at: what `indent` leaves of `width`, and 80 where
/// the indent is wider than that.
pub open spec fn wrap_width(width: u16, indent: u16) -> usize {
    if indent <= width {
        (width - indent) as usize
    } else {
        80
    }
}

/// The lines of a text, each as one span in `style`.
pub open spec fn styled_lines(lines: Seq<Seq<char>>, style: Style) -> Seq<Seq<SpanView>> {
    Seq::new(lines.len(), |i: int| seq![SpanView { content: lines[i], style }])
}

/// Turns each of `texts` into a line of one span in `style`.
pub fn style_lines(wrapped: Vec<String>, style: Style) -> (lines: Vec<Line>)
    ensures
        line_views(lines@) == styled_lines(texts(wrapped@), style),
{
    let mut lines: Vec<Line> = Vec::new();
    let mut i: usize = 0;
    while i < wrapped.len()
        invariant
            i <= wrapped.len(),
            lines@.len() == i,
            forall|j: int|
                0 <= j < i ==> crate::paint::line_view((#[trigger] lines@[j])@) == seq![
                    SpanView { content: wrapped@[j]@, style },
                ],
        decreases wrapped.len() - i,
    {
        let mut line: Line = Vec::new();
        line.push(Span { content: wrapped[i].clone(), style });
        assert(crate::paint::line_view(line@) =~= seq![SpanView { content: wrapped@[i as int]@, style }]);
        lines.push(line);
        i += 1;
    }
    assert(line_views(lines@) =~= styled_lines(texts(wrapped@), style));
    lines
}

/// The style of wrapped text: light grey.
pub open spec fn text_style() -> Style {
    Style { fg: Some(Color::Rgb(200, 200, 200)), ..Style::plain() }
}

/// `content` wrapped into `width` columns behind `indent` blanks, each line
/// in light grey.
pub fn lines(content: &String, width: u16, indent: u16) -> (result: Vec<Line>)
    ensures
        line_views(result@) == styled_lines(
            wrapped(content@, wrap_width(width, indent), blanks(indent as nat)),
            text_style(),
        ),
{
    let style = Style::new().fg(Color::Rgb(200, 200, 200));
    let wrap_at = match width.checked_sub(indent) {
        Some(rest) => rest as usize,
        None => 80,
    };
    let indent = whitespaces(indent);
    style_lines(wrap(content.as_str(), wrap_at, indent.as_str()), style)
}

} // verus!
