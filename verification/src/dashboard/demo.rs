//! The smallest application: a title, and a flag that ends the loop.

use crate::events::{InputEvent, Key};
use crate::layout::Rect;
use crate::paint::{paint_views, Line, Paint, PaintView, Paragraph, ParagraphView, Span, SpanView, Style};
use vstd::prelude::*;
use vstd::string::*;

verus! {

/// An application that does nothing but wait to be quit.
#[derive(Debug)]
pub struct App<'a> {
    pub title: &'a str,
    pub should_quit: bool,
}

/// Whether `event` asks the application to end: it does if it is the key
/// `q`.
pub open spec fn quits(event: InputEvent) -> bool {
    event == InputEvent::Input(Key::Char('q'))
}

/// What the application paints: its title, in the whole of `area`.
pub open spec fn title_painted(title: Seq<char>, area: Rect) -> Seq<PaintView> {
    seq![
        PaintView::Paragraph(
            ParagraphView {
                line: seq![SpanView { content: title, style: Style::plain() }],
                style: None,
                centered: false,
            },
            area,
        ),
    ]
}

impl<'a> App<'a> {
    /// An application with the given title, which goes on.
    pub fn new(title: &'a str) -> (app: App<'a>)
        ensures
            app.title@ == title@,
            !app.should_quit,
    {
        App { title, should_quit: false }
    }

    /// Asks the loop to end.
    pub fn on_quit(&mut self)
        ensures
            final(self).should_quit,
            final(self).title@ == old(self).title@,
    {
        self.should_quit = true;
    }

    /// Handles a tick, which changes nothing.
    pub fn on_tick(&mut self)
        ensures
            final(self).should_quit == old(self).should_quit,
            final(self).title@ == old(self).title@,
    {
    }

    /// Handles an event: the key `q` asks the loop to end, and nothing else
    /// changes the application.
    pub fn on_event(&mut self, event: &InputEvent)
        ensures
            final(self).should_quit == (old(self).should_quit || quits(*event)),
            final(self).title@ == old(self).title@,
    {
        match event {
            InputEvent::Input(Key::Char(c)) => {
                if *c == 'q' {
                    self.on_quit();
                }
            },
            InputEvent::Tick => self.on_tick(),
            _ => {},
        }
    }

    /// What is to be painted for the application in `area`.
    pub fn draw(&self, area: Rect) -> (paints: Vec<Paint>)
        ensures
            paint_views(paints@) == title_painted(self.title@, area),
    {
        let mut line: Line = Vec::new();
        line.push(Span { content: String::from_str(self.title), style: Style::new() });
        let text = Paragraph { line, style: None, centered: false };
        assert(text@.line =~= seq![SpanView { content: self.title@, style: Style::plain() }]);
        let mut paints: Vec<Paint> = Vec::new();
        paints.push(Paint::Paragraph(text, area));
        assert(paint_views(paints@) =~= title_painted(self.title@, area));
        paints
    }
}

} // verus!
