//! The window: pages of widgets above a bar of shortcuts.
//!
//! A widget reads the state store and hands back what is to be painted. How
//! an area is divided among widgets is left to the layout solver: a widget
//! that divides its area says which lengths it asks for, and what it paints
//! is stated for whatever parts come back.

use crate::error::{Error, Failure};
use crate::layout::{
    divided, inner, length_constraints, split_area, Direction, Padding, Rect,
};
use crate::paint::{
    append_paints, paint_views, Block, BorderType, Line, Paint, PaintView, Paragraph, ParagraphView, Span, SpanView, Style,
};
use crate::store::{index_at, list_at, mode_at, require, text_at, Model, State};
use crate::template::{block, framed, padded, paragraph, paragraph_styled};
use crate::text::texts;
use crate::theme::Theme;
use std::rc::Rc;
use vstd::prelude::*;
use vstd::string::*;

verus! {

/// Where the keys go: to the bindings (`Normal`) or to the editor (`Editing`).
#[derive(Clone, Copy, Debug, PartialEq, Eq, Structural)]
pub enum Mode {
    Normal,
    Editing,
}

/// What drawing gives: the paint operations, or the failure of a read.
pub type Outcome = Result<Seq<PaintView>, Failure>;

/// The outcome that a result of drawing stands for.
pub open spec fn outcome_of(result: Result<Vec<Paint>, Error>) -> Outcome {
    match result {
        Ok(paints) => Ok(paint_views(paints@)),
        Err(error) => Err(error.failure()),
    }
}

/// The outcome of drawing one thing and then another: the paint operations
/// of both in that order, or the first failure.
pub open spec fn then(first: Outcome, second: Outcome) -> Outcome {
    match first {
        Err(failure) => Err(failure),
        Ok(paints) => match second {
            Err(failure) => Err(failure),
            Ok(more) => Ok(paints + more),
        },
    }
}

/// Something that can be drawn into an area.
pub trait Widget {
    /// Whether `outcome` is one that drawing the widget may have. A widget
    /// that divides its area has one outcome for each way in which the area
    /// may be divided; every other widget has exactly one.
    spec fn draws(&self, theme: Theme, area: Rect, model: Model, now: u64, outcome: Outcome) -> bool;

    /// The height that the widget asks for in `area`.
    spec fn wanted_height(&self, area: Rect) -> u16;

    /// What is to be painted for the widget in `area`, given the state and
    /// the time, in seconds since the Unix epoch. The state is only read.
    fn draw(&self, theme: &Theme, area: Rect, state: &State, now: u64) -> (result: Result<
        Vec<Paint>,
        Error,
    >)
        ensures
            self.draws(*theme, area, state.model(), now, outcome_of(result)),
    ;

    /// The height that the widget asks for in `area`.
    fn height(&self, area: Rect) -> (height: u16)
        ensures
            height == self.wanted_height(area),
    ;
}

/// A paragraph of one span, as it is painted.
pub open spec fn one_span(content: Seq<char>, style: Style, filled: bool, area: Rect) -> PaintView {
    PaintView::Paragraph(
        ParagraphView {
            line: seq![SpanView { content, style }],
            style: if filled {
                Some(style)
            } else {
                None
            },
            centered: false,
        },
        area,
    )
}

/// The title of the application: the name of the project in a frame.
#[derive(Clone, Copy, Debug)]
pub struct TitleWidget;

/// What the title paints: a frame around the area and the project's name in it.
pub open spec fn title_drawn(theme: Theme, area: Rect, model: Model) -> Outcome {
    match text_at(model, "project.name"@) {
        Err(failure) => Err(failure),
        Ok(name) => Ok(
            seq![
                PaintView::Block(framed(theme, true), area),
                one_span(
                    padded(name),
                    theme.highlight_style,
                    false,
                    inner(area, Padding { top: 1, left: 4 }),
                ),
            ],
        ),
    }
}

impl Widget for TitleWidget {
    open spec fn draws(&self, theme: Theme, area: Rect, model: Model, now: u64, outcome: Outcome) -> bool {
        outcome == title_drawn(theme, area, model)
    }

    open spec fn wanted_height(&self, area: Rect) -> u16 {
        3
    }

    fn draw(&self, theme: &Theme, area: Rect, state: &State, now: u64) -> (result: Result<
        Vec<Paint>,
        Error,
    >) {
        let project = match require::<String>(state, "project.name") {
            Ok(project) => project,
            Err(error) => return Err(error),
        };
        let (frame, inner) = block(theme, area, Padding { top: 1, left: 4 }, true);
        let mut paints: Vec<Paint> = Vec::new();
        paints.push(Paint::Block(frame, area));
        paints.push(Paint::Paragraph(paragraph(project, theme.highlight_style), inner));
        assert(paint_views(paints@) =~= title_drawn(*theme, area, state.model())->Ok_0);
        Ok(paints)
    }

    fn height(&self, _area: Rect) -> (height: u16) {
        3
    }
}

/// The width that a shortcut asks for: its length in bytes and a blank on
/// either side, as far as a `u16` can hold it.
pub open spec fn shortcut_width(text: Seq<char>) -> u16 {
    let len = vstd::utf8::encode_utf8(text).len() as usize;
    if len > u16::MAX - 2 {
        u16::MAX
    } else {
        (len + 2) as u16
    }
}

/// The widths that the shortcuts ask for.
pub open spec fn shortcut_widths(shortcuts: Seq<Seq<char>>) -> Seq<u16> {
    Seq::new(shortcuts.len(), |i: int| shortcut_width(shortcuts[i]))
}

/// What is painted for shortcuts in the parts of the bar: each shortcut in
/// its part, as far as there are parts.
pub open spec fn shortcuts_painted(theme: Theme, shortcuts: Seq<Seq<char>>, parts: Seq<Rect>) -> Seq<
    PaintView,
> {
    Seq::new(
        if parts.len() < shortcuts.len() {
            parts.len()
        } else {
            shortcuts.len()
        },
        |i: int| one_span(shortcuts[i], theme.secondary, false, parts[i]),
    )
}

/// The bar of shortcuts at the foot of the window.
#[derive(Clone, Copy, Debug)]
pub struct ShortcutWidget;

impl ShortcutWidget {
    /// The widths that the shortcuts ask for, in their order.
    pub fn widths(shortcuts: &Vec<String>) -> (widths: Vec<u16>)
        ensures
            widths@ == shortcut_widths(texts(shortcuts@)),
    {
        let mut widths: Vec<u16> = Vec::new();
        let mut i: usize = 0;
        while i < shortcuts.len()
            invariant
                i <= shortcuts.len(),
                widths@.len() == i,
                forall|j: int| 0 <= j < i ==> widths@[j] == shortcut_width(shortcuts@[j]@),
            decreases shortcuts.len() - i,
        {
            let len = shortcuts[i].as_str().len();
            let width: u16 = if len > 65533 {
                u16::MAX
            } else {
                (len + 2) as u16
            };
            widths.push(width);
            i += 1;
        }
        assert(widths@ =~= shortcut_widths(texts(shortcuts@)));
        widths
    }

    /// What is painted for the shortcuts, given the parts into which the
    /// bar was divided.
    pub fn draw_in(theme: &Theme, shortcuts: &Vec<String>, parts: &Vec<Rect>) -> (paints: Vec<Paint>)
        ensures
            paint_views(paints@) == shortcuts_painted(*theme, texts(shortcuts@), parts@),
    {
        let count = if parts.len() < shortcuts.len() {
            parts.len()
        } else {
            shortcuts.len()
        };
        let mut paints: Vec<Paint> = Vec::new();
        let mut i: usize = 0;
        while i < count
            invariant
                i <= count,
                count <= parts.len(),
                count <= shortcuts.len(),
                paints@.len() == i,
                forall|j: int|
                    0 <= j < i ==> (#[trigger] paints@[j])@ == one_span(
                        shortcuts@[j]@,
                        theme.secondary,
                        false,
                        parts@[j],
                    ),
            decreases count - i,
        {
            let mut line: Line = Vec::new();
            line.push(Span { content: shortcuts[i].clone(), style: theme.secondary });
            let text = Paragraph { line, style: None, centered: false };
            assert(text@.line =~= seq![
                SpanView { content: shortcuts@[i as int]@, style: theme.secondary },
            ]);
            paints.push(Paint::Paragraph(text, parts[i]));
            i += 1;
        }
        assert(paint_views(paints@) =~= shortcuts_painted(*theme, texts(shortcuts@), parts@));
        paints
    }
}

/// Whether `outcome` is one that drawing the shortcuts may have: each
/// shortcut in a part of its own, wherever the parts lie.
pub open spec fn shortcuts_drawn(theme: Theme, area: Rect, model: Model, outcome: Outcome) -> bool {
    match list_at(model, "app.shortcuts"@) {
        Err(failure) => outcome == Err::<Seq<PaintView>, Failure>(failure),
        Ok(shortcuts) => exists|parts: Seq<Rect>|
            {
                &&& divided(
                    inner(area, Padding { top: 1, left: 2 }),
                    length_constraints(shortcut_widths(shortcuts)),
                    Direction::Horizontal,
                    parts,
                )
                &&& #[trigger] parts.len() == shortcuts.len()
                &&& outcome == Ok::<Seq<PaintView>, Failure>(shortcuts_painted(theme, shortcuts, parts))
            },
    }
}

impl Widget for ShortcutWidget {
    open spec fn draws(&self, theme: Theme, area: Rect, model: Model, now: u64, outcome: Outcome) -> bool {
        shortcuts_drawn(theme, area, model, outcome)
    }

    open spec fn wanted_height(&self, area: Rect) -> u16 {
        3
    }

    fn draw(&self, theme: &Theme, area: Rect, state: &State, now: u64) -> (result: Result<
        Vec<Paint>,
        Error,
    >) {
        let shortcuts = match require::<Vec<String>>(state, "app.shortcuts") {
            Ok(shortcuts) => shortcuts,
            Err(error) => return Err(error),
        };
        let (_, inner) = block(theme, area, Padding { top: 1, left: 2 }, false);
        let parts = split_area(inner, ShortcutWidget::widths(shortcuts), Direction::Horizontal);
        let paints = ShortcutWidget::draw_in(theme, shortcuts, &parts);
        proof {
            let listed = texts(shortcuts@);
            assert(list_at(state.model(), "app.shortcuts"@) == Ok::<Seq<Seq<char>>, Failure>(listed));
            assert(parts@.len() == listed.len());
            assert(divided(
                crate::layout::inner(area, Padding { top: 1, left: 2 }),
                length_constraints(shortcut_widths(listed)),
                Direction::Horizontal,
                parts@,
            ));
            assert(outcome_of(Ok(paints)) == Ok::<Seq<PaintView>, Failure>(
                shortcuts_painted(*theme, listed, parts@),
            ));
        }
        Ok(paints)
    }

    fn height(&self, _area: Rect) -> (height: u16) {
        3
    }
}

/// A widget that shows nothing and takes no room.
#[derive(Clone, Copy, Debug)]
pub struct EmptyWidget;

/// What the empty widget paints: a frame without borders.
pub open spec fn empty_drawn(area: Rect) -> Outcome {
    Ok(
        seq![
            PaintView::Block(
                Block { borders: false, border_style: Style::plain(), border_type: BorderType::Plain },
                area,
            ),
        ],
    )
}

impl Widget for EmptyWidget {
    open spec fn draws(&self, theme: Theme, area: Rect, model: Model, now: u64, outcome: Outcome) -> bool {
        outcome == empty_drawn(area)
    }

    open spec fn wanted_height(&self, area: Rect) -> u16 {
        0
    }

    fn draw(&self, theme: &Theme, area: Rect, state: &State, now: u64) -> (result: Result<
        Vec<Paint>,
        Error,
    >) {
        let mut paints: Vec<Paint> = Vec::new();
        paints.push(
            Paint::Block(
                Block { borders: false, border_style: Style::new(), border_type: BorderType::Plain },
                area,
            ),
        );
        assert(paint_views(paints@) =~= empty_drawn(area)->Ok_0);
        Ok(paints)
    }

    fn height(&self, _area: Rect) -> (height: u16) {
        0
    }
}

/// The width of the editor's title: `Comment` and a blank on either side.
pub open spec fn editor_title_width() -> u16 {
    9
}

/// The widths asked for in the editor's bar, given the rows into which the
/// panel was divided: the title's, and what the bar has left.
pub open spec fn editor_bar_widths(rows: Seq<Rect>) -> Seq<u16> {
    if rows.len() < 2 {
        Seq::empty()
    } else {
        seq![
            editor_title_width(),
            if rows[1].width < editor_title_width() {
                0
            } else {
                (rows[1].width - editor_title_width()) as u16
            },
        ]
    }
}

/// What the editor panel paints into the parts of its bar: the title, and
/// a spacer behind it.
pub open spec fn editor_painted(theme: Theme, parts: Seq<Rect>) -> Seq<PaintView> {
    if parts.len() < 2 {
        Seq::empty()
    } else {
        seq![
            one_span(padded("Comment"@), theme.highlight_style, true, parts[0]),
            one_span(padded(Seq::empty()), theme.secondary, true, parts[1]),
        ]
    }
}

/// The heights asked for in the editor panel: nineteen rows for the text,
/// and one for the bar below it.
pub open spec fn editor_heights() -> Seq<u16> {
    seq![19, 1]
}

/// Whether `outcome` is one that drawing the editor panel in editing mode
/// may have: the panel is divided into the rows for text and bar, the bar
/// into title and spacer, and these two are painted, wherever they lie.
pub open spec fn editing_drawn(theme: Theme, area: Rect, outcome: Outcome) -> bool {
    exists|rows: Seq<Rect>, parts: Seq<Rect>|
        #![trigger rows.len(), parts.len()]
        {
            &&& divided(area, length_constraints(editor_heights()), Direction::Vertical, rows)
            &&& rows.len() == 2
            &&& divided(
                rows[1],
                length_constraints(editor_bar_widths(rows)),
                Direction::Horizontal,
                parts,
            )
            &&& parts.len() == 2
            &&& outcome == Ok::<Seq<PaintView>, Failure>(editor_painted(theme, parts))
        }
}

/// The panel in which a comment is written. It is drawn in editing mode
/// only.
#[derive(Clone, Copy, Debug)]
pub struct EditorWidget;

impl EditorWidget {
    /// The widths to ask for in the bar below the text, given the rows into
    /// which the panel was divided.
    pub fn bar_widths(rows: &Vec<Rect>) -> (widths: Vec<u16>)
        ensures
            widths@ == editor_bar_widths(rows@),
    {
        let mut widths: Vec<u16> = Vec::new();
        if rows.len() >= 2 {
            let title_w: u16 = 9;
            let remaining_w = match rows[1].width.checked_sub(title_w) {
                Some(rest) => rest,
                None => 0,
            };
            widths.push(title_w);
            widths.push(remaining_w);
        }
        assert(widths@ =~= editor_bar_widths(rows@));
        widths
    }

    /// What is painted for the panel, given the parts into which its bar
    /// was divided.
    pub fn draw_in(theme: &Theme, parts: &Vec<Rect>) -> (paints: Vec<Paint>)
        ensures
            paint_views(paints@) == editor_painted(*theme, parts@),
    {
        let mut paints: Vec<Paint> = Vec::new();
        if parts.len() >= 2 {
            let title = String::from_str("Comment");
            let spacer = String::new();
            paints.push(Paint::Paragraph(paragraph_styled(&title, theme.highlight_style), parts[0]));
            paints.push(Paint::Paragraph(paragraph_styled(&spacer, theme.secondary), parts[1]));
        }
        assert(paint_views(paints@) =~= editor_painted(*theme, parts@));
        paints
    }
}

impl Widget for EditorWidget {
    open spec fn draws(&self, theme: Theme, area: Rect, model: Model, now: u64, outcome: Outcome) -> bool {
        match mode_at(model, "app.mode"@) {
            Err(failure) => outcome == Err::<Seq<PaintView>, Failure>(failure),
            Ok(Mode::Normal) => outcome == Ok::<Seq<PaintView>, Failure>(Seq::empty()),
            Ok(Mode::Editing) => editing_drawn(theme, area, outcome),
        }
    }

    open spec fn wanted_height(&self, area: Rect) -> u16 {
        20
    }

    fn draw(&self, theme: &Theme, area: Rect, state: &State, now: u64) -> (result: Result<
        Vec<Paint>,
        Error,
    >) {
        let mode = match require::<Mode>(state, "app.mode") {
            Ok(mode) => *mode,
            Err(error) => return Err(error),
        };
        match mode {
            Mode::Normal => {
                let paints: Vec<Paint> = Vec::new();
                assert(paint_views(paints@) =~= Seq::<PaintView>::empty());
                Ok(paints)
            },
            Mode::Editing => {
                let mut lengths: Vec<u16> = Vec::new();
                lengths.push(19);
                lengths.push(1);
                assert(lengths@ =~= editor_heights());
                let rows = split_area(area, lengths, Direction::Vertical);
                let widths = EditorWidget::bar_widths(&rows);
                let parts = split_area(rows[1], widths, Direction::Horizontal);
                let paints = EditorWidget::draw_in(theme, &parts);
                assert(paint_views(paints@) == editor_painted(*theme, parts@));
                Ok(paints)
            },
        }
    }

    fn height(&self, _area: Rect) -> (height: u16) {
        20
    }
}

/// Whether `outcome` is one that drawing the first `count` of `children`
/// may have, each in the area with its index, one after the other until one
/// fails.
pub open spec fn children_drawn<W: Widget>(
    children: Seq<W>,
    areas: Seq<Rect>,
    count: nat,
    theme: Theme,
    model: Model,
    now: u64,
    outcome: Outcome,
) -> bool
    decreases count,
{
    if count == 0 {
        outcome == Ok::<Seq<PaintView>, Failure>(Seq::empty())
    } else {
        exists|before: Outcome, last: Outcome|
            {
                &&& children_drawn(children, areas, (count - 1) as nat, theme, model, now, before)
                &&& before is Ok ==> children[count - 1].draws(
                    theme,
                    areas[count - 1],
                    model,
                    now,
                    last,
                )
                &&& outcome == #[trigger] then(before, last)
            }
    }
}

/// Once a child has failed, the failure is the outcome, however many
/// children follow.
pub proof fn lemma_failure_stays<W: Widget>(
    children: Seq<W>,
    areas: Seq<Rect>,
    count: nat,
    more: nat,
    theme: Theme,
    model: Model,
    now: u64,
    failure: Failure,
)
    requires
        children_drawn(children, areas, count, theme, model, now, Err(failure)),
    ensures
        children_drawn(children, areas, count + more, theme, model, now, Err(failure)),
    decreases more,
{
    if more > 0 {
        lemma_failure_stays(children, areas, count, (more - 1) as nat, theme, model, now, failure);
        let before: Outcome = Err(failure);
        let last: Outcome = Err(failure);
        assert(then(before, last) == before);
    }
}

/// The heights asked for on a page: the title's, an equal share of what is
/// left for each content widget, the context's and the editor's.
pub open spec fn page_lengths(
    title: u16,
    content: nat,
    context: u16,
    editor: u16,
    height: u16,
) -> Seq<u16> {
    seq![title] + Seq::new(content, |i: int| content_height(title, content, context, editor, height))
        + seq![context, editor]
}

/// The height of each of `content` content widgets: what the fixed heights
/// leave of `height`, divided evenly among them; 0 where they leave
/// nothing, and where there is no content widget.
pub open spec fn content_height(title: u16, content: nat, context: u16, editor: u16, height: u16) -> u16 {
    let fixed = title + context + editor;
    let left = if fixed > height {
        0
    } else {
        height - fixed
    };
    if content == 0 {
        0
    } else {
        (left / content as int) as u16
    }
}

/// A page: a title, content widgets below each other, a context bar and
/// the editor panel, which takes room in editing mode only.
pub struct PageWidget<W: Widget> {
    pub title: Rc<W>,
    pub widgets: Vec<Rc<W>>,
    pub context: Rc<W>,
    pub editor: Rc<W>,
}

impl<W: Widget> PageWidget<W> {
    /// The widgets of the page in the order in which they are drawn.
    pub open spec fn children(&self) -> Seq<W> {
        seq![*self.title] + Seq::new(self.widgets@.len(), |i: int| *self.widgets@[i]) + seq![
            *self.context,
            *self.editor,
        ]
    }

    /// The height that the editor panel gets: none in normal mode.
    pub open spec fn editor_height(&self, area: Rect, mode: Mode) -> u16 {
        match mode {
            Mode::Normal => 0,
            Mode::Editing => self.editor.wanted_height(area),
        }
    }

    /// The heights that the page asks for in `area`.
    pub open spec fn wanted_lengths(&self, area: Rect, mode: Mode) -> Seq<u16> {
        page_lengths(
            self.title.wanted_height(area),
            self.widgets@.len(),
            self.context.wanted_height(area),
            self.editor_height(area, mode),
            area.height,
        )
    }

    /// The child with the given index.
    fn child(&self, index: usize) -> (child: &W)
        requires
            index < self.children().len(),
        ensures
            *child == self.children()[index as int],
    {
        if index == 0 {
            &self.title
        } else if index - 1 < self.widgets.len() {
            &self.widgets[index - 1]
        } else if index - 1 == self.widgets.len() {
            &self.context
        } else {
            &self.editor
        }
    }

    /// The heights that the page asks for in `area`: those of title,
    /// context and editor as these ask for them, and for each content widget
    /// an equal share of the rest.
    pub fn lengths(&self, area: Rect, mode: Mode) -> (lengths: Vec<u16>)
        ensures
            lengths@ == self.wanted_lengths(area, mode),
    {
        let title_h = self.title.height(area);
        let context_h = self.context.height(area);
        let editor_h = match mode {
            Mode::Normal => 0,
            Mode::Editing => self.editor.height(area),
        };
        let fixed: u32 = title_h as u32 + context_h as u32 + editor_h as u32;
        let area_h: u16 = if fixed > area.height as u32 {
            0
        } else {
            (area.height as u32 - fixed) as u16
        };
        let count = self.widgets.len();
        let widget_h: u16 = if count == 0 {
            0
        } else {
            assert(area_h as int / count as int <= area_h) by (nonlinear_arith)
                requires
                    0 <= area_h,
                    0 < count,
            ;
            (area_h as usize / count) as u16
        };
        let mut lengths: Vec<u16> = Vec::new();
        lengths.push(title_h);
        let mut i: usize = 0;
        while i < self.widgets.len()
            invariant
                i <= self.widgets.len(),
                lengths@.len() == i + 1,
                lengths@[0] == title_h,
                forall|j: int| 1 <= j <= i ==> lengths@[j] == widget_h,
            decreases self.widgets.len() - i,
        {
            lengths.push(widget_h);
            i += 1;
        }
        lengths.push(context_h);
        lengths.push(editor_h);
        assert(lengths@ =~= self.wanted_lengths(area, mode));
        lengths
    }

    /// The number of children that get drawn in `areas`: all, as far as
    /// there are areas.
    pub open spec fn drawn_count(&self, areas: Seq<Rect>) -> nat {
        if areas.len() < self.children().len() {
            areas.len()
        } else {
            self.children().len()
        }
    }

    /// What is painted for the page, given the areas into which it was
    /// divided: the title, the content widgets, the context and the editor,
    /// each in its area, until one fails or the areas run out.
    pub fn draw_in(&self, theme: &Theme, areas: &Vec<Rect>, state: &State, now: u64) -> (result: Result<
        Vec<Paint>,
        Error,
    >)
        ensures
            children_drawn(
                self.children(),
                areas@,
                self.drawn_count(areas@),
                *theme,
                state.model(),
                now,
                outcome_of(result),
            ),
    {
        let count = if areas.len() < 3 || areas.len() - 3 < self.widgets.len() {
            areas.len()
        } else {
            self.widgets.len() + 3
        };
        let mut paints: Vec<Paint> = Vec::new();
        let mut i: usize = 0;
        assert(paint_views(paints@) =~= Seq::<PaintView>::empty());
        while i < count
            invariant
                i <= count,
                count == self.drawn_count(areas@),
                count <= areas@.len(),
                count <= self.children().len(),
                children_drawn(
                    self.children(),
                    areas@,
                    i as nat,
                    *theme,
                    state.model(),
                    now,
                    Ok(paint_views(paints@)),
                ),
            decreases count - i,
        {
            let ghost before: Outcome = Ok(paint_views(paints@));
            match self.child(i).draw(theme, areas[i], state, now) {
                Ok(more) => {
                    let ghost last: Outcome = Ok(paint_views(more@));
                    append_paints(&mut paints, more);
                    assert(then(before, last) == Ok::<Seq<PaintView>, Failure>(paint_views(paints@)));
                },
                Err(error) => {
                    proof {
                        let last: Outcome = Err(error.failure());
                        assert(then(before, last) == last);
                        lemma_failure_stays(
                            self.children(),
                            areas@,
                            (i + 1) as nat,
                            (count - i - 1) as nat,
                            *theme,
                            state.model(),
                            now,
                            error.failure(),
                        );
                    }
                    return Err(error);
                },
            }
            i += 1;
        }
        Ok(paints)
    }
}

/// Whether `outcome` is one that drawing `page` into `area` may have: the
/// mode is read first, then `area` is divided for the heights that the page
/// asks for, and the children are drawn, each in a part of its own, wherever
/// the parts lie.
pub open spec fn page_drawn<W: Widget>(
    page: PageWidget<W>,
    theme: Theme,
    area: Rect,
    model: Model,
    now: u64,
    outcome: Outcome,
) -> bool {
    match mode_at(model, "app.mode"@) {
        Err(failure) => outcome == Err::<Seq<PaintView>, Failure>(failure),
        Ok(mode) => exists|areas: Seq<Rect>|
            {
                &&& divided(
                    area,
                    length_constraints(page.wanted_lengths(area, mode)),
                    Direction::Vertical,
                    areas,
                )
                &&& #[trigger] areas.len() == page.children().len()
                &&& children_drawn(
                    page.children(),
                    areas,
                    page.children().len(),
                    theme,
                    model,
                    now,
                    outcome,
                )
            },
    }
}

impl<W: Widget> Widget for PageWidget<W> {
    open spec fn draws(&self, theme: Theme, area: Rect, model: Model, now: u64, outcome: Outcome) -> bool {
        page_drawn(*self, theme, area, model, now, outcome)
    }

    open spec fn wanted_height(&self, area: Rect) -> u16 {
        area.height
    }

    fn draw(&self, theme: &Theme, area: Rect, state: &State, now: u64) -> (result: Result<
        Vec<Paint>,
        Error,
    >) {
        let mode = match require::<Mode>(state, "app.mode") {
            Ok(mode) => *mode,
            Err(error) => return Err(error),
        };
        let areas = split_area(area, self.lengths(area, mode), Direction::Vertical);
        assert(areas@.len() == self.children().len());
        self.draw_in(theme, &areas, state, now)
    }

    fn height(&self, area: Rect) -> (height: u16) {
        area.height
    }
}

/// The window of an application: one of its pages, and below it the bar of
/// shortcuts.
pub struct ApplicationWindow<W: Widget> {
    pub pages: Vec<PageWidget<W>>,
    pub shortcuts: Rc<W>,
}

/// Whether `outcome` is one that drawing the active page into `area` may
/// have. A page number that names no page draws nothing.
pub open spec fn active_page_drawn<W: Widget>(
    pages: Seq<PageWidget<W>>,
    theme: Theme,
    area: Rect,
    model: Model,
    now: u64,
    outcome: Outcome,
) -> bool {
    match index_at(model, "app.page.active"@) {
        Err(failure) => outcome == Err::<Seq<PaintView>, Failure>(failure),
        Ok(active) => if active < pages.len() {
            page_drawn(pages[active as int], theme, area, model, now, outcome)
        } else {
            outcome == Ok::<Seq<PaintView>, Failure>(Seq::empty())
        },
    }
}

/// Whether `outcome` is one that drawing the window into the two parts of
/// `areas` may have: the active page in the first, then the shortcuts in the
/// second. With fewer than two parts nothing is drawn.
pub open spec fn window_drawn<W: Widget>(
    window: ApplicationWindow<W>,
    theme: Theme,
    areas: Seq<Rect>,
    model: Model,
    now: u64,
    outcome: Outcome,
) -> bool {
    if areas.len() < 2 {
        outcome == Ok::<Seq<PaintView>, Failure>(Seq::empty())
    } else {
        exists|page: Outcome, bar: Outcome|
            {
                &&& active_page_drawn(window.pages@, theme, areas[0], model, now, page)
                &&& page is Ok ==> window.shortcuts.draws(theme, areas[1], model, now, bar)
                &&& outcome == #[trigger] then(page, bar)
            }
    }
}

impl<W: Widget> ApplicationWindow<W> {
    /// The heights that the window asks for in `area`: for the bar of
    /// shortcuts what it wants, and for the page what that leaves.
    pub open spec fn wanted_lengths(&self, area: Rect) -> Seq<u16> {
        let bar = self.shortcuts.wanted_height(area);
        seq![
            if bar > area.height {
                0
            } else {
                (area.height - bar) as u16
            },
            bar,
        ]
    }

    /// The heights that the window asks for in `area`.
    pub fn lengths(&self, area: Rect) -> (lengths: Vec<u16>)
        ensures
            lengths@ == self.wanted_lengths(area),
    {
        let shortcut_h = self.shortcuts.height(area);
        let page_h = area.height.saturating_sub(shortcut_h);
        let mut lengths: Vec<u16> = Vec::new();
        lengths.push(page_h);
        lengths.push(shortcut_h);
        assert(lengths@ =~= self.wanted_lengths(area));
        lengths
    }

    /// What is painted for a frame of the size of `area`: the active page,
    /// and below it the shortcuts.
    pub fn draw(&self, area: Rect, theme: &Theme, state: &State, now: u64) -> (result: Result<
        Vec<Paint>,
        Error,
    >)
        ensures
            exists|areas: Seq<Rect>|
                {
                    &&& divided(
                        area,
                        length_constraints(self.wanted_lengths(area)),
                        Direction::Vertical,
                        areas,
                    )
                    &&& #[trigger] areas.len() == 2
                    &&& window_drawn(*self, *theme, areas, state.model(), now, outcome_of(result))
                },
    {
        let areas = split_area(area, self.lengths(area), Direction::Vertical);
        assert(areas@.len() == 2);
        self.draw_in(theme, &areas, state, now)
    }

    /// What is painted for the window, given the two parts into which the
    /// frame was divided.
    pub fn draw_in(&self, theme: &Theme, areas: &Vec<Rect>, state: &State, now: u64) -> (result: Result<
        Vec<Paint>,
        Error,
    >)
        ensures
            window_drawn(*self, *theme, areas@, state.model(), now, outcome_of(result)),
    {
        if areas.len() < 2 {
            let paints: Vec<Paint> = Vec::new();
            assert(paint_views(paints@) =~= Seq::<PaintView>::empty());
            return Ok(paints);
        }
        let mut paints = match self.draw_active_page(theme, areas[0], state, now) {
            Ok(paints) => paints,
            Err(error) => {
                proof {
                    let page: Outcome = Err(error.failure());
                    assert(then(page, page) == page);
                }
                return Err(error);
            },
        };
        let ghost page: Outcome = Ok(paint_views(paints@));
        match self.shortcuts.draw(theme, areas[1], state, now) {
            Ok(more) => {
                let ghost bar: Outcome = Ok(paint_views(more@));
                append_paints(&mut paints, more);
                assert(then(page, bar) == Ok::<Seq<PaintView>, Failure>(paint_views(paints@)));
                Ok(paints)
            },
            Err(error) => {
                proof {
                    let bar: Outcome = Err(error.failure());
                    assert(then(page, bar) == bar);
                }
                Err(error)
            },
        }
    }

    /// What is painted for the active page in `area`. A page number that
    /// names no page paints nothing.
    pub fn draw_active_page(&self, theme: &Theme, area: Rect, state: &State, now: u64) -> (result:
        Result<Vec<Paint>, Error>)
        ensures
            active_page_drawn(self.pages@, *theme, area, state.model(), now, outcome_of(result)),
    {
        let active = match require::<usize>(state, "app.page.active") {
            Ok(active) => *active,
            Err(error) => return Err(error),
        };
        if active < self.pages.len() {
            self.pages[active].draw(theme, area, state, now)
        } else {
            let paints: Vec<Paint> = Vec::new();
            assert(paint_views(paints@) =~= Seq::<PaintView>::empty());
            Ok(paints)
        }
    }
}

} // verus!
