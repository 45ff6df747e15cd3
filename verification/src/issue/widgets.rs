//! The widgets of the issue browser: the list of issues, one issue with its
//! discussion, and the context bar.

use crate::error::{Error, Failure};
use crate::issue::model::{
    issue_views, Comment, CommentView, Issue, IssueList, IssueState, IssueView, CloseReason,
};
use crate::issue::spans::{age, age_words, comment_meta, meta_line, time_ago};
use crate::layout::{
    divided, inner, length_constraints, split_area, Direction, Padding, Rect,
};
use crate::paint::{
    item_views, line_view, line_views, paint_views, Line, List, ListItem, ListView, Paint, PaintView,
    Paragraph, ParagraphView, Span, SpanView, Style,
};
use crate::store::{index_at, issues_at, require, text_at, Model, State};
use crate::template::{
    blanks, block, framed, lines, list, padded, paragraph, paragraph_styled, styled_lines,
    text_style, whitespaces, wrap_width, wrapped,
};
use crate::text::{decimal_text, digits_of, push_char};
use crate::theme::Theme;
use crate::window::{
    one_span, EditorWidget, EmptyWidget, Outcome, ShortcutWidget, TitleWidget, Widget,
};
use vstd::prelude::*;
use vstd::string::*;

verus! {

/// An entry of the list of issues: a title, and below it the author and
/// the age of the issue in words.
pub open spec fn entry_lines(title: Seq<char>, author: Seq<char>, age: Seq<char>, theme: Theme) -> Seq<
    Seq<SpanView>,
> {
    seq![
        seq![SpanView { content: title, style: theme.primary }],
        seq![
            SpanView { content: author, style: theme.secondary },
            SpanView { content: blanks(1), style: Style::plain() },
            SpanView { content: age, style: theme.secondary },
        ],
    ]
}

/// The entry of `issue` in the list at the time `now`.
pub open spec fn browser_item(issue: IssueView, theme: Theme, now: u64) -> Seq<Seq<SpanView>> {
    entry_lines(issue.title, issue.author.shown(), time_ago(age(now, issue.comment.timestamp)), theme)
}

/// The entries of the issues in the list.
pub open spec fn browser_items(issues: Seq<(Seq<char>, IssueView)>, theme: Theme, now: u64) -> Seq<
    Seq<Seq<SpanView>>,
> {
    Seq::new(issues.len(), |i: int| browser_item(issues[i].1, theme, now))
}

/// A list as it is painted in the styles of `theme`.
pub open spec fn listed(items: Seq<Seq<Seq<SpanView>>>, selected: usize, theme: Theme, area: Rect) -> PaintView {
    PaintView::List(
        ListView {
            title: None,
            items,
            selected: Some(selected),
            highlight_style: theme.highlight_style,
            highlight_symbol: theme.highlight_symbol@,
            repeat_highlight_symbol: true,
        },
        area,
    )
}

/// What the browser paints: a frame, and in it the list of issues with the
/// active one selected, or a note that there are none.
pub open spec fn browser_drawn(theme: Theme, area: Rect, model: Model, now: u64) -> Outcome {
    match issues_at(model, "project.issue.list"@) {
        Err(failure) => Err(failure),
        Ok(issues) => match index_at(model, "project.issue.active"@) {
            Err(failure) => Err(failure),
            Ok(active) => Ok(
                seq![
                    PaintView::Block(framed(theme, true), area),
                    if issues.len() > 0 {
                        listed(
                            browser_items(issues, theme, now),
                            active,
                            theme,
                            inner(area, Padding { top: 1, left: 2 }),
                        )
                    } else {
                        PaintView::Paragraph(
                            ParagraphView {
                                line: seq![
                                    SpanView {
                                        content: padded("No issues found"@),
                                        style: Style::plain(),
                                    },
                                ],
                                style: None,
                                centered: true,
                            },
                            inner(area, Padding { top: 1, left: 2 }),
                        )
                    },
                ],
            ),
        },
    }
}

/// The list of issues.
#[derive(Clone, Copy, Debug)]
pub struct BrowserWidget;

impl BrowserWidget {
    /// An entry of the list, given the age of the issue in words.
    pub fn entry(title: String, author: String, age: String, theme: &Theme) -> (item: ListItem)
        ensures
            item@ == entry_lines(title@, author@, age@, *theme),
    {
        let ghost expected = entry_lines(title@, author@, age@, *theme);
        let mut head: Line = Vec::new();
        head.push(Span { content: title, style: theme.primary });
        let mut meta: Line = Vec::new();
        meta.push(Span { content: author, style: theme.secondary });
        meta.push(Span { content: whitespaces(1), style: Style::new() });
        meta.push(Span { content: age, style: theme.secondary });
        let mut lines: Vec<Line> = Vec::new();
        lines.push(head);
        lines.push(meta);
        let item = ListItem { lines };
        proof {
            assert(line_view(item.lines@[0]@) =~= expected[0]);
            assert(line_view(item.lines@[1]@) =~= expected[1]);
            assert(item@ =~= expected);
        }
        item
    }

    /// The entry of `issue` in the list, as it is at the time `now`.
    pub fn items(&self, issue: &Issue, theme: &Theme, now: u64) -> (item: ListItem)
        ensures
            item@ == browser_item(issue@, *theme, now),
    {
        BrowserWidget::entry(
            issue.title.clone(),
            issue.author.name(),
            age_words(now, issue.comment.timestamp),
            theme,
        )
    }
}

impl Widget for BrowserWidget {
    open spec fn draws(&self, theme: Theme, area: Rect, model: Model, now: u64, outcome: Outcome) -> bool {
        outcome == browser_drawn(theme, area, model, now)
    }

    open spec fn wanted_height(&self, area: Rect) -> u16 {
        area.height
    }

    fn draw(&self, theme: &Theme, area: Rect, state: &State, now: u64) -> (result: Result<
        Vec<Paint>,
        Error,
    >) {
        let issues = match require::<IssueList>(state, "project.issue.list") {
            Ok(issues) => issues,
            Err(error) => return Err(error),
        };
        let active = match require::<usize>(state, "project.issue.active") {
            Ok(active) => *active,
            Err(error) => return Err(error),
        };
        let (frame, inner) = block(theme, area, Padding { top: 1, left: 2 }, true);
        let mut paints: Vec<Paint> = Vec::new();
        paints.push(Paint::Block(frame, area));
        if issues.len() > 0 {
            let mut items: Vec<ListItem> = Vec::new();
            let mut i: usize = 0;
            while i < issues.len()
                invariant
                    i <= issues.len(),
                    items@.len() == i,
                    forall|j: int|
                        0 <= j < i ==> (#[trigger] items@[j])@ == browser_item(issues@[j].1@, *theme, now),
                decreases issues.len() - i,
            {
                items.push(self.items(&issues[i].1, theme, now));
                i += 1;
            }
            assert(item_views(items@) =~= browser_items(issue_views(issues@), *theme, now));
            paints.push(Paint::List(list(items, active, theme), inner));
        } else {
            let message = String::from_str("No issues found");
            let mut note = paragraph(&message, Style::new());
            note.centered = true;
            paints.push(Paint::Paragraph(note, inner));
        }
        assert(paint_views(paints@) =~= browser_drawn(*theme, area, state.model(), now)->Ok_0);
        Ok(paints)
    }

    fn height(&self, area: Rect) -> (height: u16) {
        area.height
    }
}

/// A line without text.
pub open spec fn empty_line() -> Seq<SpanView> {
    seq![SpanView { content: Seq::empty(), style: Style::plain() }]
}

/// An entry of a discussion: the lines of a text, then an empty line, the
/// line that says who wrote it and when, and another empty line.
pub open spec fn discussion_lines(text: Seq<Seq<SpanView>>, meta: Seq<SpanView>) -> Seq<Seq<SpanView>> {
    text + seq![empty_line(), meta] + seq![empty_line()]
}

/// The entry of `comment` in the discussion at the time `now`, with its text
/// wrapped into `width` columns behind `indent` blanks.
pub open spec fn comment_item(comment: CommentView, theme: Theme, width: u16, indent: u16, now: u64) -> Seq<
    Seq<SpanView>,
> {
    discussion_lines(
        styled_lines(
            wrapped(comment.body, wrap_width(width, indent), blanks(indent as nat)),
            text_style(),
        ),
        meta_line(comment, theme, indent, now),
    )
}

/// The entries of an issue's discussion: the issue's own text first, then
/// the replies, which are indented.
pub open spec fn detail_items(issue: IssueView, theme: Theme, width: u16, now: u64) -> Seq<
    Seq<Seq<SpanView>>,
> {
    seq![comment_item(issue.comment, theme, width, 0, now)] + Seq::new(
        issue.discussion.len(),
        |i: int| comment_item(issue.discussion[i], theme, width, 4, now),
    )
}

/// What the detail page paints: a frame, and in it the discussion of the
/// active issue with the active comment selected. With no active issue only
/// the frame is painted.
pub open spec fn detail_drawn(theme: Theme, area: Rect, model: Model, now: u64) -> Outcome {
    match issues_at(model, "project.issue.list"@) {
        Err(failure) => Err(failure),
        Ok(issues) => match index_at(model, "project.issue.active"@) {
            Err(failure) => Err(failure),
            Ok(active) => if active < issues.len() {
                match index_at(model, "project.issue.comment.active"@) {
                    Err(failure) => Err(failure),
                    Ok(comment) => Ok(
                        seq![
                            PaintView::Block(framed(theme, true), area),
                            listed(
                                detail_items(
                                    issues[active as int].1,
                                    theme,
                                    inner(area, Padding { top: 1, left: 2 }).width,
                                    now,
                                ),
                                comment,
                                theme,
                                inner(area, Padding { top: 1, left: 2 }),
                            ),
                        ],
                    ),
                }
            } else {
                Ok(seq![PaintView::Block(framed(theme, true), area)])
            },
        },
    }
}

/// A line without text.
fn blank_line() -> (line: Line)
    ensures
        line_view(line@) == empty_line(),
{
    let mut line: Line = Vec::new();
    line.push(Span { content: String::new(), style: Style::new() });
    assert(line_view(line@) =~= empty_line());
    line
}

/// One issue with its discussion.
#[derive(Clone, Copy, Debug)]
pub struct DetailWidget;

impl DetailWidget {
    /// An entry of a discussion, given the wrapped lines of a comment and
    /// the line that says who wrote it and when.
    pub fn entry(text: Vec<Line>, meta: Line) -> (item: ListItem)
        ensures
            item@ == discussion_lines(line_views(text@), line_view(meta@)),
    {
        let ghost wrapped = line_views(text@);
        let ghost expected = discussion_lines(line_views(text@), line_view(meta@));
        let mut entry = text;
        entry.push(blank_line());
        entry.push(meta);
        entry.push(blank_line());
        let item = ListItem { lines: entry };
        assert(item@ =~= expected) by {
            assert(forall|j: int| 0 <= j < wrapped.len() ==> line_views(item.lines@)[j] == wrapped[j]);
        }
        item
    }

    /// The entry of `comment` in the discussion.
    pub fn item(&self, comment: &Comment, theme: &Theme, width: u16, indent: u16, now: u64) -> (item:
        ListItem)
        ensures
            item@ == comment_item(comment@, *theme, width, indent, now),
    {
        DetailWidget::entry(
            lines(&comment.body, width, indent),
            comment_meta(comment, theme, indent, now),
        )
    }

    /// The entries of the discussion of `issue`, for a list that is `width`
    /// columns wide.
    pub fn items(&self, issue: &Issue, theme: &Theme, width: u16, now: u64) -> (items: Vec<ListItem>)
        ensures
            item_views(items@) == detail_items(issue@, *theme, width, now),
    {
        let mut items: Vec<ListItem> = Vec::new();
        items.push(self.item(&issue.comment, theme, width, 0, now));
        let replies = issue.comments();
        let mut i: usize = 0;
        while i < replies.len()
            invariant
                i <= replies.len(),
                replies == issue.discussion,
                items@.len() == i + 1,
                items@[0]@ == comment_item(issue.comment@, *theme, width, 0, now),
                forall|j: int|
                    1 <= j <= i ==> (#[trigger] items@[j])@ == comment_item(
                        replies@[j - 1]@,
                        *theme,
                        width,
                        4,
                        now,
                    ),
            decreases replies.len() - i,
        {
            items.push(self.item(&replies[i], theme, width, 4, now));
            i += 1;
        }
        assert(item_views(items@) =~= detail_items(issue@, *theme, width, now));
        items
    }
}

impl Widget for DetailWidget {
    open spec fn draws(&self, theme: Theme, area: Rect, model: Model, now: u64, outcome: Outcome) -> bool {
        outcome == detail_drawn(theme, area, model, now)
    }

    open spec fn wanted_height(&self, area: Rect) -> u16 {
        area.height
    }

    fn draw(&self, theme: &Theme, area: Rect, state: &State, now: u64) -> (result: Result<
        Vec<Paint>,
        Error,
    >) {
        let issues = match require::<IssueList>(state, "project.issue.list") {
            Ok(issues) => issues,
            Err(error) => return Err(error),
        };
        let active = match require::<usize>(state, "project.issue.active") {
            Ok(active) => *active,
            Err(error) => return Err(error),
        };
        let (frame, inner) = block(theme, area, Padding { top: 1, left: 2 }, true);
        let mut paints: Vec<Paint> = Vec::new();
        paints.push(Paint::Block(frame, area));
        if active < issues.len() {
            let comment = match require::<usize>(state, "project.issue.comment.active") {
                Ok(comment) => *comment,
                Err(error) => return Err(error),
            };
            let items = self.items(&issues[active].1, theme, inner.width, now);
            paints.push(Paint::List(list(items, comment, theme), inner));
        }
        assert(paint_views(paints@) =~= detail_drawn(*theme, area, state.model(), now)->Ok_0);
        Ok(paints)
    }

    fn height(&self, area: Rect) -> (height: u16) {
        area.height
    }
}

/// The width that a label asks for: its length in bytes and a blank on
/// either side, as far as a `u16` can hold it.
pub open spec fn label_width(text: Seq<char>) -> u16 {
    crate::window::shortcut_width(text)
}

/// The sign for the state of an issue.
pub open spec fn state_sign(state: IssueState) -> Seq<char> {
    match state {
        IssueState::Open => seq![' ', '\u{25cf}', ' '],
        IssueState::Closed { reason: CloseReason::Solved } => seq![' ', '\u{2714}', ' '],
        IssueState::Closed { reason: CloseReason::Other } => seq![' ', '\u{2716}', ' '],
    }
}

/// The widths asked for in the context bar: for the project, the state, the
/// title, the author and the number of comments. The title gets what the
/// others leave of `width`.
pub open spec fn context_widths(project: Seq<char>, issue: IssueView, width: u16) -> Seq<u16> {
    let project_w = label_width(project);
    let author_w = label_width(issue.author.shown());
    let comments_w = label_width(digits_of(issue.discussion.len()));
    let fixed = project_w + 3 + comments_w + author_w;
    seq![
        project_w,
        3,
        if fixed > width {
            0
        } else {
            (width - fixed) as u16
        },
        author_w,
        comments_w,
    ]
}

/// What the context bar paints into its five parts.
pub open spec fn context_painted(theme: Theme, project: Seq<char>, issue: IssueView, parts: Seq<Rect>) -> Seq<
    PaintView,
> {
    if parts.len() < 5 {
        Seq::empty()
    } else {
        seq![
            one_span(padded(project), theme.highlight_style, true, parts[0]),
            PaintView::Paragraph(
                ParagraphView {
                    line: seq![SpanView { content: state_sign(issue.state), style: theme.primary }],
                    style: Some(theme.secondary),
                    centered: false,
                },
                parts[1],
            ),
            one_span(padded(issue.title), theme.secondary, true, parts[2]),
            one_span(padded(issue.author.shown()), theme.primary, true, parts[3]),
            one_span(padded(digits_of(issue.discussion.len())), theme.secondary, false, parts[4]),
        ]
    }
}

/// Whether `outcome` is one that drawing the context bar may have: a frame
/// without borders, and for the active issue, if there is one, the five
/// labels, each in a part of its own, wherever the parts lie.
pub open spec fn context_drawn(theme: Theme, area: Rect, model: Model, outcome: Outcome) -> bool {
    match text_at(model, "project.name"@) {
        Err(failure) => outcome == Err::<Seq<PaintView>, Failure>(failure),
        Ok(project) => match issues_at(model, "project.issue.list"@) {
            Err(failure) => outcome == Err::<Seq<PaintView>, Failure>(failure),
            Ok(issues) => match index_at(model, "project.issue.active"@) {
                Err(failure) => outcome == Err::<Seq<PaintView>, Failure>(failure),
                Ok(active) => if active < issues.len() {
                    exists|parts: Seq<Rect>|
                        {
                            &&& divided(
                                area,
                                length_constraints(
                                    context_widths(project, issues[active as int].1, area.width),
                                ),
                                Direction::Horizontal,
                                parts,
                            )
                            &&& #[trigger] parts.len() == 5
                            &&& outcome == Ok::<Seq<PaintView>, Failure>(
                                seq![PaintView::Block(framed(theme, false), area)] + context_painted(
                                    theme,
                                    project,
                                    issues[active as int].1,
                                    parts,
                                ),
                            )
                        }
                } else {
                    outcome == Ok::<Seq<PaintView>, Failure>(
                        seq![PaintView::Block(framed(theme, false), area)],
                    )
                },
            },
        },
    }
}

/// The bar that says which issue is shown.
#[derive(Clone, Copy, Debug)]
pub struct ContextWidget;

impl ContextWidget {
    /// The width that a label asks for.
    pub fn width_of(text: &String) -> (width: u16)
        ensures
            width == label_width(text@),
    {
        let len = text.as_str().len();
        if len > 65533 {
            u16::MAX
        } else {
            (len + 2) as u16
        }
    }

    /// The sign for the state of an issue.
    pub fn sign(state: IssueState) -> (sign: String)
        ensures
            sign@ == state_sign(state),
    {
        let mark = match state {
            IssueState::Open => '\u{25cf}',
            IssueState::Closed { reason: CloseReason::Solved } => '\u{2714}',
            IssueState::Closed { reason: CloseReason::Other } => '\u{2716}',
        };
        let mut sign = String::new();
        push_char(&mut sign, ' ');
        push_char(&mut sign, mark);
        push_char(&mut sign, ' ');
        assert(sign@ =~= state_sign(state));
        sign
    }

    /// The widths to ask for in a bar that is `width` columns wide.
    pub fn widths(project: &String, issue: &Issue, width: u16) -> (widths: Vec<u16>)
        ensures
            widths@ == context_widths(project@, issue@, width),
    {
        let project_w = ContextWidget::width_of(project);
        let author_w = ContextWidget::width_of(&issue.author.name());
        let comments_w = ContextWidget::width_of(&decimal_text(issue.comments().len()));
        let fixed: u32 = project_w as u32 + 3 + comments_w as u32 + author_w as u32;
        let title_w: u16 = if fixed > width as u32 {
            0
        } else {
            (width as u32 - fixed) as u16
        };
        let mut widths: Vec<u16> = Vec::new();
        widths.push(project_w);
        widths.push(3);
        widths.push(title_w);
        widths.push(author_w);
        widths.push(comments_w);
        assert(widths@ =~= context_widths(project@, issue@, width));
        widths
    }

    /// What is painted for `issue`, given the parts into which the bar was
    /// divided.
    pub fn draw_in(theme: &Theme, project: &String, issue: &Issue, parts: &Vec<Rect>) -> (paints: Vec<
        Paint,
    >)
        ensures
            paint_views(paints@) == context_painted(*theme, project@, issue@, parts@),
    {
        let mut paints: Vec<Paint> = Vec::new();
        if parts.len() >= 5 {
            paints.push(Paint::Paragraph(paragraph_styled(project, theme.highlight_style), parts[0]));
            let mut sign: Line = Vec::new();
            sign.push(Span { content: ContextWidget::sign(issue.state), style: theme.primary });
            let state = Paragraph { line: sign, style: Some(theme.secondary), centered: false };
            assert(state@.line =~= seq![
                SpanView { content: state_sign(issue.state), style: theme.primary },
            ]);
            paints.push(Paint::Paragraph(state, parts[1]));
            paints.push(Paint::Paragraph(paragraph_styled(&issue.title, theme.secondary), parts[2]));
            paints.push(
                Paint::Paragraph(paragraph_styled(&issue.author.name(), theme.primary), parts[3]),
            );
            let count = decimal_text(issue.comments().len());
            paints.push(Paint::Paragraph(paragraph(&count, theme.secondary), parts[4]));
        }
        assert(paint_views(paints@) =~= context_painted(*theme, project@, issue@, parts@));
        paints
    }
}

impl Widget for ContextWidget {
    open spec fn draws(&self, theme: Theme, area: Rect, model: Model, now: u64, outcome: Outcome) -> bool {
        context_drawn(theme, area, model, outcome)
    }

    open spec fn wanted_height(&self, area: Rect) -> u16 {
        1
    }

    fn draw(&self, theme: &Theme, area: Rect, state: &State, now: u64) -> (result: Result<
        Vec<Paint>,
        Error,
    >) {
        let project = match require::<String>(state, "project.name") {
            Ok(project) => project,
            Err(error) => return Err(error),
        };
        let issues = match require::<IssueList>(state, "project.issue.list") {
            Ok(issues) => issues,
            Err(error) => return Err(error),
        };
        let active = match require::<usize>(state, "project.issue.active") {
            Ok(active) => *active,
            Err(error) => return Err(error),
        };
        let (frame, _) = block(theme, area, Padding { top: 0, left: 0 }, false);
        let mut paints: Vec<Paint> = Vec::new();
        paints.push(Paint::Block(frame, area));
        if active < issues.len() {
            let issue = &issues[active].1;
            let parts = split_area(
                area,
                ContextWidget::widths(project, issue, area.width),
                Direction::Horizontal,
            );
            let mut labels = ContextWidget::draw_in(theme, project, issue, &parts);
            paints.append(&mut labels);
            proof {
                assert(parts@.len() == 5);
                assert(issue_views(issues@)[active as int].1 == issue@);
                assert(divided(
                    area,
                    length_constraints(context_widths(project@, issue@, area.width)),
                    Direction::Horizontal,
                    parts@,
                ));
                assert(paint_views(paints@) =~= seq![PaintView::Block(framed(*theme, false), area)]
                    + context_painted(*theme, project@, issue@, parts@));
            }
        } else {
            assert(paint_views(paints@) =~= seq![PaintView::Block(framed(*theme, false), area)]);
        }
        Ok(paints)
    }

    fn height(&self, _area: Rect) -> (height: u16) {
        1
    }
}

/// The widgets that the pages of the issue browser are made of.
#[derive(Clone, Copy, Debug)]
pub enum IssueWidget {
    Title(TitleWidget),
    Shortcut(ShortcutWidget),
    Empty(EmptyWidget),
    Editor(EditorWidget),
    Browser(BrowserWidget),
    Detail(DetailWidget),
    Context(ContextWidget),
}

impl Widget for IssueWidget {
    open spec fn draws(&self, theme: Theme, area: Rect, model: Model, now: u64, outcome: Outcome) -> bool {
        match self {
            IssueWidget::Title(widget) => widget.draws(theme, area, model, now, outcome),
            IssueWidget::Shortcut(widget) => widget.draws(theme, area, model, now, outcome),
            IssueWidget::Empty(widget) => widget.draws(theme, area, model, now, outcome),
            IssueWidget::Editor(widget) => widget.draws(theme, area, model, now, outcome),
            IssueWidget::Browser(widget) => widget.draws(theme, area, model, now, outcome),
            IssueWidget::Detail(widget) => widget.draws(theme, area, model, now, outcome),
            IssueWidget::Context(widget) => widget.draws(theme, area, model, now, outcome),
        }
    }

    open spec fn wanted_height(&self, area: Rect) -> u16 {
        match self {
            IssueWidget::Title(widget) => widget.wanted_height(area),
            IssueWidget::Shortcut(widget) => widget.wanted_height(area),
            IssueWidget::Empty(widget) => widget.wanted_height(area),
            IssueWidget::Editor(widget) => widget.wanted_height(area),
            IssueWidget::Browser(widget) => widget.wanted_height(area),
            IssueWidget::Detail(widget) => widget.wanted_height(area),
            IssueWidget::Context(widget) => widget.wanted_height(area),
        }
    }

    fn draw(&self, theme: &Theme, area: Rect, state: &State, now: u64) -> (result: Result<
        Vec<Paint>,
        Error,
    >) {
        match self {
            IssueWidget::Title(widget) => widget.draw(theme, area, state, now),
            IssueWidget::Shortcut(widget) => widget.draw(theme, area, state, now),
            IssueWidget::Empty(widget) => widget.draw(theme, area, state, now),
            IssueWidget::Editor(widget) => widget.draw(theme, area, state, now),
            IssueWidget::Browser(widget) => widget.draw(theme, area, state, now),
            IssueWidget::Detail(widget) => widget.draw(theme, area, state, now),
            IssueWidget::Context(widget) => widget.draw(theme, area, state, now),
        }
    }

    fn height(&self, area: Rect) -> (height: u16) {
        match self {
            IssueWidget::Title(widget) => widget.height(area),
            IssueWidget::Shortcut(widget) => widget.height(area),
            IssueWidget::Empty(widget) => widget.height(area),
            IssueWidget::Editor(widget) => widget.height(area),
            IssueWidget::Browser(widget) => widget.height(area),
            IssueWidget::Detail(widget) => widget.height(area),
            IssueWidget::Context(widget) => widget.height(area),
        }
    }
}

} // verus!
