//! The widgets of the dashboard: a menu of views, and pages that show the
//! status of a project and its issues.

use crate::dashboard::action::Action;
use crate::dashboard::state::Issue;
use crate::layout::{divided, split_by, Constraint, Direction, Rect};
use crate::paint::{
    append_paints, item_views, line_view, paint_views, Color, Line, List, ListItem, ListView, Paint, PaintView, Paragraph, ParagraphView, Ratio, Span, SpanView, Style, Table, TableView, Tabs, TabsView,
};
use crate::text::{decimal_text, digits_of};
use vstd::prelude::*;
use vstd::string::*;

verus! {

/// The views that the menu offers.
#[derive(Clone, Copy, Debug, PartialEq, Eq, Structural)]
pub enum MenuView {
    Status,
    Issues,
    Patches,
}

impl MenuView {
    /// The name of the view.
    pub open spec fn name(self) -> Seq<char> {
        match self {
            MenuView::Status => "Status"@,
            MenuView::Issues => "Issues"@,
            MenuView::Patches => "Patches"@,
        }
    }

    /// The name of the view.
    pub fn to_string(&self) -> (name: String)
        ensures
            name@ == self.name(),
    {
        match self {
            MenuView::Status => String::from_str("Status"),
            MenuView::Issues => String::from_str("Issues"),
            MenuView::Patches => String::from_str("Patches"),
        }
    }
}

/// Which entry of a list is selected.
#[derive(Clone, Copy, Debug, PartialEq, Eq, Structural)]
pub struct ListState {
    pub selected: Option<usize>,
}

/// The selection one step down a list of `len` entries, going round from
/// the last entry to the first. With nothing selected the first entry is.
pub open spec fn next_index(selected: Option<usize>, len: nat) -> usize {
    match selected {
        Some(i) => if len == 0 || i >= len - 1 {
            0
        } else {
            (i + 1) as usize
        },
        None => 0,
    }
}

/// The selection one step up a list of `len` entries, going round from the
/// first entry to the last. With nothing selected the first entry is.
pub open spec fn previous_index(selected: Option<usize>, len: nat) -> usize {
    match selected {
        Some(i) => if i == 0 {
            if len == 0 {
                0
            } else {
                (len - 1) as usize
            }
        } else {
            (i - 1) as usize
        },
        None => 0,
    }
}

/// A list with a selection. The selection goes round at both ends.
#[derive(Debug)]
pub struct StatefulList<T> {
    pub state: ListState,
    pub items: Vec<T>,
}

impl<T> StatefulList<T> {
    /// A list of `items` with the first entry selected.
    pub fn with_items(items: Vec<T>) -> (list: StatefulList<T>)
        ensures
            list.items == items,
            list.state.selected == Some(0usize),
    {
        StatefulList { state: ListState { selected: Some(0) }, items }
    }

    /// Selects the next entry, and the first one after the last.
    pub fn next(&mut self)
        ensures
            final(self).items == old(self).items,
            final(self).state.selected == Some(
                next_index(old(self).state.selected, old(self).items@.len()),
            ),
    {
        let i = match self.state.selected {
            Some(i) => {
                if self.items.len() == 0 || i >= self.items.len() - 1 {
                    0
                } else {
                    i + 1
                }
            },
            None => 0,
        };
        self.state.selected = Some(i);
    }

    /// Selects the entry before, and the last one before the first.
    pub fn previous(&mut self)
        ensures
            final(self).items == old(self).items,
            final(self).state.selected == Some(
                previous_index(old(self).state.selected, old(self).items@.len()),
            ),
    {
        let i = match self.state.selected {
            Some(i) => {
                if i == 0 {
                    if self.items.len() == 0 {
                        0
                    } else {
                        self.items.len() - 1
                    }
                } else {
                    i - 1
                }
            },
            None => 0,
        };
        self.state.selected = Some(i);
    }

    /// The index of the selected entry, if one is selected.
    pub fn selected(&self) -> (selected: Option<usize>)
        ensures
            selected == self.state.selected,
    {
        self.state.selected
    }

    /// Selects the entry with the given index, whether or not the list has
    /// one.
    pub fn select(&mut self, index: usize)
        ensures
            final(self).items == old(self).items,
            final(self).state.selected == Some(index),
    {
        self.state.selected = Some(index);
    }
}

/// Something that the dashboard draws and that answers actions.
pub trait Widget: Sized {
    /// Whether `paints` is what drawing the widget into `area` may give. A
    /// widget that divides its area has one outcome for each way in which
    /// the area may be divided; every other widget has exactly one.
    spec fn draws(&self, area: Rect, paints: Seq<PaintView>) -> bool;

    /// Whether `after` is the widget as `action` leaves it.
    spec fn reacts(&self, action: Action, after: &Self) -> bool;

    /// What is to be painted for the widget in `area`.
    fn draw(&self, area: Rect) -> (paints: Vec<Paint>)
        ensures
            self.draws(area, paint_views(paints@)),
    ;

    /// Answers `action`.
    fn on_action(&mut self, action: Action)
        ensures
            old(self).reacts(action, final(self)),
    ;
}

/// A widget that shows a list.
pub trait ListWidget<T>: Widget {
    /// The list that the widget shows.
    spec fn list(&self) -> StatefulList<T>;

    /// The list that the widget shows.
    fn items(&self) -> (list: &StatefulList<T>)
        ensures
            *list == self.list(),
    ;
}

/// The style of a foreground colour.
pub open spec fn colored(color: Color) -> Style {
    Style { fg: Some(color), ..Style::plain() }
}

/// The names of the views as the tabs of the menu, in green.
pub open spec fn tab_titles(views: Seq<MenuView>) -> Seq<SpanView> {
    Seq::new(views.len(), |i: int| SpanView { content: views[i].name(), style: colored(Color::Green) })
}

/// The menu of the dashboard: its views as tabs.
#[derive(Debug)]
pub struct MenuWidget {
    pub title: String,
    pub views: Box<StatefulList<MenuView>>,
}

/// What the menu paints: the tabs in a frame with the title of the
/// dashboard, the selected one in magenta.
pub open spec fn menu_painted(menu: MenuWidget, area: Rect) -> Seq<PaintView> {
    seq![
        PaintView::Tabs(
            TabsView {
                title: menu.title@,
                titles: tab_titles(menu.views.items@),
                selected: match menu.views.state.selected {
                    Some(selected) => selected,
                    None => 0,
                },
                highlight_style: colored(Color::Magenta),
            },
            area,
        ),
    ]
}

/// The selection of the menu after `action`: the keys of the first two
/// views select them; nothing else changes the menu.
pub open spec fn menu_selected(selected: Option<usize>, action: Action) -> Option<usize> {
    match action {
        Action::MenuStatus => Some(0),
        Action::MenuIssues => Some(1),
        _ => selected,
    }
}

impl Widget for MenuWidget {
    open spec fn draws(&self, area: Rect, paints: Seq<PaintView>) -> bool {
        paints == menu_painted(*self, area)
    }

    open spec fn reacts(&self, action: Action, after: &MenuWidget) -> bool {
        &&& after.title == self.title
        &&& after.views.items == self.views.items
        &&& after.views.state.selected == menu_selected(self.views.state.selected, action)
    }

    fn draw(&self, area: Rect) -> (paints: Vec<Paint>) {
        let mut titles: Line = Vec::new();
        let mut i: usize = 0;
        while i < self.views.items.len()
            invariant
                i <= self.views.items@.len(),
                titles@.len() == i,
                forall|j: int|
                    0 <= j < i ==> (#[trigger] titles@[j])@ == (SpanView {
                        content: self.views.items@[j].name(),
                        style: colored(Color::Green),
                    }),
            decreases self.views.items.len() - i,
        {
            titles.push(
                Span { content: self.views.items[i].to_string(), style: Style::new().fg(Color::Green) },
            );
            i += 1;
        }
        assert(line_view(titles@) =~= tab_titles(self.views.items@));
        let selected = match self.views.selected() {
            Some(selected) => selected,
            None => 0,
        };
        let tabs = Tabs {
            title: self.title.clone(),
            titles,
            selected,
            highlight_style: Style::new().fg(Color::Magenta),
        };
        let mut paints: Vec<Paint> = Vec::new();
        paints.push(Paint::Tabs(tabs, area));
        assert(paint_views(paints@) =~= menu_painted(*self, area));
        paints
    }

    fn on_action(&mut self, action: Action) {
        match action {
            Action::MenuStatus => self.views.select(0),
            Action::MenuIssues => self.views.select(1),
            _ => {},
        }
    }
}

impl ListWidget<MenuView> for MenuWidget {
    open spec fn list(&self) -> StatefulList<MenuView> {
        *self.views
    }

    fn items(&self) -> (list: &StatefulList<MenuView>) {
        &self.views
    }
}

/// The bar that names the actions.
#[derive(Debug)]
pub struct ActionWidget {
    pub items: Vec<String>,
}

/// What the action bar paints: how to quit.
pub open spec fn actions_painted(area: Rect) -> Seq<PaintView> {
    seq![
        PaintView::Paragraph(
            ParagraphView {
                line: seq![SpanView { content: "(Q)uit"@, style: Style::plain() }],
                style: None,
                centered: false,
            },
            area,
        ),
    ]
}

impl Widget for ActionWidget {
    open spec fn draws(&self, area: Rect, paints: Seq<PaintView>) -> bool {
        paints == actions_painted(area)
    }

    open spec fn reacts(&self, action: Action, after: &ActionWidget) -> bool {
        *after == *self
    }

    fn draw(&self, area: Rect) -> (paints: Vec<Paint>) {
        let mut line: Line = Vec::new();
        line.push(Span { content: String::from_str("(Q)uit"), style: Style::new() });
        let text = Paragraph { line, style: None, centered: false };
        assert(text@.line =~= seq![SpanView { content: "(Q)uit"@, style: Style::plain() }]);
        let mut paints: Vec<Paint> = Vec::new();
        paints.push(Paint::Paragraph(text, area));
        assert(paint_views(paints@) =~= actions_painted(area));
        paints
    }

    fn on_action(&mut self, _action: Action) {
    }
}

/// The status of a project.
#[derive(Debug)]
pub struct ProjectWidget {
    pub name: String,
    pub urn: String,
    pub issues: (usize, usize),
    pub patches: (usize, usize),
}

/// A row of the status table: a label, and a value in blue.
pub open spec fn status_row(label: Seq<char>, value: Seq<char>) -> Seq<SpanView> {
    seq![
        SpanView { content: label, style: Style::plain() },
        SpanView { content: value, style: colored(Color::Blue) },
    ]
}

/// An empty row of the status table.
pub open spec fn spacer_row() -> Seq<SpanView> {
    seq![
        SpanView { content: Seq::empty(), style: Style::plain() },
        SpanView { content: Seq::empty(), style: Style::plain() },
    ]
}

/// Two numbers in words, such as `16 Open, 87 Closed`.
pub open spec fn counted(first: usize, first_word: Seq<char>, second: usize, second_word: Seq<char>) -> Seq<
    char,
> {
    digits_of(first as nat) + seq![' '] + first_word + seq![',', ' '] + digits_of(second as nat)
        + seq![' '] + second_word
}

/// The columns of the status table: an eighth of the width for the labels
/// and seven eighths for the values.
pub open spec fn status_columns() -> Seq<Ratio> {
    seq![Ratio { part: 1, whole: 8 }, Ratio { part: 7, whole: 8 }]
}

/// What the status of a project paints: a table of its identifier, its
/// name, and the numbers of its issues and patches.
pub open spec fn project_painted(project: ProjectWidget, area: Rect) -> Seq<PaintView> {
    seq![
        PaintView::Table(
            TableView {
                title: " Status "@,
                widths: status_columns(),
                rows: seq![
                    spacer_row(),
                    status_row(" Project"@, project.urn@),
                    status_row(seq![' ', '\u{2514}', '\u{2500}', '\u{2500}', ' ', 'N', 'a', 'm', 'e'], project.name@),
                    spacer_row(),
                    status_row(
                        " Issues"@,
                        counted(project.issues.0, "Open"@, project.issues.1, "Closed"@),
                    ),
                    status_row(
                        " Patches"@,
                        counted(project.patches.0, "Open"@, project.patches.1, "Merged"@),
                    ),
                ],
            },
            area,
        ),
    ]
}

/// A row of the status table.
fn row(label: String, value: String) -> (row: Line)
    ensures
        line_view(row@) == status_row(label@, value@),
{
    let mut row: Line = Vec::new();
    row.push(Span { content: label, style: Style::new() });
    row.push(Span { content: value, style: Style::new().fg(Color::Blue) });
    assert(line_view(row@) =~= status_row(label@, value@));
    row
}

/// An empty row of the status table.
fn spacer() -> (row: Line)
    ensures
        line_view(row@) == spacer_row(),
{
    let mut row: Line = Vec::new();
    row.push(Span { content: String::new(), style: Style::new() });
    row.push(Span { content: String::new(), style: Style::new() });
    assert(line_view(row@) =~= spacer_row());
    row
}

/// Two numbers in words.
fn count_words(first: usize, first_word: &str, second: usize, second_word: &str) -> (text: String)
    ensures
        text@ == counted(first, first_word@, second, second_word@),
{
    let mut text = decimal_text(first);
    crate::text::push_char(&mut text, ' ');
    text.append(first_word);
    crate::text::push_char(&mut text, ',');
    crate::text::push_char(&mut text, ' ');
    text.append(decimal_text(second).as_str());
    crate::text::push_char(&mut text, ' ');
    text.append(second_word);
    assert(text@ =~= counted(first, first_word@, second, second_word@));
    text
}

/// The label of the row with the project's name.
fn name_label() -> (label: String)
    ensures
        label@ == seq![' ', '\u{2514}', '\u{2500}', '\u{2500}', ' ', 'N', 'a', 'm', 'e'],
{
    let mut label = String::new();
    crate::text::push_char(&mut label, ' ');
    crate::text::push_char(&mut label, '\u{2514}');
    crate::text::push_char(&mut label, '\u{2500}');
    crate::text::push_char(&mut label, '\u{2500}');
    crate::text::push_char(&mut label, ' ');
    crate::text::push_char(&mut label, 'N');
    crate::text::push_char(&mut label, 'a');
    crate::text::push_char(&mut label, 'm');
    crate::text::push_char(&mut label, 'e');
    assert(label@ =~= seq![' ', '\u{2514}', '\u{2500}', '\u{2500}', ' ', 'N', 'a', 'm', 'e']);
    label
}

impl Widget for ProjectWidget {
    open spec fn draws(&self, area: Rect, paints: Seq<PaintView>) -> bool {
        paints == project_painted(*self, area)
    }

    open spec fn reacts(&self, action: Action, after: &ProjectWidget) -> bool {
        *after == *self
    }

    fn draw(&self, area: Rect) -> (paints: Vec<Paint>) {
        let mut rows: Vec<Line> = Vec::new();
        rows.push(spacer());
        rows.push(row(String::from_str(" Project"), self.urn.clone()));
        rows.push(row(name_label(), self.name.clone()));
        rows.push(spacer());
        rows.push(
            row(String::from_str(" Issues"), count_words(self.issues.0, "Open", self.issues.1, "Closed")),
        );
        rows.push(
            row(
                String::from_str(" Patches"),
                count_words(self.patches.0, "Open", self.patches.1, "Merged"),
            ),
        );
        let mut widths: Vec<Ratio> = Vec::new();
        widths.push(Ratio { part: 1, whole: 8 });
        widths.push(Ratio { part: 7, whole: 8 });
        let table = Table { title: String::from_str(" Status "), widths, rows };
        let mut paints: Vec<Paint> = Vec::new();
        paints.push(Paint::Table(table, area));
        proof {
            let expected = project_painted(*self, area)[0]->Table_0;
            assert(table@.widths =~= expected.widths);
            assert(table@.rows =~= expected.rows);
            assert(paint_views(paints@) =~= project_painted(*self, area));
        }
        paints
    }

    fn on_action(&mut self, _action: Action) {
    }
}

/// The entry of an issue in the browser: its title in bold, and below it
/// the author.
pub open spec fn issue_item(title: Seq<char>, author: Seq<char>) -> Seq<Seq<SpanView>> {
    seq![
        seq![SpanView { content: title, style: Style { bold: true, ..Style::plain() } }],
        seq![
            SpanView {
                content: seq!['\u{2514}', '\u{2500}', '\u{2500}', ' '] + author,
                style: Style { fg: Some(Color::DarkGray), italic: true, ..Style::plain() },
            },
        ],
    ]
}

/// The entries of the issues in the browser.
pub open spec fn issue_items(issues: Seq<Issue>) -> Seq<Seq<Seq<SpanView>>> {
    Seq::new(issues.len(), |i: int| issue_item(issues[i].title@, issues[i].author@))
}

/// What the browser paints: the list of issues in a frame, the selected
/// one in bold magenta behind `> `.
pub open spec fn browser_painted(list: StatefulList<Issue>, area: Rect) -> Seq<PaintView> {
    seq![
        PaintView::List(
            ListView {
                title: Some(" Browser "@),
                items: issue_items(list.items@),
                selected: list.state.selected,
                highlight_style: Style { fg: Some(Color::Magenta), bold: true, ..Style::plain() },
                highlight_symbol: "> "@,
                repeat_highlight_symbol: false,
            },
            area,
        ),
    ]
}

/// The selection of the browser after `action`: the browse actions move
/// it; nothing else changes the browser.
pub open spec fn browsed(selected: Option<usize>, len: nat, action: Action) -> Option<usize> {
    match action {
        Action::BrowseUp => Some(previous_index(selected, len)),
        Action::BrowseDown => Some(next_index(selected, len)),
        _ => selected,
    }
}

/// A list to browse.
#[derive(Debug)]
pub struct BrowserWidget<T> {
    pub issues: Box<StatefulList<T>>,
}

impl BrowserWidget<Issue> {
    /// The entry of `issue` in the browser.
    pub fn item(issue: &Issue) -> (item: ListItem)
        ensures
            item@ == issue_item(issue.title@, issue.author@),
    {
        let mut title: Line = Vec::new();
        title.push(Span { content: issue.title.clone(), style: Style::new().bold() });
        let mut author = String::new();
        crate::text::push_char(&mut author, '\u{2514}');
        crate::text::push_char(&mut author, '\u{2500}');
        crate::text::push_char(&mut author, '\u{2500}');
        crate::text::push_char(&mut author, ' ');
        author.append(issue.author.as_str());
        let mut by: Line = Vec::new();
        by.push(Span { content: author, style: Style::new().italic().fg(Color::DarkGray) });
        let mut lines: Vec<Line> = Vec::new();
        lines.push(title);
        lines.push(by);
        let item = ListItem { lines };
        proof {
            let expected = issue_item(issue.title@, issue.author@);
            assert(author@ =~= seq!['\u{2514}', '\u{2500}', '\u{2500}', ' '] + issue.author@);
            assert(line_view(item.lines@[0]@) =~= expected[0]);
            assert(line_view(item.lines@[1]@) =~= expected[1]);
            assert(item@ =~= expected);
        }
        item
    }
}

impl Widget for BrowserWidget<Issue> {
    open spec fn draws(&self, area: Rect, paints: Seq<PaintView>) -> bool {
        paints == browser_painted(*self.issues, area)
    }

    open spec fn reacts(&self, action: Action, after: &BrowserWidget<Issue>) -> bool {
        &&& after.issues.items == self.issues.items
        &&& after.issues.state.selected == browsed(
            self.issues.state.selected,
            self.issues.items@.len(),
            action,
        )
    }

    fn draw(&self, area: Rect) -> (paints: Vec<Paint>) {
        let mut items: Vec<ListItem> = Vec::new();
        let mut i: usize = 0;
        while i < self.issues.items.len()
            invariant
                i <= self.issues.items@.len(),
                items@.len() == i,
                forall|j: int|
                    0 <= j < i ==> (#[trigger] items@[j])@ == issue_item(
                        self.issues.items@[j].title@,
                        self.issues.items@[j].author@,
                    ),
            decreases self.issues.items.len() - i,
        {
            items.push(BrowserWidget::item(&self.issues.items[i]));
            i += 1;
        }
        assert(item_views(items@) =~= issue_items(self.issues.items@));
        let list = List {
            title: Some(String::from_str(" Browser ")),
            items,
            selected: self.issues.selected(),
            highlight_style: Style::new().bold().fg(Color::Magenta),
            highlight_symbol: String::from_str("> "),
            repeat_highlight_symbol: false,
        };
        let mut paints: Vec<Paint> = Vec::new();
        paints.push(Paint::List(list, area));
        assert(paint_views(paints@) =~= browser_painted(*self.issues, area));
        paints
    }

    fn on_action(&mut self, action: Action) {
        match action {
            Action::BrowseUp => self.issues.previous(),
            Action::BrowseDown => self.issues.next(),
            _ => {},
        }
    }
}

impl ListWidget<Issue> for BrowserWidget<Issue> {
    open spec fn list(&self) -> StatefulList<Issue> {
        *self.issues
    }

    fn items(&self) -> (list: &StatefulList<Issue>) {
        &self.issues
    }
}

/// The widgets that the pages of the dashboard are made of.
#[derive(Debug)]
pub enum Content {
    Project(ProjectWidget),
    Browser(BrowserWidget<Issue>),
}

impl Widget for Content {
    open spec fn draws(&self, area: Rect, paints: Seq<PaintView>) -> bool {
        match self {
            Content::Project(widget) => widget.draws(area, paints),
            Content::Browser(widget) => widget.draws(area, paints),
        }
    }

    open spec fn reacts(&self, action: Action, after: &Content) -> bool {
        match (self, after) {
            (Content::Project(widget), Content::Project(then)) => widget.reacts(action, then),
            (Content::Browser(widget), Content::Browser(then)) => widget.reacts(action, then),
            _ => false,
        }
    }

    fn draw(&self, area: Rect) -> (paints: Vec<Paint>) {
        match self {
            Content::Project(widget) => widget.draw(area),
            Content::Browser(widget) => widget.draw(area),
        }
    }

    fn on_action(&mut self, action: Action) {
        match self {
            Content::Project(widget) => widget.on_action(action),
            Content::Browser(widget) => widget.on_action(action),
        }
    }
}

/// The paint operations of one widget behind those of the widgets before.
pub open spec fn joined(before: Seq<PaintView>, last: Seq<PaintView>) -> Seq<PaintView> {
    before + last
}

/// Whether `paints` is what drawing the first `count` of `widgets` may
/// give, each in the area with its index, one after the other.
pub open spec fn all_drawn<W: Widget>(widgets: Seq<W>, areas: Seq<Rect>, count: nat, paints: Seq<PaintView>) -> bool
    decreases count,
{
    if count == 0 {
        paints == Seq::<PaintView>::empty()
    } else {
        exists|before: Seq<PaintView>, last: Seq<PaintView>|
            {
                &&& all_drawn(widgets, areas, (count - 1) as nat, before)
                &&& widgets[count - 1].draws(areas[count - 1], last)
                &&& paints == #[trigger] joined(before, last)
            }
    }
}

/// The share of a page that each of `count` widgets asks for, in percent;
/// 0 where the count, taken as a `u16`, is 0.
pub open spec fn page_share(count: nat) -> u16 {
    let share = (count % 0x1_0000) as int;
    if share == 0 {
        0
    } else {
        (100int / share) as u16
    }
}

/// What `count` widgets ask for on a page: an equal share each.
pub open spec fn page_constraints(count: nat) -> Seq<Constraint> {
    Seq::new(count, |i: int| Constraint::Percentage(page_share(count)))
}

/// A page of the dashboard: widgets below each other.
#[derive(Debug)]
pub struct PageWidget<W: Widget> {
    pub widgets: Vec<W>,
}

/// Whether `paints` is what drawing `page` into `area` may give: each
/// widget in a part of its own, wherever the parts lie. Where the area
/// cannot be divided nothing is painted.
pub open spec fn page_drawn<W: Widget>(page: PageWidget<W>, area: Rect, paints: Seq<PaintView>) -> bool {
    let count = page.widgets@.len();
    if crate::layout::computable(
        crate::layout::held_to_grid(area),
        page_constraints(count),
        Direction::Vertical,
    ) {
        exists|parts: Seq<Rect>|
            {
                &&& divided(area, page_constraints(count), Direction::Vertical, parts)
                &&& #[trigger] parts.len() == count
                &&& all_drawn(page.widgets@, parts, count, paints)
            }
    } else {
        paints == Seq::<PaintView>::empty()
    }
}

impl<W: Widget> PageWidget<W> {
    /// What the widgets of the page ask for: an equal share each.
    pub fn constraints(&self) -> (constraints: Vec<Constraint>)
        ensures
            constraints@ == page_constraints(self.widgets@.len()),
    {
        let share = (self.widgets.len() % 0x1_0000) as u16;
        let percent: u16 = if share == 0 {
            0
        } else {
            100 / share
        };
        let mut constraints: Vec<Constraint> = Vec::new();
        let mut i: usize = 0;
        while i < self.widgets.len()
            invariant
                i <= self.widgets@.len(),
                constraints@.len() == i,
                percent == page_share(self.widgets@.len()),
                forall|j: int| 0 <= j < i ==> constraints@[j] == Constraint::Percentage(percent),
            decreases self.widgets.len() - i,
        {
            constraints.push(Constraint::Percentage(percent));
            i += 1;
        }
        assert(constraints@ =~= page_constraints(self.widgets@.len()));
        constraints
    }

    /// What is painted for the page, given the parts into which it was
    /// divided: each widget in its part, as far as there are parts.
    pub fn draw_in(&self, parts: &Vec<Rect>) -> (paints: Vec<Paint>)
        ensures
            all_drawn(
                self.widgets@,
                parts@,
                if parts@.len() < self.widgets@.len() {
                    parts@.len()
                } else {
                    self.widgets@.len()
                },
                paint_views(paints@),
            ),
    {
        let count = if parts.len() < self.widgets.len() {
            parts.len()
        } else {
            self.widgets.len()
        };
        let mut paints: Vec<Paint> = Vec::new();
        assert(paint_views(paints@) =~= Seq::<PaintView>::empty());
        let mut i: usize = 0;
        while i < count
            invariant
                i <= count,
                count <= parts@.len(),
                count <= self.widgets@.len(),
                all_drawn(self.widgets@, parts@, i as nat, paint_views(paints@)),
            decreases count - i,
        {
            let ghost before = paint_views(paints@);
            let more = self.widgets[i].draw(parts[i]);
            let ghost last = paint_views(more@);
            append_paints(&mut paints, more);
            assert(paint_views(paints@) == joined(before, last));
            i += 1;
        }
        paints
    }
}

impl<W: Widget> Widget for PageWidget<W> {
    open spec fn draws(&self, area: Rect, paints: Seq<PaintView>) -> bool {
        page_drawn(*self, area, paints)
    }

    open spec fn reacts(&self, action: Action, after: &PageWidget<W>) -> bool {
        &&& after.widgets@.len() == self.widgets@.len()
        &&& forall|i: int|
            0 <= i < self.widgets@.len() ==> (#[trigger] self.widgets@[i]).reacts(
                action,
                &after.widgets@[i],
            )
    }

    fn draw(&self, area: Rect) -> (paints: Vec<Paint>) {
        let constraints = self.constraints();
        match split_by(area, &constraints, Direction::Vertical) {
            Some(parts) => {
                assert(parts@.len() == self.widgets@.len());
                self.draw_in(&parts)
            },
            None => {
                let paints: Vec<Paint> = Vec::new();
                assert(paint_views(paints@) =~= Seq::<PaintView>::empty());
                paints
            },
        }
    }

    fn on_action(&mut self, action: Action) {
        let mut i: usize = 0;
        while i < self.widgets.len()
            invariant
                i <= self.widgets@.len(),
                self.widgets@.len() == old(self).widgets@.len(),
                forall|j: int|
                    0 <= j < i ==> (#[trigger] old(self).widgets@[j]).reacts(action, &self.widgets@[j]),
                forall|j: int| i <= j < self.widgets@.len() ==> self.widgets@[j] == old(self).widgets@[j],
            decreases self.widgets.len() - i,
        {
            self.widgets[i].on_action(action);
            i += 1;
        }
    }
}

/// What the window asks for: three rows for the menu, at most two for the
/// actions, and the rest for the page.
pub open spec fn window_constraints() -> Seq<Constraint> {
    seq![Constraint::Length(3), Constraint::Min(0), Constraint::Max(2)]
}

/// The window of the dashboard: the menu, the page that the menu selects,
/// and the bar of actions.
pub struct ApplicationWindow<M: ListWidget<MenuView>, W: Widget> {
    pub menu: Box<M>,
    pub pages: Vec<PageWidget<W>>,
    pub actions: ActionWidget,
}

/// The number of the page that a menu selects: the selected entry, and
/// the first where none is selected.
pub open spec fn selected_page<M: ListWidget<MenuView>>(menu: M) -> usize {
    match menu.list().state.selected {
        Some(selected) => selected,
        None => 0,
    }
}

/// Whether `paints` is what drawing the window into the three parts of
/// `parts` may give: the menu in the first, the selected page, if there is
/// such a page, in the second, and the actions in the third. With fewer
/// than three parts nothing is painted.
pub open spec fn window_drawn<M: ListWidget<MenuView>, W: Widget>(
    window: ApplicationWindow<M, W>,
    parts: Seq<Rect>,
    paints: Seq<PaintView>,
) -> bool {
    if parts.len() < 3 {
        paints == Seq::<PaintView>::empty()
    } else {
        exists|menu: Seq<PaintView>, page: Seq<PaintView>, actions: Seq<PaintView>|
            {
                &&& window.menu.draws(parts[0], menu)
                &&& if selected_page(*window.menu) < window.pages@.len() {
                    page_drawn(window.pages@[selected_page(*window.menu) as int], parts[1], page)
                } else {
                    page == Seq::<PaintView>::empty()
                }
                &&& window.actions.draws(parts[2], actions)
                &&& paints == #[trigger] joined(joined(menu, page), actions)
            }
    }
}

/// Whether `after` is the window as `action` leaves it: the menu has
/// answered the action, and then the page that the menu selects by then;
/// every other page is as before.
pub open spec fn window_reacted<M: ListWidget<MenuView>, W: Widget>(
    window: ApplicationWindow<M, W>,
    action: Action,
    after: ApplicationWindow<M, W>,
) -> bool {
    &&& window.menu.reacts(action, &*after.menu)
    &&& after.actions == window.actions
    &&& after.pages@.len() == window.pages@.len()
    &&& forall|i: int|
        0 <= i < window.pages@.len() ==> if i == selected_page(*after.menu) {
            (#[trigger] window.pages@[i]).reacts(action, &after.pages@[i])
        } else {
            after.pages@[i] == window.pages@[i]
        }
}

impl<M: ListWidget<MenuView>, W: Widget> ApplicationWindow<M, W> {
    /// What is painted for a frame of the size of `area`.
    pub fn draw(&self, area: Rect) -> (paints: Vec<Paint>)
        ensures
            exists|parts: Seq<Rect>|
                {
                    &&& divided(area, window_constraints(), Direction::Vertical, parts)
                    &&& #[trigger] parts.len() == 3
                    &&& window_drawn(*self, parts, paint_views(paints@))
                },
    {
        let mut constraints: Vec<Constraint> = Vec::new();
        constraints.push(Constraint::Length(3));
        constraints.push(Constraint::Min(0));
        constraints.push(Constraint::Max(2));
        assert(constraints@ =~= window_constraints());
        match split_by(area, &constraints, Direction::Vertical) {
            Some(parts) => {
                assert(parts@.len() == 3);
                self.draw_in(&parts)
            },
            None => {
                proof {
                    assert(crate::layout::computable(
                        crate::layout::held_to_grid(area),
                        constraints@,
                        Direction::Vertical,
                    ));
                }
                Vec::new()
            },
        }
    }

    /// What is painted for the window, given the three parts into which
    /// the frame was divided.
    pub fn draw_in(&self, parts: &Vec<Rect>) -> (paints: Vec<Paint>)
        ensures
            window_drawn(*self, parts@, paint_views(paints@)),
    {
        let mut paints: Vec<Paint> = Vec::new();
        if parts.len() < 3 {
            assert(paint_views(paints@) =~= Seq::<PaintView>::empty());
            return paints;
        }
        let menu = self.menu.draw(parts[0]);
        let ghost menu_paints = paint_views(menu@);
        let selected = match self.menu.items().selected() {
            Some(selected) => selected,
            None => 0,
        };
        let page = if selected < self.pages.len() {
            self.pages[selected].draw(parts[1])
        } else {
            Vec::new()
        };
        let ghost page_paints = paint_views(page@);
        assert(selected >= self.pages@.len() ==> page_paints =~= Seq::<PaintView>::empty());
        let actions = self.actions.draw(parts[2]);
        let ghost action_paints = paint_views(actions@);
        assert(paint_views(paints@) =~= Seq::<PaintView>::empty());
        append_paints(&mut paints, menu);
        append_paints(&mut paints, page);
        append_paints(&mut paints, actions);
        assert(paint_views(paints@) =~= joined(joined(menu_paints, page_paints), action_paints));
        paints
    }

    /// Hands `action` to the menu, and then to the page that the menu
    /// selects.
    pub fn on_action(&mut self, action: Action)
        ensures
            window_reacted(*old(self), action, *final(self)),
    {
        self.menu.on_action(action);
        let selected = match self.menu.items().selected() {
            Some(selected) => selected,
            None => 0,
        };
        if selected < self.pages.len() {
            self.pages[selected].on_action(action);
        }
    }
}

} // verus!
