//! The issue browser as an application: what its store holds at the start,
//! its pages, and what it asks of its caller at the end.

use crate::application::Update;
use crate::editor::Editor;
use crate::error::Error;
use crate::events::InputEvent;
use crate::issue::model::{issue_views, InternalCall, IssueList, IssueView};
use crate::issue::state::{Page, Tab};
use crate::issue::update::{fresh_editor, stepped, update, updated};
use crate::issue::widgets::{BrowserWidget, ContextWidget, DetailWidget, IssueWidget};
use crate::store::{call_at, require, Model, State, Value, ValueView};
use crate::text::texts;
use crate::window::{
    ApplicationWindow, EditorWidget, EmptyWidget, Mode, PageWidget, ShortcutWidget, TitleWidget,
};
use std::rc::Rc;
use vstd::prelude::*;
use vstd::string::*;

verus! {

/// The function that answers the events of the issue browser.
#[derive(Clone, Copy, Debug)]
pub struct IssueUpdate;

impl Update for IssueUpdate {
    open spec fn answers(&self, before: &State, after: &State, event: InputEvent, result: Result<(), Error>) -> bool {
        stepped(before, after, result, updated(before.model(), event))
    }

    fn update(&self, state: &mut State, event: &InputEvent) -> (result: Result<(), Error>) {
        update(state, event)
    }
}

/// The shortcuts that the bar at the foot of the window shows.
pub open spec fn default_shortcuts() -> Seq<Seq<char>> {
    seq!["c comment"@, "q quit"@, "? help"@]
}

/// The shortcuts that the bar at the foot of the window shows.
pub fn shortcuts() -> (list: Vec<String>)
    ensures
        texts(list@) == default_shortcuts(),
{
    let mut list: Vec<String> = Vec::new();
    list.push(String::from_str("c comment"));
    list.push(String::from_str("q quit"));
    list.push(String::from_str("? help"));
    assert(texts(list@) =~= default_shortcuts());
    list
}

/// What the store of the browser holds at the start, as entries in the
/// order in which they are written: the overview of the open issues in
/// normal mode, with the first issue and its first comment selected, an
/// empty editor and no call for the caller.
pub open spec fn initial_entries(project: Seq<char>, issues: Seq<(Seq<char>, IssueView)>) -> Seq<
    (Seq<char>, ValueView),
> {
    seq![
        ("app.title"@, ValueView::Text("Issues"@)),
        ("app.mode"@, ValueView::Mode(Mode::Normal)),
        ("app.call.internal"@, ValueView::Call(None)),
        ("app.page.active"@, ValueView::Index(Page::Overview.index())),
        ("app.tab.active"@, ValueView::Index(Tab::Open.index())),
        ("app.editor"@, ValueView::Editor(fresh_editor())),
        ("app.editor.text"@, ValueView::Text(Seq::empty())),
        ("project.name"@, ValueView::Text(project)),
        ("project.issue.list"@, ValueView::Issues(issues)),
        ("project.issue.active"@, ValueView::Index(0)),
        ("project.issue.comment.active"@, ValueView::Index(0)),
        ("app.shortcuts"@, ValueView::List(default_shortcuts())),
    ]
}

/// What entries for a store hold.
pub open spec fn entry_views(props: Seq<(&'static str, Value)>) -> Seq<(Seq<char>, ValueView)> {
    Seq::new(props.len(), |i: int| (props[i].0@, props[i].1@))
}

/// The entries that the store of the browser holds at the start.
pub fn initial_props(project: String, issues: IssueList) -> (props: Vec<(&'static str, Value)>)
    ensures
        entry_views(props@) == initial_entries(project@, issue_views(issues@)),
{
    let ghost expected = initial_entries(project@, issue_views(issues@));
    let mut props: Vec<(&'static str, Value)> = Vec::new();
    props.push(("app.title", Value::Text(String::from_str("Issues"))));
    props.push(("app.mode", Value::Mode(Mode::Normal)));
    props.push(("app.call.internal", Value::Call(None)));
    props.push(("app.page.active", Value::Index(0)));
    props.push(("app.tab.active", Value::Index(Tab::Open.number())));
    props.push(("app.editor", Value::Editor(Editor::new())));
    props.push(("app.editor.text", Value::Text(String::new())));
    props.push(("project.name", Value::Text(project)));
    props.push(("project.issue.list", Value::Issues(issues)));
    props.push(("project.issue.active", Value::Index(0)));
    props.push(("project.issue.comment.active", Value::Index(0)));
    props.push(("app.shortcuts", Value::List(shortcuts())));
    assert(entry_views(props@) =~= expected);
    props
}

/// Whether `pages` are the pages of the browser: the overview with the
/// list of issues below the title, and the detail page with the discussion
/// above the context bar. Both have the editor panel at their foot.
pub open spec fn browser_pages(pages: Seq<PageWidget<IssueWidget>>) -> bool {
    &&& pages.len() == 2
    &&& pages[0].children() == seq![
        IssueWidget::Title(TitleWidget),
        IssueWidget::Browser(BrowserWidget),
        IssueWidget::Empty(EmptyWidget),
        IssueWidget::Editor(EditorWidget),
    ]
    &&& pages[1].children() == seq![
        IssueWidget::Empty(EmptyWidget),
        IssueWidget::Detail(DetailWidget),
        IssueWidget::Context(ContextWidget),
        IssueWidget::Editor(EditorWidget),
    ]
}

/// The pages of the browser.
pub fn pages() -> (pages: Vec<PageWidget<IssueWidget>>)
    ensures
        browser_pages(pages@),
{
    let mut overview: Vec<Rc<IssueWidget>> = Vec::new();
    overview.push(Rc::new(IssueWidget::Browser(BrowserWidget)));
    let mut detail: Vec<Rc<IssueWidget>> = Vec::new();
    detail.push(Rc::new(IssueWidget::Detail(DetailWidget)));
    let mut pages: Vec<PageWidget<IssueWidget>> = Vec::new();
    pages.push(
        PageWidget {
            title: Rc::new(IssueWidget::Title(TitleWidget)),
            widgets: overview,
            context: Rc::new(IssueWidget::Empty(EmptyWidget)),
            editor: Rc::new(IssueWidget::Editor(EditorWidget)),
        },
    );
    pages.push(
        PageWidget {
            title: Rc::new(IssueWidget::Empty(EmptyWidget)),
            widgets: detail,
            context: Rc::new(IssueWidget::Context(ContextWidget)),
            editor: Rc::new(IssueWidget::Editor(EditorWidget)),
        },
    );
    proof {
        assert(pages@[0].children() =~= seq![
            IssueWidget::Title(TitleWidget),
            IssueWidget::Browser(BrowserWidget),
            IssueWidget::Empty(EmptyWidget),
            IssueWidget::Editor(EditorWidget),
        ]);
        assert(pages@[1].children() =~= seq![
            IssueWidget::Empty(EmptyWidget),
            IssueWidget::Detail(DetailWidget),
            IssueWidget::Context(ContextWidget),
            IssueWidget::Editor(EditorWidget),
        ]);
    }
    pages
}

/// The window of the browser: its pages above the bar of shortcuts.
pub fn window() -> (window: ApplicationWindow<IssueWidget>)
    ensures
        browser_pages(window.pages@),
        *window.shortcuts == IssueWidget::Shortcut(ShortcutWidget),
{
    ApplicationWindow { pages: pages(), shortcuts: Rc::new(IssueWidget::Shortcut(ShortcutWidget)) }
}

/// What the store asks of the caller: the call under `app.call.internal`,
/// and nothing where the store holds no call there.
pub open spec fn asked(model: Model) -> Option<InternalCall> {
    match call_at(model, "app.call.internal"@) {
        Ok(call) => call,
        Err(_) => None,
    }
}

/// What the browser asks its caller to do now that it has closed.
pub fn internal_call(state: &State) -> (call: Option<InternalCall>)
    ensures
        call == asked(state.model()),
{
    match require::<Option<InternalCall>>(state, "app.call.internal") {
        Ok(call) => *call,
        Err(_) => None,
    }
}

} // verus!
