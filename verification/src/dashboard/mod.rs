//! The dashboard: a menu above pages that show the state of a project.

pub mod action;
pub mod demo;
pub mod keys;
pub mod state;
pub mod ui;
pub mod widgets;

use crate::dashboard::action::{bound_action, default_entries, Action, Bindings};
use crate::dashboard::keys::Key;
use crate::dashboard::state::{demonstration, Context, Issue, Project};
use crate::dashboard::ui::State;
use crate::dashboard::widgets::{
    ActionWidget, ApplicationWindow, BrowserWidget, Content, MenuView, MenuWidget, PageWidget,
    ProjectWidget, StatefulList,
};
use crate::text::push_char;
use vstd::prelude::*;
use vstd::string::*;

verus! {

/// The time between two ticks, in milliseconds.
pub const TICK_RATE: u64 = 200;

/// What the command line asks of the dashboard.
#[derive(Clone, Copy, Debug, PartialEq, Eq, Structural)]
pub struct Options {
    pub verbose: bool,
}

impl Default for Options {
    /// The options of a command line without arguments.
    fn default() -> (options: Options)
        ensures
            !options.verbose,
    {
        Options { verbose: false }
    }
}

/// An argument of the dashboard's command line.
#[derive(Clone, Copy, Debug, PartialEq, Eq, Structural)]
pub enum Flag {
    /// `--verbose` or `-v`.
    Verbose,
    /// `--help`.
    Help,
    /// Anything else.
    Unexpected,
}

/// Why the arguments were refused.
#[derive(Clone, Copy, Debug, PartialEq, Eq, Structural)]
pub enum ArgsError {
    /// The user asked for help.
    Help,
    /// An argument that the command does not know.
    Unexpected,
}

/// The options that `flags` ask for, read one after the other: the first
/// flag that is a call for help or unexpected ends the reading with its
/// error.
pub open spec fn options_of(flags: Seq<Flag>) -> Result<Options, ArgsError>
    decreases flags.len(),
{
    if flags.len() == 0 {
        Ok(Options { verbose: false })
    } else {
        match options_of(flags.drop_last()) {
            Err(error) => Err(error),
            Ok(options) => match flags.last() {
                Flag::Verbose => Ok(Options { verbose: true }),
                Flag::Help => Err(ArgsError::Help),
                Flag::Unexpected => Err(ArgsError::Unexpected),
            },
        }
    }
}

impl Options {
    /// The options that the arguments of the command line ask for.
    pub fn from_flags(flags: &Vec<Flag>) -> (result: Result<Options, ArgsError>)
        ensures
            result == options_of(flags@),
    {
        let mut verbose = false;
        let mut i: usize = 0;
        assert(flags@.subrange(0, 0) =~= Seq::<Flag>::empty());
        while i < flags.len()
            invariant
                i <= flags@.len(),
                options_of(flags@.subrange(0, i as int)) == Ok::<Options, ArgsError>(Options { verbose }),
            decreases flags.len() - i,
        {
            proof {
                assert(flags@.subrange(0, i + 1).drop_last() =~= flags@.subrange(0, i as int));
                lemma_error_stays(flags@, i as int + 1);
            }
            match flags[i] {
                Flag::Verbose => {
                    verbose = true;
                },
                Flag::Help => {
                    return Err(ArgsError::Help);
                },
                Flag::Unexpected => {
                    return Err(ArgsError::Unexpected);
                },
            }
            i += 1;
        }
        assert(flags@.subrange(0, flags@.len() as int) =~= flags@);
        Ok(Options { verbose })
    }
}

/// Once the reading of flags has ended with an error, more flags change
/// nothing.
pub proof fn lemma_error_stays(flags: Seq<Flag>, read: int)
    requires
        0 <= read <= flags.len(),
    ensures
        options_of(flags.subrange(0, read)) is Err ==> options_of(flags) == options_of(
            flags.subrange(0, read),
        ),
    decreases flags.len() - read,
{
    if read < flags.len() {
        assert(flags.subrange(0, read + 1).drop_last() =~= flags.subrange(0, read));
        lemma_error_stays(flags, read + 1);
    } else {
        assert(flags.subrange(0, read) =~= flags);
    }
}

/// The dashboard: what it shows, whether it goes on, and its bindings.
#[derive(Debug)]
pub struct App {
    pub context: Context,
    pub state: State,
    pub bindings: Bindings,
}

impl App {
    /// The dashboard at its start: it shows the demonstration's context
    /// and goes on.
    pub fn new() -> (app: App)
        ensures
            !app.state.should_exit,
            demonstration(app.context),
            app.bindings.entries() == default_entries(),
    {
        App { context: Context::default(), state: State::new(), bindings: Bindings::new() }
    }

    /// Handles a key: the key that is bound to `Exit` ends the loop, and
    /// no other key changes the dashboard.
    pub fn on_key(&mut self, key: Key)
        ensures
            final(self).state.should_exit == (old(self).state.should_exit || bound_action(key)
                == Action::Exit),
            final(self).context == old(self).context,
            final(self).bindings == old(self).bindings,
    {
        match self.bindings.get(key) {
            Action::Exit => self.state.request_exit(),
            _ => {},
        }
    }

    /// Handles a tick, which changes nothing.
    pub fn on_tick(&mut self)
        ensures
            *final(self) == *old(self),
    {
    }
}

/// The title of the dashboard's menu: the name of the project between
/// blanks, behind a seedling.
pub open spec fn menu_title(project: Option<Seq<char>>) -> Seq<char> {
    match project {
        Some(name) => seq![' ', '\u{1f331}', ' '] + name + seq![' '],
        None => seq![' ', '\u{1f331}', ' '],
    }
}

/// The title of the dashboard's menu.
pub fn title(project: &Option<Project>) -> (title: String)
    ensures
        title@ == menu_title(
            match project {
                Some(project) => Some(project.name@),
                None => None,
            },
        ),
{
    let mut title = String::new();
    push_char(&mut title, ' ');
    push_char(&mut title, '\u{1f331}');
    push_char(&mut title, ' ');
    if let Some(project) = project {
        title.append(project.name.as_str());
        push_char(&mut title, ' ');
    }
    assert(title@ =~= menu_title(
        match project {
            Some(project) => Some(project.name@),
            None => None,
        },
    ));
    title
}

/// Whether `pages` are the pages of the dashboard for `project`: its
/// status, and its issues with the first one selected. Without a project
/// there are no pages.
pub open spec fn pages_show(project: Option<Project>, pages: Seq<PageWidget<Content>>) -> bool {
    match project {
        None => pages.len() == 0,
        Some(project) => {
            &&& pages.len() == 2
            &&& pages[0].widgets@.len() == 1
            &&& pages[0].widgets@[0] matches Content::Project(status)
            &&& status.name@ == project.name@
            &&& status.urn@ == project.urn@
            &&& status.issues == project.issues
            &&& status.patches == project.patches
            &&& pages[1].widgets@.len() == 1
            &&& pages[1].widgets@[0] matches Content::Browser(browser)
            &&& browser.issues.state.selected == Some(0usize)
            &&& browser.issues.items@.len() == project.issue_list@.len()
            &&& forall|i: int|
                0 <= i < project.issue_list@.len() ==> {
                    &&& (#[trigger] browser.issues.items@[i]).title@ == project.issue_list@[i].title@
                    &&& browser.issues.items@[i].author@ == project.issue_list@[i].author@
                }
        },
    }
}

/// The pages of the dashboard for `project`.
pub fn pages(project: &Option<Project>) -> (pages: Vec<PageWidget<Content>>)
    ensures
        pages_show(*project, pages@),
{
    let mut pages: Vec<PageWidget<Content>> = Vec::new();
    if let Some(project) = project {
        let mut status: Vec<Content> = Vec::new();
        status.push(
            Content::Project(
                ProjectWidget {
                    name: project.name.clone(),
                    urn: project.urn.clone(),
                    issues: project.issues,
                    patches: project.patches,
                },
            ),
        );
        let mut issues: Vec<Issue> = Vec::new();
        let mut i: usize = 0;
        while i < project.issue_list.len()
            invariant
                i <= project.issue_list@.len(),
                issues@.len() == i,
                forall|j: int|
                    0 <= j < i ==> {
                        &&& (#[trigger] issues@[j]).title@ == project.issue_list@[j].title@
                        &&& issues@[j].author@ == project.issue_list@[j].author@
                    },
            decreases project.issue_list.len() - i,
        {
            issues.push(project.issue_list[i].clone());
            i += 1;
        }
        let mut browser: Vec<Content> = Vec::new();
        browser.push(
            Content::Browser(BrowserWidget { issues: Box::new(StatefulList::with_items(issues)) }),
        );
        pages.push(PageWidget { widgets: status });
        pages.push(PageWidget { widgets: browser });
    }
    pages
}

/// The window of the dashboard for `project`: a menu with the views
/// `Status` and `Issues`, the pages, and an empty bar of actions.
pub fn window(project: &Option<Project>) -> (window: ApplicationWindow<MenuWidget, Content>)
    ensures
        window.menu.title@ == menu_title(
            match project {
                Some(project) => Some(project.name@),
                None => None,
            },
        ),
        window.menu.views.items@ == seq![MenuView::Status, MenuView::Issues],
        window.menu.views.state.selected == Some(0usize),
        window.actions.items@.len() == 0,
        pages_show(*project, window.pages@),
{
    let mut views: Vec<MenuView> = Vec::new();
    views.push(MenuView::Status);
    views.push(MenuView::Issues);
    assert(views@ =~= seq![MenuView::Status, MenuView::Issues]);
    ApplicationWindow {
        menu: Box::new(
            MenuWidget { title: title(project), views: Box::new(StatefulList::with_items(views)) },
        ),
        pages: pages(project),
        actions: ActionWidget { items: Vec::new() },
    }
}

} // verus!
