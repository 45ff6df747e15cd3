//! Issues in groups, as the tabbed interface shows them: the open ones and
//! the closed ones.

use crate::issue::model::{issue_views, IssueList, IssueState, IssueView};
use crate::text::{decimal_text, digits_of};
use vstd::prelude::*;
use vstd::string::*;

verus! {

/// What the interface tells its application.
#[derive(Clone, Copy, Debug, PartialEq, Eq, Structural)]
pub enum Message {
    Quit,
}

/// The parts of the interface.
#[derive(Clone, Copy, Debug, PartialEq, Eq, Hash, Structural)]
pub enum Id {
    Title,
    Content,
    Shortcuts,
}

/// The issues of `issues` that are open, or those that are not, in their
/// order.
pub open spec fn chosen(issues: Seq<(Seq<char>, IssueView)>, open: bool) -> Seq<(Seq<char>, IssueView)>
    decreases issues.len(),
{
    if issues.len() == 0 {
        Seq::empty()
    } else if (issues.last().1.state == IssueState::Open) == open {
        chosen(issues.drop_last(), open).push(issues.last())
    } else {
        chosen(issues.drop_last(), open)
    }
}

/// Issues by their state.
#[derive(Debug, PartialEq, Eq)]
pub struct IssueGroups {
    pub open: IssueList,
    pub closed: IssueList,
}

impl Default for IssueGroups {
    /// No issues.
    fn default() -> (groups: IssueGroups)
        ensures
            groups.open@.len() == 0,
            groups.closed@.len() == 0,
    {
        IssueGroups { open: Vec::new(), closed: Vec::new() }
    }
}

/// The heights of the three parts of the interface in a frame that is
/// `height` rows high: the title's, the content's and the shortcuts'. The
/// content gets what title and shortcuts leave, less the two rows of the
/// margin, and nothing where that is less than nothing.
pub open spec fn part_heights(height: u16, title: u16, shortcuts: u16) -> Seq<u16> {
    let left = height - (title + shortcuts) - 2;
    seq![
        title,
        if left < 0 {
            0
        } else {
            left as u16
        },
        shortcuts,
    ]
}

/// The title of a tab: the number of its issues and its name.
pub open spec fn tab_title(count: nat, name: Seq<char>) -> Seq<char> {
    digits_of(count) + seq![' '] + name
}

/// The interface of the issues of a project.
#[derive(Debug, PartialEq, Eq)]
pub struct IssueTui {
    issues: IssueGroups,
    quit: bool,
}

impl IssueTui {
    /// The issues that the interface shows.
    pub closed spec fn groups(&self) -> IssueGroups {
        self.issues
    }

    /// Whether the application is to end.
    pub closed spec fn quitting(&self) -> bool {
        self.quit
    }

    /// The interface for the issues that were loaded; for none, where
    /// loading failed.
    pub fn new(loaded: Option<IssueList>) -> (tui: IssueTui)
        ensures
            !tui.quitting(),
            match loaded {
                Some(issues) => {
                    &&& issue_views(tui.groups().open@) == chosen(issue_views(issues@), true)
                    &&& issue_views(tui.groups().closed@) == chosen(issue_views(issues@), false)
                },
                None => tui.groups().open@.len() == 0 && tui.groups().closed@.len() == 0,
            },
    {
        let issues = match loaded {
            Some(issues) => issues,
            None => {
                return IssueTui { issues: IssueGroups::default(), quit: false };
            },
        };
        IssueTui { issues: IssueTui::group_issues(issues), quit: false }
    }

    /// Sorts `issues` into the open ones and the others, each group in the
    /// order of `issues`.
    pub fn group_issues(issues: IssueList) -> (groups: IssueGroups)
        ensures
            issue_views(groups.open@) == chosen(issue_views(issues@), true),
            issue_views(groups.closed@) == chosen(issue_views(issues@), false),
    {
        let ghost all = issue_views(issues@);
        let mut open: IssueList = Vec::new();
        let mut closed: IssueList = Vec::new();
        assert(all.subrange(0, 0) =~= Seq::empty());
        assert(issue_views(open@) =~= Seq::empty());
        assert(issue_views(closed@) =~= Seq::empty());
        for entry in rest: issues
            invariant
                issue_views(rest.seq()) == all,
                issue_views(open@) == chosen(all.subrange(0, rest.index() as int), true),
                issue_views(closed@) == chosen(all.subrange(0, rest.index() as int), false),
        {
            proof {
                let done = all.subrange(0, rest.index() + 1);
                assert(done.drop_last() =~= all.subrange(0, rest.index() as int));
                assert(done.last() == (entry.0@, entry.1@));
            }
            let ghost open_before = issue_views(open@);
            let ghost closed_before = issue_views(closed@);
            match entry.1.state {
                IssueState::Open => {
                    open.push(entry);
                    assert(issue_views(open@) =~= open_before.push((entry.0@, entry.1@)));
                },
                IssueState::Closed { .. } => {
                    closed.push(entry);
                    assert(issue_views(closed@) =~= closed_before.push((entry.0@, entry.1@)));
                },
            }
        }
        assert(all.subrange(0, all.len() as int) =~= all);
        IssueGroups { open, closed }
    }

    /// The heights of title, content and shortcuts in a frame that is
    /// `height` rows high.
    pub fn layout(height: u16, title: u16, shortcuts: u16) -> (heights: Vec<u16>)
        ensures
            heights@ == part_heights(height, title, shortcuts),
    {
        let taken: u32 = title as u32 + shortcuts as u32 + 2;
        let content: u16 = if taken > height as u32 {
            0
        } else {
            (height as u32 - taken) as u16
        };
        let mut heights: Vec<u16> = Vec::new();
        heights.push(title);
        heights.push(content);
        heights.push(shortcuts);
        assert(heights@ =~= part_heights(height, title, shortcuts));
        heights
    }

    /// The titles of the two tabs: how many issues are open, and how many
    /// are closed.
    pub fn tab_titles(&self) -> (titles: (String, String))
        ensures
            titles.0@ == tab_title(self.groups().open@.len(), "Open"@),
            titles.1@ == tab_title(self.groups().closed@.len(), "Closed"@),
    {
        let mut open = decimal_text(self.issues.open.len());
        crate::text::push_char(&mut open, ' ');
        open.append("Open");
        let mut closed = decimal_text(self.issues.closed.len());
        crate::text::push_char(&mut closed, ' ');
        closed.append("Closed");
        proof {
            assert(open@ =~= tab_title(self.groups().open@.len(), "Open"@));
            assert(closed@ =~= tab_title(self.groups().closed@.len(), "Closed"@));
        }
        (open, closed)
    }

    /// Takes the messages that the interface has for the application: any
    /// of them asks to quit.
    pub fn update(&mut self, messages: &Vec<Message>)
        ensures
            final(self).quitting() == (old(self).quitting() || messages@.len() > 0),
            final(self).groups() == old(self).groups(),
    {
        let mut i: usize = 0;
        while i < messages.len()
            invariant
                i <= messages@.len(),
                self.issues == old(self).issues,
                self.quit == (old(self).quit || i > 0),
            decreases messages.len() - i,
        {
            match messages[i] {
                Message::Quit => {
                    self.quit = true;
                },
            }
            i += 1;
        }
    }

    /// Whether the application is to end.
    pub fn quit(&self) -> (quit: bool)
        ensures
            quit == self.quitting(),
    {
        self.quit
    }

    /// The issues that the interface shows.
    pub fn issues(&self) -> (groups: &IssueGroups)
        ensures
            *groups == self.groups(),
    {
        &self.issues
    }
}

} // verus!
