//! The issue records that the browser shows. They come resolved from the
//! caller and are never changed here.

use vstd::prelude::*;
use vstd::string::*;

verus! {

/// Who wrote an issue or a comment: known by name, or only by an identifier.
#[derive(Debug, PartialEq, Eq)]
pub enum Author {
    Urn { urn: String },
    Resolved { name: String, urn: String },
}

/// What an [`Author`] holds.
pub enum AuthorView {
    Urn { urn: Seq<char> },
    Resolved { name: Seq<char>, urn: Seq<char> },
}

impl AuthorView {
    /// The text that stands for the author: the name where it is known, else
    /// the identifier.
    pub open spec fn shown(self) -> Seq<char> {
        match self {
            AuthorView::Urn { urn } => urn,
            AuthorView::Resolved { name, urn } => name,
        }
    }
}

impl View for Author {
    type V = AuthorView;

    open spec fn view(&self) -> AuthorView {
        match self {
            Author::Urn { urn } => AuthorView::Urn { urn: urn@ },
            Author::Resolved { name, urn } => AuthorView::Resolved { name: name@, urn: urn@ },
        }
    }
}

impl Author {
    /// The text that stands for the author.
    pub fn name(&self) -> (name: String)
        ensures
            name@ == self@.shown(),
    {
        match self {
            Author::Urn { urn } => urn.clone(),
            Author::Resolved { name, urn } => name.clone(),
        }
    }
}

/// A reaction to a comment, and how often it was given.
#[derive(Clone, Copy, Debug, PartialEq, Eq, Structural)]
pub struct Reaction {
    pub emoji: char,
    pub count: usize,
}

/// A comment: the first one states the issue, the others reply to it.
#[derive(Debug, PartialEq, Eq)]
pub struct Comment {
    pub author: Author,
    pub body: String,
    pub reactions: Vec<Reaction>,
    /// Seconds since the Unix epoch.
    pub timestamp: u64,
}

/// What a [`Comment`] holds.
pub struct CommentView {
    pub author: AuthorView,
    pub body: Seq<char>,
    pub reactions: Seq<Reaction>,
    pub timestamp: u64,
}

impl View for Comment {
    type V = CommentView;

    open spec fn view(&self) -> CommentView {
        CommentView {
            author: self.author@,
            body: self.body@,
            reactions: self.reactions@,
            timestamp: self.timestamp,
        }
    }
}

/// What a sequence of comments holds.
pub open spec fn comment_views(comments: Seq<Comment>) -> Seq<CommentView> {
    Seq::new(comments.len(), |i: int| comments[i]@)
}

/// Why an issue was closed.
#[derive(Clone, Copy, Debug, PartialEq, Eq, Structural)]
pub enum CloseReason {
    Solved,
    Other,
}

/// Whether an issue is open.
#[derive(Clone, Copy, Debug, PartialEq, Eq, Structural)]
pub enum IssueState {
    Open,
    Closed { reason: CloseReason },
}

/// An issue with its discussion.
#[derive(Debug, PartialEq, Eq)]
pub struct Issue {
    pub title: String,
    pub author: Author,
    pub state: IssueState,
    pub comment: Comment,
    pub discussion: Vec<Comment>,
}

/// What an [`Issue`] holds.
pub struct IssueView {
    pub title: Seq<char>,
    pub author: AuthorView,
    pub state: IssueState,
    pub comment: CommentView,
    pub discussion: Seq<CommentView>,
}

impl View for Issue {
    type V = IssueView;

    open spec fn view(&self) -> IssueView {
        IssueView {
            title: self.title@,
            author: self.author@,
            state: self.state,
            comment: self.comment@,
            discussion: comment_views(self.discussion@),
        }
    }
}

impl Issue {
    /// The replies to the issue, oldest first.
    pub fn comments(&self) -> (replies: &Vec<Comment>)
        ensures
            replies == self.discussion,
    {
        &self.discussion
    }
}

/// What a list of issues holds: for each its identifier and the issue.
pub open spec fn issue_views(issues: Seq<(IssueId, Issue)>) -> Seq<(Seq<char>, IssueView)> {
    Seq::new(issues.len(), |i: int| (issues[i].0@, issues[i].1@))
}

/// The identifier of an issue.
pub type IssueId = String;

/// Issues with their identifiers, in the order in which they are listed.
pub type IssueList = Vec<(IssueId, Issue)>;

/// What the browser asks its caller to do once it has closed.
#[derive(Clone, Copy, Debug, PartialEq, Eq, Structural)]
pub enum InternalCall {
    New,
}

} // verus!
