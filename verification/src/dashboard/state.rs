//! What the dashboard shows: an identity and a project.

use vstd::prelude::*;
use vstd::string::*;

verus! {

/// The identity of the user.
#[derive(Debug, PartialEq, Eq)]
pub struct Identity {
    pub profile: String,
    pub name: String,
    pub urn: String,
    pub peer_id: String,
    pub key_hash: String,
    pub key_full: String,
}

/// A project, with the numbers of its open and closed issues and of its
/// open and merged patches.
#[derive(Debug, PartialEq, Eq)]
pub struct Project {
    pub name: String,
    pub urn: String,
    pub issues: (usize, usize),
    pub patches: (usize, usize),
    pub issue_list: Vec<Issue>,
}

/// An issue as the dashboard lists it.
#[derive(Debug, PartialEq, Eq)]
pub struct Issue {
    pub title: String,
    pub author: String,
}

impl Clone for Issue {
    fn clone(&self) -> (issue: Issue)
        ensures
            issue.title@ == self.title@,
            issue.author@ == self.author@,
    {
        Issue { title: self.title.clone(), author: self.author.clone() }
    }
}

/// What the dashboard shows.
#[derive(Debug, PartialEq, Eq)]
pub struct Context {
    pub identity: Option<Identity>,
    pub project: Option<Project>,
}

/// An issue with the given title and author.
fn issue(title: &str, author: &str) -> (issue: Issue)
    ensures
        issue.title@ == title@,
        issue.author@ == author@,
{
    Issue { title: String::from_str(title), author: String::from_str(author) }
}

/// Whether `context` is the context of the demonstration: the identity
/// `test`, and the project `demo` with three issues.
pub open spec fn demonstration(context: Context) -> bool {
    &&& context.identity matches Some(identity)
    &&& identity.profile@ == "68ddefe3-81dc-431d-b75b-456416c63a4f"@
    &&& identity.name@ == "test"@
    &&& identity.urn@ == "rad:git:hnrkqtre3dtutrqkeebcpwwwtxjtonaqp9kuy"@
    &&& identity.peer_id@ == "hynp6z36munjbjua6ek8kyztr43dotfopo9pwjmnqifcrrpueyihqo"@
    &&& identity.key_hash@ == "SHA256:ztsGBnbAyhDaoXGAJhw8+EG255MJSNyiWlLCiBfo46o"@
    &&& identity.key_full@
        == "ssh-ed25519 AAAAC3NzaC1lZDI1NTE5AAAAIJvr58uYkhTPHkKOoF4k1kcIlg2H20SsTqlYQjZoBXjo"@
    &&& context.project matches Some(project)
    &&& project.name@ == "demo"@
    &&& project.urn@ == "rad:git:hnrkcnewg4ekq1d18s1qzit4tqshkhqnqnefy"@
    &&& project.issues == (16usize, 87usize)
    &&& project.patches == (5usize, 67usize)
    &&& project.issue_list@.len() == 3
    &&& project.issue_list@[0].title@ == "Issue #1"@
    &&& project.issue_list@[0].author@ == "sebastinez"@
    &&& project.issue_list@[1].title@ == "Issue #2"@
    &&& project.issue_list@[1].author@ == "cloudhead"@
    &&& project.issue_list@[2].title@ == "Issue #3"@
    &&& project.issue_list@[2].author@ == "erikli"@
}

impl Default for Context {
    /// The context of the demonstration.
    fn default() -> (context: Context)
        ensures
            demonstration(context),
    {
        let mut issue_list: Vec<Issue> = Vec::new();
        issue_list.push(issue("Issue #1", "sebastinez"));
        issue_list.push(issue("Issue #2", "cloudhead"));
        issue_list.push(issue("Issue #3", "erikli"));
        Context {
            identity: Some(
                Identity {
                    profile: String::from_str("68ddefe3-81dc-431d-b75b-456416c63a4f"),
                    name: String::from_str("test"),
                    urn: String::from_str("rad:git:hnrkqtre3dtutrqkeebcpwwwtxjtonaqp9kuy"),
                    peer_id: String::from_str("hynp6z36munjbjua6ek8kyztr43dotfopo9pwjmnqifcrrpueyihqo"),
                    key_hash: String::from_str("SHA256:ztsGBnbAyhDaoXGAJhw8+EG255MJSNyiWlLCiBfo46o"),
                    key_full: String::from_str(
                        "ssh-ed25519 AAAAC3NzaC1lZDI1NTE5AAAAIJvr58uYkhTPHkKOoF4k1kcIlg2H20SsTqlYQjZoBXjo",
                    ),
                },
            ),
            project: Some(
                Project {
                    name: String::from_str("demo"),
                    urn: String::from_str("rad:git:hnrkcnewg4ekq1d18s1qzit4tqshkhqnqnefy"),
                    issues: (16, 87),
                    patches: (5, 67),
                    issue_list,
                },
            ),
        }
    }
}

} // verus!
