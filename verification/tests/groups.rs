use radicle_terminal::issue::groups::{Id, IssueGroups, IssueTui, Message};
use radicle_terminal::issue::model::{
    Author, CloseReason, Comment, Issue, IssueList, IssueState,
};

fn issue(title: &str, state: IssueState) -> (String, Issue) {
    (
        String::from(title),
        Issue {
            title: String::from(title),
            author: Author::Urn { urn: String::from("rad:git:abc") },
            state,
            comment: Comment {
                author: Author::Urn { urn: String::from("rad:git:abc") },
                body: String::from("text"),
                reactions: vec![],
                timestamp: 0,
            },
            discussion: vec![],
        },
    )
}

fn issues() -> IssueList {
    vec![
        issue("a", IssueState::Open),
        issue("b", IssueState::Closed { reason: CloseReason::Solved }),
        issue("c", IssueState::Open),
        issue("d", IssueState::Closed { reason: CloseReason::Other }),
        issue("e", IssueState::Open),
    ]
}

fn titles(list: &IssueList) -> Vec<String> {
    list.iter().map(|(id, _)| id.clone()).collect()
}

#[test]
fn issues_are_sorted_into_open_and_closed() {
    let groups = IssueTui::group_issues(issues());
    assert_eq!(titles(&groups.open), vec!["a", "c", "e"]);
    assert_eq!(titles(&groups.closed), vec!["b", "d"]);
    let none = IssueTui::group_issues(vec![]);
    assert_eq!(none, IssueGroups::default());
    let tui = IssueTui::new(Some(issues()));
    assert_eq!(*tui.issues(), groups);
    assert_eq!(tui.tab_titles(), (String::from("3 Open"), String::from("2 Closed")));
    let empty = IssueTui::new(None);
    assert_eq!(*empty.issues(), IssueGroups::default());
    assert_eq!(empty.tab_titles(), (String::from("0 Open"), String::from("0 Closed")));
}

#[test]
fn a_message_ends_the_interface() {
    let mut tui = IssueTui::new(Some(issues()));
    assert!(!tui.quit());
    tui.update(&vec![]);
    assert!(!tui.quit());
    tui.update(&vec![Message::Quit]);
    assert!(tui.quit());
    tui.update(&vec![]);
    assert!(tui.quit());
    assert_eq!(titles(&tui.issues().open), vec!["a", "c", "e"]);
    assert_ne!(Id::Title, Id::Content);
    assert_ne!(Id::Content, Id::Shortcuts);
}

#[test]
fn the_content_gets_what_title_and_shortcuts_leave() {
    assert_eq!(IssueTui::layout(30, 3, 3), vec![3, 22, 3]);
    assert_eq!(IssueTui::layout(8, 3, 3), vec![3, 0, 3]);
    assert_eq!(IssueTui::layout(7, 3, 3), vec![3, 0, 3]);
    assert_eq!(IssueTui::layout(0, 0, 0), vec![0, 0, 0]);
    assert_eq!(IssueTui::layout(2, 0, 0), vec![0, 0, 0]);
    assert_eq!(IssueTui::layout(3, 0, 0), vec![0, 1, 0]);
    assert_eq!(IssueTui::layout(65535, 65535, 65535), vec![65535, 0, 65535]);
    assert_eq!(IssueTui::layout(65535, 0, 0), vec![0, 65533, 0]);
}
