use radicle_terminal::dashboard::action::{Action, Bindings};
use radicle_terminal::dashboard::demo;
use radicle_terminal::dashboard::keys::Key;
use radicle_terminal::dashboard::state::{Context, Issue};
use radicle_terminal::dashboard::ui::State;
use radicle_terminal::dashboard::widgets::{
    ActionWidget, BrowserWidget, Content, ListWidget, MenuView, MenuWidget, PageWidget,
    ProjectWidget, StatefulList, Widget,
};
use radicle_terminal::dashboard::{pages, title, window, App, ArgsError, Flag, Options, TICK_RATE};
use radicle_terminal::events;
use radicle_terminal::events::{InputEvent, KeyCode, KeyEvent, KeyModifiers};
use radicle_terminal::layout::Rect;
use radicle_terminal::paint::{
    Color, List, ListItem, Paint, Paragraph, Ratio, Span, Style, Table, Tabs,
};

fn rect(x: u16, y: u16, width: u16, height: u16) -> Rect {
    Rect { x, y, width, height }
}

fn span(content: &str, style: Style) -> Span {
    Span { content: String::from(content), style }
}

fn press(code: KeyCode) -> KeyEvent {
    KeyEvent { code, modifiers: KeyModifiers { bits: 0 } }
}

#[test]
fn dashboard_keys() {
    assert_eq!(Key::from(press(KeyCode::Char('q'))), Key::Char('q'));
    assert_eq!(Key::from(press(KeyCode::Up)), Key::Up);
    assert_eq!(Key::from(press(KeyCode::Down)), Key::Down);
    assert_eq!(Key::from(press(KeyCode::Enter)), Key::Unknown);
    assert_eq!(Key::from(press(KeyCode::Left)), Key::Unknown);
    assert_eq!(Key::from(press(KeyCode::Other)), Key::Unknown);
}

#[test]
fn dashboard_bindings() {
    let bindings = Bindings::new();
    assert_eq!(bindings.get(Key::Char('q')), Action::Exit);
    assert_eq!(bindings.get(Key::Char('1')), Action::MenuStatus);
    assert_eq!(bindings.get(Key::Char('2')), Action::MenuIssues);
    assert_eq!(bindings.get(Key::Char('3')), Action::MenuPatches);
    assert_eq!(bindings.get(Key::Up), Action::BrowseUp);
    assert_eq!(bindings.get(Key::Down), Action::BrowseDown);
    assert_eq!(bindings.get(Key::Char('4')), Action::Unknown);
    assert_eq!(bindings.get(Key::Unknown), Action::Unknown);
}

#[test]
fn the_dashboard_goes_on_until_q() {
    let mut app = App::new();
    assert!(!app.state.should_exit());
    app.on_tick();
    app.on_key(Key::Up);
    app.on_key(Key::Char('1'));
    app.on_key(Key::Unknown);
    assert!(!app.state.should_exit());
    app.on_key(Key::Char('q'));
    assert!(app.state.should_exit());
    app.on_key(Key::Up);
    assert!(app.state.should_exit());
    let mut state = State::new();
    assert!(!state.should_exit());
    state.request_exit();
    assert!(state.should_exit());
    assert_eq!(TICK_RATE, 200);
}

#[test]
fn the_smallest_application() {
    let mut app = demo::App::new(" cc-demo ");
    assert_eq!(app.title, " cc-demo ");
    assert!(!app.should_quit);
    app.on_tick();
    assert!(!app.should_quit);
    app.on_quit();
    assert!(app.should_quit);
    assert_eq!(app.title, " cc-demo ");
}

#[test]
fn the_smallest_application_ends_on_q() {
    let mut app = demo::App::new(" cc-demo ");
    for event in [
        InputEvent::Tick,
        InputEvent::Input(events::Key::Char('Q')),
        InputEvent::Input(events::Key::Char('x')),
        InputEvent::Input(events::Key::Esc),
        InputEvent::Input(events::Key::Enter),
    ] {
        app.on_event(&event);
        assert!(!app.should_quit);
    }
    app.on_event(&InputEvent::Input(events::Key::Char('q')));
    assert!(app.should_quit);
    app.on_event(&InputEvent::Tick);
    assert!(app.should_quit);
    let area = rect(0, 0, 40, 10);
    assert_eq!(
        app.draw(area),
        vec![Paint::Paragraph(
            Paragraph { line: vec![span(" cc-demo ", Style::new())], style: None, centered: false },
            area
        )]
    );
}

#[test]
fn the_context_of_the_demonstration() {
    let context = Context::default();
    let identity = context.identity.unwrap();
    assert_eq!(identity.profile, "68ddefe3-81dc-431d-b75b-456416c63a4f");
    assert_eq!(identity.name, "test");
    assert_eq!(identity.urn, "rad:git:hnrkqtre3dtutrqkeebcpwwwtxjtonaqp9kuy");
    assert_eq!(identity.peer_id, "hynp6z36munjbjua6ek8kyztr43dotfopo9pwjmnqifcrrpueyihqo");
    assert_eq!(identity.key_hash, "SHA256:ztsGBnbAyhDaoXGAJhw8+EG255MJSNyiWlLCiBfo46o");
    assert_eq!(
        identity.key_full,
        "ssh-ed25519 AAAAC3NzaC1lZDI1NTE5AAAAIJvr58uYkhTPHkKOoF4k1kcIlg2H20SsTqlYQjZoBXjo"
    );
    let project = context.project.unwrap();
    assert_eq!(project.name, "demo");
    assert_eq!(project.urn, "rad:git:hnrkcnewg4ekq1d18s1qzit4tqshkhqnqnefy");
    assert_eq!(project.issues, (16, 87));
    assert_eq!(project.patches, (5, 67));
    assert_eq!(
        project.issue_list,
        vec![
            Issue { title: String::from("Issue #1"), author: String::from("sebastinez") },
            Issue { title: String::from("Issue #2"), author: String::from("cloudhead") },
            Issue { title: String::from("Issue #3"), author: String::from("erikli") },
        ]
    );
    assert_eq!(project.issue_list[0].clone(), project.issue_list[0]);
}

#[test]
fn the_selection_of_a_list_goes_round() {
    let mut list = StatefulList::with_items(vec!['a', 'b', 'c']);
    assert_eq!(list.selected(), Some(0));
    list.previous();
    assert_eq!(list.selected(), Some(2));
    list.next();
    assert_eq!(list.selected(), Some(0));
    list.next();
    list.next();
    assert_eq!(list.selected(), Some(2));
    list.previous();
    assert_eq!(list.selected(), Some(1));
    list.select(7);
    assert_eq!(list.selected(), Some(7));
    list.next();
    assert_eq!(list.selected(), Some(0));
    list.select(7);
    list.previous();
    assert_eq!(list.selected(), Some(6));
    list.state.selected = None;
    list.next();
    assert_eq!(list.selected(), Some(0));
    list.state.selected = None;
    list.previous();
    assert_eq!(list.selected(), Some(0));
    let mut empty: StatefulList<char> = StatefulList::with_items(vec![]);
    empty.next();
    assert_eq!(empty.selected(), Some(0));
    empty.previous();
    assert_eq!(empty.selected(), Some(0));
    assert_eq!(list.items, vec!['a', 'b', 'c']);
}

#[test]
fn the_names_of_the_views() {
    assert_eq!(MenuView::Status.to_string(), "Status");
    assert_eq!(MenuView::Issues.to_string(), "Issues");
    assert_eq!(MenuView::Patches.to_string(), "Patches");
}

#[test]
fn the_menu_shows_its_views_as_tabs() {
    let context = Context::default();
    let mut window = window(&context.project);
    let area = rect(0, 0, 40, 3);
    let green = Style::new().fg(Color::Green);
    let tabs = |selected: usize| {
        vec![Paint::Tabs(
            Tabs {
                title: String::from(" \u{1f331} demo "),
                titles: vec![span("Status", green), span("Issues", green)],
                selected,
                highlight_style: Style::new().fg(Color::Magenta),
            },
            area,
        )]
    };
    assert_eq!(window.menu.draw(area), tabs(0));
    window.menu.on_action(Action::MenuIssues);
    assert_eq!(window.menu.draw(area), tabs(1));
    assert_eq!(window.menu.items().selected(), Some(1));
    window.menu.on_action(Action::MenuPatches);
    window.menu.on_action(Action::BrowseDown);
    window.menu.on_action(Action::Exit);
    assert_eq!(window.menu.items().selected(), Some(1));
    window.menu.on_action(Action::MenuStatus);
    assert_eq!(window.menu.items().selected(), Some(0));
    window.menu.views.state.selected = None;
    assert_eq!(window.menu.draw(area), tabs(0));
    assert_eq!(title(&None), " \u{1f331} ");
    assert_eq!(title(&context.project), " \u{1f331} demo ");
}

#[test]
fn the_status_of_a_project_is_a_table() {
    let mut widget = ProjectWidget {
        name: String::from("demo"),
        urn: String::from("rad:git:abc"),
        issues: (16, 87),
        patches: (5, 0),
    };
    let blue = Style::new().fg(Color::Blue);
    let plain = Style::new();
    let area = rect(0, 3, 40, 20);
    let expected = vec![Paint::Table(
        Table {
            title: String::from(" Status "),
            widths: vec![Ratio { part: 1, whole: 8 }, Ratio { part: 7, whole: 8 }],
            rows: vec![
                vec![span("", plain), span("", plain)],
                vec![span(" Project", plain), span("rad:git:abc", blue)],
                vec![span(" \u{2514}\u{2500}\u{2500} Name", plain), span("demo", blue)],
                vec![span("", plain), span("", plain)],
                vec![span(" Issues", plain), span("16 Open, 87 Closed", blue)],
                vec![span(" Patches", plain), span("5 Open, 0 Merged", blue)],
            ],
        },
        area,
    )];
    assert_eq!(widget.draw(area), expected);
    widget.on_action(Action::BrowseDown);
    assert_eq!(widget.draw(area), expected);
}

fn entry(title: &str, author: &str) -> ListItem {
    ListItem {
        lines: vec![
            vec![span(title, Style::new().bold())],
            vec![span(
                &format!("\u{2514}\u{2500}\u{2500} {}", author),
                Style::new().italic().fg(Color::DarkGray),
            )],
        ],
    }
}

#[test]
fn the_browser_lists_issues_and_browses() {
    let issues = vec![
        Issue { title: String::from("Issue #1"), author: String::from("sebastinez") },
        Issue { title: String::from("Issue #2"), author: String::from("cloudhead") },
    ];
    let mut browser = BrowserWidget { issues: Box::new(StatefulList::with_items(issues)) };
    let area = rect(0, 3, 40, 20);
    let list = |selected: Option<usize>| {
        vec![Paint::List(
            List {
                title: Some(String::from(" Browser ")),
                items: vec![entry("Issue #1", "sebastinez"), entry("Issue #2", "cloudhead")],
                selected,
                highlight_style: Style::new().bold().fg(Color::Magenta),
                highlight_symbol: String::from("> "),
                repeat_highlight_symbol: false,
            },
            area,
        )]
    };
    assert_eq!(browser.draw(area), list(Some(0)));
    browser.on_action(Action::BrowseDown);
    assert_eq!(browser.draw(area), list(Some(1)));
    browser.on_action(Action::BrowseDown);
    assert_eq!(browser.items().selected(), Some(0));
    browser.on_action(Action::BrowseUp);
    assert_eq!(browser.items().selected(), Some(1));
    browser.on_action(Action::MenuStatus);
    browser.on_action(Action::Unknown);
    assert_eq!(browser.items().selected(), Some(1));
    browser.issues.state.selected = None;
    assert_eq!(browser.draw(area), list(None));
}

#[test]
fn the_bar_of_actions_says_how_to_quit() {
    let mut bar = ActionWidget { items: vec![] };
    let area = rect(0, 28, 40, 2);
    let expected = vec![Paint::Paragraph(
        Paragraph { line: vec![span("(Q)uit", Style::new())], style: None, centered: false },
        area,
    )];
    assert_eq!(bar.draw(area), expected);
    bar.on_action(Action::Exit);
    assert_eq!(bar.draw(area), expected);
}

#[test]
fn a_dashboard_page_gives_each_widget_its_share() {
    let context = Context::default();
    let pages_of = pages(&context.project);
    assert_eq!(pages_of.len(), 2);
    assert_eq!(pages(&None).len(), 0);
    let area = rect(0, 3, 40, 20);
    let status = pages_of[0].draw(area);
    match &pages_of[0].widgets[0] {
        Content::Project(widget) => assert_eq!(status, widget.draw(area)),
        _ => panic!("the first page shows the status"),
    }
    let two = PageWidget {
        widgets: vec![ActionWidget { items: vec![] }, ActionWidget { items: vec![] }],
    };
    let drawn = two.draw(area);
    assert_eq!(drawn.len(), 2);
    assert_eq!(drawn[0], ActionWidget { items: vec![] }.draw(rect(0, 3, 40, 10))[0]);
    assert_eq!(drawn[1], ActionWidget { items: vec![] }.draw(rect(0, 13, 40, 10))[0]);
    assert_eq!(two.constraints().len(), 2);
    assert_eq!(two.draw_in(&vec![area]).len(), 1);
    assert_eq!(two.draw(rect(0, 0, 40, 2000)), vec![]);
    let none: PageWidget<ActionWidget> = PageWidget { widgets: vec![] };
    assert_eq!(none.draw(area), vec![]);
}

#[test]
fn the_dashboard_window_hands_actions_to_the_selected_page() {
    let context = Context::default();
    let mut window = window(&context.project);
    let area = rect(0, 0, 40, 30);
    let drawn = window.draw(area);
    assert_eq!(drawn.len(), 3);
    assert!(matches!(drawn[0], Paint::Tabs(_, _)));
    assert!(matches!(drawn[1], Paint::Table(_, _)));
    assert!(matches!(drawn[2], Paint::Paragraph(_, _)));
    window.on_action(Action::BrowseDown);
    let selected = |window: &radicle_terminal::dashboard::widgets::ApplicationWindow<MenuWidget, Content>| {
        match &window.pages[1].widgets[0] {
            Content::Browser(browser) => browser.items().selected(),
            _ => None,
        }
    };
    assert_eq!(selected(&window), Some(0));
    window.on_action(Action::MenuIssues);
    assert_eq!(window.menu.items().selected(), Some(1));
    assert_eq!(selected(&window), Some(0));
    window.on_action(Action::BrowseDown);
    window.on_action(Action::BrowseDown);
    assert_eq!(selected(&window), Some(2));
    assert!(matches!(window.draw(area)[1], Paint::List(_, _)));
    window.on_action(Action::BrowseDown);
    assert_eq!(selected(&window), Some(0));
    window.on_action(Action::MenuStatus);
    window.on_action(Action::BrowseUp);
    assert_eq!(selected(&window), Some(0));
    window.menu.views.select(5);
    window.on_action(Action::BrowseUp);
    assert_eq!(window.draw(area).len(), 2);
    assert_eq!(window.draw_in(&vec![area, area]), vec![]);
}

#[test]
fn dashboard_options() {
    assert_eq!(Options::default(), Options { verbose: false });
    assert_eq!(Options::from_flags(&vec![]), Ok(Options { verbose: false }));
    assert_eq!(Options::from_flags(&vec![Flag::Verbose]), Ok(Options { verbose: true }));
    assert_eq!(
        Options::from_flags(&vec![Flag::Verbose, Flag::Verbose]),
        Ok(Options { verbose: true })
    );
    assert_eq!(Options::from_flags(&vec![Flag::Verbose, Flag::Help]), Err(ArgsError::Help));
    assert_eq!(
        Options::from_flags(&vec![Flag::Unexpected, Flag::Help]),
        Err(ArgsError::Unexpected)
    );
    assert_eq!(
        Options::from_flags(&vec![Flag::Help, Flag::Unexpected, Flag::Verbose]),
        Err(ArgsError::Help)
    );
}
