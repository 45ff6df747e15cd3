use radicle_terminal::actions::{dispatch, Action, Actions};
use radicle_terminal::application::{Application, Flow};
use radicle_terminal::bindings::KeyMap;
use radicle_terminal::editor::{Editor, Position};
use radicle_terminal::error::Error;
use radicle_terminal::events::{InputEvent, Key};
use radicle_terminal::issue::actions::{Command, DownAction, EnterAction, EscAction, UpAction};
use radicle_terminal::issue::browser::{initial_props, internal_call, IssueUpdate};
use radicle_terminal::issue::model::{
    Author, Comment, InternalCall, Issue, IssueList, IssueState,
};
use radicle_terminal::issue::state::{Page, PageError, Tab};
use radicle_terminal::issue::update::{
    active_page, add_new_issue, bindings, clear_editor, edit_comment, handle_action,
    handle_editor, leave_edit_mode, quit_application, select_default_comment,
    select_next_comment, select_next_issue, select_previous_comment, select_previous_issue,
    shown_page, switch_to_page, update,
};
use radicle_terminal::issue::update::Action as Bound;
use radicle_terminal::store::{State, StoreError, Value};
use radicle_terminal::window::Mode;

fn comment(body: &str) -> Comment {
    Comment {
        author: Author::Urn { urn: String::from("rad:git:abc") },
        body: String::from(body),
        reactions: vec![],
        timestamp: 0,
    }
}

fn issue(title: &str, replies: usize) -> (String, Issue) {
    (
        String::from(title),
        Issue {
            title: String::from(title),
            author: Author::Resolved { name: String::from("alice"), urn: String::from("rad:git:abc") },
            state: IssueState::Open,
            comment: comment("text"),
            discussion: (0..replies).map(|_| comment("reply")).collect(),
        },
    )
}

fn issues() -> IssueList {
    vec![issue("one", 0), issue("two", 2), issue("three", 1)]
}

fn browser() -> State {
    let mut state = State::default();
    state.set("app.running", Value::Bool(true));
    for (key, value) in initial_props(String::from("heartwood"), issues()) {
        state.set(key, value);
    }
    state
}

fn index(state: &State, key: &str) -> usize {
    *state.get::<usize>(key).unwrap()
}

fn mode(state: &State) -> Mode {
    *state.get::<Mode>("app.mode").unwrap()
}

fn press(state: &mut State, key: Key) {
    update(state, &InputEvent::Input(key)).unwrap();
}

#[test]
fn page_numbers() {
    assert_eq!(Page::try_from(0).ok(), Some(Page::Overview));
    assert_eq!(Page::try_from(1).ok(), Some(Page::Detail));
    assert_eq!(
        Page::try_from(2).err(),
        Some(PageError::InvalidIndex(String::from("Page index not allowed!")))
    );
    assert!(Page::try_from(usize::MAX).is_err());
    assert_eq!(Page::Overview.try_into().ok(), Some(0));
    assert_eq!(Page::Detail.try_into().ok(), Some(1));
    assert_eq!(Tab::Open.number(), 0);
    assert_eq!(
        PageError::InvalidIndex(String::from("Page index not allowed!")).to_string(),
        "Page index not allowed!"
    );
}

#[test]
fn the_browser_starts_on_the_overview_in_normal_mode() {
    let state = browser();
    assert_eq!(mode(&state), Mode::Normal);
    assert_eq!(index(&state, "app.page.active"), 0);
    assert_eq!(index(&state, "app.tab.active"), 0);
    assert_eq!(index(&state, "project.issue.active"), 0);
    assert_eq!(index(&state, "project.issue.comment.active"), 0);
    assert_eq!(state.get::<String>("app.title").unwrap(), "Issues");
    assert_eq!(state.get::<String>("project.name").unwrap(), "heartwood");
    assert_eq!(state.get::<String>("app.editor.text").unwrap(), "");
    assert_eq!(
        *state.get::<Vec<String>>("app.shortcuts").unwrap(),
        vec![String::from("c comment"), String::from("q quit"), String::from("? help")]
    );
    assert_eq!(state.get::<IssueList>("project.issue.list").unwrap().len(), 3);
    assert!(state.get::<Editor>("app.editor").unwrap().document().is_empty());
    assert_eq!(internal_call(&state), None);
    assert_eq!(active_page(&state).ok(), Some(Page::Overview));
}

#[test]
fn comment_opens_the_editor_and_selects_the_first_comment() {
    let mut state = browser();
    press(&mut state, Key::Down);
    press(&mut state, Key::Enter);
    press(&mut state, Key::Down);
    assert_eq!(index(&state, "project.issue.comment.active"), 1);
    assert_eq!(mode(&state), Mode::Normal);
    press(&mut state, Key::Char('c'));
    assert_eq!(mode(&state), Mode::Editing);
    assert_eq!(index(&state, "project.issue.comment.active"), 0);
    assert!(state.get::<Editor>("app.editor").unwrap().document().is_empty());
}

#[test]
fn comment_does_nothing_on_the_overview() {
    let mut state = browser();
    press(&mut state, Key::Char('c'));
    assert_eq!(mode(&state), Mode::Normal);
}

#[test]
fn down_stops_at_the_last_issue_and_up_at_the_first() {
    let mut state = browser();
    press(&mut state, Key::Up);
    assert_eq!(index(&state, "project.issue.active"), 0);
    press(&mut state, Key::Down);
    assert_eq!(index(&state, "project.issue.active"), 1);
    press(&mut state, Key::Down);
    assert_eq!(index(&state, "project.issue.active"), 2);
    press(&mut state, Key::Down);
    assert_eq!(index(&state, "project.issue.active"), 2);
    press(&mut state, Key::Up);
    assert_eq!(index(&state, "project.issue.active"), 1);
}

#[test]
fn selection_in_an_empty_list_stays_at_zero() {
    let mut state = browser();
    state.set("project.issue.list", Value::Issues(vec![]));
    select_next_issue(&mut state).unwrap();
    assert_eq!(index(&state, "project.issue.active"), 0);
    select_previous_issue(&mut state).unwrap();
    assert_eq!(index(&state, "project.issue.active"), 0);
    select_next_comment(&mut state).unwrap();
    assert_eq!(index(&state, "project.issue.comment.active"), 0);
}

#[test]
fn comments_are_selected_on_the_detail_page() {
    let mut state = browser();
    press(&mut state, Key::Down);
    press(&mut state, Key::Enter);
    assert_eq!(index(&state, "app.page.active"), 1);
    for expected in [1, 2, 2] {
        press(&mut state, Key::Down);
        assert_eq!(index(&state, "project.issue.comment.active"), expected);
        assert_eq!(index(&state, "project.issue.active"), 1);
    }
    for expected in [1, 0, 0] {
        press(&mut state, Key::Up);
        assert_eq!(index(&state, "project.issue.comment.active"), expected);
    }
}

#[test]
fn enter_from_the_overview_selects_the_first_comment() {
    let mut state = browser();
    state.set("project.issue.comment.active", Value::Index(2));
    press(&mut state, Key::Enter);
    assert_eq!(index(&state, "app.page.active"), 1);
    assert_eq!(index(&state, "project.issue.comment.active"), 0);
    state.set("project.issue.comment.active", Value::Index(2));
    press(&mut state, Key::Enter);
    assert_eq!(index(&state, "app.page.active"), 1);
    assert_eq!(index(&state, "project.issue.comment.active"), 2);
    press(&mut state, Key::Esc);
    assert_eq!(index(&state, "app.page.active"), 0);
    press(&mut state, Key::Esc);
    assert_eq!(index(&state, "app.page.active"), 0);
}

#[test]
fn keys_go_to_the_editor_while_editing() {
    let mut state = browser();
    press(&mut state, Key::Enter);
    press(&mut state, Key::Char('c'));
    for c in "quit\nnow".chars() {
        press(&mut state, Key::Char(c));
    }
    press(&mut state, Key::Up);
    press(&mut state, Key::Enter);
    assert_eq!(mode(&state), Mode::Editing);
    assert_eq!(*state.get::<bool>("app.running").unwrap(), true);
    assert_eq!(index(&state, "app.page.active"), 1);
    {
        let editor = state.get::<Editor>("app.editor").unwrap();
        assert_eq!(editor.document().len(), 2);
        assert_eq!(editor.document().row(0).unwrap().as_bytes(), "quit".as_bytes());
        assert_eq!(editor.document().row(1).unwrap().as_bytes(), "now".as_bytes());
        assert_eq!(*editor.cursor_position(), Position { x: 3, y: 0 });
    }
    press(&mut state, Key::Esc);
    assert_eq!(mode(&state), Mode::Normal);
    assert!(state.get::<Editor>("app.editor").unwrap().document().is_empty());
    assert_eq!(state.get::<String>("app.editor.text").unwrap(), "");
    press(&mut state, Key::Char('q'));
    assert_eq!(*state.get::<bool>("app.running").unwrap(), false);
}

#[test]
fn a_page_number_without_page_is_taken_for_the_overview() {
    let mut state = browser();
    state.set("app.page.active", Value::Index(7));
    press(&mut state, Key::Down);
    assert_eq!(index(&state, "project.issue.active"), 1);
    assert_eq!(index(&state, "app.page.active"), 7);
    press(&mut state, Key::Char('c'));
    assert_eq!(mode(&state), Mode::Normal);
    state.set("project.issue.comment.active", Value::Index(2));
    press(&mut state, Key::Enter);
    assert_eq!(index(&state, "app.page.active"), 1);
    assert_eq!(index(&state, "project.issue.comment.active"), 0);
    state.set("app.page.active", Value::Index(usize::MAX));
    assert_eq!(handle_action(&mut state, Key::Up), Ok(()));
    assert_eq!(index(&state, "project.issue.active"), 0);
}

#[test]
fn quit_and_new_stop_the_application() {
    let mut state = browser();
    press(&mut state, Key::Char('n'));
    assert_eq!(*state.get::<bool>("app.running").unwrap(), false);
    assert_eq!(internal_call(&state), Some(InternalCall::New));
    let mut state = browser();
    press(&mut state, Key::Char('q'));
    assert_eq!(*state.get::<bool>("app.running").unwrap(), false);
    assert_eq!(internal_call(&state), None);
    state.set("app.call.internal", Value::Index(0));
    assert_eq!(internal_call(&state), None);
}

#[test]
fn keys_without_binding_and_ticks_change_nothing() {
    let mut state = browser();
    for key in [Key::Char('x'), Key::Left, Key::Right, Key::Backspace, Key::Delete, Key::Unknown, Key::ShiftEnter] {
        press(&mut state, key);
    }
    update(&mut state, &InputEvent::Tick).unwrap();
    assert_eq!(mode(&state), Mode::Normal);
    assert_eq!(index(&state, "app.page.active"), 0);
    assert_eq!(index(&state, "project.issue.active"), 0);
    assert_eq!(*state.get::<bool>("app.running").unwrap(), true);
    assert_eq!(bindings().get(Key::Char('q')), Some(&Bound::Quit));
    assert_eq!(bindings().get(Key::Up), Some(&Bound::Up));
    assert_eq!(bindings().get(Key::Down), Some(&Bound::Down));
    assert_eq!(bindings().get(Key::Char('n')), Some(&Bound::New));
    assert_eq!(bindings().get(Key::Char('c')), Some(&Bound::Comment));
    assert_eq!(bindings().get(Key::Enter), None);
}

#[test]
fn update_fails_without_mode_or_page_and_leaves_the_store() {
    let mut state = State::default();
    assert_eq!(
        update(&mut state, &InputEvent::Tick).err(),
        Some(Error::Store(StoreError::NotFound(String::from("app.mode"))))
    );
    state.set("app.mode", Value::Mode(Mode::Normal));
    assert_eq!(
        update(&mut state, &InputEvent::Input(Key::Enter)).err(),
        Some(Error::Store(StoreError::NotFound(String::from("app.page.active"))))
    );
    state.set("app.page.active", Value::Index(2));
    assert_eq!(update(&mut state, &InputEvent::Tick), Ok(()));
    assert_eq!(
        active_page(&state).err(),
        Some(Error::Page(PageError::InvalidIndex(String::from("Page index not allowed!"))))
    );
    assert_eq!(shown_page(&state), Ok(Page::Overview));
    state.set("app.page.active", Value::Bool(true));
    assert_eq!(
        update(&mut state, &InputEvent::Tick).err(),
        Some(Error::Store(StoreError::InvalidType(String::from("app.page.active"))))
    );
    state.set("app.page.active", Value::Index(0));
    assert_eq!(
        update(&mut state, &InputEvent::Input(Key::Down)).err(),
        Some(Error::Store(StoreError::NotFound(String::from("project.issue.list"))))
    );
    assert_eq!(
        handle_action(&mut state, Key::Up).err(),
        Some(Error::Store(StoreError::NotFound(String::from("project.issue.active"))))
    );
    state.set("app.mode", Value::Mode(Mode::Editing));
    assert_eq!(
        update(&mut state, &InputEvent::Input(Key::Char('a'))).err(),
        Some(Error::Store(StoreError::NotFound(String::from("app.editor"))))
    );
    assert_eq!(
        handle_editor(&mut state, &Key::Char('a')).err(),
        Some(Error::Store(StoreError::NotFound(String::from("app.editor"))))
    );
    assert!(!state.contains("app.editor"));
    assert!(!state.contains("project.issue.active"));
}

#[test]
fn the_steps_of_the_browser_one_by_one() {
    let mut state = browser();
    switch_to_page(&mut state, Page::Detail).unwrap();
    assert_eq!(index(&state, "app.page.active"), 1);
    state.set("project.issue.comment.active", Value::Index(4));
    select_previous_comment(&mut state).unwrap();
    assert_eq!(index(&state, "project.issue.comment.active"), 3);
    select_default_comment(&mut state).unwrap();
    assert_eq!(index(&state, "project.issue.comment.active"), 0);
    state.set("project.issue.active", Value::Index(9));
    select_next_comment(&mut state).unwrap();
    assert_eq!(index(&state, "project.issue.comment.active"), 0);
    select_previous_issue(&mut state).unwrap();
    assert_eq!(index(&state, "project.issue.active"), 8);
    select_next_issue(&mut state).unwrap();
    assert_eq!(index(&state, "project.issue.active"), 2);
    edit_comment(&mut state).unwrap();
    assert_eq!(mode(&state), Mode::Editing);
    handle_editor(&mut state, &Key::Char('a')).unwrap();
    assert_eq!(state.get::<Editor>("app.editor").unwrap().document().len(), 1);
    clear_editor(&mut state).unwrap();
    assert!(state.get::<Editor>("app.editor").unwrap().document().is_empty());
    handle_editor(&mut state, &Key::Char('a')).unwrap();
    leave_edit_mode(&mut state).unwrap();
    assert_eq!(mode(&state), Mode::Normal);
    assert!(state.get::<Editor>("app.editor").unwrap().document().is_empty());
    quit_application(&mut state).unwrap();
    assert_eq!(*state.get::<bool>("app.running").unwrap(), false);
    add_new_issue(&mut state);
    assert_eq!(internal_call(&state), Some(InternalCall::New));
}

fn registry() -> (KeyMap<String>, Actions<Command>) {
    let mut keys = KeyMap::new();
    keys.bind(Key::Enter, String::from("enter"));
    keys.bind(Key::Esc, String::from("escape"));
    keys.bind(Key::Up, String::from("up"));
    keys.bind(Key::Down, String::from("down"));
    keys.bind(Key::Char('x'), String::from("nothing"));
    let mut actions = Actions::new();
    actions.register("enter", Command::Enter(EnterAction));
    actions.register("escape", Command::Esc(EscAction));
    actions.register("up", Command::Up(UpAction));
    actions.register("down", Command::Down(DownAction));
    (keys, actions)
}

#[test]
fn dispatch_runs_the_action_that_a_key_is_bound_to() {
    let (keys, mut actions) = registry();
    let mut state = browser();
    dispatch(&keys, &mut actions, Key::Down, &mut state).unwrap();
    dispatch(&keys, &mut actions, Key::Down, &mut state).unwrap();
    dispatch(&keys, &mut actions, Key::Down, &mut state).unwrap();
    assert_eq!(index(&state, "project.issue.active"), 2);
    dispatch(&keys, &mut actions, Key::Up, &mut state).unwrap();
    assert_eq!(index(&state, "project.issue.active"), 1);
    state.set("project.issue.comment.active", Value::Index(2));
    dispatch(&keys, &mut actions, Key::Enter, &mut state).unwrap();
    assert_eq!(index(&state, "app.page.active"), 1);
    assert_eq!(index(&state, "project.issue.comment.active"), 0);
    dispatch(&keys, &mut actions, Key::Down, &mut state).unwrap();
    assert_eq!(index(&state, "project.issue.comment.active"), 1);
    dispatch(&keys, &mut actions, Key::Enter, &mut state).unwrap();
    assert_eq!(index(&state, "project.issue.comment.active"), 1);
    dispatch(&keys, &mut actions, Key::Up, &mut state).unwrap();
    assert_eq!(index(&state, "project.issue.comment.active"), 0);
    dispatch(&keys, &mut actions, Key::Esc, &mut state).unwrap();
    assert_eq!(index(&state, "app.page.active"), 0);
    dispatch(&keys, &mut actions, Key::Esc, &mut state).unwrap();
    assert_eq!(index(&state, "app.page.active"), 0);
}

#[test]
fn dispatch_passes_over_keys_without_action() {
    let (keys, mut actions) = registry();
    let mut state = State::default();
    assert_eq!(dispatch(&keys, &mut actions, Key::Char('q'), &mut state), Ok(()));
    assert_eq!(dispatch(&keys, &mut actions, Key::Char('x'), &mut state), Ok(()));
    assert!(!state.contains("app.page.active"));
    assert_eq!(
        dispatch(&keys, &mut actions, Key::Enter, &mut state),
        Err(Error::Store(StoreError::NotFound(String::from("app.page.active"))))
    );
    state.set("app.page.active", Value::Index(5));
    assert_eq!(dispatch(&keys, &mut actions, Key::Enter, &mut state), Ok(()));
    assert_eq!(dispatch(&keys, &mut actions, Key::Down, &mut state), Ok(()));
    assert_eq!(index(&state, "app.page.active"), 5);
}

#[test]
fn an_action_that_fails_leaves_the_store_as_it_was() {
    let (keys, mut actions) = registry();
    let mut state = State::default();
    state.set("app.running", Value::Bool(true));
    state.set("app.page.active", Value::Index(0));
    state.set("project.issue.active", Value::Bool(false));
    for key in [Key::Down, Key::Up] {
        assert!(dispatch(&keys, &mut actions, key, &mut state).is_err());
        assert_eq!(*state.get::<bool>("app.running").unwrap(), true);
        assert_eq!(index(&state, "app.page.active"), 0);
        assert_eq!(*state.get::<bool>("project.issue.active").unwrap(), false);
        assert!(!state.contains("project.issue.list"));
    }
    state.set("app.page.active", Value::Index(1));
    let mut down = DownAction;
    assert_eq!(
        down.execute(&mut state),
        Err(Error::Store(StoreError::NotFound(String::from("project.issue.list"))))
    );
    assert_eq!(*state.get::<bool>("app.running").unwrap(), true);
    assert!(!state.contains("project.issue.comment.active"));
}

#[test]
fn later_bindings_and_registrations_win() {
    let mut keys = KeyMap::new();
    keys.bind(Key::Enter, String::from("up"));
    keys.bind(Key::Up, String::from("up"));
    keys.bind(Key::Enter, String::from("go"));
    assert_eq!(keys.get(Key::Enter), Some(&String::from("go")));
    assert_eq!(keys.get(Key::Up), Some(&String::from("up")));
    assert_eq!(keys.get(Key::Down), None);
    let mut actions = Actions::new();
    actions.register("go", Command::Esc(EscAction));
    actions.register("go", Command::Enter(EnterAction));
    assert!(actions.contains("go"));
    assert!(!actions.contains("up"));
    let mut state = browser();
    dispatch(&keys, &mut actions, Key::Enter, &mut state).unwrap();
    assert_eq!(index(&state, "app.page.active"), 1);
    dispatch(&keys, &mut actions, Key::Up, &mut state).unwrap();
    assert_eq!(index(&state, "project.issue.comment.active"), 0);
    let mut enter = EnterAction;
    let mut state = browser();
    enter.execute(&mut state).unwrap();
    assert_eq!(index(&state, "app.page.active"), 1);
}

#[test]
fn the_application_runs_until_the_store_says_stop() {
    let mut app = Application::new(IssueUpdate);
    assert_eq!(*app.current().get::<bool>("app.running").unwrap(), true);
    assert_eq!(*app.current().get::<usize>("app.page.active").unwrap(), 0);
    assert_eq!(*app.current().get::<Mode>("app.mode").unwrap(), Mode::Normal);
    assert!(!app.current().contains("app.page.index"));
    assert_eq!(app.step(&InputEvent::Tick), Ok(Flow::Continue));
    assert_eq!(app.step(&InputEvent::Input(Key::Enter)), Ok(Flow::Continue));
    assert_eq!(index(app.current(), "app.page.active"), 1);
    assert_eq!(app.step(&InputEvent::Input(Key::Esc)), Ok(Flow::Continue));
    assert_eq!(index(app.current(), "app.page.active"), 0);
    assert_eq!(
        app.step(&InputEvent::Input(Key::Down)).err(),
        Some(Error::Store(StoreError::NotFound(String::from("project.issue.list"))))
    );
    assert_eq!(*app.current().get::<bool>("app.running").unwrap(), true);
    let mut app = app.state(initial_props(String::from("heartwood"), issues()));
    assert_eq!(app.step(&InputEvent::Tick), Ok(Flow::Continue));
    assert_eq!(app.step(&InputEvent::Input(Key::Down)), Ok(Flow::Continue));
    assert_eq!(index(app.current(), "project.issue.active"), 1);
    app.on_input_event(&InputEvent::Input(Key::Down)).unwrap();
    assert_eq!(index(app.current(), "project.issue.active"), 2);
    assert_eq!(app.step(&InputEvent::Input(Key::Char('q'))), Ok(Flow::Exit));
    assert_eq!(internal_call(app.current()), None);
}

#[test]
fn later_entries_of_the_initial_state_win() {
    let app = Application::new(IssueUpdate).state(vec![
        ("app.mode", Value::Mode(Mode::Editing)),
        ("a", Value::Index(1)),
        ("a", Value::Index(2)),
    ]);
    assert_eq!(*app.current().get::<Mode>("app.mode").unwrap(), Mode::Editing);
    assert_eq!(index(app.current(), "a"), 2);
    let mut app = app.state(vec![("app.running", Value::Index(0))]);
    assert_eq!(
        app.step(&InputEvent::Tick).err(),
        Some(Error::Store(StoreError::InvalidType(String::from("app.running"))))
    );
    let mut app = app.state(vec![("app.page.active", Value::Bool(true))]);
    assert_eq!(
        app.step(&InputEvent::Tick).err(),
        Some(Error::Store(StoreError::InvalidType(String::from("app.page.active"))))
    );
}

#[test]
fn the_store_says_whether_the_loop_goes_on() {
    let mut state = State::default();
    let failed = Error::Store(StoreError::NotFound(String::from("x")));
    assert_eq!(
        radicle_terminal::application::flow(&state, Ok(())),
        Err(Error::Store(StoreError::NotFound(String::from("app.running"))))
    );
    state.set("app.running", Value::Bool(true));
    assert_eq!(radicle_terminal::application::flow(&state, Ok(())), Ok(Flow::Continue));
    assert_eq!(
        radicle_terminal::application::flow(&state, Err(failed)),
        Err(Error::Store(StoreError::NotFound(String::from("x"))))
    );
    state.set("app.running", Value::Bool(false));
    assert_eq!(radicle_terminal::application::flow(&state, Ok(())), Ok(Flow::Exit));
}
