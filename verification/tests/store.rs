use radicle_terminal::editor::{Editor, Position};
use radicle_terminal::error::Error;
use radicle_terminal::events::Key;
use radicle_terminal::issue::model::InternalCall;
use radicle_terminal::layout::Rect;
use radicle_terminal::store::{require, Fault, State, StoreError, Stored, Value};
use radicle_terminal::window::Mode;

#[test]
fn get_after_set_returns_what_was_written() {
    let mut state = State::default();
    state.set("app.running", Value::Bool(true));
    state.set("app.page.active", Value::Index(7));
    state.set("project.name", Value::Text(String::from("heartwood")));
    state.set("app.shortcuts", Value::List(vec![String::from("q quit")]));
    state.set("app.mode", Value::Mode(Mode::Editing));
    state.set("app.call.internal", Value::Call(Some(InternalCall::New)));
    assert_eq!(state.get::<bool>("app.running").ok(), Some(&true));
    assert_eq!(state.get::<usize>("app.page.active").ok(), Some(&7));
    assert_eq!(state.get::<String>("project.name").ok(), Some(&String::from("heartwood")));
    assert_eq!(
        state.get::<Vec<String>>("app.shortcuts").ok(),
        Some(&vec![String::from("q quit")])
    );
    assert_eq!(state.get::<Mode>("app.mode").ok(), Some(&Mode::Editing));
    assert_eq!(
        state.get::<Option<InternalCall>>("app.call.internal").ok(),
        Some(&Some(InternalCall::New))
    );
}

#[test]
fn get_of_an_unwritten_path_is_not_found() {
    let mut state = State::default();
    assert_eq!(
        state.get::<bool>("app.running").err(),
        Some(StoreError::NotFound(String::from("app.running")))
    );
    state.set("app.running", Value::Bool(true));
    assert_eq!(
        state.get::<bool>("app").err(),
        Some(StoreError::NotFound(String::from("app")))
    );
    assert_eq!(
        state.get::<bool>("app.running.more").err(),
        Some(StoreError::NotFound(String::from("app.running.more")))
    );
    assert!(!state.contains("app"));
    assert!(state.contains("app.running"));
}

#[test]
fn get_of_another_type_is_a_type_mismatch() {
    let mut state = State::default();
    state.set("app.page.active", Value::Index(0));
    assert_eq!(
        state.get::<bool>("app.page.active").err(),
        Some(StoreError::InvalidType(String::from("app.page.active")))
    );
    assert_eq!(
        state.get::<String>("app.page.active").err(),
        Some(StoreError::InvalidType(String::from("app.page.active")))
    );
    assert_eq!(state.get::<usize>("app.page.active").ok(), Some(&0));
}

#[test]
fn a_later_write_wins_and_may_change_the_type() {
    let mut state = State::default();
    state.set("key", Value::Index(1));
    state.set("other", Value::Index(5));
    state.set("key", Value::Index(2));
    assert_eq!(state.get::<usize>("key").ok(), Some(&2));
    state.set("key", Value::Bool(false));
    assert_eq!(state.get::<bool>("key").ok(), Some(&false));
    assert_eq!(state.get::<usize>("key").err().map(|e| e.kind()), Some(Fault::InvalidType));
    assert_eq!(state.get::<usize>("other").ok(), Some(&5));
}

#[test]
fn get_mut_changes_a_value_in_place() {
    let mut state = State::default();
    state.set("list", Value::List(vec![String::from("a")]));
    state.set("count", Value::Index(1));
    state.get_mut::<Vec<String>>("list").unwrap().push(String::from("b"));
    *state.get_mut::<usize>("count").unwrap() += 1;
    assert_eq!(
        state.get::<Vec<String>>("list").ok(),
        Some(&vec![String::from("a"), String::from("b")])
    );
    assert_eq!(state.get::<usize>("count").ok(), Some(&2));
    assert_eq!(
        state.get_mut::<bool>("count").err(),
        Some(StoreError::InvalidType(String::from("count")))
    );
    assert_eq!(
        state.get_mut::<bool>("missing").err(),
        Some(StoreError::NotFound(String::from("missing")))
    );
    assert_eq!(state.get::<usize>("count").ok(), Some(&2));
}

#[test]
fn an_editor_lives_in_the_store() {
    let mut state = State::default();
    state.set("app.editor", Value::Editor(Editor::new()));
    let area = Rect { x: 0, y: 0, width: 80, height: 19 };
    state
        .get_mut::<Editor>("app.editor")
        .unwrap()
        .process_keypress(Key::Char('x'), area)
        .unwrap();
    let editor = state.get::<Editor>("app.editor").unwrap();
    assert_eq!(*editor.cursor_position(), Position { x: 1, y: 0 });
    assert_eq!(editor.document().len(), 1);
}

#[test]
fn store_errors_name_the_path() {
    assert_eq!(
        StoreError::NotFound(String::from("a.b")).to_string(),
        "Property not found: a.b"
    );
    assert_eq!(
        StoreError::InvalidType(String::from("a.b")).to_string(),
        "Invalid type requested: a.b"
    );
    assert_eq!(StoreError::NotFound(String::from("a.b")).kind(), Fault::NotFound);
    assert_eq!(StoreError::InvalidType(String::from("a.b")).kind(), Fault::InvalidType);
}

#[test]
fn require_hands_the_failure_on() {
    let mut state = State::default();
    state.set("key", Value::Index(1));
    assert_eq!(require::<usize>(&state, "key").ok(), Some(&1));
    assert_eq!(
        require::<bool>(&state, "key").err(),
        Some(Error::Store(StoreError::InvalidType(String::from("key"))))
    );
    let missing = require::<bool>(&state, "none").err().unwrap();
    assert_eq!(missing, Error::Store(StoreError::NotFound(String::from("none"))));
    assert_eq!(missing.to_string(), "Property not found: none");
}

#[test]
fn values_are_wrapped_and_picked_by_type() {
    let value = 3usize.store();
    assert_eq!(usize::pick(&value), Some(&3));
    assert_eq!(bool::pick(&value), None);
    let mut value = String::from("a").store();
    String::pick_mut(&mut value).unwrap().push('b');
    assert_eq!(String::pick(&value), Some(&String::from("ab")));
    assert!(usize::pick_mut(&mut value).is_none());
    assert_eq!(Mode::pick(&Mode::Normal.store()), Some(&Mode::Normal));
}

#[test]
fn optional_reads_fall_back_to_a_default() {
    let mut state = State::default();
    state.set("count", Value::Index(3));
    assert_eq!(*state.get_or::<usize>("count", &7), 3);
    assert_eq!(*state.get_or::<usize>("missing", &7), 7);
    assert_eq!(*state.get_or::<bool>("count", &true), true);
    assert_eq!(state.get_or::<String>("count", &String::from("none")), "none");
}
