//! How the issue browser answers an event: keys go to the bindings in normal
//! mode and to the editor while a comment is written.

use crate::bindings::KeyMap;
use crate::editor::{pressed, Editor, EditorView, Position};
use crate::error::{Error, Failure};
use crate::events::{InputEvent, Key};
use crate::issue::model::{InternalCall, IssueList};
use crate::issue::state::Page;
use crate::layout::Rect;
use crate::store::{
    editor_at, index_at, issues_at, mode_at, require, Model, State, Value, ValueView,
};
use crate::window::Mode;
use vstd::prelude::*;
use vstd::string::*;

verus! {

/// What a bound key asks for.
#[derive(Clone, Copy, Debug, PartialEq, Eq, Structural)]
pub enum Action {
    Quit,
    Up,
    Down,
    New,
    Comment,
}

/// The bindings of the browser: `q` quits, the arrows select, `n` asks for
/// a new issue and `c` opens the editor for a comment.
pub open spec fn default_bindings() -> Map<Key, Action> {
    Map::<Key, Action>::empty().insert(Key::Char('q'), Action::Quit).insert(
        Key::Up,
        Action::Up,
    ).insert(Key::Down, Action::Down).insert(Key::Char('n'), Action::New).insert(
        Key::Char('c'),
        Action::Comment,
    )
}

/// The bindings of the browser.
pub fn bindings() -> (table: KeyMap<Action>)
    ensures
        table@ == default_bindings(),
{
    let mut table = KeyMap::new();
    table.bind(Key::Char('q'), Action::Quit);
    table.bind(Key::Up, Action::Up);
    table.bind(Key::Down, Action::Down);
    table.bind(Key::Char('n'), Action::New);
    table.bind(Key::Char('c'), Action::Comment);
    table
}

/// The area in which the comment editor works.
pub open spec fn editor_area() -> Rect {
    Rect { x: 0, y: 0, width: 80, height: 19 }
}

/// An editor that holds nothing, with cursor and viewport at the start.
pub open spec fn fresh_editor() -> EditorView {
    EditorView {
        rows: Seq::empty(),
        cursor: Position { x: 0, y: 0 },
        offset: Position { x: 0, y: 0 },
    }
}

/// The page that the page number in the store names; a failure where it
/// names none.
pub open spec fn named_page(model: Model) -> Result<Page, Failure> {
    match index_at(model, "app.page.active"@) {
        Ok(index) => match Page::at(index) {
            Some(page) => Ok(page),
            None => Err(Failure::Page),
        },
        Err(failure) => Err(failure),
    }
}

/// The page that is shown: the one that the page number in the store
/// names, and the overview where it names none.
pub open spec fn page_at(model: Model) -> Result<Page, Failure> {
    match index_at(model, "app.page.active"@) {
        Ok(index) => match Page::at(index) {
            Some(page) => Ok(page),
            None => Ok(Page::Overview),
        },
        Err(failure) => Err(failure),
    }
}

/// The store with `page` shown.
pub open spec fn switched(model: Model, page: Page) -> Model {
    model.insert("app.page.active"@, ValueView::Index(page.index()))
}

/// The store with the first comment selected.
pub open spec fn default_comment(model: Model) -> Model {
    model.insert("project.issue.comment.active"@, ValueView::Index(0))
}

/// The store with an empty editor.
pub open spec fn cleared(model: Model) -> Model {
    model.insert("app.editor"@, ValueView::Editor(fresh_editor())).insert(
        "app.editor.text"@,
        ValueView::Text(Seq::empty()),
    )
}

/// The store back in normal mode, with the editor emptied.
pub open spec fn left_edit_mode(model: Model) -> Model {
    cleared(model.insert("app.mode"@, ValueView::Mode(Mode::Normal)))
}

/// The store in editing mode, with an empty editor and the first comment
/// selected.
pub open spec fn editing(model: Model) -> Model {
    default_comment(cleared(model.insert("app.mode"@, ValueView::Mode(Mode::Editing))))
}

/// The store of an application that is to stop.
pub open spec fn stopped(model: Model) -> Model {
    model.insert("app.running"@, ValueView::Bool(false))
}

/// The store of an application that is to stop and have a new issue made.
pub open spec fn asking_for_new_issue(model: Model) -> Model {
    stopped(model.insert("app.call.internal"@, ValueView::Call(Some(InternalCall::New))))
}

/// The selection one step down a list of `len` entries: it stops at the
/// last entry, and at 0 in an empty list.
pub open spec fn step_down(active: usize, len: nat) -> usize {
    let last = if len == 0 {
        0
    } else {
        len - 1
    };
    if active >= last {
        last as usize
    } else {
        (active + 1) as usize
    }
}

/// The selection one step up a list: it stops at the first entry.
pub open spec fn step_up(active: usize) -> usize {
    if active == 0 {
        0
    } else {
        (active - 1) as usize
    }
}

/// The store with the next issue selected.
pub open spec fn next_issue(model: Model) -> Result<Model, Failure> {
    match issues_at(model, "project.issue.list"@) {
        Err(failure) => Err(failure),
        Ok(issues) => match index_at(model, "project.issue.active"@) {
            Err(failure) => Err(failure),
            Ok(active) => Ok(
                model.insert(
                    "project.issue.active"@,
                    ValueView::Index(step_down(active, issues.len())),
                ),
            ),
        },
    }
}

/// The store with the issue before selected.
pub open spec fn previous_issue(model: Model) -> Result<Model, Failure> {
    match index_at(model, "project.issue.active"@) {
        Err(failure) => Err(failure),
        Ok(active) => Ok(model.insert("project.issue.active"@, ValueView::Index(step_up(active)))),
    }
}

/// The store with the next comment of the selected issue selected. The
/// issue's own text counts as its first comment. With no issue selected,
/// nothing changes.
pub open spec fn next_comment(model: Model) -> Result<Model, Failure> {
    match issues_at(model, "project.issue.list"@) {
        Err(failure) => Err(failure),
        Ok(issues) => match index_at(model, "project.issue.active"@) {
            Err(failure) => Err(failure),
            Ok(active) => if active < issues.len() {
                match index_at(model, "project.issue.comment.active"@) {
                    Err(failure) => Err(failure),
                    Ok(comment) => Ok(
                        model.insert(
                            "project.issue.comment.active"@,
                            ValueView::Index(
                                step_down(comment, issues[active as int].1.discussion.len() + 1),
                            ),
                        ),
                    ),
                }
            } else {
                Ok(model)
            },
        },
    }
}

/// The store with the comment before selected.
pub open spec fn previous_comment(model: Model) -> Result<Model, Failure> {
    match index_at(model, "project.issue.comment.active"@) {
        Err(failure) => Err(failure),
        Ok(active) => Ok(
            model.insert("project.issue.comment.active"@, ValueView::Index(step_up(active))),
        ),
    }
}

/// The store after a key went to the editor.
pub open spec fn edited(model: Model, key: Key) -> Result<Model, Failure> {
    match editor_at(model, "app.editor"@) {
        Err(failure) => Err(failure),
        Ok(editor) => Ok(
            model.insert("app.editor"@, ValueView::Editor(pressed(editor, key, editor_area()))),
        ),
    }
}

/// The store after `action` on `page`.
pub open spec fn acted(model: Model, action: Action, page: Page) -> Result<Model, Failure> {
    match action {
        Action::Quit => Ok(stopped(model)),
        Action::Up => match page {
            Page::Overview => previous_issue(model),
            Page::Detail => previous_comment(model),
        },
        Action::Down => match page {
            Page::Overview => next_issue(model),
            Page::Detail => next_comment(model),
        },
        Action::Comment => match page {
            Page::Detail => Ok(editing(model)),
            Page::Overview => Ok(model),
        },
        Action::New => Ok(asking_for_new_issue(model)),
    }
}

/// The store after a key went to the bindings. A key that is not bound
/// changes nothing.
pub open spec fn handled(model: Model, key: Key) -> Result<Model, Failure> {
    if default_bindings().contains_key(key) {
        match page_at(model) {
            Err(failure) => Err(failure),
            Ok(page) => acted(model, default_bindings()[key], page),
        }
    } else {
        Ok(model)
    }
}

/// The store after an event. In normal mode Enter opens the detail page,
/// from the overview with the first comment selected; Escape goes back to
/// the overview; every other key goes to the bindings. In editing mode
/// Escape leaves the editor and every other key goes to it. A tick changes
/// nothing. Mode and page are read first, whatever the event; a page number
/// that names no page is taken for the overview.
pub open spec fn updated(model: Model, event: InputEvent) -> Result<Model, Failure> {
    match mode_at(model, "app.mode"@) {
        Err(failure) => Err(failure),
        Ok(mode) => match page_at(model) {
            Err(failure) => Err(failure),
            Ok(page) => match event {
                InputEvent::Tick => Ok(model),
                InputEvent::Input(key) => match mode {
                    Mode::Normal => match key {
                        Key::Enter => Ok(
                            if page == Page::Overview {
                                default_comment(switched(model, Page::Detail))
                            } else {
                                switched(model, Page::Detail)
                            },
                        ),
                        Key::Esc => Ok(switched(model, Page::Overview)),
                        _ => handled(model, key),
                    },
                    Mode::Editing => match key {
                        Key::Esc => Ok(left_edit_mode(model)),
                        _ => edited(model, key),
                    },
                },
            },
        },
    }
}

/// Whether a step that may fail did what `expected` says: on success the
/// store holds what `expected` gives, and on failure the store is as before
/// and the error reports the failure that `expected` gives.
pub open spec fn stepped(
    before: &State,
    after: &State,
    result: Result<(), Error>,
    expected: Result<Model, Failure>,
) -> bool {
    match result {
        Ok(()) => expected == Ok::<Model, Failure>(after.model()),
        Err(error) => expected == Err::<Model, Failure>(error.failure()) && after@ == before@,
    }
}

/// Reads the page that is shown, with the overview standing in for a page
/// number that names no page.
pub fn shown_page(state: &State) -> (result: Result<Page, Error>)
    ensures
        match result {
            Ok(page) => page_at(state.model()) == Ok::<Page, Failure>(page),
            Err(error) => page_at(state.model()) == Err::<Page, Failure>(error.failure()),
        },
{
    let index = match require::<usize>(state, "app.page.active") {
        Ok(index) => *index,
        Err(error) => return Err(error),
    };
    match Page::try_from(index) {
        Ok(page) => Ok(page),
        Err(_) => Ok(Page::Overview),
    }
}

/// Reads the page that the page number in the store names, and fails
/// where it names none.
pub fn active_page(state: &State) -> (result: Result<Page, Error>)
    ensures
        match result {
            Ok(page) => named_page(state.model()) == Ok::<Page, Failure>(page),
            Err(error) => named_page(state.model()) == Err::<Page, Failure>(error.failure()),
        },
{
    let index = match require::<usize>(state, "app.page.active") {
        Ok(index) => *index,
        Err(error) => return Err(error),
    };
    match Page::try_from(index) {
        Ok(page) => Ok(page),
        Err(error) => Err(Error::Page(error)),
    }
}

/// Handles an event. See [`updated`] for what each event does.
pub fn update(state: &mut State, event: &InputEvent) -> (result: Result<(), Error>)
    ensures
        stepped(old(state), final(state), result, updated(old(state).model(), *event)),
{
    let mode = match require::<Mode>(state, "app.mode") {
        Ok(mode) => *mode,
        Err(error) => return Err(error),
    };
    let page = match shown_page(state) {
        Ok(page) => page,
        Err(error) => return Err(error),
    };
    match event {
        InputEvent::Input(key) => match mode {
            Mode::Normal => match key {
                Key::Enter => {
                    let _ = switch_to_page(state, Page::Detail);
                    if page == Page::Overview {
                        let _ = select_default_comment(state);
                    }
                    Ok(())
                },
                Key::Esc => switch_to_page(state, Page::Overview),
                _ => handle_action(state, *key),
            },
            Mode::Editing => match key {
                Key::Esc => leave_edit_mode(state),
                _ => handle_editor(state, key),
            },
        },
        InputEvent::Tick => Ok(()),
    }
}

/// Sends `key` to the bindings and does what the bound action asks for.
pub fn handle_action(state: &mut State, key: Key) -> (result: Result<(), Error>)
    ensures
        stepped(old(state), final(state), result, handled(old(state).model(), key)),
{
    let table = bindings();
    if let Some(action) = table.get(key) {
        let page = match shown_page(state) {
            Ok(page) => page,
            Err(error) => return Err(error),
        };
        match action {
            Action::Quit => quit_application(state),
            Action::Up => match page {
                Page::Overview => select_previous_issue(state),
                Page::Detail => select_previous_comment(state),
            },
            Action::Down => match page {
                Page::Overview => select_next_issue(state),
                Page::Detail => select_next_comment(state),
            },
            Action::Comment => match page {
                Page::Detail => edit_comment(state),
                Page::Overview => Ok(()),
            },
            Action::New => {
                add_new_issue(state);
                Ok(())
            },
        }
    } else {
        Ok(())
    }
}

/// Shows `page`. Never fails.
pub fn switch_to_page(state: &mut State, page: Page) -> (result: Result<(), Error>)
    ensures
        result is Ok,
        final(state).model() == switched(old(state).model(), page),
{
    match page.try_into() {
        Ok(next) => {
            state.set("app.page.active", Value::Index(next));
            Ok(())
        },
        Err(error) => Err(Error::Page(error)),
    }
}

/// Goes back to normal mode and empties the editor. Never fails.
pub fn leave_edit_mode(state: &mut State) -> (result: Result<(), Error>)
    ensures
        result is Ok,
        final(state).model() == left_edit_mode(old(state).model()),
{
    state.set("app.mode", Value::Mode(Mode::Normal));
    clear_editor(state)
}

/// Selects the first comment. Never fails.
pub fn select_default_comment(state: &mut State) -> (result: Result<(), Error>)
    ensures
        result is Ok,
        final(state).model() == default_comment(old(state).model()),
{
    state.set("project.issue.comment.active", Value::Index(0));
    Ok(())
}

/// Selects the next issue; the last one stays selected.
pub fn select_next_issue(state: &mut State) -> (result: Result<(), Error>)
    ensures
        stepped(old(state), final(state), result, next_issue(old(state).model())),
{
    let len = match require::<IssueList>(state, "project.issue.list") {
        Ok(issues) => issues.len(),
        Err(error) => return Err(error),
    };
    let active = match require::<usize>(state, "project.issue.active") {
        Ok(active) => *active,
        Err(error) => return Err(error),
    };
    let last = if len == 0 {
        0
    } else {
        len - 1
    };
    let active = if active >= last {
        last
    } else {
        active + 1
    };
    state.set("project.issue.active", Value::Index(active));
    Ok(())
}

/// Selects the issue before; the first one stays selected.
pub fn select_previous_issue(state: &mut State) -> (result: Result<(), Error>)
    ensures
        stepped(old(state), final(state), result, previous_issue(old(state).model())),
{
    let active = match require::<usize>(state, "project.issue.active") {
        Ok(active) => *active,
        Err(error) => return Err(error),
    };
    let active = if active == 0 {
        0
    } else {
        active - 1
    };
    state.set("project.issue.active", Value::Index(active));
    Ok(())
}

/// Selects the next comment of the selected issue; the last one stays
/// selected.
pub fn select_next_comment(state: &mut State) -> (result: Result<(), Error>)
    ensures
        stepped(old(state), final(state), result, next_comment(old(state).model())),
{
    let issues = match require::<IssueList>(state, "project.issue.list") {
        Ok(issues) => issues,
        Err(error) => return Err(error),
    };
    let active = match require::<usize>(state, "project.issue.active") {
        Ok(active) => *active,
        Err(error) => return Err(error),
    };
    if active < issues.len() {
        let last = issues[active].1.comments().len();
        let comment = match require::<usize>(state, "project.issue.comment.active") {
            Ok(comment) => *comment,
            Err(error) => return Err(error),
        };
        let comment = if comment >= last {
            last
        } else {
            comment + 1
        };
        state.set("project.issue.comment.active", Value::Index(comment));
    }
    Ok(())
}

/// Selects the comment before; the first one stays selected.
pub fn select_previous_comment(state: &mut State) -> (result: Result<(), Error>)
    ensures
        stepped(old(state), final(state), result, previous_comment(old(state).model())),
{
    let active = match require::<usize>(state, "project.issue.comment.active") {
        Ok(active) => *active,
        Err(error) => return Err(error),
    };
    let active = if active == 0 {
        0
    } else {
        active - 1
    };
    state.set("project.issue.comment.active", Value::Index(active));
    Ok(())
}

/// Opens the editor for a comment: editing mode, an empty editor, the
/// first comment selected. Never fails.
pub fn edit_comment(state: &mut State) -> (result: Result<(), Error>)
    ensures
        result is Ok,
        final(state).model() == editing(old(state).model()),
{
    state.set("app.mode", Value::Mode(Mode::Editing));
    let _ = clear_editor(state);
    select_default_comment(state)
}

/// Asks the application to stop. Never fails.
pub fn quit_application(state: &mut State) -> (result: Result<(), Error>)
    ensures
        result is Ok,
        final(state).model() == stopped(old(state).model()),
{
    state.set("app.running", Value::Bool(false));
    Ok(())
}

/// Empties the editor. Never fails.
pub fn clear_editor(state: &mut State) -> (result: Result<(), Error>)
    ensures
        result is Ok,
        final(state).model() == cleared(old(state).model()),
{
    state.set("app.editor", Value::Editor(Editor::new()));
    state.set("app.editor.text", Value::Text(String::new()));
    Ok(())
}

/// Sends `key` to the editor, which changes in place.
pub fn handle_editor(state: &mut State, key: &Key) -> (result: Result<(), Error>)
    ensures
        stepped(old(state), final(state), result, edited(old(state).model(), *key)),
{
    let area = Rect { x: 0, y: 0, width: 80, height: 19 };
    match state.get_mut::<Editor>("app.editor") {
        Ok(editor) => {
            let _ = editor.process_keypress(*key, area);
            Ok(())
        },
        Err(error) => Err(Error::Store(error)),
    }
}

/// Asks the application to stop and its caller to make a new issue.
pub fn add_new_issue(state: &mut State)
    ensures
        final(state).model() == asking_for_new_issue(old(state).model()),
{
    state.set("app.call.internal", Value::Call(Some(InternalCall::New)));
    state.set("app.running", Value::Bool(false));
}

} // verus!
