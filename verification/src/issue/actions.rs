//! The actions of the issue browser as commands: open an issue, go back,
//! and move the selection.

use crate::actions::{Action, Effect};
use crate::error::{Error, Failure};
use crate::issue::state::Page;
use crate::issue::update::{
    default_comment, next_comment, next_issue, previous_comment, previous_issue, select_default_comment, select_next_comment, select_next_issue, select_previous_comment, select_previous_issue, switch_to_page, switched,
};
use crate::store::{index_at, require, Model, State};
use vstd::prelude::*;
use vstd::string::*;

verus! {

/// The page that is shown, for an action that passes over a page number
/// that names no page.
pub open spec fn page_if_any(model: Model) -> Result<Option<Page>, Failure> {
    match index_at(model, "app.page.active"@) {
        Err(failure) => Err(failure),
        Ok(index) => Ok(Page::at(index)),
    }
}

/// Reads the page that is shown, if the page number names one.
pub fn read_page(state: &State) -> (result: Result<Option<Page>, Error>)
    ensures
        match result {
            Ok(page) => page_if_any(state.model()) == Ok::<Option<Page>, Failure>(page),
            Err(error) => page_if_any(state.model()) == Err::<Option<Page>, Failure>(error.failure()),
        },
{
    let index = match require::<usize>(state, "app.page.active") {
        Ok(index) => *index,
        Err(error) => return Err(error),
    };
    match Page::try_from(index) {
        Ok(page) => Ok(Some(page)),
        Err(_) => Ok(None),
    }
}

/// The store after Enter: from the overview the detail page is opened with
/// the first comment selected; elsewhere nothing changes.
pub open spec fn entered(model: Model) -> Effect {
    match page_if_any(model) {
        Err(failure) => Err(failure),
        Ok(Some(Page::Overview)) => Ok(switched(default_comment(model), Page::Detail)),
        Ok(_) => Ok(model),
    }
}

/// The store after Escape: from the detail page the overview is opened;
/// elsewhere nothing changes.
pub open spec fn escaped(model: Model) -> Effect {
    match page_if_any(model) {
        Err(failure) => Err(failure),
        Ok(Some(Page::Detail)) => Ok(switched(model, Page::Overview)),
        Ok(_) => Ok(model),
    }
}

/// The store after Up: the issue before on the overview, the comment
/// before on the detail page.
pub open spec fn moved_up(model: Model) -> Effect {
    match page_if_any(model) {
        Err(failure) => Err(failure),
        Ok(Some(Page::Overview)) => previous_issue(model),
        Ok(Some(Page::Detail)) => previous_comment(model),
        Ok(None) => Ok(model),
    }
}

/// The store after Down: the next issue on the overview, the next comment
/// on the detail page.
pub open spec fn moved_down(model: Model) -> Effect {
    match page_if_any(model) {
        Err(failure) => Err(failure),
        Ok(Some(Page::Overview)) => next_issue(model),
        Ok(Some(Page::Detail)) => next_comment(model),
        Ok(None) => Ok(model),
    }
}

/// Opens the selected issue.
#[derive(Clone, Copy, Debug)]
pub struct EnterAction;

impl Action for EnterAction {
    open spec fn effects(&self, before: Model, effect: Effect) -> bool {
        effect == entered(before)
    }

    fn execute(&mut self, state: &mut State) -> (result: Result<(), Error>) {
        match read_page(state) {
            Err(error) => Err(error),
            Ok(Some(Page::Overview)) => {
                let _ = select_default_comment(state);
                switch_to_page(state, Page::Detail)
            },
            Ok(_) => Ok(()),
        }
    }
}

/// Goes back to the overview.
#[derive(Clone, Copy, Debug)]
pub struct EscAction;

impl Action for EscAction {
    open spec fn effects(&self, before: Model, effect: Effect) -> bool {
        effect == escaped(before)
    }

    fn execute(&mut self, state: &mut State) -> (result: Result<(), Error>) {
        match read_page(state) {
            Err(error) => Err(error),
            Ok(Some(Page::Detail)) => switch_to_page(state, Page::Overview),
            Ok(_) => Ok(()),
        }
    }
}

/// Moves the selection up.
#[derive(Clone, Copy, Debug)]
pub struct UpAction;

impl Action for UpAction {
    open spec fn effects(&self, before: Model, effect: Effect) -> bool {
        effect == moved_up(before)
    }

    fn execute(&mut self, state: &mut State) -> (result: Result<(), Error>) {
        match read_page(state) {
            Err(error) => Err(error),
            Ok(Some(Page::Overview)) => select_previous_issue(state),
            Ok(Some(Page::Detail)) => select_previous_comment(state),
            Ok(None) => Ok(()),
        }
    }
}

/// Moves the selection down.
#[derive(Clone, Copy, Debug)]
pub struct DownAction;

impl Action for DownAction {
    open spec fn effects(&self, before: Model, effect: Effect) -> bool {
        effect == moved_down(before)
    }

    fn execute(&mut self, state: &mut State) -> (result: Result<(), Error>) {
        match read_page(state) {
            Err(error) => Err(error),
            Ok(Some(Page::Overview)) => select_next_issue(state),
            Ok(Some(Page::Detail)) => select_next_comment(state),
            Ok(None) => Ok(()),
        }
    }
}

/// The commands of the issue browser, to keep them in one registry.
#[derive(Clone, Copy, Debug)]
pub enum Command {
    Enter(EnterAction),
    Esc(EscAction),
    Up(UpAction),
    Down(DownAction),
}

impl Action for Command {
    open spec fn effects(&self, before: Model, effect: Effect) -> bool {
        match self {
            Command::Enter(action) => action.effects(before, effect),
            Command::Esc(action) => action.effects(before, effect),
            Command::Up(action) => action.effects(before, effect),
            Command::Down(action) => action.effects(before, effect),
        }
    }

    fn execute(&mut self, state: &mut State) -> (result: Result<(), Error>) {
        match self {
            Command::Enter(action) => action.execute(state),
            Command::Esc(action) => action.execute(state),
            Command::Up(action) => action.execute(state),
            Command::Down(action) => action.execute(state),
        }
    }
}

} // verus!
