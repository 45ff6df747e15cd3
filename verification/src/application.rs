//! The application: a state store and the function that answers events.
//! The loop that draws and waits for events stays with the caller; what
//! happens on an event, and whether the loop goes on, is decided here.

use crate::error::{Error, Failure};
use crate::events::InputEvent;
use crate::store::{flag_at, require, Model, State, Value};
use crate::window::Mode;
use vstd::prelude::*;
use vstd::string::*;

verus! {

/// The time between two ticks, in milliseconds.
pub const TICK_RATE: u64 = 200;

/// The function that answers the events of an application.
pub trait Update {
    /// Whether answering `event` may take the store from `before` to
    /// `after` with `result`.
    spec fn answers(&self, before: &State, after: &State, event: InputEvent, result: Result<(), Error>) -> bool;

    /// Answers `event`.
    fn update(&self, state: &mut State, event: &InputEvent) -> (result: Result<(), Error>)
        ensures
            self.answers(old(state), final(state), *event, result),
    ;
}

/// Whether the loop of an application goes on.
#[derive(Clone, Copy, Debug, PartialEq, Eq, Structural)]
pub enum Flow {
    Continue,
    Exit,
}

/// What a store holds after the entries of `props` were written to it in
/// their order.
pub open spec fn with_props(store: Map<Seq<char>, Value>, props: Seq<(&str, Value)>) -> Map<
    Seq<char>,
    Value,
>
    decreases props.len(),
{
    if props.len() == 0 {
        store
    } else {
        with_props(store, props.drop_last()).insert(props.last().0@, props.last().1)
    }
}

/// Whether the loop goes on after an event, given the result of answering
/// it and the store afterwards: it goes on as long as `app.running` holds
/// `true`. A failed answer ends the loop with its failure, and so does a
/// store without that flag.
pub open spec fn flow_after(model: Model, result: Result<(), Error>) -> Result<Flow, Failure> {
    match result {
        Err(error) => Err(error.failure()),
        Ok(()) => match flag_at(model, "app.running"@) {
            Err(failure) => Err(failure),
            Ok(running) => Ok(
                if running {
                    Flow::Continue
                } else {
                    Flow::Exit
                },
            ),
        },
    }
}

/// Whether the loop goes on, given how an event was answered and the store
/// as the answer left it.
pub fn flow(state: &State, answer: Result<(), Error>) -> (result: Result<Flow, Error>)
    ensures
        match result {
            Ok(flow) => flow_after(state.model(), answer) == Ok::<Flow, Failure>(flow),
            Err(error) => flow_after(state.model(), answer) == Err::<Flow, Failure>(error.failure()),
        },
{
    match answer {
        Err(error) => Err(error),
        Ok(()) => match require::<bool>(state, "app.running") {
            Err(error) => Err(error),
            Ok(running) => if *running {
                Ok(Flow::Continue)
            } else {
                Ok(Flow::Exit)
            },
        },
    }
}

/// What the store of a new application holds: it is running, the active
/// page is page 0, and the mode is the normal one.
pub open spec fn default_store() -> Map<Seq<char>, Value> {
    Map::<Seq<char>, Value>::empty().insert("app.running"@, Value::Bool(true)).insert(
        "app.page.active"@,
        Value::Index(0),
    ).insert("app.mode"@, Value::Mode(Mode::Normal))
}

/// An application: its state, and the function that answers its events.
pub struct Application<U: Update> {
    update: U,
    state: State,
}

impl<U: Update> Application<U> {
    /// The state store of the application.
    pub closed spec fn store(&self) -> State {
        self.state
    }

    /// The function that answers the events.
    pub closed spec fn answerer(&self) -> U {
        self.update
    }

    /// An application that answers events with `update`. Its store holds
    /// the defaults.
    pub fn new(update: U) -> (application: Application<U>)
        ensures
            application.answerer() == update,
            application.store()@ == default_store(),
    {
        let mut state = State::default();
        state.set("app.running", Value::Bool(true));
        state.set("app.page.active", Value::Index(0));
        state.set("app.mode", Value::Mode(Mode::Normal));
        Application { update, state }
    }

    /// The application with the entries of `props` written to its store, in
    /// their order.
    pub fn state(self, props: Vec<(&str, Value)>) -> (application: Application<U>)
        ensures
            application.answerer() == self.answerer(),
            application.store()@ == with_props(self.store()@, props@),
    {
        let mut application = self;
        let ghost start = application.state@;
        let ghost all = props@;
        for prop in rest: props
            invariant
                rest.seq() == all,
                application.update == self.update,
                application.state@ == with_props(start, all.subrange(0, rest.index() as int)),
        {
            assert(all.subrange(0, rest.index() + 1).drop_last() =~= all.subrange(
                0,
                rest.index() as int,
            ));
            application.state.set(prop.0, prop.1);
        }
        assert(all.subrange(0, all.len() as int) =~= all);
        application
    }

    /// The state store, to draw from.
    pub fn current(&self) -> (state: &State)
        ensures
            *state == self.store(),
    {
        &self.state
    }

    /// Has `event` answered by the function of the application.
    pub fn on_input_event(&mut self, event: &InputEvent) -> (result: Result<(), Error>)
        ensures
            old(self).answerer().answers(&old(self).store(), &final(self).store(), *event, result),
            final(self).answerer() == old(self).answerer(),
    {
        self.update.update(&mut self.state, event)
    }

    /// One turn of the loop after the frame was drawn: the event is
    /// answered, and then the store says whether the loop goes on.
    pub fn step(&mut self, event: &InputEvent) -> (result: Result<Flow, Error>)
        ensures
            final(self).answerer() == old(self).answerer(),
            exists|answer: Result<(), Error>|
                {
                    &&& #[trigger] old(self).answerer().answers(
                        &old(self).store(),
                        &final(self).store(),
                        *event,
                        answer,
                    )
                    &&& match result {
                        Ok(flow) => flow_after(final(self).store().model(), answer) == Ok::<
                            Flow,
                            Failure,
                        >(flow),
                        Err(error) => flow_after(final(self).store().model(), answer) == Err::<
                            Flow,
                            Failure,
                        >(error.failure()),
                    }
                },
    {
        let answer = self.on_input_event(event);
        flow(&self.state, answer)
    }
}

} // verus!
