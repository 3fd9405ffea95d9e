//! The decisions of the update loop.
//!
//! The loop races a shutdown signal against the next update. It hands every
//! update to a handler that runs on its own, and goes on at once; on
//! shutdown it stops taking updates and saves the session, once, before it
//! ends. Racing, spawning and saving are the caller's work. What to do next
//! is decided here: [`Dispatcher::step`] takes what happened and says what
//! is to be done.

pub mod laws;

use vstd::prelude::*;
use crate::types::update::Update;

verus! {

/// Where the loop stands.
#[derive(Clone, Copy, Debug, PartialEq, Eq, Structural)]
pub enum State {
    /// Updates are taken and handed out.
    Running,
    /// Shutdown was asked for: no update is taken any more, and the session
    /// is being saved.
    Draining,
    /// The loop has ended.
    Stopped,
}

/// Why the loop ended without success.
#[derive(Clone, Debug, PartialEq, Eq)]
pub enum Failure {
    /// The next update could not be fetched.
    Transport(String),
    /// The session could not be saved.
    Session(String),
}

/// How the loop ended.
#[derive(Clone, Debug, PartialEq, Eq)]
pub enum Outcome {
    /// Shutdown was asked for and the session is saved.
    Saved,
    /// The loop failed, and what with.
    Failed(Failure),
}

/// What happened.
#[derive(Clone, Debug, PartialEq)]
pub enum Event {
    /// The shutdown signal won the race.
    Shutdown,
    /// The next update won the race.
    Update(Update),
    /// Fetching the next update failed.
    TransportFailed(String),
    /// The session is saved.
    SessionSaved,
    /// Saving the session failed.
    SessionFailed(String),
    /// A handler ended with an error.
    HandlerFailed(String),
}

/// What is to be done.
#[derive(Clone, Debug, PartialEq)]
pub enum Action {
    /// Hand the update to a handler of its own, and do not wait for it.
    Dispatch(Update),
    /// Save the session.
    SaveSession,
    /// Leave the loop with this outcome.
    Finish(Outcome),
    /// Write the handler's error to the diagnostic sink.
    Report(String),
    /// Nothing: the event comes too late to matter.
    Ignore,
}

/// The state after `event` happened in `state`.
///
/// A failed handler never moves the loop. Updates keep it running. Shutdown
/// moves a running loop to draining, a failed fetch stops it at once, and a
/// draining loop stops when saving has ended, well or badly. Whatever else
/// happens leaves the state alone; a stopped loop stays stopped.
pub open spec fn spec_next(state: State, event: Event) -> State {
    match (state, event) {
        (State::Running, Event::Shutdown) => State::Draining,
        (State::Running, Event::TransportFailed(_)) => State::Stopped,
        (State::Draining, Event::SessionSaved) => State::Stopped,
        (State::Draining, Event::SessionFailed(_)) => State::Stopped,
        _ => state,
    }
}

/// What is to be done when `event` happens in `state`.
pub open spec fn spec_action(state: State, event: Event) -> Action {
    match (state, event) {
        (_, Event::HandlerFailed(error)) => Action::Report(error),
        (State::Running, Event::Update(update)) => Action::Dispatch(update),
        (State::Running, Event::Shutdown) => Action::SaveSession,
        (State::Running, Event::TransportFailed(error)) => Action::Finish(
            Outcome::Failed(Failure::Transport(error)),
        ),
        (State::Draining, Event::SessionSaved) => Action::Finish(Outcome::Saved),
        (State::Draining, Event::SessionFailed(error)) => Action::Finish(
            Outcome::Failed(Failure::Session(error)),
        ),
        _ => Action::Ignore,
    }
}

/// The state after all of `events` happened, one after the other, starting
/// in `state`.
pub open spec fn spec_run_state(state: State, events: Seq<Event>) -> State
    decreases events.len(),
{
    if events.len() == 0 {
        state
    } else {
        spec_next(spec_run_state(state, events.drop_last()), events.last())
    }
}

/// What is to be done, in order, as `events` happen one after the other,
/// starting in `state`: one action for each event.
pub open spec fn spec_run_actions(state: State, events: Seq<Event>) -> Seq<Action>
    decreases events.len(),
{
    if events.len() == 0 {
        Seq::empty()
    } else {
        spec_run_actions(state, events.drop_last()).push(
            spec_action(spec_run_state(state, events.drop_last()), events.last()),
        )
    }
}

/// The control state of one update loop.
#[derive(Debug, PartialEq, Eq)]
pub struct Dispatcher {
    state: State,
}

impl View for Dispatcher {
    type V = State;

    closed spec fn view(&self) -> State {
        self.state
    }
}

impl Dispatcher {
    /// A loop that is about to run.
    pub fn new() -> (r: Self)
        ensures
            r@ == State::Running,
    {
        Dispatcher { state: State::Running }
    }

    /// Where the loop stands.
    pub fn state(&self) -> (r: State)
        ensures
            r == self@,
    {
        self.state
    }

    /// Whether the loop has ended.
    pub fn is_stopped(&self) -> (r: bool)
        ensures
            r == (self@ == State::Stopped),
    {
        match self.state {
            State::Stopped => true,
            _ => false,
        }
    }

    /// Takes note of what happened, and says what is to be done.
    pub fn step(&mut self, event: Event) -> (r: Action)
        ensures
            final(self)@ == spec_next(old(self)@, event),
            r == spec_action(old(self)@, event),
    {
        match event {
            Event::HandlerFailed(error) => Action::Report(error),
            Event::Update(update) => match self.state {
                State::Running => Action::Dispatch(update),
                _ => Action::Ignore,
            },
            Event::Shutdown => match self.state {
                State::Running => {
                    self.state = State::Draining;
                    Action::SaveSession
                },
                _ => Action::Ignore,
            },
            Event::TransportFailed(error) => match self.state {
                State::Running => {
                    self.state = State::Stopped;
                    Action::Finish(Outcome::Failed(Failure::Transport(error)))
                },
                _ => Action::Ignore,
            },
            Event::SessionSaved => match self.state {
                State::Draining => {
                    self.state = State::Stopped;
                    Action::Finish(Outcome::Saved)
                },
                _ => Action::Ignore,
            },
            Event::SessionFailed(error) => match self.state {
                State::Draining => {
                    self.state = State::Stopped;
                    Action::Finish(Outcome::Failed(Failure::Session(error)))
                },
                _ => Action::Ignore,
            },
        }
    }

    /// Replays a recorded run: takes note of every event in turn and
    /// collects what was to be done at each.
    pub fn run(&mut self, events: Vec<Event>) -> (r: Vec<Action>)
        ensures
            final(self)@ == spec_run_state(old(self)@, events@),
            r@ == spec_run_actions(old(self)@, events@),
    {
        let mut actions: Vec<Action> = Vec::new();
        let ghost all = events@;
        let ghost start = self@;
        for event in it: events
            invariant
                it.seq() == all,
                self@ == spec_run_state(start, all.take(it.index() as int)),
                actions@ == spec_run_actions(start, all.take(it.index() as int)),
        {
            proof {
                assert(all.take(it.index() + 1).drop_last() == all.take(it.index() as int));
                assert(all.take(it.index() + 1).last() == event);
            }
            let action = self.step(event);
            actions.push(action);
        }
        proof {
            assert(all.take(all.len() as int) == all);
        }
        actions
    }
}

} // verus!
