//! What holds of every run of the update loop.

use vstd::prelude::*;
use crate::dispatch::{
    spec_action, spec_next, spec_run_actions, spec_run_state, Action, Event, Outcome, State,
};
use crate::types::update::Update;

verus! {

/// The events of `updates` arriving one after the other.
pub open spec fn spec_arrivals(updates: Seq<Update>) -> Seq<Event> {
    Seq::new(updates.len(), |i: int| Event::Update(updates[i]))
}

/// One dispatch for each of `updates`, in their order.
pub open spec fn spec_dispatches(updates: Seq<Update>) -> Seq<Action> {
    Seq::new(updates.len(), |i: int| Action::Dispatch(updates[i]))
}

/// `events` without the reports of failed handlers.
pub open spec fn spec_without_failures(events: Seq<Event>) -> Seq<Event>
    decreases events.len(),
{
    if events.len() == 0 {
        Seq::empty()
    } else if events.last() is HandlerFailed {
        spec_without_failures(events.drop_last())
    } else {
        spec_without_failures(events.drop_last()).push(events.last())
    }
}

/// `actions` without the requests to report a failed handler.
pub open spec fn spec_without_reports(actions: Seq<Action>) -> Seq<Action>
    decreases actions.len(),
{
    if actions.len() == 0 {
        Seq::empty()
    } else if actions.last() is Report {
        spec_without_reports(actions.drop_last())
    } else {
        spec_without_reports(actions.drop_last()).push(actions.last())
    }
}

/// How many of `actions` ask for the session to be saved.
pub open spec fn spec_saves(actions: Seq<Action>) -> nat
    decreases actions.len(),
{
    if actions.len() == 0 {
        0
    } else if actions.last() is SaveSession {
        spec_saves(actions.drop_last()) + 1
    } else {
        spec_saves(actions.drop_last())
    }
}

/// How many of `actions` hand an update to a handler.
pub open spec fn spec_dispatch_count(actions: Seq<Action>) -> nat
    decreases actions.len(),
{
    if actions.len() == 0 {
        0
    } else if actions.last() is Dispatch {
        spec_dispatch_count(actions.drop_last()) + 1
    } else {
        spec_dispatch_count(actions.drop_last())
    }
}

/// How many of `actions` end the loop.
pub open spec fn spec_finishes(actions: Seq<Action>) -> nat
    decreases actions.len(),
{
    if actions.len() == 0 {
        0
    } else if actions.last() is Finish {
        spec_finishes(actions.drop_last()) + 1
    } else {
        spec_finishes(actions.drop_last())
    }
}

/// One more event extends a run by one step.
pub proof fn lemma_run_push(state: State, events: Seq<Event>, event: Event)
    ensures
        spec_run_state(state, events.push(event)) == spec_next(
            spec_run_state(state, events),
            event,
        ),
        spec_run_actions(state, events.push(event)) == spec_run_actions(state, events).push(
            spec_action(spec_run_state(state, events), event),
        ),
{
    assert(events.push(event).drop_last() == events);
    assert(events.push(event).last() == event);
}

/// One more action adds one to the count of its kind and nothing to the
/// others.
proof fn lemma_counts_push(actions: Seq<Action>, action: Action)
    ensures
        spec_saves(actions.push(action)) == spec_saves(actions) + if action is SaveSession {
            1nat
        } else {
            0nat
        },
        spec_dispatch_count(actions.push(action)) == spec_dispatch_count(actions)
            + if action is Dispatch {
            1nat
        } else {
            0nat
        },
        spec_finishes(actions.push(action)) == spec_finishes(actions) + if action is Finish {
            1nat
        } else {
            0nat
        },
{
    assert(actions.push(action).drop_last() == actions);
    assert(actions.push(action).last() == action);
}

/// While updates arrive the loop keeps running and hands out each of them,
/// in the order of arrival and nothing else.
pub proof fn law_every_update_is_dispatched(updates: Seq<Update>)
    ensures
        spec_run_state(State::Running, spec_arrivals(updates)) == State::Running,
        spec_run_actions(State::Running, spec_arrivals(updates)) == spec_dispatches(updates),
        spec_dispatch_count(spec_dispatches(updates)) == updates.len(),
        spec_saves(spec_dispatches(updates)) == 0,
        spec_finishes(spec_dispatches(updates)) == 0,
    decreases updates.len(),
{
    if updates.len() > 0 {
        let init = updates.drop_last();
        law_every_update_is_dispatched(init);
        assert(spec_arrivals(updates) == spec_arrivals(init).push(Event::Update(updates.last())));
        assert(spec_dispatches(updates) == spec_dispatches(init).push(
            Action::Dispatch(updates.last()),
        ));
        lemma_run_push(State::Running, spec_arrivals(init), Event::Update(updates.last()));
        lemma_counts_push(spec_dispatches(init), Action::Dispatch(updates.last()));
    } else {
        assert(spec_arrivals(updates) == Seq::<Event>::empty());
        assert(spec_dispatches(updates) == Seq::<Action>::empty());
    }
}

/// Any number of updates followed by the shutdown signal: every update is
/// handed out, then the session is saved, once, and once it is saved the
/// loop ends well. With no update at all the session is saved all the same
/// and nothing is handed out.
pub proof fn law_updates_then_shutdown(updates: Seq<Update>)
    ensures
        ({
            let events = spec_arrivals(updates).push(Event::Shutdown).push(Event::SessionSaved);
            let actions = spec_run_actions(State::Running, events);
            &&& spec_run_state(State::Running, spec_arrivals(updates).push(Event::Shutdown))
                == State::Draining
            &&& spec_run_state(State::Running, events) == State::Stopped
            &&& actions == spec_dispatches(updates).push(Action::SaveSession).push(
                Action::Finish(Outcome::Saved),
            )
            &&& spec_dispatch_count(actions) == updates.len()
            &&& spec_saves(actions) == 1
            &&& actions[updates.len() as int] == Action::SaveSession
        }),
{
    law_every_update_is_dispatched(updates);
    let arrivals = spec_arrivals(updates);
    lemma_run_push(State::Running, arrivals, Event::Shutdown);
    lemma_run_push(State::Running, arrivals.push(Event::Shutdown), Event::SessionSaved);
    lemma_counts_push(spec_dispatches(updates), Action::SaveSession);
    lemma_counts_push(
        spec_dispatches(updates).push(Action::SaveSession),
        Action::Finish(Outcome::Saved),
    );
}

/// A failed fetch ends the loop at once, with the transport's error and
/// without saving the session.
pub proof fn law_transport_failure_ends_the_loop(updates: Seq<Update>, error: String)
    ensures
        ({
            let events = spec_arrivals(updates).push(Event::TransportFailed(error));
            let actions = spec_run_actions(State::Running, events);
            &&& spec_run_state(State::Running, events) == State::Stopped
            &&& actions == spec_dispatches(updates).push(
                Action::Finish(Outcome::Failed(crate::dispatch::Failure::Transport(error))),
            )
            &&& spec_saves(actions) == 0
        }),
{
    law_every_update_is_dispatched(updates);
    lemma_run_push(State::Running, spec_arrivals(updates), Event::TransportFailed(error));
    lemma_counts_push(
        spec_dispatches(updates),
        Action::Finish(Outcome::Failed(crate::dispatch::Failure::Transport(error))),
    );
}

/// A handler's failure stays with the handler. In every state it leaves the
/// loop where it was and asks for nothing but a report; and whatever
/// handlers fail during a run, and whenever, the loop passes through the
/// same states and asks for the same dispatches, the same save and the same
/// end as in the run without those failures.
pub proof fn law_handler_failure_is_contained(state: State, events: Seq<Event>, error: String)
    ensures
        spec_next(state, Event::HandlerFailed(error)) == state,
        spec_action(state, Event::HandlerFailed(error)) == Action::Report(error),
        spec_run_state(state, events) == spec_run_state(state, spec_without_failures(events)),
        spec_without_reports(spec_run_actions(state, events)) == spec_run_actions(
            state,
            spec_without_failures(events),
        ),
    decreases events.len(),
{
    if events.len() > 0 {
        let init = events.drop_last();
        let last = events.last();
        law_handler_failure_is_contained(state, init, error);
        let before = spec_run_state(state, init);
        let action = spec_action(before, last);
        let actions = spec_run_actions(state, init);
        assert(actions.push(action).drop_last() == actions);
        assert(actions.push(action).last() == action);
        if !(last is HandlerFailed) {
            lemma_run_push(state, spec_without_failures(init), last);
        }
    }
}

/// The session is saved at most once in any run, and the loop ends at most
/// once. A running loop has saved nothing yet; a draining loop has asked
/// for the one save and has not ended; a stopped loop has ended exactly
/// once.
pub proof fn law_session_saved_at_most_once(events: Seq<Event>)
    ensures
        ({
            let state = spec_run_state(State::Running, events);
            let actions = spec_run_actions(State::Running, events);
            &&& spec_saves(actions) <= 1
            &&& spec_finishes(actions) <= 1
            &&& state == State::Running ==> spec_saves(actions) == 0 && spec_finishes(actions) == 0
            &&& state == State::Draining ==> spec_saves(actions) == 1 && spec_finishes(actions)
                == 0
            &&& state == State::Stopped ==> spec_finishes(actions) == 1
        }),
    decreases events.len(),
{
    if events.len() > 0 {
        let init = events.drop_last();
        law_session_saved_at_most_once(init);
        lemma_counts_push(
            spec_run_actions(State::Running, init),
            spec_action(spec_run_state(State::Running, init), events.last()),
        );
    }
}

/// Updates are handed out only while the loop runs: once shutdown has been
/// asked for, or the loop has ended, whatever arrives is handed to nobody,
/// and the session is not saved again.
pub proof fn law_nothing_is_dispatched_after_shutdown(state: State, events: Seq<Event>)
    requires
        state != State::Running,
    ensures
        spec_run_state(state, events) != State::Running,
        spec_dispatch_count(spec_run_actions(state, events)) == 0,
        spec_saves(spec_run_actions(state, events)) == 0,
    decreases events.len(),
{
    if events.len() > 0 {
        let init = events.drop_last();
        law_nothing_is_dispatched_after_shutdown(state, init);
        lemma_counts_push(
            spec_run_actions(state, init),
            spec_action(spec_run_state(state, init), events.last()),
        );
    }
}

} // verus!
