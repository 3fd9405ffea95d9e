use grammers_client::dispatch::{Action, Dispatcher, Event, Failure, Outcome, State};
use grammers_client::types::wire;
use grammers_client::types::{ChatMap, Message, Peer, Update, WireUpdate};

fn update(id: i32) -> Update {
    let record = wire::Record::Message(wire::Message::bare(id, Peer::User(1), 0, String::new()));
    match Update::new(WireUpdate::NewMessage(record), &ChatMap::new(Vec::new())) {
        Some(update) => update,
        None => panic!("a full message yields an update"),
    }
}

fn count(actions: &[Action], wanted: fn(&Action) -> bool) -> usize {
    actions.iter().filter(|action| wanted(action)).count()
}

fn is_dispatch(action: &Action) -> bool {
    matches!(action, Action::Dispatch(_))
}

fn is_save(action: &Action) -> bool {
    matches!(action, Action::SaveSession)
}

#[test]
fn new_loop_is_running() {
    let dispatcher = Dispatcher::new();
    assert_eq!(dispatcher.state(), State::Running);
    assert!(!dispatcher.is_stopped());
}

#[test]
fn shutdown_before_any_update_saves_once_and_dispatches_nothing() {
    let mut dispatcher = Dispatcher::new();
    let actions = dispatcher.run(vec![Event::Shutdown, Event::SessionSaved]);
    assert_eq!(actions, vec![Action::SaveSession, Action::Finish(Outcome::Saved)]);
    assert_eq!(count(&actions, is_dispatch), 0);
    assert_eq!(count(&actions, is_save), 1);
    assert!(dispatcher.is_stopped());
}

#[test]
fn updates_then_shutdown_dispatches_each_and_saves_once() {
    for n in [1usize, 2, 5, 40] {
        let mut events: Vec<Event> = (0..n).map(|i| Event::Update(update(i as i32))).collect();
        events.push(Event::Shutdown);
        events.push(Event::SessionSaved);
        let mut dispatcher = Dispatcher::new();
        let actions = dispatcher.run(events);
        assert_eq!(actions.len(), n + 2);
        for (i, action) in actions.iter().take(n).enumerate() {
            assert_eq!(*action, Action::Dispatch(update(i as i32)));
        }
        assert_eq!(actions[n], Action::SaveSession);
        assert_eq!(actions[n + 1], Action::Finish(Outcome::Saved));
        assert_eq!(count(&actions, is_dispatch), n);
        assert_eq!(count(&actions, is_save), 1);
        assert_eq!(dispatcher.state(), State::Stopped);
    }
}

#[test]
fn step_by_step_through_a_graceful_shutdown() {
    let mut dispatcher = Dispatcher::new();
    assert_eq!(dispatcher.step(Event::Update(update(1))), Action::Dispatch(update(1)));
    assert_eq!(dispatcher.state(), State::Running);
    assert_eq!(dispatcher.step(Event::Shutdown), Action::SaveSession);
    assert_eq!(dispatcher.state(), State::Draining);
    assert_eq!(dispatcher.step(Event::SessionSaved), Action::Finish(Outcome::Saved));
    assert_eq!(dispatcher.state(), State::Stopped);
    assert!(dispatcher.is_stopped());
}

#[test]
fn failed_handler_does_not_stop_the_loop() {
    let mut dispatcher = Dispatcher::new();
    let actions = dispatcher.run(vec![
        Event::Update(update(1)),
        Event::HandlerFailed("boom".to_string()),
        Event::Update(update(2)),
        Event::Update(update(3)),
        Event::HandlerFailed("bang".to_string()),
        Event::Shutdown,
        Event::HandlerFailed("late".to_string()),
        Event::SessionSaved,
        Event::HandlerFailed("later".to_string()),
    ]);
    assert_eq!(
        actions,
        vec![
            Action::Dispatch(update(1)),
            Action::Report("boom".to_string()),
            Action::Dispatch(update(2)),
            Action::Dispatch(update(3)),
            Action::Report("bang".to_string()),
            Action::SaveSession,
            Action::Report("late".to_string()),
            Action::Finish(Outcome::Saved),
            Action::Report("later".to_string()),
        ]
    );
    assert_eq!(dispatcher.state(), State::Stopped);
}

#[test]
fn failed_handler_leaves_every_state_alone() {
    let mut dispatcher = Dispatcher::new();
    assert_eq!(dispatcher.step(Event::HandlerFailed("a".to_string())), Action::Report("a".to_string()));
    assert_eq!(dispatcher.state(), State::Running);
    dispatcher.step(Event::Shutdown);
    assert_eq!(dispatcher.step(Event::HandlerFailed("b".to_string())), Action::Report("b".to_string()));
    assert_eq!(dispatcher.state(), State::Draining);
    dispatcher.step(Event::SessionSaved);
    assert_eq!(dispatcher.step(Event::HandlerFailed("c".to_string())), Action::Report("c".to_string()));
    assert_eq!(dispatcher.state(), State::Stopped);
}

#[test]
fn transport_failure_ends_the_loop_without_saving() {
    let mut dispatcher = Dispatcher::new();
    let actions = dispatcher.run(vec![
        Event::Update(update(1)),
        Event::TransportFailed("connection reset".to_string()),
        Event::Update(update(2)),
        Event::Shutdown,
        Event::SessionSaved,
    ]);
    assert_eq!(
        actions,
        vec![
            Action::Dispatch(update(1)),
            Action::Finish(Outcome::Failed(Failure::Transport("connection reset".to_string()))),
            Action::Ignore,
            Action::Ignore,
            Action::Ignore,
        ]
    );
    assert_eq!(count(&actions, is_save), 0);
    assert!(dispatcher.is_stopped());
}

#[test]
fn failed_save_ends_the_loop_with_its_error() {
    let mut dispatcher = Dispatcher::new();
    let actions = dispatcher.run(vec![Event::Shutdown, Event::SessionFailed("disk full".to_string())]);
    assert_eq!(
        actions,
        vec![
            Action::SaveSession,
            Action::Finish(Outcome::Failed(Failure::Session("disk full".to_string()))),
        ]
    );
    assert!(dispatcher.is_stopped());
}

#[test]
fn updates_after_shutdown_are_not_dispatched() {
    let mut dispatcher = Dispatcher::new();
    let actions = dispatcher.run(vec![
        Event::Shutdown,
        Event::Update(update(1)),
        Event::Shutdown,
        Event::TransportFailed("late".to_string()),
        Event::SessionSaved,
        Event::SessionSaved,
        Event::Update(update(2)),
    ]);
    assert_eq!(
        actions,
        vec![
            Action::SaveSession,
            Action::Ignore,
            Action::Ignore,
            Action::Ignore,
            Action::Finish(Outcome::Saved),
            Action::Ignore,
            Action::Ignore,
        ]
    );
    assert_eq!(count(&actions, is_dispatch), 0);
    assert_eq!(count(&actions, is_save), 1);
}

#[test]
fn save_report_out_of_turn_is_ignored() {
    let mut dispatcher = Dispatcher::new();
    assert_eq!(dispatcher.step(Event::SessionSaved), Action::Ignore);
    assert_eq!(dispatcher.step(Event::SessionFailed("x".to_string())), Action::Ignore);
    assert_eq!(dispatcher.state(), State::Running);
}

#[test]
fn run_of_nothing_does_nothing() {
    let mut dispatcher = Dispatcher::new();
    assert_eq!(dispatcher.run(Vec::new()), Vec::new());
    assert_eq!(dispatcher.state(), State::Running);
}

#[test]
fn update_about_an_empty_record_is_no_update() {
    let chats = ChatMap::new(Vec::new());
    let empty = wire::Record::Empty(wire::MessageEmpty { id: 1, peer_id: None });
    assert_eq!(Update::new(WireUpdate::NewMessage(empty.clone()), &chats), None);
    assert_eq!(Update::new(WireUpdate::MessageEdited(empty), &chats), None);
    assert_eq!(Update::new(WireUpdate::Other, &chats), Some(Update::Raw));
}

#[test]
fn update_about_a_message_carries_its_snapshot() {
    let chats = ChatMap::new(Vec::new());
    let raw = wire::Message::bare(4, Peer::Chat(3), 9, "hi".to_string());
    let snapshot = Message::from_raw(wire::Record::Message(raw.clone()), &chats);
    let snapshot = snapshot.expect("a full message yields a snapshot");
    assert_eq!(
        Update::new(WireUpdate::NewMessage(wire::Record::Message(raw.clone())), &chats),
        Some(Update::NewMessage(snapshot.clone()))
    );
    assert_eq!(
        Update::new(WireUpdate::MessageEdited(wire::Record::Message(raw)), &chats),
        Some(Update::MessageEdited(snapshot))
    );
}
