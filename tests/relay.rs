use blendmate_relay::listener::{Listener, ListenerAction};
use blendmate_relay::session::{Action, Event, Frame, Phase, Session, Status};
use blendmate_relay::slot::{send_outcome, ConnectionSlot, SendError};

fn drive(session: &mut Session, events: Vec<Event>) -> Vec<Action> {
    let mut all = Vec::new();
    for e in events {
        all.extend(session.step(e));
    }
    all
}

fn statuses(actions: &[Action]) -> Vec<Status> {
    actions
        .iter()
        .filter_map(|a| match a {
            Action::EmitStatus(s) => Some(*s),
            _ => None,
        })
        .collect()
}

fn forwarded(actions: &[Action]) -> Vec<String> {
    actions
        .iter()
        .filter_map(|a| match a {
            Action::Forward(t) => Some(t.clone()),
            _ => None,
        })
        .collect()
}

fn text(t: &str) -> Event {
    Event::Received(Frame::Text(t.to_string()))
}

#[test]
fn handshake_installs_sink_then_reports_connected() {
    let mut s = Session::new(7);
    let acts = s.step(Event::HandshakeSucceeded);
    assert_eq!(acts, vec![Action::InstallSink, Action::EmitStatus(Status::Connected)]);
    assert_eq!(s.phase(), Phase::Relaying);
    assert_eq!(s.id(), 7);
    assert!(!s.is_finished());
}

#[test]
fn serial_sessions_report_one_pair_each_in_order() {
    let mut log = Vec::new();
    for id in 0..3u64 {
        let mut s = Session::new(id);
        let acts = drive(
            &mut s,
            vec![Event::HandshakeSucceeded, text("x"), Event::Received(Frame::Close)],
        );
        assert_eq!(s.phase(), Phase::Closed);
        log.extend(statuses(&acts));
    }
    assert_eq!(
        log,
        vec![
            Status::Connected,
            Status::Disconnected,
            Status::Connected,
            Status::Disconnected,
            Status::Connected,
            Status::Disconnected,
        ]
    );
}

#[test]
fn failed_handshake_reports_only_disconnected() {
    let mut s = Session::new(1);
    let acts = drive(&mut s, vec![Event::HandshakeFailed, text("late"), Event::ReadFailed]);
    assert_eq!(acts, vec![Action::EmitStatus(Status::Disconnected)]);
    assert_eq!(s.phase(), Phase::Failed);
    assert!(s.is_finished());
}

#[test]
fn send_after_close_finds_no_connection() {
    let mut slot: ConnectionSlot<Vec<String>> = ConnectionSlot::new();
    let mut s = Session::new(3);
    for a in drive(&mut s, vec![Event::HandshakeSucceeded, Event::StreamEnded]) {
        match a {
            Action::InstallSink => {
                slot.install(s.id(), Vec::new());
            }
            Action::ReleaseSink => {
                assert_eq!(slot.release(s.id()), Some(Vec::new()));
            }
            _ => {}
        }
    }
    assert_eq!(slot.active_session(), Err(SendError::NoConnection));
    assert!(matches!(slot.sink_for_send(), Err(SendError::NoConnection)));
}

#[test]
fn send_while_relaying_goes_through_unchanged() {
    let mut slot: ConnectionSlot<Vec<String>> = ConnectionSlot::new();
    assert_eq!(slot.install(4, Vec::new()), None);
    let payload = String::from("{\"cmd\":\"render\", \"ü\": 1}");
    match slot.sink_for_send() {
        Ok(sink) => sink.push(payload.clone()),
        Err(e) => panic!("unexpected {:?}", e),
    }
    assert_eq!(send_outcome(Ok(())), Ok(()));
    assert_eq!(slot.release(4), Some(vec![payload]));
}

#[test]
fn five_text_frames_are_forwarded_in_order() {
    let mut s = Session::new(0);
    let acts = drive(
        &mut s,
        vec![
            Event::HandshakeSucceeded,
            text("a"),
            text("b"),
            text("c"),
            text("d"),
            text("e"),
        ],
    );
    assert_eq!(forwarded(&acts), vec!["a", "b", "c", "d", "e"]);
}

#[test]
fn second_session_keeps_slot_when_first_closes() {
    let mut slot: ConnectionSlot<&str> = ConnectionSlot::new();
    assert_eq!(slot.install(1, "first"), None);
    assert_eq!(slot.install(2, "second"), Some("first"));
    assert_eq!(slot.release(1), None);
    assert_eq!(slot.active_session(), Ok(2));
    match slot.sink_for_send() {
        Ok(sink) => assert_eq!(*sink, "second"),
        Err(e) => panic!("unexpected {:?}", e),
    }
    assert_eq!(slot.release(2), Some("second"));
    assert_eq!(slot.active_session(), Err(SendError::NoConnection));
}

#[test]
fn read_error_and_forward_failure_report_disconnected_once() {
    let mut s = Session::new(9);
    let acts = drive(
        &mut s,
        vec![
            Event::HandshakeSucceeded,
            text("a"),
            Event::ReadFailed,
            Event::ForwardFailed,
            Event::StreamEnded,
        ],
    );
    assert_eq!(statuses(&acts), vec![Status::Connected, Status::Disconnected]);
    assert_eq!(acts.iter().filter(|a| **a == Action::ReleaseSink).count(), 1);
}

#[test]
fn forward_failure_closes_the_session() {
    let mut s = Session::new(2);
    drive(&mut s, vec![Event::HandshakeSucceeded, text("a")]);
    let acts = s.step(Event::ForwardFailed);
    assert_eq!(acts, vec![Action::ReleaseSink, Action::EmitStatus(Status::Disconnected)]);
    assert_eq!(s.phase(), Phase::Closed);
    assert!(s.step(text("b")).is_empty());
}

#[test]
fn other_frames_are_ignored() {
    let mut s = Session::new(5);
    let acts = drive(
        &mut s,
        vec![Event::HandshakeSucceeded, Event::Received(Frame::Other), text("z")],
    );
    assert_eq!(forwarded(&acts), vec!["z"]);
    assert_eq!(s.phase(), Phase::Relaying);
}

#[test]
fn events_before_handshake_are_ignored() {
    let mut s = Session::new(5);
    assert!(s.step(text("early")).is_empty());
    assert!(s.step(Event::ReadFailed).is_empty());
    assert_eq!(s.phase(), Phase::Handshaking);
}

#[test]
fn transport_failure_is_send_failed_with_cause() {
    assert_eq!(
        send_outcome(Err(String::from("broken pipe"))),
        Err(SendError::SendFailed(String::from("broken pipe")))
    );
}

#[test]
fn status_names() {
    assert_eq!(Status::Connected.name(), "connected");
    assert_eq!(Status::Disconnected.name(), "disconnected");
}

#[test]
fn bind_failure_stops_the_listener() {
    let mut l = Listener::new();
    assert_eq!(l.on_bind(false), ListenerAction::Stop);
    assert_eq!(l.on_accept(true), ListenerAction::Stop);
}

#[test]
fn accept_errors_do_not_stop_the_listener_and_ids_are_fresh() {
    let mut l = Listener::new();
    assert_eq!(l.on_bind(true), ListenerAction::Accept);
    assert_eq!(l.on_accept(true), ListenerAction::Spawn(0));
    assert_eq!(l.on_accept(false), ListenerAction::Accept);
    assert_eq!(l.on_accept(true), ListenerAction::Spawn(1));
    assert_eq!(l.on_accept(true), ListenerAction::Spawn(2));
}
