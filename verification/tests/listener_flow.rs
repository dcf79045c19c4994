use mpv_control::listener::{
    listener_start, listener_step, observe_commands, observed_properties, ListenerAction,
    ListenerInput, ListenerState, MpvEvent,
};

#[test]
fn observed_properties_fixed_order() {
    let props = observed_properties();
    assert_eq!(
        props,
        vec!["playlist", "filename", "pause", "eof-reached", "time-pos", "duration", "volume"]
    );
}

#[test]
fn subscribe_emits_one_observe_request_per_property() {
    let cmds = observe_commands();
    assert_eq!(cmds.len(), 7);
    assert_eq!(cmds[0], "{\"command\": [\"observe_property\", 1, \"playlist\"]}");
    assert_eq!(cmds[1], "{\"command\": [\"observe_property\", 2, \"filename\"]}");
    assert_eq!(cmds[2], "{\"command\": [\"observe_property\", 3, \"pause\"]}");
    assert_eq!(cmds[3], "{\"command\": [\"observe_property\", 4, \"eof-reached\"]}");
    assert_eq!(cmds[4], "{\"command\": [\"observe_property\", 5, \"time-pos\"]}");
    assert_eq!(cmds[5], "{\"command\": [\"observe_property\", 6, \"duration\"]}");
    assert_eq!(cmds[6], "{\"command\": [\"observe_property\", 7, \"volume\"]}");
}

#[test]
fn subscribe_identifiers_have_no_duplicates() {
    let cmds = observe_commands();
    for i in 0..cmds.len() {
        for j in 0..cmds.len() {
            if i != j {
                assert_ne!(cmds[i], cmds[j]);
            }
        }
    }
}

fn forwarded(step: (ListenerState, ListenerAction)) -> MpvEvent {
    assert_eq!(step.0, ListenerState::Listening);
    match step.1 {
        ListenerAction::Forward(ev) => ev,
        other => panic!("expected a forward action, got {:?}", other),
    }
}

#[test]
fn property_change_line_parses_into_event() {
    let line = String::from("{\"event\":\"property-change\",\"name\":\"volume\",\"data\":55}");
    let ev = forwarded(listener_step(ListenerState::Listening, ListenerInput::Line(line)));
    assert_eq!(ev.event_type, "property-change");
    assert_eq!(ev.name.as_deref(), Some("volume"));
    assert_eq!(ev.data.as_deref(), Some("55"));
}

#[test]
fn malformed_line_is_dropped_and_next_line_still_delivered() {
    let truncated = String::from("{\"event\":\"property-cha");
    let step = listener_step(ListenerState::Listening, ListenerInput::Line(truncated));
    assert_eq!(step.0, ListenerState::Listening);
    assert!(matches!(step.1, ListenerAction::ReadLine));

    let good = String::from("{\"event\":\"end-file\"}");
    let ev = forwarded(listener_step(ListenerState::Listening, ListenerInput::Line(good)));
    assert_eq!(ev.event_type, "end-file");
    assert_eq!(ev.name, None);
    assert_eq!(ev.data, None);
}

#[test]
fn line_without_event_field_is_dropped() {
    let response = String::from("{\"error\":\"success\",\"request_id\":0}");
    let step = listener_step(ListenerState::Listening, ListenerInput::Line(response));
    assert_eq!(step.0, ListenerState::Listening);
    assert!(matches!(step.1, ListenerAction::ReadLine));
}

#[test]
fn listener_lifecycle_delivers_events_in_order() {
    let (state, action) = listener_start();
    assert_eq!(state, ListenerState::StartupDelay);
    assert!(matches!(action, ListenerAction::Wait));

    let (state, action) = listener_step(state, ListenerInput::Waited);
    assert_eq!(state, ListenerState::Connecting);
    assert!(matches!(action, ListenerAction::Connect));

    let (state, action) = listener_step(state, ListenerInput::Connected);
    assert_eq!(state, ListenerState::Subscribing);
    match action {
        ListenerAction::Subscribe(cmds) => assert_eq!(cmds.len(), 7),
        other => panic!("expected a subscribe action, got {:?}", other),
    }

    let (state, action) = listener_step(state, ListenerInput::SubscribesSent);
    assert_eq!(state, ListenerState::Listening);
    assert!(matches!(action, ListenerAction::ReadLine));

    let first = String::from("{\"event\":\"pause\",\"data\":true}");
    let ev = forwarded(listener_step(state, ListenerInput::Line(first)));
    assert_eq!(ev.event_type, "pause");
    assert_eq!(ev.data.as_deref(), Some("true"));

    let (state, action) = listener_step(ListenerState::Listening, ListenerInput::Delivered);
    assert_eq!(state, ListenerState::Listening);
    assert!(matches!(action, ListenerAction::ReadLine));

    let second = String::from("{\"event\":\"end-file\"}");
    let ev = forwarded(listener_step(state, ListenerInput::Line(second)));
    assert_eq!(ev.event_type, "end-file");

    let (state, action) = listener_step(ListenerState::Listening, ListenerInput::StreamEnded);
    assert_eq!(state, ListenerState::Terminated);
    assert!(matches!(action, ListenerAction::Stop));
}

#[test]
fn connect_failure_terminates_listener_for_good() {
    let (state, _) = listener_step(ListenerState::Connecting, ListenerInput::ConnectFailed);
    assert_eq!(state, ListenerState::Terminated);
    let (state, action) = listener_step(state, ListenerInput::Waited);
    assert_eq!(state, ListenerState::Terminated);
    assert!(matches!(action, ListenerAction::Stop));
}

#[test]
fn delivery_failure_terminates_listener() {
    let (state, action) = listener_step(ListenerState::Listening, ListenerInput::DeliveryFailed);
    assert_eq!(state, ListenerState::Terminated);
    assert!(matches!(action, ListenerAction::Stop));
}

#[test]
fn read_failure_terminates_listener() {
    let (state, action) = listener_step(ListenerState::Listening, ListenerInput::ReadFailed);
    assert_eq!(state, ListenerState::Terminated);
    assert!(matches!(action, ListenerAction::Stop));
}
