use snacks::controller::{Message, UpdateMedia};
use snacks::mpris::{
    method_call_step, properties_change_step, properties_changed_events, Event, MethodCallItem,
    PlaybackStatus, Properties, PropertiesChanged, PropertiesItem,
};
use snacks::normalize::{normalize, normalize_volume};

fn changed_body(invalidated: Vec<String>) -> PropertiesChanged {
    let mut changed = Properties::default();
    changed.playback_status = Some(PlaybackStatus::Paused);
    PropertiesChanged {
        interface_name: "org.mpris.MediaPlayer2.Player".to_owned(),
        changed_properties: changed,
        invalidated_properties: invalidated,
    }
}

#[test]
fn empty_invalidation_emits_exactly_one_update() {
    let events = properties_changed_events(changed_body(Vec::new()));

    assert_eq!(events.len(), 1);
    assert!(matches!(events[0], Event::Update(_)));
}

#[test]
fn invalidation_emits_update_then_removal() {
    let events = properties_changed_events(changed_body(vec!["shuffle".to_owned()]));

    assert_eq!(events.len(), 2);
    assert!(matches!(events[0], Event::Update(_)));
    match &events[1] {
        Event::RemoveProperties(names) => assert_eq!(names, &vec!["shuffle".to_owned()]),
        other => panic!("expected a removal event, got {:?}", other),
    }
}

#[test]
fn update_event_carries_the_decoded_delta() {
    let events = properties_changed_events(changed_body(Vec::new()));
    match &events[0] {
        Event::Update(delta) => {
            assert_eq!(delta.playback_status, Some(PlaybackStatus::Paused));
            assert_eq!(delta.shuffle, None);
        }
        other => panic!("expected an update event, got {:?}", other),
    }
}

#[test]
fn empty_delta_still_emits_an_update() {
    let body = PropertiesChanged {
        interface_name: "org.mpris.MediaPlayer2.Player".to_owned(),
        changed_properties: Properties::default(),
        invalidated_properties: Vec::new(),
    };
    let events = properties_changed_events(body);

    // Even a delta that carries nothing is emitted, so observers see the
    // tick.
    assert_eq!(events.len(), 1);
    match &events[0] {
        Event::Update(delta) => assert_eq!(delta.playback_status, None),
        other => panic!("expected an update event, got {:?}", other),
    }
}

#[test]
fn method_call_with_member_is_new_activity() {
    let (event, go_on) = method_call_step(MethodCallItem::Call { has_member: true });
    assert!(matches!(event, Some(Event::NewMethodCall)));
    assert!(go_on);
}

#[test]
fn method_call_without_member_is_dropped() {
    let (event, go_on) = method_call_step(MethodCallItem::Call { has_member: false });
    assert!(event.is_none());
    assert!(go_on);
}

#[test]
fn method_call_stream_end_stops_quietly() {
    let (event, go_on) = method_call_step(MethodCallItem::Ended);
    assert!(event.is_none());
    assert!(!go_on);
}

#[test]
fn method_call_stream_failure_is_surfaced_and_stops() {
    let (event, go_on) = method_call_step(MethodCallItem::Failed("broken pipe".to_owned()));
    assert!(!go_on);
    match event {
        Some(Event::Error(m)) => assert_eq!(m, "error from stream: broken pipe"),
        other => panic!("expected an error event, got {:?}", other),
    }
}

#[test]
fn signal_decode_failure_is_recoverable() {
    let (events, go_on) =
        properties_change_step(PropertiesItem::Signal(Err("bad payload".to_owned())));
    assert!(go_on);
    assert_eq!(events.len(), 1);
    match &events[0] {
        Event::Error(m) => assert_eq!(m, "deserialize error: bad payload"),
        other => panic!("expected an error event, got {:?}", other),
    }
}

#[test]
fn signal_stream_end_stops_quietly() {
    let (events, go_on) = properties_change_step(PropertiesItem::Ended);
    assert!(events.is_empty());
    assert!(!go_on);
}

#[test]
fn signal_stream_failure_is_surfaced_and_stops() {
    let (events, go_on) =
        properties_change_step(PropertiesItem::Failed("disconnected".to_owned()));
    assert!(!go_on);
    assert_eq!(events.len(), 1);
    match &events[0] {
        Event::Error(m) => assert_eq!(m, "error from stream: disconnected"),
        other => panic!("expected an error event, got {:?}", other),
    }
}

#[test]
fn decoded_signal_events_flow_through_the_step() {
    let (events, go_on) =
        properties_change_step(PropertiesItem::Signal(Ok(changed_body(Vec::new()))));
    assert!(go_on);
    assert_eq!(events.len(), 1);
    assert!(matches!(events[0], Event::Update(_)));
}

#[test]
fn normalize_maps_each_event() {
    assert!(matches!(
        normalize(Event::NewMethodCall),
        Message::OpenOrRefreshWindow
    ));

    let mut delta = Properties::default();
    delta.shuffle = Some(true);
    match normalize(Event::Update(delta)) {
        Message::UpdateMedia(UpdateMedia::Update(p)) => assert_eq!(p.shuffle, Some(true)),
        other => panic!("expected a media update, got {:?}", other),
    }

    match normalize(Event::RemoveProperties(vec!["rate".to_owned()])) {
        Message::UpdateMedia(UpdateMedia::Remove(names)) => {
            assert_eq!(names, vec!["rate".to_owned()])
        }
        other => panic!("expected a media removal, got {:?}", other),
    }

    match normalize(Event::Error("oops".to_owned())) {
        Message::Error(m) => assert_eq!(m, "oops"),
        other => panic!("expected an error message, got {:?}", other),
    }
}

#[test]
fn normalize_volume_surfaces_text() {
    match normalize_volume("pipewire says hi".to_owned()) {
        Message::Error(m) => assert_eq!(m, "pipewire says hi"),
        other => panic!("expected an error message, got {:?}", other),
    }
}
