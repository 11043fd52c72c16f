use snacks::controller::{
    Action, Controller, Message, ShowingLayer, TimerHandle, UpdateMedia,
};
use snacks::mpris::{PlaybackStatus, Properties};

const TIMEOUT: u64 = 2000;

fn delta_playing() -> Properties {
    let mut d = Properties::default();
    d.playback_status = Some(PlaybackStatus::Playing);
    d
}

#[test]
fn open_on_activity_then_timeout_closes() {
    let mut c = Controller::new(TIMEOUT);
    assert!(c.window.is_none());

    let acts = c.handle(Message::OpenOrRefreshWindow, 0);
    let w = c.window.expect("overlay must be open");
    assert_eq!(
        acts,
        vec![
            Action::OpenWindow(w.id),
            Action::ArmTimer(TimerHandle { token: w.close_timer.token, deadline: TIMEOUT }),
        ]
    );

    let acts = c.handle(Message::TimerExpired(w.close_timer.token), TIMEOUT);
    assert!(c.window.is_none());
    assert_eq!(acts, vec![Action::CloseWindow(w.id)]);
}

#[test]
fn debounce_closes_a_timeout_after_the_last_event() {
    let mut c = Controller::new(TIMEOUT);

    // Events at t, t + 0.5 * timeout and t + 1.0 * timeout.
    let acts0 = c.handle(Message::OpenOrRefreshWindow, 0);
    let token0 = match acts0[1] {
        Action::ArmTimer(h) => h.token,
        _ => panic!("second action must arm the countdown"),
    };
    assert!(c.window.is_some());

    c.handle(Message::OpenOrRefreshWindow, TIMEOUT / 2);
    assert!(c.window.is_some());

    let acts2 = c.handle(Message::OpenOrRefreshWindow, TIMEOUT);
    assert!(c.window.is_some());
    let armed = match acts2[1] {
        Action::ArmTimer(h) => h,
        _ => panic!("second action must arm the countdown"),
    };
    // The countdown pending after the last event is due a full timeout
    // after it — at 2 * timeout, not at the first event's timeout.
    assert_eq!(armed.deadline, 2 * TIMEOUT);

    // A late expiry of the first countdown changes nothing: the overlay
    // stays open.
    let stale = c.handle(Message::TimerExpired(token0), TIMEOUT);
    assert!(stale.is_empty());
    assert!(c.window.is_some());

    // The last countdown's expiry closes it.
    let closing = c.handle(Message::TimerExpired(armed.token), 2 * TIMEOUT);
    assert!(c.window.is_none());
    assert_eq!(closing.len(), 1);
    assert!(matches!(closing[0], Action::CloseWindow(_)));
}

#[test]
fn refresh_cancels_previous_timer_first() {
    let mut c = Controller::new(TIMEOUT);
    c.handle(Message::OpenOrRefreshWindow, 0);
    let first = c.window.expect("open").close_timer;

    let acts = c.handle(Message::OpenOrRefreshWindow, 500);
    let second = c.window.expect("still open").close_timer;

    // Exactly one countdown is pending at a time: the refresh cancelled
    // the earlier one before arming its replacement.
    assert_eq!(
        acts,
        vec![Action::CancelTimer(first.token), Action::ArmTimer(second)]
    );
    assert_ne!(first.token, second.token);
    assert_eq!(second.deadline, 500 + TIMEOUT);
}

#[test]
fn dismiss_cancels_pending_close() {
    let mut c = Controller::new(TIMEOUT);
    c.handle(Message::OpenOrRefreshWindow, 0);
    let w = c.window.expect("open");

    let acts = c.handle(Message::Clicked, 100);
    assert!(c.window.is_none());
    assert_eq!(
        acts,
        vec![
            Action::CancelTimer(w.close_timer.token),
            Action::CloseWindow(w.id),
        ]
    );

    // The cancelled countdown's late expiry must not close anything again.
    let stale = c.handle(Message::TimerExpired(w.close_timer.token), TIMEOUT);
    assert!(stale.is_empty());
    assert!(c.window.is_none());
}

#[test]
fn dismiss_then_reopen_ignores_old_expiry() {
    let mut c = Controller::new(TIMEOUT);
    c.handle(Message::OpenOrRefreshWindow, 0);
    let old_token = c.window.expect("open").close_timer.token;
    c.handle(Message::Clicked, 100);

    c.handle(Message::OpenOrRefreshWindow, 200);
    let reopened = c.window.expect("reopened");

    // The stale expiry for the dismissed window does not close the new one.
    let stale = c.handle(Message::TimerExpired(old_token), TIMEOUT);
    assert!(stale.is_empty());
    assert_eq!(c.window, Some(reopened));
}

#[test]
fn update_media_opens_and_merges() {
    let mut c = Controller::new(TIMEOUT);
    let acts = c.handle(Message::UpdateMedia(UpdateMedia::Update(delta_playing())), 10);

    assert!(c.window.is_some());
    assert_eq!(c.showing_layer, ShowingLayer::Media);
    assert_eq!(c.media_status.playback_status, Some(PlaybackStatus::Playing));
    assert!(matches!(acts[0], Action::OpenWindow(_)));
    assert!(matches!(acts[1], Action::ArmTimer(_)));
}

#[test]
fn remove_event_clears_field_and_refreshes() {
    let mut c = Controller::new(TIMEOUT);
    c.handle(Message::UpdateMedia(UpdateMedia::Update(delta_playing())), 0);

    let acts = c.handle(
        Message::UpdateMedia(UpdateMedia::Remove(vec!["playback_status".to_owned()])),
        500,
    );

    assert_eq!(c.media_status.playback_status, None);
    assert!(c.window.is_some());
    assert!(matches!(acts[0], Action::CancelTimer(_)));
    assert!(matches!(acts[1], Action::ArmTimer(_)));
}

#[test]
fn replace_substitutes_whole_snapshot() {
    let mut c = Controller::new(TIMEOUT);
    let mut first = Properties::default();
    first.shuffle = Some(true);
    c.handle(Message::UpdateMedia(UpdateMedia::Update(first)), 0);

    c.handle(Message::UpdateMedia(UpdateMedia::Replace(delta_playing())), 100);

    // Replacement is wholesale: the shuffle flag the old snapshot carried
    // is gone.
    assert_eq!(c.media_status.shuffle, None);
    assert_eq!(c.media_status.playback_status, Some(PlaybackStatus::Playing));
}

#[test]
fn error_event_records_message_and_opens() {
    let mut c = Controller::new(TIMEOUT);
    let acts = c.handle(Message::Error("connection dropped".to_owned()), 0);

    assert_eq!(c.error_message, Some("connection dropped".to_owned()));
    assert!(c.window.is_some());
    assert!(matches!(acts[0], Action::OpenWindow(_)));
    // An error does not pretend to be media content.
    assert_eq!(c.showing_layer, ShowingLayer::NoLayer);
}

#[test]
fn clicked_while_closed_is_noop() {
    let mut c = Controller::new(TIMEOUT);
    let acts = c.handle(Message::Clicked, 0);
    assert!(acts.is_empty());
    assert!(c.window.is_none());
}

#[test]
fn timer_expired_while_closed_is_noop() {
    let mut c = Controller::new(TIMEOUT);
    let acts = c.handle(Message::TimerExpired(0), 0);
    assert!(acts.is_empty());
    assert!(c.window.is_none());
}
