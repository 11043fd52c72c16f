use snacks::mpris::{PlaybackStatus, Properties};
use snacks::update::Update;

fn sample() -> Properties {
    let mut s = Properties::default();
    s.playback_status = Some(PlaybackStatus::Playing);
    s.shuffle = Some(true);
    s.volume = Some(77);
    s
}

#[test]
fn remove_clears_named_field_only() {
    let mut s = sample();
    s.remove(&["playback_status".to_owned()]);

    assert_eq!(s.playback_status, None);
    assert_eq!(s.shuffle, Some(true));
    assert_eq!(s.volume, Some(77));
}

#[test]
fn remove_ignores_unknown_names() {
    let mut s = sample();
    // Neither the wire-cased spelling nor an invented name touches anything.
    s.remove(&["PlaybackStatus".to_owned(), "bogus".to_owned(), "".to_owned()]);

    assert_eq!(s.playback_status, Some(PlaybackStatus::Playing));
    assert_eq!(s.shuffle, Some(true));
    assert_eq!(s.volume, Some(77));
}

#[test]
fn remove_several_names_clears_each() {
    let mut s = sample();
    s.remove(&["shuffle".to_owned(), "volume".to_owned()]);

    assert_eq!(s.playback_status, Some(PlaybackStatus::Playing));
    assert_eq!(s.shuffle, None);
    assert_eq!(s.volume, None);
}

#[test]
fn remove_empty_list_is_noop() {
    let mut s = sample();
    let names: Vec<String> = Vec::new();
    s.remove(&names);

    assert_eq!(s.playback_status, Some(PlaybackStatus::Playing));
    assert_eq!(s.shuffle, Some(true));
    assert_eq!(s.volume, Some(77));
}

#[test]
fn remove_already_absent_field_stays_absent() {
    let mut s = sample();
    s.remove(&["metadata".to_owned()]);

    assert_eq!(s.metadata, None);
    assert_eq!(s.playback_status, Some(PlaybackStatus::Playing));
}
