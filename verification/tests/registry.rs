use gi_status::properties::{Metadata, PlaybackStatus, Properties};
use gi_status::registry::Registry;

fn snapshot(status: PlaybackStatus, trackid: &str) -> Properties {
    Properties {
        playback_status: status,
        metadata: Metadata::with_trackid(trackid.to_string()),
        loop_status: None,
        rate: None,
        shuffle: None,
        volume: None,
        position: None,
        minimum_rate: None,
        maximum_rate: None,
        can_go_next: None,
        can_go_previous: None,
        can_play: None,
        can_pause: None,
        can_seek: None,
        can_control: None,
    }
}

#[test]
fn remove_twice_leaves_no_entry() {
    let mut registry = Registry::new();
    let replaced = registry.upsert_full("org.mpris.MediaPlayer2.a".to_string(), snapshot(PlaybackStatus::Playing, "/t/1"), 7, 100);
    assert_eq!(replaced, None);
    assert!(registry.contains("org.mpris.MediaPlayer2.a"));
    assert_eq!(registry.remove("org.mpris.MediaPlayer2.a"), Some(7));
    assert!(!registry.contains("org.mpris.MediaPlayer2.a"));
    assert_eq!(registry.remove("org.mpris.MediaPlayer2.a"), None);
    assert!(!registry.contains("org.mpris.MediaPlayer2.a"));
    assert!(registry.list().is_empty());
}

fn change(position: Option<i64>, shuffle: Option<bool>) -> gi_status::properties::Delta {
    gi_status::properties::Delta {
        playback_status: None,
        metadata: None,
        loop_status: None,
        rate: None,
        shuffle,
        volume: None,
        position,
        minimum_rate: None,
        maximum_rate: None,
        can_go_next: None,
        can_go_previous: None,
        can_play: None,
        can_pause: None,
        can_seek: None,
        can_control: None,
    }
}

#[test]
fn delta_for_an_unknown_identity_makes_no_entry() {
    let mut registry = Registry::new();
    assert!(!registry.apply_delta("org.mpris.MediaPlayer2.a", change(Some(5), None), &Vec::new(), 1));
    assert!(!registry.contains("org.mpris.MediaPlayer2.a"));
    assert!(registry.get("org.mpris.MediaPlayer2.a").is_none());
    assert!(registry.list().is_empty());
}

#[test]
fn upsert_replaces_the_whole_entry() {
    let mut registry = Registry::new();
    let mut first = snapshot(PlaybackStatus::Playing, "/t/1");
    first.shuffle = Some(true);
    assert_eq!(registry.upsert_full("a".to_string(), first, 1, 10), None);
    assert_eq!(registry.upsert_full("a".to_string(), snapshot(PlaybackStatus::Paused, "/t/2"), 2, 20), Some(1));
    let e = registry.entry("a").unwrap();
    assert_eq!(e.snapshot, snapshot(PlaybackStatus::Paused, "/t/2"));
    assert_eq!(e.handle, 2);
    assert_eq!(e.updated_at, 20);
    assert_eq!(registry.list(), vec!["a".to_string()]);
}

#[test]
fn delta_merges_and_then_invalidates() {
    let mut registry = Registry::new();
    let mut start = snapshot(PlaybackStatus::Playing, "/t/1");
    start.position = Some(1);
    start.can_seek = Some(true);
    registry.upsert_full("a".to_string(), start, 4, 10);
    registry.upsert_full("b".to_string(), snapshot(PlaybackStatus::Stopped, "/t/9"), 5, 10);
    let keys = vec!["CanSeek".to_string(), "Shuffle".to_string(), "PlaybackStatus".to_string(), "Metadata".to_string()];
    assert!(registry.apply_delta("a", change(Some(9), Some(true)), &keys, 30));
    let e = registry.entry("a").unwrap();
    let mut expected = snapshot(PlaybackStatus::Playing, "/t/1");
    expected.position = Some(9);
    assert_eq!(e.snapshot, expected);
    assert_eq!(e.handle, 4);
    assert_eq!(e.updated_at, 30);
    let other = registry.entry("b").unwrap();
    assert_eq!(other.snapshot, snapshot(PlaybackStatus::Stopped, "/t/9"));
    assert_eq!(other.updated_at, 10);
    let mut all = registry.list();
    all.sort();
    assert_eq!(all, vec!["a".to_string(), "b".to_string()]);
}

#[test]
fn snapshot_apply_and_invalidate() {
    let mut p = snapshot(PlaybackStatus::Playing, "/t/1");
    p.volume = Some(gi_status::properties::Double { bits: 1 });
    let mut d = change(None, Some(false));
    d.playback_status = Some(PlaybackStatus::Stopped);
    d.metadata = Some(Metadata::with_trackid("/t/2".to_string()));
    p.apply(d);
    assert_eq!(p.playback_status, PlaybackStatus::Stopped);
    assert_eq!(p.metadata.trackid(), "/t/2");
    assert_eq!(p.shuffle, Some(false));
    assert_eq!(p.volume, Some(gi_status::properties::Double { bits: 1 }));
    p.invalidate(&vec!["Volume".to_string()]);
    assert_eq!(p.volume, None);
    assert_eq!(p.shuffle, Some(false));
    assert_eq!(gi_status::properties::Delta::position(12), change(Some(12), None));
}
