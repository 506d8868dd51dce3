use gi_status::properties::{PlaybackStatus, PropertyName, MetadataName};
use gi_status::tracker::{
    is_player, list_candidates, transition, ChangeOutcome, FetchOutcome, Fetched, NotFound, Notice, OwnerAction,
    Ownership, PollOutcome, Poller, Tracker,
};
use gi_status::value::{Item, Value};

const A: &str = "org.mpris.MediaPlayer2.a";
const B: &str = "org.mpris.MediaPlayer2.b";

fn field(key: &str, value: Value) -> Item {
    Item { key: key.to_string(), value }
}

fn text(s: &str) -> Value {
    Value::Text(s.to_string())
}

fn bag(status: &str, position: i64) -> Vec<Item> {
    vec![
        field("PlaybackStatus", text(status)),
        field("Position", Value::I64(position)),
        field("Metadata", Value::Dict(vec![field("mpris:trackid", Value::Path("/track/1".to_string()))])),
    ]
}

fn add(tracker: &mut Tracker, name: &str, status: &str, handle: u64) {
    assert_eq!(tracker.owner_changed(name, Ownership::Owned), OwnerAction::Fetch { cancel: None });
    let outcome = tracker.fetch_completed(name, Some(Fetched { bag: bag(status, 0), handle }), 1);
    assert_eq!(outcome, FetchOutcome::Added { warnings: Vec::new(), replaced: None });
}

fn sorted(mut v: Vec<String>) -> Vec<String> {
    v.sort();
    v
}

#[test]
fn player_names_are_told_by_their_prefix() {
    assert!(is_player("org.mpris.MediaPlayer2.vlc"));
    assert!(is_player("org.mpris.MediaPlayer2"));
    assert!(!is_player("org.mpris.MediaPlayer"));
    assert!(!is_player("org.freedesktop.DBus"));
    assert!(!is_player(""));
    assert!(!is_player("x.org.mpris.MediaPlayer2.vlc"));
}

#[test]
fn candidates_are_the_player_names_in_order() {
    let names = vec![
        "org.freedesktop.DBus".to_string(),
        "org.mpris.MediaPlayer2.vlc".to_string(),
        ":1.42".to_string(),
        "org.mpris.MediaPlayer2.firefox.instance_1".to_string(),
        "org.mpris.MediaPlayer2.vlc".to_string(),
    ];
    assert_eq!(
        list_candidates(&names),
        vec![
            "org.mpris.MediaPlayer2.vlc".to_string(),
            "org.mpris.MediaPlayer2.firefox.instance_1".to_string(),
            "org.mpris.MediaPlayer2.vlc".to_string(),
        ]
    );
    assert!(list_candidates(&Vec::new()).is_empty());
}

#[test]
fn an_empty_new_owner_means_unowned() {
    assert_eq!(transition("", ":1.7"), Ownership::Owned);
    assert_eq!(transition(":1.7", ""), Ownership::Unowned);
    assert_eq!(transition(":1.7", ":1.8"), Ownership::Owned);
    assert_eq!(transition("", ""), Ownership::Unowned);
}

#[test]
fn a_playing_source_is_polled_and_a_gone_source_stays_gone() {
    let mut tracker = Tracker::new();
    add(&mut tracker, A, "Playing", 11);
    assert_eq!(tracker.get_snapshot(A).unwrap().position, Some(0));
    assert_eq!(tracker.poll_targets(), vec![A.to_string()]);
    assert_eq!(tracker.position_fetched(A, Some(&Value::I64(1_000_000)), 2), PollOutcome::Updated);
    let p = tracker.get_snapshot(A).unwrap();
    assert_eq!(p.position, Some(1_000_000));
    assert_eq!(p.playback_status, PlaybackStatus::Playing);
    assert_eq!(tracker.owner_changed(A, Ownership::Unowned), OwnerAction::Forget { cancel: Some(11) });
    assert!(tracker.list_active_sources().is_empty());
    let late = vec![field("Position", Value::I64(2_000_000))];
    assert_eq!(tracker.properties_changed(A, 11, &late, &Vec::new(), 3), ChangeOutcome::Stale);
    assert!(tracker.list_active_sources().is_empty());
    assert_eq!(tracker.get_snapshot(A), Err(NotFound));
    assert_eq!(tracker.position_fetched(A, Some(&Value::I64(3_000_000)), 4), PollOutcome::Stale);
    assert_eq!(tracker.get_snapshot(A), Err(NotFound));
}

#[test]
fn a_source_without_track_id_is_not_added() {
    let mut tracker = Tracker::new();
    assert_eq!(tracker.owner_changed(B, Ownership::Owned), OwnerAction::Fetch { cancel: None });
    let broken = vec![field("PlaybackStatus", text("Playing")), field("Metadata", Value::Dict(Vec::new()))];
    assert_eq!(
        tracker.fetch_completed(B, Some(Fetched { bag: broken, handle: 5 }), 1),
        FetchOutcome::Malformed { field: PropertyName::Metadata(MetadataName::MprisTrackid), cancel: 5 }
    );
    assert!(tracker.list_active_sources().is_empty());
    assert_eq!(tracker.get_snapshot(B), Err(NotFound));
    assert!(!tracker.is_pending(B));
    add(&mut tracker, B, "Paused", 6);
    assert_eq!(tracker.list_active_sources(), vec![B.to_string()]);
}

#[test]
fn owned_then_unowned_before_the_fetch_ends_leaves_the_source_absent() {
    let mut tracker = Tracker::new();
    assert_eq!(tracker.owner_changed(A, Ownership::Owned), OwnerAction::Fetch { cancel: None });
    assert!(tracker.is_pending(A));
    assert_eq!(tracker.owner_changed(A, Ownership::Unowned), OwnerAction::Forget { cancel: None });
    assert!(!tracker.is_pending(A));
    assert_eq!(
        tracker.fetch_completed(A, Some(Fetched { bag: bag("Playing", 0), handle: 9 }), 1),
        FetchOutcome::Stale { cancel: Some(9) }
    );
    assert!(tracker.list_active_sources().is_empty());
    assert_eq!(tracker.get_snapshot(A), Err(NotFound));
    assert_eq!(tracker.fetch_completed(A, None, 1), FetchOutcome::Stale { cancel: None });
}

#[test]
fn membership_follows_the_events_of_each_name() {
    let mut tracker = Tracker::new();
    add(&mut tracker, A, "Playing", 1);
    add(&mut tracker, B, "Paused", 2);
    assert_eq!(tracker.owner_changed(A, Ownership::Unowned), OwnerAction::Forget { cancel: Some(1) });
    assert_eq!(tracker.owner_changed(B, Ownership::Owned), OwnerAction::Fetch { cancel: Some(2) });
    assert!(tracker.list_active_sources().is_empty());
    assert_eq!(tracker.fetch_completed(B, None, 3), FetchOutcome::Failed);
    add(&mut tracker, A, "Stopped", 3);
    assert_eq!(tracker.list_active_sources(), vec![A.to_string()]);
    add(&mut tracker, B, "Playing", 4);
    assert_eq!(sorted(tracker.list_active_sources()), vec![A.to_string(), B.to_string()]);
    assert_eq!(tracker.owner_changed("org.example.Other", Ownership::Owned), OwnerAction::Ignore);
    assert_eq!(tracker.owner_changed("org.example.Other", Ownership::Unowned), OwnerAction::Ignore);
    assert!(!tracker.is_pending("org.example.Other"));
    assert_eq!(sorted(tracker.list_active_sources()), vec![A.to_string(), B.to_string()]);
}

#[test]
fn only_playing_sources_are_polled() {
    let mut tracker = Tracker::new();
    add(&mut tracker, A, "Paused", 1);
    add(&mut tracker, B, "Playing", 2);
    add(&mut tracker, "org.mpris.MediaPlayer2.c", "Stopped", 3);
    assert_eq!(tracker.poll_targets(), vec![B.to_string()]);
    assert_eq!(tracker.position_fetched(A, Some(&Value::I64(5)), 2), PollOutcome::Stale);
    assert_eq!(tracker.get_snapshot(A).unwrap().position, Some(0));
    let pause = vec![field("PlaybackStatus", text("Paused"))];
    assert_eq!(tracker.properties_changed(B, 2, &pause, &Vec::new(), 3), ChangeOutcome::Applied { warnings: Vec::new() });
    assert!(tracker.poll_targets().is_empty());
    assert_eq!(tracker.position_fetched(B, Some(&Value::I64(5)), 4), PollOutcome::Stale);
    assert_eq!(tracker.get_snapshot(B).unwrap().position, Some(0));
}

#[test]
fn a_failed_or_unreadable_poll_writes_nothing() {
    let mut tracker = Tracker::new();
    add(&mut tracker, A, "Playing", 1);
    assert_eq!(tracker.position_fetched(A, None, 2), PollOutcome::Failed);
    assert_eq!(tracker.position_fetched(A, Some(&text("soon")), 2), PollOutcome::Unreadable);
    assert_eq!(tracker.position_fetched(A, Some(&Value::U64(u64::MAX)), 2), PollOutcome::Unreadable);
    assert_eq!(tracker.get_snapshot(A).unwrap().position, Some(0));
    assert_eq!(tracker.position_fetched(A, Some(&Value::U64(77)), 2), PollOutcome::Updated);
    assert_eq!(tracker.get_snapshot(A).unwrap().position, Some(77));
}

#[test]
fn a_notification_that_cannot_be_read_is_dropped_and_the_entry_stays() {
    let mut tracker = Tracker::new();
    add(&mut tracker, A, "Playing", 1);
    let broken = vec![field("PlaybackStatus", Value::I32(3)), field("Position", Value::I64(9))];
    assert_eq!(
        tracker.properties_changed(A, 1, &broken, &Vec::new(), 2),
        ChangeOutcome::Dropped { field: PropertyName::PlaybackStatus }
    );
    let p = tracker.get_snapshot(A).unwrap();
    assert_eq!(p.playback_status, PlaybackStatus::Playing);
    assert_eq!(p.position, Some(0));
}

#[test]
fn a_notification_merges_and_invalidates() {
    let mut tracker = Tracker::new();
    add(&mut tracker, A, "Playing", 1);
    let change = vec![field("Shuffle", Value::Bool(true)), field("Volume", Value::I32(1))];
    assert_eq!(
        tracker.properties_changed(A, 1, &change, &vec!["Position".to_string(), "Unknown".to_string()], 2),
        ChangeOutcome::Applied { warnings: vec![PropertyName::Volume] }
    );
    let p = tracker.get_snapshot(A).unwrap();
    assert_eq!(p.shuffle, Some(true));
    assert_eq!(p.position, None);
    assert_eq!(p.volume, None);
    assert_eq!(p.playback_status, PlaybackStatus::Playing);
}

#[test]
fn an_ended_subscription_removes_the_entry() {
    let mut tracker = Tracker::new();
    add(&mut tracker, A, "Playing", 21);
    assert_eq!(tracker.subscription_ended(A, 20), None);
    assert_eq!(tracker.list_active_sources(), vec![A.to_string()]);
    assert_eq!(tracker.subscription_ended(A, 21), Some(21));
    assert_eq!(tracker.subscription_ended(A, 21), None);
    assert!(tracker.list_active_sources().is_empty());
}

#[test]
fn a_new_owner_replaces_the_old_entry() {
    let mut tracker = Tracker::new();
    add(&mut tracker, A, "Playing", 1);
    assert_eq!(tracker.owner_changed(A, Ownership::Owned), OwnerAction::Fetch { cancel: Some(1) });
    assert_eq!(tracker.get_snapshot(A), Err(NotFound));
    assert_eq!(
        tracker.fetch_completed(A, Some(Fetched { bag: bag("Paused", 4), handle: 2 }), 5),
        FetchOutcome::Added { warnings: Vec::new(), replaced: None }
    );
    assert_eq!(tracker.get_snapshot(A).unwrap().playback_status, PlaybackStatus::Paused);
    assert_eq!(tracker.owner_changed(A, Ownership::Unowned), OwnerAction::Forget { cancel: Some(2) });
}

#[test]
fn the_display_is_told_of_updates_and_removals() {
    assert_eq!(OwnerAction::Ignore.notice(), Notice::Nothing);
    assert_eq!(OwnerAction::Forget { cancel: Some(1) }.notice(), Notice::Removed);
    assert_eq!(OwnerAction::Forget { cancel: None }.notice(), Notice::Nothing);
    assert_eq!(OwnerAction::Fetch { cancel: Some(1) }.notice(), Notice::Removed);
    assert_eq!(OwnerAction::Fetch { cancel: None }.notice(), Notice::Nothing);
    assert_eq!(FetchOutcome::Added { warnings: Vec::new(), replaced: None }.notice(), Notice::Updated);
    assert_eq!(FetchOutcome::Failed.notice(), Notice::Nothing);
    assert_eq!(FetchOutcome::Stale { cancel: Some(3) }.notice(), Notice::Nothing);
    assert_eq!(ChangeOutcome::Applied { warnings: Vec::new() }.notice(), Notice::Updated);
    assert_eq!(ChangeOutcome::Stale.notice(), Notice::Nothing);
    assert_eq!(PollOutcome::Updated.notice(), Notice::Updated);
    assert_eq!(PollOutcome::Stale.notice(), Notice::Nothing);
    assert_eq!(PollOutcome::Failed.notice(), Notice::Nothing);
    assert_eq!(OwnerAction::Ignore.to_cancel(), None);
    assert_eq!(OwnerAction::Forget { cancel: Some(1) }.to_cancel(), Some(1));
    assert_eq!(OwnerAction::Fetch { cancel: Some(2) }.to_cancel(), Some(2));
    assert_eq!(FetchOutcome::Added { warnings: Vec::new(), replaced: Some(3) }.to_cancel(), Some(3));
    assert_eq!(FetchOutcome::Malformed { field: PropertyName::PlaybackStatus, cancel: 4 }.to_cancel(), Some(4));
    assert_eq!(FetchOutcome::Stale { cancel: Some(5) }.to_cancel(), Some(5));
    assert_eq!(FetchOutcome::Failed.to_cancel(), None);
}

#[test]
fn a_tick_during_a_poll_is_skipped() {
    let mut tracker = Tracker::new();
    add(&mut tracker, A, "Playing", 1);
    let mut poller = Poller::new();
    assert_eq!(poller.tick(&tracker), Some(vec![A.to_string()]));
    assert_eq!(poller.tick(&tracker), None);
    assert_eq!(poller.tick(&tracker), None);
    poller.finished();
    assert_eq!(poller.tick(&tracker), Some(vec![A.to_string()]));
}

#[test]
fn shutdown_hands_back_every_handle() {
    let mut tracker = Tracker::new();
    add(&mut tracker, A, "Playing", 10);
    add(&mut tracker, B, "Paused", 20);
    assert_eq!(tracker.owner_changed("org.mpris.MediaPlayer2.c", Ownership::Owned), OwnerAction::Fetch { cancel: None });
    let mut handles = tracker.shutdown();
    handles.sort();
    assert_eq!(handles, vec![10, 20]);
    assert!(tracker.list_active_sources().is_empty());
    assert!(!tracker.is_pending("org.mpris.MediaPlayer2.c"));
    assert!(tracker.shutdown().is_empty());
}

#[test]
fn a_cancelled_subscription_changes_nothing() {
    let mut tracker = Tracker::new();
    add(&mut tracker, A, "Playing", 1);
    assert_eq!(tracker.owner_changed(A, Ownership::Owned), OwnerAction::Fetch { cancel: Some(1) });
    assert_eq!(
        tracker.fetch_completed(A, Some(Fetched { bag: bag("Playing", 7), handle: 2 }), 5),
        FetchOutcome::Added { warnings: Vec::new(), replaced: None }
    );
    assert!(tracker.holds(A, 2));
    assert!(!tracker.holds(A, 1));
    assert!(!tracker.holds(B, 2));
    let old = vec![field("Position", Value::I64(99)), field("PlaybackStatus", text("Stopped"))];
    assert_eq!(tracker.properties_changed(A, 1, &old, &Vec::new(), 6), ChangeOutcome::Stale);
    assert_eq!(tracker.subscription_ended(A, 1), None);
    let p = tracker.get_snapshot(A).unwrap();
    assert_eq!(p.position, Some(7));
    assert_eq!(p.playback_status, PlaybackStatus::Playing);
    assert_eq!(tracker.properties_changed(A, 2, &old, &Vec::new(), 6), ChangeOutcome::Applied { warnings: Vec::new() });
    assert_eq!(tracker.get_snapshot(A).unwrap().position, Some(99));
}
