use gi_status::decode::{
    decode_delta, decode_full, decode_metadata, is_mistyped, is_readable, reported, value_at, value_fits, warnings_in,
    DecodeError, Kind,
};
use gi_status::properties::{Double, LoopStatus, MetadataName, PlaybackStatus, PropertyName};
use gi_status::value::{get_i32, get_i64, get_text, get_texts, lookup, read_i64, Item, Value};

fn field(key: &str, value: Value) -> Item {
    Item { key: key.to_string(), value }
}

fn text(s: &str) -> Value {
    Value::Text(s.to_string())
}

fn metadata_fields() -> Vec<Item> {
    vec![
        field("mpris:trackid", Value::Path("/org/mpris/MediaPlayer2/track/1".to_string())),
        field("mpris:length", Value::I64(215_000_000)),
        field("mpris:artUrl", text("file:///tmp/cover.png")),
        field("xesam:album", text("Album")),
        field("xesam:artist", Value::TextList(vec!["One".to_string(), "Two".to_string()])),
        field("xesam:title", text("Title")),
        field("xesam:trackNumber", Value::I32(4)),
        field("xesam:userRating", Value::Double(Double { bits: 0x3fe0_0000_0000_0000 })),
    ]
}

fn full_bag() -> Vec<Item> {
    vec![
        field("PlaybackStatus", text("Playing")),
        field("LoopStatus", text("Playlist")),
        field("Rate", Value::Double(Double { bits: 0x3ff0_0000_0000_0000 })),
        field("Shuffle", Value::Bool(true)),
        field("Metadata", Value::Dict(metadata_fields())),
        field("Volume", Value::Double(Double { bits: 0x3fe0_0000_0000_0000 })),
        field("Position", Value::I64(1_500_000)),
        field("MinimumRate", Value::Double(Double { bits: 0x3fd0_0000_0000_0000 })),
        field("MaximumRate", Value::Double(Double { bits: 0x4000_0000_0000_0000 })),
        field("CanGoNext", Value::Bool(true)),
        field("CanGoPrevious", Value::Bool(false)),
        field("CanPlay", Value::Bool(true)),
        field("CanPause", Value::Bool(true)),
        field("CanSeek", Value::Bool(false)),
        field("CanControl", Value::Bool(true)),
    ]
}

fn replace(bag: &mut Vec<Item>, key: &str, value: Value) {
    for f in bag.iter_mut() {
        if f.key == key {
            f.value = value;
            return;
        }
    }
    panic!("no such key");
}

#[test]
fn full_bag_gives_every_property() {
    let d = decode_full(&full_bag()).unwrap();
    let p = d.properties;
    assert!(d.warnings.is_empty());
    assert_eq!(p.playback_status, PlaybackStatus::Playing);
    assert_eq!(p.loop_status, Some(LoopStatus::Playlist));
    assert_eq!(p.rate, Some(Double { bits: 0x3ff0_0000_0000_0000 }));
    assert_eq!(p.shuffle, Some(true));
    assert_eq!(p.volume, Some(Double { bits: 0x3fe0_0000_0000_0000 }));
    assert_eq!(p.position, Some(1_500_000));
    assert_eq!(p.minimum_rate, Some(Double { bits: 0x3fd0_0000_0000_0000 }));
    assert_eq!(p.maximum_rate, Some(Double { bits: 0x4000_0000_0000_0000 }));
    assert_eq!(p.can_go_next, Some(true));
    assert_eq!(p.can_go_previous, Some(false));
    assert_eq!(p.can_play, Some(true));
    assert_eq!(p.can_pause, Some(true));
    assert_eq!(p.can_seek, Some(false));
    assert_eq!(p.can_control, Some(true));
    let m = p.metadata;
    assert_eq!(m.trackid(), "/org/mpris/MediaPlayer2/track/1");
    assert_eq!(m.length(), Some(215_000_000));
    assert_eq!(m.art_url(), Some(&"file:///tmp/cover.png".to_string()));
    assert_eq!(m.album(), Some(&"Album".to_string()));
    assert_eq!(m.artist(), Some(&vec!["One".to_string(), "Two".to_string()]));
    assert_eq!(m.title(), Some(&"Title".to_string()));
    assert_eq!(m.track_number(), Some(4));
    assert_eq!(m.user_rating(), Some(Double { bits: 0x3fe0_0000_0000_0000 }));
    assert_eq!(m.album_artist(), None);
    assert_eq!(m.as_text(), None);
    assert_eq!(m.audio_bpm(), None);
    assert_eq!(m.auto_rating(), None);
    assert_eq!(m.comment(), None);
    assert_eq!(m.composer(), None);
    assert_eq!(m.content_created(), None);
    assert_eq!(m.disc_number(), None);
    assert_eq!(m.first_used(), None);
    assert_eq!(m.genre(), None);
    assert_eq!(m.last_used(), None);
    assert_eq!(m.lyricist(), None);
    assert_eq!(m.url(), None);
    assert_eq!(m.use_count(), None);
}

#[test]
fn one_mistyped_optional_property_is_absent_and_the_rest_stays() {
    let mut bag = full_bag();
    replace(&mut bag, "Shuffle", text("yes"));
    let d = decode_full(&bag).unwrap();
    assert_eq!(d.warnings, vec![PropertyName::Shuffle]);
    assert_eq!(d.properties.shuffle, None);
    let clean = decode_full(&full_bag()).unwrap().properties;
    let mut expected = clean.clone();
    expected.shuffle = None;
    assert_eq!(d.properties, expected);
}

#[test]
fn one_mistyped_metadata_entry_is_absent_and_the_rest_stays() {
    let mut meta = metadata_fields();
    replace(&mut meta, "xesam:trackNumber", text("four"));
    let mut bag = full_bag();
    replace(&mut bag, "Metadata", Value::Dict(meta));
    let d = decode_full(&bag).unwrap();
    assert_eq!(d.warnings, vec![PropertyName::Metadata(MetadataName::XesamTrackNumber)]);
    assert_eq!(d.properties.metadata.track_number(), None);
    assert_eq!(d.properties.metadata.title(), Some(&"Title".to_string()));
    assert_eq!(d.properties.position, Some(1_500_000));
}

#[test]
fn unsigned_length_is_read_as_signed() {
    let mut meta = metadata_fields();
    replace(&mut meta, "mpris:length", Value::U64(215_000_000));
    let m = decode_metadata(&meta).unwrap();
    assert_eq!(m.length(), Some(215_000_000));
}

#[test]
fn unsigned_length_that_does_not_fit_is_absent() {
    let mut meta = metadata_fields();
    replace(&mut meta, "mpris:length", Value::U64(u64::MAX));
    let mut bag = full_bag();
    replace(&mut bag, "Metadata", Value::Dict(meta));
    let d = decode_full(&bag).unwrap();
    assert_eq!(d.properties.metadata.length(), None);
    assert_eq!(d.warnings, vec![PropertyName::Metadata(MetadataName::MprisLength)]);
}

#[test]
fn integers_are_read_where_they_fit() {
    assert_eq!(read_i64(&Value::U8(200)), Some(200));
    assert_eq!(read_i64(&Value::I16(-3)), Some(-3));
    assert_eq!(read_i64(&Value::U16(65_535)), Some(65_535));
    assert_eq!(read_i64(&Value::I32(-7)), Some(-7));
    assert_eq!(read_i64(&Value::U32(4_000_000_000)), Some(4_000_000_000));
    assert_eq!(read_i64(&Value::I64(i64::MIN)), Some(i64::MIN));
    assert_eq!(read_i64(&Value::U64(i64::MAX as u64)), Some(i64::MAX));
    assert_eq!(read_i64(&Value::U64(i64::MAX as u64 + 1)), None);
    assert_eq!(read_i64(&Value::Bool(true)), None);
    assert_eq!(read_i64(&text("1")), None);
    let bag = vec![
        field("a", Value::I64(2_147_483_647)),
        field("b", Value::I64(2_147_483_648)),
        field("c", Value::I64(-2_147_483_648)),
        field("d", Value::I64(-2_147_483_649)),
        field("e", Value::U32(7)),
    ];
    assert_eq!(get_i32(&bag, "a"), Some(i32::MAX));
    assert_eq!(get_i32(&bag, "b"), None);
    assert_eq!(get_i32(&bag, "c"), Some(i32::MIN));
    assert_eq!(get_i32(&bag, "d"), None);
    assert_eq!(get_i32(&bag, "e"), Some(7));
    assert_eq!(get_i32(&bag, "f"), None);
    assert_eq!(get_i64(&bag, "b"), Some(2_147_483_648));
}

#[test]
fn lookup_takes_the_first_entry_of_a_key() {
    let bag = vec![field("k", Value::I32(1)), field("k", Value::I32(2)), field("other", text("x"))];
    assert_eq!(lookup(&bag, "k"), Some(&Value::I32(1)));
    assert_eq!(lookup(&bag, "missing"), None);
    assert_eq!(get_text(&bag, "other"), Some("x".to_string()));
    assert_eq!(get_text(&bag, "k"), None);
    assert_eq!(get_texts(&bag, "other"), None);
}

#[test]
fn unknown_keys_are_ignored() {
    let mut bag = full_bag();
    bag.push(field("Fullscreen", Value::Bool(true)));
    bag.push(field("Nonsense", Value::Other));
    let d = decode_full(&bag).unwrap();
    assert!(d.warnings.is_empty());
    assert_eq!(d.properties, decode_full(&full_bag()).unwrap().properties);
}

#[test]
fn missing_track_id_fails_the_fetch() {
    let mut meta = metadata_fields();
    meta.remove(0);
    let mut bag = full_bag();
    replace(&mut bag, "Metadata", Value::Dict(meta));
    assert_eq!(
        decode_full(&bag),
        Err(DecodeError::MalformedSource { field: PropertyName::Metadata(MetadataName::MprisTrackid) })
    );
}

#[test]
fn missing_metadata_fails_the_fetch() {
    let mut bag = full_bag();
    bag.remove(4);
    assert_eq!(
        decode_full(&bag),
        Err(DecodeError::MalformedSource { field: PropertyName::Metadata(MetadataName::MprisTrackid) })
    );
}

#[test]
fn missing_or_unknown_status_fails_the_fetch() {
    let mut bag = full_bag();
    bag.remove(0);
    assert_eq!(decode_full(&bag), Err(DecodeError::MalformedSource { field: PropertyName::PlaybackStatus }));
    let mut bag = full_bag();
    replace(&mut bag, "PlaybackStatus", text("Rewinding"));
    assert_eq!(decode_full(&bag), Err(DecodeError::MalformedSource { field: PropertyName::PlaybackStatus }));
    let mut bag = full_bag();
    replace(&mut bag, "PlaybackStatus", Value::I32(1));
    assert_eq!(decode_full(&bag), Err(DecodeError::MalformedSource { field: PropertyName::PlaybackStatus }));
}

#[test]
fn delta_holds_what_the_bag_holds() {
    let bag = vec![field("PlaybackStatus", text("Paused")), field("Volume", Value::Bool(true))];
    let d = decode_delta(&bag).unwrap();
    assert_eq!(d.delta.playback_status, Some(PlaybackStatus::Paused));
    assert_eq!(d.delta.metadata, None);
    assert_eq!(d.delta.volume, None);
    assert_eq!(d.delta.position, None);
    assert_eq!(d.warnings, vec![PropertyName::Volume]);
}

#[test]
fn empty_delta_changes_nothing() {
    let d = decode_delta(&Vec::new()).unwrap();
    assert_eq!(d.delta.playback_status, None);
    assert_eq!(d.delta.metadata, None);
    assert_eq!(d.delta.shuffle, None);
    assert!(d.warnings.is_empty());
}

#[test]
fn delta_with_unreadable_status_or_metadata_is_refused() {
    let bag = vec![field("PlaybackStatus", Value::Bool(false))];
    assert_eq!(decode_delta(&bag), Err(DecodeError::MalformedSource { field: PropertyName::PlaybackStatus }));
    let bag = vec![field("Metadata", Value::Dict(vec![field("xesam:title", text("T"))]))];
    assert_eq!(
        decode_delta(&bag),
        Err(DecodeError::MalformedSource { field: PropertyName::Metadata(MetadataName::MprisTrackid) })
    );
    let bag = vec![field("Metadata", text("no dictionary"))];
    assert_eq!(
        decode_delta(&bag),
        Err(DecodeError::MalformedSource { field: PropertyName::Metadata(MetadataName::MprisTrackid) })
    );
}

#[test]
fn warnings_name_each_mistyped_optional_property_once() {
    let mut meta = metadata_fields();
    replace(&mut meta, "xesam:artist", text("One"));
    replace(&mut meta, "xesam:userRating", Value::I32(1));
    let mut bag = full_bag();
    replace(&mut bag, "Metadata", Value::Dict(meta));
    replace(&mut bag, "Position", text("late"));
    replace(&mut bag, "LoopStatus", text("Forever"));
    bag.push(field("Position", Value::Other));
    let w = warnings_in(&bag);
    assert_eq!(
        w,
        vec![
            PropertyName::LoopStatus,
            PropertyName::Position,
            PropertyName::Metadata(MetadataName::XesamArtist),
            PropertyName::Metadata(MetadataName::XesamUserRating),
        ]
    );
    assert!(is_mistyped(&bag, PropertyName::Position));
    assert!(!is_mistyped(&bag, PropertyName::Volume));
    assert!(!is_mistyped(&bag, PropertyName::Metadata(MetadataName::XesamGenre)));
}

#[test]
fn names_have_their_keys_kinds_and_places() {
    assert_eq!(PropertyName::PlaybackStatus.key(), "PlaybackStatus");
    assert_eq!(PropertyName::CanGoPrevious.key(), "CanGoPrevious");
    assert_eq!(PropertyName::Metadata(MetadataName::XesamAudioBpm).key(), "xesam:audioBPM");
    assert_eq!(PropertyName::Metadata(MetadataName::MprisArtUrl).key(), "mpris:artUrl");
    assert_eq!(PropertyName::Position.kind(), Kind::Int64);
    assert_eq!(PropertyName::Metadata(MetadataName::XesamGenre).kind(), Kind::Texts);
    assert_eq!(PropertyName::at_rank(0), Some(PropertyName::PlaybackStatus));
    assert_eq!(PropertyName::at_rank(35), Some(PropertyName::Metadata(MetadataName::XesamUserRating)));
    assert_eq!(PropertyName::at_rank(36), None);
    assert!(value_fits(&Value::Path("/a".to_string()), Kind::Text));
    assert!(!value_fits(&text("x"), Kind::Texts));
    assert!(value_fits(&text("Track"), Kind::Loop));
    assert!(!value_fits(&text("track"), Kind::Loop));
    assert!(value_fits(&Value::U64(2_147_483_647), Kind::Int32));
    assert!(!value_fits(&Value::U64(2_147_483_648), Kind::Int32));
}

#[test]
fn a_watch_reports_the_readable_watched_properties() {
    let mut bag = full_bag();
    replace(&mut bag, "Volume", text("loud"));
    bag.remove(1);
    let watched = vec![
        PropertyName::Metadata(MetadataName::XesamTitle),
        PropertyName::Volume,
        PropertyName::LoopStatus,
        PropertyName::Position,
        PropertyName::Metadata(MetadataName::XesamGenre),
        PropertyName::PlaybackStatus,
    ];
    assert_eq!(
        reported(&bag, &watched),
        vec![PropertyName::Metadata(MetadataName::XesamTitle), PropertyName::Position, PropertyName::PlaybackStatus]
    );
    assert!(reported(&bag, &Vec::new()).is_empty());
    assert!(reported(&Vec::new(), &watched).is_empty());
    assert!(is_readable(&bag, PropertyName::Position));
    assert!(!is_readable(&bag, PropertyName::Volume));
    assert!(!is_readable(&bag, PropertyName::LoopStatus));
    assert_eq!(value_at(&bag, PropertyName::Volume), Some(&text("loud")));
    assert_eq!(value_at(&bag, PropertyName::LoopStatus), None);
    assert_eq!(value_at(&bag, PropertyName::Metadata(MetadataName::XesamTitle)), Some(&text("Title")));
    assert_eq!(value_at(&bag, PropertyName::Metadata(MetadataName::XesamGenre)), None);
    assert_eq!(value_at(&Vec::new(), PropertyName::Metadata(MetadataName::XesamTitle)), None);
}
