//! The typed picture of one player: playback state, track metadata and the
//! names by which single properties are addressed.
use vstd::prelude::*;
use crate::text::{opt_text, opt_texts, texts, same_text, contains_text};

verus! {

/// An IEEE 754 double, carried by its bit pattern so that it can be stored,
/// compared and handed on without any arithmetic on it.
#[derive(Clone, Copy, Debug, PartialEq, Eq, Structural)]
pub struct Double {
    pub bits: u64,
}

/// Whether a player is playing, paused or stopped.
#[derive(Clone, Copy, Debug, PartialEq, Eq, Structural)]
pub enum PlaybackStatus {
    Playing,
    Paused,
    Stopped,
}

/// What a player repeats when a track ends.
#[derive(Clone, Copy, Debug, PartialEq, Eq, Structural)]
pub enum LoopStatus {
    Off,
    Track,
    Playlist,
}

/// The names of the entries of a track's metadata.
#[derive(Clone, Copy, Debug, PartialEq, Eq, Hash, Structural)]
pub enum MetadataName {
    MprisTrackid,
    MprisLength,
    MprisArtUrl,
    XesamAlbum,
    XesamAlbumArtist,
    XesamArtist,
    XesamAsText,
    XesamAudioBpm,
    XesamAutoRating,
    XesamComment,
    XesamComposer,
    XesamContentCreated,
    XesamDiscNumber,
    XesamFirstUsed,
    XesamGenre,
    XesamLastUsed,
    XesamLyricist,
    XesamTitle,
    XesamTrackNumber,
    XesamUrl,
    XesamUseCount,
    XesamUserRating,
}

/// The names of a player's properties.
#[derive(Clone, Copy, Debug, PartialEq, Eq, Hash, Structural)]
pub enum PropertyName {
    PlaybackStatus,
    LoopStatus,
    Rate,
    Shuffle,
    Metadata(MetadataName),
    Volume,
    Position,
    MinimumRate,
    MaximumRate,
    CanGoNext,
    CanGoPrevious,
    CanPlay,
    CanPause,
    CanSeek,
    CanControl,
}

/// What is known of one track. Only the track id is always there; every
/// other entry may be absent on its own.
#[derive(Clone, Debug, PartialEq, Eq)]
pub struct Metadata {
    pub mpris_trackid: String,
    pub mpris_length: Option<i64>,
    pub mpris_art_url: Option<String>,
    pub xesam_album: Option<String>,
    pub xesam_album_artist: Option<Vec<String>>,
    pub xesam_artist: Option<Vec<String>>,
    pub xesam_as_text: Option<String>,
    pub xesam_audio_bpm: Option<i32>,
    pub xesam_auto_rating: Option<Double>,
    pub xesam_comment: Option<Vec<String>>,
    pub xesam_composer: Option<Vec<String>>,
    pub xesam_content_created: Option<String>,
    pub xesam_disc_number: Option<i32>,
    pub xesam_first_used: Option<String>,
    pub xesam_genre: Option<Vec<String>>,
    pub xesam_last_used: Option<String>,
    pub xesam_lyricist: Option<Vec<String>>,
    pub xesam_title: Option<String>,
    pub xesam_track_number: Option<i32>,
    pub xesam_url: Option<String>,
    pub xesam_use_count: Option<i32>,
    pub xesam_user_rating: Option<Double>,
}

/// The mathematical value of a [`Metadata`].
pub ghost struct MetadataView {
    pub mpris_trackid: Seq<char>,
    pub mpris_length: Option<i64>,
    pub mpris_art_url: Option<Seq<char>>,
    pub xesam_album: Option<Seq<char>>,
    pub xesam_album_artist: Option<Seq<Seq<char>>>,
    pub xesam_artist: Option<Seq<Seq<char>>>,
    pub xesam_as_text: Option<Seq<char>>,
    pub xesam_audio_bpm: Option<i32>,
    pub xesam_auto_rating: Option<Double>,
    pub xesam_comment: Option<Seq<Seq<char>>>,
    pub xesam_composer: Option<Seq<Seq<char>>>,
    pub xesam_content_created: Option<Seq<char>>,
    pub xesam_disc_number: Option<i32>,
    pub xesam_first_used: Option<Seq<char>>,
    pub xesam_genre: Option<Seq<Seq<char>>>,
    pub xesam_last_used: Option<Seq<char>>,
    pub xesam_lyricist: Option<Seq<Seq<char>>>,
    pub xesam_title: Option<Seq<char>>,
    pub xesam_track_number: Option<i32>,
    pub xesam_url: Option<Seq<char>>,
    pub xesam_use_count: Option<i32>,
    pub xesam_user_rating: Option<Double>,
}

impl View for Metadata {
    type V = MetadataView;

    open spec fn view(&self) -> MetadataView {
        MetadataView {
            mpris_trackid: self.mpris_trackid@,
            mpris_length: self.mpris_length,
            mpris_art_url: opt_text(self.mpris_art_url),
            xesam_album: opt_text(self.xesam_album),
            xesam_album_artist: opt_texts(self.xesam_album_artist),
            xesam_artist: opt_texts(self.xesam_artist),
            xesam_as_text: opt_text(self.xesam_as_text),
            xesam_audio_bpm: self.xesam_audio_bpm,
            xesam_auto_rating: self.xesam_auto_rating,
            xesam_comment: opt_texts(self.xesam_comment),
            xesam_composer: opt_texts(self.xesam_composer),
            xesam_content_created: opt_text(self.xesam_content_created),
            xesam_disc_number: self.xesam_disc_number,
            xesam_first_used: opt_text(self.xesam_first_used),
            xesam_genre: opt_texts(self.xesam_genre),
            xesam_last_used: opt_text(self.xesam_last_used),
            xesam_lyricist: opt_texts(self.xesam_lyricist),
            xesam_title: opt_text(self.xesam_title),
            xesam_track_number: self.xesam_track_number,
            xesam_url: opt_text(self.xesam_url),
            xesam_use_count: self.xesam_use_count,
            xesam_user_rating: self.xesam_user_rating,
        }
    }
}


/// The snapshot of one player. The playback status and the metadata, with its
/// track id, are always there; every other property may be absent.
#[derive(Clone, Debug, PartialEq, Eq)]
pub struct Properties {
    pub playback_status: PlaybackStatus,
    pub metadata: Metadata,
    pub loop_status: Option<LoopStatus>,
    pub rate: Option<Double>,
    pub shuffle: Option<bool>,
    pub volume: Option<Double>,
    pub position: Option<i64>,
    pub minimum_rate: Option<Double>,
    pub maximum_rate: Option<Double>,
    pub can_go_next: Option<bool>,
    pub can_go_previous: Option<bool>,
    pub can_play: Option<bool>,
    pub can_pause: Option<bool>,
    pub can_seek: Option<bool>,
    pub can_control: Option<bool>,
}

/// The mathematical value of a [`Properties`].
pub ghost struct PropertiesView {
    pub playback_status: PlaybackStatus,
    pub metadata: MetadataView,
    pub loop_status: Option<LoopStatus>,
    pub rate: Option<Double>,
    pub shuffle: Option<bool>,
    pub volume: Option<Double>,
    pub position: Option<i64>,
    pub minimum_rate: Option<Double>,
    pub maximum_rate: Option<Double>,
    pub can_go_next: Option<bool>,
    pub can_go_previous: Option<bool>,
    pub can_play: Option<bool>,
    pub can_pause: Option<bool>,
    pub can_seek: Option<bool>,
    pub can_control: Option<bool>,
}

impl View for Properties {
    type V = PropertiesView;

    open spec fn view(&self) -> PropertiesView {
        PropertiesView {
            playback_status: self.playback_status,
            metadata: self.metadata@,
            loop_status: self.loop_status,
            rate: self.rate,
            shuffle: self.shuffle,
            volume: self.volume,
            position: self.position,
            minimum_rate: self.minimum_rate,
            maximum_rate: self.maximum_rate,
            can_go_next: self.can_go_next,
            can_go_previous: self.can_go_previous,
            can_play: self.can_play,
            can_pause: self.can_pause,
            can_seek: self.can_seek,
            can_control: self.can_control,
        }
    }
}

/// A partial update of a snapshot: each property that is there replaces the
/// snapshot's, each that is absent leaves it as it was.
#[derive(Clone, Debug, PartialEq, Eq)]
pub struct Delta {
    pub playback_status: Option<PlaybackStatus>,
    pub metadata: Option<Metadata>,
    pub loop_status: Option<LoopStatus>,
    pub rate: Option<Double>,
    pub shuffle: Option<bool>,
    pub volume: Option<Double>,
    pub position: Option<i64>,
    pub minimum_rate: Option<Double>,
    pub maximum_rate: Option<Double>,
    pub can_go_next: Option<bool>,
    pub can_go_previous: Option<bool>,
    pub can_play: Option<bool>,
    pub can_pause: Option<bool>,
    pub can_seek: Option<bool>,
    pub can_control: Option<bool>,
}

/// The mathematical value of a [`Delta`].
pub ghost struct DeltaView {
    pub playback_status: Option<PlaybackStatus>,
    pub metadata: Option<MetadataView>,
    pub loop_status: Option<LoopStatus>,
    pub rate: Option<Double>,
    pub shuffle: Option<bool>,
    pub volume: Option<Double>,
    pub position: Option<i64>,
    pub minimum_rate: Option<Double>,
    pub maximum_rate: Option<Double>,
    pub can_go_next: Option<bool>,
    pub can_go_previous: Option<bool>,
    pub can_play: Option<bool>,
    pub can_pause: Option<bool>,
    pub can_seek: Option<bool>,
    pub can_control: Option<bool>,
}

impl View for Delta {
    type V = DeltaView;

    open spec fn view(&self) -> DeltaView {
        DeltaView {
            playback_status: self.playback_status,
            metadata: match self.metadata {
                Some(m) => Some(m@),
                None => None,
            },
            loop_status: self.loop_status,
            rate: self.rate,
            shuffle: self.shuffle,
            volume: self.volume,
            position: self.position,
            minimum_rate: self.minimum_rate,
            maximum_rate: self.maximum_rate,
            can_go_next: self.can_go_next,
            can_go_previous: self.can_go_previous,
            can_play: self.can_play,
            can_pause: self.can_pause,
            can_seek: self.can_seek,
            can_control: self.can_control,
        }
    }
}

/// `new` where it is there, else `old`.
pub open spec fn replaced<T>(old: Option<T>, new: Option<T>) -> Option<T> {
    if new.is_some() {
        new
    } else {
        old
    }
}

/// The snapshot `p` with the properties of `d` merged into it.
pub open spec fn merged(p: PropertiesView, d: DeltaView) -> PropertiesView {
    PropertiesView {
        playback_status: match d.playback_status {
            Some(s) => s,
            None => p.playback_status,
        },
        metadata: match d.metadata {
            Some(m) => m,
            None => p.metadata,
        },
        loop_status: replaced(p.loop_status, d.loop_status),
        rate: replaced(p.rate, d.rate),
        shuffle: replaced(p.shuffle, d.shuffle),
        volume: replaced(p.volume, d.volume),
        position: replaced(p.position, d.position),
        minimum_rate: replaced(p.minimum_rate, d.minimum_rate),
        maximum_rate: replaced(p.maximum_rate, d.maximum_rate),
        can_go_next: replaced(p.can_go_next, d.can_go_next),
        can_go_previous: replaced(p.can_go_previous, d.can_go_previous),
        can_play: replaced(p.can_play, d.can_play),
        can_pause: replaced(p.can_pause, d.can_pause),
        can_seek: replaced(p.can_seek, d.can_seek),
        can_control: replaced(p.can_control, d.can_control),
    }
}

/// `value`, unless `key` is among `keys`: then absent.
pub open spec fn unless_listed<T>(value: Option<T>, keys: Seq<Seq<char>>, key: Seq<char>) -> Option<T> {
    if keys.contains(key) {
        None
    } else {
        value
    }
}

/// The snapshot `p` with every optional property whose name is among `keys`
/// made absent. The playback status and the metadata cannot be absent and
/// stay as they are; names of no property are passed over.
pub open spec fn invalidated(p: PropertiesView, keys: Seq<Seq<char>>) -> PropertiesView {
    PropertiesView {
        playback_status: p.playback_status,
        metadata: p.metadata,
        loop_status: unless_listed(p.loop_status, keys, "LoopStatus"@),
        rate: unless_listed(p.rate, keys, "Rate"@),
        shuffle: unless_listed(p.shuffle, keys, "Shuffle"@),
        volume: unless_listed(p.volume, keys, "Volume"@),
        position: unless_listed(p.position, keys, "Position"@),
        minimum_rate: unless_listed(p.minimum_rate, keys, "MinimumRate"@),
        maximum_rate: unless_listed(p.maximum_rate, keys, "MaximumRate"@),
        can_go_next: unless_listed(p.can_go_next, keys, "CanGoNext"@),
        can_go_previous: unless_listed(p.can_go_previous, keys, "CanGoPrevious"@),
        can_play: unless_listed(p.can_play, keys, "CanPlay"@),
        can_pause: unless_listed(p.can_pause, keys, "CanPause"@),
        can_seek: unless_listed(p.can_seek, keys, "CanSeek"@),
        can_control: unless_listed(p.can_control, keys, "CanControl"@),
    }
}

/// The delta that changes nothing but the position.
pub open spec fn position_only(position: i64) -> DeltaView {
    DeltaView {
        playback_status: None,
        metadata: None,
        loop_status: None,
        rate: None,
        shuffle: None,
        volume: None,
        position: Some(position),
        minimum_rate: None,
        maximum_rate: None,
        can_go_next: None,
        can_go_previous: None,
        can_play: None,
        can_pause: None,
        can_seek: None,
        can_control: None,
    }
}

impl PlaybackStatus {
    /// The status that `name` spells, if it spells one.
    pub fn from_name(name: &str) -> (r: Option<PlaybackStatus>)
        ensures
            r == crate::value::status_named(name@),
    {
        if same_text(name, "Playing") {
            Some(PlaybackStatus::Playing)
        } else if same_text(name, "Paused") {
            Some(PlaybackStatus::Paused)
        } else if same_text(name, "Stopped") {
            Some(PlaybackStatus::Stopped)
        } else {
            None
        }
    }

    /// Reads a status from its name. Any other text is refused with the
    /// message `Invalid playback status`.
    pub fn try_from(value: String) -> (r: Result<PlaybackStatus, &'static str>)
        ensures
            match r {
                Ok(s) => crate::value::status_named(value@) == Some(s),
                Err(e) => crate::value::status_named(value@).is_none() && e@
                    == "Invalid playback status"@,
            },
    {
        match PlaybackStatus::from_name(value.as_str()) {
            Some(s) => Ok(s),
            None => Err("Invalid playback status"),
        }
    }

    /// The name of the status as players spell it.
    pub fn as_str(&self) -> (r: &'static str)
        ensures
            crate::value::status_named(r@) == Some(*self),
    {
        proof {
            lemma_status_names_differ();
        }
        match self {
            PlaybackStatus::Playing => "Playing",
            PlaybackStatus::Paused => "Paused",
            PlaybackStatus::Stopped => "Stopped",
        }
    }
}

/// The three names of a playback status are three different texts.
pub proof fn lemma_status_names_differ()
    ensures
        "Playing"@ != "Paused"@,
        "Playing"@ != "Stopped"@,
        "Paused"@ != "Stopped"@,
{
    reveal_strlit("Playing");
    reveal_strlit("Paused");
    reveal_strlit("Stopped");
    assert("Playing"@.len() == 7);
    assert("Paused"@.len() == 6);
    assert("Stopped"@[0] == 'S');
    assert("Playing"@[0] == 'P');
    assert("Paused"@[0] == 'P');
}

impl LoopStatus {
    /// The name of the loop status as players spell it.
    pub fn as_str(&self) -> (r: &'static str)
        ensures
            crate::value::loop_named(r@) == Some(*self),
    {
        proof {
            reveal_strlit("None");
            reveal_strlit("Track");
            reveal_strlit("Playlist");
            assert("None"@.len() == 4);
            assert("Track"@.len() == 5);
            assert("Playlist"@.len() == 8);
        }
        match self {
            LoopStatus::Off => "None",
            LoopStatus::Track => "Track",
            LoopStatus::Playlist => "Playlist",
        }
    }

    /// The loop status that `name` spells, if it spells one.
    pub fn from_name(name: &str) -> (r: Option<LoopStatus>)
        ensures
            r == crate::value::loop_named(name@),
    {
        if same_text(name, "None") {
            Some(LoopStatus::Off)
        } else if same_text(name, "Track") {
            Some(LoopStatus::Track)
        } else if same_text(name, "Playlist") {
            Some(LoopStatus::Playlist)
        } else {
            None
        }
    }
}

/// `new` where it is there, else `old`.
fn pick<T>(old: Option<T>, new: Option<T>) -> (r: Option<T>)
    ensures
        r == replaced(old, new),
{
    if new.is_some() {
        new
    } else {
        old
    }
}

/// `value`, or nothing where `listed` holds.
fn keep_unless<T>(value: Option<T>, listed: bool) -> (r: Option<T>)
    ensures
        r == if listed {
            None
        } else {
            value
        },
{
    if listed {
        None
    } else {
        value
    }
}

impl Properties {
    /// Merges `delta` into the snapshot.
    pub fn apply(&mut self, delta: Delta)
        ensures
            final(self)@ == merged(old(self)@, delta@),
    {
        if let Some(s) = delta.playback_status {
            self.playback_status = s;
        }
        if let Some(m) = delta.metadata {
            self.metadata = m;
        }
        self.loop_status = pick(self.loop_status, delta.loop_status);
        self.rate = pick(self.rate, delta.rate);
        self.shuffle = pick(self.shuffle, delta.shuffle);
        self.volume = pick(self.volume, delta.volume);
        self.position = pick(self.position, delta.position);
        self.minimum_rate = pick(self.minimum_rate, delta.minimum_rate);
        self.maximum_rate = pick(self.maximum_rate, delta.maximum_rate);
        self.can_go_next = pick(self.can_go_next, delta.can_go_next);
        self.can_go_previous = pick(self.can_go_previous, delta.can_go_previous);
        self.can_play = pick(self.can_play, delta.can_play);
        self.can_pause = pick(self.can_pause, delta.can_pause);
        self.can_seek = pick(self.can_seek, delta.can_seek);
        self.can_control = pick(self.can_control, delta.can_control);
    }

    /// Makes absent every optional property that `keys` names.
    pub fn invalidate(&mut self, keys: &Vec<String>)
        ensures
            final(self)@ == invalidated(old(self)@, texts(*keys)),
    {
        self.loop_status = keep_unless(self.loop_status, contains_text(keys, "LoopStatus"));
        self.rate = keep_unless(self.rate, contains_text(keys, "Rate"));
        self.shuffle = keep_unless(self.shuffle, contains_text(keys, "Shuffle"));
        self.volume = keep_unless(self.volume, contains_text(keys, "Volume"));
        self.position = keep_unless(self.position, contains_text(keys, "Position"));
        self.minimum_rate = keep_unless(self.minimum_rate, contains_text(keys, "MinimumRate"));
        self.maximum_rate = keep_unless(self.maximum_rate, contains_text(keys, "MaximumRate"));
        self.can_go_next = keep_unless(self.can_go_next, contains_text(keys, "CanGoNext"));
        self.can_go_previous = keep_unless(self.can_go_previous, contains_text(keys, "CanGoPrevious"));
        self.can_play = keep_unless(self.can_play, contains_text(keys, "CanPlay"));
        self.can_pause = keep_unless(self.can_pause, contains_text(keys, "CanPause"));
        self.can_seek = keep_unless(self.can_seek, contains_text(keys, "CanSeek"));
        self.can_control = keep_unless(self.can_control, contains_text(keys, "CanControl"));
    }
}

impl Delta {
    /// The delta that changes nothing but the position.
    pub fn position(position: i64) -> (r: Delta)
        ensures
            r@ == position_only(position),
    {
        Delta {
            playback_status: None,
            metadata: None,
            loop_status: None,
            rate: None,
            shuffle: None,
            volume: None,
            position: Some(position),
            minimum_rate: None,
            maximum_rate: None,
            can_go_next: None,
            can_go_previous: None,
            can_play: None,
            can_pause: None,
            can_seek: None,
            can_control: None,
        }
    }
}

impl Metadata {
    /// The metadata of a track of which only the id is known.
    pub fn with_trackid(trackid: String) -> (r: Metadata)
        ensures
            r@ == bare_metadata(trackid@),
    {
        Metadata {
            mpris_trackid: trackid,
            mpris_length: None,
            mpris_art_url: None,
            xesam_album: None,
            xesam_album_artist: None,
            xesam_artist: None,
            xesam_as_text: None,
            xesam_audio_bpm: None,
            xesam_auto_rating: None,
            xesam_comment: None,
            xesam_composer: None,
            xesam_content_created: None,
            xesam_disc_number: None,
            xesam_first_used: None,
            xesam_genre: None,
            xesam_last_used: None,
            xesam_lyricist: None,
            xesam_title: None,
            xesam_track_number: None,
            xesam_url: None,
            xesam_use_count: None,
            xesam_user_rating: None,
        }
    }

    /// The id of the track, unique among the tracks of its player. Always
    /// there.
    pub fn trackid(&self) -> (r: &String)
        ensures
            r@ == self@.mpris_trackid,
    {
        &self.mpris_trackid
    }

    /// The duration of the track in microseconds, where it is known.
    pub fn length(&self) -> (r: Option<i64>)
        ensures
            r == self@.mpris_length,
    {
        self.mpris_length
    }

    /// Where an image of the track or album is found.
    pub fn art_url(&self) -> (r: Option<&String>)
        ensures
            match r {
                Some(s) => self@.mpris_art_url == Some(s@),
                None => self@.mpris_art_url.is_none(),
            },
    {
        self.mpris_art_url.as_ref()
    }

    /// The album's name.
    pub fn album(&self) -> (r: Option<&String>)
        ensures
            match r {
                Some(s) => self@.xesam_album == Some(s@),
                None => self@.xesam_album.is_none(),
            },
    {
        self.xesam_album.as_ref()
    }

    /// The album's artists.
    pub fn album_artist(&self) -> (r: Option<&Vec<String>>)
        ensures
            match r {
                Some(l) => self@.xesam_album_artist == Some(texts(*l)),
                None => self@.xesam_album_artist.is_none(),
            },
    {
        self.xesam_album_artist.as_ref()
    }

    /// The track's artists.
    pub fn artist(&self) -> (r: Option<&Vec<String>>)
        ensures
            match r {
                Some(l) => self@.xesam_artist == Some(texts(*l)),
                None => self@.xesam_artist.is_none(),
            },
    {
        self.xesam_artist.as_ref()
    }

    /// The track's lyrics.
    pub fn as_text(&self) -> (r: Option<&String>)
        ensures
            match r {
                Some(s) => self@.xesam_as_text == Some(s@),
                None => self@.xesam_as_text.is_none(),
            },
    {
        self.xesam_as_text.as_ref()
    }

    /// The speed of the music in beats per minute.
    pub fn audio_bpm(&self) -> (r: Option<i32>)
        ensures
            r == self@.xesam_audio_bpm,
    {
        self.xesam_audio_bpm
    }

    /// A rating worked out by the player, between 0.0 and 1.0.
    pub fn auto_rating(&self) -> (r: Option<Double>)
        ensures
            r == self@.xesam_auto_rating,
    {
        self.xesam_auto_rating
    }

    /// Free comments.
    pub fn comment(&self) -> (r: Option<&Vec<String>>)
        ensures
            match r {
                Some(l) => self@.xesam_comment == Some(texts(*l)),
                None => self@.xesam_comment.is_none(),
            },
    {
        self.xesam_comment.as_ref()
    }

    /// The track's composers.
    pub fn composer(&self) -> (r: Option<&Vec<String>>)
        ensures
            match r {
                Some(l) => self@.xesam_composer == Some(texts(*l)),
                None => self@.xesam_composer.is_none(),
            },
    {
        self.xesam_composer.as_ref()
    }

    /// When the track was made.
    pub fn content_created(&self) -> (r: Option<&String>)
        ensures
            match r {
                Some(s) => self@.xesam_content_created == Some(s@),
                None => self@.xesam_content_created.is_none(),
            },
    {
        self.xesam_content_created.as_ref()
    }

    /// The number of the disc in its album.
    pub fn disc_number(&self) -> (r: Option<i32>)
        ensures
            r == self@.xesam_disc_number,
    {
        self.xesam_disc_number
    }

    /// When the track was first played.
    pub fn first_used(&self) -> (r: Option<&String>)
        ensures
            match r {
                Some(s) => self@.xesam_first_used == Some(s@),
                None => self@.xesam_first_used.is_none(),
            },
    {
        self.xesam_first_used.as_ref()
    }

    /// The track's genres.
    pub fn genre(&self) -> (r: Option<&Vec<String>>)
        ensures
            match r {
                Some(l) => self@.xesam_genre == Some(texts(*l)),
                None => self@.xesam_genre.is_none(),
            },
    {
        self.xesam_genre.as_ref()
    }

    /// When the track was last played.
    pub fn last_used(&self) -> (r: Option<&String>)
        ensures
            match r {
                Some(s) => self@.xesam_last_used == Some(s@),
                None => self@.xesam_last_used.is_none(),
            },
    {
        self.xesam_last_used.as_ref()
    }

    /// The track's lyricists.
    pub fn lyricist(&self) -> (r: Option<&Vec<String>>)
        ensures
            match r {
                Some(l) => self@.xesam_lyricist == Some(texts(*l)),
                None => self@.xesam_lyricist.is_none(),
            },
    {
        self.xesam_lyricist.as_ref()
    }

    /// The track's title.
    pub fn title(&self) -> (r: Option<&String>)
        ensures
            match r {
                Some(s) => self@.xesam_title == Some(s@),
                None => self@.xesam_title.is_none(),
            },
    {
        self.xesam_title.as_ref()
    }

    /// The number of the track on its disc.
    pub fn track_number(&self) -> (r: Option<i32>)
        ensures
            r == self@.xesam_track_number,
    {
        self.xesam_track_number
    }

    /// Where the media file is found.
    pub fn url(&self) -> (r: Option<&String>)
        ensures
            match r {
                Some(s) => self@.xesam_url == Some(s@),
                None => self@.xesam_url.is_none(),
            },
    {
        self.xesam_url.as_ref()
    }

    /// How many times the track has been played.
    pub fn use_count(&self) -> (r: Option<i32>)
        ensures
            r == self@.xesam_use_count,
    {
        self.xesam_use_count
    }

    /// A rating given by the user, between 0.0 and 1.0.
    pub fn user_rating(&self) -> (r: Option<Double>)
        ensures
            r == self@.xesam_user_rating,
    {
        self.xesam_user_rating
    }

}

/// The value of a metadata of which only the track id is known.
pub open spec fn bare_metadata(trackid: Seq<char>) -> MetadataView {
    MetadataView {
        mpris_trackid: trackid,
        mpris_length: None,
        mpris_art_url: None,
        xesam_album: None,
        xesam_album_artist: None,
        xesam_artist: None,
        xesam_as_text: None,
        xesam_audio_bpm: None,
        xesam_auto_rating: None,
        xesam_comment: None,
        xesam_composer: None,
        xesam_content_created: None,
        xesam_disc_number: None,
        xesam_first_used: None,
        xesam_genre: None,
        xesam_last_used: None,
        xesam_lyricist: None,
        xesam_title: None,
        xesam_track_number: None,
        xesam_url: None,
        xesam_use_count: None,
        xesam_user_rating: None,
    }
}

/// Collects the properties that a watch of a media player is to report.
pub struct MediaPlayerBuilder {
    watched_properties: Vec<PropertyName>,
}

impl View for MediaPlayerBuilder {
    type V = Set<PropertyName>;

    closed spec fn view(&self) -> Set<PropertyName> {
        self.watched_properties@.to_set()
    }
}

impl Default for MediaPlayerBuilder {
    fn default() -> (r: MediaPlayerBuilder)
        ensures
            r@ == Set::<PropertyName>::empty(),
    {
        MediaPlayerBuilder::new()
    }
}

impl MediaPlayerBuilder {
    #[verifier::type_invariant]
    spec fn unique(&self) -> bool {
        self.watched_properties@.no_duplicates()
    }

    /// A builder that watches nothing yet.
    pub fn new() -> (r: MediaPlayerBuilder)
        ensures
            r@ == Set::<PropertyName>::empty(),
    {
        let r = MediaPlayerBuilder { watched_properties: Vec::new() };
        assert(r.watched_properties@.to_set() =~= Set::<PropertyName>::empty());
        r
    }

    /// Whether `property` is watched.
    pub fn watches(&self, property: PropertyName) -> (r: bool)
        ensures
            r == self@.contains(property),
    {
        let mut i: usize = 0;
        while i < self.watched_properties.len()
            invariant
                i <= self.watched_properties@.len(),
                forall|j: int| 0 <= j < i ==> self.watched_properties@[j] != property,
            decreases self.watched_properties@.len() - i,
        {
            if self.watched_properties[i] == property {
                return true;
            }
            i += 1;
        }
        false
    }

    /// Adds `property` to the watched properties.
    pub fn watch(self, property: PropertyName) -> (r: MediaPlayerBuilder)
        ensures
            r@ == self@.insert(property),
    {
        proof {
            use_type_invariant(&self);
        }
        if !self.watches(property) {
            let ghost before = self.watched_properties@;
            let mut list = self.watched_properties;
            list.push(property);
            proof {
                assert(list@ =~= before.push(property));
                before.lemma_push_to_set_commute(property);
            }
            MediaPlayerBuilder { watched_properties: list }
        } else {
            assert(self@ =~= self@.insert(property));
            self
        }
    }

    /// Adds each of `properties` to the watched properties.
    pub fn watch_multiple(self, properties: Vec<PropertyName>) -> (r: MediaPlayerBuilder)
        ensures
            r@ == self@.union(properties@.to_set()),
    {
        let ghost start = self@;
        let mut builder = self;
        let mut i: usize = 0;
        assert(properties@.take(0).to_set() =~= Set::<PropertyName>::empty());
        assert(builder@ =~= start.union(properties@.take(0).to_set()));
        while i < properties.len()
            invariant
                i <= properties@.len(),
                builder@ == start.union(properties@.take(i as int).to_set()),
            decreases properties@.len() - i,
        {
            let ghost before = properties@.take(i as int);
            let ghost after = properties@.take(i + 1);
            builder = builder.watch(properties[i]);
            proof {
                assert(after =~= before.push(properties@[i as int]));
                before.lemma_push_to_set_commute(properties@[i as int]);
                assert(builder@ =~= start.union(after.to_set()));
            }
            i += 1;
        }
        assert(properties@.take(properties@.len() as int) =~= properties@);
        builder
    }

    /// Ends the collecting: the watched properties, each once, in the order
    /// in which they were first added. A watch of nothing cannot be built.
    pub fn build(self) -> (r: Vec<PropertyName>)
        requires
            self@ != Set::<PropertyName>::empty(),
        ensures
            r@.no_duplicates(),
            r@.to_set() == self@,
            r@.len() > 0,
    {
        proof {
            use_type_invariant(&self);
            if self.watched_properties@.len() == 0 {
                assert(self.watched_properties@.to_set() =~= Set::<PropertyName>::empty());
            }
        }
        self.watched_properties
    }

    /// Whether nothing is watched.
    pub fn is_empty(&self) -> (r: bool)
        ensures
            r == (self@ == Set::<PropertyName>::empty()),
    {
        let r = self.watched_properties.len() == 0;
        proof {
            if !r {
                assert(self.watched_properties@.contains(self.watched_properties@[0]));
                assert(self@.contains(self.watched_properties@[0]));
            } else {
                assert(self@ =~= Set::<PropertyName>::empty());
            }
        }
        r
    }

    /// The watched properties, each once, in the order in which they were
    /// first added.
    pub fn watched(&self) -> (r: Vec<PropertyName>)
        ensures
            r@.no_duplicates(),
            r@.to_set() == self@,
    {
        proof {
            use_type_invariant(self);
        }
        self.watched_properties.clone()
    }
}

} // verus!
