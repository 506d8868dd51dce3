//! The property decoder: from a bag of dynamically typed values to a typed
//! snapshot or delta. A property of the wrong type is read as absent and
//! named in a warning; only the playback status and the track id are needed
//! for a snapshot to be made at all.
use vstd::prelude::*;
use crate::properties::{Delta, DeltaView, Metadata, MetadataName, MetadataView, Properties, PropertiesView, PropertyName};
use crate::value::{
    Item, Value, bool_of, held, dict_of, double_of, find, get_bool, get_dict, get_double, get_i32, get_i64, get_loop,
    get_status, get_text, get_texts, int32_of, int64_of, loop_of, lookup, status_of, text_of, texts_of,
};

verus! {

/// The type that a property is expected to have.
#[derive(Clone, Copy, Debug, PartialEq, Eq, Structural)]
pub enum Kind {
    Status,
    Loop,
    Bool,
    Int32,
    Int64,
    Double,
    Text,
    Texts,
}

/// Whether `v` can be read as a value of `kind`.
pub open spec fn fits(v: Value, kind: Kind) -> bool {
    match kind {
        Kind::Status => status_of(Some(v)).is_some(),
        Kind::Loop => loop_of(Some(v)).is_some(),
        Kind::Bool => bool_of(Some(v)).is_some(),
        Kind::Int32 => int32_of(Some(v)).is_some(),
        Kind::Int64 => int64_of(Some(v)).is_some(),
        Kind::Double => double_of(Some(v)).is_some(),
        Kind::Text => text_of(Some(v)).is_some(),
        Kind::Texts => texts_of(Some(v)).is_some(),
    }
}

/// How many property names there are.
pub const NAME_COUNT: u8 = 36;

impl PropertyName {
    /// The key under which the property stands in its bag.
    pub open spec fn key_of(self) -> Seq<char> {
        match self {
            PropertyName::PlaybackStatus => "PlaybackStatus"@,
            PropertyName::LoopStatus => "LoopStatus"@,
            PropertyName::Rate => "Rate"@,
            PropertyName::Shuffle => "Shuffle"@,
            PropertyName::Volume => "Volume"@,
            PropertyName::Position => "Position"@,
            PropertyName::MinimumRate => "MinimumRate"@,
            PropertyName::MaximumRate => "MaximumRate"@,
            PropertyName::CanGoNext => "CanGoNext"@,
            PropertyName::CanGoPrevious => "CanGoPrevious"@,
            PropertyName::CanPlay => "CanPlay"@,
            PropertyName::CanPause => "CanPause"@,
            PropertyName::CanSeek => "CanSeek"@,
            PropertyName::CanControl => "CanControl"@,
            PropertyName::Metadata(MetadataName::MprisTrackid) => "mpris:trackid"@,
            PropertyName::Metadata(MetadataName::MprisLength) => "mpris:length"@,
            PropertyName::Metadata(MetadataName::MprisArtUrl) => "mpris:artUrl"@,
            PropertyName::Metadata(MetadataName::XesamAlbum) => "xesam:album"@,
            PropertyName::Metadata(MetadataName::XesamAlbumArtist) => "xesam:albumArtist"@,
            PropertyName::Metadata(MetadataName::XesamArtist) => "xesam:artist"@,
            PropertyName::Metadata(MetadataName::XesamAsText) => "xesam:asText"@,
            PropertyName::Metadata(MetadataName::XesamAudioBpm) => "xesam:audioBPM"@,
            PropertyName::Metadata(MetadataName::XesamAutoRating) => "xesam:autoRating"@,
            PropertyName::Metadata(MetadataName::XesamComment) => "xesam:comment"@,
            PropertyName::Metadata(MetadataName::XesamComposer) => "xesam:composer"@,
            PropertyName::Metadata(MetadataName::XesamContentCreated) => "xesam:contentCreated"@,
            PropertyName::Metadata(MetadataName::XesamDiscNumber) => "xesam:discNumber"@,
            PropertyName::Metadata(MetadataName::XesamFirstUsed) => "xesam:firstUsed"@,
            PropertyName::Metadata(MetadataName::XesamGenre) => "xesam:genre"@,
            PropertyName::Metadata(MetadataName::XesamLastUsed) => "xesam:lastUsed"@,
            PropertyName::Metadata(MetadataName::XesamLyricist) => "xesam:lyricist"@,
            PropertyName::Metadata(MetadataName::XesamTitle) => "xesam:title"@,
            PropertyName::Metadata(MetadataName::XesamTrackNumber) => "xesam:trackNumber"@,
            PropertyName::Metadata(MetadataName::XesamUrl) => "xesam:url"@,
            PropertyName::Metadata(MetadataName::XesamUseCount) => "xesam:useCount"@,
            PropertyName::Metadata(MetadataName::XesamUserRating) => "xesam:userRating"@,
        }
    }

    /// The type that the property is expected to have.
    pub open spec fn kind_of(self) -> Kind {
        match self {
            PropertyName::PlaybackStatus => Kind::Status,
            PropertyName::LoopStatus => Kind::Loop,
            PropertyName::Rate => Kind::Double,
            PropertyName::Shuffle => Kind::Bool,
            PropertyName::Volume => Kind::Double,
            PropertyName::Position => Kind::Int64,
            PropertyName::MinimumRate => Kind::Double,
            PropertyName::MaximumRate => Kind::Double,
            PropertyName::CanGoNext => Kind::Bool,
            PropertyName::CanGoPrevious => Kind::Bool,
            PropertyName::CanPlay => Kind::Bool,
            PropertyName::CanPause => Kind::Bool,
            PropertyName::CanSeek => Kind::Bool,
            PropertyName::CanControl => Kind::Bool,
            PropertyName::Metadata(MetadataName::MprisTrackid) => Kind::Text,
            PropertyName::Metadata(MetadataName::MprisLength) => Kind::Int64,
            PropertyName::Metadata(MetadataName::MprisArtUrl) => Kind::Text,
            PropertyName::Metadata(MetadataName::XesamAlbum) => Kind::Text,
            PropertyName::Metadata(MetadataName::XesamAlbumArtist) => Kind::Texts,
            PropertyName::Metadata(MetadataName::XesamArtist) => Kind::Texts,
            PropertyName::Metadata(MetadataName::XesamAsText) => Kind::Text,
            PropertyName::Metadata(MetadataName::XesamAudioBpm) => Kind::Int32,
            PropertyName::Metadata(MetadataName::XesamAutoRating) => Kind::Double,
            PropertyName::Metadata(MetadataName::XesamComment) => Kind::Texts,
            PropertyName::Metadata(MetadataName::XesamComposer) => Kind::Texts,
            PropertyName::Metadata(MetadataName::XesamContentCreated) => Kind::Text,
            PropertyName::Metadata(MetadataName::XesamDiscNumber) => Kind::Int32,
            PropertyName::Metadata(MetadataName::XesamFirstUsed) => Kind::Text,
            PropertyName::Metadata(MetadataName::XesamGenre) => Kind::Texts,
            PropertyName::Metadata(MetadataName::XesamLastUsed) => Kind::Text,
            PropertyName::Metadata(MetadataName::XesamLyricist) => Kind::Texts,
            PropertyName::Metadata(MetadataName::XesamTitle) => Kind::Text,
            PropertyName::Metadata(MetadataName::XesamTrackNumber) => Kind::Int32,
            PropertyName::Metadata(MetadataName::XesamUrl) => Kind::Text,
            PropertyName::Metadata(MetadataName::XesamUseCount) => Kind::Int32,
            PropertyName::Metadata(MetadataName::XesamUserRating) => Kind::Double,
        }
    }

    /// The place of the name in the fixed order of all names.
    pub open spec fn rank_of(self) -> int {
        match self {
            PropertyName::PlaybackStatus => 0,
            PropertyName::LoopStatus => 1,
            PropertyName::Rate => 2,
            PropertyName::Shuffle => 3,
            PropertyName::Volume => 4,
            PropertyName::Position => 5,
            PropertyName::MinimumRate => 6,
            PropertyName::MaximumRate => 7,
            PropertyName::CanGoNext => 8,
            PropertyName::CanGoPrevious => 9,
            PropertyName::CanPlay => 10,
            PropertyName::CanPause => 11,
            PropertyName::CanSeek => 12,
            PropertyName::CanControl => 13,
            PropertyName::Metadata(MetadataName::MprisTrackid) => 14,
            PropertyName::Metadata(MetadataName::MprisLength) => 15,
            PropertyName::Metadata(MetadataName::MprisArtUrl) => 16,
            PropertyName::Metadata(MetadataName::XesamAlbum) => 17,
            PropertyName::Metadata(MetadataName::XesamAlbumArtist) => 18,
            PropertyName::Metadata(MetadataName::XesamArtist) => 19,
            PropertyName::Metadata(MetadataName::XesamAsText) => 20,
            PropertyName::Metadata(MetadataName::XesamAudioBpm) => 21,
            PropertyName::Metadata(MetadataName::XesamAutoRating) => 22,
            PropertyName::Metadata(MetadataName::XesamComment) => 23,
            PropertyName::Metadata(MetadataName::XesamComposer) => 24,
            PropertyName::Metadata(MetadataName::XesamContentCreated) => 25,
            PropertyName::Metadata(MetadataName::XesamDiscNumber) => 26,
            PropertyName::Metadata(MetadataName::XesamFirstUsed) => 27,
            PropertyName::Metadata(MetadataName::XesamGenre) => 28,
            PropertyName::Metadata(MetadataName::XesamLastUsed) => 29,
            PropertyName::Metadata(MetadataName::XesamLyricist) => 30,
            PropertyName::Metadata(MetadataName::XesamTitle) => 31,
            PropertyName::Metadata(MetadataName::XesamTrackNumber) => 32,
            PropertyName::Metadata(MetadataName::XesamUrl) => 33,
            PropertyName::Metadata(MetadataName::XesamUseCount) => 34,
            PropertyName::Metadata(MetadataName::XesamUserRating) => 35,
        }
    }

    /// Whether the property stands in the metadata dictionary rather than in
    /// the player's own bag.
    pub open spec fn in_metadata(self) -> bool {
        self is Metadata
    }

    /// Whether a snapshot cannot be made without the property.
    pub open spec fn is_required(self) -> bool {
        self == PropertyName::PlaybackStatus || self == PropertyName::Metadata(MetadataName::MprisTrackid)
    }

    /// The key under which the property stands in its bag.
    pub fn key(&self) -> (r: &'static str)
        ensures
            r@ == self.key_of(),
    {
        match self {
            PropertyName::PlaybackStatus => "PlaybackStatus",
            PropertyName::LoopStatus => "LoopStatus",
            PropertyName::Rate => "Rate",
            PropertyName::Shuffle => "Shuffle",
            PropertyName::Volume => "Volume",
            PropertyName::Position => "Position",
            PropertyName::MinimumRate => "MinimumRate",
            PropertyName::MaximumRate => "MaximumRate",
            PropertyName::CanGoNext => "CanGoNext",
            PropertyName::CanGoPrevious => "CanGoPrevious",
            PropertyName::CanPlay => "CanPlay",
            PropertyName::CanPause => "CanPause",
            PropertyName::CanSeek => "CanSeek",
            PropertyName::CanControl => "CanControl",
            PropertyName::Metadata(MetadataName::MprisTrackid) => "mpris:trackid",
            PropertyName::Metadata(MetadataName::MprisLength) => "mpris:length",
            PropertyName::Metadata(MetadataName::MprisArtUrl) => "mpris:artUrl",
            PropertyName::Metadata(MetadataName::XesamAlbum) => "xesam:album",
            PropertyName::Metadata(MetadataName::XesamAlbumArtist) => "xesam:albumArtist",
            PropertyName::Metadata(MetadataName::XesamArtist) => "xesam:artist",
            PropertyName::Metadata(MetadataName::XesamAsText) => "xesam:asText",
            PropertyName::Metadata(MetadataName::XesamAudioBpm) => "xesam:audioBPM",
            PropertyName::Metadata(MetadataName::XesamAutoRating) => "xesam:autoRating",
            PropertyName::Metadata(MetadataName::XesamComment) => "xesam:comment",
            PropertyName::Metadata(MetadataName::XesamComposer) => "xesam:composer",
            PropertyName::Metadata(MetadataName::XesamContentCreated) => "xesam:contentCreated",
            PropertyName::Metadata(MetadataName::XesamDiscNumber) => "xesam:discNumber",
            PropertyName::Metadata(MetadataName::XesamFirstUsed) => "xesam:firstUsed",
            PropertyName::Metadata(MetadataName::XesamGenre) => "xesam:genre",
            PropertyName::Metadata(MetadataName::XesamLastUsed) => "xesam:lastUsed",
            PropertyName::Metadata(MetadataName::XesamLyricist) => "xesam:lyricist",
            PropertyName::Metadata(MetadataName::XesamTitle) => "xesam:title",
            PropertyName::Metadata(MetadataName::XesamTrackNumber) => "xesam:trackNumber",
            PropertyName::Metadata(MetadataName::XesamUrl) => "xesam:url",
            PropertyName::Metadata(MetadataName::XesamUseCount) => "xesam:useCount",
            PropertyName::Metadata(MetadataName::XesamUserRating) => "xesam:userRating",
        }
    }

    /// The type that the property is expected to have.
    pub fn kind(&self) -> (r: Kind)
        ensures
            r == self.kind_of(),
    {
        match self {
            PropertyName::PlaybackStatus => Kind::Status,
            PropertyName::LoopStatus => Kind::Loop,
            PropertyName::Rate => Kind::Double,
            PropertyName::Shuffle => Kind::Bool,
            PropertyName::Volume => Kind::Double,
            PropertyName::Position => Kind::Int64,
            PropertyName::MinimumRate => Kind::Double,
            PropertyName::MaximumRate => Kind::Double,
            PropertyName::CanGoNext => Kind::Bool,
            PropertyName::CanGoPrevious => Kind::Bool,
            PropertyName::CanPlay => Kind::Bool,
            PropertyName::CanPause => Kind::Bool,
            PropertyName::CanSeek => Kind::Bool,
            PropertyName::CanControl => Kind::Bool,
            PropertyName::Metadata(MetadataName::MprisTrackid) => Kind::Text,
            PropertyName::Metadata(MetadataName::MprisLength) => Kind::Int64,
            PropertyName::Metadata(MetadataName::MprisArtUrl) => Kind::Text,
            PropertyName::Metadata(MetadataName::XesamAlbum) => Kind::Text,
            PropertyName::Metadata(MetadataName::XesamAlbumArtist) => Kind::Texts,
            PropertyName::Metadata(MetadataName::XesamArtist) => Kind::Texts,
            PropertyName::Metadata(MetadataName::XesamAsText) => Kind::Text,
            PropertyName::Metadata(MetadataName::XesamAudioBpm) => Kind::Int32,
            PropertyName::Metadata(MetadataName::XesamAutoRating) => Kind::Double,
            PropertyName::Metadata(MetadataName::XesamComment) => Kind::Texts,
            PropertyName::Metadata(MetadataName::XesamComposer) => Kind::Texts,
            PropertyName::Metadata(MetadataName::XesamContentCreated) => Kind::Text,
            PropertyName::Metadata(MetadataName::XesamDiscNumber) => Kind::Int32,
            PropertyName::Metadata(MetadataName::XesamFirstUsed) => Kind::Text,
            PropertyName::Metadata(MetadataName::XesamGenre) => Kind::Texts,
            PropertyName::Metadata(MetadataName::XesamLastUsed) => Kind::Text,
            PropertyName::Metadata(MetadataName::XesamLyricist) => Kind::Texts,
            PropertyName::Metadata(MetadataName::XesamTitle) => Kind::Text,
            PropertyName::Metadata(MetadataName::XesamTrackNumber) => Kind::Int32,
            PropertyName::Metadata(MetadataName::XesamUrl) => Kind::Text,
            PropertyName::Metadata(MetadataName::XesamUseCount) => Kind::Int32,
            PropertyName::Metadata(MetadataName::XesamUserRating) => Kind::Double,
        }
    }

    /// The name at place `rank` in the fixed order of all names.
    pub fn at_rank(rank: u8) -> (r: Option<PropertyName>)
        ensures
            rank < NAME_COUNT ==> r.is_some() && r.unwrap().rank_of() == rank,
            rank >= NAME_COUNT ==> r.is_none(),
    {
        match rank {
            0 => Some(PropertyName::PlaybackStatus),
            1 => Some(PropertyName::LoopStatus),
            2 => Some(PropertyName::Rate),
            3 => Some(PropertyName::Shuffle),
            4 => Some(PropertyName::Volume),
            5 => Some(PropertyName::Position),
            6 => Some(PropertyName::MinimumRate),
            7 => Some(PropertyName::MaximumRate),
            8 => Some(PropertyName::CanGoNext),
            9 => Some(PropertyName::CanGoPrevious),
            10 => Some(PropertyName::CanPlay),
            11 => Some(PropertyName::CanPause),
            12 => Some(PropertyName::CanSeek),
            13 => Some(PropertyName::CanControl),
            14 => Some(PropertyName::Metadata(MetadataName::MprisTrackid)),
            15 => Some(PropertyName::Metadata(MetadataName::MprisLength)),
            16 => Some(PropertyName::Metadata(MetadataName::MprisArtUrl)),
            17 => Some(PropertyName::Metadata(MetadataName::XesamAlbum)),
            18 => Some(PropertyName::Metadata(MetadataName::XesamAlbumArtist)),
            19 => Some(PropertyName::Metadata(MetadataName::XesamArtist)),
            20 => Some(PropertyName::Metadata(MetadataName::XesamAsText)),
            21 => Some(PropertyName::Metadata(MetadataName::XesamAudioBpm)),
            22 => Some(PropertyName::Metadata(MetadataName::XesamAutoRating)),
            23 => Some(PropertyName::Metadata(MetadataName::XesamComment)),
            24 => Some(PropertyName::Metadata(MetadataName::XesamComposer)),
            25 => Some(PropertyName::Metadata(MetadataName::XesamContentCreated)),
            26 => Some(PropertyName::Metadata(MetadataName::XesamDiscNumber)),
            27 => Some(PropertyName::Metadata(MetadataName::XesamFirstUsed)),
            28 => Some(PropertyName::Metadata(MetadataName::XesamGenre)),
            29 => Some(PropertyName::Metadata(MetadataName::XesamLastUsed)),
            30 => Some(PropertyName::Metadata(MetadataName::XesamLyricist)),
            31 => Some(PropertyName::Metadata(MetadataName::XesamTitle)),
            32 => Some(PropertyName::Metadata(MetadataName::XesamTrackNumber)),
            33 => Some(PropertyName::Metadata(MetadataName::XesamUrl)),
            34 => Some(PropertyName::Metadata(MetadataName::XesamUseCount)),
            35 => Some(PropertyName::Metadata(MetadataName::XesamUserRating)),
            _ => None,
        }
    }
}

/// Every name has a place below the number of names.
pub proof fn lemma_rank_in_range(name: PropertyName)
    ensures
        0 <= name.rank_of() < NAME_COUNT,
{
}

/// Two names with the same place are the same name.
pub proof fn lemma_rank_names(a: PropertyName, b: PropertyName)
    requires
        a.rank_of() == b.rank_of(),
    ensures
        a == b,
{
}

/// The bag in which a property is looked for: the metadata dictionary for an
/// entry of the metadata, the player's own bag for the rest.
pub open spec fn scope(bag: Seq<Item>, name: PropertyName) -> Seq<Item> {
    if name.in_metadata() {
        dict_of(find(bag, "Metadata"@))
    } else {
        bag
    }
}

/// Whether the property is there with a value that cannot be read as its
/// expected type.
pub open spec fn mistyped(bag: Seq<Item>, name: PropertyName) -> bool {
    match find(scope(bag, name), name.key_of()) {
        Some(v) => !fits(v, name.kind_of()),
        None => false,
    }
}

/// The metadata that a dictionary spells: none without a readable track id,
/// else each entry as far as it can be read.
pub open spec fn metadata_of(d: Seq<Item>) -> Option<MetadataView> {
    match text_of(find(d, "mpris:trackid"@)) {
        None => None,
        Some(id) => Some(
            MetadataView {
                mpris_trackid: id,
                mpris_length: int64_of(find(d, "mpris:length"@)),
                mpris_art_url: text_of(find(d, "mpris:artUrl"@)),
                xesam_album: text_of(find(d, "xesam:album"@)),
                xesam_album_artist: texts_of(find(d, "xesam:albumArtist"@)),
                xesam_artist: texts_of(find(d, "xesam:artist"@)),
                xesam_as_text: text_of(find(d, "xesam:asText"@)),
                xesam_audio_bpm: int32_of(find(d, "xesam:audioBPM"@)),
                xesam_auto_rating: double_of(find(d, "xesam:autoRating"@)),
                xesam_comment: texts_of(find(d, "xesam:comment"@)),
                xesam_composer: texts_of(find(d, "xesam:composer"@)),
                xesam_content_created: text_of(find(d, "xesam:contentCreated"@)),
                xesam_disc_number: int32_of(find(d, "xesam:discNumber"@)),
                xesam_first_used: text_of(find(d, "xesam:firstUsed"@)),
                xesam_genre: texts_of(find(d, "xesam:genre"@)),
                xesam_last_used: text_of(find(d, "xesam:lastUsed"@)),
                xesam_lyricist: texts_of(find(d, "xesam:lyricist"@)),
                xesam_title: text_of(find(d, "xesam:title"@)),
                xesam_track_number: int32_of(find(d, "xesam:trackNumber"@)),
                xesam_url: text_of(find(d, "xesam:url"@)),
                xesam_use_count: int32_of(find(d, "xesam:useCount"@)),
                xesam_user_rating: double_of(find(d, "xesam:userRating"@)),
            },
        ),
    }
}

/// The view of an optional metadata.
pub open spec fn opt_metadata(m: Option<Metadata>) -> Option<MetadataView> {
    match m {
        Some(x) => Some(x@),
        None => None,
    }
}

/// The snapshot that a full bag spells, or the required property for want of
/// which none can be made: the playback status first, then the track id.
pub open spec fn snapshot_of(bag: Seq<Item>) -> Result<PropertiesView, PropertyName> {
    match status_of(find(bag, "PlaybackStatus"@)) {
        None => Err(PropertyName::PlaybackStatus),
        Some(status) => match metadata_of(dict_of(find(bag, "Metadata"@))) {
            None => Err(PropertyName::Metadata(MetadataName::MprisTrackid)),
            Some(metadata) => Ok(
                PropertiesView {
                    playback_status: status,
                    metadata,
                    loop_status: loop_of(find(bag, "LoopStatus"@)),
                    rate: double_of(find(bag, "Rate"@)),
                    shuffle: bool_of(find(bag, "Shuffle"@)),
                    volume: double_of(find(bag, "Volume"@)),
                    position: int64_of(find(bag, "Position"@)),
                    minimum_rate: double_of(find(bag, "MinimumRate"@)),
                    maximum_rate: double_of(find(bag, "MaximumRate"@)),
                    can_go_next: bool_of(find(bag, "CanGoNext"@)),
                    can_go_previous: bool_of(find(bag, "CanGoPrevious"@)),
                    can_play: bool_of(find(bag, "CanPlay"@)),
                    can_pause: bool_of(find(bag, "CanPause"@)),
                    can_seek: bool_of(find(bag, "CanSeek"@)),
                    can_control: bool_of(find(bag, "CanControl"@)),
                },
            ),
        },
    }
}

/// The delta that a partial bag spells. A playback status or a metadata that
/// is there but cannot be read spoils the whole bag, and is named.
pub open spec fn delta_of(bag: Seq<Item>) -> Result<DeltaView, PropertyName> {
    if find(bag, "PlaybackStatus"@).is_some() && status_of(find(bag, "PlaybackStatus"@)).is_none() {
        Err(PropertyName::PlaybackStatus)
    } else if find(bag, "Metadata"@).is_some() && metadata_of(dict_of(find(bag, "Metadata"@))).is_none() {
        Err(PropertyName::Metadata(MetadataName::MprisTrackid))
    } else {
        Ok(
            DeltaView {
                playback_status: status_of(find(bag, "PlaybackStatus"@)),
                metadata: if find(bag, "Metadata"@).is_some() {
                    metadata_of(dict_of(find(bag, "Metadata"@)))
                } else {
                    None
                },
                loop_status: loop_of(find(bag, "LoopStatus"@)),
                rate: double_of(find(bag, "Rate"@)),
                shuffle: bool_of(find(bag, "Shuffle"@)),
                volume: double_of(find(bag, "Volume"@)),
                position: int64_of(find(bag, "Position"@)),
                minimum_rate: double_of(find(bag, "MinimumRate"@)),
                maximum_rate: double_of(find(bag, "MaximumRate"@)),
                can_go_next: bool_of(find(bag, "CanGoNext"@)),
                can_go_previous: bool_of(find(bag, "CanGoPrevious"@)),
                can_play: bool_of(find(bag, "CanPlay"@)),
                can_pause: bool_of(find(bag, "CanPause"@)),
                can_seek: bool_of(find(bag, "CanSeek"@)),
                can_control: bool_of(find(bag, "CanControl"@)),
            },
        )
    }
}

/// A snapshot with the warnings that came up while it was read.
#[derive(Clone, Debug, PartialEq, Eq)]
pub struct Decoded {
    pub properties: Properties,
    pub warnings: Vec<PropertyName>,
}

/// A delta with the warnings that came up while it was read.
#[derive(Clone, Debug, PartialEq, Eq)]
pub struct DecodedDelta {
    pub delta: Delta,
    pub warnings: Vec<PropertyName>,
}

/// Why a bag gave no snapshot or delta.
#[derive(Clone, Copy, Debug, PartialEq, Eq, Structural)]
pub enum DecodeError {
    /// A required property is missing or cannot be read.
    MalformedSource { field: PropertyName },
}

/// What makes a list of warnings the warnings of `bag`: it names each
/// optional property once that is there with a value of the wrong type, and
/// nothing else.
pub open spec fn warns_of(warnings: Seq<PropertyName>, bag: Seq<Item>) -> bool {
    &&& warnings.no_duplicates()
    &&& forall|n: PropertyName| #[trigger] warnings.contains(n) <==> !n.is_required() && mistyped(bag, n)
}

/// Reads the metadata dictionary `dict`.
pub fn decode_metadata(dict: &Vec<Item>) -> (r: Option<Metadata>)
    ensures
        opt_metadata(r) == metadata_of(dict@),
{
    let trackid = match get_text(dict, "mpris:trackid") {
        Some(t) => t,
        None => {
            return None;
        },
    };
    Some(
        Metadata {
            mpris_trackid: trackid,
            mpris_length: get_i64(dict, "mpris:length"),
            mpris_art_url: get_text(dict, "mpris:artUrl"),
            xesam_album: get_text(dict, "xesam:album"),
            xesam_album_artist: get_texts(dict, "xesam:albumArtist"),
            xesam_artist: get_texts(dict, "xesam:artist"),
            xesam_as_text: get_text(dict, "xesam:asText"),
            xesam_audio_bpm: get_i32(dict, "xesam:audioBPM"),
            xesam_auto_rating: get_double(dict, "xesam:autoRating"),
            xesam_comment: get_texts(dict, "xesam:comment"),
            xesam_composer: get_texts(dict, "xesam:composer"),
            xesam_content_created: get_text(dict, "xesam:contentCreated"),
            xesam_disc_number: get_i32(dict, "xesam:discNumber"),
            xesam_first_used: get_text(dict, "xesam:firstUsed"),
            xesam_genre: get_texts(dict, "xesam:genre"),
            xesam_last_used: get_text(dict, "xesam:lastUsed"),
            xesam_lyricist: get_texts(dict, "xesam:lyricist"),
            xesam_title: get_text(dict, "xesam:title"),
            xesam_track_number: get_i32(dict, "xesam:trackNumber"),
            xesam_url: get_text(dict, "xesam:url"),
            xesam_use_count: get_i32(dict, "xesam:useCount"),
            xesam_user_rating: get_double(dict, "xesam:userRating"),
        },
    )
}

/// Reads the metadata dictionary under the key `Metadata` of `bag`.
fn metadata_in(bag: &Vec<Item>) -> (r: Option<Metadata>)
    ensures
        opt_metadata(r) == metadata_of(dict_of(find(bag@, "Metadata"@))),
{
    match get_dict(bag, "Metadata") {
        Some(d) => decode_metadata(d),
        None => {
            proof {
                lemma_empty_has_nothing("mpris:trackid"@);
            }
            None
        },
    }
}

/// An empty bag holds no key.
pub proof fn lemma_empty_has_nothing(key: Seq<char>)
    ensures
        find(Seq::<Item>::empty(), key).is_none(),
{
}

/// Whether `v` can be read as a value of `kind`.
pub fn value_fits(v: &Value, kind: Kind) -> (r: bool)
    ensures
        r == fits(*v, kind),
{
    match kind {
        Kind::Status => match v {
            Value::Text(s) => crate::properties::PlaybackStatus::from_name(s.as_str()).is_some(),
            _ => false,
        },
        Kind::Loop => match v {
            Value::Text(s) => crate::properties::LoopStatus::from_name(s.as_str()).is_some(),
            _ => false,
        },
        Kind::Bool => match v {
            Value::Bool(_) => true,
            _ => false,
        },
        Kind::Int32 => match v {
            Value::U8(_) | Value::I16(_) | Value::U16(_) | Value::I32(_) => true,
            Value::U32(n) => *n <= 0x7fff_ffffu32,
            Value::I64(n) => -0x8000_0000i64 <= *n && *n <= 0x7fff_ffffi64,
            Value::U64(n) => *n <= 0x7fff_ffffu64,
            _ => false,
        },
        Kind::Int64 => match v {
            Value::U8(_) | Value::I16(_) | Value::U16(_) | Value::I32(_) | Value::U32(_) | Value::I64(_) => true,
            Value::U64(n) => *n <= 0x7fff_ffff_ffff_ffffu64,
            _ => false,
        },
        Kind::Double => match v {
            Value::Double(_) => true,
            _ => false,
        },
        Kind::Text => match v {
            Value::Text(_) | Value::Path(_) => true,
            _ => false,
        },
        Kind::Texts => match v {
            Value::TextList(_) => true,
            _ => false,
        },
    }
}

/// The value that `bag` holds for the property `name`, whatever its type:
/// looked for in the metadata dictionary for an entry of the metadata, in the
/// bag itself for the rest.
pub fn value_at<'a>(bag: &'a Vec<Item>, name: PropertyName) -> (r: Option<&'a Value>)
    ensures
        held(r) == find(scope(bag@, name), name.key_of()),
{
    match name {
        PropertyName::Metadata(_) => match get_dict(bag, "Metadata") {
            Some(d) => lookup(d, name.key()),
            None => {
                proof {
                    lemma_empty_has_nothing(name.key_of());
                }
                None
            },
        },
        _ => lookup(bag, name.key()),
    }
}

/// Whether the property `name` is there in `bag` with a value of the wrong
/// type.
pub fn is_mistyped(bag: &Vec<Item>, name: PropertyName) -> (r: bool)
    ensures
        r == mistyped(bag@, name),
{
    match value_at(bag, name) {
        Some(v) => !value_fits(v, name.kind()),
        None => false,
    }
}

/// Whether the property `name` is there in `bag` with a value that can be
/// read as its expected type.
pub fn is_readable(bag: &Vec<Item>, name: PropertyName) -> (r: bool)
    ensures
        r == readable(bag@, name),
{
    match value_at(bag, name) {
        Some(v) => value_fits(v, name.kind()),
        None => false,
    }
}

/// The properties among `watched` for which `bag` holds a readable value, in
/// their order.
pub open spec fn readable_among(bag: Seq<Item>, watched: Seq<PropertyName>) -> Seq<PropertyName>
    decreases watched.len(),
{
    if watched.len() == 0 {
        Seq::empty()
    } else if readable(bag, watched.last()) {
        readable_among(bag, watched.drop_last()).push(watched.last())
    } else {
        readable_among(bag, watched.drop_last())
    }
}

/// What a watch reports of `bag`: the watched properties for which the bag
/// holds a readable value, in the order of `watched`.
pub fn reported(bag: &Vec<Item>, watched: &Vec<PropertyName>) -> (r: Vec<PropertyName>)
    ensures
        r@ == readable_among(bag@, watched@),
{
    let mut out: Vec<PropertyName> = Vec::new();
    let mut i: usize = 0;
    assert(watched@.take(0) =~= Seq::<PropertyName>::empty());
    while i < watched.len()
        invariant
            i <= watched@.len(),
            out@ == readable_among(bag@, watched@.take(i as int)),
        decreases watched@.len() - i,
    {
        let ghost upto = watched@.take(i + 1);
        assert(upto.drop_last() =~= watched@.take(i as int));
        assert(upto.last() == watched@[i as int]);
        if is_readable(bag, watched[i]) {
            out.push(watched[i]);
        }
        i += 1;
    }
    assert(watched@.take(watched@.len() as int) =~= watched@);
    out
}

/// The warnings of `bag`: the optional properties that are there with a
/// value of the wrong type.
pub fn warnings_in(bag: &Vec<Item>) -> (r: Vec<PropertyName>)
    ensures
        warns_of(r@, bag@),
{
    let mut out: Vec<PropertyName> = Vec::new();
    let mut rank: u8 = 0;
    while rank < NAME_COUNT
        invariant
            rank <= NAME_COUNT,
            forall|j: int| 0 <= j < out@.len() ==> (#[trigger] out@[j]).rank_of() < rank,
            forall|j: int, k: int| 0 <= j < k < out@.len() ==> out@[j] != out@[k],
            forall|j: int| 0 <= j < out@.len() ==> !(#[trigger] out@[j]).is_required() && mistyped(bag@, out@[j]),
            forall|n: PropertyName|
                !n.is_required() && mistyped(bag@, n) && n.rank_of() < rank ==> #[trigger] out@.contains(n),
        decreases NAME_COUNT - rank,
    {
        let ghost before = out@;
        match PropertyName::at_rank(rank) {
            Some(name) => {
                let required = match name {
                    PropertyName::PlaybackStatus => true,
                    PropertyName::Metadata(MetadataName::MprisTrackid) => true,
                    _ => false,
                };
                if !required && is_mistyped(bag, name) {
                    out.push(name);
                    assert(out@[before.len() as int] == name);
                }
                assert forall|n: PropertyName|
                    !n.is_required() && mistyped(bag@, n) && n.rank_of() < rank + 1 implies #[trigger] out@.contains(
                    n,
                ) by {
                    if n.rank_of() < rank {
                        assert(before.contains(n));
                        let j = choose|j: int| 0 <= j < before.len() && before[j] == n;
                        assert(out@[j] == n);
                    } else {
                        lemma_rank_names(n, name);
                        assert(out@[before.len() as int] == n);
                    }
                }
            },
            None => {},
        }
        rank += 1;
    }
    proof {
        assert forall|n: PropertyName| #[trigger] out@.contains(n) <==> !n.is_required() && mistyped(bag@, n) by {
            lemma_rank_in_range(n);
            if out@.contains(n) {
                let j = choose|j: int| 0 <= j < out@.len() && out@[j] == n;
                assert(!out@[j].is_required());
            }
        }
    }
    out
}

/// Reads a full bag. Gives a snapshot exactly where the playback status and
/// the track id can be read; every other property that cannot be read is
/// absent in it and named among the warnings.
pub fn decode_full(bag: &Vec<Item>) -> (r: Result<Decoded, DecodeError>)
    ensures
        match r {
            Ok(d) => snapshot_of(bag@) == Ok::<PropertiesView, PropertyName>(d.properties@) && warns_of(
                d.warnings@,
                bag@,
            ),
            Err(e) => snapshot_of(bag@) == Err::<PropertiesView, PropertyName>(e->field),
        },
{
    let playback_status = match get_status(bag, "PlaybackStatus") {
        Some(s) => s,
        None => {
            return Err(DecodeError::MalformedSource { field: PropertyName::PlaybackStatus });
        },
    };
    let metadata = match metadata_in(bag) {
        Some(m) => m,
        None => {
            return Err(
                DecodeError::MalformedSource { field: PropertyName::Metadata(MetadataName::MprisTrackid) },
            );
        },
    };
    let properties = Properties {
        playback_status,
        metadata,
        loop_status: get_loop(bag, "LoopStatus"),
        rate: get_double(bag, "Rate"),
        shuffle: get_bool(bag, "Shuffle"),
        volume: get_double(bag, "Volume"),
        position: get_i64(bag, "Position"),
        minimum_rate: get_double(bag, "MinimumRate"),
        maximum_rate: get_double(bag, "MaximumRate"),
        can_go_next: get_bool(bag, "CanGoNext"),
        can_go_previous: get_bool(bag, "CanGoPrevious"),
        can_play: get_bool(bag, "CanPlay"),
        can_pause: get_bool(bag, "CanPause"),
        can_seek: get_bool(bag, "CanSeek"),
        can_control: get_bool(bag, "CanControl"),
    };
    Ok(Decoded { properties, warnings: warnings_in(bag) })
}

/// Reads a partial bag, as a change notification carries it. Gives a delta
/// unless a playback status or a metadata is there and cannot be read; every
/// other property that cannot be read is absent in it and named among the
/// warnings.
pub fn decode_delta(bag: &Vec<Item>) -> (r: Result<DecodedDelta, DecodeError>)
    ensures
        match r {
            Ok(d) => delta_of(bag@) == Ok::<DeltaView, PropertyName>(d.delta@) && warns_of(d.warnings@, bag@),
            Err(e) => delta_of(bag@) == Err::<DeltaView, PropertyName>(e->field),
        },
{
    let playback_status = get_status(bag, "PlaybackStatus");
    if playback_status.is_none() && lookup(bag, "PlaybackStatus").is_some() {
        return Err(DecodeError::MalformedSource { field: PropertyName::PlaybackStatus });
    }
    let metadata = metadata_in(bag);
    let has_metadata = lookup(bag, "Metadata").is_some();
    if metadata.is_none() && has_metadata {
        return Err(DecodeError::MalformedSource { field: PropertyName::Metadata(MetadataName::MprisTrackid) });
    }
    proof {
        if !has_metadata {
            lemma_empty_has_nothing("mpris:trackid"@);
        }
    }
    let delta = Delta {
        playback_status,
        metadata,
        loop_status: get_loop(bag, "LoopStatus"),
        rate: get_double(bag, "Rate"),
        shuffle: get_bool(bag, "Shuffle"),
        volume: get_double(bag, "Volume"),
        position: get_i64(bag, "Position"),
        minimum_rate: get_double(bag, "MinimumRate"),
        maximum_rate: get_double(bag, "MaximumRate"),
        can_go_next: get_bool(bag, "CanGoNext"),
        can_go_previous: get_bool(bag, "CanGoPrevious"),
        can_play: get_bool(bag, "CanPlay"),
        can_pause: get_bool(bag, "CanPause"),
        can_seek: get_bool(bag, "CanSeek"),
        can_control: get_bool(bag, "CanControl"),
    };
    Ok(DecodedDelta { delta, warnings: warnings_in(bag) })
}

/// Whether the property is there in `bag` with a value that can be read as
/// its expected type.
pub open spec fn readable(bag: Seq<Item>, name: PropertyName) -> bool {
    match find(scope(bag, name), name.key_of()) {
        Some(v) => fits(v, name.kind_of()),
        None => false,
    }
}

/// Whether the snapshot holds a value for the property.
pub open spec fn populated(p: PropertiesView, name: PropertyName) -> bool {
    match name {
            PropertyName::PlaybackStatus => true,
            PropertyName::Metadata(MetadataName::MprisTrackid) => true,
            PropertyName::LoopStatus => p.loop_status.is_some(),
            PropertyName::Rate => p.rate.is_some(),
            PropertyName::Shuffle => p.shuffle.is_some(),
            PropertyName::Volume => p.volume.is_some(),
            PropertyName::Position => p.position.is_some(),
            PropertyName::MinimumRate => p.minimum_rate.is_some(),
            PropertyName::MaximumRate => p.maximum_rate.is_some(),
            PropertyName::CanGoNext => p.can_go_next.is_some(),
            PropertyName::CanGoPrevious => p.can_go_previous.is_some(),
            PropertyName::CanPlay => p.can_play.is_some(),
            PropertyName::CanPause => p.can_pause.is_some(),
            PropertyName::CanSeek => p.can_seek.is_some(),
            PropertyName::CanControl => p.can_control.is_some(),
            PropertyName::Metadata(MetadataName::MprisLength) => p.metadata.mpris_length.is_some(),
            PropertyName::Metadata(MetadataName::MprisArtUrl) => p.metadata.mpris_art_url.is_some(),
            PropertyName::Metadata(MetadataName::XesamAlbum) => p.metadata.xesam_album.is_some(),
            PropertyName::Metadata(MetadataName::XesamAlbumArtist) => p.metadata.xesam_album_artist.is_some(),
            PropertyName::Metadata(MetadataName::XesamArtist) => p.metadata.xesam_artist.is_some(),
            PropertyName::Metadata(MetadataName::XesamAsText) => p.metadata.xesam_as_text.is_some(),
            PropertyName::Metadata(MetadataName::XesamAudioBpm) => p.metadata.xesam_audio_bpm.is_some(),
            PropertyName::Metadata(MetadataName::XesamAutoRating) => p.metadata.xesam_auto_rating.is_some(),
            PropertyName::Metadata(MetadataName::XesamComment) => p.metadata.xesam_comment.is_some(),
            PropertyName::Metadata(MetadataName::XesamComposer) => p.metadata.xesam_composer.is_some(),
            PropertyName::Metadata(MetadataName::XesamContentCreated) => p.metadata.xesam_content_created.is_some(),
            PropertyName::Metadata(MetadataName::XesamDiscNumber) => p.metadata.xesam_disc_number.is_some(),
            PropertyName::Metadata(MetadataName::XesamFirstUsed) => p.metadata.xesam_first_used.is_some(),
            PropertyName::Metadata(MetadataName::XesamGenre) => p.metadata.xesam_genre.is_some(),
            PropertyName::Metadata(MetadataName::XesamLastUsed) => p.metadata.xesam_last_used.is_some(),
            PropertyName::Metadata(MetadataName::XesamLyricist) => p.metadata.xesam_lyricist.is_some(),
            PropertyName::Metadata(MetadataName::XesamTitle) => p.metadata.xesam_title.is_some(),
            PropertyName::Metadata(MetadataName::XesamTrackNumber) => p.metadata.xesam_track_number.is_some(),
            PropertyName::Metadata(MetadataName::XesamUrl) => p.metadata.xesam_url.is_some(),
            PropertyName::Metadata(MetadataName::XesamUseCount) => p.metadata.xesam_use_count.is_some(),
            PropertyName::Metadata(MetadataName::XesamUserRating) => p.metadata.xesam_user_rating.is_some(),
    }
}

/// A bag is read property by property. It spells a snapshot exactly where the
/// two required properties can be read, whatever else it holds; and in that
/// snapshot a property is populated exactly where the bag holds a readable
/// value for it. So a value of the wrong type makes its own property absent
/// and touches no other.
pub proof fn lemma_decoded_property_by_property(bag: Seq<Item>, name: PropertyName)
    ensures
        snapshot_of(bag).is_ok() <==> readable(bag, PropertyName::PlaybackStatus) && readable(
            bag,
            PropertyName::Metadata(MetadataName::MprisTrackid),
        ),
        snapshot_of(bag).is_ok() ==> (populated(snapshot_of(bag).unwrap(), name) <==> readable(bag, name)),
        snapshot_of(bag).is_ok() && mistyped(bag, name) ==> !name.is_required() && !populated(
            snapshot_of(bag).unwrap(),
            name,
        ),
{
}

} // verus!
