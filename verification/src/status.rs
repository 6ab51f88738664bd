//! The status data model and the assembly of one snapshot from what the bus
//! reported.

use vstd::prelude::*;
use vstd::string::*;
use crate::text::texts_of;

verus! {

/// What a player is doing, as clients see it.
#[derive(Debug, Clone, Copy, PartialEq, Eq, Structural)]
pub enum PlaybackState {
    /// A track is currently playing.
    Playing,
    /// A track is currently paused.
    Paused,
    /// There is no track currently playing.
    Idle,
}

/// The playback status as the bus reports it.
#[derive(Debug, Clone, Copy, PartialEq, Eq, Structural)]
pub enum BusPlayback {
    Playing,
    Paused,
    Stopped,
}

impl From<BusPlayback> for PlaybackState {
    fn from(value: BusPlayback) -> (r: PlaybackState) {
        match value {
            BusPlayback::Playing => PlaybackState::Playing,
            BusPlayback::Paused => PlaybackState::Paused,
            BusPlayback::Stopped => PlaybackState::Idle,
        }
    }
}

impl vstd::std_specs::convert::FromSpecImpl<BusPlayback> for PlaybackState {
    open spec fn obeys_from_spec() -> bool {
        true
    }

    open spec fn from_spec(value: BusPlayback) -> PlaybackState {
        PlaybackState::of_bus(value)
    }
}

impl PlaybackState {
    /// The state that stands for a status of the bus: a stopped player has
    /// no track playing.
    pub open spec fn of_bus(value: BusPlayback) -> PlaybackState {
        match value {
            BusPlayback::Playing => PlaybackState::Playing,
            BusPlayback::Paused => PlaybackState::Paused,
            BusPlayback::Stopped => PlaybackState::Idle,
        }
    }

    /// The state's name on the wire, as a sequence of characters.
    pub open spec fn wire_name_spec(self) -> Seq<char> {
        match self {
            PlaybackState::Playing => "playing"@,
            PlaybackState::Paused => "paused"@,
            PlaybackState::Idle => "none"@,
        }
    }

    /// The state's name on the wire.
    pub fn wire_name(&self) -> (r: &'static str)
        ensures
            r@ == self.wire_name_spec(),
    {
        match self {
            PlaybackState::Playing => "playing",
            PlaybackState::Paused => "paused",
            PlaybackState::Idle => "none",
        }
    }
}

/// A reference to one piece of artwork: a URI or a path.
#[derive(Debug, PartialEq, Eq)]
pub struct ArtworkInfo {
    pub src: String,
}

impl View for ArtworkInfo {
    type V = Seq<char>;

    open spec fn view(&self) -> Seq<char> {
        self.src@
    }
}

impl Clone for ArtworkInfo {
    fn clone(&self) -> (r: Self)
        ensures
            r@ == self@,
    {
        ArtworkInfo { src: self.src.clone() }
    }
}

impl ArtworkInfo {
    /// Equality by value of the source.
    pub fn same_as(&self, other: &ArtworkInfo) -> (r: bool)
        ensures
            r == (self@ == other@),
    {
        self.src == other.src
    }
}

/// The sources of a list of artwork references, in order.
pub open spec fn artwork_sources(list: Seq<ArtworkInfo>) -> Seq<Seq<char>> {
    Seq::new(list.len(), |i: int| list[i]@)
}

/// Copies a list of artwork references.
pub fn clone_artwork(list: &Vec<ArtworkInfo>) -> (r: Vec<ArtworkInfo>)
    ensures
        artwork_sources(r@) == artwork_sources(list@),
{
    let mut out: Vec<ArtworkInfo> = Vec::new();
    let mut i: usize = 0;
    while i < list.len()
        invariant
            i <= list.len(),
            out@.len() == i,
            forall|k: int| 0 <= k < i ==> out@[k]@ == list@[k]@,
        decreases list.len() - i,
    {
        out.push(list[i].clone());
        i += 1;
    }
    assert(artwork_sources(out@) =~= artwork_sources(list@));
    out
}

/// Metadata of the current track, as a mathematical value.
pub struct MetadataView {
    pub title: Seq<char>,
    pub artist: Seq<char>,
    pub album: Seq<char>,
    pub artwork: Seq<Seq<char>>,
    pub length: u64,
}

/// Metadata of the current track. No field is ever absent: what the bus
/// does not report is empty or zero.
#[derive(Debug, PartialEq, Eq)]
pub struct StatusMetadata {
    pub title: String,
    /// All artists, joined by a comma and a space.
    pub artist: String,
    pub album: String,
    pub artwork: Vec<ArtworkInfo>,
    /// Track length in microseconds.
    pub length: u64,
}

impl View for StatusMetadata {
    type V = MetadataView;

    open spec fn view(&self) -> MetadataView {
        MetadataView {
            title: self.title@,
            artist: self.artist@,
            album: self.album@,
            artwork: artwork_sources(self.artwork@),
            length: self.length,
        }
    }
}

impl Clone for StatusMetadata {
    fn clone(&self) -> (r: Self)
        ensures
            r@ == self@,
    {
        StatusMetadata {
            title: self.title.clone(),
            artist: self.artist.clone(),
            album: self.album.clone(),
            artwork: clone_artwork(&self.artwork),
            length: self.length,
        }
    }
}

/// One point-in-time reading of a player, as a mathematical value.
pub struct StatusView {
    pub metadata: MetadataView,
    pub playback_state: PlaybackState,
    pub position: u64,
}

/// One point-in-time reading of a player.
#[derive(Debug, PartialEq, Eq)]
pub struct PlayerStatus {
    pub metadata: StatusMetadata,
    pub playback_state: PlaybackState,
    /// Playback position in microseconds.
    pub position: u64,
}

impl View for PlayerStatus {
    type V = StatusView;

    open spec fn view(&self) -> StatusView {
        StatusView {
            metadata: self.metadata@,
            playback_state: self.playback_state,
            position: self.position,
        }
    }
}

impl Clone for PlayerStatus {
    fn clone(&self) -> (r: Self)
        ensures
            r@ == self@,
    {
        PlayerStatus {
            metadata: self.metadata.clone(),
            playback_state: self.playback_state,
            position: self.position,
        }
    }
}

/// The view of an optional snapshot.
pub open spec fn status_view(status: Option<PlayerStatus>) -> Option<StatusView> {
    match status {
        Some(s) => Some(s@),
        None => None,
    }
}

/// Copies an optional snapshot.
pub fn clone_status(status: &Option<PlayerStatus>) -> (r: Option<PlayerStatus>)
    ensures
        status_view(r) == status_view(*status),
{
    match status {
        Some(s) => Some(s.clone()),
        None => None,
    }
}

/// The track metadata as the bus reported it; each field may be missing.
#[derive(Debug)]
pub struct BusMetadata {
    pub title: Option<String>,
    pub artists: Option<Vec<String>>,
    pub album: Option<String>,
    pub art_url: Option<String>,
    pub length: Option<u64>,
}

/// The names joined by a comma and a space.
pub open spec fn joined(parts: Seq<Seq<char>>) -> Seq<char>
    decreases parts.len(),
{
    if parts.len() == 0 {
        Seq::empty()
    } else if parts.len() == 1 {
        parts[0]
    } else {
        joined(parts.drop_last()) + seq![',', ' '] + parts.last()
    }
}

/// Joins the names by a comma and a space.
pub fn join_names(parts: &Vec<String>) -> (r: String)
    ensures
        r@ == joined(texts_of(parts@)),
{
    let mut out = String::new();
    let mut i: usize = 0;
    let ghost names = texts_of(parts@);
    while i < parts.len()
        invariant
            i <= parts.len(),
            names == texts_of(parts@),
            out@ == joined(names.take(i as int)),
        decreases parts.len() - i,
    {
        proof {
            reveal_strlit(", ");
            assert(", "@ =~= seq![',', ' ']);
            assert(names.take(i + 1).drop_last() =~= names.take(i as int));
            assert(names.take(i + 1).last() == parts@[i as int]@);
        }
        if i > 0 {
            out.append(", ");
        } else {
            assert(out@ + parts@[0]@ =~= parts@[0]@);
        }
        out.append(parts[i].as_str());
        i += 1;
    }
    assert(names.take(parts.len() as int) =~= names);
    out
}

/// The optional text, or the empty sequence where it is missing.
pub open spec fn text_or_empty(text: Option<String>) -> Seq<char> {
    match text {
        Some(t) => t@,
        None => Seq::empty(),
    }
}

/// The snapshot's metadata for what the bus reported.
pub open spec fn metadata_of(bus: BusMetadata) -> MetadataView {
    MetadataView {
        title: text_or_empty(bus.title),
        artist: match bus.artists {
            Some(a) => joined(texts_of(a@)),
            None => Seq::empty(),
        },
        album: text_or_empty(bus.album),
        artwork: match bus.art_url {
            Some(u) => seq![u@],
            None => Seq::empty(),
        },
        length: match bus.length {
            Some(l) => l,
            None => 0,
        },
    }
}

/// The snapshot for one round of bus reads: none where the playback status
/// or the metadata could not be read, otherwise every missing field at its
/// default.
pub open spec fn status_of(
    playback: Option<BusPlayback>,
    metadata: Option<BusMetadata>,
    position: Option<u64>,
) -> Option<StatusView> {
    match (playback, metadata) {
        (Some(p), Some(m)) => Some(
            StatusView {
                metadata: metadata_of(m),
                playback_state: PlaybackState::of_bus(p),
                position: match position {
                    Some(x) => x,
                    None => 0,
                },
            },
        ),
        _ => None,
    }
}

fn text_or_default(text: Option<String>) -> (r: String)
    ensures
        r@ == text_or_empty(text),
{
    match text {
        Some(t) => t,
        None => String::new(),
    }
}

/// Builds one snapshot from the results of the bus reads, each `None` where
/// the read failed or the field is missing.
pub fn read_status(
    playback: Option<BusPlayback>,
    metadata: Option<BusMetadata>,
    position: Option<u64>,
) -> (r: Option<PlayerStatus>)
    ensures
        status_view(r) == status_of(playback, metadata, position),
{
    let Some(playback) = playback else {
        return None;
    };
    let Some(metadata) = metadata else {
        return None;
    };
    let ghost given = metadata;
    let BusMetadata { title, artists, album, art_url, length } = metadata;
    let artist = match artists {
        Some(a) => join_names(&a),
        None => String::new(),
    };
    let mut artwork: Vec<ArtworkInfo> = Vec::new();
    if let Some(src) = art_url {
        artwork.push(ArtworkInfo { src });
    }
    let status = PlayerStatus {
        metadata: StatusMetadata {
            title: text_or_default(title),
            artist,
            album: text_or_default(album),
            artwork,
            length: match length {
                Some(l) => l,
                None => 0,
            },
        },
        playback_state: PlaybackState::from(playback),
        position: match position {
            Some(x) => x,
            None => 0,
        },
    };
    assert(status@.metadata.artwork =~= metadata_of(given).artwork);
    Some(status)
}

} // verus!
