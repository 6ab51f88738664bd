//! The encoding of a snapshot as the JSON text that clients receive.
//! Strings are encoded by `serde_json`; the document around them is laid
//! out here.

use vstd::prelude::*;
use vstd::string::*;
use crate::session::{null_reply, Reply, ReplyView};
use crate::text::texts_of;
use crate::status::{
    artwork_sources, ArtworkInfo, MetadataView, PlaybackState, PlayerStatus, StatusView,
};

verus! {

/// The JSON text that `serde_json::to_string` gives for a string, quotes
/// and escapes included; nothing where it reports an error.
pub uninterp spec fn json_string(text: Seq<char>) -> Option<Seq<char>>;

/// Calls `serde_json::to_string` on a string slice. The contract names the
/// outcome as a function of the text alone.
#[verifier::external_body]
fn encode_text(text: &str) -> (r: Option<String>)
    ensures
        match r {
            Some(json) => json_string(text@) == Some(json@),
            None => json_string(text@) is None,
        },
{
    serde_json::to_string(text).ok()
}

/// The character of one decimal digit.
pub open spec fn digit_char(digit: nat) -> char {
    if digit == 0 {
        '0'
    } else if digit == 1 {
        '1'
    } else if digit == 2 {
        '2'
    } else if digit == 3 {
        '3'
    } else if digit == 4 {
        '4'
    } else if digit == 5 {
        '5'
    } else if digit == 6 {
        '6'
    } else if digit == 7 {
        '7'
    } else if digit == 8 {
        '8'
    } else {
        '9'
    }
}

/// A number written in base ten, without leading zeros.
pub open spec fn decimal(n: nat) -> Seq<char>
    decreases n,
{
    if n < 10 {
        seq![digit_char(n)]
    } else {
        decimal(n / 10).push(digit_char(n % 10))
    }
}

fn digit_text(digit: u64) -> (r: &'static str)
    requires
        digit < 10,
    ensures
        r@ == seq![digit_char(digit as nat)],
{
    proof {
        reveal_strlit("0");
        reveal_strlit("1");
        reveal_strlit("2");
        reveal_strlit("3");
        reveal_strlit("4");
        reveal_strlit("5");
        reveal_strlit("6");
        reveal_strlit("7");
        reveal_strlit("8");
        reveal_strlit("9");
    }
    let r = match digit {
        0 => "0",
        1 => "1",
        2 => "2",
        3 => "3",
        4 => "4",
        5 => "5",
        6 => "6",
        7 => "7",
        8 => "8",
        _ => "9",
    };
    assert(r@ =~= seq![digit_char(digit as nat)]);
    r
}

/// Writes a number in base ten at the end of `out`.
pub fn write_decimal(out: &mut String, n: u64)
    ensures
        final(out)@ == old(out)@ + decimal(n as nat),
    decreases n,
{
    if n >= 10 {
        write_decimal(out, n / 10);
        out.append(digit_text(n % 10));
        assert(final(out)@ =~= old(out)@ + decimal(n as nat));
    } else {
        out.append(digit_text(n));
    }
}

/// The JSON object for one piece of artwork whose source is already
/// encoded.
pub open spec fn artwork_object(src_json: Seq<char>) -> Seq<char> {
    "{\"src\":"@ + src_json + "}"@
}

/// The JSON objects for a list of artwork, separated by commas.
pub open spec fn artwork_items(srcs_json: Seq<Seq<char>>) -> Seq<char>
    decreases srcs_json.len(),
{
    if srcs_json.len() == 0 {
        Seq::empty()
    } else if srcs_json.len() == 1 {
        artwork_object(srcs_json[0])
    } else {
        artwork_items(srcs_json.drop_last()) + ","@ + artwork_object(srcs_json.last())
    }
}

/// The strings of a snapshot, each already encoded as JSON.
pub struct EncodedTexts {
    pub title: String,
    pub artist: String,
    pub album: String,
    pub artwork: Vec<String>,
}

/// The encoded strings of a snapshot, as a mathematical value.
pub struct EncodedTextsView {
    pub title: Seq<char>,
    pub artist: Seq<char>,
    pub album: Seq<char>,
    pub artwork: Seq<Seq<char>>,
}

impl View for EncodedTexts {
    type V = EncodedTextsView;

    open spec fn view(&self) -> EncodedTextsView {
        EncodedTextsView {
            title: self.title@,
            artist: self.artist@,
            album: self.album@,
            artwork: texts_of(self.artwork@),
        }
    }
}

/// The JSON document of a snapshot whose strings are already encoded.
pub open spec fn status_document(
    texts: EncodedTextsView,
    length: u64,
    state: PlaybackState,
    position: u64,
) -> Seq<char> {
    "{\"metadata\":{\"title\":"@ + texts.title + ",\"artist\":"@ + texts.artist + ",\"album\":"@
        + texts.album + ",\"artwork\":["@ + artwork_items(texts.artwork) + "],\"length\":"@
        + decimal(length as nat) + "},\"playbackState\":\""@ + state.wire_name_spec()
        + "\",\"position\":"@ + decimal(position as nat) + "}"@
}

/// Lays out the JSON objects of a list of artwork whose sources are
/// already encoded.
pub fn frame_artwork(srcs_json: &Vec<String>) -> (r: String)
    ensures
        r@ == artwork_items(texts_of(srcs_json@)),
{
    let mut out = String::new();
    let ghost items = texts_of(srcs_json@);
    let mut i: usize = 0;
    while i < srcs_json.len()
        invariant
            i <= srcs_json.len(),
            items == texts_of(srcs_json@),
            out@ == artwork_items(items.take(i as int)),
        decreases srcs_json.len() - i,
    {
        let ghost before = out@;
        proof {
            assert(items.take(i + 1).drop_last() =~= items.take(i as int));
            assert(items.take(i + 1).last() == srcs_json@[i as int]@);
        }
        if i > 0 {
            out.append(",");
        }
        out.append("{\"src\":");
        out.append(srcs_json[i].as_str());
        out.append("}");
        proof {
            let object = artwork_object(srcs_json@[i as int]@);
            if i > 0 {
                assert(out@ =~= before + ","@ + object);
            } else {
                assert(items.take(1)[0] == srcs_json@[0]@);
                assert(out@ =~= object);
            }
        }
        i += 1;
    }
    assert(items.take(srcs_json.len() as int) =~= items);
    out
}

/// Lays out the JSON document of a snapshot whose strings are already
/// encoded.
pub fn frame_status(
    texts: &EncodedTexts,
    length: u64,
    state: PlaybackState,
    position: u64,
) -> (r: String)
    ensures
        r@ == status_document(texts@, length, state, position),
{
    let mut out = String::new();
    out.append("{\"metadata\":{\"title\":");
    assert(out@ =~= "{\"metadata\":{\"title\":"@);
    out.append(texts.title.as_str());
    out.append(",\"artist\":");
    out.append(texts.artist.as_str());
    out.append(",\"album\":");
    out.append(texts.album.as_str());
    out.append(",\"artwork\":[");
    let items = frame_artwork(&texts.artwork);
    out.append(items.as_str());
    out.append("],\"length\":");
    write_decimal(&mut out, length);
    out.append("},\"playbackState\":\"");
    out.append(state.wire_name());
    out.append("\",\"position\":");
    write_decimal(&mut out, position);
    out.append("}");
    out
}

/// The encodings of a list of sources: nothing where one of them has none.
pub open spec fn encoded_sources(srcs: Seq<Seq<char>>) -> Option<Seq<Seq<char>>> {
    if forall|i: int| 0 <= i < srcs.len() ==> json_string(#[trigger] srcs[i]) is Some {
        Some(Seq::new(srcs.len(), |i: int| json_string(srcs[i]).unwrap()))
    } else {
        None
    }
}

/// The encodings of the strings of a snapshot: nothing where one of them
/// has none.
pub open spec fn encoded_texts(metadata: MetadataView) -> Option<EncodedTextsView> {
    match (
        json_string(metadata.title),
        json_string(metadata.artist),
        json_string(metadata.album),
        encoded_sources(metadata.artwork),
    ) {
        (Some(title), Some(artist), Some(album), Some(artwork)) => Some(
            EncodedTextsView { title, artist, album, artwork },
        ),
        _ => None,
    }
}

/// The JSON text of a snapshot: nothing where one of its strings cannot be
/// encoded.
pub open spec fn status_json(status: StatusView) -> Option<Seq<char>> {
    match encoded_texts(status.metadata) {
        Some(texts) => Some(
            status_document(
                texts,
                status.metadata.length,
                status.playback_state,
                status.position,
            ),
        ),
        None => None,
    }
}

fn encode_sources(artwork: &Vec<ArtworkInfo>) -> (r: Option<Vec<String>>)
    ensures
        match r {
            Some(list) => encoded_sources(artwork_sources(artwork@)) == Some(texts_of(list@)),
            None => encoded_sources(artwork_sources(artwork@)) is None,
        },
{
    let mut out: Vec<String> = Vec::new();
    let ghost srcs = artwork_sources(artwork@);
    let mut i: usize = 0;
    while i < artwork.len()
        invariant
            i <= artwork.len(),
            srcs == artwork_sources(artwork@),
            out@.len() == i,
            forall|k: int| 0 <= k < i ==> json_string(#[trigger] srcs[k]) == Some(out@[k]@),
        decreases artwork.len() - i,
    {
        match encode_text(artwork[i].src.as_str()) {
            Some(json) => {
                out.push(json);
            },
            None => {
                assert(json_string(srcs[i as int]) is None);
                return None;
            },
        }
        i += 1;
    }
    assert(texts_of(out@) =~= Seq::new(srcs.len(), |i: int| json_string(srcs[i]).unwrap()));
    Some(out)
}

/// Encodes the strings of a snapshot.
pub fn encode_texts(status: &PlayerStatus) -> (r: Option<EncodedTexts>)
    ensures
        match r {
            Some(texts) => encoded_texts(status@.metadata) == Some(texts@),
            None => encoded_texts(status@.metadata) is None,
        },
{
    let Some(title) = encode_text(status.metadata.title.as_str()) else {
        return None;
    };
    let Some(artist) = encode_text(status.metadata.artist.as_str()) else {
        return None;
    };
    let Some(album) = encode_text(status.metadata.album.as_str()) else {
        return None;
    };
    let Some(artwork) = encode_sources(&status.metadata.artwork) else {
        return None;
    };
    Some(EncodedTexts { title, artist, album, artwork })
}

/// Encodes a snapshot as the JSON text of a status reply.
pub fn encode_status(status: &PlayerStatus) -> (r: Option<String>)
    ensures
        match r {
            Some(json) => status_json(status@) == Some(json@),
            None => status_json(status@) is None,
        },
{
    match encode_texts(status) {
        Some(texts) => Some(
            frame_status(
                &texts,
                status.metadata.length,
                status.playback_state,
                status.position,
            ),
        ),
        None => None,
    }
}

/// One message to send to a client.
#[derive(Debug, PartialEq, Eq)]
pub enum Outgoing {
    /// A text message with this content.
    Text(String),
    /// A binary message with the bytes of the local file at this path.
    FileBytes(String),
}

/// A message to send, as a mathematical value.
pub enum OutgoingView {
    Text(Seq<char>),
    FileBytes(Seq<char>),
}

impl View for Outgoing {
    type V = OutgoingView;

    open spec fn view(&self) -> OutgoingView {
        match self {
            Outgoing::Text(t) => OutgoingView::Text(t@),
            Outgoing::FileBytes(p) => OutgoingView::FileBytes(p@),
        }
    }
}

/// The message that carries a reply: the text `null`, the artwork's
/// source, the file to read, or the snapshot's JSON text. Nothing where the
/// snapshot has no encoding.
pub open spec fn message_of(reply: ReplyView) -> Option<OutgoingView> {
    match reply {
        ReplyView::Null => Some(OutgoingView::Text("null"@)),
        ReplyView::Text(t) => Some(OutgoingView::Text(t)),
        ReplyView::File(p) => Some(OutgoingView::FileBytes(p)),
        ReplyView::Status(s) => match status_json(s) {
            Some(json) => Some(OutgoingView::Text(json)),
            None => None,
        },
    }
}

/// Turns a reply into the message to send.
pub fn message_for(reply: Reply) -> (r: Option<Outgoing>)
    ensures
        match r {
            Some(message) => message_of(reply@) == Some(message@),
            None => message_of(reply@) is None,
        },
{
    match reply {
        Reply::Null => Some(Outgoing::Text(null_reply().to_owned())),
        Reply::Text(t) => Some(Outgoing::Text(t)),
        Reply::File(p) => Some(Outgoing::FileBytes(p)),
        Reply::Status(s) => match encode_status(&s) {
            Some(json) => Some(Outgoing::Text(json)),
            None => None,
        },
    }
}

} // verus!
