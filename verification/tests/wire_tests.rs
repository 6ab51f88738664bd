use mpris_bridge::session::Reply;
use mpris_bridge::status::{ArtworkInfo, PlaybackState, PlayerStatus, StatusMetadata};
use mpris_bridge::wire::{
    encode_status, encode_texts, frame_artwork, frame_status, message_for, write_decimal,
    EncodedTexts, Outgoing,
};

fn snapshot() -> PlayerStatus {
    PlayerStatus {
        metadata: StatusMetadata {
            title: "Song".to_string(),
            artist: "Ann, Bob".to_string(),
            album: "Record".to_string(),
            artwork: vec![ArtworkInfo { src: "https://example/cover.jpg".to_string() }],
            length: 180_000_000,
        },
        playback_state: PlaybackState::Playing,
        position: 42,
    }
}

fn decimal(n: u64) -> String {
    let mut out = String::new();
    write_decimal(&mut out, n);
    out
}

#[test]
fn write_decimal_writes_base_ten() {
    assert_eq!(decimal(0), "0");
    assert_eq!(decimal(7), "7");
    assert_eq!(decimal(10), "10");
    assert_eq!(decimal(1_234_567_890), "1234567890");
    assert_eq!(decimal(u64::MAX), "18446744073709551615");
}

#[test]
fn write_decimal_appends_to_what_is_there() {
    let mut out = "n=".to_string();
    write_decimal(&mut out, 305);
    assert_eq!(out, "n=305");
}

#[test]
fn write_decimal_agrees_with_serde_json() {
    for n in [0u64, 1, 9, 10, 99, 100, 4_294_967_296, u64::MAX] {
        assert_eq!(decimal(n), serde_json::to_string(&n).unwrap());
    }
}

#[test]
fn frame_artwork_separates_objects_by_commas() {
    assert_eq!(frame_artwork(&vec![]), "");
    assert_eq!(frame_artwork(&vec!["\"a\"".to_string()]), "{\"src\":\"a\"}");
    assert_eq!(
        frame_artwork(&vec!["\"a\"".to_string(), "\"b\"".to_string(), "\"c\"".to_string()]),
        "{\"src\":\"a\"},{\"src\":\"b\"},{\"src\":\"c\"}"
    );
}

#[test]
fn frame_status_lays_out_the_document() {
    let texts = EncodedTexts {
        title: "T".to_string(),
        artist: "A".to_string(),
        album: "B".to_string(),
        artwork: vec!["X".to_string(), "Y".to_string()],
    };
    assert_eq!(
        frame_status(&texts, 5, PlaybackState::Paused, 6),
        "{\"metadata\":{\"title\":T,\"artist\":A,\"album\":B,\"artwork\":[{\"src\":X},{\"src\":Y}],\"length\":5},\"playbackState\":\"paused\",\"position\":6}"
    );
}

#[test]
fn encode_texts_quotes_every_string() {
    let texts = encode_texts(&snapshot()).unwrap();
    assert_eq!(texts.title, "\"Song\"");
    assert_eq!(texts.artist, "\"Ann, Bob\"");
    assert_eq!(texts.album, "\"Record\"");
    assert_eq!(texts.artwork, vec!["\"https://example/cover.jpg\"".to_string()]);
}

#[test]
fn encode_status_gives_the_wire_document() {
    assert_eq!(
        encode_status(&snapshot()).unwrap(),
        "{\"metadata\":{\"title\":\"Song\",\"artist\":\"Ann, Bob\",\"album\":\"Record\",\"artwork\":[{\"src\":\"https://example/cover.jpg\"}],\"length\":180000000},\"playbackState\":\"playing\",\"position\":42}"
    );
}

#[test]
fn encode_status_of_an_idle_player() {
    let status = PlayerStatus {
        metadata: StatusMetadata {
            title: String::new(),
            artist: String::new(),
            album: String::new(),
            artwork: vec![],
            length: 0,
        },
        playback_state: PlaybackState::Idle,
        position: 0,
    };
    assert_eq!(
        encode_status(&status).unwrap(),
        "{\"metadata\":{\"title\":\"\",\"artist\":\"\",\"album\":\"\",\"artwork\":[],\"length\":0},\"playbackState\":\"none\",\"position\":0}"
    );
}

#[test]
fn encode_status_escapes_strings() {
    let mut status = snapshot();
    status.metadata.title = "He said \"hi\"\n\\ \u{1} é".to_string();
    let json = encode_status(&status).unwrap();
    assert!(json.contains("\"title\":\"He said \\\"hi\\\"\\n\\\\ \\u0001 é\""));
}

#[test]
fn encode_status_parses_back_as_json() {
    let mut status = snapshot();
    status.metadata.album = "a\"b,\"c\":1}".to_string();
    status.metadata.artwork.push(ArtworkInfo { src: "file:///tmp/c \"d\".png".to_string() });
    status.position = u64::MAX;
    let json = encode_status(&status).unwrap();
    let value: serde_json::Value = serde_json::from_str(&json).unwrap();
    assert_eq!(value["metadata"]["title"].as_str(), Some("Song"));
    assert_eq!(value["metadata"]["artist"].as_str(), Some("Ann, Bob"));
    assert_eq!(value["metadata"]["album"].as_str(), Some("a\"b,\"c\":1}"));
    assert_eq!(value["metadata"]["artwork"].as_array().unwrap().len(), 2);
    assert_eq!(value["metadata"]["artwork"][0]["src"].as_str(), Some("https://example/cover.jpg"));
    assert_eq!(value["metadata"]["artwork"][1]["src"].as_str(), Some("file:///tmp/c \"d\".png"));
    assert_eq!(value["metadata"]["length"].as_u64(), Some(180_000_000));
    assert_eq!(value["playbackState"].as_str(), Some("playing"));
    assert_eq!(value["position"].as_u64(), Some(u64::MAX));
    assert_eq!(value.as_object().unwrap().len(), 3);
    assert_eq!(value["metadata"].as_object().unwrap().len(), 5);
}

#[test]
fn message_for_null_is_the_literal_text() {
    assert_eq!(message_for(Reply::Null), Some(Outgoing::Text("null".to_string())));
}

#[test]
fn message_for_artwork_keeps_the_source() {
    assert_eq!(
        message_for(Reply::Text("https://example/cover.jpg".to_string())),
        Some(Outgoing::Text("https://example/cover.jpg".to_string()))
    );
    assert_eq!(
        message_for(Reply::File("/tmp/cover.jpg".to_string())),
        Some(Outgoing::FileBytes("/tmp/cover.jpg".to_string()))
    );
}

#[test]
fn message_for_status_is_the_encoded_snapshot() {
    assert_eq!(
        message_for(Reply::Status(snapshot())),
        Some(Outgoing::Text(encode_status(&snapshot()).unwrap()))
    );
}
