use mpris_bridge::cache::StatusCache;
use mpris_bridge::status::{PlaybackState, PlayerStatus, StatusMetadata};

fn snapshot(title: &str, position: u64) -> PlayerStatus {
    PlayerStatus {
        metadata: StatusMetadata {
            title: title.to_string(),
            artist: String::new(),
            album: String::new(),
            artwork: vec![],
            length: 0,
        },
        playback_state: PlaybackState::Playing,
        position,
    }
}

#[test]
fn cache_is_empty_before_first_publish() {
    let cache = StatusCache::new();
    assert_eq!(cache.latest(), None);
    assert_eq!(cache.generation(), 0);
}

#[test]
fn cache_returns_most_recent_snapshot() {
    let mut cache = StatusCache::new();
    cache.publish(Some(snapshot("a", 1)));
    assert_eq!(cache.latest(), Some(snapshot("a", 1)));
    cache.publish(Some(snapshot("b", 2)));
    assert_eq!(cache.latest(), Some(snapshot("b", 2)));
    assert_eq!(cache.latest(), Some(snapshot("b", 2)));
    assert_eq!(cache.generation(), 2);
}

#[test]
fn cache_can_be_cleared_by_publishing_nothing() {
    let mut cache = StatusCache::new();
    cache.publish(Some(snapshot("a", 1)));
    cache.publish(None);
    assert_eq!(cache.latest(), None);
    assert_eq!(cache.generation(), 2);
}
