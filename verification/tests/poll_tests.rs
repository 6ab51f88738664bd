use mpris_bridge::backoff::Timing;
use mpris_bridge::poll::{Phase, PlayerFindResult, PollState, SampleAction};
use mpris_bridge::status::{PlaybackState, PlayerStatus, StatusMetadata};

fn timing() -> Timing {
    Timing { min_delay: 1_000_000, max_delay: 4_000_000, interval: 250_000 }
}

fn snapshot() -> PlayerStatus {
    PlayerStatus {
        metadata: StatusMetadata {
            title: "t".to_string(),
            artist: "a".to_string(),
            album: "b".to_string(),
            artwork: vec![],
            length: 5,
        },
        playback_state: PlaybackState::Paused,
        position: 3,
    }
}

#[test]
fn loop_starts_searching() {
    let state = PollState::new();
    assert_eq!(state.phase(), Phase::Searching);
    assert_eq!(state.times_tried, 0);
    assert_eq!(state.player, None);
}

#[test]
fn search_without_player_backs_off() {
    let mut state = PollState::new();
    let first = state.find_player(&timing(), None);
    assert_eq!(first, PlayerFindResult::NotFound { delay: 1_000_000, clear_cache: true });
    assert_eq!(state.times_tried, 1);
    let second = state.find_player(&timing(), None);
    assert_eq!(second, PlayerFindResult::NotFound { delay: 1_187_500, clear_cache: true });
    for _ in 0..20 {
        state.find_player(&timing(), None);
    }
    assert_eq!(
        state.find_player(&timing(), None),
        PlayerFindResult::NotFound { delay: 4_000_000, clear_cache: true }
    );
    assert_eq!(state.phase(), Phase::Searching);
}

#[test]
fn attempt_count_saturates() {
    let mut state = PollState { player: None, times_tried: u32::MAX };
    state.find_player(&timing(), None);
    assert_eq!(state.times_tried, u32::MAX);
}

#[test]
fn found_player_is_attached_and_count_reset() {
    let mut state = PollState::new();
    state.find_player(&timing(), None);
    state.find_player(&timing(), None);
    let r = state.find_player(&timing(), Some("vlc".to_string()));
    assert_eq!(r, PlayerFindResult::NewPlayer);
    assert_eq!(state.phase(), Phase::Attached);
    assert_eq!(state.player.as_deref(), Some("vlc"));
    assert_eq!(state.times_tried, 0);
}

#[test]
fn same_player_leaves_state_alone() {
    let mut state = PollState { player: Some("vlc".to_string()), times_tried: 3 };
    assert_eq!(state.find_player(&timing(), Some("vlc".to_string())), PlayerFindResult::SamePlayer);
    assert_eq!(state.player.as_deref(), Some("vlc"));
    assert_eq!(state.times_tried, 3);
}

#[test]
fn different_player_replaces_the_tracked_one() {
    let mut state = PollState { player: Some("vlc".to_string()), times_tried: 3 };
    assert_eq!(state.find_player(&timing(), Some("mpv".to_string())), PlayerFindResult::NewPlayer);
    assert_eq!(state.player.as_deref(), Some("mpv"));
    assert_eq!(state.times_tried, 0);
}

#[test]
fn nothing_found_while_attached_keeps_the_player() {
    let mut state = PollState { player: Some("vlc".to_string()), times_tried: 8 };
    let r = state.find_player(&timing(), None);
    assert_eq!(r, PlayerFindResult::NotFound { delay: 2_500_000, clear_cache: false });
    assert_eq!(state.player.as_deref(), Some("vlc"));
    assert_eq!(state.times_tried, 9);
}

#[test]
fn sample_is_published_while_attached() {
    let state = PollState { player: Some("vlc".to_string()), times_tried: 0 };
    assert_eq!(state.handle_status_request(Some(snapshot())), SampleAction::Publish(snapshot()));
    assert_eq!(state.handle_status_request(None), SampleAction::PublishNoneAndProbe);
}

#[test]
fn nothing_is_published_while_searching() {
    let state = PollState::new();
    assert_eq!(state.handle_status_request(None), SampleAction::Skip);
    assert_eq!(state.handle_status_request(Some(snapshot())), SampleAction::Skip);
}

#[test]
fn running_player_survives_a_failed_sample() {
    let mut state = PollState { player: Some("vlc".to_string()), times_tried: 2 };
    assert!(!state.probed(true));
    assert_eq!(state.phase(), Phase::Attached);
    assert_eq!(state.times_tried, 2);
}

#[test]
fn vanished_player_restarts_the_search_at_minimum_delay() {
    let mut state = PollState { player: Some("vlc".to_string()), times_tried: 5 };
    assert_eq!(state.handle_status_request(None), SampleAction::PublishNoneAndProbe);
    assert!(state.probed(false));
    assert_eq!(state.phase(), Phase::Searching);
    assert_eq!(state.times_tried, 0);
    assert_eq!(
        state.find_player(&timing(), None),
        PlayerFindResult::NotFound { delay: 1_000_000, clear_cache: true }
    );
}
