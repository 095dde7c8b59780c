use youtube_terminal::app::{AppState, Tab, View};
use youtube_terminal::player::{PlayMode, PlaybackQuality, PlaybackSession};
use youtube_terminal::session::{persisted_for_exit, PersistedSessionState, RestoreLoad};

#[test]
fn roundtrip_session_state() {
    let mut state = AppState::new();
    state.tabs.active = Tab::History;
    state.view = View::Search;
    state.search.query = "rust".into();
    state.playback_quality = PlaybackQuality::P720;
    state.current_playback = Some(PlaybackSession {
        url: "https://www.youtube.com/watch?v=abc".into(),
        mode: PlayMode::Video,
    });

    let persisted = PersistedSessionState::capture_from(&state);
    let mut restored_state = AppState::new();
    let load = restored_state.restore_session(&persisted);

    assert_eq!(persisted.active_tab, Tab::History);
    assert_eq!(persisted.view, View::Search);
    assert_eq!(persisted.search_query, "rust");
    assert_eq!(persisted.playback_quality, PlaybackQuality::P720);
    assert!(persisted.detached_player.is_some());

    assert_eq!(restored_state.tabs.active, Tab::History);
    assert_eq!(restored_state.view, View::Search);
    assert_eq!(restored_state.search.query, "rust");
    assert_eq!(restored_state.search.cursor, 4);
    assert_eq!(restored_state.playback_quality, PlaybackQuality::P720);
    assert_eq!(load, RestoreLoad::Search("rust".into()));
}

#[test]
fn empty_search_restores_home() {
    let mut state = AppState::new();
    state.view = View::Search;
    let persisted = PersistedSessionState::capture_from(&state);
    let mut restored = AppState::new();
    let load = restored.restore_session(&persisted);
    assert_eq!(restored.view, View::Home);
    assert_eq!(load, RestoreLoad::Feed);
}

#[test]
fn stopping_on_exit_drops_the_player() {
    let mut state = AppState::new();
    state.current_playback = Some(PlaybackSession { url: "u".into(), mode: PlayMode::AudioOnly });
    state.stop_player_on_exit = true;
    assert!(persisted_for_exit(&state).detached_player.is_none());
    state.stop_player_on_exit = false;
    assert!(persisted_for_exit(&state).detached_player.is_some());
}
