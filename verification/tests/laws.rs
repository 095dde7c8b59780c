use youtube_terminal::app::{Action, AppState, Direction, Tab, View};
use youtube_terminal::filters::{SearchDate, SearchItemType, SearchLength, SearchSort};
use youtube_terminal::keymap::{action_for_key, map_key_event, KeyCode, KeyEvent};
use youtube_terminal::layout::scroll_offset;
use youtube_terminal::models::{FeedItem, VideoItem};
use youtube_terminal::player::PlaybackQuality;
use youtube_terminal::saved_searches::{parse_date, parse_item_type, parse_length, parse_sort};
use youtube_terminal::session::PersistedSessionState;

fn video(id: &str) -> FeedItem {
    FeedItem::Video(VideoItem {
        id: id.into(),
        title: id.into(),
        channel: "".into(),
        channel_id: "".into(),
        view_count: None,
        duration: None,
        published: None,
        thumbnail_url: "".into(),
    })
}

#[test]
fn filter_next_and_prev_invert() {
    for s in [SearchSort::Relevance, SearchSort::Date, SearchSort::Views, SearchSort::Rating] {
        assert_eq!(s.next().prev(), s);
        assert_eq!(s.next().next().next().next(), s);
    }
    for d in [SearchDate::Any, SearchDate::Hour, SearchDate::Day, SearchDate::Week, SearchDate::Month, SearchDate::Year] {
        assert_eq!(d.prev().next(), d);
        assert_eq!(d.next().next().next().next().next().next(), d);
    }
    for t in [SearchItemType::All, SearchItemType::Video, SearchItemType::Channel, SearchItemType::Playlist] {
        assert_eq!(t.next().prev(), t);
    }
    for l in [SearchLength::Any, SearchLength::Short, SearchLength::Medium, SearchLength::Long] {
        assert_eq!(l.prev().next(), l);
    }
}

#[test]
fn stored_labels_parse_back() {
    for s in [SearchSort::Relevance, SearchSort::Date, SearchSort::Views, SearchSort::Rating] {
        assert_eq!(parse_sort(s.label()), s);
    }
    for d in [SearchDate::Any, SearchDate::Hour, SearchDate::Day, SearchDate::Week, SearchDate::Month, SearchDate::Year] {
        assert_eq!(parse_date(d.label()), d);
    }
    for t in [SearchItemType::All, SearchItemType::Video, SearchItemType::Channel, SearchItemType::Playlist] {
        assert_eq!(parse_item_type(t.label()), t);
    }
    for l in [SearchLength::Any, SearchLength::Short, SearchLength::Medium, SearchLength::Long] {
        assert_eq!(parse_length(l.label()), l);
    }
    assert_eq!(parse_sort("garbage"), SearchSort::Relevance);
}

#[test]
fn quality_toggle_twice_is_identity() {
    assert_eq!(PlaybackQuality::P720.toggle().toggle(), PlaybackQuality::P720);
    assert_eq!(PlaybackQuality::P1080.toggle(), PlaybackQuality::P720);
    assert_eq!(PlaybackQuality::P720.label(), "720p");
}

fn key(code: KeyCode) -> KeyEvent {
    KeyEvent { code, ctrl: false }
}

#[test]
fn tab_key_cycles_through_tabs() {
    let mut state = AppState::new();
    let mut seen = Vec::new();
    for _ in 0..4 {
        match map_key_event(key(KeyCode::Tab), &state) {
            Some(Action::SwitchTab(t)) => {
                seen.push(t);
                state.dispatch(Action::SwitchTab(t));
            }
            other => panic!("unexpected {:?}", other),
        }
    }
    assert_eq!(seen, vec![Tab::SavedSearches, Tab::Subscriptions, Tab::History, Tab::ForYou]);
    match map_key_event(key(KeyCode::BackTab), &state) {
        Some(Action::SwitchTab(t)) => assert_eq!(t, Tab::History),
        other => panic!("unexpected {:?}", other),
    }
}

#[test]
fn keys_map_to_actions() {
    let mut state = AppState::new();
    assert!(matches!(map_key_event(key(KeyCode::Char('q')), &state), Some(Action::Quit)));
    assert!(matches!(
        map_key_event(KeyEvent { code: KeyCode::Char('c'), ctrl: true }, &state),
        Some(Action::Quit)
    ));
    assert!(matches!(map_key_event(key(KeyCode::Char('>')), &state), Some(Action::Seek(10))));
    assert!(matches!(map_key_event(key(KeyCode::Char('<')), &state), Some(Action::Seek(-10))));
    assert!(matches!(map_key_event(key(KeyCode::Char('/')), &state), Some(Action::FocusSearch)));
    assert!(matches!(map_key_event(key(KeyCode::Other), &state), None));

    // Typing into the focused search bar, Enter submits the query.
    state.dispatch(Action::FocusSearch);
    assert!(matches!(map_key_event(key(KeyCode::Char('q')), &state), Some(Action::SearchInput('q'))));
    assert!(action_for_key(key(KeyCode::Enter), &state).is_none());
    state.dispatch(Action::SearchInput('r'));
    match action_for_key(key(KeyCode::Enter), &state) {
        Some(Action::SubmitSearch(q)) => assert_eq!(q, "r"),
        other => panic!("unexpected {:?}", other),
    }

    // The command line: Enter on an empty line cancels.
    let mut state = AppState::new();
    state.dispatch(Action::EnterCommandMode);
    assert!(matches!(action_for_key(key(KeyCode::Enter), &state), Some(Action::CancelCommand)));
}

#[test]
fn card_navigation_stays_on_cards() {
    let mut state = AppState::new();
    state.cards.columns = 3;
    state.cards.items = (0..5).map(|i| video(&i.to_string())).collect();
    state.dispatch(Action::Navigate(Direction::Down));
    // Row 1 holds two cards; the column is kept.
    assert_eq!((state.cards.selected_row, state.cards.selected_col), (1, 0));
    state.dispatch(Action::Navigate(Direction::Right));
    state.dispatch(Action::Navigate(Direction::Right));
    assert_eq!((state.cards.selected_row, state.cards.selected_col), (1, 1));
    state.dispatch(Action::Navigate(Direction::Up));
    state.dispatch(Action::Navigate(Direction::Right));
    assert_eq!((state.cards.selected_row, state.cards.selected_col), (0, 2));
    state.dispatch(Action::Navigate(Direction::Down));
    assert_eq!((state.cards.selected_row, state.cards.selected_col), (1, 1));
}

#[test]
fn reset_filters_clears_them() {
    let mut state = AppState::new();
    state.dispatch(Action::EnterFilterMode);
    state.dispatch(Action::FilterCycleDown);
    assert!(state.search.filter.has_filters());
    state.dispatch(Action::ResetFilters);
    assert!(!state.search.filter.has_filters());
}

#[test]
fn selection_stays_in_view() {
    for visible in 1..6usize {
        for selected in 0..20usize {
            let off = scroll_offset(selected, visible);
            assert!(off <= selected && selected < off + visible);
        }
    }
    assert_eq!(scroll_offset(3, 4), 0);
    assert_eq!(scroll_offset(4, 4), 1);
}

#[test]
fn pending_restore_reapplies_selection() {
    let mut before = AppState::new();
    before.view = View::Search;
    before.search.query = "q".into();
    before.video_list.items = (0..10).map(|i| video(&i.to_string())).collect();
    before.video_list.selected = 7;
    let saved = PersistedSessionState::capture_from(&before);

    let mut state = AppState::new();
    state.restore_session(&saved);
    assert!(state.pending_restore.is_some());
    state.loading.search_request_id = 0;
    state.dispatch(Action::SearchResults(
        0,
        youtube_terminal::models::FeedPage { items: (0..10).map(|i| video(&i.to_string())).collect(), continuation: None },
    ));
    state.apply_pending_restore();
    assert_eq!(state.video_list.selected, 7);
    assert!(state.pending_restore.is_none());
}

#[test]
fn number_keys_switch_tabs_as_documented() {
    let state = AppState::new();
    let tab_for = |c: char| match map_key_event(key(KeyCode::Char(c)), &state) {
        Some(Action::SwitchTab(t)) => t,
        other => panic!("unexpected {:?}", other),
    };
    assert_eq!(tab_for('1'), Tab::ForYou);
    assert_eq!(tab_for('2'), Tab::Subscriptions);
    assert_eq!(tab_for('3'), Tab::History);
    assert_eq!(tab_for('4'), Tab::History);
}
