use youtube_terminal::app::{Action, AppState, Direction, LoadedPage, Tab, View};
use youtube_terminal::models::{FeedItem, FeedPage, VideoItem};
use youtube_terminal::player::PlaybackQuality;

fn make_video(id: &str) -> FeedItem {
    FeedItem::Video(VideoItem {
        id: id.into(),
        title: id.into(),
        channel: "".into(),
        channel_id: "".into(),
        view_count: None,
        duration: None,
        published: None,
        thumbnail_url: "".into(),
    })
}

#[test]
fn test_initial_state() {
    let state = AppState::new();
    assert_eq!(state.view, View::Home);
    assert_eq!(state.tabs.active, Tab::ForYou);
    assert_eq!(state.playback_quality, PlaybackQuality::P1080);
    assert!(!state.should_quit);
}

#[test]
fn test_switch_tab() {
    let mut state = AppState::new();
    state.dispatch(Action::SwitchTab(Tab::History));
    assert_eq!(state.tabs.active, Tab::History);
}

#[test]
fn test_quit() {
    let mut state = AppState::new();
    state.dispatch(Action::Quit);
    assert!(state.should_quit);
}

#[test]
fn test_focus_search() {
    let mut state = AppState::new();
    state.dispatch(Action::FocusSearch);
    assert_eq!(state.view, View::Search);
    assert!(state.search.focused);
}

#[test]
fn test_back_pops_view() {
    let mut state = AppState::new();
    state.dispatch(Action::FocusSearch);
    assert_eq!(state.view, View::Search);
    state.dispatch(Action::Back);
    assert_eq!(state.view, View::Home);
}

#[test]
fn test_stale_request_ignored() {
    let mut state = AppState::new();
    state.loading.search_request_id = 5;
    // An older request (3) is ignored.
    state.dispatch(Action::SearchResults(
        3,
        FeedPage {
            items: vec![],
            continuation: None,
        },
    ));
    assert_eq!(state.video_list.items.len(), 0);
}

#[test]
fn test_search_input() {
    let mut state = AppState::new();
    state.dispatch(Action::SearchInput('h'));
    state.dispatch(Action::SearchInput('i'));
    assert_eq!(state.search.query, "hi");
    assert_eq!(state.search.cursor, 2);
}

#[test]
fn test_search_backspace() {
    let mut state = AppState::new();
    state.dispatch(Action::SearchInput('a'));
    state.dispatch(Action::SearchInput('b'));
    state.dispatch(Action::SearchBackspace);
    assert_eq!(state.search.query, "a");
}

#[test]
fn test_navigate_list() {
    let mut state = AppState::new();
    state.video_list.items = vec![
        FeedItem::Video(VideoItem {
            id: "1".into(),
            title: "A".into(),
            channel: "".into(),
            channel_id: "".into(),
            view_count: None,
            duration: None,
            published: None,
            thumbnail_url: "".into(),
        }),
        FeedItem::Video(VideoItem {
            id: "2".into(),
            title: "B".into(),
            channel: "".into(),
            channel_id: "".into(),
            view_count: None,
            duration: None,
            published: None,
            thumbnail_url: "".into(),
        }),
    ];
    state.view = View::Search;
    state.dispatch(Action::Navigate(Direction::Down));
    assert_eq!(state.video_list.selected, 1);
    state.dispatch(Action::Navigate(Direction::Down));
    assert_eq!(state.video_list.selected, 1); // the end of the list stops it
    state.dispatch(Action::Navigate(Direction::Up));
    assert_eq!(state.video_list.selected, 0);
}

#[test]
fn test_append_search_extends_items() {
    let mut state = AppState::new();
    state.loading.search_request_id = 1;
    state.dispatch(Action::SearchResults(
        1,
        FeedPage {
            items: vec![make_video("1"), make_video("2")],
            continuation: Some("token_a".into()),
        },
    ));
    assert_eq!(state.video_list.items.len(), 2);
    assert_eq!(state.video_list.continuation, Some("token_a".into()));

    state.view = View::Search;
    state.dispatch(Action::Navigate(Direction::Down));
    assert_eq!(state.video_list.selected, 1);

    state.loading.loading_more_search = true;
    state.dispatch(Action::AppendSearch(
        1,
        FeedPage {
            items: vec![make_video("3"), make_video("4")],
            continuation: Some("token_b".into()),
        },
    ));

    // Appended, not replaced, and the selection is kept.
    assert_eq!(state.video_list.items.len(), 4);
    assert_eq!(state.video_list.continuation, Some("token_b".into()));
    assert_eq!(state.video_list.selected, 1);
    assert!(!state.loading.loading_more_search);
}

#[test]
fn test_append_search_stale_request_ignored() {
    let mut state = AppState::new();
    state.loading.search_request_id = 5;
    state.video_list.items = vec![make_video("1")];

    state.dispatch(Action::AppendSearch(
        3,
        FeedPage {
            items: vec![make_video("x")],
            continuation: None,
        },
    ));
    assert_eq!(state.video_list.items.len(), 1);
}

#[test]
fn test_append_feed_extends_items() {
    let mut state = AppState::new();
    state.loading.feed_request_id = 1;
    state.dispatch(Action::FeedLoaded(
        1,
        Box::new(LoadedPage::Home(FeedPage {
            items: vec![make_video("1")],
            continuation: Some("feed_token".into()),
        })),
    ));
    assert_eq!(state.cards.items.len(), 1);

    state.loading.loading_more_feed = true;
    state.dispatch(Action::AppendFeed(
        1,
        Box::new(LoadedPage::Home(FeedPage {
            items: vec![make_video("2"), make_video("3")],
            continuation: None,
        })),
    ));

    assert_eq!(state.cards.items.len(), 3);
    assert_eq!(state.cards.continuation, None);
    assert!(!state.loading.loading_more_feed);
}
