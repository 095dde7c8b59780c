use youtube_terminal::app::{
    Action, AppState, ChannelDetailState, DetailState, Direction, PopupState, Tab, View,
};
use youtube_terminal::effects::{
    build_search_options, Effect, FeedSource, ReloadPlan, SearchOptions, SubscriptionChange,
};
use youtube_terminal::filters::{SearchDate, SearchItemType, SearchLength, SearchSort};
use youtube_terminal::models::{ChannelDetail, ChannelItem, FeedItem, VideoDetail, VideoItem};
use youtube_terminal::player::{PlayMode, PlaybackQuality, PlaybackSession, PlayerInfo, PlayerState};
use youtube_terminal::saved_searches::SavedSearch;

fn video(id: &str) -> VideoItem {
    VideoItem {
        id: id.into(),
        title: format!("title {}", id),
        channel: "chan".into(),
        channel_id: "UC1".into(),
        view_count: None,
        duration: None,
        published: None,
        thumbnail_url: format!("http://img/{}", id),
    }
}

fn channel(id: &str, name: &str) -> ChannelItem {
    ChannelItem { id: id.into(), name: name.into(), subscriber_count: Some(5), thumbnail_url: "".into() }
}

#[test]
fn submit_search_starts_a_request() {
    let mut s = AppState::new();
    let effects = s.handle_action(Action::SubmitSearch("rust".into()));
    assert_eq!(effects, vec![Effect::LoadSearch(1, "rust".into(), None)]);
    assert!(s.loading.search_loading);
    assert_eq!(s.loading.search_request_id, 1);
}

#[test]
fn filter_change_searches_again_only_with_a_query() {
    let mut s = AppState::new();
    assert!(s.handle_action(Action::FilterCycleDown).is_empty());

    let mut s = AppState::new();
    s.search.query = "q".into();
    s.loading.search_request_id = 4;
    let effects = s.handle_action(Action::FilterCycleDown);
    let sort = SearchSort::Relevance.next();
    let options = SearchOptions { sort: Some(sort), date: None, item_type: None, length: None };
    assert_eq!(effects, vec![Effect::LoadSearch(5, "q".into(), Some(options))]);
    assert_eq!(s.search.filter.sort, sort);
    assert!(s.video_list.items.is_empty());
}

#[test]
fn search_options_follow_filters() {
    let s = AppState::new();
    assert_eq!(build_search_options(&s.search.filter), None);
    let mut f = AppState::new().search.filter;
    f.date = SearchDate::Week;
    f.item_type = SearchItemType::Video;
    assert_eq!(
        build_search_options(&f),
        Some(SearchOptions {
            sort: None,
            date: Some(SearchDate::Week),
            item_type: Some(SearchItemType::Video),
            length: None,
        })
    );
}

#[test]
fn quit_command_keeps_player_running() {
    let mut s = AppState::new();
    s.stop_player_on_exit = true;
    let effects = s.handle_action(Action::SubmitCommand("  q ".into()));
    assert_eq!(effects, vec![Effect::RecordGeometry]);
    assert!(s.should_quit);
    assert!(!s.stop_player_on_exit);
}

#[test]
fn stop_player_command() {
    let mut s = AppState::new();
    s.current_playback = Some(PlaybackSession { url: "u".into(), mode: PlayMode::Video });
    let effects = s.handle_action(Action::SubmitCommand("stop-player".into()));
    assert_eq!(effects, vec![Effect::StopPlayer, Effect::ClearSession]);
    assert_eq!(s.command.message, Some("Stopped player".into()));
    assert_eq!(s.current_playback, None);
    assert_eq!(s.player_state, PlayerState::Stopped);
}

#[test]
fn import_cookies_command_trims_path() {
    let mut s = AppState::new();
    let effects = s.handle_action(Action::SubmitCommand("import-cookies   ~/cookies.txt  ".into()));
    assert_eq!(effects, vec![Effect::ImportCookies("~/cookies.txt".into())]);
}

#[test]
fn unknown_command_is_reported() {
    let mut s = AppState::new();
    let effects = s.handle_action(Action::SubmitCommand("frobnicate".into()));
    assert!(effects.is_empty());
    assert_eq!(s.command.message, Some("Unknown command: frobnicate".into()));
}

#[test]
fn select_in_results_loads_detail() {
    let mut s = AppState::new();
    s.view = View::Search;
    s.video_list.items = vec![FeedItem::Video(video("a")), FeedItem::Channel(channel("UC9", "Nine"))];
    let effects = s.handle_action(Action::Select);
    assert_eq!(effects, vec![Effect::LoadVideoDetail(1, "a".into(), Some(video("a")))]);
    assert!(s.loading.detail_loading);

    s.video_list.selected = 1;
    let effects = s.handle_action(Action::Select);
    assert_eq!(effects, vec![Effect::LoadChannel(2, "UC9".into())]);
}

#[test]
fn select_saved_search_runs_it() {
    let mut s = AppState::new();
    s.tabs.active = Tab::SavedSearches;
    s.saved_searches.items = vec![SavedSearch {
        id: 7,
        name: "Rust".into(),
        query: "rust lang".into(),
        sort: SearchSort::Views,
        date: SearchDate::Any,
        item_type: SearchItemType::All,
        length: SearchLength::Any,
        created_at: "c".into(),
        last_run_at: None,
    }];
    let effects = s.handle_action(Action::Select);
    let options = SearchOptions { sort: Some(SearchSort::Views), date: None, item_type: None, length: None };
    assert_eq!(
        effects,
        vec![
            Effect::MarkSearchRun(7),
            Effect::LoadSearch(1, "rust lang".into(), Some(options)),
            Effect::ReloadSavedSearches,
        ]
    );
    assert_eq!(s.view, View::Search);
    assert_eq!(s.previous_views, vec![View::Home]);
    assert_eq!(s.search.query, "rust lang");
    assert_eq!(s.search.cursor, 9);
}

#[test]
fn select_detail_actions_play() {
    let detail = VideoDetail { item: video("abc"), description: "".into(), like_count: None, keywords: vec![] };
    let mut s = AppState::new();
    s.view = View::VideoDetail("abc".into());
    s.detail = Some(DetailState { detail: detail.clone(), selected_action: 1 });
    let effects = s.handle_action(Action::Select);
    assert_eq!(
        effects,
        vec![Effect::StartPlayback(
            "https://www.youtube.com/watch?v=abc".into(),
            PlayMode::AudioOnly,
            "title abc".into(),
            Some(detail.clone())
        )]
    );
    s.detail = Some(DetailState { detail, selected_action: 2 });
    let effects = s.handle_action(Action::Select);
    assert_eq!(effects, vec![Effect::LoadChannel(1, "UC1".into())]);
}

#[test]
fn select_channel_button_toggles_subscription() {
    let mut s = AppState::new();
    s.view = View::ChannelDetail("UC1".into());
    s.channel_detail = Some(ChannelDetailState {
        detail: ChannelDetail { item: channel("UC1", "One"), description: "".into(), video_count: None, videos: vec![video("v")] },
        selected_action: 0,
        selected_video: 0,
        is_subscribed: true,
    });
    let effects = s.handle_action(Action::Select);
    assert_eq!(
        effects,
        vec![Effect::ChangeSubscription {
            change: SubscriptionChange::Unsubscribe("UC1".into()),
            name: "One".into(),
            report_errors: false,
            sync_detail: true,
        }]
    );
    s.channel_detail.as_mut().unwrap().selected_action = 1;
    let effects = s.handle_action(Action::Select);
    assert_eq!(effects, vec![Effect::LoadVideoDetail(1, "v".into(), Some(video("v")))]);
}

#[test]
fn switch_tab_loads_feed() {
    let mut s = AppState::new();
    assert_eq!(s.handle_action(Action::SwitchTab(Tab::History)), vec![Effect::LoadFeed(1, FeedSource::History)]);
    assert!(s.loading.feed_loading);
    assert_eq!(s.handle_action(Action::SwitchTab(Tab::SavedSearches)), vec![Effect::ReloadSavedSearches]);
    assert_eq!(s.loading.feed_request_id, 1);
}

#[test]
fn quality_toggle_without_playback_reports() {
    let mut s = AppState::new();
    assert!(s.handle_action(Action::TogglePlaybackQuality).is_empty());
    assert_eq!(s.playback_quality, PlaybackQuality::P720);
    assert_eq!(s.command.message, Some("Playback quality: 720p".into()));
}

#[test]
fn quality_toggle_reloads_current_media() {
    let mut s = AppState::new();
    s.current_playback = Some(PlaybackSession { url: "u".into(), mode: PlayMode::Video });
    s.player_state = PlayerState::Paused(PlayerInfo { title: "".into(), time_pos_bits: 42, duration_bits: 0, volume_bits: 0 });
    let effects = s.handle_action(Action::TogglePlaybackQuality);
    assert_eq!(
        effects,
        vec![Effect::ReloadPlayback(ReloadPlan {
            url: "u".into(),
            mode: PlayMode::Video,
            label: "current media".into(),
            paused: true,
            resume_at_bits: 42,
        })]
    );
    s.playback_reloaded(true);
    assert_eq!(s.command.message, Some("Playback quality: 720p (reloaded current media)".into()));
}

#[test]
fn play_actions_build_urls() {
    let mut s = AppState::new();
    assert_eq!(
        s.handle_action(Action::PlayVideo("xyz".into())),
        vec![Effect::StartPlayback("https://www.youtube.com/watch?v=xyz".into(), PlayMode::Video, "video".into(), None)]
    );
    assert_eq!(
        s.handle_action(Action::PlayAudio("xyz".into())),
        vec![Effect::StartPlayback(
            "https://www.youtube.com/watch?v=xyz".into(),
            PlayMode::AudioOnly,
            "audio stream".into(),
            None
        )]
    );
}

#[test]
fn navigating_near_the_end_loads_more() {
    let mut s = AppState::new();
    s.view = View::Search;
    s.search.query = "q".into();
    s.video_list.items = vec![FeedItem::Video(video("1")), FeedItem::Video(video("2"))];
    s.video_list.continuation = Some("tok".into());
    let effects = s.handle_action(Action::Navigate(Direction::Down));
    assert_eq!(effects, vec![Effect::FetchThumbnails, Effect::LoadMoreSearch(0, "q".into(), "tok".into())]);
    assert!(s.loading.loading_more_search);
    // Already loading: only thumbnails.
    assert_eq!(s.handle_action(Action::Navigate(Direction::Down)), vec![Effect::FetchThumbnails]);
}

#[test]
fn subscribe_selected_needs_a_channel() {
    let mut s = AppState::new();
    assert!(s.handle_action(Action::SubscribeSelected).is_empty());
    assert_eq!(s.command.message, Some("Select a channel to subscribe".into()));

    let mut s = AppState::new();
    s.cards.items = vec![FeedItem::Channel(channel("UC2", "Two"))];
    let effects = s.handle_action(Action::SubscribeSelected);
    assert_eq!(
        effects,
        vec![Effect::ChangeSubscription {
            change: SubscriptionChange::Toggle(channel("UC2", "Two")),
            name: "Two".into(),
            report_errors: false,
            sync_detail: false,
        }]
    );
}

#[test]
fn unsubscribe_uses_page_name() {
    let mut s = AppState::new();
    s.channel_detail = Some(ChannelDetailState {
        detail: ChannelDetail { item: channel("UC1", "One"), description: "".into(), video_count: None, videos: vec![] },
        selected_action: 0,
        selected_video: 0,
        is_subscribed: true,
    });
    let effects = s.handle_action(Action::Unsubscribe("UC1".into()));
    assert_eq!(
        effects,
        vec![Effect::ChangeSubscription {
            change: SubscriptionChange::Unsubscribe("UC1".into()),
            name: "One".into(),
            report_errors: true,
            sync_detail: true,
        }]
    );
    let effects = s.handle_action(Action::Unsubscribe("UC7".into()));
    match &effects[0] {
        Effect::ChangeSubscription { name, .. } => assert_eq!(name, "UC7"),
        other => panic!("unexpected {:?}", other),
    }
}

#[test]
fn popup_submit_saves_search() {
    let mut s = AppState::new();
    s.search.query = "q".into();
    s.popup = Some(PopupState::SaveSearch { input: "mine".into(), cursor: 4 });
    let effects = s.handle_action(Action::PopupSubmit);
    assert_eq!(
        effects,
        vec![Effect::SaveSearch {
            name: "mine".into(),
            query: "q".into(),
            sort: SearchSort::Relevance,
            date: SearchDate::Any,
            item_type: SearchItemType::All,
            length: SearchLength::Any,
        }]
    );
    assert!(s.popup.is_none());

    s.popup = Some(PopupState::Rename { id: 3, input: "".into(), cursor: 0 });
    assert!(s.handle_action(Action::PopupSubmit).is_empty());
    s.popup = Some(PopupState::ConfirmDelete { id: 3, name: "x".into() });
    assert_eq!(s.handle_action(Action::PopupSubmit), vec![Effect::DeleteSavedSearch(3, "x".into())]);
}

#[test]
fn channel_page_waits_for_subscription_lookup() {
    let mut s = AppState::new();
    let page = ChannelDetail { item: channel("UC1", "One"), description: "".into(), video_count: None, videos: vec![] };
    let effects = s.handle_action(Action::ChannelDetailLoaded(0, page));
    assert_eq!(effects.len(), 1);
    assert!(matches!(effects[0], Effect::ResolveChannelDetail(0, _)));
    assert!(s.channel_detail.is_none());
}

#[test]
fn thumbnail_ready_is_decoded_first() {
    let mut s = AppState::new();
    let key = FeedItem::Video(video("a")).thumbnail_key();
    let effects = s.handle_action(Action::ThumbnailReady(key.clone(), "/p.jpg".into()));
    assert_eq!(effects, vec![Effect::DecodeThumbnail(key, "/p.jpg".into())]);
}

#[test]
fn search_started_later_makes_earlier_results_stale() {
    let mut s = AppState::new();
    s.handle_action(Action::SubmitSearch("one".into()));
    s.handle_action(Action::SubmitSearch("two".into()));
    s.handle_action(Action::SearchResults(
        1,
        youtube_terminal::models::FeedPage { items: vec![FeedItem::Video(video("old"))], continuation: None },
    ));
    assert!(s.video_list.items.is_empty());
    assert!(s.loading.search_loading);
}
