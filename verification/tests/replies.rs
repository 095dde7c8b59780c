use youtube_terminal::app::{AppState, ChannelDetailState, Tab, View};
use youtube_terminal::effects::{Effect, SavedSearchOp};
use youtube_terminal::models::{ChannelDetail, ChannelItem, FeedItem, ItemType, ThumbnailKey, VideoItem};
use youtube_terminal::imagery::ThumbnailCache;
use youtube_terminal::player::{PlayMode, PlaybackSession};
use youtube_terminal::saved_searches::SavedSearch;
use youtube_terminal::filters::{SearchDate, SearchItemType, SearchLength, SearchSort};
use youtube_terminal::session::RestoreLoad;

fn channel(id: &str, name: &str, count: Option<u64>) -> ChannelItem {
    ChannelItem { id: id.into(), name: name.into(), subscriber_count: count, thumbnail_url: "http://a".into() }
}

fn video(id: &str) -> VideoItem {
    VideoItem {
        id: id.into(),
        title: id.into(),
        channel: "".into(),
        channel_id: "".into(),
        view_count: None,
        duration: None,
        published: None,
        thumbnail_url: format!("http://img/{}", id),
    }
}

fn saved(id: i64, name: &str) -> SavedSearch {
    SavedSearch {
        id,
        name: name.into(),
        query: "q".into(),
        sort: SearchSort::Relevance,
        date: SearchDate::Any,
        item_type: SearchItemType::All,
        length: SearchLength::Any,
        created_at: "".into(),
        last_run_at: None,
    }
}

#[test]
fn playback_started_records_session() {
    let mut s = AppState::new();
    let id = s.playback_started("u".into(), PlayMode::Video, "Title".into(), 1000);
    assert_eq!(id, 1);
    let loading = s.playback_loading.as_ref().unwrap();
    assert_eq!(loading.request_id, 1);
    assert_eq!(loading.label, "Title");
    assert_eq!(loading.started_at_ms, 1000);
    assert!(!loading.slow);
    assert_eq!(s.current_playback, Some(PlaybackSession { url: "u".into(), mode: PlayMode::Video }));
}

#[test]
fn playback_failure_is_reported() {
    let mut s = AppState::new();
    s.playback_failed("no such file");
    assert_eq!(s.command.message, Some("Playback error: no such file (is mpv installed?)".into()));
}

#[test]
fn geometry_is_kept_unless_blank() {
    let mut s = AppState::new();
    s.record_geometry("  ".into());
    assert_eq!(s.last_mpv_geometry, None);
    s.record_geometry("640x360+0+0".into());
    assert_eq!(s.last_mpv_geometry, Some("640x360+0+0".into()));
}

#[test]
fn cookie_import_outcomes() {
    let mut s = AppState::new();
    s.cookies_imported(Ok(()));
    assert_eq!(s.command.message, Some("Cookies imported \u{2014} playback will use your account".into()));
    s.cookies_imported(Err("cookie file not found: x".into()));
    assert_eq!(s.command.message, Some("Error: cookie file not found: x".into()));
}

#[test]
fn subscription_outcomes() {
    let mut s = AppState::new();
    s.channel_detail = Some(ChannelDetailState {
        detail: ChannelDetail { item: channel("UC1", "One", None), description: "".into(), video_count: None, videos: vec![] },
        selected_action: 0,
        selected_video: 0,
        is_subscribed: false,
    });
    s.subscription_changed("UC1", "One", true, Ok(()), true, true);
    assert_eq!(s.command.message, Some("Subscribed to One".into()));
    assert!(s.channel_detail.as_ref().unwrap().is_subscribed);

    s.subscription_changed("UC1", "One", false, Err("locked".into()), true, true);
    assert_eq!(s.command.message, Some("Unsubscribe error: locked".into()));
    assert!(s.channel_detail.as_ref().unwrap().is_subscribed);

    s.command.message = None;
    s.subscription_changed("UC1", "One", false, Err("locked".into()), false, true);
    assert_eq!(s.command.message, None);

    s.subscription_changed("UC2", "Two", false, Ok(()), true, true);
    assert_eq!(s.command.message, Some("Unsubscribed from Two".into()));
    assert!(s.channel_detail.as_ref().unwrap().is_subscribed);
}

#[test]
fn saved_search_outcomes() {
    let mut s = AppState::new();
    s.saved_searches.selected = 5;
    s.saved_search_done(SavedSearchOp::Delete, "old", Ok(vec![saved(1, "a"), saved(2, "b")]));
    assert_eq!(s.command.message, Some("Deleted \"old\"".into()));
    assert_eq!(s.saved_searches.items.len(), 2);
    assert_eq!(s.saved_searches.selected, 1);

    s.saved_search_done(SavedSearchOp::Save, "new", Ok(vec![]));
    assert_eq!(s.command.message, Some("Saved search \"new\"".into()));
    assert_eq!(s.saved_searches.selected, 1);

    s.saved_search_done(SavedSearchOp::Rename, "x", Err("busy".into()));
    assert_eq!(s.command.message, Some("Rename error: busy".into()));
}

#[test]
fn channel_page_with_subscription() {
    let mut s = AppState::new();
    s.subscription_channels = vec![channel("UC1", "One", Some(1)), channel("UC2", "Two", Some(2))];
    let page = ChannelDetail { item: channel("UC1", "One", Some(99)), description: "".into(), video_count: None, videos: vec![] };
    let effects = s.channel_detail_loaded(0, page, true);
    assert_eq!(effects, vec![Effect::UpdateSubscriberCount("UC1".into(), 99)]);
    assert_eq!(s.subscription_channels[0].subscriber_count, Some(99));
    assert_eq!(s.subscription_channels[1].subscriber_count, Some(2));
    assert_eq!(s.view, View::ChannelDetail("UC1".into()));
    assert!(s.channel_detail.as_ref().unwrap().is_subscribed);

    let page = ChannelDetail { item: channel("UC3", "Three", Some(7)), description: "".into(), video_count: None, videos: vec![] };
    assert!(s.channel_detail_loaded(0, page, false).is_empty());
    assert!(!s.channel_detail.as_ref().unwrap().is_subscribed);
}

#[test]
fn thumbnail_marking_and_decoding() {
    let mut s = AppState::new();
    let key = ThumbnailKey { item_type: ItemType::Video, item_id: "a".into() };
    assert!(s.mark_thumbnail_loading(key.clone()));
    assert!(!s.mark_thumbnail_loading(key.clone()));
    assert_eq!(s.loading.thumbnail_loading.len(), 1);
    let effects = s.thumbnail_decoded(key.clone(), "/a.jpg".into(), true);
    assert_eq!(effects, vec![Effect::StoreThumbnailPath(key.clone(), "/a.jpg".into())]);
    assert!(s.loading.thumbnail_loading.is_empty());

    s.mark_thumbnail_loading(key.clone());
    let effects = s.thumbnail_decoded(key, "/a.jpg".into(), false);
    assert_eq!(effects, vec![Effect::RemoveFile("/a.jpg".into())]);
    assert!(s.loading.thumbnail_loading.is_empty());
}

#[test]
fn thumbnail_requests_around_selection() {
    let cache = ThumbnailCache::new();
    let mut s = AppState::new();
    s.view = View::Search;
    s.video_list.items = (0..30).map(|i| FeedItem::Video(video(&i.to_string()))).collect();
    s.video_list.selected = 10;
    s.mark_thumbnail_loading(ThumbnailKey { item_type: ItemType::Video, item_id: "6".into() });
    let reqs = s.thumbnail_requests(&cache);
    let ids: Vec<String> = reqs.iter().map(|r| r.key.item_id.clone()).collect();
    let expected: Vec<String> = (5..25).filter(|i| *i != 6).map(|i| i.to_string()).collect();
    assert_eq!(ids, expected);
    assert_eq!(reqs[0].url, "http://img/5");

    let mut s = AppState::new();
    s.cards.columns = 2;
    s.cards.selected_row = 2;
    s.cards.items = (0..20).map(|i| FeedItem::Video(video(&i.to_string()))).collect();
    let reqs = s.thumbnail_requests(&cache);
    let ids: Vec<String> = reqs.iter().map(|r| r.key.item_id.clone()).collect();
    let expected: Vec<String> = (2..10).map(|i| i.to_string()).collect();
    assert_eq!(ids, expected);

    let mut s = AppState::new();
    s.tabs.active = Tab::Subscriptions;
    s.subscription_channels = vec![channel("UC1", "One", None)];
    let reqs = s.thumbnail_requests(&cache);
    assert_eq!(reqs.len(), 1);
    assert_eq!(reqs[0].key.item_type, ItemType::Channel);
}

fn tiny_png() -> Vec<u8> {
    let img = image::RgbImage::from_pixel(1, 1, image::Rgb([1, 2, 3]));
    let mut out = std::io::Cursor::new(Vec::new());
    image::DynamicImage::ImageRgb8(img).write_to(&mut out, image::ImageFormat::Png).unwrap();
    out.into_inner()
}

#[test]
fn cached_thumbnails_are_not_requested_again() {
    let mut cache = ThumbnailCache::new();
    let png = tiny_png();
    cache.load(&ThumbnailKey { item_type: ItemType::Video, item_id: "7".into() }, &png, 2, 1).unwrap();
    let mut s = AppState::new();
    s.view = View::Search;
    s.video_list.items = (0..10).map(|i| FeedItem::Video(video(&i.to_string()))).collect();
    let reqs = s.thumbnail_requests(&cache);
    let ids: Vec<String> = reqs.iter().map(|r| r.key.item_id.clone()).collect();
    let expected: Vec<String> = (0..10).filter(|i| *i != 7).map(|i| i.to_string()).collect();
    assert_eq!(ids, expected);

    // An avatar in the cache is not fetched again on the subscriptions tab.
    cache.load_avatar(&ThumbnailKey { item_type: ItemType::Channel, item_id: "UC1".into() }, &png, 2).unwrap();
    let mut s = AppState::new();
    s.tabs.active = Tab::Subscriptions;
    s.subscription_channels = vec![channel("UC1", "One", None)];
    assert!(s.thumbnail_requests(&cache).is_empty());
}

#[test]
fn status_cleared_by_key_unless_typing_command() {
    let mut s = AppState::new();
    s.command.message = Some("m".into());
    s.command.active = true;
    s.clear_status_on_key();
    assert!(s.command.message.is_some());
    s.command.active = false;
    s.clear_status_on_key();
    assert!(s.command.message.is_none());
}

#[test]
fn feed_load_by_tab() {
    let mut s = AppState::new();
    assert_eq!(s.begin_feed_load(), Some(Effect::LoadFeed(1, youtube_terminal::effects::FeedSource::ForYou)));
    s.tabs.active = Tab::SavedSearches;
    assert_eq!(s.begin_feed_load(), None);
    assert_eq!(s.loading.feed_request_id, 1);
}

#[test]
fn restore_loads() {
    let mut s = AppState::new();
    assert_eq!(s.start_restore_load(RestoreLoad::Channel("UC1".into())), vec![Effect::LoadChannel(1, "UC1".into())]);
    assert_eq!(
        s.start_restore_load(RestoreLoad::VideoDetail("v".into())),
        vec![Effect::LoadVideoDetail(2, "v".into(), None)]
    );
    assert_eq!(s.start_restore_load(RestoreLoad::Search("q".into())), vec![Effect::LoadSearch(0, "q".into(), None)]);
}

#[test]
fn columns_follow_width() {
    let mut s = AppState::new();
    s.update_columns(0);
    assert_eq!(s.cards.columns, 1);
    s.update_columns(104);
    assert_eq!(s.cards.columns, 2);
    s.update_columns(155);
    assert_eq!(s.cards.columns, 3);
}

#[test]
fn selected_items() {
    let mut s = AppState::new();
    s.cards.columns = 2;
    s.cards.items = vec![FeedItem::Video(video("a")), FeedItem::Video(video("b")), FeedItem::Video(video("c"))];
    s.cards.selected_row = 1;
    assert_eq!(s.selected_card_index(), 2);
    assert_eq!(s.selected_card_item(), Some(&FeedItem::Video(video("c"))));
    s.cards.selected_col = 1;
    assert_eq!(s.selected_card_item(), None);
    assert_eq!(s.selected_list_item(), None);
}
