use youtube_terminal::app::LoadedPage;
use youtube_terminal::controller::complete_detail;
use youtube_terminal::feed::{for_you_page, sort_newest_first};
use youtube_terminal::models::{FeedItem, VideoDetail, VideoItem};

fn video(id: &str, published: Option<i64>) -> VideoItem {
    VideoItem {
        id: id.into(),
        title: id.into(),
        channel: "c".into(),
        channel_id: "cid".into(),
        view_count: None,
        duration: None,
        published,
        thumbnail_url: "".into(),
    }
}

fn ids(v: &[VideoItem]) -> Vec<String> {
    v.iter().map(|x| x.id.clone()).collect()
}

#[test]
fn newest_first_across_channels() {
    let batches = vec![
        vec![video("a", Some(10)), video("b", Some(30))],
        vec![video("c", Some(20)), video("d", None), video("e", Some(30))],
    ];
    let sorted = sort_newest_first(&batches);
    // Same time keeps the order of arrival; unknown times come last.
    assert_eq!(ids(&sorted), vec!["b", "e", "c", "a", "d"]);
}

#[test]
fn for_you_page_wraps_videos() {
    let batches = vec![vec![video("x", Some(1))], vec![], vec![video("y", Some(2))]];
    match for_you_page(&batches) {
        LoadedPage::Home(page) => {
            assert_eq!(page.continuation, None);
            assert_eq!(page.items.len(), 2);
            assert_eq!(page.items[0], FeedItem::Video(video("y", Some(2))));
            assert_eq!(page.items[1], FeedItem::Video(video("x", Some(1))));
        }
        _ => panic!("For You is a home page"),
    }
}

#[test]
fn for_you_without_subscriptions_is_empty() {
    match for_you_page(&Vec::new()) {
        LoadedPage::Home(page) => assert!(page.items.is_empty()),
        _ => panic!("For You is a home page"),
    }
}

#[test]
fn detail_is_completed_from_the_list() {
    let mut listed = video("v", None);
    listed.duration = Some(90);
    listed.thumbnail_url = "http://thumb".into();
    let loaded = VideoDetail {
        item: video("v", Some(5)),
        description: "d".into(),
        like_count: None,
        keywords: vec![],
    };
    let done = complete_detail(loaded, &listed);
    assert_eq!(done.item.duration, Some(90));
    assert_eq!(done.item.thumbnail_url, "http://thumb");
    assert_eq!(done.item.published, Some(5));

    let mut own = video("v", None);
    own.duration = Some(10);
    own.thumbnail_url = "own".into();
    let loaded = VideoDetail { item: own, description: "".into(), like_count: None, keywords: vec![] };
    let done = complete_detail(loaded, &listed);
    assert_eq!(done.item.duration, Some(10));
    assert_eq!(done.item.thumbnail_url, "own");
}
