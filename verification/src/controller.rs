use vstd::prelude::*;
use vstd::view::View as _;
use crate::app::{AppState, LoadingState, Tab, View};
use crate::effects::{build_search_options, search_options_spec, Effect, FeedSource};
use crate::models::{VideoDetail, VideoItem};
use crate::session::RestoreLoad;

verus! {

/// Where the feed of a home tab comes from (the saved-searches tab has none).
pub open spec fn feed_source_of(t: Tab) -> FeedSource {
    match t {
        Tab::History => FeedSource::History,
        Tab::Subscriptions => FeedSource::Subscriptions,
        _ => FeedSource::ForYou,
    }
}

/// `s` with a new feed request under way.
pub open spec fn with_feed_request(s: AppState) -> AppState {
    AppState {
        loading: LoadingState {
            feed_request_id: (s.loading.feed_request_id + 1) as u64,
            feed_loading: true,
            ..s.loading
        },
        ..s
    }
}

/// `s` with a new detail request under way.
pub open spec fn with_detail_request(s: AppState) -> AppState {
    AppState {
        loading: LoadingState {
            detail_request_id: (s.loading.detail_request_id + 1) as u64,
            detail_loading: true,
            ..s.loading
        },
        ..s
    }
}

/// The state after starting the active tab's feed load: unchanged for the
/// saved-searches tab, else with a new feed request.
pub open spec fn feed_load_post(pre: AppState) -> AppState {
    if pre.tabs.active == Tab::SavedSearches {
        pre
    } else {
        with_feed_request(pre)
    }
}

/// The load for the active tab's feed: none for the saved-searches tab, else
/// the tab's source under the new feed request.
pub open spec fn feed_load_effect(pre: AppState) -> Option<Effect> {
    if pre.tabs.active == Tab::SavedSearches {
        None
    } else {
        Some(
            Effect::LoadFeed(
                (pre.loading.feed_request_id + 1) as u64,
                feed_source_of(pre.tabs.active),
            ),
        )
    }
}

/// An optional effect as a sequence of effects.
pub open spec fn opt_effects(e: Option<Effect>) -> Seq<Effect> {
    match e {
        Some(x) => seq![x],
        None => Seq::empty(),
    }
}

/// The next page of search results is due: in the search view, when no
/// search is loading, a next page exists and the selection is within the
/// last three results.
pub open spec fn load_more_due(pre: AppState) -> bool {
    let total = pre.video_list.items@.len() as int;
    let start = if total >= 3 {
        total - 3
    } else {
        0
    };
    pre.view == View::Search && !pre.loading.search_loading && !pre.loading.loading_more_search
        && total > 0 && pre.video_list.selected >= start && pre.video_list.continuation is Some
}

/// The state after asking for the next page when it is due.
pub open spec fn load_more_post(pre: AppState) -> AppState {
    if load_more_due(pre) {
        AppState { loading: LoadingState { loading_more_search: true, ..pre.loading }, ..pre }
    } else {
        pre
    }
}

/// The request for the next page, when it is due.
pub open spec fn load_more_effect(pre: AppState) -> Option<Effect> {
    if load_more_due(pre) {
        Some(
            Effect::LoadMoreSearch(
                pre.loading.search_request_id,
                pre.search.query,
                pre.video_list.continuation->0,
            ),
        )
    } else {
        None
    }
}

impl AppState {
    /// Starts loading the active tab's feed, returning the load to perform
    /// (none for the saved-searches tab, whose list is local).
    pub fn begin_feed_load(&mut self) -> (e: Option<Effect>)
        requires
            old(self).loading.feed_request_id < u64::MAX,
        ensures
            *final(self) == feed_load_post(*old(self)),
            e == feed_load_effect(*old(self)),
    {
        if self.tabs.active == Tab::SavedSearches {
            return None;
        }
        self.loading.feed_request_id = self.loading.feed_request_id + 1;
        self.loading.feed_loading = true;
        let source = match self.tabs.active {
            Tab::History => FeedSource::History,
            Tab::Subscriptions => FeedSource::Subscriptions,
            _ => FeedSource::ForYou,
        };
        Some(Effect::LoadFeed(self.loading.feed_request_id, source))
    }

    /// Runs `query` with the current filters under the current search request.
    pub fn search_load(&self, query: String) -> (e: Effect)
        ensures
            e == Effect::LoadSearch(
                self.loading.search_request_id,
                query,
                search_options_spec(self.search.filter),
            ),
    {
        Effect::LoadSearch(self.loading.search_request_id, query, build_search_options(&self.search.filter))
    }

    /// Starts loading the detail of a listed video.
    pub fn load_video_detail(&mut self, video: VideoItem) -> (e: Effect)
        requires
            old(self).loading.detail_request_id < u64::MAX,
        ensures
            *final(self) == with_detail_request(*old(self)),
            e == Effect::LoadVideoDetail(final(self).loading.detail_request_id, video.id, Some(video)),
    {
        self.loading.detail_request_id = self.loading.detail_request_id + 1;
        self.loading.detail_loading = true;
        let id = video.id.clone();
        Effect::LoadVideoDetail(self.loading.detail_request_id, id, Some(video))
    }

    /// Starts loading the detail of the video with this id.
    pub fn load_video_detail_by_id(&mut self, video_id: String) -> (e: Effect)
        requires
            old(self).loading.detail_request_id < u64::MAX,
        ensures
            *final(self) == with_detail_request(*old(self)),
            e == Effect::LoadVideoDetail(final(self).loading.detail_request_id, video_id, None),
    {
        self.loading.detail_request_id = self.loading.detail_request_id + 1;
        self.loading.detail_loading = true;
        Effect::LoadVideoDetail(self.loading.detail_request_id, video_id, None)
    }

    /// Starts loading a channel page.
    pub fn load_channel(&mut self, channel_id: String) -> (e: Effect)
        requires
            old(self).loading.detail_request_id < u64::MAX,
        ensures
            *final(self) == with_detail_request(*old(self)),
            e == Effect::LoadChannel(final(self).loading.detail_request_id, channel_id),
    {
        self.loading.detail_request_id = self.loading.detail_request_id + 1;
        self.loading.detail_loading = true;
        Effect::LoadChannel(self.loading.detail_request_id, channel_id)
    }

    /// Starts loading a playlist page.
    pub fn load_playlist(&mut self, playlist_id: String) -> (e: Effect)
        requires
            old(self).loading.detail_request_id < u64::MAX,
        ensures
            *final(self) == with_detail_request(*old(self)),
            e == Effect::LoadPlaylist(final(self).loading.detail_request_id, playlist_id),
    {
        self.loading.detail_request_id = self.loading.detail_request_id + 1;
        self.loading.detail_loading = true;
        Effect::LoadPlaylist(self.loading.detail_request_id, playlist_id)
    }

    /// Asks for the next page of search results when the selection has come
    /// near the end of the list.
    pub fn load_more(&mut self) -> (e: Option<Effect>)
        ensures
            *final(self) == load_more_post(*old(self)),
            e == load_more_effect(*old(self)),
    {
        let is_search = match self.view {
            View::Search => true,
            _ => false,
        };
        if !is_search || self.loading.search_loading || self.loading.loading_more_search {
            return None;
        }
        let total = self.video_list.items.len();
        let start = if total >= 3 {
            total - 3
        } else {
            0
        };
        if total > 0 && self.video_list.selected >= start {
            match &self.video_list.continuation {
                Some(token) => {
                    let token = token.clone();
                    self.loading.loading_more_search = true;
                    let query = self.search.query.clone();
                    return Some(Effect::LoadMoreSearch(self.loading.search_request_id, query, token));
                },
                None => {},
            }
        }
        None
    }
}

/// What must be loaded to show a restored view: the tab's feed, a search
/// under the current request, or a new detail request.
pub open spec fn restore_load_spec(pre: AppState, post: AppState, load: RestoreLoad, effects: Seq<Effect>) -> bool {
    match load {
        RestoreLoad::Feed => post == feed_load_post(pre) && effects == opt_effects(feed_load_effect(pre)),
        RestoreLoad::Search(q) => post == pre && effects == seq![
            Effect::LoadSearch(pre.loading.search_request_id, q, search_options_spec(pre.search.filter)),
        ],
        RestoreLoad::VideoDetail(id) => post == with_detail_request(pre) && effects == seq![
            Effect::LoadVideoDetail(post.loading.detail_request_id, id, None),
        ],
        RestoreLoad::Channel(id) => post == with_detail_request(pre) && effects == seq![
            Effect::LoadChannel(post.loading.detail_request_id, id),
        ],
        RestoreLoad::Playlist(id) => post == with_detail_request(pre) && effects == seq![
            Effect::LoadPlaylist(post.loading.detail_request_id, id),
        ],
    }
}

impl AppState {
    /// Starts the load a restored session asks for.
    pub fn start_restore_load(&mut self, load: RestoreLoad) -> (effects: Vec<Effect>)
        requires
            old(self).loading.feed_request_id < u64::MAX,
            old(self).loading.detail_request_id < u64::MAX,
        ensures
            restore_load_spec(*old(self), *final(self), load, effects@),
    {
        let mut effects: Vec<Effect> = Vec::new();
        match load {
            RestoreLoad::Feed => {
                let e = self.begin_feed_load();
                match e {
                    Some(x) => effects.push(x),
                    None => {},
                }
            },
            RestoreLoad::Search(q) => {
                effects.push(self.search_load(q));
            },
            RestoreLoad::VideoDetail(id) => {
                effects.push(self.load_video_detail_by_id(id));
            },
            RestoreLoad::Channel(id) => {
                effects.push(self.load_channel(id));
            },
            RestoreLoad::Playlist(id) => {
                effects.push(self.load_playlist(id));
            },
        }
        effects
    }
}

/// A loaded detail completed from the listed video: a missing duration and
/// an empty thumbnail URL are taken from the list.
pub open spec fn completed_detail_item(d: VideoItem, listed: VideoItem) -> VideoItem {
    VideoItem {
        duration: if d.duration is None {
            listed.duration
        } else {
            d.duration
        },
        thumbnail_url: if d.thumbnail_url@.len() == 0 {
            listed.thumbnail_url
        } else {
            d.thumbnail_url
        },
        ..d
    }
}

/// Completes a loaded detail with what the listed video knew.
pub fn complete_detail(detail: VideoDetail, listed: &VideoItem) -> (r: VideoDetail)
    ensures
        r == (VideoDetail { item: completed_detail_item(detail.item, *listed), ..detail }),
{
    let mut detail = detail;
    if detail.item.duration.is_none() {
        detail.item.duration = listed.duration;
    }
    if detail.item.thumbnail_url.as_str().unicode_len() == 0 {
        detail.item.thumbnail_url = listed.thumbnail_url.clone();
    }
    detail
}

} // verus!
