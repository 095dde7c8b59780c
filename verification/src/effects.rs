use vstd::prelude::*;
use crate::app::{has_filters_spec, SearchFilterState};
use crate::filters::{SearchDate, SearchItemType, SearchLength, SearchSort};
use crate::models::{ChannelDetail, ChannelItem, ThumbnailKey, VideoDetail, VideoItem};
use crate::player::PlayMode;

verus! {

/// Where the feed of a home tab comes from.
#[derive(Debug, Clone, Copy, PartialEq, Eq, Structural)]
pub enum FeedSource {
    /// The local watch history.
    History,
    /// The local list of subscribed channels.
    Subscriptions,
    /// The latest videos of every subscribed channel, newest first.
    ForYou,
}

/// Filters handed to a search; `None` leaves a filter at its default.
#[derive(Debug, Clone, Copy, PartialEq, Eq, Structural)]
pub struct SearchOptions {
    pub sort: Option<SearchSort>,
    pub date: Option<SearchDate>,
    pub item_type: Option<SearchItemType>,
    pub length: Option<SearchLength>,
}

/// The options a search runs with: none at all when every filter is at its
/// default, else each filter that differs from its default.
pub open spec fn search_options_spec(f: SearchFilterState) -> Option<SearchOptions> {
    if !has_filters_spec(f) {
        None
    } else {
        Some(
            SearchOptions {
                sort: if f.sort != SearchSort::Relevance {
                    Some(f.sort)
                } else {
                    None
                },
                date: if f.date != SearchDate::Any {
                    Some(f.date)
                } else {
                    None
                },
                item_type: if f.item_type != SearchItemType::All {
                    Some(f.item_type)
                } else {
                    None
                },
                length: if f.length != SearchLength::Any {
                    Some(f.length)
                } else {
                    None
                },
            },
        )
    }
}

/// The options a search with these filters runs with.
pub fn build_search_options(filter: &SearchFilterState) -> (r: Option<SearchOptions>)
    ensures
        r == search_options_spec(*filter),
{
    if !filter.has_filters() {
        return None;
    }
    Some(
        SearchOptions {
            sort: if filter.sort != SearchSort::Relevance {
                Some(filter.sort)
            } else {
                None
            },
            date: if filter.date != SearchDate::Any {
                Some(filter.date)
            } else {
                None
            },
            item_type: if filter.item_type != SearchItemType::All {
                Some(filter.item_type)
            } else {
                None
            },
            length: if filter.length != SearchLength::Any {
                Some(filter.length)
            } else {
                None
            },
        },
    )
}

/// A change to the subscriptions the caller stores.
#[derive(Debug, PartialEq)]
pub enum SubscriptionChange {
    Subscribe(ChannelItem),
    /// Unsubscribe from the channel with this id.
    Unsubscribe(String),
    /// Unsubscribe when subscribed, else subscribe.
    Toggle(ChannelItem),
}

/// A change to the stored saved searches.
#[derive(Debug, Clone, Copy, PartialEq, Eq, Structural)]
pub enum SavedSearchOp {
    Save,
    Delete,
    Rename,
}

/// Playing the current media again (after a quality change): where, how,
/// under which label, whether to pause it again, and the position to seek
/// back to (the bits of the player's `f64` seconds).
#[derive(Debug, PartialEq)]
pub struct ReloadPlan {
    pub url: String,
    pub mode: PlayMode,
    pub label: String,
    pub paused: bool,
    pub resume_at_bits: u64,
}

/// A thumbnail to fetch: its key and where to download it from.
#[derive(Debug, PartialEq)]
pub struct ThumbnailRequest {
    pub key: ThumbnailKey,
    pub url: String,
}

/// Work the caller carries out on the state machine's behalf: loads whose
/// results come back as actions, player control, and storage.
#[derive(Debug, PartialEq)]
pub enum Effect {
    /// Load the feed of a home tab; answer with `FeedLoaded(id, ..)`.
    LoadFeed(u64, FeedSource),
    /// Run a search (query, options); answer with `SearchResults(id, ..)`.
    LoadSearch(u64, String, Option<SearchOptions>),
    /// Fetch the next page (query, continuation); answer with `AppendSearch(id, ..)`.
    LoadMoreSearch(u64, String, String),
    /// Load a video's detail, from the metadata cache when it is there; the
    /// listed video fills in what the detail lacks. Answer with `DetailLoaded(id, ..)`.
    LoadVideoDetail(u64, String, Option<VideoItem>),
    /// Load a channel page; answer with `ChannelDetailLoaded(id, ..)`.
    LoadChannel(u64, String),
    /// Load a playlist page; answer with `PlaylistDetailLoaded(id, ..)`.
    LoadPlaylist(u64, String),
    /// Read the saved searches again into the state.
    ReloadSavedSearches,
    /// Record that the saved search with this id ran now.
    MarkSearchRun(i64),
    /// Ask the player for its window geometry and pass it to `record_geometry`.
    RecordGeometry,
    /// Record the geometry, then stop the player.
    StopPlayer,
    /// Delete the stored session.
    ClearSession,
    /// Start playing (url, mode, label); report with `playback_started` or
    /// `playback_failed`. A started video whose detail is given goes into
    /// the watch history.
    StartPlayback(String, PlayMode, String, Option<VideoDetail>),
    /// Play the current media again and report with `playback_reloaded`.
    ReloadPlayback(ReloadPlan),
    TogglePause,
    /// Relative seek in seconds.
    Seek(i64),
    /// Raise (`true`) or lower the volume by one step.
    ChangeVolume(bool),
    /// Import the cookie file at this path; report with `cookies_imported`.
    ImportCookies(String),
    /// Store a subscription change and report with `subscription_changed`;
    /// `name` is what the report mentions.
    ChangeSubscription {
        change: SubscriptionChange,
        name: String,
        report_errors: bool,
        sync_detail: bool,
    },
    /// Store a saved search; report with `saved_search_done`.
    SaveSearch {
        name: String,
        query: String,
        sort: SearchSort,
        date: SearchDate,
        item_type: SearchItemType,
        length: SearchLength,
    },
    /// Delete the saved search (id, name); report with `saved_search_done`.
    DeleteSavedSearch(i64, String),
    /// Rename the saved search (id, new name); report with `saved_search_done`.
    RenameSavedSearch(i64, String),
    /// Cache a loaded detail's metadata and its large thumbnail.
    CacheDetail(VideoDetail),
    /// Look up whether the channel is subscribed and pass the answer to
    /// `channel_detail_loaded` with this request id and page.
    ResolveChannelDetail(u64, ChannelDetail),
    /// Store a channel's subscriber count.
    UpdateSubscriberCount(String, u64),
    /// Fetch the thumbnails `thumbnail_requests` lists for the render cache,
    /// marking each download with `mark_thumbnail_loading`.
    FetchThumbnails,
    /// Decode the downloaded image and report with `thumbnail_decoded`.
    DecodeThumbnail(ThumbnailKey, String),
    /// Record where a thumbnail is stored.
    StoreThumbnailPath(ThumbnailKey, String),
    /// Delete the file at this path.
    RemoveFile(String),
}

} // verus!
