use vstd::prelude::*;
use vstd::view::View as _;
use crate::filters::{SearchDate, SearchItemType, SearchLength, SearchSort};
use crate::models::{ChannelDetail, ChannelItem, FeedItem, FeedPage, HistoryEntry, PlaylistDetail, ThumbnailKey, VideoDetail};
use crate::player::{PlaybackQuality, PlaybackSession, PlayerState};
use crate::saved_searches::SavedSearch;
use crate::session::PendingSessionRestore;
use crate::text::is_char_boundary;

verus! {

/// The screen the content area shows.
#[derive(Debug, PartialEq, Eq)]
pub enum View {
    Home,
    Search,
    VideoDetail(String),
    ChannelDetail(String),
    PlaylistDetail(String),
}

impl Clone for View {
    fn clone(&self) -> (r: Self)
        ensures
            r == *self,
    {
        match self {
            View::Home => View::Home,
            View::Search => View::Search,
            View::VideoDetail(id) => View::VideoDetail(id.clone()),
            View::ChannelDetail(id) => View::ChannelDetail(id.clone()),
            View::PlaylistDetail(id) => View::PlaylistDetail(id.clone()),
        }
    }
}

#[derive(Debug, Clone, Copy, PartialEq, Eq, Structural)]
pub enum Tab {
    ForYou,
    SavedSearches,
    Subscriptions,
    History,
}

#[derive(Debug, Clone, Copy, PartialEq, Eq, Structural)]
pub enum Direction {
    Up,
    Down,
    Left,
    Right,
}

/// A page delivered for the home tabs.
#[derive(Debug, PartialEq)]
pub enum LoadedPage {
    Home(FeedPage<FeedItem>),
    Subscriptions(FeedPage<ChannelItem>),
    History(FeedPage<HistoryEntry>),
}

/// Everything that can happen to the application: keys the user pressed and
/// results that background work delivered.
#[derive(Debug)]
pub enum Action {
    SwitchTab(Tab),
    Navigate(Direction),
    Select,
    Back,
    FocusSearch,
    UnfocusSearch,
    SubmitSearch(String),
    SearchInput(char),
    SearchBackspace,
    PlayVideo(String),
    PlayAudio(String),
    TogglePause,
    /// Relative seek in whole seconds.
    Seek(i64),
    VolumeUp,
    VolumeDown,
    TogglePlaybackQuality,
    PlaybackLoadSlow(u64),
    StopPlayer,
    StopPlayerAndQuit,
    FeedLoaded(u64, Box<LoadedPage>),
    SearchResults(u64, FeedPage<FeedItem>),
    AppendFeed(u64, Box<LoadedPage>),
    AppendSearch(u64, FeedPage<FeedItem>),
    DetailLoaded(u64, VideoDetail),
    ChannelDetailLoaded(u64, ChannelDetail),
    PlaylistDetailLoaded(u64, PlaylistDetail),
    /// A thumbnail is on disk at the given path.
    ThumbnailReady(ThumbnailKey, String),
    ThumbnailFailed(ThumbnailKey),
    PlayerStateUpdate(PlayerState),
    EnterCommandMode,
    CommandInput(char),
    CommandBackspace,
    SubmitCommand(String),
    CancelCommand,
    Subscribe(ChannelItem),
    Unsubscribe(String),
    SubscribeSelected,
    OpenSaveSearchPopup,
    OpenRenameSearchPopup,
    OpenDeleteSearchConfirm,
    PopupInput(char),
    PopupBackspace,
    PopupSubmit,
    PopupCancel,
    EnterFilterMode,
    ExitFilterMode,
    FilterNextField,
    FilterPrevField,
    FilterCycleUp,
    FilterCycleDown,
    ResetFilters,
    /// A channel's subscriber count (channel id, count).
    RefreshSubscriberCount(String, u64),
    ShowError(String),
    Quit,
}

pub struct TabState {
    pub active: Tab,
}

pub struct SearchState {
    pub query: String,
    /// Byte offset of the cursor in `query`.
    pub cursor: usize,
    pub focused: bool,
    pub filter: SearchFilterState,
}

pub struct SearchFilterState {
    pub active: bool,
    /// 0 = sort, 1 = date, 2 = type, 3 = length.
    pub focused_index: usize,
    pub sort: SearchSort,
    pub date: SearchDate,
    pub item_type: SearchItemType,
    pub length: SearchLength,
}

pub open spec fn default_filter_spec() -> SearchFilterState {
    SearchFilterState {
        active: false,
        focused_index: 0,
        sort: SearchSort::Relevance,
        date: SearchDate::Any,
        item_type: SearchItemType::All,
        length: SearchLength::Any,
    }
}

pub open spec fn has_filters_spec(f: SearchFilterState) -> bool {
    f.sort != SearchSort::Relevance || f.date != SearchDate::Any || f.item_type
        != SearchItemType::All || f.length != SearchLength::Any
}

impl SearchFilterState {
    /// Filters off: relevance order, any date, all types, any length.
    pub fn new() -> (r: Self)
        ensures
            r == default_filter_spec(),
    {
        SearchFilterState {
            active: false,
            focused_index: 0,
            sort: SearchSort::Relevance,
            date: SearchDate::Any,
            item_type: SearchItemType::All,
            length: SearchLength::Any,
        }
    }

    /// Whether any filter differs from its default.
    pub fn has_filters(&self) -> (r: bool)
        ensures
            r == has_filters_spec(*self),
    {
        self.sort != SearchSort::Relevance || self.date != SearchDate::Any || self.item_type
            != SearchItemType::All || self.length != SearchLength::Any
    }
}

pub struct CommandState {
    pub active: bool,
    pub input: String,
    pub message: Option<String>,
}

#[derive(Debug)]
pub enum PopupState {
    SaveSearch { input: String, cursor: usize },
    ConfirmDelete { id: i64, name: String },
    Rename { id: i64, input: String, cursor: usize },
}

pub struct SavedSearchListState {
    pub items: Vec<SavedSearch>,
    pub selected: usize,
}

pub struct CardGridState {
    pub items: Vec<FeedItem>,
    pub selected_row: usize,
    pub selected_col: usize,
    pub columns: usize,
    pub continuation: Option<String>,
}

pub struct VideoListState {
    pub items: Vec<FeedItem>,
    pub selected: usize,
    pub continuation: Option<String>,
}

pub struct DetailState {
    pub detail: VideoDetail,
    pub selected_action: usize,
}

pub struct ChannelDetailState {
    pub detail: ChannelDetail,
    pub selected_action: usize,
    pub selected_video: usize,
    pub is_subscribed: bool,
}

pub struct PlaylistDetailState {
    pub detail: PlaylistDetail,
    pub selected_action: usize,
}

pub struct LoadingState {
    pub feed_loading: bool,
    pub feed_request_id: u64,
    pub search_loading: bool,
    pub search_request_id: u64,
    pub detail_loading: bool,
    pub detail_request_id: u64,
    pub loading_more_feed: bool,
    pub loading_more_search: bool,
    /// Thumbnails being downloaded.
    pub thumbnail_loading: Vec<ThumbnailKey>,
    pub playback_request_id: u64,
}

/// A playback start that has not reported yet; `started_at_ms` is the
/// caller's monotonic clock reading when it began.
pub struct PlaybackLoadState {
    pub request_id: u64,
    pub label: String,
    pub started_at_ms: u64,
    pub slow: bool,
}

pub struct AppState {
    pub view: View,
    pub previous_views: Vec<View>,
    pub tabs: TabState,
    pub search: SearchState,
    pub command: CommandState,
    pub cards: CardGridState,
    pub video_list: VideoListState,
    pub detail: Option<DetailState>,
    pub channel_detail: Option<ChannelDetailState>,
    pub playlist_detail: Option<PlaylistDetailState>,
    pub subscription_channels: Vec<ChannelItem>,
    pub saved_searches: SavedSearchListState,
    pub popup: Option<PopupState>,
    pub player_state: PlayerState,
    pub playback_quality: PlaybackQuality,
    pub current_playback: Option<PlaybackSession>,
    pub last_mpv_geometry: Option<String>,
    pub playback_loading: Option<PlaybackLoadState>,
    pub pending_restore: Option<PendingSessionRestore>,
    pub loading: LoadingState,
    pub stop_player_on_exit: bool,
    pub should_quit: bool,
}

/// Text cursors sit on character boundaries of the text they edit.
pub open spec fn popup_wf(p: Option<PopupState>) -> bool {
    match p {
        Some(PopupState::SaveSearch { input, cursor }) => is_char_boundary(input@, cursor as int),
        Some(PopupState::Rename { input, cursor, .. }) => is_char_boundary(input@, cursor as int),
        _ => true,
    }
}

/// No two entries name the same thumbnail.
pub open spec fn keys_distinct(keys: Seq<ThumbnailKey>) -> bool {
    forall|i: int, j: int|
        0 <= i < j < keys.len() ==> !(#[trigger] keys[i].item_type == #[trigger] keys[j].item_type
            && keys[i].item_id@ == keys[j].item_id@)
}

impl AppState {
    /// Well-formedness: every text cursor lies on a character boundary, and
    /// no thumbnail is marked as loading twice.
    pub open spec fn wf(&self) -> bool {
        &&& is_char_boundary(self.search.query@, self.search.cursor as int)
        &&& popup_wf(self.popup)
        &&& keys_distinct(self.loading.thumbnail_loading@)
    }

    /// The state at start-up: home view on the For You tab, nothing loaded,
    /// nothing playing, 1080p quality, three grid columns.
    pub fn new() -> (s: Self)
        ensures
            s.wf(),
            s.view == View::Home,
            s.previous_views@.len() == 0,
            s.tabs.active == Tab::ForYou,
            s.search.query@.len() == 0,
            s.search.cursor == 0,
            !s.search.focused,
            s.search.filter == default_filter_spec(),
            !s.command.active,
            s.command.input@.len() == 0,
            s.command.message is None,
            s.cards.items@.len() == 0,
            s.cards.selected_row == 0,
            s.cards.selected_col == 0,
            s.cards.columns == 3,
            s.cards.continuation is None,
            s.video_list.items@.len() == 0,
            s.video_list.selected == 0,
            s.video_list.continuation is None,
            s.detail is None,
            s.channel_detail is None,
            s.playlist_detail is None,
            s.subscription_channels@.len() == 0,
            s.saved_searches.items@.len() == 0,
            s.saved_searches.selected == 0,
            s.popup is None,
            s.player_state == PlayerState::Stopped,
            s.playback_quality == PlaybackQuality::P1080,
            s.current_playback is None,
            s.last_mpv_geometry is None,
            s.playback_loading is None,
            s.pending_restore is None,
            !s.loading.feed_loading,
            s.loading.feed_request_id == 0,
            !s.loading.search_loading,
            s.loading.search_request_id == 0,
            !s.loading.detail_loading,
            s.loading.detail_request_id == 0,
            !s.loading.loading_more_feed,
            !s.loading.loading_more_search,
            s.loading.thumbnail_loading@.len() == 0,
            s.loading.playback_request_id == 0,
            !s.stop_player_on_exit,
            !s.should_quit,
    {
        let s = AppState {
            view: View::Home,
            previous_views: Vec::new(),
            tabs: TabState { active: Tab::ForYou },
            search: SearchState {
                query: String::new(),
                cursor: 0,
                focused: false,
                filter: SearchFilterState::new(),
            },
            command: CommandState { active: false, input: String::new(), message: None },
            cards: CardGridState {
                items: Vec::new(),
                selected_row: 0,
                selected_col: 0,
                columns: 3,
                continuation: None,
            },
            video_list: VideoListState { items: Vec::new(), selected: 0, continuation: None },
            detail: None,
            channel_detail: None,
            playlist_detail: None,
            subscription_channels: Vec::new(),
            saved_searches: SavedSearchListState { items: Vec::new(), selected: 0 },
            popup: None,
            player_state: PlayerState::Stopped,
            playback_quality: PlaybackQuality::P1080,
            current_playback: None,
            last_mpv_geometry: None,
            playback_loading: None,
            pending_restore: None,
            loading: LoadingState {
                feed_loading: false,
                feed_request_id: 0,
                search_loading: false,
                search_request_id: 0,
                detail_loading: false,
                detail_request_id: 0,
                loading_more_feed: false,
                loading_more_search: false,
                thumbnail_loading: Vec::new(),
                playback_request_id: 0,
            },
            stop_player_on_exit: false,
            should_quit: false,
        };
        proof {
            assert(s.search.query@.take(0) =~= Seq::<char>::empty());
            assert(crate::text::is_boundary_at(s.search.query@, 0, 0));
        }
        s
    }
}

} // verus!
