use vstd::prelude::*;
use vstd::view::View as _;
use crate::app::{AppState, Tab, View};
use crate::dispatch::{is_channel_detail_of, is_playlist_detail_of, is_video_detail_of};
use crate::player::{PlaybackQuality, PlaybackSession, PlayerState};
use crate::text::{byte_len, fits_counters, utf8_len};

verus! {

/// Selection state to re-apply once the restored view has loaded.
#[derive(Debug, PartialEq)]
pub struct PendingSessionRestore {
    pub view: View,
    pub cards_selected_row: usize,
    pub cards_selected_col: usize,
    pub video_list_selected: usize,
    pub saved_search_selected: usize,
    pub detail_selected_action: Option<usize>,
    pub channel_selected_action: Option<usize>,
    pub channel_selected_video: Option<usize>,
    pub playlist_selected_action: Option<usize>,
}

impl Clone for PendingSessionRestore {
    fn clone(&self) -> (r: Self)
        ensures
            r == *self,
    {
        PendingSessionRestore {
            view: self.view.clone(),
            cards_selected_row: self.cards_selected_row,
            cards_selected_col: self.cards_selected_col,
            video_list_selected: self.video_list_selected,
            saved_search_selected: self.saved_search_selected,
            detail_selected_action: self.detail_selected_action,
            channel_selected_action: self.channel_selected_action,
            channel_selected_video: self.channel_selected_video,
            playlist_selected_action: self.playlist_selected_action,
        }
    }
}


/// A player left running when the application exits, to re-attach to.
#[derive(Debug, PartialEq)]
pub struct DetachedPlayerState {
    pub session: PlaybackSession,
    pub title_hint: Option<String>,
}

/// What is saved across runs of the application.
#[derive(Debug, PartialEq)]
pub struct PersistedSessionState {
    pub active_tab: Tab,
    pub view: View,
    pub previous_views: Vec<View>,
    pub search_query: String,
    pub cards_selected_row: usize,
    pub cards_selected_col: usize,
    pub video_list_selected: usize,
    pub saved_search_selected: usize,
    pub detail_selected_action: Option<usize>,
    pub channel_selected_action: Option<usize>,
    pub channel_selected_video: Option<usize>,
    pub playlist_selected_action: Option<usize>,
    pub playback_quality: PlaybackQuality,
    pub window_geometry: Option<String>,
    pub detached_player: Option<DetachedPlayerState>,
}

fn clone_opt_string(s: &Option<String>) -> (r: Option<String>)
    ensures
        r == *s,
{
    match s {
        Some(t) => Some(t.clone()),
        None => None,
    }
}

fn clone_views(v: &Vec<View>) -> (r: Vec<View>)
    ensures
        r@ == v@,
{
    let mut out: Vec<View> = Vec::new();
    let mut i: usize = 0;
    while i < v.len()
        invariant
            i <= v@.len(),
            out@ == v@.take(i as int),
        decreases v@.len() - i,
    {
        out.push(v[i].clone());
        proof {
            assert(v@.take(i + 1) =~= v@.take(i as int).push(v@[i as int]));
        }
        i += 1;
    }
    proof {
        assert(v@.take(v@.len() as int) =~= v@);
    }
    out
}

/// Title of the media the player reports, when it reports a non-empty one.
pub open spec fn title_hint_spec(ps: PlayerState) -> Option<Seq<char>> {
    match ps {
        PlayerState::Playing(info) => if info.title@.len() > 0 { Some(info.title@) } else { None },
        PlayerState::Paused(info) => if info.title@.len() > 0 { Some(info.title@) } else { None },
        PlayerState::Stopped => None,
    }
}

pub open spec fn opt_view(o: Option<String>) -> Option<Seq<char>> {
    match o {
        Some(s) => Some(s@),
        None => None,
    }
}

/// `p` is the snapshot of `state`: tab, views, query, selections, quality,
/// window geometry, and the current playback with the player's title.
pub open spec fn captures(state: AppState, p: PersistedSessionState) -> bool {
    &&& p.active_tab == state.tabs.active
    &&& p.view == state.view
    &&& p.previous_views@ == state.previous_views@
    &&& p.search_query@ == state.search.query@
    &&& p.cards_selected_row == state.cards.selected_row
    &&& p.cards_selected_col == state.cards.selected_col
    &&& p.video_list_selected == state.video_list.selected
    &&& p.saved_search_selected == state.saved_searches.selected
    &&& p.detail_selected_action == (match state.detail {
        Some(d) => Some(d.selected_action),
        None => None,
    })
    &&& p.channel_selected_action == (match state.channel_detail {
        Some(d) => Some(d.selected_action),
        None => None,
    })
    &&& p.channel_selected_video == (match state.channel_detail {
        Some(d) => Some(d.selected_video),
        None => None,
    })
    &&& p.playlist_selected_action == (match state.playlist_detail {
        Some(d) => Some(d.selected_action),
        None => None,
    })
    &&& p.playback_quality == state.playback_quality
    &&& p.window_geometry == state.last_mpv_geometry
    &&& (state.current_playback is None ==> p.detached_player is None)
    &&& (state.current_playback is Some ==> p.detached_player is Some
        && p.detached_player->0.session == state.current_playback->0
        && opt_view(p.detached_player->0.title_hint) == title_hint_spec(state.player_state))
}

impl PersistedSessionState {
    /// Snapshot of the parts of the state that survive a restart.
    pub fn capture_from(state: &AppState) -> (p: Self)
        ensures
            captures(*state, p),
    {
        let detached_player = match &state.current_playback {
            Some(session) => {
                let title_hint = match &state.player_state {
                    PlayerState::Playing(info) => if !info.title.as_str().is_empty() {
                        Some(info.title.clone())
                    } else {
                        None
                    },
                    PlayerState::Paused(info) => if !info.title.as_str().is_empty() {
                        Some(info.title.clone())
                    } else {
                        None
                    },
                    PlayerState::Stopped => None,
                };
                Some(DetachedPlayerState { session: session.clone(), title_hint })
            },
            None => None,
        };
        PersistedSessionState {
            active_tab: state.tabs.active,
            view: state.view.clone(),
            previous_views: clone_views(&state.previous_views),
            search_query: state.search.query.clone(),
            cards_selected_row: state.cards.selected_row,
            cards_selected_col: state.cards.selected_col,
            video_list_selected: state.video_list.selected,
            saved_search_selected: state.saved_searches.selected,
            detail_selected_action: match &state.detail {
                Some(d) => Some(d.selected_action),
                None => None,
            },
            channel_selected_action: match &state.channel_detail {
                Some(d) => Some(d.selected_action),
                None => None,
            },
            channel_selected_video: match &state.channel_detail {
                Some(d) => Some(d.selected_video),
                None => None,
            },
            playlist_selected_action: match &state.playlist_detail {
                Some(d) => Some(d.selected_action),
                None => None,
            },
            playback_quality: state.playback_quality,
            window_geometry: clone_opt_string(&state.last_mpv_geometry),
            detached_player,
        }
    }

    /// The selection to re-apply once the saved view has loaded again.
    pub fn pending_restore(&self) -> (r: PendingSessionRestore)
        ensures
            r == pending_restore_spec(*self),
    {
        PendingSessionRestore {
            view: self.view.clone(),
            cards_selected_row: self.cards_selected_row,
            cards_selected_col: self.cards_selected_col,
            video_list_selected: self.video_list_selected,
            saved_search_selected: self.saved_search_selected,
            detail_selected_action: self.detail_selected_action,
            channel_selected_action: self.channel_selected_action,
            channel_selected_video: self.channel_selected_video,
            playlist_selected_action: self.playlist_selected_action,
        }
    }
}

pub open spec fn pending_restore_spec(p: PersistedSessionState) -> PendingSessionRestore {
    PendingSessionRestore {
        view: p.view,
        cards_selected_row: p.cards_selected_row,
        cards_selected_col: p.cards_selected_col,
        video_list_selected: p.video_list_selected,
        saved_search_selected: p.saved_search_selected,
        detail_selected_action: p.detail_selected_action,
        channel_selected_action: p.channel_selected_action,
        channel_selected_video: p.channel_selected_video,
        playlist_selected_action: p.playlist_selected_action,
    }
}

/// The snapshot for the session file: a player that will be stopped on exit
/// is not recorded as one to re-attach to.
pub fn persisted_for_exit(state: &AppState) -> (p: PersistedSessionState)
    ensures
        !state.stop_player_on_exit ==> captures(*state, p),
        state.stop_player_on_exit ==> captures(AppState { current_playback: None, ..*state }, p),
{
    let mut p = PersistedSessionState::capture_from(state);
    if state.stop_player_on_exit {
        p.detached_player = None;
    }
    p
}

pub open spec fn min_nat(a: int, b: int) -> int {
    if a <= b { a } else { b }
}

/// Largest valid index of a list of `len` entries (0 for an empty list).
pub open spec fn last_index(len: int) -> int {
    if len > 0 { len - 1 } else { 0 }
}

/// Card selection `(row, col)` for a saved `(row, col)` in a grid of
/// `total` items in `columns` columns: clamped onto a card.
pub open spec fn clamp_card_spec(total: int, columns: int, row: int, col: int) -> (int, int) {
    if total == 0 {
        (0, 0)
    } else {
        let cols = if columns < 1 { 1 } else { columns };
        let max_row = (total - 1) / cols;
        let r = min_nat(row, max_row);
        let row_len = min_nat(total - r * cols, cols);
        (r, min_nat(col, row_len - 1))
    }
}

/// Whether the saved selection can be applied to the view now shown.
pub open spec fn restore_applies(r: PendingSessionRestore, s: AppState) -> bool {
    match r.view {
        View::Home => s.view is Home,
        View::Search => s.view is Search,
        View::VideoDetail(id) => is_video_detail_of(s.view, id@),
        View::ChannelDetail(id) => is_channel_detail_of(s.view, id@),
        View::PlaylistDetail(id) => is_playlist_detail_of(s.view, id@),
    }
}

pub open spec fn unwrap_or_zero(o: Option<usize>) -> int {
    match o {
        Some(v) => v as int,
        None => 0,
    }
}

/// The state after re-applying `r` to `pre` (which shows `r`'s view).
pub open spec fn apply_restore_spec(pre: AppState, post: AppState, r: PendingSessionRestore) -> bool {
    let base = AppState { pending_restore: None, ..pre };
    match r.view {
        View::Home => if pre.tabs.active == Tab::SavedSearches {
            post == (AppState {
                saved_searches: crate::app::SavedSearchListState {
                    selected: min_nat(
                        r.saved_search_selected as int,
                        last_index(pre.saved_searches.items@.len() as int),
                    ) as usize,
                    ..pre.saved_searches
                },
                ..base
            })
        } else if pre.tabs.active == Tab::Subscriptions {
            post == (AppState {
                cards: crate::app::CardGridState {
                    selected_row: min_nat(
                        r.cards_selected_row as int,
                        last_index(pre.subscription_channels@.len() as int),
                    ) as usize,
                    selected_col: 0,
                    ..pre.cards
                },
                ..base
            })
        } else {
            let c = clamp_card_spec(
                pre.cards.items@.len() as int,
                pre.cards.columns as int,
                r.cards_selected_row as int,
                r.cards_selected_col as int,
            );
            post == (AppState {
                cards: crate::app::CardGridState {
                    selected_row: c.0 as usize,
                    selected_col: c.1 as usize,
                    ..pre.cards
                },
                ..base
            })
        },
        View::Search => post == (AppState {
            video_list: crate::app::VideoListState {
                selected: min_nat(
                    r.video_list_selected as int,
                    last_index(pre.video_list.items@.len() as int),
                ) as usize,
                ..pre.video_list
            },
            ..base
        }),
        View::VideoDetail(_) => match pre.detail {
            Some(d) => post == (AppState {
                detail: Some(
                    crate::app::DetailState {
                        selected_action: min_nat(unwrap_or_zero(r.detail_selected_action), 2) as usize,
                        ..d
                    },
                ),
                ..base
            }),
            None => post == base,
        },
        View::ChannelDetail(_) => match pre.channel_detail {
            Some(d) => post == (AppState {
                channel_detail: Some(
                    crate::app::ChannelDetailState {
                        selected_action: min_nat(unwrap_or_zero(r.channel_selected_action), 1) as usize,
                        selected_video: min_nat(
                            unwrap_or_zero(r.channel_selected_video),
                            last_index(d.detail.videos@.len() as int),
                        ) as usize,
                        ..d
                    },
                ),
                ..base
            }),
            None => post == base,
        },
        View::PlaylistDetail(_) => match pre.playlist_detail {
            Some(d) => post == (AppState {
                playlist_detail: Some(
                    crate::app::PlaylistDetailState {
                        selected_action: min_nat(unwrap_or_zero(r.playlist_selected_action), 2) as usize,
                        ..d
                    },
                ),
                ..base
            }),
            None => post == base,
        },
    }
}

pub(crate) fn min_usize(a: usize, b: usize) -> (r: usize)
    ensures
        r as int == min_nat(a as int, b as int),
{
    if a <= b { a } else { b }
}

pub(crate) fn last_index_of(len: usize) -> (r: usize)
    ensures
        r as int == last_index(len as int),
{
    if len > 0 { len - 1 } else { 0 }
}

fn opt_or_zero(o: Option<usize>) -> (r: usize)
    ensures
        r as int == unwrap_or_zero(o),
{
    match o {
        Some(v) => v,
        None => 0,
    }
}

fn same_view(r: &View, s: &View) -> (b: bool)
    ensures
        b == (match *r {
            View::Home => *s is Home,
            View::Search => *s is Search,
            View::VideoDetail(id) => is_video_detail_of(*s, id@),
            View::ChannelDetail(id) => is_channel_detail_of(*s, id@),
            View::PlaylistDetail(id) => is_playlist_detail_of(*s, id@),
        }),
{
    match (r, s) {
        (View::Home, View::Home) => true,
        (View::Search, View::Search) => true,
        (View::VideoDetail(a), View::VideoDetail(b)) => *b == *a,
        (View::ChannelDetail(a), View::ChannelDetail(b)) => *b == *a,
        (View::PlaylistDetail(a), View::PlaylistDetail(b)) => *b == *a,
        _ => false,
    }
}

proof fn lemma_clamp_card_bounds(total: int, cols: int, row: int)
    requires
        total > 0,
        cols >= 1,
        row >= 0,
    ensures
        0 <= (total - 1) / cols,
        ((total - 1) / cols) * cols <= total - 1,
        min_nat(row, (total - 1) / cols) * cols <= total - 1,
        min_nat(row, (total - 1) / cols) * cols >= 0,
{
    let m = (total - 1) / cols;
    assert(0 <= m && m * cols <= total - 1) by (nonlinear_arith)
        requires
            total > 0,
            cols >= 1,
            m == (total - 1) / cols,
    ;
    let r = min_nat(row, m);
    assert(r * cols <= m * cols && r * cols >= 0) by (nonlinear_arith)
        requires
            0 <= r <= m,
            cols >= 1,
    ;
}

impl AppState {
    /// Re-applies the saved selection once the saved view is shown again;
    /// until then (or when nothing is pending) the state is left as it is.
    pub fn apply_pending_restore(&mut self)
        ensures
            match old(self).pending_restore {
                None => *final(self) == *old(self),
                Some(r) => if restore_applies(r, *old(self)) {
                    apply_restore_spec(*old(self), *final(self), r)
                } else {
                    *final(self) == *old(self)
                },
            },
    {
        let restore = match &self.pending_restore {
            Some(r) => r.clone(),
            None => {
                return;
            },
        };
        if !same_view(&restore.view, &self.view) {
            return;
        }
        match &restore.view {
            View::Home => {
                if self.tabs.active == Tab::SavedSearches {
                    let max = last_index_of(self.saved_searches.items.len());
                    self.saved_searches.selected = min_usize(restore.saved_search_selected, max);
                } else if self.tabs.active == Tab::Subscriptions {
                    let max = last_index_of(self.subscription_channels.len());
                    self.cards.selected_row = min_usize(restore.cards_selected_row, max);
                    self.cards.selected_col = 0;
                } else {
                    let total = self.cards.items.len();
                    if total == 0 {
                        self.cards.selected_row = 0;
                        self.cards.selected_col = 0;
                    } else {
                        let cols = if self.cards.columns < 1 { 1 } else { self.cards.columns };
                        proof {
                            lemma_clamp_card_bounds(total as int, cols as int, restore.cards_selected_row as int);
                        }
                        let max_row = (total - 1) / cols;
                        let row = min_usize(restore.cards_selected_row, max_row);
                        let index = row * cols;
                        let row_len = min_usize(total - index, cols);
                        self.cards.selected_row = row;
                        self.cards.selected_col = min_usize(restore.cards_selected_col, row_len - 1);
                    }
                }
            },
            View::Search => {
                let max = last_index_of(self.video_list.items.len());
                self.video_list.selected = min_usize(restore.video_list_selected, max);
            },
            View::VideoDetail(_) => {
                if let Some(d) = self.detail.as_mut() {
                    d.selected_action = min_usize(opt_or_zero(restore.detail_selected_action), 2);
                }
            },
            View::ChannelDetail(_) => {
                if let Some(d) = self.channel_detail.as_mut() {
                    d.selected_action = min_usize(opt_or_zero(restore.channel_selected_action), 1);
                    let max_video = last_index_of(d.detail.videos.len());
                    d.selected_video = min_usize(opt_or_zero(restore.channel_selected_video), max_video);
                }
            },
            View::PlaylistDetail(_) => {
                if let Some(d) = self.playlist_detail.as_mut() {
                    d.selected_action = min_usize(opt_or_zero(restore.playlist_selected_action), 2);
                }
            },
        }
        self.pending_restore = None;
    }
}


/// What must be loaded to show a restored view again.
#[derive(Debug, PartialEq)]
pub enum RestoreLoad {
    /// The feed of the active tab.
    Feed,
    /// Results for this query.
    Search(String),
    VideoDetail(String),
    Channel(String),
    Playlist(String),
}

/// The state after `restore_session` and the load it asks for.
pub open spec fn restore_spec(saved: PersistedSessionState, pre: AppState, post: AppState, load: RestoreLoad) -> bool {
    let restored = AppState {
        tabs: crate::app::TabState { active: saved.active_tab },
        view: saved.view,
        previous_views: post.previous_views,
        search: crate::app::SearchState {
            query: post.search.query,
            cursor: utf8_len(saved.search_query@) as usize,
            focused: false,
            ..pre.search
        },
        playback_quality: saved.playback_quality,
        last_mpv_geometry: saved.window_geometry,
        pending_restore: Some(pending_restore_spec(saved)),
        ..pre
    };
    &&& post.previous_views@ == saved.previous_views@
    &&& post.search.query@ == saved.search_query@
    &&& match saved.view {
        View::Home => load == RestoreLoad::Feed && if saved.active_tab == Tab::SavedSearches {
            post == (AppState {
                saved_searches: crate::app::SavedSearchListState {
                    selected: min_nat(
                        saved.saved_search_selected as int,
                        last_index(pre.saved_searches.items@.len() as int),
                    ) as usize,
                    ..pre.saved_searches
                },
                pending_restore: None,
                ..restored
            })
        } else {
            post == restored
        },
        View::Search => if saved.search_query@.len() == 0 {
            load == RestoreLoad::Feed && post == (AppState { view: View::Home, ..restored })
        } else {
            post == restored && match load {
                RestoreLoad::Search(q) => q@ == saved.search_query@,
                _ => false,
            }
        },
        View::VideoDetail(id) => post == restored && match load {
            RestoreLoad::VideoDetail(x) => x@ == id@,
            _ => false,
        },
        View::ChannelDetail(id) => post == restored && match load {
            RestoreLoad::Channel(x) => x@ == id@,
            _ => false,
        },
        View::PlaylistDetail(id) => post == restored && match load {
            RestoreLoad::Playlist(x) => x@ == id@,
            _ => false,
        },
    }
}

impl AppState {
    /// Puts a saved session back: tab, views, query (cursor at its end, bar
    /// not focused), quality and window geometry, with the saved selection
    /// pending until the view has loaded. Returns what must be loaded.
    pub fn restore_session(&mut self, saved: &PersistedSessionState) -> (load: RestoreLoad)
        requires
            old(self).wf(),
            fits_counters(saved.search_query@),
        ensures
            final(self).wf(),
            restore_spec(*saved, *old(self), *final(self), load),
    {
        self.tabs.active = saved.active_tab;
        self.view = saved.view.clone();
        self.previous_views = clone_views(&saved.previous_views);
        self.search.query = saved.search_query.clone();
        self.search.cursor = byte_len(saved.search_query.as_str());
        self.search.focused = false;
        self.playback_quality = saved.playback_quality;
        self.last_mpv_geometry = clone_opt_string(&saved.window_geometry);
        self.pending_restore = Some(saved.pending_restore());
        proof {
            crate::text::lemma_take_full_len(saved.search_query@);
        }
        match &saved.view {
            View::Home => {
                if saved.active_tab == Tab::SavedSearches {
                    let max = last_index_of(self.saved_searches.items.len());
                    self.saved_searches.selected = min_usize(saved.saved_search_selected, max);
                    self.pending_restore = None;
                }
                RestoreLoad::Feed
            },
            View::Search => {
                if saved.search_query.as_str().is_empty() {
                    self.view = View::Home;
                    RestoreLoad::Feed
                } else {
                    RestoreLoad::Search(saved.search_query.clone())
                }
            },
            View::VideoDetail(id) => RestoreLoad::VideoDetail(id.clone()),
            View::ChannelDetail(id) => RestoreLoad::Channel(id.clone()),
            View::PlaylistDetail(id) => RestoreLoad::Playlist(id.clone()),
        }
    }
}

/// Saving a session and restoring it brings back the tab, the view, the
/// history of views, the query and the playback quality.
pub proof fn lemma_session_roundtrip(s0: AppState, p: PersistedSessionState, pre: AppState, post: AppState, load: RestoreLoad)
    requires
        captures(s0, p),
        restore_spec(p, pre, post, load),
        !(s0.view is Search && s0.search.query@.len() == 0),
    ensures
        post.tabs.active == s0.tabs.active,
        post.view == s0.view,
        post.previous_views@ == s0.previous_views@,
        post.search.query@ == s0.search.query@,
        post.playback_quality == s0.playback_quality,
        post.last_mpv_geometry == s0.last_mpv_geometry,
{
}

/// The pending restore taken from a snapshot carries the view and every
/// selection of the state the snapshot was taken from.
pub proof fn lemma_pending_restore_from_capture(s0: AppState, p: PersistedSessionState)
    requires
        captures(s0, p),
    ensures
        pending_restore_spec(p).view == s0.view,
        pending_restore_spec(p).cards_selected_row == s0.cards.selected_row,
        pending_restore_spec(p).cards_selected_col == s0.cards.selected_col,
        pending_restore_spec(p).video_list_selected == s0.video_list.selected,
        pending_restore_spec(p).saved_search_selected == s0.saved_searches.selected,
{
}

} // verus!
