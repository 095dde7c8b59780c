use vstd::prelude::*;
use vstd::view::View as _;
use crate::app::{Action, AppState, Direction, LoadingState, PopupState, SearchFilterState, SearchState, Tab, VideoListState, View};
use crate::controller::{feed_load_effect, feed_load_post, load_more_effect, load_more_post, opt_effects, with_detail_request};
use crate::dispatch::{dispatch_defined, dispatch_spec};
use crate::effects::{search_options_spec, Effect, ReloadPlan, SubscriptionChange};
use crate::lines::trim_spec;
use crate::models::{same_detail, ChannelItem, FeedItem, VideoDetail};
use crate::player::{quality_label_spec, quality_toggle_spec, PlayMode, PlayerInfo, PlayerState};
use crate::replies::{pending_restore_step, stopped, with_message};
use crate::saved_searches::SavedSearch;
use crate::selection::{card_index_spec, card_item_spec, list_item_spec};
use crate::text::{fits_counters, has_prefix, utf8_len};

verus! {

/// Address of a video's watch page.
pub open spec fn watch_url(id: Seq<char>) -> Seq<char> {
    "https://www.youtube.com/watch?v="@ + id
}

/// Address of a playlist's page.
pub open spec fn playlist_url(id: Seq<char>) -> Seq<char> {
    "https://www.youtube.com/playlist?list="@ + id
}

/// `effects` is exactly one playback start with these arguments.
pub open spec fn plays(
    effects: Seq<Effect>,
    url: Seq<char>,
    mode: PlayMode,
    label: Seq<char>,
    history: Option<VideoDetail>,
) -> bool {
    effects.len() == 1 && match effects[0] {
        Effect::StartPlayback(u, m, l, h) => u@ == url && m == mode && l@ == label && match history {
            None => h is None,
            Some(d) => h is Some && same_detail(h->0, d),
        },
        _ => false,
    }
}

/// After `dispatch`, a pending restore is re-applied.
pub open spec fn restored_after(pre: AppState, post: AppState, a: Action) -> bool {
    exists|mid: AppState| #[trigger] dispatch_spec(pre, mid, a) && pending_restore_step(mid, post)
}

/// Nothing happens.
pub open spec fn unchanged(pre: AppState, post: AppState, effects: Seq<Effect>) -> bool {
    post == pre && effects.len() == 0
}

/// A new detail request whose single load is `e`.
pub open spec fn detail_request(pre: AppState, post: AppState, effects: Seq<Effect>, e: Effect) -> bool {
    post == with_detail_request(pre) && effects == seq![e]
}

/// Opening a listed item: a video's (or short's) detail, a channel page or
/// a playlist page.
pub open spec fn item_select_spec(pre: AppState, post: AppState, effects: Seq<Effect>, item: FeedItem) -> bool {
    let id = (pre.loading.detail_request_id + 1) as u64;
    match item {
        FeedItem::Video(v) => detail_request(pre, post, effects, Effect::LoadVideoDetail(id, v.id, Some(v))),
        FeedItem::Short(v) => detail_request(pre, post, effects, Effect::LoadVideoDetail(id, v.id, Some(v))),
        FeedItem::Channel(c) => detail_request(pre, post, effects, Effect::LoadChannel(id, c.id)),
        FeedItem::Playlist(p) => detail_request(pre, post, effects, Effect::LoadPlaylist(id, p.id)),
    }
}

/// Running a saved search: its query (cursor at the end) and filters are
/// put in place, the search view opens over the current one, a new search
/// request starts with an empty list, and the run is recorded.
pub open spec fn run_saved_spec(pre: AppState, post: AppState, effects: Seq<Effect>, saved: SavedSearch) -> bool {
    &&& post.previous_views@ == pre.previous_views@.push(pre.view)
    &&& post.video_list.items@.len() == 0
    &&& post == (AppState {
        search: SearchState {
            query: saved.query,
            cursor: utf8_len(saved.query@) as usize,
            filter: SearchFilterState {
                sort: saved.sort,
                date: saved.date,
                item_type: saved.item_type,
                length: saved.length,
                ..pre.search.filter
            },
            ..pre.search
        },
        previous_views: post.previous_views,
        view: View::Search,
        loading: LoadingState {
            search_request_id: (pre.loading.search_request_id + 1) as u64,
            search_loading: true,
            ..pre.loading
        },
        video_list: VideoListState { items: post.video_list.items, selected: 0, ..pre.video_list },
        ..pre
    })
    &&& effects == seq![
        Effect::MarkSearchRun(saved.id),
        Effect::LoadSearch(
            post.loading.search_request_id,
            saved.query,
            search_options_spec(post.search.filter),
        ),
        Effect::ReloadSavedSearches,
    ]
}

/// The action the channel page's first button takes: unsubscribe when
/// subscribed, else subscribe.
pub open spec fn channel_button_change(c: ChannelItem, is_subscribed: bool) -> SubscriptionChange {
    if is_subscribed {
        SubscriptionChange::Unsubscribe(c.id)
    } else {
        SubscriptionChange::Subscribe(c)
    }
}

/// Select (Enter) in each view.
pub open spec fn select_spec(pre: AppState, post: AppState, effects: Seq<Effect>) -> bool {
    match pre.view {
        View::Search => match list_item_spec(pre) {
            None => unchanged(pre, post, effects),
            Some(item) => item_select_spec(pre, post, effects, item),
        },
        View::Home => if pre.tabs.active == Tab::SavedSearches {
            let sel = pre.saved_searches.selected as int;
            if sel < pre.saved_searches.items@.len() {
                run_saved_spec(pre, post, effects, pre.saved_searches.items@[sel])
            } else {
                unchanged(pre, post, effects)
            }
        } else if pre.tabs.active == Tab::Subscriptions {
            let row = pre.cards.selected_row as int;
            if row < pre.subscription_channels@.len() {
                detail_request(
                    pre,
                    post,
                    effects,
                    Effect::LoadChannel(
                        (pre.loading.detail_request_id + 1) as u64,
                        pre.subscription_channels@[row].id,
                    ),
                )
            } else {
                unchanged(pre, post, effects)
            }
        } else {
            match card_item_spec(pre) {
                None => unchanged(pre, post, effects),
                Some(item) => item_select_spec(pre, post, effects, item),
            }
        },
        View::VideoDetail(_) => match pre.detail {
            None => unchanged(pre, post, effects),
            Some(d) => {
                let v = d.detail.item;
                if d.selected_action == 0 {
                    post == pre && plays(effects, watch_url(v.id@), PlayMode::Video, v.title@, Some(d.detail))
                } else if d.selected_action == 1 {
                    post == pre && plays(effects, watch_url(v.id@), PlayMode::AudioOnly, v.title@, Some(d.detail))
                } else if d.selected_action == 2 && v.channel_id@.len() > 0 {
                    detail_request(
                        pre,
                        post,
                        effects,
                        Effect::LoadChannel((pre.loading.detail_request_id + 1) as u64, v.channel_id),
                    )
                } else {
                    unchanged(pre, post, effects)
                }
            },
        },
        View::PlaylistDetail(_) => match pre.playlist_detail {
            None => unchanged(pre, post, effects),
            Some(d) => {
                let p = d.detail.item;
                if d.selected_action == 0 {
                    post == pre && plays(effects, playlist_url(p.id@), PlayMode::Video, p.title@, None)
                } else if d.selected_action == 1 {
                    post == pre && plays(effects, playlist_url(p.id@), PlayMode::AudioOnly, p.title@, None)
                } else if d.selected_action == 2 && p.channel_id@.len() > 0 {
                    detail_request(
                        pre,
                        post,
                        effects,
                        Effect::LoadChannel((pre.loading.detail_request_id + 1) as u64, p.channel_id),
                    )
                } else {
                    unchanged(pre, post, effects)
                }
            },
        },
        View::ChannelDetail(_) => match pre.channel_detail {
            None => unchanged(pre, post, effects),
            Some(cd) => if cd.selected_action == 0 {
                post == pre && effects == seq![
                    Effect::ChangeSubscription {
                        change: channel_button_change(cd.detail.item, cd.is_subscribed),
                        name: cd.detail.item.name,
                        report_errors: false,
                        sync_detail: true,
                    },
                ]
            } else if cd.selected_action == 1 && cd.selected_video < cd.detail.videos@.len() {
                let v = cd.detail.videos@[cd.selected_video as int];
                detail_request(
                    pre,
                    post,
                    effects,
                    Effect::LoadVideoDetail((pre.loading.detail_request_id + 1) as u64, v.id, Some(v)),
                )
            } else {
                unchanged(pre, post, effects)
            },
        },
    }
}

/// Inputs on which Select is carried out: the request counters it may
/// advance are below their limit, a saved search's query fits the byte
/// counters, and the selected card's index fits in `usize`.
pub open spec fn select_defined(pre: AppState) -> bool {
    &&& pre.loading.detail_request_id < u64::MAX
    &&& pre.view == View::Home ==> if pre.tabs.active == Tab::SavedSearches {
        &&& pre.loading.search_request_id < u64::MAX
        &&& pre.saved_searches.selected < pre.saved_searches.items@.len() ==> fits_counters(
            pre.saved_searches.items@[pre.saved_searches.selected as int].query@,
        )
    } else if pre.tabs.active == Tab::Subscriptions {
        true
    } else {
        card_index_spec(pre) <= usize::MAX
    }
}

/// A search again, with the filters just changed, when there is a query:
/// a new search request with an empty list.
pub open spec fn research_spec(mid: AppState, post: AppState, effects: Seq<Effect>) -> bool {
    if mid.search.query@.len() == 0 {
        unchanged(mid, post, effects)
    } else {
        &&& post.video_list.items@.len() == 0
        &&& post == (AppState {
            loading: LoadingState {
                search_request_id: (mid.loading.search_request_id + 1) as u64,
                search_loading: true,
                ..mid.loading
            },
            video_list: VideoListState { items: post.video_list.items, selected: 0, ..mid.video_list },
            ..mid
        })
        &&& effects == seq![
            Effect::LoadSearch(
                post.loading.search_request_id,
                mid.search.query,
                search_options_spec(mid.search.filter),
            ),
        ]
    }
}

/// The commands of the command line, given trimmed: `q`/`quit` leaves the
/// player running, `stop-player` stops it, `import-cookies <path>` imports
/// a cookie file; anything else is reported as unknown.
pub open spec fn command_spec(pre: AppState, post: AppState, cmd: Seq<char>, effects: Seq<Effect>) -> bool {
    if cmd == "q"@ || cmd == "quit"@ {
        post == (AppState { stop_player_on_exit: false, should_quit: true, ..pre }) && effects
            == seq![Effect::RecordGeometry]
    } else if cmd == "stop-player"@ {
        with_message(stopped(pre), post, "Stopped player"@) && effects == seq![
            Effect::StopPlayer,
            Effect::ClearSession,
        ]
    } else if has_prefix(cmd, "import-cookies "@) {
        post == pre && effects.len() == 1 && match effects[0] {
            Effect::ImportCookies(p) => p@ == trim_spec(cmd.skip("import-cookies "@.len() as int)),
            _ => false,
        }
    } else {
        with_message(pre, post, "Unknown command: "@ + cmd) && effects.len() == 0
    }
}

/// The player can play the current media again: something was started
/// and the player is not stopped.
pub open spec fn can_reload(s: AppState) -> bool {
    s.current_playback is Some && !(s.player_state is Stopped)
}

/// Label for the reloaded media: its title, or "current media" without one.
pub open spec fn media_label(info: PlayerInfo) -> Seq<char> {
    if info.title@.len() > 0 {
        info.title@
    } else {
        "current media"@
    }
}

/// `p` plays the current media of `s` again, at its position, paused if it was.
pub open spec fn reload_plan_matches(p: ReloadPlan, s: AppState) -> bool {
    match s.current_playback {
        None => false,
        Some(sess) => p.url == sess.url && p.mode == sess.mode && match s.player_state {
            PlayerState::Stopped => false,
            PlayerState::Playing(info) => p.label@ == media_label(info) && !p.paused
                && p.resume_at_bits == info.time_pos_bits,
            PlayerState::Paused(info) => p.label@ == media_label(info) && p.paused
                && p.resume_at_bits == info.time_pos_bits,
        },
    }
}

/// Switching the playback quality: the current media is played again with
/// it when it can be, else the new quality is reported.
pub open spec fn quality_spec(pre: AppState, post: AppState, effects: Seq<Effect>) -> bool {
    let mid = AppState { playback_quality: quality_toggle_spec(pre.playback_quality), ..pre };
    if can_reload(mid) {
        post == mid && effects.len() == 1 && match effects[0] {
            Effect::ReloadPlayback(p) => reload_plan_matches(p, mid),
            _ => false,
        }
    } else {
        with_message(mid, post, "Playback quality: "@ + quality_label_spec(mid.playback_quality))
            && effects.len() == 0
    }
}

/// The selected channel, in the result list or the card grid.
pub open spec fn selected_channel(s: AppState) -> Option<ChannelItem> {
    match s.view {
        View::Search => match list_item_spec(s) {
            Some(FeedItem::Channel(c)) => Some(c),
            _ => None,
        },
        View::Home => match card_item_spec(s) {
            Some(FeedItem::Channel(c)) => Some(c),
            _ => None,
        },
        _ => None,
    }
}

/// Name under which an unsubscription is reported: the open channel page's
/// name when it shows that channel, else the id.
pub open spec fn unsubscribe_name(s: AppState, id: Seq<char>) -> Seq<char> {
    match s.channel_detail {
        Some(cd) => if cd.detail.item.id@ == id {
            cd.detail.item.name@
        } else {
            id
        },
        None => id,
    }
}

/// Submitting the open popup: it closes; a named save or rename, or a
/// confirmed delete, is handed on to be stored.
pub open spec fn popup_submit_spec(pre: AppState, post: AppState, effects: Seq<Effect>) -> bool {
    &&& post == (AppState { popup: None, ..pre })
    &&& match pre.popup {
        Some(PopupState::SaveSearch { input, .. }) => if input@.len() > 0 {
            let f = pre.search.filter;
            effects == seq![
                Effect::SaveSearch {
                    name: input,
                    query: pre.search.query,
                    sort: f.sort,
                    date: f.date,
                    item_type: f.item_type,
                    length: f.length,
                },
            ]
        } else {
            effects.len() == 0
        },
        Some(PopupState::ConfirmDelete { id, name }) => effects == seq![Effect::DeleteSavedSearch(id, name)],
        Some(PopupState::Rename { id, input, .. }) => if input@.len() > 0 {
            effects == seq![Effect::RenameSavedSearch(id, input)]
        } else {
            effects.len() == 0
        },
        None => effects.len() == 0,
    }
}

/// What handling an action does to the state and which effects it asks for.
pub open spec fn handle_spec(pre: AppState, post: AppState, a: Action, effects: Seq<Effect>) -> bool {
    match a {
        Action::SubmitSearch(q) => dispatch_spec(pre, post, a) && effects == seq![
            Effect::LoadSearch(post.loading.search_request_id, q, search_options_spec(post.search.filter)),
        ],
        Action::FilterCycleUp => exists|mid: AppState| #[trigger] dispatch_spec(pre, mid, a) && research_spec(mid, post, effects),
        Action::FilterCycleDown => exists|mid: AppState| #[trigger] dispatch_spec(pre, mid, a) && research_spec(mid, post, effects),
        Action::ResetFilters => exists|mid: AppState| #[trigger] dispatch_spec(pre, mid, a) && research_spec(mid, post, effects),
        Action::SubmitCommand(cmd) => exists|mid: AppState| #[trigger] dispatch_spec(pre, mid, a) && command_spec(mid, post, trim_spec(cmd@), effects),
        Action::Select => select_spec(pre, post, effects),
        Action::SwitchTab(t) => exists|mid: AppState| #[trigger] dispatch_spec(pre, mid, a) && if t == Tab::SavedSearches {
            post == mid && effects == seq![Effect::ReloadSavedSearches]
        } else {
            post == feed_load_post(mid) && effects == opt_effects(feed_load_effect(mid))
        },
        Action::Quit => post == (AppState { stop_player_on_exit: false, should_quit: true, ..pre }) && effects
            == seq![Effect::RecordGeometry],
        Action::TogglePause => post == pre && effects == seq![Effect::TogglePause],
        Action::Seek(n) => post == pre && effects == seq![Effect::Seek(n)],
        Action::VolumeUp => post == pre && effects == seq![Effect::ChangeVolume(true)],
        Action::VolumeDown => post == pre && effects == seq![Effect::ChangeVolume(false)],
        Action::TogglePlaybackQuality => quality_spec(pre, post, effects),
        Action::StopPlayer => with_message(stopped(pre), post, "Stopped player"@) && effects == seq![
            Effect::StopPlayer,
            Effect::ClearSession,
        ],
        Action::StopPlayerAndQuit => post == (AppState {
            stop_player_on_exit: false,
            should_quit: true,
            ..stopped(pre)
        }) && effects == seq![Effect::StopPlayer, Effect::ClearSession],
        Action::PlayVideo(id) => post == pre && plays(effects, watch_url(id@), PlayMode::Video, "video"@, None),
        Action::PlayAudio(id) => post == pre && plays(
            effects,
            watch_url(id@),
            PlayMode::AudioOnly,
            "audio stream"@,
            None,
        ),
        Action::Navigate(dir) => exists|mid: AppState| #[trigger] dispatch_spec(pre, mid, a) && if dir == Direction::Down {
            post == load_more_post(mid) && effects == seq![Effect::FetchThumbnails] + opt_effects(load_more_effect(mid))
        } else {
            post == mid && effects == seq![Effect::FetchThumbnails]
        },
        Action::FeedLoaded(..) => dispatch_spec(pre, post, a) && effects == seq![Effect::FetchThumbnails],
        Action::SearchResults(..) => dispatch_spec(pre, post, a) && effects == seq![Effect::FetchThumbnails],
        Action::AppendFeed(..) => dispatch_spec(pre, post, a) && effects == seq![Effect::FetchThumbnails],
        Action::AppendSearch(..) => dispatch_spec(pre, post, a) && effects == seq![Effect::FetchThumbnails],
        Action::DetailLoaded(_, d) => restored_after(pre, post, a) && effects.len() == 1 && match effects[0] {
            Effect::CacheDetail(x) => same_detail(x, d),
            _ => false,
        },
        Action::ChannelDetailLoaded(req, d) => post == pre && effects == seq![Effect::ResolveChannelDetail(req, d)],
        Action::PlaylistDetailLoaded(..) => restored_after(pre, post, a) && effects.len() == 0,
        Action::ThumbnailReady(key, path) => post == pre && effects == seq![Effect::DecodeThumbnail(key, path)],
        Action::Subscribe(c) => post == pre && effects == seq![
            Effect::ChangeSubscription {
                change: SubscriptionChange::Subscribe(c),
                name: c.name,
                report_errors: true,
                sync_detail: true,
            },
        ],
        Action::Unsubscribe(id) => post == pre && effects.len() == 1 && match effects[0] {
            Effect::ChangeSubscription { change, name, report_errors, sync_detail } => change
                == SubscriptionChange::Unsubscribe(id) && name@ == unsubscribe_name(pre, id@)
                && report_errors && sync_detail,
            _ => false,
        },
        Action::RefreshSubscriberCount(id, n) => dispatch_spec(pre, post, a) && effects == seq![
            Effect::UpdateSubscriberCount(id, n),
        ],
        Action::SubscribeSelected => match selected_channel(pre) {
            None => with_message(pre, post, "Select a channel to subscribe"@) && effects.len() == 0,
            Some(c) => post == pre && effects == seq![
                Effect::ChangeSubscription {
                    change: SubscriptionChange::Toggle(c),
                    name: c.name,
                    report_errors: false,
                    sync_detail: false,
                },
            ],
        },
        Action::PopupSubmit => popup_submit_spec(pre, post, effects),
        Action::PlayerStateUpdate(_) => restored_after(pre, post, a) && effects.len() == 0,
        Action::PlaybackLoadSlow(_) => restored_after(pre, post, a) && effects.len() == 0,
        _ => dispatch_spec(pre, post, a) && effects.len() == 0,
    }
}

/// Inputs on which `handle_action` is carried out: those of `dispatch`, and
/// request counters and indexes that the action advances or computes stay
/// within their limits.
pub open spec fn handle_defined(pre: AppState, a: Action) -> bool {
    &&& dispatch_defined(pre, a)
    &&& match a {
        Action::FilterCycleUp => pre.loading.search_request_id < u64::MAX,
        Action::FilterCycleDown => pre.loading.search_request_id < u64::MAX,
        Action::ResetFilters => pre.loading.search_request_id < u64::MAX,
        Action::Select => select_defined(pre),
        Action::SwitchTab(_) => pre.loading.feed_request_id < u64::MAX,
        Action::SubscribeSelected => pre.view == View::Home ==> card_index_spec(pre) <= usize::MAX,
        _ => true,
    }
}

} // verus!
