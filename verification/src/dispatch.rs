use vstd::prelude::*;
use vstd::view::View as _;
use crate::app::{keys_distinct, default_filter_spec, Action, AppState, ChannelDetailState, DetailState, Direction, LoadedPage, PlaylistDetailState, PopupState, SearchFilterState, Tab, View};
use crate::filters::{date_next, date_prev, item_type_next, item_type_prev, length_next, length_prev, sort_next, sort_prev};
use crate::models::{ChannelItem, FeedItem, HistoryEntry, ThumbnailKey};
use crate::navigation::{cards_nav_defined, cards_nav_spec, channel_nav_spec, list_nav_spec};
use crate::player::PlayerState;
use crate::text::{byte_len, fits_counters, insert_at_spec, insert_char_at, is_boundary_at, pop_char, push_char, remove_before_spec, remove_char_before, utf8_len};

verus! {

/// Two thumbnail keys name the same thumbnail.
pub open spec fn thumb_key_matches(a: ThumbnailKey, b: ThumbnailKey) -> bool {
    a.item_type == b.item_type && a.item_id@ == b.item_id@
}

/// `keys` without the entries that name the thumbnail `key`.
pub open spec fn remove_key_spec(keys: Seq<ThumbnailKey>, key: ThumbnailKey) -> Seq<ThumbnailKey>
    decreases keys.len(),
{
    if keys.len() == 0 {
        keys
    } else if thumb_key_matches(keys.last(), key) {
        remove_key_spec(keys.drop_last(), key)
    } else {
        remove_key_spec(keys.drop_last(), key).push(keys.last())
    }
}

/// Every entry left by `remove_key_spec` comes from `keys`.
pub proof fn lemma_remove_key_from(keys: Seq<ThumbnailKey>, key: ThumbnailKey, i: int)
    requires
        0 <= i < remove_key_spec(keys, key).len(),
    ensures
        exists|j: int| 0 <= j < keys.len() && keys[j] == #[trigger] remove_key_spec(keys, key)[i],
    decreases keys.len(),
{
    let rest = remove_key_spec(keys.drop_last(), key);
    if thumb_key_matches(keys.last(), key) {
        lemma_remove_key_from(keys.drop_last(), key, i);
        let j = choose|j: int| 0 <= j < keys.drop_last().len() && keys.drop_last()[j] == rest[i];
        assert(keys[j] == remove_key_spec(keys, key)[i]);
    } else if i < rest.len() {
        lemma_remove_key_from(keys.drop_last(), key, i);
        let j = choose|j: int| 0 <= j < keys.drop_last().len() && keys.drop_last()[j] == rest[i];
        assert(keys[j] == remove_key_spec(keys, key)[i]);
    } else {
        assert(keys[keys.len() - 1] == remove_key_spec(keys, key)[i]);
    }
}

/// Removing a thumbnail's entries keeps the others distinct.
pub proof fn lemma_remove_key_distinct(keys: Seq<ThumbnailKey>, key: ThumbnailKey)
    requires
        keys_distinct(keys),
    ensures
        keys_distinct(remove_key_spec(keys, key)),
    decreases keys.len(),
{
    if keys.len() > 0 {
        let shorter = keys.drop_last();
        assert(keys_distinct(shorter)) by {
            assert forall|i: int, j: int| 0 <= i < j < shorter.len() implies !(
            #[trigger] shorter[i].item_type == #[trigger] shorter[j].item_type && shorter[i].item_id@
                == shorter[j].item_id@) by {
                assert(shorter[i] == keys[i] && shorter[j] == keys[j]);
            }
        }
        lemma_remove_key_distinct(shorter, key);
        let rest = remove_key_spec(shorter, key);
        if !thumb_key_matches(keys.last(), key) {
            let r = rest.push(keys.last());
            assert forall|i: int, j: int| 0 <= i < j < r.len() implies !(
            #[trigger] r[i].item_type == #[trigger] r[j].item_type && r[i].item_id@ == r[j].item_id@) by {
                if j == r.len() - 1 {
                    lemma_remove_key_from(shorter, key, i);
                    let k = choose|k: int| 0 <= k < shorter.len() && shorter[k] == #[trigger] rest[i];
                    assert(shorter[k] == keys[k]);
                    assert(r[j] == keys[keys.len() - 1]);
                    assert(!(keys[k].item_type == keys[keys.len() - 1].item_type
                        && keys[k].item_id@ == keys[keys.len() - 1].item_id@));
                } else {
                    assert(r[i] == rest[i] && r[j] == rest[j]);
                }
            }
        }
    }
}

/// History entries shown as video cards.
pub open spec fn history_as_feed(entries: Seq<HistoryEntry>) -> Seq<FeedItem> {
    entries.map_values(|e: HistoryEntry| FeedItem::Video(e.video))
}

/// Channels with the subscriber count of channel `id` set to `count`.
pub open spec fn refresh_count_spec(chs: Seq<ChannelItem>, id: Seq<char>, count: u64) -> Seq<ChannelItem> {
    chs.map_values(
        |c: ChannelItem|
            if c.id@ == id {
                ChannelItem { subscriber_count: Some(count), ..c }
            } else {
                c
            },
    )
}

pub open spec fn is_video_detail_of(v: View, id: Seq<char>) -> bool {
    match v {
        View::VideoDetail(c) => c@ == id,
        _ => false,
    }
}

pub open spec fn is_channel_detail_of(v: View, id: Seq<char>) -> bool {
    match v {
        View::ChannelDetail(c) => c@ == id,
        _ => false,
    }
}

pub open spec fn is_playlist_detail_of(v: View, id: Seq<char>) -> bool {
    match v {
        View::PlaylistDetail(c) => c@ == id,
        _ => false,
    }
}

/// The navigation the home view performs depends on the active tab.
pub open spec fn post_navigate(pre: AppState, post: AppState, dir: Direction) -> bool {
    match pre.view {
        View::Home => {
            if pre.tabs.active == Tab::SavedSearches {
                post.saved_searches.selected as int == list_nav_spec(
                    pre.saved_searches.items@.len() as int,
                    pre.saved_searches.selected as int,
                    dir,
                ) && post == (AppState {
                    saved_searches: crate::app::SavedSearchListState {
                        selected: post.saved_searches.selected,
                        ..pre.saved_searches
                    },
                    ..pre
                })
            } else if pre.tabs.active == Tab::Subscriptions {
                post.cards.selected_row as int == list_nav_spec(
                    pre.subscription_channels@.len() as int,
                    pre.cards.selected_row as int,
                    dir,
                ) && post == (AppState {
                    cards: crate::app::CardGridState {
                        selected_row: post.cards.selected_row,
                        ..pre.cards
                    },
                    ..pre
                })
            } else {
                (post.cards.selected_row as int, post.cards.selected_col as int) == cards_nav_spec(
                    pre.cards.items@.len() as int,
                    pre.cards.columns as int,
                    pre.cards.selected_row as int,
                    pre.cards.selected_col as int,
                    dir,
                ) && post == (AppState {
                    cards: crate::app::CardGridState {
                        selected_row: post.cards.selected_row,
                        selected_col: post.cards.selected_col,
                        ..pre.cards
                    },
                    ..pre
                })
            }
        },
        View::Search => {
            post.video_list.selected as int == list_nav_spec(
                pre.video_list.items@.len() as int,
                pre.video_list.selected as int,
                dir,
            ) && post == (AppState {
                video_list: crate::app::VideoListState {
                    selected: post.video_list.selected,
                    ..pre.video_list
                },
                ..pre
            })
        },
        View::VideoDetail(_) => {
            match pre.detail {
                None => post == pre,
                Some(d) => post.detail is Some && post.detail->0.selected_action as int
                    == list_nav_spec(3, d.selected_action as int, dir) && post == (AppState {
                    detail: Some(DetailState { selected_action: post.detail->0.selected_action, ..d }),
                    ..pre
                }),
            }
        },
        View::PlaylistDetail(_) => {
            match pre.playlist_detail {
                None => post == pre,
                Some(d) => post.playlist_detail is Some && post.playlist_detail->0.selected_action as int
                    == list_nav_spec(3, d.selected_action as int, dir) && post == (AppState {
                    playlist_detail: Some(
                        PlaylistDetailState {
                            selected_action: post.playlist_detail->0.selected_action,
                            ..d
                        },
                    ),
                    ..pre
                }),
            }
        },
        View::ChannelDetail(_) => {
            match pre.channel_detail {
                None => post == pre,
                Some(cd) => post.channel_detail is Some && (
                    post.channel_detail->0.selected_action as int,
                    post.channel_detail->0.selected_video as int,
                ) == channel_nav_spec(
                    cd.detail.videos@.len() as int,
                    cd.selected_action as int,
                    cd.selected_video as int,
                    dir,
                ) && post == (AppState {
                    channel_detail: Some(
                        ChannelDetailState {
                            selected_action: post.channel_detail->0.selected_action,
                            selected_video: post.channel_detail->0.selected_video,
                            ..cd
                        },
                    ),
                    ..pre
                }),
            }
        },
    }
}

/// Effect of a page for the home tabs arriving; pages for a superseded
/// request change nothing.
pub open spec fn post_feed_loaded(pre: AppState, post: AppState, req: u64, page: LoadedPage) -> bool {
    if req != pre.loading.feed_request_id {
        post == pre
    } else {
        let loading = crate::app::LoadingState { feed_loading: false, ..pre.loading };
        match page {
            LoadedPage::Home(f) => post == (AppState {
                loading,
                cards: crate::app::CardGridState {
                    items: f.items,
                    continuation: f.continuation,
                    selected_row: 0,
                    selected_col: 0,
                    ..pre.cards
                },
                ..pre
            }),
            LoadedPage::History(f) => post.cards.items@ == history_as_feed(f.items@) && post == (
            AppState {
                loading,
                cards: crate::app::CardGridState {
                    items: post.cards.items,
                    continuation: f.continuation,
                    selected_row: 0,
                    selected_col: 0,
                    ..pre.cards
                },
                ..pre
            }),
            LoadedPage::Subscriptions(f) => post == (AppState {
                loading,
                subscription_channels: f.items,
                cards: crate::app::CardGridState { selected_row: 0, selected_col: 0, ..pre.cards },
                ..pre
            }),
        }
    }
}

/// Effect of a further page for the home tabs: items are appended and the
/// selection is kept.
pub open spec fn post_append_feed(pre: AppState, post: AppState, req: u64, page: LoadedPage) -> bool {
    if req != pre.loading.feed_request_id {
        post == pre
    } else {
        let loading = crate::app::LoadingState { loading_more_feed: false, ..pre.loading };
        match page {
            LoadedPage::Home(f) => post.cards.items@ == pre.cards.items@ + f.items@ && post == (
            AppState {
                loading,
                cards: crate::app::CardGridState {
                    items: post.cards.items,
                    continuation: f.continuation,
                    ..pre.cards
                },
                ..pre
            }),
            LoadedPage::History(f) => post.cards.items@ == pre.cards.items@ + history_as_feed(
                f.items@,
            ) && post == (AppState {
                loading,
                cards: crate::app::CardGridState {
                    items: post.cards.items,
                    continuation: f.continuation,
                    ..pre.cards
                },
                ..pre
            }),
            LoadedPage::Subscriptions(_) => post == (AppState { loading, ..pre }),
        }
    }
}

/// The state change `dispatch` makes for each action.
pub open spec fn dispatch_spec(pre: AppState, post: AppState, a: Action) -> bool {
    match a {
        Action::SwitchTab(tab) => post == (AppState {
            tabs: crate::app::TabState { active: tab },
            view: View::Home,
            ..pre
        }),
        Action::Navigate(dir) => post_navigate(pre, post, dir),
        Action::Back => {
            if pre.previous_views@.len() > 0 {
                post.previous_views@ == pre.previous_views@.drop_last() && post == (AppState {
                    view: pre.previous_views@.last(),
                    previous_views: post.previous_views,
                    ..pre
                })
            } else {
                post == pre
            }
        },
        Action::FocusSearch => post.previous_views@ == pre.previous_views@.push(pre.view) && post
            == (AppState {
            search: crate::app::SearchState { focused: true, ..pre.search },
            previous_views: post.previous_views,
            view: View::Search,
            ..pre
        }),
        Action::UnfocusSearch => {
            let s = crate::app::SearchState { focused: false, ..pre.search };
            if pre.previous_views@.len() > 0 {
                post.previous_views@ == pre.previous_views@.drop_last() && post == (AppState {
                    search: s,
                    view: pre.previous_views@.last(),
                    previous_views: post.previous_views,
                    ..pre
                })
            } else {
                post == (AppState { search: s, ..pre })
            }
        },
        Action::SubmitSearch(_) => post.video_list.items@.len() == 0 && post == (AppState {
            search: crate::app::SearchState { focused: false, ..pre.search },
            loading: crate::app::LoadingState {
                search_request_id: (pre.loading.search_request_id + 1) as u64,
                search_loading: true,
                ..pre.loading
            },
            video_list: crate::app::VideoListState {
                items: post.video_list.items,
                selected: 0,
                ..pre.video_list
            },
            ..pre
        }),
        Action::SearchInput(ch) => {
            let r = insert_at_spec(pre.search.query@, pre.search.cursor as int, ch);
            post.search.query@ == r.0 && post.search.cursor as int == r.1 && post == (AppState {
                search: crate::app::SearchState {
                    query: post.search.query,
                    cursor: post.search.cursor,
                    ..pre.search
                },
                ..pre
            })
        },
        Action::SearchBackspace => {
            let r = remove_before_spec(pre.search.query@, pre.search.cursor as int);
            post.search.query@ == r.0 && post.search.cursor as int == r.1 && post == (AppState {
                search: crate::app::SearchState {
                    query: post.search.query,
                    cursor: post.search.cursor,
                    ..pre.search
                },
                ..pre
            })
        },
        Action::EnterCommandMode => post.command.input@.len() == 0 && post == (AppState {
            command: crate::app::CommandState {
                active: true,
                input: post.command.input,
                message: None,
            },
            ..pre
        }),
        Action::CommandInput(ch) => post.command.input@ == pre.command.input@.push(ch) && post == (
        AppState {
            command: crate::app::CommandState { input: post.command.input, ..pre.command },
            ..pre
        }),
        Action::CommandBackspace => (if pre.command.input@.len() > 0 {
            post.command.input@ == pre.command.input@.drop_last()
        } else {
            post.command.input@ == pre.command.input@
        }) && post == (AppState {
            command: crate::app::CommandState { input: post.command.input, ..pre.command },
            ..pre
        }),
        Action::SubmitCommand(_) => post == (AppState {
            command: crate::app::CommandState { active: false, ..pre.command },
            ..pre
        }),
        Action::CancelCommand => post.command.input@.len() == 0 && post == (AppState {
            command: crate::app::CommandState {
                active: false,
                input: post.command.input,
                message: None,
            },
            ..pre
        }),
        Action::PlaybackLoadSlow(req) => match pre.playback_loading {
            Some(l) => if l.request_id == req {
                post == (AppState {
                    playback_loading: Some(crate::app::PlaybackLoadState { slow: true, ..l }),
                    ..pre
                })
            } else {
                post == pre
            },
            None => post == pre,
        },
        Action::FeedLoaded(req, page) => post_feed_loaded(pre, post, req, *page),
        Action::SearchResults(req, page) => if req == pre.loading.search_request_id {
            post == (AppState {
                loading: crate::app::LoadingState { search_loading: false, ..pre.loading },
                video_list: crate::app::VideoListState {
                    items: page.items,
                    continuation: page.continuation,
                    selected: 0,
                },
                ..pre
            })
        } else {
            post == pre
        },
        Action::AppendFeed(req, page) => post_append_feed(pre, post, req, *page),
        Action::AppendSearch(req, page) => if req == pre.loading.search_request_id {
            post.video_list.items@ == pre.video_list.items@ + page.items@ && post == (AppState {
                loading: crate::app::LoadingState { loading_more_search: false, ..pre.loading },
                video_list: crate::app::VideoListState {
                    items: post.video_list.items,
                    continuation: page.continuation,
                    ..pre.video_list
                },
                ..pre
            })
        } else {
            post == pre
        },
        Action::DetailLoaded(req, detail) => if req == pre.loading.detail_request_id {
            let base = AppState {
                loading: crate::app::LoadingState { detail_loading: false, ..pre.loading },
                detail: Some(DetailState { detail, selected_action: 0 }),
                ..pre
            };
            if is_video_detail_of(pre.view, detail.item.id@) {
                post == base
            } else {
                post.previous_views@ == pre.previous_views@.push(pre.view) && post == (AppState {
                    view: View::VideoDetail(detail.item.id),
                    previous_views: post.previous_views,
                    ..base
                })
            }
        } else {
            post == pre
        },
        Action::ChannelDetailLoaded(req, detail) => if req == pre.loading.detail_request_id {
            let base = AppState {
                loading: crate::app::LoadingState { detail_loading: false, ..pre.loading },
                channel_detail: Some(
                    ChannelDetailState {
                        detail,
                        selected_action: 0,
                        selected_video: 0,
                        is_subscribed: false,
                    },
                ),
                ..pre
            };
            if is_channel_detail_of(pre.view, detail.item.id@) {
                post == base
            } else {
                post.previous_views@ == pre.previous_views@.push(pre.view) && post == (AppState {
                    view: View::ChannelDetail(detail.item.id),
                    previous_views: post.previous_views,
                    ..base
                })
            }
        } else {
            post == pre
        },
        Action::PlaylistDetailLoaded(req, detail) => if req == pre.loading.detail_request_id {
            let base = AppState {
                loading: crate::app::LoadingState { detail_loading: false, ..pre.loading },
                playlist_detail: Some(PlaylistDetailState { detail, selected_action: 0 }),
                ..pre
            };
            if is_playlist_detail_of(pre.view, detail.item.id@) {
                post == base
            } else {
                post.previous_views@ == pre.previous_views@.push(pre.view) && post == (AppState {
                    view: View::PlaylistDetail(detail.item.id),
                    previous_views: post.previous_views,
                    ..base
                })
            }
        } else {
            post == pre
        },
        Action::ThumbnailReady(key, _) => post.loading.thumbnail_loading@ == remove_key_spec(
            pre.loading.thumbnail_loading@,
            key,
        ) && post == (AppState {
            loading: crate::app::LoadingState {
                thumbnail_loading: post.loading.thumbnail_loading,
                ..pre.loading
            },
            ..pre
        }),
        Action::ThumbnailFailed(key) => post.loading.thumbnail_loading@ == remove_key_spec(
            pre.loading.thumbnail_loading@,
            key,
        ) && post == (AppState {
            loading: crate::app::LoadingState {
                thumbnail_loading: post.loading.thumbnail_loading,
                ..pre.loading
            },
            ..pre
        }),
        Action::PlayerStateUpdate(ps) => post == (AppState {
            playback_loading: if ps is Stopped {
                pre.playback_loading
            } else {
                None
            },
            current_playback: if ps is Stopped && pre.playback_loading is None {
                None
            } else {
                pre.current_playback
            },
            player_state: ps,
            ..pre
        }),
        Action::EnterFilterMode => post == (AppState {
            search: crate::app::SearchState {
                filter: SearchFilterState { active: true, focused_index: 0, ..pre.search.filter },
                ..pre.search
            },
            ..pre
        }),
        Action::ExitFilterMode => post == (AppState {
            search: crate::app::SearchState {
                filter: SearchFilterState { active: false, ..pre.search.filter },
                ..pre.search
            },
            ..pre
        }),
        Action::FilterNextField => post == (AppState {
            search: crate::app::SearchState {
                filter: SearchFilterState {
                    focused_index: if pre.search.filter.focused_index < 3 {
                        (pre.search.filter.focused_index + 1) as usize
                    } else {
                        0
                    },
                    ..pre.search.filter
                },
                ..pre.search
            },
            ..pre
        }),
        Action::FilterPrevField => post == (AppState {
            search: crate::app::SearchState {
                filter: SearchFilterState {
                    focused_index: if pre.search.filter.focused_index > 0 {
                        (pre.search.filter.focused_index - 1) as usize
                    } else {
                        3
                    },
                    ..pre.search.filter
                },
                ..pre.search
            },
            ..pre
        }),
        Action::FilterCycleUp => {
            let f = pre.search.filter;
            let nf = if f.focused_index == 0 {
                SearchFilterState { sort: sort_prev(f.sort), ..f }
            } else if f.focused_index == 1 {
                SearchFilterState { date: date_prev(f.date), ..f }
            } else if f.focused_index == 2 {
                SearchFilterState { item_type: item_type_prev(f.item_type), ..f }
            } else if f.focused_index == 3 {
                SearchFilterState { length: length_prev(f.length), ..f }
            } else {
                f
            };
            post == (AppState { search: crate::app::SearchState { filter: nf, ..pre.search }, ..pre })
        },
        Action::FilterCycleDown => {
            let f = pre.search.filter;
            let nf = if f.focused_index == 0 {
                SearchFilterState { sort: sort_next(f.sort), ..f }
            } else if f.focused_index == 1 {
                SearchFilterState { date: date_next(f.date), ..f }
            } else if f.focused_index == 2 {
                SearchFilterState { item_type: item_type_next(f.item_type), ..f }
            } else if f.focused_index == 3 {
                SearchFilterState { length: length_next(f.length), ..f }
            } else {
                f
            };
            post == (AppState { search: crate::app::SearchState { filter: nf, ..pre.search }, ..pre })
        },
        Action::ResetFilters => post == (AppState {
            search: crate::app::SearchState { filter: default_filter_spec(), ..pre.search },
            ..pre
        }),
        Action::OpenSaveSearchPopup => match post.popup {
            Some(PopupState::SaveSearch { input, cursor }) => input@.len() == 0 && cursor == 0
                && post == (AppState { popup: post.popup, ..pre }),
            _ => false,
        },
        Action::OpenRenameSearchPopup => if pre.tabs.active == Tab::SavedSearches
            && pre.saved_searches.items@.len() > 0 {
            let s = pre.saved_searches.items@[pre.saved_searches.selected as int];
            match post.popup {
                Some(PopupState::Rename { id, input, cursor }) => id == s.id && input@ == s.name@
                    && cursor == utf8_len(s.name@) && post == (AppState { popup: post.popup, ..pre }),
                _ => false,
            }
        } else {
            post == pre
        },
        Action::OpenDeleteSearchConfirm => if pre.tabs.active == Tab::SavedSearches
            && pre.saved_searches.items@.len() > 0 {
            let s = pre.saved_searches.items@[pre.saved_searches.selected as int];
            match post.popup {
                Some(PopupState::ConfirmDelete { id, name }) => id == s.id && name@ == s.name@
                    && post == (AppState { popup: post.popup, ..pre }),
                _ => false,
            }
        } else {
            post == pre
        },
        Action::PopupInput(ch) => match pre.popup {
            Some(PopupState::SaveSearch { input, cursor }) => match post.popup {
                Some(PopupState::SaveSearch { input: i2, cursor: c2 }) => {
                    let r = insert_at_spec(input@, cursor as int, ch);
                    i2@ == r.0 && c2 as int == r.1 && post == (AppState { popup: post.popup, ..pre })
                },
                _ => false,
            },
            Some(PopupState::Rename { id, input, cursor }) => match post.popup {
                Some(PopupState::Rename { id: id2, input: i2, cursor: c2 }) => {
                    let r = insert_at_spec(input@, cursor as int, ch);
                    id2 == id && i2@ == r.0 && c2 as int == r.1 && post == (AppState {
                        popup: post.popup,
                        ..pre
                    })
                },
                _ => false,
            },
            _ => post == pre,
        },
        Action::PopupBackspace => match pre.popup {
            Some(PopupState::SaveSearch { input, cursor }) => match post.popup {
                Some(PopupState::SaveSearch { input: i2, cursor: c2 }) => {
                    let r = remove_before_spec(input@, cursor as int);
                    i2@ == r.0 && c2 as int == r.1 && post == (AppState { popup: post.popup, ..pre })
                },
                _ => false,
            },
            Some(PopupState::Rename { id, input, cursor }) => match post.popup {
                Some(PopupState::Rename { id: id2, input: i2, cursor: c2 }) => {
                    let r = remove_before_spec(input@, cursor as int);
                    id2 == id && i2@ == r.0 && c2 as int == r.1 && post == (AppState {
                        popup: post.popup,
                        ..pre
                    })
                },
                _ => false,
            },
            _ => post == pre,
        },
        Action::PopupCancel => post == (AppState { popup: None, ..pre }),
        Action::RefreshSubscriberCount(id, count) => post.subscription_channels@
            == refresh_count_spec(pre.subscription_channels@, id@, count) && post == (AppState {
            subscription_channels: post.subscription_channels,
            ..pre
        }),
        Action::ShowError(msg) => post == (AppState {
            command: crate::app::CommandState { message: Some(msg), ..pre.command },
            loading: crate::app::LoadingState {
                feed_loading: false,
                search_loading: false,
                detail_loading: false,
                loading_more_feed: false,
                loading_more_search: false,
                ..pre.loading
            },
            playback_loading: None,
            ..pre
        }),
        Action::Quit => post == (AppState { should_quit: true, ..pre }),
        // Selection, playback controls, subscription changes and popup
        // submission are carried out by the caller; they leave the state as it is.
        _ => post == pre,
    }
}

/// Inputs on which `dispatch` is defined: moving right from a card row past
/// the end of the grid, a request counter at its limit, a saved-search
/// selection past the end of the list, and text too long for its byte
/// counters are left out.
pub open spec fn dispatch_defined(pre: AppState, a: Action) -> bool {
    match a {
        Action::Navigate(dir) => pre.view == View::Home && pre.tabs.active != Tab::SavedSearches
            && pre.tabs.active != Tab::Subscriptions ==> cards_nav_defined(
            pre.cards.items@.len() as int,
            pre.cards.columns as int,
            pre.cards.selected_row as int,
            dir,
        ),
        Action::SubmitSearch(_) => pre.loading.search_request_id < u64::MAX,
        Action::SearchInput(_) => fits_counters(pre.search.query@),
        Action::OpenRenameSearchPopup => pre.tabs.active == Tab::SavedSearches
            && pre.saved_searches.items@.len() > 0 ==> pre.saved_searches.selected
            < pre.saved_searches.items@.len() && fits_counters(
            pre.saved_searches.items@[pre.saved_searches.selected as int].name@,
        ),
        Action::OpenDeleteSearchConfirm => pre.tabs.active == Tab::SavedSearches
            && pre.saved_searches.items@.len() > 0 ==> pre.saved_searches.selected
            < pre.saved_searches.items@.len(),
        Action::PopupInput(_) => match pre.popup {
            Some(PopupState::SaveSearch { input, .. }) => fits_counters(input@),
            Some(PopupState::Rename { input, .. }) => fits_counters(input@),
            _ => true,
        },
        _ => true,
    }
}

fn history_to_feed(entries: Vec<HistoryEntry>) -> (r: Vec<FeedItem>)
    ensures
        r@ == history_as_feed(entries@),
{
    let mut out: Vec<FeedItem> = Vec::new();
    let mut i: usize = 0;
    while i < entries.len()
        invariant
            i <= entries@.len(),
            out@ == history_as_feed(entries@.take(i as int)),
        decreases entries@.len() - i,
    {
        out.push(FeedItem::Video(entries[i].video.clone()));
        proof {
            assert(history_as_feed(entries@.take(i + 1)) =~= history_as_feed(
                entries@.take(i as int),
            ).push(FeedItem::Video(entries@[i as int].video)));
        }
        i += 1;
    }
    proof {
        assert(entries@.take(entries@.len() as int) =~= entries@);
    }
    out
}

fn remove_thumbnail_key(keys: &Vec<ThumbnailKey>, key: &ThumbnailKey) -> (r: Vec<ThumbnailKey>)
    ensures
        r@ == remove_key_spec(keys@, *key),
{
    let mut out: Vec<ThumbnailKey> = Vec::new();
    let mut i: usize = 0;
    while i < keys.len()
        invariant
            i <= keys@.len(),
            out@ == remove_key_spec(keys@.take(i as int), *key),
        decreases keys@.len() - i,
    {
        proof {
            assert(keys@.take(i + 1).drop_last() =~= keys@.take(i as int));
            assert(keys@.take(i + 1).last() == keys@[i as int]);
        }
        let same = keys[i].item_type == key.item_type && keys[i].item_id == key.item_id;
        if !same {
            out.push(keys[i].clone());
        }
        i += 1;
    }
    proof {
        assert(keys@.take(keys@.len() as int) =~= keys@);
    }
    out
}

pub(crate) fn refresh_subscriber_count(chs: &Vec<ChannelItem>, id: &String, count: u64) -> (r: Vec<ChannelItem>)
    ensures
        r@ == refresh_count_spec(chs@, id@, count),
{
    let mut out: Vec<ChannelItem> = Vec::new();
    let mut i: usize = 0;
    while i < chs.len()
        invariant
            i <= chs@.len(),
            out@.len() == i,
            forall|j: int| 0 <= j < i ==> out@[j] == refresh_count_spec(chs@, id@, count)[j],
        decreases chs@.len() - i,
    {
        let mut c = chs[i].clone();
        if c.id == *id {
            c.subscriber_count = Some(count);
        }
        out.push(c);
        i += 1;
    }
    proof {
        assert(out@ =~= refresh_count_spec(chs@, id@, count));
    }
    out
}

impl AppState {
    /// Applies one action to the state. Actions whose work is outside
    /// (playback, subscriptions, submitting a popup) leave the state as it is;
    /// results tagged with a superseded request id are ignored.
    pub fn dispatch(&mut self, action: Action)
        requires
            old(self).wf(),
            dispatch_defined(*old(self), action),
        ensures
            final(self).wf(),
            dispatch_spec(*old(self), *final(self), action),
    {
        match action {
            Action::SwitchTab(..) | Action::Navigate(..) | Action::Back | Action::FocusSearch | Action::UnfocusSearch | Action::Quit | Action::Subscribe(..) | Action::Unsubscribe(..) | Action::SubscribeSelected | Action::Select | Action::PopupSubmit | Action::PlayVideo(..) | Action::PlayAudio(..) | Action::TogglePause | Action::Seek(..) | Action::VolumeUp | Action::VolumeDown | Action::TogglePlaybackQuality | Action::StopPlayer | Action::StopPlayerAndQuit => self.dispatch_views(action),
            Action::SubmitSearch(..) | Action::SearchInput(..) | Action::SearchBackspace | Action::EnterCommandMode | Action::CommandInput(..) | Action::CommandBackspace | Action::SubmitCommand(..) | Action::CancelCommand | Action::PopupInput(..) | Action::PopupBackspace | Action::PopupCancel | Action::OpenSaveSearchPopup | Action::OpenRenameSearchPopup | Action::OpenDeleteSearchConfirm => self.dispatch_text(action),
            Action::PlaybackLoadSlow(..) | Action::FeedLoaded(..) | Action::SearchResults(..) | Action::AppendFeed(..) | Action::AppendSearch(..) | Action::ThumbnailReady(..) | Action::ThumbnailFailed(..) | Action::PlayerStateUpdate(..) => self.dispatch_pages(action),
            Action::DetailLoaded(..) | Action::ChannelDetailLoaded(..) | Action::PlaylistDetailLoaded(..) => self.dispatch_details(action),
            Action::EnterFilterMode | Action::ExitFilterMode | Action::FilterNextField | Action::FilterPrevField | Action::FilterCycleUp | Action::FilterCycleDown | Action::ResetFilters | Action::RefreshSubscriberCount(..) | Action::ShowError(..) => self.dispatch_filters(action),
        }
    }

    #[verifier::spinoff_prover]
    fn dispatch_views(&mut self, action: Action)
        requires
            old(self).wf(),
            dispatch_defined(*old(self), action),
            action is SwitchTab || action is Navigate || action is Back || action is FocusSearch || action is UnfocusSearch || action is Quit || action is Subscribe || action is Unsubscribe || action is SubscribeSelected || action is Select || action is PopupSubmit || action is PlayVideo || action is PlayAudio || action is TogglePause || action is Seek || action is VolumeUp || action is VolumeDown || action is TogglePlaybackQuality || action is StopPlayer || action is StopPlayerAndQuit,
        ensures
            final(self).wf(),
            dispatch_spec(*old(self), *final(self), action),
    {
        match action {
            Action::SwitchTab(tab) => {
                self.tabs.active = tab;
                self.view = View::Home;
            },
            Action::Navigate(dir) => {
                match self.view {
                    View::Home => {
                        if self.tabs.active == Tab::SavedSearches {
                            self.navigate_saved_searches(dir);
                        } else if self.tabs.active == Tab::Subscriptions {
                            self.navigate_subscription_list(dir);
                        } else {
                            self.navigate_cards(dir);
                        }
                    },
                    View::Search => self.navigate_list(dir),
                    View::VideoDetail(_) => self.navigate_detail(dir),
                    View::PlaylistDetail(_) => self.navigate_playlist_detail(dir),
                    View::ChannelDetail(_) => self.navigate_channel_detail(dir),
                }
            },
            Action::Back => {
                if self.previous_views.len() > 0 {
                    if let Some(prev) = self.previous_views.pop() {
                        self.view = prev;
                    }
                }
            },
            Action::FocusSearch => {
                self.search.focused = true;
                let v = self.view.clone();
                self.previous_views.push(v);
                self.view = View::Search;
            },
            Action::UnfocusSearch => {
                self.search.focused = false;
                if self.previous_views.len() > 0 {
                    if let Some(prev) = self.previous_views.pop() {
                        self.view = prev;
                    }
                }
            },
            Action::PlayVideo(_) | Action::PlayAudio(_) | Action::TogglePause | Action::Seek(_)
            | Action::VolumeUp | Action::VolumeDown | Action::TogglePlaybackQuality
            | Action::StopPlayer | Action::StopPlayerAndQuit => {},
            Action::Subscribe(_) | Action::Unsubscribe(_) | Action::SubscribeSelected
            | Action::Select | Action::PopupSubmit => {},
            Action::Quit => {
                self.should_quit = true;
            },
            _ => {},
        }
    }

    #[verifier::spinoff_prover]
    fn dispatch_text(&mut self, action: Action)
        requires
            old(self).wf(),
            dispatch_defined(*old(self), action),
            action is SubmitSearch || action is SearchInput || action is SearchBackspace || action is EnterCommandMode || action is CommandInput || action is CommandBackspace || action is SubmitCommand || action is CancelCommand || action is PopupInput || action is PopupBackspace || action is PopupCancel || action is OpenSaveSearchPopup || action is OpenRenameSearchPopup || action is OpenDeleteSearchConfirm,
        ensures
            final(self).wf(),
            dispatch_spec(*old(self), *final(self), action),
    {
        match action {
            Action::SubmitSearch(_) => {
                self.search.focused = false;
                self.loading.search_request_id = self.loading.search_request_id + 1;
                self.loading.search_loading = true;
                self.video_list.items.clear();
                self.video_list.selected = 0;
            },
            Action::SearchInput(ch) => {
                let (q, c) = insert_char_at(&self.search.query, self.search.cursor, ch);
                self.search.query = q;
                self.search.cursor = c;
            },
            Action::SearchBackspace => {
                let (q, c) = remove_char_before(&self.search.query, self.search.cursor);
                self.search.query = q;
                self.search.cursor = c;
            },
            Action::EnterCommandMode => {
                self.command.active = true;
                self.command.input = String::new();
                self.command.message = None;
            },
            Action::CommandInput(ch) => {
                push_char(&mut self.command.input, ch);
            },
            Action::CommandBackspace => {
                pop_char(&mut self.command.input);
            },
            Action::SubmitCommand(_) => {
                self.command.active = false;
            },
            Action::CancelCommand => {
                self.command.active = false;
                self.command.input = String::new();
                self.command.message = None;
            },
            Action::OpenSaveSearchPopup => {
                self.popup = Some(PopupState::SaveSearch { input: String::new(), cursor: 0 });
                proof {
                    assert(Seq::<char>::empty().take(0) =~= Seq::<char>::empty());
                    assert(is_boundary_at(Seq::<char>::empty(), 0, 0));
                }
            },
            Action::OpenRenameSearchPopup => {
                if self.tabs.active == Tab::SavedSearches && self.saved_searches.items.len() > 0 {
                    let i = self.saved_searches.selected;
                    let name = self.saved_searches.items[i].name.clone();
                    let id = self.saved_searches.items[i].id;
                    let cursor = byte_len(name.as_str());
                    proof {
                        crate::text::lemma_take_full_len(name@);
                    }
                    self.popup = Some(PopupState::Rename { id, input: name, cursor });
                }
            },
            Action::OpenDeleteSearchConfirm => {
                if self.tabs.active == Tab::SavedSearches && self.saved_searches.items.len() > 0 {
                    let i = self.saved_searches.selected;
                    let id = self.saved_searches.items[i].id;
                    let name = self.saved_searches.items[i].name.clone();
                    self.popup = Some(PopupState::ConfirmDelete { id, name });
                }
            },
            Action::PopupInput(ch) => {
                self.popup_input(ch);
            },
            Action::PopupBackspace => {
                self.popup_backspace();
            },
            Action::PopupCancel => {
                self.popup = None;
            },
            _ => {},
        }
    }

    #[verifier::spinoff_prover]
    fn dispatch_pages(&mut self, action: Action)
        requires
            old(self).wf(),
            dispatch_defined(*old(self), action),
            action is PlaybackLoadSlow || action is FeedLoaded || action is SearchResults || action is AppendFeed || action is AppendSearch || action is ThumbnailReady || action is ThumbnailFailed || action is PlayerStateUpdate,
        ensures
            final(self).wf(),
            dispatch_spec(*old(self), *final(self), action),
    {
        match action {
            Action::PlaybackLoadSlow(req_id) => {
                if let Some(load) = self.playback_loading.take() {
                    let matches = load.request_id == req_id;
                    self.playback_loading = Some(
                        crate::app::PlaybackLoadState {
                            slow: if matches { true } else { load.slow },
                            ..load
                        },
                    );
                }
            },
            Action::FeedLoaded(req_id, page) => {
                self.apply_feed_loaded(req_id, *page);
            },
            Action::SearchResults(req_id, page) => {
                if req_id == self.loading.search_request_id {
                    self.loading.search_loading = false;
                    self.video_list.items = page.items;
                    self.video_list.continuation = page.continuation;
                    self.video_list.selected = 0;
                }
            },
            Action::AppendFeed(req_id, page) => {
                self.apply_append_feed(req_id, *page);
            },
            Action::AppendSearch(req_id, page) => {
                if req_id == self.loading.search_request_id {
                    self.loading.loading_more_search = false;
                    let mut items = page.items;
                    self.video_list.items.append(&mut items);
                    self.video_list.continuation = page.continuation;
                }
            },
            Action::ThumbnailReady(key, _path) => {
                proof {
                    lemma_remove_key_distinct(self.loading.thumbnail_loading@, key);
                }
                let keys = remove_thumbnail_key(&self.loading.thumbnail_loading, &key);
                self.loading.thumbnail_loading = keys;
            },
            Action::ThumbnailFailed(key) => {
                proof {
                    lemma_remove_key_distinct(self.loading.thumbnail_loading@, key);
                }
                let keys = remove_thumbnail_key(&self.loading.thumbnail_loading, &key);
                self.loading.thumbnail_loading = keys;
            },
            Action::PlayerStateUpdate(state) => {
                let stopped = match state {
                    PlayerState::Stopped => true,
                    _ => false,
                };
                if !stopped {
                    self.playback_loading = None;
                } else if self.playback_loading.is_none() {
                    self.current_playback = None;
                }
                self.player_state = state;
            },
            _ => {},
        }
    }

    #[verifier::spinoff_prover]
    fn dispatch_details(&mut self, action: Action)
        requires
            old(self).wf(),
            dispatch_defined(*old(self), action),
            action is DetailLoaded || action is ChannelDetailLoaded || action is PlaylistDetailLoaded,
        ensures
            final(self).wf(),
            dispatch_spec(*old(self), *final(self), action),
    {
        match action {
            Action::DetailLoaded(req_id, detail) => {
                if req_id == self.loading.detail_request_id {
                    self.loading.detail_loading = false;
                    let video_id = detail.item.id.clone();
                    let same = match &self.view {
                        View::VideoDetail(current) => *current == video_id,
                        _ => false,
                    };
                    self.detail = Some(DetailState { detail, selected_action: 0 });
                    if !same {
                        let v = self.view.clone();
                        self.previous_views.push(v);
                        self.view = View::VideoDetail(video_id);
                    }
                }
            },
            Action::ChannelDetailLoaded(req_id, detail) => {
                if req_id == self.loading.detail_request_id {
                    self.loading.detail_loading = false;
                    let channel_id = detail.item.id.clone();
                    let same = match &self.view {
                        View::ChannelDetail(current) => *current == channel_id,
                        _ => false,
                    };
                    self.channel_detail = Some(
                        ChannelDetailState {
                            detail,
                            selected_action: 0,
                            selected_video: 0,
                            is_subscribed: false,
                        },
                    );
                    if !same {
                        let v = self.view.clone();
                        self.previous_views.push(v);
                        self.view = View::ChannelDetail(channel_id);
                    }
                }
            },
            Action::PlaylistDetailLoaded(req_id, detail) => {
                if req_id == self.loading.detail_request_id {
                    self.loading.detail_loading = false;
                    let playlist_id = detail.item.id.clone();
                    let same = match &self.view {
                        View::PlaylistDetail(current) => *current == playlist_id,
                        _ => false,
                    };
                    self.playlist_detail = Some(PlaylistDetailState { detail, selected_action: 0 });
                    if !same {
                        let v = self.view.clone();
                        self.previous_views.push(v);
                        self.view = View::PlaylistDetail(playlist_id);
                    }
                }
            },
            _ => {},
        }
    }

    #[verifier::spinoff_prover]
    fn dispatch_filters(&mut self, action: Action)
        requires
            old(self).wf(),
            dispatch_defined(*old(self), action),
            action is EnterFilterMode || action is ExitFilterMode || action is FilterNextField || action is FilterPrevField || action is FilterCycleUp || action is FilterCycleDown || action is ResetFilters || action is RefreshSubscriberCount || action is ShowError,
        ensures
            final(self).wf(),
            dispatch_spec(*old(self), *final(self), action),
    {
        match action {
            Action::EnterFilterMode => {
                self.search.filter.active = true;
                self.search.filter.focused_index = 0;
            },
            Action::ExitFilterMode => {
                self.search.filter.active = false;
            },
            Action::FilterNextField => {
                if self.search.filter.focused_index < 3 {
                    self.search.filter.focused_index = self.search.filter.focused_index + 1;
                } else {
                    self.search.filter.focused_index = 0;
                }
            },
            Action::FilterPrevField => {
                if self.search.filter.focused_index > 0 {
                    self.search.filter.focused_index = self.search.filter.focused_index - 1;
                } else {
                    self.search.filter.focused_index = 3;
                }
            },
            Action::FilterCycleUp => {
                let i = self.search.filter.focused_index;
                if i == 0 {
                    self.search.filter.sort = self.search.filter.sort.prev();
                } else if i == 1 {
                    self.search.filter.date = self.search.filter.date.prev();
                } else if i == 2 {
                    self.search.filter.item_type = self.search.filter.item_type.prev();
                } else if i == 3 {
                    self.search.filter.length = self.search.filter.length.prev();
                }
            },
            Action::FilterCycleDown => {
                let i = self.search.filter.focused_index;
                if i == 0 {
                    self.search.filter.sort = self.search.filter.sort.next();
                } else if i == 1 {
                    self.search.filter.date = self.search.filter.date.next();
                } else if i == 2 {
                    self.search.filter.item_type = self.search.filter.item_type.next();
                } else if i == 3 {
                    self.search.filter.length = self.search.filter.length.next();
                }
            },
            Action::ResetFilters => {
                self.search.filter = SearchFilterState::new();
            },
            Action::RefreshSubscriberCount(channel_id, count) => {
                let chs = refresh_subscriber_count(&self.subscription_channels, &channel_id, count);
                self.subscription_channels = chs;
            },
            Action::ShowError(msg) => {
                self.command.message = Some(msg);
                self.loading.feed_loading = false;
                self.loading.search_loading = false;
                self.loading.detail_loading = false;
                self.loading.loading_more_feed = false;
                self.loading.loading_more_search = false;
                self.playback_loading = None;
            },
            _ => {},
        }
    }

    fn apply_feed_loaded(&mut self, req_id: u64, page: LoadedPage)
        ensures
            post_feed_loaded(*old(self), *final(self), req_id, page),
    {
        if req_id == self.loading.feed_request_id {
            self.loading.feed_loading = false;
            match page {
                LoadedPage::Home(feed) => {
                    self.cards.items = feed.items;
                    self.cards.continuation = feed.continuation;
                },
                LoadedPage::History(feed) => {
                    self.cards.items = history_to_feed(feed.items);
                    self.cards.continuation = feed.continuation;
                },
                LoadedPage::Subscriptions(feed) => {
                    self.subscription_channels = feed.items;
                },
            }
            self.cards.selected_row = 0;
            self.cards.selected_col = 0;
        }
    }

    fn apply_append_feed(&mut self, req_id: u64, page: LoadedPage)
        ensures
            post_append_feed(*old(self), *final(self), req_id, page),
    {
        if req_id == self.loading.feed_request_id {
            self.loading.loading_more_feed = false;
            match page {
                LoadedPage::Home(feed) => {
                    let mut items = feed.items;
                    self.cards.items.append(&mut items);
                    self.cards.continuation = feed.continuation;
                },
                LoadedPage::History(feed) => {
                    let mut items = history_to_feed(feed.items);
                    self.cards.items.append(&mut items);
                    self.cards.continuation = feed.continuation;
                },
                LoadedPage::Subscriptions(_) => {},
            }
        }
    }

    fn popup_input(&mut self, ch: char)
        requires
            popup_wf_and_fits(old(self).popup),
            crate::app::popup_wf(old(self).popup),
        ensures
            crate::app::popup_wf(final(self).popup),
            dispatch_spec(*old(self), *final(self), Action::PopupInput(ch)),
    {
        let p = self.popup.take();
        match p {
            Some(PopupState::SaveSearch { input, cursor }) => {
                let (i2, c2) = insert_char_at(&input, cursor, ch);
                self.popup = Some(PopupState::SaveSearch { input: i2, cursor: c2 });
            },
            Some(PopupState::Rename { id, input, cursor }) => {
                let (i2, c2) = insert_char_at(&input, cursor, ch);
                self.popup = Some(PopupState::Rename { id, input: i2, cursor: c2 });
            },
            other => {
                self.popup = other;
            },
        }
    }

    fn popup_backspace(&mut self)
        requires
            crate::app::popup_wf(old(self).popup),
        ensures
            crate::app::popup_wf(final(self).popup),
            dispatch_spec(*old(self), *final(self), Action::PopupBackspace),
    {
        let p = self.popup.take();
        match p {
            Some(PopupState::SaveSearch { input, cursor }) => {
                let (i2, c2) = remove_char_before(&input, cursor);
                self.popup = Some(PopupState::SaveSearch { input: i2, cursor: c2 });
            },
            Some(PopupState::Rename { id, input, cursor }) => {
                let (i2, c2) = remove_char_before(&input, cursor);
                self.popup = Some(PopupState::Rename { id, input: i2, cursor: c2 });
            },
            other => {
                self.popup = other;
            },
        }
    }
}

pub open spec fn popup_wf_and_fits(p: Option<PopupState>) -> bool {
    match p {
        Some(PopupState::SaveSearch { input, .. }) => fits_counters(input@),
        Some(PopupState::Rename { input, .. }) => fits_counters(input@),
        _ => true,
    }
}

} // verus!
