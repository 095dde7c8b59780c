use vstd::prelude::*;
use vstd::view::View as _;
use crate::app::{
    Action, AppState, ChannelDetailState, CommandState, LoadingState, PlaybackLoadState,
    SavedSearchListState,
};
use crate::dispatch::{dispatch_spec, refresh_count_spec, thumb_key_matches};
use crate::effects::{Effect, SavedSearchOp};
use crate::lines::trim_spec;
use crate::models::{ChannelDetail, ThumbnailKey};
use crate::player::{quality_label_spec, PlayMode, PlaybackSession, PlayerState};
use crate::saved_searches::SavedSearch;
use crate::session::{
    apply_restore_spec, last_index, last_index_of, min_nat, min_usize, restore_applies,
};
use crate::text::{concat_str, trim_str};

verus! {

/// `post` is `pre` with the status line showing `msg`.
pub open spec fn with_message(pre: AppState, post: AppState, msg: Seq<char>) -> bool {
    &&& post == (AppState {
        command: CommandState { message: post.command.message, ..pre.command },
        ..pre
    })
    &&& match post.command.message {
        Some(m) => m@ == msg,
        None => false,
    }
}

/// `s` with nothing playing or starting.
pub open spec fn stopped(s: AppState) -> AppState {
    AppState { playback_loading: None, current_playback: None, player_state: PlayerState::Stopped, ..s }
}

/// Re-applying a pending restore, as `apply_pending_restore` does.
pub open spec fn pending_restore_step(pre: AppState, post: AppState) -> bool {
    match pre.pending_restore {
        None => post == pre,
        Some(r) => if restore_applies(r, pre) {
            apply_restore_spec(pre, post, r)
        } else {
            post == pre
        },
    }
}

/// Message after a subscription change succeeded.
pub open spec fn subscription_message(subscribed: bool, name: Seq<char>) -> Seq<char> {
    (if subscribed {
        "Subscribed to "@
    } else {
        "Unsubscribed from "@
    }) + name
}

/// Message after a subscription change failed.
pub open spec fn subscription_error(subscribed: bool, error: Seq<char>) -> Seq<char> {
    (if subscribed {
        "Subscribe error: "@
    } else {
        "Unsubscribe error: "@
    }) + error
}

/// The channel page with its subscription flag updated, when it shows the
/// channel with this id and the flag is to follow the change.
pub open spec fn synced_detail(
    cd: Option<ChannelDetailState>,
    channel_id: Seq<char>,
    subscribed: bool,
    sync_detail: bool,
) -> Option<ChannelDetailState> {
    match cd {
        Some(c) => if sync_detail && c.detail.item.id@ == channel_id {
            Some(ChannelDetailState { is_subscribed: subscribed, ..c })
        } else {
            cd
        },
        None => None,
    }
}

/// Message after a saved-search change succeeded.
pub open spec fn saved_search_message(op: SavedSearchOp, name: Seq<char>) -> Seq<char> {
    match op {
        SavedSearchOp::Save => "Saved search \""@ + name + "\""@,
        SavedSearchOp::Delete => "Deleted \""@ + name + "\""@,
        SavedSearchOp::Rename => "Renamed to \""@ + name + "\""@,
    }
}

/// Message after a saved-search change failed.
pub open spec fn saved_search_error(op: SavedSearchOp, error: Seq<char>) -> Seq<char> {
    match op {
        SavedSearchOp::Save => "Save error: "@ + error,
        SavedSearchOp::Delete => "Delete error: "@ + error,
        SavedSearchOp::Rename => "Rename error: "@ + error,
    }
}

/// The state after a channel page arrived, given whether the channel is
/// subscribed: a subscribed channel's count is refreshed in the list (and
/// stored), the page is taken as `dispatch` takes it, the page's flag is
/// set, and a pending restore is re-applied.
pub open spec fn channel_loaded_spec(
    pre: AppState,
    post: AppState,
    req: u64,
    detail: ChannelDetail,
    is_subscribed: bool,
    effects: Seq<Effect>,
) -> bool {
    let refresh = is_subscribed && detail.item.subscriber_count is Some;
    let s1 = if refresh {
        AppState {
            subscription_channels: post.subscription_channels,
            ..pre
        }
    } else {
        pre
    };
    &&& refresh ==> post.subscription_channels@ == refresh_count_spec(
        pre.subscription_channels@,
        detail.item.id@,
        detail.item.subscriber_count->0,
    )
    &&& effects == if refresh {
        seq![Effect::UpdateSubscriberCount(detail.item.id, detail.item.subscriber_count->0)]
    } else {
        Seq::<Effect>::empty()
    }
    &&& channel_page_taken(s1, post, req, detail, is_subscribed)
}

/// From `s1`, the page is taken as `dispatch` takes it, the page's
/// subscription flag is set, and a pending restore is re-applied.
pub open spec fn channel_page_taken(s1: AppState, post: AppState, req: u64, detail: ChannelDetail, is_subscribed: bool) -> bool {
    exists|s2: AppState|
        #[trigger] dispatch_spec(s1, s2, Action::ChannelDetailLoaded(req, detail)) && pending_restore_step(
            AppState {
                channel_detail: match s2.channel_detail {
                    Some(c) => Some(ChannelDetailState { is_subscribed, ..c }),
                    None => None,
                },
                ..s2
            },
            post,
        )
}

impl AppState {
    pub(crate) fn set_message(&mut self, msg: String)
        ensures
            *final(self) == (AppState {
                command: CommandState { message: Some(msg), ..old(self).command },
                ..*old(self)
            }),
    {
        self.command.message = Some(msg);
    }

    /// Keeps the player's window geometry for the next start, unless it is blank.
    pub fn record_geometry(&mut self, geometry: String)
        ensures
            trim_spec(geometry@).len() > 0 ==> *final(self) == (AppState {
                last_mpv_geometry: Some(geometry),
                ..*old(self)
            }),
            trim_spec(geometry@).len() == 0 ==> *final(self) == *old(self),
    {
        let t = trim_str(geometry.as_str());
        if t.as_str().unicode_len() > 0 {
            self.last_mpv_geometry = Some(geometry);
        }
    }

    /// Records a playback the player has started: a new playback request
    /// (returned) that is loading under `label` since `now_ms`, and the
    /// session to resume.
    pub fn playback_started(&mut self, url: String, mode: PlayMode, label: String, now_ms: u64) -> (request_id: u64)
        requires
            old(self).loading.playback_request_id < u64::MAX,
        ensures
            request_id == old(self).loading.playback_request_id + 1,
            *final(self) == (AppState {
                loading: LoadingState { playback_request_id: request_id, ..old(self).loading },
                playback_loading: Some(
                    PlaybackLoadState { request_id, label, started_at_ms: now_ms, slow: false },
                ),
                current_playback: Some(PlaybackSession { url, mode }),
                ..*old(self)
            }),
    {
        self.loading.playback_request_id = self.loading.playback_request_id + 1;
        let request_id = self.loading.playback_request_id;
        self.playback_loading = Some(
            PlaybackLoadState { request_id, label, started_at_ms: now_ms, slow: false },
        );
        self.current_playback = Some(PlaybackSession { url, mode });
        request_id
    }

    /// Reports a player that failed to start.
    pub fn playback_failed(&mut self, error: &str)
        ensures
            with_message(
                *old(self),
                *final(self),
                "Playback error: "@ + error@ + " (is mpv installed?)"@,
            ),
    {
        let m = concat_str("Playback error: ", error);
        let m = concat_str(m.as_str(), " (is mpv installed?)");
        self.set_message(m);
    }

    /// Reports the quality now in use, and whether the current media was
    /// reloaded with it.
    pub fn playback_reloaded(&mut self, reloaded: bool)
        ensures
            with_message(
                *old(self),
                *final(self),
                "Playback quality: "@ + quality_label_spec(old(self).playback_quality) + if reloaded {
                    " (reloaded current media)"@
                } else {
                    Seq::<char>::empty()
                },
            ),
    {
        let m = concat_str("Playback quality: ", self.playback_quality.label());
        let suffix = if reloaded {
            " (reloaded current media)"
        } else {
            ""
        };
        proof {
            if !reloaded {
                reveal_strlit("");
            }
        }
        let m = concat_str(m.as_str(), suffix);
        self.set_message(m);
    }

    /// Forgets the playback after the player was stopped.
    pub fn playback_stopped(&mut self)
        ensures
            *final(self) == stopped(*old(self)),
    {
        self.playback_loading = None;
        self.current_playback = None;
        self.player_state = PlayerState::Stopped;
    }

    /// Reports the outcome of importing a cookie file.
    pub fn cookies_imported(&mut self, outcome: Result<(), String>)
        ensures
            match outcome {
                Ok(_) => with_message(
                    *old(self),
                    *final(self),
                    "Cookies imported \u{2014} playback will use your account"@,
                ),
                Err(e) => with_message(*old(self), *final(self), "Error: "@ + e@),
            },
    {
        match outcome {
            Ok(_) => {
                let m = String::from_str("Cookies imported \u{2014} playback will use your account");
                self.set_message(m);
            },
            Err(e) => {
                let m = concat_str("Error: ", e.as_str());
                self.set_message(m);
            },
        }
    }

    /// Reports a subscription change (`subscribed`: whether it subscribed)
    /// to the channel with this id and name. On success the message says so
    /// and, when asked, the open channel page follows; a failure is reported
    /// only when asked.
    pub fn subscription_changed(
        &mut self,
        channel_id: &str,
        name: &str,
        subscribed: bool,
        outcome: Result<(), String>,
        report_errors: bool,
        sync_detail: bool,
    )
        ensures
            match outcome {
                Ok(_) => with_message(
                    AppState {
                        channel_detail: synced_detail(
                            old(self).channel_detail,
                            channel_id@,
                            subscribed,
                            sync_detail,
                        ),
                        ..*old(self)
                    },
                    *final(self),
                    subscription_message(subscribed, name@),
                ),
                Err(e) => if report_errors {
                    with_message(*old(self), *final(self), subscription_error(subscribed, e@))
                } else {
                    *final(self) == *old(self)
                },
            },
    {
        match outcome {
            Ok(_) => {
                let prefix = if subscribed {
                    "Subscribed to "
                } else {
                    "Unsubscribed from "
                };
                let m = concat_str(prefix, name);
                self.set_message(m);
                if sync_detail {
                    let id = String::from_str(channel_id);
                    match &mut self.channel_detail {
                        Some(cd) => {
                            if cd.detail.item.id == id {
                                cd.is_subscribed = subscribed;
                            }
                        },
                        None => {},
                    }
                }
            },
            Err(e) => {
                if report_errors {
                    let prefix = if subscribed {
                        "Subscribe error: "
                    } else {
                        "Unsubscribe error: "
                    };
                    let m = concat_str(prefix, e.as_str());
                    self.set_message(m);
                }
            },
        }
    }

    /// Reports a saved-search change under `name`; on success the list read
    /// back replaces the shown one (after a delete the selection is kept on
    /// the list).
    pub fn saved_search_done(&mut self, op: SavedSearchOp, name: &str, outcome: Result<Vec<SavedSearch>, String>)
        ensures
            match outcome {
                Ok(items) => with_message(
                    AppState {
                        saved_searches: SavedSearchListState {
                            items,
                            selected: if op == SavedSearchOp::Delete {
                                min_nat(
                                    old(self).saved_searches.selected as int,
                                    last_index(items@.len() as int),
                                ) as usize
                            } else {
                                old(self).saved_searches.selected
                            },
                        },
                        ..*old(self)
                    },
                    *final(self),
                    saved_search_message(op, name@),
                ),
                Err(e) => with_message(*old(self), *final(self), saved_search_error(op, e@)),
            },
    {
        match outcome {
            Ok(items) => {
                let (a, b) = match op {
                    SavedSearchOp::Save => ("Saved search \"", "\""),
                    SavedSearchOp::Delete => ("Deleted \"", "\""),
                    SavedSearchOp::Rename => ("Renamed to \"", "\""),
                };
                let m = concat_str(a, name);
                let m = concat_str(m.as_str(), b);
                self.set_message(m);
                let n = items.len();
                self.saved_searches.items = items;
                if op == SavedSearchOp::Delete {
                    let max = last_index_of(n);
                    self.saved_searches.selected = min_usize(self.saved_searches.selected, max);
                }
            },
            Err(e) => {
                let p = match op {
                    SavedSearchOp::Save => "Save error: ",
                    SavedSearchOp::Delete => "Delete error: ",
                    SavedSearchOp::Rename => "Rename error: ",
                };
                let m = concat_str(p, e.as_str());
                self.set_message(m);
            },
        }
    }
}

/// The thumbnail with this key is among those being downloaded.
pub open spec fn is_loading(keys: Seq<ThumbnailKey>, key: ThumbnailKey) -> bool {
    exists|i: int| 0 <= i < keys.len() && #[trigger] thumb_key_matches(keys[i], key)
}

/// Whether `keys` holds an entry naming the thumbnail `key`.
pub fn contains_key(keys: &Vec<ThumbnailKey>, key: &ThumbnailKey) -> (r: bool)
    ensures
        r == is_loading(keys@, *key),
{
    let mut i: usize = 0;
    while i < keys.len()
        invariant
            i <= keys@.len(),
            forall|j: int| 0 <= j < i ==> !#[trigger] thumb_key_matches(keys@[j], *key),
        decreases keys@.len() - i,
    {
        if keys[i].item_type == key.item_type && keys[i].item_id == key.item_id {
            proof {
                assert(thumb_key_matches(keys@[i as int], *key));
            }
            return true;
        }
        i += 1;
    }
    false
}

impl AppState {
    /// Takes a channel page that arrived, given whether the channel is
    /// subscribed (see `channel_loaded_spec`).
    #[verifier::spinoff_prover]
    pub fn channel_detail_loaded(&mut self, request_id: u64, detail: ChannelDetail, is_subscribed: bool) -> (effects: Vec<Effect>)
        requires
            old(self).wf(),
        ensures
            final(self).wf(),
            channel_loaded_spec(*old(self), *final(self), request_id, detail, is_subscribed, effects@),
    {
        let ghost d = detail;
        let mut effects: Vec<Effect> = Vec::new();
        if is_subscribed {
            match detail.item.subscriber_count {
                Some(count) => {
                    effects.push(Effect::UpdateSubscriberCount(detail.item.id.clone(), count));
                    self.subscription_channels = crate::dispatch::refresh_subscriber_count(
                        &self.subscription_channels,
                        &detail.item.id,
                        count,
                    );
                },
                None => {},
            }
        }
        let ghost s1 = *self;
        self.dispatch(Action::ChannelDetailLoaded(request_id, detail));
        let ghost s2 = *self;
        match &mut self.channel_detail {
            Some(cd) => {
                cd.is_subscribed = is_subscribed;
            },
            None => {},
        }
        let ghost s3 = *self;
        self.apply_pending_restore();
        proof {
            assert(dispatch_spec(s1, s2, Action::ChannelDetailLoaded(request_id, d)));
            assert(pending_restore_step(s3, *self));
            assert(self.subscription_channels == s1.subscription_channels);
            let refresh = is_subscribed && d.item.subscriber_count is Some;
            if refresh {
                assert(s1 == (AppState { subscription_channels: self.subscription_channels, ..*old(self) }));
                assert(effects@ == seq![Effect::UpdateSubscriberCount(d.item.id, d.item.subscriber_count->0)]);
            } else {
                assert(s1 == *old(self));
                assert(effects@ == Seq::<Effect>::empty());
            }
            let es1 = if refresh {
                AppState { subscription_channels: self.subscription_channels, ..*old(self) }
            } else {
                *old(self)
            };
            assert(es1 == s1);
            assert(dispatch_spec(es1, s2, Action::ChannelDetailLoaded(request_id, d)));
            assert(s3 == (AppState {
                channel_detail: match s2.channel_detail {
                    Some(c) => Some(ChannelDetailState { is_subscribed, ..c }),
                    None => None,
                },
                ..s2
            }));
            assert(channel_page_taken(es1, *self, request_id, d, is_subscribed));
        }
        effects
    }

    /// Takes a downloaded thumbnail once it was decoded (or failed to
    /// decode): it is no longer loading; a decoded one's path is stored, a
    /// broken file is deleted.
    pub fn thumbnail_decoded(&mut self, key: ThumbnailKey, path: String, decoded: bool) -> (effects: Vec<Effect>)
        requires
            old(self).wf(),
        ensures
            final(self).wf(),
            final(self).loading.thumbnail_loading@ == crate::dispatch::remove_key_spec(
                old(self).loading.thumbnail_loading@,
                key,
            ),
            *final(self) == (AppState {
                loading: LoadingState {
                    thumbnail_loading: final(self).loading.thumbnail_loading,
                    ..old(self).loading
                },
                ..*old(self)
            }),
            effects@ == if decoded {
                seq![Effect::StoreThumbnailPath(key, path)]
            } else {
                seq![Effect::RemoveFile(path)]
            },
    {
        let mut effects: Vec<Effect> = Vec::new();
        if decoded {
            effects.push(Effect::StoreThumbnailPath(key.clone(), path.clone()));
            self.dispatch(Action::ThumbnailReady(key, path));
        } else {
            effects.push(Effect::RemoveFile(path));
            self.dispatch(Action::ThumbnailFailed(key));
        }
        effects
    }

    /// Marks a thumbnail as being downloaded; `false` when it already was.
    pub fn mark_thumbnail_loading(&mut self, key: ThumbnailKey) -> (added: bool)
        requires
            old(self).wf(),
        ensures
            final(self).wf(),
            added == !is_loading(old(self).loading.thumbnail_loading@, key),
            added ==> final(self).loading.thumbnail_loading@
                == old(self).loading.thumbnail_loading@.push(key),
            *final(self) == (AppState {
                loading: LoadingState {
                    thumbnail_loading: final(self).loading.thumbnail_loading,
                    ..old(self).loading
                },
                ..*old(self)
            }),
            !added ==> *final(self) == *old(self),
    {
        if contains_key(&self.loading.thumbnail_loading, &key) {
            false
        } else {
            let ghost before = self.loading.thumbnail_loading@;
            self.loading.thumbnail_loading.push(key);
            proof {
                let after = self.loading.thumbnail_loading@;
                assert forall|i: int, j: int| 0 <= i < j < after.len() implies !(
                #[trigger] after[i].item_type == #[trigger] after[j].item_type && after[i].item_id@
                    == after[j].item_id@) by {
                    if j == after.len() - 1 {
                        assert(after[i] == before[i]);
                        if after[i].item_type == after[j].item_type && after[i].item_id@ == after[j].item_id@ {
                            assert(crate::dispatch::thumb_key_matches(before[i], key));
                        }
                    } else {
                        assert(after[i] == before[i] && after[j] == before[j]);
                    }
                }
            }
            true
        }
    }

    /// A key press clears the status message, unless the command line is open.
    pub fn clear_status_on_key(&mut self)
        ensures
            !old(self).command.active && old(self).command.message is Some ==> *final(self) == (
            AppState {
                command: CommandState { message: None, ..old(self).command },
                ..*old(self)
            }),
            old(self).command.active || old(self).command.message is None ==> *final(self)
                == *old(self),
    {
        if !self.command.active && self.command.message.is_some() {
            self.command.message = None;
        }
    }
}

} // verus!
