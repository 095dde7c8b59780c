use vstd::prelude::*;
use vstd::view::View as _;
use crate::app::{Action, AppState, Direction, PopupState, Tab, View};
use crate::controller::{feed_load_effect, load_more_effect, opt_effects};
use crate::dispatch::dispatch_spec;
use crate::effects::{Effect, ReloadPlan, SubscriptionChange};
use crate::handler_spec::{can_reload, command_spec, handle_defined, handle_spec, item_select_spec, popup_submit_spec, quality_spec, reload_plan_matches, research_spec, run_saved_spec, select_defined, select_spec, unsubscribe_name};
use crate::models::{ChannelItem, FeedItem};
use crate::player::{PlayMode, PlayerState};
use crate::replies::pending_restore_step;
use crate::saved_searches::SavedSearch;
use crate::text::{byte_len, concat_str, str_eq, strip_prefix_str, trim_str};

verus! {

impl AppState {
    /// The plan for playing the current media again, when it can be.
    pub fn reload_plan(&self) -> (r: Option<ReloadPlan>)
        ensures
            r is Some == can_reload(*self),
            r is Some ==> reload_plan_matches(r->0, *self),
    {
        let session = match &self.current_playback {
            Some(s) => s,
            None => {
                return None;
            },
        };
        match &self.player_state {
            PlayerState::Stopped => None,
            PlayerState::Playing(info) => {
                let label = if info.title.as_str().unicode_len() > 0 {
                    info.title.clone()
                } else {
                    String::from_str("current media")
                };
                Some(
                    ReloadPlan {
                        url: session.url.clone(),
                        mode: session.mode,
                        label,
                        paused: false,
                        resume_at_bits: info.time_pos_bits,
                    },
                )
            },
            PlayerState::Paused(info) => {
                let label = if info.title.as_str().unicode_len() > 0 {
                    info.title.clone()
                } else {
                    String::from_str("current media")
                };
                Some(
                    ReloadPlan {
                        url: session.url.clone(),
                        mode: session.mode,
                        label,
                        paused: true,
                        resume_at_bits: info.time_pos_bits,
                    },
                )
            },
        }
    }

    fn select_item(&mut self, item: FeedItem) -> (effects: Vec<Effect>)
        requires
            old(self).loading.detail_request_id < u64::MAX,
        ensures
            item_select_spec(*old(self), *final(self), effects@, item),
    {
        let mut effects: Vec<Effect> = Vec::new();
        match item {
            FeedItem::Video(v) => {
                let e = self.load_video_detail(v);
                effects.push(e);
            },
            FeedItem::Short(v) => {
                let e = self.load_video_detail(v);
                effects.push(e);
            },
            FeedItem::Channel(c) => {
                let e = self.load_channel(c.id);
                effects.push(e);
            },
            FeedItem::Playlist(p) => {
                let e = self.load_playlist(p.id);
                effects.push(e);
            },
        }
        effects
    }

    fn run_saved_search(&mut self, saved: SavedSearch) -> (effects: Vec<Effect>)
        requires
            old(self).wf(),
            old(self).loading.search_request_id < u64::MAX,
            crate::text::fits_counters(saved.query@),
        ensures
            final(self).wf(),
            run_saved_spec(*old(self), *final(self), effects@, saved),
    {
        let mut effects: Vec<Effect> = Vec::new();
        effects.push(Effect::MarkSearchRun(saved.id));
        let cursor = byte_len(saved.query.as_str());
        self.search.query = saved.query.clone();
        self.search.cursor = cursor;
        self.search.filter.sort = saved.sort;
        self.search.filter.date = saved.date;
        self.search.filter.item_type = saved.item_type;
        self.search.filter.length = saved.length;
        let v = self.view.clone();
        self.previous_views.push(v);
        self.view = View::Search;
        self.loading.search_request_id = self.loading.search_request_id + 1;
        self.loading.search_loading = true;
        self.video_list.items.clear();
        self.video_list.selected = 0;
        proof {
            crate::text::lemma_take_full_len(saved.query@);
        }
        let e = self.search_load(saved.query);
        let ghost e0 = e;
        effects.push(e);
        effects.push(Effect::ReloadSavedSearches);
        proof {
            assert(effects@ =~= seq![Effect::MarkSearchRun(saved.id), e0, Effect::ReloadSavedSearches]);
        }
        effects
    }

    fn select_home(&mut self) -> (effects: Vec<Effect>)
        requires
            old(self).wf(),
            old(self).view == View::Home,
            select_defined(*old(self)),
        ensures
            final(self).wf(),
            select_spec(*old(self), *final(self), effects@),
    {
        if self.tabs.active == Tab::SavedSearches {
            if self.saved_searches.selected < self.saved_searches.items.len() {
                let saved = self.saved_searches.items[self.saved_searches.selected].clone();
                return self.run_saved_search(saved);
            }
            return Vec::new();
        } else if self.tabs.active == Tab::Subscriptions {
            let mut effects: Vec<Effect> = Vec::new();
            let row = self.cards.selected_row;
            if row < self.subscription_channels.len() {
                let id = self.subscription_channels[row].id.clone();
                let e = self.load_channel(id);
                effects.push(e);
            }
            return effects;
        } else {
            let item = match self.selected_card_item() {
                Some(i) => i.clone(),
                None => {
                    return Vec::new();
                },
            };
            self.select_item(item)
        }
    }

    fn select_video_detail(&mut self) -> (effects: Vec<Effect>)
        requires
            old(self).view is VideoDetail,
            old(self).loading.detail_request_id < u64::MAX,
        ensures
            select_spec(*old(self), *final(self), effects@),
    {
        let mut effects: Vec<Effect> = Vec::new();
        let (action, channel_id) = match &self.detail {
            None => {
                return effects;
            },
            Some(d) => (d.selected_action, d.detail.item.channel_id.clone()),
        };
        if action == 0 || action == 1 {
            match &self.detail {
                Some(d) => {
                    let url = concat_str("https://www.youtube.com/watch?v=", d.detail.item.id.as_str());
                    let mode = if action == 0 {
                        PlayMode::Video
                    } else {
                        PlayMode::AudioOnly
                    };
                    effects.push(
                        Effect::StartPlayback(url, mode, d.detail.item.title.clone(), Some(d.detail.clone())),
                    );
                },
                None => {},
            }
        } else if action == 2 && channel_id.as_str().unicode_len() > 0 {
            let e = self.load_channel(channel_id);
            effects.push(e);
        }
        effects
    }

    fn select_playlist_detail(&mut self) -> (effects: Vec<Effect>)
        requires
            old(self).view is PlaylistDetail,
            old(self).loading.detail_request_id < u64::MAX,
        ensures
            select_spec(*old(self), *final(self), effects@),
    {
        let mut effects: Vec<Effect> = Vec::new();
        let (action, channel_id) = match &self.playlist_detail {
            None => {
                return effects;
            },
            Some(d) => (d.selected_action, d.detail.item.channel_id.clone()),
        };
        if action == 0 || action == 1 {
            match &self.playlist_detail {
                Some(d) => {
                    let url = concat_str("https://www.youtube.com/playlist?list=", d.detail.item.id.as_str());
                    let mode = if action == 0 {
                        PlayMode::Video
                    } else {
                        PlayMode::AudioOnly
                    };
                    effects.push(Effect::StartPlayback(url, mode, d.detail.item.title.clone(), None));
                },
                None => {},
            }
        } else if action == 2 && channel_id.as_str().unicode_len() > 0 {
            let e = self.load_channel(channel_id);
            effects.push(e);
        }
        effects
    }

    fn select_channel_detail(&mut self) -> (effects: Vec<Effect>)
        requires
            old(self).view is ChannelDetail,
            old(self).loading.detail_request_id < u64::MAX,
        ensures
            select_spec(*old(self), *final(self), effects@),
    {
        let mut effects: Vec<Effect> = Vec::new();
        let (action, video) = match &self.channel_detail {
            None => {
                return effects;
            },
            Some(cd) => {
                let v = if cd.selected_video < cd.detail.videos.len() {
                    Some(cd.detail.videos[cd.selected_video].clone())
                } else {
                    None
                };
                (cd.selected_action, v)
            },
        };
        if action == 0 {
            match &self.channel_detail {
                Some(cd) => {
                    let change = if cd.is_subscribed {
                        SubscriptionChange::Unsubscribe(cd.detail.item.id.clone())
                    } else {
                        SubscriptionChange::Subscribe(cd.detail.item.clone())
                    };
                    effects.push(
                        Effect::ChangeSubscription {
                            change,
                            name: cd.detail.item.name.clone(),
                            report_errors: false,
                            sync_detail: true,
                        },
                    );
                },
                None => {},
            }
        } else if action == 1 {
            match video {
                Some(v) => {
                    let e = self.load_video_detail(v);
                    effects.push(e);
                },
                None => {},
            }
        }
        effects
    }

    fn on_select(&mut self) -> (effects: Vec<Effect>)
        requires
            old(self).wf(),
            select_defined(*old(self)),
        ensures
            final(self).wf(),
            select_spec(*old(self), *final(self), effects@),
    {
        match self.view {
            View::Search => {
                let item = match self.selected_list_item() {
                    Some(i) => i.clone(),
                    None => {
                        return Vec::new();
                    },
                };
                self.select_item(item)
            },
            View::Home => self.select_home(),
            View::VideoDetail(_) => self.select_video_detail(),
            View::PlaylistDetail(_) => self.select_playlist_detail(),
            View::ChannelDetail(_) => self.select_channel_detail(),
        }
    }

    fn run_command(&mut self, cmd: String) -> (effects: Vec<Effect>)
        ensures
            command_spec(*old(self), *final(self), cmd@, effects@),
    {
        let mut effects: Vec<Effect> = Vec::new();
        if str_eq(cmd.as_str(), "q") || str_eq(cmd.as_str(), "quit") {
            self.stop_player_on_exit = false;
            self.should_quit = true;
            effects.push(Effect::RecordGeometry);
        } else if str_eq(cmd.as_str(), "stop-player") {
            self.playback_stopped();
            self.set_message(String::from_str("Stopped player"));
            effects.push(Effect::StopPlayer);
            effects.push(Effect::ClearSession);
            proof {
                assert(effects@ =~= seq![Effect::StopPlayer, Effect::ClearSession]);
            }
        } else {
            match strip_prefix_str(cmd.as_str(), "import-cookies ") {
                Some(rest) => {
                    effects.push(Effect::ImportCookies(trim_str(rest.as_str())));
                },
                None => {
                    self.set_message(concat_str("Unknown command: ", cmd.as_str()));
                },
            }
        }
        effects
    }

    fn on_filter_change(&mut self, action: Action) -> (effects: Vec<Effect>)
        requires
            old(self).wf(),
            action is FilterCycleUp || action is FilterCycleDown || action is ResetFilters,
            old(self).loading.search_request_id < u64::MAX,
        ensures
            final(self).wf(),
            exists|mid: AppState| #[trigger] dispatch_spec(*old(self), mid, action) && research_spec(mid, *final(self), effects@),
    {
        let ghost a = action;
        self.dispatch(action);
        let ghost mid = *self;
        let mut effects: Vec<Effect> = Vec::new();
        if self.search.query.as_str().unicode_len() > 0 {
            let query = self.search.query.clone();
            self.loading.search_request_id = self.loading.search_request_id + 1;
            self.loading.search_loading = true;
            self.video_list.items.clear();
            self.video_list.selected = 0;
            let e = self.search_load(query);
            effects.push(e);
        }
        proof {
            assert(research_spec(mid, *self, effects@));
        }
        effects
    }

    fn on_navigate(&mut self, dir: Direction) -> (effects: Vec<Effect>)
        requires
            old(self).wf(),
            crate::dispatch::dispatch_defined(*old(self), Action::Navigate(dir)),
        ensures
            final(self).wf(),
            handle_spec(*old(self), *final(self), Action::Navigate(dir), effects@),
    {
        self.dispatch(Action::Navigate(dir));
        let ghost mid = *self;
        let mut effects: Vec<Effect> = Vec::new();
        effects.push(Effect::FetchThumbnails);
        if dir == Direction::Down {
            let e = self.load_more();
            match e {
                Some(x) => effects.push(x),
                None => {},
            }
            proof {
                assert(effects@ =~= seq![Effect::FetchThumbnails] + opt_effects(load_more_effect(mid)));
            }
        }
        effects
    }

    fn on_quality(&mut self) -> (effects: Vec<Effect>)
        ensures
            quality_spec(*old(self), *final(self), effects@),
    {
        let mut effects: Vec<Effect> = Vec::new();
        self.playback_quality = self.playback_quality.toggle();
        match self.reload_plan() {
            Some(p) => {
                effects.push(Effect::ReloadPlayback(p));
            },
            None => {
                let ghost mid = *self;
                self.playback_reloaded(false);
                proof {
                    let l = "Playback quality: "@ + crate::player::quality_label_spec(mid.playback_quality);
                    assert(l + Seq::<char>::empty() =~= l);
                }
            },
        }
        effects
    }

    fn on_subscribe_selected(&mut self) -> (effects: Vec<Effect>)
        requires
            old(self).view == View::Home ==> crate::selection::card_index_spec(*old(self)) <= usize::MAX,
        ensures
            handle_spec(*old(self), *final(self), Action::SubscribeSelected, effects@),
    {
        let channel: Option<ChannelItem> = match self.view {
            View::Search => match self.selected_list_item() {
                Some(FeedItem::Channel(c)) => Some(c.clone()),
                _ => None,
            },
            View::Home => match self.selected_card_item() {
                Some(FeedItem::Channel(c)) => Some(c.clone()),
                _ => None,
            },
            _ => None,
        };
        let mut effects: Vec<Effect> = Vec::new();
        match channel {
            Some(c) => {
                let name = c.name.clone();
                effects.push(
                    Effect::ChangeSubscription {
                        change: SubscriptionChange::Toggle(c),
                        name,
                        report_errors: false,
                        sync_detail: false,
                    },
                );
            },
            None => {
                self.set_message(String::from_str("Select a channel to subscribe"));
            },
        }
        effects
    }

    fn on_popup_submit(&mut self) -> (effects: Vec<Effect>)
        ensures
            popup_submit_spec(*old(self), *final(self), effects@),
    {
        let mut effects: Vec<Effect> = Vec::new();
        let popup = self.popup.take();
        match popup {
            Some(PopupState::SaveSearch { input, cursor: _ }) => {
                if input.as_str().unicode_len() > 0 {
                    effects.push(
                        Effect::SaveSearch {
                            name: input,
                            query: self.search.query.clone(),
                            sort: self.search.filter.sort,
                            date: self.search.filter.date,
                            item_type: self.search.filter.item_type,
                            length: self.search.filter.length,
                        },
                    );
                }
            },
            Some(PopupState::ConfirmDelete { id, name }) => {
                effects.push(Effect::DeleteSavedSearch(id, name));
            },
            Some(PopupState::Rename { id, input, cursor: _ }) => {
                if input.as_str().unicode_len() > 0 {
                    effects.push(Effect::RenameSavedSearch(id, input));
                }
            },
            None => {},
        }
        effects
    }

    fn unsubscribe_label(&self, id: &String) -> (name: String)
        ensures
            name@ == unsubscribe_name(*self, id@),
    {
        match &self.channel_detail {
            Some(cd) => if cd.detail.item.id == *id {
                cd.detail.item.name.clone()
            } else {
                id.clone()
            },
            None => id.clone(),
        }
    }
}

impl AppState {
    /// Handles one action: updates the state and returns, in order, the
    /// work the caller is to carry out (loads, player control, storage).
    /// See `handle_spec` for each action.
    #[verifier::spinoff_prover]
    #[verifier::rlimit(40)]
    pub fn handle_action(&mut self, action: Action) -> (effects: Vec<Effect>)
        requires
            old(self).wf(),
            handle_defined(*old(self), action),
        ensures
            final(self).wf(),
            handle_spec(*old(self), *final(self), action, effects@),
    {
        let ghost pre = *self;
        let mut effects: Vec<Effect> = Vec::new();
        match action {
            Action::SubmitSearch(q) => {
                let query = q.clone();
                self.dispatch(Action::SubmitSearch(q));
                let e = self.search_load(query);
                effects.push(e);
            },
            Action::FilterCycleUp => {
                effects = self.on_filter_change(Action::FilterCycleUp);
            },
            Action::FilterCycleDown => {
                effects = self.on_filter_change(Action::FilterCycleDown);
            },
            Action::ResetFilters => {
                effects = self.on_filter_change(Action::ResetFilters);
            },
            Action::SubmitCommand(cmd) => {
                let trimmed = trim_str(cmd.as_str());
                let ghost a = Action::SubmitCommand(cmd);
                self.dispatch(Action::SubmitCommand(cmd));
                let ghost mid = *self;
                effects = self.run_command(trimmed);
                proof {
                    assert(dispatch_spec(pre, mid, a));
                }
            },
            Action::Select => {
                effects = self.on_select();
            },
            Action::SwitchTab(tab) => {
                self.dispatch(Action::SwitchTab(tab));
                let ghost mid = *self;
                if tab == Tab::SavedSearches {
                    effects.push(Effect::ReloadSavedSearches);
                } else {
                    match self.begin_feed_load() {
                        Some(e) => effects.push(e),
                        None => {},
                    }
                    proof {
                        assert(effects@ =~= opt_effects(feed_load_effect(mid)));
                    }
                }
                proof {
                    assert(dispatch_spec(pre, mid, Action::SwitchTab(tab)));
                }
            },
            Action::Quit => {
                self.dispatch(Action::Quit);
                self.stop_player_on_exit = false;
                effects.push(Effect::RecordGeometry);
            },
            Action::TogglePause => {
                effects.push(Effect::TogglePause);
            },
            Action::Seek(n) => {
                effects.push(Effect::Seek(n));
            },
            Action::VolumeUp => {
                effects.push(Effect::ChangeVolume(true));
            },
            Action::VolumeDown => {
                effects.push(Effect::ChangeVolume(false));
            },
            Action::TogglePlaybackQuality => {
                effects = self.on_quality();
            },
            Action::StopPlayer => {
                self.playback_stopped();
                self.set_message(String::from_str("Stopped player"));
                effects.push(Effect::StopPlayer);
                effects.push(Effect::ClearSession);
                proof {
                    assert(effects@ =~= seq![Effect::StopPlayer, Effect::ClearSession]);
                }
            },
            Action::StopPlayerAndQuit => {
                self.playback_stopped();
                self.stop_player_on_exit = false;
                self.should_quit = true;
                effects.push(Effect::StopPlayer);
                effects.push(Effect::ClearSession);
                proof {
                    assert(effects@ =~= seq![Effect::StopPlayer, Effect::ClearSession]);
                }
            },
            Action::PlayVideo(id) => {
                let url = concat_str("https://www.youtube.com/watch?v=", id.as_str());
                effects.push(Effect::StartPlayback(url, PlayMode::Video, String::from_str("video"), None));
            },
            Action::PlayAudio(id) => {
                let url = concat_str("https://www.youtube.com/watch?v=", id.as_str());
                effects.push(
                    Effect::StartPlayback(url, PlayMode::AudioOnly, String::from_str("audio stream"), None),
                );
            },
            Action::Navigate(dir) => {
                effects = self.on_navigate(dir);
            },
            Action::FeedLoaded(r, p) => {
                self.dispatch(Action::FeedLoaded(r, p));
                effects.push(Effect::FetchThumbnails);
            },
            Action::SearchResults(r, p) => {
                self.dispatch(Action::SearchResults(r, p));
                effects.push(Effect::FetchThumbnails);
            },
            Action::AppendFeed(r, p) => {
                self.dispatch(Action::AppendFeed(r, p));
                effects.push(Effect::FetchThumbnails);
            },
            Action::AppendSearch(r, p) => {
                self.dispatch(Action::AppendSearch(r, p));
                effects.push(Effect::FetchThumbnails);
            },
            Action::DetailLoaded(r, d) => {
                let c = d.clone();
                let ghost a = Action::DetailLoaded(r, d);
                self.dispatch(Action::DetailLoaded(r, d));
                let ghost mid = *self;
                self.apply_pending_restore();
                effects.push(Effect::CacheDetail(c));
                proof {
                    assert(dispatch_spec(pre, mid, a) && pending_restore_step(mid, *self));
                }
            },
            Action::ChannelDetailLoaded(r, d) => {
                effects.push(Effect::ResolveChannelDetail(r, d));
            },
            Action::PlaylistDetailLoaded(r, d) => {
                let ghost a = Action::PlaylistDetailLoaded(r, d);
                self.dispatch(Action::PlaylistDetailLoaded(r, d));
                let ghost mid = *self;
                self.apply_pending_restore();
                proof {
                    assert(dispatch_spec(pre, mid, a) && pending_restore_step(mid, *self));
                }
            },
            Action::ThumbnailReady(k, p) => {
                effects.push(Effect::DecodeThumbnail(k, p));
            },
            Action::Subscribe(c) => {
                let name = c.name.clone();
                effects.push(
                    Effect::ChangeSubscription {
                        change: SubscriptionChange::Subscribe(c),
                        name,
                        report_errors: true,
                        sync_detail: true,
                    },
                );
            },
            Action::Unsubscribe(id) => {
                let name = self.unsubscribe_label(&id);
                effects.push(
                    Effect::ChangeSubscription {
                        change: SubscriptionChange::Unsubscribe(id),
                        name,
                        report_errors: true,
                        sync_detail: true,
                    },
                );
            },
            Action::RefreshSubscriberCount(id, n) => {
                let id2 = id.clone();
                self.dispatch(Action::RefreshSubscriberCount(id, n));
                effects.push(Effect::UpdateSubscriberCount(id2, n));
            },
            Action::SubscribeSelected => {
                effects = self.on_subscribe_selected();
            },
            Action::PopupSubmit => {
                effects = self.on_popup_submit();
            },
            Action::PlayerStateUpdate(ps) => {
                let ghost a = Action::PlayerStateUpdate(ps);
                self.dispatch(Action::PlayerStateUpdate(ps));
                let ghost mid = *self;
                self.apply_pending_restore();
                proof {
                    assert(dispatch_spec(pre, mid, a) && pending_restore_step(mid, *self));
                }
            },
            Action::PlaybackLoadSlow(r) => {
                let ghost a = Action::PlaybackLoadSlow(r);
                self.dispatch(Action::PlaybackLoadSlow(r));
                let ghost mid = *self;
                self.apply_pending_restore();
                proof {
                    assert(dispatch_spec(pre, mid, a) && pending_restore_step(mid, *self));
                }
            },
            other => {
                self.dispatch(other);
            },
        }
        effects
    }
}

} // verus!
