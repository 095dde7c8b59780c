use vstd::prelude::*;
use crate::app::{Action, AppState};
use crate::dispatch::{dispatch_spec, remove_key_spec, thumb_key_matches};
use crate::effects::Effect;
use crate::player::PlayMode;
use crate::handler_spec::{handle_defined, handle_spec};
use crate::models::{FeedItem, FeedPage, ThumbnailKey};
use crate::replies::is_loading;

verus! {

/// A search started after another one makes the earlier search's results
/// stale: when they arrive they change nothing.
pub proof fn lemma_later_search_supersedes(
    s0: AppState,
    s1: AppState,
    s2: AppState,
    q1: String,
    q2: String,
    e1: Seq<Effect>,
    e2: Seq<Effect>,
    page: FeedPage<FeedItem>,
    s3: AppState,
)
    requires
        handle_spec(s0, s1, Action::SubmitSearch(q1), e1),
        handle_spec(s1, s2, Action::SubmitSearch(q2), e2),
        handle_defined(s1, Action::SubmitSearch(q2)),
        dispatch_spec(s2, s3, Action::SearchResults(s1.loading.search_request_id, page)),
    ensures
        e1[0] == Effect::LoadSearch(
            s1.loading.search_request_id,
            q1,
            crate::effects::search_options_spec(s1.search.filter),
        ),
        s3 == s2,
{
}

/// Once a thumbnail has arrived or failed, it is no longer among those
/// being downloaded.
pub proof fn lemma_finished_thumbnail_not_loading(keys: Seq<ThumbnailKey>, key: ThumbnailKey)
    ensures
        !is_loading(remove_key_spec(keys, key), key),
        forall|k: ThumbnailKey| is_loading(remove_key_spec(keys, key), k) ==> is_loading(keys, k),
    decreases keys.len(),
{
    if keys.len() > 0 {
        let rest = keys.drop_last();
        lemma_finished_thumbnail_not_loading(rest, key);
        let r = remove_key_spec(keys, key);
        let rr = remove_key_spec(rest, key);
        if !thumb_key_matches(keys.last(), key) {
            assert(r == rr.push(keys.last()));
            assert forall|i: int| 0 <= i < r.len() implies !#[trigger] thumb_key_matches(r[i], key) by {
                if i < rr.len() {
                    assert(r[i] == rr[i]);
                    if thumb_key_matches(rr[i], key) {
                        assert(is_loading(rr, key));
                    }
                }
            }
            assert forall|k: ThumbnailKey| is_loading(r, k) implies is_loading(keys, k) by {
                let i = choose|i: int| 0 <= i < r.len() && #[trigger] thumb_key_matches(r[i], k);
                if i < rr.len() {
                    assert(r[i] == rr[i]);
                    assert(is_loading(rr, k));
                    assert(is_loading(rest, k));
                    let j = choose|j: int| 0 <= j < rest.len() && #[trigger] thumb_key_matches(rest[j], k);
                    assert(keys[j] == rest[j]);
                    assert(thumb_key_matches(keys[j], k));
                } else {
                    assert(keys[keys.len() - 1] == keys.last());
                }
            }
        } else {
            assert(r == rr);
            assert forall|k: ThumbnailKey| is_loading(r, k) implies is_loading(keys, k) by {
                assert(is_loading(rr, k));
                assert(is_loading(rest, k));
                let j = choose|j: int| 0 <= j < rest.len() && #[trigger] thumb_key_matches(rest[j], k);
                assert(keys[j] == rest[j]);
                assert(thumb_key_matches(keys[j], k));
            }
        }
    }
}

/// On a video page and on a playlist page, Select on the first action
/// plays with video and on the second plays the sound only; the video page
/// plays the video's watch address, the playlist page the playlist's
/// address, each under its title, and the state stays as it was.
pub proof fn lemma_play_actions_modes(pre: AppState, post: AppState, effects: Seq<Effect>)
    requires
        handle_spec(pre, post, Action::Select, effects),
    ensures
        pre.view is VideoDetail && pre.detail is Some && pre.detail->0.selected_action < 2 ==> {
            let d = pre.detail->0;
            &&& post == pre
            &&& effects.len() == 1
            &&& effects[0] matches Effect::StartPlayback(url, mode, label, _)
            &&& url@ == "https://www.youtube.com/watch?v="@ + d.detail.item.id@
            &&& label@ == d.detail.item.title@
            &&& (mode == PlayMode::Video <==> d.selected_action == 0)
            &&& (mode == PlayMode::AudioOnly <==> d.selected_action == 1)
        },
        pre.view is PlaylistDetail && pre.playlist_detail is Some
            && pre.playlist_detail->0.selected_action < 2 ==> {
            let d = pre.playlist_detail->0;
            &&& post == pre
            &&& effects.len() == 1
            &&& effects[0] matches Effect::StartPlayback(url, mode, label, history)
            &&& url@ == "https://www.youtube.com/playlist?list="@ + d.detail.item.id@
            &&& label@ == d.detail.item.title@
            &&& history is None
            &&& (mode == PlayMode::Video <==> d.selected_action == 0)
            &&& (mode == PlayMode::AudioOnly <==> d.selected_action == 1)
        },
{
}

} // verus!
