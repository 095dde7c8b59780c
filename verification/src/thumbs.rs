use vstd::prelude::*;
use vstd::view::View as _;
use crate::app::{AppState, Tab, View};
use crate::effects::ThumbnailRequest;
use crate::models::{
    feed_item_id, feed_item_thumbnail_url, feed_item_type, FeedItem, ItemType, ThumbnailKey,
};
use crate::imagery::ThumbnailCache;
use crate::replies::{contains_key, is_loading};

verus! {

/// A thumbnail request seen as (kind, id, url).
pub open spec fn request_view(r: ThumbnailRequest) -> (ItemType, Seq<char>, Seq<char>) {
    (r.key.item_type, r.key.item_id@, r.url@)
}

/// Key of an item's thumbnail.
pub open spec fn item_key(item: FeedItem) -> ThumbnailKey {
    ThumbnailKey { item_type: feed_item_type(item), item_id: feed_item_id(item) }
}

/// Pictures held in a cache, by (kind, id).
pub type CachedPictures = Map<(ItemType, Seq<char>), (u32, u32, Seq<u8>)>;

/// An item's thumbnail is fetched when it is neither loading already nor
/// cached, and the item has a thumbnail URL.
pub open spec fn wants_thumbnail(item: FeedItem, loading: Seq<ThumbnailKey>, cached: CachedPictures) -> bool {
    &&& !is_loading(loading, item_key(item))
    &&& !cached.dom().contains((feed_item_type(item), feed_item_id(item)@))
    &&& feed_item_thumbnail_url(item)@.len() > 0
}

/// Thumbnails to fetch for `items[lo..hi]`, in order, as (kind, id, url).
pub open spec fn wanted_in(
    items: Seq<FeedItem>,
    loading: Seq<ThumbnailKey>,
    cached: CachedPictures,
    lo: int,
    hi: int,
) -> Seq<(ItemType, Seq<char>, Seq<char>)>
    decreases hi - lo,
{
    if hi <= lo {
        Seq::empty()
    } else {
        let rest = wanted_in(items, loading, cached, lo, hi - 1);
        let item = items[hi - 1];
        if wants_thumbnail(item, loading, cached) {
            rest.push((feed_item_type(item), feed_item_id(item)@, feed_item_thumbnail_url(item)@))
        } else {
            rest
        }
    }
}

pub open spec fn min_int(a: int, b: int) -> int {
    if a <= b {
        a
    } else {
        b
    }
}

/// Which thumbnails to fetch around the selection, leaving out those
/// `cache` holds already: on the
/// subscriptions tab the selected channel's avatar;
/// in the card grid the rows from one above the selection to two below it;
/// in the result list five items before the selection to fourteen after it.
pub open spec fn thumbnail_plan(s: AppState, cache: ThumbnailCache) -> Seq<(ItemType, Seq<char>, Seq<char>)> {
    let loading = s.loading.thumbnail_loading@;
    if s.view == View::Home && s.tabs.active == Tab::Subscriptions {
        let row = s.cards.selected_row as int;
        if row < s.subscription_channels@.len() {
            let c = s.subscription_channels@[row];
            let key = ThumbnailKey { item_type: ItemType::Channel, item_id: c.id };
            if !is_loading(loading, key) && !cache.avatars().dom().contains(
                (ItemType::Channel, c.id@),
            ) && c.thumbnail_url@.len() > 0 {
                seq![(ItemType::Channel, c.id@, c.thumbnail_url@)]
            } else {
                Seq::empty()
            }
        } else {
            Seq::empty()
        }
    } else if s.view == View::Home {
        let cols: int = if s.cards.columns >= 1 {
            s.cards.columns as int
        } else {
            1
        };
        let row = s.cards.selected_row as int;
        let start_row = if row >= 1 {
            row - 1
        } else {
            0
        };
        let start = start_row * cols;
        let end = min_int((row + 3) * cols, s.cards.items@.len() as int);
        wanted_in(s.cards.items@, loading, cache.thumbnails(), start, end)
    } else if s.view == View::Search {
        let sel = s.video_list.selected as int;
        let start = if sel >= 5 {
            sel - 5
        } else {
            0
        };
        let end = min_int(sel + 15, s.video_list.items@.len() as int);
        wanted_in(s.video_list.items@, loading, cache.thumbnails(), start, end)
    } else {
        Seq::empty()
    }
}

/// The window of rows (or items) around the selection fits in `usize`.
pub open spec fn thumbnail_plan_defined(s: AppState) -> bool {
    let cols: int = if s.cards.columns >= 1 {
        s.cards.columns as int
    } else {
        1
    };
    &&& (s.cards.selected_row + 3) * cols <= usize::MAX
    &&& s.video_list.selected + 15 <= usize::MAX
}

fn wanted_range(
    items: &Vec<FeedItem>,
    loading: &Vec<ThumbnailKey>,
    cache: &ThumbnailCache,
    lo: usize,
    hi: usize,
) -> (r: Vec<ThumbnailRequest>)
    requires
        hi <= items@.len(),
    ensures
        r@.map_values(|q: ThumbnailRequest| request_view(q)) == wanted_in(
            items@,
            loading@,
            cache.thumbnails(),
            lo as int,
            hi as int,
        ),
{
    let mut out: Vec<ThumbnailRequest> = Vec::new();
    if hi <= lo {
        proof {
            assert(out@.map_values(|q: ThumbnailRequest| request_view(q)) =~= Seq::empty());
        }
        return out;
    }
    let mut i = lo;
    proof {
        assert(out@.map_values(|q: ThumbnailRequest| request_view(q)) =~= wanted_in(items@, loading@, cache.thumbnails(), lo as int, lo as int));
    }
    while i < hi
        invariant
            lo <= i <= hi <= items@.len(),
            out@.map_values(|q: ThumbnailRequest| request_view(q)) == wanted_in(items@, loading@, cache.thumbnails(), lo as int, i as int),
        decreases hi - i,
    {
        let item = &items[i];
        let key = item.thumbnail_key();
        let url = item.thumbnail_url();
        let busy = contains_key(loading, &key);
        let cached = cache.get(&key).is_some();
        let ghost before = out@;
        proof {
            assert(key == item_key(items@[i as int]));
        }
        if !busy && !cached && url.unicode_len() > 0 {
            out.push(ThumbnailRequest { key, url: String::from_str(url) });
            proof {
                assert(out@.map_values(|q: ThumbnailRequest| request_view(q)) =~= before.map_values(
                    |q: ThumbnailRequest| request_view(q),
                ).push(request_view(out@[out@.len() - 1])));
            }
        }
        i += 1;
    }
    out
}

impl AppState {
    /// The thumbnails to fetch around the selection that `cache` does not
    /// hold yet (see `thumbnail_plan`).
    pub fn thumbnail_requests(&self, cache: &ThumbnailCache) -> (r: Vec<ThumbnailRequest>)
        requires
            thumbnail_plan_defined(*self),
        ensures
            r@.map_values(|q: ThumbnailRequest| request_view(q)) == thumbnail_plan(*self, *cache),
    {
        let loading = &self.loading.thumbnail_loading;
        match self.view {
            View::Home => {
                if self.tabs.active == Tab::Subscriptions {
                    let mut out: Vec<ThumbnailRequest> = Vec::new();
                    let row = self.cards.selected_row;
                    if row < self.subscription_channels.len() {
                        let c = &self.subscription_channels[row];
                        let key = ThumbnailKey { item_type: ItemType::Channel, item_id: c.id.clone() };
                        if !contains_key(loading, &key) && cache.get_avatar(&key).is_none()
                            && c.thumbnail_url.as_str().unicode_len() > 0 {
                            out.push(ThumbnailRequest { key, url: c.thumbnail_url.clone() });
                            proof {
                                assert(out@.map_values(|q: ThumbnailRequest| request_view(q)) =~= thumbnail_plan(*self, *cache));
                            }
                            return out;
                        }
                    }
                    proof {
                        assert(out@.map_values(|q: ThumbnailRequest| request_view(q)) =~= thumbnail_plan(*self, *cache));
                    }
                    return out;
                }
                let cols = if self.cards.columns >= 1 {
                    self.cards.columns
                } else {
                    1
                };
                let row = self.cards.selected_row;
                let start_row = if row >= 1 {
                    row - 1
                } else {
                    0
                };
                proof {
                    assert(start_row * cols <= (row + 3) * cols && row + 3 <= (row + 3) * cols)
                        by (nonlinear_arith)
                        requires
                            start_row <= row + 3,
                            cols >= 1,
                    ;
                }
                let start = start_row * cols;
                let full = (row + 3) * cols;
                let end = if full <= self.cards.items.len() {
                    full
                } else {
                    self.cards.items.len()
                };
                wanted_range(&self.cards.items, loading, cache, start, end)
            },
            View::Search => {
                let sel = self.video_list.selected;
                let start = if sel >= 5 {
                    sel - 5
                } else {
                    0
                };
                let end = if sel + 15 <= self.video_list.items.len() {
                    sel + 15
                } else {
                    self.video_list.items.len()
                };
                wanted_range(&self.video_list.items, loading, cache, start, end)
            },
            _ => {
                let out: Vec<ThumbnailRequest> = Vec::new();
                proof {
                    assert(out@.map_values(|q: ThumbnailRequest| request_view(q)) =~= Seq::empty());
                }
                out
            },
        }
    }
}

} // verus!
