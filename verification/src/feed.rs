use vstd::prelude::*;
use crate::app::LoadedPage;
use crate::models::{FeedItem, FeedPage, VideoItem};

verus! {

/// Publication time `a` is at least as recent as `b`; an unknown time is
/// older than every known one.
pub open spec fn newer_or_same(a: Option<i64>, b: Option<i64>) -> bool {
    match (a, b) {
        (_, None) => true,
        (None, Some(_)) => false,
        (Some(x), Some(y)) => x >= y,
    }
}

/// Number of leading videos of `s` published no earlier than `t`: where a
/// video published at `t` goes so that it follows them.
pub open spec fn insert_pos(s: Seq<VideoItem>, t: Option<i64>) -> nat
    decreases s.len(),
{
    if s.len() == 0 {
        0
    } else if !newer_or_same(s[0].published, t) {
        0
    } else {
        1 + insert_pos(s.drop_first(), t)
    }
}

/// `s` with `v` placed after every video at least as recent as it.
pub open spec fn insert_newest_first(s: Seq<VideoItem>, v: VideoItem) -> Seq<VideoItem> {
    s.insert(insert_pos(s, v.published) as int, v)
}

/// `s` ordered newest first; videos published at the same time (or both
/// at an unknown time) keep their order.
pub open spec fn newest_first(s: Seq<VideoItem>) -> Seq<VideoItem>
    decreases s.len(),
{
    if s.len() == 0 {
        s
    } else {
        insert_newest_first(newest_first(s.drop_last()), s.last())
    }
}

/// Videos shown as feed items.
pub open spec fn as_video_items(s: Seq<VideoItem>) -> Seq<FeedItem> {
    s.map_values(|v: VideoItem| FeedItem::Video(v))
}

/// Every video is at least as recent as every later one.
pub open spec fn is_newest_first(s: Seq<VideoItem>) -> bool {
    forall|i: int, j: int|
        0 <= i < j < s.len() ==> newer_or_same(#[trigger] s[i].published, #[trigger] s[j].published)
}

proof fn lemma_insert_pos_bound(s: Seq<VideoItem>, t: Option<i64>)
    ensures
        insert_pos(s, t) <= s.len(),
        forall|j: int| 0 <= j < insert_pos(s, t) ==> newer_or_same(#[trigger] s[j].published, t),
        insert_pos(s, t) < s.len() ==> !newer_or_same(s[insert_pos(s, t) as int].published, t),
    decreases s.len(),
{
    if s.len() > 0 && newer_or_same(s[0].published, t) {
        lemma_insert_pos_bound(s.drop_first(), t);
        assert forall|j: int| 0 <= j < insert_pos(s, t) implies newer_or_same(#[trigger] s[j].published, t) by {
            if j > 0 {
                assert(s[j] == s.drop_first()[j - 1]);
            }
        }
    }
}

proof fn lemma_insert_pos_exact(s: Seq<VideoItem>, t: Option<i64>, p: int)
    requires
        0 <= p <= s.len(),
        forall|j: int| 0 <= j < p ==> newer_or_same(#[trigger] s[j].published, t),
        p < s.len() ==> !newer_or_same(s[p].published, t),
    ensures
        insert_pos(s, t) == p,
    decreases s.len(),
{
    if s.len() > 0 && p > 0 {
        assert(newer_or_same(s[0].published, t));
        assert forall|j: int| 0 <= j < p - 1 implies newer_or_same(#[trigger] s.drop_first()[j].published, t) by {
            assert(s.drop_first()[j] == s[j + 1]);
        }
        if p - 1 < s.drop_first().len() {
            assert(s.drop_first()[p - 1] == s[p]);
        }
        lemma_insert_pos_exact(s.drop_first(), t, p - 1);
    }
}

proof fn lemma_newer_trans(a: Option<i64>, b: Option<i64>, c: Option<i64>)
    requires
        newer_or_same(a, b),
        newer_or_same(b, c),
    ensures
        newer_or_same(a, c),
{
}

proof fn lemma_newer_total(a: Option<i64>, b: Option<i64>)
    ensures
        newer_or_same(a, b) || newer_or_same(b, a),
{
}

proof fn lemma_insert_keeps_order(s: Seq<VideoItem>, v: VideoItem)
    requires
        is_newest_first(s),
    ensures
        is_newest_first(insert_newest_first(s, v)),
{
    lemma_insert_pos_bound(s, v.published);
    let p = insert_pos(s, v.published) as int;
    let r = insert_newest_first(s, v);
    assert forall|i: int, j: int| 0 <= i < j < r.len() implies newer_or_same(#[trigger] r[i].published, #[trigger] r[j].published) by {
        if j < p {
            assert(r[i] == s[i] && r[j] == s[j]);
        } else if j == p {
            assert(r[i] == s[i]);
        } else if i < p {
            assert(r[i] == s[i] && r[j] == s[j - 1]);
            lemma_newer_total(s[p].published, v.published);
            lemma_newer_trans(s[i].published, v.published, s[p].published);
            if j - 1 > p {
                lemma_newer_trans(s[i].published, s[p].published, s[j - 1].published);
            }
        } else if i == p {
            assert(r[j] == s[j - 1]);
            lemma_newer_total(s[p].published, v.published);
            if j - 1 > p {
                lemma_newer_trans(v.published, s[p].published, s[j - 1].published);
            }
        } else {
            assert(r[i] == s[i - 1] && r[j] == s[j - 1]);
        }
    }
}

/// The newest-first order is ordered by publication time, newest first.
pub proof fn lemma_newest_first_sorted(s: Seq<VideoItem>)
    ensures
        is_newest_first(newest_first(s)),
    decreases s.len(),
{
    if s.len() > 0 {
        lemma_newest_first_sorted(s.drop_last());
        lemma_insert_keeps_order(newest_first(s.drop_last()), s.last());
    }
}

/// The newest-first order holds every video of the input, each as often.
pub proof fn lemma_newest_first_permutes(s: Seq<VideoItem>)
    ensures
        newest_first(s).to_multiset() == s.to_multiset(),
    decreases s.len(),
{
    broadcast use vstd::seq_lib::group_to_multiset_ensures;

    if s.len() == 0 {
    } else {
        let rest = newest_first(s.drop_last());
        lemma_newest_first_permutes(s.drop_last());
        lemma_insert_pos_bound(rest, s.last().published);
        assert(s =~= s.drop_last().push(s.last()));
    }
}

fn newer_or_same_exec(a: Option<i64>, b: Option<i64>) -> (r: bool)
    ensures
        r == newer_or_same(a, b),
{
    match (a, b) {
        (_, None) => true,
        (None, Some(_)) => false,
        (Some(x), Some(y)) => x >= y,
    }
}

fn insert_newest(out: &mut Vec<VideoItem>, v: VideoItem)
    ensures
        final(out)@ == insert_newest_first(old(out)@, v),
{
    let mut p: usize = 0;
    let n = out.len();
    proof {
        lemma_insert_pos_bound(out@, v.published);
    }
    while p < n && newer_or_same_exec(out[p].published, v.published)
        invariant
            p <= n == out@.len(),
            forall|j: int| 0 <= j < p ==> newer_or_same(#[trigger] out@[j].published, v.published),
        decreases n - p,
    {
        p += 1;
    }
    proof {
        lemma_insert_pos_exact(out@, v.published, p as int);
    }
    out.insert(p, v);
}

/// Every video of the batches, newest first (see `newest_first`).
pub fn sort_newest_first(batches: &Vec<Vec<VideoItem>>) -> (r: Vec<VideoItem>)
    ensures
        r@ == newest_first(batches@.map_values(|b: Vec<VideoItem>| b@).flatten()),
{
    let ghost bs = batches@.map_values(|b: Vec<VideoItem>| b@);
    let mut out: Vec<VideoItem> = Vec::new();
    let ghost mut seen: Seq<VideoItem> = Seq::empty();
    let nb = batches.len();
    let mut i: usize = 0;
    proof {
        assert(bs.take(0).flatten() =~= Seq::<VideoItem>::empty());
    }
    while i < nb
        invariant
            nb == batches@.len() == bs.len(),
            bs == batches@.map_values(|b: Vec<VideoItem>| b@),
            i <= nb,
            seen == bs.take(i as int).flatten(),
            out@ == newest_first(seen),
        decreases nb - i,
    {
        let batch = &batches[i];
        let m = batch.len();
        let mut j: usize = 0;
        let ghost start = seen;
        proof {
            assert(batch@ == bs[i as int]);
            assert(start + bs[i as int].take(0) =~= start);
        }
        while j < m
            invariant
                j <= m == batch@.len(),
                batch@ == bs[i as int],
                seen == start + bs[i as int].take(j as int),
                out@ == newest_first(seen),
            decreases m - j,
        {
            let v = batch[j].clone();
            proof {
                let ns = start + bs[i as int].take(j + 1);
                assert(ns =~= seen.push(v));
                assert(ns.drop_last() =~= seen);
                assert(ns.last() == v);
            }
            insert_newest(&mut out, v);
            proof {
                seen = start + bs[i as int].take(j + 1);
            }
            j += 1;
        }
        proof {
            assert(bs[i as int].take(m as int) =~= bs[i as int]);
            assert(bs.take(i + 1) =~= bs.take(i as int).push(bs[i as int]));
            bs.take(i as int).lemma_flatten_push(bs[i as int]);
        }
        i += 1;
    }
    proof {
        assert(bs.take(nb as int) =~= bs);
    }
    out
}

/// The page the For You tab shows: the latest videos of the subscribed
/// channels (one batch per channel), newest first.
pub fn for_you_page(batches: &Vec<Vec<VideoItem>>) -> (page: LoadedPage)
    ensures
        match page {
            LoadedPage::Home(p) => p.items@ == as_video_items(
                newest_first(batches@.map_values(|b: Vec<VideoItem>| b@).flatten()),
            ) && p.continuation is None,
            _ => false,
        },
{
    let sorted = sort_newest_first(batches);
    let mut items: Vec<FeedItem> = Vec::new();
    let n = sorted.len();
    let mut k: usize = 0;
    while k < n
        invariant
            k <= n == sorted@.len(),
            items@ == as_video_items(sorted@.take(k as int)),
        decreases n - k,
    {
        let v = sorted[k].clone();
        items.push(FeedItem::Video(v));
        proof {
            assert(as_video_items(sorted@.take(k + 1)) =~= as_video_items(sorted@.take(k as int)).push(
                FeedItem::Video(v),
            ));
        }
        k += 1;
    }
    proof {
        assert(sorted@.take(n as int) =~= sorted@);
    }
    LoadedPage::Home(FeedPage { items, continuation: None })
}

} // verus!
