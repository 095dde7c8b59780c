use vstd::prelude::*;
use vstd::view::View as _;
use crate::app::{has_filters_spec, Action, AppState, Direction, Tab, View};
use crate::session::{apply_restore_spec, restore_applies, PendingSessionRestore};
use crate::dispatch::dispatch_spec;
use crate::models::{FeedItem, FeedPage};
use crate::navigation::{cards_nav_spec, grid_cols, list_nav_spec};
use crate::text::{boundary_index, is_boundary_at, lemma_boundary_unique, lemma_utf8_len_push, utf8_width};

verus! {

/// Focusing the search bar and then going back returns to the view one
/// started from, with the history of views as it was.
pub proof fn lemma_focus_search_then_back(s0: AppState, s1: AppState, s2: AppState)
    requires
        dispatch_spec(s0, s1, Action::FocusSearch),
        dispatch_spec(s1, s2, Action::Back),
    ensures
        s2.view == s0.view,
        s2.previous_views@ == s0.previous_views@,
        s2.search.focused,
{
    assert(s1.previous_views@.drop_last() =~= s0.previous_views@);
}

/// Typing a character into the search bar puts it at the cursor (the
/// cursor is a byte offset; `k` is the number of characters before it) and
/// moves the cursor past the character's UTF-8 bytes, onto a character
/// boundary; deleting it again restores both the query and the cursor.
pub proof fn lemma_search_input_then_backspace(s0: AppState, s1: AppState, s2: AppState, c: char)
    requires
        s0.wf(),
        dispatch_spec(s0, s1, Action::SearchInput(c)),
        dispatch_spec(s1, s2, Action::SearchBackspace),
    ensures
        ({
            let q = s0.search.query@;
            let k = boundary_index(q, s0.search.cursor as int);
            &&& is_boundary_at(q, k, s0.search.cursor as int)
            &&& s1.search.query@ == q.take(k) + seq![c] + q.skip(k)
            &&& s1.search.cursor == s0.search.cursor + utf8_width(c)
            &&& is_boundary_at(s1.search.query@, k + 1, s1.search.cursor as int)
        }),
        s2.search.query@ == s0.search.query@,
        s2.search.cursor == s0.search.cursor,
{
    let q = s0.search.query@;
    let b = s0.search.cursor as int;
    let k = choose|k: int| is_boundary_at(q, k, b);
    lemma_boundary_unique(q, k, crate::text::boundary_index(q, b), b);
    let q1 = q.take(k) + seq![c] + q.skip(k);
    assert(q1 == s1.search.query@);
    assert(q1.take(k + 1) =~= q.take(k).push(c));
    lemma_utf8_len_push(q.take(k), c);
    assert(is_boundary_at(q1, k + 1, b + utf8_width(c)));
    let k1 = crate::text::boundary_index(q1, b + utf8_width(c));
    lemma_boundary_unique(q1, k + 1, k1, b + utf8_width(c));
    assert(q1[k] == c);
    assert(q1.take(k) + q1.skip(k + 1) =~= q);
}

/// Backspace with the cursor at the start of the query changes nothing.
pub proof fn lemma_search_backspace_at_start(s0: AppState, s1: AppState)
    requires
        s0.search.cursor == 0,
        dispatch_spec(s0, s1, Action::SearchBackspace),
    ensures
        s1.search.query@ == s0.search.query@,
        s1.search.cursor == 0,
        s1 == (AppState {
            search: crate::app::SearchState { query: s1.search.query, ..s0.search },
            ..s0
        }),
{
}

/// Search results for a request other than the latest one change nothing.
pub proof fn lemma_stale_search_results_ignored(pre: AppState, post: AppState, req: u64, page: FeedPage<FeedItem>)
    requires
        req != pre.loading.search_request_id,
        dispatch_spec(pre, post, Action::SearchResults(req, page)),
    ensures
        post == pre,
{
}

/// A further page of search results is appended to the list, and the
/// selection stays where it was.
pub proof fn lemma_append_search_extends(pre: AppState, post: AppState, page: FeedPage<FeedItem>)
    requires
        dispatch_spec(pre, post, Action::AppendSearch(pre.loading.search_request_id, page)),
    ensures
        post.video_list.items@ == pre.video_list.items@ + page.items@,
        post.video_list.selected == pre.video_list.selected,
        post.video_list.continuation == page.continuation,
        !post.loading.loading_more_search,
{
}

/// Moving through a list keeps the selection inside the list.
pub proof fn lemma_list_nav_in_bounds(total: int, sel: int, dir: Direction)
    requires
        0 <= sel < total,
    ensures
        0 <= list_nav_spec(total, sel, dir) < total,
{
}

/// A card position inside a grid of `total` items in `columns` columns.
pub open spec fn card_in_grid(total: int, columns: int, row: int, col: int) -> bool {
    &&& 0 <= row
    &&& 0 <= col < grid_cols(columns)
    &&& row * grid_cols(columns) + col < total
}

/// Moving through the card grid keeps the selection on a card.
pub proof fn lemma_cards_nav_in_grid(total: int, columns: int, row: int, col: int, dir: Direction)
    requires
        card_in_grid(total, columns, row, col),
    ensures
        card_in_grid(
            total,
            columns,
            cards_nav_spec(total, columns, row, col, dir).0,
            cards_nav_spec(total, columns, row, col, dir).1,
        ),
{
    let cols = grid_cols(columns);
    let q = total / cols;
    let r = total % cols;
    assert(total == q * cols + r && 0 <= r < cols) by (nonlinear_arith)
        requires
            total > 0,
            cols >= 1,
            q == total / cols,
            r == total % cols,
    ;
    let rows = crate::navigation::grid_rows(total, cols);
    match dir {
        Direction::Up => {
            if row > 0 {
                assert((row - 1) * cols + col < total) by (nonlinear_arith)
                    requires
                        row * cols + col < total,
                        cols >= 1,
                        row >= 1,
                ;
            }
        },
        Direction::Down => {
            if row < rows - 1 {
                let nr = row + 1;
                if nr == rows - 1 {
                    // On the last row: the column is clamped to the row's length.
                    assert(nr * cols < total) by (nonlinear_arith)
                        requires
                            nr == rows - 1,
                            rows == q + if r == 0 { 0int } else { 1int },
                            total == q * cols + r,
                            0 <= r < cols,
                            cols >= 1,
                            total > 0,
                    ;
                } else {
                    assert(nr * cols + col < total) by (nonlinear_arith)
                        requires
                            nr < rows - 1,
                            rows == q + if r == 0 { 0int } else { 1int },
                            total == q * cols + r,
                            0 <= r < cols,
                            0 <= col < cols,
                            cols >= 1,
                    ;
                }
            }
        },
        _ => {},
    }
}

/// Resetting the filters turns every filter off.
pub proof fn lemma_reset_filters_clears(pre: AppState, post: AppState)
    requires
        dispatch_spec(pre, post, Action::ResetFilters),
    ensures
        !has_filters_spec(post.search.filter),
        !post.search.filter.active,
        post.search.filter.focused_index == 0,
{
}

/// In a grid of `total` cards laid out `cols` to a row, a card at
/// `row * cols + col` with a further card `cols` places on lies on a row
/// before the grid's last one.
proof fn lemma_card_below_in_grid(total: int, cols: int, row: int, col: int)
    requires
        cols >= 1,
        0 <= row,
        0 <= col < cols,
        (row + 1) * cols + col < total,
    ensures
        row + 1 < crate::navigation::grid_rows(total, cols),
        row + 1 == crate::navigation::grid_rows(total, cols) - 1 ==> col < total - (row + 1) * cols,
{
    let q = total / cols;
    let r = total % cols;
    assert(total == q * cols + r && 0 <= r < cols) by (nonlinear_arith)
        requires
            total > 0,
            cols >= 1,
            q == total / cols,
            r == total % cols,
    ;
    assert(row + 1 < q + if r == 0 { 0int } else { 1int }) by (nonlinear_arith)
        requires
            (row + 1) * cols + col < total,
            total == q * cols + r,
            0 <= r < cols,
            0 <= col,
            cols >= 1,
            row >= 0,
    ;
}

/// Moving down in the card grid goes to the card straight below whenever
/// there is one: the column is kept. Moving up from any row but the first
/// keeps the column too.
pub proof fn lemma_cards_vertical_keeps_column(pre: AppState, post: AppState, dir: Direction)
    requires
        pre.view == View::Home,
        pre.tabs.active != Tab::SavedSearches,
        pre.tabs.active != Tab::Subscriptions,
        dispatch_spec(pre, post, Action::Navigate(dir)),
        pre.cards.selected_col < (if pre.cards.columns >= 1 {
            pre.cards.columns as int
        } else {
            1
        }),
        pre.cards.selected_row * (if pre.cards.columns >= 1 {
            pre.cards.columns as int
        } else {
            1
        }) + pre.cards.selected_col < pre.cards.items@.len(),
    ensures
        ({
            let cols: int = if pre.cards.columns >= 1 {
                pre.cards.columns as int
            } else {
                1
            };
            dir == Direction::Down && (pre.cards.selected_row + 1) * cols + pre.cards.selected_col
                < pre.cards.items@.len() ==> post.cards.selected_row == pre.cards.selected_row + 1
                && post.cards.selected_col == pre.cards.selected_col
        }),
        dir == Direction::Up && pre.cards.selected_row > 0 ==> post.cards.selected_row
            == pre.cards.selected_row - 1 && post.cards.selected_col == pre.cards.selected_col,
{
    let cols: int = if pre.cards.columns >= 1 {
        pre.cards.columns as int
    } else {
        1
    };
    let total = pre.cards.items@.len() as int;
    if dir == Direction::Down && (pre.cards.selected_row + 1) * cols + pre.cards.selected_col < total {
        lemma_card_below_in_grid(total, cols, pre.cards.selected_row as int, pre.cards.selected_col as int);
    }
}

/// Re-applying a saved card position that lies on a card of the loaded grid
/// puts the selection exactly there.
pub proof fn lemma_restore_keeps_card_position(pre: AppState, post: AppState, r: PendingSessionRestore)
    requires
        pre.pending_restore == Some(r),
        restore_applies(r, pre),
        apply_restore_spec(pre, post, r),
        r.view == View::Home,
        pre.tabs.active != Tab::SavedSearches,
        pre.tabs.active != Tab::Subscriptions,
        r.cards_selected_col < (if pre.cards.columns >= 1 {
            pre.cards.columns as int
        } else {
            1
        }),
        r.cards_selected_row * (if pre.cards.columns >= 1 {
            pre.cards.columns as int
        } else {
            1
        }) + r.cards_selected_col < pre.cards.items@.len(),
    ensures
        post.cards.selected_row == r.cards_selected_row,
        post.cards.selected_col == r.cards_selected_col,
        post.pending_restore is None,
{
    let cols: int = if pre.cards.columns >= 1 {
        pre.cards.columns as int
    } else {
        1
    };
    let total = pre.cards.items@.len() as int;
    let row = r.cards_selected_row as int;
    let col = r.cards_selected_col as int;
    assert(row <= (total - 1) / cols) by (nonlinear_arith)
        requires
            row * cols + col < total,
            0 <= col,
            cols >= 1,
            row >= 0,
    ;
}

/// Search options pass every filter on: a filter missing from the options
/// is at its default, one present carries the filter's value, and no
/// options at all means every filter is at its default.
pub proof fn lemma_search_options_keep_filters(f: crate::app::SearchFilterState)
    ensures
        ({
            let o = crate::effects::search_options_spec(f);
            match o {
                None => f.sort == crate::filters::SearchSort::Relevance && f.date
                    == crate::filters::SearchDate::Any && f.item_type
                    == crate::filters::SearchItemType::All && f.length
                    == crate::filters::SearchLength::Any,
                Some(opts) => {
                    &&& (match opts.sort {
                        Some(v) => v == f.sort && v != crate::filters::SearchSort::Relevance,
                        None => f.sort == crate::filters::SearchSort::Relevance,
                    })
                    &&& (match opts.date {
                        Some(v) => v == f.date && v != crate::filters::SearchDate::Any,
                        None => f.date == crate::filters::SearchDate::Any,
                    })
                    &&& (match opts.item_type {
                        Some(v) => v == f.item_type && v != crate::filters::SearchItemType::All,
                        None => f.item_type == crate::filters::SearchItemType::All,
                    })
                    &&& (match opts.length {
                        Some(v) => v == f.length && v != crate::filters::SearchLength::Any,
                        None => f.length == crate::filters::SearchLength::Any,
                    })
                    &&& !(opts.sort is None && opts.date is None && opts.item_type is None
                        && opts.length is None)
                },
            }
        }),
{
}

} // verus!
