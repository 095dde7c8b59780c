use vstd::prelude::*;
use vstd::view::View as _;
use crate::app::{Action, AppState, Direction, PopupState, Tab, View};
use crate::dispatch::dispatch_defined;
use crate::handler_spec::{handle_defined, select_defined};
use crate::navigation::grid_cols;
use crate::selection::card_index_spec;
use crate::text::{char_width, chars_of, fits_counters, lemma_take_full_len, lemma_utf8_len_take_mono, lemma_utf8_len_take_step, utf8_len};
use crate::thumbs::thumbnail_plan_defined;

verus! {

/// Whether the text fits the byte counters the library keeps.
pub fn fits_byte_counters(s: &str) -> (r: bool)
    ensures
        r == fits_counters(s@),
{
    let v = chars_of(s);
    let limit: usize = usize::MAX - 8;
    let mut n: usize = 0;
    let mut i: usize = 0;
    proof {
        assert(v@.take(0).len() == 0);
        assert(utf8_len(v@.take(0)) == 0);
    }
    while i < v.len()
        invariant
            i <= v@.len(),
            v@ == s@,
            limit == usize::MAX - 8,
            n == utf8_len(s@.take(i as int)),
            n <= limit,
        decreases v@.len() - i,
    {
        proof {
            lemma_utf8_len_take_step(s@, i as int);
        }
        let w = char_width(v[i]);
        if n > limit - w {
            proof {
                lemma_utf8_len_take_mono(s@, i + 1, s@.len() as int);
                lemma_take_full_len(s@);
            }
            return false;
        }
        n = n + w;
        i = i + 1;
    }
    proof {
        lemma_take_full_len(s@);
    }
    true
}

fn product_at_most(a: usize, b: usize, bound: usize) -> (r: bool)
    ensures
        r == (a * b <= bound),
{
    match a.checked_mul(b) {
        Some(p) => p <= bound,
        None => false,
    }
}

impl AppState {
    /// Whether the selected card's index fits in `usize`.
    pub fn card_index_fits(&self) -> (r: bool)
        ensures
            r == (card_index_spec(*self) <= usize::MAX),
    {
        match self.cards.selected_row.checked_mul(self.cards.columns) {
            Some(p) => match p.checked_add(self.cards.selected_col) {
                Some(_) => true,
                None => false,
            },
            None => {
                proof {
                    assert(self.cards.selected_row * self.cards.columns <= card_index_spec(*self));
                }
                false
            },
        }
    }

    /// Whether `thumbnail_requests` can compute its window.
    pub fn can_plan_thumbnails(&self) -> (r: bool)
        ensures
            r == thumbnail_plan_defined(*self),
    {
        let cols = if self.cards.columns >= 1 {
            self.cards.columns
        } else {
            1
        };
        if self.video_list.selected > usize::MAX - 15 {
            return false;
        }
        if self.cards.selected_row > usize::MAX - 3 {
            proof {
                assert((self.cards.selected_row + 3) * cols >= self.cards.selected_row + 3) by (nonlinear_arith)
                    requires
                        cols >= 1,
                ;
            }
            return false;
        }
        product_at_most(self.cards.selected_row + 3, cols, usize::MAX)
    }

    fn select_ok(&self) -> (r: bool)
        ensures
            r == select_defined(*self),
    {
        if self.loading.detail_request_id == u64::MAX {
            return false;
        }
        match self.view {
            View::Home => {
                if self.tabs.active == Tab::SavedSearches {
                    if self.loading.search_request_id == u64::MAX {
                        return false;
                    }
                    if self.saved_searches.selected < self.saved_searches.items.len() {
                        fits_byte_counters(
                            self.saved_searches.items[self.saved_searches.selected].query.as_str(),
                        )
                    } else {
                        true
                    }
                } else if self.tabs.active == Tab::Subscriptions {
                    true
                } else {
                    self.card_index_fits()
                }
            },
            _ => true,
        }
    }

    fn dispatch_ok(&self, action: &Action) -> (r: bool)
        ensures
            r == dispatch_defined(*self, *action),
    {
        match action {
            Action::Navigate(dir) => {
                let cards = match self.view {
                    View::Home => self.tabs.active != Tab::SavedSearches && self.tabs.active
                        != Tab::Subscriptions,
                    _ => false,
                };
                if !cards || self.cards.items.len() == 0 || *dir != Direction::Right {
                    return true;
                }
                let cols = if self.cards.columns < 1 {
                    1
                } else {
                    self.cards.columns
                };
                proof {
                    assert(cols == grid_cols(self.cards.columns as int));
                }
                product_at_most(self.cards.selected_row, cols, self.cards.items.len() - 1)
            },
            Action::SubmitSearch(_) => self.loading.search_request_id < u64::MAX,
            Action::SearchInput(_) => fits_byte_counters(self.search.query.as_str()),
            Action::OpenRenameSearchPopup => {
                if self.tabs.active == Tab::SavedSearches && self.saved_searches.items.len() > 0 {
                    self.saved_searches.selected < self.saved_searches.items.len()
                        && fits_byte_counters(
                        self.saved_searches.items[self.saved_searches.selected].name.as_str(),
                    )
                } else {
                    true
                }
            },
            Action::OpenDeleteSearchConfirm => {
                if self.tabs.active == Tab::SavedSearches && self.saved_searches.items.len() > 0 {
                    self.saved_searches.selected < self.saved_searches.items.len()
                } else {
                    true
                }
            },
            Action::PopupInput(_) => match &self.popup {
                Some(PopupState::SaveSearch { input, .. }) => fits_byte_counters(input.as_str()),
                Some(PopupState::Rename { input, .. }) => fits_byte_counters(input.as_str()),
                _ => true,
            },
            _ => true,
        }
    }

    /// Whether `handle_action` can take this action in this state: request
    /// counters below their limit, texts within the byte counters, and
    /// selections whose index arithmetic fits.
    pub fn can_handle(&self, action: &Action) -> (r: bool)
        ensures
            r == handle_defined(*self, *action),
    {
        if !self.dispatch_ok(action) {
            return false;
        }
        match action {
            Action::FilterCycleUp => self.loading.search_request_id < u64::MAX,
            Action::FilterCycleDown => self.loading.search_request_id < u64::MAX,
            Action::ResetFilters => self.loading.search_request_id < u64::MAX,
            Action::Select => self.select_ok(),
            Action::SwitchTab(_) => self.loading.feed_request_id < u64::MAX,
            Action::SubscribeSelected => match self.view {
                View::Home => self.card_index_fits(),
                _ => true,
            },
            _ => true,
        }
    }
}

} // verus!
