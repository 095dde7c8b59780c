use vstd::prelude::*;
use crate::app::AppState;
use crate::layout::CARD_WIDTH;
use crate::models::FeedItem;

verus! {

/// Index of the selected card in the grid's item list.
pub open spec fn card_index_spec(s: AppState) -> int {
    s.cards.selected_row * s.cards.columns + s.cards.selected_col
}

/// The selected card, if the selection is on one.
pub open spec fn card_item_spec(s: AppState) -> Option<FeedItem> {
    let i = card_index_spec(s);
    if 0 <= i < s.cards.items@.len() {
        Some(s.cards.items@[i])
    } else {
        None
    }
}

/// The selected entry of the result list, if the selection is on one.
pub open spec fn list_item_spec(s: AppState) -> Option<FeedItem> {
    if s.video_list.selected < s.video_list.items@.len() {
        Some(s.video_list.items@[s.video_list.selected as int])
    } else {
        None
    }
}

/// Number of card columns for a terminal this wide: each card takes its
/// width and a gap, two columns are kept free, and there is at least one.
pub open spec fn columns_for_width(width: int) -> int {
    let avail = if width >= 2 {
        width - 2
    } else {
        0
    };
    let n = avail / (CARD_WIDTH + 1);
    if n >= 1 {
        n
    } else {
        1
    }
}

impl AppState {
    /// Fits the number of card columns to the terminal width.
    pub fn update_columns(&mut self, terminal_width: u16)
        ensures
            *final(self) == (AppState {
                cards: crate::app::CardGridState {
                    columns: columns_for_width(terminal_width as int) as usize,
                    ..old(self).cards
                },
                ..*old(self)
            }),
    {
        let card_width: u16 = CARD_WIDTH + 1;
        let avail = if terminal_width >= 2 {
            terminal_width - 2
        } else {
            0
        };
        let n = avail / card_width;
        self.cards.columns = if n >= 1 {
            n as usize
        } else {
            1
        };
    }

    /// Index of the selected card: its row times the columns, plus its column.
    pub fn selected_card_index(&self) -> (r: usize)
        requires
            card_index_spec(*self) <= usize::MAX,
        ensures
            r == card_index_spec(*self),
    {
        proof {
            assert(self.cards.selected_row * self.cards.columns <= card_index_spec(*self));
        }
        self.cards.selected_row * self.cards.columns + self.cards.selected_col
    }

    /// The selected card, if the selection is on one.
    pub fn selected_card_item(&self) -> (r: Option<&FeedItem>)
        requires
            card_index_spec(*self) <= usize::MAX,
        ensures
            r is Some == card_item_spec(*self) is Some,
            r is Some ==> *r->0 == card_item_spec(*self)->0,
    {
        let i = self.selected_card_index();
        if i < self.cards.items.len() {
            Some(&self.cards.items[i])
        } else {
            None
        }
    }

    /// The selected entry of the result list, if the selection is on one.
    pub fn selected_list_item(&self) -> (r: Option<&FeedItem>)
        ensures
            r is Some == list_item_spec(*self) is Some,
            r is Some ==> *r->0 == list_item_spec(*self)->0,
    {
        if self.video_list.selected < self.video_list.items.len() {
            Some(&self.video_list.items[self.video_list.selected])
        } else {
            None
        }
    }
}

} // verus!
