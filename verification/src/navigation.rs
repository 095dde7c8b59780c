use vstd::prelude::*;
use vstd::view::View as _;
use crate::app::{AppState, Direction};

verus! {

/// Number of rows a grid of `total` items in `cols` columns takes.
pub open spec fn grid_rows(total: int, cols: int) -> int {
    total / cols + if total % cols == 0 { 0int } else { 1int }
}

/// Columns actually used by the grid (at least one).
pub open spec fn grid_cols(columns: int) -> int {
    if columns < 1 { 1 } else { columns }
}

pub open spec fn min_int(a: int, b: int) -> int {
    if a <= b { a } else { b }
}

/// Card selection `(row, col)` after moving in `dir` in a grid of `total`
/// items laid out in `columns` columns.
pub open spec fn cards_nav_spec(total: int, columns: int, row: int, col: int, dir: Direction) -> (int, int) {
    if total == 0 {
        (row, col)
    } else {
        let cols = grid_cols(columns);
        let rows = grid_rows(total, cols);
        match dir {
            Direction::Left => if col > 0 { (row, col - 1) } else { (row, col) },
            Direction::Right => {
                let max_col = min_int(cols - 1, (total - 1) - row * cols);
                if col < max_col { (row, col + 1) } else { (row, col) }
            },
            Direction::Up => if row > 0 { (row - 1, col) } else { (row, col) },
            Direction::Down => {
                if row < rows - 1 {
                    let nr = row + 1;
                    let in_row = if nr == rows - 1 { total - nr * cols } else { cols };
                    (nr, min_int(col, in_row - 1))
                } else {
                    (row, col)
                }
            },
        }
    }
}

/// Moving right from a row that starts past the end of the grid has no last
/// card to stop at (the index of the row's last card would be negative);
/// these are the moves that are defined.
pub open spec fn cards_nav_defined(total: int, columns: int, row: int, dir: Direction) -> bool {
    total > 0 && dir == Direction::Right ==> row * grid_cols(columns) <= total - 1
}

/// Selection in a list of `total` entries after moving in `dir`: up and down
/// move by one within the list, left and right do nothing.
pub open spec fn list_nav_spec(total: int, sel: int, dir: Direction) -> int {
    if total == 0 {
        sel
    } else {
        match dir {
            Direction::Up => if sel > 0 { sel - 1 } else { 0 },
            Direction::Down => if sel < total - 1 { sel + 1 } else { sel },
            _ => sel,
        }
    }
}

/// Channel page selection `(action, video)`: action 0 is the subscribe
/// button, action 1 the video list.
pub open spec fn channel_nav_spec(num_videos: int, action: int, video: int, dir: Direction) -> (int, int) {
    match dir {
        Direction::Up => {
            if action == 1 && video > 0 {
                (action, video - 1)
            } else if action == 1 && video == 0 {
                (0, video)
            } else {
                (action, video)
            }
        },
        Direction::Down => {
            if action == 0 {
                if num_videos > 0 { (1, 0) } else { (action, video) }
            } else if action == 1 && video < (if num_videos > 0 { num_videos - 1 } else { 0 }) {
                (action, video + 1)
            } else {
                (action, video)
            }
        },
        _ => (action, video),
    }
}

proof fn lemma_last_row_start(total: int, cols: int)
    requires
        total > 0,
        cols >= 1,
    ensures
        grid_rows(total, cols) >= 1,
        grid_rows(total, cols) <= total,
        (grid_rows(total, cols) - 1) * cols < total,
        (grid_rows(total, cols) - 1) * cols >= 0,
{
    let q = total / cols;
    let r = total % cols;
    assert(total == q * cols + r && 0 <= r < cols && q >= 0) by (nonlinear_arith)
        requires
            total > 0,
            cols >= 1,
            q == total / cols,
            r == total % cols,
    ;
    if r == 0 {
        assert(q >= 1) by (nonlinear_arith)
            requires
                total == q * cols + r,
                r == 0,
                total > 0,
                q >= 0,
        ;
        assert((q - 1) * cols == total - cols) by (nonlinear_arith)
            requires
                total == q * cols,
        ;
        assert((q - 1) * cols >= 0) by (nonlinear_arith)
            requires
                q >= 1,
                cols >= 1,
        ;
        assert(q <= total) by (nonlinear_arith)
            requires
                total == q * cols,
                cols >= 1,
                q >= 0,
        ;
    } else {
        assert(q * cols >= 0) by (nonlinear_arith)
            requires
                q >= 0,
                cols >= 1,
        ;
        assert(q + 1 <= total) by (nonlinear_arith)
            requires
                total == q * cols + r,
                r >= 1,
                cols >= 1,
                q >= 0,
        ;
    }
}

proof fn lemma_row_mul_le(row: int, bound: int, cols: int)
    requires
        0 <= row <= bound,
        cols >= 1,
    ensures
        row * cols <= bound * cols,
        row * cols >= 0,
{
    assert(row * cols <= bound * cols && row * cols >= 0) by (nonlinear_arith)
        requires
            0 <= row <= bound,
            cols >= 1,
    ;
}

impl AppState {
    pub(crate) fn navigate_cards(&mut self, dir: Direction)
        requires
            cards_nav_defined(
                old(self).cards.items@.len() as int,
                old(self).cards.columns as int,
                old(self).cards.selected_row as int,
                dir,
            ),
        ensures
            (final(self).cards.selected_row as int, final(self).cards.selected_col as int)
                == cards_nav_spec(
                old(self).cards.items@.len() as int,
                old(self).cards.columns as int,
                old(self).cards.selected_row as int,
                old(self).cards.selected_col as int,
                dir,
            ),
            *final(self) == (AppState {
                cards: crate::app::CardGridState {
                    selected_row: final(self).cards.selected_row,
                    selected_col: final(self).cards.selected_col,
                    ..old(self).cards
                },
                ..*old(self)
            }),
    {
        let total = self.cards.items.len();
        if total == 0 {
            return;
        }
        let cols = if self.cards.columns < 1 { 1 } else { self.cards.columns };
        proof {
            lemma_last_row_start(total as int, cols as int);
        }
        let rows = total / cols + if total % cols == 0 { 0 } else { 1 };
        match dir {
            Direction::Left => {
                if self.cards.selected_col > 0 {
                    self.cards.selected_col = self.cards.selected_col - 1;
                }
            },
            Direction::Right => {
                let row = self.cards.selected_row;
                proof {
                    if row > 0 {
                        assert(row * cols >= row) by (nonlinear_arith)
                            requires
                                row > 0,
                                cols >= 1,
                        ;
                    }
                }
                let last_in_row = (total - 1) - row * cols;
                let max_col = if cols - 1 <= last_in_row { cols - 1 } else { last_in_row };
                if self.cards.selected_col < max_col {
                    self.cards.selected_col = self.cards.selected_col + 1;
                }
            },
            Direction::Up => {
                if self.cards.selected_row > 0 {
                    self.cards.selected_row = self.cards.selected_row - 1;
                }
            },
            Direction::Down => {
                if self.cards.selected_row < rows - 1 {
                    let nr = self.cards.selected_row + 1;
                    proof {
                        lemma_row_mul_le(nr as int, rows - 1, cols as int);
                    }
                    let in_row = if nr == rows - 1 { total - nr * cols } else { cols };
                    self.cards.selected_row = nr;
                    let limit = in_row - 1;
                    if limit < self.cards.selected_col {
                        self.cards.selected_col = limit;
                    }
                }
            },
        }
    }

    pub(crate) fn navigate_subscription_list(&mut self, dir: Direction)
        ensures
            final(self).cards.selected_row as int == list_nav_spec(
                old(self).subscription_channels@.len() as int,
                old(self).cards.selected_row as int,
                dir,
            ),
            *final(self) == (AppState {
                cards: crate::app::CardGridState {
                    selected_row: final(self).cards.selected_row,
                    ..old(self).cards
                },
                ..*old(self)
            }),
    {
        let total = self.subscription_channels.len();
        if total == 0 {
            return;
        }
        match dir {
            Direction::Up => {
                if self.cards.selected_row > 0 {
                    self.cards.selected_row = self.cards.selected_row - 1;
                }
            },
            Direction::Down => {
                if self.cards.selected_row < total - 1 {
                    self.cards.selected_row = self.cards.selected_row + 1;
                }
            },
            _ => {},
        }
    }

    pub(crate) fn navigate_saved_searches(&mut self, dir: Direction)
        ensures
            final(self).saved_searches.selected as int == list_nav_spec(
                old(self).saved_searches.items@.len() as int,
                old(self).saved_searches.selected as int,
                dir,
            ),
            *final(self) == (AppState {
                saved_searches: crate::app::SavedSearchListState {
                    selected: final(self).saved_searches.selected,
                    ..old(self).saved_searches
                },
                ..*old(self)
            }),
    {
        let total = self.saved_searches.items.len();
        if total == 0 {
            return;
        }
        match dir {
            Direction::Up => {
                if self.saved_searches.selected > 0 {
                    self.saved_searches.selected = self.saved_searches.selected - 1;
                }
            },
            Direction::Down => {
                if self.saved_searches.selected < total - 1 {
                    self.saved_searches.selected = self.saved_searches.selected + 1;
                }
            },
            _ => {},
        }
    }

    pub(crate) fn navigate_list(&mut self, dir: Direction)
        ensures
            final(self).video_list.selected as int == list_nav_spec(
                old(self).video_list.items@.len() as int,
                old(self).video_list.selected as int,
                dir,
            ),
            *final(self) == (AppState {
                video_list: crate::app::VideoListState {
                    selected: final(self).video_list.selected,
                    ..old(self).video_list
                },
                ..*old(self)
            }),
    {
        let total = self.video_list.items.len();
        if total == 0 {
            return;
        }
        match dir {
            Direction::Up => {
                if self.video_list.selected > 0 {
                    self.video_list.selected = self.video_list.selected - 1;
                }
            },
            Direction::Down => {
                if self.video_list.selected < total - 1 {
                    self.video_list.selected = self.video_list.selected + 1;
                }
            },
            _ => {},
        }
    }

    pub(crate) fn navigate_detail(&mut self, dir: Direction)
        ensures
            old(self).detail is None ==> *final(self) == *old(self),
            old(self).detail is Some ==> final(self).detail is Some
                && final(self).detail->0.selected_action as int
                    == list_nav_spec(3, old(self).detail->0.selected_action as int, dir)
                && *final(self) == (AppState {
                    detail: Some(crate::app::DetailState {
                        selected_action: final(self).detail->0.selected_action,
                        ..old(self).detail->0
                    }),
                    ..*old(self)
                }),
    {
        match self.detail {
            Some(ref mut d) => {
                match dir {
                    Direction::Up => {
                        if d.selected_action > 0 {
                            d.selected_action = d.selected_action - 1;
                        }
                    },
                    Direction::Down => {
                        if d.selected_action < 2 {
                            d.selected_action = d.selected_action + 1;
                        }
                    },
                    _ => {},
                }
            },
            None => {},
        }
    }

    pub(crate) fn navigate_playlist_detail(&mut self, dir: Direction)
        ensures
            old(self).playlist_detail is None ==> *final(self) == *old(self),
            old(self).playlist_detail is Some ==> final(self).playlist_detail is Some
                && final(self).playlist_detail->0.selected_action as int
                    == list_nav_spec(3, old(self).playlist_detail->0.selected_action as int, dir)
                && *final(self) == (AppState {
                    playlist_detail: Some(crate::app::PlaylistDetailState {
                        selected_action: final(self).playlist_detail->0.selected_action,
                        ..old(self).playlist_detail->0
                    }),
                    ..*old(self)
                }),
    {
        match self.playlist_detail {
            Some(ref mut d) => {
                match dir {
                    Direction::Up => {
                        if d.selected_action > 0 {
                            d.selected_action = d.selected_action - 1;
                        }
                    },
                    Direction::Down => {
                        if d.selected_action < 2 {
                            d.selected_action = d.selected_action + 1;
                        }
                    },
                    _ => {},
                }
            },
            None => {},
        }
    }

    pub(crate) fn navigate_channel_detail(&mut self, dir: Direction)
        ensures
            old(self).channel_detail is None ==> *final(self) == *old(self),
            old(self).channel_detail is Some ==> final(self).channel_detail is Some
                && (
                final(self).channel_detail->0.selected_action as int,
                final(self).channel_detail->0.selected_video as int,
            ) == channel_nav_spec(
                old(self).channel_detail->0.detail.videos@.len() as int,
                old(self).channel_detail->0.selected_action as int,
                old(self).channel_detail->0.selected_video as int,
                dir,
            ) && *final(self) == (AppState {
                channel_detail: Some(crate::app::ChannelDetailState {
                    selected_action: final(self).channel_detail->0.selected_action,
                    selected_video: final(self).channel_detail->0.selected_video,
                    ..old(self).channel_detail->0
                }),
                ..*old(self)
            }),
    {
        match self.channel_detail {
            Some(ref mut cd) => {
                let num_videos = cd.detail.videos.len();
                match dir {
                    Direction::Up => {
                        if cd.selected_action == 1 && cd.selected_video > 0 {
                            cd.selected_video = cd.selected_video - 1;
                        } else if cd.selected_action == 1 && cd.selected_video == 0 {
                            cd.selected_action = 0;
                        }
                    },
                    Direction::Down => {
                        let last = if num_videos > 0 { num_videos - 1 } else { 0 };
                        if cd.selected_action == 0 {
                            if num_videos > 0 {
                                cd.selected_action = 1;
                                cd.selected_video = 0;
                            }
                        } else if cd.selected_action == 1 && cd.selected_video < last {
                            cd.selected_video = cd.selected_video + 1;
                        }
                    },
                    _ => {},
                }
            },
            None => {},
        }
    }
}

} // verus!
