use vstd::prelude::*;

verus! {

/// Width of a card in the home grid, in terminal columns.
pub const CARD_WIDTH: u16 = 50;

/// Height of a card in the home grid, in terminal rows.
pub const CARD_HEIGHT: u16 = 14;

/// Rows of a card given to its thumbnail.
pub const THUMB_HEIGHT: u16 = 8;

} // verus!

verus! {

/// First entry shown in a window of `visible` entries so that entry
/// `selected` is in view: the window scrolls only once the selection
/// passes its last line.
pub open spec fn scroll_offset_spec(selected: int, visible: int) -> int {
    if selected >= visible {
        selected - visible + 1
    } else {
        0
    }
}

/// The first entry to show (see `scroll_offset_spec`).
pub fn scroll_offset(selected: usize, visible: usize) -> (r: usize)
    requires
        visible > 0,
    ensures
        r == scroll_offset_spec(selected as int, visible as int),
{
    if selected >= visible {
        selected - (visible - 1)
    } else {
        0
    }
}

/// A window that shows at least one entry always shows the selected one.
pub proof fn lemma_selection_in_view(selected: int, visible: int)
    requires
        selected >= 0,
        visible > 0,
    ensures
        0 <= scroll_offset_spec(selected, visible) <= selected,
        selected < scroll_offset_spec(selected, visible) + visible,
{
}

/// Whole entries of `per_item` lines that fit in `height` lines.
pub fn visible_entries(height: u16, per_item: u16) -> (r: usize)
    requires
        per_item > 0,
    ensures
        r == height / per_item,
{
    (height / per_item) as usize
}

/// Card columns that fit in `width` terminal columns, cards separated by
/// one column; at least one.
pub open spec fn grid_columns_spec(width: int) -> int {
    let n = (width + 1) / (CARD_WIDTH + 1);
    if n >= 1 {
        n
    } else {
        1
    }
}

/// Card columns that fit in `width` terminal columns (see `grid_columns_spec`).
pub fn grid_columns(width: u16) -> (r: usize)
    ensures
        r == grid_columns_spec(width as int),
{
    let n = (width as u32 + 1) / (CARD_WIDTH as u32 + 1);
    if n >= 1 {
        n as usize
    } else {
        1
    }
}

/// Rows a grid of `total` cards in `cols` columns takes.
pub fn grid_rows(total: usize, cols: usize) -> (r: usize)
    requires
        cols > 0,
    ensures
        r == (total + cols - 1) / (cols as int),
{
    let q = total / cols;
    if total % cols == 0 {
        proof {
            assert((total + cols - 1) / (cols as int) == q) by (nonlinear_arith)
                requires
                    cols > 0,
                    total % cols == 0,
                    q == total / cols,
            ;
        }
        q
    } else {
        proof {
            assert((total + cols - 1) / (cols as int) == q + 1 && q < total) by (nonlinear_arith)
                requires
                    cols > 0,
                    total % cols > 0,
                    q == total / cols,
            ;
        }
        q + 1
    }
}

/// `a - b`, or 0 when `b` is larger.
pub open spec fn sat_sub(a: int, b: int) -> int {
    if a >= b {
        a - b
    } else {
        0
    }
}

pub open spec fn min_of(a: int, b: int) -> int {
    if a <= b {
        a
    } else {
        b
    }
}

/// The first line of a list entry `width` columns wide: a two-column
/// marker, the title cut to `width - (tag_len + 3)` columns, padding, and
/// the type tag (`tag_len` columns, possibly none) at the right edge.
/// Gives the room for the title and the padding after it; the padding
/// counts the title as at most that room (with no tag, at most
/// `width - 2`).
pub open spec fn title_line_spec(width: int, title_chars: int, tag_len: int) -> (int, int) {
    let room = sat_sub(width, 2 + tag_len + 1);
    let pad = if tag_len > 0 {
        sat_sub(width, 2 + min_of(title_chars, room) + tag_len)
    } else {
        sat_sub(width, 2 + min_of(title_chars, sat_sub(width, 2)))
    };
    (room, pad)
}

/// Room for the title and padding after it on a list entry's first line
/// (see `title_line_spec`).
pub fn title_line_fit(width: usize, title_chars: usize, tag_len: usize) -> (r: (usize, usize))
    requires
        tag_len + 3 <= usize::MAX,
    ensures
        r.0 == title_line_spec(width as int, title_chars as int, tag_len as int).0,
        r.1 == title_line_spec(width as int, title_chars as int, tag_len as int).1,
{
    let room = width.saturating_sub(2 + tag_len + 1);
    if tag_len > 0 {
        let shown = if title_chars < room {
            title_chars
        } else {
            room
        };
        (room, width.saturating_sub(2 + shown + tag_len))
    } else {
        let limit = width.saturating_sub(2);
        let shown = if title_chars < limit {
            title_chars
        } else {
            limit
        };
        (room, width.saturating_sub(2 + shown))
    }
}

/// Padding after a list entry's second line: four columns of indent, the
/// channel name, and, when there is one, a five-column separator and the
/// metadata, filled up to `width`.
pub open spec fn detail_line_padding_spec(width: int, channel_chars: int, meta_chars: int) -> int {
    sat_sub(
        width,
        4 + channel_chars + if meta_chars > 0 {
            5 + meta_chars
        } else {
            0
        },
    )
}

/// Padding after a list entry's second line (see `detail_line_padding_spec`).
pub fn detail_line_padding(width: usize, channel_chars: usize, meta_chars: usize) -> (r: usize)
    requires
        channel_chars + meta_chars + 9 <= usize::MAX,
    ensures
        r == detail_line_padding_spec(width as int, channel_chars as int, meta_chars as int),
{
    let used = 4 + channel_chars + if meta_chars > 0 {
        5 + meta_chars
    } else {
        0
    };
    width.saturating_sub(used)
}

/// How a card lays out its text inside a frame `inner_height` rows high
/// and `inner_width` columns wide, for a title of `title_chars` characters:
/// whether the title takes two lines (only when it is wider than the card
/// and the card is wider than three columns), how many rows the text takes
/// (title, channel and metadata, anchored to the bottom), and how many rows
/// above it the thumbnail gets.
pub open spec fn card_text_spec(inner_width: int, inner_height: int, title_chars: int) -> (bool, int, int) {
    let two = title_chars > inner_width && inner_width > 3;
    let text_rows = if two {
        4int
    } else {
        3int
    };
    (two, text_rows, sat_sub(inner_height, text_rows))
}

/// A card's text layout (see `card_text_spec`).
pub fn card_text_layout(inner_width: u16, inner_height: u16, title_chars: usize) -> (r: (bool, u16, u16))
    ensures
        r.0 == card_text_spec(inner_width as int, inner_height as int, title_chars as int).0,
        r.1 == card_text_spec(inner_width as int, inner_height as int, title_chars as int).1,
        r.2 == card_text_spec(inner_width as int, inner_height as int, title_chars as int).2,
{
    let two = title_chars > inner_width as usize && inner_width > 3;
    let text_rows: u16 = if two {
        4
    } else {
        3
    };
    (two, text_rows, inner_height.saturating_sub(text_rows))
}

} // verus!
