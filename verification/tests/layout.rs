use youtube_terminal::layout::{card_text_layout, detail_line_padding, title_line_fit};

#[test]
fn title_line_with_a_tag() {
    // 40 columns, a 4-column tag: the title gets 40 - 7 = 33 columns.
    assert_eq!(title_line_fit(40, 10, 4), (33, 24));
    // A long title is counted as its room.
    assert_eq!(title_line_fit(40, 100, 4), (33, 1));
}

#[test]
fn title_line_without_a_tag() {
    assert_eq!(title_line_fit(40, 10, 0), (37, 28));
    assert_eq!(title_line_fit(40, 100, 0), (37, 0));
    assert_eq!(title_line_fit(1, 5, 0), (0, 0));
}

#[test]
fn detail_line_padding_counts_the_separator_only_with_meta() {
    assert_eq!(detail_line_padding(40, 10, 0), 26);
    assert_eq!(detail_line_padding(40, 10, 6), 15);
    assert_eq!(detail_line_padding(10, 10, 6), 0);
}

#[test]
fn card_title_takes_two_lines_only_when_too_wide() {
    assert_eq!(card_text_layout(48, 12, 30), (false, 3, 9));
    assert_eq!(card_text_layout(48, 12, 60), (true, 4, 8));
    assert_eq!(card_text_layout(3, 12, 60), (false, 3, 9));
    assert_eq!(card_text_layout(48, 2, 60), (true, 4, 0));
}
