use youtube_terminal::cookies::{
    cookie_file_for_import, filter_youtube_cookies, parse_netscape_cookies, CookieError,
};

const SAMPLE_COOKIES: &str = "# Netscape HTTP Cookie File
.youtube.com\tTRUE\t/\tTRUE\t1700000000\tSID\tabc123
.youtube.com\tTRUE\t/\tTRUE\t1700000000\tHSID\tdef456
.youtube.com\tTRUE\t/\tTRUE\t1700000000\tSSID\tghi789
";

#[test]
fn test_parse_netscape_cookies() {
    let cookies = parse_netscape_cookies(SAMPLE_COOKIES).unwrap();
    assert_eq!(cookies.len(), 3);
    assert_eq!(cookies[0].domain, ".youtube.com");
    assert_eq!(cookies[0].name, "SID");
    assert_eq!(cookies[0].value, "abc123");
}

#[test]
fn test_parse_empty_cookies() {
    let result = parse_netscape_cookies("# just comments\n\n");
    assert!(result.is_err());
}

#[test]
fn parse_skips_short_lines_and_handles_crlf() {
    let text = "a\tb\tc\r\n.youtube.com\tTRUE\t/\tTRUE\t0\tNAME\tvalue\r\n";
    let cookies = parse_netscape_cookies(text).unwrap();
    assert_eq!(cookies.len(), 1);
    assert_eq!(cookies[0].name, "NAME");
    assert_eq!(cookies[0].value, "value");
}

#[test]
fn parse_without_cookie_lines_is_no_cookies() {
    assert_eq!(parse_netscape_cookies("not a cookie file"), Err(CookieError::NoCookies));
    assert_eq!(parse_netscape_cookies(""), Err(CookieError::NoCookies));
}

#[test]
fn filter_keeps_youtube_lines_and_comments() {
    let text = "# header\n.google.com\tTRUE\t/\tTRUE\t0\tG\t1\n.youtube.com\tTRUE\t/\tTRUE\t0\tY\t2";
    let filtered = filter_youtube_cookies(text);
    assert_eq!(filtered, "# header\n.youtube.com\tTRUE\t/\tTRUE\t0\tY\t2\n");
}

#[test]
fn import_keeps_youtube_cookies_only() {
    let text = ".google.com\tTRUE\t/\tTRUE\t0\tG\t1\n.youtube.com\tTRUE\t/\tTRUE\t0\tY\t2\n";
    let stored = cookie_file_for_import(text).unwrap();
    let cookies = parse_netscape_cookies(&stored).unwrap();
    assert_eq!(cookies.len(), 1);
    assert_eq!(cookies[0].name, "Y");
}

#[test]
fn import_without_youtube_cookies_is_refused() {
    let text = ".google.com\tTRUE\t/\tTRUE\t0\tG\t1\n";
    assert_eq!(cookie_file_for_import(text), Err(CookieError::NoCookies));
}

#[test]
fn filtering_twice_changes_nothing() {
    let content = "# Netscape HTTP Cookie File\r\n.youtube.com\tTRUE\t/\tTRUE\t0\tSID\tabc\r\n.google.com\tTRUE\t/\tTRUE\t0\tNID\tx\n\n   \nwww.youtube.com\tTRUE\t/\tTRUE\t0\tA\tb";
    let once = filter_youtube_cookies(content);
    assert_eq!(once, "# Netscape HTTP Cookie File\n.youtube.com\tTRUE\t/\tTRUE\t0\tSID\tabc\n\n   \n");
    assert_eq!(filter_youtube_cookies(&once), once);
}

#[test]
fn kept_line_ending_in_carriage_return_is_not_stable() {
    // The line "#x\r" is kept; written back as "#x\r\n" it reads as "#x".
    let once = filter_youtube_cookies("#x\r\r\n");
    assert_eq!(once, "#x\r\n");
    assert_eq!(filter_youtube_cookies(&once), "#x\n");
}
