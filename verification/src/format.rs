use vstd::prelude::*;
use crate::clock::{formatted_instant, parse_rfc3339, parse_with_format, rfc3339_instant};
use crate::filters::{
    date_label_spec, item_type_label_spec, length_label_spec, sort_label_spec, SearchDate,
    SearchItemType, SearchLength, SearchSort,
};
use crate::saved_searches::SavedSearch;
use crate::text::{chars_of, concat_str, push_char, string_from_range};

verus! {

/// The decimal digit for `d` (0 to 9).
pub open spec fn digit_char(d: int) -> char {
    if d <= 0 {
        '0'
    } else if d == 1 {
        '1'
    } else if d == 2 {
        '2'
    } else if d == 3 {
        '3'
    } else if d == 4 {
        '4'
    } else if d == 5 {
        '5'
    } else if d == 6 {
        '6'
    } else if d == 7 {
        '7'
    } else if d == 8 {
        '8'
    } else {
        '9'
    }
}

/// `n` written in decimal, without leading zeros.
pub open spec fn decimal_spec(n: nat) -> Seq<char>
    decreases n,
{
    if n < 10 {
        seq![digit_char(n as int)]
    } else {
        decimal_spec(n / 10).push(digit_char((n % 10) as int))
    }
}

/// `n` in decimal with at least two digits.
pub open spec fn pad2_spec(n: nat) -> Seq<char> {
    if n < 10 {
        "0"@ + decimal_spec(n)
    } else {
        decimal_spec(n)
    }
}

fn digit(d: u128) -> (c: char)
    requires
        d < 10,
    ensures
        c == digit_char(d as int),
{
    if d == 0 {
        '0'
    } else if d == 1 {
        '1'
    } else if d == 2 {
        '2'
    } else if d == 3 {
        '3'
    } else if d == 4 {
        '4'
    } else if d == 5 {
        '5'
    } else if d == 6 {
        '6'
    } else if d == 7 {
        '7'
    } else if d == 8 {
        '8'
    } else {
        '9'
    }
}

/// `n` written in decimal.
pub fn decimal(n: u128) -> (s: String)
    ensures
        s@ == decimal_spec(n as nat),
    decreases n,
{
    if n < 10 {
        let mut s = String::new();
        push_char(&mut s, digit(n));
        s
    } else {
        let mut s = decimal(n / 10);
        push_char(&mut s, digit(n % 10));
        s
    }
}

fn pad2(n: u128) -> (s: String)
    ensures
        s@ == pad2_spec(n as nat),
{
    if n < 10 {
        let d = decimal(n);
        concat_str("0", d.as_str())
    } else {
        decimal(n)
    }
}

/// A playback position: `h:mm:ss` from an hour on, else `m:ss`.
pub open spec fn clock_spec(total: nat) -> Seq<char> {
    let h = total / 3600;
    let m = (total % 3600) / 60;
    let s = total % 60;
    if h > 0 {
        decimal_spec(h) + ":"@ + pad2_spec(m) + ":"@ + pad2_spec(s)
    } else {
        decimal_spec(m) + ":"@ + pad2_spec(s)
    }
}

/// A playback position given in whole seconds, as `h:mm:ss` or `m:ss`.
pub fn format_time(total_secs: u64) -> (r: String)
    ensures
        r@ == clock_spec(total_secs as nat),
{
    let h = total_secs / 3600;
    let m = (total_secs % 3600) / 60;
    let s = total_secs % 60;
    if h > 0 {
        let out = decimal(h as u128);
        let out = concat_str(out.as_str(), ":");
        let mm = pad2(m as u128);
        let out = concat_str(out.as_str(), mm.as_str());
        let out = concat_str(out.as_str(), ":");
        let ss = pad2(s as u128);
        concat_str(out.as_str(), ss.as_str())
    } else {
        let out = decimal(m as u128);
        let out = concat_str(out.as_str(), ":");
        let ss = pad2(s as u128);
        concat_str(out.as_str(), ss.as_str())
    }
}

/// How long ago something happened, given the whole seconds since: under a
/// minute "just now", then minutes, hours, days, 30-day months and 365-day
/// years, each rounded down.
pub open spec fn age_label(secs: int) -> Seq<char> {
    let days = secs / 86400;
    if secs < 60 {
        "just now"@
    } else if secs < 3600 {
        decimal_spec((secs / 60) as nat) + "m ago"@
    } else if secs < 86400 {
        decimal_spec((secs / 3600) as nat) + "h ago"@
    } else if days < 30 {
        decimal_spec(days as nat) + "d ago"@
    } else if days < 365 {
        decimal_spec((days / 30) as nat) + "mo ago"@
    } else {
        decimal_spec((days / 365) as nat) + "y ago"@
    }
}

/// The label for something `secs` whole seconds old (see `age_label`).
pub fn time_ago_label(secs: i128) -> (r: String)
    ensures
        r@ == age_label(secs as int),
{
    if secs < 60 {
        return String::from_str("just now");
    }
    let days = secs / 86400;
    let (n, unit) = if secs < 3600 {
        (secs / 60, "m ago")
    } else if secs < 86400 {
        (secs / 3600, "h ago")
    } else if days < 30 {
        (days, "d ago")
    } else if days < 365 {
        (days / 30, "mo ago")
    } else {
        (days / 365, "y ago")
    };
    let d = decimal(n as u128);
    concat_str(d.as_str(), unit)
}

/// Whole seconds from the instant `then` to `now` (each as seconds since
/// the epoch and nanoseconds past the second), rounded toward zero.
pub open spec fn whole_seconds(now: (i64, u32), then: (i64, u32)) -> int {
    let d = (now.0 - then.0) * 1_000_000_000 + (now.1 - then.1);
    if d >= 0 {
        d / 1_000_000_000
    } else {
        -((-d) / 1_000_000_000)
    }
}

/// Whole seconds from `then` to `now`, rounded toward zero.
pub fn seconds_between(now: (i64, u32), then: (i64, u32)) -> (r: i128)
    ensures
        r == whole_seconds(now, then),
{
    let d: i128 = (now.0 as i128 - then.0 as i128) * 1_000_000_000 + (now.1 as i128 - then.1 as i128);
    if d >= 0 {
        d / 1_000_000_000
    } else {
        -((-d) / 1_000_000_000)
    }
}

/// How long ago a video published at this Unix time (in seconds) came out,
/// as seen at `now` (seconds since the Unix epoch and nanoseconds past that
/// second, as the caller read the clock).
pub fn format_time_ago(published: i64, now: (i64, u32)) -> (r: String)
    ensures
        r@ == age_label(whole_seconds(now, (published, 0))),
{
    let secs = seconds_between(now, (published, 0));
    time_ago_label(secs)
}

/// Format of the stored run times, tried when a time is not RFC 3339.
pub open spec fn stored_time_format() -> Seq<char> {
    "%Y-%m-%dT%H:%M:%SZ"@
}

/// The instant a stored run time names: RFC 3339 first, else the stored format.
pub open spec fn run_instant(ts: Seq<char>) -> Option<(i64, u32)> {
    match rfc3339_instant(ts) {
        Some(t) => Some(t),
        None => formatted_instant(ts, stored_time_format()),
    }
}

/// When a saved search last ran, `secs` whole seconds ago.
pub open spec fn last_run_label(secs: int) -> Seq<char> {
    "ran "@ + age_label(secs)
}

/// The label for a saved search last run `secs` whole seconds ago.
pub fn ran_ago_label(secs: i128) -> (r: String)
    ensures
        r@ == last_run_label(secs as int),
{
    let a = time_ago_label(secs);
    concat_str("ran ", a.as_str())
}

/// When a saved search last ran: "never run" without a readable time, else
/// how long ago as seen at `now` (seconds since the Unix epoch and
/// nanoseconds past that second, as the caller read the clock).
pub fn format_last_run(last_run_at: &Option<String>, now: (i64, u32)) -> (r: String)
    ensures
        match *last_run_at {
            None => r@ == "never run"@,
            Some(ts) => match run_instant(ts@) {
                None => r@ == "never run"@,
                Some(t) => r@ == last_run_label(whole_seconds(now, t)),
            },
        },
{
    match last_run_at {
        None => String::from_str("never run"),
        Some(ts) => {
            let parsed = match parse_rfc3339(ts.as_str()) {
                Some(t) => Some(t),
                None => parse_with_format(ts.as_str(), "%Y-%m-%dT%H:%M:%SZ"),
            };
            match parsed {
                None => String::from_str("never run"),
                Some(t) => {
                    let secs = seconds_between(now, t);
                    ran_ago_label(secs)
                },
            }
        },
    }
}

/// `s` cut to at most `max` characters; a cut string ends in "..." when
/// there is room for it.
pub open spec fn truncate_spec(s: Seq<char>, max: int) -> Seq<char> {
    if s.len() <= max {
        s
    } else if max > 3 {
        s.take(max - 3) + "..."@
    } else {
        s.take(max)
    }
}

/// `s` cut to at most `max` characters (see `truncate_spec`).
pub fn truncate_str(s: &str, max: usize) -> (r: String)
    ensures
        r@ == truncate_spec(s@, max as int),
{
    let v = chars_of(s);
    if v.len() <= max {
        return String::from_str(s);
    }
    if max > 3 {
        let head = string_from_range(&v, 0, max - 3);
        proof {
            assert(v@.subrange(0, max - 3) =~= s@.take(max - 3));
        }
        concat_str(head.as_str(), "...")
    } else {
        proof {
            assert(v@.subrange(0, max as int) =~= s@.take(max as int));
        }
        string_from_range(&v, 0, max)
    }
}

/// A rolling hash of the bytes: each step multiplies by 31 and adds the
/// byte, wrapping around.
pub open spec fn hash_spec(b: Seq<u8>) -> usize
    decreases b.len(),
{
    if b.len() == 0 {
        0
    } else {
        hash_spec(b.drop_last()).wrapping_mul(31).wrapping_add(b.last() as usize)
    }
}

/// The rolling hash of the UTF-8 bytes of `s` (see `hash_spec`).
pub fn simple_hash(s: &str) -> (h: usize)
    ensures
        h == hash_spec(vstd::utf8::encode_utf8(s@)),
{
    let bytes = s.as_bytes();
    let mut acc: usize = 0;
    let mut i: usize = 0;
    while i < bytes.len()
        invariant
            i <= bytes@.len(),
            bytes@ == vstd::utf8::encode_utf8(s@),
            acc == hash_spec(bytes@.take(i as int)),
        decreases bytes@.len() - i,
    {
        proof {
            assert(bytes@.take(i + 1).drop_last() =~= bytes@.take(i as int));
        }
        acc = acc.wrapping_mul(31).wrapping_add(bytes[i] as usize);
        i += 1;
    }
    proof {
        assert(bytes@.take(bytes@.len() as int) =~= bytes@);
    }
    acc
}

/// The pieces of a saved search's filter summary: each filter that differs
/// from its default, as "Sort: ..", "Date: ..", "Type: ..", "Length: ..".
pub open spec fn summary_parts(item: SavedSearch) -> Seq<Seq<char>> {
    let a = if item.sort != SearchSort::Relevance {
        seq!["Sort: "@ + sort_label_spec(item.sort)]
    } else {
        Seq::empty()
    };
    let b = if item.date != SearchDate::Any {
        seq!["Date: "@ + date_label_spec(item.date)]
    } else {
        Seq::empty()
    };
    let c = if item.item_type != SearchItemType::All {
        seq!["Type: "@ + item_type_label_spec(item.item_type)]
    } else {
        Seq::empty()
    };
    let d = if item.length != SearchLength::Any {
        seq!["Length: "@ + length_label_spec(item.length)]
    } else {
        Seq::empty()
    };
    a + b + c + d
}

/// The pieces joined with `sep` between neighbours.
pub open spec fn join_spec(parts: Seq<Seq<char>>, sep: Seq<char>) -> Seq<char>
    decreases parts.len(),
{
    if parts.len() == 0 {
        Seq::empty()
    } else if parts.len() == 1 {
        parts[0]
    } else {
        join_spec(parts.drop_last(), sep) + sep + parts.last()
    }
}

fn add_part(out: &mut String, first: &mut bool, part: String, ghost_parts: Ghost<Seq<Seq<char>>>)
    requires
        *old(first) == (ghost_parts@.len() == 0),
        old(out)@ == join_spec(ghost_parts@, " \u{00b7} "@),
    ensures
        !*final(first),
        final(out)@ == join_spec(ghost_parts@.push(part@), " \u{00b7} "@),
{
    proof {
        assert(ghost_parts@.push(part@).drop_last() =~= ghost_parts@);
    }
    if !*first {
        out.append(" \u{00b7} ");
    }
    out.append(part.as_str());
    *first = false;
    proof {
        if ghost_parts@.len() == 0 {
            assert(old(out)@ =~= Seq::<char>::empty());
            assert(final(out)@ =~= part@);
        }
    }
}

/// The non-default filters of a saved search, joined with " · ".
pub fn build_filter_summary(item: &SavedSearch) -> (r: String)
    ensures
        r@ == join_spec(summary_parts(*item), " \u{00b7} "@),
{
    let mut out = String::new();
    let mut first = true;
    let ghost mut parts: Seq<Seq<char>> = Seq::empty();
    if item.sort != SearchSort::Relevance {
        let p = concat_str("Sort: ", item.sort.label());
        add_part(&mut out, &mut first, p, Ghost(parts));
        proof {
            parts = parts.push("Sort: "@ + sort_label_spec(item.sort));
        }
    }
    if item.date != SearchDate::Any {
        let p = concat_str("Date: ", item.date.label());
        add_part(&mut out, &mut first, p, Ghost(parts));
        proof {
            parts = parts.push("Date: "@ + date_label_spec(item.date));
        }
    }
    if item.item_type != SearchItemType::All {
        let p = concat_str("Type: ", item.item_type.label());
        add_part(&mut out, &mut first, p, Ghost(parts));
        proof {
            parts = parts.push("Type: "@ + item_type_label_spec(item.item_type));
        }
    }
    if item.length != SearchLength::Any {
        let p = concat_str("Length: ", item.length.label());
        add_part(&mut out, &mut first, p, Ghost(parts));
        proof {
            parts = parts.push("Length: "@ + length_label_spec(item.length));
        }
    }
    proof {
        assert(parts =~= summary_parts(*item));
    }
    out
}

/// The pieces that are not empty, in order.
pub open spec fn nonempty_parts(parts: Seq<Seq<char>>) -> Seq<Seq<char>>
    decreases parts.len(),
{
    if parts.len() == 0 {
        Seq::empty()
    } else if parts.last().len() > 0 {
        nonempty_parts(parts.drop_last()).push(parts.last())
    } else {
        nonempty_parts(parts.drop_last())
    }
}

/// The texts of `parts`.
pub open spec fn texts(parts: Seq<String>) -> Seq<Seq<char>> {
    parts.map_values(|p: String| p@)
}

/// The non-empty pieces of a metadata line joined with `sep`: empty pieces
/// leave no separator behind.
pub fn join_nonempty(parts: &Vec<String>, sep: &str) -> (r: String)
    ensures
        r@ == join_spec(nonempty_parts(texts(parts@)), sep@),
{
    let mut out = String::new();
    let mut first = true;
    let mut i: usize = 0;
    while i < parts.len()
        invariant
            i <= parts.len(),
            first == (nonempty_parts(texts(parts@).take(i as int)).len() == 0),
            out@ == join_spec(nonempty_parts(texts(parts@).take(i as int)), sep@),
        decreases parts.len() - i,
    {
        let ghost before = nonempty_parts(texts(parts@).take(i as int));
        proof {
            assert(texts(parts@).take(i as int + 1).drop_last() =~= texts(parts@).take(i as int));
            assert(texts(parts@).take(i as int + 1).last() == parts@[i as int]@);
        }
        let part = &parts[i];
        if part.as_str().unicode_len() > 0 {
            proof {
                assert(before.push(part@).drop_last() =~= before);
            }
            if !first {
                out.append(sep);
            }
            out.append(part.as_str());
            first = false;
            proof {
                if before.len() == 0 {
                    assert(out@ =~= part@);
                }
            }
        }
        i = i + 1;
    }
    proof {
        assert(texts(parts@).take(parts@.len() as int) =~= texts(parts@));
    }
    out
}

/// The spinner frame shown after `elapsed_ms` milliseconds: one of eight
/// frames, each shown for 120 ms.
pub open spec fn spinner_frame(elapsed_ms: int) -> Seq<char> {
    let i = (elapsed_ms / 120) % 8;
    if i == 1 {
        "[=   ]"@
    } else if i == 2 {
        "[==  ]"@
    } else if i == 3 {
        "[=== ]"@
    } else if i == 4 {
        "[ ===]"@
    } else if i == 5 {
        "[  ==]"@
    } else if i == 6 {
        "[   =]"@
    } else {
        "[    ]"@
    }
}

/// The loading spinner frame after `elapsed_ms` milliseconds.
pub fn loading_spinner(elapsed_ms: u128) -> (r: &'static str)
    ensures
        r@ == spinner_frame(elapsed_ms as int),
{
    let i = (elapsed_ms / 120) % 8;
    if i == 1 {
        "[=   ]"
    } else if i == 2 {
        "[==  ]"
    } else if i == 3 {
        "[=== ]"
    } else if i == 4 {
        "[ ===]"
    } else if i == 5 {
        "[  ==]"
    } else if i == 6 {
        "[   =]"
    } else {
        "[    ]"
    }
}

} // verus!
