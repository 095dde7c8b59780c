use vstd::prelude::*;
use crate::lines::{line_ranges, lines_spec, split_spec, tab_fields, trim_range, trim_spec};
use crate::text::{push_char, string_from_range};

verus! {

/// One entry of a Netscape cookie file.
#[derive(Debug, PartialEq)]
pub struct Cookie {
    pub domain: String,
    pub name: String,
    pub value: String,
}

/// Why a cookie file was refused.
#[derive(Debug, Clone, Copy, PartialEq, Eq, Structural)]
pub enum CookieError {
    /// The file holds no cookie line.
    NoCookies,
}

/// Domain, name and value of a cookie line: a trimmed line that is neither
/// empty nor a `#` comment, with at least seven tab-separated fields
/// (domain, flag, path, secure, expiry, name, value).
pub open spec fn cookie_fields(line: Seq<char>) -> Option<(Seq<char>, Seq<char>, Seq<char>)> {
    let t = trim_spec(line);
    if t.len() == 0 || t[0] == '#' {
        None
    } else {
        let f = split_spec(t, '\t');
        if f.len() < 7 {
            None
        } else {
            Some((f[0], f[5], f[6]))
        }
    }
}

/// The cookies of a sequence of lines, in order.
pub open spec fn cookies_of_lines(ls: Seq<Seq<char>>) -> Seq<(Seq<char>, Seq<char>, Seq<char>)>
    decreases ls.len(),
{
    if ls.len() == 0 {
        Seq::empty()
    } else {
        let rest = cookies_of_lines(ls.drop_last());
        match cookie_fields(ls.last()) {
            Some(c) => rest.push(c),
            None => rest,
        }
    }
}

/// The cookies of a Netscape cookie file.
pub open spec fn cookies_spec(content: Seq<char>) -> Seq<(Seq<char>, Seq<char>, Seq<char>)> {
    cookies_of_lines(lines_spec(content))
}

pub open spec fn cookie_view(c: Cookie) -> (Seq<char>, Seq<char>, Seq<char>) {
    (c.domain@, c.name@, c.value@)
}

fn cookie_of_line(v: &Vec<char>, lo: usize, hi: usize) -> (r: Option<Cookie>)
    requires
        lo <= hi <= v.len(),
    ensures
        match r {
            Some(c) => cookie_fields(v@.subrange(lo as int, hi as int)) == Some(cookie_view(c)),
            None => cookie_fields(v@.subrange(lo as int, hi as int)) is None,
        },
{
    let (a, b) = trim_range(v, lo, hi);
    if a == b || v[a] == '#' {
        return None;
    }
    let f = tab_fields(v, a, b);
    if f.len() < 7 {
        return None;
    }
    let domain = string_from_range(v, f[0].0, f[0].1);
    let name = string_from_range(v, f[5].0, f[5].1);
    let value = string_from_range(v, f[6].0, f[6].1);
    Some(Cookie { domain, name, value })
}

/// Parses a Netscape cookie file. Blank lines, `#` comments and lines with
/// fewer than seven tab-separated fields are skipped; a file without any
/// cookie is refused.
pub fn parse_netscape_cookies(content: &str) -> (r: Result<Vec<Cookie>, CookieError>)
    ensures
        match r {
            Ok(cs) => cs@.len() > 0 && cs@.map_values(|c: Cookie| cookie_view(c)) == cookies_spec(
                content@,
            ),
            Err(e) => e == CookieError::NoCookies && cookies_spec(content@).len() == 0,
        },
{
    let v = crate::text::chars_of(content);
    let ls = line_ranges(&v);
    let ghost lines = lines_spec(v@);
    let mut cookies: Vec<Cookie> = Vec::new();
    let mut i: usize = 0;
    while i < ls.len()
        invariant
            i <= ls@.len(),
            ls@.len() == lines.len(),
            lines == lines_spec(v@),
            forall|j: int|
                #![trigger ls@[j]]
                0 <= j < ls@.len() ==> ls@[j].0 <= ls@[j].1 <= v@.len() && v@.subrange(
                    ls@[j].0 as int,
                    ls@[j].1 as int,
                ) == lines[j],
            cookies@.map_values(|c: Cookie| cookie_view(c)) == cookies_of_lines(lines.take(i as int)),
        decreases ls@.len() - i,
    {
        let (lo, hi) = ls[i];
        let c = cookie_of_line(&v, lo, hi);
        proof {
            assert(lines.take(i + 1).drop_last() =~= lines.take(i as int));
            assert(lines.take(i + 1).last() == lines[i as int]);
        }
        match c {
            Some(ck) => {
                let ghost before = cookies@;
                cookies.push(ck);
                proof {
                    assert(cookies@.map_values(|c: Cookie| cookie_view(c)) =~= before.map_values(
                        |c: Cookie| cookie_view(c),
                    ).push(cookie_view(ck)));
                }
            },
            None => {},
        }
        i += 1;
    }
    proof {
        assert(lines.take(lines.len() as int) =~= lines);
        assert(v@ == content@);
    }
    if cookies.len() == 0 {
        Err(CookieError::NoCookies)
    } else {
        Ok(cookies)
    }
}

/// A line kept by the YouTube filter: blank lines and comments, and cookie
/// lines whose domain is exactly `.youtube.com`.
pub open spec fn keeps_line(line: Seq<char>) -> bool {
    let t = trim_spec(line);
    if t.len() == 0 || t[0] == '#' {
        true
    } else {
        let f = split_spec(t, '\t');
        f.len() >= 7 && f[0] == ".youtube.com"@
    }
}

/// The kept lines, each followed by `\n`.
pub open spec fn filtered_text(ls: Seq<Seq<char>>) -> Seq<char>
    decreases ls.len(),
{
    if ls.len() == 0 {
        Seq::empty()
    } else {
        let rest = filtered_text(ls.drop_last());
        if keeps_line(ls.last()) {
            rest + ls.last() + seq!['\n']
        } else {
            rest
        }
    }
}

fn keeps(v: &Vec<char>, lo: usize, hi: usize) -> (r: bool)
    requires
        lo <= hi <= v.len(),
    ensures
        r == keeps_line(v@.subrange(lo as int, hi as int)),
{
    let (a, b) = trim_range(v, lo, hi);
    if a == b || v[a] == '#' {
        return true;
    }
    let f = tab_fields(v, a, b);
    if f.len() < 7 {
        return false;
    }
    let domain = string_from_range(v, f[0].0, f[0].1);
    crate::text::str_eq(domain.as_str(), ".youtube.com")
}

/// The cookie file reduced to its blank lines, comments and `.youtube.com`
/// cookie lines, each line ending in `\n`.
pub fn filter_youtube_cookies(content: &str) -> (r: String)
    ensures
        r@ == filtered_text(lines_spec(content@)),
{
    let v = crate::text::chars_of(content);
    let ls = line_ranges(&v);
    let ghost lines = lines_spec(v@);
    let mut out = String::new();
    let mut i: usize = 0;
    while i < ls.len()
        invariant
            i <= ls@.len(),
            ls@.len() == lines.len(),
            lines == lines_spec(v@),
            forall|j: int|
                #![trigger ls@[j]]
                0 <= j < ls@.len() ==> ls@[j].0 <= ls@[j].1 <= v@.len() && v@.subrange(
                    ls@[j].0 as int,
                    ls@[j].1 as int,
                ) == lines[j],
            out@ == filtered_text(lines.take(i as int)),
        decreases ls@.len() - i,
    {
        let (lo, hi) = ls[i];
        proof {
            assert(lines.take(i + 1).drop_last() =~= lines.take(i as int));
            assert(lines.take(i + 1).last() == lines[i as int]);
        }
        if keeps(&v, lo, hi) {
            let line = string_from_range(&v, lo, hi);
            out.append(line.as_str());
            push_char(&mut out, '\n');
        }
        i += 1;
    }
    proof {
        assert(lines.take(lines.len() as int) =~= lines);
        assert(v@ == content@);
    }
    out
}

/// The text to store when importing a cookie file with this content: its
/// blank and comment lines and its cookie lines whose domain is exactly
/// `.youtube.com`, provided these hold at least one cookie.
pub fn cookie_file_for_import(content: &str) -> (r: Result<String, CookieError>)
    ensures
        match r {
            Ok(text) => text@ == filtered_text(lines_spec(content@)) && cookies_spec(text@).len() > 0,
            Err(e) => e == CookieError::NoCookies && cookies_spec(filtered_text(lines_spec(content@))).len() == 0,
        },
{
    let filtered = filter_youtube_cookies(content);
    match parse_netscape_cookies(filtered.as_str()) {
        Ok(_) => Ok(filtered),
        Err(e) => Err(e),
    }
}

} // verus!
