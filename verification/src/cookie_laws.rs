use vstd::prelude::*;
use crate::cookies::{cookie_fields, cookies_of_lines, cookies_spec, filtered_text, keeps_line};
use crate::lines::{is_ws, lines_spec, lines_state, strip_cr, trim_end_spec, trim_spec, trim_start_spec};

verus! {

/// The cookies whose domain is exactly `.youtube.com`, in order.
pub open spec fn youtube_cookies(cs: Seq<(Seq<char>, Seq<char>, Seq<char>)>) -> Seq<(Seq<char>, Seq<char>, Seq<char>)>
    decreases cs.len(),
{
    if cs.len() == 0 {
        cs
    } else if cs.last().0 == ".youtube.com"@ {
        youtube_cookies(cs.drop_last()).push(cs.last())
    } else {
        youtube_cookies(cs.drop_last())
    }
}

/// The text has no line break.
pub open spec fn no_newline(l: Seq<char>) -> bool {
    forall|i: int| 0 <= i < l.len() ==> l[i] != '\n'
}

/// The kept lines, as they read back once written one per line.
pub open spec fn kept_lines(ls: Seq<Seq<char>>) -> Seq<Seq<char>>
    decreases ls.len(),
{
    if ls.len() == 0 {
        ls
    } else if keeps_line(ls.last()) {
        kept_lines(ls.drop_last()).push(strip_cr(ls.last()))
    } else {
        kept_lines(ls.drop_last())
    }
}

proof fn lemma_trim_drop_ws_last(s: Seq<char>)
    requires
        s.len() > 0,
        is_ws(s.last()),
    ensures
        trim_spec(s) == trim_spec(s.drop_last()),
    decreases s.len(),
{
    if is_ws(s[0]) {
        if s.len() == 1 {
            assert(s.drop_first().len() == 0);
            assert(s.drop_last().len() == 0);
            assert(trim_start_spec(s.drop_first()) == s.drop_first());
            assert(trim_start_spec(s) == trim_start_spec(s.drop_first()));
            assert(trim_start_spec(s.drop_last()) == s.drop_last());
            assert(trim_end_spec(s.drop_first()) == s.drop_first());
            assert(trim_end_spec(s.drop_last()) == s.drop_last());
            assert(s.drop_first() =~= s.drop_last());
        } else {
            let t = s.drop_first();
            assert(t.last() == s.last());
            lemma_trim_drop_ws_last(t);
            assert(s.drop_last()[0] == s[0]);
            assert(s.drop_last().drop_first() =~= t.drop_last());
            assert(trim_start_spec(s.drop_last()) == trim_start_spec(s.drop_last().drop_first()));
        }
    } else {
        assert(s.len() >= 2);
        assert(s.drop_last()[0] == s[0]);
        assert(trim_start_spec(s) == s);
        assert(trim_start_spec(s.drop_last()) == s.drop_last());
        assert(trim_end_spec(s) == trim_end_spec(s.drop_last()));
    }
}

proof fn lemma_strip_cr_trim(l: Seq<char>)
    ensures
        trim_spec(strip_cr(l)) == trim_spec(l),
        cookie_fields(strip_cr(l)) == cookie_fields(l),
        keeps_line(strip_cr(l)) == keeps_line(l),
{
    if l.len() > 0 && l.last() == '\r' {
        lemma_trim_drop_ws_last(l);
    }
}

proof fn lemma_lines_state_append(a: Seq<char>, l: Seq<char>)
    requires
        lines_state(a).1.len() == 0,
        no_newline(l),
    ensures
        lines_state(a + l).0 == lines_state(a).0,
        lines_state(a + l).1 == l,
    decreases l.len(),
{
    if l.len() == 0 {
        assert(a + l =~= a);
    } else {
        let p = l.drop_last();
        assert(no_newline(p)) by {
            assert forall|i: int| 0 <= i < p.len() implies p[i] != '\n' by {
                assert(p[i] == l[i]);
            }
        }
        lemma_lines_state_append(a, p);
        assert((a + l).drop_last() =~= a + p);
        assert((a + l).last() == l.last());
        assert(l.last() == l[l.len() - 1]);
        assert(lines_state(a + p).1.push(l.last()) =~= l);
    }
}

proof fn lemma_lines_state_line(a: Seq<char>, l: Seq<char>)
    requires
        lines_state(a).1.len() == 0,
        no_newline(l),
    ensures
        lines_state(a + l + seq!['\n']).0 == lines_state(a).0.push(strip_cr(l)),
        lines_state(a + l + seq!['\n']).1.len() == 0,
{
    lemma_lines_state_append(a, l);
    let t = a + l + seq!['\n'];
    assert(t.drop_last() =~= a + l);
    assert(t.last() == '\n');
}

proof fn lemma_filtered_lines(ls: Seq<Seq<char>>)
    requires
        forall|i: int| 0 <= i < ls.len() ==> no_newline(#[trigger] ls[i]),
    ensures
        lines_state(filtered_text(ls)).0 == kept_lines(ls),
        lines_state(filtered_text(ls)).1.len() == 0,
    decreases ls.len(),
{
    if ls.len() > 0 {
        let p = ls.drop_last();
        assert forall|i: int| 0 <= i < p.len() implies no_newline(#[trigger] p[i]) by {
            assert(p[i] == ls[i]);
        }
        lemma_filtered_lines(p);
        if keeps_line(ls.last()) {
            assert(no_newline(ls[ls.len() - 1]));
            lemma_lines_state_line(filtered_text(p), ls.last());
        }
    } else {
        assert(lines_state(Seq::<char>::empty()).1.len() == 0);
    }
}

proof fn lemma_lines_state_no_newline(s: Seq<char>)
    ensures
        forall|i: int| 0 <= i < lines_state(s).0.len() ==> no_newline(#[trigger] lines_state(s).0[i]),
        no_newline(lines_state(s).1),
    decreases s.len(),
{
    if s.len() > 0 {
        let p = s.drop_last();
        lemma_lines_state_no_newline(p);
        let (done, cur) = lines_state(p);
        if s.last() == '\n' {
            let sc = strip_cr(cur);
            assert(no_newline(sc)) by {
                assert forall|i: int| 0 <= i < sc.len() implies sc[i] != '\n' by {
                    assert(sc[i] == cur[i]);
                }
            }
            assert forall|i: int| 0 <= i < done.push(sc).len() implies no_newline(#[trigger] done.push(sc)[i]) by {
                if i < done.len() {
                    assert(done.push(sc)[i] == done[i]);
                }
            }
        } else {
            let c2 = cur.push(s.last());
            assert forall|i: int| 0 <= i < c2.len() implies c2[i] != '\n' by {
                if i < cur.len() {
                    assert(c2[i] == cur[i]);
                }
            }
        }
    }
}

proof fn lemma_lines_no_newline(s: Seq<char>)
    ensures
        forall|i: int| 0 <= i < lines_spec(s).len() ==> no_newline(#[trigger] lines_spec(s)[i]),
{
    lemma_lines_state_no_newline(s);
    let (done, cur) = lines_state(s);
    if cur.len() > 0 {
        assert forall|i: int| 0 <= i < done.push(cur).len() implies no_newline(#[trigger] done.push(cur)[i]) by {
            if i < done.len() {
                assert(done.push(cur)[i] == done[i]);
            }
        }
    }
}

proof fn lemma_cookies_of_kept(ls: Seq<Seq<char>>)
    ensures
        cookies_of_lines(kept_lines(ls)) == youtube_cookies(cookies_of_lines(ls)),
    decreases ls.len(),
{
    if ls.len() > 0 {
        let p = ls.drop_last();
        let l = ls.last();
        lemma_cookies_of_kept(p);
        lemma_strip_cr_trim(l);
        if keeps_line(l) {
            let k = kept_lines(p).push(strip_cr(l));
            assert(k.drop_last() =~= kept_lines(p));
            assert(k.last() == strip_cr(l));
        }
        match cookie_fields(l) {
            Some(c) => {
                let cs = cookies_of_lines(p).push(c);
                assert(cs.drop_last() =~= cookies_of_lines(p));
                assert(cs.last() == c);
            },
            None => {},
        }
    }
}

/// What an import stores holds exactly the `.youtube.com` cookies of the
/// source file, in their order: filtering drops no YouTube cookie and lets
/// no other cookie through.
pub proof fn lemma_import_keeps_youtube_cookies(content: Seq<char>)
    ensures
        cookies_spec(filtered_text(lines_spec(content))) == youtube_cookies(cookies_spec(content)),
{
    let ls = lines_spec(content);
    lemma_lines_no_newline(content);
    lemma_filtered_lines(ls);
    lemma_cookies_of_kept(ls);
    let (done, cur) = lines_state(filtered_text(ls));
    assert(lines_spec(filtered_text(ls)) == done);
}

/// No kept line ends in a `\r` that would be read back as part of a line
/// break.
pub open spec fn kept_lines_end_clean(ls: Seq<Seq<char>>) -> bool {
    forall|i: int| 0 <= i < ls.len() && keeps_line(#[trigger] ls[i]) ==> strip_cr(ls[i]) == ls[i]
}

proof fn lemma_filter_kept(ls: Seq<Seq<char>>)
    requires
        kept_lines_end_clean(ls),
    ensures
        filtered_text(kept_lines(ls)) == filtered_text(ls),
    decreases ls.len(),
{
    if ls.len() > 0 {
        let p = ls.drop_last();
        let l = ls.last();
        assert(kept_lines_end_clean(p)) by {
            assert forall|i: int| 0 <= i < p.len() && keeps_line(#[trigger] p[i]) implies strip_cr(p[i]) == p[i] by {
                assert(p[i] == ls[i]);
            }
        }
        lemma_filter_kept(p);
        if keeps_line(l) {
            assert(ls[ls.len() - 1] == l);
            let k = kept_lines(p).push(l);
            assert(kept_lines(ls) == k);
            assert(k.drop_last() =~= kept_lines(p));
            assert(k.last() == l);
        }
    }
}

/// Filtering an already filtered cookie file changes nothing, as long as
/// no kept line ends in a carriage return of its own (such a `\r` is read
/// back as part of the line break and dropped the second time).
pub proof fn lemma_filter_idempotent(content: Seq<char>)
    requires
        kept_lines_end_clean(lines_spec(content)),
    ensures
        filtered_text(lines_spec(filtered_text(lines_spec(content)))) == filtered_text(
            lines_spec(content),
        ),
{
    let ls = lines_spec(content);
    lemma_lines_no_newline(content);
    lemma_filtered_lines(ls);
    let (done, cur) = lines_state(filtered_text(ls));
    assert(lines_spec(filtered_text(ls)) == kept_lines(ls));
    lemma_filter_kept(ls);
}

} // verus!
