//! Browser-based login: turning exported cookies into a `Cookie` header and
//! deciding whether that header can authenticate.
//!
//! Security: cookie material only flows from input to output here; it is
//! never logged or rendered.

use vstd::prelude::*;

use crate::text::{
    chars_eq, chars_of, ends_with, extend_chars, extend_str, has_prefix, has_suffix, lines,
    lines_of, split_chars, split_on, starts_with, string_of, strip_leading, sub_chars, trim,
    trim_start_char, trim_ws, split_once_spec, find_char, contains, contains_seq, to_lowercase,
    unicode_lowercase, all_ascii, ascii_lower, replace_chars, replace_char, lemma_split_nonempty, first_index,
};

verus! {

/// One importable browser profile for yt-dlp's `--cookies-from-browser`.
pub struct BrowserProfile {
    /// Label shown in the UI.
    pub display: String,
    /// yt-dlp `--cookies-from-browser` argument (`name` or `name:profile`).
    pub spec: String,
}

/// Why no cookie header could be built.
#[derive(Debug, Clone, Copy, PartialEq, Eq, Structural)]
pub enum HeaderError {
    /// Not a single YouTube cookie was found.
    NoYoutubeCookies,
}

impl HeaderError {
    /// The message shown to the user.
    pub fn message(&self) -> (r: String)
        ensures
            r@ == "没有找到 YouTube 的登录信息"@,
    {
        "没有找到 YouTube 的登录信息".to_owned()
    }
}

/// A cookie as (name, value) text.
pub type CookiePair = (Seq<char>, Seq<char>);

/// The plain text of exec pairs.
pub open spec fn pairs_view(v: Seq<(Vec<char>, Vec<char>)>) -> Seq<CookiePair> {
    v.map_values(|p: (Vec<char>, Vec<char>)| (p.0@, p.1@))
}

/// The plain text of `String` pairs.
pub open spec fn string_pairs_view(v: Seq<(String, String)>) -> Seq<CookiePair> {
    v.map_values(|p: (String, String)| (p.0@, p.1@))
}

/// Is `host` YouTube's domain or one of its subdomains (leading dots
/// ignored)? Look-alikes such as `notyoutube.com` are not.
pub open spec fn youtube_domain(host: Seq<char>) -> bool {
    let h = strip_leading(host, '.');
    h == "youtube.com"@ || has_suffix(h, ".youtube.com"@)
}

/// Is `host` YouTube's domain or one of its subdomains?
pub fn is_youtube_domain(host: &Vec<char>) -> (r: bool)
    ensures
        r == youtube_domain(host@),
{
    let h = trim_start_char(host, '.');
    chars_eq(&h, &chars_of("youtube.com")) || ends_with(&h, &chars_of(".youtube.com"))
}

/// The cookie one line of a Netscape cookies.txt contributes, if any:
/// comments, blank lines, short rows and other domains contribute nothing.
pub open spec fn netscape_row(line: Seq<char>) -> Option<CookiePair> {
    let l0 = if has_prefix(line, "#HttpOnly_"@) {
        line.skip("#HttpOnly_"@.len() as int)
    } else {
        line
    };
    let l = trim_ws(l0);
    if l.len() == 0 || l[0] == '#' {
        None
    } else {
        let cols = split_on(l, '\t');
        if cols.len() < 7 || !youtube_domain(cols[0]) {
            None
        } else {
            Some((trim_ws(cols[5]), trim_ws(cols[6])))
        }
    }
}

/// The cookies of all lines, in file order.
pub open spec fn netscape_rows(lines: Seq<Seq<char>>) -> Seq<CookiePair>
    decreases lines.len(),
{
    if lines.len() == 0 {
        Seq::empty()
    } else {
        let prev = netscape_rows(lines.drop_last());
        match netscape_row(lines.last()) {
            Some(p) => prev.push(p),
            None => prev,
        }
    }
}

/// Does some pair carry the name `n`?
pub open spec fn has_name(ps: Seq<CookiePair>, n: Seq<char>) -> bool {
    exists|k: int| 0 <= k < ps.len() && #[trigger] ps[k].0 == n
}

/// Pairs with empty names dropped and, per name, only the first kept.
pub open spec fn dedup_pairs(ps: Seq<CookiePair>) -> Seq<CookiePair>
    decreases ps.len(),
{
    if ps.len() == 0 {
        Seq::empty()
    } else {
        let d = dedup_pairs(ps.drop_last());
        let p = ps.last();
        if p.0.len() == 0 || has_name(d, p.0) {
            d
        } else {
            d.push(p)
        }
    }
}

/// Position of the first pair named `n` with a non-empty value.
pub open spec fn first_valued(ps: Seq<CookiePair>, n: Seq<char>) -> Option<int> {
    if exists|k: int|
        0 <= k < ps.len() && ps[k].0 == n && ps[k].1.len() > 0 && forall|j: int|
            0 <= j < k ==> !(ps[j].0 == n && ps[j].1.len() > 0) {
        Some(
            choose|k: int|
                0 <= k < ps.len() && ps[k].0 == n && ps[k].1.len() > 0 && forall|j: int|
                    0 <= j < k ==> !(ps[j].0 == n && ps[j].1.len() > 0),
        )
    } else {
        None
    }
}

/// Request signing reads `SAPISID` by name; when only a
/// `__Secure-3PAPISID` / `__Secure-1PAPISID` value is present (in that
/// order of preference), it is mirrored under `SAPISID`.
pub open spec fn mirror_sapisid(ps: Seq<CookiePair>) -> Seq<CookiePair> {
    if has_name(ps, "SAPISID"@) {
        ps
    } else {
        match first_valued(ps, "__Secure-3PAPISID"@) {
            Some(k) => ps.push(("SAPISID"@, ps[k].1)),
            None => match first_valued(ps, "__Secure-1PAPISID"@) {
                Some(k) => ps.push(("SAPISID"@, ps[k].1)),
                None => ps,
            },
        }
    }
}

/// Every pair has a non-empty name and no name occurs twice.
pub open spec fn distinct_names(ps: Seq<CookiePair>) -> bool {
    &&& forall|k: int| 0 <= k < ps.len() ==> (#[trigger] ps[k]).0.len() > 0
    &&& forall|a: int, b: int| 0 <= a < b < ps.len() ==> #[trigger] ps[a].0 != #[trigger] ps[b].0
}

proof fn lemma_dedup_distinct(ps: Seq<CookiePair>)
    ensures
        distinct_names(dedup_pairs(ps)),
    decreases ps.len(),
{
    if ps.len() > 0 {
        lemma_dedup_distinct(ps.drop_last());
        let d = dedup_pairs(ps.drop_last());
        let p = ps.last();
        if !(p.0.len() == 0 || has_name(d, p.0)) {
            let e = d.push(p);
            assert forall|a: int, b: int| 0 <= a < b < e.len() implies #[trigger] e[a].0 != #[trigger] e[b].0 by {
                if b == d.len() {
                    assert(e[a] == d[a]);
                    if d[a].0 == p.0 {
                        assert(has_name(d, p.0));
                    }
                }
            }
        }
    }
}

/// A header never names a cookie twice, nor a cookie without a name: per
/// name the first pair wins, and `SAPISID` is only added when missing.
pub proof fn law_header_names_are_unique(ps: Seq<CookiePair>)
    ensures
        distinct_names(mirror_sapisid(dedup_pairs(ps))),
{
    lemma_dedup_distinct(ps);
    let d = dedup_pairs(ps);
    let m = mirror_sapisid(d);
    if !has_name(d, "SAPISID"@) && m != d {
        assert(m.len() == d.len() + 1);
        assert(m.last().0 == "SAPISID"@);
        assert forall|a: int, b: int| 0 <= a < b < m.len() implies #[trigger] m[a].0 != #[trigger] m[b].0 by {
            if b == d.len() {
                assert(m[a] == d[a]);
                if d[a].0 == "SAPISID"@ {
                    assert(has_name(d, "SAPISID"@));
                }
            } else {
                assert(m[a] == d[a] && m[b] == d[b]);
            }
        }
        assert forall|k: int| 0 <= k < m.len() implies (#[trigger] m[k]).0.len() > 0 by {
            if k < d.len() {
                assert(m[k] == d[k]);
            } else {
                reveal_strlit("SAPISID");
            }
        }
    }
}

/// Requests can be signed from the header exactly when the cookies hold a
/// `SAPISID`, or a non-empty `__Secure-3PAPISID` or `__Secure-1PAPISID`.
pub proof fn law_header_names_sapisid(d: Seq<CookiePair>)
    ensures
        has_name(mirror_sapisid(d), "SAPISID"@) <==> (has_name(d, "SAPISID"@) || first_valued(
            d,
            "__Secure-3PAPISID"@,
        ) is Some || first_valued(d, "__Secure-1PAPISID"@) is Some),
{
    let m = mirror_sapisid(d);
    if !has_name(d, "SAPISID"@) {
        if m != d {
            assert(m[d.len() as int].0 == "SAPISID"@);
        } else {
            assert(first_valued(d, "__Secure-3PAPISID"@) is None);
            assert(first_valued(d, "__Secure-1PAPISID"@) is None);
        }
    }
}

/// `name=value`.
pub open spec fn pair_text(p: CookiePair) -> Seq<char> {
    p.0 + seq!['='] + p.1
}

/// The pairs as `name=value` joined by `"; "`.
pub open spec fn join_pairs(ps: Seq<CookiePair>) -> Seq<char>
    decreases ps.len(),
{
    if ps.len() == 0 {
        Seq::empty()
    } else if ps.len() == 1 {
        pair_text(ps[0])
    } else {
        join_pairs(ps.drop_last()) + "; "@ + pair_text(ps.last())
    }
}

/// The `Cookie` header built from cookie pairs, or `None` when no usable
/// pair remains.
pub open spec fn header_of(ps: Seq<CookiePair>) -> Option<Seq<char>> {
    let d = dedup_pairs(ps);
    if d.len() == 0 {
        None
    } else {
        Some(join_pairs(mirror_sapisid(d)))
    }
}

/// The cookie one cookies.txt line contributes.
fn parse_netscape_line(line: &Vec<char>) -> (r: Option<(Vec<char>, Vec<char>)>)
    ensures
        match netscape_row(line@) {
            Some(p) => r matches Some(q) && q.0@ == p.0 && q.1@ == p.1,
            None => r is None,
        },
{
    let hp = chars_of("#HttpOnly_");
    let l0 = if starts_with(line, &hp) {
        let t = sub_chars(line, hp.len(), line.len());
        proof { assert(t@ =~= line@.skip("#HttpOnly_"@.len() as int)); }
        t
    } else {
        let t = sub_chars(line, 0, line.len());
        proof { assert(t@ =~= line@); }
        t
    };
    let l = trim(&l0);
    if l.len() == 0 || l[0] == '#' {
        return None;
    }
    let cols = split_chars(&l, '\t');
    if cols.len() < 7 {
        return None;
    }
    if !is_youtube_domain(&cols[0]) {
        return None;
    }
    Some((trim(&cols[5]), trim(&cols[6])))
}

/// Does `ps` hold a pair named `n`?
fn has_name_exec(ps: &Vec<(Vec<char>, Vec<char>)>, n: &Vec<char>) -> (r: bool)
    ensures
        r == has_name(pairs_view(ps@), n@),
{
    let mut i: usize = 0;
    while i < ps.len()
        invariant
            i <= ps@.len(),
            forall|k: int| 0 <= k < i ==> #[trigger] pairs_view(ps@)[k].0 != n@,
        decreases ps.len() - i,
    {
        if chars_eq(&ps[i].0, n) {
            proof { assert(pairs_view(ps@)[i as int].0 == n@); }
            return true;
        }
        i = i + 1;
    }
    false
}

/// The value of the first pair named `n` with a non-empty value.
fn first_valued_exec(ps: &Vec<(Vec<char>, Vec<char>)>, n: &Vec<char>) -> (r: Option<Vec<char>>)
    ensures
        match first_valued(pairs_view(ps@), n@) {
            Some(k) => r matches Some(v) && v@ == pairs_view(ps@)[k].1,
            None => r is None,
        },
{
    let ghost pv = pairs_view(ps@);
    let mut i: usize = 0;
    while i < ps.len()
        invariant
            i <= ps@.len(),
            pv == pairs_view(ps@),
            forall|j: int| 0 <= j < i ==> !(#[trigger] pv[j].0 == n@ && pv[j].1.len() > 0),
        decreases ps.len() - i,
    {
        if chars_eq(&ps[i].0, n) && ps[i].1.len() > 0 {
            proof {
                let k = i as int;
                assert(pv[k].0 == n@ && pv[k].1.len() > 0 && forall|j: int|
                    0 <= j < k ==> !(pv[j].0 == n@ && pv[j].1.len() > 0));
                let w = choose|w: int|
                    0 <= w < pv.len() && pv[w].0 == n@ && pv[w].1.len() > 0 && forall|j: int|
                        0 <= j < w ==> !(pv[j].0 == n@ && pv[j].1.len() > 0);
                if w < k {
                    assert(!(pv[w].0 == n@ && pv[w].1.len() > 0));
                } else if w > k {
                    assert(!(pv[k].0 == n@ && pv[k].1.len() > 0));
                }
            }
            return Some(sub_chars(&ps[i].1, 0, ps[i].1.len()));
        }
        i = i + 1;
    }
    proof {
        assert(!(exists|k: int| 0 <= k < pv.len() && pv[k].0 == n@ && pv[k].1.len() > 0));
    }
    None
}

/// The `Cookie` header text for `ps`, or `None` when nothing usable is left.
fn header_from_char_pairs(ps: &Vec<(Vec<char>, Vec<char>)>) -> (r: Option<Vec<char>>)
    ensures
        match header_of(pairs_view(ps@)) {
            Some(h) => r matches Some(v) && v@ == h,
            None => r is None,
        },
{
    let ghost pv = pairs_view(ps@);
    // dedupe: empty names dropped, first occurrence wins
    let mut d: Vec<(Vec<char>, Vec<char>)> = Vec::new();
    let mut i: usize = 0;
    while i < ps.len()
        invariant
            i <= ps@.len(),
            pv == pairs_view(ps@),
            pairs_view(d@) == dedup_pairs(pv.take(i as int)),
        decreases ps.len() - i,
    {
        proof {
            assert(pv.take(i + 1).drop_last() =~= pv.take(i as int));
            assert(pv.take(i + 1).last() == pv[i as int]);
        }
        let name = &ps[i].0;
        if name.len() > 0 && !has_name_exec(&d, name) {
            let p = (sub_chars(name, 0, name.len()), sub_chars(&ps[i].1, 0, ps[i].1.len()));
            proof {
                assert(p.0@ =~= pv[i as int].0);
                assert(p.1@ =~= pv[i as int].1);
            }
            d.push(p);
            proof {
                assert(pairs_view(d@) =~= dedup_pairs(pv.take(i as int)).push(pv[i as int]));
            }
        }
        i = i + 1;
    }
    proof {
        assert(pv.take(i as int) =~= pv);
    }
    if d.len() == 0 {
        return None;
    }
    // mirror the signing credential
    let sapisid = chars_of("SAPISID");
    if !has_name_exec(&d, &sapisid) {
        let alias3 = chars_of("__Secure-3PAPISID");
        let alias1 = chars_of("__Secure-1PAPISID");
        match first_valued_exec(&d, &alias3) {
            Some(v) => {
                d.push((sapisid, v));
            },
            None => match first_valued_exec(&d, &alias1) {
                Some(v) => {
                    d.push((sapisid, v));
                },
                None => {},
            },
        }
    }
    let ghost m = mirror_sapisid(dedup_pairs(pv));
    proof {
        assert(pairs_view(d@) =~= m);
    }
    // join as `name=value; ..`
    let mut out: Vec<char> = Vec::new();
    let mut k: usize = 0;
    while k < d.len()
        invariant
            k <= d@.len(),
            pairs_view(d@) == m,
            out@ == join_pairs(m.take(k as int)),
        decreases d.len() - k,
    {
        proof {
            assert(m.take(k + 1).drop_last() =~= m.take(k as int));
            assert(m.take(k + 1).last() == m[k as int]);
        }
        if k > 0 {
            extend_str(&mut out, "; ");
        }
        extend_chars(&mut out, &d[k].0);
        out.push('=');
        extend_chars(&mut out, &d[k].1);
        proof {
            if k == 0 {
                assert(m.take(1)[0] == m[0]);
                assert(out@ =~= pair_text(m[0]));
            } else {
                assert(out@ =~= join_pairs(m.take(k as int)) + "; "@ + pair_text(m[k as int]));
            }
        }
        k = k + 1;
    }
    proof {
        assert(m.take(k as int) =~= m);
    }
    Some(out)
}

/// Build a `name=value; ..` Cookie header from Netscape cookies.txt text.
///
/// Only rows whose domain is YouTube's (or a subdomain of it) count, host-only
/// rows included; comment and malformed short rows are skipped rather than
/// failing the import; per name the first row wins. A `__Secure-*PAPISID`
/// value is mirrored as `SAPISID` when that cookie itself is missing.
pub fn cookie_header_from_netscape(text: &str) -> (r: Result<String, HeaderError>)
    ensures
        match header_of(netscape_rows(lines_of(text@))) {
            Some(h) => r matches Ok(s) && s@ == h,
            None => r == Err::<String, HeaderError>(HeaderError::NoYoutubeCookies),
        },
{
    let cs = chars_of(text);
    let ls = lines(&cs);
    let ghost lv = lines_of(text@);
    let mut rows: Vec<(Vec<char>, Vec<char>)> = Vec::new();
    let mut i: usize = 0;
    while i < ls.len()
        invariant
            i <= ls@.len(),
            ls@.len() == lv.len(),
            forall|k: int| 0 <= k < ls@.len() ==> #[trigger] ls@[k]@ == lv[k],
            pairs_view(rows@) == netscape_rows(lv.take(i as int)),
        decreases ls.len() - i,
    {
        proof {
            assert(lv.take(i + 1).drop_last() =~= lv.take(i as int));
            assert(lv.take(i + 1).last() == lv[i as int]);
        }
        match parse_netscape_line(&ls[i]) {
            Some(p) => {
                rows.push(p);
                proof {
                    assert(pairs_view(rows@) =~= netscape_rows(lv.take(i as int)).push(
                        netscape_row(lv[i as int])->0,
                    ));
                }
            },
            None => {},
        }
        i = i + 1;
    }
    proof {
        assert(lv.take(i as int) =~= lv);
    }
    match header_from_char_pairs(&rows) {
        Some(h) => Ok(string_of(&h)),
        None => Err(HeaderError::NoYoutubeCookies),
    }
}

/// Build a `name=value; ..` Cookie header from (name, value) pairs read out
/// of a browser's cookie database: empty names dropped, first occurrence of
/// a name wins, `SAPISID` mirrored from its `__Secure-` aliases when missing.
pub fn cookie_header_from_pairs(pairs: Vec<(String, String)>) -> (r: Result<String, HeaderError>)
    ensures
        match header_of(string_pairs_view(pairs@)) {
            Some(h) => r matches Ok(s) && s@ == h,
            None => r == Err::<String, HeaderError>(HeaderError::NoYoutubeCookies),
        },
{
    let mut ps: Vec<(Vec<char>, Vec<char>)> = Vec::new();
    let mut i: usize = 0;
    while i < pairs.len()
        invariant
            i <= pairs@.len(),
            ps@.len() == i,
            pairs_view(ps@) == string_pairs_view(pairs@).take(i as int),
        decreases pairs.len() - i,
    {
        let p = (chars_of(pairs[i].0.as_str()), chars_of(pairs[i].1.as_str()));
        proof {
            assert(p.0@ == pairs@[i as int].0@);
            assert(p.1@ == pairs@[i as int].1@);
            assert(string_pairs_view(pairs@)[i as int] == (p.0@, p.1@));
        }
        ps.push(p);
        proof {
            assert(pairs_view(ps@)[i as int] == (p.0@, p.1@));
            assert(pairs_view(ps@) =~= string_pairs_view(pairs@).take(i + 1));
        }
        i = i + 1;
    }
    proof {
        assert(string_pairs_view(pairs@).take(i as int) =~= string_pairs_view(pairs@));
    }
    match header_from_char_pairs(&ps) {
        Some(h) => Ok(string_of(&h)),
        None => Err(HeaderError::NoYoutubeCookies),
    }
}


/// One `;`-separated piece of a header is the signing credential: after
/// trimming it reads `SAPISID=<non-empty value>`.
pub open spec fn credential_piece(piece: Seq<char>) -> bool {
    match split_once_spec(trim_ws(piece), '=') {
        Some((n, v)) => n == "SAPISID"@ && v.len() > 0,
        None => false,
    }
}

/// Some piece of the header is the signing credential.
pub open spec fn carries_credential(header: Seq<char>) -> bool {
    exists|k: int| 0 <= k < split_on(header, ';').len() && #[trigger] credential_piece(split_on(header, ';')[k])
}

/// Does this cookie header carry the credential requests are signed with?
/// Checked by name because that is how the signing code looks it up; an
/// empty value or only a `__Secure-` alias does not count.
pub fn has_auth_credential(header: &str) -> (r: bool)
    ensures
        r == carries_credential(header@),
{
    let cs = chars_of(header);
    let pieces = split_chars(&cs, ';');
    let sapisid = chars_of("SAPISID");
    let ghost sp = split_on(header@, ';');
    let mut i: usize = 0;
    while i < pieces.len()
        invariant
            i <= pieces@.len(),
            pieces@.len() == sp.len(),
            sapisid@ == "SAPISID"@,
            sp == split_on(header@, ';'),
            forall|k: int| 0 <= k < pieces@.len() ==> #[trigger] pieces@[k]@ == sp[k],
            forall|k: int| 0 <= k < i ==> !#[trigger] credential_piece(sp[k]),
        decreases pieces.len() - i,
    {
        let t = trim(&pieces[i]);
        let ghost tv = trim_ws(sp[i as int]);
        proof { assert(pieces@[i as int]@ == sp[i as int]); }
        let found = find_char(&t, '=');
        let mut hit = false;
        match found {
            Some(eq) => {
                let name = sub_chars(&t, 0, eq);
                if chars_eq(&name, &sapisid) && t.len() - eq > 1 {
                    hit = true;
                }
                proof {
                    assert(t@ == tv);
                    assert(first_index(tv, '=') is Some);
                    let k = first_index(tv, '=')->0;
                    assert(k as usize == eq);
                    assert(0 <= k < tv.len());
                    assert(k == eq as int);
                    assert(split_once_spec(tv, '=') == Some((tv.subrange(0, k), tv.subrange(k + 1, tv.len() as int))));
                    assert(name@ == tv.subrange(0, k));
                    assert(hit == credential_piece(sp[i as int]));
                }
            },
            None => {
                proof {
                    assert(split_once_spec(tv, '=') is None);
                    assert(!credential_piece(sp[i as int]));
                }
            },
        }
        if hit {
            proof { assert(credential_piece(split_on(header@, ';')[i as int])); }
            return true;
        }
        i = i + 1;
    }
    proof {
        assert forall|k: int| 0 <= k < sp.len() implies !#[trigger] credential_piece(sp[k]) by {
            assert(k < i);
        }
    }
    false
}

/// The browser name of a `--cookies-from-browser` spec (text before `:`).
pub open spec fn browser_name(spec: Seq<char>) -> Seq<char> {
    split_on(spec, ':')[0]
}

fn browser_name_of(spec: &str) -> (r: Vec<char>)
    ensures
        r@ == browser_name(spec@),
{
    let cs = chars_of(spec);
    let pieces = split_chars(&cs, ':');
    proof { lemma_split_nonempty(spec@, ':'); }
    sub_chars(&pieces[0], 0, pieces[0].len())
}

/// Message for a profile that carries no YouTube login.
pub open spec fn empty_message(spec: Seq<char>) -> Seq<char> {
    browser_name(spec) + " 尚未登录 YouTube（没有找到登录凭据）。\n请先在该浏览器登录 music.youtube.com，再回来导入。"@
}

pub fn explain_empty(spec: &str) -> (r: String)
    ensures
        r@ == empty_message(spec@),
{
    let mut out = browser_name_of(spec);
    extend_str(&mut out, " 尚未登录 YouTube（没有找到登录凭据）。\n请先在该浏览器登录 music.youtube.com，再回来导入。");
    string_of(&out)
}

/// A stderr line that reports an error.
pub open spec fn error_line(l: Seq<char>) -> bool {
    contains_seq(l, "ERROR"@) || contains_seq(l, "error"@)
}

/// The last line of `ls` that reports an error.
pub open spec fn last_error_line(ls: Seq<Seq<char>>) -> Option<Seq<char>>
    decreases ls.len(),
{
    if ls.len() == 0 {
        None
    } else if error_line(ls.last()) {
        Some(ls.last())
    } else {
        last_error_line(ls.drop_last())
    }
}

/// The first `n` characters of `s` (all of them when shorter).
pub open spec fn take_chars(s: Seq<char>, n: int) -> Seq<char> {
    if s.len() <= n { s } else { s.subrange(0, n) }
}

/// Message for a failed yt-dlp export, picked from what its stderr says.
pub open spec fn failure_message(spec: Seq<char>, stderr: Seq<char>) -> Seq<char> {
    message_for_stderr(spec, stderr, unicode_lowercase(stderr))
}

/// The failure message, given the lower-cased stderr `lower` in which the
/// known causes are looked for.
pub open spec fn message_for_stderr(spec: Seq<char>, stderr: Seq<char>, lower: Seq<char>) -> Seq<char> {
    let name = browser_name(spec);
    if contains_seq(lower, "could not copy"@) || contains_seq(lower, "permission"@) || contains_seq(
        lower,
        "locked"@,
    ) {
        "无法读取 "@ + name + " 的 Cookie 数据库，请先完全关闭该浏览器再重试。"@
    } else if contains_seq(lower, "decrypt"@) || contains_seq(lower, "dpapi"@) {
        name + " 的 Cookie 解密失败（较新的 Chrome 系浏览器有此限制）。\n可改用 Firefox，或选择「手动粘贴 Cookie」。"@
    } else if contains_seq(lower, "unsupported browser"@) {
        "yt-dlp 不支持浏览器 "@ + name + "。"@
    } else {
        let tail = match last_error_line(lines_of(stderr)) {
            Some(l) => l,
            None => "未知错误"@,
        };
        "从 "@ + name + " 导入 Cookie 失败: "@ + take_chars(tail, 160)
    }
}

fn contains_str(hay: &Vec<char>, needle: &str) -> (r: bool)
    ensures
        r == contains_seq(hay@, needle@),
{
    let n = chars_of(needle);
    contains(hay, &n)
}

/// The last line of `text` that reports an error.
fn last_error_line_of(text: &str) -> (r: Option<Vec<char>>)
    ensures
        match last_error_line(lines_of(text@)) {
            Some(l) => r matches Some(v) && v@ == l,
            None => r is None,
        },
{
    let cs = chars_of(text);
    let ls = lines(&cs);
    let ghost lv = lines_of(text@);
    let mut j: usize = ls.len();
    proof { assert(lv.take(lv.len() as int) =~= lv); }
    while j > 0
        invariant
            j <= ls@.len(),
            lv == lines_of(text@),
            ls@.len() == lv.len(),
            forall|k: int| 0 <= k < ls@.len() ==> #[trigger] ls@[k]@ == lv[k],
            last_error_line(lv) == last_error_line(lv.take(j as int)),
        decreases j,
    {
        proof {
            assert(lv.take(j as int).drop_last() =~= lv.take(j - 1));
            assert(lv.take(j as int).last() == lv[j - 1]);
        }
        proof { assert(ls@[j - 1]@ == lv[j - 1]); }
        if contains_str(&ls[j - 1], "ERROR") || contains_str(&ls[j - 1], "error") {
            proof { assert(error_line(lv[j - 1])); }
            let l = sub_chars(&ls[j - 1], 0, ls[j - 1].len());
            proof {
                assert(l@ =~= lv[j - 1]);
                assert(last_error_line(lv.take(j as int)) == Some(lv[j - 1]));
                assert(last_error_line(lines_of(text@)) == Some(l@));
            }
            return Some(l);
        }
        j = j - 1;
    }
    proof { assert(lv.take(0) =~= Seq::<Seq<char>>::empty()); }
    None
}

pub fn explain_failure(spec: &str, stderr: &str) -> (r: String)
    ensures
        r@ == failure_message(spec@, stderr@),
        all_ascii(stderr@) ==> r@ == message_for_stderr(
            spec@,
            stderr@,
            stderr@.map_values(|c: char| ascii_lower(c)),
        ),
{
    let name = browser_name_of(spec);
    let lower_s = to_lowercase(stderr);
    let lower = chars_of(lower_s.as_str());
    let mut out: Vec<char> = Vec::new();
    if contains_str(&lower, "could not copy") || contains_str(&lower, "permission") || contains_str(
        &lower,
        "locked",
    ) {
        extend_str(&mut out, "无法读取 ");
        extend_chars(&mut out, &name);
        extend_str(&mut out, " 的 Cookie 数据库，请先完全关闭该浏览器再重试。");
    } else if contains_str(&lower, "decrypt") || contains_str(&lower, "dpapi") {
        extend_chars(&mut out, &name);
        extend_str(&mut out, " 的 Cookie 解密失败（较新的 Chrome 系浏览器有此限制）。\n可改用 Firefox，或选择「手动粘贴 Cookie」。");
    } else if contains_str(&lower, "unsupported browser") {
        extend_str(&mut out, "yt-dlp 不支持浏览器 ");
        extend_chars(&mut out, &name);
        extend_str(&mut out, "。");
    } else {
        let tail = match last_error_line_of(stderr) {
            Some(l) => l,
            None => chars_of("未知错误"),
        };
        let keep = if tail.len() <= 160 { tail.len() } else { 160 };
        let cut = sub_chars(&tail, 0, keep);
        proof {
            if tail@.len() <= 160 {
                assert(cut@ =~= tail@);
            }
        }
        extend_str(&mut out, "从 ");
        extend_chars(&mut out, &name);
        extend_str(&mut out, " 导入 Cookie 失败: ");
        extend_chars(&mut out, &cut);
    }
    string_of(&out)
}

/// What a yt-dlp cookie export comes to: the header when the file it wrote
/// holds YouTube cookies with the signing credential; otherwise the message
/// to show (from its stderr when no file could be read).
pub open spec fn export_result(written: Option<Seq<char>>, stderr: Seq<char>, spec: Seq<char>) -> Result<
    Seq<char>,
    Seq<char>,
> {
    match written {
        None => Err(failure_message(spec, stderr)),
        Some(text) => match header_of(netscape_rows(lines_of(text))) {
            None => Err(empty_message(spec)),
            Some(h) => if carries_credential(h) {
                Ok(h)
            } else {
                Err(empty_message(spec))
            },
        },
    }
}

/// The text held, if any.
pub open spec fn text_of(o: Option<String>) -> Option<Seq<char>> {
    match o {
        Some(t) => Some(t@),
        None => None,
    }
}

/// Decide a yt-dlp cookie export from the cookies file it wrote (`None`
/// when none could be read) and its stderr: the Cookie header, or the
/// message that explains the failure.
pub fn export_outcome(written: Option<String>, stderr: &str, spec: &str) -> (r: Result<String, String>)
    ensures
        match export_result(text_of(written), stderr@, spec@) {
            Ok(h) => r matches Ok(s) && s@ == h,
            Err(m) => r matches Err(s) && s@ == m,
        },
{
    match written {
        None => Err(explain_failure(spec, stderr)),
        Some(text) => match cookie_header_from_netscape(text.as_str()) {
            Err(_) => Err(explain_empty(spec)),
            Ok(header) => {
                if has_auth_credential(header.as_str()) {
                    Ok(header)
                } else {
                    Err(explain_empty(spec))
                }
            },
        },
    }
}

/// Longest path label, in characters, that a profile row shows.
pub const PATH_MAX_COLS: usize = 38;

/// A path label: separators normalised to `\` on Windows, and a long path
/// cut to its tail behind a `..` marker so it never exceeds the row budget.
pub open spec fn shortened(display: Seq<char>, windows: bool) -> Seq<char> {
    let s = if windows { replace_char(display, '/', '\\') } else { display };
    if s.len() <= PATH_MAX_COLS {
        s
    } else {
        ".."@ + s.subrange(s.len() - (PATH_MAX_COLS - 2), s.len() as int)
    }
}

/// Keep the tail of a long path so the UI row stays readable.
/// `display` is the path as shown; `windows` selects `\` separators.
pub fn shorten(display: &str, windows: bool) -> (r: String)
    ensures
        r@ == shortened(display@, windows),
        r@.len() <= PATH_MAX_COLS,
{
    let raw = chars_of(display);
    let s = if windows { replace_chars(&raw, '/', '\\') } else { raw };
    if s.len() <= PATH_MAX_COLS {
        return string_of(&s);
    }
    let keep = PATH_MAX_COLS - 2;
    let mut out = chars_of("..");
    proof { reveal_strlit(".."); }
    let tail = sub_chars(&s, s.len() - keep, s.len());
    extend_chars(&mut out, &tail);
    string_of(&out)
}

} // verus!
