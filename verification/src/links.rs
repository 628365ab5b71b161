//! Inline links and styled segments of message text: URL detection
//! (`http(s)://`, `www.`), splitting text into plain and link spans, and
//! carving monospace-code / color-emoji ranges out of a segment list.

use vstd::prelude::*;
use crate::bridge::CodeSpan;
use std::ops::Range;
use vstd::string::StringSliceAdditionalSpecFns;
use crate::emoji::{covers_run, emoji_ranges, emoji_runs};
use crate::text::{
    byte_at, char_offsets, chars_of, is_whitespace, spec_is_whitespace, string_from_chars, sub_vec,
};

verus! {

/// Characters that terminate an inline URL (whitespace + closing
/// punctuation). `.`/`:`/`?`/`!` are not terminators (they occur inside
/// URLs); trailing ones are stripped from the match instead.
pub open spec fn spec_is_url_end(c: char) -> bool {
    spec_is_whitespace(c) || c == ',' || c == ';' || c == ')' || c == ']' || c == '}' || c == '>'
        || c == '<' || c == '"' || c == '\'' || c == '('
}

pub fn is_url_end(c: char) -> (b: bool)
    ensures
        b == spec_is_url_end(c),
{
    is_whitespace(c) || c == ',' || c == ';' || c == ')' || c == ']' || c == '}' || c == '>' || c
        == '<' || c == '"' || c == '\'' || c == '('
}

/// Sentence punctuation that is stripped from the end of a URL.
pub open spec fn is_trailing_punct(c: char) -> bool {
    c == '.' || c == ',' || c == ':' || c == ';' || c == '!' || c == '?'
}

/// `p` occurs in `cs` at index `i`.
pub open spec fn has_at(cs: Seq<char>, i: int, p: Seq<char>) -> bool {
    0 <= i && i + p.len() <= cs.len() && cs.subrange(i, i + p.len()) == p
}

/// A URL starts at `i`: `https://`, `http://` or `www.`.
pub open spec fn url_start_at(cs: Seq<char>, i: int) -> bool {
    has_at(cs, i, "https://"@) || has_at(cs, i, "http://"@) || has_at(cs, i, "www."@)
}

/// Index of the first URL start at or after `from`.
pub open spec fn first_url(cs: Seq<char>, from: int) -> Option<int>
    decreases cs.len() - from,
{
    if from < 0 || from >= cs.len() {
        None
    } else if url_start_at(cs, from) {
        Some(from)
    } else {
        first_url(cs, from + 1)
    }
}

/// First index at or after `j` holding a URL terminator (`cs.len()` if none).
pub open spec fn url_end_from(cs: Seq<char>, j: int) -> int
    decreases cs.len() - j,
{
    if j < 0 || j >= cs.len() || spec_is_url_end(cs[j]) {
        j
    } else {
        url_end_from(cs, j + 1)
    }
}

/// `b` moved back over trailing punctuation, but not below `a`.
pub open spec fn strip_punct(cs: Seq<char>, a: int, b: int) -> int
    decreases b - a,
{
    if a < b && b <= cs.len() && is_trailing_punct(cs[b - 1]) {
        strip_punct(cs, a, b - 1)
    } else {
        b
    }
}

proof fn lemma_url_end_bounds(cs: Seq<char>, j: int)
    requires
        0 <= j <= cs.len(),
    ensures
        j <= url_end_from(cs, j) <= cs.len(),
        forall|k: int| j <= k < url_end_from(cs, j) ==> !spec_is_url_end(#[trigger] cs[k]),
    decreases cs.len() - j,
{
    if j < cs.len() && !spec_is_url_end(cs[j]) {
        lemma_url_end_bounds(cs, j + 1);
    }
}

proof fn lemma_strip_bounds(cs: Seq<char>, a: int, b: int)
    requires
        0 <= a <= b <= cs.len(),
    ensures
        a <= strip_punct(cs, a, b) <= b,
    decreases b - a,
{
    if a < b && is_trailing_punct(cs[b - 1]) {
        lemma_strip_bounds(cs, a, b - 1);
    }
}

proof fn lemma_first_url_bounds(cs: Seq<char>, from: int)
    requires
        0 <= from,
    ensures
        first_url(cs, from) matches Some(i) ==> from <= i < cs.len() && url_start_at(cs, i),
        forall|k: int|
            from <= k < cs.len() && (first_url(cs, from) is None || k < first_url(cs, from)->0)
                ==> !url_start_at(cs, k),
    decreases cs.len() - from,
{
    if from < cs.len() && !url_start_at(cs, from) {
        lemma_first_url_bounds(cs, from + 1);
    }
}

/// Whether the pattern `p` (given as characters) occurs at index `i`.
pub(crate) fn has_at_exec(cs: &Vec<char>, i: usize, p: &Vec<char>) -> (b: bool)
    ensures
        b == has_at(cs@, i as int, p@),
{
    if i > cs.len() || p.len() > cs.len() - i {
        return false;
    }
    let mut k: usize = 0;
    while k < p.len()
        invariant
            k <= p.len(),
            i + p.len() <= cs.len(),
            forall|j: int| 0 <= j < k ==> cs@[i + j] == p@[j],
        decreases p.len() - k,
    {
        if cs[i + k] != p[k] {
            proof {
                assert(cs@.subrange(i as int, i + p.len())[k as int] != p@[k as int]);
            }
            return false;
        }
        k = k + 1;
    }
    proof {
        assert(cs@.subrange(i as int, i + p.len()) =~= p@);
    }
    true
}

/// The three URL openers, as characters.
struct UrlPatterns {
    https: Vec<char>,
    http: Vec<char>,
    www: Vec<char>,
}

fn url_patterns() -> (p: UrlPatterns)
    ensures
        p.https@ == "https://"@,
        p.http@ == "http://"@,
        p.www@ == "www."@,
{
    UrlPatterns { https: chars_of("https://"), http: chars_of("http://"), www: chars_of("www.") }
}

/// Char index of the first URL start at or after `from`.
fn first_url_exec(cs: &Vec<char>, from: usize, pats: &UrlPatterns) -> (r: Option<usize>)
    requires
        from <= cs.len(),
        pats.https@ == "https://"@,
        pats.http@ == "http://"@,
        pats.www@ == "www."@,
    ensures
        match r {
            Some(i) => first_url(cs@, from as int) == Some(i as int),
            None => first_url(cs@, from as int) is None,
        },
{
    let mut i = from;
    while i < cs.len()
        invariant
            from <= i <= cs.len(),
            pats.https@ == "https://"@,
            pats.http@ == "http://"@,
            pats.www@ == "www."@,
            first_url(cs@, from as int) == first_url(cs@, i as int),
        decreases cs.len() - i,
    {
        if has_at_exec(cs, i, &pats.https) || has_at_exec(cs, i, &pats.http) || has_at_exec(
            cs,
            i,
            &pats.www,
        ) {
            return Some(i);
        }
        i = i + 1;
    }
    None
}

/// Byte offset of the first inline URL in `s`, if any.
pub fn find_url(s: &str) -> (r: Option<usize>)
    ensures
        match r {
            Some(b) => first_url(s@, 0) matches Some(i) && b == byte_at(s@, i),
            None => first_url(s@, 0) is None,
        },
{
    let cs = chars_of(s);
    let offs = char_offsets(s, &cs);
    let pats = url_patterns();
    match first_url_exec(&cs, 0, &pats) {
        Some(i) => {
            proof {
                lemma_first_url_bounds(cs@, 0);
            }
            Some(offs[i])
        },
        None => None,
    }
}

/// Spans found by scanning `cs` from `p`, as `(start, end, is_link)`
/// character ranges, and where the unscanned remainder starts.
///
/// At each URL start: the URL runs to the first terminator, minus trailing
/// punctuation. It becomes a link when it is longer than 4 characters or
/// starts with `http`, preceded by the plain text before it; otherwise (a
/// bare `www.`) the text up to and including `www.` stays plain.
pub open spec fn scan_links(cs: Seq<char>, p: int) -> (Seq<(int, int, bool)>, int)
    decreases cs.len() - p,
{
    if p < 0 || p > cs.len() {
        (Seq::empty(), p)
    } else {
        match first_url(cs, p) {
            None => (Seq::empty(), p),
            Some(at) => {
                let u = strip_punct(cs, at, url_end_from(cs, at));
                if u - at > 4 || (u - at >= 4 && has_at(cs, at, "http"@)) {
                    if p < u <= cs.len() {
                        let head = if at > p {
                            seq![(p, at, false)]
                        } else {
                            Seq::empty()
                        };
                        let r = scan_links(cs, u);
                        (head + seq![(at, u, true)] + r.0, r.1)
                    } else {
                        (Seq::empty(), p)
                    }
                } else if p <= at && at + 4 <= cs.len() {
                    let r = scan_links(cs, at + 4);
                    (seq![(p, at + 4, false)] + r.0, r.1)
                } else {
                    (Seq::empty(), p)
                }
            },
        }
    }
}

/// The spans of `cs`: `None` when no link was found, otherwise the scanned
/// spans followed by the remaining plain text (when not empty).
pub open spec fn spec_linkify(cs: Seq<char>) -> Option<Seq<(int, int, bool)>> {
    let r = scan_links(cs, 0);
    if !(exists|k: int| 0 <= k < r.0.len() && (#[trigger] r.0[k]).2) {
        None
    } else if r.1 < cs.len() {
        Some(r.0.push((r.1, cs.len() as int, false)))
    } else {
        Some(r.0)
    }
}

/// A piece of message text, either plain or a clickable link (then `link`
/// holds the URL, the same text).
#[derive(Debug, Clone, PartialEq)]
pub struct LinkSpan {
    pub text: String,
    pub link: Option<String>,
}

/// `v` holds the texts of the character ranges `sp` of `cs`.
pub open spec fn spans_match(cs: Seq<char>, v: Seq<LinkSpan>, sp: Seq<(int, int, bool)>) -> bool {
    &&& v.len() == sp.len()
    &&& forall|k: int|
        0 <= k < v.len() ==> {
            &&& (#[trigger] v[k]).text@ == cs.subrange(sp[k].0, sp[k].1)
            &&& (v[k].link is Some <==> sp[k].2)
            &&& (v[k].link matches Some(l) ==> l@ == v[k].text@)
        }
}

proof fn lemma_scan_bounds(cs: Seq<char>, p: int)
    requires
        0 <= p <= cs.len(),
    ensures
        p <= scan_links(cs, p).1 <= cs.len(),
        forall|k: int|
            0 <= k < scan_links(cs, p).0.len() ==> p <= (#[trigger] scan_links(cs, p).0[k]).0
                <= scan_links(cs, p).0[k].1 <= cs.len(),
    decreases cs.len() - p,
{
    lemma_first_url_bounds(cs, p);
    match first_url(cs, p) {
        None => {},
        Some(at) => {
            lemma_url_end_bounds(cs, at);
            let m = url_end_from(cs, at);
            lemma_strip_bounds(cs, at, m);
            let u = strip_punct(cs, at, m);
            if u - at > 4 || (u - at >= 4 && has_at(cs, at, "http"@)) {
                if p < u <= cs.len() {
                    lemma_scan_bounds(cs, u);
                    let head: Seq<(int, int, bool)> = if at > p {
                        seq![(p, at, false)]
                    } else {
                        Seq::empty()
                    };
                    let r = scan_links(cs, u);
                    let all = head + seq![(at, u, true)] + r.0;
                    assert forall|k: int| 0 <= k < all.len() implies p <= (#[trigger] all[k]).0
                        <= all[k].1 <= cs.len() by {
                        if k >= head.len() + 1 {
                            assert(all[k] == r.0[k - head.len() - 1]);
                        }
                    }
                }
            } else if p <= at && at + 4 <= cs.len() {
                lemma_scan_bounds(cs, at + 4);
                let r = scan_links(cs, at + 4);
                let all = seq![(p, at + 4, false)] + r.0;
                assert forall|k: int| 0 <= k < all.len() implies p <= (#[trigger] all[k]).0
                    <= all[k].1 <= cs.len() by {
                    if k >= 1 {
                        assert(all[k] == r.0[k - 1]);
                    }
                }
            }
        },
    }
}

fn span_of(cs: &Vec<char>, a: usize, b: usize, is_link: bool) -> (sp: LinkSpan)
    requires
        a <= b <= cs.len(),
    ensures
        sp.text@ == cs@.subrange(a as int, b as int),
        sp.link is Some <==> is_link,
        sp.link matches Some(l) ==> l@ == sp.text@,
{
    let t = sub_vec(cs, a, b);
    let text = string_from_chars(&t);
    if is_link {
        LinkSpan { text, link: Some(string_from_chars(&t)) }
    } else {
        LinkSpan { text, link: None }
    }
}

/// Splits `s` into spans, turning http(s)/`www.` URLs into link spans.
///
/// `None` when `s` has no URL, so callers can keep plain text rendering.
/// (A URL's length is compared in characters; since it starts with the
/// ASCII `www.` whenever it is 4 characters or shorter, this agrees with
/// comparing its UTF-8 length.)
pub fn linkify(s: &str) -> (r: Option<Vec<LinkSpan>>)
    ensures
        match r {
            Some(v) => spec_linkify(s@) matches Some(sp) && spans_match(s@, v@, sp),
            None => spec_linkify(s@) is None,
        },
{
    let cs = chars_of(s);
    let n = cs.len();
    let pats = url_patterns();
    let http = chars_of("http");
    let mut spans: Vec<LinkSpan> = Vec::new();
    let ghost mut acc: Seq<(int, int, bool)> = Seq::empty();
    let mut found = false;
    let mut p: usize = 0;
    loop
        invariant
            p <= n,
            n == cs.len(),
            cs@ == s@,
            pats.https@ == "https://"@,
            pats.http@ == "http://"@,
            pats.www@ == "www."@,
            http@ == "http"@,
            scan_links(cs@, 0) == (acc + scan_links(cs@, p as int).0, scan_links(cs@, p as int).1),
            spans_match(cs@, spans@, acc),
            found <==> exists|k: int| 0 <= k < acc.len() && (#[trigger] acc[k]).2,
        ensures
            scan_links(cs@, p as int).0 == Seq::<(int, int, bool)>::empty(),
            scan_links(cs@, p as int).1 == p,
        decreases n - p,
    {
        let at = match first_url_exec(&cs, p, &pats) {
            Some(at) => at,
            None => {
                break;
            },
        };
        proof {
            lemma_first_url_bounds(cs@, p as int);
            lemma_url_end_bounds(cs@, at as int);
        }
        let mut m = at;
        while m < n && !is_url_end(cs[m])
            invariant
                at <= m <= n,
                n == cs.len(),
                url_end_from(cs@, at as int) == url_end_from(cs@, m as int),
            decreases n - m,
        {
            m = m + 1;
        }
        let mut u = m;
        while u > at && (cs[u - 1] == '.' || cs[u - 1] == ',' || cs[u - 1] == ':' || cs[u - 1]
            == ';' || cs[u - 1] == '!' || cs[u - 1] == '?')
            invariant
                at <= u <= m <= n,
                n == cs.len(),
                strip_punct(cs@, at as int, m as int) == strip_punct(cs@, at as int, u as int),
            decreases u,
        {
            u = u - 1;
        }
        let is_link = u - at > 4 || (u - at >= 4 && has_at_exec(&cs, at, &http));
        if is_link {
            if !(p < u) {
                break;
            }
            let ghost old_acc = acc;
            if at > p {
                spans.push(span_of(&cs, p, at, false));
                proof {
                    acc = acc.push((p as int, at as int, false));
                }
            }
            spans.push(span_of(&cs, at, u, true));
            proof {
                acc = acc.push((at as int, u as int, true));
                let head: Seq<(int, int, bool)> = if at > p {
                    seq![(p as int, at as int, false)]
                } else {
                    Seq::empty()
                };
                assert(acc =~= old_acc + head + seq![(at as int, u as int, true)]);
                assert(acc[acc.len() - 1].2);
            }
            found = true;
            p = u;
        } else {
            if !(n >= 4 && at <= n - 4) {
                break;
            }
            let ghost old_acc = acc;
            spans.push(span_of(&cs, p, at + 4, false));
            proof {
                acc = acc.push((p as int, at as int + 4, false));
                assert(found <==> exists|k: int| 0 <= k < acc.len() && (#[trigger] acc[k]).2) by {
                    if exists|k: int| 0 <= k < acc.len() && (#[trigger] acc[k]).2 {
                        let k = choose|k: int| 0 <= k < acc.len() && (#[trigger] acc[k]).2;
                        assert(k < old_acc.len());
                        assert(old_acc[k].2);
                    }
                    if found {
                        let k = choose|k: int| 0 <= k < old_acc.len() && (#[trigger] old_acc[k]).2;
                        assert(acc[k] == old_acc[k]);
                    }
                }
            }
            p = at + 4;
        }
    }
    proof {
        assert(acc + Seq::<(int, int, bool)>::empty() =~= acc);
    }
    if !found {
        return None;
    }
    if p < n {
        spans.push(span_of(&cs, p, n, false));
    }
    Some(spans)
}

/// The pieces one segment `(a, b, k)` becomes when `[s, e)` is carved with
/// style `kind`: the parts outside `[s, e)` keep `k`, the overlap takes
/// `kind` unless it already had a non-default style.
pub open spec fn carve_one(seg: (usize, usize, u8), s: usize, e: usize, kind: u8) -> Seq<(usize, usize, u8)> {
    let (a, b, k) = seg;
    if e <= a || s >= b {
        seq![seg]
    } else {
        let lo = if a > s { a } else { s };
        let hi = if b < e { b } else { e };
        (if a < s { seq![(a, s, k)] } else { Seq::empty() }) + (if lo < hi {
            seq![(lo, hi, if k != 0 { k } else { kind })]
        } else {
            Seq::empty()
        }) + (if e < b { seq![(e, b, k)] } else { Seq::empty() })
    }
}

/// Every segment of `segs` carved, in order.
pub open spec fn carve_all(segs: Seq<(usize, usize, u8)>, s: usize, e: usize, kind: u8) -> Seq<(usize, usize, u8)>
    decreases segs.len(),
{
    if segs.len() == 0 {
        Seq::empty()
    } else {
        carve_all(segs.drop_last(), s, e, kind) + carve_one(segs.last(), s, e, kind)
    }
}

/// Carve `(s, e, kind)` styled sub-ranges out of a flat segment list. Each
/// input segment is either kept whole, split on a boundary of `[s, e)`, or
/// restyled (a non-default style wins over a later carve). An empty range
/// changes nothing.
pub fn carve_segments(segs: &mut Vec<(usize, usize, u8)>, s: usize, e: usize, kind: u8)
    ensures
        s >= e ==> final(segs)@ == old(segs)@,
        s < e ==> final(segs)@ == carve_all(old(segs)@, s, e, kind),
{
    if s >= e {
        return;
    }
    let mut old: Vec<(usize, usize, u8)> = Vec::new();
    std::mem::swap(&mut old, segs);
    let mut out: Vec<(usize, usize, u8)> = Vec::new();
    let mut i: usize = 0;
    proof {
        assert(old@.take(0) =~= Seq::<(usize, usize, u8)>::empty());
    }
    while i < old.len()
        invariant
            i <= old.len(),
            s < e,
            out@ == carve_all(old@.take(i as int), s, e, kind),
        decreases old.len() - i,
    {
        let (a, b, k) = old[i];
        let ghost before = out@;
        if e <= a || s >= b {
            out.push((a, b, k));
        } else {
            if a < s {
                out.push((a, s, k));
            }
            let lo = if a > s { a } else { s };
            let hi = if b < e { b } else { e };
            if lo < hi {
                out.push((lo, hi, if k != 0 { k } else { kind }));
            }
            if e < b {
                out.push((e, b, k));
            }
        }
        proof {
            assert(old@.take(i as int + 1).drop_last() =~= old@.take(i as int));
            assert(old@.take(i as int + 1).last() == (a, b, k));
            assert(out@ =~= before + carve_one((a, b, k), s, e, kind));
        }
        i = i + 1;
    }
    proof {
        assert(old@.take(old.len() as int) =~= old@);
    }
    *segs = out;
}

/// `segs` tiles `[x, y)`: non-empty segments, each starting where the
/// previous one ends, from `x` to `y`.
pub open spec fn tiles(segs: Seq<(usize, usize, u8)>, x: int, y: int) -> bool
    decreases segs.len(),
{
    if segs.len() == 0 {
        x == y
    } else {
        segs[0].0 == x && segs[0].0 < segs[0].1 && tiles(segs.drop_first(), segs[0].1 as int, y)
    }
}

proof fn lemma_tiles_concat(p: Seq<(usize, usize, u8)>, q: Seq<(usize, usize, u8)>, x: int, m: int, y: int)
    requires
        tiles(p, x, m),
        tiles(q, m, y),
    ensures
        tiles(p + q, x, y),
    decreases p.len(),
{
    if p.len() == 0 {
        assert(p + q =~= q);
    } else {
        lemma_tiles_concat(p.drop_first(), q, p[0].1 as int, m, y);
        assert((p + q).drop_first() =~= p.drop_first() + q);
    }
}

proof fn lemma_tiles_push(p: Seq<(usize, usize, u8)>, x: int, a: usize, b: usize, k: u8)
    requires
        tiles(p, x, a as int),
        a < b,
    ensures
        tiles(p.push((a, b, k)), x, b as int),
{
    let one = seq![(a, b, k)];
    assert(one.drop_first() =~= Seq::<(usize, usize, u8)>::empty());
    assert(tiles(one.drop_first(), b as int, b as int));
    assert(tiles(one, a as int, b as int));
    lemma_tiles_concat(p, one, x, a as int, b as int);
    assert(p + one =~= p.push((a, b, k)));
}

proof fn lemma_tiles_split_last(segs: Seq<(usize, usize, u8)>, x: int, y: int)
    requires
        tiles(segs, x, y),
        segs.len() > 0,
    ensures
        tiles(segs.drop_last(), x, segs.last().0 as int),
        segs.last().0 < segs.last().1,
        segs.last().1 == y,
    decreases segs.len(),
{
    if segs.len() == 1 {
        assert(segs.drop_last() =~= Seq::<(usize, usize, u8)>::empty());
        assert(segs.drop_first() =~= Seq::<(usize, usize, u8)>::empty());
        assert(tiles(segs.drop_first(), segs[0].1 as int, y));
    } else {
        lemma_tiles_split_last(segs.drop_first(), segs[0].1 as int, y);
        assert(segs.drop_first().drop_last() =~= segs.drop_last().drop_first());
        assert(segs.drop_first().last() == segs.last());
    }
}

proof fn lemma_carve_one_tiles(a: usize, b: usize, k: u8, s: usize, e: usize, kind: u8)
    requires
        a < b,
        s < e,
    ensures
        tiles(carve_one((a, b, k), s, e, kind), a as int, b as int),
{
    let empty = Seq::<(usize, usize, u8)>::empty();
    if e <= a || s >= b {
        lemma_tiles_push(empty, a as int, a, b, k);
        assert(empty.push((a, b, k)) =~= seq![(a, b, k)]);
    } else {
        let lo = if a > s { a } else { s };
        let hi = if b < e { b } else { e };
        let k2 = if k != 0 { k } else { kind };
        let p1: Seq<(usize, usize, u8)> = if a < s { seq![(a, s, k)] } else { empty };
        if a < s {
            lemma_tiles_push(empty, a as int, a, s, k);
            assert(empty.push((a, s, k)) =~= p1);
        }
        assert(tiles(p1, a as int, lo as int));
        let p2 = p1 + (if lo < hi { seq![(lo, hi, k2)] } else { empty });
        lemma_tiles_push(p1, a as int, lo, hi, k2);
        assert(p1.push((lo, hi, k2)) =~= p2);
        let p3 = p2 + (if e < b { seq![(e, b, k)] } else { empty });
        if e < b {
            lemma_tiles_push(p2, a as int, e, b, k);
            assert(p2.push((e, b, k)) =~= p3);
        } else {
            assert(p2 + empty =~= p2);
        }
    }
}

/// Carving keeps a tiling: if the segments tile `[x, y)` before, the carved
/// segments tile `[x, y)` after (so no text is lost or duplicated).
pub proof fn lemma_carve_keeps_tiling(segs: Seq<(usize, usize, u8)>, x: int, y: int, s: usize, e: usize, kind: u8)
    requires
        tiles(segs, x, y),
        s < e,
    ensures
        tiles(carve_all(segs, s, e, kind), x, y),
    decreases segs.len(),
{
    if segs.len() > 0 {
        lemma_tiles_split_last(segs, x, y);
        let l = segs.last();
        lemma_carve_keeps_tiling(segs.drop_last(), x, l.0 as int, s, e, kind);
        lemma_carve_one_tiles(l.0, l.1, l.2, s, e, kind);
        lemma_tiles_concat(
            carve_all(segs.drop_last(), s, e, kind),
            carve_one(l, s, e, kind),
            x,
            l.0 as int,
            y,
        );
    }
}

/// The part of an inline `code` span that falls inside `[start, end)`,
/// relative to `start` (`None` for a `pre` block or no overlap).
pub open spec fn local_of(c: CodeSpan, start: usize, end: usize) -> Option<(usize, usize)> {
    if c.block is Some {
        None
    } else {
        let s = if c.start > start { c.start } else { start };
        let e = if c.end < end { c.end } else { end };
        if s < e {
            Some(((s - start) as usize, (e - start) as usize))
        } else {
            None
        }
    }
}

/// The overlaps of all inline spans of `code` with `[start, end)`, in order.
pub open spec fn spec_local_code(code: Seq<CodeSpan>, start: usize, end: usize) -> Seq<(usize, usize)>
    decreases code.len(),
{
    if code.len() == 0 {
        Seq::empty()
    } else {
        let rest = spec_local_code(code.drop_last(), start, end);
        match local_of(code.last(), start, end) {
            Some(p) => rest.push(p),
            None => rest,
        }
    }
}

/// The inline `code` spans (relative to a segment) whose byte range overlaps
/// `range`.
pub fn local_code(code: &Vec<CodeSpan>, range: &Range<usize>) -> (r: Vec<(usize, usize)>)
    ensures
        r@ == spec_local_code(code@, range.start, range.end),
{
    let mut out: Vec<(usize, usize)> = Vec::new();
    let mut i: usize = 0;
    while i < code.len()
        invariant
            i <= code.len(),
            out@ == spec_local_code(code@.take(i as int), range.start, range.end),
        decreases code.len() - i,
    {
        proof {
            assert(code@.take(i as int + 1).drop_last() =~= code@.take(i as int));
        }
        let c = &code[i];
        if c.block.is_none() {
            let s = if c.start > range.start { c.start } else { range.start };
            let e = if c.end < range.end { c.end } else { range.end };
            if s < e {
                out.push((s - range.start, e - range.start));
            }
        }
        i = i + 1;
    }
    proof {
        assert(code@.take(code.len() as int) =~= code@);
    }
    out
}

/// `c` is the `pre` block that starts the part `[start, end)`.
pub open spec fn block_of_part(c: CodeSpan, start: usize, end: usize) -> bool {
    c.block is Some && c.start == start && c.start < end && end <= c.end
}

/// Index of the first span of `code` (from `i`) that is the block of the
/// part `[start, end)`.
pub open spec fn first_block_of(code: Seq<CodeSpan>, start: usize, end: usize, i: int) -> Option<int>
    decreases code.len() - i,
{
    if i < 0 || i >= code.len() {
        None
    } else if block_of_part(code[i], start, end) {
        Some(i)
    } else {
        first_block_of(code, start, end, i + 1)
    }
}

proof fn lemma_first_block_of(code: Seq<CodeSpan>, start: usize, end: usize, i: int)
    requires
        0 <= i,
    ensures
        first_block_of(code, start, end, i) matches Some(k) ==> i <= k < code.len()
            && block_of_part(code[k], start, end),
    decreases code.len() - i,
{
    if i < code.len() && !block_of_part(code[i], start, end) {
        lemma_first_block_of(code, start, end, i + 1);
    }
}

/// The language of the `pre` block that starts the part `range`: the first
/// such block of `code`, when its language is not empty.
pub fn lang_of(code: &Vec<CodeSpan>, range: &Range<usize>) -> (r: Option<String>)
    ensures
        r == (match first_block_of(code@, range.start, range.end, 0) {
            Some(k) => if code@[k].block.unwrap()@.len() > 0 {
                code@[k].block
            } else {
                None
            },
            None => None,
        }),
{
    let mut i: usize = 0;
    while i < code.len()
        invariant
            i <= code.len(),
            first_block_of(code@, range.start, range.end, 0) == first_block_of(
                code@,
                range.start,
                range.end,
                i as int,
            ),
        decreases code.len() - i,
    {
        let c = &code[i];
        if c.block.is_some() && c.start == range.start && c.start < range.end && range.end <= c.end {
            proof {
                lemma_first_block_of(code@, range.start, range.end, i as int);
            }
            match &c.block {
                Some(l) => {
                    if !l.as_str().is_empty() {
                        return Some(l.clone());
                    } else {
                        return None;
                    }
                },
                None => {
                    return None;
                },
            }
        }
        i = i + 1;
    }
    None
}

/// `ps` splits `[x, y)`: non-empty parts, each starting where the previous
/// one ends, from `x` to `y`.
pub open spec fn covers(ps: Seq<(int, int, bool)>, x: int, y: int) -> bool
    decreases ps.len(),
{
    if ps.len() == 0 {
        x == y
    } else {
        ps[0].0 == x && ps[0].0 < ps[0].1 && covers(ps.drop_first(), ps[0].1, y)
    }
}

proof fn lemma_covers_push(ps: Seq<(int, int, bool)>, x: int, a: int, b: int, k: bool)
    requires
        covers(ps, x, a),
        a < b,
    ensures
        covers(ps.push((a, b, k)), x, b),
    decreases ps.len(),
{
    let q = ps.push((a, b, k));
    if ps.len() == 0 {
        assert(q.drop_first() =~= Seq::<(int, int, bool)>::empty());
        assert(covers(q.drop_first(), b, b));
    } else {
        lemma_covers_push(ps.drop_first(), ps[0].1, a, b, k);
        assert(q.drop_first() =~= ps.drop_first().push((a, b, k)));
    }
}

/// A `(range, flag)` part as plain integers.
pub open spec fn part_view(p: (Range<usize>, bool)) -> (int, int, bool) {
    (p.0.start as int, p.0.end as int, p.1)
}

/// Scan of the `pre` blocks of `code` over a text of `tlen` bytes: the parts
/// found so far and the cursor after them. A block is skipped when it is
/// inline, starts before the cursor, is empty or ends past the text.
pub open spec fn parts_scan(code: Seq<CodeSpan>, tlen: int) -> (Seq<(int, int, bool)>, int)
    decreases code.len(),
{
    if code.len() == 0 {
        (Seq::empty(), 0)
    } else {
        let r = parts_scan(code.drop_last(), tlen);
        let c = code.last();
        if c.block is None || c.start < r.1 || c.end <= c.start || c.end > tlen {
            r
        } else {
            let head = if c.start > r.1 {
                r.0.push((r.1, c.start as int, false))
            } else {
                r.0
            };
            (head.push((c.start as int, c.end as int, true)), c.end as int)
        }
    }
}

/// The parts of a message text: text runs (`false`) alternating with `pre`
/// blocks (`true`), with the text after the last block.
pub open spec fn spec_body_parts(code: Seq<CodeSpan>, tlen: int) -> Seq<(int, int, bool)> {
    let r = parts_scan(code, tlen);
    if r.1 < tlen {
        r.0.push((r.1, tlen, false))
    } else {
        r.0
    }
}

proof fn lemma_parts_scan(code: Seq<CodeSpan>, tlen: int)
    requires
        tlen >= 0,
    ensures
        0 <= parts_scan(code, tlen).1 <= tlen,
        covers(parts_scan(code, tlen).0, 0, parts_scan(code, tlen).1),
    decreases code.len(),
{
    if code.len() > 0 {
        lemma_parts_scan(code.drop_last(), tlen);
        let r = parts_scan(code.drop_last(), tlen);
        let c = code.last();
        if !(c.block is None || c.start < r.1 || c.end <= c.start || c.end > tlen) {
            if c.start > r.1 {
                lemma_covers_push(r.0, 0, r.1, c.start as int, false);
                lemma_covers_push(r.0.push((r.1, c.start as int, false)), 0, c.start as int, c.end as int, true);
            } else {
                lemma_covers_push(r.0, 0, r.1, c.end as int, true);
            }
        }
    }
}

/// The parts of a message text split the whole text, in order, without gap
/// or overlap.
pub proof fn lemma_body_parts_cover(code: Seq<CodeSpan>, tlen: int)
    requires
        tlen >= 0,
    ensures
        covers(spec_body_parts(code, tlen), 0, tlen),
{
    lemma_parts_scan(code, tlen);
    let r = parts_scan(code, tlen);
    if r.1 < tlen {
        lemma_covers_push(r.0, 0, r.1, tlen, false);
    }
}

/// Split a message text of `t` around its `pre` (block) entities into
/// alternating text / block parts (byte ranges of `t`).
pub fn body_parts(t: &str, code: &Vec<CodeSpan>) -> (parts: Vec<(Range<usize>, bool)>)
    ensures
        parts@.map_values(|p: (Range<usize>, bool)| part_view(p)) == spec_body_parts(
            code@,
            t.spec_bytes().len() as int,
        ),
{
    let tlen = t.as_bytes().len();
    let ghost n = tlen as int;
    let mut parts: Vec<(Range<usize>, bool)> = Vec::new();
    let mut cursor: usize = 0;
    let mut i: usize = 0;
    while i < code.len()
        invariant
            i <= code.len(),
            n == tlen,
            tlen == t.spec_bytes().len(),
            parts_scan(code@.take(i as int), n) == (
                parts@.map_values(|p: (Range<usize>, bool)| part_view(p)),
                cursor as int,
            ),
        decreases code.len() - i,
    {
        proof {
            assert(code@.take(i as int + 1).drop_last() =~= code@.take(i as int));
        }
        let c = &code[i];
        if !(c.block.is_none() || c.start < cursor || c.end <= c.start || c.end > tlen) {
            if c.start > cursor {
                parts.push((Range { start: cursor, end: c.start }, false));
            }
            parts.push((Range { start: c.start, end: c.end }, true));
            cursor = c.end;
        }
        proof {
            assert(parts_scan(code@.take(i as int + 1), n).0 =~= parts@.map_values(
                |p: (Range<usize>, bool)| part_view(p),
            ));
        }
        i = i + 1;
    }
    proof {
        assert(code@.take(code.len() as int) =~= code@);
    }
    if cursor < tlen {
        parts.push((Range { start: cursor, end: tlen }, false));
    }
    proof {
        assert(spec_body_parts(code@, n) =~= parts@.map_values(
            |p: (Range<usize>, bool)| part_view(p),
        ));
    }
    parts
}

/// Byte ranges of the emoji runs of `cs`.
pub open spec fn emoji_byte_runs(cs: Seq<char>) -> Seq<(int, int)> {
    Seq::new(
        emoji_runs(cs).len(),
        |k: int| (byte_at(cs, emoji_runs(cs)[k].0) as int, byte_at(cs, emoji_runs(cs)[k].1) as int),
    )
}

/// Ranges `runs` are non-empty, in order, apart and within `[0, len)`.
pub open spec fn runs_ordered(runs: Seq<(int, int)>, len: int) -> bool {
    &&& forall|k: int| 0 <= k < runs.len() ==> 0 <= (#[trigger] runs[k]).0 < runs[k].1 <= len
    &&& forall|k: int, l: int| 0 <= k < l < runs.len() ==> (#[trigger] runs[k]).1 <= (#[trigger] runs[l]).0
}

/// Parts of a text before and around the ranges `runs` (`true` for a run),
/// and where the last run ends.
pub open spec fn gap_split(runs: Seq<(int, int)>) -> (Seq<(int, int, bool)>, int)
    decreases runs.len(),
{
    if runs.len() == 0 {
        (Seq::empty(), 0)
    } else {
        let r = gap_split(runs.drop_last());
        let run = runs.last();
        let head = if run.0 > r.1 {
            r.0.push((r.1, run.0, false))
        } else {
            r.0
        };
        (head.push((run.0, run.1, true)), run.1)
    }
}

/// The parts of a one-line label of `len` bytes with emoji runs `runs`:
/// the runs and the text around them.
pub open spec fn line_split(runs: Seq<(int, int)>, len: int) -> Seq<(int, int, bool)> {
    let r = gap_split(runs);
    if r.1 < len {
        r.0.push((r.1, len, false))
    } else {
        r.0
    }
}

proof fn lemma_gap_split(runs: Seq<(int, int)>, len: int)
    requires
        0 <= len,
        runs_ordered(runs, len),
    ensures
        covers(gap_split(runs).0, 0, gap_split(runs).1),
        0 <= gap_split(runs).1 <= len,
        runs.len() > 0 ==> gap_split(runs).1 == runs.last().1,
    decreases runs.len(),
{
    if runs.len() > 0 {
        let init = runs.drop_last();
        assert(runs_ordered(init, len)) by {
            assert forall|k: int, l: int| 0 <= k < l < init.len() implies (#[trigger] init[k]).1
                <= (#[trigger] init[l]).0 by {
                assert(init[k] == runs[k] && init[l] == runs[l]);
            }
            assert forall|k: int| 0 <= k < init.len() implies 0 <= (#[trigger] init[k]).0
                < init[k].1 <= len by {
                assert(init[k] == runs[k]);
            }
        }
        lemma_gap_split(init, len);
        let r = gap_split(init);
        let run = runs.last();
        assert(0 <= run.0 < run.1 <= len) by {
            assert(runs[runs.len() - 1] == run);
        }
        if init.len() > 0 {
            assert(init.last() == runs[runs.len() - 2]);
            assert(runs[runs.len() - 2].1 <= runs[runs.len() - 1].0);
        }
        if run.0 > r.1 {
            lemma_covers_push(r.0, 0, r.1, run.0, false);
            lemma_covers_push(r.0.push((r.1, run.0, false)), 0, run.0, run.1, true);
        } else {
            lemma_covers_push(r.0, 0, r.1, run.1, true);
        }
    }
}

/// The parts of a one-line label split the whole label, in order, without
/// gap or overlap.
pub proof fn lemma_line_split_covers(runs: Seq<(int, int)>, len: int)
    requires
        0 <= len,
        runs_ordered(runs, len),
    ensures
        covers(line_split(runs, len), 0, len),
{
    lemma_gap_split(runs, len);
    let r = gap_split(runs);
    if r.1 < len {
        lemma_covers_push(r.0, 0, r.1, len, false);
    }
}

/// One-line list-row text (chat names / previews) split into emoji runs
/// (`true`, drawn with the color-emoji font) and the text around them;
/// `None` when there is no emoji, so callers keep plain text.
pub fn line_segments(t: &str) -> (r: Option<Vec<(Range<usize>, bool)>>)
    ensures
        r is None <==> emoji_runs(t@).len() == 0,
        r matches Some(v) ==> v@.map_values(|p: (Range<usize>, bool)| part_view(p)) == line_split(
            emoji_byte_runs(t@),
            t.spec_bytes().len() as int,
        ),
        r matches Some(v) ==> covers(
            v@.map_values(|p: (Range<usize>, bool)| part_view(p)),
            0,
            t.spec_bytes().len() as int,
        ),
{
    let ranges = emoji_ranges(t);
    if ranges.len() == 0 {
        return None;
    }
    let tlen = t.as_bytes().len();
    let ghost n = tlen as int;
    let ghost rv = emoji_byte_runs(t@);
    assert(runs_ordered(rv, n)) by {
        assert forall|k: int| 0 <= k < rv.len() implies 0 <= (#[trigger] rv[k]).0 < rv[k].1 <= n by {
            assert(covers_run(t@, ranges@[k], emoji_runs(t@)[k]));
        }
        assert forall|k: int, l: int| 0 <= k < l < rv.len() implies (#[trigger] rv[k]).1
            <= (#[trigger] rv[l]).0 by {
            assert(covers_run(t@, ranges@[k], emoji_runs(t@)[k]));
            assert(covers_run(t@, ranges@[l], emoji_runs(t@)[l]));
            assert(ranges@[k].end <= ranges@[l].start);
        }
    }
    let mut parts: Vec<(Range<usize>, bool)> = Vec::new();
    let mut cursor: usize = 0;
    let mut i: usize = 0;
    while i < ranges.len()
        invariant
            i <= ranges.len(),
            ranges.len() == emoji_runs(t@).len(),
            rv == emoji_byte_runs(t@),
            forall|k: int|
                0 <= k < ranges.len() ==> covers_run(t@, #[trigger] ranges@[k], emoji_runs(t@)[k]),
            gap_split(rv.take(i as int)) == (
                parts@.map_values(|p: (Range<usize>, bool)| part_view(p)),
                cursor as int,
            ),
        decreases ranges.len() - i,
    {
        proof {
            assert(rv.take(i as int + 1).drop_last() =~= rv.take(i as int));
            assert(covers_run(t@, ranges@[i as int], emoji_runs(t@)[i as int]));
            assert(rv.take(i as int + 1).last() == (ranges@[i as int].start as int, ranges@[i as int].end as int));
        }
        let st = ranges[i].start;
        let en = ranges[i].end;
        if st > cursor {
            parts.push((Range { start: cursor, end: st }, false));
        }
        parts.push((Range { start: st, end: en }, true));
        cursor = en;
        proof {
            assert(gap_split(rv.take(i as int + 1)).0 =~= parts@.map_values(
                |p: (Range<usize>, bool)| part_view(p),
            ));
        }
        i = i + 1;
    }
    proof {
        assert(rv.take(ranges.len() as int) =~= rv);
    }
    if cursor < tlen {
        parts.push((Range { start: cursor, end: tlen }, false));
    }
    proof {
        assert(line_split(rv, n) =~= parts@.map_values(|p: (Range<usize>, bool)| part_view(p)));
        lemma_line_split_covers(rv, n);
    }
    Some(parts)
}

/// `segs` with the code ranges `code` (clamped to `len`) carved as
/// monospace (style 1), in order.
pub open spec fn carve_code(segs: Seq<(usize, usize, u8)>, code: Seq<(usize, usize)>, len: usize) -> Seq<(usize, usize, u8)>
    decreases code.len(),
{
    if code.len() == 0 {
        segs
    } else {
        let prev = carve_code(segs, code.drop_last(), len);
        let s = if code.last().0 < len { code.last().0 } else { len };
        let e = if code.last().1 < len { code.last().1 } else { len };
        if s < e {
            carve_all(prev, s, e, 1)
        } else {
            prev
        }
    }
}

/// `segs` with the emoji runs `runs` carved as color emoji (style 2), in
/// order.
pub open spec fn carve_runs(segs: Seq<(usize, usize, u8)>, runs: Seq<(int, int)>) -> Seq<(usize, usize, u8)>
    decreases runs.len(),
{
    if runs.len() == 0 {
        segs
    } else {
        let prev = carve_runs(segs, runs.drop_last());
        if (runs.last().0 as usize) < (runs.last().1 as usize) {
            carve_all(prev, runs.last().0 as usize, runs.last().1 as usize, 2)
        } else {
            prev
        }
    }
}

/// The styled segments of a message text of `len` bytes with characters
/// `cs` and inline code ranges `code`: `None` when there is neither code nor
/// emoji (the text then only needs link detection).
pub open spec fn spec_body_segments(cs: Seq<char>, len: usize, code: Seq<(usize, usize)>) -> Option<Seq<(usize, usize, u8)>> {
    if emoji_runs(cs).len() == 0 && code.len() == 0 {
        None
    } else {
        Some(carve_runs(carve_code(seq![(0usize, len, 0u8)], code, len), emoji_byte_runs(cs)))
    }
}

proof fn lemma_carve_code_tiles(segs: Seq<(usize, usize, u8)>, code: Seq<(usize, usize)>, len: usize)
    requires
        tiles(segs, 0, len as int),
    ensures
        tiles(carve_code(segs, code, len), 0, len as int),
    decreases code.len(),
{
    if code.len() > 0 {
        lemma_carve_code_tiles(segs, code.drop_last(), len);
        let s = if code.last().0 < len { code.last().0 } else { len };
        let e = if code.last().1 < len { code.last().1 } else { len };
        if s < e {
            lemma_carve_keeps_tiling(carve_code(segs, code.drop_last(), len), 0, len as int, s, e, 1);
        }
    }
}

proof fn lemma_carve_runs_tiles(segs: Seq<(usize, usize, u8)>, runs: Seq<(int, int)>, len: int)
    requires
        tiles(segs, 0, len),
    ensures
        tiles(carve_runs(segs, runs), 0, len),
    decreases runs.len(),
{
    if runs.len() > 0 {
        lemma_carve_runs_tiles(segs, runs.drop_last(), len);
        if (runs.last().0 as usize) < (runs.last().1 as usize) {
            lemma_carve_keeps_tiling(
                carve_runs(segs, runs.drop_last()),
                0,
                len,
                runs.last().0 as usize,
                runs.last().1 as usize,
                2,
            );
        }
    }
}

/// The styled segments of a non-empty message text split the whole text, in
/// order, without gap or overlap.
pub proof fn lemma_body_segments_tile(cs: Seq<char>, len: usize, code: Seq<(usize, usize)>)
    requires
        len > 0,
        emoji_runs(cs).len() > 0 || code.len() > 0,
    ensures
        spec_body_segments(cs, len, code) matches Some(v) && tiles(v, 0, len as int),
{
    let one = seq![(0usize, len, 0u8)];
    assert(one.drop_first() =~= Seq::<(usize, usize, u8)>::empty());
    assert(tiles(one.drop_first(), len as int, len as int));
    assert(tiles(one, 0, len as int));
    lemma_carve_code_tiles(one, code, len);
    lemma_carve_runs_tiles(carve_code(one, code, len), emoji_byte_runs(cs), len as int);
}

/// Message body / caption styling: the text `t` as segments of style 0
/// (plain, still to be scanned for links), 1 (inline code, from the byte
/// ranges `code`) or 2 (color emoji). `None` when the text has no code and
/// no emoji.
pub fn body_segments(t: &str, code: &Vec<(usize, usize)>) -> (r: Option<Vec<(usize, usize, u8)>>)
    ensures
        match r {
            Some(v) => spec_body_segments(t@, t.spec_bytes().len() as usize, code@) == Some(v@),
            None => spec_body_segments(t@, t.spec_bytes().len() as usize, code@) is None,
        },
{
    let ranges = emoji_ranges(t);
    if ranges.len() == 0 && code.len() == 0 {
        return None;
    }
    let tlen = t.as_bytes().len();
    assert(tlen == t.spec_bytes().len());
    let ghost rv = emoji_byte_runs(t@);
    let mut segs: Vec<(usize, usize, u8)> = vec![(0, tlen, 0)];
    let ghost start = segs@;
    let mut i: usize = 0;
    proof {
        assert(code@.take(0) =~= Seq::<(usize, usize)>::empty());
    }
    while i < code.len()
        invariant
            i <= code.len(),
            start == seq![(0usize, tlen, 0u8)],
            segs@ == carve_code(start, code@.take(i as int), tlen),
        decreases code.len() - i,
    {
        proof {
            assert(code@.take(i as int + 1).drop_last() =~= code@.take(i as int));
        }
        let (s, e) = code[i];
        let s2 = if s < tlen { s } else { tlen };
        let e2 = if e < tlen { e } else { tlen };
        carve_segments(&mut segs, s2, e2, 1);
        i = i + 1;
    }
    proof {
        assert(code@.take(code.len() as int) =~= code@);
    }
    let ghost mid = segs@;
    let mut j: usize = 0;
    proof {
        assert(rv.take(0) =~= Seq::<(int, int)>::empty());
    }
    while j < ranges.len()
        invariant
            j <= ranges.len(),
            ranges.len() == emoji_runs(t@).len(),
            rv == emoji_byte_runs(t@),
            forall|k: int|
                0 <= k < ranges.len() ==> covers_run(t@, #[trigger] ranges@[k], emoji_runs(t@)[k]),
            segs@ == carve_runs(mid, rv.take(j as int)),
        decreases ranges.len() - j,
    {
        proof {
            assert(rv.take(j as int + 1).drop_last() =~= rv.take(j as int));
            assert(covers_run(t@, ranges@[j as int], emoji_runs(t@)[j as int]));
            assert(rv.take(j as int + 1).last() == (ranges@[j as int].start as int, ranges@[j as int].end as int));
        }
        let st = ranges[j].start;
        let en = ranges[j].end;
        carve_segments(&mut segs, st, en, 2);
        j = j + 1;
    }
    proof {
        assert(rv.take(ranges.len() as int) =~= rv);
    }
    Some(segs)
}

proof fn lemma_covers_concat(a: Seq<(int, int, bool)>, b: Seq<(int, int, bool)>, x: int, m: int, y: int)
    requires
        covers(a, x, m),
        covers(b, m, y),
    ensures
        covers(a + b, x, y),
    decreases a.len(),
{
    if a.len() == 0 {
        assert(a + b =~= b);
    } else {
        lemma_covers_concat(a.drop_first(), b, a[0].1, m, y);
        assert((a + b).drop_first() =~= a.drop_first() + b);
    }
}

proof fn lemma_covers_one(a: int, b: int, k: bool)
    requires
        a < b,
    ensures
        covers(seq![(a, b, k)], a, b),
{
    let one = seq![(a, b, k)];
    assert(one.drop_first() =~= Seq::<(int, int, bool)>::empty());
    assert(covers(one.drop_first(), b, b));
}

proof fn lemma_scan_covers(cs: Seq<char>, p: int)
    requires
        0 <= p <= cs.len(),
    ensures
        covers(scan_links(cs, p).0, p, scan_links(cs, p).1),
    decreases cs.len() - p,
{
    lemma_first_url_bounds(cs, p);
    match first_url(cs, p) {
        None => {},
        Some(at) => {
            lemma_url_end_bounds(cs, at);
            let m = url_end_from(cs, at);
            lemma_strip_bounds(cs, at, m);
            let u = strip_punct(cs, at, m);
            if u - at > 4 || (u - at >= 4 && has_at(cs, at, "http"@)) {
                if p < u <= cs.len() {
                    lemma_scan_covers(cs, u);
                    let r = scan_links(cs, u);
                    let head: Seq<(int, int, bool)> = if at > p {
                        seq![(p, at, false)]
                    } else {
                        Seq::empty()
                    };
                    if at > p {
                        lemma_covers_one(p, at, false);
                    }
                    lemma_covers_one(at, u, true);
                    lemma_covers_concat(head, seq![(at, u, true)], p, at, u);
                    lemma_covers_concat(head + seq![(at, u, true)], r.0, p, u, r.1);
                }
            } else if p <= at && at + 4 <= cs.len() {
                lemma_scan_covers(cs, at + 4);
                let r = scan_links(cs, at + 4);
                lemma_covers_one(p, at + 4, false);
                lemma_covers_concat(seq![(p, at + 4, false)], r.0, p, at + 4, r.1);
            }
        },
    }
}

/// The spans of a linkified text split the whole text, in order, without
/// gap or overlap: no character is lost or repeated.
pub proof fn lemma_linkify_covers(cs: Seq<char>)
    ensures
        spec_linkify(cs) matches Some(sp) ==> covers(sp, 0, cs.len() as int),
{
    lemma_scan_covers(cs, 0);
    lemma_scan_bounds(cs, 0);
    let r = scan_links(cs, 0);
    if r.1 < cs.len() {
        lemma_covers_push(r.0, 0, r.1, cs.len() as int, false);
    }
}

proof fn lemma_strip_clean(cs: Seq<char>, a: int, b: int)
    requires
        0 <= a <= b <= cs.len(),
        a < strip_punct(cs, a, b),
    ensures
        !is_trailing_punct(cs[strip_punct(cs, a, b) - 1]),
    decreases b - a,
{
    if a < b && is_trailing_punct(cs[b - 1]) {
        lemma_strip_clean(cs, a, b - 1);
    }
}

proof fn lemma_scan_links_clean(cs: Seq<char>, p: int)
    requires
        0 <= p <= cs.len(),
    ensures
        forall|k: int|
            0 <= k < scan_links(cs, p).0.len() && (#[trigger] scan_links(cs, p).0[k]).2 ==> {
                let sp = scan_links(cs, p).0[k];
                &&& 0 <= sp.0 < sp.1 <= cs.len()
                &&& !is_trailing_punct(cs[sp.1 - 1])
            },
    decreases cs.len() - p,
{
    lemma_first_url_bounds(cs, p);
    match first_url(cs, p) {
        None => {},
        Some(at) => {
            lemma_url_end_bounds(cs, at);
            let m = url_end_from(cs, at);
            lemma_strip_bounds(cs, at, m);
            let u = strip_punct(cs, at, m);
            if u - at > 4 || (u - at >= 4 && has_at(cs, at, "http"@)) {
                if p < u <= cs.len() {
                    lemma_strip_clean(cs, at, m);
                    lemma_scan_links_clean(cs, u);
                    let head: Seq<(int, int, bool)> = if at > p {
                        seq![(p, at, false)]
                    } else {
                        Seq::empty()
                    };
                    let r = scan_links(cs, u);
                    let all = head + seq![(at, u, true)] + r.0;
                    assert forall|k: int| 0 <= k < all.len() && (#[trigger] all[k]).2 implies {
                        let sp = all[k];
                        &&& 0 <= sp.0 < sp.1 <= cs.len()
                        &&& !is_trailing_punct(cs[sp.1 - 1])
                    } by {
                        if k >= head.len() + 1 {
                            assert(all[k] == r.0[k - head.len() - 1]);
                        }
                    }
                }
            } else if p <= at && at + 4 <= cs.len() {
                lemma_scan_links_clean(cs, at + 4);
                let r = scan_links(cs, at + 4);
                let all = seq![(p, at + 4, false)] + r.0;
                assert forall|k: int| 0 <= k < all.len() && (#[trigger] all[k]).2 implies {
                    let sp = all[k];
                    &&& 0 <= sp.0 < sp.1 <= cs.len()
                    &&& !is_trailing_punct(cs[sp.1 - 1])
                } by {
                    assert(all[k] == r.0[k - 1]);
                }
            }
        },
    }
}

/// A link never ends in sentence punctuation: in the spans of a linkified
/// text, every link is non-empty and its last character is none of
/// `. , : ; ! ?` (such trailing characters go to the following plain
/// span), so "see https://x.io?" links exactly "https://x.io".
pub proof fn lemma_links_end_clean(cs: Seq<char>, v: Seq<LinkSpan>)
    requires
        spec_linkify(cs) matches Some(sp) && spans_match(cs, v, sp),
    ensures
        forall|k: int|
            0 <= k < v.len() && (#[trigger] v[k]).link is Some ==> {
                let u = v[k].link->0@;
                &&& u.len() > 0
                &&& u.last() != '.' && u.last() != ',' && u.last() != ':'
                &&& u.last() != ';' && u.last() != '!' && u.last() != '?'
            },
{
    lemma_scan_links_clean(cs, 0);
    lemma_scan_bounds(cs, 0);
    let sp = spec_linkify(cs)->0;
    let r = scan_links(cs, 0);
    assert forall|k: int| 0 <= k < v.len() && (#[trigger] v[k]).link is Some implies {
        let u = v[k].link->0@;
        &&& u.len() > 0
        &&& u.last() != '.' && u.last() != ',' && u.last() != ':'
        &&& u.last() != ';' && u.last() != '!' && u.last() != '?'
    } by {
        assert(sp[k].2);
        if k < r.0.len() {
            assert(sp[k] == r.0[k]);
        }
        let t = sp[k];
        let u = v[k].link->0@;
        assert(u == cs.subrange(t.0, t.1));
        assert(u.last() == cs[t.1 - 1]);
    }
}

} // verus!
