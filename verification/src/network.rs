//! Network-side decisions that do not touch the network: request ordering,
//! configuration (`.env` lines, API credentials) and the canned data of the
//! offline demo backend.

use vstd::prelude::*;
use crate::bridge::{ChatDetail, ChatKind, ParticipantRole, ParticipantRow, Request};
use crate::format::{parse_i32, spec_parse_i32};
use crate::text::{
    index_of_from, lemma_index_of_from, spec_trim, split_lines, split_lines_of, string_from_chars,
    chars_of, push_str, sub_vec, trim_chars, trim_seq,
};

verus! {

/// `r` opens a chat (loads its history).
pub open spec fn is_open_chat(r: Request) -> bool {
    r is OpenChat
}

pub open spec fn open_pred() -> spec_fn(Request) -> bool {
    |r: Request| is_open_chat(r)
}

pub open spec fn other_pred() -> spec_fn(Request) -> bool {
    |r: Request| !is_open_chat(r)
}

/// `pending` with every `OpenChat` moved to the front; both groups keep
/// their relative order.
pub open spec fn spec_prioritized(pending: Seq<Request>) -> Seq<Request> {
    pending.filter(open_pred()) + pending.filter(other_pred())
}

/// Order used by the network loop so `OpenChat` (history loading) is always
/// handled before slower background work (avatar downloads) in the same
/// batch. Stable: requests of each group keep their order.
pub fn prioritize(pending: &mut Vec<Request>)
    ensures
        final(pending)@ == spec_prioritized(old(pending)@),
{
    let ghost orig = pending@;
    let mut all: Vec<Request> = Vec::new();
    std::mem::swap(&mut all, pending);
    let mut opens: Vec<Request> = Vec::new();
    let mut others: Vec<Request> = Vec::new();
    let ghost pred_open = open_pred();
    let ghost pred_other = other_pred();
    let n = all.len();
    let mut k: usize = 0;
    assert(orig.take(0) =~= Seq::<Request>::empty());
    assert(Seq::<Request>::empty().filter(pred_open) =~= Seq::<Request>::empty()) by {
        reveal(Seq::filter);
    }
    assert(Seq::<Request>::empty().filter(pred_other) =~= Seq::<Request>::empty()) by {
        reveal(Seq::filter);
    }
    while all.len() > 0
        invariant
            orig.len() == n,
            pred_open == open_pred(),
            pred_other == other_pred(),
            k + all.len() == n,
            all@ == orig.skip(k as int),
            opens@ == orig.take(k as int).filter(pred_open),
            others@ == orig.take(k as int).filter(pred_other),
        decreases all.len(),
    {
        let r = all.remove(0);
        proof {
            assert(orig.take(k as int + 1) =~= orig.take(k as int).push(r));
            orig.take(k as int).lemma_filter_push(r, pred_open);
            orig.take(k as int).lemma_filter_push(r, pred_other);
            assert(all@ =~= orig.skip(k as int + 1));
        }
        let is_open = match &r {
            Request::OpenChat { .. } => true,
            _ => false,
        };
        if is_open {
            assert(pred_open(r) && !pred_other(r));
            opens.push(r);
        } else {
            assert(!pred_open(r) && pred_other(r));
            others.push(r);
        }
        k = k + 1;
    }
    proof {
        assert(orig.take(n as int) =~= orig);
    }
    opens.append(&mut others);
    *pending = opens;
}

/// Queued searches as (mode, query) pairs of plain values.
pub open spec fn searches_view(v: Seq<(Option<i64>, String)>) -> Seq<(Option<i64>, Seq<char>)> {
    v.map_values(|p: (Option<i64>, String)| (p.0, p.1@))
}

/// `q` without the searches of mode `id`, in order.
pub open spec fn without_mode(q: Seq<(Option<i64>, Seq<char>)>, id: Option<i64>) -> Seq<(Option<i64>, Seq<char>)>
    decreases q.len(),
{
    if q.len() == 0 {
        q
    } else {
        let rest = without_mode(q.drop_last(), id);
        if q.last().0 == id {
            rest
        } else {
            rest.push(q.last())
        }
    }
}

/// One batch of requests split for the network loop: the interactive
/// requests in their order, and the searches, one per mode, each the latest
/// query of its mode with surrounding whitespace removed, ordered by when
/// that latest query came.
pub open spec fn coalesced(s: Seq<Request>) -> (Seq<Request>, Seq<(Option<i64>, Seq<char>)>)
    decreases s.len(),
{
    if s.len() == 0 {
        (Seq::empty(), Seq::empty())
    } else {
        let prev = coalesced(s.drop_last());
        match s.last() {
            Request::Search { id, query } => (
                prev.0,
                without_mode(prev.1, id).push((id, spec_trim(query@))),
            ),
            r => (prev.0.push(r), prev.1),
        }
    }
}

fn drop_mode(searches: Vec<(Option<i64>, String)>, id: Option<i64>) -> (r: Vec<(Option<i64>, String)>)
    ensures
        searches_view(r@) == without_mode(searches_view(searches@), id),
{
    let ghost orig = searches@;
    let mut rest = searches;
    let mut kept: Vec<(Option<i64>, String)> = Vec::new();
    let ghost mut k: int = 0;
    assert(searches_view(orig.take(0)) =~= Seq::<(Option<i64>, Seq<char>)>::empty());
    while rest.len() > 0
        invariant
            0 <= k <= orig.len(),
            rest@ == orig.skip(k),
            searches_view(kept@) == without_mode(searches_view(orig.take(k)), id),
        decreases rest.len(),
    {
        let p = rest.remove(0);
        proof {
            assert(orig.take(k + 1) =~= orig.take(k).push(p));
            assert(searches_view(orig.take(k + 1)) =~= searches_view(orig.take(k)).push((p.0, p.1@)));
            assert(searches_view(orig.take(k + 1)).drop_last() =~= searches_view(orig.take(k)));
            assert(rest@ =~= orig.skip(k + 1));
        }
        if p.0 != id {
            proof {
                assert(searches_view(kept@.push(p)) =~= searches_view(kept@).push((p.0, p.1@)));
            }
            kept.push(p);
        }
        proof {
            k = k + 1;
        }
    }
    proof {
        assert(orig.take(k) =~= orig);
    }
    kept
}

/// Splits one batch of requests for the network loop (the UI sends a search
/// per keystroke): the other requests keep their order, and of the searches
/// only the latest trimmed query of each mode is kept.
pub fn coalesce_requests(pending: Vec<Request>) -> (r: (Vec<Request>, Vec<(Option<i64>, String)>))
    ensures
        r.0@ == coalesced(pending@).0,
        searches_view(r.1@) == coalesced(pending@).1,
{
    let ghost orig = pending@;
    let mut rest = pending;
    let mut others: Vec<Request> = Vec::new();
    let mut searches: Vec<(Option<i64>, String)> = Vec::new();
    let ghost mut k: int = 0;
    assert(orig.take(0) =~= Seq::<Request>::empty());
    assert(searches_view(searches@) =~= Seq::<(Option<i64>, Seq<char>)>::empty());
    while rest.len() > 0
        invariant
            0 <= k <= orig.len(),
            rest@ == orig.skip(k),
            others@ == coalesced(orig.take(k)).0,
            searches_view(searches@) == coalesced(orig.take(k)).1,
        decreases rest.len(),
    {
        let r = rest.remove(0);
        proof {
            assert(orig.take(k + 1) =~= orig.take(k).push(r));
            assert(orig.take(k + 1).drop_last() =~= orig.take(k));
            assert(rest@ =~= orig.skip(k + 1));
        }
        match r {
            Request::Search { id, query } => {
                let q = string_from_chars(&trim_chars(query.as_str()));
                searches = drop_mode(searches, id);
                proof {
                    assert(searches_view(searches@.push((id, q))) =~= searches_view(searches@).push((id, q@)));
                }
                searches.push((id, q));
            },
            other => {
                others.push(other);
            },
        }
        proof {
            k = k + 1;
        }
    }
    proof {
        assert(orig.take(k) =~= orig);
    }
    (others, searches)
}

/// How long, in milliseconds, the network loop waits before running the
/// same search (same mode, same query) again.
pub const SEARCH_THROTTLE_MS: u64 = 400;

/// Whether the network loop skips the search `(mode, query)`: the last
/// search it ran, `elapsed_ms` ago, was the same one, within the throttle
/// window.
pub fn search_throttled(last: &Option<(Option<i64>, String)>, elapsed_ms: u64, mode: Option<i64>, query: &String) -> (b: bool)
    ensures
        b == (last matches Some(l) && l.0 == mode && l.1@ == query@ && elapsed_ms < SEARCH_THROTTLE_MS),
{
    match last {
        Some(l) => l.0 == mode && l.1 == *query && elapsed_ms < SEARCH_THROTTLE_MS,
        None => false,
    }
}

/// No two searches in `q` share a mode.
pub open spec fn distinct_modes(q: Seq<(Option<i64>, Seq<char>)>) -> bool {
    forall|i: int, j: int| 0 <= i < j < q.len() ==> (#[trigger] q[i]).0 != (#[trigger] q[j]).0
}

proof fn lemma_without_mode(q: Seq<(Option<i64>, Seq<char>)>, id: Option<i64>)
    ensures
        forall|k: int| 0 <= k < without_mode(q, id).len() ==> (#[trigger] without_mode(q, id)[k]).0 != id,
        forall|k: int| 0 <= k < without_mode(q, id).len() ==> exists|j: int| 0 <= j < q.len() && (#[trigger] without_mode(q, id)[k]).0 == (#[trigger] q[j]).0,
        distinct_modes(q) ==> distinct_modes(without_mode(q, id)),
    decreases q.len(),
{
    if q.len() > 0 {
        let q1 = q.drop_last();
        lemma_without_mode(q1, id);
        let w1 = without_mode(q1, id);
        assert forall|k: int| 0 <= k < w1.len() implies exists|j: int| 0 <= j < q.len() && (#[trigger] w1[k]).0 == (#[trigger] q[j]).0 by {
            let j = choose|j: int| 0 <= j < q1.len() && w1[k].0 == q1[j].0;
            assert(q[j] == q1[j]);
        }
        if distinct_modes(q) {
            assert(distinct_modes(q1)) by {
                assert forall|i: int, j: int| 0 <= i < j < q1.len() implies (#[trigger] q1[i]).0 != (#[trigger] q1[j]).0 by {
                    assert(q1[i] == q[i] && q1[j] == q[j]);
                }
            }
            if q.last().0 != id {
                let w = w1.push(q.last());
                assert forall|i: int, j: int| 0 <= i < j < w.len() implies (#[trigger] w[i]).0 != (#[trigger] w[j]).0 by {
                    if j == w1.len() {
                        let jj = choose|jj: int| 0 <= jj < q1.len() && w1[i].0 == q1[jj].0;
                        assert(q1[jj] == q[jj]);
                        assert(q[jj].0 != q[q.len() - 1].0);
                    } else {
                        assert(w[i] == w1[i] && w[j] == w1[j]);
                    }
                }
            }
        }
    }
}

/// A coalesced batch runs each search mode at most once.
pub proof fn lemma_coalesced_one_search_per_mode(s: Seq<Request>)
    ensures
        distinct_modes(coalesced(s).1),
    decreases s.len(),
{
    if s.len() > 0 {
        let s1 = s.drop_last();
        lemma_coalesced_one_search_per_mode(s1);
        let prev = coalesced(s1);
        match s.last() {
            Request::Search { id, query } => {
                lemma_without_mode(prev.1, id);
                let w = without_mode(prev.1, id);
                let n = w.push((id, spec_trim(query@)));
                assert forall|i: int, j: int| 0 <= i < j < n.len() implies (#[trigger] n[i]).0 != (#[trigger] n[j]).0 by {
                    if j == w.len() {
                        assert(w[i].0 != id);
                    } else {
                        assert(n[i] == w[i] && n[j] == w[j]);
                    }
                }
            },
            _ => {},
        }
    }
}

/// Where the per-user data directory comes from.
#[derive(Debug, Clone, Copy, PartialEq, Eq, Structural)]
pub enum DataDirSource {
    /// The directory that `TG_DATA_DIR` names.
    Configured,
    /// The working directory (it holds a `.env`, or nothing better is known).
    WorkingDir,
    /// `tg` under the platform's data directory.
    Platform,
}

/// The data directory rule: `TG_DATA_DIR` when it is set, else the working
/// directory when it holds a `.env`, else `tg` under the platform's data
/// directory when one is known, else the working directory.
pub fn data_dir_source(configured: bool, env_file_here: bool, platform_known: bool) -> (d: DataDirSource)
    ensures
        d == (if configured {
            DataDirSource::Configured
        } else if env_file_here {
            DataDirSource::WorkingDir
        } else if platform_known {
            DataDirSource::Platform
        } else {
            DataDirSource::WorkingDir
        }),
{
    if configured {
        DataDirSource::Configured
    } else if env_file_here {
        DataDirSource::WorkingDir
    } else if platform_known {
        DataDirSource::Platform
    } else {
        DataDirSource::WorkingDir
    }
}

/// `name` inside the directory `dir`: after a `/`, unless `dir` is empty
/// or already ends with one.
pub open spec fn spec_join(dir: Seq<char>, name: Seq<char>) -> Seq<char> {
    if dir.len() == 0 {
        name
    } else if dir.last() == '/' {
        dir + name
    } else {
        dir.push('/') + name
    }
}

/// `name` inside the directory `dir`.
pub fn join_path(dir: &str, name: &str) -> (p: String)
    ensures
        p@ == spec_join(dir@, name@),
{
    let mut out = chars_of(dir);
    let n = out.len();
    if n > 0 && out[n - 1] != '/' {
        out.push('/');
    }
    push_str(&mut out, name);
    proof {
        if dir@.len() == 0 {
            assert(out@ =~= name@);
        }
    }
    string_from_chars(&out)
}

/// The `.env` file of the data directory `dir`.
pub fn env_path(dir: &str) -> (p: String)
    ensures
        p@ == spec_join(dir@, ".env"@),
{
    join_path(dir, ".env")
}

/// The saved session of the data directory `dir`.
pub fn session_path(dir: &str) -> (p: String)
    ensures
        p@ == spec_join(dir@, ".tg.session"@),
{
    join_path(dir, ".tg.session")
}

/// The download cache of the data directory `dir`.
pub fn cache_dir(dir: &str) -> (p: String)
    ensures
        p@ == spec_join(dir@, "data"@),
{
    join_path(dir, "data")
}

/// Prioritizing only reorders: the same requests, each as many times.
pub proof fn lemma_prioritized_is_permutation(pending: Seq<Request>)
    ensures
        spec_prioritized(pending).to_multiset() =~= pending.to_multiset(),
        spec_prioritized(pending).len() == pending.len(),
    decreases pending.len(),
{
    broadcast use vstd::multiset::group_multiset_axioms;
    broadcast use vstd::seq_lib::to_multiset_build;
    broadcast use vstd::seq_lib::lemma_multiset_commutative;
    broadcast use vstd::seq_lib::to_multiset_len;

    let po = open_pred();
    let pr = other_pred();
    if pending.len() == 0 {
        assert(pending.filter(po) =~= Seq::<Request>::empty()) by {
            reveal(Seq::filter);
        }
        assert(pending.filter(pr) =~= Seq::<Request>::empty()) by {
            reveal(Seq::filter);
        }
        assert(spec_prioritized(pending) =~= pending);
    } else {
        let q = pending.drop_last();
        let x = pending.last();
        assert(q.push(x) =~= pending);
        lemma_prioritized_is_permutation(q);
        q.lemma_filter_push(x, po);
        q.lemma_filter_push(x, pr);
        vstd::seq_lib::lemma_multiset_commutative(q.filter(po), q.filter(pr));
        vstd::seq_lib::to_multiset_build(q, x);
        if po(x) {
            assert(!pr(x));
            vstd::seq_lib::to_multiset_build(q.filter(po), x);
            vstd::seq_lib::lemma_multiset_commutative(q.filter(po).push(x), q.filter(pr));
        } else {
            assert(pr(x));
            vstd::seq_lib::to_multiset_build(q.filter(pr), x);
            vstd::seq_lib::lemma_multiset_commutative(q.filter(po), q.filter(pr).push(x));
        }
        assert(spec_prioritized(pending).to_multiset() =~= pending.to_multiset());
    }
}

/// The `KEY=value` entry of one line of a `.env` file: the line is trimmed;
/// blank lines, `#` comments and lines without `=` give nothing; key and
/// value are trimmed around the first `=`.
pub open spec fn env_entry(line: Seq<char>) -> Option<(Seq<char>, Seq<char>)> {
    let t = spec_trim(line);
    if t.len() == 0 || t[0] == '#' {
        None
    } else {
        let i = index_of_from(t, '=', 0);
        if i >= t.len() {
            None
        } else {
            Some((spec_trim(t.take(i)), spec_trim(t.skip(i + 1))))
        }
    }
}

/// The entries of the lines `lines`, in order.
pub open spec fn env_entries(lines: Seq<Seq<char>>) -> Seq<(Seq<char>, Seq<char>)>
    decreases lines.len(),
{
    if lines.len() == 0 {
        Seq::empty()
    } else {
        let rest = env_entries(lines.drop_last());
        match env_entry(lines.last()) {
            Some(e) => rest.push(e),
            None => rest,
        }
    }
}

/// The entries of a `.env` file's content, in file order (a later entry for
/// the same key takes precedence once they are collected into a map).
pub fn parse_env(content: &str) -> (entries: Vec<(String, String)>)
    ensures
        entries@.map_values(|e: (String, String)| (e.0@, e.1@)) == env_entries(split_lines(content@)),
{
    let lines = split_lines_of(content);
    let ghost ls = split_lines(content@);
    let mut out: Vec<(String, String)> = Vec::new();
    let mut i: usize = 0;
    while i < lines.len()
        invariant
            i <= lines.len(),
            lines.len() == ls.len(),
            ls == split_lines(content@),
            forall|k: int| 0 <= k < ls.len() ==> (#[trigger] lines@[k])@ == ls[k],
            out@.map_values(|e: (String, String)| (e.0@, e.1@)) == env_entries(ls.take(i as int)),
        decreases lines.len() - i,
    {
        proof {
            assert(ls.take(i as int + 1).drop_last() =~= ls.take(i as int));
            assert(ls.take(i as int + 1).last() == lines@[i as int]@);
        }
        let t = trim_seq(&lines[i]);
        let ghost tv = t@;
        let mut entry: Option<(String, String)> = None;
        if t.len() > 0 && t[0] != '#' {
            let mut j: usize = 0;
            while j < t.len() && t[j] != '='
                invariant
                    j <= t.len(),
                    index_of_from(t@, '=', 0) == index_of_from(t@, '=', j as int),
                decreases t.len() - j,
            {
                j = j + 1;
            }
            if j < t.len() {
                let k = sub_vec(&t, 0, j);
                let v = sub_vec(&t, j + 1, t.len());
                proof {
                    assert(k@ =~= t@.take(j as int));
                    assert(v@ =~= t@.skip(j as int + 1));
                }
                let kt = trim_seq(&k);
                let vt = trim_seq(&v);
                entry = Some((string_from_chars(&kt), string_from_chars(&vt)));
            }
        }
        let ghost before = out@;
        match entry {
            Some(e) => {
                out.push(e);
            },
            None => {},
        }
        proof {
            assert(out@.map_values(|e: (String, String)| (e.0@, e.1@)) =~= env_entries(
                ls.take(i as int + 1),
            ));
        }
        i = i + 1;
    }
    proof {
        assert(ls.take(lines.len() as int) =~= ls);
    }
    out
}

/// A configuration value: the `.env` file's value if it has the key,
/// otherwise the process environment's; an empty value counts as unset.
pub fn env_value(file: Option<String>, process: Option<String>) -> (v: Option<String>)
    ensures
        v == (match file {
            Some(f) => if f@.len() > 0 { Some(f) } else { None },
            None => match process {
                Some(p) => if p@.len() > 0 { Some(p) } else { None },
                None => None,
            },
        }),
{
    let raw = match file {
        Some(f) => Some(f),
        None => process,
    };
    match raw {
        Some(r) => if r.as_str().is_empty() {
            None
        } else {
            Some(r)
        },
        None => None,
    }
}

/// Why the API id could not be read.
#[derive(Debug, Clone, Copy, PartialEq, Eq, Structural)]
pub enum ApiIdError {
    /// Neither the configuration nor the build provides it.
    Missing,
    /// It is not a decimal `i32`.
    NotANumber,
}

impl ApiIdError {
    /// The message shown to the user.
    pub fn message(&self) -> (m: &'static str)
        ensures
            *self == ApiIdError::Missing ==> m@ == "API_ID is missing — embed it at build time or add it to .env"@,
            *self == ApiIdError::NotANumber ==> m@ == "API_ID must be a number"@,
    {
        match self {
            ApiIdError::Missing => "API_ID is missing — embed it at build time or add it to .env",
            ApiIdError::NotANumber => "API_ID must be a number",
        }
    }
}

/// The API id: the configured value (see [`env_value`]), else the one
/// embedded at build time, parsed as an `i32`.
pub fn api_id(configured: Option<String>, built_in: Option<String>) -> (r: Result<i32, ApiIdError>)
    ensures
        match (match configured {
            Some(c) => Some(c),
            None => built_in,
        }) {
            None => r == Err::<i32, ApiIdError>(ApiIdError::Missing),
            Some(raw) => match spec_parse_i32(raw@) {
                Some(v) => r == Ok::<i32, ApiIdError>(v),
                None => r == Err::<i32, ApiIdError>(ApiIdError::NotANumber),
            },
        },
{
    let raw = match configured {
        Some(c) => c,
        None => match built_in {
            Some(b) => b,
            None => {
                return Err(ApiIdError::Missing);
            },
        },
    };
    let cs = crate::text::chars_of(raw.as_str());
    match parse_i32(&cs) {
        Some(v) => Ok(v),
        None => Err(ApiIdError::NotANumber),
    }
}

/// The API hash: the configured value (see [`env_value`]), else the one
/// embedded at build time.
pub fn api_hash(configured: Option<String>, built_in: Option<String>) -> (r: Option<String>)
    ensures
        r == (match configured {
            Some(c) => Some(c),
            None => built_in,
        }),
{
    match configured {
        Some(c) => Some(c),
        None => built_in,
    }
}

/// An optional string by its characters.
pub open spec fn opt_view(o: Option<String>) -> Option<Seq<char>> {
    match o {
        Some(v) => Some(v@),
        None => None,
    }
}

/// The chats of the offline demo backend.
pub open spec fn is_demo_chat(id: i64) -> bool {
    1001 <= id <= 1005
}

/// Title, kind, username, bio, phone and member count of a demo chat.
pub open spec fn demo_detail_fields(id: i64) -> (
    Seq<char>,
    ChatKind,
    Option<Seq<char>>,
    Option<Seq<char>>,
    Option<Seq<char>>,
    Option<u32>,
) {
    if id == 1001 {
        (
            "Camille"@,
            ChatKind::User,
            Some("camille_dev"@),
            Some("Rust & mountains. Weekend hike photos inside 🏔"@),
            Some("+33 6 12 34 56 78"@),
            None,
        )
    } else if id == 1002 {
        ("Rust Group"@, ChatKind::Group, None, Some("Weekly project reviews — Fridays at 18:00."@), None, Some(5))
    } else if id == 1003 {
        (
            "Canal Paysages"@,
            ChatKind::Channel,
            Some("paysages"@),
            Some("Paysages du monde entier, une photo par jour 🌍"@),
            None,
            Some(1284),
        )
    } else if id == 1004 {
        ("Groupe Famille"@, ChatKind::Group, None, None, None, Some(4))
    } else {
        (
            "Paris Bots"@,
            ChatKind::Bot,
            Some("parisbot"@),
            Some("Release news for Paris bots. /help for commands."@),
            None,
            None,
        )
    }
}

fn owned(s: &str) -> (r: Option<String>)
    ensures
        r matches Some(v) && v@ == s@,
{
    Some(crate::text::to_owned_string(s))
}

/// Canned info-panel detail for a demo chat (`None` = unknown chat).
pub fn demo_chat_detail(id: i64) -> (r: Option<ChatDetail>)
    ensures
        r is Some <==> is_demo_chat(id),
        r matches Some(d) ==> {
            let f = demo_detail_fields(id);
            &&& d.id == id
            &&& d.title@ == f.0
            &&& d.kind == f.1
            &&& opt_view(d.username) == f.2
            &&& opt_view(d.bio) == f.3
            &&& opt_view(d.phone) == f.4
            &&& d.members_count == f.5
            &&& !d.is_forum
        },
{
    let (title, kind, username, bio, phone, members_count) = if id == 1001 {
        (
            "Camille",
            ChatKind::User,
            owned("camille_dev"),
            owned("Rust & mountains. Weekend hike photos inside 🏔"),
            owned("+33 6 12 34 56 78"),
            None,
        )
    } else if id == 1002 {
        ("Rust Group", ChatKind::Group, None, owned("Weekly project reviews — Fridays at 18:00."), None, Some(5u32))
    } else if id == 1003 {
        (
            "Canal Paysages",
            ChatKind::Channel,
            owned("paysages"),
            owned("Paysages du monde entier, une photo par jour 🌍"),
            None,
            Some(1284u32),
        )
    } else if id == 1004 {
        ("Groupe Famille", ChatKind::Group, None, None, None, Some(4u32))
    } else if id == 1005 {
        (
            "Paris Bots",
            ChatKind::Bot,
            owned("parisbot"),
            owned("Release news for Paris bots. /help for commands."),
            None,
            None,
        )
    } else {
        return None;
    };
    Some(
        ChatDetail {
            id,
            title: crate::text::to_owned_string(title),
            kind,
            username,
            bio,
            phone,
            members_count,
            is_forum: false,
        },
    )
}

/// Number of members of a demo chat's canned member list.
pub open spec fn demo_member_total(id: i64) -> nat {
    if id == 1002 {
        5
    } else if id == 1003 {
        2
    } else if id == 1004 {
        4
    } else {
        0
    }
}

/// Id, name, username and role of the `k`-th canned member of a demo chat.
pub open spec fn demo_member(id: i64, k: int) -> (i64, Seq<char>, Option<Seq<char>>, ParticipantRole) {
    if id == 1002 {
        if k == 0 {
            (2001, "Camille"@, Some("camille_dev"@), ParticipantRole::Creator)
        } else if k == 1 {
            (2002, "Léo"@, Some("leo_builds"@), ParticipantRole::Admin)
        } else if k == 2 {
            (2003, "Thomas"@, Some("thomas_rs"@), ParticipantRole::Member)
        } else if k == 3 {
            (2004, "Sofia"@, None, ParticipantRole::Member)
        } else {
            (2005, "Marc"@, None, ParticipantRole::Member)
        }
    } else if id == 1003 {
        if k == 0 {
            (2201, "Camille"@, None, ParticipantRole::Creator)
        } else {
            (2202, "Léo"@, None, ParticipantRole::Admin)
        }
    } else if k == 0 {
        (2101, "Maman"@, None, ParticipantRole::Creator)
    } else if k == 1 {
        (2102, "Papa"@, None, ParticipantRole::Member)
    } else if k == 2 {
        (2103, "Sophie"@, None, ParticipantRole::Member)
    } else {
        (2104, "Toi"@, None, ParticipantRole::Member)
    }
}

fn member(id: i64, name: &str, username: Option<&str>, role: ParticipantRole) -> (p: ParticipantRow)
    ensures
        p.id == id,
        p.name@ == name@,
        opt_view(p.username) == (match username {
            Some(u) => Some(u@),
            None => None,
        }),
        p.role == role,
{
    let username = match username {
        Some(u) => Some(crate::text::to_owned_string(u)),
        None => None,
    };
    ParticipantRow { id, name: crate::text::to_owned_string(name), username, role }
}

/// Canned member list of a demo group/channel (empty = hidden/none).
pub fn demo_participants(id: i64) -> (r: Vec<ParticipantRow>)
    ensures
        r.len() == demo_member_total(id),
        forall|k: int|
            0 <= k < r.len() ==> {
                let m = demo_member(id, k);
                &&& (#[trigger] r@[k]).id == m.0
                &&& r@[k].name@ == m.1
                &&& opt_view(r@[k].username) == m.2
                &&& r@[k].role == m.3
            },
{
    let mut v: Vec<ParticipantRow> = Vec::new();
    if id == 1002 {
        v.push(member(2001, "Camille", Some("camille_dev"), ParticipantRole::Creator));
        v.push(member(2002, "Léo", Some("leo_builds"), ParticipantRole::Admin));
        v.push(member(2003, "Thomas", Some("thomas_rs"), ParticipantRole::Member));
        v.push(member(2004, "Sofia", None, ParticipantRole::Member));
        v.push(member(2005, "Marc", None, ParticipantRole::Member));
    } else if id == 1003 {
        v.push(member(2201, "Camille", None, ParticipantRole::Creator));
        v.push(member(2202, "Léo", None, ParticipantRole::Admin));
    } else if id == 1004 {
        v.push(member(2101, "Maman", None, ParticipantRole::Creator));
        v.push(member(2102, "Papa", None, ParticipantRole::Member));
        v.push(member(2103, "Sophie", None, ParticipantRole::Member));
        v.push(member(2104, "Toi", None, ParticipantRole::Member));
    }
    v
}

} // verus!
