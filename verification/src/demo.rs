//! The offline demo backend: its canned chats and histories, and how it
//! answers each request of the interface. The clock, the generated images
//! and files, and the pacing of simulated uploads and peer activity belong
//! to the runtime that drives it.

use vstd::prelude::*;
use std::collections::HashMap;
use crate::bridge::{ChatRow, DocKind, DocMeta, MsgRow, Request, SearchHit, StickerMeta, StickerSetBridge, UiMessage};
use crate::format::{nat_str, u64_digits};
use crate::links::{has_at, has_at_exec};
use crate::network::{demo_chat_detail, demo_detail_fields, demo_member, demo_member_total, demo_participants, is_demo_chat, opt_view};
use crate::bridge::{ChatDetail, ParticipantRow};
use crate::text::{chars_of, push_str, string_from_chars};

verus! {

/// A chat of the demo account.
#[derive(Debug, Clone)]
pub struct DemoChat {
    pub id: i64,
    pub title: String,
    pub subtitle: String,
    /// Seconds since its last message.
    pub last_ago: i32,
    pub unread: i32,
}

/// One generated sticker of a demo pack.
#[derive(Debug, Clone)]
pub struct DemoSticker {
    pub doc_id: i64,
    pub access_hash: i64,
    pub alt: String,
    /// On-disk PNG of the sticker.
    pub path: String,
}

/// A generated demo sticker pack.
#[derive(Debug, Clone)]
pub struct DemoStickerSet {
    pub title: String,
    pub short_name: String,
    pub docs: Vec<DemoSticker>,
}

/// A demo chat by its plain values: id, title, subtitle, age of the last
/// message, unread count.
pub open spec fn chat_values(c: DemoChat) -> (i64, Seq<char>, Seq<char>, i32, i32) {
    (c.id, c.title@, c.subtitle@, c.last_ago, c.unread)
}

/// The demo account's chats at start.
pub open spec fn spec_demo_chats() -> Seq<(i64, Seq<char>, Seq<char>, i32, i32)> {
    seq![
        (1001i64, "Camille"@, "Great! see you tomorrow 👋"@, 42i32, 3i32),
        (1002i64, "Rust Group"@, "Thomas: novel review of the PR?"@, 7200i32, 0i32),
        (1003i64, "Landscape Channel"@, "Sunset over the sea 🏖"@, 86400i32, 0i32),
        (1004i64, "Family Group"@, "Mom: when are you coming over?"@, 172800i32, 12i32),
        (1005i64, "Paris Bots"@, "New version 2.4.0 released"@, 604800i32, 0i32),
    ]
}

fn demo_chat(id: i64, title: &str, subtitle: &str, last_ago: i32, unread: i32) -> (c: DemoChat)
    ensures
        chat_values(c) == (id, title@, subtitle@, last_ago, unread),
{
    DemoChat { id, title: String::from_str(title), subtitle: String::from_str(subtitle), last_ago, unread }
}

/// The demo account's chats at start (see [`spec_demo_chats`]).
pub fn demo_chats() -> (cs: Vec<DemoChat>)
    ensures
        cs@.map_values(|c: DemoChat| chat_values(c)) == spec_demo_chats(),
{
    let mut cs: Vec<DemoChat> = Vec::new();
    cs.push(demo_chat(1001, "Camille", "Great! see you tomorrow 👋", 42, 3));
    cs.push(demo_chat(1002, "Rust Group", "Thomas: novel review of the PR?", 7200, 0));
    cs.push(demo_chat(1003, "Landscape Channel", "Sunset over the sea 🏖", 86400, 0));
    cs.push(demo_chat(1004, "Family Group", "Mom: when are you coming over?", 172800, 12));
    cs.push(demo_chat(1005, "Paris Bots", "New version 2.4.0 released", 604800, 0));
    proof {
        assert(cs@.map_values(|c: DemoChat| chat_values(c)) =~= spec_demo_chats());
    }
    cs
}

/// What `str::to_lowercase` gives for a string's characters (Unicode case
/// mapping).
pub uninterp spec fn lowercase(s: Seq<char>) -> Seq<char>;

/// Lowercases `s` with `str::to_lowercase`; the result is [`lowercase`] of
/// its characters (the mapping itself is std's and is not restated here).
#[verifier::external_body]
fn to_lowercase(s: &str) -> (r: String)
    ensures
        r@ == lowercase(s@),
{
    s.to_lowercase()
}

/// `needle` occurs somewhere in `hay`.
pub open spec fn spec_contains(hay: Seq<char>, needle: Seq<char>) -> bool {
    exists|i: int| #[trigger] has_at(hay, i, needle)
}

/// A lowercased text matches a lowercased query: the query is not empty
/// and occurs in the text.
pub fn matches_query(lower_text: &str, lower_query: &str) -> (b: bool)
    ensures
        b == (lower_query@.len() > 0 && spec_contains(lower_text@, lower_query@)),
{
    let q = chars_of(lower_query);
    if q.len() == 0 {
        return false;
    }
    let t = chars_of(lower_text);
    let mut i: usize = 0;
    while i < t.len()
        invariant
            i <= t.len(),
            t@ == lower_text@,
            q@ == lower_query@,
            q@.len() > 0,
            forall|j: int| 0 <= j < i ==> !has_at(t@, j, q@),
        decreases t.len() - i,
    {
        if has_at_exec(&t, i, &q) {
            assert(has_at(t@, i as int, q@));
            return true;
        }
        i = i + 1;
    }
    proof {
        assert forall|j: int| !has_at(t@, j, q@) by {
            if 0 <= j < i {
            }
        }
    }
    false
}

/// `m` is the row with these values (strings by their characters; the
/// attachments and markers not listed are absent).
pub open spec fn row_is(
    m: MsgRow,
    id: i32,
    text: Seq<char>,
    date: int,
    out: bool,
    photo: Option<(u32, u32)>,
    photo_path: Option<Seq<char>>,
    doc: Option<(Seq<char>, i64, DocKind)>,
    sticker: Option<(Seq<char>, Seq<char>)>,
    reply_to: Option<i32>,
    forwarded_from: Option<Seq<char>>,
    sender: Option<(Seq<char>, i64)>,
    pinned: bool,
) -> bool {
    &&& m.id == id
    &&& m.text@ == text
    &&& m.date == date
    &&& m.out == out
    &&& m.photo == photo
    &&& opt_view(m.photo_path) == photo_path
    &&& (match m.doc {
        Some(d) => doc == Some((d.name@, d.size, d.kind)),
        None => doc is None,
    })
    &&& m.doc_path is None
    &&& (match m.sticker {
        Some(st) => sticker matches Some(x) && x.0 == st.alt@ && opt_view(m.sticker_path) == Some(x.1),
        None => sticker is None && m.sticker_path is None,
    })
    &&& m.reply_to == reply_to
    &&& opt_view(m.forwarded_from) == forwarded_from
    &&& m.uploading is None
    &&& m.upload_token is None
    &&& !m.read
    &&& (match m.sender_name {
        Some(n) => sender matches Some(x) && x.0 == n@ && m.sender_id == Some(x.1),
        None => sender is None && m.sender_id is None,
    })
    &&& m.pinned == pinned
}

/// A plain text row.
pub open spec fn text_row(m: MsgRow, id: i32, text: Seq<char>, date: int, out: bool) -> bool {
    row_is(m, id, text, date, out, None, None, None, None, None, None, None, false)
}

/// The alt text and file of sticker `d` of pack `s`, when both exist.
pub open spec fn sticker_ref(sets: Seq<DemoStickerSet>, s: int, d: int) -> Option<(Seq<char>, Seq<char>)> {
    if 0 <= s < sets.len() && 0 <= d < sets[s].docs.len() {
        Some((sets[s].docs@[d].alt@, sets[s].docs@[d].path@))
    } else {
        None
    }
}

/// Body of row `i` of the long demo history.
pub open spec fn big_body(i: nat) -> Seq<char> {
    if i % 7 == 0 {
        "A longer message to force line wrapping and test the bubble height calculation over several lines, with a few emojis 🎉 and some text, plus a little more text to measure wrapping."@
    } else {
        "Message "@ + nat_str(i) + " of the big test conversation — the quick brown fox jumps over the lazy dog "@
            + nat_str(i)
    }
}

/// Row `i` of the long demo history: every 7th a long text, every 40th
/// (from the 7th) with the chat's photo, every 25th (from the 5th) a reply
/// to the previous row; ten seconds apart, alternately own and incoming.
pub open spec fn big_row_is(m: MsgRow, i: nat, now: int, photo: Option<Seq<char>>) -> bool {
    row_is(
        m,
        i as i32,
        big_body(i),
        now - i * 10,
        i % 2 == 0,
        if i % 40 == 7 { Some((640u32, 480u32)) } else { None },
        if i % 40 == 7 { photo } else { None },
        None,
        None,
        if i % 25 == 5 { Some((i - 1) as i32) } else { None },
        None,
        None,
        false,
    )
}

/// Age in seconds of the oldest canned message of a chat (the long
/// history of `big` rows when asked for).
pub open spec fn oldest_age(id: i64, big: Option<usize>) -> int {
    if id == 1001 {
        match big {
            Some(n) => if n == 0 { 0 } else { (n - 1) * 10 },
            None => 700,
        }
    } else if id == 1002 {
        14400
    } else if id == 1003 {
        90000
    } else if id == 1004 {
        172800
    } else if id == 1005 {
        604800
    } else {
        0
    }
}

/// The canned history of demo chat `id` at time `now`, `photo` being the
/// chat's generated photo and `stickers` the generated packs; `big` asks
/// for a long history of that many rows in the first chat.
pub open spec fn history_is(
    h: Seq<MsgRow>,
    id: i64,
    now: int,
    photo: Option<Seq<char>>,
    stickers: Seq<DemoStickerSet>,
    big: Option<usize>,
) -> bool {
    if id == 1001 {
        match big {
            Some(n) => h.len() == n && forall|i: int| 0 <= i < n ==> big_row_is(#[trigger] h[i], i as nat, now, photo),
            None => {
                &&& h.len() == 11
                &&& text_row(h[0], 1, "Hi! did you see my new photo?"@, now - 700, false)
                &&& row_is(h[1], 2, ""@, now - 650, true, Some((640, 480)), photo, None, None, None, None, None, false)
                &&& row_is(h[2], 3, "Stunning! taken this morning?"@, now - 600, true, None, None, None, None, Some(1), None, None, false)
                &&& row_is(h[3], 4, "A short clip of the sunset 🌅"@, now - 575, true, None, None,
                    Some(("sunset.mp4"@, 8_423_168i64, DocKind::Video)), None, None, None, None, false)
                &&& row_is(h[4], 5, "Look at this one 😍"@, now - 550, false, Some((640, 480)), photo, None, None, None,
                    Some("Landscape Channel"@), None, false)
                &&& row_is(h[5], 6, ""@, now - 520, false, None, None,
                    Some(("voice-memo.ogg"@, 310_000i64, DocKind::Audio { voice: true })), None, None, None, None, false)
                &&& row_is(h[6], 7, ""@, now - 500, true, None, None,
                    Some(("quarterly-plan.xlsx"@, 96_470i64, DocKind::File)), None, None, None, None, false)
                &&& text_row(h[7], 8, "Awesome, going there Saturday? 😎"@, now - 300, false)
                &&& text_row(h[8], 9, "Hey, the docs are here: https://doc.rust-lang.org/book/ 😉"@, now - 120, false)
                &&& text_row(h[9], 10,
                    "And the full changelog: https://github.com/rust-lang/rust/blob/master/RELEASES.md#version-1800-2021-10-21"@,
                    now - 100, true)
                &&& text_row(h[10], 11, "Yes! see you tomorrow 👋"@, now - 42, true)
            },
        }
    } else if id == 1002 {
        &&& h.len() == 7
        &&& row_is(h[0], 1, "Who wants to present their project on Friday?"@, now - 14400, false, None, None, None, None,
            None, None, Some(("Camille"@, 2001i64)), true)
        &&& row_is(h[1], 2, "[forwarded] Photo from last weekend 🌄"@, now - 10800, false, None, None, None, None, None,
            Some("Landscape Channel"@), Some(("Léo"@, 2002i64)), false)
        &&& row_is(h[2], 3, ""@, now - 7500, false, None, None, None, sticker_ref(stickers, 0, 0), None, None,
            Some(("Léo"@, 2002i64)), false)
        &&& row_is(h[3], 4, "@Léo can you review it before Friday?"@, now - 7300, false, None, None, None, None, None,
            None, Some(("Camille"@, 2001i64)), false)
        &&& text_row(h[4], 5, "I can, the CI finally passes 🎉"@, now - 7200, true)
        &&& row_is(h[5], 6, ""@, now - 7000, false, None, None,
            Some(("quarterly-report.pdf"@, 2_458_112i64, DocKind::File)), None, None, None, None, false)
        &&& row_is(h[6], 7, ""@, now - 6500, true, None, None, None, sticker_ref(stickers, 1, 4), None, None, None, false)
    } else if id == 1003 {
        &&& h.len() == 2
        &&& row_is(h[0], 1, "Photo from last weekend 🌄"@, now - 90000, true, Some((640, 480)), photo, None, None, None,
            None, None, false)
        &&& text_row(h[1], 2, "Beautiful, we'll make it the cover!"@, now - 89000, false)
    } else if id == 1004 {
        &&& h.len() == 2
        &&& text_row(h[0], 1, "Sunday's lunch is moved"@, now - 172800, false)
        &&& text_row(h[1], 2, "Ok, we'll bring dessert 🍰"@, now - 160000, true)
    } else if id == 1005 {
        &&& h.len() == 2
        &&& text_row(h[0], 1, "v2.4.0: new online status API"@, now - 604800, false)
        &&& text_row(h[1], 2, "Thanks for the update!"@, now - 600000, true)
    } else {
        h.len() == 0
    }
}

fn copy_opt(s: &Option<String>) -> (r: Option<String>)
    ensures
        r == *s,
{
    match s {
        Some(v) => Some(v.clone()),
        None => None,
    }
}

fn plain(id: i32, text: &str, date: i32, out: bool) -> (m: MsgRow)
    ensures
        text_row(m, id, text@, date as int, out),
{
    MsgRow::text(id, String::from_str(text), date, out)
}

fn doc_meta(name: &str, size: i64, kind: DocKind) -> (d: Option<DocMeta>)
    ensures
        d matches Some(x) && x.name@ == name@ && x.size == size && x.kind == kind,
{
    Some(DocMeta { name: String::from_str(name), size, kind })
}

fn sender(name: &str) -> (r: Option<String>)
    ensures
        r matches Some(x) && x@ == name@,
{
    Some(String::from_str(name))
}

/// The sticker `d` of pack `s`, as a message attachment and its file.
fn sticker_of(sets: &Vec<DemoStickerSet>, s: usize, d: usize) -> (r: (Option<StickerMeta>, Option<String>))
    ensures
        match sticker_ref(sets@, s as int, d as int) {
            Some(x) => r.0 matches Some(st) && st.alt@ == x.0 && opt_view(r.1) == Some(x.1),
            None => r.0 is None && r.1 is None,
        },
{
    if s < sets.len() && d < sets[s].docs.len() {
        let doc = &sets[s].docs[d];
        (Some(StickerMeta { alt: doc.alt.clone() }), Some(doc.path.clone()))
    } else {
        (None, None)
    }
}

/// Row `i` of the long demo history (see [`big_row_is`]).
fn big_row(i: usize, now: i32, photo: &Option<String>) -> (m: MsgRow)
    requires
        i * 10 <= i32::MAX,
        now - i * 10 >= i32::MIN,
    ensures
        big_row_is(m, i as nat, now as int, opt_view(*photo)),
{
    let id = i as i32;
    let text = if i % 7 == 0 {
        String::from_str(
            "A longer message to force line wrapping and test the bubble height calculation over several lines, with a few emojis 🎉 and some text, plus a little more text to measure wrapping.",
        )
    } else {
        let digits = u64_digits(i as u64);
        let mut cs = chars_of("Message ");
        let ghost start = cs@;
        let mut k: usize = 0;
        while k < digits.len()
            invariant
                k <= digits.len(),
                cs@ == start + digits@.take(k as int),
            decreases digits.len() - k,
        {
            cs.push(digits[k]);
            proof {
                assert(digits@.take(k as int + 1) =~= digits@.take(k as int).push(digits@[k as int]));
            }
            k = k + 1;
        }
        push_str(&mut cs, " of the big test conversation — the quick brown fox jumps over the lazy dog ");
        let ghost mid = cs@;
        let mut k2: usize = 0;
        while k2 < digits.len()
            invariant
                k2 <= digits.len(),
                cs@ == mid + digits@.take(k2 as int),
            decreases digits.len() - k2,
        {
            cs.push(digits[k2]);
            proof {
                assert(digits@.take(k2 as int + 1) =~= digits@.take(k2 as int).push(digits@[k2 as int]));
            }
            k2 = k2 + 1;
        }
        proof {
            assert(digits@.take(digits.len() as int) =~= digits@);
            assert(cs@ =~= big_body(i as nat));
        }
        string_from_chars(&cs)
    };
    let mut m = MsgRow::text(id, text, now - id * 10, i % 2 == 0);
    if i % 40 == 7 {
        m.photo = Some((640, 480));
        m.photo_path = copy_opt(photo);
    }
    if i % 25 == 5 {
        m.reply_to = Some(id - 1);
    }
    m
}

/// The canned history of demo chat `id` (see [`history_is`]).
pub fn demo_history(
    id: i64,
    now: i32,
    photo: &Option<String>,
    stickers: &Vec<DemoStickerSet>,
    big: Option<usize>,
) -> (h: Vec<MsgRow>)
    requires
        now - oldest_age(id, big) >= i32::MIN,
        id == 1001 ==> (big matches Some(n) ==> n == 0 || (n - 1) * 10 <= i32::MAX),
    ensures
        history_is(h@, id, now as int, opt_view(*photo), stickers@, big),
{
    let mut h: Vec<MsgRow> = Vec::new();
    if id == 1001 {
        match big {
            Some(n) => {
                let mut i: usize = 0;
                while i < n
                    invariant
                        i <= n,
                        h@.len() == i,
                        n == 0 || (n - 1) * 10 <= i32::MAX,
                        now - (if n == 0 { 0 } else { (n - 1) * 10 }) >= i32::MIN,
                        forall|j: int| 0 <= j < i ==> big_row_is(#[trigger] h@[j], j as nat, now as int, opt_view(*photo)),
                    decreases n - i,
                {
                    let m = big_row(i, now, photo);
                    h.push(m);
                    i = i + 1;
                }
            },
            None => {
                h.push(plain(1, "Hi! did you see my new photo?", now - 700, false));
                let mut m = plain(2, "", now - 650, true);
                m.photo = Some((640, 480));
                m.photo_path = copy_opt(photo);
                h.push(m);
                let mut m = plain(3, "Stunning! taken this morning?", now - 600, true);
                m.reply_to = Some(1);
                h.push(m);
                let mut m = plain(4, "A short clip of the sunset 🌅", now - 575, true);
                m.doc = doc_meta("sunset.mp4", 8_423_168, DocKind::Video);
                h.push(m);
                let mut m = plain(5, "Look at this one 😍", now - 550, false);
                m.forwarded_from = sender("Landscape Channel");
                m.photo = Some((640, 480));
                m.photo_path = copy_opt(photo);
                h.push(m);
                let mut m = plain(6, "", now - 520, false);
                m.doc = doc_meta("voice-memo.ogg", 310_000, DocKind::Audio { voice: true });
                h.push(m);
                let mut m = plain(7, "", now - 500, true);
                m.doc = doc_meta("quarterly-plan.xlsx", 96_470, DocKind::File);
                h.push(m);
                h.push(plain(8, "Awesome, going there Saturday? 😎", now - 300, false));
                h.push(plain(9, "Hey, the docs are here: https://doc.rust-lang.org/book/ 😉", now - 120, false));
                h.push(plain(
                    10,
                    "And the full changelog: https://github.com/rust-lang/rust/blob/master/RELEASES.md#version-1800-2021-10-21",
                    now - 100,
                    true,
                ));
                h.push(plain(11, "Yes! see you tomorrow 👋", now - 42, true));
            },
        }
    } else if id == 1002 {
        let mut m = plain(1, "Who wants to present their project on Friday?", now - 14400, false);
        m.sender_name = sender("Camille");
        m.sender_id = Some(2001);
        m.pinned = true;
        h.push(m);
        let mut m = plain(2, "[forwarded] Photo from last weekend 🌄", now - 10800, false);
        m.forwarded_from = sender("Landscape Channel");
        m.sender_name = sender("Léo");
        m.sender_id = Some(2002);
        h.push(m);
        let mut m = plain(3, "", now - 7500, false);
        let (st, sp) = sticker_of(stickers, 0, 0);
        m.sticker = st;
        m.sticker_path = sp;
        m.sender_name = sender("Léo");
        m.sender_id = Some(2002);
        h.push(m);
        let mut m = plain(4, "@Léo can you review it before Friday?", now - 7300, false);
        m.sender_name = sender("Camille");
        m.sender_id = Some(2001);
        h.push(m);
        h.push(plain(5, "I can, the CI finally passes 🎉", now - 7200, true));
        let mut m = plain(6, "", now - 7000, false);
        m.doc = doc_meta("quarterly-report.pdf", 2_458_112, DocKind::File);
        h.push(m);
        let mut m = plain(7, "", now - 6500, true);
        let (st, sp) = sticker_of(stickers, 1, 4);
        m.sticker = st;
        m.sticker_path = sp;
        h.push(m);
    } else if id == 1003 {
        let mut m = plain(1, "Photo from last weekend 🌄", now - 90000, true);
        m.photo = Some((640, 480));
        m.photo_path = copy_opt(photo);
        h.push(m);
        h.push(plain(2, "Beautiful, we'll make it the cover!", now - 89000, false));
    } else if id == 1004 {
        h.push(plain(1, "Sunday's lunch is moved", now - 172800, false));
        h.push(plain(2, "Ok, we'll bring dessert 🍰", now - 160000, true));
    } else if id == 1005 {
        h.push(plain(1, "v2.4.0: new online status API", now - 604800, false));
        h.push(plain(2, "Thanks for the update!", now - 600000, true));
    }
    h
}

/// The demo backend's state.
#[derive(Debug)]
pub struct DemoServer {
    /// The clock at start: every canned and echoed message is dated from it.
    pub now: i32,
    /// Rows of the long history asked for in the first chat, if any.
    pub big: Option<usize>,
    pub chats: Vec<DemoChat>,
    /// Generated avatar file of each starting chat.
    pub avatars: HashMap<i64, String>,
    /// Generated landscape photo of each starting chat.
    pub photos: HashMap<i64, String>,
    pub stickers: Vec<DemoStickerSet>,
    /// Texts of edited messages, by message id.
    pub edits: HashMap<i32, String>,
    /// Id of the next message the backend creates.
    pub next_id: i32,
    /// Id of the next chat the backend creates.
    pub next_chat_id: i64,
    /// The chat the interface last opened.
    pub open: Option<i64>,
    /// How many simulated incoming messages were delivered.
    pub incoming_idx: usize,
    /// The simulated peer is shown typing.
    pub typing_sent: bool,
}

/// Every canned history can be dated from `now` without overflow.
pub open spec fn dates_fit(now: int, big: Option<usize>) -> bool {
    &&& now - 604800 >= i32::MIN
    &&& big matches Some(n) ==> (n == 0 || ((n - 1) * 10 <= i32::MAX && now - (n - 1) * 10 >= i32::MIN))
}

/// The list row of a demo chat.
pub open spec fn chat_row_of(c: DemoChat, now: i32, avatars: Map<i64, String>) -> ChatRow {
    ChatRow {
        id: c.id,
        title: c.title,
        subtitle: c.subtitle,
        date: (now - c.last_ago) as i32,
        unread: c.unread,
        avatar_path: if avatars.contains_key(c.id) { Some(avatars[c.id]) } else { None },
    }
}

/// No chat's last message is dated before the representable range.
pub open spec fn rows_fit(chats: Seq<DemoChat>, now: i32) -> bool {
    forall|k: int| 0 <= k < chats.len() ==> i32::MIN <= now - #[trigger] chats[k].last_ago <= i32::MAX
}

/// Index of the first chat with id `id` in `chats`, from `i`.
pub open spec fn find_chat(chats: Seq<DemoChat>, id: i64, i: int) -> Option<int>
    decreases chats.len() - i,
{
    if i < 0 || i >= chats.len() {
        None
    } else if chats[i].id == id {
        Some(i)
    } else {
        find_chat(chats, id, i + 1)
    }
}

proof fn lemma_find_chat(chats: Seq<DemoChat>, id: i64, i: int)
    requires
        0 <= i,
    ensures
        find_chat(chats, id, i) matches Some(k) ==> 0 <= i <= k < chats.len() && chats[k].id == id,
        find_chat(chats, id, i) is None ==> forall|k: int| i <= k < chats.len() && 0 <= k ==> chats[k].id != id,
    decreases chats.len() - i,
{
    if 0 <= i < chats.len() && chats[i].id != id {
        lemma_find_chat(chats, id, i + 1);
    }
}

/// The generated photo of chat `id` while the chat is listed.
pub open spec fn photo_of(s: DemoServer, id: i64) -> Option<Seq<char>> {
    if find_chat(s.chats@, id, 0) is Some && s.photos@.contains_key(id) {
        Some(s.photos@[id]@)
    } else {
        None
    }
}

/// The title of chat `id`, or `dflt` when it is not listed.
pub open spec fn title_or(s: DemoServer, id: i64, dflt: Seq<char>) -> Seq<char> {
    match find_chat(s.chats@, id, 0) {
        Some(k) => s.chats@[k].title@,
        None => dflt,
    }
}

impl DemoServer {
    /// A demo backend started at `now` with the generated avatars, photos
    /// and sticker packs: the starting chats, nothing edited, message ids
    /// from 10000 and new chats from 1006, nothing open, no simulated peer
    /// activity yet.
    pub fn new(
        now: i32,
        big: Option<usize>,
        avatars: HashMap<i64, String>,
        photos: HashMap<i64, String>,
        stickers: Vec<DemoStickerSet>,
    ) -> (s: DemoServer)
        requires
            dates_fit(now as int, big),
        ensures
            s.chats@.map_values(|c: DemoChat| chat_values(c)) == spec_demo_chats(),
            s.now == now && s.big == big,
            s.avatars == avatars && s.photos == photos && s.stickers == stickers,
            s.edits@ == Map::<i32, String>::empty(),
            s.next_id == 10000 && s.next_chat_id == 1006,
            s.open is None && s.incoming_idx == 0 && !s.typing_sent,
            s.wf(),
    {
        let cs = demo_chats();
        proof {
            assert forall|k: int| 0 <= k < cs@.len() implies 0 <= #[trigger] cs@[k].last_ago <= 604800 by {
                assert(cs@.map_values(|c: DemoChat| chat_values(c))[k] == chat_values(cs@[k]));
                assert(cs@.map_values(|c: DemoChat| chat_values(c)).len() == cs@.len());
                assert(k == 0 || k == 1 || k == 2 || k == 3 || k == 4);
            }
        }
        let s = DemoServer {
            now,
            big,
            chats: cs,
            avatars,
            photos,
            stickers,
            edits: HashMap::new(),
            next_id: 10000,
            next_chat_id: 1006,
            open: None,
            incoming_idx: 0,
            typing_sent: false,
        };
        s
    }

    /// The state every request keeps: canned dates and list dates fit.
    pub open spec fn wf(self) -> bool {
        &&& dates_fit(self.now as int, self.big)
        &&& rows_fit(self.chats@, self.now)
    }

    /// The chat list as the interface shows it.
    pub fn rows(&self) -> (rows: Vec<ChatRow>)
        requires
            rows_fit(self.chats@, self.now),
        ensures
            rows@ == self.chats@.map_values(|c: DemoChat| chat_row_of(c, self.now, self.avatars@)),
    {
        broadcast use vstd::std_specs::hash::group_hash_axioms;
        let mut rows: Vec<ChatRow> = Vec::new();
        let mut i: usize = 0;
        while i < self.chats.len()
            invariant
                i <= self.chats.len(),
                rows_fit(self.chats@, self.now),
                rows@ == self.chats@.take(i as int).map_values(|c: DemoChat| chat_row_of(c, self.now, self.avatars@)),
            decreases self.chats.len() - i,
        {
            let c = &self.chats[i];
            let avatar = match self.avatars.get(&c.id) {
                Some(p) => Some(p.clone()),
                None => None,
            };
            assert(i32::MIN <= self.now - self.chats@[i as int].last_ago <= i32::MAX);
            rows.push(ChatRow {
                id: c.id,
                title: c.title.clone(),
                subtitle: c.subtitle.clone(),
                date: self.now - c.last_ago,
                unread: c.unread,
                avatar_path: avatar,
            });
            proof {
                assert(self.chats@.take(i as int + 1) =~= self.chats@.take(i as int).push(self.chats@[i as int]));
                assert(rows@ =~= self.chats@.take(i as int + 1).map_values(
                    |c: DemoChat| chat_row_of(c, self.now, self.avatars@),
                ));
            }
            i = i + 1;
        }
        proof {
            assert(self.chats@.take(self.chats.len() as int) =~= self.chats@);
        }
        rows
    }

    /// What the backend sends first: the chat list, then a signed-in
    /// account named "Demo".
    pub fn start(&self) -> (msgs: Vec<UiMessage>)
        requires
            rows_fit(self.chats@, self.now),
        ensures
            msgs@.len() == 2,
            msgs@[0] matches UiMessage::Dialogs(rows)
                && rows@ == self.chats@.map_values(|c: DemoChat| chat_row_of(c, self.now, self.avatars@)),
            msgs@[1] matches UiMessage::LoginOk { name } && name@ == "Demo"@,
    {
        let mut msgs: Vec<UiMessage> = Vec::new();
        msgs.push(UiMessage::Dialogs(self.rows()));
        msgs.push(UiMessage::LoginOk { name: String::from_str("Demo") });
        msgs
    }

    /// Index of the first listed chat with id `id`.
    fn find(&self, id: i64) -> (r: Option<usize>)
        ensures
            r is Some <==> find_chat(self.chats@, id, 0) is Some,
            r matches Some(k) ==> find_chat(self.chats@, id, 0) == Some(k as int) && k < self.chats.len()
                && self.chats@[k as int].id == id,
    {
        proof {
            lemma_find_chat(self.chats@, id, 0);
        }
        let mut i: usize = 0;
        while i < self.chats.len()
            invariant
                i <= self.chats.len(),
                find_chat(self.chats@, id, 0) == find_chat(self.chats@, id, i as int),
            decreases self.chats.len() - i,
        {
            if self.chats[i].id == id {
                return Some(i);
            }
            i = i + 1;
        }
        None
    }

    /// The generated photo of chat `id` while it is listed.
    fn photo_for(&self, id: i64) -> (r: Option<String>)
        ensures
            opt_view(r) == photo_of(*self, id),
    {
        broadcast use vstd::std_specs::hash::group_hash_axioms;
        match self.find(id) {
            Some(_) => match self.photos.get(&id) {
                Some(p) => Some(p.clone()),
                None => None,
            },
            None => None,
        }
    }

    /// The canned history of chat `id`.
    fn history(&self, id: i64) -> (h: Vec<MsgRow>)
        requires
            self.wf(),
        ensures
            history_is(h@, id, self.now as int, photo_of(*self, id), self.stickers@, self.big),
    {
        let photo = self.photo_for(id);
        demo_history(id, self.now, &photo, &self.stickers, self.big)
    }

    /// The title of chat `id`, or `dflt` when it is not listed.
    fn title_of(&self, id: i64, dflt: &str) -> (t: String)
        ensures
            t@ == title_or(*self, id, dflt@),
    {
        proof {
            lemma_find_chat(self.chats@, id, 0);
        }
        match self.find(id) {
            Some(k) => {
                let t = self.chats[k].title.clone();
                proof {
                    let kk = find_chat(self.chats@, id, 0)->0;
                    assert(0 <= kk < self.chats.len());
                    assert(k as int == kk);
                    assert(t@ == self.chats@[kk].title@);
                    assert(t@ == title_or(*self, id, dflt@));
                }
                t
            },
            None => {
                let t = String::from_str(dflt);
                assert(t@ == title_or(*self, id, dflt@));
                t
            },
        }
    }
}

/// `h` with the edited texts of `edits` in place of the canned ones.
pub open spec fn edited(h: Seq<MsgRow>, edits: Map<i32, String>) -> Seq<MsgRow> {
    h.map_values(|m: MsgRow| if edits.contains_key(m.id) { MsgRow { text: edits[m.id], ..m } } else { m })
}

/// Index of the first row of `h` (from `i`) with the id `id`.
pub open spec fn first_row(h: Seq<MsgRow>, id: i32, i: int) -> Option<int>
    decreases h.len() - i,
{
    if i < 0 || i >= h.len() {
        None
    } else if h[i].id == id {
        Some(i)
    } else {
        first_row(h, id, i + 1)
    }
}

proof fn lemma_first_row(h: Seq<MsgRow>, id: i32, i: int)
    requires
        0 <= i,
    ensures
        first_row(h, id, i) matches Some(k) ==> i <= k < h.len() && h[k].id == id,
    decreases h.len() - i,
{
    if i < h.len() && h[i].id != id {
        lemma_first_row(h, id, i + 1);
    }
}

/// Index of the first row of `h` with the id `id`.
fn first_row_of(h: &Vec<MsgRow>, id: i32) -> (r: Option<usize>)
    ensures
        r is Some <==> first_row(h@, id, 0) is Some,
        r matches Some(k) ==> first_row(h@, id, 0) == Some(k as int) && k < h.len() && h@[k as int].id == id,
{
    proof {
        lemma_first_row(h@, id, 0);
    }
    let mut i: usize = 0;
    while i < h.len()
        invariant
            i <= h.len(),
            first_row(h@, id, 0) == first_row(h@, id, i as int),
        decreases h.len() - i,
    {
        if h[i].id == id {
            return Some(i);
        }
        i = i + 1;
    }
    None
}

/// The message `msg_id` of a history is a voice note.
pub open spec fn is_voice_row(h: Seq<MsgRow>, msg_id: i32) -> bool {
    match first_row(h, msg_id, 0) {
        Some(k) => h[k].doc matches Some(d) && d.kind == (DocKind::Audio { voice: true }),
        None => false,
    }
}

/// The detail the demo backend gives for chat `id`.
pub open spec fn detail_is(d: ChatDetail, id: i64) -> bool {
    let f = demo_detail_fields(id);
    &&& d.id == id
    &&& d.title@ == f.0
    &&& d.kind == f.1
    &&& opt_view(d.username) == f.2
    &&& opt_view(d.bio) == f.3
    &&& opt_view(d.phone) == f.4
    &&& d.members_count == f.5
    &&& !d.is_forum
}

/// The member list the demo backend gives for chat `id`.
pub open spec fn members_are(r: Seq<ParticipantRow>, id: i64) -> bool {
    &&& r.len() == demo_member_total(id)
    &&& forall|k: int|
        0 <= k < r.len() ==> {
            let m = demo_member(id, k);
            &&& (#[trigger] r[k]).id == m.0
            &&& r[k].name@ == m.1
            &&& opt_view(r[k].username) == m.2
            &&& r[k].role == m.3
        }
}

/// A media send the runtime simulates: progress ticks, then the upload's
/// end and the echo of the sent message.
#[derive(Debug)]
pub struct DemoUpload {
    pub chat_id: i64,
    pub token: u64,
    /// Id of the echoed message.
    pub msg_id: i32,
    /// Date of the echoed message.
    pub date: i32,
    pub path: String,
    pub caption: String,
    pub is_photo: bool,
    pub reply_to: Option<i32>,
    /// The chat's generated photo, standing in for an uploaded image.
    pub photo: Option<String>,
}

/// A document the runtime writes on disk before answering `DocReady`: a
/// generated voice recording for voice notes, a text file otherwise.
#[derive(Debug, Clone, Copy, PartialEq, Eq, Structural)]
pub struct DemoFetch {
    pub chat_id: i64,
    pub msg_id: i32,
    pub voice: bool,
}

/// How the backend answers one request.
#[derive(Debug)]
pub struct DemoReply {
    /// Messages for the interface, in order.
    pub messages: Vec<UiMessage>,
    /// An upload to simulate.
    pub upload: Option<DemoUpload>,
    /// A document to materialize.
    pub fetch: Option<DemoFetch>,
}

/// The effect of `OpenChat`: the chat is the open one; its history (with
/// the edited texts) and its pinned message (the first message of the
/// group, nothing elsewhere) are sent.
pub open spec fn open_chat_answered(s0: DemoServer, s1: DemoServer, id: i64, msgs: Seq<UiMessage>) -> bool {
    &&& s1 == (DemoServer { open: Some(id), ..s0 })
    &&& msgs.len() == 2
    &&& msgs[0] matches UiMessage::Messages { id: i, title, rows } && i == id && title@ == title_or(s0, id, "Chat"@)
        && exists|h: Seq<MsgRow>| #[trigger] history_is(h, id, s0.now as int, photo_of(s0, id), s0.stickers@, s0.big)
            && rows@ == edited(h, s0.edits@)
    &&& msgs[1] == UiMessage::PinnedMessage { chat_id: id, msg_id: if id == 1002 { Some(1i32) } else { None } }
}

/// The echo of a sent text: a new own message with the next id, dated at
/// the backend's start.
pub open spec fn echo_of(s0: DemoServer, id: i64, text: String, reply_to: Option<i32>) -> UiMessage {
    UiMessage::NewMessage {
        chat_id: id,
        id: s0.next_id,
        text,
        date: s0.now,
        out: true,
        photo: None,
        doc: None,
        sticker: None,
        reply_to,
        forwarded_from: None,
        sender_name: None,
        sender_id: None,
    }
}

impl DemoServer {
    /// `OpenChat`: see [`open_chat_answered`].
    pub fn open_chat(&mut self, id: i64) -> (msgs: Vec<UiMessage>)
        requires
            old(self).wf(),
        ensures
            open_chat_answered(*old(self), *final(self), id, msgs@),
    {
        broadcast use vstd::std_specs::hash::group_hash_axioms;
        self.open = Some(id);
        let h = self.history(id);
        let mut rows: Vec<MsgRow> = Vec::new();
        let mut i: usize = 0;
        while i < h.len()
            invariant
                i <= h.len(),
                rows@ == edited(h@.take(i as int), self.edits@),
            decreases h.len() - i,
        {
            let mut m = h[i].duplicate();
            match self.edits.get(&m.id) {
                Some(t) => {
                    m.text = t.clone();
                },
                None => {},
            }
            rows.push(m);
            proof {
                assert(h@.take(i as int + 1) =~= h@.take(i as int).push(h@[i as int]));
                assert(rows@ =~= edited(h@.take(i as int + 1), self.edits@));
            }
            i = i + 1;
        }
        proof {
            assert(h@.take(h.len() as int) =~= h@);
        }
        let title = self.title_of(id, "Chat");
        let mut msgs: Vec<UiMessage> = Vec::new();
        msgs.push(UiMessage::Messages { id, title, rows });
        msgs.push(UiMessage::PinnedMessage { chat_id: id, msg_id: if id == 1002 { Some(1) } else { None } });
        msgs
    }

    /// `SendMessage`: the text comes back as the next own message.
    pub fn send_message(&mut self, id: i64, text: String, reply_to: Option<i32>) -> (msgs: Vec<UiMessage>)
        requires
            old(self).next_id < i32::MAX,
        ensures
            send_answered(*old(self), *final(self), id, text, reply_to, msgs@),
    {
        let nid = self.next_id;
        self.next_id = nid + 1;
        let mut msgs: Vec<UiMessage> = Vec::new();
        msgs.push(UiMessage::NewMessage {
            chat_id: id,
            id: nid,
            text,
            date: self.now,
            out: true,
            photo: None,
            doc: None,
            sticker: None,
            reply_to,
            forwarded_from: None,
            sender_name: None,
            sender_id: None,
        });
        msgs
    }

    /// `SendMedia`: an upload to simulate, echoed as the next own message;
    /// the chat's photo stands in for an uploaded image.
    pub fn send_media(
        &mut self,
        id: i64,
        path: String,
        caption: String,
        is_photo: bool,
        reply_to: Option<i32>,
        token: u64,
    ) -> (u: DemoUpload)
        requires
            old(self).next_id < i32::MAX,
        ensures
            media_answered(*old(self), *final(self), id, path, caption, is_photo, reply_to, token, u),
    {
        let nid = self.next_id;
        self.next_id = nid + 1;
        let photo = self.photo_for(id);
        DemoUpload { chat_id: id, token, msg_id: nid, date: self.now, path, caption, is_photo, reply_to, photo }
    }

    /// `DownloadDoc`: the document to materialize, and whether the canned
    /// message is a voice note.
    pub fn download_doc(&self, chat_id: i64, msg_id: i32) -> (f: DemoFetch)
        requires
            self.wf(),
        ensures
            doc_answered(*self, chat_id, msg_id, f),
    {
        let h = self.history(chat_id);
        let voice = match first_row_of(&h, msg_id) {
            Some(k) => match &h[k].doc {
                Some(d) => d.kind == (DocKind::Audio { voice: true }),
                None => false,
            },
            None => false,
        };
        assert(history_is(h@, chat_id, self.now as int, photo_of(*self, chat_id), self.stickers@, self.big));
        DemoFetch { chat_id, msg_id, voice }
    }

    /// `EditMessage`: the new text is remembered and echoed.
    pub fn edit_message(&mut self, id: i64, msg_id: i32, text: String) -> (msgs: Vec<UiMessage>)
        ensures
            edit_answered(*old(self), *final(self), id, msg_id, text, msgs@),
    {
        broadcast use vstd::std_specs::hash::group_hash_axioms;
        self.edits.insert(msg_id, text.clone());
        let mut msgs: Vec<UiMessage> = Vec::new();
        msgs.push(UiMessage::MessageEdited { chat_id: id, id: msg_id, text, date: self.now });
        msgs
    }

    /// `DeleteMessage`: its edit is forgotten and the deletion echoed.
    pub fn delete_message(&mut self, msg_id: i32) -> (msgs: Vec<UiMessage>)
        ensures
            delete_answered(*old(self), *final(self), msg_id, msgs@),
    {
        broadcast use vstd::std_specs::hash::group_hash_axioms;
        self.edits.remove(&msg_id);
        let mut ids: Vec<i32> = Vec::new();
        ids.push(msg_id);
        let mut msgs: Vec<UiMessage> = Vec::new();
        msgs.push(UiMessage::MessageDeleted { ids });
        msgs
    }
}

/// The effect of `ForwardMessage`: a known message of the source chat comes
/// back as a new own message of the target chat marked as forwarded from
/// the source chat's title, followed by its downloaded photo and document;
/// an unknown message changes nothing.
pub open spec fn forward_answered(
    s0: DemoServer,
    s1: DemoServer,
    from_chat: i64,
    msg_id: i32,
    to_chat: i64,
    msgs: Seq<UiMessage>,
) -> bool {
    exists|h: Seq<MsgRow>| #[trigger] history_is(h, from_chat, s0.now as int, photo_of(s0, from_chat), s0.stickers@, s0.big) &&
        match first_row(h, msg_id, 0) {
            None => s1 == s0 && msgs.len() == 0,
            Some(k) => {
                let o = h[k];
                let nid = s0.next_id;
                &&& s1 == (DemoServer { next_id: (nid + 1) as i32, ..s0 })
                &&& msgs.len() >= 1
                &&& msgs[0] matches UiMessage::NewMessage {
                    chat_id, id, text, date, out, photo, doc, sticker, reply_to, forwarded_from, sender_name, sender_id,
                } && chat_id == to_chat && id == nid && text == o.text && date == s0.now && out && photo == o.photo
                    && doc == o.doc && sticker is None && reply_to is None && sender_name is None && sender_id is None
                    && opt_view(forwarded_from) == Some(title_or(s0, from_chat, ""@))
                &&& msgs.skip(1) == (match o.photo_path {
                    Some(p) => seq![UiMessage::PhotoReady { chat_id: to_chat, msg_id: nid, path: Some(p) }],
                    None => Seq::empty(),
                }) + (match o.doc_path {
                    Some(p) => seq![UiMessage::DocReady { chat_id: to_chat, msg_id: nid, path: Some(p) }],
                    None => Seq::empty(),
                })
            },
        }
}

/// The list rows of `s`'s chats.
pub open spec fn rows_of(s: DemoServer) -> Seq<ChatRow> {
    s.chats@.map_values(|c: DemoChat| chat_row_of(c, s.now, s.avatars@))
}

impl DemoServer {
    /// `ForwardMessage`: see [`forward_answered`].
    pub fn forward_message(&mut self, from_chat: i64, msg_id: i32, to_chat: i64) -> (msgs: Vec<UiMessage>)
        requires
            old(self).wf(),
            old(self).next_id < i32::MAX,
        ensures
            forward_answered(*old(self), *final(self), from_chat, msg_id, to_chat, msgs@),
    {
        let h = self.history(from_chat);
        assert(history_is(h@, from_chat, self.now as int, photo_of(*self, from_chat), self.stickers@, self.big));
        let k = match first_row_of(&h, msg_id) {
            Some(k) => k,
            None => {
                return Vec::new();
            },
        };
        let o = h[k].duplicate();
        let from_title = self.title_of(from_chat, "");
        let nid = self.next_id;
        self.next_id = nid + 1;
        let photo_path = match &o.photo_path {
            Some(p) => Some(p.clone()),
            None => None,
        };
        let doc_path = match &o.doc_path {
            Some(p) => Some(p.clone()),
            None => None,
        };
        let mut msgs: Vec<UiMessage> = Vec::new();
        msgs.push(UiMessage::NewMessage {
            chat_id: to_chat,
            id: nid,
            text: o.text,
            date: self.now,
            out: true,
            photo: o.photo,
            doc: o.doc,
            sticker: None,
            reply_to: None,
            forwarded_from: Some(from_title),
            sender_name: None,
            sender_id: None,
        });
        let ghost head = msgs@[0];
        let ghost t1: Seq<UiMessage> = match o.photo_path {
            Some(p) => seq![UiMessage::PhotoReady { chat_id: to_chat, msg_id: nid, path: Some(p) }],
            None => Seq::empty(),
        };
        let ghost t2: Seq<UiMessage> = match o.doc_path {
            Some(p) => seq![UiMessage::DocReady { chat_id: to_chat, msg_id: nid, path: Some(p) }],
            None => Seq::empty(),
        };
        match photo_path {
            Some(p) => {
                msgs.push(UiMessage::PhotoReady { chat_id: to_chat, msg_id: nid, path: Some(p) });
            },
            None => {},
        }
        assert(msgs@ =~= seq![head] + t1);
        match doc_path {
            Some(p) => {
                msgs.push(UiMessage::DocReady { chat_id: to_chat, msg_id: nid, path: Some(p) });
            },
            None => {},
        }
        proof {
            assert(msgs@ =~= seq![head] + t1 + t2);
            assert(msgs@.skip(1) =~= t1 + t2);
            assert(o == h@[k as int]);
            assert(first_row(h@, msg_id, 0) == Some(k as int));
        }
        msgs
    }

    /// `PinMessage`: the chat's pinned message becomes the message, or
    /// nothing when unpinning.
    pub fn pin_message(&self, id: i64, msg_id: i32, pin: bool) -> (msgs: Vec<UiMessage>)
        ensures
            msgs@ == seq![UiMessage::PinnedMessage { chat_id: id, msg_id: if pin { Some(msg_id) } else { None } }],
    {
        let mut msgs: Vec<UiMessage> = Vec::new();
        msgs.push(UiMessage::PinnedMessage { chat_id: id, msg_id: if pin { Some(msg_id) } else { None } });
        msgs
    }

    /// `CreateChannel`: a new, empty chat with the next chat id joins the
    /// list; the list is sent again and the creation announced.
    pub fn create_chat(&mut self, title: String) -> (msgs: Vec<UiMessage>)
        requires
            old(self).wf(),
            old(self).next_chat_id < i64::MAX,
        ensures
            create_answered(*old(self), *final(self), title, msgs@),
    {
        let id = self.next_chat_id;
        self.next_chat_id = id + 1;
        self.chats.push(DemoChat { id, title, subtitle: String::new(), last_ago: 0, unread: 0 });
        proof {
            assert(self.chats@.drop_last() =~= old(self).chats@);
            assert forall|k: int| 0 <= k < self.chats@.len() implies i32::MIN <= self.now - #[trigger] self.chats@[k].last_ago
                <= i32::MAX by {
                if k < old(self).chats@.len() {
                    assert(self.chats@[k] == old(self).chats@[k]);
                }
            }
        }
        let mut msgs: Vec<UiMessage> = Vec::new();
        msgs.push(UiMessage::Dialogs(self.rows()));
        msgs.push(UiMessage::ChatCreated { id });
        msgs
    }

    /// `LeaveChat` and `DeleteChat`: the chat leaves the list; the list is
    /// sent again and the chat announced gone.
    pub fn remove_chat(&mut self, id: i64) -> (msgs: Vec<UiMessage>)
        requires
            old(self).wf(),
        ensures
            remove_answered(*old(self), *final(self), id, msgs@),
    {
        let ghost keep = |c: DemoChat| c.id != id;
        let ghost all = self.chats@;
        let mut kept: Vec<DemoChat> = Vec::new();
        let mut i: usize = 0;
        while i < self.chats.len()
            invariant
                i <= self.chats.len(),
                self.chats@ == all,
                keep == (|c: DemoChat| c.id != id),
                kept@ == all.take(i as int).filter(keep),
            decreases self.chats.len() - i,
        {
            let c = &self.chats[i];
            proof {
                assert(all.take(i as int + 1) =~= all.take(i as int).push(all[i as int]));
                all.take(i as int).lemma_filter_push(all[i as int], keep);
            }
            if c.id != id {
                kept.push(DemoChat {
                    id: c.id,
                    title: c.title.clone(),
                    subtitle: c.subtitle.clone(),
                    last_ago: c.last_ago,
                    unread: c.unread,
                });
                assert(kept@.last() == all[i as int]);
                assert(keep(all[i as int]));
            } else {
                assert(!keep(all[i as int]));
            }
            proof {
                assert(all.take(i as int + 1).filter(keep) =~= kept@);
            }
            i = i + 1;
        }
        proof {
            assert(all.take(all.len() as int) =~= all);
        }
        self.chats = kept;
        proof {
            assert forall|k: int| 0 <= k < self.chats@.len() implies i32::MIN <= self.now - #[trigger] self.chats@[k].last_ago
                <= i32::MAX by {
                let c = self.chats@[k];
                assert(all.filter(keep)[k] == c);
                all.lemma_filter_contains_rev(keep, c);
            }
        }
        let mut msgs: Vec<UiMessage> = Vec::new();
        msgs.push(UiMessage::Dialogs(self.rows()));
        msgs.push(UiMessage::ChatGone { id });
        msgs
    }
}

/// `chats` with chat `id` (the first one) renamed to `title`.
pub open spec fn renamed(chats: Seq<DemoChat>, id: i64, title: String) -> Seq<DemoChat> {
    match find_chat(chats, id, 0) {
        Some(k) => chats.update(k, DemoChat { title, ..chats[k] }),
        None => chats,
    }
}

/// The picker data of the demo packs.
pub open spec fn bridge_set_is(b: StickerSetBridge, s: DemoStickerSet) -> bool {
    &&& b.title == s.title
    &&& b.short_name == s.short_name
    &&& b.docs@.len() == s.docs@.len()
    &&& forall|j: int| 0 <= j < s.docs@.len() ==> {
        let d = #[trigger] s.docs@[j];
        b.docs@[j] == (d.doc_id, d.access_hash, d.alt)
    }
}

/// The thumbnails of all packs, pack by pack, sticker by sticker.
pub open spec fn thumbs_of(sets: Seq<DemoStickerSet>) -> Seq<UiMessage>
    decreases sets.len(),
{
    if sets.len() == 0 {
        Seq::empty()
    } else {
        thumbs_of(sets.drop_last()) + sets.last().docs@.map_values(
            |d: DemoSticker| UiMessage::StickerThumbReady { doc_id: d.doc_id, path: Some(d.path) },
        )
    }
}

/// The first sticker with id `doc_id`, pack by pack, from pack `s`.
pub open spec fn find_sticker(sets: Seq<DemoStickerSet>, doc_id: i64, s: int) -> Option<DemoSticker>
    decreases sets.len() - s,
{
    if s < 0 || s >= sets.len() {
        None
    } else {
        match first_sticker(sets[s].docs@, doc_id, 0) {
            Some(d) => Some(sets[s].docs@[d]),
            None => find_sticker(sets, doc_id, s + 1),
        }
    }
}

/// Index of the first sticker of `docs` (from `i`) with id `doc_id`.
pub open spec fn first_sticker(docs: Seq<DemoSticker>, doc_id: i64, i: int) -> Option<int>
    decreases docs.len() - i,
{
    if i < 0 || i >= docs.len() {
        None
    } else if docs[i].doc_id == doc_id {
        Some(i)
    } else {
        first_sticker(docs, doc_id, i + 1)
    }
}

proof fn lemma_first_sticker(docs: Seq<DemoSticker>, doc_id: i64, i: int)
    requires
        0 <= i,
    ensures
        first_sticker(docs, doc_id, i) matches Some(k) ==> i <= k < docs.len(),
    decreases docs.len() - i,
{
    if i < docs.len() && docs[i].doc_id != doc_id {
        lemma_first_sticker(docs, doc_id, i + 1);
    }
}

impl DemoServer {
    /// `EditChatTitle`: the chat is renamed; the list is sent again, and
    /// the open chat's history under its new title.
    pub fn rename_chat(&mut self, id: i64, title: String) -> (msgs: Vec<UiMessage>)
        requires
            old(self).wf(),
        ensures
            rename_answered(*old(self), *final(self), id, title, msgs@),
    {
        let t2 = title.clone();
        match self.find(id) {
            Some(k) => {
                let old_c = &self.chats[k];
                let c = DemoChat {
                    id: old_c.id,
                    title,
                    subtitle: old_c.subtitle.clone(),
                    last_ago: old_c.last_ago,
                    unread: old_c.unread,
                };
                self.chats.set(k, c);
            },
            None => {},
        }
        proof {
            assert(self.chats@ =~= renamed(old(self).chats@, id, t2));
            assert forall|j: int| 0 <= j < self.chats@.len() implies i32::MIN <= self.now - #[trigger] self.chats@[j].last_ago
                <= i32::MAX by {
                assert(self.chats@[j].last_ago == old(self).chats@[j].last_ago);
            }
        }
        let mut msgs: Vec<UiMessage> = Vec::new();
        msgs.push(UiMessage::Dialogs(self.rows()));
        if self.open == Some(id) {
            let h = self.history(id);
            msgs.push(UiMessage::Messages { id, title: t2, rows: h });
        }
        msgs
    }

    /// `GetStickerSets`: the packs for the picker, then every thumbnail.
    pub fn sticker_sets(&self) -> (msgs: Vec<UiMessage>)
        ensures
            stickers_answered(*self, msgs@),
    {
        let mut sets: Vec<StickerSetBridge> = Vec::new();
        let mut thumbs: Vec<UiMessage> = Vec::new();
        let mut i: usize = 0;
        while i < self.stickers.len()
            invariant
                i <= self.stickers.len(),
                sets@.len() == i,
                forall|k: int| 0 <= k < i ==> bridge_set_is(#[trigger] sets@[k], self.stickers@[k]),
                thumbs@ == thumbs_of(self.stickers@.take(i as int)),
            decreases self.stickers.len() - i,
        {
            let st = &self.stickers[i];
            let mut docs: Vec<(i64, i64, String)> = Vec::new();
            let ghost before = thumbs@;
            let mut j: usize = 0;
            while j < st.docs.len()
                invariant
                    j <= st.docs.len(),
                    st == self.stickers@[i as int],
                    docs@.len() == j,
                    forall|q: int| 0 <= q < j ==> #[trigger] docs@[q] == (st.docs@[q].doc_id, st.docs@[q].access_hash, st.docs@[q].alt),
                    thumbs@ == before + st.docs@.take(j as int).map_values(
                        |d: DemoSticker| UiMessage::StickerThumbReady { doc_id: d.doc_id, path: Some(d.path) },
                    ),
                decreases st.docs.len() - j,
            {
                let d = &st.docs[j];
                docs.push((d.doc_id, d.access_hash, d.alt.clone()));
                thumbs.push(UiMessage::StickerThumbReady { doc_id: d.doc_id, path: Some(d.path.clone()) });
                proof {
                    assert(st.docs@.take(j as int + 1) =~= st.docs@.take(j as int).push(st.docs@[j as int]));
                    assert(thumbs@ =~= before + st.docs@.take(j as int + 1).map_values(
                        |d: DemoSticker| UiMessage::StickerThumbReady { doc_id: d.doc_id, path: Some(d.path) },
                    ));
                }
                j = j + 1;
            }
            sets.push(StickerSetBridge { title: st.title.clone(), short_name: st.short_name.clone(), docs });
            proof {
                assert(st.docs@.take(st.docs@.len() as int) =~= st.docs@);
                assert(self.stickers@.take(i as int + 1).drop_last() =~= self.stickers@.take(i as int));
                assert(thumbs@ =~= thumbs_of(self.stickers@.take(i as int + 1)));
            }
            i = i + 1;
        }
        proof {
            assert(self.stickers@.take(self.stickers.len() as int) =~= self.stickers@);
        }
        let mut msgs: Vec<UiMessage> = Vec::new();
        msgs.push(UiMessage::StickerSets(sets));
        let ghost head = msgs@;
        msgs.append(&mut thumbs);
        proof {
            assert(msgs@.skip(1) =~= thumbs_of(self.stickers@));
        }
        msgs
    }

    /// The first sticker with id `doc_id`, pack by pack.
    fn sticker_by_id(&self, doc_id: i64) -> (r: Option<(usize, usize)>)
        ensures
            match find_sticker(self.stickers@, doc_id, 0) {
                Some(d) => r matches Some(p) && p.0 < self.stickers.len() && p.1 < self.stickers@[p.0 as int].docs.len()
                    && self.stickers@[p.0 as int].docs@[p.1 as int] == d,
                None => r is None,
            },
    {
        let mut s: usize = 0;
        while s < self.stickers.len()
            invariant
                s <= self.stickers.len(),
                find_sticker(self.stickers@, doc_id, 0) == find_sticker(self.stickers@, doc_id, s as int),
            decreases self.stickers.len() - s,
        {
            let docs = &self.stickers[s].docs;
            let mut j: usize = 0;
            while j < docs.len()
                invariant
                    j <= docs.len(),
                    s < self.stickers.len(),
                    find_sticker(self.stickers@, doc_id, 0) == find_sticker(self.stickers@, doc_id, s as int),
                    docs@ == self.stickers@[s as int].docs@,
                    first_sticker(docs@, doc_id, 0) == first_sticker(docs@, doc_id, j as int),
                decreases docs.len() - j,
            {
                if docs[j].doc_id == doc_id {
                    proof {
                        assert(first_sticker(docs@, doc_id, j as int) == Some(j as int));
                        assert(find_sticker(self.stickers@, doc_id, s as int) == Some(docs@[j as int]));
                    }
                    return Some((s, j));
                }
                j = j + 1;
            }
            proof {
                assert(first_sticker(docs@, doc_id, j as int) is None);
                assert(find_sticker(self.stickers@, doc_id, s as int) == find_sticker(self.stickers@, doc_id, s + 1));
            }
            s = s + 1;
        }
        None
    }

    /// `SendSticker`: a known sticker comes back as the next own message
    /// carrying it, then its file; an unknown one changes nothing.
    pub fn send_sticker(&mut self, id: i64, doc_id: i64) -> (msgs: Vec<UiMessage>)
        requires
            old(self).next_id < i32::MAX,
        ensures
            sticker_sent(*old(self), *final(self), id, doc_id, msgs@),
    {
        let (s, j) = match self.sticker_by_id(doc_id) {
            Some(p) => p,
            None => {
                return Vec::new();
            },
        };
        let alt = self.stickers[s].docs[j].alt.clone();
        let path = self.stickers[s].docs[j].path.clone();
        let nid = self.next_id;
        self.next_id = nid + 1;
        let mut msgs: Vec<UiMessage> = Vec::new();
        msgs.push(UiMessage::NewMessage {
            chat_id: id,
            id: nid,
            text: String::new(),
            date: self.now,
            out: true,
            photo: None,
            doc: None,
            sticker: Some(StickerMeta { alt }),
            reply_to: None,
            forwarded_from: None,
            sender_name: None,
            sender_id: None,
        });
        msgs.push(UiMessage::StickerPathReady { chat_id: id, msg_id: nid, path: Some(path) });
        msgs
    }

    /// `DownloadSticker`: the file of the canned message's sticker, when it
    /// has one.
    pub fn download_sticker(&self, chat_id: i64, msg_id: i32) -> (msgs: Vec<UiMessage>)
        requires
            self.wf(),
        ensures
            sticker_fetched(*self, chat_id, msg_id, msgs@),
    {
        let h = self.history(chat_id);
        let mut msgs: Vec<UiMessage> = Vec::new();
        match first_row_of(&h, msg_id) {
            Some(k) => match &h[k].sticker_path {
                Some(p) => {
                    msgs.push(UiMessage::StickerPathReady { chat_id, msg_id, path: Some(p.clone()) });
                },
                None => {},
            },
            None => {},
        }
        proof {
            assert(history_is(h@, chat_id, self.now as int, photo_of(*self, chat_id), self.stickers@, self.big));
            assert(msgs@ =~= (match first_row(h@, msg_id, 0) {
                Some(k) => match h@[k].sticker_path {
                    Some(p) => seq![UiMessage::StickerPathReady { chat_id, msg_id, path: Some(p) }],
                    None => Seq::empty(),
                },
                None => Seq::empty(),
            }));
        }
        msgs
    }
}

/// The effect of `SendMessage`: the text comes back as the next own message.
pub open spec fn send_answered(s0: DemoServer, s1: DemoServer, id: i64, text: String, reply_to: Option<i32>, msgs: Seq<UiMessage>) -> bool {
    &&& s1 == (DemoServer { next_id: (s0.next_id + 1) as i32, ..s0 })
    &&& msgs == seq![echo_of(s0, id, text, reply_to)]
}

/// The effect of `SendMedia`: an upload echoed as the next own message, the
/// chat's photo standing in for an uploaded image.
pub open spec fn media_answered(s0: DemoServer, s1: DemoServer, id: i64, path: String, caption: String, is_photo: bool, reply_to: Option<i32>, token: u64, u: DemoUpload) -> bool {
    &&& s1 == (DemoServer { next_id: (s0.next_id + 1) as i32, ..s0 })
    &&& u.chat_id == id && u.token == token && u.msg_id == s0.next_id && u.date == s0.now
    &&& u.path == path && u.caption == caption && u.is_photo == is_photo && u.reply_to == reply_to
    &&& opt_view(u.photo) == photo_of(s0, id)
}

/// The answer to `DownloadDoc`: the document to materialize, a voice recording
/// when the canned message is a voice note.
pub open spec fn doc_answered(s0: DemoServer, chat_id: i64, msg_id: i32, f: DemoFetch) -> bool {
    &&& f.chat_id == chat_id && f.msg_id == msg_id
    &&& exists|h: Seq<MsgRow>| #[trigger] history_is(h, chat_id, s0.now as int, photo_of(s0, chat_id), s0.stickers@, s0.big)
            && f.voice == is_voice_row(h, msg_id)
}

/// The effect of `EditMessage`: the new text is remembered and echoed.
pub open spec fn edit_answered(s0: DemoServer, s1: DemoServer, id: i64, msg_id: i32, text: String, msgs: Seq<UiMessage>) -> bool {
    &&& s1.edits@ == s0.edits@.insert(msg_id, text)
    &&& s1 == (DemoServer { edits: s1.edits, ..s0 })
    &&& msgs == seq![UiMessage::MessageEdited { chat_id: id, id: msg_id, text, date: s0.now }]
}

/// The effect of `DeleteMessage`: the edit is forgotten and the deletion echoed.
pub open spec fn delete_answered(s0: DemoServer, s1: DemoServer, msg_id: i32, msgs: Seq<UiMessage>) -> bool {
    &&& s1.edits@ == s0.edits@.remove(msg_id)
    &&& s1 == (DemoServer { edits: s1.edits, ..s0 })
    &&& msgs.len() == 1
    &&& msgs[0] matches UiMessage::MessageDeleted { ids } && ids@ == seq![msg_id]
}

/// The effect of `CreateChannel`: a new, empty chat with the next chat id joins
/// the list; the list is sent again and the creation announced.
pub open spec fn create_answered(s0: DemoServer, s1: DemoServer, title: String, msgs: Seq<UiMessage>) -> bool {
    &&& s1.chats@.len() == s0.chats@.len() + 1
    &&& s1.chats@.drop_last() == s0.chats@
    &&& s1.chats@.last().id == s0.next_chat_id
    &&& s1.chats@.last().title == title
    &&& s1.chats@.last().subtitle@ == Seq::<char>::empty()
    &&& s1.chats@.last().last_ago == 0 && s1.chats@.last().unread == 0
    &&& s1 == (DemoServer {
            chats: s1.chats,
            next_chat_id: (s0.next_chat_id + 1) as i64,
            ..s0
        })
    &&& s1.wf()
    &&& msgs.len() == 2
    &&& msgs[0] matches UiMessage::Dialogs(rows) && rows@ == rows_of(s1)
    &&& msgs[1] == (UiMessage::ChatCreated { id: s0.next_chat_id })
}

/// The effect of `LeaveChat` and `DeleteChat`: the chat leaves the list; the
/// list is sent again and the chat announced gone.
pub open spec fn remove_answered(s0: DemoServer, s1: DemoServer, id: i64, msgs: Seq<UiMessage>) -> bool {
    &&& s1.chats@ == s0.chats@.filter(|c: DemoChat| c.id != id)
    &&& s1 == (DemoServer { chats: s1.chats, ..s0 })
    &&& s1.wf()
    &&& msgs.len() == 2
    &&& msgs[0] matches UiMessage::Dialogs(rows) && rows@ == rows_of(s1)
    &&& msgs[1] == (UiMessage::ChatGone { id })
}

/// The effect of `EditChatTitle`: the chat is renamed; the list is sent again,
/// and the open chat's history under its new title.
pub open spec fn rename_answered(s0: DemoServer, s1: DemoServer, id: i64, title: String, msgs: Seq<UiMessage>) -> bool {
    &&& s1.chats@ == renamed(s0.chats@, id, title)
    &&& s1 == (DemoServer { chats: s1.chats, ..s0 })
    &&& s1.wf()
    &&& msgs.len() == (if s0.open == Some(id) { 2int } else { 1int })
    &&& msgs[0] matches UiMessage::Dialogs(rows) && rows@ == rows_of(s1)
    &&& s0.open == Some(id) ==> (msgs[1] matches UiMessage::Messages { id: i, title: t, rows }
            && i == id && t == title && exists|h: Seq<MsgRow>| #[trigger] history_is(h, id, s0.now as int,
            photo_of(s1, id), s0.stickers@, s0.big) && rows@ == h)
}

/// The answer to `GetStickerSets`: the packs for the picker, then every thumbnail.
pub open spec fn stickers_answered(s0: DemoServer, msgs: Seq<UiMessage>) -> bool {
    &&& msgs.len() >= 1
    &&& msgs[0] matches UiMessage::StickerSets(sets) && sets@.len() == s0.stickers@.len()
            && forall|i: int| 0 <= i < sets@.len() ==> bridge_set_is(#[trigger] sets@[i], s0.stickers@[i])
    &&& msgs.skip(1) == thumbs_of(s0.stickers@)
}

/// The effect of `SendSticker`: a known sticker comes back as the next own
/// message carrying it, then its file; an unknown one changes nothing.
pub open spec fn sticker_sent(s0: DemoServer, s1: DemoServer, id: i64, doc_id: i64, msgs: Seq<UiMessage>) -> bool {
    &&& match find_sticker(s0.stickers@, doc_id, 0) {
            None => s1 == s0 && msgs.len() == 0,
            Some(d) => {
                &&& s1 == (DemoServer { next_id: (s0.next_id + 1) as i32, ..s0 })
                &&& msgs.len() == 2
                &&& msgs[0] matches UiMessage::NewMessage {
                    chat_id, id: i, text, date, out, photo, doc, sticker, reply_to, forwarded_from, sender_name, sender_id,
                } && chat_id == id && i == s0.next_id && text@.len() == 0 && date == s0.now && out
                    && photo is None && doc is None && reply_to is None && forwarded_from is None
                    && sender_name is None && sender_id is None && sticker == Some(StickerMeta { alt: d.alt })
                &&& msgs[1] == (UiMessage::StickerPathReady { chat_id: id, msg_id: s0.next_id, path: Some(d.path) })
            },
        }
}

/// The answer to `DownloadSticker`: the file of the canned message's sticker, when it has one.
pub open spec fn sticker_fetched(s0: DemoServer, chat_id: i64, msg_id: i32, msgs: Seq<UiMessage>) -> bool {
    &&& exists|h: Seq<MsgRow>| #[trigger] history_is(h, chat_id, s0.now as int, photo_of(s0, chat_id), s0.stickers@, s0.big)
            && msgs == (match first_row(h, msg_id, 0) {
                Some(k) => match h[k].sticker_path {
                    Some(p) => seq![UiMessage::StickerPathReady { chat_id, msg_id, path: Some(p) }],
                    None => Seq::empty(),
                },
                None => Seq::empty(),
            })
}

/// Cap on the hits of one search.
pub const SEARCH_LIMIT: usize = 30;

/// A row's lowercased text holds the lowercased query (see
/// [`matches_query`]).
pub open spec fn row_matches(m: MsgRow, lq: Seq<char>) -> bool {
    lq.len() > 0 && spec_contains(lowercase(m.text@), lq)
}

/// The rows of `h` that match `lq`, in order.
pub open spec fn matching(h: Seq<MsgRow>, lq: Seq<char>) -> Seq<MsgRow> {
    h.filter(|m: MsgRow| row_matches(m, lq))
}

/// The number of hits kept out of `n`.
pub open spec fn capped(n: nat) -> nat {
    if n > SEARCH_LIMIT { SEARCH_LIMIT as nat } else { n }
}

/// The rows a chat contributes to a global search: all of them when its
/// title matches, else those whose text matches.
pub open spec fn chat_matching(c: DemoChat, h: Seq<MsgRow>, lq: Seq<char>) -> Seq<MsgRow> {
    if lq.len() > 0 && spec_contains(lowercase(c.title@), lq) {
        h
    } else {
        matching(h, lq)
    }
}

/// Global hits: one per chat (in list order) that contributes a row, its
/// first such row, `hs[k]` being the history of chat `k`.
pub open spec fn global_hits(chats: Seq<DemoChat>, hs: Seq<Seq<MsgRow>>, lq: Seq<char>) -> Seq<SearchHit>
    decreases chats.len(),
{
    if chats.len() == 0 || hs.len() != chats.len() {
        Seq::empty()
    } else {
        let rest = global_hits(chats.drop_last(), hs.drop_last(), lq);
        let c = chats.last();
        let rows = chat_matching(c, hs.last(), lq);
        if rows.len() > 0 {
            rest.push(SearchHit { chat_id: c.id, chat_title: c.title, row: rows[0] })
        } else {
            rest
        }
    }
}

/// `hs` holds the canned history of each listed chat of `s`.
pub open spec fn histories_of(s: DemoServer, hs: Seq<Seq<MsgRow>>) -> bool {
    &&& hs.len() == s.chats@.len()
    &&& forall|k: int| 0 <= k < hs.len() ==> #[trigger] history_is(hs[k], s.chats@[k].id, s.now as int,
        photo_of(s, s.chats@[k].id), s.stickers@, s.big)
}

/// The answer to `Search`: within chat `id` the first matching rows of its
/// history under its title ("Chat" when unlisted); globally the chats'
/// first contributions; at most [`SEARCH_LIMIT`] hits either way, the
/// query being lowercased (and the texts and titles too) before matching.
pub open spec fn search_answered(s: DemoServer, id: Option<i64>, query: String, msgs: Seq<UiMessage>) -> bool {
    let lq = lowercase(query@);
    &&& msgs.len() == 1
    &&& msgs[0] matches UiMessage::SearchResults { id: i, query: q, hits } && i == id && q == query && match id {
        Some(cid) => exists|h: Seq<MsgRow>| #[trigger] history_is(h, cid, s.now as int, photo_of(s, cid), s.stickers@, s.big)
            && hits@.len() == capped(matching(h, lq).len()) && forall|j: int| 0 <= j < hits@.len() ==> {
                &&& (#[trigger] hits@[j]).chat_id == cid
                &&& hits@[j].chat_title@ == title_or(s, cid, "Chat"@)
                &&& hits@[j].row == matching(h, lq)[j]
            },
        None => exists|hs: Seq<Seq<MsgRow>>| histories_of(s, hs) && hits@ == #[trigger] global_hits(s.chats@, hs, lq).take(
            capped(global_hits(s.chats@, hs, lq).len()) as int,
        ),
    }
}

impl DemoServer {
    /// The rows of `h` matching the lowercased query `lq`, or all of them
    /// when `all`.
    fn matching_rows(h: &Vec<MsgRow>, lq: &String, all: bool) -> (r: Vec<MsgRow>)
        ensures
            all ==> r@ == h@,
            !all ==> r@ == matching(h@, lq@),
    {
        let mut r: Vec<MsgRow> = Vec::new();
        let ghost p = |m: MsgRow| row_matches(m, lq@);
        let mut i: usize = 0;
        while i < h.len()
            invariant
                i <= h.len(),
                p == (|m: MsgRow| row_matches(m, lq@)),
                all ==> r@ == h@.take(i as int),
                !all ==> r@ == h@.take(i as int).filter(p),
            decreases h.len() - i,
        {
            proof {
                assert(h@.take(i as int + 1) =~= h@.take(i as int).push(h@[i as int]));
                h@.take(i as int).lemma_filter_push(h@[i as int], p);
            }
            let keep = if all {
                true
            } else {
                let lt = to_lowercase(h[i].text.as_str());
                matches_query(lt.as_str(), lq.as_str())
            };
            if keep {
                r.push(h[i].duplicate());
            }
            i = i + 1;
        }
        proof {
            assert(h@.take(h.len() as int) =~= h@);
        }
        r
    }

    /// `Search`: see [`search_answered`].
    pub fn search(&self, id: Option<i64>, query: String) -> (msgs: Vec<UiMessage>)
        requires
            self.wf(),
        ensures
            search_answered(*self, id, query, msgs@),
    {
        let lq = to_lowercase(query.as_str());
        let mut hits: Vec<SearchHit> = Vec::new();
        match id {
            Some(cid) => {
                let title = self.title_of(cid, "Chat");
                let h = self.history(cid);
                let rows = Self::matching_rows(&h, &lq, false);
                let mut j: usize = 0;
                while j < rows.len() && j < SEARCH_LIMIT
                    invariant
                        j <= rows.len(),
                        j <= SEARCH_LIMIT,
                        hits@.len() == j,
                        forall|q: int| 0 <= q < j ==> {
                            &&& (#[trigger] hits@[q]).chat_id == cid
                            &&& hits@[q].chat_title@ == title@
                            &&& hits@[q].row == rows@[q]
                        },
                    decreases rows.len() - j,
                {
                    hits.push(SearchHit { chat_id: cid, chat_title: title.clone(), row: rows[j].duplicate() });
                    j = j + 1;
                }
                proof {
                    assert(history_is(h@, cid, self.now as int, photo_of(*self, cid), self.stickers@, self.big));
                    assert(rows@ == matching(h@, lq@));
                    assert(j == rows.len() || j == SEARCH_LIMIT);
                    assert(hits@.len() == capped(rows@.len()));
                    assert(forall|q: int| 0 <= q < hits@.len() ==> {
                        &&& (#[trigger] hits@[q]).chat_id == cid
                        &&& hits@[q].chat_title@ == title_or(*self, cid, "Chat"@)
                        &&& hits@[q].row == matching(h@, lq@)[q]
                    });
                }
            },
            None => {
                let ghost mut hs: Seq<Seq<MsgRow>> = Seq::empty();
                let mut k: usize = 0;
                while k < self.chats.len()
                    invariant
                        k <= self.chats.len(),
                        self.wf(),
                        hs.len() == k,
                        forall|q: int| 0 <= q < k ==> #[trigger] history_is(hs[q], self.chats@[q].id, self.now as int,
                            photo_of(*self, self.chats@[q].id), self.stickers@, self.big),
                        hits@ == global_hits(self.chats@.take(k as int), hs, lq@),
                    decreases self.chats.len() - k,
                {
                    let c = &self.chats[k];
                    let h = self.history(c.id);
                    let lt = to_lowercase(c.title.as_str());
                    let found = matches_query(lt.as_str(), lq.as_str());
                    let rows = Self::matching_rows(&h, &lq, found);
                    let ghost hs0 = hs;
                    proof {
                        hs = hs.push(h@);
                        assert(self.chats@.take(k as int + 1).drop_last() =~= self.chats@.take(k as int));
                        assert(hs.drop_last() =~= hs0);
                    }
                    if rows.len() > 0 {
                        hits.push(SearchHit { chat_id: c.id, chat_title: c.title.clone(), row: rows[0].duplicate() });
                    }
                    k = k + 1;
                }
                proof {
                    assert(self.chats@.take(self.chats.len() as int) =~= self.chats@);
                    assert(histories_of(*self, hs));
                }
                if hits.len() > SEARCH_LIMIT {
                    hits.truncate(SEARCH_LIMIT);
                }
                proof {
                    assert(hits@ =~= global_hits(self.chats@, hs, lq@).take(
                        capped(global_hits(self.chats@, hs, lq@).len()) as int,
                    ));
                }
            },
        }
        let mut msgs: Vec<UiMessage> = Vec::new();
        msgs.push(UiMessage::SearchResults { id, query, hits });
        msgs
    }
}

/// Only messages: no upload, no document to materialize.
pub open spec fn messages_only(r: DemoReply) -> bool {
    r.upload is None && r.fetch is None
}

/// How the backend answers each request (see the per-request effects); a
/// request the demo has no answer for (typing, muting, sign-in, profile,
/// sessions, topics, admin rights, avatars) changes nothing.
pub open spec fn demo_answered(s0: DemoServer, s1: DemoServer, req: Request, r: DemoReply) -> bool {
    let msgs = r.messages@;
    match req {
        Request::OpenChat { id } => messages_only(r) && open_chat_answered(s0, s1, id, msgs),
        Request::SendMessage { id, text, reply_to } => messages_only(r) && send_answered(s0, s1, id, text, reply_to, msgs),
        Request::SendMedia { id, path, caption, is_photo, reply_to, token } => {
            &&& msgs.len() == 0
            &&& r.fetch is None
            &&& r.upload matches Some(u) && media_answered(s0, s1, id, path, caption, is_photo, reply_to, token, u)
        },
        Request::ForwardMessage { from_chat, msg_id, to_chat } => messages_only(r) && forward_answered(
            s0,
            s1,
            from_chat,
            msg_id,
            to_chat,
            msgs,
        ),
        Request::DownloadDoc { chat_id, msg_id } => {
            &&& s1 == s0
            &&& msgs.len() == 0
            &&& r.upload is None
            &&& r.fetch matches Some(f) && doc_answered(s0, chat_id, msg_id, f)
        },
        Request::Search { id, query } => messages_only(r) && s1 == s0 && search_answered(s0, id, query, msgs),
        Request::EditMessage { id, msg_id, text } => messages_only(r) && edit_answered(s0, s1, id, msg_id, text, msgs),
        Request::DeleteMessage { id: _, msg_id } => messages_only(r) && delete_answered(s0, s1, msg_id, msgs),
        Request::PinMessage { id, msg_id, pin } => messages_only(r) && s1 == s0 && msgs == seq![
            UiMessage::PinnedMessage { chat_id: id, msg_id: if pin { Some(msg_id) } else { None } },
        ],
        Request::CreateChannel { title, about: _, megagroup: _, members: _ } => messages_only(r) && create_answered(
            s0,
            s1,
            title,
            msgs,
        ),
        Request::LeaveChat { id } => messages_only(r) && remove_answered(s0, s1, id, msgs),
        Request::DeleteChat { id } => messages_only(r) && remove_answered(s0, s1, id, msgs),
        Request::EditChatTitle { id, title } => messages_only(r) && rename_answered(s0, s1, id, title, msgs),
        Request::MarkRead { id } => messages_only(r) && s1 == s0 && msgs == seq![UiMessage::ChatRead { id }],
        Request::GetChatInfo { id } => {
            &&& messages_only(r)
            &&& s1 == s0
            &&& msgs.len() == (if is_demo_chat(id) { 1int } else { 0int })
            &&& is_demo_chat(id) ==> (msgs[0] matches UiMessage::ChatInfo(d) && detail_is(d, id))
        },
        Request::GetParticipants { id } => {
            &&& messages_only(r)
            &&& s1 == s0
            &&& msgs.len() == 1
            &&& msgs[0] matches UiMessage::Participants(ps) && members_are(ps@, id)
        },
        Request::KickParticipant { id: _, user_id } => messages_only(r) && s1 == s0 && msgs == seq![
            UiMessage::ParticipantKicked { user_id },
        ],
        Request::GetStickerSets => messages_only(r) && s1 == s0 && stickers_answered(s0, msgs),
        Request::SendSticker { id, doc_id, access_hash: _ } => messages_only(r) && sticker_sent(s0, s1, id, doc_id, msgs),
        Request::DownloadSticker { chat_id, msg_id } => messages_only(r) && s1 == s0 && sticker_fetched(
            s0,
            chat_id,
            msg_id,
            msgs,
        ),
        _ => messages_only(r) && s1 == s0 && msgs.len() == 0,
    }
}

/// The request creates a message (and so takes a message id).
pub open spec fn takes_message_id(req: Request) -> bool {
    req is SendMessage || req is SendMedia || req is ForwardMessage || req is SendSticker
}

/// The texts the simulated peer sends, in turn.
pub open spec fn incoming_text(i: nat) -> Seq<char> {
    if i % 4 == 0 {
        "Hey there!"@
    } else if i % 4 == 1 {
        "Did you see the news this morning?"@
    } else if i % 4 == 2 {
        "On my way, picking you up in 20 min."@
    } else {
        "Don't forget to grab the package on the way 😉"@
    }
}

/// Steps of a simulated upload.
pub const UPLOAD_STEPS: u16 = 10;

/// The first demo chat, where the simulated peer writes.
pub const PEER_CHAT: i64 = 1001;

impl DemoServer {
    /// Answers one request (see [`demo_answered`]).
    pub fn handle(&mut self, req: Request) -> (r: DemoReply)
        requires
            old(self).wf(),
            takes_message_id(req) ==> old(self).next_id < i32::MAX,
            req is CreateChannel ==> old(self).next_chat_id < i64::MAX,
        ensures
            final(self).wf(),
            demo_answered(*old(self), *final(self), req, r),
    {
        let mut upload: Option<DemoUpload> = None;
        let mut fetch: Option<DemoFetch> = None;
        let messages = match req {
            Request::OpenChat { id } => self.open_chat(id),
            Request::SendMessage { id, text, reply_to } => self.send_message(id, text, reply_to),
            Request::SendMedia { id, path, caption, is_photo, reply_to, token } => {
                upload = Some(self.send_media(id, path, caption, is_photo, reply_to, token));
                Vec::new()
            },
            Request::ForwardMessage { from_chat, msg_id, to_chat } => self.forward_message(from_chat, msg_id, to_chat),
            Request::DownloadDoc { chat_id, msg_id } => {
                fetch = Some(self.download_doc(chat_id, msg_id));
                Vec::new()
            },
            Request::Search { id, query } => self.search(id, query),
            Request::EditMessage { id, msg_id, text } => self.edit_message(id, msg_id, text),
            Request::DeleteMessage { id: _, msg_id } => self.delete_message(msg_id),
            Request::PinMessage { id, msg_id, pin } => self.pin_message(id, msg_id, pin),
            Request::CreateChannel { title, about: _, megagroup: _, members: _ } => self.create_chat(title),
            Request::LeaveChat { id } => self.remove_chat(id),
            Request::DeleteChat { id } => self.remove_chat(id),
            Request::EditChatTitle { id, title } => self.rename_chat(id, title),
            Request::MarkRead { id } => {
                let mut v: Vec<UiMessage> = Vec::new();
                v.push(UiMessage::ChatRead { id });
                v
            },
            Request::GetChatInfo { id } => {
                let mut v: Vec<UiMessage> = Vec::new();
                match demo_chat_detail(id) {
                    Some(d) => {
                        v.push(UiMessage::ChatInfo(d));
                    },
                    None => {},
                }
                v
            },
            Request::GetParticipants { id } => {
                let mut v: Vec<UiMessage> = Vec::new();
                v.push(UiMessage::Participants(demo_participants(id)));
                v
            },
            Request::KickParticipant { id: _, user_id } => {
                let mut v: Vec<UiMessage> = Vec::new();
                v.push(UiMessage::ParticipantKicked { user_id });
                v
            },
            Request::GetStickerSets => self.sticker_sets(),
            Request::SendSticker { id, doc_id, access_hash: _ } => self.send_sticker(id, doc_id),
            Request::DownloadSticker { chat_id, msg_id } => self.download_sticker(chat_id, msg_id),
            _ => Vec::new(),
        };
        DemoReply { messages, upload, fetch }
    }

    /// The simulated peer of the first chat: `typing` says whether its
    /// typing burst is on now, `deliver` whether its next message is due
    /// (dated `date`). A change of the typing state is announced; a due
    /// message ends the burst and arrives with the next message id, the
    /// texts taken in turn.
    pub fn peer_tick(&mut self, typing: bool, deliver: bool, date: i32) -> (msgs: Vec<UiMessage>)
        requires
            deliver ==> old(self).next_id < i32::MAX && old(self).incoming_idx < usize::MAX,
        ensures
            ({
                let s0 = *old(self);
                let announce: Seq<UiMessage> = if typing != s0.typing_sent {
                    seq![UiMessage::PeerTyping { chat_id: PEER_CHAT, typing }]
                } else {
                    Seq::empty()
                };
                if deliver {
                    &&& *final(self) == (DemoServer {
                        typing_sent: false,
                        incoming_idx: (s0.incoming_idx + 1) as usize,
                        next_id: (s0.next_id + 1) as i32,
                        ..s0
                    })
                    &&& msgs@.len() == announce.len() + 2
                    &&& msgs@.take(announce.len() as int) == announce
                    &&& msgs@[announce.len() as int] == (UiMessage::PeerTyping { chat_id: PEER_CHAT, typing: false })
                    &&& msgs@[announce.len() as int + 1] matches UiMessage::NewMessage {
                        chat_id, id, text, date: d, out, photo, doc, sticker, reply_to, forwarded_from, sender_name, sender_id,
                    } && chat_id == PEER_CHAT && id == s0.next_id && text@ == incoming_text(s0.incoming_idx as nat)
                        && d == date && !out && photo is None && doc is None && sticker is None && reply_to is None
                        && forwarded_from is None && sender_name is None && sender_id is None
                } else {
                    &&& *final(self) == (DemoServer { typing_sent: typing, ..s0 })
                    &&& msgs@ == announce
                }
            }),
    {
        let mut msgs: Vec<UiMessage> = Vec::new();
        if typing != self.typing_sent {
            self.typing_sent = typing;
            msgs.push(UiMessage::PeerTyping { chat_id: PEER_CHAT, typing });
        }
        if deliver {
            let k = self.incoming_idx % 4;
            let text = if k == 0 {
                String::from_str("Hey there!")
            } else if k == 1 {
                String::from_str("Did you see the news this morning?")
            } else if k == 2 {
                String::from_str("On my way, picking you up in 20 min.")
            } else {
                String::from_str("Don't forget to grab the package on the way 😉")
            };
            self.incoming_idx = self.incoming_idx + 1;
            msgs.push(UiMessage::PeerTyping { chat_id: PEER_CHAT, typing: false });
            self.typing_sent = false;
            let nid = self.next_id;
            self.next_id = nid + 1;
            msgs.push(UiMessage::NewMessage {
                chat_id: PEER_CHAT,
                id: nid,
                text,
                date,
                out: false,
                photo: None,
                doc: None,
                sticker: None,
                reply_to: None,
                forwarded_from: None,
                sender_name: None,
                sender_id: None,
            });
        }
        msgs
    }
}

impl DemoUpload {
    /// Progress after `step` of the [`UPLOAD_STEPS`] steps, in thousandths.
    pub fn progress(&self, step: u16) -> (m: UiMessage)
        requires
            1 <= step <= UPLOAD_STEPS,
        ensures
            m == (UiMessage::UploadProgress { chat_id: self.chat_id, token: self.token, progress: (step * 100) as u16 }),
    {
        UiMessage::UploadProgress { chat_id: self.chat_id, token: self.token, progress: step * 100 }
    }

    /// The end of the upload of a file named `name` of `size` bytes: the
    /// upload is done, the message is echoed with its photo or document,
    /// then the document (the picked file itself) or the stand-in photo is
    /// ready.
    pub fn finish(self, name: String, size: i64) -> (msgs: Vec<UiMessage>)
        ensures
            msgs@.len() >= 2,
            msgs@[0] == (UiMessage::UploadDone { chat_id: self.chat_id, token: self.token }),
            msgs@[1] == (UiMessage::NewMessage {
                chat_id: self.chat_id,
                id: self.msg_id,
                text: self.caption,
                date: self.date,
                out: true,
                photo: if self.is_photo { Some((640u32, 480u32)) } else { None },
                doc: if self.is_photo { None } else { Some(DocMeta { name, size, kind: DocKind::File }) },
                sticker: None,
                reply_to: self.reply_to,
                forwarded_from: None,
                sender_name: None,
                sender_id: None,
            }),
            msgs@.skip(2) == (if !self.is_photo {
                seq![UiMessage::DocReady { chat_id: self.chat_id, msg_id: self.msg_id, path: Some(self.path) }]
            } else {
                match self.photo {
                    Some(p) => seq![UiMessage::PhotoReady { chat_id: self.chat_id, msg_id: self.msg_id, path: Some(p) }],
                    None => Seq::empty(),
                }
            }),
    {
        let mut msgs: Vec<UiMessage> = Vec::new();
        msgs.push(UiMessage::UploadDone { chat_id: self.chat_id, token: self.token });
        msgs.push(UiMessage::NewMessage {
            chat_id: self.chat_id,
            id: self.msg_id,
            text: self.caption,
            date: self.date,
            out: true,
            photo: if self.is_photo { Some((640, 480)) } else { None },
            doc: if self.is_photo { None } else { Some(DocMeta { name, size, kind: DocKind::File }) },
            sticker: None,
            reply_to: self.reply_to,
            forwarded_from: None,
            sender_name: None,
            sender_id: None,
        });
        if !self.is_photo {
            msgs.push(UiMessage::DocReady { chat_id: self.chat_id, msg_id: self.msg_id, path: Some(self.path) });
        } else {
            match self.photo {
                Some(p) => {
                    msgs.push(UiMessage::PhotoReady { chat_id: self.chat_id, msg_id: self.msg_id, path: Some(p) });
                },
                None => {},
            }
        }
        proof {
            assert(msgs@.skip(2) =~= (if !self.is_photo {
                seq![UiMessage::DocReady { chat_id: self.chat_id, msg_id: self.msg_id, path: Some(self.path) }]
            } else {
                match self.photo {
                    Some(p) => seq![UiMessage::PhotoReady { chat_id: self.chat_id, msg_id: self.msg_id, path: Some(p) }],
                    None => Seq::empty(),
                }
            }));
        }
        msgs
    }
}

impl DemoFetch {
    /// The document is on disk at `path`.
    pub fn ready(self, path: String) -> (m: UiMessage)
        ensures
            m == (UiMessage::DocReady { chat_id: self.chat_id, msg_id: self.msg_id, path: Some(path) }),
    {
        UiMessage::DocReady { chat_id: self.chat_id, msg_id: self.msg_id, path: Some(path) }
    }
}

/// The backend never hands out a message id or a chat id twice: whatever
/// the request (the ids it takes being still below their type's maximum,
/// as [`DemoServer::handle`] asks), the next ids only move forward.
pub proof fn lemma_demo_ids_move_forward(s0: DemoServer, s1: DemoServer, req: Request, r: DemoReply)
    requires
        takes_message_id(req) ==> s0.next_id < i32::MAX,
        req is CreateChannel ==> s0.next_chat_id < i64::MAX,
        demo_answered(s0, s1, req, r),
    ensures
        s1.next_id >= s0.next_id,
        s1.next_chat_id >= s0.next_chat_id,
{
    match req {
        Request::ForwardMessage { from_chat, msg_id, to_chat } => {
            let h = choose|h: Seq<MsgRow>| #[trigger] history_is(h, from_chat, s0.now as int, photo_of(s0, from_chat), s0.stickers@, s0.big)
                && match first_row(h, msg_id, 0) {
                    None => s1 == s0 && r.messages@.len() == 0,
                    Some(k) => s1 == (DemoServer { next_id: (s0.next_id + 1) as i32, ..s0 }) && r.messages@.len() >= 1,
                };
        },
        _ => {},
    }
}

/// An edited message shows its new text when its chat is opened again.
pub proof fn lemma_demo_edit_shows_on_reopen(
    s0: DemoServer,
    s1: DemoServer,
    s2: DemoServer,
    id: i64,
    msg_id: i32,
    text: String,
    edit_msgs: Seq<UiMessage>,
    cid: i64,
    open_msgs: Seq<UiMessage>,
)
    requires
        edit_answered(s0, s1, id, msg_id, text, edit_msgs),
        open_chat_answered(s1, s2, cid, open_msgs),
    ensures
        open_msgs[0] matches UiMessage::Messages { id: _, title: _, rows } && forall|j: int|
            0 <= j < rows@.len() && (#[trigger] rows@[j]).id == msg_id ==> rows@[j].text == text,
{
    if let UiMessage::Messages { id: _, title: _, rows } = open_msgs[0] {
        let h = choose|h: Seq<MsgRow>| #[trigger] history_is(h, cid, s1.now as int, photo_of(s1, cid), s1.stickers@, s1.big)
            && rows@ == edited(h, s1.edits@);
        assert forall|j: int| 0 <= j < rows@.len() && (#[trigger] rows@[j]).id == msg_id implies rows@[j].text == text by {
            assert(rows@[j] == (if s1.edits@.contains_key(h[j].id) {
                MsgRow { text: s1.edits@[h[j].id], ..h[j] }
            } else {
                h[j]
            }));
        }
    }
}

/// Creating a chat and then leaving it gives back the chat list it
/// started from (the new chat's id not being listed before).
pub proof fn lemma_demo_create_then_leave(
    s0: DemoServer,
    s1: DemoServer,
    s2: DemoServer,
    title: String,
    m1: Seq<UiMessage>,
    m2: Seq<UiMessage>,
)
    requires
        forall|k: int| 0 <= k < s0.chats@.len() ==> #[trigger] s0.chats@[k].id != s0.next_chat_id,
        create_answered(s0, s1, title, m1),
        remove_answered(s1, s2, s0.next_chat_id, m2),
    ensures
        s2.chats@ == s0.chats@,
{
    let keep = |c: DemoChat| c.id != s0.next_chat_id;
    assert(s1.chats@ =~= s0.chats@.push(s1.chats@.last()));
    s0.chats@.lemma_filter_push(s1.chats@.last(), keep);
    lemma_filter_keeps_all(s0.chats@, keep);
}

proof fn lemma_filter_keeps_all(cs: Seq<DemoChat>, p: spec_fn(DemoChat) -> bool)
    requires
        forall|k: int| 0 <= k < cs.len() ==> p(#[trigger] cs[k]),
    ensures
        cs.filter(p) == cs,
    decreases cs.len(),
{
    if cs.len() > 0 {
        lemma_filter_keeps_all(cs.drop_last(), p);
        assert(cs.drop_last().push(cs.last()) =~= cs);
        cs.drop_last().lemma_filter_push(cs.last(), p);
    } else {
        assert(cs.filter(p) =~= cs) by {
            reveal(Seq::filter);
        }
    }
}

} // verus!
