//! Visual theme: the light/dark mode, its persisted marker, both color
//! palettes and the per-title avatar colors.
//!
//! The active mode lives in the interface state (`prefs.theme_mode`);
//! [`set_mode`] and [`mode`] convert it to and from a small stored number.
//! Every color accessor takes the mode it resolves against.

#![allow(non_snake_case)]

use vstd::prelude::*;
use std::collections::HashMap;
use vstd::string::StringSliceAdditionalSpecFns;
use crate::text::{spec_trim, string_from_chars, trim_chars};

verus! {

/// Light/dark selection. The default is dark (the historical palette).
#[derive(Debug, Clone, Copy, PartialEq, Eq, Structural)]
pub enum ThemeMode {
    Dark,
    Light,
}

impl Default for ThemeMode {
    fn default() -> (m: Self)
        ensures
            m == ThemeMode::Dark,
    {
        ThemeMode::Dark
    }
}

/// The persisted marker text of a mode.
pub open spec fn spec_marker(m: ThemeMode) -> Seq<char> {
    match m {
        ThemeMode::Dark => "dark"@,
        ThemeMode::Light => "light"@,
    }
}

/// The mode a marker file content denotes: "light" (surrounding whitespace
/// ignored) is light, anything else dark.
pub open spec fn spec_parse_mode(s: Seq<char>) -> ThemeMode {
    if spec_trim(s) == "light"@ {
        ThemeMode::Light
    } else {
        ThemeMode::Dark
    }
}

/// Index into [`PALETTE`] (0 = dark, 1 = light).
pub open spec fn spec_idx(m: ThemeMode) -> usize {
    match m {
        ThemeMode::Dark => 0,
        ThemeMode::Light => 1,
    }
}

impl ThemeMode {
    /// Index into [`PALETTE`] (0 = dark, 1 = light).
    pub fn idx(self) -> (i: usize)
        ensures
            i == spec_idx(self),
    {
        match self {
            ThemeMode::Dark => 0,
            ThemeMode::Light => 1,
        }
    }

    /// Parses the persisted marker content (`"dark"` / `"light"`).
    pub fn parse(s: &str) -> (m: Self)
        ensures
            m == spec_parse_mode(s@),
    {
        let t = trim_chars(s);
        if t.len() == 5 && t[0] == 'l' && t[1] == 'i' && t[2] == 'g' && t[3] == 'h' && t[4] == 't' {
            proof {
                reveal_strlit("light");
                assert(t@ =~= "light"@);
            }
            ThemeMode::Light
        } else {
            proof {
                reveal_strlit("light");
            }
            ThemeMode::Dark
        }
    }

    /// Marker content persisted in the data dir.
    pub fn as_str(self) -> (s: &'static str)
        ensures
            s@ == spec_marker(self),
    {
        match self {
            ThemeMode::Dark => "dark",
            ThemeMode::Light => "light",
        }
    }
}

/// Writing a mode's marker and reading it back gives the same mode.
pub proof fn lemma_marker_roundtrip(m: ThemeMode)
    ensures
        spec_parse_mode(spec_marker(m)) == m,
{
    reveal_strlit("light");
    reveal_strlit("dark");
    let s = spec_marker(m);
    crate::text::lemma_trim_plain(s);
    if m == ThemeMode::Dark {
        assert(s.len() == 4);
    }
}

/// The number a mode is stored as (`0` = dark, `1` = light).
pub fn set_mode(m: ThemeMode) -> (slot: u8)
    ensures
        slot == spec_idx(m),
{
    m.idx() as u8
}

/// The mode a stored number stands for (`1` = light, anything else dark).
pub fn mode(slot: u8) -> (m: ThemeMode)
    ensures
        m == (if slot == 1 { ThemeMode::Light } else { ThemeMode::Dark }),
{
    if slot == 1 {
        ThemeMode::Light
    } else {
        ThemeMode::Dark
    }
}

/// Reading back what `set_mode` stored gives the mode that was set.
pub proof fn lemma_mode_roundtrip(m: ThemeMode)
    ensures
        (if spec_idx(m) == 1 { ThemeMode::Light } else { ThemeMode::Dark }) == m,
{
}

/// One complete palette. All values opaque `(r, g, b)` tuples.
#[derive(Debug, Clone, Copy)]
pub struct Palette {
    pub list_bg: (u8, u8, u8),
    pub chat_bg: (u8, u8, u8),
    pub row_hover: (u8, u8, u8),
    pub row_selected: (u8, u8, u8),
    pub bubble_recv: (u8, u8, u8),
    pub bubble_sent: (u8, u8, u8),
    pub accent: (u8, u8, u8),
    pub accent_hover: (u8, u8, u8),
    pub accent_pressed: (u8, u8, u8),
    pub icon: (u8, u8, u8),
    pub text_primary: (u8, u8, u8),
    pub text_secondary: (u8, u8, u8),
    pub input_border: (u8, u8, u8),
    pub error: (u8, u8, u8),
    pub input_fill: (u8, u8, u8),
    pub divider: (u8, u8, u8),
    pub perf_badge_bg: (u8, u8, u8),
    pub menu_bg: (u8, u8, u8),
    pub menu_border: (u8, u8, u8),
}

/// Historical dark palette.
pub open spec fn spec_dark() -> Palette {
    Palette {
        list_bg: (23, 33, 43),
        chat_bg: (14, 22, 33),
        row_hover: (31, 44, 57),
        row_selected: (43, 58, 92),
        bubble_recv: (24, 37, 51),
        bubble_sent: (43, 82, 120),
        accent: (51, 144, 236),
        accent_hover: (66, 160, 242),
        accent_pressed: (40, 120, 200),
        icon: (109, 159, 187),
        text_primary: (255, 255, 255),
        text_secondary: (109, 127, 142),
        input_border: (58, 74, 90),
        error: (240, 114, 124),
        input_fill: (26, 38, 52),
        divider: (34, 47, 61),
        perf_badge_bg: (18, 28, 38),
        menu_bg: (33, 47, 64),
        menu_border: (56, 73, 92),
    }
}

/// The dark palette, as a value.
pub fn dark_palette() -> (p: Palette)
    ensures
        p == spec_dark(),
{
    Palette {
        list_bg: (23, 33, 43),
        chat_bg: (14, 22, 33),
        row_hover: (31, 44, 57),
        row_selected: (43, 58, 92),
        bubble_recv: (24, 37, 51),
        bubble_sent: (43, 82, 120),
        accent: (51, 144, 236),
        accent_hover: (66, 160, 242),
        accent_pressed: (40, 120, 200),
        icon: (109, 159, 187),
        text_primary: (255, 255, 255),
        text_secondary: (109, 127, 142),
        input_border: (58, 74, 90),
        error: (240, 114, 124),
        input_fill: (26, 38, 52),
        divider: (34, 47, 61),
        perf_badge_bg: (18, 28, 38),
        menu_bg: (33, 47, 64),
        menu_border: (56, 73, 92),
    }
}

/// Light palette modeled after Telegram Desktop defaults: white list,
/// pale-blue conversation canvas, near-black ink, same accent blue.
pub open spec fn spec_light() -> Palette {
    Palette {
        list_bg: (255, 255, 255),
        chat_bg: (219, 231, 240),
        row_hover: (244, 244, 245),
        row_selected: (216, 235, 252),
        bubble_recv: (255, 255, 255),
        bubble_sent: (238, 255, 222),
        accent: (51, 144, 236),
        accent_hover: (47, 132, 222),
        accent_pressed: (28, 108, 190),
        icon: (100, 116, 130),
        text_primary: (0, 0, 0),
        text_secondary: (112, 117, 121),
        input_border: (218, 220, 224),
        error: (223, 63, 64),
        input_fill: (244, 244, 245),
        divider: (230, 236, 240),
        perf_badge_bg: (18, 28, 38),
        menu_bg: (255, 255, 255),
        menu_border: (218, 220, 224),
    }
}

/// The light palette, as a value.
pub fn light_palette() -> (p: Palette)
    ensures
        p == spec_light(),
{
    Palette {
        list_bg: (255, 255, 255),
        chat_bg: (219, 231, 240),
        row_hover: (244, 244, 245),
        row_selected: (216, 235, 252),
        bubble_recv: (255, 255, 255),
        bubble_sent: (238, 255, 222),
        accent: (51, 144, 236),
        accent_hover: (47, 132, 222),
        accent_pressed: (28, 108, 190),
        icon: (100, 116, 130),
        text_primary: (0, 0, 0),
        text_secondary: (112, 117, 121),
        input_border: (218, 220, 224),
        error: (223, 63, 64),
        input_fill: (244, 244, 245),
        divider: (230, 236, 240),
        perf_badge_bg: (18, 28, 38),
        menu_bg: (255, 255, 255),
        menu_border: (218, 220, 224),
    }
}

/// Both palettes indexed by [`ThemeMode::idx`].
pub fn PALETTE() -> (ps: [Palette; 2])
    ensures
        ps@ == seq![spec_dark(), spec_light()],
{
    [dark_palette(), light_palette()]
}

/// The palette of a mode.
pub open spec fn palette_of(m: ThemeMode) -> Palette {
    match m {
        ThemeMode::Dark => spec_dark(),
        ThemeMode::Light => spec_light(),
    }
}

/// The palette of the mode `m`.
pub fn cur(m: ThemeMode) -> (p: Palette)
    ensures
        p == palette_of(m),
{
    match m {
        ThemeMode::Dark => dark_palette(),
        ThemeMode::Light => light_palette(),
    }
}

/// Background of the left panel (chat list).
pub fn LIST_BG(m: ThemeMode) -> (c: (u8, u8, u8))
    ensures
        c == palette_of(m).list_bg,
{
    cur(m).list_bg
}

/// Conversation background (message area).
pub fn CHAT_BG(m: ThemeMode) -> (c: (u8, u8, u8))
    ensures
        c == palette_of(m).chat_bg,
{
    cur(m).chat_bg
}

/// Hovered chat row.
pub fn ROW_HOVER(m: ThemeMode) -> (c: (u8, u8, u8))
    ensures
        c == palette_of(m).row_hover,
{
    cur(m).row_hover
}

/// Highlighted (selected) chat row.
pub fn ROW_SELECTED(m: ThemeMode) -> (c: (u8, u8, u8))
    ensures
        c == palette_of(m).row_selected,
{
    cur(m).row_selected
}

/// Received message bubble.
pub fn BUBBLE_RECV(m: ThemeMode) -> (c: (u8, u8, u8))
    ensures
        c == palette_of(m).bubble_recv,
{
    cur(m).bubble_recv
}

/// Sent message bubble.
pub fn BUBBLE_SENT(m: ThemeMode) -> (c: (u8, u8, u8))
    ensures
        c == palette_of(m).bubble_sent,
{
    cur(m).bubble_sent
}

/// Accent (badges, send button, actions).
pub fn ACCENT(m: ThemeMode) -> (c: (u8, u8, u8))
    ensures
        c == palette_of(m).accent,
{
    cur(m).accent
}

/// Header / composer icons.
pub fn ICON(m: ThemeMode) -> (c: (u8, u8, u8))
    ensures
        c == palette_of(m).icon,
{
    cur(m).icon
}

/// Primary text.
pub fn TEXT_PRIMARY(m: ThemeMode) -> (c: (u8, u8, u8))
    ensures
        c == palette_of(m).text_primary,
{
    cur(m).text_primary
}

/// Secondary text (timestamps, previews, placeholder).
pub fn TEXT_SECONDARY(m: ThemeMode) -> (c: (u8, u8, u8))
    ensures
        c == palette_of(m).text_secondary,
{
    cur(m).text_secondary
}

/// Composer input border.
pub fn INPUT_BORDER(m: ThemeMode) -> (c: (u8, u8, u8))
    ensures
        c == palette_of(m).input_border,
{
    cur(m).input_border
}

/// Error / destructive text.
pub fn ERROR(m: ThemeMode) -> (c: (u8, u8, u8))
    ensures
        c == palette_of(m).error,
{
    cur(m).error
}

/// Composer field fill.
pub fn INPUT_FILL(m: ThemeMode) -> (c: (u8, u8, u8))
    ensures
        c == palette_of(m).input_fill,
{
    cur(m).input_fill
}

/// Subtle divider between panes / under headers.
pub fn DIVIDER(m: ThemeMode) -> (c: (u8, u8, u8))
    ensures
        c == palette_of(m).divider,
{
    cur(m).divider
}

/// Background of the FPS badge.
pub fn PERF_BADGE_BG(m: ThemeMode) -> (c: (u8, u8, u8))
    ensures
        c == palette_of(m).perf_badge_bg,
{
    cur(m).perf_badge_bg
}

/// Menu surface (context menu, pickers), one step above the chat bg.
pub fn MENU_BG(m: ThemeMode) -> (c: (u8, u8, u8))
    ensures
        c == palette_of(m).menu_bg,
{
    cur(m).menu_bg
}

/// Hairline border around menu surfaces.
pub fn MENU_BORDER(m: ThemeMode) -> (c: (u8, u8, u8))
    ensures
        c == palette_of(m).menu_border,
{
    cur(m).menu_border
}

/// Accent hover variant (buttons).
pub fn ACCENT_HOVER(m: ThemeMode) -> (c: (u8, u8, u8))
    ensures
        c == palette_of(m).accent_hover,
{
    cur(m).accent_hover
}

/// Accent pressed variant (buttons).
pub fn ACCENT_PRESSED(m: ThemeMode) -> (c: (u8, u8, u8))
    ensures
        c == palette_of(m).accent_pressed,
{
    cur(m).accent_pressed
}

/// Avatar palette, identical in both modes.
pub const AVATAR_PALETTE: [(u8, u8, u8); 6] = [
    (51, 144, 236),
    (110, 101, 220),
    (235, 125, 58),
    (116, 189, 74),
    (231, 76, 130),
    (37, 178, 178),
];

/// 64-bit FNV-1a hash of a byte sequence.
pub open spec fn fnv1a(bs: Seq<u8>) -> u64
    decreases bs.len(),
{
    if bs.len() == 0 {
        0xcbf2_9ce4_8422_2325
    } else {
        (fnv1a(bs.drop_last()) ^ (bs.last() as u64)).wrapping_mul(0x100_0000_01b3)
    }
}

/// Palette slot of a title: its FNV-1a hash (as a `usize`) modulo 6.
pub open spec fn avatar_slot(title: Seq<u8>) -> int {
    ((#[verifier::truncate] (fnv1a(title) as usize)) as int) % 6
}

/// Deterministic avatar color for a title (hash of its UTF-8 bytes).
pub fn avatar_color(title: &str) -> (c: (u8, u8, u8))
    ensures
        0 <= avatar_slot(title.spec_bytes()) < 6,
        c == AVATAR_PALETTE@[avatar_slot(title.spec_bytes())],
{
    let bytes = title.as_bytes();
    let mut h: u64 = 0xcbf2_9ce4_8422_2325;
    let mut i: usize = 0;
    while i < bytes.len()
        invariant
            i <= bytes@.len(),
            h == fnv1a(bytes@.take(i as int)),
        decreases bytes.len() - i,
    {
        proof {
            assert(bytes@.take(i as int + 1).drop_last() =~= bytes@.take(i as int));
        }
        h = h ^ (bytes[i] as u64);
        h = h.wrapping_mul(0x100_0000_01b3);
        i = i + 1;
    }
    proof {
        assert(bytes@.take(bytes@.len() as int) =~= bytes@);
    }
    let slot: usize = #[verifier::truncate] (h as usize);
    AVATAR_PALETTE[slot % 6]
}

/// Local wall-clock hour and minute of a Unix timestamp.
///
/// Trusted: calls chrono's `DateTime::from_timestamp(ts, 0)` and converts
/// the instant to the machine's local time zone (`with_timezone(&Local)`),
/// reading its `hour()` and `minute()`. The result depends on the time
/// zone of the machine, so nothing is claimed of which hour and minute come
/// back, only their ranges, and that chrono accepts every timestamp of
/// `i32` range (its accepted range spans hundreds of thousands of years).
#[verifier::external_body]
fn local_hour_minute(ts: i64) -> (r: Option<(u32, u32)>)
    ensures
        i32::MIN <= ts <= i32::MAX ==> r is Some,
        r matches Some((h, m)) ==> h < 24 && m < 60,
{
    match chrono::DateTime::from_timestamp(ts, 0) {
        Some(utc) => {
            let local = utc.with_timezone(&chrono::Local);
            Some((chrono::Timelike::hour(&local), chrono::Timelike::minute(&local)))
        },
        None => None,
    }
}

/// Two-digit, zero-padded form of `v < 100`.
pub open spec fn two_digits(v: nat) -> Seq<char> {
    seq![crate::format::digit_char((v / 10) as int), crate::format::digit_char((v % 10) as int)]
}

/// `HH:MM` text of an hour and a minute.
pub open spec fn hh_mm(h: nat, m: nat) -> Seq<char> {
    two_digits(h) + seq![':'] + two_digits(m)
}

/// Formats an hour and minute as `HH:MM` (what chrono's `%H:%M` writes).
pub fn fmt_hh_mm(h: u32, m: u32) -> (s: String)
    requires
        h < 24,
        m < 60,
    ensures
        s@ == hh_mm(h as nat, m as nat),
{
    let mut cs: Vec<char> = Vec::new();
    cs.push(((h / 10 + 48) as u8) as char);
    cs.push(((h % 10 + 48) as u8) as char);
    cs.push(':');
    cs.push(((m / 10 + 48) as u8) as char);
    cs.push(((m % 10 + 48) as u8) as char);
    proof {
        assert(cs@ =~= hh_mm(h as nat, m as nat));
    }
    string_from_chars(&cs)
}

/// Some valid local `HH:MM` text.
pub open spec fn is_clock_text(s: Seq<char>) -> bool {
    exists|h: nat, m: nat| h < 24 && m < 60 && s == hh_mm(h, m)
}

/// Formats a Unix timestamp as local-time `HH:MM`.
pub fn fmt_time(ts: i32) -> (s: String)
    ensures
        is_clock_text(s@),
{
    match local_hour_minute(ts as i64) {
        Some((h, m)) => {
            let s = fmt_hh_mm(h, m);
            assert(is_clock_text(s@)) by {
                assert(h < 24 && m < 60 && s@ == hh_mm(h as nat, m as nat));
            }
            s
        },
        None => {
            // unreachable for i32 timestamps
            let s = fmt_hh_mm(0, 0);
            assert(is_clock_text(s@)) by {
                assert(s@ == hh_mm(0, 0));
            }
            s
        },
    }
}

/// Memoized local-time `HH:MM` for a Unix timestamp: a timestamp already
/// in `cache` gives its stored text and leaves the cache alone; otherwise
/// the text is formatted and stored under the timestamp.
pub fn cached_time(cache: &mut HashMap<i32, String>, ts: i32) -> (s: String)
    ensures
        old(cache)@.contains_key(ts) ==> s == old(cache)@[ts] && final(cache)@ == old(cache)@,
        !old(cache)@.contains_key(ts) ==> is_clock_text(s@) && final(cache)@ == old(cache)@.insert(
            ts,
            s,
        ),
        final(cache)@.contains_key(ts) && final(cache)@[ts] == s,
{
    broadcast use vstd::std_specs::hash::group_hash_axioms;
    if let Some(t) = cache.get(&ts) {
        return t.clone();
    }
    let formatted = fmt_time(ts);
    cache.insert(ts, formatted.clone());
    formatted
}

} // verus!
