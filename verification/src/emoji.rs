//! Emoji catalogue for the composer's picker, and the scanner that finds the
//! emoji runs inside text so they can be drawn with the color-emoji font.
//!
//! A run covers one base emoji plus its continuations: variation selector
//! U+FE0F, skin-tone modifiers, ZWJ sequences, regional-indicator pairs and
//! keycap marks. Text-presentation characters (© ® ™) only count when
//! explicitly followed by U+FE0F, so ordinary text is never hijacked.

use vstd::prelude::*;
use crate::text::{byte_at, char_offsets, chars_of, lemma_byte_at_mono, lemma_utf8_len_is_encoding_len};
use std::ops::Range;
use vstd::string::StringSliceAdditionalSpecFns;

verus! {

/// Starter set shown in the "Recents" section until the user picks anything.
pub const RECENTS_FALLBACK: &'static str = "😀 😂 🥰 😍 😎 🤔 👍 🙏 🎉 ❤️ 😭 🔥 👏 🤣 😢 ✅";

/// Standard emoji groups, in display order: `(section title, emojis)`.
pub const SETS: [(&'static str, &'static str); 6] = [
    ("Smileys & People", "😀 😃 😄 😁 😆 😅 🤣 😂 🙂 😉 😊 😇 🥰 😙 😍 😘 😋 😜 🤪 🤨 🧐 🤓 😎 🥳 😏 😒 😞 😔 😟 😕 🙁 ☹️ 😣 😖 😫 😩 🥺 😢 😭 😤 😠 😡 🤬 🤯 😳 🥵 🥶 😱 😨 😰 😥 😓 🤗 🤔 🤭 🤫 😐 😑 😶 😬 🙄 😯 😦 😧"),
    ("Animals & Nature", "🐶 🐱 🐭 🐹 🐰 🦊 🐻 🐼 🐨 🐯 🦁 🐮 🐷 🐸 🐵 🐔 🐧 🐦 🦆 🦉"),
    ("Food & Drink", "🍏 🍎 🍐 🍊 🍋 🍌 🍉 🍇 🍓 🫐 🍒 🍑 🥭 🍍 🥝 🍅 🥑 🍕 🍔 🍟"),
    ("Activities", "⚽ 🏀 🏈 ⚾ 🎾 🏐 🎱 🏓 🏸 🥅 🎮 🎲 🎯 🎳 🎰 🎨"),
    ("Objects", "⌚ 📱 💻 ⌨️ 🖥️ 🖨️ 💾 💿 📷 📸 📹 🎥 🔍 🔒 🔑 💡"),
    ("Symbols", "❤️ 🧡 💛 💚 💙 💜 🖤 🤍 💔 ❣️ 💯 ✅"),
];

/// Whether a code point can start (or continue) an emoji run.
pub open spec fn spec_is_emoji_cp(cp: u32) -> bool {
    ||| 0x1F000 <= cp <= 0x1FAFF
    ||| 0x2600 <= cp <= 0x27BF
    ||| 0x2B00 <= cp <= 0x2BFF
    ||| 0x231A <= cp <= 0x231B
    ||| 0x23E9 <= cp <= 0x23F3
    ||| 0x23F8 <= cp <= 0x23FA
    ||| 0x25AA <= cp <= 0x25AB
    ||| cp == 0x25B6 || cp == 0x25C0
    ||| 0x25FB <= cp <= 0x25FE
    ||| 0x2934 <= cp <= 0x2935
    ||| cp == 0x3030 || cp == 0x303D
    ||| cp == 0x3297 || cp == 0x3299
    ||| cp == 0x00A9 || cp == 0x00AE || cp == 0x2122
}

pub open spec fn spec_is_emoji_char(c: char) -> bool {
    spec_is_emoji_cp(c as u32)
}

/// © ® ™: emoji only when followed by U+FE0F.
pub open spec fn is_text_symbol(c: char) -> bool {
    c == '\u{00A9}' || c == '\u{00AE}' || c == '\u{2122}'
}

/// Characters that can start a keycap sequence.
pub open spec fn is_keycap_base(c: char) -> bool {
    ('0' <= c && c <= '9') || c == '#' || c == '*'
}

pub open spec fn is_skin_tone(c: char) -> bool {
    0x1F3FB <= (c as u32) <= 0x1F3FF
}

pub open spec fn is_regional(c: char) -> bool {
    0x1F1E6 <= (c as u32) <= 0x1F1FF
}

/// End (exclusive char index) of the keycap sequence starting at `i`, if
/// `cs[i..]` is `base FE0F? 20E3`.
pub open spec fn keycap_end_at(cs: Seq<char>, i: int) -> Option<int> {
    let idx = if i + 1 < cs.len() && cs[i + 1] == '\u{FE0F}' { i + 2 } else { i + 1 };
    if idx < cs.len() && cs[idx] == '\u{20E3}' {
        Some(idx + 1)
    } else {
        None
    }
}

/// End of a run whose continuation scan is at index `j`: variation
/// selectors and skin tones extend it, a ZWJ binds only when an emoji
/// follows, a regional indicator completes a flag and ends it.
pub open spec fn run_end_from(cs: Seq<char>, j: int) -> int
    decreases cs.len() - j,
{
    if j < 0 || j >= cs.len() {
        j
    } else if cs[j] == '\u{FE0F}' || is_skin_tone(cs[j]) {
        run_end_from(cs, j + 1)
    } else if cs[j] == '\u{200D}' {
        if j + 1 < cs.len() && spec_is_emoji_char(cs[j + 1]) {
            run_end_from(cs, j + 2)
        } else {
            j
        }
    } else if is_regional(cs[j]) {
        j + 1
    } else {
        j
    }
}

/// The emoji runs of `cs` found by scanning from index `i`, as character
/// index ranges `(start, end)`.
pub open spec fn runs_from(cs: Seq<char>, i: int) -> Seq<(int, int)>
    decreases cs.len() - i,
{
    if i < 0 || i >= cs.len() {
        Seq::empty()
    } else if is_keycap_base(cs[i]) && keycap_end_at(cs, i) is Some {
        let e = keycap_end_at(cs, i)->0;
        seq![(i, e)] + runs_from(cs, e)
    } else if is_text_symbol(cs[i]) {
        if i + 1 < cs.len() && cs[i + 1] == '\u{FE0F}' {
            seq![(i, i + 2)] + runs_from(cs, i + 2)
        } else {
            runs_from(cs, i + 1)
        }
    } else if spec_is_emoji_char(cs[i]) {
        let e = run_end_from(cs, i + 1);
        if i < e <= cs.len() {
            seq![(i, e)] + runs_from(cs, e)
        } else {
            Seq::empty()
        }
    } else {
        runs_from(cs, i + 1)
    }
}

/// The emoji runs of `cs`, as character index ranges.
pub open spec fn emoji_runs(cs: Seq<char>) -> Seq<(int, int)> {
    runs_from(cs, 0)
}

pub proof fn lemma_run_end_bounds(cs: Seq<char>, j: int)
    requires
        0 <= j <= cs.len(),
    ensures
        j <= run_end_from(cs, j) <= cs.len(),
    decreases cs.len() - j,
{
    if j < cs.len() {
        if cs[j] == '\u{FE0F}' || is_skin_tone(cs[j]) {
            lemma_run_end_bounds(cs, j + 1);
        } else if cs[j] == '\u{200D}' {
            if j + 1 < cs.len() && spec_is_emoji_char(cs[j + 1]) {
                lemma_run_end_bounds(cs, j + 2);
            }
        }
    }
}

/// How a run may begin: a keycap sequence, a text symbol explicitly
/// followed by U+FE0F, or an emoji character that is not a text symbol.
pub open spec fn run_start_ok(cs: Seq<char>, run: (int, int)) -> bool {
    let c = cs[run.0];
    ||| is_keycap_base(c) && keycap_end_at(cs, run.0) == Some(run.1)
    ||| is_text_symbol(c) && run.0 + 1 < cs.len() && cs[run.0 + 1] == '\u{FE0F}' && run.1 == run.0 + 2
    ||| !is_keycap_base(c) && !is_text_symbol(c) && spec_is_emoji_char(c)
}

/// Runs lie inside `[lo, len)`, are non-empty, start as `run_start_ok`
/// says, and come in order without overlapping.
pub open spec fn runs_well_formed(cs: Seq<char>, lo: int, runs: Seq<(int, int)>) -> bool {
    &&& forall|k: int|
        0 <= k < runs.len() ==> {
            let r = #[trigger] runs[k];
            &&& lo <= r.0 < r.1 <= cs.len()
            &&& run_start_ok(cs, r)
        }
    &&& forall|k: int, l: int| 0 <= k < l < runs.len() ==> #[trigger] runs[k].1 <= #[trigger] runs[l].0
}

proof fn lemma_cons_well_formed(cs: Seq<char>, i: int, e: int, rest: Seq<(int, int)>)
    requires
        0 <= i < e <= cs.len(),
        run_start_ok(cs, (i, e)),
        runs_well_formed(cs, e, rest),
    ensures
        runs_well_formed(cs, i, seq![(i, e)] + rest),
{
    let all = seq![(i, e)] + rest;
    assert forall|k: int| 0 <= k < all.len() implies {
        let r = #[trigger] all[k];
        &&& i <= r.0 < r.1 <= cs.len()
        &&& run_start_ok(cs, r)
    } by {
        if k > 0 {
            assert(all[k] == rest[k - 1]);
        }
    }
    assert forall|k: int, l: int| 0 <= k < l < all.len() implies #[trigger] all[k].1
        <= #[trigger] all[l].0 by {
        assert(all[l] == rest[l - 1]);
        if k > 0 {
            assert(all[k] == rest[k - 1]);
        }
    }
}

/// The runs found by scanning from `i` are well formed.
pub proof fn lemma_runs_from_shape(cs: Seq<char>, i: int)
    requires
        0 <= i <= cs.len(),
    ensures
        runs_well_formed(cs, i, runs_from(cs, i)),
    decreases cs.len() - i,
{
    if i < cs.len() {
        let c = cs[i];
        if is_keycap_base(c) && keycap_end_at(cs, i) is Some {
            let e = keycap_end_at(cs, i)->0;
            lemma_runs_from_shape(cs, e);
            lemma_cons_well_formed(cs, i, e, runs_from(cs, e));
        } else if is_text_symbol(c) {
            if i + 1 < cs.len() && cs[i + 1] == '\u{FE0F}' {
                lemma_runs_from_shape(cs, i + 2);
                lemma_cons_well_formed(cs, i, i + 2, runs_from(cs, i + 2));
            } else {
                lemma_runs_from_shape(cs, i + 1);
            }
        } else if spec_is_emoji_char(c) {
            let e = run_end_from(cs, i + 1);
            lemma_run_end_bounds(cs, i + 1);
            lemma_runs_from_shape(cs, e);
            lemma_cons_well_formed(cs, i, e, runs_from(cs, e));
        } else {
            lemma_runs_from_shape(cs, i + 1);
        }
    }
}

/// Whether `c` can start (or continue) an emoji run. Conservative on
/// purpose: the text-presentation leftovers of the symbol blocks (plain
/// © ® ™, arrows) are handled by the caller's VS16 rule.
pub fn is_emoji_char(c: char) -> (b: bool)
    ensures
        b == spec_is_emoji_char(c),
{
    let cp = c as u32;
    (0x1F000 <= cp && cp <= 0x1FAFF) || (0x2600 <= cp && cp <= 0x27BF) || (0x2B00 <= cp && cp
        <= 0x2BFF) || (0x231A <= cp && cp <= 0x231B) || (0x23E9 <= cp && cp <= 0x23F3) || (0x23F8
        <= cp && cp <= 0x23FA) || (0x25AA <= cp && cp <= 0x25AB) || cp == 0x25B6 || cp == 0x25C0
        || (0x25FB <= cp && cp <= 0x25FE) || (0x2934 <= cp && cp <= 0x2935) || cp == 0x3030 || cp
        == 0x303D || cp == 0x3297 || cp == 0x3299 || cp == 0x00A9 || cp == 0x00AE || cp == 0x2122
}

/// End of the keycap sequence starting at `i` (char index), if any.
pub fn keycap_end(chars: &Vec<char>, i: usize) -> (r: Option<usize>)
    requires
        i < chars.len(),
    ensures
        match r {
            Some(e) => keycap_end_at(chars@, i as int) == Some(e as int),
            None => keycap_end_at(chars@, i as int) is None,
        },
{
    let mut idx = i + 1;
    if idx < chars.len() && chars[idx] == '\u{FE0F}' {
        idx = idx + 1;
    }
    if idx < chars.len() && chars[idx] == '\u{20E3}' {
        Some(idx + 1)
    } else {
        None
    }
}

/// End (exclusive char index) of the emoji run starting at `i`.
pub fn run_end(chars: &Vec<char>, i: usize) -> (e: usize)
    requires
        i < chars.len(),
    ensures
        e == run_end_from(chars@, i as int + 1),
        i < e <= chars.len(),
{
    proof {
        lemma_run_end_bounds(chars@, i as int + 1);
    }
    let n = chars.len();
    let mut j = i + 1;
    while j < n
        invariant
            n == chars.len(),
            i < j <= n,
            run_end_from(chars@, j as int) == run_end_from(chars@, i as int + 1),
        decreases n - j,
    {
        let c = chars[j];
        let cp = c as u32;
        if c == '\u{FE0F}' || (0x1F3FB <= cp && cp <= 0x1F3FF) {
            j = j + 1;
        } else if c == '\u{200D}' {
            if j + 1 < n && is_emoji_char(chars[j + 1]) {
                j = j + 2;
            } else {
                return j;
            }
        } else if 0x1F1E6 <= cp && cp <= 0x1F1FF {
            return j + 1;
        } else {
            return j;
        }
    }
    j
}

/// `r` is the byte range of the characters `run` of `cs`.
pub open spec fn covers_run(cs: Seq<char>, r: Range<usize>, run: (int, int)) -> bool {
    r.start == byte_at(cs, run.0) && r.end == byte_at(cs, run.1)
}

/// Byte offset of every emoji run of `s`, in order: the run at index `k`
/// covers the characters `emoji_runs(s@)[k]`.
pub fn emoji_ranges(s: &str) -> (ranges: Vec<Range<usize>>)
    ensures
        ranges.len() == emoji_runs(s@).len(),
        forall|k: int|
            0 <= k < ranges.len() ==> covers_run(s@, #[trigger] ranges@[k], emoji_runs(s@)[k]),
        // in order, non-empty, inside the string, never overlapping
        forall|k: int|
            0 <= k < ranges.len() ==> {
                &&& #[trigger] ranges@[k].start < ranges@[k].end <= s.spec_bytes().len()
                &&& run_start_ok(s@, emoji_runs(s@)[k])
            },
        forall|k: int, l: int|
            0 <= k < l < ranges.len() ==> #[trigger] ranges@[k].end <= #[trigger] ranges@[l].start,
{
    let chars = chars_of(s);
    let offs = char_offsets(s, &chars);
    let n = chars.len();
    let mut ranges: Vec<Range<usize>> = Vec::new();
    let ghost cs = chars@;
    let ghost mut acc: Seq<(int, int)> = Seq::empty();
    let mut i: usize = 0;
    assert(emoji_runs(cs) =~= acc + runs_from(cs, 0));
    while i < n
        invariant
            n == chars.len(),
            cs == chars@,
            cs == s@,
            i <= n,
            offs.len() == n + 1,
            forall|k: int| 0 <= k <= n ==> #[trigger] offs@[k] == byte_at(cs, k),
            emoji_runs(cs) == acc + runs_from(cs, i as int),
            ranges.len() == acc.len(),
            forall|k: int| 0 <= k < ranges.len() ==> covers_run(cs, #[trigger] ranges@[k], acc[k]),
        decreases n - i,
    {
        let c = chars[i];
        if ('0' <= c && c <= '9') || c == '#' || c == '*' {
            if let Some(e) = keycap_end(&chars, i) {
                ranges.push(Range { start: offs[i], end: offs[e] });
                proof {
                    assert(runs_from(cs, i as int) == seq![(i as int, e as int)] + runs_from(cs, e as int));
                    assert(acc + runs_from(cs, i as int) =~= acc.push((i as int, e as int)) + runs_from(cs, e as int));
                    acc = acc.push((i as int, e as int));
                }
                i = e;
                continue;
            }
        }
        if c == '\u{00A9}' || c == '\u{00AE}' || c == '\u{2122}' {
            if i + 1 < n && chars[i + 1] == '\u{FE0F}' {
                ranges.push(Range { start: offs[i], end: offs[i + 2] });
                proof {
                    let e = i as int + 2;
                    assert(runs_from(cs, i as int) == seq![(i as int, e)] + runs_from(cs, e));
                    assert(acc + runs_from(cs, i as int) =~= acc.push((i as int, e)) + runs_from(cs, e));
                    acc = acc.push((i as int, e));
                }
                i = i + 2;
            } else {
                i = i + 1;
            }
        } else if is_emoji_char(c) {
            let e = run_end(&chars, i);
            ranges.push(Range { start: offs[i], end: offs[e] });
            proof {
                assert(runs_from(cs, i as int) == seq![(i as int, e as int)] + runs_from(cs, e as int));
                assert(acc + runs_from(cs, i as int) =~= acc.push((i as int, e as int)) + runs_from(cs, e as int));
                acc = acc.push((i as int, e as int));
            }
            i = e;
        } else {
            i = i + 1;
        }
    }
    proof {
        assert(runs_from(cs, i as int) =~= Seq::<(int, int)>::empty());
        assert(acc + Seq::<(int, int)>::empty() =~= acc);
        lemma_emoji_ranges_ordered(s, ranges@);
    }
    ranges
}

/// The byte ranges returned by `emoji_ranges` are non-empty, lie inside
/// the string, come in order and never overlap; each one begins as
/// `run_start_ok` says (so a © ® ™ without U+FE0F never starts a run).
proof fn lemma_emoji_ranges_ordered(s: &str, ranges: Seq<Range<usize>>)
    requires
        ranges.len() == emoji_runs(s@).len(),
        forall|k: int|
            0 <= k < ranges.len() ==> covers_run(s@, #[trigger] ranges[k], emoji_runs(s@)[k]),
    ensures
        forall|k: int|
            0 <= k < ranges.len() ==> {
                &&& #[trigger] ranges[k].start < ranges[k].end <= s.spec_bytes().len()
                &&& run_start_ok(s@, emoji_runs(s@)[k])
            },
        forall|k: int, l: int|
            0 <= k < l < ranges.len() ==> #[trigger] ranges[k].end <= #[trigger] ranges[l].start,
{
    let cs = s@;
    lemma_runs_from_shape(cs, 0);
    assert(runs_well_formed(cs, 0, emoji_runs(cs)));
    lemma_utf8_len_is_encoding_len(cs);
    assert forall|k: int| 0 <= k < ranges.len() implies {
        &&& #[trigger] ranges[k].start < ranges[k].end <= s.spec_bytes().len()
        &&& run_start_ok(s@, emoji_runs(s@)[k])
    } by {
        let r = emoji_runs(cs)[k];
        assert(covers_run(cs, ranges[k], r));
        lemma_byte_at_mono(cs, r.0, r.1);
        lemma_byte_at_mono(cs, r.1, cs.len() as int);
        assert(cs.take(cs.len() as int) =~= cs);
    }
    assert forall|k: int, l: int| 0 <= k < l < ranges.len() implies #[trigger] ranges[k].end
        <= #[trigger] ranges[l].start by {
        let rk = emoji_runs(cs)[k];
        let rl = emoji_runs(cs)[l];
        assert(covers_run(cs, ranges[k], rk));
        assert(covers_run(cs, ranges[l], rl));
        lemma_byte_at_mono(cs, rk.1, rl.0);
    }
}

/// The code points drawn with the color-emoji font wherever they stand:
/// Misc Symbols and Pictographs through Symbols and Pictographs Extended-A
/// (U+1F000..U+1FAFF), Misc Symbols and Dingbats (U+2600..U+27BF), Misc
/// Symbols and Arrows (U+2B00..U+2BFF), and the emoji among the technical,
/// geometric, arrow and CJK symbols (watch, hourglass, media controls,
/// squares, arrows, wavy dash, part alternation mark, circled ideographs).
pub open spec fn color_emoji_cp(cp: u32) -> bool {
    ||| 0x1F000 <= cp <= 0x1FAFF
    ||| 0x2600 <= cp <= 0x27BF
    ||| 0x2B00 <= cp <= 0x2BFF
    ||| cp == 0x231A || cp == 0x231B
    ||| 0x23E9 <= cp <= 0x23F3
    ||| 0x23F8 <= cp <= 0x23FA
    ||| cp == 0x25AA || cp == 0x25AB || cp == 0x25B6 || cp == 0x25C0
    ||| 0x25FB <= cp <= 0x25FE
    ||| cp == 0x2934 || cp == 0x2935
    ||| cp == 0x3030 || cp == 0x303D || cp == 0x3297 || cp == 0x3299
}

/// Run `k` of `runs` holds the character at index `i`.
pub open spec fn run_holds(runs: Seq<(int, int)>, k: int, i: int) -> bool {
    0 <= k < runs.len() && runs[k].0 <= i < runs[k].1
}

proof fn lemma_runs_hold_color_emoji(cs: Seq<char>, p: int)
    requires
        0 <= p <= cs.len(),
    ensures
        forall|i: int|
            p <= i < cs.len() && color_emoji_cp(#[trigger] cs[i] as u32) ==> exists|k: int|
                run_holds(runs_from(cs, p), k, i),
    decreases cs.len() - p,
{
    if p < cs.len() {
        let c = cs[p];
        let all = runs_from(cs, p);
        if is_keycap_base(c) && keycap_end_at(cs, p) is Some {
            let e = keycap_end_at(cs, p)->0;
            lemma_runs_hold_color_emoji(cs, e);
            let rest = runs_from(cs, e);
            assert forall|i: int| p <= i < cs.len() && color_emoji_cp(#[trigger] cs[i] as u32)
                implies exists|k: int| run_holds(all, k, i) by {
                if i < e {
                    assert(run_holds(all, 0, i));
                } else {
                    let k = choose|k: int| run_holds(rest, k, i);
                    assert(all[k + 1] == rest[k]);
                    assert(run_holds(all, k + 1, i));
                }
            }
        } else if is_text_symbol(c) {
            if p + 1 < cs.len() && cs[p + 1] == '\u{FE0F}' {
                lemma_runs_hold_color_emoji(cs, p + 2);
                let rest = runs_from(cs, p + 2);
                assert forall|i: int| p <= i < cs.len() && color_emoji_cp(#[trigger] cs[i] as u32)
                    implies exists|k: int| run_holds(all, k, i) by {
                    if i < p + 2 {
                        assert(run_holds(all, 0, i));
                    } else {
                        let k = choose|k: int| run_holds(rest, k, i);
                        assert(all[k + 1] == rest[k]);
                        assert(run_holds(all, k + 1, i));
                    }
                }
            } else {
                lemma_runs_hold_color_emoji(cs, p + 1);
            }
        } else if spec_is_emoji_char(c) {
            let e = run_end_from(cs, p + 1);
            lemma_run_end_bounds(cs, p + 1);
            lemma_runs_hold_color_emoji(cs, e);
            let rest = runs_from(cs, e);
            assert forall|i: int| p <= i < cs.len() && color_emoji_cp(#[trigger] cs[i] as u32)
                implies exists|k: int| run_holds(all, k, i) by {
                if i < e {
                    assert(run_holds(all, 0, i));
                } else {
                    let k = choose|k: int| run_holds(rest, k, i);
                    assert(all[k + 1] == rest[k]);
                    assert(run_holds(all, k + 1, i));
                }
            }
        } else {
            lemma_runs_hold_color_emoji(cs, p + 1);
            assert(!color_emoji_cp(c as u32));
        }
    }
}

/// Every color-emoji code point of a text is drawn with the emoji font:
/// whatever surrounds it, some emoji run holds it (so "Bravo ⭐" has a run
/// over the star).
pub proof fn lemma_color_emoji_in_runs(cs: Seq<char>)
    ensures
        forall|i: int|
            0 <= i < cs.len() && color_emoji_cp(#[trigger] cs[i] as u32) ==> exists|k: int|
                run_holds(emoji_runs(cs), k, i),
{
    lemma_runs_hold_color_emoji(cs, 0);
    assert forall|i: int| 0 <= i < cs.len() && color_emoji_cp(#[trigger] cs[i] as u32) implies exists|k: int|
        run_holds(emoji_runs(cs), k, i) by {
        let k = choose|k: int| run_holds(runs_from(cs, 0), k, i);
        assert(run_holds(emoji_runs(cs), k, i));
    }
}

} // verus!
