use app_iced::emoji::{emoji_ranges, RECENTS_FALLBACK, SETS};

fn ranges(s: &str) -> Vec<&str> {
    emoji_ranges(s).iter().map(|r| &s[r.clone()]).collect()
}

#[test]
fn plain_text_has_no_emoji_runs() {
    assert!(emoji_ranges("").is_empty());
    assert!(emoji_ranges("Salut, ça va ? https://x.io").is_empty());
    // Text-presentation symbols stay untouched without VS16.
    assert!(emoji_ranges("© 2024 Acme®").is_empty());
}

#[test]
fn basic_emoji_forms_a_run() {
    assert_eq!(ranges("Salut 👋 !"), vec!["👋"]);
    assert_eq!(ranges("Vue 🏖 demain"), vec!["🏖"]);
    // Text-presentation ☺ is still upgraded (nicer than DejaVu's mono).
    assert_eq!(ranges("Look at this one ☺"), vec!["☺"]);
}

#[test]
fn vs16_extends_the_run() {
    assert_eq!(ranges("je ❤️ ça"), vec!["❤️"]);
    assert_eq!(ranges("©️ 2024"), vec!["©️"]);
}

#[test]
fn zwj_family_is_one_run() {
    assert_eq!(ranges("famille 👨‍👩‍👧 ok"), vec!["👨‍👩‍👧"]);
    // ZWJ not followed by an emoji does not bind.
    assert_eq!(ranges("a 👋\u{200D}b"), vec!["👋"]);
}

#[test]
fn skin_tone_and_flags_are_one_run() {
    assert_eq!(ranges("ok 👍🏽 merci"), vec!["👍🏽"]);
    assert_eq!(ranges("vive 🇫🇷 !"), vec!["🇫🇷"]);
}

#[test]
fn keycaps_are_one_run() {
    assert_eq!(ranges("presse #️⃣"), vec!["#️⃣"]);
    assert_eq!(ranges("1️⃣2️⃣"), vec!["1️⃣", "2️⃣"]);
}

#[test]
fn sets_have_expected_shapes() {
    assert_eq!(SETS.len(), 6);
    let counts: Vec<usize> = SETS
        .iter()
        .map(|(_, e)| e.split_whitespace().count())
        .collect();
    assert_eq!(counts, vec![64, 20, 20, 16, 16, 12]);
    assert_eq!(RECENTS_FALLBACK.split_whitespace().count(), 16);
}

#[test]
fn every_emoji_is_a_single_grapheme_word() {
    for (_, set) in SETS {
        for e in set.split_whitespace() {
            assert!(e.chars().count() <= 3, "token too long: {e}");
        }
    }
}

#[test]
fn byte_offsets_follow_utf8_widths() {
    // "é" is 2 bytes, "👋" is 4: the run starts after both ASCII and 2-byte chars.
    let r = emoji_ranges("é 👋");
    assert_eq!(r.len(), 1);
    assert_eq!((r[0].start, r[0].end), (3, 7));
}

#[test]
fn runs_are_ordered_and_disjoint() {
    let s = "a👋b❤️c🇫🇷d1️⃣";
    let r = emoji_ranges(s);
    assert_eq!(r.len(), 4);
    for w in r.windows(2) {
        assert!(w[0].end <= w[1].start);
    }
    for x in &r {
        assert!(x.start < x.end && x.end <= s.len());
    }
}

#[test]
fn digit_without_keycap_mark_is_plain_text() {
    assert!(emoji_ranges("1 2 3 # *").is_empty());
    // ™ without FE0F stays text, with it becomes a run.
    assert!(emoji_ranges("Brand™").is_empty());
    assert_eq!(ranges("Brand™\u{FE0F}"), vec!["™\u{FE0F}"]);
}
