use std::collections::HashMap;

use app_iced::theme::{
    avatar_color, cached_time, fmt_hh_mm, fmt_time, mode, set_mode, ThemeMode, AVATAR_PALETTE,
    BUBBLE_SENT, LIST_BG, PALETTE, TEXT_PRIMARY,
};

#[test]
fn default_mode_is_dark_and_palette_matches() {
    assert_eq!(ThemeMode::default(), ThemeMode::Dark);
    let palette = PALETTE();
    assert_eq!(palette.len(), 2);
    // Dark keeps the historical values…
    assert_eq!(palette[0].list_bg, (23, 33, 43));
    assert_eq!(palette[0].text_primary, (255, 255, 255));
    // …light follows Telegram Desktop's light scheme.
    assert_eq!(palette[1].list_bg, (255, 255, 255));
    assert_eq!(palette[1].chat_bg, (219, 231, 240));
    assert_eq!(palette[1].bubble_sent, (238, 255, 222));
    assert_eq!(palette[1].bubble_recv, (255, 255, 255));
    assert_eq!(palette[1].text_primary, (0, 0, 0));
    assert_eq!(palette[1].accent, (51, 144, 236));
}

#[test]
fn set_mode_and_marker_behaviour() {
    // Marker roundtrip (pure).
    assert_eq!(ThemeMode::parse("dark"), ThemeMode::Dark);
    assert_eq!(ThemeMode::parse(" light \n"), ThemeMode::Light);
    assert_eq!(ThemeMode::parse("garbage"), ThemeMode::Dark);
    for m in [ThemeMode::Dark, ThemeMode::Light] {
        assert_eq!(ThemeMode::parse(m.as_str()), m);
    }

    // The stored slot drives every accessor.
    let slot = set_mode(ThemeMode::Light);
    assert_eq!(mode(slot), ThemeMode::Light);
    assert_eq!(LIST_BG(mode(slot)), (255, 255, 255));
    assert_eq!(TEXT_PRIMARY(mode(slot)), (0, 0, 0));
    assert_eq!(BUBBLE_SENT(mode(slot)), (238, 255, 222));

    let slot = set_mode(ThemeMode::Dark);
    assert_eq!(mode(slot), ThemeMode::Dark);
    assert_eq!(LIST_BG(mode(slot)), (23, 33, 43));
    assert_eq!(TEXT_PRIMARY(mode(slot)), (255, 255, 255));
    // An unknown slot value reads as dark.
    assert_eq!(mode(7), ThemeMode::Dark);
}

#[test]
fn theme_mode_persistence_roundtrip() {
    // A missing file reads as empty content → dark.
    assert_eq!(ThemeMode::parse(""), ThemeMode::Dark);
    assert_eq!(ThemeMode::parse(ThemeMode::Light.as_str()), ThemeMode::Light);
    assert_eq!(ThemeMode::parse(ThemeMode::Dark.as_str()), ThemeMode::Dark);
    // Corrupt marker must never crash: dark fallback.
    assert_eq!(ThemeMode::parse("neon-pink"), ThemeMode::Dark);
}

#[test]
fn avatar_colors_are_stable_and_from_the_palette() {
    let a = avatar_color("Camille");
    assert_eq!(a, avatar_color("Camille"));
    assert!(AVATAR_PALETTE.contains(&a));
    assert!(AVATAR_PALETTE.contains(&avatar_color("")));
    // FNV-1a 64 of "Camille" is 0 mod 6; of "" (the offset basis) 5 mod 6.
    assert_eq!(a, (51, 144, 236));
    assert_eq!(avatar_color(""), (37, 178, 178));
}

#[test]
fn clock_text_is_two_by_two_digits() {
    assert_eq!(fmt_hh_mm(0, 0), "00:00");
    assert_eq!(fmt_hh_mm(9, 5), "09:05");
    assert_eq!(fmt_hh_mm(23, 59), "23:59");
    let t = fmt_time(0);
    assert_eq!(t.len(), 5);
    assert_eq!(t.as_bytes()[2], b':');
}

#[test]
fn cached_time_memoizes() {
    let mut cache: HashMap<i32, String> = HashMap::new();
    let first = cached_time(&mut cache, 1_700_000_000);
    assert_eq!(cache.len(), 1);
    assert_eq!(cache.get(&1_700_000_000), Some(&first));
    cache.insert(5, "xx:yy".to_string());
    assert_eq!(cached_time(&mut cache, 5), "xx:yy");
    assert_eq!(cache.len(), 2);
}
