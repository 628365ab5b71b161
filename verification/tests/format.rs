use app_iced::format::{duration_fmt, ellipsize, fmt_size, i64_to_string, parse_i64, sender_color};

/// The formatting the size labels follow, written with floats.
fn float_fmt_size(bytes: i64) -> String {
    const KB: f64 = 1024.0;
    const MB: f64 = KB * KB;
    const GB: f64 = MB * KB;
    let b = bytes.max(0) as f64;
    if b >= GB {
        format!("{:.1} GB", b / GB)
    } else if b >= MB {
        format!("{:.1} MB", b / MB)
    } else if b >= KB {
        format!("{:.0} KB", b / KB)
    } else {
        format!("{bytes} B")
    }
}

#[test]
fn sender_colors_are_deterministic_and_bounded() {
    assert_eq!(sender_color(Some(7)), sender_color(Some(7)));
    assert_eq!(sender_color(None), sender_color(Some(0)));
    let distinct: Vec<_> = (0..7).map(|i| sender_color(Some(i))).collect();
    assert_eq!(distinct.len(), 7);
    for c in &distinct {
        assert!(*c != (0, 0, 0));
    }
}

#[test]
fn sender_color_wraps_negative_ids() {
    assert_eq!(sender_color(Some(-1)), sender_color(Some(6)));
    assert_eq!(sender_color(Some(-1001234567890)), sender_color(Some(-1001234567890 + 7)));
    assert_eq!(sender_color(Some(0)), (228, 105, 98));
}

#[test]
fn fmt_size_examples() {
    assert_eq!(fmt_size(0), "0 B");
    assert_eq!(fmt_size(1023), "1023 B");
    assert_eq!(fmt_size(-5), "-5 B");
    assert_eq!(fmt_size(1024), "1 KB");
    assert_eq!(fmt_size(1536 * 1024), "1.5 MB");
    assert_eq!(fmt_size(3 * 1024 * 1024 * 1024), "3.0 GB");
}

#[test]
fn fmt_size_matches_float_formatting() {
    let mut samples: Vec<i64> = vec![
        0, 1, 511, 512, 1023, 1024, 1535, 1536, 1537, 2559, 2560, 2561, 3584,
        1_048_575, 1_048_576, 1_310_720, 1_363_148, 1_835_008, 5_767_168,
        1_073_741_823, 1_073_741_824, 1_342_177_280, 1_610_612_736,
        9_007_199_254_740_993, 9_007_199_254_740_995, i64::MAX, i64::MIN, -1,
    ];
    let mut v: i64 = 1;
    while v < i64::MAX / 3 {
        samples.push(v);
        samples.push(v + 1);
        samples.push(v * 3 / 2);
        v = v * 3;
    }
    for k in 0..4096i64 {
        samples.push(k * 256);
        samples.push(k * 104_857 + 7);
        samples.push(k * 107_374_182);
    }
    for b in samples {
        assert_eq!(fmt_size(b), float_fmt_size(b), "bytes = {b}");
    }
}

#[test]
fn ellipsize_keeps_short_and_clips_long() {
    assert_eq!(ellipsize("Camille", 15), "Camille");
    assert_eq!(ellipsize("abcdef", 4), "abc…");
    assert_eq!(ellipsize("ça va très bien", 5), "ça v…");
    assert_eq!(ellipsize("abc", 0), "", "never more than max characters");
    assert_eq!(ellipsize("", 0), "");
}

#[test]
fn integers_roundtrip_through_text() {
    for v in [0i64, 7, -7, 42, 987654321, i64::MAX, i64::MIN] {
        let s = i64_to_string(v);
        assert_eq!(s, v.to_string());
        let cs: Vec<char> = s.chars().collect();
        assert_eq!(parse_i64(&cs), Some(v));
    }
    for bad in ["", "-", "+", "1 2", "12a", "9223372036854775808", " 5"] {
        let cs: Vec<char> = bad.chars().collect();
        assert_eq!(parse_i64(&cs), bad.parse::<i64>().ok(), "input {bad:?}");
    }
    let cs: Vec<char> = "+15".chars().collect();
    assert_eq!(parse_i64(&cs), Some(15));
}

#[test]
fn durations_show_seconds_then_minutes() {
    assert_eq!(duration_fmt(0), "0s");
    assert_eq!(duration_fmt(-5), "0s");
    assert_eq!(duration_fmt(59), "59s");
    assert_eq!(duration_fmt(60), "1:00");
    assert_eq!(duration_fmt(125), "2:05");
    assert_eq!(duration_fmt(3600), "60:00");
}
