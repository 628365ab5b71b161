use app_iced::qr::{b64_url_nopad, login_payload, qr_png_bytes, qr_rgba, QrImageError};

#[test]
fn png_magic_and_dimensions() {
    let token: Vec<u8> = (0u8..=31).collect();
    let png = qr_png_bytes(&login_payload(&token)).expect("png");
    assert!(png.starts_with(&[0x89, b'P', b'N', b'G']), "PNG magic");
    assert!(png.len() > 1000, "plausible image size: {}", png.len());
}

#[test]
fn payload_is_url_safe_base64() {
    let token = vec![0xde, 0xad, 0xbe, 0xef, 0x42];
    let p = login_payload(&token);
    let b64 = p.strip_prefix("tg://login?token=").expect("payload prefix");
    assert_eq!(b64, "3q2-70I", "known-good unpadded url-safe encoding");
    assert!(b64.bytes().all(|c| c.is_ascii_alphanumeric() || c == b'-' || c == b'_'));
}

#[test]
fn base64_lengths_and_alphabet() {
    assert_eq!(b64_url_nopad(&[]), "");
    assert_eq!(b64_url_nopad(b"f"), "Zg");
    assert_eq!(b64_url_nopad(b"fo"), "Zm8");
    assert_eq!(b64_url_nopad(b"foo"), "Zm9v");
    assert_eq!(b64_url_nopad(&[0xfb, 0xff]), "-_8");
}

#[test]
fn raster_has_a_white_quiet_zone() {
    // A 1x1 dark module: the image is (1 + 8) * 8 pixels wide.
    let rgba = qr_rgba(1, &vec![true]);
    assert_eq!(rgba.len(), 72 * 72 * 4);
    assert_eq!(&rgba[0..4], &[255, 255, 255, 255]);
    let center = ((36 * 72) + 36) * 4;
    assert_eq!(&rgba[center..center + 4], &[0, 0, 0, 255]);
}

#[test]
fn payloads_beyond_the_largest_code_are_refused() {
    let long = "x".repeat(4000);
    assert_eq!(qr_png_bytes(&long), Err(QrImageError::PayloadTooLong));
    assert!(qr_png_bytes("tg://login?token=abc").is_ok());
}

#[test]
fn png_shows_the_finder_pattern_inside_the_quiet_zone() {
    let png = qr_png_bytes("tg://login?token=abc").unwrap();
    let pm = tiny_skia::Pixmap::decode_png(&png).expect("a decodable PNG");
    let at = |x: u32, y: u32| {
        let p = pm.pixel(x, y).unwrap();
        (p.red(), p.green(), p.blue(), p.alpha())
    };
    assert_eq!(at(0, 0), (255, 255, 255, 255), "quiet zone is white");
    // Module (0, 0) is the dark corner of the top-left finder pattern.
    assert_eq!(at(4 * 8 + 3, 4 * 8 + 3), (0, 0, 0, 255));
    // Module (1, 1) is on the finder's light ring.
    assert_eq!(at(5 * 8 + 3, 5 * 8 + 3), (255, 255, 255, 255));
}
