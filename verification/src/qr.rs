//! QR sign-in: the login payload (URL-safe base64 of the token) and its
//! rendering as a scannable black-on-white PNG with a quiet zone.

use vstd::prelude::*;
use crate::text::{push_str, string_from_chars};
use vstd::arithmetic::div_mod::lemma_fundamental_div_mod_converse;

verus! {

/// URL-safe base64 alphabet: `A-Z a-z 0-9 - _`.
pub open spec fn b64_char(i: int) -> char {
    if i < 26 {
        ((i + 65) as u32) as char
    } else if i < 52 {
        ((i - 26 + 97) as u32) as char
    } else if i < 62 {
        ((i - 52 + 48) as u32) as char
    } else if i == 62 {
        '-'
    } else {
        '_'
    }
}

/// Characters of the URL-safe base64 alphabet.
pub open spec fn is_b64_char(c: char) -> bool {
    ('A' <= c && c <= 'Z') || ('a' <= c && c <= 'z') || ('0' <= c && c <= '9') || c == '-' || c
        == '_'
}

/// Encoding of one group of 1 to 3 bytes (no padding: 2, 3 or 4 chars).
pub open spec fn b64_group(g: Seq<u8>) -> Seq<char> {
    let b0 = g[0] as int;
    let b1 = if g.len() > 1 { g[1] as int } else { 0 };
    let b2 = if g.len() > 2 { g[2] as int } else { 0 };
    let c0 = b64_char(b0 / 4);
    let c1 = b64_char((b0 % 4) * 16 + b1 / 16);
    let c2 = b64_char((b1 % 16) * 4 + b2 / 64);
    let c3 = b64_char(b2 % 64);
    if g.len() == 1 {
        seq![c0, c1]
    } else if g.len() == 2 {
        seq![c0, c1, c2]
    } else {
        seq![c0, c1, c2, c3]
    }
}

/// URL-safe base64 without padding (`+/` become `-_`, no trailing `=`).
pub open spec fn spec_b64_url_nopad(data: Seq<u8>) -> Seq<char>
    decreases data.len(),
{
    if data.len() == 0 {
        Seq::empty()
    } else if data.len() <= 3 {
        b64_group(data)
    } else {
        b64_group(data.take(3)) + spec_b64_url_nopad(data.skip(3))
    }
}

fn b64_push(out: &mut Vec<char>, i: u8)
    requires
        i < 64,
    ensures
        final(out)@ == old(out)@.push(b64_char(i as int)),
{
    let c = if i < 26 {
        ((i + 65) as u8) as char
    } else if i < 52 {
        ((i - 26 + 97) as u8) as char
    } else if i < 62 {
        ((i - 52 + 48) as u8) as char
    } else if i == 62 {
        '-'
    } else {
        '_'
    };
    out.push(c);
}

proof fn lemma_b64_split(data: Seq<u8>, k: int)
    requires
        0 <= k,
        3 * k <= data.len(),
    ensures
        spec_b64_url_nopad(data) == spec_b64_url_nopad(data.take(3 * k)) + spec_b64_url_nopad(
            data.skip(3 * k),
        ),
    decreases k,
{
    if k > 0 {
        lemma_b64_split(data.skip(3), k - 1);
        assert(data.skip(3).skip(3 * (k - 1)) =~= data.skip(3 * k));
        assert(data.take(3 * k).take(3) =~= data.take(3));
        assert(data.take(3 * k).skip(3) =~= data.skip(3).take(3 * (k - 1)));
        if 3 * k == 3 {
            assert(data.skip(3).take(0) =~= Seq::<u8>::empty());
            assert(data.take(3 * k).len() == 3);
        }
        if data.len() == 3 {
            assert(data.skip(3) =~= Seq::<u8>::empty());
            assert(data.take(3) =~= data);
        }
    } else {
        assert(data.take(0) =~= Seq::<u8>::empty());
        assert(data.skip(0) =~= data);
    }
}

/// URL-safe base64 without padding.
pub fn b64_url_nopad(data: &[u8]) -> (s: String)
    ensures
        s@ == spec_b64_url_nopad(data@),
{
    let n = data.len();
    let mut out: Vec<char> = Vec::new();
    let mut i: usize = 0;
    proof {
        assert(data@.take(0) =~= Seq::<u8>::empty());
    }
    while i < n
        invariant
            i <= n,
            n == data@.len(),
            i % 3 == 0,
            out@ == spec_b64_url_nopad(data@.take(i as int)),
        decreases n - i,
    {
        let b0 = data[i];
        let b1: u8 = if i + 1 < n { data[i + 1] } else { 0 };
        let b2: u8 = if i + 2 < n { data[i + 2] } else { 0 };
        let ghost before = out@;
        b64_push(&mut out, b0 / 4);
        b64_push(&mut out, (b0 % 4) * 16 + b1 / 16);
        if i + 1 < n {
            b64_push(&mut out, (b1 % 16) * 4 + b2 / 64);
        }
        if i + 2 < n {
            b64_push(&mut out, b2 % 64);
        }
        let next: usize = if i + 3 <= n { i + 3 } else { n };
        proof {
            let g = data@.subrange(i as int, next as int);
            assert(out@ =~= before + b64_group(g));
            let t = data@.take(next as int);
            lemma_b64_split(t, (i / 3) as int);
            assert(t.take(i as int) =~= data@.take(i as int));
            assert(t.skip(i as int) =~= g);
            assert(spec_b64_url_nopad(g) == b64_group(g));
        }
        if next == n {
            i = n;
            proof {
                assert(data@.take(n as int) =~= data@);
            }
            return string_from_chars(&out);
        }
        i = next;
    }
    proof {
        assert(data@.take(n as int) =~= data@);
    }
    string_from_chars(&out)
}

/// Every character of the encoding is in the URL-safe alphabet, and its
/// length is four characters per full 3-byte group plus 2 or 3 for a
/// trailing partial group.
pub proof fn lemma_b64_shape(data: Seq<u8>)
    ensures
        forall|k: int|
            0 <= k < spec_b64_url_nopad(data).len() ==> is_b64_char(
                #[trigger] spec_b64_url_nopad(data)[k],
            ),
        spec_b64_url_nopad(data).len() == 4 * (data.len() / 3) + (if data.len() % 3 == 0 {
            0
        } else {
            data.len() % 3 + 1
        }),
    decreases data.len(),
{
    if data.len() > 0 {
        let g = if data.len() <= 3 { data } else { data.take(3) };
        let e = b64_group(g);
        assert forall|k: int| 0 <= k < e.len() implies is_b64_char(#[trigger] e[k]) by {
            let b0 = g[0] as int;
            let b1 = if g.len() > 1 { g[1] as int } else { 0 };
            let b2 = if g.len() > 2 { g[2] as int } else { 0 };
            lemma_b64_char_ok(b0 / 4);
            lemma_b64_char_ok((b0 % 4) * 16 + b1 / 16);
            lemma_b64_char_ok((b1 % 16) * 4 + b2 / 64);
            lemma_b64_char_ok(b2 % 64);
        }
        if data.len() > 3 {
            lemma_b64_shape(data.skip(3));
            let r = spec_b64_url_nopad(data.skip(3));
            let all = spec_b64_url_nopad(data);
            assert(all == e + r);
            assert forall|k: int| 0 <= k < all.len() implies is_b64_char(#[trigger] all[k]) by {
                if k >= e.len() {
                    assert(all[k] == r[k - e.len()]);
                }
            }
        }
    }
}

proof fn lemma_b64_char_ok(i: int)
    requires
        0 <= i < 64,
    ensures
        is_b64_char(b64_char(i)),
{
}

/// Payload a phone must scan to authorize this client:
/// `tg://login?token=` followed by the URL-safe base64 (unpadded) of the
/// raw token bytes.
pub fn login_payload(token: &[u8]) -> (s: String)
    ensures
        s@ == "tg://login?token="@ + spec_b64_url_nopad(token@),
{
    let mut out: Vec<char> = Vec::new();
    push_str(&mut out, "tg://login?token=");
    let b64 = b64_url_nopad(token);
    push_str(&mut out, b64.as_str());
    string_from_chars(&out)
}

/// White margin (in modules) around the code: scanners need at least 4.
pub const QUIET_MODULES: usize = 4;

/// Device pixels per module.
pub const SCALE: usize = 8;

/// Side in pixels of the image of a `size`-module code.
pub open spec fn image_dim(size: nat) -> nat {
    (size + 8) * 8
}

/// Whether pixel `(px, py)` of the image falls on a dark module.
pub open spec fn pixel_dark(size: nat, modules: Seq<bool>, px: int, py: int) -> bool {
    let mx = px / 8 - 4;
    let my = py / 8 - 4;
    0 <= mx < size && 0 <= my < size && modules[my * size + mx]
}

/// Byte `i` of the RGBA image (rows top to bottom, pixels left to right):
/// dark modules are opaque black, everything else opaque white.
pub open spec fn rgba_byte(size: nat, modules: Seq<bool>, i: int) -> u8 {
    let p = i / 4;
    let dim = image_dim(size) as int;
    if i % 4 == 3 {
        255
    } else if pixel_dark(size, modules, p % dim, p / dim) {
        0
    } else {
        255
    }
}

proof fn lemma_pixel_index(dim: int, py: int, px: int, c: int)
    requires
        dim > 0,
        0 <= py,
        0 <= px < dim,
        0 <= c < 4,
    ensures
        (4 * (dim * py + px) + c) / 4 == dim * py + px,
        (4 * (dim * py + px) + c) % 4 == c,
        (dim * py + px) % dim == px,
        (dim * py + px) / dim == py,
{
    lemma_fundamental_div_mod_converse(4 * (dim * py + px) + c, 4, dim * py + px, c);
    lemma_fundamental_div_mod_converse(dim * py + px, dim, py, px);
}

/// The RGBA pixels of a QR code image: `SCALE` device pixels per module
/// and a `QUIET_MODULES` white margin.
pub fn qr_rgba(size: usize, modules: &Vec<bool>) -> (rgba: Vec<u8>)
    requires
        modules.len() == size * size,
        size <= 177,
    ensures
        rgba.len() == 4 * image_dim(size as nat) * image_dim(size as nat),
        forall|i: int| 0 <= i < rgba.len() ==> #[trigger] rgba@[i] == rgba_byte(size as nat, modules@, i),
{
    let dim = (size + 2 * QUIET_MODULES) * SCALE;
    let mut out: Vec<u8> = Vec::new();
    let mut py: usize = 0;
    while py < dim
        invariant
            dim == image_dim(size as nat),
            size <= 177,
            modules.len() == size * size,
            py <= dim,
            out.len() == 4 * (dim * py),
            forall|i: int| 0 <= i < out.len() ==> #[trigger] out@[i] == rgba_byte(size as nat, modules@, i),
        decreases dim - py,
    {
        let mut px: usize = 0;
        while px < dim
            invariant
                dim == image_dim(size as nat),
                size <= 177,
                modules.len() == size * size,
                py < dim,
                px <= dim,
                out.len() == 4 * (dim * py + px),
                forall|i: int| 0 <= i < out.len() ==> #[trigger] out@[i] == rgba_byte(size as nat, modules@, i),
            decreases dim - px,
        {
            assert(dim * py + px < dim * dim) by (nonlinear_arith)
                requires
                    py < dim,
                    px < dim,
            ;
            let mx = px / SCALE;
            let my = py / SCALE;
            let dark = if mx >= QUIET_MODULES && my >= QUIET_MODULES && mx - QUIET_MODULES < size
                && my - QUIET_MODULES < size {
                let x = mx - QUIET_MODULES;
                let y = my - QUIET_MODULES;
                assert(y * size + x < size * size) by (nonlinear_arith)
                    requires
                        x < size,
                        y < size,
                ;
                modules[y * size + x]
            } else {
                false
            };
            let v: u8 = if dark { 0 } else { 255 };
            proof {
                assert(dark == pixel_dark(size as nat, modules@, px as int, py as int));
                lemma_pixel_index(dim as int, py as int, px as int, 0);
                lemma_pixel_index(dim as int, py as int, px as int, 1);
                lemma_pixel_index(dim as int, py as int, px as int, 2);
                lemma_pixel_index(dim as int, py as int, px as int, 3);
            }
            out.push(v);
            out.push(v);
            out.push(v);
            out.push(255);
            px = px + 1;
        }
        assert(dim * py + dim == dim * (py + 1)) by (nonlinear_arith);
        py = py + 1;
    }
    assert(4 * (dim * dim) == 4 * dim * dim) by (nonlinear_arith);
    out
}

/// Why a QR image could not be produced.
#[derive(Debug, Clone, Copy, PartialEq, Eq, Structural)]
pub enum QrImageError {
    /// The payload does not fit in any QR version at the medium ECC level.
    PayloadTooLong,
    /// The image buffer was refused by the pixmap.
    PixmapAllocation,
    /// PNG encoding failed.
    Encoding,
}

/// Error-correction level of a QR code.
#[derive(Debug, Clone, Copy, PartialEq, Eq, Structural)]
pub enum Ecc {
    Low,
    Medium,
    Quartile,
    High,
}

/// The QR code of `text` at error-correction level `ecc`, as qrcodegen
/// makes it: its side in modules and its modules row by row (`true` =
/// dark), or nothing when no QR version can hold the text.
pub uninterp spec fn qr_code(text: Seq<char>, ecc: Ecc) -> Option<(nat, Seq<bool>)>;

/// Trusted: `qrcodegen::QrCode::encode_text(text, ecl)`, then `size()` and
/// `get_module(x, y)` for every module, rows top to bottom. The code is
/// named [`qr_code`]; as qrcodegen's source shows, encoding fails exactly
/// when no version holds the text, and a side is `4 * version + 17` for a
/// version in 1..=40.
#[verifier::external_body]
fn qr_matrix(text: &str, ecc: Ecc) -> (r: Option<(usize, Vec<bool>)>)
    ensures
        r is None <==> qr_code(text@, ecc) is None,
        r matches Some(m) ==> qr_code(text@, ecc) == Some((m.0 as nat, m.1@)) && 21 <= m.0 <= 177
            && m.1@.len() == m.0 * m.0,
{
    let ecl = match ecc {
        Ecc::Low => qrcodegen::QrCodeEcc::Low,
        Ecc::Medium => qrcodegen::QrCodeEcc::Medium,
        Ecc::Quartile => qrcodegen::QrCodeEcc::Quartile,
        Ecc::High => qrcodegen::QrCodeEcc::High,
    };
    let code = qrcodegen::QrCode::encode_text(text, ecl).ok()?;
    let n = code.size();
    let c = &code;
    let modules = (0..n).flat_map(|y| (0..n).map(move |x| c.get_module(x, y))).collect();
    Some((n as usize, modules))
}

/// The PNG file tiny-skia writes for the RGBA pixels `rgba` of a `w` by `h`
/// image, or nothing when its encoder fails.
pub uninterp spec fn png_of(rgba: Seq<u8>, w: u32, h: u32) -> Option<Seq<u8>>;

/// Why the RGBA pixels could not become a PNG.
#[derive(Debug, Clone, Copy, PartialEq, Eq, Structural)]
pub enum PngError {
    /// The pixmap refused the buffer.
    Allocation,
    /// The PNG encoder failed.
    Encoding,
}

/// Trusted: `tiny_skia::IntSize::from_wh`, `tiny_skia::Pixmap::from_vec` and
/// `Pixmap::encode_png`. As their source shows, a pixmap is made exactly
/// when both sides are positive, a row of `4 * w` bytes fits an `i32` and
/// the buffer holds `4 * w * h` bytes; its PNG is named [`png_of`].
#[verifier::external_body]
fn png_from_rgba(rgba: Vec<u8>, w: u32, h: u32) -> (r: Result<Vec<u8>, PngError>)
    ensures
        (r matches Err(e) && e == PngError::Allocation) <==> !(w > 0 && h > 0 && 4 * w <= i32::MAX
            && rgba@.len() == 4 * w * h),
        !(r matches Err(e) && e == PngError::Allocation) ==> match png_of(rgba@, w, h) {
            Some(b) => r matches Ok(v) && v@ == b,
            None => r matches Err(e) && e == PngError::Encoding,
        },
{
    let size = match tiny_skia::IntSize::from_wh(w, h) {
        Some(s) => s,
        None => return Err(PngError::Allocation),
    };
    match tiny_skia::Pixmap::from_vec(rgba, size) {
        Some(pm) => pm.encode_png().map_err(|_| PngError::Encoding),
        None => Err(PngError::Allocation),
    }
}

/// The RGBA pixels of the image of a `size`-module code (see
/// [`rgba_byte`]).
pub open spec fn qr_image(size: nat, modules: Seq<bool>) -> Seq<u8> {
    Seq::new(4 * image_dim(size) * image_dim(size), |i: int| rgba_byte(size, modules, i))
}

/// The PNG the sign-in pane shows for `payload`: its QR code at medium
/// error correction drawn black on white (see [`qr_image`]), encoded by
/// tiny-skia.
pub open spec fn qr_png(payload: Seq<char>) -> Result<Seq<u8>, QrImageError> {
    match qr_code(payload, Ecc::Medium) {
        None => Err(QrImageError::PayloadTooLong),
        Some(c) => match png_of(qr_image(c.0, c.1), image_dim(c.0) as u32, image_dim(c.0) as u32) {
            Some(b) => Ok(b),
            None => Err(QrImageError::Encoding),
        },
    }
}

/// Renders `payload` as a black-on-white PNG (RGBA) with a quiet zone: the
/// QR code at medium error correction, `SCALE` pixels per module (see
/// [`qr_png`]).
pub fn qr_png_bytes(payload: &str) -> (r: Result<Vec<u8>, QrImageError>)
    ensures
        match qr_png(payload@) {
            Ok(b) => r matches Ok(v) && v@ == b,
            Err(e) => r == Err::<Vec<u8>, QrImageError>(e),
        },
{
    let (size, modules) = match qr_matrix(payload, Ecc::Medium) {
        Some(m) => m,
        None => {
            return Err(QrImageError::PayloadTooLong);
        },
    };
    let rgba = qr_rgba(size, &modules);
    let dim = (size + 2 * QUIET_MODULES) * SCALE;
    proof {
        assert(rgba@ =~= qr_image(size as nat, modules@));
        assert(dim == image_dim(size as nat));
        assert(4 * dim * dim == rgba.len());
    }
    match png_from_rgba(rgba, dim as u32, dim as u32) {
        Ok(bytes) => Ok(bytes),
        Err(PngError::Allocation) => Err(QrImageError::PixmapAllocation),
        Err(PngError::Encoding) => Err(QrImageError::Encoding),
    }
}

} // verus!
