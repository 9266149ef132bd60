use vstd::prelude::*;

use crate::math::{v3_x, v3_y, v3_z, vx, vy, vz, Scalar};
use crate::render::{quantize_channel, quantize_spec};

verus! {

/// The decimal digits of a nonnegative number, as their ASCII bytes.
pub open spec fn dec_spec(n: int) -> Seq<u8>
    decreases n,
{
    if n < 10 {
        seq![(n + 48) as u8]
    } else {
        dec_spec(n / 10).push((n % 10 + 48) as u8)
    }
}

/// Every byte of a decimal rendering is an ASCII digit.
pub proof fn lemma_dec_ascii(n: int)
    requires
        0 <= n,
    ensures
        forall|i: int| 0 <= i < dec_spec(n).len() ==> 48 <= #[trigger] dec_spec(n)[i] <= 57,
    decreases n,
{
    if n < 10 {
        assert(dec_spec(n)[0] == (n + 48) as u8);
    } else {
        vstd::arithmetic::div_mod::lemma_div_pos_is_pos(n, 10);
        vstd::arithmetic::div_mod::lemma_mod_bound(n, 10);
        lemma_dec_ascii(n / 10);
        let prev = dec_spec(n / 10);
        assert forall|i: int| 0 <= i < dec_spec(n).len() implies 48 <= #[trigger] dec_spec(
            n,
        )[i] <= 57 by {
            if i < prev.len() {
                assert(dec_spec(n)[i] == prev[i]);
            } else {
                assert(dec_spec(n)[i] == (n % 10 + 48) as u8);
            }
        }
    }
}

/// Writes `n` in decimal.
pub fn dec_bytes(n: u32) -> (v: Vec<u8>)
    ensures
        v@ == dec_spec(n as int),
    decreases n,
{
    if n < 10 {
        let mut v: Vec<u8> = Vec::new();
        v.push(48 + n as u8);
        assert(v@ =~= dec_spec(n as int));
        v
    } else {
        let mut v = dec_bytes(n / 10);
        v.push((n % 10) as u8 + 48);
        v
    }
}

/// One pixel as text: the three channel values in decimal, separated by
/// single spaces.
pub open spec fn color_triple_spec(r: int, g: int, b: int) -> Seq<u8> {
    dec_spec(r) + seq![32u8] + dec_spec(g) + seq![32u8] + dec_spec(b)
}

/// One pixel's line: the three channel values and a line break.
pub open spec fn ppm_line_spec(r: int, g: int, b: int) -> Seq<u8> {
    color_triple_spec(r, g, b) + seq![10u8]
}

/// The three-line header of the plain-text pixel format: the magic
/// token, the image size, and the maximum channel value.
pub open spec fn ppm_header_spec(w: int, h: int) -> Seq<u8> {
    seq![80u8, 51u8, 10u8] + dec_spec(w) + seq![32u8] + dec_spec(h) + seq![10u8] + dec_spec(255)
        + seq![10u8]
}

/// The pixel lines of an image, in sequence order.
pub open spec fn ppm_pixels_spec(pixels: Seq<(u8, u8, u8)>) -> Seq<u8>
    decreases pixels.len(),
{
    if pixels.len() == 0 {
        Seq::empty()
    } else {
        ppm_pixels_spec(pixels.drop_last()) + ppm_line_spec(
            pixels.last().0 as int,
            pixels.last().1 as int,
            pixels.last().2 as int,
        )
    }
}

/// A whole image file: the header, then one line per pixel.
pub open spec fn ppm_image_spec(w: int, h: int, pixels: Seq<(u8, u8, u8)>) -> Seq<u8> {
    ppm_header_spec(w, h) + ppm_pixels_spec(pixels)
}

/// Appends a copy of `src` to `dst`.
fn push_bytes(dst: &mut Vec<u8>, src: &Vec<u8>)
    ensures
        final(dst)@ == old(dst)@ + src@,
{
    let n = src.len();
    let mut i: usize = 0;
    while i < n
        invariant
            i <= n,
            n == src@.len(),
            dst@ == old(dst)@ + src@.take(i as int),
        decreases n - i,
    {
        dst.push(src[i]);
        assert(src@.take(i as int + 1) =~= src@.take(i as int).push(src@[i as int]));
        i = i + 1;
    }
    assert(src@.take(n as int) =~= src@);
}

/// Writes one pixel's channel triple.
pub fn color_triple_bytes(r: u8, g: u8, b: u8) -> (v: Vec<u8>)
    ensures
        v@ == color_triple_spec(r as int, g as int, b as int),
{
    let mut v = dec_bytes(r as u32);
    v.push(32);
    let gb = dec_bytes(g as u32);
    push_bytes(&mut v, &gb);
    v.push(32);
    let bb = dec_bytes(b as u32);
    push_bytes(&mut v, &bb);
    assert(v@ =~= color_triple_spec(r as int, g as int, b as int));
    v
}

/// Writes one pixel's line.
pub fn ppm_line_bytes(r: u8, g: u8, b: u8) -> (v: Vec<u8>)
    ensures
        v@ == ppm_line_spec(r as int, g as int, b as int),
{
    let mut v = color_triple_bytes(r, g, b);
    v.push(10);
    assert(v@ =~= ppm_line_spec(r as int, g as int, b as int));
    v
}

/// Writes the header of a `w × h` image.
pub fn ppm_header_bytes(w: u32, h: u32) -> (v: Vec<u8>)
    ensures
        v@ == ppm_header_spec(w as int, h as int),
{
    let mut v: Vec<u8> = Vec::new();
    v.push(80);
    v.push(51);
    v.push(10);
    let wb = dec_bytes(w);
    push_bytes(&mut v, &wb);
    v.push(32);
    let hb = dec_bytes(h);
    push_bytes(&mut v, &hb);
    v.push(10);
    let mb = dec_bytes(255);
    push_bytes(&mut v, &mb);
    v.push(10);
    assert(v@ =~= ppm_header_spec(w as int, h as int));
    v
}

/// Writes a whole image file from its finished pixels, which must be
/// exactly one per image position.
pub fn ppm_image_bytes(w: u32, h: u32, pixels: &Vec<(u8, u8, u8)>) -> (v: Vec<u8>)
    requires
        pixels@.len() == w as int * h as int,
    ensures
        v@ == ppm_image_spec(w as int, h as int, pixels@),
{
    let mut v = ppm_header_bytes(w, h);
    let n = pixels.len();
    let mut i: usize = 0;
    assert(ppm_pixels_spec(pixels@.take(0)) =~= Seq::<u8>::empty()) by {
        assert(pixels@.take(0).len() == 0);
    }
    assert(v@ =~= ppm_header_spec(w as int, h as int) + ppm_pixels_spec(pixels@.take(0)));
    while i < n
        invariant
            i <= n,
            n == pixels@.len(),
            v@ == ppm_header_spec(w as int, h as int) + ppm_pixels_spec(pixels@.take(i as int)),
        decreases n - i,
    {
        let (r, g, b) = pixels[i];
        let line = ppm_line_bytes(r, g, b);
        push_bytes(&mut v, &line);
        proof {
            let taken = pixels@.take(i as int + 1);
            assert(taken.drop_last() =~= pixels@.take(i as int));
            assert(taken.last() == pixels@[i as int]);
            assert(v@ =~= ppm_header_spec(w as int, h as int) + ppm_pixels_spec(taken));
        }
        i = i + 1;
    }
    assert(pixels@.take(n as int) =~= pixels@);
    v
}

/// The characters of a run of ASCII bytes.
pub open spec fn ascii_chars_spec(s: Seq<u8>) -> Seq<char> {
    Seq::new(s.len(), |i: int| s[i] as char)
}

/// Relies on `String::from_utf8` of std: ASCII bytes are valid encoded
/// text, each byte one character.
#[verifier::external_body]
fn ascii_string(v: Vec<u8>) -> (s: String)
    requires
        forall|i: int| 0 <= i < v@.len() ==> v@[i] < 128,
    ensures
        s@ == ascii_chars_spec(v@),
{
    String::from_utf8(v).unwrap_or_default()
}

/// One pixel of a resolved color as text: each channel quantized to
/// 8 bits, the three values in decimal, separated by single spaces.
pub fn format_color(color: glam::Vec3) -> (s: String)
    ensures
        s@ == ascii_chars_spec(
            color_triple_spec(
                quantize_spec(v3_x(color)),
                quantize_spec(v3_y(color)),
                quantize_spec(v3_z(color)),
            ),
        ),
{
    let r = quantize_channel(Scalar { rep: vx(color) });
    let g = quantize_channel(Scalar { rep: vy(color) });
    let b = quantize_channel(Scalar { rep: vz(color) });
    let v = color_triple_bytes(r, g, b);
    proof {
        lemma_dec_ascii(r as int);
        lemma_dec_ascii(g as int);
        lemma_dec_ascii(b as int);
    }
    ascii_string(v)
}

} // verus!
