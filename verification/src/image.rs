//! The PNG form of an RGBA raster: the colour channels are scaled by alpha
//! into a pixmap, which the pixmap's own encoder writes out as PNG; and the
//! `data:` URI that embeds such a file in an SVG image.
use vstd::prelude::*;
use base64::Engine;
use resvg::tiny_skia::Pixmap;

verus! {

#[verifier::external_type_specification]
#[verifier::external_body]
pub struct ExPixmap(resvg::tiny_skia::Pixmap);

/// The width and height a pixmap was made with.
pub uninterp spec fn pixmap_size(p: Pixmap) -> (u32, u32);

/// The bytes a pixmap holds: premultiplied RGBA, row after row.
pub uninterp spec fn pixmap_bytes(p: Pixmap) -> Seq<u8>;

/// The PNG file that the pixmap encoder writes for a pixmap of this size
/// holding these bytes.
pub uninterp spec fn png_encoding(width: u32, height: u32, data: Seq<u8>) -> Seq<u8>;

/// Whether a pixmap of this size can be made: both sides are positive, a
/// row's bytes fit in `i32`, and all the bytes fit in `usize`.
pub open spec fn pixmap_fits(width: u32, height: u32) -> bool {
    &&& width > 0
    &&& height > 0
    &&& width * 4 <= i32::MAX
    &&& (height - 1) * (width * 4) + width * 4 <= usize::MAX
}

/// `Pixmap::new`: a pixmap of the given size whose bytes are all zero,
/// made exactly when the size fits. (The allocation itself does not
/// return on failure, it aborts.)
#[verifier::external_body]
fn new_pixmap(width: u32, height: u32) -> (r: Option<Pixmap>)
    ensures
        r is Some <==> pixmap_fits(width, height),
        r matches Some(p) ==> {
            &&& pixmap_size(p) == (width, height)
            &&& pixmap_bytes(p) == Seq::new((width * height * 4) as nat, |i: int| 0u8)
        },
{
    Pixmap::new(width, height)
}

/// Writes one byte through `Pixmap::data_mut`; the size and every other
/// byte stay as they were.
#[verifier::external_body]
fn set_pixmap_byte(p: &mut Pixmap, index: usize, value: u8)
    requires
        index < pixmap_bytes(*old(p)).len(),
    ensures
        pixmap_size(*final(p)) == pixmap_size(*old(p)),
        pixmap_bytes(*final(p)) == pixmap_bytes(*old(p)).update(index as int, value),
{
    p.data_mut()[index] = value;
}

/// `Pixmap::encode_png`: the named PNG encoding of the pixmap's size and
/// bytes. The PNG encoder it calls fails only on a zero width or height
/// (which no pixmap has), on a colour type and bit depth that do not go
/// together (RGBA at eight bits does), on a palette image without a
/// palette, or on image data of the wrong length (the pixmap's data is
/// always `width * height * 4` bytes); it writes into a `Vec`, which does
/// not fail. So a pixmap always encodes. The encoder's error type belongs
/// to a crate that this library does not name, hence the `Option`.
#[verifier::external_body]
fn encode_pixmap_png(p: &Pixmap) -> (r: Option<Vec<u8>>)
    ensures
        r is Some,
        r matches Some(bytes) ==> bytes@ == png_encoding(
            pixmap_size(*p).0,
            pixmap_size(*p).1,
            pixmap_bytes(*p),
        ),
{
    p.encode_png().ok()
}

/// A colour channel scaled by its pixel's alpha, rounded to nearest.
pub open spec fn premultiply(c: int, a: int) -> int {
    (c * a + 127) / 255
}

/// An opaque pixel keeps its colour and a fully transparent one becomes
/// black.
pub proof fn law_premultiply_extremes(c: u8)
    ensures
        premultiply(c as int, 255) == c,
        premultiply(c as int, 0) == 0,
{
}

/// Byte `i` of the premultiplied form of `pixels` when only its first `k`
/// pixels have been written into a zeroed buffer.
pub open spec fn premultiplied_byte(pixels: Seq<u8>, k: int, i: int) -> u8 {
    if i < k * 4 {
        if i % 4 == 3 {
            pixels[i]
        } else {
            premultiply(pixels[i] as int, pixels[i - i % 4 + 3] as int) as u8
        }
    } else {
        0u8
    }
}

/// A zeroed buffer of `len` bytes holding the premultiplied form of the
/// complete pixels of `pixels` (a trailing partial pixel is dropped).
pub open spec fn premultiplied(pixels: Seq<u8>, len: int) -> Seq<u8> {
    Seq::new(len as nat, |i: int| premultiplied_byte(pixels, (pixels.len() / 4) as int, i))
}

/// Why a raster could not be written as PNG.
#[derive(Debug, Clone, Copy, PartialEq, Eq, Structural)]
pub enum PngError {
    /// No pixmap of the raster's size can be made.
    Allocation,
}

impl PngError {
    pub fn message(self) -> (s: &'static str)
        ensures
            s@ == "failed to allocate raster pixmap"@,
    {
        match self {
            PngError::Allocation => "failed to allocate raster pixmap",
        }
    }
}

proof fn lemma_premultiply_byte(c: u8, a: u8)
    ensures
        0 <= premultiply(c as int, a as int) <= 255,
        (c as u16) * (a as u16) + 127 <= u16::MAX,
{
    assert(0 <= (c as int) * (a as int) <= 255 * 255) by (nonlinear_arith);
}

/// The PNG bytes of an RGBA raster of `width` by `height` pixels: each
/// complete pixel of `pixels` goes, premultiplied by its alpha, into a
/// fresh pixmap of that size, which is then encoded; this fails exactly
/// when no pixmap of that size can be made.
pub fn to_png_bytes(width: u32, height: u32, pixels: &Vec<u8>) -> (r: Result<Vec<u8>, PngError>)
    requires
        pixmap_fits(width, height) ==> pixels.len() / 4 <= width * height,
    ensures
        !pixmap_fits(width, height) ==> r == Err::<Vec<u8>, PngError>(PngError::Allocation),
        pixmap_fits(width, height) ==> (r matches Ok(bytes) && bytes@ == png_encoding(
            width,
            height,
            premultiplied(pixels@, width * height * 4),
        )),
{
    let mut pixmap = match new_pixmap(width, height) {
        Some(p) => p,
        None => return Err(PngError::Allocation),
    };
    let ghost len = width * height * 4;
    let count = pixels.len() / 4;
    assert(pixmap_bytes(pixmap) =~= Seq::new(len as nat, |i: int| premultiplied_byte(pixels@, 0, i)));
    for index in 0..count
        invariant
            count == pixels.len() / 4,
            count <= width * height,
            len == width * height * 4,
            pixmap_size(pixmap) == (width, height),
            pixmap_bytes(pixmap) == Seq::new(
                len as nat,
                |i: int| premultiplied_byte(pixels@, index as int, i),
            ),
    {
        let base = index * 4;
        let alpha = pixels[base + 3];
        proof {
            lemma_premultiply_byte(pixels[base as int], alpha);
            lemma_premultiply_byte(pixels[base + 1], alpha);
            lemma_premultiply_byte(pixels[base + 2], alpha);
            assert(base + 3 < len) by (nonlinear_arith)
                requires
                    index < count,
                    count <= width * height,
                    len == width * height * 4,
                    base == index * 4,
            ;
        }
        let a = alpha as u16;
        let r = ((pixels[base] as u16 * a + 127) / 255) as u8;
        let g = ((pixels[base + 1] as u16 * a + 127) / 255) as u8;
        let b = ((pixels[base + 2] as u16 * a + 127) / 255) as u8;
        let ghost before = pixmap_bytes(pixmap);
        set_pixmap_byte(&mut pixmap, base, r);
        set_pixmap_byte(&mut pixmap, base + 1, g);
        set_pixmap_byte(&mut pixmap, base + 2, b);
        set_pixmap_byte(&mut pixmap, base + 3, alpha);
        assert forall|i: int| 0 <= i < len implies #[trigger] pixmap_bytes(pixmap)[i]
            == premultiplied_byte(pixels@, index + 1, i) by {
            if base <= i < base + 4 {
                assert(i - i % 4 == base);
            } else {
                assert(pixmap_bytes(pixmap)[i] == before[i]);
                assert(i < base ==> i < (index + 1) * 4);
            }
        }
        assert(pixmap_bytes(pixmap) =~= Seq::new(
            len as nat,
            |i: int| premultiplied_byte(pixels@, index + 1, i),
        ));
    }
    assert(pixmap_bytes(pixmap) =~= premultiplied(pixels@, len));
    Ok(encode_pixmap_png(&pixmap).unwrap())
}

/// The digit of the standard base64 alphabet for a value below 64.
pub open spec fn base64_digit(v: int) -> char {
    if v < 26 {
        ('A' as int + v) as char
    } else if v < 52 {
        ('a' as int + (v - 26)) as char
    } else if v < 62 {
        ('0' as int + (v - 52)) as char
    } else if v == 62 {
        '+'
    } else {
        '/'
    }
}

/// Standard base64 with padding: each group of three bytes, read as a
/// 24-bit number, gives four digits of six bits each, most significant
/// first; a last group of one or two bytes is filled with zero bits to a
/// whole digit and padded with `=` to four characters.
pub open spec fn base64_standard(b: Seq<u8>) -> Seq<char>
    decreases b.len(),
{
    if b.len() == 0 {
        Seq::empty()
    } else if b.len() == 1 {
        let n = b[0] as int;
        seq![base64_digit(n / 4), base64_digit((n % 4) * 16), '=', '=']
    } else if b.len() == 2 {
        let n = b[0] as int * 256 + b[1] as int;
        seq![base64_digit(n / 1024), base64_digit((n / 16) % 64), base64_digit((n % 16) * 4), '=']
    } else {
        let n = b[0] as int * 65536 + b[1] as int * 256 + b[2] as int;
        seq![
            base64_digit(n / 262144),
            base64_digit((n / 4096) % 64),
            base64_digit((n / 64) % 64),
            base64_digit(n % 64),
        ] + base64_standard(b.skip(3))
    }
}

/// `Engine::encode` of base64's `STANDARD` engine (standard alphabet, with
/// padding): the base64 text of the bytes.
#[verifier::external_body]
fn encode_base64(bytes: &[u8]) -> (s: String)
    ensures
        s@ == base64_standard(bytes@),
{
    base64::engine::general_purpose::STANDARD.encode(bytes)
}

pub open spec fn spec_png_data_uri(png: Seq<u8>) -> Seq<char> {
    "data:image/png;base64,"@ + base64_standard(png)
}

/// The `data:` URI under which an SVG image embeds a PNG file.
pub fn png_data_uri(png: &[u8]) -> (s: String)
    ensures
        s@ == spec_png_data_uri(png@),
{
    let mut out = String::new();
    out.append("data:image/png;base64,");
    let encoded = encode_base64(png);
    out.append(encoded.as_str());
    out
}

} // verus!
