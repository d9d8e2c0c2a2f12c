//! The image normalizer: decodes a bitmap of unknown encoding (the format is
//! sniffed from the bytes, never from a name), pads it symmetrically with a
//! transparent margin of one tenth of the longer side (rounded up), scales it
//! so the longer side becomes 512 while the aspect ratio is kept under
//! rounding, and re-encodes it as PNG. The dimension arithmetic is verified;
//! the pixel work is delegated to the `image` crate behind trusted wrappers.

use vstd::arithmetic::div_mod::{
    lemma_div_is_ordered, lemma_fundamental_div_mod, lemma_fundamental_div_mod_converse,
};
use vstd::prelude::*;

verus! {

/// Why normalization failed.
#[derive(Clone, Copy, Debug, PartialEq, Eq)]
pub enum NormalizationError {
    /// The bytes are not a decodable image.
    Undecodable,
    /// The decoded source has a zero-area canvas.
    ZeroArea,
    /// The padded canvas would not fit the platform's pixel coordinate range.
    TooLarge,
}

/// The normalized asset: the PNG bytes and their pixel dimensions.
#[derive(Clone, Debug, PartialEq, Eq)]
pub struct NormalizedImage {
    pub png: Vec<u8>,
    pub width: u32,
    pub height: u32,
}

/// What `image::load_from_memory` makes of the bytes: `None` when they do
/// not decode, otherwise the decoded width and height. Decoding is a
/// function of the bytes alone.
pub uninterp spec fn decoded_dims(bytes: Seq<u8>) -> Option<(u32, u32)>;

/// The longer of the two sides.
pub open spec fn longer_side(w: int, h: int) -> int {
    if w >= h {
        w
    } else {
        h
    }
}

/// The transparent margin added on each side: one tenth of the longer side,
/// rounded up.
pub open spec fn border_spec(w: int, h: int) -> int {
    (longer_side(w, h) + 9) / 10
}

/// The padded canvas width.
pub open spec fn padded_w_spec(w: int, h: int) -> int {
    w + 2 * border_spec(w, h)
}

/// The padded canvas height.
pub open spec fn padded_h_spec(w: int, h: int) -> int {
    h + 2 * border_spec(w, h)
}

/// `512 * short / long`, rounded to the nearest integer (halves up): the
/// shorter target side that keeps the aspect ratio.
pub open spec fn round_ratio(long: int, short: int) -> int {
    (1024 * short + long) / (2 * long)
}

/// The target width: 512 on the longer-or-equal side, else the rounded
/// aspect-preserving length.
pub open spec fn target_w_spec(pw: int, ph: int) -> int {
    if pw >= ph {
        512
    } else {
        round_ratio(ph, pw)
    }
}

/// The target height, symmetrically.
pub open spec fn target_h_spec(pw: int, ph: int) -> int {
    if pw >= ph {
        round_ratio(pw, ph)
    } else {
        512
    }
}

/// The rounded shorter side lies between 1 and 512 whenever the sides are
/// within the factor-1024 band.
proof fn lemma_round_ratio_bounds(long: int, short: int)
    requires
        1 <= short,
        short <= long,
        long <= 1024 * short,
    ensures
        1 <= round_ratio(long, short),
        round_ratio(long, short) <= 512,
{
    let a = 1024 * short + long;
    let b = 2 * long;
    assert(b >= 2);
    assert(1024 * short <= 1024 * long) by (nonlinear_arith)
        requires
            short <= long,
    ;
    assert(a <= 512 * b + long);
    assert(0 <= long < b);
    lemma_fundamental_div_mod_converse(512 * b + long, b, 512, long);
    lemma_div_is_ordered(a, 512 * b + long, b);
    assert(round_ratio(long, short) <= 512);
    assert(a >= b) by {
        assert(1024 * short >= long);
    }
    lemma_fundamental_div_mod_converse(b, b, 1, 0);
    lemma_div_is_ordered(b, a, b);
    assert(round_ratio(long, short) >= 1);
}

/// Padding with a proportional margin keeps the two sides within a factor
/// 1024 of each other, and both positive.
proof fn lemma_padded_ratio(w: int, h: int)
    requires
        1 <= w,
        1 <= h,
    ensures
        1 <= padded_w_spec(w, h),
        1 <= padded_h_spec(w, h),
        padded_w_spec(w, h) <= 1024 * padded_h_spec(w, h),
        padded_h_spec(w, h) <= 1024 * padded_w_spec(w, h),
{
    let m = longer_side(w, h);
    let b = border_spec(w, h);
    lemma_fundamental_div_mod(m + 9, 10);
    assert(10 * b >= m);
    assert(b >= 1);
    let pw = padded_w_spec(w, h);
    let ph = padded_h_spec(w, h);
    assert(pw <= m + 2 * b);
    assert(ph <= m + 2 * b);
    assert(1024 * ph >= 1024 * (1 + 2 * b)) by (nonlinear_arith)
        requires
            h >= 1,
            b >= 1,
            ph == h + 2 * b,
    ;
    assert(m + 2 * b <= 1024 * (1 + 2 * b)) by {
        assert(m <= 10 * b);
        assert(10 * b + 2 * b <= 1024 + 2048 * b);
    }
    assert(1024 * pw >= 1024 * (1 + 2 * b)) by (nonlinear_arith)
        requires
            w >= 1,
            b >= 1,
            pw == w + 2 * b,
    ;
}

/// Law: normalization is bound-correct. For every nonzero source, the target
/// box computed from the padded canvas has 512 as its longer side, no side
/// beyond 512, no degenerate side, and the shorter side is exactly the
/// rounded aspect-preserving length of the padded canvas.
pub proof fn lemma_normalized_bounds(w: int, h: int)
    requires
        1 <= w,
        1 <= h,
    ensures
        target_w_spec(padded_w_spec(w, h), padded_h_spec(w, h)) == 512 || target_h_spec(
            padded_w_spec(w, h),
            padded_h_spec(w, h),
        ) == 512,
        1 <= target_w_spec(padded_w_spec(w, h), padded_h_spec(w, h)) <= 512,
        1 <= target_h_spec(padded_w_spec(w, h), padded_h_spec(w, h)) <= 512,
        padded_w_spec(w, h) >= padded_h_spec(w, h) ==> target_h_spec(
            padded_w_spec(w, h),
            padded_h_spec(w, h),
        ) == round_ratio(padded_w_spec(w, h), padded_h_spec(w, h)),
        padded_w_spec(w, h) < padded_h_spec(w, h) ==> target_w_spec(
            padded_w_spec(w, h),
            padded_h_spec(w, h),
        ) == round_ratio(padded_h_spec(w, h), padded_w_spec(w, h)),
{
    lemma_padded_ratio(w, h);
    let pw = padded_w_spec(w, h);
    let ph = padded_h_spec(w, h);
    if pw >= ph {
        lemma_round_ratio_bounds(pw, ph);
    } else {
        lemma_round_ratio_bounds(ph, pw);
    }
}

/// The margin added on each side of a `w` by `h` canvas.
fn compute_border(w: u32, h: u32) -> (b: u32)
    ensures
        b == border_spec(w as int, h as int),
{
    let longer: u64 = if w >= h {
        w as u64
    } else {
        h as u64
    };
    ((longer + 9) / 10) as u32
}

/// The target box for a padded `pw` by `ph` canvas.
fn target_dims(pw: u32, ph: u32) -> (r: (u32, u32))
    requires
        1 <= pw,
        1 <= ph,
        pw <= 1024 * (ph as int),
        ph <= 1024 * (pw as int),
    ensures
        r.0 == target_w_spec(pw as int, ph as int),
        r.1 == target_h_spec(pw as int, ph as int),
        1 <= r.0 <= 512,
        1 <= r.1 <= 512,
{
    if pw >= ph {
        proof {
            lemma_round_ratio_bounds(pw as int, ph as int);
        }
        let th = (1024 * (ph as u64) + pw as u64) / (2 * (pw as u64));
        (512, th as u32)
    } else {
        proof {
            lemma_round_ratio_bounds(ph as int, pw as int);
        }
        let tw = (1024 * (pw as u64) + ph as u64) / (2 * (ph as u64));
        (tw as u32, 512)
    }
}

/// A decoded bitmap, carried together with its dimensions.
struct Bitmap {
    img: image::DynamicImage,
    width: u32,
    height: u32,
}

#[verifier::external_type_specification]
#[verifier::external_body]
pub struct ExDynamicImage(image::DynamicImage);

/// What an `image::DynamicImage` holds, as far as this module reads it: its
/// pixel width and height. The wrappers below state their dimension claims
/// over this name, so they speak of the image itself, never of bookkeeping
/// beside it.
pub uninterp spec fn image_dims(img: image::DynamicImage) -> (u32, u32);

impl Bitmap {
    /// The carried fields are the image's own dimensions.
    spec fn wf(&self) -> bool {
        image_dims(self.img) == (self.width, self.height)
    }
}

/// Relies on image::load_from_memory: the format is sniffed from the bytes,
/// so the result — failure, or an image with its dimensions — is a function
/// of the bytes alone.
#[verifier::external_body]
fn decode_bitmap(bytes: &Vec<u8>) -> (r: Option<Bitmap>)
    ensures
        match r {
            Some(b) => b.wf() && decoded_dims(bytes@) == Some((b.width, b.height)),
            None => decoded_dims(bytes@) is None,
        },
{
    match image::load_from_memory(bytes) {
        Ok(img) => {
            let width = img.width();
            let height = img.height();
            Some(Bitmap { img, width, height })
        },
        Err(_) => None,
    }
}

/// Relies on image::DynamicImage::new_rgba8: a canvas of the given
/// dimensions, filled with transparent pixels.
#[verifier::external_body]
fn blank_canvas(width: u32, height: u32) -> (r: Bitmap)
    ensures
        r.wf(),
        r.width == width,
        r.height == height,
{
    Bitmap { img: image::DynamicImage::new_rgba8(width, height), width, height }
}

/// Relies on image::imageops::overlay: draws `top` onto the canvas at the
/// given offset and leaves the canvas dimensions unchanged.
#[verifier::external_body]
fn overlay_at(canvas: &mut Bitmap, top: &Bitmap, x: u32, y: u32)
    ensures
        image_dims(final(canvas).img) == image_dims(old(canvas).img),
        final(canvas).width == old(canvas).width,
        final(canvas).height == old(canvas).height,
{
    image::imageops::overlay(&mut canvas.img, &top.img, x as i64, y as i64);
}

/// Relies on image::DynamicImage::resize_exact: the result has exactly the
/// requested dimensions (Lanczos3 resampling).
#[verifier::external_body]
fn resize_to(src: &Bitmap, width: u32, height: u32) -> (r: Bitmap)
    requires
        1 <= width,
        1 <= height,
    ensures
        r.wf(),
        r.width == width,
        r.height == height,
{
    let img = src.img.resize_exact(width, height, image::imageops::FilterType::Lanczos3);
    Bitmap { img, width, height }
}

/// Relies on image::DynamicImage::write_to with ImageFormat::Png: the
/// encoder converts the color type itself, accepts these dimensions, and an
/// in-memory sink cannot fail, so the call returns the encoded bytes; it
/// writes the image's own dimensions into the PNG header, and an image this
/// small is far inside the decoder's default allocation limit, so decoding
/// the output yields the dimensions back.
#[verifier::external_body]
fn encode_png(src: &Bitmap) -> (r: Vec<u8>)
    requires
        1 <= image_dims(src.img).0 <= 512,
        1 <= image_dims(src.img).1 <= 512,
    ensures
        decoded_dims(r@) == Some(image_dims(src.img)),
{
    let mut buf = std::io::Cursor::new(Vec::new());
    src.img
        .write_to(&mut buf, image::ImageFormat::Png)
        .expect("PNG encoding of a nonzero bounded canvas into memory cannot fail");
    buf.into_inner()
}

/// Decodes the bytes, pads them with the transparent margin, scales the
/// result into the 512 bound, and re-encodes it as PNG. Fails exactly on
/// undecodable bytes, a zero-area source, or a source so large that the
/// padded canvas leaves the pixel coordinate range; on every other source it
/// succeeds, the resulting dimensions are the target box of the padded
/// canvas, and they are what the PNG decodes back to.
pub fn normalize_image(bytes: &Vec<u8>) -> (r: Result<NormalizedImage, NormalizationError>)
    ensures
        match decoded_dims(bytes@) {
            None => r == Err::<NormalizedImage, NormalizationError>(
                NormalizationError::Undecodable,
            ),
            Some((w, h)) => {
                if w == 0 || h == 0 {
                    r == Err::<NormalizedImage, NormalizationError>(NormalizationError::ZeroArea)
                } else if padded_w_spec(w as int, h as int) > u32::MAX as int || padded_h_spec(
                    w as int,
                    h as int,
                ) > u32::MAX as int {
                    r == Err::<NormalizedImage, NormalizationError>(NormalizationError::TooLarge)
                } else {
                    &&& r matches Ok(img)
                    &&& img.width == target_w_spec(
                        padded_w_spec(w as int, h as int),
                        padded_h_spec(w as int, h as int),
                    )
                    &&& img.height == target_h_spec(
                        padded_w_spec(w as int, h as int),
                        padded_h_spec(w as int, h as int),
                    )
                    &&& decoded_dims(img.png@) == Some((img.width, img.height))
                }
            },
        },
{
    let bmp = match decode_bitmap(bytes) {
        None => {
            return Err(NormalizationError::Undecodable);
        },
        Some(b) => b,
    };
    if bmp.width == 0 || bmp.height == 0 {
        return Err(NormalizationError::ZeroArea);
    }
    let border = compute_border(bmp.width, bmp.height);
    let pw64: u64 = bmp.width as u64 + 2 * (border as u64);
    let ph64: u64 = bmp.height as u64 + 2 * (border as u64);
    if pw64 > u32::MAX as u64 || ph64 > u32::MAX as u64 {
        return Err(NormalizationError::TooLarge);
    }
    let pw = pw64 as u32;
    let ph = ph64 as u32;
    proof {
        lemma_padded_ratio(bmp.width as int, bmp.height as int);
    }
    let mut canvas = blank_canvas(pw, ph);
    overlay_at(&mut canvas, &bmp, border, border);
    let (tw, th) = target_dims(pw, ph);
    let resized = resize_to(&canvas, tw, th);
    let png = encode_png(&resized);
    Ok(NormalizedImage { png, width: tw, height: th })
}

} // verus!
