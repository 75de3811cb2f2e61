//! Window and tray icons: decoding the embedded PNG into 8-bit RGBA pixels,
//! turning them into the BGRA order that a Win32 colour bitmap takes, and
//! the all-zero AND mask that goes with it.
use vstd::prelude::*;

verus! {

/// Decodes an encoded image (PNG here) held in memory and converts it to 8-bit
/// RGBA: the raw pixel bytes, the width and the height, or `None` when it does
/// not decode.
///
/// Calls `image::load_from_memory`, then `DynamicImage::into_rgba8`,
/// `ImageBuffer::dimensions` and `ImageBuffer::into_raw`. Nothing is claimed of
/// the result: the crate consults process-wide format-detection and decoding
/// hooks that any code may register, so the same bytes need not decode the
/// same way twice, and the length of the pixel buffer is not promised either.
#[verifier::external_body]
fn decode_rgba8(bytes: &[u8]) -> (r: Option<(Vec<u8>, u32, u32)>) {
    match image::load_from_memory(bytes) {
        Ok(image) => {
            let image = image.into_rgba8();
            let (width, height) = image.dimensions();
            Some((image.into_raw(), width, height))
        },
        Err(_) => None,
    }
}

/// The byte at `i` once every complete 4-byte pixel has its first and third
/// byte exchanged (RGBA to BGRA, and back); a trailing partial pixel is kept.
pub open spec fn bgra_byte(s: Seq<u8>, i: int) -> u8 {
    let whole = (s.len() / 4) * 4;
    if i < whole && i % 4 == 0 {
        s[i + 2]
    } else if i < whole && i % 4 == 2 {
        s[i - 2]
    } else {
        s[i]
    }
}

pub open spec fn spec_swap_red_blue(s: Seq<u8>) -> Seq<u8> {
    Seq::new(s.len(), |i: int| bgra_byte(s, i))
}

/// Exchanges the red and blue byte of every complete RGBA pixel.
pub fn swap_red_blue(pixels: &mut Vec<u8>)
    ensures
        final(pixels)@ == spec_swap_red_blue(old(pixels)@),
{
    let ghost orig = pixels@;
    let len = pixels.len();
    let n = len / 4;
    let mut k: usize = 0;
    while k < n
        invariant
            len == orig.len(),
            n == orig.len() / 4,
            k <= n,
            pixels@.len() == orig.len(),
            forall|i: int| 0 <= i < 4 * k ==> pixels@[i] == #[trigger] bgra_byte(orig, i),
            forall|i: int| 4 * k <= i < orig.len() ==> pixels@[i] == orig[i],
        decreases n - k,
    {
        assert(4 * k + 4 <= len);
        let base = 4 * k;
        let red = pixels[base];
        let blue = pixels[base + 2];
        pixels.set(base, blue);
        pixels.set(base + 2, red);
        proof {
            assert forall|i: int| 0 <= i < 4 * (k + 1) implies pixels@[i] == #[trigger] bgra_byte(
                orig,
                i,
            ) by {
                if i >= 4 * k {
                    assert(i < (orig.len() / 4) * 4);
                    assert(i % 4 == i - 4 * k);
                }
            }
        }
        k = k + 1;
    }
    assert(pixels@ =~= spec_swap_red_blue(orig));
}

/// Bytes per row of a 1-bit mask for `width` pixels: rows are padded to whole
/// 32-bit words.
pub open spec fn spec_mask_stride(width: u32) -> int {
    ((width as int + 31) / 32) * 4
}

pub fn mask_stride(width: u32) -> (r: usize)
    ensures
        r == spec_mask_stride(width),
{
    let words: u64 = (width as u64 + 31) / 32;
    assert(words * 4 <= 0x2000_0000) by (nonlinear_arith)
        requires
            words == (width as u64 + 31) / 32,
            width <= 0xffff_ffff,
    ;
    (words * 4) as usize
}

/// The AND mask of a colour icon whose colour bitmap carries an alpha
/// channel: all bits zero, one padded row per pixel row.
pub fn icon_and_mask(width: u32, height: u32) -> (r: Vec<u8>)
    requires
        spec_mask_stride(width) * height <= usize::MAX,
    ensures
        r@.len() == spec_mask_stride(width) * height,
        forall|i: int| 0 <= i < r@.len() ==> r@[i] == 0,
{
    let stride = mask_stride(width);
    let total = stride * (height as usize);
    let mut mask: Vec<u8> = Vec::new();
    while mask.len() < total
        invariant
            mask@.len() <= total,
            forall|i: int| 0 <= i < mask@.len() ==> mask@[i] == 0,
        decreases total - mask@.len(),
    {
        mask.push(0);
    }
    mask
}

/// Pixels of the tray icon: the image decoded to RGBA as it is. What the
/// decoder gives is not stated (see `decode_rgba8`).
pub fn tray_icon_rgba(bytes: &[u8]) -> (r: Option<(Vec<u8>, u32, u32)>) {
    decode_rgba8(bytes)
}

/// Puts a decoded RGBA icon in BGRA order, keeping its size.
pub fn bgra_icon(decoded: Option<(Vec<u8>, u32, u32)>) -> (r: Option<(Vec<u8>, u32, u32)>)
    ensures
        match decoded {
            Some((rgba, w, h)) => r matches Some((pixels, width, height)) && pixels@
                == spec_swap_red_blue(rgba@) && width == w && height == h,
            None => r is None,
        },
{
    match decoded {
        Some((pixels, width, height)) => {
            let mut pixels = pixels;
            swap_red_blue(&mut pixels);
            Some((pixels, width, height))
        },
        None => None,
    }
}

/// Pixels of the settings window's icon: whatever the decoder gives (see
/// `decode_rgba8`) is handed to `bgra_icon`.
pub fn window_icon_bgra(bytes: &[u8]) -> (r: Option<(Vec<u8>, u32, u32)>) {
    bgra_icon(decode_rgba8(bytes))
}

/// Swapping red and blue twice gives the pixels back.
pub proof fn lemma_swap_red_blue_involutive(s: Seq<u8>)
    ensures
        spec_swap_red_blue(spec_swap_red_blue(s)) == s,
{
    let t = spec_swap_red_blue(s);
    assert forall|i: int| 0 <= i < s.len() implies #[trigger] spec_swap_red_blue(t)[i] == s[i] by {
        let whole = (s.len() / 4) * 4;
        if i < whole && i % 4 == 0 {
            assert((i + 2) % 4 == 2);
        } else if i < whole && i % 4 == 2 {
            assert((i - 2) % 4 == 0);
        }
    }
    assert(spec_swap_red_blue(t) =~= s);
}

} // verus!
