//! Turning the bitmaps of an icon into a PNG image.
use vstd::prelude::*;

verus! {

/// The AND-mask bit of pixel `p`: one bit per pixel, most significant bit
/// first in each byte.
pub open spec fn mask_bit(mask: Seq<u8>, p: int) -> u8 {
    (mask[p / 8] >> ((7 - p % 8) as u8)) & 1
}

/// The RGBA pixels of an icon of `width` by `height` pixels, from its AND mask
/// and its colour bitmap (four bytes per pixel, blue first): red, green and
/// blue are taken from the colour bitmap, and the pixel is transparent where
/// its mask bit is set and opaque elsewhere.
pub open spec fn icon_rgba(width: u32, height: u32, mask: Seq<u8>, color: Seq<u8>) -> Seq<u8> {
    Seq::new(
        (4 * width * height) as nat,
        |k: int|
            {
                let p = k / 4;
                if k % 4 == 0 {
                    color[4 * p + 2]
                } else if k % 4 == 1 {
                    color[4 * p + 1]
                } else if k % 4 == 2 {
                    color[4 * p]
                } else if mask_bit(mask, p) == 1 {
                    0u8
                } else {
                    255u8
                }
            },
    )
}

/// Every pixel of an icon is made of its own entries alone: its red, green
/// and blue are those of its own colour-bitmap entry (stored blue first), and
/// its alpha is read from its own mask bit, 0 where the bit is set and 255
/// where it is clear. The pixels come four bytes each, one per pixel of the
/// icon.
pub proof fn lemma_icon_pixel(width: u32, height: u32, mask: Seq<u8>, color: Seq<u8>, p: int)
    requires
        0 <= p < width * height,
    ensures
        icon_rgba(width, height, mask, color).len() == 4 * width * height,
        icon_rgba(width, height, mask, color)[4 * p] == color[4 * p + 2],
        icon_rgba(width, height, mask, color)[4 * p + 1] == color[4 * p + 1],
        icon_rgba(width, height, mask, color)[4 * p + 2] == color[4 * p],
        icon_rgba(width, height, mask, color)[4 * p + 3] == (if mask[p / 8] & (0x80u8 >> ((p
            % 8) as u8)) != 0 {
            0u8
        } else {
            255u8
        }),
{
    assert(4 * width * height == 4 * (width * height)) by (nonlinear_arith);
    assert((4 * p) / 4 == p && (4 * p) % 4 == 0);
    assert((4 * p + 1) / 4 == p && (4 * p + 1) % 4 == 1);
    assert((4 * p + 2) / 4 == p && (4 * p + 2) % 4 == 2);
    assert((4 * p + 3) / 4 == p && (4 * p + 3) % 4 == 3);
    let b: u8 = mask[p / 8];
    let i: u8 = (p % 8) as u8;
    assert(0 <= p % 8 < 8);
    assert(((7 - p % 8) as u8) == 7 - i);
    assert(i < 8 ==> ((((b >> (7 - i) as u8) & 1) == 1) == (b & (0x80u8 >> i) != 0))) by (bit_vector);
}

/// The size of an icon from its hot spot, which stands at its centre.
pub fn icon_dimensions(x_hotspot: u32, y_hotspot: u32) -> (size: (u32, u32))
    requires
        x_hotspot * 2 <= u32::MAX,
        y_hotspot * 2 <= u32::MAX,
    ensures
        size.0 == x_hotspot * 2,
        size.1 == y_hotspot * 2,
{
    (x_hotspot * 2, y_hotspot * 2)
}

/// Bit `bit` of `byte`, computed as a mask and a shift.
fn bit_of(byte: u8, bit: u8) -> (b: u8)
    requires
        bit < 8,
    ensures
        b == (byte >> bit) & 1,
        b == 0 || b == 1,
{
    let b = (byte & (1u8 << bit)) >> bit;
    assert(b == (byte >> bit) & 1 && (b == 0 || b == 1)) by (bit_vector)
        requires
            bit < 8,
            b == (byte & (1u8 << bit)) >> bit,
    ;
    b
}

proof fn lemma_pixel_count(width: u32, height: u32)
    requires
        width * height * 4 <= u32::MAX,
    ensures
        width * height <= u32::MAX,
        4 * width * height == 4 * (width * height),
        width * height * 4 == 4 * width * height,
{
    assert(4 * width * height == 4 * (width * height)) by (nonlinear_arith);
    assert(width * height * 4 == 4 * (width * height)) by (nonlinear_arith);
}

/// Merges the AND mask and the colour bitmap of an icon into RGBA pixels,
/// row by row, four bytes per pixel.
pub fn merge_icon_bitmaps(width: u32, height: u32, mask: &[u8], color: &[u8]) -> (pixels: Vec<u8>)
    requires
        width * height * 4 <= u32::MAX,
        width * height <= 8 * mask@.len(),
        4 * width * height <= color@.len(),
    ensures
        pixels@ == icon_rgba(width, height, mask@, color@),
        pixels@.len() == 4 * width * height,
        forall|p: int|
            0 <= p < width * height ==> #[trigger] pixels@[4 * p + 3] == (if mask@[p / 8] & (0x80u8
                >> ((p % 8) as u8)) != 0 {
                0u8
            } else {
                255u8
            }),
{
    proof {
        lemma_pixel_count(width, height);
    }
    let count = (width * height) as usize;
    let ghost target = icon_rgba(width, height, mask@, color@);
    let mut pixels: Vec<u8> = Vec::new();
    let mut p: usize = 0;
    while p < count
        invariant
            count == width * height,
            4 * count <= u32::MAX,
            count <= 8 * mask@.len(),
            4 * count <= color@.len(),
            target == icon_rgba(width, height, mask@, color@),
            target.len() == 4 * count,
            p <= count,
            pixels@ == target.subrange(0, 4 * p as int),
        decreases count - p,
    {
        let color_index = p * 4;
        let mask_index = p;
        let inner_mask_index = mask_index / 8;
        let inner_mask_bit_index = (8 - (mask_index % 8 + 1)) as u8;
        let mask_value = mask[inner_mask_index];
        let alpha = bit_of(mask_value, inner_mask_bit_index);
        pixels.push(color[color_index + 2]);
        pixels.push(color[color_index + 1]);
        pixels.push(color[color_index]);
        pixels.push((1 - alpha) * 255);
        proof {
            assert(mask_bit(mask@, p as int) == alpha);
            assert((4 * p) / 4 == p && (4 * p + 1) / 4 == p && (4 * p + 2) / 4 == p && (4 * p + 3) / 4 == p);
        }
        p = p + 1;
        assert(pixels@ =~= target.subrange(0, 4 * p as int));
    }
    assert(target.subrange(0, 4 * count as int) =~= target);
    assert forall|q: int| 0 <= q < width * height implies #[trigger] pixels@[4 * q + 3] == (if mask@[q
        / 8] & (0x80u8 >> ((q % 8) as u8)) != 0 {
        0u8
    } else {
        255u8
    }) by {
        lemma_icon_pixel(width, height, mask@, color@, q);
    }
    proof {
        lemma_pixel_count(width, height);
    }
    pixels
}

/// The PNG file that the `image` crate writes for an 8-bit RGBA image of the
/// given size and pixels, or `None` where it reports an error.
pub uninterp spec fn png_rgba8(width: u32, height: u32, pixels: Seq<u8>) -> Option<Seq<u8>>;

/// `image::ImageBuffer::<Rgba<u8>, _>::from_raw` followed by
/// `ImageBuffer::write_to` with `ImageFormat::Png` into an in-memory buffer.
///
/// `from_raw` only takes the buffer as the image's pixels (it accepts any
/// buffer of at least four bytes per pixel); the encoding is
/// `write_to`'s. The contract names the bytes written, or the failure, as
/// `png_rgba8` of the arguments, and states that an image with no rows or no
/// columns is refused (the `png` encoder reports a zero width or height as an
/// error). It says nothing of which other images the encoder refuses.
#[verifier::external_body]
fn encode_png_rgba8(width: u32, height: u32, pixels: &[u8]) -> (png: Option<Vec<u8>>)
    requires
        pixels@.len() == 4 * width * height,
    ensures
        match png {
            Some(bytes) => png_rgba8(width, height, pixels@) == Some(bytes@),
            None => png_rgba8(width, height, pixels@) is None,
        },
        width == 0 || height == 0 ==> png is None,
{
    let img = image::ImageBuffer::<image::Rgba<u8>, &[u8]>::from_raw(width, height, pixels).unwrap();
    let mut cursor = std::io::Cursor::new(Vec::new());
    match img.write_to(&mut cursor, image::ImageFormat::Png) {
        Ok(()) => Some(cursor.into_inner()),
        Err(_) => None,
    }
}

/// The PNG image of an icon, from its hot spot and its two bitmaps as
/// `GetBitmapBits` returns them: the icon is twice as wide and as high as its
/// hot spot's coordinates, its pixels are those of `merge_icon_bitmaps`, and
/// the result is what the PNG encoder makes of them.
pub fn icon_bitmaps_to_png(x_hotspot: u32, y_hotspot: u32, mask: &[u8], color: &[u8]) -> (png:
    Option<Vec<u8>>)
    requires
        x_hotspot * 2 <= u32::MAX,
        y_hotspot * 2 <= u32::MAX,
        (x_hotspot * 2) * (y_hotspot * 2) * 4 <= u32::MAX,
        (x_hotspot * 2) * (y_hotspot * 2) <= 8 * mask@.len(),
        4 * (x_hotspot * 2) * (y_hotspot * 2) <= color@.len(),
    ensures
        match png {
            Some(bytes) => png_rgba8(
                (x_hotspot * 2) as u32,
                (y_hotspot * 2) as u32,
                icon_rgba((x_hotspot * 2) as u32, (y_hotspot * 2) as u32, mask@, color@),
            ) == Some(bytes@),
            None => png_rgba8(
                (x_hotspot * 2) as u32,
                (y_hotspot * 2) as u32,
                icon_rgba((x_hotspot * 2) as u32, (y_hotspot * 2) as u32, mask@, color@),
            ) is None,
        },
        x_hotspot == 0 || y_hotspot == 0 ==> png is None,
{
    let (width, height) = icon_dimensions(x_hotspot, y_hotspot);
    let pixels = merge_icon_bitmaps(width, height, mask, color);
    encode_png_rgba8(width, height, pixels.as_slice())
}

} // verus!
