//! The colorful debug pattern laid on the floor and on the ball.
//!
//! The pattern is an 8 x 8 RGBA image: the first row runs through eight
//! colors, and each following row is the row above shifted one pixel to the
//! right, the last pixel wrapping round to the front.

use bevy::render::render_resource::{Extent3d, TextureDimension, TextureFormat};
use bevy::render::texture::Image;
use vstd::arithmetic::div_mod::lemma_fundamental_div_mod_converse;
use vstd::prelude::*;

verus! {

/// bevy's image asset, carried through unopened.
#[verifier::external_type_specification]
#[verifier::external_body]
pub struct ExImage(Image);

/// Width and height of the debug texture, in pixels.
pub const TEXTURE_SIZE: usize = 8;

/// Bytes per pixel: red, green, blue and alpha.
pub const PIXEL_BYTES: usize = 4;

/// Bytes in one row of the texture.
pub const ROW_BYTES: usize = 32;

/// Bytes in the whole texture.
pub const TEXTURE_BYTES: usize = 256;

/// The first row, as RGBA bytes, left to right.
pub open spec fn first_row() -> Seq<u8> {
    seq![
        255u8, 102, 159, 255, 255, 159, 102, 255, 236, 255, 102, 255, 121, 255, 102, 255,
        102, 255, 198, 255, 102, 198, 255, 255, 121, 102, 255, 255, 236, 102, 255, 255,
    ]
}

/// Channel `c` of the pixel in column `x` and row `y`: row `y` is the first
/// row turned `y` pixels to the right.
pub open spec fn texel(x: int, y: int, c: int) -> u8 {
    first_row()[((x - y) % 8) * 4 + c]
}

/// The whole texture, row after row, each pixel as four channel bytes.
pub open spec fn debug_pattern() -> Seq<u8> {
    Seq::new(256, |i: int| texel((i / 4) % 8, i / 32, i % 4))
}

proof fn lemma_byte_position(x: int, y: int, c: int)
    requires
        0 <= x < 8,
        0 <= y < 8,
        0 <= c < 4,
    ensures
        ({
            let i = y * 32 + x * 4 + c;
            &&& i / 4 == y * 8 + x
            &&& i % 4 == c
            &&& (i / 4) % 8 == x
            &&& i / 32 == y
        }),
{
    let i = y * 32 + x * 4 + c;
    lemma_fundamental_div_mod_converse(i, 4, y * 8 + x, c);
    lemma_fundamental_div_mod_converse(y * 8 + x, 8, y, x);
    lemma_fundamental_div_mod_converse(i, 32, y, x * 4 + c);
}

/// Each row of the debug pattern is the row above turned one pixel to the
/// right: a pixel repeats its upper-left neighbour, and the first pixel of a
/// row repeats the last pixel of the row above.
pub proof fn lemma_row_turns_right(x: int, y: int, c: int)
    requires
        0 <= x < 8,
        1 <= y < 8,
        0 <= c < 4,
    ensures
        debug_pattern()[y * 32 + x * 4 + c] == debug_pattern()[(y - 1) * 32 + ((x + 7) % 8)
            * 4 + c],
{
    let w = (x + 7) % 8;
    lemma_byte_position(x, y, c);
    lemma_byte_position(w, y - 1, c);
    assert((w - (y - 1)) % 8 == (x - y) % 8);
}

/// The bytes of the debug texture, row after row.
pub fn uv_debug_texture_data() -> (r: Vec<u8>)
    ensures
        r@ == debug_pattern(),
{
    let palette: [u8; 32] = [
        255, 102, 159, 255, 255, 159, 102, 255, 236, 255, 102, 255, 121, 255, 102, 255,
        102, 255, 198, 255, 102, 198, 255, 255, 121, 102, 255, 255, 236, 102, 255, 255,
    ];
    assert(palette@ =~= first_row());
    let mut data: Vec<u8> = Vec::with_capacity(TEXTURE_BYTES);
    for y in 0..TEXTURE_SIZE
        invariant
            palette@ == first_row(),
            data@.len() == y * 32,
            forall|i: int| 0 <= i < data@.len() ==> data@[i] == debug_pattern()[i],
    {
        for x in 0..TEXTURE_SIZE
            invariant
                0 <= y < 8,
                palette@ == first_row(),
                data@.len() == y * 32 + x * 4,
                forall|i: int| 0 <= i < data@.len() ==> data@[i] == debug_pattern()[i],
        {
            let first: usize = ((x + TEXTURE_SIZE - y) % TEXTURE_SIZE) * PIXEL_BYTES;
            for c in 0..PIXEL_BYTES
                invariant
                    0 <= y < 8,
                    0 <= x < 8,
                    palette@ == first_row(),
                    first == ((x - y) % 8) * 4,
                    data@.len() == y * 32 + x * 4 + c,
                    forall|i: int| 0 <= i < data@.len() ==> data@[i] == debug_pattern()[i],
            {
                proof {
                    lemma_byte_position(x as int, y as int, c as int);
                }
                data.push(palette[first + c]);
            }
        }
    }
    assert(data@ =~= debug_pattern());
    data
}

/// The pixel buffer (`data`) of a bevy image.
pub uninterp spec fn image_bytes(img: Image) -> Seq<u8>;

/// Relies on bevy's `Image::new_fill`: a two-dimensional sRGB RGBA8 image of
/// `width` by `height` pixels, its buffer of `width * height * 4` bytes
/// filled with copies of `pixels`; where `pixels` covers the whole buffer,
/// the buffer is `pixels`. The call computes `width * height` in `u32` and
/// splits the buffer into chunks of `pixels.len()` bytes, so both are kept
/// within range.
#[verifier::external_body]
fn rgba_image(width: u32, height: u32, pixels: &Vec<u8>) -> (r: Image)
    requires
        width * height <= u32::MAX,
        width * height * 4 <= usize::MAX,
        0 < pixels@.len() <= width * height * 4,
        pixels@.len() % 4 == 0,
    ensures
        pixels@.len() == width * height * 4 ==> image_bytes(r) == pixels@,
{
    Image::new_fill(
        Extent3d { width, height, depth_or_array_layers: 1 },
        TextureDimension::D2,
        pixels,
        TextureFormat::Rgba8UnormSrgb,
    )
}

/// The debug texture as an 8 x 8 image for the renderer: its buffer holds
/// the debug pattern.
pub fn uv_debug_texture() -> (r: Image)
    ensures
        image_bytes(r) == debug_pattern(),
{
    let data = uv_debug_texture_data();
    rgba_image(TEXTURE_SIZE as u32, TEXTURE_SIZE as u32, &data)
}

} // verus!
