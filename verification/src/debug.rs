//! A colourful test pattern for untextured models.

use vstd::prelude::*;
use bevy::render::render_resource::{Extent3d, TextureDimension, TextureFormat};
use bevy::render::texture::Image;

verus! {

/// An engine image.
#[verifier::external_type_specification]
#[verifier::external_body]
pub struct ExImage(Image);

/// The side of the square test pattern, in pixels.
pub const TEXTURE_SIZE: usize = 8;

/// The eight RGBA colours of one row of the pattern.
pub open spec fn uv_palette() -> Seq<u8> {
    seq![
        255u8, 102, 159, 255, 255, 159, 102, 255, 236, 255, 102, 255, 121, 255, 102, 255, 102,
        255, 198, 255, 102, 198, 255, 255, 121, 102, 255, 255, 236, 102, 255, 255,
    ]
}

/// The pattern's bytes: row `y` is the palette turned right by `y` colours,
/// so byte `i` of row `y` is palette byte `i - 4y`, counted modulo the row.
pub open spec fn uv_pixels() -> Seq<u8> {
    Seq::new(
        256,
        |k: int| uv_palette()[((k % 32) - 4 * (k / 32)) % 32],
    )
}

/// The image `Image::new_fill` builds for a two-dimensional RGBA (8 bits per
/// channel, sRGB) texture of the given size filled with the given bytes.
pub uninterp spec fn filled_rgba_image(width: u32, height: u32, pixels: Seq<u8>) -> Image;

/// Calls `Image::new_fill` for a two-dimensional, one-layer texture in
/// `Rgba8UnormSrgb` format whose bytes are exactly `pixels`. The contract
/// names the result and says nothing of its fields; the crate's source fills
/// the image's data with `pixels`, which here cover the whole image once.
/// The image's pixel count is computed as a `u32` product, which must not
/// overflow.
#[verifier::external_body]
fn new_rgba_image(width: u32, height: u32, pixels: &[u8]) -> (img: Image)
    requires
        0 < pixels@.len(),
        pixels@.len() == width * height * 4,
        width * height <= u32::MAX,
    ensures
        img == filled_rgba_image(width, height, pixels@),
{
    Image::new_fill(
        Extent3d { width, height, depth_or_array_layers: 1 },
        TextureDimension::D2,
        pixels,
        TextureFormat::Rgba8UnormSrgb,
    )
}

/// The bytes of the test pattern, row after row.
pub fn uv_texture_data() -> (data: Vec<u8>)
    ensures
        data@ == uv_pixels(),
{
    let palette: [u8; 32] = [
        255, 102, 159, 255, 255, 159, 102, 255, 236, 255, 102, 255, 121, 255, 102, 255, 102,
        255, 198, 255, 102, 198, 255, 255, 121, 102, 255, 255, 236, 102, 255, 255,
    ];
    assert(palette@ =~= uv_palette());
    let mut data: Vec<u8> = Vec::new();
    let mut y: usize = 0;
    while y < TEXTURE_SIZE
        invariant
            y <= TEXTURE_SIZE,
            palette@ == uv_palette(),
            data@.len() == 32 * y,
            forall|k: int| 0 <= k < data@.len() ==> #[trigger] data@[k] == uv_pixels()[k],
        decreases TEXTURE_SIZE - y,
    {
        let shift: usize = 4 * y;
        let mut i: usize = 0;
        while i < 32
            invariant
                y < TEXTURE_SIZE,
                shift == 4 * y,
                i <= 32,
                palette@ == uv_palette(),
                data@.len() == 32 * y + i,
                forall|k: int| 0 <= k < data@.len() ==> #[trigger] data@[k] == uv_pixels()[k],
            decreases 32 - i,
        {
            let idx: usize = (i + 32 - shift) % 32;
            proof {
                let k: int = 32 * y + i;
                assert(k % 32 == i as int) by (nonlinear_arith)
                    requires k == 32 * y + i, 0 <= i < 32, y >= 0;
                assert(k / 32 == y as int) by (nonlinear_arith)
                    requires k == 32 * y + i, 0 <= i < 32, y >= 0;
                assert(((i as int) - 4 * (y as int)) % 32 == idx as int) by (nonlinear_arith)
                    requires idx == (i + 32 - 4 * y) % 32, 0 <= i < 32, 0 <= y < 8;
            }
            data.push(palette[idx]);
            i = i + 1;
        }
        y = y + 1;
    }
    data
}

/// The test pattern as an 8 by 8 image.
pub fn uv_texture() -> (img: Image)
    ensures
        img == filled_rgba_image(8, 8, uv_pixels()),
{
    let data = uv_texture_data();
    new_rgba_image(8, 8, data.as_slice())
}

/// Each row of the pattern is the row above turned right by one colour (four
/// bytes), and the first row is the palette itself.
pub proof fn lemma_uv_rows_rotate(y: int, i: int)
    requires
        1 <= y < 8,
        0 <= i < 32,
    ensures
        uv_pixels()[32 * y + i] == uv_pixels()[32 * (y - 1) + (i - 4) % 32],
        uv_pixels()[i] == uv_palette()[i],
{
    let k = 32 * y + i;
    let j = 32 * (y - 1) + (i - 4) % 32;
    assert(k % 32 == i && k / 32 == y) by (nonlinear_arith)
        requires k == 32 * y + i, 0 <= i < 32;
    assert(0 <= (i - 4) % 32 < 32) by (nonlinear_arith);
    assert(j % 32 == (i - 4) % 32 && j / 32 == y - 1) by (nonlinear_arith)
        requires j == 32 * (y - 1) + (i - 4) % 32, 0 <= (i - 4) % 32 < 32, y >= 1;
    assert(((i - 4) % 32 - 4 * (y - 1)) % 32 == (i - 4 * y) % 32) by (nonlinear_arith);
    assert(i % 32 == i && i / 32 == 0) by (nonlinear_arith)
        requires 0 <= i < 32;
}

} // verus!
