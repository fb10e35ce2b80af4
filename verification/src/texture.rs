//! What the renderer is asked to allocate for a square.

use vstd::prelude::*;
use crate::color::Rgb;
use crate::color::TextureColor;

verus! {

/// Side of the squares, in pixels.
pub const TEXTURE_SIZE: u32 = 32;

/// A drawable surface to allocate: its size in pixels and the one colour that
/// fills all of it.
#[derive(Clone, Copy, Debug, PartialEq, Eq, Structural)]
pub struct TextureRequest {
    pub width: u32,
    pub height: u32,
    pub fill: Rgb,
}

/// The request for a square of side `size` with the colour of `color`.
pub open spec fn square_request(color: TextureColor, size: u32) -> TextureRequest {
    TextureRequest { width: size, height: size, fill: color.spec_rgb() }
}

/// Describes the square texture for a tag: as wide as it is high, filled
/// entirely with the tag's colour.
pub fn square_texture(color: TextureColor, size: u32) -> (request: TextureRequest)
    ensures
        request == square_request(color, size),
{
    TextureRequest { width: size, height: size, fill: color.rgb() }
}

/// Asking twice for the same tag and size gives two equal requests: each is
/// for a square of that size, filled with the tag's colour.
pub proof fn lemma_repeated_request(
    color: TextureColor,
    size: u32,
    first: TextureRequest,
    second: TextureRequest,
)
    requires
        first == square_request(color, size),
        second == square_request(color, size),
    ensures
        first == second,
        first.width == size && first.height == size,
        first.fill == color.spec_rgb(),
{
}

} // verus!
