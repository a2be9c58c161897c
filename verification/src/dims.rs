use vstd::prelude::*;

verus! {

/// Width and height of an image, in pixels.
#[derive(Clone, Copy, Debug, PartialEq, Eq, Structural)]
pub struct Dimensions {
    pub width: u32,
    pub height: u32,
}

/// The product of a dimension and a scale factor stays within `u32`.
pub open spec fn scale_fits(d: u32, s: u32) -> bool {
    d * s <= u32::MAX
}

/// Scale one dimension, refusing overflow.
pub fn scale_dim(d: u32, s: u32) -> (r: Option<u32>)
    ensures
        r == (if scale_fits(d, s) {
            Some((d * s) as u32)
        } else {
            None::<u32>
        }),
{
    d.checked_mul(s)
}

/// The size of the raster that a document of size `d` fills at scale `s`:
/// each side multiplied by `s`, or `None` when a product leaves `u32`.
pub open spec fn spec_scaled_size(d: Dimensions, s: u32) -> Option<Dimensions> {
    if scale_fits(d.width, s) && scale_fits(d.height, s) {
        Some(Dimensions { width: (d.width * s) as u32, height: (d.height * s) as u32 })
    } else {
        None
    }
}

/// Scale both sides of `d` by `s`, refusing overflow of either product.
pub fn scaled_size(d: Dimensions, s: u32) -> (r: Option<Dimensions>)
    ensures
        r == spec_scaled_size(d, s),
{
    match (d.width.checked_mul(s), d.height.checked_mul(s)) {
        (Some(w), Some(h)) => Some(Dimensions { width: w, height: h }),
        _ => None,
    }
}

} // verus!
