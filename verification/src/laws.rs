//! The library's laws, each proved from the public contracts.

use vstd::prelude::*;

use crate::backend::pixmap_creatable;
use crate::backend::svg_intrinsic_size;
use crate::convert::spec_load;
use crate::convert::spec_raster_outcome;
use crate::dims::Dimensions;
use crate::error::ConvertError;
use crate::error::LoadError;
use crate::session::spec_refreshed;

verus! {

/// For every source of intrinsic size `(w, h)` and every scale `s >= 1`
/// whose raster is representable, the raster outcome is success with
/// exactly the dimensions `(w * s, h * s)`.
pub proof fn lemma_raster_dimensions_exact(text: Seq<char>, scale: u32, w: u32, h: u32)
    requires
        svg_intrinsic_size(text) == Some((w, h)),
        1 <= scale <= u16::MAX as u32,
        w * scale <= u32::MAX,
        h * scale <= u32::MAX,
        pixmap_creatable((w * scale) as u32, (h * scale) as u32),
    ensures
        spec_raster_outcome(Some(text), scale) == Ok::<Dimensions, ConvertError>(
            (Dimensions { width: (w * scale) as u32, height: (h * scale) as u32 }),
        ),
{
}

/// The outcome of a conversion depends on the source text and the scale
/// alone: two attempts on the same source at the same scale succeed
/// together, with rasters of the same size, or fail together with the same
/// error.
pub proof fn lemma_conversion_deterministic(
    source: Option<Seq<char>>,
    scale: u32,
    r1: Result<Dimensions, ConvertError>,
    r2: Result<Dimensions, ConvertError>,
)
    requires
        r1 == spec_raster_outcome(source, scale),
        r2 == spec_raster_outcome(source, scale),
    ensures
        r1 == r2,
{
}

/// A missing source never raises: loading reports the absence of
/// dimensions, and a session refresh shows no size, whether the path is
/// empty or its read failed.
pub proof fn lemma_missing_source_no_dimensions(path: Seq<char>)
    ensures
        spec_load(None) == Err::<Dimensions, LoadError>(LoadError::Io),
        spec_refreshed(Seq::<char>::empty(), None) is None,
        spec_refreshed(path, None) is None,
{
}

/// A scale of zero fails with the allocation-class error before the source
/// is even looked at: no raster is attempted and nothing is written.
pub proof fn lemma_zero_scale_fails_fast(source: Option<Seq<char>>)
    ensures
        spec_raster_outcome(source, 0) == Err::<Dimensions, ConvertError>(
            ConvertError::AllocationFailed,
        ),
{
}

} // verus!
