//! The document loader and the rasterizer.
//!
//! Both take the source as the text a caller read from the source path, or
//! `None` when the read failed: file handling stays with the caller, the
//! classification of every outcome stands here and is verified.

use vstd::prelude::*;

use crate::backend::encode_png;
use crate::backend::new_pixmap;
use crate::backend::parse_svg;
use crate::backend::pixmap_creatable;
use crate::backend::pixmap_size;
use crate::backend::png_encoding;
use crate::backend::render_scaled;
use crate::backend::svg_intrinsic_size;
use crate::dims::Dimensions;
use crate::dims::scaled_size;
use crate::dims::spec_scaled_size;
use crate::error::ConvertError;
use crate::error::LoadError;

verus! {

/// What a caller's read of the source path yielded, seen as a sequence of
/// characters: `None` when the path could not be read.
pub open spec fn source_view(source: Option<&str>) -> Option<Seq<char>> {
    match source {
        None => None,
        Some(text) => Some(text@),
    }
}

/// What `load_dimensions` returns for a given read outcome: the intrinsic
/// size of the document, `Io` when the source could not be read, `Parse`
/// when its text is not a well-formed SVG document.
pub open spec fn spec_load(source: Option<Seq<char>>) -> Result<Dimensions, LoadError> {
    match source {
        None => Err(LoadError::Io),
        Some(text) => match svg_intrinsic_size(text) {
            None => Err(LoadError::Parse),
            Some((w, h)) => Ok(Dimensions { width: w, height: h }),
        },
    }
}

/// The intrinsic size of a source document.  `source` is the text read from
/// the source path, or `None` when the path could not be read.
pub fn load_dimensions(source: Option<&str>) -> (r: Result<Dimensions, LoadError>)
    ensures
        r == spec_load(source_view(source)),
{
    match source {
        None => Err(LoadError::Io),
        Some(text) => match parse_svg(text) {
            None => Err(LoadError::Parse),
            Some(parsed) => Ok(Dimensions { width: parsed.1, height: parsed.2 }),
        },
    }
}

/// What rasterizing a source at a scale yields: the size of the produced
/// raster, or the error.  A scale of zero fails before anything else; then
/// a missing source, then a malformed one; then a scale past `u16::MAX`, a
/// scaled size that overflows `u32`, or one that no pixel buffer can hold —
/// all of the allocation class.
pub open spec fn spec_raster_outcome(source: Option<Seq<char>>, scale: u32) -> Result<
    Dimensions,
    ConvertError,
> {
    if scale == 0 {
        Err(ConvertError::AllocationFailed)
    } else {
        match source {
            None => Err(ConvertError::Io),
            Some(text) => match svg_intrinsic_size(text) {
                None => Err(ConvertError::Parse),
                Some((w, h)) => if scale > u16::MAX as u32 {
                    Err(ConvertError::AllocationFailed)
                } else {
                    match spec_scaled_size(Dimensions { width: w, height: h }, scale) {
                        None => Err(ConvertError::AllocationFailed),
                        Some(sd) => if pixmap_creatable(sd.width, sd.height) {
                            Ok(sd)
                        } else {
                            Err(ConvertError::AllocationFailed)
                        },
                    }
                },
            },
        }
    }
}

/// Parse the source and render it into a raster of the scaled size.
///
/// For every source of intrinsic size `(w, h)` and every scale `s >= 1` for
/// which a raster is representable, the produced raster has size exactly
/// `(w * s, h * s)`.
pub fn rasterize(source: Option<&str>, scale: u32) -> (r: Result<
    resvg::tiny_skia::Pixmap,
    ConvertError,
>)
    ensures
        r matches Ok(p) ==> (spec_raster_outcome(source_view(source), scale) matches Ok(d)
            && pixmap_size(p) == (d.width, d.height)),
        r matches Err(e) ==> spec_raster_outcome(source_view(source), scale) == Err::<
            Dimensions,
            ConvertError,
        >(e),
{
    if scale == 0 {
        return Err(ConvertError::AllocationFailed);
    }
    let text = match source {
        None => {
            return Err(ConvertError::Io);
        },
        Some(text) => text,
    };
    let parsed = match parse_svg(text) {
        None => {
            return Err(ConvertError::Parse);
        },
        Some(parsed) => parsed,
    };
    if scale > 65535 {
        return Err(ConvertError::AllocationFailed);
    }
    let sd = match scaled_size(Dimensions { width: parsed.1, height: parsed.2 }, scale) {
        None => {
            return Err(ConvertError::AllocationFailed);
        },
        Some(sd) => sd,
    };
    let mut pixmap = match new_pixmap(sd.width, sd.height) {
        None => {
            return Err(ConvertError::AllocationFailed);
        },
        Some(pixmap) => pixmap,
    };
    render_scaled(&parsed.0, scale as u16, &mut pixmap);
    Ok(pixmap)
}

/// Parse the source, render it at the given scale, and encode the raster as
/// PNG bytes for the caller to write to the destination path.
///
/// Success and failure are exactly those of the raster outcome: whenever a
/// raster is owed, PNG bytes are owed, and they are the PNG encoding of a
/// raster of exactly the scaled size.
pub fn convert_document(source: Option<&str>, scale: u32) -> (r: Result<Vec<u8>, ConvertError>)
    ensures
        spec_raster_outcome(source_view(source), scale) is Ok ==> r is Ok,
        r matches Ok(bytes) ==> (spec_raster_outcome(source_view(source), scale) matches Ok(d)
            && (exists|pixels: Seq<u8>| bytes@ == png_encoding(pixels, d.width, d.height))),
        r matches Err(e) ==> spec_raster_outcome(source_view(source), scale) == Err::<
            Dimensions,
            ConvertError,
        >(e),
{
    match rasterize(source, scale) {
        Err(e) => Err(e),
        Ok(pixmap) => match encode_png(&pixmap) {
            None => Err(ConvertError::Io),
            Some(bytes) => Ok(bytes),
        },
    }
}

} // verus!
