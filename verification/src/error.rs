use vstd::prelude::*;

verus! {

/// Why no dimensions could be read from a source document.
#[derive(Clone, Copy, Debug, PartialEq, Eq, Structural)]
pub enum LoadError {
    /// The source could not be read.
    Io,
    /// The source text is not a well-formed SVG document.
    Parse,
}

/// Why a conversion attempt produced no PNG.
#[derive(Clone, Copy, Debug, PartialEq, Eq, Structural)]
pub enum ConvertError {
    /// The source could not be read, or the PNG could not be written.
    Io,
    /// The source text is not a well-formed SVG document.
    Parse,
    /// The raster dimensions came out zero or unrepresentable.
    AllocationFailed,
}

} // verus!
