//! The trusted boundary around the rendering crate.
//!
//! Everything the library takes on trust stands here: two declared outside
//! types, four named results, and one wrapper per outside call.  Each
//! wrapper's contract states only what the rendering crate's own source
//! shows of that call.

use vstd::prelude::*;

verus! {

#[verifier::external_type_specification]
#[verifier::external_body]
pub struct ExTree(resvg::usvg::Tree);

#[verifier::external_type_specification]
#[verifier::external_body]
pub struct ExPixmap(resvg::tiny_skia::Pixmap);

/// The intrinsic size that parsing a text as an SVG document yields, with
/// no external resource resolution: `None` when the text is not a
/// well-formed SVG document, otherwise the document's width and height
/// rounded toward zero, saturating at `u32::MAX`.
pub uninterp spec fn svg_intrinsic_size(text: Seq<char>) -> Option<(u32, u32)>;

/// The size of a pixmap, in pixels.
pub uninterp spec fn pixmap_size(p: resvg::tiny_skia::Pixmap) -> (u32, u32);

/// The pixel bytes a pixmap holds.
pub uninterp spec fn pixmap_pixels(p: resvg::tiny_skia::Pixmap) -> Seq<u8>;

/// The PNG encoding of a raster with the given pixel bytes and size.
pub uninterp spec fn png_encoding(pixels: Seq<u8>, width: u32, height: u32) -> Seq<u8>;

/// Relies on `usvg::Tree::from_str`, with default options except that
/// file hrefs are never resolved (data URLs still are): with no external
/// resource resolution, whether a text parses, and the intrinsic size of
/// the parsed document, depend on the text alone.  The returned width and
/// height are the document's intrinsic size rounded toward zero, saturating
/// at `u32::MAX`.
#[verifier::external_body]
pub(crate) fn parse_svg(text: &str) -> (r: Option<(resvg::usvg::Tree, u32, u32)>)
    ensures
        r is Some <==> svg_intrinsic_size(text@) is Some,
        r matches Some(t) ==> svg_intrinsic_size(text@) == Some((t.1, t.2)),
{
    let no_files = resvg::usvg::ImageHrefResolver {
        resolve_data: resvg::usvg::ImageHrefResolver::default_data_resolver(),
        resolve_string: Box::new(|_, _| None),
    };
    let options = resvg::usvg::Options {
        image_href_resolver: no_files,
        ..resvg::usvg::Options::default()
    };
    match resvg::usvg::Tree::from_str(text, &options) {
        Ok(tree) => {
            let size = tree.size();
            Some((tree, size.width() as u32, size.height() as u32))
        }
        Err(_) => None,
    }
}

/// The condition under which `tiny_skia::Pixmap::new` succeeds, as its source
/// shows it: both sides non-zero, a row of four-byte pixels within
/// `i32::MAX` bytes, and the whole pixel buffer within `usize::MAX` bytes.
pub open spec fn pixmap_creatable(w: u32, h: u32) -> bool {
    &&& 1 <= w
    &&& 1 <= h
    &&& 4 * w <= i32::MAX as int
    &&& (h - 1) * (4 * w) + 4 * w <= usize::MAX as int
}

/// Relies on `tiny_skia::Pixmap::new`: a pixmap of the requested size, or
/// `None` exactly when the size is zero or too large for a pixel buffer.
#[verifier::external_body]
pub(crate) fn new_pixmap(w: u32, h: u32) -> (r: Option<resvg::tiny_skia::Pixmap>)
    ensures
        r is Some <==> pixmap_creatable(w, h),
        r matches Some(p) ==> pixmap_size(p) == (w, h),
{
    resvg::tiny_skia::Pixmap::new(w, h)
}

/// Relies on `resvg::render`: paints the document into the pixmap under a
/// uniform scale transform, leaving the pixmap's size unchanged.
#[verifier::external_body]
pub(crate) fn render_scaled(
    tree: &resvg::usvg::Tree,
    scale: u16,
    pixmap: &mut resvg::tiny_skia::Pixmap,
)
    ensures
        pixmap_size(*final(pixmap)) == pixmap_size(*old(pixmap)),
{
    let transform = resvg::tiny_skia::Transform::from_scale(scale.into(), scale.into());
    resvg::render(tree, transform, &mut pixmap.as_mut());
}

/// Relies on `tiny_skia::Pixmap::encode_png`: the PNG bytes are a function
/// of the pixmap's pixels and size alone.  Encoding succeeds on every
/// pixmap: the encoder writes fixed eight-bit RGBA settings into a `Vec`,
/// the pixmap's size is non-zero by construction, and its buffer holds
/// exactly the bytes of one image.
#[verifier::external_body]
pub(crate) fn encode_png(pixmap: &resvg::tiny_skia::Pixmap) -> (r: Option<Vec<u8>>)
    ensures
        r is Some,
        r matches Some(bytes) ==> bytes@ == png_encoding(
            pixmap_pixels(*pixmap),
            pixmap_size(*pixmap).0,
            pixmap_size(*pixmap).1,
        ),
{
    pixmap.encode_png().ok()
}

} // verus!
