use svg2png::convert::{convert_document, load_dimensions, rasterize};
use svg2png::dims::{scale_dim, scaled_size, Dimensions};
use svg2png::error::{ConvertError, LoadError};

const SVG_100X50: &str = "<svg xmlns=\"http://www.w3.org/2000/svg\" width=\"100\" height=\"50\"><rect x=\"10\" y=\"10\" width=\"40\" height=\"20\" fill=\"red\"/></svg>";

/// Width and height from the IHDR chunk of a PNG byte stream.
fn png_size(bytes: &[u8]) -> (u32, u32) {
    assert!(bytes.len() >= 24);
    assert_eq!(&bytes[0..8], &[0x89, 0x50, 0x4e, 0x47, 0x0d, 0x0a, 0x1a, 0x0a]);
    assert_eq!(&bytes[12..16], b"IHDR");
    let w = u32::from_be_bytes([bytes[16], bytes[17], bytes[18], bytes[19]]);
    let h = u32::from_be_bytes([bytes[20], bytes[21], bytes[22], bytes[23]]);
    (w, h)
}

#[test]
fn load_dimensions_reads_intrinsic_size() {
    let r = load_dimensions(Some(SVG_100X50));
    assert_eq!(r, Ok(Dimensions { width: 100, height: 50 }));
}

#[test]
fn load_dimensions_missing_source_is_io() {
    assert_eq!(load_dimensions(None), Err(LoadError::Io));
}

#[test]
fn load_dimensions_rejects_malformed_text() {
    assert_eq!(load_dimensions(Some("this is not an svg")), Err(LoadError::Parse));
    assert_eq!(load_dimensions(Some("")), Err(LoadError::Parse));
}

#[test]
fn load_dimensions_truncates_fractional_size() {
    let svg = "<svg xmlns=\"http://www.w3.org/2000/svg\" width=\"10.7\" height=\"3.9\"></svg>";
    assert_eq!(load_dimensions(Some(svg)), Ok(Dimensions { width: 10, height: 3 }));
}

#[test]
fn rasterize_produces_scaled_raster() {
    let pixmap = rasterize(Some(SVG_100X50), 2).unwrap();
    assert_eq!(pixmap.width(), 200);
    assert_eq!(pixmap.height(), 100);
}

#[test]
fn convert_produces_scaled_png() {
    let bytes = convert_document(Some(SVG_100X50), 4).unwrap();
    assert_eq!(png_size(&bytes), (400, 200));
}

#[test]
fn convert_scale_one_keeps_size() {
    let bytes = convert_document(Some(SVG_100X50), 1).unwrap();
    assert_eq!(png_size(&bytes), (100, 50));
}

#[test]
fn convert_is_byte_deterministic() {
    let first = convert_document(Some(SVG_100X50), 4).unwrap();
    let second = convert_document(Some(SVG_100X50), 4).unwrap();
    assert_eq!(first, second);
}

#[test]
fn convert_zero_scale_is_allocation_error() {
    assert_eq!(convert_document(Some(SVG_100X50), 0), Err(ConvertError::AllocationFailed));
    assert_eq!(convert_document(None, 0), Err(ConvertError::AllocationFailed));
}

#[test]
fn convert_missing_source_is_io() {
    assert_eq!(convert_document(None, 2), Err(ConvertError::Io));
}

#[test]
fn convert_malformed_source_is_parse_error() {
    assert_eq!(convert_document(Some("<html></html>"), 2), Err(ConvertError::Parse));
}

#[test]
fn convert_overflowing_scale_is_allocation_error() {
    let svg = "<svg xmlns=\"http://www.w3.org/2000/svg\" width=\"70000000\" height=\"1\"></svg>";
    assert_eq!(convert_document(Some(svg), 64), Err(ConvertError::AllocationFailed));
}

#[test]
fn convert_zero_intrinsic_size_is_allocation_error() {
    let svg = "<svg xmlns=\"http://www.w3.org/2000/svg\" width=\"0.5\" height=\"0.5\"></svg>";
    assert_eq!(convert_document(Some(svg), 8), Err(ConvertError::AllocationFailed));
}

#[test]
fn convert_twice_latest_scale_wins() {
    let first = convert_document(Some(SVG_100X50), 1).unwrap();
    let latest = convert_document(Some(SVG_100X50), 2).unwrap();
    assert_eq!(png_size(&first), (100, 50));
    assert_eq!(png_size(&latest), (200, 100));
    assert_ne!(first, latest);
}

#[test]
fn convert_huge_scale_is_allocation_error() {
    let svg = "<svg xmlns=\"http://www.w3.org/2000/svg\" width=\"1\" height=\"1\"></svg>";
    assert_eq!(convert_document(Some(svg), 70000), Err(ConvertError::AllocationFailed));
    // A missing or malformed source is reported first; only the zero scale
    // comes before it.
    assert_eq!(convert_document(None, 70000), Err(ConvertError::Io));
    assert_eq!(convert_document(Some("not svg"), 70000), Err(ConvertError::Parse));
}

#[test]
fn render_paints_the_document() {
    let blank = "<svg xmlns=\"http://www.w3.org/2000/svg\" width=\"100\" height=\"50\"></svg>";
    let with_rect = convert_document(Some(SVG_100X50), 1).unwrap();
    let without = convert_document(Some(blank), 1).unwrap();
    assert_eq!(png_size(&with_rect), png_size(&without));
    assert_ne!(with_rect, without);
}

#[test]
fn scale_dim_exact_and_overflow() {
    assert_eq!(scale_dim(100, 4), Some(400));
    assert_eq!(scale_dim(0, 7), Some(0));
    assert_eq!(scale_dim(u32::MAX, 1), Some(u32::MAX));
    assert_eq!(scale_dim(u32::MAX, 2), None);
}

#[test]
fn scaled_size_exact_and_overflow() {
    let d = Dimensions { width: 100, height: 50 };
    assert_eq!(scaled_size(d, 4), Some(Dimensions { width: 400, height: 200 }));
    let wide = Dimensions { width: 3_000_000_000, height: 1 };
    assert_eq!(scaled_size(wide, 2), None);
}
