use crate::raster::{view_opt, view_wf, Raster, RasterView};
use vstd::prelude::*;

verus! {

/// The image that image decodes from encoded bytes, as RGB8.
pub uninterp spec fn decoded_of(bytes: Seq<u8>) -> Option<RasterView>;

/// Relies on image's `load_from_memory`, which guesses the container from the bytes, and
/// `DynamicImage::to_rgb8`: the decoded image depends on the bytes alone, and its RGB8
/// buffer holds three samples per pixel.
#[verifier::external_body]
pub(crate) fn decode_image(bytes: &[u8]) -> (r: Option<Raster>)
    ensures
        view_opt(r) == decoded_of(bytes@),
        r matches Some(x) ==> x.wf(),
{
    let img = image::load_from_memory(bytes).ok()?.to_rgb8();
    Some(Raster { width: img.width(), height: img.height(), pixels: img.into_raw() })
}

/// The image that image's `DynamicImage::thumbnail` scales down to fit a square bound.
pub uninterp spec fn shrunk_of(width: u32, height: u32, pixels: Seq<u8>, bound: u32) -> RasterView;

/// `short` is `short_src * bound / long_src` rounded to the nearest pixel, or one where that
/// rounds to zero; an equal source edge gives an equal result. Where `bound * long_src`
/// reaches 2^50, floating-point error is allowed to move it by up to one pixel.
pub open spec fn scaled_within_one(short: u32, bound: u32, short_src: u32, long_src: u32) -> bool {
    let d = short * long_src - short_src * bound;
    &&& 1 <= short <= bound
    &&& (short_src == long_src ==> short == bound)
    &&& -long_src <= d <= long_src
    &&& (bound * long_src < 0x4_0000_0000_0000 ==> (-long_src <= 2 * d <= long_src || (short == 1
        && 2 * short_src * bound < long_src)))
}

/// Relies on image's `DynamicImage::thumbnail(bound, bound)` (`resize_dimensions`): it scales
/// each edge by `bound` over the long edge in `f64` and rounds to the nearest pixel, at least
/// one, so the long edge comes out as `bound`. The relative error of the two `f64` steps is
/// under 2^-51, which keeps the short edge within half a pixel of the exact quotient while
/// `bound * long` is under 2^50.
#[verifier::external_body]
pub(crate) fn shrink_to_fit(r: &Raster, bound: u32) -> (s: Raster)
    requires
        r.wf(),
        1 <= bound,
        r.width > bound || r.height > bound,
    ensures
        s.view() == shrunk_of(r.width, r.height, r.pixels@, bound),
        s.wf(),
        r.width >= r.height ==> s.width == bound && scaled_within_one(s.height, bound, r.height, r.width),
        r.width < r.height ==> s.height == bound && scaled_within_one(s.width, bound, r.width, r.height),
{
    let buf = image::RgbImage::from_raw(r.width, r.height, r.pixels.clone()).unwrap();
    let img = image::DynamicImage::ImageRgb8(buf).thumbnail(bound, bound).to_rgb8();
    Raster { width: img.width(), height: img.height(), pixels: img.into_raw() }
}

/// The JPEG file image's encoder writes for an RGB8 image at a quality.
pub uninterp spec fn jpeg_of(width: u32, height: u32, pixels: Seq<u8>, quality: u8) -> Option<Seq<u8>>;

/// Relies on image's `JpegEncoder::new_with_quality` and `encode`: the encoded bytes depend
/// on the image and the quality alone.
#[verifier::external_body]
pub(crate) fn encode_jpeg(r: &Raster, quality: u8) -> (out: Option<Vec<u8>>)
    requires
        r.wf(),
    ensures
        out matches Some(b) ==> jpeg_of(r.width, r.height, r.pixels@, quality) == Some(b@),
        out is None ==> jpeg_of(r.width, r.height, r.pixels@, quality) is None,
{
    let mut out = Vec::new();
    let mut enc = image::codecs::jpeg::JpegEncoder::new_with_quality(&mut out, quality);
    enc.encode(&r.pixels, r.width, r.height, image::ExtendedColorType::Rgb8).ok()?;
    Some(out)
}

/// A character with ASCII upper case mapped to lower case.
pub open spec fn ascii_lower_char(c: char) -> char {
    if 'A' <= c && c <= 'Z' { ((c as u32) + 32) as char } else { c }
}

/// The extensions for which image's `ImageFormat::from_extension` names a format, in lower
/// case.
pub open spec fn image_extensions() -> Set<Seq<char>> {
    set![
        "avif"@, "jpg"@, "jpeg"@, "jfif"@, "png"@, "apng"@, "gif"@, "webp"@, "tif"@, "tiff"@,
        "tga"@, "dds"@, "bmp"@, "ico"@, "hdr"@, "exr"@, "pbm"@, "pam"@, "ppm"@, "pgm"@, "pnm"@,
        "ff"@, "qoi"@,
    ]
}

/// Whether image names a format for an extension: its ASCII lower-case form is listed.
pub open spec fn image_format_known(ext: Seq<char>) -> bool {
    image_extensions().contains(ext.map_values(|c: char| ascii_lower_char(c)))
}

/// Relies on image's `ImageFormat::from_extension`, which lower-cases the extension's ASCII
/// letters and matches it against a fixed list of extensions.
#[verifier::external_body]
pub(crate) fn recognised_image_extension(ext: &str) -> (r: bool)
    ensures
        r == image_format_known(ext@),
{
    image::ImageFormat::from_extension(ext).is_some()
}

/// The long edge of an image.
pub open spec fn long_edge(v: RasterView) -> u32 {
    if v.0 >= v.1 { v.0 } else { v.1 }
}

/// An image scaled down so that its long edge does not exceed `bound`; never scaled up.
pub open spec fn fit_spec(v: RasterView, bound: u32) -> RasterView {
    if long_edge(v) <= bound { v } else { shrunk_of(v.0, v.1, v.2, bound) }
}

/// Scales an image down to fit `bound` on its long edge, keeping the aspect ratio; an image
/// that already fits is returned as it is.
pub fn resize_without_upscaling(img: Raster, bound: u32) -> (r: Raster)
    requires
        img.wf(),
        1 <= bound,
    ensures
        r.view() == fit_spec(img.view(), bound),
        r.wf(),
        long_edge(img.view()) <= bound ==> r.view() == img.view(),
        long_edge(img.view()) > bound && img.width >= 1 && img.height >= 1
            && (bound as int) * (long_edge(img.view()) as int) < 0x4_0000_0000_0000 ==> {
            let d = (r.width as int) * (img.height as int) - (r.height as int) * (img.width as int);
            &&& -(long_edge(img.view()) as int) < d < long_edge(img.view()) as int
            &&& (img.width >= img.height ==> r.width >= r.height)
            &&& (img.height >= img.width ==> r.height >= r.width)
            &&& r.width >= 1 && r.height >= 1
        },
        long_edge(img.view()) > bound ==> long_edge(r.view()) == bound,
        long_edge(img.view()) > bound && img.width >= img.height ==> r.width == bound
            && scaled_within_one(r.height, bound, img.height, img.width),
        long_edge(img.view()) > bound && img.width < img.height ==> r.height == bound
            && scaled_within_one(r.width, bound, img.width, img.height),
{
    if img.width <= bound && img.height <= bound {
        img
    } else {
        let r = shrink_to_fit(&img, bound);
        proof {
            let w = img.width as int;
            let h = img.height as int;
            let b = bound as int;
            if w >= h {
                let rw = r.width as int;
                let sh = r.height as int;
                assert(rw * h == h * b) by (nonlinear_arith)
                    requires rw == b;
                assert(h >= 1 ==> h * b >= 1) by (nonlinear_arith)
                    requires b >= 1;
                assert(scaled_within_one(r.height, bound, img.height, img.width));
                let dd = sh * w - h * b;
                assert(dd == r.height * img.width - img.height * bound);
                assert(-w <= dd <= w);
                if h >= 1 && b * w < 0x4_0000_0000_0000 {
                    assert(bound * img.width == b * w);
                    assert(-w <= 2 * dd <= w || (sh == 1 && 2 * h * b < w));
                    assert(2 * h * b == 2 * (h * b)) by (nonlinear_arith);
                    assert(sh == 1 ==> sh * w == w) by (nonlinear_arith);
                    assert(-w < dd < w);
                }
            } else {
                let rh = r.height as int;
                let sw = r.width as int;
                assert(rh * w == w * b) by (nonlinear_arith)
                    requires rh == b;
                assert(w >= 1 ==> w * b >= 1) by (nonlinear_arith)
                    requires b >= 1;
                assert(scaled_within_one(r.width, bound, img.width, img.height));
                let dd = sw * h - w * b;
                assert(dd == r.width * img.height - img.width * bound);
                assert(-h <= dd <= h);
                if w >= 1 && b * h < 0x4_0000_0000_0000 {
                    assert(bound * img.height == b * h);
                    assert(-h <= 2 * dd <= h || (sw == 1 && 2 * w * b < h));
                    assert(2 * w * b == 2 * (w * b)) by (nonlinear_arith);
                    assert(sw == 1 ==> sw * h == h) by (nonlinear_arith);
                    assert(-h < dd < h);
                }
            }
        }
        r
    }
}

/// The encoder quality for a quality on the scale one to ten: ten per step, at most 100.
pub open spec fn jpeg_quality_spec(quality: u8) -> u8 {
    if quality >= 10 { 100 } else { (quality * 10) as u8 }
}

/// Maps the quality scale one to ten onto the JPEG encoder's scale.
pub fn jpeg_quality(quality: u8) -> (r: u8)
    ensures
        r == jpeg_quality_spec(quality),
        quality >= 10 ==> r == 100,
        1 <= quality < 10 ==> r == 10 * quality,
{
    if quality >= 10 {
        100
    } else {
        quality * 10
    }
}

/// The JPEG preview of an image: fitted to the bound and encoded at the mapped quality.
pub open spec fn preview_jpeg_spec(v: RasterView, bound: u32, quality: u8) -> Option<Seq<u8>> {
    let f = fit_spec(v, bound);
    jpeg_of(f.0, f.1, f.2, jpeg_quality_spec(quality))
}

/// Fits an image to the bound and encodes it as JPEG.
pub fn save_jpeg_thumbnail(img: Raster, bound: u32, quality: u8) -> (r: Option<Vec<u8>>)
    requires
        img.wf(),
        1 <= bound,
    ensures
        r matches Some(b) ==> preview_jpeg_spec(img.view(), bound, quality) == Some(b@),
        r is None ==> preview_jpeg_spec(img.view(), bound, quality) is None,
{
    let fitted = resize_without_upscaling(img, bound);
    encode_jpeg(&fitted, jpeg_quality(quality))
}

} // verus!
