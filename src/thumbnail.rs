use crate::imaging::{
    decode_image, decoded_of, image_format_known, preview_jpeg_spec, recognised_image_extension,
    save_jpeg_thumbnail,
};
use crate::paths::same_text;
use crate::raster::view_opt;
use crate::raw::{generate_raw_thumbnail, raw_chain_spec};
use vstd::prelude::*;

verus! {

/// The kind of container a file is, as its extension tells.
#[derive(Clone, Copy, Debug, PartialEq, Eq)]
pub enum FormatFamily {
    /// A raster format that the image crate decodes.
    Standard,
    /// A camera RAW file.
    CameraRaw,
    /// HEIC or HEIF, which only an outside converter can read.
    Heif,
    /// A video: no preview is made.
    Video,
    /// Anything else: no preview is made.
    Unknown,
}

/// What became of a preview.
#[derive(Clone, Debug)]
pub enum ThumbnailStep {
    /// The JPEG bytes of the preview, to be written to the thumbnail path.
    Jpeg(Vec<u8>),
    /// The file has to be converted to JPEG by an outside utility first.
    Convert,
    /// No preview for this file.
    Skip,
}

/// The spec-level form of a `ThumbnailStep`.
pub enum StepView {
    Jpeg(Seq<u8>),
    Convert,
    Skip,
}

impl ThumbnailStep {
    pub open spec fn view(&self) -> StepView {
        match self {
            ThumbnailStep::Jpeg(b) => StepView::Jpeg(b@),
            ThumbnailStep::Convert => StepView::Convert,
            ThumbnailStep::Skip => StepView::Skip,
        }
    }
}

/// The lower-case form of a text as std's `str::to_lowercase` makes it.
pub uninterp spec fn lower_of(s: Seq<char>) -> Seq<char>;

/// Relies on std's `str::to_lowercase`: the result depends on the characters alone.
#[verifier::external_body]
fn lowercase(s: &str) -> (r: String)
    ensures
        r@ == lower_of(s@),
{
    s.to_lowercase()
}

pub open spec fn is_raw_extension(lower: Seq<char>) -> bool {
    lower == "nef"@ || lower == "cr2"@ || lower == "arw"@ || lower == "dng"@
}

pub open spec fn is_heif_extension(lower: Seq<char>) -> bool {
    lower == "heic"@ || lower == "heif"@
}

pub open spec fn is_video_extension(lower: Seq<char>) -> bool {
    lower == "mov"@ || lower == "mp4"@ || lower == "avi"@ || lower == "mts"@
}

/// The family of a file: a format the image crate knows comes first; otherwise the
/// lower-cased extension decides.
pub open spec fn family_spec(image_known: bool, lower: Seq<char>) -> FormatFamily {
    if image_known {
        FormatFamily::Standard
    } else if is_raw_extension(lower) {
        FormatFamily::CameraRaw
    } else if is_heif_extension(lower) {
        FormatFamily::Heif
    } else if is_video_extension(lower) {
        FormatFamily::Video
    } else {
        FormatFamily::Unknown
    }
}

/// Decides the family from whether the image crate knows the extension and from the
/// lower-cased extension.
pub fn family_from(image_known: bool, lower: &str) -> (r: FormatFamily)
    ensures
        r == family_spec(image_known, lower@),
{
    if image_known {
        FormatFamily::Standard
    } else if same_text(lower, "nef") || same_text(lower, "cr2") || same_text(lower, "arw")
        || same_text(lower, "dng") {
        FormatFamily::CameraRaw
    } else if same_text(lower, "heic") || same_text(lower, "heif") {
        FormatFamily::Heif
    } else if same_text(lower, "mov") || same_text(lower, "mp4") || same_text(lower, "avi")
        || same_text(lower, "mts") {
        FormatFamily::Video
    } else {
        FormatFamily::Unknown
    }
}

/// The family of a file with the given extension (without its dot).
pub fn classify_extension(ext: &str) -> (r: FormatFamily)
    ensures
        r == family_spec(image_format_known(ext@), lower_of(ext@)),
{
    let known = recognised_image_extension(ext);
    let lower = lowercase(ext);
    family_from(known, lower.as_str())
}

/// Whether an extension names a DNG file, in any case.
pub fn is_dng_extension(ext: &str) -> (r: bool)
    ensures
        r == (lower_of(ext@) == "dng"@),
{
    let lower = lowercase(ext);
    same_text(lower.as_str(), "dng")
}

/// The outcome for a decoded image, or for none.
pub open spec fn step_for(decoded: Option<(u32, u32, Seq<u8>)>, bound: u32, quality: u8, fallback: StepView) -> StepView {
    match decoded {
        Some(v) => match preview_jpeg_spec(v, bound, quality) {
            Some(b) => StepView::Jpeg(b),
            None => StepView::Skip,
        },
        None => fallback,
    }
}

/// The outcome for a file of a family, with its embedded preview at `preview_at`.
pub open spec fn thumbnail_spec(
    family: FormatFamily,
    dng: bool,
    data: Seq<u8>,
    preview_at: Option<(u32, u32)>,
    bound: u32,
    quality: u8,
) -> StepView {
    match family {
        FormatFamily::Standard => step_for(decoded_of(data), bound, quality, StepView::Skip),
        FormatFamily::CameraRaw => step_for(
            raw_chain_spec(data, preview_at),
            bound,
            quality,
            if dng { StepView::Convert } else { StepView::Skip },
        ),
        FormatFamily::Heif => StepView::Convert,
        _ => StepView::Skip,
    }
}

/// Makes the JPEG preview of a file of the given family from its bytes: standard images
/// are decoded directly, RAW files go through their tiers (a DNG that none of them reads
/// asks for outside conversion), HEIF always asks for it, and videos and unknown files get
/// none. `preview_at` is where the file's EXIF data places an embedded preview.
pub fn generate_thumbnail(
    family: FormatFamily,
    dng: bool,
    data: &[u8],
    preview_at: Option<(u32, u32)>,
    bound: u32,
    quality: u8,
) -> (r: ThumbnailStep)
    requires
        1 <= bound,
    ensures
        r.view() == thumbnail_spec(family, dng, data@, preview_at, bound, quality),
{
    match family {
        FormatFamily::Standard => finish(decode_image(data), bound, quality, ThumbnailStep::Skip),
        FormatFamily::CameraRaw => {
            let img = generate_raw_thumbnail(data, preview_at);
            let fallback = if dng { ThumbnailStep::Convert } else { ThumbnailStep::Skip };
            finish(img, bound, quality, fallback)
        },
        FormatFamily::Heif => ThumbnailStep::Convert,
        _ => ThumbnailStep::Skip,
    }
}

fn finish(img: Option<crate::raster::Raster>, bound: u32, quality: u8, fallback: ThumbnailStep) -> (r: ThumbnailStep)
    requires
        1 <= bound,
        img matches Some(x) ==> x.wf(),
    ensures
        r.view() == step_for(view_opt(img), bound, quality, fallback.view()),
{
    match img {
        Some(x) => match save_jpeg_thumbnail(x, bound, quality) {
            Some(b) => ThumbnailStep::Jpeg(b),
            None => ThumbnailStep::Skip,
        },
        None => fallback,
    }
}

/// Makes the JPEG preview from the JPEG that an outside converter wrote for a file.
pub fn thumbnail_from_converted(converted: &[u8], bound: u32, quality: u8) -> (r: Option<Vec<u8>>)
    requires
        1 <= bound,
    ensures
        r matches Some(b) ==> step_for(decoded_of(converted@), bound, quality, StepView::Skip) == StepView::Jpeg(b@),
        r is None ==> step_for(decoded_of(converted@), bound, quality, StepView::Skip) == StepView::Skip,
{
    match finish(decode_image(converted), bound, quality, ThumbnailStep::Skip) {
        ThumbnailStep::Jpeg(b) => Some(b),
        _ => None,
    }
}

} // verus!
