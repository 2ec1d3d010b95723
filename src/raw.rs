use crate::exif_fields::ExifFields;
use crate::imaging::{decode_image, decoded_of};
use crate::raster::{
    high_bytes, raster_from_samples, reduce_to_8bit, view_opt, well_formed_only, Raster,
    RasterView,
};
use vstd::prelude::*;

verus! {

/// The RGB8 image that libraw's full processing makes of a camera RAW file.
pub uninterp spec fn demosaic8_of(data: Seq<u8>) -> Option<RasterView>;

/// The 16-bit RGB image that libraw's full processing makes of a camera RAW file.
pub uninterp spec fn demosaic16_of(data: Seq<u8>) -> Option<(u32, u32, Seq<u16>)>;

/// Relies on libraw-rs's `Processor::process_8bit`: width, height and samples of the
/// processed image, which depend on the file's bytes alone.
#[verifier::external_body]
fn demosaic_8bit(data: &[u8]) -> (r: Option<(u32, u32, Vec<u8>)>)
    ensures
        r matches Some(t) ==> demosaic8_of(data@) == Some((t.0, t.1, t.2@)),
        r is None ==> demosaic8_of(data@) is None,
{
    let img = libraw::Processor::new().process_8bit(data).ok()?;
    Some((img.width(), img.height(), img.to_vec()))
}

/// Relies on libraw-rs's `Processor::process_16bit`: width, height and samples of the
/// processed image, which depend on the file's bytes alone.
#[verifier::external_body]
fn demosaic_16bit(data: &[u8]) -> (r: Option<(u32, u32, Vec<u16>)>)
    ensures
        r matches Some(t) ==> demosaic16_of(data@) == Some((t.0, t.1, t.2@)),
        r is None ==> demosaic16_of(data@) is None,
{
    let img = libraw::Processor::new().process_16bit(data).ok()?;
    Some((img.width(), img.height(), img.to_vec()))
}

/// The first tier: full processing to 8-bit RGB.
pub open spec fn tier_rgb8_spec(data: Seq<u8>) -> Option<RasterView> {
    well_formed_only(demosaic8_of(data))
}

/// The second tier: full processing to 16-bit RGB, each sample cut to its high byte.
pub open spec fn tier_rgb16_spec(data: Seq<u8>) -> Option<RasterView> {
    match demosaic16_of(data) {
        Some(t) => well_formed_only(Some((t.0, t.1, high_bytes(t.2)))),
        None => None,
    }
}

/// The bytes of an embedded preview at an offset and length, where the file holds them.
pub open spec fn preview_bytes_spec(data: Seq<u8>, at: Option<(u32, u32)>) -> Option<Seq<u8>> {
    match at {
        Some(p) => if p.0 + p.1 <= data.len() {
            Some(data.subrange(p.0 as int, p.0 + p.1))
        } else {
            None
        },
        None => None,
    }
}

/// The third tier: the embedded preview, decoded as an image of its own.
pub open spec fn tier_preview_spec(data: Seq<u8>, at: Option<(u32, u32)>) -> Option<RasterView> {
    match preview_bytes_spec(data, at) {
        Some(b) => decoded_of(b),
        None => None,
    }
}

/// The first tier that yields an image.
pub open spec fn raw_chain_spec(data: Seq<u8>, at: Option<(u32, u32)>) -> Option<RasterView> {
    if tier_rgb8_spec(data) is Some {
        tier_rgb8_spec(data)
    } else if tier_rgb16_spec(data) is Some {
        tier_rgb16_spec(data)
    } else {
        tier_preview_spec(data, at)
    }
}

/// Where an embedded preview sits: offset and length are each taken from the thumbnail
/// directory first and from the primary directory otherwise.
pub open spec fn preview_location_spec(
    thumb_offset: Option<u32>,
    thumb_length: Option<u32>,
    primary_offset: Option<u32>,
    primary_length: Option<u32>,
) -> Option<(u32, u32)> {
    let o = if thumb_offset is Some { thumb_offset } else { primary_offset };
    let l = if thumb_length is Some { thumb_length } else { primary_length };
    match (o, l) {
        (Some(o), Some(l)) => Some((o, l)),
        _ => None,
    }
}

/// Combines the preview fields of the two directories into an offset and a length.
pub fn preview_location(
    thumb_offset: Option<u32>,
    thumb_length: Option<u32>,
    primary_offset: Option<u32>,
    primary_length: Option<u32>,
) -> (r: Option<(u32, u32)>)
    ensures
        r == preview_location_spec(thumb_offset, thumb_length, primary_offset, primary_length),
{
    let o = if thumb_offset.is_some() { thumb_offset } else { primary_offset };
    let l = if thumb_length.is_some() { thumb_length } else { primary_length };
    match (o, l) {
        (Some(o), Some(l)) => Some((o, l)),
        _ => None,
    }
}

/// Reads the offset and length of the embedded preview from a RAW file's EXIF fields.
pub fn locate_preview(f: &ExifFields) -> (r: Option<(u32, u32)>)
    ensures
        r == preview_location_spec(f.thumb_offset, f.thumb_length, f.primary_offset, f.primary_length),
{
    preview_location(f.thumb_offset, f.thumb_length, f.primary_offset, f.primary_length)
}

/// Copies the bytes of an embedded preview out of the file, where the file holds them.
pub fn preview_bytes(data: &[u8], at: Option<(u32, u32)>) -> (r: Option<Vec<u8>>)
    ensures
        r matches Some(b) ==> preview_bytes_spec(data@, at) == Some(b@),
        r is None ==> preview_bytes_spec(data@, at) is None,
{
    match at {
        Some((offset, length)) => {
            let start = offset as usize;
            let len = length as usize;
            let n = data.len();
            if start > n || len > n - start {
                return None;
            }
            let mut out: Vec<u8> = Vec::with_capacity(len);
            let mut i: usize = 0;
            while i < len
                invariant
                    start + len <= n == data@.len(),
                    i <= len,
                    out@ =~= data@.subrange(start as int, start + i),
                decreases len - i,
            {
                out.push(data[start + i]);
                i = i + 1;
            }
            Some(out)
        },
        None => None,
    }
}

fn tier_rgb8(data: &[u8]) -> (r: Option<Raster>)
    ensures
        view_opt(r) == tier_rgb8_spec(data@),
        r matches Some(x) ==> x.wf(),
{
    match demosaic_8bit(data) {
        Some((w, h, px)) => raster_from_samples(w, h, px),
        None => None,
    }
}

fn tier_rgb16(data: &[u8]) -> (r: Option<Raster>)
    ensures
        view_opt(r) == tier_rgb16_spec(data@),
        r matches Some(x) ==> x.wf(),
{
    match demosaic_16bit(data) {
        Some((w, h, px)) => raster_from_samples(w, h, reduce_to_8bit(&px)),
        None => None,
    }
}

fn tier_preview(data: &[u8], at: Option<(u32, u32)>) -> (r: Option<Raster>)
    ensures
        view_opt(r) == tier_preview_spec(data@, at),
        r matches Some(x) ==> x.wf(),
{
    match preview_bytes(data, at) {
        Some(b) => decode_image(b.as_slice()),
        None => None,
    }
}

/// Tries the tiers in order, full 8-bit processing, full 16-bit processing, then the
/// embedded preview at `at`, and keeps the first image that one of them yields.
pub fn generate_raw_thumbnail(data: &[u8], at: Option<(u32, u32)>) -> (r: Option<Raster>)
    ensures
        view_opt(r) == raw_chain_spec(data@, at),
        r matches Some(x) ==> x.wf(),
{
    let first = tier_rgb8(data);
    if first.is_some() {
        return first;
    }
    let second = tier_rgb16(data);
    if second.is_some() {
        return second;
    }
    tier_preview(data, at)
}

/// Where both demosaic tiers fail, a RAW file whose embedded preview decodes yields that
/// preview.
pub proof fn lemma_preview_rescues_failed_demosaic(data: Seq<u8>, at: Option<(u32, u32)>)
    requires
        tier_rgb8_spec(data) is None,
        tier_rgb16_spec(data) is None,
        tier_preview_spec(data, at) is Some,
    ensures
        raw_chain_spec(data, at) == tier_preview_spec(data, at),
        raw_chain_spec(data, at) is Some,
{
}

/// A RAW file that neither demosaic tier reads and whose EXIF data names no preview yields
/// no image.
pub proof fn lemma_no_preview_fields_no_image(data: Seq<u8>)
    requires
        tier_rgb8_spec(data) is None,
        tier_rgb16_spec(data) is None,
    ensures
        raw_chain_spec(data, None) is None,
{
}

} // verus!
