use vstd::prelude::*;

verus! {

#[verifier::external_type_specification]
#[verifier::external_body]
pub struct ExExif(exif::Exif);

#[verifier::external_type_specification]
#[verifier::external_body]
pub struct ExField(exif::Field);

/// The EXIF fields that the catalog reads.
#[derive(Clone, Copy, Debug, PartialEq, Eq)]
pub enum ExifTag {
    DateTimeOriginal,
    DateTime,
    Make,
    Model,
    PreviewOffset,
    PreviewLength,
}

/// The image file directories that the catalog reads.
#[derive(Clone, Copy, Debug, PartialEq, Eq)]
pub enum ExifIfd {
    Primary,
    Thumbnail,
}

/// Relies on kamadak-exif's `Exif::get_field`: the field with a tag in an image file
/// directory, where there is one.
#[verifier::external_body]
pub(crate) fn exif_field<'a>(e: &'a exif::Exif, tag: ExifTag, ifd: ExifIfd) -> (r: Option<&'a exif::Field>) {
    let tag = match tag {
        ExifTag::DateTimeOriginal => exif::Tag::DateTimeOriginal,
        ExifTag::DateTime => exif::Tag::DateTime,
        ExifTag::Make => exif::Tag::Make,
        ExifTag::Model => exif::Tag::Model,
        ExifTag::PreviewOffset => exif::Tag::JPEGInterchangeFormat,
        ExifTag::PreviewLength => exif::Tag::JPEGInterchangeFormatLength,
    };
    let ifd = match ifd {
        ExifIfd::Primary => exif::In::PRIMARY,
        ExifIfd::Thumbnail => exif::In::THUMBNAIL,
    };
    e.get_field(tag, ifd)
}

/// Relies on kamadak-exif's `Value::get_uint`: the first value of a field as an unsigned
/// integer, where the field holds one.
#[verifier::external_body]
pub(crate) fn field_uint(f: &exif::Field) -> (r: Option<u32>) {
    f.value.get_uint(0)
}

/// Relies on kamadak-exif's `Value::Ascii`: the bytes of the first string of a text field.
#[verifier::external_body]
pub(crate) fn field_first_text(f: &exif::Field) -> (r: Option<Vec<u8>>) {
    match &f.value {
        exif::Value::Ascii(v) => v.first().cloned(),
        _ => None,
    }
}

/// Relies on kamadak-exif's `Field::display_value`: the text that the crate shows for a field.
#[verifier::external_body]
pub(crate) fn field_display(f: &exif::Field) -> (r: String) {
    f.display_value().to_string()
}

/// The EXIF fields that the catalog reads, as plain values. For a text field the outer
/// option tells whether the field is there and the inner one whether it holds text.
#[derive(Clone, Debug)]
pub struct ExifFields {
    pub date_time_original: Option<Option<Vec<u8>>>,
    pub date_time: Option<Option<Vec<u8>>>,
    pub make: Option<String>,
    pub model: Option<String>,
    pub thumb_offset: Option<u32>,
    pub thumb_length: Option<u32>,
    pub primary_offset: Option<u32>,
    pub primary_length: Option<u32>,
}

fn text_field(e: &exif::Exif, tag: ExifTag) -> Option<Option<Vec<u8>>> {
    match exif_field(e, tag, ExifIfd::Primary) {
        Some(f) => Some(field_first_text(f)),
        None => None,
    }
}

fn display_field(e: &exif::Exif, tag: ExifTag) -> Option<String> {
    match exif_field(e, tag, ExifIfd::Primary) {
        Some(f) => Some(field_display(f)),
        None => None,
    }
}

fn uint_field(e: &exif::Exif, tag: ExifTag, ifd: ExifIfd) -> Option<u32> {
    match exif_field(e, tag, ifd) {
        Some(f) => field_uint(f),
        None => None,
    }
}

/// Reads the fields that the catalog uses out of a file's EXIF data.
pub fn read_exif_fields(e: &exif::Exif) -> ExifFields {
    ExifFields {
        date_time_original: text_field(e, ExifTag::DateTimeOriginal),
        date_time: text_field(e, ExifTag::DateTime),
        make: display_field(e, ExifTag::Make),
        model: display_field(e, ExifTag::Model),
        thumb_offset: uint_field(e, ExifTag::PreviewOffset, ExifIfd::Thumbnail),
        thumb_length: uint_field(e, ExifTag::PreviewLength, ExifIfd::Thumbnail),
        primary_offset: uint_field(e, ExifTag::PreviewOffset, ExifIfd::Primary),
        primary_length: uint_field(e, ExifTag::PreviewLength, ExifIfd::Primary),
    }
}

} // verus!
