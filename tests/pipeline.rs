use casket::config::Catalog;
use casket::database::{create_tables, save_all_processed_info};
use casket::exif_fields::{read_exif_fields, ExifFields};
use casket::metadata::{extract_exif_metadata, Metadata};
use casket::raw::locate_preview;
use casket::timestamp::local_file_time;
use casket::paths::extension_of;
use casket::processor::{plan_file, processed_info, FileInfo, ProcessedInfo};
use casket::thumbnail::{classify_extension, generate_thumbnail, is_dng_extension, FormatFamily, ThumbnailStep};
use chrono::{Local, TimeZone};

fn plain_jpeg(width: u32, height: u32) -> Vec<u8> {
    let mut pixels = Vec::new();
    for y in 0..height {
        for x in 0..width {
            pixels.push((x % 256) as u8);
            pixels.push((y % 256) as u8);
            pixels.push(128);
        }
    }
    let mut out = Vec::new();
    let mut enc = image::codecs::jpeg::JpegEncoder::new_with_quality(&mut out, 90);
    enc.encode(&pixels, width, height, image::ExtendedColorType::Rgb8).unwrap();
    out
}

fn le16(v: &mut Vec<u8>, x: u16) {
    v.extend_from_slice(&x.to_le_bytes());
}

fn le32(v: &mut Vec<u8>, x: u32) {
    v.extend_from_slice(&x.to_le_bytes());
}

fn entry(v: &mut Vec<u8>, tag: u16, typ: u16, count: u32, value: u32) {
    le16(v, tag);
    le16(v, typ);
    le32(v, count);
    le32(v, value);
}

/// A little-endian TIFF whose Exif directory holds `DateTimeOriginal`.
fn tiff_with_date(date: &str) -> Vec<u8> {
    let mut t = Vec::new();
    t.extend_from_slice(b"II");
    le16(&mut t, 42);
    le32(&mut t, 8);
    le16(&mut t, 1);
    entry(&mut t, 0x8769, 4, 1, 26);
    le32(&mut t, 0);
    le16(&mut t, 1);
    entry(&mut t, 0x9003, 2, (date.len() + 1) as u32, 44);
    le32(&mut t, 0);
    t.extend_from_slice(date.as_bytes());
    t.push(0);
    t
}

fn jpeg_with_date(width: u32, height: u32, date: &str) -> Vec<u8> {
    let jpeg = plain_jpeg(width, height);
    let tiff = tiff_with_date(date);
    let mut out = vec![0xFF, 0xD8, 0xFF, 0xE1];
    let len = (2 + 6 + tiff.len()) as u16;
    out.extend_from_slice(&len.to_be_bytes());
    out.extend_from_slice(b"Exif\0\0");
    out.extend_from_slice(&tiff);
    out.extend_from_slice(&jpeg[2..]);
    out
}

/// A TIFF container, as a DNG is, with no raw data and a JPEG preview named in its
/// thumbnail directory.
fn dng_with_preview(preview: &[u8]) -> Vec<u8> {
    let mut t = Vec::new();
    t.extend_from_slice(b"II");
    le16(&mut t, 42);
    le32(&mut t, 8);
    le16(&mut t, 1);
    entry(&mut t, 0x0100, 3, 1, 1);
    le32(&mut t, 26);
    le16(&mut t, 2);
    let data_at = 26 + 2 + 24 + 4;
    entry(&mut t, 0x0201, 4, 1, data_at);
    entry(&mut t, 0x0202, 4, 1, preview.len() as u32);
    le32(&mut t, 0);
    t.extend_from_slice(preview);
    t
}

fn read_exif(bytes: &[u8]) -> Option<ExifFields> {
    let e = exif::Reader::new().read_from_container(&mut std::io::Cursor::new(bytes)).ok()?;
    Some(read_exif_fields(&e))
}

fn ingest(path: &str, bytes: &[u8], created: i64, catalog: &Catalog) -> ProcessedInfo {
    let file = FileInfo { path: path.to_string() };
    let fields = read_exif(bytes);
    let metadata = extract_exif_metadata(fields.as_ref());
    let time = local_file_time(created);
    let plan = plan_file(&file, catalog, &metadata, time, time).unwrap();
    let preview_at = fields.as_ref().and_then(locate_preview);
    let name = plan.data_dest_path.rsplit('/').next().unwrap().to_string();
    let ext = extension_of(&name);
    let family = classify_extension(&ext);
    let step = generate_thumbnail(family, is_dng_extension(&ext), bytes, preview_at, 2048, 6);
    let written = matches!(step, ThumbnailStep::Jpeg(_));
    processed_info(&file, plan, metadata, written)
}

fn key_of(secs: i64) -> String {
    Local.timestamp_opt(secs, 0).unwrap().format("%Y%m%d%H").to_string()
}

#[test]
fn end_to_end_three_files_then_rerun() {
    let catalog = Catalog { data_path: "/data".to_string(), thumbnail_path: "/thumbs".to_string() };
    let jpeg = jpeg_with_date(40, 30, "2023:05:01 10:00:00");
    let dng = dng_with_preview(&plain_jpeg(64, 48));
    let mov = b"\0\0\0\x14ftypqt  not really a movie".to_vec();
    let created: i64 = 1_700_000_000;

    let records = vec![
        ingest("/src/a/photo.jpg", &jpeg, created, &catalog),
        ingest("/src/b/raw.dng", &dng, created, &catalog),
        ingest("/src/c/clip.mov", &mov, created, &catalog),
    ];
    assert_eq!(records[0].datetime_indexed, "2023050110");
    assert_eq!(records[0].data_dest_path, "/data/2023/05/01/photo.jpg");
    assert_eq!(records[0].thumbnail_dest_path.as_deref(), Some("/thumbs/2023/05/01/photo.jpg"));
    assert_eq!(records[1].datetime_indexed, key_of(created));
    assert!(records[1].thumbnail_dest_path.is_some());
    assert!(records[1].thumbnail_dest_path.as_ref().unwrap().ends_with("/raw.jpg"));
    assert_eq!(records[2].datetime_indexed, key_of(created));
    assert_eq!(records[2].thumbnail_dest_path, None);
    assert_eq!(records.iter().filter(|r| r.thumbnail_dest_path.is_some()).count(), 2);

    let mut conn = rusqlite::Connection::open_in_memory().unwrap();
    create_tables(&conn).unwrap();
    let first = save_all_processed_info(&mut conn, &records).unwrap();
    assert_eq!((first.inserted, first.ignored), (3, 0));
    let second = save_all_processed_info(&mut conn, &records).unwrap();
    assert_eq!((second.inserted, second.ignored), (0, 3));
    let rows: i64 = conn.query_row("SELECT COUNT(*) FROM media_items", [], |r| r.get(0)).unwrap();
    assert_eq!(rows, 3);
}

#[test]
fn already_catalogued_file_is_ignored() {
    let catalog = Catalog { data_path: "/d".to_string(), thumbnail_path: "/t".to_string() };
    let jpeg = jpeg_with_date(8, 8, "2021:01:02 03:04:05");
    let record = ingest("/src/one.jpg", &jpeg, 1_600_000_000, &catalog);
    let mut conn = rusqlite::Connection::open_in_memory().unwrap();
    create_tables(&conn).unwrap();
    let first = save_all_processed_info(&mut conn, &vec![record.clone()]).unwrap();
    assert_eq!(first.inserted, 1);
    let again = save_all_processed_info(&mut conn, &vec![record]).unwrap();
    assert_eq!((again.inserted, again.ignored), (0, 1));
    let rows: i64 = conn.query_row("SELECT COUNT(*) FROM media_items", [], |r| r.get(0)).unwrap();
    assert_eq!(rows, 1);
}

#[test]
fn stored_capture_time_and_nulls() {
    let catalog = Catalog { data_path: "/d".to_string(), thumbnail_path: "/t".to_string() };
    let jpeg = jpeg_with_date(8, 8, "2023:05:01 10:00:00");
    let with_date = ingest("/src/x.jpg", &jpeg, 1_600_000_000, &catalog);
    let without = ingest("/src/y.mov", b"movie", 1_600_000_000, &catalog);
    let mut conn = rusqlite::Connection::open_in_memory().unwrap();
    create_tables(&conn).unwrap();
    save_all_processed_info(&mut conn, &vec![with_date, without]).unwrap();
    let stored: Option<String> = conn
        .query_row("SELECT datetime_original FROM media_items WHERE original_path = '/src/x.jpg'", [], |r| r.get(0))
        .unwrap();
    assert!(stored.unwrap().starts_with("2023-05-01T10:00:00"));
    let (date, thumb, make): (Option<String>, Option<String>, Option<String>) = conn
        .query_row(
            "SELECT datetime_original, thumbnail_path, camera_make FROM media_items WHERE original_path = '/src/y.mov'",
            [],
            |r| Ok((r.get(0)?, r.get(1)?, r.get(2)?)),
        )
        .unwrap();
    assert_eq!((date, thumb, make), (None, None, None));
}

#[test]
fn metadata_from_exif_date() {
    let jpeg = jpeg_with_date(8, 8, "2023:05:01 10:00:00");
    let m = extract_exif_metadata(read_exif(&jpeg).as_ref());
    let t = m.datetime_original.unwrap();
    assert_eq!((t.civil.year, t.civil.month, t.civil.day, t.civil.hour), (2023, 5, 1, 10));
    assert_eq!(m.camera_make, None);
    assert_eq!(m.camera_model, None);
}

#[test]
fn metadata_without_exif_is_empty() {
    let m: Metadata = extract_exif_metadata(read_exif(&plain_jpeg(4, 4)).as_ref());
    assert!(m.datetime_original.is_none() && m.camera_make.is_none() && m.camera_model.is_none());
    let n = extract_exif_metadata(None);
    assert!(n.datetime_original.is_none());
}

#[test]
fn metadata_with_unparsable_date_leaves_time_unset() {
    let jpeg = jpeg_with_date(8, 8, "yesterday at noon");
    let m = extract_exif_metadata(read_exif(&jpeg).as_ref());
    assert!(m.datetime_original.is_none());
}

#[test]
fn dng_preview_tier_rescues_failed_demosaic() {
    let preview = plain_jpeg(64, 48);
    let dng = dng_with_preview(&preview);
    let at = read_exif(&dng).as_ref().and_then(locate_preview);
    assert!(at.is_some());
    let step = generate_thumbnail(FormatFamily::CameraRaw, true, &dng, at, 2048, 6);
    match step {
        ThumbnailStep::Jpeg(bytes) => {
            let img = image::load_from_memory(&bytes).unwrap();
            assert_eq!((img.width(), img.height()), (64, 48));
        }
        _ => panic!("expected a preview"),
    }
}

#[test]
fn raw_without_any_tier_asks_conversion_only_for_dng() {
    let junk = vec![1u8, 2, 3, 4, 5, 6, 7, 8];
    assert!(matches!(generate_thumbnail(FormatFamily::CameraRaw, true, &junk, None, 2048, 6), ThumbnailStep::Convert));
    assert!(matches!(generate_thumbnail(FormatFamily::CameraRaw, false, &junk, None, 2048, 6), ThumbnailStep::Skip));
}

#[test]
fn heif_always_asks_for_conversion_and_video_is_skipped() {
    assert!(matches!(generate_thumbnail(FormatFamily::Heif, false, &[], None, 2048, 6), ThumbnailStep::Convert));
    assert!(matches!(generate_thumbnail(FormatFamily::Video, false, &[], None, 2048, 6), ThumbnailStep::Skip));
    assert!(matches!(generate_thumbnail(FormatFamily::Unknown, false, &[], None, 2048, 6), ThumbnailStep::Skip));
}

#[test]
fn broken_standard_image_gets_no_thumbnail() {
    assert!(matches!(
        generate_thumbnail(FormatFamily::Standard, false, b"not a png", None, 2048, 6),
        ThumbnailStep::Skip
    ));
}

#[test]
fn large_standard_image_is_bounded() {
    let jpeg = plain_jpeg(300, 200);
    match generate_thumbnail(FormatFamily::Standard, false, &jpeg, None, 120, 6) {
        ThumbnailStep::Jpeg(bytes) => {
            assert_eq!(&bytes[0..2], &[0xFF, 0xD8]);
            let img = image::load_from_memory(&bytes).unwrap();
            assert_eq!((img.width(), img.height()), (120, 80));
        }
        _ => panic!("expected a preview"),
    }
}

#[test]
fn dng_without_preview_fields_asks_for_conversion() {
    let mut t = Vec::new();
    t.extend_from_slice(b"II");
    le16(&mut t, 42);
    le32(&mut t, 8);
    le16(&mut t, 1);
    entry(&mut t, 0x0100, 3, 1, 1);
    le32(&mut t, 0);
    let at = read_exif(&t).as_ref().and_then(locate_preview);
    assert_eq!(at, None);
    assert!(matches!(generate_thumbnail(FormatFamily::CameraRaw, true, &t, at, 2048, 6), ThumbnailStep::Convert));
}

#[test]
fn metadata_falls_back_to_last_modified_date() {
    let fields = ExifFields {
        date_time_original: None,
        date_time: Some(Some(b"2020:02:03 04:05:06".to_vec())),
        make: Some("Acme".to_string()),
        model: Some("Box 1".to_string()),
        thumb_offset: None,
        thumb_length: None,
        primary_offset: None,
        primary_length: None,
    };
    let m = extract_exif_metadata(Some(&fields));
    let t = m.datetime_original.unwrap();
    assert_eq!((t.civil.year, t.civil.month, t.civil.day, t.civil.hour), (2020, 2, 3, 4));
    assert_eq!(m.camera_make.as_deref(), Some("Acme"));
    assert_eq!(m.camera_model.as_deref(), Some("Box 1"));
    let present_but_not_text = ExifFields { date_time_original: Some(None), ..fields };
    assert!(extract_exif_metadata(Some(&present_but_not_text)).datetime_original.is_none());
}

#[test]
fn failed_batch_rolls_back_and_closes_transaction() {
    let catalog = Catalog { data_path: "/d".to_string(), thumbnail_path: "/t".to_string() };
    let record = ingest("/src/z.mov", b"movie", 1_600_000_000, &catalog);
    let mut conn = rusqlite::Connection::open_in_memory().unwrap();
    assert!(save_all_processed_info(&mut conn, &vec![record.clone()]).is_err());
    assert!(conn.is_autocommit());
    create_tables(&conn).unwrap();
    let s = save_all_processed_info(&mut conn, &vec![record]).unwrap();
    assert_eq!((s.inserted, s.ignored), (1, 0));
}
