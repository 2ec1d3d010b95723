use casket::config::{catalogs_from_entries, load_config, Catalog, ConfigError, TomlEntry};
use casket::imaging::{jpeg_quality, resize_without_upscaling, save_jpeg_thumbnail};
use casket::metadata::capture_time_from_text;
use casket::paths::{extension_of, join_path, with_jpg_extension};
use casket::processor::{placement_for, plan_file, reference_time, FileInfo, PlanError};
use casket::raster::{raster_from_samples, reduce_to_8bit, Raster};
use casket::raw::{generate_raw_thumbnail, preview_bytes, preview_location};
use casket::thumbnail::{classify_extension, family_from, is_dng_extension, thumbnail_from_converted, FormatFamily};
use casket::timestamp::{
    earliest_candidate, format_datetime_indexed, interchange_text, CivilDateTime, LocalCandidates,
    LocalDateTime,
};
use casket::metadata::Metadata;

fn at(year: i32, month: u32, day: u32, hour: u32, minute: u32, second: u32, offset: i32) -> LocalDateTime {
    LocalDateTime { civil: CivilDateTime { year, month, day, hour, minute, second }, offset_seconds: offset }
}

fn raster(width: u32, height: u32) -> Raster {
    Raster { width, height, pixels: vec![7u8; (3 * width * height) as usize] }
}

#[test]
fn quality_mapping() {
    assert_eq!(jpeg_quality(1), 10);
    assert_eq!(jpeg_quality(6), 60);
    assert_eq!(jpeg_quality(10), 100);
    assert_eq!(jpeg_quality(25), 100);
    assert_eq!(jpeg_quality(255), 100);
}

#[test]
fn small_image_keeps_its_size() {
    let r = resize_without_upscaling(raster(100, 50), 2048);
    assert_eq!((r.width, r.height), (100, 50));
    let r = resize_without_upscaling(raster(2048, 10), 2048);
    assert_eq!((r.width, r.height), (2048, 10));
}

#[test]
fn large_image_long_edge_meets_bound() {
    let r = resize_without_upscaling(raster(400, 300), 200);
    assert_eq!((r.width, r.height), (200, 150));
    let r = resize_without_upscaling(raster(300, 400), 200);
    assert_eq!((r.width, r.height), (150, 200));
    let r = resize_without_upscaling(raster(500, 500), 100);
    assert_eq!((r.width, r.height), (100, 100));
    let r = resize_without_upscaling(raster(300, 100), 200);
    assert_eq!((r.width, r.height), (200, 67));
    let r = resize_without_upscaling(raster(1000, 3), 100);
    assert_eq!(r.width, 100);
    assert_eq!(r.height, 1);
    assert_eq!(r.pixels.len(), 3 * 100);
}

#[test]
fn encoded_thumbnail_is_a_jpeg() {
    let bytes = save_jpeg_thumbnail(raster(10, 10), 2048, 1).unwrap();
    assert_eq!(&bytes[0..2], &[0xFF, 0xD8]);
    let again = thumbnail_from_converted(&bytes, 4, 6).unwrap();
    let img = image::load_from_memory(&again).unwrap();
    assert_eq!((img.width(), img.height()), (4, 4));
    assert!(thumbnail_from_converted(b"garbage", 4, 6).is_none());
}

#[test]
fn families_by_extension() {
    assert_eq!(classify_extension("jpg"), FormatFamily::Standard);
    assert_eq!(classify_extension("PNG"), FormatFamily::Standard);
    assert_eq!(classify_extension("tiff"), FormatFamily::Standard);
    assert_eq!(classify_extension("NEF"), FormatFamily::CameraRaw);
    assert_eq!(classify_extension("dng"), FormatFamily::CameraRaw);
    assert_eq!(classify_extension("Cr2"), FormatFamily::CameraRaw);
    assert_eq!(classify_extension("HEIC"), FormatFamily::Heif);
    assert_eq!(classify_extension("heif"), FormatFamily::Heif);
    assert_eq!(classify_extension("MOV"), FormatFamily::Video);
    assert_eq!(classify_extension("mts"), FormatFamily::Video);
    assert_eq!(classify_extension("txt"), FormatFamily::Unknown);
    assert_eq!(classify_extension(""), FormatFamily::Unknown);
    assert_eq!(family_from(true, "nef"), FormatFamily::Standard);
    assert_eq!(family_from(false, "arw"), FormatFamily::CameraRaw);
    assert!(is_dng_extension("DNG"));
    assert!(!is_dng_extension("nef"));
}

#[test]
fn samples_and_high_bytes() {
    assert_eq!(reduce_to_8bit(&vec![0x1234, 0x00ff, 0xff00]), vec![0x12, 0x00, 0xff]);
    assert!(raster_from_samples(2, 1, vec![0; 6]).is_some());
    assert!(raster_from_samples(2, 1, vec![0; 5]).is_none());
    assert!(raster_from_samples(2, 1, vec![0; 7]).is_none());
}

#[test]
fn preview_location_prefers_thumbnail_directory() {
    assert_eq!(preview_location(Some(10), Some(20), Some(30), Some(40)), Some((10, 20)));
    assert_eq!(preview_location(None, Some(20), Some(30), Some(40)), Some((30, 20)));
    assert_eq!(preview_location(None, None, Some(30), Some(40)), Some((30, 40)));
    assert_eq!(preview_location(Some(1), None, None, None), None);
    assert_eq!(preview_bytes(&[1, 2, 3, 4, 5], Some((1, 3))), Some(vec![2, 3, 4]));
    assert_eq!(preview_bytes(&[1, 2, 3, 4, 5], Some((3, 3))), None);
    assert_eq!(preview_bytes(&[1, 2, 3], None), None);
}

#[test]
fn raw_chain_on_junk_yields_nothing() {
    assert!(generate_raw_thumbnail(&[0u8; 16], None).is_none());
}

#[test]
fn paths_join_and_extensions() {
    assert_eq!(join_path("a", "b"), "a/b");
    assert_eq!(join_path("a/", "b"), "a/b");
    assert_eq!(join_path("", "b"), "b");
    assert_eq!(extension_of("photo.JPG"), "JPG");
    assert_eq!(extension_of("a.tar.gz"), "gz");
    assert_eq!(extension_of(".hidden"), "");
    assert_eq!(extension_of("noext"), "");
    assert_eq!(extension_of(".."), "");
    assert_eq!(with_jpg_extension("IMG_1.dng"), "IMG_1.jpg");
    assert_eq!(with_jpg_extension("noext"), "noext.jpg");
    assert_eq!(with_jpg_extension(".hidden"), ".hidden.jpg");
}

#[test]
fn timestamps_format() {
    let t = at(2023, 5, 1, 10, 0, 0, 9 * 3600);
    assert_eq!(format_datetime_indexed(&t), "2023050110");
    assert_eq!(interchange_text(&t), "2023-05-01T10:00:00+09:00");
    assert_eq!(interchange_text(&at(2001, 12, 31, 23, 59, 58, 0)), "2001-12-31T23:59:58Z");
    assert_eq!(interchange_text(&at(987, 1, 2, 3, 4, 5, -12600)), "0987-01-02T03:04:05-03:30");
}

#[test]
fn ambiguous_local_time_takes_earlier_instant() {
    let a = at(2023, 11, 5, 1, 30, 0, -4 * 3600);
    let b = at(2023, 11, 5, 1, 30, 0, -5 * 3600);
    assert_eq!(earliest_candidate(LocalCandidates::Ambiguous(a, b)), Some(a));
    assert_eq!(earliest_candidate(LocalCandidates::Ambiguous(b, a)), Some(a));
    assert_eq!(earliest_candidate(LocalCandidates::Single(b)), Some(b));
    assert_eq!(earliest_candidate(LocalCandidates::Absent), None);
}

#[test]
fn capture_time_text() {
    let t = capture_time_from_text(b" 2023:05:01 10:00:00 ").unwrap();
    assert_eq!((t.civil.year, t.civil.month, t.civil.day, t.civil.hour, t.civil.minute), (2023, 5, 1, 10, 0));
    assert!(capture_time_from_text(b"2023-05-01 10:00:00").is_none());
    assert!(capture_time_from_text(b"2023:13:01 10:00:00").is_none());
    assert!(capture_time_from_text(&[0xff, 0xfe]).is_none());
}

#[test]
fn reference_time_priority() {
    let c = at(2020, 1, 1, 0, 0, 0, 0);
    let k = at(2021, 1, 1, 0, 0, 0, 0);
    let m = at(2022, 1, 1, 0, 0, 0, 0);
    assert_eq!(reference_time(Some(c), Some(k), Some(m)), Some(c));
    assert_eq!(reference_time(None, Some(k), Some(m)), Some(k));
    assert_eq!(reference_time(None, None, Some(m)), Some(m));
    assert_eq!(reference_time(None, None, None), None);
    let far = at(12000, 1, 1, 0, 0, 0, 0);
    assert_eq!(reference_time(None, Some(far), Some(m)), Some(m));
}

#[test]
fn placement_in_date_trees() {
    let catalog = Catalog { data_path: "/lib/data/".to_string(), thumbnail_path: "/lib/thumbs".to_string() };
    let p = placement_for(&at(2019, 7, 4, 8, 0, 0, 0), "DSC_0001.NEF", &catalog);
    assert_eq!(p.data_dest_dir, "/lib/data/2019/07/04");
    assert_eq!(p.thumbnail_dest_dir, "/lib/thumbs/2019/07/04");
    assert_eq!(p.data_dest_path, "/lib/data/2019/07/04/DSC_0001.NEF");
    assert_eq!(p.thumbnail_dest_path, "/lib/thumbs/2019/07/04/DSC_0001.jpg");
    assert_eq!(p.datetime_indexed, "2019070408");
}

#[test]
fn plan_uses_capture_time_and_rejects_nameless_paths() {
    let catalog = Catalog { data_path: "/d".to_string(), thumbnail_path: "/t".to_string() };
    let metadata = Metadata { datetime_original: Some(at(2023, 5, 1, 10, 0, 0, 0)), camera_make: None, camera_model: None };
    let p = plan_file(&FileInfo { path: "/src/x.jpg".to_string() }, &catalog, &metadata, None, None).unwrap();
    assert_eq!(p.datetime_indexed, "2023050110");
    assert_eq!(p.data_dest_path, "/d/2023/05/01/x.jpg");
    let e = plan_file(&FileInfo { path: "/".to_string() }, &catalog, &metadata, None, None);
    assert_eq!(e.unwrap_err(), PlanError::MissingFileName);
    let empty = Metadata::empty();
    let now = plan_file(&FileInfo { path: "/src/y.mov".to_string() }, &catalog, &empty, None, None).unwrap();
    assert_eq!(now.datetime_indexed.len(), 10);
}

#[test]
fn config_loading() {
    let empty = load_config(None).unwrap();
    assert!(empty.catalogs.is_empty());
    let text = "[main]\ndata_path = \"/d\"\nthumbnail_path = \"/t\"\nextra = 3\n\n[other]\ndata_path = \"/d2\"\nthumbnail_path = \"/t2\"\n";
    let config = load_config(Some(text)).unwrap();
    assert_eq!(config.catalogs.len(), 2);
    let main = config.get("main").unwrap();
    assert_eq!((main.data_path.as_str(), main.thumbnail_path.as_str()), ("/d", "/t"));
    assert_eq!(config.get("other").unwrap().data_path, "/d2");
    assert!(config.get("missing").is_none());
    assert!(matches!(load_config(Some("[[[")), Err(ConfigError::Syntax)));
    match load_config(Some("[x]\ndata_path = \"/d\"\n")) {
        Err(ConfigError::InvalidCatalog(name)) => assert_eq!(name, "x"),
        _ => panic!("expected an invalid catalog"),
    }
    match load_config(Some("x = 1\n")) {
        Err(ConfigError::InvalidCatalog(name)) => assert_eq!(name, "x"),
        _ => panic!("expected an invalid catalog"),
    }
}

#[test]
fn catalogs_from_entries_checks_types() {
    let entries = vec![(
        "a".to_string(),
        TomlEntry::Table(vec![("data_path".to_string(), Some("/d".to_string())), ("thumbnail_path".to_string(), None)]),
    )];
    assert!(matches!(catalogs_from_entries(&entries), Err(ConfigError::InvalidCatalog(_))));
    let ok = vec![(
        "a".to_string(),
        TomlEntry::Table(vec![
            ("thumbnail_path".to_string(), Some("/t".to_string())),
            ("data_path".to_string(), Some("/d".to_string())),
        ]),
    )];
    assert_eq!(catalogs_from_entries(&ok).unwrap().catalogs[0].1.thumbnail_path, "/t");
}

#[test]
fn default_config_file_location() {
    if let Some(p) = casket::config::default_config_path() {
        assert!(p.ends_with("/casket/catalogs.toml"));
    }
}
