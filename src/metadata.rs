use crate::exif_fields::ExifFields;
use crate::timestamp::{
    civil_of_fields, earliest_candidate, CivilDateTime, earliest_spec, exif_timestamp_fields, fileable,
    localize, parse_exif_timestamp, LocalCandidates, LocalDateTime,
};
use vstd::prelude::*;

verus! {

/// Capture metadata read from a file; each field is set only where it was read.
#[derive(Clone, Debug)]
pub struct Metadata {
    pub datetime_original: Option<LocalDateTime>,
    pub camera_make: Option<String>,
    pub camera_model: Option<String>,
}

impl Metadata {
    /// Metadata with every field unset.
    pub fn empty() -> (r: Metadata)
        ensures
            r.datetime_original is None,
            r.camera_make is None,
            r.camera_model is None,
    {
        Metadata { datetime_original: None, camera_make: None, camera_model: None }
    }

    /// A capture time, where there is one, is fileable.
    pub open spec fn wf(&self) -> bool {
        self.datetime_original matches Some(t) ==> fileable(t)
    }
}

/// The capture time among the local instants of a wall-clock time: the earlier one, kept
/// only where the catalog can file it.
pub open spec fn select_capture_time_spec(c: LocalCandidates) -> Option<LocalDateTime> {
    match earliest_spec(c) {
        Some(t) => if fileable(t) { Some(t) } else { None },
        None => None,
    }
}

/// Picks the capture time among the local instants of a wall-clock time.
pub fn select_capture_time(c: LocalCandidates) -> (r: Option<LocalDateTime>)
    requires
        c.valid(),
    ensures
        r == select_capture_time_spec(c),
{
    match earliest_candidate(c) {
        Some(t) => {
            if 0 <= t.civil.year && t.civil.year <= 9999 {
                Some(t)
            } else {
                None
            }
        },
        None => None,
    }
}

/// The candidates all show the wall-clock time `c`.
pub open spec fn all_show(cands: LocalCandidates, c: CivilDateTime) -> bool {
    match cands {
        LocalCandidates::Absent => true,
        LocalCandidates::Single(a) => a.civil == c,
        LocalCandidates::Ambiguous(a, b) => a.civil == c && b.civil == c,
    }
}

/// Reads a capture time from the text of an EXIF date field: the wall-clock time that
/// it spells, placed in the machine's time zone; where the zone shows it twice, the earlier
/// instant.
pub fn capture_time_from_text(raw: &[u8]) -> (r: Option<LocalDateTime>)
    ensures
        exif_timestamp_fields(raw@) is None ==> r is None,
        civil_of_fields(exif_timestamp_fields(raw@)) matches Some(c) ==> exists|cands: LocalCandidates|
            cands.valid() && all_show(cands, c) && r == #[trigger] select_capture_time_spec(cands),
        r matches Some(t) ==> Some(t.civil) == civil_of_fields(exif_timestamp_fields(raw@))
            && fileable(t),
{
    match parse_exif_timestamp(raw) {
        Some(c) => {
            let cands = localize(&c);
            let r = select_capture_time(cands);
            assert(cands.valid() && all_show(cands, c) && r == select_capture_time_spec(cands));
            r
        },
        None => None,
    }
}

/// The date text that the capture time is read from: the original date field where it is
/// there, else the last-modified one.
pub open spec fn date_text_spec(f: ExifFields) -> Option<Seq<u8>> {
    let chosen = if f.date_time_original is Some { f.date_time_original } else { f.date_time };
    match chosen {
        Some(Some(t)) => Some(t@),
        _ => None,
    }
}

/// Builds the capture metadata from a file's EXIF fields, where it has any: the capture time
/// from the original date field or, where that field is absent, from the last-modified one;
/// camera make and model as the EXIF reader shows them.
pub fn extract_exif_metadata(fields: Option<&ExifFields>) -> (r: Metadata)
    ensures
        r.wf(),
        fields is None ==> r.datetime_original is None && r.camera_make is None
            && r.camera_model is None,
        fields matches Some(f) ==> r.camera_make == f.make && r.camera_model == f.model,
        fields matches Some(f) ==> (date_text_spec(*f) is None ==> r.datetime_original is None),
        fields matches Some(f) ==> (date_text_spec(*f) matches Some(text) ==> (
            (exif_timestamp_fields(text) is None ==> r.datetime_original is None)
            && (r.datetime_original matches Some(t) ==> Some(t.civil) == civil_of_fields(
                exif_timestamp_fields(text),
            ) && fileable(t))
            && (civil_of_fields(exif_timestamp_fields(text)) matches Some(c) ==> exists|cands: LocalCandidates|
                cands.valid() && all_show(cands, c) && r.datetime_original == #[trigger] select_capture_time_spec(cands)))),
{
    match fields {
        None => Metadata::empty(),
        Some(f) => {
            let date = if f.date_time_original.is_some() {
                &f.date_time_original
            } else {
                &f.date_time
            };
            let datetime_original = match date {
                Some(Some(text)) => capture_time_from_text(text.as_slice()),
                _ => None,
            };
            Metadata {
                datetime_original,
                camera_make: clone_text(&f.make),
                camera_model: clone_text(&f.model),
            }
        },
    }
}

fn clone_text(s: &Option<String>) -> (r: Option<String>)
    ensures
        r == *s,
{
    match s {
        Some(x) => Some(x.clone()),
        None => None,
    }
}

} // verus!
