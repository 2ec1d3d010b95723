use crate::config::Catalog;
use crate::metadata::Metadata;
use crate::paths::{file_name_of, file_name_part, jpg_name_spec, join_path, join_spec, with_jpg_extension};
use crate::timestamp::{
    date_segments, fileable, format_datetime_indexed, indexed_key_spec, 
    local_now, padded, LocalDateTime,
};
use vstd::prelude::*;

verus! {

/// A file found under the source directory.
#[derive(Clone, Debug)]
pub struct FileInfo {
    pub path: String,
}

/// Where a file goes and under which key it is indexed.
#[derive(Clone, Debug)]
pub struct FilePlan {
    pub data_dest_dir: String,
    pub thumbnail_dest_dir: String,
    pub data_dest_path: String,
    /// Where the preview is written, should one be made.
    pub thumbnail_dest_path: String,
    pub datetime_indexed: String,
}

/// Why a file cannot be placed.
#[derive(Clone, Copy, Debug, PartialEq, Eq)]
pub enum PlanError {
    /// The path has no final file name component.
    MissingFileName,
    /// No time that the catalog can file was found, the clock included.
    NoUsableTime,
}

/// The record of a file that was copied into the catalog.
#[derive(Clone, Debug)]
pub struct ProcessedInfo {
    pub original_path: String,
    pub data_dest_path: String,
    pub thumbnail_dest_path: Option<String>,
    pub metadata: Metadata,
    pub datetime_indexed: String,
}

/// The first of capture time, creation time and modification time that the catalog can
/// file.
pub open spec fn reference_time_spec(
    captured: Option<LocalDateTime>,
    created: Option<LocalDateTime>,
    modified: Option<LocalDateTime>,
) -> Option<LocalDateTime> {
    if captured matches Some(t) && fileable(t) {
        captured
    } else if created matches Some(t) && fileable(t) {
        created
    } else if modified matches Some(t) && fileable(t) {
        modified
    } else {
        None
    }
}

fn usable(t: Option<LocalDateTime>) -> (r: bool)
    requires
        t matches Some(x) ==> x.valid(),
    ensures
        r == (t matches Some(x) && fileable(x)),
{
    match t {
        Some(x) => 0 <= x.civil.year && x.civil.year <= 9999,
        None => false,
    }
}

/// Picks the time by which a file is filed and indexed.
pub fn reference_time(
    captured: Option<LocalDateTime>,
    created: Option<LocalDateTime>,
    modified: Option<LocalDateTime>,
) -> (r: Option<LocalDateTime>)
    requires
        captured matches Some(x) ==> x.valid(),
        created matches Some(x) ==> x.valid(),
        modified matches Some(x) ==> x.valid(),
    ensures
        r == reference_time_spec(captured, created, modified),
{
    if usable(captured) {
        captured
    } else if usable(created) {
        created
    } else if usable(modified) {
        modified
    } else {
        None
    }
}

/// The `YYYY/MM/DD` directory of a day under a root.
pub open spec fn day_dir_spec(root: Seq<char>, t: LocalDateTime) -> Seq<char> {
    join_spec(
        join_spec(join_spec(root, padded(t.civil.year as nat, 4)), padded(t.civil.month as nat, 2)),
        padded(t.civil.day as nat, 2),
    )
}

/// The placement of a file with a name, filed at a time, into a catalog.
pub open spec fn placement_matches(p: FilePlan, t: LocalDateTime, name: Seq<char>, c: Catalog) -> bool {
    &&& p.data_dest_dir@ == day_dir_spec(c.data_path@, t)
    &&& p.thumbnail_dest_dir@ == day_dir_spec(c.thumbnail_path@, t)
    &&& p.data_dest_path@ == join_spec(day_dir_spec(c.data_path@, t), name)
    &&& p.thumbnail_dest_path@ == join_spec(day_dir_spec(c.thumbnail_path@, t), jpg_name_spec(name))
    &&& p.datetime_indexed@ == indexed_key_spec(t)
}

/// Places a file with a name, filed at a time, into the catalog's two date trees.
pub fn placement_for(t: &LocalDateTime, file_name: &str, catalog: &Catalog) -> (r: FilePlan)
    requires
        fileable(*t),
    ensures
        placement_matches(r, *t, file_name@, *catalog),
{
    let (y, m, d) = date_segments(t);
    let a = join_path(catalog.data_path.as_str(), y.as_str());
    let a = join_path(a.as_str(), m.as_str());
    let data_dir = join_path(a.as_str(), d.as_str());
    let b = join_path(catalog.thumbnail_path.as_str(), y.as_str());
    let b = join_path(b.as_str(), m.as_str());
    let thumb_dir = join_path(b.as_str(), d.as_str());
    let data_path = join_path(data_dir.as_str(), file_name);
    let jpg = with_jpg_extension(file_name);
    let thumb_path = join_path(thumb_dir.as_str(), jpg.as_str());
    FilePlan {
        data_dest_dir: data_dir,
        thumbnail_dest_dir: thumb_dir,
        data_dest_path: data_path,
        thumbnail_dest_path: thumb_path,
        datetime_indexed: format_datetime_indexed(t),
    }
}

/// Decides where a file goes and its index key. The time used is the capture time, else
/// the file's creation time, else its modification time (where they could be read), else
/// the current time; the copy and the index key both follow it.
pub fn plan_file(
    file: &FileInfo,
    catalog: &Catalog,
    metadata: &Metadata,
    created: Option<LocalDateTime>,
    modified: Option<LocalDateTime>,
) -> (r: Result<FilePlan, PlanError>)
    requires
        metadata.wf(),
        created matches Some(x) ==> x.valid(),
        modified matches Some(x) ==> x.valid(),
    ensures
        r == Err::<FilePlan, PlanError>(PlanError::MissingFileName) <==> file_name_part(file.path@) is None,
        r == Err::<FilePlan, PlanError>(PlanError::NoUsableTime) ==> reference_time_spec(
            metadata.datetime_original,
            created,
            modified,
        ) is None,
        file_name_part(file.path@) matches Some(name) ==> (reference_time_spec(
            metadata.datetime_original,
            created,
            modified,
        ) matches Some(t) ==> (r matches Ok(p) && placement_matches(p, t, name, *catalog))),
        r matches Ok(p) ==> exists|t: LocalDateTime, name: Seq<char>|
            fileable(t) && file_name_part(file.path@) == Some(name)
            && #[trigger] placement_matches(p, t, name, *catalog),
{
    let name = match file_name_of(file.path.as_str()) {
        Some(n) => n,
        None => return Err(PlanError::MissingFileName),
    };
    let t = match reference_time(metadata.datetime_original, created, modified) {
        Some(t) => t,
        None => {
            let now = local_now();
            if !usable(Some(now)) {
                return Err(PlanError::NoUsableTime);
            }
            now
        },
    };
    let p = placement_for(&t, name.as_str(), catalog);
    let r = Ok(p);
    assert(r matches Ok(q) && placement_matches(q, t, name@, *catalog));
    r
}

/// The record of a file placed by `plan`; it names the thumbnail only where one was written.
pub fn processed_info(file: &FileInfo, plan: FilePlan, metadata: Metadata, thumbnail_written: bool) -> (r: ProcessedInfo)
    ensures
        r.original_path == file.path,
        r.data_dest_path == plan.data_dest_path,
        r.thumbnail_dest_path == (if thumbnail_written { Some(plan.thumbnail_dest_path) } else { None::<String> }),
        r.metadata == metadata,
        r.datetime_indexed == plan.datetime_indexed,
{
    ProcessedInfo {
        original_path: file.path.clone(),
        data_dest_path: plan.data_dest_path,
        thumbnail_dest_path: if thumbnail_written { Some(plan.thumbnail_dest_path) } else { None },
        metadata,
        datetime_indexed: plan.datetime_indexed,
    }
}

} // verus!
