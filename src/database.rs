use crate::config::opt_text;
use crate::processor::ProcessedInfo;
use crate::timestamp::{interchange_spec, interchange_text};
use vstd::prelude::*;

verus! {

#[verifier::external_type_specification]
#[verifier::external_body]
pub struct ExConnection(rusqlite::Connection);

#[verifier::external_type_specification]
#[verifier::external_body]
pub struct ExError(rusqlite::Error);

/// The text columns of a catalog row: data path, thumbnail path, capture time, index key,
/// camera make and camera model; `None` stands for null.
pub type RowView = (
    Seq<char>,
    Option<Seq<char>>,
    Option<Seq<char>>,
    Seq<char>,
    Option<Seq<char>>,
    Option<Seq<char>>,
);

/// The rows of the `media_items` table as a connection sees them, keyed by original path:
/// each with its identifier, its text columns and its import time.
pub uninterp spec fn catalog_rows(conn: rusqlite::Connection) -> Map<Seq<char>, (i64, RowView, Seq<char>)>;

/// The rows of the `media_items` table that the database file holds outside the
/// connection's open transaction; with no transaction open, the rows the connection sees.
pub uninterp spec fn committed_rows(conn: rusqlite::Connection) -> Map<Seq<char>, (i64, RowView, Seq<char>)>;

/// Whether the connection has a transaction open.
pub uninterp spec fn transaction_open(conn: rusqlite::Connection) -> bool;

/// The values of one row of the catalog table, as text.
#[derive(Clone, Debug)]
pub struct CatalogRow {
    pub original_path: String,
    pub data_path: String,
    pub thumbnail_path: Option<String>,
    pub datetime_original: Option<String>,
    pub datetime_indexed: String,
    pub camera_make: Option<String>,
    pub camera_model: Option<String>,
}

impl CatalogRow {
    pub open spec fn columns(self) -> RowView {
        (
            self.data_path@,
            opt_text(self.thumbnail_path),
            opt_text(self.datetime_original),
            self.datetime_indexed@,
            opt_text(self.camera_make),
            opt_text(self.camera_model),
        )
    }
}

/// The counts of one committed batch: new rows, and records skipped because their original
/// path was already catalogued or came earlier in the batch.
#[derive(Clone, Copy, Debug, PartialEq, Eq)]
pub struct BatchSummary {
    pub inserted: usize,
    pub ignored: usize,
}

/// The statement that creates the catalog table where it does not exist.
pub const CREATE_TABLE_SQL: &'static str = "CREATE TABLE IF NOT EXISTS media_items (
    id INTEGER PRIMARY KEY AUTOINCREMENT,
    original_path TEXT NOT NULL UNIQUE,
    data_path TEXT NOT NULL,
    thumbnail_path TEXT,
    datetime_original TEXT,
    datetime_indexed TEXT NOT NULL,
    camera_make TEXT,
    camera_model TEXT,
    imported_at TEXT NOT NULL DEFAULT CURRENT_TIMESTAMP
)";

/// The statement that adds a row unless its original path is already catalogued.
pub const INSERT_SQL: &'static str = "INSERT OR IGNORE INTO media_items (
    original_path, data_path, thumbnail_path,
    datetime_original, datetime_indexed, camera_make, camera_model
) VALUES (?1, ?2, ?3, ?4, ?5, ?6, ?7)";

/// Relies on rusqlite's `Connection::execute` with the statement that creates the catalog
/// table where it does not exist; it adds no rows.
#[verifier::external_body]
fn execute_create_table(conn: &rusqlite::Connection, sql: &str) -> (r: Result<usize, rusqlite::Error>)
    requires
        sql@ == CREATE_TABLE_SQL@,
{
    conn.execute(sql, [])
}

/// Creates the catalog table where it does not exist yet.
pub fn create_tables(conn: &rusqlite::Connection) -> (r: Result<(), rusqlite::Error>) {
    match execute_create_table(conn, CREATE_TABLE_SQL) {
        Ok(_) => Ok(()),
        Err(e) => Err(e),
    }
}

/// Relies on rusqlite's `Connection::execute_batch` for `BEGIN`, `COMMIT` and `ROLLBACK`.
/// A successful `BEGIN` opens a transaction, which it can only do where none was open, and
/// changes no rows; a failed one changes nothing. A successful `COMMIT` makes the rows that
/// the connection sees durable and closes the transaction; a failed one leaves the durable
/// rows as they were and may roll the open transaction back, which only removes rows that it
/// added. `ROLLBACK` closes any open transaction, so the connection sees the durable rows.
#[verifier::external_body]
fn execute_batch(conn: &mut rusqlite::Connection, sql: &str) -> (r: Result<(), rusqlite::Error>)
    requires
        sql@ == "BEGIN"@ || sql@ == "COMMIT"@ || sql@ == "ROLLBACK"@,
    ensures
        sql@ == "BEGIN"@ && r is Ok ==> catalog_rows(*final(conn)) == catalog_rows(*old(conn))
            && committed_rows(*final(conn)) == committed_rows(*old(conn))
            && committed_rows(*old(conn)) == catalog_rows(*old(conn))
            && transaction_open(*final(conn)),
        sql@ == "BEGIN"@ && r is Err ==> catalog_rows(*final(conn)) == catalog_rows(*old(conn))
            && committed_rows(*final(conn)) == committed_rows(*old(conn)),
        sql@ == "COMMIT"@ && r is Ok ==> catalog_rows(*final(conn)) == catalog_rows(*old(conn))
            && committed_rows(*final(conn)) == catalog_rows(*old(conn))
            && !transaction_open(*final(conn)),
        sql@ == "COMMIT"@ && r is Err ==> catalog_rows(*final(conn)).dom().subset_of(
            catalog_rows(*old(conn)).dom(),
        ) && committed_rows(*final(conn)) == committed_rows(*old(conn)),
        sql@ == "ROLLBACK"@ ==> catalog_rows(*final(conn)) == committed_rows(*old(conn))
            && committed_rows(*final(conn)) == committed_rows(*old(conn))
            && !transaction_open(*final(conn)),
{
    conn.execute_batch(sql)
}

/// Relies on rusqlite's `Connection::execute`, which returns the number of rows changed, with
/// the `INSERT OR IGNORE` statement: where the original path is already there nothing
/// changes and no row counts; otherwise one row with the given columns is added. A failed
/// statement adds nothing and may roll the open transaction back. Inside an open
/// transaction the durable rows do not change.
#[verifier::external_body]
fn insert_or_ignore(conn: &mut rusqlite::Connection, sql: &str, row: &CatalogRow) -> (r: Result<usize, rusqlite::Error>)
    requires
        sql@ == INSERT_SQL@,
    ensures
        r matches Ok(n) ==> (n == 0 || n == 1),
        r == Ok::<usize, rusqlite::Error>(0) ==> catalog_rows(*old(conn)).dom().contains(row.original_path@)
            && catalog_rows(*final(conn)) == catalog_rows(*old(conn)),
        r == Ok::<usize, rusqlite::Error>(1) ==> !catalog_rows(*old(conn)).dom().contains(row.original_path@)
            && catalog_rows(*final(conn)) == catalog_rows(*old(conn)).insert(
                row.original_path@,
                catalog_rows(*final(conn))[row.original_path@],
            ) && catalog_rows(*final(conn))[row.original_path@].1 == row.columns(),
        r is Err ==> catalog_rows(*final(conn)).dom().subset_of(catalog_rows(*old(conn)).dom()),
        transaction_open(*old(conn)) ==> committed_rows(*final(conn)) == committed_rows(*old(conn)),
        transaction_open(*old(conn)) && r is Ok ==> transaction_open(*final(conn)),
{
    conn.execute(
        sql,
        (&row.original_path, &row.data_path, &row.thumbnail_path, &row.datetime_original,
            &row.datetime_indexed, &row.camera_make, &row.camera_model),
    )
}

/// The columns that store a record: paths as they are, the capture time as interchange text,
/// absent fields as null.
pub open spec fn record_columns(info: ProcessedInfo) -> RowView {
    (
        info.data_dest_path@,
        opt_text(info.thumbnail_dest_path),
        match info.metadata.datetime_original {
            Some(t) => Some(interchange_spec(t)),
            None => None,
        },
        info.datetime_indexed@,
        opt_text(info.metadata.camera_make),
        opt_text(info.metadata.camera_model),
    )
}

/// The row that stores a record.
pub fn catalog_row(info: &ProcessedInfo) -> (r: CatalogRow)
    requires
        info.metadata.wf(),
    ensures
        r.original_path@ == info.original_path@,
        r.columns() == record_columns(*info),
{
    let datetime_original = match &info.metadata.datetime_original {
        Some(t) => Some(interchange_text(t)),
        None => None,
    };
    CatalogRow {
        original_path: info.original_path.clone(),
        data_path: info.data_dest_path.clone(),
        thumbnail_path: clone_opt(&info.thumbnail_dest_path),
        datetime_original,
        datetime_indexed: info.datetime_indexed.clone(),
        camera_make: clone_opt(&info.metadata.camera_make),
        camera_model: clone_opt(&info.metadata.camera_model),
    }
}

fn clone_opt(s: &Option<String>) -> (r: Option<String>)
    ensures
        r == *s,
{
    match s {
        Some(x) => Some(x.clone()),
        None => None,
    }
}

/// The original paths of the first `n` records of a batch.
pub open spec fn paths_before(results: Seq<ProcessedInfo>, n: int) -> Set<Seq<char>> {
    Set::new(|p: Seq<char>| exists|j: int| 0 <= j < n && (#[trigger] results[j]).original_path@ == p)
}

/// The original paths of a batch.
pub open spec fn batch_paths(results: Seq<ProcessedInfo>) -> Set<Seq<char>> {
    paths_before(results, results.len() as int)
}

/// No earlier record of the batch has the same original path.
pub open spec fn first_of_its_path(results: Seq<ProcessedInfo>, i: int) -> bool {
    forall|j: int| 0 <= j < i ==> (#[trigger] results[j]).original_path@ != results[i].original_path@
}

proof fn lemma_paths_step(results: Seq<ProcessedInfo>, i: int)
    requires
        0 <= i < results.len(),
    ensures
        paths_before(results, i + 1) == paths_before(results, i).insert(results[i].original_path@),
{
    let a = paths_before(results, i + 1);
    let b = paths_before(results, i).insert(results[i].original_path@);
    assert forall|p: Seq<char>| a.contains(p) implies b.contains(p) by {
        let j = choose|j: int| 0 <= j < i + 1 && (#[trigger] results[j]).original_path@ == p;
        if j < i {
            assert(paths_before(results, i).contains(p));
        }
    }
    assert forall|p: Seq<char>| b.contains(p) implies a.contains(p) by {
        if p == results[i].original_path@ {
            assert(results[i].original_path@ == p);
        } else {
            let j = choose|j: int| 0 <= j < i && (#[trigger] results[j]).original_path@ == p;
            assert(results[j].original_path@ == p);
        }
    }
    assert(a =~= b);
}

/// Stores a batch of records in one transaction. A record whose original path is already
/// catalogued, or came earlier in the batch, is skipped and leaves the stored row as it was.
/// Where an insert fails, or the commit does, the transaction is rolled back and the error
/// returned: a batch is stored whole or not at all.
/// Whatever the outcome, the connection is left with no transaction of its own open.
pub fn save_all_processed_info(conn: &mut rusqlite::Connection, results: &Vec<ProcessedInfo>) -> (r: Result<BatchSummary, rusqlite::Error>)
    requires
        forall|i: int| 0 <= i < results@.len() ==> (#[trigger] results@[i]).metadata.wf(),
    ensures
        r matches Ok(s) ==> s.inserted + s.ignored == results@.len(),
        r matches Ok(s) ==> s.inserted == batch_paths(results@).difference(catalog_rows(*old(conn)).dom()).len(),
        r is Ok ==> catalog_rows(*final(conn)).dom() == catalog_rows(*old(conn)).dom().union(batch_paths(results@)),
        r is Ok ==> forall|k: Seq<char>| #[trigger] catalog_rows(*old(conn)).dom().contains(k)
            ==> catalog_rows(*final(conn))[k] == catalog_rows(*old(conn))[k],
        r is Ok ==> forall|i: int| 0 <= i < results@.len() && first_of_its_path(results@, i)
            && !catalog_rows(*old(conn)).dom().contains(#[trigger] results@[i].original_path@)
            ==> catalog_rows(*final(conn))[results@[i].original_path@].1 == record_columns(results@[i]),
        batch_paths(results@).subset_of(catalog_rows(*old(conn)).dom()) ==> (r matches Ok(s) ==> s.inserted == 0
            && s.ignored == results@.len() && catalog_rows(*final(conn)) == catalog_rows(*old(conn))),
        r is Ok ==> committed_rows(*final(conn)) == catalog_rows(*final(conn)),
        r is Err ==> committed_rows(*final(conn)) == committed_rows(*old(conn)),
{
    let ghost durable = committed_rows(*conn);
    let ghost start = catalog_rows(*conn);
    proof {
        reveal_strlit("BEGIN");
        reveal_strlit("COMMIT");
        reveal_strlit("ROLLBACK");
    }
    match execute_batch(conn, "BEGIN") {
        Ok(()) => {},
        Err(e) => return Err(e),
    }
    let mut inserted: usize = 0;
    let mut ignored: usize = 0;
    let ghost mut added: Set<Seq<char>> = Set::empty();
    let mut i: usize = 0;
    assert(paths_before(results@, 0) =~= Set::<Seq<char>>::empty());
    assert(catalog_rows(*conn).dom() =~= start.dom().union(paths_before(results@, 0)));
    assert(added =~= catalog_rows(*conn).dom().difference(start.dom()));
    while i < results.len()
        invariant
            i <= results@.len(),
            forall|k: int| 0 <= k < results@.len() ==> (#[trigger] results@[k]).metadata.wf(),
            inserted + ignored == i,
            catalog_rows(*conn).dom() == start.dom().union(paths_before(results@, i as int)),
            forall|k: Seq<char>| #[trigger] start.dom().contains(k) ==> catalog_rows(*conn)[k] == start[k],
            forall|j: int| 0 <= j < i && first_of_its_path(results@, j)
                && !start.dom().contains(#[trigger] results@[j].original_path@)
                ==> catalog_rows(*conn)[results@[j].original_path@].1 == record_columns(results@[j]),
            added.finite(),
            added.len() == inserted,
            added == catalog_rows(*conn).dom().difference(start.dom()),
            transaction_open(*conn),
            committed_rows(*conn) == durable,
            durable == committed_rows(*old(conn)),
        decreases results@.len() - i,
    {
        let row = catalog_row(&results[i]);
        let ghost cur = catalog_rows(*conn);
        let ghost k = results@[i as int].original_path@;
        proof {
            lemma_paths_step(results@, i as int);
        }
        match insert_or_ignore(conn, INSERT_SQL, &row) {
            Ok(n) => {
                if n > 0 {
                    proof {
                        assert(!start.dom().contains(k));
                        assert forall|j: int| 0 <= j < i implies (#[trigger] results@[j]).original_path@ != k by {
                            assert(paths_before(results@, i as int).contains(results@[j].original_path@));
                        }
                        added = added.insert(k);
                        assert(added =~= catalog_rows(*conn).dom().difference(start.dom()));
                        assert(catalog_rows(*conn).dom() =~= start.dom().union(paths_before(results@, i + 1)));
                    }
                    inserted = inserted + 1;
                } else {
                    proof {
                        assert(catalog_rows(*conn).dom() =~= start.dom().union(paths_before(results@, i + 1)));
                        assert(!first_of_its_path(results@, i as int) || start.dom().contains(k)) by {
                            if !start.dom().contains(k) {
                                assert(paths_before(results@, i as int).contains(k));
                                let j = choose|j: int| 0 <= j < i && (#[trigger] results@[j]).original_path@ == k;
                                assert(results@[j].original_path@ == k);
                            }
                        }
                    }
                    ignored = ignored + 1;
                }
            },
            Err(e) => {
                let _ = execute_batch(conn, "ROLLBACK");
                return Err(e);
            },
        }
        i = i + 1;
    }
    match execute_batch(conn, "COMMIT") {
        Ok(()) => {},
        Err(e) => {
            let _ = execute_batch(conn, "ROLLBACK");
            return Err(e);
        },
    }
    proof {
        assert(added =~= batch_paths(results@).difference(start.dom()));
        if batch_paths(results@).subset_of(start.dom()) {
            assert(added =~= Set::<Seq<char>>::empty());
            assert(catalog_rows(*conn) =~= start);
        }
    }
    Ok(BatchSummary { inserted, ignored })
}

} // verus!
