use crate::paths::{join_path, join_spec, same_text};
use vstd::prelude::*;

verus! {

/// The two roots of a named catalog.
#[derive(Clone, Debug)]
pub struct Catalog {
    /// Where copies of the original files go.
    pub data_path: String,
    /// Where thumbnails go, and the catalog database beside them.
    pub thumbnail_path: String,
}

/// The named catalogs of the configuration, sorted by name as toml's table keeps its keys;
/// each name occurs once.
#[derive(Clone, Debug)]
pub struct Config {
    pub catalogs: Vec<(String, Catalog)>,
}

/// Why a configuration could not be read.
#[derive(Clone, Debug)]
pub enum ConfigError {
    /// The text is not a TOML document.
    Syntax,
    /// The named entry is not a table holding `data_path` and `thumbnail_path` as text.
    InvalidCatalog(String),
}

/// A top-level entry of a TOML document.
#[derive(Clone, Debug)]
pub enum TomlEntry {
    /// A table, with each key's value where it is text.
    Table(Vec<(String, Option<String>)>),
    /// Any value that is not a table.
    Other,
}

/// A table's fields as plain values: each key with its value where that is text.
pub type FieldsView = Seq<(Seq<char>, Option<Seq<char>>)>;

/// A top-level entry as plain values: its key, and its fields where it is a table.
pub type EntryView = (Seq<char>, Option<FieldsView>);

/// The top-level entries that toml reads from a document, where it parses.
pub uninterp spec fn toml_entries_of(text: Seq<char>) -> Option<Seq<EntryView>>;

pub open spec fn opt_text(o: Option<String>) -> Option<Seq<char>> {
    match o {
        Some(s) => Some(s@),
        None => None,
    }
}

pub open spec fn fields_view(fields: Seq<(String, Option<String>)>) -> FieldsView {
    fields.map_values(|x: (String, Option<String>)| (x.0@, opt_text(x.1)))
}

pub open spec fn entry_view(e: (String, TomlEntry)) -> EntryView {
    (e.0@, match e.1 {
        TomlEntry::Table(f) => Some(fields_view(f@)),
        TomlEntry::Other => None,
    })
}

pub open spec fn entries_view(v: Seq<(String, TomlEntry)>) -> Seq<EntryView> {
    v.map_values(|e: (String, TomlEntry)| entry_view(e))
}

/// No two entries share a key.
pub open spec fn keys_distinct(entries: Seq<EntryView>) -> bool {
    forall|i: int, j: int| 0 <= i < j < entries.len() ==> (#[trigger] entries[i]).0 != (#[trigger] entries[j]).0
}

/// Relies on toml's `from_str` into a `toml::Table` and on `Value::as_str`: the top-level
/// entries of a document, where it parses; they depend on the text alone, and a table holds
/// each key once.
#[verifier::external_body]
fn parse_toml_entries(text: &str) -> (r: Option<Vec<(String, TomlEntry)>>)
    ensures
        r matches Some(v) ==> toml_entries_of(text@) == Some(entries_view(v@)),
        r matches Some(v) ==> keys_distinct(entries_view(v@)),
        r is None ==> toml_entries_of(text@) is None,
{
    let table: toml::Table = toml::from_str(text).ok()?;
    Some(table.into_iter().map(|(k, v)| {
        let entry = match v {
            toml::Value::Table(t) => TomlEntry::Table(
                t.into_iter().map(|(f, x)| (f, x.as_str().map(String::from))).collect(),
            ),
            _ => TomlEntry::Other,
        };
        (k, entry)
    }).collect())
}

/// The value of the first field with a key: absent, not text, or text.
pub open spec fn field_spec(fields: FieldsView, key: Seq<char>) -> Option<Option<Seq<char>>>
    decreases fields.len(),
{
    if fields.len() == 0 {
        None
    } else if fields[0].0 == key {
        Some(fields[0].1)
    } else {
        field_spec(fields.drop_first(), key)
    }
}

fn field_value(fields: &Vec<(String, Option<String>)>, key: &str) -> (r: Option<Option<String>>)
    ensures
        r matches Some(v) ==> field_spec(fields_view(fields@), key@) == Some(opt_text(v)),
        r is None ==> field_spec(fields_view(fields@), key@) is None,
{
    let ghost fv = fields_view(fields@);
    let mut i: usize = 0;
    assert(fv.subrange(0, fv.len() as int) =~= fv);
    while i < fields.len()
        invariant
            i <= fields@.len() == fv.len(),
            fv == fields_view(fields@),
            field_spec(fv, key@) == field_spec(fv.subrange(i as int, fv.len() as int), key@),
        decreases fields@.len() - i,
    {
        let ghost rest = fv.subrange(i as int, fv.len() as int);
        assert(rest.drop_first() =~= fv.subrange(i + 1, fv.len() as int));
        if same_text(fields[i].0.as_str(), key) {
            return Some(clone_text(&fields[i].1));
        }
        i = i + 1;
    }
    None
}

fn clone_text(s: &Option<String>) -> (r: Option<String>)
    ensures
        r == *s,
{
    match s {
        Some(x) => Some(x.clone()),
        None => None,
    }
}

/// The catalog that an entry describes, where it is a table with both roots as text.
pub open spec fn catalog_spec(e: Option<FieldsView>) -> Option<(Seq<char>, Seq<char>)> {
    match e {
        Some(fields) => match (field_spec(fields, "data_path"@), field_spec(fields, "thumbnail_path"@)) {
            (Some(Some(d)), Some(Some(t))) => Some((d, t)),
            _ => None,
        },
        None => None,
    }
}

fn catalog_from_entry(e: &(String, TomlEntry)) -> (r: Option<Catalog>)
    ensures
        r matches Some(c) ==> catalog_spec(entry_view(*e).1) == Some((c.data_path@, c.thumbnail_path@)),
        r is None ==> catalog_spec(entry_view(*e).1) is None,
{
    match &e.1 {
        TomlEntry::Table(fields) => {
            match (field_value(fields, "data_path"), field_value(fields, "thumbnail_path")) {
                (Some(Some(d)), Some(Some(t))) => Some(Catalog { data_path: d, thumbnail_path: t }),
                _ => None,
            }
        },
        TomlEntry::Other => None,
    }
}

/// The configuration holds, in order, one catalog for each of the entries.
pub open spec fn config_matches(c: Config, entries: Seq<EntryView>) -> bool {
    &&& c.catalogs@.len() == entries.len()
    &&& forall|i: int| 0 <= i < entries.len() ==> {
        &&& (#[trigger] c.catalogs@[i]).0@ == entries[i].0
        &&& catalog_spec(entries[i].1) == Some((c.catalogs@[i].1.data_path@, c.catalogs@[i].1.thumbnail_path@))
    }
}

/// Every entry describes a catalog.
pub open spec fn all_catalogs(entries: Seq<EntryView>) -> bool {
    forall|i: int| 0 <= i < entries.len() ==> (#[trigger] catalog_spec(entries[i].1)) is Some
}

/// Builds the configuration from the top-level entries of its document: every entry must
/// be a catalog, and the first that is not is named in the error.
pub fn catalogs_from_entries(entries: &Vec<(String, TomlEntry)>) -> (r: Result<Config, ConfigError>)
    ensures
        r matches Ok(c) ==> config_matches(c, entries_view(entries@)),
        r is Ok <==> all_catalogs(entries_view(entries@)),
        r matches Err(ConfigError::InvalidCatalog(name)) ==> exists|i: int| 0 <= i < entries@.len()
            && entries_view(entries@)[i].0 == name@ && catalog_spec(entries_view(entries@)[i].1) is None
            && forall|j: int| 0 <= j < i ==> (#[trigger] catalog_spec(entries_view(entries@)[j].1)) is Some,
        !(r matches Err(ConfigError::Syntax)),
{
    let ghost ev = entries_view(entries@);
    let mut catalogs: Vec<(String, Catalog)> = Vec::new();
    let mut i: usize = 0;
    while i < entries.len()
        invariant
            i <= entries@.len() == ev.len(),
            ev == entries_view(entries@),
            catalogs@.len() == i,
            forall|j: int| 0 <= j < i ==> (#[trigger] catalog_spec(ev[j].1)) is Some,
            forall|j: int| 0 <= j < i ==> {
                &&& (#[trigger] catalogs@[j]).0@ == ev[j].0
                &&& catalog_spec(ev[j].1) == Some((catalogs@[j].1.data_path@, catalogs@[j].1.thumbnail_path@))
            },
        decreases entries@.len() - i,
    {
        assert(ev[i as int] == entry_view(entries@[i as int]));
        match catalog_from_entry(&entries[i]) {
            Some(c) => {
                catalogs.push((entries[i].0.clone(), c));
            },
            None => {
                return Err(ConfigError::InvalidCatalog(entries[i].0.clone()));
            },
        }
        i = i + 1;
    }
    let c = Config { catalogs };
    assert(config_matches(c, ev));
    Ok(c)
}

/// Reads the configuration from the text of its file; a missing file is an empty
/// configuration.
pub fn load_config(content: Option<&str>) -> (r: Result<Config, ConfigError>)
    ensures
        content is None ==> (r matches Ok(c) && c.catalogs@.len() == 0),
        content matches Some(t) ==> (toml_entries_of(t@) is None <==> r matches Err(ConfigError::Syntax)),
        content matches Some(t) ==> (toml_entries_of(t@) matches Some(ev) ==> (
            (r is Ok <==> all_catalogs(ev)) && (r matches Ok(c) ==> config_matches(c, ev)))),
        r matches Ok(c) ==> c.names_distinct(),
{
    match content {
        None => Ok(Config { catalogs: Vec::new() }),
        Some(text) => match parse_toml_entries(text) {
            Some(entries) => {
                let r = catalogs_from_entries(&entries);
                proof {
                    if r is Ok {
                        let c = r->Ok_0;
                        let ev = entries_view(entries@);
                        assert forall|i: int, j: int| 0 <= i < j < c.catalogs@.len() implies
                            (#[trigger] c.catalogs@[i]).0@ != (#[trigger] c.catalogs@[j]).0@ by {
                            assert(ev[i].0 != ev[j].0);
                        }
                    }
                }
                r
            },
            None => Err(ConfigError::Syntax),
        },
    }
}

impl Config {
    /// Each name occurs once.
    pub open spec fn names_distinct(self) -> bool {
        forall|i: int, j: int| 0 <= i < j < self.catalogs@.len()
            ==> (#[trigger] self.catalogs@[i]).0@ != (#[trigger] self.catalogs@[j]).0@
    }

    /// The catalog with a name, the first where several share it.
    pub fn get(&self, name: &str) -> (r: Option<&Catalog>)
        ensures
            r is None <==> forall|i: int| 0 <= i < self.catalogs@.len() ==> self.catalogs@[i].0@ != name@,
            r matches Some(c) ==> exists|i: int| 0 <= i < self.catalogs@.len()
                && self.catalogs@[i].0@ == name@ && *c == self.catalogs@[i].1
                && forall|j: int| 0 <= j < i ==> self.catalogs@[j].0@ != name@,
    {
        let mut i: usize = 0;
        while i < self.catalogs.len()
            invariant
                i <= self.catalogs@.len(),
                forall|j: int| 0 <= j < i ==> self.catalogs@[j].0@ != name@,
            decreases self.catalogs@.len() - i,
        {
            if same_text(self.catalogs[i].0.as_str(), name) {
                return Some(&self.catalogs[i].1);
            }
            i = i + 1;
        }
        None
    }
}

/// Relies on dirs' `config_dir`: the user's configuration directory, where the platform
/// has one; it depends on the environment.
#[verifier::external_body]
fn config_dir() -> (r: Option<String>) {
    dirs::config_dir().map(|p| p.to_string_lossy().into_owned())
}

/// The configuration file `casket/catalogs.toml` under the user's configuration directory.
pub fn default_config_path() -> (r: Option<String>)
    ensures
        r matches Some(p) ==> exists|d: Seq<char>| p@ == #[trigger] config_file_spec(d),
{
    match config_dir() {
        Some(d) => Some(config_file_under(d.as_str())),
        None => None,
    }
}

/// The configuration file under a configuration directory.
pub open spec fn config_file_spec(dir: Seq<char>) -> Seq<char> {
    join_spec(join_spec(dir, "casket"@), "catalogs.toml"@)
}

/// The path of the configuration file `casket/catalogs.toml` under a configuration directory.
pub fn config_file_under(dir: &str) -> (r: String)
    ensures
        r@ == config_file_spec(dir@),
{
    let app = join_path(dir, "casket");
    join_path(app.as_str(), "catalogs.toml")
}

} // verus!
