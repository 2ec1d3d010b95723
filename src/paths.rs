use vstd::prelude::*;

verus! {

/// `base` and `part` joined by one separator, as a path buffer pushes a relative part.
pub open spec fn join_spec(base: Seq<char>, part: Seq<char>) -> Seq<char> {
    if base.len() == 0 {
        part
    } else if base.last() == '/' {
        base + part
    } else {
        base + seq!['/'] + part
    }
}

/// Joins a relative path part onto a base path.
pub fn join_path(base: &str, part: &str) -> (r: String)
    ensures
        r@ == join_spec(base@, part@),
{
    let n = base.unicode_len();
    let mut s = base.to_owned();
    if n > 0 && base.get_char(n - 1) != '/' {
        proof {
            reveal_strlit("/");
        }
        s.append("/");
    }
    s.append(part);
    proof {
        if n == 0 {
            assert(s@ =~= part@);
        }
    }
    s
}

/// Index of the last `.` in `s`, or -1.
pub open spec fn last_dot(s: Seq<char>) -> int
    decreases s.len(),
{
    if s.len() == 0 {
        -1
    } else if s.last() == '.' {
        s.len() - 1
    } else {
        last_dot(s.drop_last())
    }
}

proof fn lemma_last_dot_bounds(s: Seq<char>)
    ensures
        -1 <= last_dot(s) < s.len(),
        last_dot(s) >= 0 ==> s[last_dot(s)] == '.',
        forall|j: int| last_dot(s) < j < s.len() ==> s[j] != '.',
    decreases s.len(),
{
    if s.len() > 0 && s.last() != '.' {
        let t = s.drop_last();
        lemma_last_dot_bounds(t);
        assert forall|j: int| last_dot(s) < j < s.len() implies s[j] != '.' by {
            if j < t.len() {
                assert(s[j] == t[j]);
            }
        }
    }
}

/// The file name has an extension: a dot that is neither its first character nor part of `..`.
pub open spec fn has_extension(name: Seq<char>) -> bool {
    name != seq!['.', '.'] && last_dot(name) > 0
}

/// The extension of a file name, without its dot; empty where there is none.
pub open spec fn extension_spec(name: Seq<char>) -> Seq<char> {
    if has_extension(name) {
        name.subrange(last_dot(name) + 1, name.len() as int)
    } else {
        Seq::empty()
    }
}

/// The file name without its extension.
pub open spec fn stem_spec(name: Seq<char>) -> Seq<char> {
    if has_extension(name) {
        name.subrange(0, last_dot(name))
    } else {
        name
    }
}

/// The file name with its extension replaced by `jpg`, or given it where it had none.
pub open spec fn jpg_name_spec(name: Seq<char>) -> Seq<char> {
    stem_spec(name) + seq!['.', 'j', 'p', 'g']
}

fn find_last_dot(name: &str) -> (r: Option<usize>)
    ensures
        r matches Some(d) ==> d == last_dot(name@),
        r is None ==> last_dot(name@) == -1,
        -1 <= last_dot(name@) < name@.len(),
{
    proof {
        lemma_last_dot_bounds(name@);
        assert(name@.subrange(0, name@.len() as int) =~= name@);
    }
    let n = name.unicode_len();
    let mut i: usize = n;
    while i > 0
        invariant
            i <= n == name@.len(),
            last_dot(name@.subrange(0, i as int)) == last_dot(name@),
        decreases i,
    {
        let ghost p = name@.subrange(0, i as int);
        assert(p.drop_last() =~= name@.subrange(0, i - 1));
        if name.get_char(i - 1) == '.' {
            return Some(i - 1);
        }
        i = i - 1;
    }
    assert(name@.subrange(0, 0) =~= Seq::<char>::empty());
    None
}

fn is_dot_dot(name: &str) -> (r: bool)
    ensures
        r == (name@ == seq!['.', '.']),
{
    if name.unicode_len() == 2 && name.get_char(0) == '.' && name.get_char(1) == '.' {
        assert(name@ =~= seq!['.', '.']);
        true
    } else {
        false
    }
}

/// The extension of a file name, without its dot.
pub fn extension_of(name: &str) -> (r: String)
    ensures
        r@ == extension_spec(name@),
{
    let dd = is_dot_dot(name);
    let n = name.unicode_len();
    match find_last_dot(name) {
        Some(d) if !dd && d > 0 => name.substring_char(d + 1, n).to_owned(),
        _ => String::new(),
    }
}

/// The file name with a `jpg` extension in place of its own.
pub fn with_jpg_extension(name: &str) -> (r: String)
    ensures
        r@ == jpg_name_spec(name@),
{
    let dd = is_dot_dot(name);
    let mut s = match find_last_dot(name) {
        Some(d) if !dd && d > 0 => name.substring_char(0, d).to_owned(),
        _ => name.to_owned(),
    };
    assert(s@ == stem_spec(name@));
    proof {
        reveal_strlit(".jpg");
        assert(".jpg"@ =~= seq!['.', 'j', 'p', 'g']);
    }
    s.append(".jpg");
    assert(s@ =~= jpg_name_spec(name@));
    s
}

/// The last component of a path as std's `Path::file_name` reads it.
pub uninterp spec fn file_name_part(path: Seq<char>) -> Option<Seq<char>>;

/// Relies on std's `Path::file_name`: the final component of a path, which holds no
/// separator, or nothing where the path ends in `..` or is a root.
#[verifier::external_body]
pub(crate) fn file_name_of(path: &str) -> (r: Option<String>)
    ensures
        r matches Some(n) ==> Some(n@) == file_name_part(path@) && !n@.contains('/'),
        r is None ==> file_name_part(path@) is None,
{
    std::path::Path::new(path).file_name().map(|n| n.to_string_lossy().into_owned())
}

/// Whether two texts hold the same characters.
pub fn same_text(a: &str, b: &str) -> (r: bool)
    ensures
        r == (a@ == b@),
{
    let n = a.unicode_len();
    if n != b.unicode_len() {
        return false;
    }
    let mut i: usize = 0;
    while i < n
        invariant
            n == a@.len() == b@.len(),
            i <= n,
            forall|j: int| 0 <= j < i ==> a@[j] == b@[j],
        decreases n - i,
    {
        if a.get_char(i) != b.get_char(i) {
            return false;
        }
        i = i + 1;
    }
    assert(a@ =~= b@);
    true
}

} // verus!
