//! File access command layer: validate the path against the extension
//! policy, then act on the file store and map failures into the fixed
//! error taxonomy (invalid extension, not found, I/O failure).
//!
//! The store is modeled as a value, `FsModel`, viewed as a map from path to
//! content; the host shell performs the real disk access and feeds its
//! outcome through the same validated logic.

use vstd::prelude::*;
use crate::validation::{ends_with_ignore_ascii_case, lower_char, validate};

verus! {

/// The required suffix of every read target.
pub open spec fn svg_suffix() -> Seq<char> {
    ".svg"@
}

/// The required suffix of every write target.
pub open spec fn tsx_suffix() -> Seq<char> {
    ".tsx"@
}

/// Message for a read of a path that is not an `.svg` file.
pub open spec fn only_svg_message() -> Seq<char> {
    "Only SVG files are allowed"@
}

/// Message for a read of a path that is absent from the store.
pub open spec fn file_not_found_message() -> Seq<char> {
    "File not found"@
}

/// Message for a write to a path that is not a `.tsx` file.
pub open spec fn tsx_extension_message() -> Seq<char> {
    "File must have .tsx extension"@
}

/// A file store as a value: a sequence of path/content entries where a
/// later entry for the same path shadows an earlier one.
pub struct FsModel {
    entries: Vec<(String, String)>,
}

/// The map that a sequence of entries denotes: each entry inserted in order,
/// so the last entry for a path wins.
pub closed spec fn entries_map(s: Seq<(String, String)>) -> Map<Seq<char>, Seq<char>>
    decreases s.len(),
{
    if s.len() == 0 {
        Map::empty()
    } else {
        entries_map(s.drop_last()).insert(s.last().0@, s.last().1@)
    }
}

impl View for FsModel {
    type V = Map<Seq<char>, Seq<char>>;

    closed spec fn view(&self) -> Map<Seq<char>, Seq<char>> {
        entries_map(self.entries@)
    }
}

proof fn lemma_entries_map_found(s: Seq<(String, String)>, k: Seq<char>, i: int)
    requires
        0 <= i < s.len(),
        s[i].0@ == k,
        forall|j: int| i < j < s.len() ==> s[j].0@ != k,
    ensures
        entries_map(s).contains_key(k),
        entries_map(s)[k] == s[i].1@,
    decreases s.len(),
{
    if i == s.len() - 1 {
        assert(s.last() == s[i]);
    } else {
        assert(s.drop_last()[i] == s[i]);
        lemma_entries_map_found(s.drop_last(), k, i);
        assert(s.last().0@ != k);
    }
}

proof fn lemma_entries_map_absent(s: Seq<(String, String)>, k: Seq<char>)
    requires
        forall|j: int| 0 <= j < s.len() ==> s[j].0@ != k,
    ensures
        !entries_map(s).contains_key(k),
    decreases s.len(),
{
    if s.len() > 0 {
        lemma_entries_map_absent(s.drop_last(), k);
    }
}

impl FsModel {
    /// An empty store.
    pub fn new() -> (fs: FsModel)
        ensures
            fs@ == Map::<Seq<char>, Seq<char>>::empty(),
    {
        FsModel { entries: Vec::new() }
    }

    /// The content stored at `path`, or `None` when the store holds no
    /// entry for it.
    fn lookup(&self, path: &String) -> (r: Option<&String>)
        ensures
            r is Some <==> self@.contains_key(path@),
            r is Some ==> r->Some_0@ == self@[path@],
    {
        let mut i: usize = self.entries.len();
        while i > 0
            invariant
                i <= self.entries@.len(),
                forall|j: int| i <= j < self.entries@.len() ==> self.entries@[j].0@ != path@,
            decreases i,
        {
            i = i - 1;
            if self.entries[i].0 == *path {
                proof {
                    lemma_entries_map_found(self.entries@, path@, i as int);
                }
                return Some(&self.entries[i].1);
            }
        }
        proof {
            lemma_entries_map_absent(self.entries@, path@);
        }
        None
    }

    /// Records `content` at `path`, shadowing any earlier entry: the way
    /// state that arose outside this layer's control — a file already on
    /// disk when the host looked — enters the store. No extension policy
    /// applies to pre-existing state; writes made through this layer go
    /// through [`save_tsx_file`] instead.
    pub fn preload(&mut self, path: String, content: String)
        ensures
            final(self)@ == old(self)@.insert(path@, content@),
    {
        let ghost before = self.entries@;
        let ghost k = path@;
        let ghost v = content@;
        self.entries.push((path, content));
        proof {
            assert(self.entries@.drop_last() =~= before);
            assert(entries_map(self.entries@) =~= entries_map(before).insert(k, v));
        }
    }
}

/// The message every rejected read of a non-`.svg` path carries.
pub fn only_svg_error() -> (m: String)
    ensures
        m@ == only_svg_message(),
{
    "Only SVG files are allowed".to_owned()
}

/// The message every read of an absent `.svg` path carries.
pub fn not_found_error() -> (m: String)
    ensures
        m@ == file_not_found_message(),
{
    "File not found".to_owned()
}

/// The message every rejected write to a non-`.tsx` path carries.
pub fn tsx_extension_error() -> (m: String)
    ensures
        m@ == tsx_extension_message(),
{
    "File must have .tsx extension".to_owned()
}

/// Reads the content stored at `path`.
///
/// The path must name an `.svg` file (ASCII-case-insensitively) and be
/// present in the store; otherwise the corresponding failure message is
/// returned, the extension check first, and nothing is touched.
pub fn read_svg_file(fs: &FsModel, path: String) -> (r: Result<String, String>)
    ensures
        !ends_with_ignore_ascii_case(path@, svg_suffix()) ==> r is Err && r->Err_0@
            == only_svg_message(),
        ends_with_ignore_ascii_case(path@, svg_suffix()) && !fs@.contains_key(path@) ==> r is Err
            && r->Err_0@ == file_not_found_message(),
        ends_with_ignore_ascii_case(path@, svg_suffix()) && fs@.contains_key(path@) ==> r is Ok
            && r->Ok_0@ == fs@[path@],
{
    if validate(path.as_str(), ".svg").is_err() {
        return Err(only_svg_error());
    }
    match fs.lookup(&path) {
        Some(content) => Ok(content.clone()),
        None => Err(not_found_error()),
    }
}

/// Writes `content` at `path`, creating or shadowing the entry.
///
/// The path must name a `.tsx` file (ASCII-case-insensitively); otherwise
/// the failure message is returned and the store is left unmodified.
pub fn save_tsx_file(fs: &mut FsModel, path: String, content: String) -> (r: Result<(), String>)
    ensures
        !ends_with_ignore_ascii_case(path@, tsx_suffix()) ==> r is Err && r->Err_0@
            == tsx_extension_message() && *final(fs) == *old(fs),
        ends_with_ignore_ascii_case(path@, tsx_suffix()) ==> r is Ok && final(fs)@ == old(
            fs,
        )@.insert(path@, content@),
{
    if validate(path.as_str(), ".tsx").is_err() {
        return Err(tsx_extension_error());
    }
    fs.preload(path, content);
    Ok(())
}

/// Reads the content stored at `path` with no extension policy applied:
/// the raw view of the store that a policy-free collaborator would see.
pub fn read_raw_file(fs: &FsModel, path: String) -> (r: Option<String>)
    ensures
        r is Some <==> fs@.contains_key(path@),
        r is Some ==> r->Some_0@ == fs@[path@],
{
    match fs.lookup(&path) {
        Some(content) => Some(content.clone()),
        None => None,
    }
}

/// Message for a read that failed in the underlying system — a permission
/// failure, or a race where the file vanished between the existence check
/// and the read — wrapping the system's own description.
pub fn read_failure_message(detail: &str) -> (m: String)
    ensures
        m@ == "Failed to read file: "@ + detail@,
{
    "Failed to read file: ".to_owned().concat(detail)
}

/// Message for a write that failed in the underlying system, wrapping the
/// system's own description.
pub fn write_failure_message(detail: &str) -> (m: String)
    ensures
        m@ == "Failed to write file: "@ + detail@,
{
    "Failed to write file: ".to_owned().concat(detail)
}

/// Law: a successful write is read back unchanged — after `content` is
/// stored at `path`, the store holds `path` and the raw read of it yields
/// exactly `content`.
pub proof fn lemma_write_read_round_trip(
    m: Map<Seq<char>, Seq<char>>,
    path: Seq<char>,
    content: Seq<char>,
)
    ensures
        m.insert(path, content).contains_key(path),
        m.insert(path, content)[path] == content,
{
}

/// Law: the read and write policies exclude each other — no path ends with
/// both `.svg` and `.tsx`, so nothing written through the write command can
/// be read back through the read command's policy.
pub proof fn lemma_policies_exclusive(path: Seq<char>)
    ensures
        !(ends_with_ignore_ascii_case(path, svg_suffix()) && ends_with_ignore_ascii_case(
            path,
            tsx_suffix(),
        )),
{
    reveal_strlit(".svg");
    reveal_strlit(".tsx");
    if ends_with_ignore_ascii_case(path, svg_suffix()) && ends_with_ignore_ascii_case(
        path,
        tsx_suffix(),
    ) {
        let n = path.len() as int;
        assert(lower_char(path[n - 4 + 3]) == lower_char(svg_suffix()[3]));
        assert(lower_char(path[n - 4 + 3]) == lower_char(tsx_suffix()[3]));
        assert(false);
    }
}

} // verus!
