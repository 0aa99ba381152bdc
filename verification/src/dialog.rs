//! Dialog bridge: declares the filter and suggested name handed to the
//! external picker collaborator, and normalizes the collaborator's outcome
//! (local path or remote reference) into one string form, or `None` on
//! cancellation. No extension check happens here: the chosen path is only
//! validated when it is fed into a read or write command.

use vstd::prelude::*;

verus! {

/// What the external picker collaborator reported.
pub enum PickerResult {
    /// The user chose a local filesystem path.
    LocalPath(String),
    /// The user chose a remote target, kept in URI form; internally it must
    /// not be treated as a local filesystem path.
    RemoteReference(String),
    /// The user cancelled: a normal outcome, never an error.
    Cancelled,
}

/// Which file kinds a picker should offer; purely descriptive.
pub struct DialogFilter {
    pub label: String,
    pub extensions: Vec<String>,
}

/// What a save dialog hands to the picker: the filter and a suggested name.
pub struct SaveDialogRequest {
    pub filter: DialogFilter,
    pub suggested_name: String,
}

/// The single string form both present picker variants collapse to, or
/// `None` on cancellation.
pub open spec fn normalized_pick(picked: PickerResult) -> Option<Seq<char>> {
    match picked {
        PickerResult::LocalPath(p) => Some(p@),
        PickerResult::RemoteReference(u) => Some(u@),
        PickerResult::Cancelled => None,
    }
}

/// The filter the open dialog declares: SVG files only.
pub fn open_dialog_filter() -> (f: DialogFilter)
    ensures
        f.label@ == "SVG Files"@,
        f.extensions@.len() == 1,
        f.extensions@[0]@ == "svg"@,
{
    let mut extensions: Vec<String> = Vec::new();
    extensions.push("svg".to_owned());
    DialogFilter { label: "SVG Files".to_owned(), extensions }
}

/// The request the save dialog declares: TypeScript React files, under the
/// caller's suggested name.
pub fn save_dialog_request(default_name: String) -> (r: SaveDialogRequest)
    ensures
        r.filter.label@ == "TypeScript React"@,
        r.filter.extensions@.len() == 1,
        r.filter.extensions@[0]@ == "tsx"@,
        r.suggested_name@ == default_name@,
{
    let mut extensions: Vec<String> = Vec::new();
    extensions.push("tsx".to_owned());
    SaveDialogRequest {
        filter: DialogFilter { label: "TypeScript React".to_owned(), extensions },
        suggested_name: default_name,
    }
}

/// Collapses a picker outcome to its string form; cancellation becomes
/// `None`.
pub fn normalize_pick(picked: PickerResult) -> (r: Option<String>)
    ensures
        r is Some <==> normalized_pick(picked) is Some,
        r is Some ==> r->Some_0@ == normalized_pick(picked)->Some_0,
{
    match picked {
        PickerResult::LocalPath(p) => Some(p),
        PickerResult::RemoteReference(u) => Some(u),
        PickerResult::Cancelled => None,
    }
}

/// The open-dialog command's view of a picker outcome. Always succeeds:
/// cancellation is `Ok(None)`, never an error.
pub fn open_file_dialog(picked: PickerResult) -> (r: Result<Option<String>, String>)
    ensures
        r is Ok,
        r->Ok_0 is Some <==> normalized_pick(picked) is Some,
        r->Ok_0 is Some ==> r->Ok_0->Some_0@ == normalized_pick(picked)->Some_0,
{
    Ok(normalize_pick(picked))
}

/// The save-dialog command's view of a picker outcome. Always succeeds:
/// cancellation is `Ok(None)`, never an error.
pub fn save_file_dialog(picked: PickerResult) -> (r: Result<Option<String>, String>)
    ensures
        r is Ok,
        r->Ok_0 is Some <==> normalized_pick(picked) is Some,
        r->Ok_0 is Some ==> r->Ok_0->Some_0@ == normalized_pick(picked)->Some_0,
{
    Ok(normalize_pick(picked))
}

} // verus!
