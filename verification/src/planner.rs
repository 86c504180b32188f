//! From a file's metadata and extension to its place in the hierarchy.

use crate::calendar::stamp_text;
use crate::metadata::{FileMeta, FileMetaModel};
use vstd::prelude::*;
use vstd::string::StringExecFns;

verus! {

/// The lower-case form that std's `str::to_lowercase` gives a text.
pub uninterp spec fn lowercase_of(text: Seq<char>) -> Seq<char>;

/// Calls std's `str::to_lowercase`, which maps each character by Unicode's
/// rules. The result is named, not described.
#[verifier::external_body]
fn lowercase(text: &str) -> (lowered: String)
    ensures
        lowered@ == lowercase_of(text@),
{
    text.to_lowercase()
}

/// What follows the time in a file's name: the brightness and a dot, where
/// there is a brightness, and then the extension.
pub open spec fn name_ending(brightness: Seq<char>, extension: Seq<char>) -> Seq<char> {
    if brightness.len() == 0 {
        extension
    } else {
        brightness + seq!['.'] + extension
    }
}

/// The path, relative to the destination root, of a file with this metadata
/// and this extension, the extension taken as it is.
pub open spec fn planned_path(meta: FileMetaModel, extension: Seq<char>) -> Seq<char> {
    stamp_text(meta.created_at) + name_ending(meta.brightness, extension)
}

/// Plans the path of a file whose extension is taken as it is.
pub fn lay_out(meta: &FileMeta, extension: &str) -> (path: String)
    ensures
        path@ == planned_path(meta@, extension@),
{
    let mut path = meta.created_at.stamp();
    if !meta.brightness.as_str().is_empty() {
        path.append(meta.brightness.as_str());
        path.append(".");
        proof {
            reveal_strlit(".");
        }
    }
    path.append(extension);
    path
}

/// Plans the path of a file, relative to the destination root: the year,
/// the day, and a name made of the time, the brightness if there is one,
/// and the extension in lower case.
pub fn plan(meta: &FileMeta, extension: &str) -> (path: String)
    ensures
        path@ == planned_path(meta@, lowercase_of(extension@)),
{
    let lowered = lowercase(extension);
    lay_out(meta, lowered.as_str())
}

/// The planned path is decided by the time, the brightness and the
/// lower-case form of the extension alone: files that agree in these are
/// planned onto one path.
pub proof fn lemma_plan_is_determined(
    first: FileMetaModel,
    first_extension: Seq<char>,
    second: FileMetaModel,
    second_extension: Seq<char>,
)
    requires
        first.created_at == second.created_at,
        first.brightness == second.brightness,
    ensures
        lowercase_of(first_extension) == lowercase_of(second_extension) ==> planned_path(
            first,
            lowercase_of(first_extension),
        ) == planned_path(second, lowercase_of(second_extension)),
{
}

} // verus!
