//! Paths held as text, and the parts of them that the library reads.

use std::path::Path;
use vstd::prelude::*;
use crate::text::{chars_of, lowercase, to_lowercase};

verus! {

/// The text of an optional string.
pub open spec fn opt_text(s: Option<String>) -> Option<Seq<char>> {
    match s {
        Some(t) => Some(t@),
        None => None,
    }
}

/// Name for what `Path::file_name` returns: the last component of the path
/// unless it is `..`.
pub uninterp spec fn path_file_name(path: Seq<char>) -> Option<Seq<char>>;

/// Name for what `Path::parent` returns: the path without its last component.
pub uninterp spec fn path_parent(path: Seq<char>) -> Option<Seq<char>>;

/// Name for what `Path::join` returns: `tail` appended to `base` as a new
/// component (or `tail` alone when it is absolute).
pub uninterp spec fn path_join(base: Seq<char>, tail: Seq<char>) -> Seq<char>;

/// Index of the last `.` in a file name, or -1.
pub open spec fn last_dot(name: Seq<char>) -> int
    decreases name.len(),
{
    if name.len() == 0 {
        -1
    } else if name.last() == '.' {
        name.len() - 1
    } else {
        last_dot(name.drop_last())
    }
}

/// The extension of a file name: the part after its last `.`, unless there is
/// no `.` or the only one starts the name.
pub open spec fn name_extension(name: Seq<char>) -> Option<Seq<char>> {
    let d = last_dot(name);
    if d <= 0 {
        None
    } else {
        Some(name.skip(d + 1))
    }
}

/// The stem of a file name: the part before its last `.`, or the whole name
/// when there is no `.` or the only one starts the name.
pub open spec fn name_stem(name: Seq<char>) -> Seq<char> {
    let d = last_dot(name);
    if d <= 0 {
        name
    } else {
        name.take(d)
    }
}

/// The extension of a path (`Path::extension`).
pub open spec fn path_extension(path: Seq<char>) -> Option<Seq<char>> {
    match path_file_name(path) {
        Some(name) => name_extension(name),
        None => None,
    }
}

/// The file stem of a path (`Path::file_stem`).
pub open spec fn path_file_stem(path: Seq<char>) -> Option<Seq<char>> {
    match path_file_name(path) {
        Some(name) => Some(name_stem(name)),
        None => None,
    }
}

/// `Path::file_name`, as text. A file name cut out of a `str` is itself
/// valid UTF-8, so the conversion loses nothing. The result is named
/// `path_file_name`: this contract claims only that it depends on the path alone.
#[verifier::external_body]
pub(crate) fn file_name_of(path: &str) -> (res: Option<String>)
    ensures
        opt_text(res) == path_file_name(path@),
{
    match Path::new(path).file_name() {
        Some(name) => Some(name.to_string_lossy().into_owned()),
        None => None,
    }
}

/// `Path::parent`, as text. The result is named `path_parent`: this contract
/// claims only that it depends on the path alone.
#[verifier::external_body]
pub(crate) fn parent_of(path: &str) -> (res: Option<String>)
    ensures
        opt_text(res) == path_parent(path@),
{
    match Path::new(path).parent() {
        Some(parent) => Some(parent.to_string_lossy().into_owned()),
        None => None,
    }
}

/// `Path::join`, as text. The result is named `path_join`: this contract
/// claims only that it depends on the two paths alone.
#[verifier::external_body]
pub(crate) fn join_path(base: &str, tail: &str) -> (res: String)
    ensures
        res@ == path_join(base@, tail@),
{
    Path::new(base).join(tail).to_string_lossy().into_owned()
}

/// `Path::extension`, as text. As its documentation states, it is the part of
/// the file name after the last `.`, absent when there is no file name, no
/// `.`, or only a leading `.`.
#[verifier::external_body]
pub(crate) fn extension_of(path: &str) -> (res: Option<String>)
    ensures
        opt_text(res) == path_extension(path@),
{
    match Path::new(path).extension() {
        Some(ext) => Some(ext.to_string_lossy().into_owned()),
        None => None,
    }
}

/// `Path::file_stem`, as text. As its documentation states, it is the part of
/// the file name before the last `.`, or the whole name when there is no `.`
/// or only a leading one; absent when there is no file name.
#[verifier::external_body]
pub(crate) fn file_stem_of(path: &str) -> (res: Option<String>)
    ensures
        opt_text(res) == path_file_stem(path@),
{
    match Path::new(path).file_stem() {
        Some(stem) => Some(stem.to_string_lossy().into_owned()),
        None => None,
    }
}

/// Whether two texts are equal.
pub fn same_text(a: &str, b: &str) -> (res: bool)
    ensures
        res == (a@ == b@),
{
    let x = chars_of(a);
    let y = chars_of(b);
    if x.len() != y.len() {
        return false;
    }
    let mut i: usize = 0;
    while i < x.len()
        invariant
            x@ == a@,
            y@ == b@,
            x.len() == y.len(),
            i <= x.len(),
            forall|j: int| 0 <= j < i ==> x@[j] == y@[j],
        decreases x.len() - i,
    {
        if x[i] != y[i] {
            return false;
        }
        i += 1;
    }
    assert(x@ =~= y@);
    true
}

/// The extensions, in lower case, of the files treated as images.
pub open spec fn is_image_extension(lower: Seq<char>) -> bool {
    ||| lower == "jpg"@
    ||| lower == "jpeg"@
    ||| lower == "png"@
    ||| lower == "webp"@
    ||| lower == "bmp"@
    ||| lower == "tiff"@
}

/// Whether the path names an image: its extension, in lower case, is one of
/// jpg, jpeg, png, webp, bmp or tiff.
pub open spec fn is_image_path(path: Seq<char>) -> bool {
    match path_extension(path) {
        Some(ext) => is_image_extension(lowercase(ext)),
        None => false,
    }
}

/// Whether `path` has a known image extension, in any case.
pub fn is_image(path: &str) -> (res: bool)
    ensures
        res == is_image_path(path@),
{
    match extension_of(path) {
        Some(ext) => {
            let lower = to_lowercase(ext.as_str());
            let l = lower.as_str();
            same_text(l, "jpg") || same_text(l, "jpeg") || same_text(l, "png") || same_text(
                l,
                "webp",
            ) || same_text(l, "bmp") || same_text(l, "tiff")
        },
        None => false,
    }
}

} // verus!
