//! File-name pieces of a path (`std::path::Path::file_name`, `file_stem`, `extension`).
use vstd::prelude::*;

verus! {

/// What `std::path::Path::file_name` returns for the path with this text, under the path syntax
/// of the platform that the service runs on (the final component, or `None` when there is none
/// or the path ends in `..`).
pub uninterp spec fn path_file_name(path: Seq<char>) -> Option<Seq<char>>;

/// Index of the final `.` in `name`, or `-1` when it holds none.
pub open spec fn final_dot(name: Seq<char>) -> int
    decreases name.len(),
{
    if name.len() == 0 {
        -1
    } else if name.last() == '.' {
        name.len() - 1
    } else {
        final_dot(name.drop_last())
    }
}

/// The stem of a file name: the whole name when it holds no `.` or its only `.` is the
/// first character; otherwise the part before the final `.`.
pub open spec fn stem_of(name: Seq<char>) -> Seq<char> {
    if final_dot(name) <= 0 {
        name
    } else {
        name.subrange(0, final_dot(name))
    }
}

/// The extension of a file name: none when it holds no `.` or its only `.` is the first
/// character; otherwise the part after the final `.`.
pub open spec fn extension_of(name: Seq<char>) -> Option<Seq<char>> {
    if final_dot(name) <= 0 {
        None
    } else {
        Some(name.subrange(final_dot(name) + 1, name.len() as int))
    }
}

/// `std::path::Path::file_name` of the path `path`. Its result is left unstated beyond
/// its name: the component rules of std's path parser are not written out here.
#[verifier::external_body]
pub(crate) fn file_name(path: &str) -> (name: Option<String>)
    ensures
        name.deep_view() == path_file_name(path@),
{
    std::path::Path::new(path).file_name().and_then(|n| n.to_str()).map(|n| n.to_string())
}

/// `std::path::Path::file_stem`, which std documents as the stem of `file_name`.
#[verifier::external_body]
pub(crate) fn file_stem(path: &str) -> (stem: Option<String>)
    ensures
        stem.deep_view() == (match path_file_name(path@) {
            Some(name) => Some(stem_of(name)),
            None => None,
        }),
{
    std::path::Path::new(path).file_stem().and_then(|n| n.to_str()).map(|n| n.to_string())
}

/// `std::path::Path::extension`, which std documents as the extension of `file_name`.
#[verifier::external_body]
pub(crate) fn extension(path: &str) -> (ext: Option<String>)
    ensures
        ext.deep_view() == (match path_file_name(path@) {
            Some(name) => extension_of(name),
            None => None,
        }),
{
    std::path::Path::new(path).extension().and_then(|n| n.to_str()).map(|n| n.to_string())
}

} // verus!
