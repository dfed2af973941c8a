//! The boundary to `std::path`.
//!
//! Paths cross this boundary as text. Each function here makes one call
//! into `std::path` and hands the answer back as text, and its contract is
//! believed, not proved. Where the standard library's documentation states
//! the answer in terms of other answers, the contract repeats that
//! statement; where it does not, the answer only gets a name, which stands
//! for whatever the path conventions of the platform the crate is built
//! for make of the arguments.
//!
//! The text that goes in is valid Unicode, and `std::path` cuts and joins
//! it only at separators and dots, so the text that comes out is what the
//! standard library returned, character for character.

use vstd::prelude::*;

verus! {

/// Whether `std::path::is_separator` accepts `c` as a path separator.
pub uninterp spec fn is_path_separator(c: char) -> bool;

/// The text of the final component of `path` as `Path::file_name` gives it,
/// or `None` where it gives none.
pub uninterp spec fn path_file_name(path: Seq<char>) -> Option<Seq<char>>;

/// The text of `path` without its final component as `Path::parent` gives
/// it, or `None` where it gives none.
pub uninterp spec fn path_parent(path: Seq<char>) -> Option<Seq<char>>;

/// Whether `Path::is_absolute` holds of `path`.
pub uninterp spec fn path_is_absolute(path: Seq<char>) -> bool;

/// The texts of the components that `Path::components` yields for `path`,
/// in order, a root marker included where there is one.
pub uninterp spec fn path_components(path: Seq<char>) -> Seq<Seq<char>>;

/// The text of `Path::join` of `base` and `other`.
pub uninterp spec fn path_join(base: Seq<char>, other: Seq<char>) -> Seq<char>;

/// The text of `Path::with_extension` of `path` and `extension`.
pub uninterp spec fn path_with_extension(path: Seq<char>, extension: Seq<char>) -> Seq<char>;

/// Whether some character of `text` is a path separator.
pub open spec fn has_separator(text: Seq<char>) -> bool {
    exists|i: int| 0 <= i < text.len() && is_path_separator(#[trigger] text[i])
}

/// The stem of a file name: the whole name if it holds no `.` or its only
/// `.` comes first, else what stands before the last `.`.
pub open spec fn name_stem(name: Seq<char>) -> Seq<char> {
    match name.index_of_last('.') {
        Some(dot) => if dot > 0 {
            name.subrange(0, dot)
        } else {
            name
        },
        None => name,
    }
}

/// The extension of a file name: what stands behind the last `.`, unless
/// the name holds no `.` or its only `.` comes first.
pub open spec fn name_extension(name: Seq<char>) -> Option<Seq<char>> {
    match name.index_of_last('.') {
        Some(dot) => if dot > 0 {
            Some(name.subrange(dot + 1, name.len() as int))
        } else {
            None
        },
        None => None,
    }
}

/// The stem of the file name of `path`, where it has a file name.
pub open spec fn stem_of(path: Seq<char>) -> Option<Seq<char>> {
    match path_file_name(path) {
        Some(name) => Some(name_stem(name)),
        None => None,
    }
}

/// The extension of the file name of `path`, where it has both.
pub open spec fn extension_of(path: Seq<char>) -> Option<Seq<char>> {
    match path_file_name(path) {
        Some(name) => name_extension(name),
        None => None,
    }
}

/// The parent of `path`: the empty path has none.
pub open spec fn parent_of(path: Seq<char>) -> Option<Seq<char>> {
    if path.len() == 0 {
        None
    } else {
        path_parent(path)
    }
}

/// `other` adjoined to `base`: an absolute `other` replaces `base`.
pub open spec fn joined(base: Seq<char>, other: Seq<char>) -> Seq<char> {
    if path_is_absolute(other) {
        other
    } else {
        path_join(base, other)
    }
}

/// `path` with its extension replaced by `extension`: a path without a
/// file name stays as it is.
pub open spec fn with_extension_of(path: Seq<char>, extension: Seq<char>) -> Seq<char> {
    if path_file_name(path) is None {
        path
    } else {
        path_with_extension(path, extension)
    }
}

/// What a new file name is adjoined to: the parent of a path that has a
/// file name, the path itself where it has none.
pub open spec fn sibling_base(path: Seq<char>) -> Seq<char> {
    match (path_file_name(path), path_parent(path)) {
        (Some(_), Some(parent)) => parent,
        _ => path,
    }
}

/// `path` with its file name replaced by `name`.
pub open spec fn with_file_name_of(path: Seq<char>, name: Seq<char>) -> Seq<char> {
    joined(sibling_base(path), name)
}

/// Calls `std::path::is_separator`. Its result is named, nothing more.
#[verifier::external_body]
pub(crate) fn is_separator(c: char) -> (separates: bool)
    ensures
        separates == is_path_separator(c),
{
    std::path::is_separator(c)
}

/// Calls `Path::file_name`. Its result is named; the text handed back is
/// that of the component it returns.
#[verifier::external_body]
pub(crate) fn file_name(path: &str) -> (name: Option<String>)
    ensures
        name.deep_view() == path_file_name(path@),
{
    match std::path::Path::new(path).file_name() {
        Some(name) => Some(name.to_string_lossy().into_owned()),
        None => None,
    }
}

/// Calls `Path::file_stem`, which is documented to give no stem where
/// `Path::file_name` gives no name, and else the name up to its last `.`,
/// or the whole name if it holds no `.` or only a leading one.
#[verifier::external_body]
pub(crate) fn file_stem(path: &str) -> (stem: Option<String>)
    ensures
        stem.deep_view() == stem_of(path@),
{
    match std::path::Path::new(path).file_stem() {
        Some(stem) => Some(stem.to_string_lossy().into_owned()),
        None => None,
    }
}

/// Calls `Path::extension`, which is documented to give no extension where
/// `Path::file_name` gives no name or the name holds no `.` but perhaps a
/// leading one, and else what follows the name's last `.`.
#[verifier::external_body]
pub(crate) fn extension(path: &str) -> (extension: Option<String>)
    ensures
        extension.deep_view() == extension_of(path@),
{
    match std::path::Path::new(path).extension() {
        Some(extension) => Some(extension.to_string_lossy().into_owned()),
        None => None,
    }
}

/// Calls `Path::parent`. Its result is named, and it is documented to be
/// `None` for the empty path.
#[verifier::external_body]
pub(crate) fn parent(path: &str) -> (parent: Option<String>)
    ensures
        parent.deep_view() == path_parent(path@),
        path@.len() == 0 ==> parent is None,
{
    match std::path::Path::new(path).parent() {
        Some(parent) => Some(parent.to_string_lossy().into_owned()),
        None => None,
    }
}

/// Calls `Path::is_absolute`. Its result is named, nothing more.
#[verifier::external_body]
pub(crate) fn is_absolute(path: &str) -> (absolute: bool)
    ensures
        absolute == path_is_absolute(path@),
{
    std::path::Path::new(path).is_absolute()
}

/// Calls `Path::is_relative`, which is documented as the negation of
/// `Path::is_absolute`.
#[verifier::external_body]
pub(crate) fn is_relative(path: &str) -> (relative: bool)
    ensures
        relative == !path_is_absolute(path@),
{
    std::path::Path::new(path).is_relative()
}

/// Calls `Path::components` and collects the text of each component. The
/// sequence is named, nothing more.
#[verifier::external_body]
pub(crate) fn components(path: &str) -> (parts: Vec<String>)
    ensures
        parts.deep_view() == path_components(path@),
{
    let mut parts = Vec::new();
    for part in std::path::Path::new(path).components() {
        parts.push(part.as_os_str().to_string_lossy().into_owned());
    }
    parts
}

/// Calls `Path::join`. Its result is named, and it is documented to be
/// `other` where `other` is absolute.
#[verifier::external_body]
pub(crate) fn join(base: &str, other: &str) -> (path: String)
    ensures
        path@ == path_join(base@, other@),
        path_is_absolute(other@) ==> path@ == other@,
{
    std::path::Path::new(base).join(other).to_string_lossy().into_owned()
}

/// Calls `Path::with_extension`, which panics on an extension that holds a
/// path separator. Its result is named, and it is documented to be the
/// path unchanged where `Path::file_name` gives no name.
#[verifier::external_body]
pub(crate) fn with_extension(path: &str, extension: &str) -> (replaced: String)
    requires
        !has_separator(extension@),
    ensures
        replaced@ == path_with_extension(path@, extension@),
        path_file_name(path@) is None ==> replaced@ == path@,
{
    std::path::Path::new(path).with_extension(extension).to_string_lossy().into_owned()
}

/// Calls `Path::with_file_name`, which is documented to adjoin the name to
/// the parent where `Path::file_name` gives a name, and to the path itself
/// where it gives none.
#[verifier::external_body]
pub(crate) fn with_file_name(path: &str, name: &str) -> (replaced: String)
    ensures
        replaced@ == with_file_name_of(path@, name@),
{
    std::path::Path::new(path).with_file_name(name).to_string_lossy().into_owned()
}

} // verus!
