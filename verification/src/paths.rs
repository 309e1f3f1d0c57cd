//! File system paths.
//!
//! A `PathBuf` is carried as an opaque value of the platform that the library is built for. What
//! the library needs of it goes through the functions below.

use crate::text::text_view;
use std::path::PathBuf;
use vstd::prelude::*;

verus! {

/// `std::path::PathBuf`, an owned path. Verus sees nothing inside it.
#[verifier::external_type_specification]
#[verifier::external_body]
pub struct ExPathBuf(std::path::PathBuf);

/// `PathBuf::clone` gives the same path again.
pub assume_specification[ <PathBuf as Clone>::clone ](path: &PathBuf) -> (res: PathBuf)
    ensures
        res == *path,
;

/// The path that `PathBuf::from` makes of a text.
pub uninterp spec fn path_from(text: Seq<char>) -> PathBuf;

/// The path that `Path::join` makes of `base` and `part`.
pub uninterp spec fn path_join(base: PathBuf, part: Seq<char>) -> PathBuf;

/// The last component of `path`, as `Path::file_name` finds it, where it has one and where that
/// is valid Unicode.
pub uninterp spec fn path_file_name(path: PathBuf) -> Option<Seq<char>>;

/// The text in which `Path::display` shows `path`.
pub uninterp spec fn path_display(path: PathBuf) -> Seq<char>;

/// The text holds no character that separates path components or ends a drive's name.
pub open spec fn has_no_separator(s: Seq<char>) -> bool {
    !s.contains('/') && !s.contains('\\') && !s.contains(':')
}

/// The text is one ordinary path component: a name, and neither `.` nor `..`.
pub open spec fn is_plain_component(s: Seq<char>) -> bool {
    &&& s.len() > 0
    &&& has_no_separator(s)
    &&& s != "."@
    &&& s != ".."@
}

/// The text can name a directory and nothing but a directory: `UNC` is left out, which Windows
/// takes for a keyword at the beginning of some paths.
pub open spec fn is_directory_name(s: Seq<char>) -> bool {
    is_plain_component(s) && s != "UNC"@
}

/// The path was made by going down from some path into `outer`, and in it into `inner`.
pub open spec fn is_directory_below(path: PathBuf, outer: Seq<char>, inner: Seq<char>) -> bool {
    exists|root: PathBuf|
        #![trigger path_join(path_join(root, outer), inner)]
        #![trigger path_join(root, outer + "/"@ + inner)]
        path == path_join(path_join(root, outer), inner) || path == path_join(
            root,
            outer + "/"@ + inner,
        )
}

/// The path has a file name, and its text ends with `dir`, a separator and that name.
pub open spec fn lies_in(path: PathBuf, dir: Seq<char>) -> bool {
    match path_file_name(path) {
        Some(name) => (dir + "/"@ + name).is_suffix_of(path_display(path)) || (dir + "\\"@
            + name).is_suffix_of(path_display(path)),
        None => false,
    }
}

/// `PathBuf::from`: the path that the text names. It depends on the text alone.
#[verifier::external_body]
pub(crate) fn from_text(text: &str) -> (res: PathBuf)
    ensures
        res == path_from(text@),
{
    PathBuf::from(text)
}

/// `Path::join`: `base` with `part` adjoined to it, or `part` in its place where `part` is
/// absolute. It depends on the two alone.
///
/// One plain component adjoined to a directory that lies below another one is the file name of
/// the result, and the result's text ends with the directory, a separator and that name. The two
/// directories are asked for because of Windows, where the components right behind a leading
/// `\\` may name a server and a share, of which no file name is made; these are two at most, so
/// that what is adjoined behind two directories is always a file. Nothing is said of the file
/// names of other results.
#[verifier::external_body]
pub(crate) fn join(base: &PathBuf, part: &str) -> (res: PathBuf)
    ensures
        res == path_join(*base, part@),
        forall|outer: Seq<char>, inner: Seq<char>| #[trigger]
            is_directory_below(*base, outer, inner) && is_directory_name(outer)
                && is_directory_name(inner) && is_plain_component(part@) ==> path_file_name(res)
                == Some(part@) && lies_in(res, inner),
{
    base.join(part)
}

/// `Path::file_name`, then `OsStr::to_str`: the last component of the path, `None` where there is
/// none or where it is not valid Unicode. It depends on the path alone. The component itself is
/// a platform string, which this library has no other use for.
#[verifier::external_body]
pub(crate) fn file_name(path: &PathBuf) -> (res: Option<String>)
    ensures
        text_view(res) == path_file_name(*path),
{
    path.file_name().and_then(|name| name.to_str()).map(|name| name.to_string())
}

/// `Path::display`: the path as text for people to read, with a replacement for what is not
/// valid Unicode. It depends on the path alone.
#[verifier::external_body]
pub(crate) fn display(path: &PathBuf) -> (res: String)
    ensures
        res@ == path_display(*path),
{
    path.display().to_string()
}

} // verus!
