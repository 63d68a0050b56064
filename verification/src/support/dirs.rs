//! The platform's user and project directories, from the `directories`
//! crate, and the standard library's path operations that the library uses.
//! Paths are handled as text: a directory whose name is not valid UTF-8 is
//! converted lossily (invalid sequences become U+FFFD), so such a path is
//! not the directory that the system named.
use vstd::prelude::*;

verus! {

/// `s` ends with `suffix`.
pub open spec fn ends_with(s: Seq<char>, suffix: Seq<char>) -> bool {
    suffix.len() <= s.len() && s.subrange(s.len() - suffix.len(), s.len() as int) == suffix
}

#[verifier::external_type_specification]
#[verifier::external_body]
pub struct ExUserDirs(directories::UserDirs);

#[verifier::external_type_specification]
#[verifier::external_body]
pub struct ExProjectDirs(directories::ProjectDirs);

/// Trusted: `directories::UserDirs::new` returns `None` when the system
/// reports no home directory. What it returns depends on the environment,
/// so nothing more is stated.
#[verifier::external_body]
pub(crate) fn user_dirs() -> Option<directories::UserDirs> {
    directories::UserDirs::new()
}

/// Trusted: `directories::UserDirs::home_dir`, as text. A `UserDirs` exists
/// only for a valid home directory path (on Unix an empty `$HOME` or password
/// entry is rejected), so the text is not empty; the value itself comes from
/// the environment and nothing more is stated about it.
#[verifier::external_body]
pub(crate) fn user_home_dir(dirs: &directories::UserDirs) -> (r: String)
    ensures
        r@.len() > 0,
{
    dirs.home_dir().to_string_lossy().into_owned()
}

/// Trusted: `directories::UserDirs::download_dir`, as text. The value comes
/// from the environment; nothing is stated about it.
#[verifier::external_body]
pub(crate) fn user_download_dir(dirs: &directories::UserDirs) -> Option<String> {
    match dirs.download_dir() {
        Some(dir) => Some(dir.to_string_lossy().into_owned()),
        None => None,
    }
}

/// Trusted: `directories::ProjectDirs::from`. It returns `None` when the
/// system reports no home directory; what it returns depends on the
/// environment, so nothing more is stated.
#[verifier::external_body]
pub(crate) fn project_dirs(
    qualifier: &str,
    organization: &str,
    application: &str,
) -> Option<directories::ProjectDirs> {
    directories::ProjectDirs::from(qualifier, organization, application)
}

/// Trusted: `directories::ProjectDirs::config_dir`, as text. The value comes
/// from the environment; nothing is stated about it.
#[verifier::external_body]
pub(crate) fn project_config_dir(dirs: &directories::ProjectDirs) -> String {
    dirs.config_dir().to_string_lossy().into_owned()
}

/// Trusted: `directories::ProjectDirs::data_local_dir`, as text. The value
/// comes from the environment; nothing is stated about it.
#[verifier::external_body]
pub(crate) fn project_data_local_dir(dirs: &directories::ProjectDirs) -> String {
    dirs.data_local_dir().to_string_lossy().into_owned()
}

/// A single ordinary path component: not empty, without separators, and
/// neither `.` nor `..`.
pub open spec fn is_plain_name(s: Seq<char>) -> bool {
    &&& s.len() > 0
    &&& forall|i: int| 0 <= i < s.len() ==> #[trigger] s[i] != '/' && s[i] != '\\'
    &&& s != seq!['.']
    &&& s != seq!['.', '.']
}

/// A path separator on some platform: `/` everywhere, `\` on Windows.
pub open spec fn is_separator(c: char) -> bool {
    c == '/' || c == '\\'
}

/// Text that every platform reads as a relative path without a prefix: it
/// does not start with a separator and holds no `:` (which would make a
/// Windows drive prefix).
pub open spec fn is_relative_text(part: Seq<char>) -> bool {
    &&& (part.len() == 0 || !is_separator(part[0]))
    &&& forall|i: int| 0 <= i < part.len() ==> #[trigger] part[i] != ':'
}

/// A Windows verbatim path (`\\?\...`), which `Path::join` normalises.
pub open spec fn is_verbatim(base: Seq<char>) -> bool {
    base.len() >= 4 && base[0] == '\\' && base[1] == '\\' && base[2] == '?' && base[3] == '\\'
}

/// `r` is `base` extended by `part`: the two with a separator between them,
/// or without one where `base` is empty, already ends with a separator, or
/// ends with a drive prefix's `:`.
pub open spec fn adjoins(base: Seq<char>, part: Seq<char>, r: Seq<char>) -> bool {
    ||| r == base + part && (base.len() == 0 || is_separator(base.last()) || base.last() == ':')
    ||| r == base.push('/') + part
    ||| r == base.push('\\') + part
}

/// What `Path::join` is known to give: a plain name ends the result, a
/// relative part extends a base that is not a verbatim path, and a verbatim
/// base stays a verbatim path.
pub open spec fn joins(base: Seq<char>, part: Seq<char>, r: Seq<char>) -> bool {
    &&& is_plain_name(part) ==> ends_with(r, part)
    &&& is_relative_text(part) && !is_verbatim(base) ==> adjoins(base, part, r)
    &&& is_relative_text(part) && is_verbatim(base) ==> is_verbatim(r)
}

/// Trusted: `Path::join`, which adjoins `part` to `base` as `PathBuf::push`
/// does. A relative part extends the base: the base's text, the
/// platform's separator unless the base is empty, ends with a separator or
/// is a bare drive such as `C:`, then the part. A plain file or directory
/// name always ends the result. A verbatim Windows base is normalised
/// (`.` and `..` removed) and stays a verbatim path; nothing more is stated
/// for it. Absolute or prefixed parts replace the base; nothing is stated
/// for those.
#[verifier::external_body]
pub(crate) fn path_join(base: &str, part: &str) -> (r: String)
    ensures
        joins(base@, part@, r@),
{
    std::path::Path::new(base).join(part).to_string_lossy().into_owned()
}

/// Text that some platform may read as an absolute path: it starts with a
/// separator or with a drive prefix such as `C:`.
pub open spec fn may_be_absolute(path: Seq<char>) -> bool {
    path.len() > 0 && (is_separator(path[0]) || (path.len() >= 2 && path[1] == ':'))
}

/// Trusted: `Path::is_absolute`. On Unix a path is absolute when it starts
/// with the root `/`; on Windows when it has a prefix (`C:` or one that
/// starts with `\\`) and a root. So only text that starts with a separator
/// or a drive prefix can be absolute; which of those are is the platform's
/// answer and is not stated.
#[verifier::external_body]
pub(crate) fn path_is_absolute(path: &str) -> (r: bool)
    ensures
        r ==> may_be_absolute(path@),
{
    std::path::Path::new(path).is_absolute()
}

/// Trusted: `Path::strip_prefix`, as text: the part of `path` below `base`,
/// compared component by component under the platform's path rules. Nothing
/// is stated about it.
#[verifier::external_body]
pub(crate) fn path_strip_prefix(path: &str, base: &str) -> Option<String> {
    match std::path::Path::new(path).strip_prefix(base) {
        Ok(rest) => Some(rest.to_string_lossy().into_owned()),
        Err(_) => None,
    }
}

/// Trusted: `Path::is_file`: whether a regular file is at `path` now. The
/// answer depends on the file system; nothing is stated about it.
#[verifier::external_body]
pub(crate) fn path_is_file(path: &str) -> bool {
    std::path::Path::new(path).is_file()
}

/// Trusted: `Path::parent`, as text: the path without its final
/// component, so a part of its text before that component. It returns
/// `None` for the empty path (and for one that ends in a root or prefix);
/// where the platform's path rules put the final component is not stated.
#[verifier::external_body]
pub(crate) fn path_parent(path: &str) -> (r: Option<String>)
    ensures
        path@.len() == 0 ==> r is None,
        r matches Some(parent) ==> parent@.len() < path@.len() && path@.subrange(
            0,
            parent@.len() as int,
        ) == parent@,
{
    match std::path::Path::new(path).parent() {
        Some(parent) => Some(parent.to_string_lossy().into_owned()),
        None => None,
    }
}

} // verus!
