use vstd::prelude::*;

verus! {

/// A path is absolute on a unix target when it begins with `/`; this crate
/// assumes a unix target.
pub open spec fn is_absolute_path(path: Seq<char>) -> bool {
    path.len() > 0 && path[0] == '/'
}

/// The `file:` URL that the url crate makes of an absolute path (its
/// serialisation, with each path segment percent-encoded).
pub uninterp spec fn file_url_of(path: Seq<char>) -> Seq<char>;

/// Calls `url::Url::from_file_path` and hands back the URL's serialisation.
///
/// This contract assumes a unix target: there the url crate refuses a path
/// exactly when it is not absolute (does not begin with `/`), and otherwise
/// serialises it by a fixed rule, which is named `file_url_of` without
/// stating its percent-encoding. On Windows the first clause would be false
/// (`/x` is not absolute there); the sandbox builds for unix targets only,
/// and nothing in this crate checks that.
#[verifier::external_body]
fn url_from_file_path(path: &str) -> (url: Option<String>)
    ensures
        url is Some <==> is_absolute_path(path@),
        url matches Some(s) ==> s@ == file_url_of(path@),
{
    match url::Url::from_file_path(path) {
        Ok(u) => Some(u.into()),
        Err(()) => None,
    }
}

/// Checks whether a path is absolute, as the url crate decides it on unix.
pub fn path_is_absolute(path: &str) -> (b: bool)
    ensures
        b == is_absolute_path(path@),
{
    path.unicode_len() > 0 && path.get_char(0) == '/'
}

/// The module specifier of a module path, given what the URL conversion
/// produced: the URL itself, or the error that a module path is no URL.
pub fn specifier_from_url(url: Option<String>) -> (r: Result<String, crate::error::SandboxError>)
    ensures
        match url {
            Some(s) => r == Ok::<String, crate::error::SandboxError>(s),
            None => r matches Err(crate::error::SandboxError::ModulePathNotUrl),
        },
{
    match url {
        Some(s) => Ok(s),
        None => Err(crate::error::SandboxError::ModulePathNotUrl),
    }
}

/// The module specifier (a `file:` URL) of the module at `path`; a relative
/// path is refused with `ModulePathNotUrl`.
pub fn module_specifier(path: &str) -> (r: Result<String, crate::error::SandboxError>)
    ensures
        r is Ok <==> is_absolute_path(path@),
        r matches Ok(s) ==> s@ == file_url_of(path@),
        r matches Err(e) ==> e is ModulePathNotUrl,
{
    specifier_from_url(url_from_file_path(path))
}

} // verus!
