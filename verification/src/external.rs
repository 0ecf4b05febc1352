//! Declarations of outside types, and thin wrappers around the outside
//! functions that the cache relies on. Each wrapper's body only makes the
//! call and converts its arguments or result; the contracts state no more
//! than the outside source plainly shows.

use vstd::prelude::*;

verus! {

#[verifier::external_type_specification]
#[verifier::external_body]
pub struct ExPathBuf(std::path::PathBuf);

#[verifier::external_type_specification]
#[verifier::external_body]
pub struct ExPath(std::path::Path);

#[verifier::external_type_specification]
#[verifier::external_body]
pub struct ExIoError(std::io::Error);

#[verifier::external_type_specification]
#[verifier::external_body]
pub struct ExJsonError(serde_json::Error);

/// Relies on serde_json::to_string: encodes `value` as a single JSON
/// document, or reports why `T` could not be serialized.
#[verifier::external_body]
pub(crate) fn encode_json<T: serde::Serialize>(value: &T) -> (r: Result<String, serde_json::Error>) {
    serde_json::to_string(value)
}

/// Relies on serde_json::from_str: parses a JSON document into a value of
/// `T`, or reports why the text is not a valid encoding of one.
#[verifier::external_body]
pub(crate) fn decode_json<T: serde::de::DeserializeOwned>(s: &str) -> (r: Result<T, serde_json::Error>) {
    serde_json::from_str(s)
}

/// Relies on sanitize_filename::sanitize: strips characters that are illegal
/// or dangerous in file names. With the default options it removes every
/// path separator and truncates the result to at most 255 bytes, so the
/// result holds at most 255 characters and no `/`.
#[verifier::external_body]
pub(crate) fn sanitize_name(name: &str) -> (r: String)
    ensures
        r@.len() <= 255,
        forall|i: int| 0 <= i < r@.len() ==> r@[i] != '/',
{
    sanitize_filename::sanitize(name)
}

/// Relies on directories::BaseDirs::new and BaseDirs::data_dir: the
/// platform-standard per-user data directory, or `None` when no home
/// directory can be determined for the current user.
#[verifier::external_body]
pub(crate) fn platform_data_dir() -> (r: Option<std::path::PathBuf>) {
    directories::BaseDirs::new().map(|b| b.data_dir().to_path_buf())
}

/// Relies on std::path::Path::to_path_buf: an owned copy of the path.
#[verifier::external_body]
pub(crate) fn path_to_buf(dir: &std::path::Path) -> (r: std::path::PathBuf) {
    dir.to_path_buf()
}

/// Relies on std::path::Path::join: the path of the file `name` under `dir`.
#[verifier::external_body]
pub(crate) fn join_path(dir: &std::path::PathBuf, name: &str) -> (r: std::path::PathBuf) {
    dir.join(name)
}

/// Relies on std::time::Duration::as_nanos: the duration as a whole number
/// of nanoseconds.
#[verifier::external_body]
pub(crate) fn duration_nanos(d: &std::time::Duration) -> (r: u128) {
    d.as_nanos()
}

/// Relies on std::io::Error::kind: `None` when the error says the file does
/// not exist, and the error itself, unmodified, otherwise.
#[verifier::external_body]
pub(crate) fn split_not_found(e: std::io::Error) -> (r: Option<std::io::Error>)
    ensures
        r matches Some(o) ==> o == e,
{
    match e.kind() {
        std::io::ErrorKind::NotFound => None,
        _ => Some(e),
    }
}

/// Relies on std::io::Error::from(ErrorKind::NotFound): an error value that
/// says a file that was expected to exist is missing.
#[verifier::external_body]
pub(crate) fn missing_file_error() -> (r: std::io::Error) {
    std::io::Error::from(std::io::ErrorKind::NotFound)
}

} // verus!
