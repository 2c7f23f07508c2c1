//! Trusted boundary to the host filesystem.
//!
//! Every function here is a thin wrapper around one outside call whose
//! body Verus does not read. Results that depend on the state of the
//! disk carry no promise beyond their type: the verified code around
//! them must hold for every outcome.

use vstd::prelude::*;

verus! {

#[verifier::external_type_specification]
#[verifier::external_body]
pub struct ExIoError(std::io::Error);

#[verifier::external_type_specification]
#[verifier::external_body]
pub struct ExTempDir(assert_fs::TempDir);

#[verifier::external_type_specification]
#[verifier::external_body]
pub struct ExFixtureError(assert_fs::fixture::FixtureError);

#[verifier::external_type_specification]
#[verifier::external_body]
pub struct ExFileTime(filetime::FileTime);

#[verifier::external_type_specification]
#[verifier::external_body]
pub struct ExPathBuf(std::path::PathBuf);

/// Relies on assert_fs::TempDir::new: allocates a uniquely named
/// directory under the platform temp location, or reports why it
/// could not.
#[verifier::external_body]
pub(crate) fn new_temp_dir() -> Result<assert_fs::TempDir, assert_fs::fixture::FixtureError> {
    assert_fs::TempDir::new()
}

/// Relies on assert_fs::TempDir::into_persistent_if: when `keep` is
/// true, exempts the directory from deletion on drop.
#[verifier::external_body]
pub(crate) fn into_persistent_if(dir: assert_fs::TempDir, keep: bool) -> assert_fs::TempDir {
    dir.into_persistent_if(keep)
}

/// Relies on assert_fs::TempDir::path: the directory's absolute path,
/// handed back as text when it is valid UTF-8.
#[verifier::external_body]
pub(crate) fn temp_dir_root(dir: &assert_fs::TempDir) -> Option<String> {
    match dir.path().to_str() {
        Some(s) => Some(s.to_string()),
        None => None,
    }
}

/// Relies on fs_err::read: the byte content of the file at `path`.
#[verifier::external_body]
pub(crate) fn fs_read(path: &str) -> Result<Vec<u8>, std::io::Error> {
    fs_err::read(path)
}

/// Relies on fs_err::read_to_string: the content of the file at
/// `path`, failing when it is not valid UTF-8 text.
#[verifier::external_body]
pub(crate) fn fs_read_to_string(path: &str) -> Result<String, std::io::Error> {
    fs_err::read_to_string(path)
}

/// Relies on fs_err::write: writes `contents` to `path`, replacing any
/// existing file.
#[verifier::external_body]
pub(crate) fn fs_write(path: &str, contents: &[u8]) -> Result<(), std::io::Error> {
    fs_err::write(path, contents)
}

/// Relies on fs_err::create_dir: creates one directory, failing when
/// it already exists or its parent is missing.
#[verifier::external_body]
pub(crate) fn fs_create_dir(path: &str) -> Result<(), std::io::Error> {
    fs_err::create_dir(path)
}

/// Relies on fs_err::create_dir_all: creates the directory and every
/// missing ancestor, succeeding when it already exists.
#[verifier::external_body]
pub(crate) fn fs_create_dir_all(path: &str) -> Result<(), std::io::Error> {
    fs_err::create_dir_all(path)
}

/// Relies on fs_err::rename: moves the file or directory at `from`
/// to `to`.
#[verifier::external_body]
pub(crate) fn fs_rename(from: &str, to: &str) -> Result<(), std::io::Error> {
    fs_err::rename(from, to)
}

/// Relies on fs_err::remove_file: deletes the file at `path`.
#[verifier::external_body]
pub(crate) fn fs_remove_file(path: &str) -> Result<(), std::io::Error> {
    fs_err::remove_file(path)
}

/// Relies on fs_err::remove_dir_all: deletes the directory at `path`
/// and everything under it.
#[verifier::external_body]
pub(crate) fn fs_remove_dir_all(path: &str) -> Result<(), std::io::Error> {
    fs_err::remove_dir_all(path)
}

/// Relies on symlink::symlink_auto: creates a symbolic link at `dst`
/// pointing at `src`, picking the link kind the platform needs.
#[verifier::external_body]
pub(crate) fn symlink_auto(src: &str, dst: &str) -> Result<(), std::io::Error> {
    symlink::symlink_auto(src, dst)
}

/// Relies on filetime::FileTime::now: the current wall-clock time at
/// second and nanosecond resolution.
#[verifier::external_body]
pub(crate) fn file_time_now() -> filetime::FileTime {
    filetime::FileTime::now()
}

/// Relies on filetime::set_file_times: sets the access and
/// modification timestamps of the target to `time`.
#[verifier::external_body]
pub(crate) fn set_file_times(path: &str, time: filetime::FileTime) -> Result<(), std::io::Error> {
    filetime::set_file_times(path, time, time)
}

/// Relies on walkdir::WalkDir: every entry reachable by recursively
/// walking `root`, the root itself included, as raw platform paths;
/// entries that fail to be read during the walk are skipped.
#[verifier::external_body]
pub(crate) fn walk_paths(root: &str) -> Vec<std::path::PathBuf> {
    walkdir::WalkDir::new(root)
        .into_iter()
        .filter_map(|e| e.ok())
        .map(|e| e.path().to_path_buf())
        .collect()
}

/// Relies on Path::to_str: the path as UTF-8 text. Aborts on a path
/// that is not valid UTF-8: the strict listing documents that such a
/// sandbox is outside its contract.
#[verifier::external_body]
pub(crate) fn path_to_utf8(p: &std::path::PathBuf) -> String {
    p.to_str().expect("path was not valid UTF-8").to_string()
}

} // verus!
