//! The trusted boundary to the filesystem: existence and executability
//! checks, shell-style path expansion, and the temporary files used to
//! exchange a message with a hook process.

use vstd::prelude::*;
use std::io::{Read, Write};

verus! {

/// A temporary file with a collision-resistant name, removed when the
/// value is dropped. Opaque: it only carries the file between the wrappers
/// below.
#[verifier::external_body]
pub(crate) struct TempMsgFile {
    inner: tempfile::NamedTempFile,
}

/// Relies on std::path::Path::exists: whether a file or directory exists at
/// the path.
#[verifier::external_body]
pub(crate) fn path_exists(path: &String) -> (r: bool)
{
    std::path::Path::new(path.as_str()).exists()
}

/// Relies on is_executable::is_executable: whether a file exists at the
/// path and carries an execute permission bit.
#[verifier::external_body]
pub(crate) fn file_is_executable(path: &String) -> (r: bool)
{
    is_executable::is_executable(path.as_str())
}

/// Relies on shellexpand::full: home-directory and environment-variable
/// syntax in the path expanded; fails when a variable cannot be looked up.
#[verifier::external_body]
pub(crate) fn expand_path(path: &String) -> (r: Result<String, String>)
{
    match shellexpand::full(path.as_str()) {
        Ok(c) => Ok(c.into_owned()),
        Err(e) => Err(e.to_string()),
    }
}

/// Relies on tempfile::NamedTempFile::new: a fresh temporary file with a
/// collision-resistant name, removed when the value is dropped.
#[verifier::external_body]
pub(crate) fn tempfile_new() -> (r: Result<TempMsgFile, String>)
{
    match tempfile::NamedTempFile::new() {
        Ok(f) => Ok(TempMsgFile { inner: f }),
        Err(e) => Err(e.to_string()),
    }
}

/// Relies on tempfile::NamedTempFile::new_in: as `tempfile_new`, but the
/// file is created inside `dir`.
#[verifier::external_body]
pub(crate) fn tempfile_new_in(dir: &String) -> (r: Result<TempMsgFile, String>)
{
    match tempfile::NamedTempFile::new_in(dir.as_str()) {
        Ok(f) => Ok(TempMsgFile { inner: f }),
        Err(e) => Err(e.to_string()),
    }
}

/// Relies on std::io::Write::write_all for the temporary file: all the
/// bytes written, or an error.
#[verifier::external_body]
pub(crate) fn tempfile_write(f: &mut TempMsgFile, bytes: &Vec<u8>) -> (r: Result<
    (),
    String,
>)
{
    match f.inner.as_file_mut().write_all(bytes.as_slice()) {
        Ok(()) => Ok(()),
        Err(e) => Err(e.to_string()),
    }
}

/// Relies on tempfile::NamedTempFile::path: the file's path, `None` when it
/// is not valid text.
#[verifier::external_body]
pub(crate) fn tempfile_path(f: &TempMsgFile) -> (r: Option<String>)
{
    match f.inner.path().to_str() {
        Some(s) => Some(s.to_string()),
        None => None,
    }
}

/// Relies on tempfile::NamedTempFile::reopen and std::io::Read::read_to_end:
/// the file's current contents, read from the start.
#[verifier::external_body]
pub(crate) fn tempfile_read(f: &TempMsgFile) -> (r: Result<Vec<u8>, String>)
{
    let mut buf: Vec<u8> = Vec::new();
    match f.inner.reopen() {
        Ok(mut file) => match file.read_to_end(&mut buf) {
            Ok(_) => Ok(buf),
            Err(e) => Err(e.to_string()),
        },
        Err(e) => Err(e.to_string()),
    }
}

/// Relies on tempfile::NamedTempFile::persist: the temporary file renamed
/// to `path`, which it keeps after the value is gone.
#[verifier::external_body]
pub(crate) fn tempfile_persist(f: TempMsgFile, path: &String) -> (r: bool)
{
    match f.inner.persist(path.as_str()) {
        Ok(_) => true,
        Err(_) => false,
    }
}

/// Relies on nix::sys::stat::fchmodat: the file at `path` given owner,
/// group and other read and execute permission, plus owner write.
#[verifier::external_body]
pub(crate) fn set_exec_bit(path: &String) -> (r: bool)
{
    let mode = nix::sys::stat::Mode::from_bits_truncate(0o755);
    match nix::sys::stat::fchmodat(
        nix::fcntl::AT_FDCWD,
        path.as_str(),
        mode,
        nix::sys::stat::FchmodatFlags::FollowSymlink,
    ) {
        Ok(()) => true,
        Err(_) => false,
    }
}

} // verus!
