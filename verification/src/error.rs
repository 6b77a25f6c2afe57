//! The library's error type.
use vstd::prelude::*;

verus! {

/// `std::io::Error`, carried opaquely inside [`GmsslError::IoError`].
#[verifier::external_type_specification]
#[verifier::external_body]
pub struct ExIoError(std::io::Error);

/// Errors of the library.
#[derive(Debug)]
pub enum GmsslError {
    /// An operating-system I/O error.
    IoError(std::io::Error),
    /// A GmSSL routine reported failure; the payload names the routine or
    /// the step that failed.
    LibraryError(&'static str),
    /// An argument was rejected before any work was done.
    InvalidInput(&'static str),
}

/// Maps a GmSSL status code to a `Result`: 1 is success, any other value is a
/// `LibraryError` that names `name`.
pub fn ok_or_library_error(ret: i32, name: &'static str) -> (r: Result<(), GmsslError>)
    ensures
        ret == 1 <==> r is Ok,
        ret != 1 ==> (r matches Err(GmsslError::LibraryError(n)) && n == name),
{
    if ret == 1 {
        Ok(())
    } else {
        Err(GmsslError::LibraryError(name))
    }
}

} // verus!
