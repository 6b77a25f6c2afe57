//! The decisions of the PEM and DER buffer helpers: what a routine's status
//! code and output position make of the result. The `FILE*` plumbing around
//! them is done by the caller.
use vstd::prelude::*;

use crate::error::GmsslError;

verus! {

/// Whether `path` can be handed to C as a NUL-terminated string, that is,
/// whether it holds no NUL byte.
pub open spec fn is_c_path(path: Seq<u8>) -> bool {
    forall|i: int| 0 <= i < path.len() ==> path[i] != 0u8
}

/// Checks a path before it is opened: `InvalidInput` when it holds a NUL
/// byte.
pub fn check_c_path(path: &[u8]) -> (r: Result<(), GmsslError>)
    ensures
        is_c_path(path@) <==> r is Ok,
        (forall|i: int| 0 <= i < path@.len() ==> path@[i] != 0u8) <==> r is Ok,
        (exists|i: int| 0 <= i < path@.len() && path@[i] == 0u8) <==> r is Err,
        r is Err ==> (r matches Err(GmsslError::InvalidInput(s)) && s@
            == "path contains NUL byte"@),
{
    let mut i: usize = 0;
    while i < path.len()
        invariant
            i <= path@.len(),
            forall|t: int| 0 <= t < i ==> path@[t] != 0u8,
        decreases path.len() - i,
    {
        if path[i] == 0u8 {
            return Err(GmsslError::InvalidInput("path contains NUL byte"));
        }
        i = i + 1;
    }
    Ok(())
}

/// The output of a PEM writer: the captured bytes when the writer returned 1,
/// else `LibraryError`.
pub fn pem_output(ret: i32, captured: Vec<u8>) -> (r: Result<Vec<u8>, GmsslError>)
    ensures
        ret == 1 <==> r is Ok,
        r matches Ok(v) ==> v@ == captured@,
        r is Err ==> (r matches Err(GmsslError::LibraryError(s)) && s@ == "PEM write failed"@),
{
    if ret != 1 {
        return Err(GmsslError::LibraryError("PEM write failed"));
    }
    Ok(captured)
}

/// Number of bytes a DER encoder wrote: how far its output position moved
/// from `start` to `end`, or 0 if it moved backwards.
pub open spec fn der_written(start: usize, end: usize) -> nat {
    if end >= start {
        (end - start) as nat
    } else {
        0
    }
}

/// The output of a DER encoder that wrote into `buf` from position `start` and
/// left its position at `end`: the first bytes of `buf` up to what was
/// written (all of `buf` if that is more), when it returned 1; else
/// `LibraryError`.
pub fn der_output(buf: Vec<u8>, ret: i32, start: usize, end: usize) -> (r: Result<
    Vec<u8>,
    GmsslError,
>)
    ensures
        ret == 1 <==> r is Ok,
        r matches Ok(v) ==> (if der_written(start, end) <= buf@.len() {
            v@ == buf@.subrange(0, der_written(start, end) as int)
        } else {
            v@ == buf@
        }),
        (ret == 1 && end >= start) ==> (r matches Ok(v) && v@.len() == (if end - start
            <= buf@.len() {
            end - start
        } else {
            buf@.len() as int
        }) && v@ == buf@.subrange(0, v@.len() as int)),
        (ret == 1 && end < start) ==> (r matches Ok(v) && v@.len() == 0),
        r is Err ==> (r matches Err(GmsslError::LibraryError(s)) && s@
            == "DER encoding failed"@),
{
    if ret != 1 {
        return Err(GmsslError::LibraryError("DER encoding failed"));
    }
    let written: usize = if end >= start {
        end - start
    } else {
        0
    };
    let mut out = buf;
    out.truncate(written);
    Ok(out)
}

/// A path is accepted exactly when no byte of it is NUL.
pub proof fn law_c_path_rejects_only_nul(path: Seq<u8>)
    ensures
        is_c_path(path) <==> !path.contains(0u8),
{
}

/// A DER encoder that moved its position forward wrote exactly as many bytes
/// as it moved; one that moved backwards wrote none.
pub proof fn law_der_written_is_distance(start: usize, end: usize)
    ensures
        end >= start ==> der_written(start, end) == end - start,
        end < start ==> der_written(start, end) == 0,
{
}

} // verus!
