//! Interpretation of the driver's compile and link outcomes.
//!
//! The graphics driver reports success as a status flag and, on failure,
//! a diagnostic log fetched into a caller-provided buffer. These functions
//! turn that C-style convention into a result that carries either the
//! object's handle or the diagnostic text, never both, and build the
//! space-filled buffer the log is fetched into.

use vstd::prelude::*;

verus! {

/// Turns a shader-compile status into a result. On success the handle is
/// returned and the log is dropped; on failure the driver's diagnostic
/// text is returned and the handle must not be used.
pub fn compile_outcome(handle: u32, success: bool, log: String) -> (r: Result<u32, String>)
    ensures
        success ==> (r matches Ok(h) && h == handle),
        !success ==> (r matches Err(e) && e@ == log@),
{
    if success {
        Ok(handle)
    } else {
        Err(log)
    }
}

/// Turns a program-link status into a result. Linking counts as failed
/// unless the driver reported success and at least one shader unit was
/// attached; in either failing case the diagnostic text is returned and
/// the handle must not be used.
pub fn link_outcome(handle: u32, attached_units: usize, success: bool, log: String) -> (r: Result<
    u32,
    String,
>)
    ensures
        success && attached_units > 0 ==> (r matches Ok(h) && h == handle),
        !(success && attached_units > 0) ==> (r matches Err(e) && e@ == log@),
{
    if success && attached_units > 0 {
        Ok(handle)
    } else {
        Err(log)
    }
}

/// Builds the buffer the driver writes a diagnostic log into: `len`
/// space bytes, so the text can be fetched over them.
pub fn whitespace_log_buffer(len: usize) -> (buf: Vec<u8>)
    ensures
        buf@.len() == len,
        forall|i: int| 0 <= i < len ==> buf@[i] == 32u8,
{
    let mut buf: Vec<u8> = Vec::new();
    let mut k: usize = 0;
    while k < len
        invariant
            k <= len,
            buf@.len() == k,
            forall|i: int| 0 <= i < k ==> buf@[i] == 32u8,
        decreases len - k,
    {
        buf.push(32u8);
        k = k + 1;
    }
    buf
}

} // verus!
