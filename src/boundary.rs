//! Handing results to callers that own the output memory.
use crate::error::E2eError;
use vstd::prelude::*;

verus! {

/// Copies `data` to the front of a caller's output buffer, checking first
/// that it fits. A buffer that is too small is left untouched.
pub fn copy_to_buffer(data: &[u8], out: &mut [u8]) -> (r: Result<usize, E2eError>)
    ensures
        data@.len() > old(out)@.len() ==> r == Err::<usize, E2eError>(
            E2eError::BoundaryContractViolation,
        ) && final(out)@ == old(out)@,
        data@.len() <= old(out)@.len() ==> r == Ok::<usize, E2eError>(data@.len() as usize)
            && final(out)@ == data@ + old(out)@.subrange(data@.len() as int, old(out)@.len() as int),
{
    if data.len() > out.len() {
        return Err(E2eError::BoundaryContractViolation);
    }
    let ghost before = out@;
    let mut i: usize = 0;
    while i < data.len()
        invariant
            data@.len() <= before.len(),
            out@.len() == before.len(),
            i <= data@.len(),
            out@ == data@.subrange(0, i as int) + before.subrange(i as int, before.len() as int),
        decreases data@.len() - i,
    {
        out[i] = data[i];
        i = i + 1;
        assert(out@ =~= data@.subrange(0, i as int) + before.subrange(i as int, before.len() as int));
    }
    assert(data@.subrange(0, i as int) =~= data@);
    Ok(data.len())
}

} // verus!
