//! How an optional result goes back to the caller.

use vstd::prelude::*;

verus! {

/// Hands an optional result back through an output location: the location is
/// written only when there is a result, and the return value says whether
/// there was one. On failure the location keeps what it held.
pub fn write_output<T>(result: Option<T>, ret: &mut T) -> (ok: bool)
    ensures
        ok == result.is_some(),
        result matches Some(v) ==> *final(ret) == v,
        result is None ==> *final(ret) == *old(ret),
{
    match result {
        Some(v) => {
            *ret = v;
            true
        },
        None => false,
    }
}

} // verus!
