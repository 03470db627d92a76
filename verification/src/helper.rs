//! Interpretation of a signed raw syscall return value.

use vstd::prelude::*;

verus! {

/// Interprets a signed raw syscall return value: values in `-4096..=-1`
/// carry a negated error code and become `Err` with the code made positive;
/// every other value is returned unchanged as `Ok`.
pub fn syscall_ret(ret: i64) -> (r: Result<i64, i64>)
    ensures
        match r {
            Ok(v) => v == ret && !(-4096 <= ret <= -1),
            Err(e) => -4096 <= ret <= -1 && e == -ret,
        },
{
    if -4096 <= ret && ret <= -1 {
        Err(-ret)
    } else {
        Ok(ret)
    }
}

} // verus!
