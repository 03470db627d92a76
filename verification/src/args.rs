//! The packed argument bundle of a syscall and the packed return value, in
//! their 64-bit form, with conversions to and from plain values.

use crate::helper::syscall_ret;
use vstd::prelude::*;

verus! {

/// The 6 arguments of a syscall, raw untyped version. Unused positions are
/// zero-filled.
#[derive(PartialEq, Eq, Structural, Clone, Copy, Debug)]
pub struct SyscallArgs {
    pub arg0: u64,
    pub arg1: u64,
    pub arg2: u64,
    pub arg3: u64,
    pub arg4: u64,
    pub arg5: u64,
}

impl SyscallArgs {
    /// Packs six argument words into a bundle.
    pub fn new(a0: u64, a1: u64, a2: u64, a3: u64, a4: u64, a5: u64) -> (r: SyscallArgs)
        ensures
            r == (SyscallArgs { arg0: a0, arg1: a1, arg2: a2, arg3: a3, arg4: a4, arg5: a5 }),
    {
        SyscallArgs { arg0: a0, arg1: a1, arg2: a2, arg3: a3, arg4: a4, arg5: a5 }
    }
}

impl From<&[u64; 6]> for SyscallArgs {
    fn from(args: &[u64; 6]) -> (r: SyscallArgs) {
        SyscallArgs {
            arg0: args[0],
            arg1: args[1],
            arg2: args[2],
            arg3: args[3],
            arg4: args[4],
            arg5: args[5],
        }
    }
}

impl vstd::std_specs::convert::FromSpecImpl<&[u64; 6]> for SyscallArgs {
    open spec fn obeys_from_spec() -> bool {
        true
    }

    open spec fn from_spec(args: &[u64; 6]) -> SyscallArgs {
        SyscallArgs {
            arg0: args[0],
            arg1: args[1],
            arg2: args[2],
            arg3: args[3],
            arg4: args[4],
            arg5: args[5],
        }
    }
}

impl From<&[u64; 5]> for SyscallArgs {
    fn from(args: &[u64; 5]) -> (r: SyscallArgs) {
        SyscallArgs {
            arg0: args[0],
            arg1: args[1],
            arg2: args[2],
            arg3: args[3],
            arg4: args[4],
            arg5: 0,
        }
    }
}

impl vstd::std_specs::convert::FromSpecImpl<&[u64; 5]> for SyscallArgs {
    open spec fn obeys_from_spec() -> bool {
        true
    }

    open spec fn from_spec(args: &[u64; 5]) -> SyscallArgs {
        SyscallArgs {
            arg0: args[0],
            arg1: args[1],
            arg2: args[2],
            arg3: args[3],
            arg4: args[4],
            arg5: 0,
        }
    }
}

impl From<&[u64; 4]> for SyscallArgs {
    fn from(args: &[u64; 4]) -> (r: SyscallArgs) {
        SyscallArgs {
            arg0: args[0],
            arg1: args[1],
            arg2: args[2],
            arg3: args[3],
            arg4: 0,
            arg5: 0,
        }
    }
}

impl vstd::std_specs::convert::FromSpecImpl<&[u64; 4]> for SyscallArgs {
    open spec fn obeys_from_spec() -> bool {
        true
    }

    open spec fn from_spec(args: &[u64; 4]) -> SyscallArgs {
        SyscallArgs {
            arg0: args[0],
            arg1: args[1],
            arg2: args[2],
            arg3: args[3],
            arg4: 0,
            arg5: 0,
        }
    }
}

impl From<&[u64; 3]> for SyscallArgs {
    fn from(args: &[u64; 3]) -> (r: SyscallArgs) {
        SyscallArgs { arg0: args[0], arg1: args[1], arg2: args[2], arg3: 0, arg4: 0, arg5: 0 }
    }
}

impl vstd::std_specs::convert::FromSpecImpl<&[u64; 3]> for SyscallArgs {
    open spec fn obeys_from_spec() -> bool {
        true
    }

    open spec fn from_spec(args: &[u64; 3]) -> SyscallArgs {
        SyscallArgs { arg0: args[0], arg1: args[1], arg2: args[2], arg3: 0, arg4: 0, arg5: 0 }
    }
}

impl From<&[u64; 2]> for SyscallArgs {
    fn from(args: &[u64; 2]) -> (r: SyscallArgs) {
        SyscallArgs { arg0: args[0], arg1: args[1], arg2: 0, arg3: 0, arg4: 0, arg5: 0 }
    }
}

impl vstd::std_specs::convert::FromSpecImpl<&[u64; 2]> for SyscallArgs {
    open spec fn obeys_from_spec() -> bool {
        true
    }

    open spec fn from_spec(args: &[u64; 2]) -> SyscallArgs {
        SyscallArgs { arg0: args[0], arg1: args[1], arg2: 0, arg3: 0, arg4: 0, arg5: 0 }
    }
}

impl From<&[u64; 1]> for SyscallArgs {
    fn from(args: &[u64; 1]) -> (r: SyscallArgs) {
        SyscallArgs { arg0: args[0], arg1: 0, arg2: 0, arg3: 0, arg4: 0, arg5: 0 }
    }
}

impl vstd::std_specs::convert::FromSpecImpl<&[u64; 1]> for SyscallArgs {
    open spec fn obeys_from_spec() -> bool {
        true
    }

    open spec fn from_spec(args: &[u64; 1]) -> SyscallArgs {
        SyscallArgs { arg0: args[0], arg1: 0, arg2: 0, arg3: 0, arg4: 0, arg5: 0 }
    }
}

impl From<&[u64; 0]> for SyscallArgs {
    fn from(args: &[u64; 0]) -> (r: SyscallArgs) {
        SyscallArgs { arg0: 0, arg1: 0, arg2: 0, arg3: 0, arg4: 0, arg5: 0 }
    }
}

impl vstd::std_specs::convert::FromSpecImpl<&[u64; 0]> for SyscallArgs {
    open spec fn obeys_from_spec() -> bool {
        true
    }

    open spec fn from_spec(args: &[u64; 0]) -> SyscallArgs {
        SyscallArgs { arg0: 0, arg1: 0, arg2: 0, arg3: 0, arg4: 0, arg5: 0 }
    }
}

/// A packed syscall return value: a success value, or an error code stored
/// negated, in one signed word.
#[derive(PartialEq, Eq, Structural, PartialOrd, Ord, Clone, Copy, Debug)]
pub struct SyscallRet {
    pub retval: i64,
}

/// The negation of an error code as it is packed into the return word:
/// ordinary codes are negated, and the one value with no signed negation
/// stays as it is.
pub open spec fn spec_neg_code(e: i64) -> i64 {
    if e == i64::MIN {
        i64::MIN
    } else {
        (-e) as i64
    }
}

impl From<i64> for SyscallRet {
    fn from(retval: i64) -> (r: SyscallRet) {
        SyscallRet { retval }
    }
}

impl vstd::std_specs::convert::FromSpecImpl<i64> for SyscallRet {
    open spec fn obeys_from_spec() -> bool {
        true
    }

    open spec fn from_spec(retval: i64) -> SyscallRet {
        SyscallRet { retval }
    }
}

impl From<Result<i64, i64>> for SyscallRet {
    fn from(res: Result<i64, i64>) -> (r: SyscallRet) {
        match res {
            Ok(ret_ok) => SyscallRet { retval: ret_ok },
            Err(ret_err) => if ret_err == i64::MIN {
                SyscallRet { retval: i64::MIN }
            } else {
                SyscallRet { retval: -ret_err }
            },
        }
    }
}

impl vstd::std_specs::convert::FromSpecImpl<Result<i64, i64>> for SyscallRet {
    open spec fn obeys_from_spec() -> bool {
        true
    }

    open spec fn from_spec(res: Result<i64, i64>) -> SyscallRet {
        match res {
            Ok(ret_ok) => SyscallRet { retval: ret_ok },
            Err(ret_err) => SyscallRet { retval: spec_neg_code(ret_err) },
        }
    }
}

impl From<Result<i64, i32>> for SyscallRet {
    fn from(res: Result<i64, i32>) -> (r: SyscallRet) {
        match res {
            Ok(ret_ok) => SyscallRet { retval: ret_ok },
            Err(ret_err) => SyscallRet { retval: -(ret_err as i64) },
        }
    }
}

impl vstd::std_specs::convert::FromSpecImpl<Result<i64, i32>> for SyscallRet {
    open spec fn obeys_from_spec() -> bool {
        true
    }

    open spec fn from_spec(res: Result<i64, i32>) -> SyscallRet {
        match res {
            Ok(ret_ok) => SyscallRet { retval: ret_ok },
            Err(ret_err) => SyscallRet { retval: (-(ret_err as i64)) as i64 },
        }
    }
}

impl From<SyscallRet> for Result<i64, i64> {
    fn from(res: SyscallRet) -> (r: Result<i64, i64>) {
        syscall_ret(res.retval)
    }
}

impl vstd::std_specs::convert::FromSpecImpl<SyscallRet> for Result<i64, i64> {
    open spec fn obeys_from_spec() -> bool {
        true
    }

    open spec fn from_spec(res: SyscallRet) -> Result<i64, i64> {
        if -4096 <= res.retval <= -1 {
            Err((-res.retval) as i64)
        } else {
            Ok(res.retval)
        }
    }
}

impl From<SyscallRet> for Result<i64, i32> {
    fn from(res: SyscallRet) -> (r: Result<i64, i32>) {
        match syscall_ret(res.retval) {
            Ok(v) => Ok(v),
            Err(e) => Err(e as i32),
        }
    }
}

impl vstd::std_specs::convert::FromSpecImpl<SyscallRet> for Result<i64, i32> {
    open spec fn obeys_from_spec() -> bool {
        true
    }

    open spec fn from_spec(res: SyscallRet) -> Result<i64, i32> {
        if -4096 <= res.retval <= -1 {
            Err((-res.retval) as i32)
        } else {
            Ok(res.retval)
        }
    }
}

} // verus!
