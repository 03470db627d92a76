//! The packed argument bundle of a syscall in machine-word form, with
//! conversions from partially filled argument arrays.

use vstd::prelude::*;

verus! {

/// The 6 arguments of a syscall, raw untyped version. Unused positions are
/// zero-filled.
#[derive(PartialEq, Eq, Structural, Clone, Copy, Debug)]
pub struct SyscallArgs {
    pub arg0: usize,
    pub arg1: usize,
    pub arg2: usize,
    pub arg3: usize,
    pub arg4: usize,
    pub arg5: usize,
}

impl SyscallArgs {
    /// Packs six argument words into a bundle.
    pub fn new(a0: usize, a1: usize, a2: usize, a3: usize, a4: usize, a5: usize) -> (r:
        SyscallArgs)
        ensures
            r == (SyscallArgs { arg0: a0, arg1: a1, arg2: a2, arg3: a3, arg4: a4, arg5: a5 }),
    {
        SyscallArgs { arg0: a0, arg1: a1, arg2: a2, arg3: a3, arg4: a4, arg5: a5 }
    }
}

impl From<&[usize; 6]> for SyscallArgs {
    fn from(args: &[usize; 6]) -> (r: SyscallArgs) {
        SyscallArgs { arg0: args[0], arg1: args[1], arg2: args[2], arg3: args[3], arg4: args[4], arg5: args[5] }
    }
}

impl vstd::std_specs::convert::FromSpecImpl<&[usize; 6]> for SyscallArgs {
    open spec fn obeys_from_spec() -> bool {
        true
    }

    open spec fn from_spec(args: &[usize; 6]) -> SyscallArgs {
        SyscallArgs { arg0: args[0], arg1: args[1], arg2: args[2], arg3: args[3], arg4: args[4], arg5: args[5] }
    }
}

impl From<&[usize; 5]> for SyscallArgs {
    fn from(args: &[usize; 5]) -> (r: SyscallArgs) {
        SyscallArgs { arg0: args[0], arg1: args[1], arg2: args[2], arg3: args[3], arg4: args[4], arg5: 0 }
    }
}

impl vstd::std_specs::convert::FromSpecImpl<&[usize; 5]> for SyscallArgs {
    open spec fn obeys_from_spec() -> bool {
        true
    }

    open spec fn from_spec(args: &[usize; 5]) -> SyscallArgs {
        SyscallArgs { arg0: args[0], arg1: args[1], arg2: args[2], arg3: args[3], arg4: args[4], arg5: 0 }
    }
}

impl From<&[usize; 4]> for SyscallArgs {
    fn from(args: &[usize; 4]) -> (r: SyscallArgs) {
        SyscallArgs { arg0: args[0], arg1: args[1], arg2: args[2], arg3: args[3], arg4: 0, arg5: 0 }
    }
}

impl vstd::std_specs::convert::FromSpecImpl<&[usize; 4]> for SyscallArgs {
    open spec fn obeys_from_spec() -> bool {
        true
    }

    open spec fn from_spec(args: &[usize; 4]) -> SyscallArgs {
        SyscallArgs { arg0: args[0], arg1: args[1], arg2: args[2], arg3: args[3], arg4: 0, arg5: 0 }
    }
}

impl From<&[usize; 3]> for SyscallArgs {
    fn from(args: &[usize; 3]) -> (r: SyscallArgs) {
        SyscallArgs { arg0: args[0], arg1: args[1], arg2: args[2], arg3: 0, arg4: 0, arg5: 0 }
    }
}

impl vstd::std_specs::convert::FromSpecImpl<&[usize; 3]> for SyscallArgs {
    open spec fn obeys_from_spec() -> bool {
        true
    }

    open spec fn from_spec(args: &[usize; 3]) -> SyscallArgs {
        SyscallArgs { arg0: args[0], arg1: args[1], arg2: args[2], arg3: 0, arg4: 0, arg5: 0 }
    }
}

impl From<&[usize; 2]> for SyscallArgs {
    fn from(args: &[usize; 2]) -> (r: SyscallArgs) {
        SyscallArgs { arg0: args[0], arg1: args[1], arg2: 0, arg3: 0, arg4: 0, arg5: 0 }
    }
}

impl vstd::std_specs::convert::FromSpecImpl<&[usize; 2]> for SyscallArgs {
    open spec fn obeys_from_spec() -> bool {
        true
    }

    open spec fn from_spec(args: &[usize; 2]) -> SyscallArgs {
        SyscallArgs { arg0: args[0], arg1: args[1], arg2: 0, arg3: 0, arg4: 0, arg5: 0 }
    }
}

impl From<&[usize; 1]> for SyscallArgs {
    fn from(args: &[usize; 1]) -> (r: SyscallArgs) {
        SyscallArgs { arg0: args[0], arg1: 0, arg2: 0, arg3: 0, arg4: 0, arg5: 0 }
    }
}

impl vstd::std_specs::convert::FromSpecImpl<&[usize; 1]> for SyscallArgs {
    open spec fn obeys_from_spec() -> bool {
        true
    }

    open spec fn from_spec(args: &[usize; 1]) -> SyscallArgs {
        SyscallArgs { arg0: args[0], arg1: 0, arg2: 0, arg3: 0, arg4: 0, arg5: 0 }
    }
}

impl From<&[usize; 0]> for SyscallArgs {
    fn from(args: &[usize; 0]) -> (r: SyscallArgs) {
        SyscallArgs { arg0: 0, arg1: 0, arg2: 0, arg3: 0, arg4: 0, arg5: 0 }
    }
}

impl vstd::std_specs::convert::FromSpecImpl<&[usize; 0]> for SyscallArgs {
    open spec fn obeys_from_spec() -> bool {
        true
    }

    open spec fn from_spec(args: &[usize; 0]) -> SyscallArgs {
        SyscallArgs { arg0: 0, arg1: 0, arg2: 0, arg3: 0, arg4: 0, arg5: 0 }
    }
}

} // verus!
