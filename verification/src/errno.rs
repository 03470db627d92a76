//! Error numbers: the typed error code returned by a failed syscall, and the
//! rule that turns a raw syscall result word into `Ok` or `Err`.
//!
//! By kernel convention the unsigned range `[usize::MAX - 4094, usize::MAX]`
//! (the signed values `-4095..=-1`) is reserved for negated error numbers;
//! every other result word is a success value.

use crate::errno_table::{errno_desc_seq, errno_known, errno_lookup, errno_name_seq};
use crate::text::{dec_or_zero_seq, dec_or_zero_str, dec_seq, dec_str, hex_seq, hex_str};
use vstd::prelude::*;
use vstd::string::StringExecFns;

verus! {

/// Error codes are always below this threshold; the window of the top 4095
/// values of the result word range encodes them negated.
pub const ERRNO_MAX: i32 = 4096;

/// An error number as reported by the kernel.
///
/// Any `i32` can be held, so that syntactically well-formed but unrecognized
/// codes survive a round trip; [`Errno::is_valid`] tells the two apart.
#[derive(Clone, Copy, PartialEq, Eq, Structural, Hash, PartialOrd, Ord, Debug)]
pub struct Errno(i32);

impl View for Errno {
    type V = int;

    closed spec fn view(&self) -> int {
        self.0 as int
    }
}

impl Errno {
    /// The `EPERM` error code.
    #[allow(non_snake_case)]
    pub fn EPERM() -> (r: Errno)
        ensures
            r@ == 1,
    {
        Errno(1)
    }

    /// The `ENOENT` error code.
    #[allow(non_snake_case)]
    pub fn ENOENT() -> (r: Errno)
        ensures
            r@ == 2,
    {
        Errno(2)
    }

    /// The `ESRCH` error code.
    #[allow(non_snake_case)]
    pub fn ESRCH() -> (r: Errno)
        ensures
            r@ == 3,
    {
        Errno(3)
    }

    /// The `EINTR` error code.
    #[allow(non_snake_case)]
    pub fn EINTR() -> (r: Errno)
        ensures
            r@ == 4,
    {
        Errno(4)
    }

    /// The `EIO` error code.
    #[allow(non_snake_case)]
    pub fn EIO() -> (r: Errno)
        ensures
            r@ == 5,
    {
        Errno(5)
    }

    /// The `EBADF` error code.
    #[allow(non_snake_case)]
    pub fn EBADF() -> (r: Errno)
        ensures
            r@ == 9,
    {
        Errno(9)
    }

    /// The `EAGAIN` error code.
    #[allow(non_snake_case)]
    pub fn EAGAIN() -> (r: Errno)
        ensures
            r@ == 11,
    {
        Errno(11)
    }

    /// The `ENOMEM` error code.
    #[allow(non_snake_case)]
    pub fn ENOMEM() -> (r: Errno)
        ensures
            r@ == 12,
    {
        Errno(12)
    }

    /// The `EACCES` error code.
    #[allow(non_snake_case)]
    pub fn EACCES() -> (r: Errno)
        ensures
            r@ == 13,
    {
        Errno(13)
    }

    /// The `EEXIST` error code.
    #[allow(non_snake_case)]
    pub fn EEXIST() -> (r: Errno)
        ensures
            r@ == 17,
    {
        Errno(17)
    }

    /// The `EINVAL` error code.
    #[allow(non_snake_case)]
    pub fn EINVAL() -> (r: Errno)
        ensures
            r@ == 22,
    {
        Errno(22)
    }

    /// The `EDEADLK` error code.
    #[allow(non_snake_case)]
    pub fn EDEADLK() -> (r: Errno)
        ensures
            r@ == 35,
    {
        Errno(35)
    }

    /// The `ENOSYS` error code.
    #[allow(non_snake_case)]
    pub fn ENOSYS() -> (r: Errno)
        ensures
            r@ == 38,
    {
        Errno(38)
    }

    /// The `ETIMEDOUT` error code.
    #[allow(non_snake_case)]
    pub fn ETIMEDOUT() -> (r: Errno)
        ensures
            r@ == 110,
    {
        Errno(110)
    }

    /// Operation would block: the same code as [`Errno::EAGAIN`].
    #[allow(non_snake_case)]
    pub fn EWOULDBLOCK() -> (r: Errno)
        ensures
            r@ == 11,
    {
        Errno(11)
    }

    /// The same code as [`Errno::EDEADLK`].
    #[allow(non_snake_case)]
    pub fn EDEADLOCK() -> (r: Errno)
        ensures
            r@ == 35,
    {
        Errno(35)
    }

    /// Creates an error number from a raw code.
    pub fn new(num: i32) -> (r: Errno)
        ensures
            r@ == num,
    {
        Errno(num)
    }

    /// The raw code of this error number.
    pub fn into_raw(self) -> (r: i32)
        ensures
            r == self@,
    {
        self.0
    }

    /// True when the code is a non-negative value below the reserved
    /// threshold.
    pub fn is_valid(&self) -> (r: bool)
        ensures
            r == (0 <= self@ < ERRNO_MAX),
    {
        0 <= self.0 && self.0 < 4096
    }

    /// Interprets a raw syscall result word. A word in the top 4095 values of
    /// the range is a negated error number and becomes `Err`; every other
    /// word is returned unchanged as `Ok`.
    pub fn from_ret(value: usize) -> (r: Result<usize, Errno>)
        ensures
            match r {
                Ok(v) => v == value && value <= usize::MAX - 4095,
                Err(e) => value > usize::MAX - 4095 && e@ == usize::MAX - value + 1 && 1 <= e@
                    <= 4095,
            },
    {
        if value > usize::MAX - 4095 {
            let code = (usize::MAX - value) + 1;
            Err(Errno(code as i32))
        } else {
            Ok(value)
        }
    }

    /// The last error reported by the platform for this thread.
    pub fn last() -> Errno {
        Errno(last_errno_code())
    }

    /// Checks a return value against its type's failure sentinel: the
    /// sentinel becomes `Err` carrying the thread's last error, every other
    /// value is returned unchanged as `Ok`.
    pub fn result<T: ErrnoSentinel>(value: T) -> (r: Result<T, Errno>)
        ensures
            match r {
                Ok(v) => v == value && value != T::spec_sentinel(),
                Err(_) => value == T::spec_sentinel(),
            },
    {
        if value.is_sentinel() {
            Err(Self::last())
        } else {
            Ok(value)
        }
    }

    /// The symbolic name of the error, or `None` when the code is unknown.
    pub fn name(&self) -> (r: Option<&'static str>)
        ensures
            match r {
                Some(n) => errno_known(self@) && n@ == errno_name_seq(self@) && n@.len() > 0,
                None => !errno_known(self@),
            },
    {
        match self.name_and_description() {
            Some(p) => Some(p.0),
            None => None,
        }
    }

    /// A one-line description of the error, or `None` when the code is
    /// unknown.
    pub fn description(&self) -> (r: Option<&'static str>)
        ensures
            match r {
                Some(d) => errno_known(self@) && d@ == errno_desc_seq(self@) && d@.len() > 0,
                None => !errno_known(self@),
            },
    {
        match self.name_and_description() {
            Some(p) => Some(p.1),
            None => None,
        }
    }

    /// The symbolic name of the error and its description, or `None` when the
    /// code is unknown.
    pub fn name_and_description(&self) -> (r: Option<(&'static str, &'static str)>)
        ensures
            match r {
                Some(p) => errno_known(self@) && p.0@ == errno_name_seq(self@) && p.1@
                    == errno_desc_seq(self@) && p.0@.len() > 0 && p.1@.len() > 0,
                None => !errno_known(self@),
            },
    {
        errno_lookup(self.0)
    }

    /// The human-readable form of the error: the raw negated value, and the
    /// name and description when the code is known.
    pub fn display_string(&self) -> (r: String)
        ensures
            r@ == errno_display_seq(self@),
    {
        match self.name_and_description() {
            Some(p) => {
                let mut s = String::from_str("-");
                s.append(dec_str(self.0 as u64).as_str());
                s.append(" ");
                s.append(p.0);
                s.append(" (");
                s.append(p.1);
                s.append(")");
                proof {
                    assert(s@ =~= errno_display_seq(self@));
                }
                s
            },
            None => {
                if self.0 < 4096 {
                    let v: i64 = -(self.0 as i64);
                    let r = if v < 0 {
                        let mut s = String::from_str("-");
                        s.append(dec_str((-v) as u64).as_str());
                        s
                    } else {
                        dec_or_zero_str(v as u64)
                    };
                    proof {
                        assert(r@ =~= errno_display_seq(self@));
                    }
                    r
                } else {
                    let mut s = String::from_str("Invalid errno 0x");
                    s.append(hex_str(self.0 as u64).as_str());
                    proof {
                        assert(s@ =~= errno_display_seq(self@));
                    }
                    s
                }
            },
        }
    }

    /// The short form of the error: its name when the code is known, and the
    /// raw code otherwise.
    pub fn debug_string(&self) -> (r: String)
        ensures
            r@ == errno_debug_seq(self@),
    {
        match self.name() {
            Some(n) => String::from_str(n),
            None => {
                let mut s = String::from_str("Errno(");
                if self.0 < 0 {
                    let v: i64 = -(self.0 as i64);
                    s.append("-");
                    s.append(dec_or_zero_str(v as u64).as_str());
                } else {
                    s.append(dec_or_zero_str(self.0 as u64).as_str());
                }
                s.append(")");
                proof {
                    assert(s@ =~= errno_debug_seq(self@));
                }
                s
            },
        }
    }

    /// Extracts an error number from an I/O error, when the error carries a
    /// raw platform code.
    pub fn from_io_error(err: std::io::Error) -> (r: Option<Errno>) {
        match io_error_raw_code(&err) {
            Some(code) => Some(Errno::new(code)),
            None => None,
        }
    }
}

/// The human-readable form of an error code: its raw negated value, with
/// name and description when the code is known, and a hexadecimal marker for
/// codes at or above the reserved threshold.
pub open spec fn errno_display_seq(code: int) -> Seq<char> {
    if errno_known(code) {
        "-"@ + dec_seq(code) + " "@ + errno_name_seq(code) + " ("@ + errno_desc_seq(code) + ")"@
    } else if code < 4096 {
        if code > 0 {
            "-"@ + dec_seq(code)
        } else {
            dec_or_zero_seq(-code)
        }
    } else {
        "Invalid errno 0x"@ + hex_seq(code)
    }
}

/// The short form of an error code: its name when known, and the raw code
/// otherwise.
pub open spec fn errno_debug_seq(code: int) -> Seq<char> {
    if errno_known(code) {
        errno_name_seq(code)
    } else if code < 0 {
        "Errno("@ + "-"@ + dec_or_zero_seq(-code) + ")"@
    } else {
        "Errno("@ + dec_or_zero_seq(code) + ")"@
    }
}

/// The failure sentinel of a return type: the single value that the platform
/// uses to signal an error in that type.
pub trait ErrnoSentinel: Sized {
    /// The sentinel value, at the specification level.
    spec fn spec_sentinel() -> Self;

    /// The sentinel value.
    fn sentinel() -> (r: Self)
        ensures
            r == Self::spec_sentinel(),
    ;

    /// True when this value is the sentinel.
    fn is_sentinel(&self) -> (r: bool)
        ensures
            r == (*self == Self::spec_sentinel()),
    ;
}

impl ErrnoSentinel for isize {
    open spec fn spec_sentinel() -> isize {
        -1isize
    }

    fn sentinel() -> (r: isize) {
        -1
    }

    fn is_sentinel(&self) -> (r: bool) {
        *self == -1
    }
}

impl ErrnoSentinel for i32 {
    open spec fn spec_sentinel() -> i32 {
        -1i32
    }

    fn sentinel() -> (r: i32) {
        -1
    }

    fn is_sentinel(&self) -> (r: bool) {
        *self == -1
    }
}

impl ErrnoSentinel for i64 {
    open spec fn spec_sentinel() -> i64 {
        -1i64
    }

    fn sentinel() -> (r: i64) {
        -1
    }

    fn is_sentinel(&self) -> (r: bool) {
        *self == -1
    }
}

impl ErrnoSentinel for usize {
    open spec fn spec_sentinel() -> usize {
        usize::MAX
    }

    fn sentinel() -> (r: usize) {
        usize::MAX
    }

    fn is_sentinel(&self) -> (r: bool) {
        *self == usize::MAX
    }
}

/// The standard I/O error type, declared opaquely so that an error value can
/// be carried through [`Errno::from_io_error`].
#[verifier::external_type_specification]
#[verifier::external_body]
pub struct ExIoError(std::io::Error);

/// Relies on the errno crate's `errno()`: reads the calling thread's
/// last-error cell as maintained by the platform's C runtime. Nothing can be
/// promised of the value; it is whatever the last failing call left there.
#[verifier::external_body]
fn last_errno_code() -> i32 {
    ::errno::errno().0
}

/// Relies on `std::io::Error::raw_os_error`: returns the raw OS code when
/// the error was built from one, and `None` for errors of any other origin.
#[verifier::external_body]
fn io_error_raw_code(err: &std::io::Error) -> Option<i32> {
    err.raw_os_error()
}

} // verus!
