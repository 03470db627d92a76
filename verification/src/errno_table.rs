//! The table of known error codes: each code's symbolic name and its
//! one-line description, as found in the kernel's error-number headers.
//!
//! Known codes form the blocks `1..=40`, `42..=57` and `59..=133`; codes 41
//! and 58 have never been assigned.

use vstd::prelude::*;

verus! {

/// True when `code` is an error number with a recorded name and description.
pub open spec fn errno_known(code: int) -> bool {
    (1 <= code && code <= 40) || (42 <= code && code <= 57) || (59 <= code && code <= 133)
}

/// The symbolic name of the error code, as a sequence of characters; empty for
/// codes that are not known.
pub open spec fn errno_name_seq(code: int) -> Seq<char> {
    if 1 <= code && code < 45 {
        errno_name_seq_a(code)
    } else if 45 <= code && code < 90 {
        errno_name_seq_b(code)
    } else if 90 <= code && code < 134 {
        errno_name_seq_c(code)
    } else {
        Seq::empty()
    }
}

pub open spec fn errno_name_seq_a(code: int) -> Seq<char> {
    if code == 1 {
        "EPERM"@
    } else if code == 2 {
        "ENOENT"@
    } else if code == 3 {
        "ESRCH"@
    } else if code == 4 {
        "EINTR"@
    } else if code == 5 {
        "EIO"@
    } else if code == 6 {
        "ENXIO"@
    } else if code == 7 {
        "E2BIG"@
    } else if code == 8 {
        "ENOEXEC"@
    } else if code == 9 {
        "EBADF"@
    } else if code == 10 {
        "ECHILD"@
    } else if code == 11 {
        "EAGAIN"@
    } else if code == 12 {
        "ENOMEM"@
    } else if code == 13 {
        "EACCES"@
    } else if code == 14 {
        "EFAULT"@
    } else if code == 15 {
        "ENOTBLK"@
    } else if code == 16 {
        "EBUSY"@
    } else if code == 17 {
        "EEXIST"@
    } else if code == 18 {
        "EXDEV"@
    } else if code == 19 {
        "ENODEV"@
    } else if code == 20 {
        "ENOTDIR"@
    } else if code == 21 {
        "EISDIR"@
    } else if code == 22 {
        "EINVAL"@
    } else if code == 23 {
        "ENFILE"@
    } else if code == 24 {
        "EMFILE"@
    } else if code == 25 {
        "ENOTTY"@
    } else if code == 26 {
        "ETXTBSY"@
    } else if code == 27 {
        "EFBIG"@
    } else if code == 28 {
        "ENOSPC"@
    } else if code == 29 {
        "ESPIPE"@
    } else if code == 30 {
        "EROFS"@
    } else if code == 31 {
        "EMLINK"@
    } else if code == 32 {
        "EPIPE"@
    } else if code == 33 {
        "EDOM"@
    } else if code == 34 {
        "ERANGE"@
    } else if code == 35 {
        "EDEADLK"@
    } else if code == 36 {
        "ENAMETOOLONG"@
    } else if code == 37 {
        "ENOLCK"@
    } else if code == 38 {
        "ENOSYS"@
    } else if code == 39 {
        "ENOTEMPTY"@
    } else if code == 40 {
        "ELOOP"@
    } else if code == 42 {
        "ENOMSG"@
    } else if code == 43 {
        "EIDRM"@
    } else if code == 44 {
        "ECHRNG"@
    } else {
        Seq::empty()
    }
}

pub open spec fn errno_name_seq_b(code: int) -> Seq<char> {
    if code == 45 {
        "EL2NSYNC"@
    } else if code == 46 {
        "EL3HLT"@
    } else if code == 47 {
        "EL3RST"@
    } else if code == 48 {
        "ELNRNG"@
    } else if code == 49 {
        "EUNATCH"@
    } else if code == 50 {
        "ENOCSI"@
    } else if code == 51 {
        "EL2HLT"@
    } else if code == 52 {
        "EBADE"@
    } else if code == 53 {
        "EBADR"@
    } else if code == 54 {
        "EXFULL"@
    } else if code == 55 {
        "ENOANO"@
    } else if code == 56 {
        "EBADRQC"@
    } else if code == 57 {
        "EBADSLT"@
    } else if code == 59 {
        "EBFONT"@
    } else if code == 60 {
        "ENOSTR"@
    } else if code == 61 {
        "ENODATA"@
    } else if code == 62 {
        "ETIME"@
    } else if code == 63 {
        "ENOSR"@
    } else if code == 64 {
        "ENONET"@
    } else if code == 65 {
        "ENOPKG"@
    } else if code == 66 {
        "EREMOTE"@
    } else if code == 67 {
        "ENOLINK"@
    } else if code == 68 {
        "EADV"@
    } else if code == 69 {
        "ESRMNT"@
    } else if code == 70 {
        "ECOMM"@
    } else if code == 71 {
        "EPROTO"@
    } else if code == 72 {
        "EMULTIHOP"@
    } else if code == 73 {
        "EDOTDOT"@
    } else if code == 74 {
        "EBADMSG"@
    } else if code == 75 {
        "EOVERFLOW"@
    } else if code == 76 {
        "ENOTUNIQ"@
    } else if code == 77 {
        "EBADFD"@
    } else if code == 78 {
        "EREMCHG"@
    } else if code == 79 {
        "ELIBACC"@
    } else if code == 80 {
        "ELIBBAD"@
    } else if code == 81 {
        "ELIBSCN"@
    } else if code == 82 {
        "ELIBMAX"@
    } else if code == 83 {
        "ELIBEXEC"@
    } else if code == 84 {
        "EILSEQ"@
    } else if code == 85 {
        "ERESTART"@
    } else if code == 86 {
        "ESTRPIPE"@
    } else if code == 87 {
        "EUSERS"@
    } else if code == 88 {
        "ENOTSOCK"@
    } else if code == 89 {
        "EDESTADDRREQ"@
    } else {
        Seq::empty()
    }
}

pub open spec fn errno_name_seq_c(code: int) -> Seq<char> {
    if code == 90 {
        "EMSGSIZE"@
    } else if code == 91 {
        "EPROTOTYPE"@
    } else if code == 92 {
        "ENOPROTOOPT"@
    } else if code == 93 {
        "EPROTONOSUPPORT"@
    } else if code == 94 {
        "ESOCKTNOSUPPORT"@
    } else if code == 95 {
        "EOPNOTSUPP"@
    } else if code == 96 {
        "EPFNOSUPPORT"@
    } else if code == 97 {
        "EAFNOSUPPORT"@
    } else if code == 98 {
        "EADDRINUSE"@
    } else if code == 99 {
        "EADDRNOTAVAIL"@
    } else if code == 100 {
        "ENETDOWN"@
    } else if code == 101 {
        "ENETUNREACH"@
    } else if code == 102 {
        "ENETRESET"@
    } else if code == 103 {
        "ECONNABORTED"@
    } else if code == 104 {
        "ECONNRESET"@
    } else if code == 105 {
        "ENOBUFS"@
    } else if code == 106 {
        "EISCONN"@
    } else if code == 107 {
        "ENOTCONN"@
    } else if code == 108 {
        "ESHUTDOWN"@
    } else if code == 109 {
        "ETOOMANYREFS"@
    } else if code == 110 {
        "ETIMEDOUT"@
    } else if code == 111 {
        "ECONNREFUSED"@
    } else if code == 112 {
        "EHOSTDOWN"@
    } else if code == 113 {
        "EHOSTUNREACH"@
    } else if code == 114 {
        "EALREADY"@
    } else if code == 115 {
        "EINPROGRESS"@
    } else if code == 116 {
        "ESTALE"@
    } else if code == 117 {
        "EUCLEAN"@
    } else if code == 118 {
        "ENOTNAM"@
    } else if code == 119 {
        "ENAVAIL"@
    } else if code == 120 {
        "EISNAM"@
    } else if code == 121 {
        "EREMOTEIO"@
    } else if code == 122 {
        "EDQUOT"@
    } else if code == 123 {
        "ENOMEDIUM"@
    } else if code == 124 {
        "EMEDIUMTYPE"@
    } else if code == 125 {
        "ECANCELED"@
    } else if code == 126 {
        "ENOKEY"@
    } else if code == 127 {
        "EKEYEXPIRED"@
    } else if code == 128 {
        "EKEYREVOKED"@
    } else if code == 129 {
        "EKEYREJECTED"@
    } else if code == 130 {
        "EOWNERDEAD"@
    } else if code == 131 {
        "ENOTRECOVERABLE"@
    } else if code == 132 {
        "ERFKILL"@
    } else if code == 133 {
        "EHWPOISON"@
    } else {
        Seq::empty()
    }
}

/// The description of the error code, as a sequence of characters; empty for
/// codes that are not known.
pub open spec fn errno_desc_seq(code: int) -> Seq<char> {
    if 1 <= code && code < 45 {
        errno_desc_seq_a(code)
    } else if 45 <= code && code < 90 {
        errno_desc_seq_b(code)
    } else if 90 <= code && code < 134 {
        errno_desc_seq_c(code)
    } else {
        Seq::empty()
    }
}

pub open spec fn errno_desc_seq_a(code: int) -> Seq<char> {
    if code == 1 {
        "Operation not permitted"@
    } else if code == 2 {
        "No such file or directory"@
    } else if code == 3 {
        "No such process"@
    } else if code == 4 {
        "Interrupted system call"@
    } else if code == 5 {
        "I/O error"@
    } else if code == 6 {
        "No such device or address"@
    } else if code == 7 {
        "Argument list too long"@
    } else if code == 8 {
        "Exec format error"@
    } else if code == 9 {
        "Bad file number"@
    } else if code == 10 {
        "No child processes"@
    } else if code == 11 {
        "Try again"@
    } else if code == 12 {
        "Out of memory"@
    } else if code == 13 {
        "Permission denied"@
    } else if code == 14 {
        "Bad address"@
    } else if code == 15 {
        "Block device required"@
    } else if code == 16 {
        "Device or resource busy"@
    } else if code == 17 {
        "File exists"@
    } else if code == 18 {
        "Cross-device link"@
    } else if code == 19 {
        "No such device"@
    } else if code == 20 {
        "Not a directory"@
    } else if code == 21 {
        "Is a directory"@
    } else if code == 22 {
        "Invalid argument"@
    } else if code == 23 {
        "File table overflow"@
    } else if code == 24 {
        "Too many open files"@
    } else if code == 25 {
        "Not a typewriter"@
    } else if code == 26 {
        "Text file busy"@
    } else if code == 27 {
        "File too large"@
    } else if code == 28 {
        "No space left on device"@
    } else if code == 29 {
        "Illegal seek"@
    } else if code == 30 {
        "Read-only file system"@
    } else if code == 31 {
        "Too many links"@
    } else if code == 32 {
        "Broken pipe"@
    } else if code == 33 {
        "Math argument out of domain of func"@
    } else if code == 34 {
        "Math result not representable"@
    } else if code == 35 {
        "Resource deadlock would occur"@
    } else if code == 36 {
        "File name too long"@
    } else if code == 37 {
        "No record locks available"@
    } else if code == 38 {
        "Invalid system call number"@
    } else if code == 39 {
        "Directory not empty"@
    } else if code == 40 {
        "Too many symbolic links encountered"@
    } else if code == 42 {
        "No message of desired type"@
    } else if code == 43 {
        "Identifier removed"@
    } else if code == 44 {
        "Channel number out of range"@
    } else {
        Seq::empty()
    }
}

pub open spec fn errno_desc_seq_b(code: int) -> Seq<char> {
    if code == 45 {
        "Level 2 not synchronized"@
    } else if code == 46 {
        "Level 3 halted"@
    } else if code == 47 {
        "Level 3 reset"@
    } else if code == 48 {
        "Link number out of range"@
    } else if code == 49 {
        "Protocol driver not attached"@
    } else if code == 50 {
        "No CSI structure available"@
    } else if code == 51 {
        "Level 2 halted"@
    } else if code == 52 {
        "Invalid exchange"@
    } else if code == 53 {
        "Invalid request descriptor"@
    } else if code == 54 {
        "Exchange full"@
    } else if code == 55 {
        "No anode"@
    } else if code == 56 {
        "Invalid request code"@
    } else if code == 57 {
        "Invalid slot"@
    } else if code == 59 {
        "Bad font file format"@
    } else if code == 60 {
        "Device not a stream"@
    } else if code == 61 {
        "No data available"@
    } else if code == 62 {
        "Timer expired"@
    } else if code == 63 {
        "Out of streams resources"@
    } else if code == 64 {
        "Machine is not on the network"@
    } else if code == 65 {
        "Package not installed"@
    } else if code == 66 {
        "Object is remote"@
    } else if code == 67 {
        "Link has been severed"@
    } else if code == 68 {
        "Advertise error"@
    } else if code == 69 {
        "Srmount error"@
    } else if code == 70 {
        "Communication error on send"@
    } else if code == 71 {
        "Protocol error"@
    } else if code == 72 {
        "Multihop attempted"@
    } else if code == 73 {
        "RFS specific error"@
    } else if code == 74 {
        "Not a data message"@
    } else if code == 75 {
        "Value too large for defined data type"@
    } else if code == 76 {
        "Name not unique on network"@
    } else if code == 77 {
        "File descriptor in bad state"@
    } else if code == 78 {
        "Remote address changed"@
    } else if code == 79 {
        "Can not access a needed shared library"@
    } else if code == 80 {
        "Accessing a corrupted shared library"@
    } else if code == 81 {
        ".lib section in a.out corrupted"@
    } else if code == 82 {
        "Attempting to link in too many shared libraries"@
    } else if code == 83 {
        "Cannot exec a shared library directly"@
    } else if code == 84 {
        "Illegal byte sequence"@
    } else if code == 85 {
        "Interrupted system call should be restarted"@
    } else if code == 86 {
        "Streams pipe error"@
    } else if code == 87 {
        "Too many users"@
    } else if code == 88 {
        "Socket operation on non-socket"@
    } else if code == 89 {
        "Destination address required"@
    } else {
        Seq::empty()
    }
}

pub open spec fn errno_desc_seq_c(code: int) -> Seq<char> {
    if code == 90 {
        "Message too long"@
    } else if code == 91 {
        "Protocol wrong type for socket"@
    } else if code == 92 {
        "Protocol not available"@
    } else if code == 93 {
        "Protocol not supported"@
    } else if code == 94 {
        "Socket type not supported"@
    } else if code == 95 {
        "Operation not supported on transport endpoint"@
    } else if code == 96 {
        "Protocol family not supported"@
    } else if code == 97 {
        "Address family not supported by protocol"@
    } else if code == 98 {
        "Address already in use"@
    } else if code == 99 {
        "Cannot assign requested address"@
    } else if code == 100 {
        "Network is down"@
    } else if code == 101 {
        "Network is unreachable"@
    } else if code == 102 {
        "Network dropped connection because of reset"@
    } else if code == 103 {
        "Software caused connection abort"@
    } else if code == 104 {
        "Connection reset by peer"@
    } else if code == 105 {
        "No buffer space available"@
    } else if code == 106 {
        "Transport endpoint is already connected"@
    } else if code == 107 {
        "Transport endpoint is not connected"@
    } else if code == 108 {
        "Cannot send after transport endpoint shutdown"@
    } else if code == 109 {
        "Too many references: cannot splice"@
    } else if code == 110 {
        "Connection timed out"@
    } else if code == 111 {
        "Connection refused"@
    } else if code == 112 {
        "Host is down"@
    } else if code == 113 {
        "No route to host"@
    } else if code == 114 {
        "Operation already in progress"@
    } else if code == 115 {
        "Operation now in progress"@
    } else if code == 116 {
        "Stale file handle"@
    } else if code == 117 {
        "Structure needs cleaning"@
    } else if code == 118 {
        "Not a XENIX named type file"@
    } else if code == 119 {
        "No XENIX semaphores available"@
    } else if code == 120 {
        "Is a named type file"@
    } else if code == 121 {
        "Remote I/O error"@
    } else if code == 122 {
        "Quota exceeded"@
    } else if code == 123 {
        "No medium found"@
    } else if code == 124 {
        "Wrong medium type"@
    } else if code == 125 {
        "Operation Canceled"@
    } else if code == 126 {
        "Required key not available"@
    } else if code == 127 {
        "Key has expired"@
    } else if code == 128 {
        "Key has been revoked"@
    } else if code == 129 {
        "Key was rejected by service"@
    } else if code == 130 {
        "Owner died"@
    } else if code == 131 {
        "State not recoverable"@
    } else if code == 132 {
        "Operation not possible due to RF-kill"@
    } else if code == 133 {
        "Memory page has hardware error"@
    } else {
        Seq::empty()
    }
}

/// Looks up the static name and description of an error code, or `None`
/// for a code outside the known table.
pub(crate) fn errno_lookup(code: i32) -> (r: Option<(&'static str, &'static str)>)
    ensures
        match r {
            Some(p) => errno_known(code as int) && p.0@ == errno_name_seq(code as int)
                && p.1@ == errno_desc_seq(code as int) && p.0@.len() > 0 && p.1@.len() > 0,
            None => !errno_known(code as int),
        },
{
    if code < 1 || code >= 134 {
        None
    } else if code < 45 {
        errno_lookup_a(code)
    } else if code < 90 {
        errno_lookup_b(code)
    } else {
        errno_lookup_c(code)
    }
}

fn errno_lookup_a(code: i32) -> (r: Option<(&'static str, &'static str)>)
    requires
        1 <= code < 45,
    ensures
        match r {
            Some(p) => errno_known(code as int) && p.0@ == errno_name_seq_a(code as int)
                && p.1@ == errno_desc_seq_a(code as int) && p.0@.len() > 0 && p.1@.len() > 0,
            None => !errno_known(code as int),
        },
{
    match code {
        1 => {
            proof {
                reveal_strlit("EPERM");
                reveal_strlit("Operation not permitted");
            }
            Some(("EPERM", "Operation not permitted"))
        },
        2 => {
            proof {
                reveal_strlit("ENOENT");
                reveal_strlit("No such file or directory");
            }
            Some(("ENOENT", "No such file or directory"))
        },
        3 => {
            proof {
                reveal_strlit("ESRCH");
                reveal_strlit("No such process");
            }
            Some(("ESRCH", "No such process"))
        },
        4 => {
            proof {
                reveal_strlit("EINTR");
                reveal_strlit("Interrupted system call");
            }
            Some(("EINTR", "Interrupted system call"))
        },
        5 => {
            proof {
                reveal_strlit("EIO");
                reveal_strlit("I/O error");
            }
            Some(("EIO", "I/O error"))
        },
        6 => {
            proof {
                reveal_strlit("ENXIO");
                reveal_strlit("No such device or address");
            }
            Some(("ENXIO", "No such device or address"))
        },
        7 => {
            proof {
                reveal_strlit("E2BIG");
                reveal_strlit("Argument list too long");
            }
            Some(("E2BIG", "Argument list too long"))
        },
        8 => {
            proof {
                reveal_strlit("ENOEXEC");
                reveal_strlit("Exec format error");
            }
            Some(("ENOEXEC", "Exec format error"))
        },
        9 => {
            proof {
                reveal_strlit("EBADF");
                reveal_strlit("Bad file number");
            }
            Some(("EBADF", "Bad file number"))
        },
        10 => {
            proof {
                reveal_strlit("ECHILD");
                reveal_strlit("No child processes");
            }
            Some(("ECHILD", "No child processes"))
        },
        11 => {
            proof {
                reveal_strlit("EAGAIN");
                reveal_strlit("Try again");
            }
            Some(("EAGAIN", "Try again"))
        },
        12 => {
            proof {
                reveal_strlit("ENOMEM");
                reveal_strlit("Out of memory");
            }
            Some(("ENOMEM", "Out of memory"))
        },
        13 => {
            proof {
                reveal_strlit("EACCES");
                reveal_strlit("Permission denied");
            }
            Some(("EACCES", "Permission denied"))
        },
        14 => {
            proof {
                reveal_strlit("EFAULT");
                reveal_strlit("Bad address");
            }
            Some(("EFAULT", "Bad address"))
        },
        15 => {
            proof {
                reveal_strlit("ENOTBLK");
                reveal_strlit("Block device required");
            }
            Some(("ENOTBLK", "Block device required"))
        },
        16 => {
            proof {
                reveal_strlit("EBUSY");
                reveal_strlit("Device or resource busy");
            }
            Some(("EBUSY", "Device or resource busy"))
        },
        17 => {
            proof {
                reveal_strlit("EEXIST");
                reveal_strlit("File exists");
            }
            Some(("EEXIST", "File exists"))
        },
        18 => {
            proof {
                reveal_strlit("EXDEV");
                reveal_strlit("Cross-device link");
            }
            Some(("EXDEV", "Cross-device link"))
        },
        19 => {
            proof {
                reveal_strlit("ENODEV");
                reveal_strlit("No such device");
            }
            Some(("ENODEV", "No such device"))
        },
        20 => {
            proof {
                reveal_strlit("ENOTDIR");
                reveal_strlit("Not a directory");
            }
            Some(("ENOTDIR", "Not a directory"))
        },
        21 => {
            proof {
                reveal_strlit("EISDIR");
                reveal_strlit("Is a directory");
            }
            Some(("EISDIR", "Is a directory"))
        },
        22 => {
            proof {
                reveal_strlit("EINVAL");
                reveal_strlit("Invalid argument");
            }
            Some(("EINVAL", "Invalid argument"))
        },
        23 => {
            proof {
                reveal_strlit("ENFILE");
                reveal_strlit("File table overflow");
            }
            Some(("ENFILE", "File table overflow"))
        },
        24 => {
            proof {
                reveal_strlit("EMFILE");
                reveal_strlit("Too many open files");
            }
            Some(("EMFILE", "Too many open files"))
        },
        25 => {
            proof {
                reveal_strlit("ENOTTY");
                reveal_strlit("Not a typewriter");
            }
            Some(("ENOTTY", "Not a typewriter"))
        },
        26 => {
            proof {
                reveal_strlit("ETXTBSY");
                reveal_strlit("Text file busy");
            }
            Some(("ETXTBSY", "Text file busy"))
        },
        27 => {
            proof {
                reveal_strlit("EFBIG");
                reveal_strlit("File too large");
            }
            Some(("EFBIG", "File too large"))
        },
        28 => {
            proof {
                reveal_strlit("ENOSPC");
                reveal_strlit("No space left on device");
            }
            Some(("ENOSPC", "No space left on device"))
        },
        29 => {
            proof {
                reveal_strlit("ESPIPE");
                reveal_strlit("Illegal seek");
            }
            Some(("ESPIPE", "Illegal seek"))
        },
        30 => {
            proof {
                reveal_strlit("EROFS");
                reveal_strlit("Read-only file system");
            }
            Some(("EROFS", "Read-only file system"))
        },
        31 => {
            proof {
                reveal_strlit("EMLINK");
                reveal_strlit("Too many links");
            }
            Some(("EMLINK", "Too many links"))
        },
        32 => {
            proof {
                reveal_strlit("EPIPE");
                reveal_strlit("Broken pipe");
            }
            Some(("EPIPE", "Broken pipe"))
        },
        33 => {
            proof {
                reveal_strlit("EDOM");
                reveal_strlit("Math argument out of domain of func");
            }
            Some(("EDOM", "Math argument out of domain of func"))
        },
        34 => {
            proof {
                reveal_strlit("ERANGE");
                reveal_strlit("Math result not representable");
            }
            Some(("ERANGE", "Math result not representable"))
        },
        35 => {
            proof {
                reveal_strlit("EDEADLK");
                reveal_strlit("Resource deadlock would occur");
            }
            Some(("EDEADLK", "Resource deadlock would occur"))
        },
        36 => {
            proof {
                reveal_strlit("ENAMETOOLONG");
                reveal_strlit("File name too long");
            }
            Some(("ENAMETOOLONG", "File name too long"))
        },
        37 => {
            proof {
                reveal_strlit("ENOLCK");
                reveal_strlit("No record locks available");
            }
            Some(("ENOLCK", "No record locks available"))
        },
        38 => {
            proof {
                reveal_strlit("ENOSYS");
                reveal_strlit("Invalid system call number");
            }
            Some(("ENOSYS", "Invalid system call number"))
        },
        39 => {
            proof {
                reveal_strlit("ENOTEMPTY");
                reveal_strlit("Directory not empty");
            }
            Some(("ENOTEMPTY", "Directory not empty"))
        },
        40 => {
            proof {
                reveal_strlit("ELOOP");
                reveal_strlit("Too many symbolic links encountered");
            }
            Some(("ELOOP", "Too many symbolic links encountered"))
        },
        42 => {
            proof {
                reveal_strlit("ENOMSG");
                reveal_strlit("No message of desired type");
            }
            Some(("ENOMSG", "No message of desired type"))
        },
        43 => {
            proof {
                reveal_strlit("EIDRM");
                reveal_strlit("Identifier removed");
            }
            Some(("EIDRM", "Identifier removed"))
        },
        44 => {
            proof {
                reveal_strlit("ECHRNG");
                reveal_strlit("Channel number out of range");
            }
            Some(("ECHRNG", "Channel number out of range"))
        },
        _ => None,
    }
}

fn errno_lookup_b(code: i32) -> (r: Option<(&'static str, &'static str)>)
    requires
        45 <= code < 90,
    ensures
        match r {
            Some(p) => errno_known(code as int) && p.0@ == errno_name_seq_b(code as int)
                && p.1@ == errno_desc_seq_b(code as int) && p.0@.len() > 0 && p.1@.len() > 0,
            None => !errno_known(code as int),
        },
{
    match code {
        45 => {
            proof {
                reveal_strlit("EL2NSYNC");
                reveal_strlit("Level 2 not synchronized");
            }
            Some(("EL2NSYNC", "Level 2 not synchronized"))
        },
        46 => {
            proof {
                reveal_strlit("EL3HLT");
                reveal_strlit("Level 3 halted");
            }
            Some(("EL3HLT", "Level 3 halted"))
        },
        47 => {
            proof {
                reveal_strlit("EL3RST");
                reveal_strlit("Level 3 reset");
            }
            Some(("EL3RST", "Level 3 reset"))
        },
        48 => {
            proof {
                reveal_strlit("ELNRNG");
                reveal_strlit("Link number out of range");
            }
            Some(("ELNRNG", "Link number out of range"))
        },
        49 => {
            proof {
                reveal_strlit("EUNATCH");
                reveal_strlit("Protocol driver not attached");
            }
            Some(("EUNATCH", "Protocol driver not attached"))
        },
        50 => {
            proof {
                reveal_strlit("ENOCSI");
                reveal_strlit("No CSI structure available");
            }
            Some(("ENOCSI", "No CSI structure available"))
        },
        51 => {
            proof {
                reveal_strlit("EL2HLT");
                reveal_strlit("Level 2 halted");
            }
            Some(("EL2HLT", "Level 2 halted"))
        },
        52 => {
            proof {
                reveal_strlit("EBADE");
                reveal_strlit("Invalid exchange");
            }
            Some(("EBADE", "Invalid exchange"))
        },
        53 => {
            proof {
                reveal_strlit("EBADR");
                reveal_strlit("Invalid request descriptor");
            }
            Some(("EBADR", "Invalid request descriptor"))
        },
        54 => {
            proof {
                reveal_strlit("EXFULL");
                reveal_strlit("Exchange full");
            }
            Some(("EXFULL", "Exchange full"))
        },
        55 => {
            proof {
                reveal_strlit("ENOANO");
                reveal_strlit("No anode");
            }
            Some(("ENOANO", "No anode"))
        },
        56 => {
            proof {
                reveal_strlit("EBADRQC");
                reveal_strlit("Invalid request code");
            }
            Some(("EBADRQC", "Invalid request code"))
        },
        57 => {
            proof {
                reveal_strlit("EBADSLT");
                reveal_strlit("Invalid slot");
            }
            Some(("EBADSLT", "Invalid slot"))
        },
        59 => {
            proof {
                reveal_strlit("EBFONT");
                reveal_strlit("Bad font file format");
            }
            Some(("EBFONT", "Bad font file format"))
        },
        60 => {
            proof {
                reveal_strlit("ENOSTR");
                reveal_strlit("Device not a stream");
            }
            Some(("ENOSTR", "Device not a stream"))
        },
        61 => {
            proof {
                reveal_strlit("ENODATA");
                reveal_strlit("No data available");
            }
            Some(("ENODATA", "No data available"))
        },
        62 => {
            proof {
                reveal_strlit("ETIME");
                reveal_strlit("Timer expired");
            }
            Some(("ETIME", "Timer expired"))
        },
        63 => {
            proof {
                reveal_strlit("ENOSR");
                reveal_strlit("Out of streams resources");
            }
            Some(("ENOSR", "Out of streams resources"))
        },
        64 => {
            proof {
                reveal_strlit("ENONET");
                reveal_strlit("Machine is not on the network");
            }
            Some(("ENONET", "Machine is not on the network"))
        },
        65 => {
            proof {
                reveal_strlit("ENOPKG");
                reveal_strlit("Package not installed");
            }
            Some(("ENOPKG", "Package not installed"))
        },
        66 => {
            proof {
                reveal_strlit("EREMOTE");
                reveal_strlit("Object is remote");
            }
            Some(("EREMOTE", "Object is remote"))
        },
        67 => {
            proof {
                reveal_strlit("ENOLINK");
                reveal_strlit("Link has been severed");
            }
            Some(("ENOLINK", "Link has been severed"))
        },
        68 => {
            proof {
                reveal_strlit("EADV");
                reveal_strlit("Advertise error");
            }
            Some(("EADV", "Advertise error"))
        },
        69 => {
            proof {
                reveal_strlit("ESRMNT");
                reveal_strlit("Srmount error");
            }
            Some(("ESRMNT", "Srmount error"))
        },
        70 => {
            proof {
                reveal_strlit("ECOMM");
                reveal_strlit("Communication error on send");
            }
            Some(("ECOMM", "Communication error on send"))
        },
        71 => {
            proof {
                reveal_strlit("EPROTO");
                reveal_strlit("Protocol error");
            }
            Some(("EPROTO", "Protocol error"))
        },
        72 => {
            proof {
                reveal_strlit("EMULTIHOP");
                reveal_strlit("Multihop attempted");
            }
            Some(("EMULTIHOP", "Multihop attempted"))
        },
        73 => {
            proof {
                reveal_strlit("EDOTDOT");
                reveal_strlit("RFS specific error");
            }
            Some(("EDOTDOT", "RFS specific error"))
        },
        74 => {
            proof {
                reveal_strlit("EBADMSG");
                reveal_strlit("Not a data message");
            }
            Some(("EBADMSG", "Not a data message"))
        },
        75 => {
            proof {
                reveal_strlit("EOVERFLOW");
                reveal_strlit("Value too large for defined data type");
            }
            Some(("EOVERFLOW", "Value too large for defined data type"))
        },
        76 => {
            proof {
                reveal_strlit("ENOTUNIQ");
                reveal_strlit("Name not unique on network");
            }
            Some(("ENOTUNIQ", "Name not unique on network"))
        },
        77 => {
            proof {
                reveal_strlit("EBADFD");
                reveal_strlit("File descriptor in bad state");
            }
            Some(("EBADFD", "File descriptor in bad state"))
        },
        78 => {
            proof {
                reveal_strlit("EREMCHG");
                reveal_strlit("Remote address changed");
            }
            Some(("EREMCHG", "Remote address changed"))
        },
        79 => {
            proof {
                reveal_strlit("ELIBACC");
                reveal_strlit("Can not access a needed shared library");
            }
            Some(("ELIBACC", "Can not access a needed shared library"))
        },
        80 => {
            proof {
                reveal_strlit("ELIBBAD");
                reveal_strlit("Accessing a corrupted shared library");
            }
            Some(("ELIBBAD", "Accessing a corrupted shared library"))
        },
        81 => {
            proof {
                reveal_strlit("ELIBSCN");
                reveal_strlit(".lib section in a.out corrupted");
            }
            Some(("ELIBSCN", ".lib section in a.out corrupted"))
        },
        82 => {
            proof {
                reveal_strlit("ELIBMAX");
                reveal_strlit("Attempting to link in too many shared libraries");
            }
            Some(("ELIBMAX", "Attempting to link in too many shared libraries"))
        },
        83 => {
            proof {
                reveal_strlit("ELIBEXEC");
                reveal_strlit("Cannot exec a shared library directly");
            }
            Some(("ELIBEXEC", "Cannot exec a shared library directly"))
        },
        84 => {
            proof {
                reveal_strlit("EILSEQ");
                reveal_strlit("Illegal byte sequence");
            }
            Some(("EILSEQ", "Illegal byte sequence"))
        },
        85 => {
            proof {
                reveal_strlit("ERESTART");
                reveal_strlit("Interrupted system call should be restarted");
            }
            Some(("ERESTART", "Interrupted system call should be restarted"))
        },
        86 => {
            proof {
                reveal_strlit("ESTRPIPE");
                reveal_strlit("Streams pipe error");
            }
            Some(("ESTRPIPE", "Streams pipe error"))
        },
        87 => {
            proof {
                reveal_strlit("EUSERS");
                reveal_strlit("Too many users");
            }
            Some(("EUSERS", "Too many users"))
        },
        88 => {
            proof {
                reveal_strlit("ENOTSOCK");
                reveal_strlit("Socket operation on non-socket");
            }
            Some(("ENOTSOCK", "Socket operation on non-socket"))
        },
        89 => {
            proof {
                reveal_strlit("EDESTADDRREQ");
                reveal_strlit("Destination address required");
            }
            Some(("EDESTADDRREQ", "Destination address required"))
        },
        _ => None,
    }
}

fn errno_lookup_c(code: i32) -> (r: Option<(&'static str, &'static str)>)
    requires
        90 <= code < 134,
    ensures
        match r {
            Some(p) => errno_known(code as int) && p.0@ == errno_name_seq_c(code as int)
                && p.1@ == errno_desc_seq_c(code as int) && p.0@.len() > 0 && p.1@.len() > 0,
            None => !errno_known(code as int),
        },
{
    match code {
        90 => {
            proof {
                reveal_strlit("EMSGSIZE");
                reveal_strlit("Message too long");
            }
            Some(("EMSGSIZE", "Message too long"))
        },
        91 => {
            proof {
                reveal_strlit("EPROTOTYPE");
                reveal_strlit("Protocol wrong type for socket");
            }
            Some(("EPROTOTYPE", "Protocol wrong type for socket"))
        },
        92 => {
            proof {
                reveal_strlit("ENOPROTOOPT");
                reveal_strlit("Protocol not available");
            }
            Some(("ENOPROTOOPT", "Protocol not available"))
        },
        93 => {
            proof {
                reveal_strlit("EPROTONOSUPPORT");
                reveal_strlit("Protocol not supported");
            }
            Some(("EPROTONOSUPPORT", "Protocol not supported"))
        },
        94 => {
            proof {
                reveal_strlit("ESOCKTNOSUPPORT");
                reveal_strlit("Socket type not supported");
            }
            Some(("ESOCKTNOSUPPORT", "Socket type not supported"))
        },
        95 => {
            proof {
                reveal_strlit("EOPNOTSUPP");
                reveal_strlit("Operation not supported on transport endpoint");
            }
            Some(("EOPNOTSUPP", "Operation not supported on transport endpoint"))
        },
        96 => {
            proof {
                reveal_strlit("EPFNOSUPPORT");
                reveal_strlit("Protocol family not supported");
            }
            Some(("EPFNOSUPPORT", "Protocol family not supported"))
        },
        97 => {
            proof {
                reveal_strlit("EAFNOSUPPORT");
                reveal_strlit("Address family not supported by protocol");
            }
            Some(("EAFNOSUPPORT", "Address family not supported by protocol"))
        },
        98 => {
            proof {
                reveal_strlit("EADDRINUSE");
                reveal_strlit("Address already in use");
            }
            Some(("EADDRINUSE", "Address already in use"))
        },
        99 => {
            proof {
                reveal_strlit("EADDRNOTAVAIL");
                reveal_strlit("Cannot assign requested address");
            }
            Some(("EADDRNOTAVAIL", "Cannot assign requested address"))
        },
        100 => {
            proof {
                reveal_strlit("ENETDOWN");
                reveal_strlit("Network is down");
            }
            Some(("ENETDOWN", "Network is down"))
        },
        101 => {
            proof {
                reveal_strlit("ENETUNREACH");
                reveal_strlit("Network is unreachable");
            }
            Some(("ENETUNREACH", "Network is unreachable"))
        },
        102 => {
            proof {
                reveal_strlit("ENETRESET");
                reveal_strlit("Network dropped connection because of reset");
            }
            Some(("ENETRESET", "Network dropped connection because of reset"))
        },
        103 => {
            proof {
                reveal_strlit("ECONNABORTED");
                reveal_strlit("Software caused connection abort");
            }
            Some(("ECONNABORTED", "Software caused connection abort"))
        },
        104 => {
            proof {
                reveal_strlit("ECONNRESET");
                reveal_strlit("Connection reset by peer");
            }
            Some(("ECONNRESET", "Connection reset by peer"))
        },
        105 => {
            proof {
                reveal_strlit("ENOBUFS");
                reveal_strlit("No buffer space available");
            }
            Some(("ENOBUFS", "No buffer space available"))
        },
        106 => {
            proof {
                reveal_strlit("EISCONN");
                reveal_strlit("Transport endpoint is already connected");
            }
            Some(("EISCONN", "Transport endpoint is already connected"))
        },
        107 => {
            proof {
                reveal_strlit("ENOTCONN");
                reveal_strlit("Transport endpoint is not connected");
            }
            Some(("ENOTCONN", "Transport endpoint is not connected"))
        },
        108 => {
            proof {
                reveal_strlit("ESHUTDOWN");
                reveal_strlit("Cannot send after transport endpoint shutdown");
            }
            Some(("ESHUTDOWN", "Cannot send after transport endpoint shutdown"))
        },
        109 => {
            proof {
                reveal_strlit("ETOOMANYREFS");
                reveal_strlit("Too many references: cannot splice");
            }
            Some(("ETOOMANYREFS", "Too many references: cannot splice"))
        },
        110 => {
            proof {
                reveal_strlit("ETIMEDOUT");
                reveal_strlit("Connection timed out");
            }
            Some(("ETIMEDOUT", "Connection timed out"))
        },
        111 => {
            proof {
                reveal_strlit("ECONNREFUSED");
                reveal_strlit("Connection refused");
            }
            Some(("ECONNREFUSED", "Connection refused"))
        },
        112 => {
            proof {
                reveal_strlit("EHOSTDOWN");
                reveal_strlit("Host is down");
            }
            Some(("EHOSTDOWN", "Host is down"))
        },
        113 => {
            proof {
                reveal_strlit("EHOSTUNREACH");
                reveal_strlit("No route to host");
            }
            Some(("EHOSTUNREACH", "No route to host"))
        },
        114 => {
            proof {
                reveal_strlit("EALREADY");
                reveal_strlit("Operation already in progress");
            }
            Some(("EALREADY", "Operation already in progress"))
        },
        115 => {
            proof {
                reveal_strlit("EINPROGRESS");
                reveal_strlit("Operation now in progress");
            }
            Some(("EINPROGRESS", "Operation now in progress"))
        },
        116 => {
            proof {
                reveal_strlit("ESTALE");
                reveal_strlit("Stale file handle");
            }
            Some(("ESTALE", "Stale file handle"))
        },
        117 => {
            proof {
                reveal_strlit("EUCLEAN");
                reveal_strlit("Structure needs cleaning");
            }
            Some(("EUCLEAN", "Structure needs cleaning"))
        },
        118 => {
            proof {
                reveal_strlit("ENOTNAM");
                reveal_strlit("Not a XENIX named type file");
            }
            Some(("ENOTNAM", "Not a XENIX named type file"))
        },
        119 => {
            proof {
                reveal_strlit("ENAVAIL");
                reveal_strlit("No XENIX semaphores available");
            }
            Some(("ENAVAIL", "No XENIX semaphores available"))
        },
        120 => {
            proof {
                reveal_strlit("EISNAM");
                reveal_strlit("Is a named type file");
            }
            Some(("EISNAM", "Is a named type file"))
        },
        121 => {
            proof {
                reveal_strlit("EREMOTEIO");
                reveal_strlit("Remote I/O error");
            }
            Some(("EREMOTEIO", "Remote I/O error"))
        },
        122 => {
            proof {
                reveal_strlit("EDQUOT");
                reveal_strlit("Quota exceeded");
            }
            Some(("EDQUOT", "Quota exceeded"))
        },
        123 => {
            proof {
                reveal_strlit("ENOMEDIUM");
                reveal_strlit("No medium found");
            }
            Some(("ENOMEDIUM", "No medium found"))
        },
        124 => {
            proof {
                reveal_strlit("EMEDIUMTYPE");
                reveal_strlit("Wrong medium type");
            }
            Some(("EMEDIUMTYPE", "Wrong medium type"))
        },
        125 => {
            proof {
                reveal_strlit("ECANCELED");
                reveal_strlit("Operation Canceled");
            }
            Some(("ECANCELED", "Operation Canceled"))
        },
        126 => {
            proof {
                reveal_strlit("ENOKEY");
                reveal_strlit("Required key not available");
            }
            Some(("ENOKEY", "Required key not available"))
        },
        127 => {
            proof {
                reveal_strlit("EKEYEXPIRED");
                reveal_strlit("Key has expired");
            }
            Some(("EKEYEXPIRED", "Key has expired"))
        },
        128 => {
            proof {
                reveal_strlit("EKEYREVOKED");
                reveal_strlit("Key has been revoked");
            }
            Some(("EKEYREVOKED", "Key has been revoked"))
        },
        129 => {
            proof {
                reveal_strlit("EKEYREJECTED");
                reveal_strlit("Key was rejected by service");
            }
            Some(("EKEYREJECTED", "Key was rejected by service"))
        },
        130 => {
            proof {
                reveal_strlit("EOWNERDEAD");
                reveal_strlit("Owner died");
            }
            Some(("EOWNERDEAD", "Owner died"))
        },
        131 => {
            proof {
                reveal_strlit("ENOTRECOVERABLE");
                reveal_strlit("State not recoverable");
            }
            Some(("ENOTRECOVERABLE", "State not recoverable"))
        },
        132 => {
            proof {
                reveal_strlit("ERFKILL");
                reveal_strlit("Operation not possible due to RF-kill");
            }
            Some(("ERFKILL", "Operation not possible due to RF-kill"))
        },
        133 => {
            proof {
                reveal_strlit("EHWPOISON");
                reveal_strlit("Memory page has hardware error");
            }
            Some(("EHWPOISON", "Memory page has hardware error"))
        },
        _ => None,
    }
}

} // verus!
