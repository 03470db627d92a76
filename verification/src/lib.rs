//! Raw Linux system-call support for x86_64: a validated syscall identity
//! type, errno translation for raw result words, and bit-packed set and map
//! containers keyed by syscall identity.

pub mod arch;
pub mod args;
pub mod args6;
pub mod errno;
pub mod errno_table;
pub mod helper;
pub mod laws;
pub mod map;
pub mod set;
pub mod sysno;
pub mod text;

pub use args::SyscallArgs;
pub use args::SyscallRet;
pub use errno::Errno;
pub use errno::ErrnoSentinel;
pub use map::SysnoMap;
pub use map::SysnoMapIter;
pub use map::SysnoMapValues;
pub use set::SysnoSet;
pub use set::SysnoSetIter;
pub use sysno::Sysno;
