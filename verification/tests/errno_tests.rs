use std::io;
use syscalls::Errno;
use syscalls::ErrnoSentinel;

#[test]
fn basic() {
    assert_eq!(Errno::ENOENT().name(), Some("ENOENT"));
    assert_eq!(
        Errno::ENOENT().description(),
        Some("No such file or directory")
    );
    assert_eq!(
        Errno::ENOENT().display_string(),
        "-2 ENOENT (No such file or directory)"
    );
    assert_eq!(Errno::ENOENT().debug_string(), "ENOENT");
}

#[test]
fn from_ret() {
    assert_eq!(Errno::from_ret(-2isize as usize), Err(Errno::ENOENT()));
    assert_eq!(Errno::from_ret(2), Ok(2));
}

#[test]
fn io_error() {
    assert_eq!(
        io::Error::from_raw_os_error(Errno::ENOENT().into_raw()).kind(),
        io::ErrorKind::NotFound
    );

    assert_eq!(
        Errno::from_io_error(io::Error::from_raw_os_error(2)),
        Some(Errno::ENOENT())
    );

    assert_eq!(
        Errno::from_io_error(io::Error::new(io::ErrorKind::Other, "")),
        None
    );
}

#[test]
fn from_ret_window_edges() {
    assert_eq!(Errno::from_ret(usize::MAX), Err(Errno::EPERM()));
    assert_eq!(Errno::from_ret(usize::MAX - 4094), Err(Errno::new(4095)));
    assert_eq!(Errno::from_ret(usize::MAX - 4095), Ok(usize::MAX - 4095));
    assert_eq!(Errno::from_ret(0), Ok(0));
    let err = Errno::from_ret(-9isize as usize).unwrap_err();
    assert_eq!(-(-9isize), err.into_raw() as isize);
}

#[test]
fn new_and_validity() {
    assert_eq!(Errno::new(2), Errno::ENOENT());
    assert_eq!(Errno::new(2).into_raw(), 2);
    assert!(Errno::new(4095).is_valid());
    assert!(!Errno::new(4096).is_valid());
    assert!(Errno::new(0).is_valid());
    assert!(!Errno::new(-5).is_valid());
}

#[test]
fn unknown_codes() {
    assert_eq!(Errno::new(200).name(), None);
    assert_eq!(Errno::new(200).description(), None);
    assert_eq!(Errno::new(200).display_string(), "-200");
    assert_eq!(Errno::new(200).debug_string(), "Errno(200)");
    assert_eq!(Errno::new(-3).display_string(), "3");
    assert_eq!(Errno::new(-3).debug_string(), "Errno(-3)");
    assert_eq!(Errno::new(0).display_string(), "0");
    assert_eq!(Errno::new(41).name(), None);
    assert_eq!(Errno::new(58).name(), None);
}

#[test]
fn invalid_codes_display_hex() {
    assert_eq!(Errno::new(4096).display_string(), "Invalid errno 0x1000");
    assert_eq!(Errno::new(65535).display_string(), "Invalid errno 0xffff");
}

#[test]
fn known_table_edges() {
    assert_eq!(Errno::EPERM().name(), Some("EPERM"));
    assert_eq!(Errno::new(133).name(), Some("EHWPOISON"));
    assert_eq!(Errno::new(134).name(), None);
    assert_eq!(Errno::EAGAIN(), Errno::EWOULDBLOCK());
    assert_eq!(Errno::EDEADLK(), Errno::EDEADLOCK());
    assert_eq!(Errno::EBADF().description(), Some("Bad file number"));
}

#[test]
fn result_checks_the_sentinel() {
    assert_eq!(Errno::result(5i32), Ok(5));
    assert_eq!(Errno::result(0i64), Ok(0));
    assert!(Errno::result(-1i32).is_err());
    assert!(Errno::result(-1i64).is_err());
    assert!(Errno::result(usize::MAX).is_err());
    assert_eq!(<i32 as ErrnoSentinel>::sentinel(), -1);
    assert_eq!(<i64 as ErrnoSentinel>::sentinel(), -1);
    assert_eq!(<isize as ErrnoSentinel>::sentinel(), -1);
    assert_eq!(<usize as ErrnoSentinel>::sentinel(), usize::MAX);
}
