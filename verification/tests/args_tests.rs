use syscalls::args6::SyscallArgs as SyscallArgs6;
use syscalls::SyscallArgs;
use syscalls::SyscallRet;

#[test]
fn args_syscall_args_from_u64_slice() {
    assert_eq!(
        SyscallArgs::from(&[1, 2, 3, 4, 5, 6]),
        SyscallArgs::new(1, 2, 3, 4, 5, 6)
    );
    assert_eq!(
        SyscallArgs::from(&[1, 2, 3, 4, 5]),
        SyscallArgs::new(1, 2, 3, 4, 5, 0)
    );
    assert_eq!(
        SyscallArgs::from(&[1, 2, 3, 4]),
        SyscallArgs::new(1, 2, 3, 4, 0, 0)
    );
    assert_eq!(
        SyscallArgs::from(&[1, 2, 3]),
        SyscallArgs::new(1, 2, 3, 0, 0, 0)
    );
    assert_eq!(SyscallArgs::from(&[1, 2]), SyscallArgs::new(1, 2, 0, 0, 0, 0));
    assert_eq!(SyscallArgs::from(&[1]), SyscallArgs::new(1, 0, 0, 0, 0, 0));
    assert_eq!(SyscallArgs::from(&[0]), SyscallArgs::new(0, 0, 0, 0, 0, 0));
}

#[test]
fn args6_syscall_args_from_u64_slice() {
    assert_eq!(
        SyscallArgs6::from(&[1, 2, 3, 4, 5, 6]),
        SyscallArgs6::new(1, 2, 3, 4, 5, 6)
    );
    assert_eq!(
        SyscallArgs6::from(&[1, 2, 3, 4, 5]),
        SyscallArgs6::new(1, 2, 3, 4, 5, 0)
    );
    assert_eq!(
        SyscallArgs6::from(&[1, 2, 3, 4]),
        SyscallArgs6::new(1, 2, 3, 4, 0, 0)
    );
    assert_eq!(
        SyscallArgs6::from(&[1, 2, 3]),
        SyscallArgs6::new(1, 2, 3, 0, 0, 0)
    );
    assert_eq!(
        SyscallArgs6::from(&[1, 2]),
        SyscallArgs6::new(1, 2, 0, 0, 0, 0)
    );
    assert_eq!(SyscallArgs6::from(&[1]), SyscallArgs6::new(1, 0, 0, 0, 0, 0));
    assert_eq!(SyscallArgs6::from(&[0]), SyscallArgs6::new(0, 0, 0, 0, 0, 0));
}

#[test]
fn syscall_ret_err_test() {
    let ok_value = 0x7fff_1234_5678i64;
    let err_value = 22i64;
    let ok1: Result<i64, i64> = Ok(ok_value);
    assert_eq!(SyscallRet::from(ok1), SyscallRet::from(ok_value));

    let err1: Result<i64, i64> = Err(err_value);
    assert_eq!(SyscallRet::from(err1), SyscallRet::from(-err_value as i64));

    let ok2: Result<i64, i32> = Ok(ok_value);
    assert_eq!(SyscallRet::from(ok2), SyscallRet::from(ok_value));

    let err2: Result<i64, i32> = Err(err_value as i32);
    assert_eq!(SyscallRet::from(err2), SyscallRet::from(-err_value as i64));

    let res1: SyscallRet = ok1.into();
    assert_eq!(res1, SyscallRet::from(ok_value));

    let res2: SyscallRet = err1.into();
    assert_eq!(res2, SyscallRet::from(-err_value as i64));

    let ok1_1: Result<i64, i64> = res1.into();
    assert_eq!(ok1_1, ok1);

    let err1_1: Result<i64, i64> = res2.into();
    assert_eq!(err1_1, err1);
}

#[test]
fn syscall_ret_roundtrip_i32_error() {
    let err: Result<i64, i32> = Err(9);
    let packed: SyscallRet = err.into();
    assert_eq!(packed, SyscallRet::from(-9i64));
    let back: Result<i64, i32> = packed.into();
    assert_eq!(back, err);
}

#[test]
fn syscall_ret_helper_window() {
    assert_eq!(syscalls::helper::syscall_ret(7), Ok(7));
    assert_eq!(syscalls::helper::syscall_ret(-1), Err(1));
    assert_eq!(syscalls::helper::syscall_ret(-4096), Err(4096));
    assert_eq!(syscalls::helper::syscall_ret(-4097), Ok(-4097));
    assert_eq!(syscalls::helper::syscall_ret(0), Ok(0));
}
