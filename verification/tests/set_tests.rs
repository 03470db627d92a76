use syscalls::set::{bits_per, words};
use syscalls::Sysno;
use syscalls::SysnoSet;

#[test]
fn test_words() {
    assert_eq!(words::<u64>(42), 1);
    assert_eq!(words::<u64>(0), 0);
    assert_eq!(words::<u32>(42), 2);
    assert_eq!(words::<()>(42), 0);
}

#[test]
fn test_bits_per() {
    assert_eq!(bits_per::<()>(), 0);
    assert_eq!(bits_per::<u8>(), 8);
    assert_eq!(bits_per::<u32>(), 32);
    assert_eq!(bits_per::<u64>(), 64);
}

#[test]
fn set_test_default() {
    assert_eq!(SysnoSet::default(), SysnoSet::empty());
}

#[test]
fn test_const_new() {
    let syscall_set = SysnoSet::new(&[Sysno::openat(), Sysno::read(), Sysno::close()]);

    assert!(syscall_set.contains(Sysno::openat()));
    assert!(syscall_set.contains(Sysno::read()));
    assert!(syscall_set.contains(Sysno::close()));
    assert!(!syscall_set.contains(Sysno::write()));
}

#[test]
fn test_contains() {
    let set = SysnoSet::empty();
    assert!(!set.contains(Sysno::openat()));
    assert!(!set.contains(Sysno::first()));
    assert!(!set.contains(Sysno::last()));

    let set = SysnoSet::all();
    assert!(set.contains(Sysno::openat()));
    assert!(set.contains(Sysno::first()));
    assert!(set.contains(Sysno::last()));
}

#[test]
fn set_test_is_empty() {
    let mut set = SysnoSet::empty();
    assert!(set.is_empty());
    assert!(set.insert(Sysno::openat()));
    assert!(!set.is_empty());
    assert!(set.remove(Sysno::openat()));
    assert!(set.is_empty());
    assert!(set.insert(Sysno::last()));
    assert!(!set.is_empty());
}

#[test]
fn set_test_count() {
    let mut set = SysnoSet::empty();
    assert_eq!(set.count(), 0);
    assert!(set.insert(Sysno::openat()));
    assert!(set.insert(Sysno::last()));
    assert_eq!(set.count(), 2);
}

#[test]
fn test_insert() {
    let mut set = SysnoSet::empty();
    assert!(set.insert(Sysno::openat()));
    assert!(set.insert(Sysno::read()));
    assert!(set.insert(Sysno::close()));
    assert!(set.contains(Sysno::openat()));
    assert!(set.contains(Sysno::read()));
    assert!(set.contains(Sysno::close()));
    assert_eq!(set.count(), 3);
}

#[test]
fn test_remove() {
    let mut set = SysnoSet::all();
    assert!(set.remove(Sysno::openat()));
    assert!(!set.contains(Sysno::openat()));
    assert!(set.contains(Sysno::close()));
}

#[test]
fn test_from_iter() {
    let set = SysnoSet::new(&vec![Sysno::openat(), Sysno::read(), Sysno::close()]);
    assert!(set.contains(Sysno::openat()));
    assert!(set.contains(Sysno::read()));
    assert!(set.contains(Sysno::close()));
    assert_eq!(set.count(), 3);
}

#[test]
fn test_all() {
    let mut all = SysnoSet::all();
    assert_eq!(all.count(), Sysno::count());

    all.contains(Sysno::openat());
    all.contains(Sysno::first());
    all.contains(Sysno::last());

    all.clear();

    assert_eq!(all.count(), 0);
}

#[test]
fn test_union() {
    let a = SysnoSet::new(&[Sysno::read(), Sysno::openat(), Sysno::close()]);
    let b = SysnoSet::new(&[Sysno::write(), Sysno::openat(), Sysno::close()]);
    assert_eq!(
        a.union(&b),
        SysnoSet::new(&[Sysno::read(), Sysno::write(), Sysno::openat(), Sysno::close()])
    );
}

#[test]
fn test_intersection() {
    let a = SysnoSet::new(&[Sysno::read(), Sysno::openat(), Sysno::close()]);
    let b = SysnoSet::new(&[Sysno::write(), Sysno::openat(), Sysno::close()]);
    assert_eq!(
        a.intersection(&b),
        SysnoSet::new(&[Sysno::openat(), Sysno::close()])
    );
}

#[test]
fn test_difference() {
    let a = SysnoSet::new(&[Sysno::read(), Sysno::openat(), Sysno::close()]);
    let b = SysnoSet::new(&[Sysno::write(), Sysno::openat(), Sysno::close()]);
    assert_eq!(a.difference(&b), SysnoSet::new(&[Sysno::read()]));
}

#[test]
fn test_symmetric_difference() {
    let a = SysnoSet::new(&[Sysno::read(), Sysno::openat(), Sysno::close()]);
    let b = SysnoSet::new(&[Sysno::write(), Sysno::openat(), Sysno::close()]);
    assert_eq!(
        a.symmetric_difference(&b),
        SysnoSet::new(&[Sysno::read(), Sysno::write()])
    );
}

#[test]
fn set_algebra_pointwise() {
    let a = SysnoSet::new(&[Sysno::read(), Sysno::openat()]);
    let b = SysnoSet::new(&[Sysno::openat(), Sysno::write()]);
    for s in Sysno::iter() {
        let in_union = a.clone().union(&b).contains(s);
        assert_eq!(in_union, a.contains(s) || b.contains(s));
        let in_inter = a.clone().intersection(&b).contains(s);
        assert_eq!(in_inter, a.contains(s) && b.contains(s));
        let in_diff = a.clone().difference(&b).contains(s);
        assert_eq!(in_diff, a.contains(s) && !b.contains(s));
        let in_sym = a.clone().symmetric_difference(&b).contains(s);
        assert_eq!(in_sym, a.contains(s) != b.contains(s));
    }
}

#[test]
fn set_test_iter() {
    let set = SysnoSet::new(&[Sysno::read(), Sysno::openat(), Sysno::close()]);
    let mut it = set.iter();
    let mut n = 0;
    while let Some(_s) = it.next() {
        n += 1;
    }
    assert_eq!(n, 3);
}

#[test]
fn test_iter_full() {
    let all = SysnoSet::all();
    let mut it = all.iter();
    let mut n = 0;
    while let Some(_s) = it.next() {
        n += 1;
    }
    assert_eq!(n, Sysno::count());
}

#[test]
fn set_test_into_iter() {
    let set = SysnoSet::new(&[Sysno::read(), Sysno::openat(), Sysno::close()]);
    let mut it = set.iter();
    let mut n = 0;
    while let Some(_s) = it.next() {
        n += 1;
    }
    assert_eq!(n, 3);
}

#[test]
fn iter_is_ascending() {
    let set = SysnoSet::new(&[Sysno::close(), Sysno::read(), Sysno::openat()]);
    let mut it = set.iter();
    let mut last_id = -1i32;
    while let Some(s) = it.next() {
        assert!(s.id() > last_id);
        last_id = s.id();
    }
    assert_eq!(last_id, Sysno::openat().id());
}

#[test]
fn set_test_debug() {
    let set = SysnoSet::new(&[Sysno::openat(), Sysno::read()]);
    let result = set.display_string();
    assert_eq!(result.len(), "{read, openat}".len());
    assert!(result.starts_with('{'));
    assert!(result.ends_with('}'));
    assert!(result.contains(", "));
    assert!(result.contains("read"));
    assert!(result.contains("openat"));
}

#[test]
fn test_iter_empty() {
    let mut it = SysnoSet::empty().iter();
    assert_eq!(it.next(), None);
}
