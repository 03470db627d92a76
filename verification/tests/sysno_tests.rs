use syscalls::Sysno;

#[test]
fn test_name() {
    assert_eq!(Sysno::write().name(), "write");
    assert_eq!(Sysno::fsopen().name(), "fsopen");
}

#[test]
fn test_syscallno() {
    assert_eq!(Sysno::new(2).unwrap(), Sysno::open());
    assert_eq!(Sysno::new(2), Some(Sysno::open()));
    assert_eq!(Sysno::new(-1i32 as usize), None);
    assert_eq!(Sysno::new(1024), None);
}

#[test]
fn test_first() {
    assert_eq!(Sysno::first(), Sysno::read());
    assert_eq!(Sysno::first().id(), 0);
}

#[test]
fn test_syscall_len() {
    assert!(Sysno::table_size() > 300);
    assert!(Sysno::table_size() < 1000);
}

#[test]
fn new_rejects_holes_and_out_of_range() {
    assert!(Sysno::new(334).is_some());
    assert_eq!(Sysno::new(335), None);
    assert_eq!(Sysno::new(400), None);
    assert_eq!(Sysno::new(423), None);
    assert!(Sysno::new(424).is_some());
    assert!(Sysno::new(450).is_some());
    assert_eq!(Sysno::new(451), None);
    assert_eq!(Sysno::new(usize::MAX), None);
}

#[test]
fn id_roundtrip_all_valid() {
    for s in Sysno::iter() {
        let id = s.id();
        let back = Sysno::new(id as usize).unwrap();
        assert_eq!(back.id(), id);
        assert_eq!(back, s);
        assert!(!s.name().is_empty());
        assert_eq!(s.name(), back.name());
    }
}

#[test]
fn iter_is_ascending_and_complete() {
    let all = Sysno::iter();
    assert_eq!(all.len(), Sysno::count());
    assert_eq!(all[0], Sysno::first());
    assert_eq!(all[all.len() - 1], Sysno::last());
    for pair in all.windows(2) {
        assert!(pair[0].id() < pair[1].id());
    }
}

#[test]
fn next_skips_the_hole() {
    assert_eq!(Sysno::new(0).unwrap().next(), Sysno::new(1));
    assert_eq!(Sysno::new(334).unwrap().next(), Sysno::new(424));
    assert_eq!(Sysno::last().next(), None);
    let mut cur = Some(Sysno::first());
    let mut n = 0usize;
    while let Some(s) = cur {
        n += 1;
        cur = s.next();
    }
    assert_eq!(n, Sysno::count());
}

#[test]
fn table_size_and_count_disagree_by_the_holes() {
    assert_eq!(Sysno::table_size(), (Sysno::last().id() - Sysno::first().id()) as usize + 1);
    assert!(Sysno::count() <= Sysno::table_size());
    assert_eq!(Sysno::table_size() - Sysno::count(), 89);
}

#[test]
fn known_names() {
    assert_eq!(Sysno::read().name(), "read");
    assert_eq!(Sysno::open().name(), "open");
    assert_eq!(Sysno::close().name(), "close");
    assert_eq!(Sysno::openat().name(), "openat");
    assert_eq!(Sysno::gettid().name(), "gettid");
    assert_eq!(Sysno::new(450).unwrap().name(), "set_mempolicy_home_node");
}
