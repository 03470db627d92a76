use syscalls::Sysno;
use syscalls::SysnoMap;

#[test]
fn map_test_default() {
    assert_eq!(SysnoMap::<u8>::new().count(), 0);
}

#[test]
fn map_test_is_empty() {
    let mut map = SysnoMap::new();
    assert!(map.is_empty());
    assert_eq!(map.insert(Sysno::openat(), 42), None);
    assert!(!map.is_empty());
    assert_eq!(map.get(Sysno::openat()), Some(&42));
    map.remove(Sysno::openat());
    assert!(map.is_empty());
    assert_eq!(map.get(Sysno::openat()), None);
}

#[test]
fn map_test_count() {
    let mut map = SysnoMap::new();
    assert_eq!(map.count(), 0);
    assert_eq!(map.insert(Sysno::openat(), 42), None);
    assert_eq!(map.count(), 1);
    assert_eq!(map.insert(Sysno::first(), 4), None);
    assert_eq!(map.count(), 2);
    assert_eq!(map.insert(Sysno::last(), 5), None);
    assert_eq!(map.count(), 3);
    let mut values = map.values();
    let mut sum: u8 = 0;
    while let Some(v) = values.next() {
        sum += v;
    }
    assert_eq!(sum, 51);
}

#[test]
fn test_fn() {
    let mut map = SysnoMap::<fn() -> i32>::new();
    map.insert(Sysno::openat(), || 1);
    map.insert(Sysno::close(), || -1);
    assert_eq!(map.get(Sysno::openat()).unwrap()(), 1);
    assert_eq!(map.get(Sysno::close()).unwrap()(), -1);
}

#[test]
fn test_fn_macro() {
    type Handler = fn() -> i32;
    let map = SysnoMap::from_slice(&[
        (Sysno::openat(), (|| 1) as Handler),
        (Sysno::close(), (|| -1) as Handler),
    ]);
    assert_eq!(map.get(Sysno::openat()).unwrap()(), 1);
    assert_eq!(map.get(Sysno::close()).unwrap()(), -1);
}

#[test]
fn test_insert_remove() {
    let mut map = SysnoMap::new();
    assert_eq!(map.insert(Sysno::openat(), 42), None);
    assert!(map.contains_key(Sysno::openat()));
    assert_eq!(map.count(), 1);

    assert_eq!(map.insert(Sysno::openat(), 4), Some(42));
    assert!(map.contains_key(Sysno::openat()));
    assert_eq!(map.count(), 1);

    assert_eq!(map.remove(Sysno::openat()), Some(4));
    assert!(!map.contains_key(Sysno::openat()));
    assert_eq!(map.count(), 0);

    assert_eq!(map.remove(Sysno::openat()), None);
}

#[test]
fn map_test_iter() {
    let map = SysnoMap::from_slice(&[(Sysno::read(), 42), (Sysno::openat(), 10)]);
    let mut it = map.iter();
    let mut n = 0;
    while let Some(_p) = it.next() {
        n += 1;
    }
    assert_eq!(n, 2);
}

#[test]
fn map_test_into_iter() {
    let map = SysnoMap::from_slice(&[(Sysno::read(), 42), (Sysno::openat(), 10)]);
    let mut it = map.iter();
    let mut n = 0;
    while let Some(_p) = it.next() {
        n += 1;
    }
    assert_eq!(n, 2);
}

#[test]
fn map_iter_is_ascending_with_values() {
    let map = SysnoMap::from_slice(&[(Sysno::openat(), 10), (Sysno::read(), 42)]);
    let mut it = map.iter();
    assert_eq!(it.next(), Some((Sysno::read(), 42)));
    assert_eq!(it.next(), Some((Sysno::openat(), 10)));
    assert_eq!(it.next(), None);
}

#[test]
fn test_init_all() {
    let map = SysnoMap::init_all(&42);
    assert_eq!(map.get(Sysno::openat()), Some(&42));
    assert_eq!(map.get(Sysno::close()), Some(&42));
}

#[test]
fn init_all_covers_every_syscall() {
    let map = SysnoMap::init_all(&7u8);
    assert_eq!(map.count(), Sysno::count());
    for s in Sysno::iter() {
        assert_eq!(map.get(s), Some(&7));
    }
}

#[test]
fn test_syscall_map() {
    let mut map = SysnoMap::new();
    assert!(map.is_empty());
    assert_eq!(map.count(), 0);
    assert_eq!(map.get(Sysno::write()), None);
    map.insert(Sysno::write(), 42);
    assert_eq!(map.get(Sysno::write()), Some(&42));
    assert_eq!(map.count(), 1);
    assert!(!map.is_empty());
    map.remove(Sysno::write());
    assert_eq!(map.count(), 0);
    assert!(map.is_empty());
}

#[test]
fn two_entry_scenario() {
    let mut map = SysnoMap::new();
    assert_eq!(map.insert(Sysno::read(), 5u32), None);
    assert_eq!(map.insert(Sysno::close(), 7u32), None);
    assert_eq!(map.count(), 2);
    let mut values = map.values();
    let mut sum: u32 = 0;
    while let Some(v) = values.next() {
        sum += v;
    }
    assert_eq!(sum, 12);
    assert_eq!(map.remove(Sysno::read()), Some(5));
    assert_eq!(map.count(), 1);
    assert_eq!(map.get(Sysno::read()), None);
    assert_eq!(map.get(Sysno::close()), Some(&7));
}

#[test]
fn map_clear_empties_everything() {
    let mut map = SysnoMap::from_slice(&[(Sysno::read(), 1), (Sysno::write(), 2)]);
    assert_eq!(map.count(), 2);
    map.clear();
    assert!(map.is_empty());
    assert_eq!(map.get(Sysno::read()), None);
    assert_eq!(map.get(Sysno::write()), None);
}

#[test]
fn from_slice_last_entry_wins() {
    let map = SysnoMap::from_slice(&[(Sysno::read(), 1), (Sysno::read(), 9)]);
    assert_eq!(map.count(), 1);
    assert_eq!(map.get(Sysno::read()), Some(&9));
}

#[test]
fn map_test_debug() {
    let map = SysnoMap::from_slice(&[(Sysno::read(), 42), (Sysno::openat(), 10)]);
    let result = map.display_string();
    assert_eq!(result.len(), "{read: 42, openat: 10}".len());
    assert!(result.starts_with('{'));
    assert!(result.ends_with('}'));
    assert!(result.contains(", "));
    assert!(result.contains("read: 42"));
    assert!(result.contains("openat: 10"));
}

#[test]
fn map_display_renders_values() {
    let mut map = SysnoMap::new();
    map.insert(Sysno::write(), -7i64);
    assert_eq!(map.display_string(), "{write: -7}");
    map.insert(Sysno::write(), 0i64);
    assert_eq!(map.display_string(), "{write: 0}");
    map.remove(Sysno::write());
    assert_eq!(map.display_string(), "{}");
}
