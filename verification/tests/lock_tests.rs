use relock::Lock;

#[test]
fn test_debug_output() {
    let l = Lock::new(42);
    let _guard = l.write_exclusive();
    println!("Lock: {:?}", l);
}

#[test]
fn test_read_once_then_attempt_write() {
    let l = Lock::new(42);
    let guard = l.read_shared().expect("read failed");
    println!("value: {}", *guard);
    let write_guard1 = l.try_write_exclusive();
    assert!(write_guard1.is_none());
    // now attempt an exclusive write
    let write_guard2 = l.write_exclusive();
    assert!(write_guard2.is_err());
}

#[test]
fn test_read_twice_then_attempt_write() {
    let l = Lock::new(42);
    let read_guard1 = l.read_shared().expect("read failed");
    println!("first read: {}", *read_guard1);
    {
        let read_guard2 = l.read_shared().expect("read failed");
        println!("second read: {}", *read_guard2);
    }
    let write_guard1 = l.try_write_exclusive();
    assert!(write_guard1.is_none());
    // now attempt an exclusive write
    let write_guard2 = l.write_exclusive();
    assert!(write_guard2.is_err());
}

#[test]
fn new_lock_is_unlocked() {
    let l = Lock::new(5);
    assert!(!l.is_locked());
    assert!(!l.is_owned_by_current_thread());
    let empty = Lock::new(String::new());
    assert!(!empty.is_locked());
}

#[test]
fn write_exclusive_marks_owner() {
    let l = Lock::new(7);
    let guard = l.write_exclusive().expect("write failed");
    assert!(l.is_locked());
    assert!(l.is_owned_by_current_thread());
    drop(guard);
    assert!(!l.is_locked());
    assert!(!l.is_owned_by_current_thread());
}

#[test]
fn write_twice_errs_instead_of_hanging() {
    let l = Lock::new(7);
    let guard = l.write_exclusive().expect("write failed");
    assert!(l.try_write_exclusive().is_none());
    assert!(l.write_exclusive().is_err());
    drop(guard);
    assert!(l.write_exclusive().is_ok());
}

#[test]
fn read_after_own_write_errs() {
    let l = Lock::new(7);
    let _guard = l.write_exclusive().expect("write failed");
    assert!(l.read_shared().is_err());
    assert!(l.try_read_shared().is_none());
}

#[test]
fn recursive_reads_release_fully() {
    let l = Lock::new(7);
    let g1 = l.read_shared().expect("read failed");
    let g2 = l.read_shared().expect("read failed");
    assert_eq!(*g1, 7);
    assert_eq!(*g2, 7);
    drop(g1);
    drop(g2);
    assert!(!l.is_locked());
    let w = l.write_exclusive();
    assert!(w.is_ok());
}

#[test]
fn try_read_succeeds_when_free() {
    let l = Lock::new(String::from("shared"));
    let g = l.try_read_shared().expect("try_read failed");
    assert_eq!(*g, "shared");
    assert!(l.is_locked());
    drop(g);
    assert!(!l.is_locked());
}

#[test]
fn guards_expose_protected_value() {
    let l = Lock::new(11);
    {
        let mut w = l.write_exclusive().expect("write failed");
        assert_eq!(*w, 11);
        w.set(12);
        assert_eq!(*w, 12);
    }
    let r = l.read_shared().expect("read failed");
    assert_eq!(*r, 12);
}

#[test]
fn error_carries_fixed_message() {
    let l = Lock::new(3);
    let _guard = l.write_exclusive().expect("write failed");
    let err = l.write_exclusive().expect_err("expected refusal");
    assert_eq!(err.message(), "a lock is already owned by the current thread");
}
