use tock_smp::smp::rwlock::RwLock;

#[test]
fn readers_share_the_lock() {
    let mut l = RwLock::new(41u32);
    let r1 = l.read();
    let r2 = l.read();
    assert_eq!(*l.read_value(&r1), 41);
    assert_eq!(*l.read_value(&r2), 41);
    l.read_unlock(r1);
    assert_eq!(*l.read_value(&r2), 41);
    l.read_unlock(r2);
    let mut w = l.write();
    *w.deref_mut() += 1;
    assert_eq!(*w.deref(), 42);
    l.write_unlock(w);
    let r = l.read();
    assert_eq!(*l.read_value(&r), 42);
    l.read_unlock(r);
}

#[test]
fn writer_after_writer() {
    let mut l = RwLock::new(vec![1u8]);
    let mut w = l.write();
    w.deref_mut().push(2);
    l.write_unlock(w);
    let mut w = l.write();
    w.deref_mut().push(3);
    assert_eq!(*w.deref(), vec![1, 2, 3]);
    l.write_unlock(w);
}
