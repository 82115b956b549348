use pocketsphinx::{Error, ResourceHandle, ResourcePool};

#[test]
fn acquire_wraps_a_resource_as_owner() {
    let h = ResourceHandle::acquire(Some(7)).unwrap();
    assert_eq!(h.get_inner(), 7);
    assert!(!h.is_retained());
    assert_eq!(h.release(), Some(7));
}

#[test]
fn acquire_of_a_null_result_fails() {
    assert_eq!(
        ResourceHandle::acquire(None).unwrap_err(),
        Error::InitializationFailure
    );
}

#[test]
fn borrowed_handle_releases_nothing() {
    let h = ResourceHandle::borrowed(3);
    assert_eq!(h.get_inner(), 3);
    assert!(h.is_retained());
    assert_eq!(h.release(), None);
}

#[test]
fn retain_gives_a_second_owner() {
    let mut a = ResourceHandle::acquire(Some(11)).unwrap();
    let b = a.retain();
    assert!(!a.is_retained());
    assert!(!b.is_retained());
    assert_eq!(a.get_inner(), 11);
    assert_eq!(b.get_inner(), 11);
    assert_eq!(a.release(), Some(11));
    assert_eq!(b.release(), Some(11));
}

#[test]
fn retain_on_a_lent_handle_leaves_it_lent() {
    let mut a = ResourceHandle::borrowed(11);
    let b = a.retain();
    assert!(a.is_retained());
    assert!(!b.is_retained());
    assert_eq!(a.release(), None);
    assert_eq!(b.release(), Some(11));
}

#[test]
fn set_retained_switches_ownership() {
    let mut a = ResourceHandle::acquire(Some(1)).unwrap();
    a.set_retained(true);
    assert!(a.is_retained());
    a.set_retained(false);
    assert!(!a.is_retained());
}

#[test]
fn pool_creates_resources_with_one_reference() {
    let mut pool = ResourcePool::new();
    let a = pool.create();
    let b = pool.create();
    assert_eq!(a, 0);
    assert_eq!(b, 1);
    assert_eq!(pool.count(a), 1);
    assert_eq!(pool.count(b), 1);
    assert_eq!(pool.times_freed(a), 0);
}

#[test]
fn retains_then_releases_free_exactly_once() {
    let n = 5;
    let mut pool = ResourcePool::new();
    let other = pool.create();
    let id = pool.create();
    for _ in 0..n {
        assert_eq!(pool.retain(id), Ok(()));
    }
    assert_eq!(pool.count(id), n + 1);
    for k in 0..n {
        assert!(!pool.release(id));
        assert_eq!(pool.times_freed(id), 0);
        assert_eq!(pool.count(id), n - k);
    }
    assert!(pool.release(id));
    assert_eq!(pool.times_freed(id), 1);
    assert_eq!(pool.count(id), 0);
    assert!(!pool.release(id));
    assert_eq!(pool.times_freed(id), 1);
    assert_eq!(pool.count(other), 1);
    assert_eq!(pool.times_freed(other), 0);
}

#[test]
fn release_without_retain_frees_at_once() {
    let mut pool = ResourcePool::new();
    let id = pool.create();
    assert!(pool.release(id));
    assert_eq!(pool.times_freed(id), 1);
}

#[test]
fn retain_of_a_freed_resource_is_refused() {
    let mut pool = ResourcePool::new();
    let id = pool.create();
    assert!(pool.release(id));
    assert_eq!(pool.retain(id), Err(Error::UsageError));
    assert_eq!(pool.count(id), 0);
    assert_eq!(pool.times_freed(id), 1);
}

#[test]
fn handles_drive_the_pool() {
    let mut pool = ResourcePool::new();
    let id = pool.create();
    let mut first = ResourceHandle::acquire(Some(id)).unwrap();
    let second = pool.share(&mut first).unwrap();
    assert_eq!(pool.count(id), 2);
    assert!(!pool.let_go(first));
    assert_eq!(pool.count(id), 1);
    assert_eq!(pool.times_freed(id), 0);
    assert!(pool.let_go(second));
    assert_eq!(pool.count(id), 0);
    assert_eq!(pool.times_freed(id), 1);
}

#[test]
fn the_last_handle_to_go_frees_the_resource() {
    for n in 0..6usize {
        for last in 0..=n {
            let mut pool = ResourcePool::new();
            let id = pool.create();
            let mut handles = vec![ResourceHandle::acquire(Some(id)).unwrap()];
            for k in 0..n {
                let source = k / 2;
                let copy = pool.share(&mut handles[source]).unwrap();
                handles.push(copy);
            }
            assert_eq!(pool.count(id), n as u64 + 1);
            let kept = handles.swap_remove(last);
            for handle in handles {
                assert!(!pool.let_go(handle));
                assert_eq!(pool.times_freed(id), 0);
            }
            assert!(pool.let_go(kept));
            assert_eq!(pool.times_freed(id), 1);
            assert_eq!(pool.count(id), 0);
        }
    }
}

#[test]
fn sharing_a_freed_resource_is_refused() {
    let mut pool = ResourcePool::new();
    let id = pool.create();
    let only = ResourceHandle::acquire(Some(id)).unwrap();
    assert!(pool.let_go(only));
    let mut stale = ResourceHandle::borrowed(id);
    assert_eq!(pool.share(&mut stale).err(), Some(Error::UsageError));
    assert!(!pool.let_go(stale));
    assert_eq!(pool.times_freed(id), 1);
}

#[test]
fn a_count_at_its_limit_cannot_grow() {
    let mut pool = ResourcePool::new();
    let id = pool.adopt(u64::MAX).unwrap();
    assert_eq!(pool.count(id), u64::MAX);
    assert_eq!(pool.retain(id), Err(Error::CounterExhausted));
    assert_eq!(pool.count(id), u64::MAX);
    assert!(!pool.release(id));
    assert_eq!(pool.retain(id), Ok(()));
}

#[test]
fn adopting_takes_the_references_there_are() {
    let mut pool = ResourcePool::new();
    assert_eq!(pool.adopt(0), Err(Error::UsageError));
    let id = pool.adopt(2).unwrap();
    assert_eq!(id, 0);
    assert!(!pool.release(id));
    assert!(pool.release(id));
    assert_eq!(pool.times_freed(id), 1);
}

#[test]
fn retain_and_release_cancel_out() {
    let mut pool = ResourcePool::new();
    let id = pool.adopt(3).unwrap();
    let mut lent = ResourceHandle::borrowed(id);
    for _ in 0..4 {
        let copy = pool.share(&mut lent).unwrap();
        assert_eq!(pool.count(id), 4);
        assert!(!pool.let_go(copy));
        assert_eq!(pool.count(id), 3);
    }
    assert!(!pool.let_go(lent));
    assert_eq!(pool.count(id), 3);
    assert_eq!(pool.times_freed(id), 0);
}

#[test]
fn letting_go_beside_a_held_handle_frees_nothing() {
    let mut pool = ResourcePool::new();
    let id = pool.create();
    let mut first = ResourceHandle::acquire(Some(id)).unwrap();
    let mut second = pool.share(&mut first).unwrap();
    let third = pool.share(&mut second).unwrap();
    for handle in [second, third] {
        assert!(!pool.let_go(handle));
        assert!(pool.count(id) >= 1);
        assert_eq!(pool.times_freed(id), 0);
    }
    assert!(pool.let_go(first));
    assert_eq!(pool.times_freed(id), 1);
}

#[test]
fn the_handle_of_a_resource_never_retained_frees_it_once() {
    let mut pool = ResourcePool::new();
    let id = pool.create();
    let only = ResourceHandle::acquire(Some(id)).unwrap();
    let released = only.release().unwrap();
    assert!(pool.release(released));
    assert_eq!(pool.times_freed(id), 1);
    assert_eq!(pool.count(id), 0);
}
