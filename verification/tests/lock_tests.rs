use chromedriver_api::lock::TaskManager;

#[test]
fn acquire_is_exclusive() {
    // two acquisition attempts can never both succeed: whoever runs first
    // leaves the lock held for the other
    let mut lock = TaskManager::new();
    assert!(lock.try_lock());
    assert!(!lock.try_lock());
    assert!(!lock.try_lock());
    lock.unlock();
    assert!(lock.try_lock());
}

#[test]
fn release_frees_the_lock() {
    let mut lock = TaskManager::new();
    lock.lock();
    lock.unlock();
    assert!(lock.try_lock());
}

#[test]
fn release_when_free_is_a_no_op() {
    let mut lock = TaskManager::new();
    lock.unlock();
    lock.unlock();
    assert!(lock.try_lock());
    lock.unlock();
    assert!(lock.try_lock());
}
