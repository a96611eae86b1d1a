use multiprocessing::semaphore::{Mutex, MutexGuard, RawSemaphore, UNLOCKED};
use multiprocessing::sharedmem::SharedMemory;

#[test]
fn mutex_starts_unlocked() {
    assert_eq!(UNLOCKED, 1);
}

#[test]
fn semaphore_ready_after_zero_status() {
    let mem: SharedMemory<libc::sem_t> = SharedMemory::from_mapping(0x2000);
    let sem = RawSemaphore::from_init(mem, 0).unwrap();
    assert_eq!(sem.as_ptr(), 0x2000);
    assert_eq!(sem.memory().len(), std::mem::size_of::<libc::sem_t>());
}

#[test]
fn semaphore_fails_after_nonzero_status() {
    let mem: SharedMemory<libc::sem_t> = SharedMemory::from_mapping(0x2000);
    assert!(RawSemaphore::from_init(mem, -1).is_err());
}

#[test]
fn mutex_knows_both_mappings() {
    let sem = RawSemaphore::from_init(SharedMemory::from_mapping(0x2000), 0).unwrap();
    let value: SharedMemory<[u8; 1024]> = SharedMemory::from_mapping(0x3000);
    let mutex = Mutex::new(sem, value);
    assert_eq!(mutex.semaphore_ptr(), 0x2000);
    assert_eq!(mutex.value_ptr(), 0x3000);
    assert_eq!(mutex.semaphore().as_ptr(), 0x2000);
    assert_eq!(mutex.memory().as_ptr(), 0x3000);
    assert_eq!(mutex.memory().len(), 1024);
}

#[test]
fn acquired_guard_releases() {
    let guard = MutexGuard::acquired();
    assert!(guard.cleanup());
}

#[test]
fn handoff_releases_only_in_child() {
    let mut guard = MutexGuard::acquired();
    guard.set_cleanup(false);
    let parent = guard;
    let mut child = parent.fork_copy();
    assert!(!child.cleanup());
    child.set_cleanup(true);
    assert!(!parent.cleanup());
    assert!(child.cleanup());
}
