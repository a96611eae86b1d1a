use multiprocessing::errors::check_status;
use multiprocessing::sharedmem::SharedMemory;

#[test]
fn fresh_mapping_releases() {
    let mem: SharedMemory<[u8; 1024]> = SharedMemory::from_mapping(0x7000_0000);
    assert_eq!(mem.as_ptr(), 0x7000_0000);
    assert!(mem.cleanup());
    assert_eq!(mem.len(), 1024);
    assert_eq!(mem.unmap_on_drop(), Some((0x7000_0000, 1024)));
}

#[test]
fn cleared_copy_does_not_unmap() {
    let mem: SharedMemory<u64> = SharedMemory::from_mapping(0x1000);
    let mut copy = mem.fork_copy();
    assert_eq!(copy.as_ptr(), mem.as_ptr());
    assert!(copy.cleanup());
    copy.set_cleanup(false);
    assert!(!copy.cleanup());
    assert_eq!(copy.unmap_on_drop(), None);
    assert_eq!(mem.unmap_on_drop(), Some((0x1000, 8)));
    copy.set_cleanup(true);
    assert_eq!(copy.unmap_on_drop(), Some((0x1000, 8)));
}

#[test]
fn zero_status_is_ok() {
    assert_eq!(check_status(0), Ok(()));
}

#[test]
fn nonzero_status_is_error() {
    assert!(check_status(-1).is_err());
}
