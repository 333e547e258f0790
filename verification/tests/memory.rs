use guestrand::MemoryAccessError;
use guestrand::PluginPtr;
use guestrand::ProcessMemory;
use guestrand::TypedPluginPtr;

fn ptr(addr: u64, count: usize) -> TypedPluginPtr {
    TypedPluginPtr::new(PluginPtr::new(addr), count)
}

#[test]
fn fresh_mapping_is_zeroed() {
    let mem = ProcessMemory::new(0x1000, 64);
    assert_eq!(mem.read_bytes(ptr(0x1000, 64)), Ok(vec![0u8; 64]));
}

#[test]
fn acquire_write_commit_round_trip() {
    let mut mem = ProcessMemory::new(0x1000, 64);
    let mut view = mem.acquire_mutable_uninit(ptr(0x1010, 4)).unwrap();
    view.write(&vec![1, 2, 3, 4]);
    assert_eq!(view.commit(&mut mem), Ok(()));
    assert_eq!(mem.read_bytes(ptr(0x1010, 4)), Ok(vec![1, 2, 3, 4]));
    // Neighbours untouched.
    assert_eq!(mem.read_bytes(ptr(0x1000, 16)), Ok(vec![0; 16]));
    assert_eq!(mem.read_bytes(ptr(0x1014, 4)), Ok(vec![0; 4]));
}

#[test]
fn acquire_does_not_validate_residency_but_commit_does() {
    let mut mem = ProcessMemory::new(0x1000, 64);
    // Unmapped range: acquisition succeeds (it pays for no check),
    // committing fails and leaves the guest unchanged.
    let mut view = mem.acquire_mutable_uninit(ptr(0x9000, 4)).unwrap();
    view.write(&vec![9, 9, 9, 9]);
    assert_eq!(view.commit(&mut mem), Err(MemoryAccessError::Unmapped));
    assert_eq!(mem.read_bytes(ptr(0x1000, 64)), Ok(vec![0u8; 64]));
}

#[test]
fn partially_mapped_commit_fails_whole() {
    let mut mem = ProcessMemory::new(0x1000, 64);
    let view = mem.acquire_mutable_uninit(ptr(0x1000 + 62, 4)).unwrap();
    assert_eq!(view.commit(&mut mem), Err(MemoryAccessError::Unmapped));
    assert_eq!(mem.read_bytes(ptr(0x1000, 64)), Ok(vec![0u8; 64]));
}

#[test]
fn overflowing_extent_fails_acquisition() {
    let mem = ProcessMemory::new(0x1000, 64);
    match mem.acquire_mutable_uninit(ptr(u64::MAX - 1, 4)) {
        Err(e) => assert_eq!(e, MemoryAccessError::OutOfBounds),
        Ok(_) => panic!("an unrepresentable extent must not be acquired"),
    }
}

#[test]
fn empty_view_commits_anywhere() {
    let mut mem = ProcessMemory::new(0x1000, 64);
    let view = mem.acquire_mutable_uninit(ptr(0xffff_0000, 0)).unwrap();
    assert_eq!(view.commit(&mut mem), Ok(()));
}

#[test]
fn read_errors_distinguish_extent_from_residency() {
    let mem = ProcessMemory::new(0x1000, 64);
    assert_eq!(mem.read_bytes(ptr(0x9000, 4)), Err(MemoryAccessError::Unmapped));
    assert_eq!(mem.read_bytes(ptr(u64::MAX, 2)), Err(MemoryAccessError::OutOfBounds));
    assert_eq!(mem.read_bytes(ptr(0x9000, 0)), Ok(vec![]));
}

#[test]
fn counted_pointer_rejects_unrepresentable_sizes() {
    let base = PluginPtr::new(0x1000);
    let p = TypedPluginPtr::new_counted(base, 8, 4).unwrap();
    assert_eq!(p.count(), 32);
    assert_eq!(p.base().val(), 0x1000);
    assert!(TypedPluginPtr::new_counted(base, usize::MAX, 2).is_none());
}

#[test]
fn plugin_ptr_keeps_its_raw_address() {
    let p = PluginPtr::new(0xabcd);
    assert_eq!(p.val(), 0xabcd);
    assert_eq!(p, PluginPtr::new(0xabcd));
}
