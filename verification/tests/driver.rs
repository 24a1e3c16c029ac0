//! Read, write and erase through the driver against the in-memory device:
//! the unlock-once behavior, the physical-call accounting, and the error paths.

use esp_storage::FlashSectorBuffer;
use esp_storage::FlashStorage;
use esp_storage::FlashStorageError;
use esp_storage::SimFlash;

/// A 1 MiB-capacity device backed by `mem_len` bytes of zeroed memory
/// (the identification density nibble 0x00 maps to 1 MiB).
fn one_mib_device(mem_len: usize) -> (SimFlash, FlashStorage) {
    let mem = vec![0u8; mem_len];
    let mut rom = SimFlash::new(mem);
    let storage = FlashStorage::new(&mut rom);
    assert_eq!(storage.capacity(), 1_048_576);
    (rom, storage)
}

#[test]
fn write_twice_issues_one_unlock() {
    let (mut rom, mut storage) = one_mib_device(16);
    assert!(!storage.is_unlocked());

    assert_eq!(storage.write(&mut rom, 0, &[1, 2, 3, 4]), Ok(()));
    assert!(storage.is_unlocked());
    assert_eq!(rom.unlock_count(), 1);
    assert_eq!(rom.write_count(), 1);

    assert_eq!(storage.write(&mut rom, 0, &[1, 2, 3, 4]), Ok(()));
    assert!(storage.is_unlocked());
    assert_eq!(rom.unlock_count(), 1);
    assert_eq!(rom.write_count(), 2);
}

#[test]
fn unlock_failure_leaves_locked_and_is_retried() {
    let (mut rom, mut storage) = one_mib_device(16);
    rom.set_unlock_rc(9);

    assert_eq!(
        storage.write(&mut rom, 0, &[1, 2, 3, 4]),
        Err(FlashStorageError::CantUnlock)
    );
    assert!(!storage.is_unlocked());
    assert_eq!(rom.unlock_count(), 1);
    assert_eq!(rom.write_count(), 0);

    rom.set_unlock_rc(0);
    assert_eq!(storage.write(&mut rom, 0, &[1, 2, 3, 4]), Ok(()));
    assert!(storage.is_unlocked());
    assert_eq!(rom.unlock_count(), 2);
    assert_eq!(rom.write_count(), 1);
}

#[test]
fn end_to_end_write_validation_order() {
    let (mut rom, mut storage) = one_mib_device(16);

    assert_eq!(storage.write(&mut rom, 0, &[0xaa; 4]), Ok(()));
    let unlocks = rom.unlock_count();
    let writes = rom.write_count();
    assert_eq!(unlocks, 1);
    assert_eq!(writes, 1);

    // misaligned: rejected before any firmware call or unlock attempt
    assert_eq!(
        storage.write(&mut rom, 1, &[0xaa; 4]),
        Err(FlashStorageError::NotAligned)
    );
    assert_eq!(rom.unlock_count(), unlocks);
    assert_eq!(rom.write_count(), writes);

    // out of bounds: rejected first, even though 1_048_573 is also unaligned
    assert_eq!(
        storage.write(&mut rom, 1_048_573, &[0xaa; 4]),
        Err(FlashStorageError::OutOfBounds)
    );
    assert_eq!(rom.unlock_count(), unlocks);
    assert_eq!(rom.write_count(), writes);
}

#[test]
fn validation_failure_precedes_unlock_on_locked_device() {
    let (mut rom, mut storage) = one_mib_device(16);
    assert_eq!(
        storage.write(&mut rom, 1, &[0xaa; 4]),
        Err(FlashStorageError::NotAligned)
    );
    assert!(!storage.is_unlocked());
    assert_eq!(rom.unlock_count(), 0);
    assert_eq!(rom.write_count(), 0);
}

#[test]
fn read_zero_len_on_zero_capacity_device() {
    let mut rom = SimFlash::new(Vec::new());
    let mut storage = FlashStorage::new(&mut rom);
    assert_eq!(storage.capacity(), 0);
    let mut bytes: Vec<u8> = Vec::new();
    assert_eq!(storage.read(&mut rom, 0, &mut bytes), Ok(()));
    assert!(bytes.is_empty());
}

#[test]
fn read_returns_device_bytes() {
    let mut mem = vec![0u8; 16];
    for (i, b) in mem.iter_mut().enumerate() {
        *b = i as u8;
    }
    mem[3] = 0x00;
    let mut rom = SimFlash::new(mem);
    let mut storage = FlashStorage::new(&mut rom);
    let mut bytes = vec![0xee_u8; 8];
    assert_eq!(storage.read(&mut rom, 8, &mut bytes), Ok(()));
    assert_eq!(bytes, vec![8, 9, 10, 11, 12, 13, 14, 15]);
}

#[test]
fn read_back_after_write() {
    let (mut rom, mut storage) = one_mib_device(16);
    assert_eq!(storage.write(&mut rom, 4, &[0xaa, 0xbb, 0xcc, 0xdd]), Ok(()));
    assert_eq!(rom.byte_at(4), 0xaa);
    assert_eq!(rom.byte_at(7), 0xdd);
    let mut bytes = vec![0u8; 4];
    assert_eq!(storage.read(&mut rom, 4, &mut bytes), Ok(()));
    assert_eq!(bytes, vec![0xaa, 0xbb, 0xcc, 0xdd]);
}

#[test]
fn read_does_not_consult_unlock_state() {
    let (mut rom, mut storage) = one_mib_device(16);
    rom.set_unlock_rc(5);
    let mut bytes = vec![0u8; 8];
    assert_eq!(storage.read(&mut rom, 0, &mut bytes), Ok(()));
    assert!(!storage.is_unlocked());
    assert_eq!(rom.unlock_count(), 0);
}

#[test]
fn read_validation_errors() {
    let (mut rom, mut storage) = one_mib_device(16);
    let mut bytes = vec![0u8; 4];
    assert_eq!(
        storage.read(&mut rom, 2, &mut bytes),
        Err(FlashStorageError::NotAligned)
    );
    let mut bytes = vec![0u8; 5];
    assert_eq!(
        storage.read(&mut rom, 0, &mut bytes),
        Err(FlashStorageError::NotAligned)
    );
    let mut huge = vec![0u8; 1_048_580];
    assert_eq!(
        storage.read(&mut rom, 0, &mut huge),
        Err(FlashStorageError::OutOfBounds)
    );
    let mut bytes = vec![0u8; 4];
    assert_eq!(
        storage.read(&mut rom, 1_048_576, &mut bytes),
        Err(FlashStorageError::OutOfBounds)
    );
}

#[test]
fn firmware_status_codes_surface_as_errors() {
    let (mut rom, mut storage) = one_mib_device(16);
    rom.set_read_rc(2);
    let mut bytes = vec![0u8; 4];
    assert_eq!(
        storage.read(&mut rom, 0, &mut bytes),
        Err(FlashStorageError::IoTimeout)
    );
    // buffer untouched on failure
    assert_eq!(bytes, vec![0u8; 4]);
    rom.set_read_rc(0);

    rom.set_write_rc(7);
    assert_eq!(
        storage.write(&mut rom, 0, &[1, 2, 3, 4]),
        Err(FlashStorageError::Other(7))
    );
    rom.set_write_rc(1);
    assert_eq!(
        storage.write(&mut rom, 0, &[1, 2, 3, 4]),
        Err(FlashStorageError::IoError)
    );
}

#[test]
fn erase_fills_sector_and_respects_unlock() {
    let mut mem = vec![0u8; 4096];
    mem[3] = 0x00;
    let mut rom = SimFlash::new(mem);
    let mut storage = FlashStorage::new(&mut rom);

    rom.set_unlock_rc(4);
    assert_eq!(
        storage.internal_erase(&mut rom, 0),
        Err(FlashStorageError::CantUnlock)
    );
    assert!(!storage.is_unlocked());

    rom.set_unlock_rc(0);
    assert_eq!(storage.internal_erase(&mut rom, 0), Ok(()));
    assert!(storage.is_unlocked());
    assert_eq!(rom.byte_at(0), 0xff);
    assert_eq!(rom.byte_at(3), 0xff);
    assert_eq!(rom.byte_at(4095), 0xff);

    rom.set_erase_rc(5);
    assert_eq!(
        storage.internal_erase(&mut rom, 0),
        Err(FlashStorageError::Other(5))
    );
}

#[test]
fn sector_buffer_holds_one_sector() {
    let buffer = FlashSectorBuffer::uninit();
    assert_eq!(buffer.len(), 4096);
    assert_eq!(buffer.bytes().len(), 4096);
    let bytes = buffer.into_bytes();
    assert_eq!(bytes.len(), 4096);
    let buffer = FlashSectorBuffer::from_bytes(bytes);
    assert_eq!(buffer.len(), 4096);
}

#[test]
fn full_sector_read_through_buffer() {
    let mut mem = vec![0x5a_u8; 4096];
    mem[3] = 0x00;
    let mut rom = SimFlash::new(mem);
    let mut storage = FlashStorage::new(&mut rom);

    let buffer = FlashSectorBuffer::uninit();
    let mut bytes = buffer.into_bytes();
    assert_eq!(storage.read_uninit(&mut rom, 0, &mut bytes), Ok(()));
    assert_eq!(bytes.len(), 4096);
    assert_eq!(bytes[0], 0x5a);
    assert_eq!(bytes[3], 0x00);
    assert_eq!(bytes[4095], 0x5a);
    let filled = FlashSectorBuffer::from_bytes(bytes);
    assert_eq!(filled.len(), 4096);
}

#[test]
fn raw_read_dispatch_skips_validation() {
    // internal_read applies no bounds or alignment checks: a misaligned
    // in-memory request succeeds, an out-of-memory one surfaces the
    // firmware's failure code.
    let (mut rom, mut storage) = one_mib_device(16);
    let mut bytes = vec![0u8; 3];
    assert_eq!(storage.internal_read(&mut rom, 1, &mut bytes), Ok(()));
    let mut bytes = vec![0u8; 4];
    assert_eq!(
        storage.internal_read(&mut rom, 1_000_000, &mut bytes),
        Err(FlashStorageError::IoError)
    );
}

#[test]
fn raw_write_dispatch_unlocks_then_programs() {
    let (mut rom, mut storage) = one_mib_device(16);
    assert_eq!(storage.internal_write(&mut rom, 5, &[9, 8, 7]), Ok(()));
    assert!(storage.is_unlocked());
    assert_eq!(rom.unlock_count(), 1);
    assert_eq!(rom.write_count(), 1);
    assert_eq!(rom.byte_at(5), 9);
    assert_eq!(rom.byte_at(7), 7);
}

#[test]
fn unlock_once_transitions_and_retries() {
    let (mut rom, mut storage) = one_mib_device(16);
    rom.set_unlock_rc(3);
    assert_eq!(
        storage.unlock_once(&mut rom),
        Err(FlashStorageError::CantUnlock)
    );
    assert!(!storage.is_unlocked());
    rom.set_unlock_rc(0);
    assert_eq!(storage.unlock_once(&mut rom), Ok(()));
    assert!(storage.is_unlocked());
    assert_eq!(rom.unlock_count(), 2);
    // a further call is a no-op
    assert_eq!(storage.unlock_once(&mut rom), Ok(()));
    assert_eq!(rom.unlock_count(), 2);
}
