//! Status translation, capacity detection, and the two validation checks.

use esp_storage::storage::id_capacity_bytes;
use esp_storage::check_rc;
use esp_storage::FlashStorage;
use esp_storage::FlashStorageError;
use esp_storage::SimFlash;

fn device_with_id(id_byte: u8) -> (SimFlash, FlashStorage) {
    let mut mem = vec![0u8; 16];
    mem[3] = id_byte;
    let mut rom = SimFlash::new(mem);
    let storage = FlashStorage::new(&mut rom);
    (rom, storage)
}

#[test]
fn check_rc_known_codes() {
    assert_eq!(check_rc(0), Ok(()));
    assert_eq!(check_rc(1), Err(FlashStorageError::IoError));
    assert_eq!(check_rc(2), Err(FlashStorageError::IoTimeout));
}

#[test]
fn check_rc_other_codes() {
    assert_eq!(check_rc(7), Err(FlashStorageError::Other(7)));
    assert_eq!(check_rc(-3), Err(FlashStorageError::Other(-3)));
    assert_eq!(check_rc(i32::MAX), Err(FlashStorageError::Other(i32::MAX)));
}

#[test]
fn capacity_table_exact() {
    assert_eq!(id_capacity_bytes(0x00), 1 * 1024 * 1024);
    assert_eq!(id_capacity_bytes(0x10), 2 * 1024 * 1024);
    assert_eq!(id_capacity_bytes(0x20), 4 * 1024 * 1024);
    assert_eq!(id_capacity_bytes(0x30), 8 * 1024 * 1024);
    assert_eq!(id_capacity_bytes(0x40), 16 * 1024 * 1024);
    assert_eq!(id_capacity_bytes(0x50), 0);
    assert_eq!(id_capacity_bytes(0xf0), 0);
    // the low nibble is ignored
    assert_eq!(id_capacity_bytes(0x2a), 4 * 1024 * 1024);
}

#[test]
fn capacity_detection_4mib() {
    let (_rom, storage) = device_with_id(0x20);
    assert_eq!(storage.capacity(), 4 * 1024 * 1024);
    assert_eq!(storage.capacity(), 4_194_304);
}

#[test]
fn capacity_detection_invalid_nibble() {
    let (_rom, storage) = device_with_id(0xf0);
    assert_eq!(storage.capacity(), 0);
}

#[test]
fn capacity_detection_read_failure() {
    // device too small for the 8 identification bytes: the read fails
    let mut rom = SimFlash::new(Vec::new());
    let storage = FlashStorage::new(&mut rom);
    assert_eq!(storage.capacity(), 0);

    // read routine forced to fail
    let mut mem = vec![0u8; 16];
    mem[3] = 0x20;
    let mut rom = SimFlash::new(mem);
    rom.set_read_rc(1);
    let storage = FlashStorage::new(&mut rom);
    assert_eq!(storage.capacity(), 0);
}

#[test]
fn bounds_check_accepts_ranges_within_capacity() {
    let (_rom, storage) = device_with_id(0x00);
    assert_eq!(storage.capacity(), 1_048_576);
    assert_eq!(storage.check_bounds(0, 0), Ok(()));
    assert_eq!(storage.check_bounds(0, 1_048_576), Ok(()));
    assert_eq!(storage.check_bounds(1_048_572, 4), Ok(()));
    assert_eq!(storage.check_bounds(1_048_576, 0), Ok(()));
}

#[test]
fn bounds_check_rejects_ranges_beyond_capacity() {
    let (_rom, storage) = device_with_id(0x00);
    assert_eq!(
        storage.check_bounds(0, 1_048_577),
        Err(FlashStorageError::OutOfBounds)
    );
    assert_eq!(
        storage.check_bounds(1_048_573, 4),
        Err(FlashStorageError::OutOfBounds)
    );
    assert_eq!(
        storage.check_bounds(1_048_576, 1),
        Err(FlashStorageError::OutOfBounds)
    );
    assert_eq!(
        storage.check_bounds(u32::MAX, 4),
        Err(FlashStorageError::OutOfBounds)
    );
}

#[test]
fn bounds_check_zero_capacity() {
    let mut rom = SimFlash::new(Vec::new());
    let storage = FlashStorage::new(&mut rom);
    assert_eq!(storage.check_bounds(0, 0), Ok(()));
    assert_eq!(storage.check_bounds(0, 1), Err(FlashStorageError::OutOfBounds));
    assert_eq!(storage.check_bounds(4, 0), Err(FlashStorageError::OutOfBounds));
}

#[test]
fn alignment_check_accepts_word_multiples() {
    let (_rom, storage) = device_with_id(0x00);
    assert_eq!(storage.check_alignment::<4>(0, 0), Ok(()));
    assert_eq!(storage.check_alignment::<4>(4, 8), Ok(()));
    assert_eq!(storage.check_alignment::<4>(4096, 4096), Ok(()));
}

#[test]
fn alignment_check_rejects_unaligned() {
    let (_rom, storage) = device_with_id(0x00);
    assert_eq!(
        storage.check_alignment::<4>(1, 4),
        Err(FlashStorageError::NotAligned)
    );
    assert_eq!(
        storage.check_alignment::<4>(2, 4),
        Err(FlashStorageError::NotAligned)
    );
    assert_eq!(
        storage.check_alignment::<4>(3, 4),
        Err(FlashStorageError::NotAligned)
    );
    assert_eq!(
        storage.check_alignment::<4>(0, 5),
        Err(FlashStorageError::NotAligned)
    );
    assert_eq!(
        storage.check_alignment::<4>(4, 2),
        Err(FlashStorageError::NotAligned)
    );
    assert_eq!(
        storage.check_alignment::<4>(1, 1),
        Err(FlashStorageError::NotAligned)
    );
}
