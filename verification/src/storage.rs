//! The flash storage driver: capacity detection, bounds and alignment
//! validation, the unlock-once step, and read/write/erase dispatch.

use vstd::prelude::*;

use crate::error::check_rc;
use crate::error::rc_result;
use crate::error::FlashStorageError;
use crate::rom::extends_by;
use crate::rom::is_erase_call;
use crate::rom::is_read_call;
use crate::rom::is_unlock_call;
use crate::rom::is_write_call;
use crate::rom::status_of;
use crate::rom::FlashRom;

verus! {

/// The fixed, chip-family-specific address of the flash identification
/// region.
pub const FLASH_ID_ADDR: u32 = 0;

/// The range `[offset, offset + length)` lies within a device of
/// `capacity` bytes.
pub open spec fn spec_in_bounds(capacity: int, offset: int, length: int) -> bool {
    offset + length <= capacity
}

/// Both `offset` and `length` are multiples of `align`.
pub open spec fn spec_aligned(offset: int, length: int, align: int) -> bool {
    offset % align == 0 && length % align == 0
}

/// The capacity in bytes that an identification density byte denotes: the
/// high nibble selects 1, 2, 4, 8 or 16 MiB, and any other nibble means the
/// byte is invalid and the capacity is 0.
pub open spec fn spec_id_capacity(b: u8) -> usize {
    if b & 0xf0 == 0x00 {
        1048576
    } else if b & 0xf0 == 0x10 {
        2097152
    } else if b & 0xf0 == 0x20 {
        4194304
    } else if b & 0xf0 == 0x30 {
        8388608
    } else if b & 0xf0 == 0x40 {
        16777216
    } else {
        0
    }
}

/// Map an identification density byte to the device capacity in bytes.
pub fn id_capacity_bytes(b: u8) -> (c: usize)
    ensures
        c == spec_id_capacity(b),
{
    let mb: usize = match b & 0xf0 {
        0x00 => 1,
        0x10 => 2,
        0x20 => 4,
        0x30 => 8,
        0x40 => 16,
        _ => 0,
    };
    mb * 1024 * 1024
}

/// Driver state for the flash device: the capacity detected once at
/// construction, and whether the one-time unlock has succeeded.
#[derive(Debug)]
pub struct FlashStorage {
    capacity: usize,
    unlocked: bool,
}

impl FlashStorage {
    /// The word granularity of the firmware routines, in bytes.
    pub const WORD_SIZE: u32 = 4;

    /// The size of one flash sector, in bytes.
    pub const SECTOR_SIZE: u32 = 4096;

    /// The detected device capacity in bytes.
    pub closed spec fn spec_capacity(&self) -> usize {
        self.capacity
    }

    /// Whether the one-time unlock transition has succeeded.
    pub closed spec fn spec_unlocked(&self) -> bool {
        self.unlocked
    }

    /// The capacity is either 0 (detection failed) or one of 1, 2, 4, 8 or
    /// 16 MiB.
    pub open spec fn wf(&self) -> bool {
        self.spec_capacity() == 0 || self.spec_capacity() == 1048576 || self.spec_capacity()
            == 2097152 || self.spec_capacity() == 4194304 || self.spec_capacity() == 8388608
            || self.spec_capacity() == 16777216
    }

    /// Both validation checks pass for this device: the range lies within
    /// the capacity and both offset and length are word-aligned.
    pub open spec fn access_ok(&self, offset: u32, length: int) -> bool {
        spec_in_bounds(self.spec_capacity() as int, offset as int, length) && spec_aligned(
            offset as int,
            length,
            FlashStorage::WORD_SIZE as int,
        )
    }

    /// The detected device capacity in bytes.
    pub fn capacity(&self) -> (r: usize)
        ensures
            r == self.spec_capacity(),
    {
        self.capacity
    }

    /// Whether the one-time unlock transition has succeeded.
    pub fn is_unlocked(&self) -> (r: bool)
        ensures
            r == self.spec_unlocked(),
    {
        self.unlocked
    }

    /// Succeeds exactly when the whole range `[offset, offset + length)`
    /// lies within the device capacity; fails with `OutOfBounds` otherwise.
    pub fn check_bounds(&self, offset: u32, length: usize) -> (r: Result<(), FlashStorageError>)
        ensures
            r is Ok <==> spec_in_bounds(self.spec_capacity() as int, offset as int, length as int),
            r is Err ==> r == Err::<(), FlashStorageError>(FlashStorageError::OutOfBounds),
    {
        let off = offset as usize;
        if length > self.capacity || off > self.capacity - length {
            return Err(FlashStorageError::OutOfBounds);
        }
        Ok(())
    }

    /// Succeeds exactly when both `offset` and `length` are multiples of
    /// `ALIGN`; fails with `NotAligned` otherwise.
    pub fn check_alignment<const ALIGN: u32>(&self, offset: u32, length: usize) -> (r: Result<
        (),
        FlashStorageError,
    >)
        requires
            ALIGN >= 1,
        ensures
            r is Ok <==> spec_aligned(offset as int, length as int, ALIGN as int),
            r is Err ==> r == Err::<(), FlashStorageError>(FlashStorageError::NotAligned),
    {
        let off = offset as usize;
        if off % (ALIGN as usize) != 0 || length % (ALIGN as usize) != 0 {
            return Err(FlashStorageError::NotAligned);
        }
        Ok(())
    }

    /// Raw read dispatch: one firmware read call with the status code
    /// translated.  No validation happens here; on success the buffer is
    /// overwritten with exactly `bytes.len()` bytes, and its prior contents
    /// are never consulted.
    pub fn internal_read<R: FlashRom>(
        &mut self,
        rom: &mut R,
        offset: u32,
        bytes: &mut Vec<u8>,
    ) -> (r: Result<(), FlashStorageError>)
        requires
            old(bytes)@.len() <= u32::MAX,
        ensures
            *final(self) == *old(self),
            final(rom).contents() == old(rom).contents(),
            final(rom).read_calls() == old(rom).read_calls() + 1,
            final(rom).unlock_calls() == old(rom).unlock_calls(),
            final(rom).write_calls() == old(rom).write_calls(),
            final(rom).erase_calls() == old(rom).erase_calls(),
            final(bytes)@.len() == old(bytes)@.len(),
            !(r is Ok) ==> final(bytes)@ == old(bytes)@,
            r is Ok && offset as int + old(bytes)@.len() <= old(rom).contents().len()
                ==> final(bytes)@ == old(rom).contents().subrange(
                offset as int,
                offset as int + old(bytes)@.len(),
            ),
            r is Err ==> r == Err::<(), FlashStorageError>(FlashStorageError::IoError) || r
                == Err::<(), FlashStorageError>(FlashStorageError::IoTimeout) || r matches Err(
                FlashStorageError::Other(_),
            ),
            extends_by(old(rom).history(), final(rom).history(), 1),
            is_read_call(final(rom).history().last(), offset, old(bytes)@.len() as u32),
            r == rc_result(status_of(final(rom).history().last())),
    {
        let len = bytes.len() as u32;
        let (rc, data) = rom.read(offset, len);
        proof {
            let h0 = old(rom).history();
            assert(rom.history().subrange(0, h0.len() as int) =~= h0);
        }
        if rc == 0 {
            *bytes = data;
        }
        check_rc(rc)
    }

    /// The unlock-once step: if the device is still locked, invoke the
    /// firmware unlock routine.  A nonzero status fails with `CantUnlock`
    /// and leaves the device locked, so a later mutating call attempts the
    /// unlock anew; after a success the device stays unlocked and no
    /// further unlock calls are issued.
    pub fn unlock_once<R: FlashRom>(&mut self, rom: &mut R) -> (r: Result<(), FlashStorageError>)
        ensures
            final(self).spec_capacity() == old(self).spec_capacity(),
            final(rom).contents() == old(rom).contents(),
            final(rom).read_calls() == old(rom).read_calls(),
            final(rom).write_calls() == old(rom).write_calls(),
            final(rom).erase_calls() == old(rom).erase_calls(),
            old(self).spec_unlocked() ==> *final(self) == *old(self) && *final(rom) == *old(rom)
                && r is Ok,
            !old(self).spec_unlocked() ==> final(rom).unlock_calls() == old(rom).unlock_calls()
                + 1,
            !old(self).spec_unlocked() ==> extends_by(old(rom).history(), final(rom).history(), 1)
                && is_unlock_call(final(rom).history().last()) && (status_of(
                final(rom).history().last(),
            ) == 0 <==> final(self).spec_unlocked()),
            r is Ok <==> final(self).spec_unlocked(),
            !(r is Ok) ==> r == Err::<(), FlashStorageError>(FlashStorageError::CantUnlock)
                && *final(self) == *old(self),
    {
        if !self.unlocked {
            let rc = rom.unlock();
            proof {
                let h0 = old(rom).history();
                assert(rom.history().subrange(0, h0.len() as int) =~= h0);
            }
            if rc != 0 {
                return Err(FlashStorageError::CantUnlock);
            }
            self.unlocked = true;
        }
        Ok(())
    }

    /// Raw write dispatch: pass the unlock-once step, then issue one
    /// firmware program call and translate its status.  No validation
    /// happens here.
    pub fn internal_write<R: FlashRom>(&mut self, rom: &mut R, offset: u32, bytes: &[u8]) -> (r:
        Result<(), FlashStorageError>)
        ensures
            final(self).spec_capacity() == old(self).spec_capacity(),
            final(rom).contents().len() == old(rom).contents().len(),
            final(rom).read_calls() == old(rom).read_calls(),
            final(rom).erase_calls() == old(rom).erase_calls(),
            old(self).spec_unlocked() ==> final(self).spec_unlocked(),
            old(self).spec_unlocked() ==> final(rom).unlock_calls() == old(rom).unlock_calls(),
            !old(self).spec_unlocked() ==> final(rom).unlock_calls() == old(rom).unlock_calls()
                + 1,
            final(self).spec_unlocked() ==> final(rom).write_calls() == old(rom).write_calls()
                + 1,
            !final(self).spec_unlocked() ==> final(rom).write_calls() == old(rom).write_calls()
                && final(rom).contents() == old(rom).contents() && r == Err::<
                (),
                FlashStorageError,
            >(FlashStorageError::CantUnlock),
            r is Ok ==> final(self).spec_unlocked(),
            r == Err::<(), FlashStorageError>(FlashStorageError::CantUnlock) ==> !old(self).spec_unlocked() && !final(self).spec_unlocked(),
            r is Err ==> r == Err::<(), FlashStorageError>(FlashStorageError::CantUnlock) || r
                == Err::<(), FlashStorageError>(FlashStorageError::IoError) || r == Err::<
                (),
                FlashStorageError,
            >(FlashStorageError::IoTimeout) || r matches Err(FlashStorageError::Other(_)),
            old(self).spec_unlocked() ==> extends_by(old(rom).history(), final(rom).history(), 1)
                && is_write_call(final(rom).history().last(), offset, bytes@) && r == rc_result(
                status_of(final(rom).history().last()),
            ),
            !old(self).spec_unlocked() && final(self).spec_unlocked() ==> extends_by(
                old(rom).history(),
                final(rom).history(),
                2,
            ) && is_unlock_call(final(rom).history()[old(rom).history().len() as int])
                && status_of(final(rom).history()[old(rom).history().len() as int]) == 0
                && is_write_call(final(rom).history().last(), offset, bytes@) && r == rc_result(
                status_of(final(rom).history().last()),
            ),
            !final(self).spec_unlocked() ==> extends_by(old(rom).history(), final(rom).history(), 1)
                && is_unlock_call(final(rom).history().last()) && status_of(
                final(rom).history().last(),
            ) != 0,
    {
        self.unlock_once(rom)?;
        let rc = rom.write(offset, bytes);
        proof {
            let h0 = old(rom).history();
            assert(rom.history().subrange(0, h0.len() as int) =~= h0);
        }
        check_rc(rc)
    }

    /// Raw erase dispatch: pass the unlock-once step, then issue one
    /// firmware sector-erase call and translate its status.  Sector-index
    /// validity is the caller's responsibility; no bounds check is applied
    /// at this layer.
    pub fn internal_erase<R: FlashRom>(&mut self, rom: &mut R, sector: u32) -> (r: Result<
        (),
        FlashStorageError,
    >)
        ensures
            final(self).spec_capacity() == old(self).spec_capacity(),
            final(rom).contents().len() == old(rom).contents().len(),
            final(rom).read_calls() == old(rom).read_calls(),
            final(rom).write_calls() == old(rom).write_calls(),
            old(self).spec_unlocked() ==> final(self).spec_unlocked(),
            old(self).spec_unlocked() ==> final(rom).unlock_calls() == old(rom).unlock_calls(),
            !old(self).spec_unlocked() ==> final(rom).unlock_calls() == old(rom).unlock_calls()
                + 1,
            final(self).spec_unlocked() ==> final(rom).erase_calls() == old(rom).erase_calls()
                + 1,
            !final(self).spec_unlocked() ==> final(rom).erase_calls() == old(rom).erase_calls()
                && final(rom).contents() == old(rom).contents() && r == Err::<
                (),
                FlashStorageError,
            >(FlashStorageError::CantUnlock),
            r is Ok ==> final(self).spec_unlocked(),
            r == Err::<(), FlashStorageError>(FlashStorageError::CantUnlock) ==> !old(self).spec_unlocked() && !final(self).spec_unlocked(),
            r is Err ==> r == Err::<(), FlashStorageError>(FlashStorageError::CantUnlock) || r
                == Err::<(), FlashStorageError>(FlashStorageError::IoError) || r == Err::<
                (),
                FlashStorageError,
            >(FlashStorageError::IoTimeout) || r matches Err(FlashStorageError::Other(_)),
            old(self).spec_unlocked() ==> extends_by(old(rom).history(), final(rom).history(), 1)
                && is_erase_call(final(rom).history().last(), sector) && r == rc_result(
                status_of(final(rom).history().last()),
            ),
            !old(self).spec_unlocked() && final(self).spec_unlocked() ==> extends_by(
                old(rom).history(),
                final(rom).history(),
                2,
            ) && is_unlock_call(final(rom).history()[old(rom).history().len() as int])
                && status_of(final(rom).history()[old(rom).history().len() as int]) == 0
                && is_erase_call(final(rom).history().last(), sector) && r == rc_result(
                status_of(final(rom).history().last()),
            ),
            !final(self).spec_unlocked() ==> extends_by(old(rom).history(), final(rom).history(), 1)
                && is_unlock_call(final(rom).history().last()) && status_of(
                final(rom).history().last(),
            ) != 0,
    {
        self.unlock_once(rom)?;
        let rc = rom.erase_sector(sector);
        proof {
            let h0 = old(rom).history();
            assert(rom.history().subrange(0, h0.len() as int) =~= h0);
        }
        check_rc(rc)
    }

    /// Construct the driver.  One read of the 8 identification bytes is
    /// issued; the high nibble of the 4th byte is mapped to the capacity.
    /// Construction never fails: if the identification read fails, the
    /// capacity is 0 and every later bounds check rejects the access.  The
    /// device starts locked.
    pub fn new<R: FlashRom>(rom: &mut R) -> (r: FlashStorage)
        ensures
            !r.spec_unlocked(),
            r.wf(),
            final(rom).contents() == old(rom).contents(),
            final(rom).read_calls() == old(rom).read_calls() + 1,
            final(rom).unlock_calls() == old(rom).unlock_calls(),
            final(rom).write_calls() == old(rom).write_calls(),
            final(rom).erase_calls() == old(rom).erase_calls(),
            extends_by(old(rom).history(), final(rom).history(), 1),
            is_read_call(final(rom).history().last(), FLASH_ID_ADDR, 8),
            status_of(final(rom).history().last()) != 0 ==> r.spec_capacity() == 0,
            status_of(final(rom).history().last()) == 0 && old(rom).contents().len() >= 8
                ==> r.spec_capacity() == spec_id_capacity(old(rom).contents()[3]),
    {
        let mut storage = FlashStorage { capacity: 0, unlocked: false };
        let mut buffer: Vec<u8> = vec![0u8; 8];
        let res = storage.internal_read(rom, FLASH_ID_ADDR, &mut buffer);
        match res {
            Ok(()) => {
                storage.capacity = id_capacity_bytes(buffer[3]);
            },
            Err(_) => {},
        }
        storage
    }

    /// Read bytes into `bytes`, whose prior contents are never consulted:
    /// the bounds check runs first, then the alignment check, and only when
    /// both pass is one firmware read issued.  On success exactly
    /// `bytes.len()` bytes are overwritten; on any failure the buffer is
    /// unchanged.  Reads never consult or trigger the unlock state.
    pub fn read_uninit<R: FlashRom>(
        &mut self,
        rom: &mut R,
        offset: u32,
        bytes: &mut Vec<u8>,
    ) -> (r: Result<(), FlashStorageError>)
        requires
            old(self).wf(),
        ensures
            *final(self) == *old(self),
            final(bytes)@.len() == old(bytes)@.len(),
            r == Err::<(), FlashStorageError>(FlashStorageError::OutOfBounds) <==> !spec_in_bounds(
                old(self).spec_capacity() as int,
                offset as int,
                old(bytes)@.len() as int,
            ),
            spec_in_bounds(old(self).spec_capacity() as int, offset as int, old(bytes)@.len() as int)
                ==> (r == Err::<(), FlashStorageError>(FlashStorageError::NotAligned)
                <==> !spec_aligned(
                offset as int,
                old(bytes)@.len() as int,
                FlashStorage::WORD_SIZE as int,
            )),
            !old(self).access_ok(offset, old(bytes)@.len() as int) ==> *final(rom) == *old(rom)
                && final(bytes)@ == old(bytes)@,
            old(self).access_ok(offset, old(bytes)@.len() as int) ==> final(rom).contents() == old(rom).contents() && final(rom).read_calls() == old(rom).read_calls() + 1 && final(rom).unlock_calls() == old(rom).unlock_calls() && final(rom).write_calls() == old(rom).write_calls() && final(rom).erase_calls() == old(rom).erase_calls(),
            r is Ok ==> old(self).access_ok(offset, old(bytes)@.len() as int),
            old(self).access_ok(offset, old(bytes)@.len() as int) ==> extends_by(
                old(rom).history(),
                final(rom).history(),
                1,
            ) && is_read_call(final(rom).history().last(), offset, old(bytes)@.len() as u32) && r
                == rc_result(status_of(final(rom).history().last())),
            r is Ok && offset as int + old(bytes)@.len() <= old(rom).contents().len()
                ==> final(bytes)@ == old(rom).contents().subrange(
                offset as int,
                offset as int + old(bytes)@.len(),
            ),
            !(r is Ok) ==> final(bytes)@ == old(bytes)@,
            r is Err ==> r == Err::<(), FlashStorageError>(FlashStorageError::OutOfBounds) || r
                == Err::<(), FlashStorageError>(FlashStorageError::NotAligned) || r == Err::<
                (),
                FlashStorageError,
            >(FlashStorageError::IoError) || r == Err::<(), FlashStorageError>(
                FlashStorageError::IoTimeout,
            ) || r matches Err(FlashStorageError::Other(_)),
    {
        self.check_bounds(offset, bytes.len())?;
        self.check_alignment::<4>(offset, bytes.len())?;
        self.internal_read(rom, offset, bytes)
    }

    /// Read bytes into an already-initialized buffer.  Behaviorally
    /// identical to [`Self::read_uninit`]; this entry point exists for
    /// caller ergonomics.
    pub fn read<R: FlashRom>(&mut self, rom: &mut R, offset: u32, bytes: &mut Vec<u8>) -> (r:
        Result<(), FlashStorageError>)
        requires
            old(self).wf(),
        ensures
            *final(self) == *old(self),
            final(bytes)@.len() == old(bytes)@.len(),
            r == Err::<(), FlashStorageError>(FlashStorageError::OutOfBounds) <==> !spec_in_bounds(
                old(self).spec_capacity() as int,
                offset as int,
                old(bytes)@.len() as int,
            ),
            spec_in_bounds(old(self).spec_capacity() as int, offset as int, old(bytes)@.len() as int)
                ==> (r == Err::<(), FlashStorageError>(FlashStorageError::NotAligned)
                <==> !spec_aligned(
                offset as int,
                old(bytes)@.len() as int,
                FlashStorage::WORD_SIZE as int,
            )),
            !old(self).access_ok(offset, old(bytes)@.len() as int) ==> *final(rom) == *old(rom)
                && final(bytes)@ == old(bytes)@,
            old(self).access_ok(offset, old(bytes)@.len() as int) ==> final(rom).contents() == old(rom).contents() && final(rom).read_calls() == old(rom).read_calls() + 1 && final(rom).unlock_calls() == old(rom).unlock_calls() && final(rom).write_calls() == old(rom).write_calls() && final(rom).erase_calls() == old(rom).erase_calls(),
            r is Ok ==> old(self).access_ok(offset, old(bytes)@.len() as int),
            old(self).access_ok(offset, old(bytes)@.len() as int) ==> extends_by(
                old(rom).history(),
                final(rom).history(),
                1,
            ) && is_read_call(final(rom).history().last(), offset, old(bytes)@.len() as u32) && r
                == rc_result(status_of(final(rom).history().last())),
            r is Ok && offset as int + old(bytes)@.len() <= old(rom).contents().len()
                ==> final(bytes)@ == old(rom).contents().subrange(
                offset as int,
                offset as int + old(bytes)@.len(),
            ),
            !(r is Ok) ==> final(bytes)@ == old(bytes)@,
            r is Err ==> r == Err::<(), FlashStorageError>(FlashStorageError::OutOfBounds) || r
                == Err::<(), FlashStorageError>(FlashStorageError::NotAligned) || r == Err::<
                (),
                FlashStorageError,
            >(FlashStorageError::IoError) || r == Err::<(), FlashStorageError>(
                FlashStorageError::IoTimeout,
            ) || r matches Err(FlashStorageError::Other(_)),
    {
        self.read_uninit(rom, offset, bytes)
    }

    /// Write `bytes` at `offset`: the bounds check runs first, then the
    /// alignment check, and only when both pass does the operation touch
    /// the firmware — the unlock step once, then exactly one program call.
    /// An unlock failure reports `CantUnlock`, leaves the device locked and
    /// issues no program call.  No implicit erase is performed.
    pub fn write<R: FlashRom>(&mut self, rom: &mut R, offset: u32, bytes: &[u8]) -> (r: Result<
        (),
        FlashStorageError,
    >)
        ensures
            final(self).spec_capacity() == old(self).spec_capacity(),
            old(self).spec_unlocked() ==> final(self).spec_unlocked(),
            r == Err::<(), FlashStorageError>(FlashStorageError::OutOfBounds) <==> !spec_in_bounds(
                old(self).spec_capacity() as int,
                offset as int,
                bytes@.len() as int,
            ),
            spec_in_bounds(old(self).spec_capacity() as int, offset as int, bytes@.len() as int)
                ==> (r == Err::<(), FlashStorageError>(FlashStorageError::NotAligned)
                <==> !spec_aligned(
                offset as int,
                bytes@.len() as int,
                FlashStorage::WORD_SIZE as int,
            )),
            !old(self).access_ok(offset, bytes@.len() as int) ==> *final(self) == *old(self)
                && *final(rom) == *old(rom),
            old(self).access_ok(offset, bytes@.len() as int) ==> final(rom).read_calls() == old(rom).read_calls() && final(rom).erase_calls() == old(rom).erase_calls() && final(rom).contents().len() == old(rom).contents().len(),
            old(self).access_ok(offset, bytes@.len() as int) && old(self).spec_unlocked() ==> final(rom).unlock_calls() == old(rom).unlock_calls(),
            old(self).access_ok(offset, bytes@.len() as int) && !old(self).spec_unlocked()
                ==> final(rom).unlock_calls() == old(rom).unlock_calls() + 1,
            old(self).access_ok(offset, bytes@.len() as int) && final(self).spec_unlocked()
                ==> final(rom).write_calls() == old(rom).write_calls() + 1,
            old(self).access_ok(offset, bytes@.len() as int) && !final(self).spec_unlocked()
                ==> final(rom).write_calls() == old(rom).write_calls() && final(rom).contents()
                == old(rom).contents() && r == Err::<(), FlashStorageError>(
                FlashStorageError::CantUnlock,
            ),
            r is Ok ==> old(self).access_ok(offset, bytes@.len() as int) && final(self).spec_unlocked(),
            r == Err::<(), FlashStorageError>(FlashStorageError::CantUnlock) ==> !old(self).spec_unlocked() && !final(self).spec_unlocked(),
            r is Err ==> r == Err::<(), FlashStorageError>(FlashStorageError::OutOfBounds) || r
                == Err::<(), FlashStorageError>(FlashStorageError::NotAligned) || r == Err::<
                (),
                FlashStorageError,
            >(FlashStorageError::CantUnlock) || r == Err::<(), FlashStorageError>(
                FlashStorageError::IoError,
            ) || r == Err::<(), FlashStorageError>(FlashStorageError::IoTimeout) || r matches Err(
                FlashStorageError::Other(_),
            ),
            old(self).access_ok(offset, bytes@.len() as int) && old(self).spec_unlocked()
                ==> extends_by(old(rom).history(), final(rom).history(), 1) && is_write_call(
                final(rom).history().last(),
                offset,
                bytes@,
            ) && r == rc_result(status_of(final(rom).history().last())),
            old(self).access_ok(offset, bytes@.len() as int) && !old(self).spec_unlocked()
                && final(self).spec_unlocked() ==> extends_by(
                old(rom).history(),
                final(rom).history(),
                2,
            ) && is_unlock_call(final(rom).history()[old(rom).history().len() as int])
                && status_of(final(rom).history()[old(rom).history().len() as int]) == 0
                && is_write_call(final(rom).history().last(), offset, bytes@) && r == rc_result(
                status_of(final(rom).history().last()),
            ),
            old(self).access_ok(offset, bytes@.len() as int) && !final(self).spec_unlocked()
                ==> extends_by(old(rom).history(), final(rom).history(), 1) && is_unlock_call(
                final(rom).history().last(),
            ) && status_of(final(rom).history().last()) != 0,
    {
        self.check_bounds(offset, bytes.len())?;
        self.check_alignment::<4>(offset, bytes.len())?;
        self.internal_write(rom, offset, bytes)
    }
}

} // verus!
