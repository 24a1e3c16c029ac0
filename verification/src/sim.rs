//! A verified in-memory flash device.
//!
//! `SimFlash` implements [`FlashRom`] over a plain byte vector, so the
//! driver can run on a host without the physical chip: reads return slices
//! of the backing bytes, writes overwrite them, and erases fill whole
//! sectors with `0xFF`.  Each routine's status code can be forced to a
//! nonzero value to exercise the driver's failure paths, and the device
//! counts the unlock and program calls it has received so that callers can
//! observe exactly which physical operations the driver issued.

use vstd::prelude::*;

use crate::rom::FlashEvent;
use crate::rom::FlashRom;
use crate::storage::FlashStorage;

verus! {

/// An in-memory flash device with configurable failure injection.
pub struct SimFlash {
    mem: Vec<u8>,
    read_rc: i32,
    unlock_rc: i32,
    write_rc: i32,
    erase_rc: i32,
    reads: Ghost<nat>,
    unlocks: Ghost<nat>,
    writes: Ghost<nat>,
    erases: Ghost<nat>,
    log: Ghost<Seq<FlashEvent>>,
    unlock_count: u64,
    write_count: u64,
}

impl SimFlash {
    /// The status code the read routine is forced to return; 0 means
    /// normal operation.
    pub closed spec fn spec_read_rc(&self) -> i32 {
        self.read_rc
    }

    /// The status code the unlock routine returns.
    pub closed spec fn spec_unlock_rc(&self) -> i32 {
        self.unlock_rc
    }

    /// The status code the program routine is forced to return; 0 means
    /// normal operation.
    pub closed spec fn spec_write_rc(&self) -> i32 {
        self.write_rc
    }

    /// The status code the erase routine is forced to return; 0 means
    /// normal operation.
    pub closed spec fn spec_erase_rc(&self) -> i32 {
        self.erase_rc
    }

    /// The runtime-observable number of unlock calls, saturating at the
    /// counter's maximum.
    pub closed spec fn spec_unlock_count(&self) -> u64 {
        self.unlock_count
    }

    /// The runtime-observable number of program calls, saturating at the
    /// counter's maximum.
    pub closed spec fn spec_write_count(&self) -> u64 {
        self.write_count
    }

    /// A fresh device holding `mem`, with no calls recorded and every
    /// routine behaving normally.
    pub fn new(mem: Vec<u8>) -> (r: SimFlash)
        ensures
            r.contents() == mem@,
            r.history() == Seq::<FlashEvent>::empty(),
            r.read_calls() == 0,
            r.unlock_calls() == 0,
            r.write_calls() == 0,
            r.erase_calls() == 0,
            r.spec_read_rc() == 0,
            r.spec_unlock_rc() == 0,
            r.spec_write_rc() == 0,
            r.spec_erase_rc() == 0,
            r.spec_unlock_count() == 0,
            r.spec_write_count() == 0,
    {
        SimFlash {
            mem,
            read_rc: 0,
            unlock_rc: 0,
            write_rc: 0,
            erase_rc: 0,
            reads: Ghost(0),
            unlocks: Ghost(0),
            writes: Ghost(0),
            erases: Ghost(0),
            log: Ghost(Seq::empty()),
            unlock_count: 0,
            write_count: 0,
        }
    }

    /// Force the read routine to return `rc` from now on.
    pub fn set_read_rc(&mut self, rc: i32)
        ensures
            final(self).spec_read_rc() == rc,
            final(self).spec_unlock_rc() == old(self).spec_unlock_rc(),
            final(self).spec_write_rc() == old(self).spec_write_rc(),
            final(self).spec_erase_rc() == old(self).spec_erase_rc(),
            final(self).contents() == old(self).contents(),
            final(self).history() == old(self).history(),
            final(self).read_calls() == old(self).read_calls(),
            final(self).unlock_calls() == old(self).unlock_calls(),
            final(self).write_calls() == old(self).write_calls(),
            final(self).erase_calls() == old(self).erase_calls(),
            final(self).spec_unlock_count() == old(self).spec_unlock_count(),
            final(self).spec_write_count() == old(self).spec_write_count(),
    {
        self.read_rc = rc;
    }

    /// Force the unlock routine to return `rc` from now on.
    pub fn set_unlock_rc(&mut self, rc: i32)
        ensures
            final(self).spec_unlock_rc() == rc,
            final(self).spec_read_rc() == old(self).spec_read_rc(),
            final(self).spec_write_rc() == old(self).spec_write_rc(),
            final(self).spec_erase_rc() == old(self).spec_erase_rc(),
            final(self).contents() == old(self).contents(),
            final(self).history() == old(self).history(),
            final(self).read_calls() == old(self).read_calls(),
            final(self).unlock_calls() == old(self).unlock_calls(),
            final(self).write_calls() == old(self).write_calls(),
            final(self).erase_calls() == old(self).erase_calls(),
            final(self).spec_unlock_count() == old(self).spec_unlock_count(),
            final(self).spec_write_count() == old(self).spec_write_count(),
    {
        self.unlock_rc = rc;
    }

    /// Force the program routine to return `rc` from now on.
    pub fn set_write_rc(&mut self, rc: i32)
        ensures
            final(self).spec_write_rc() == rc,
            final(self).spec_read_rc() == old(self).spec_read_rc(),
            final(self).spec_unlock_rc() == old(self).spec_unlock_rc(),
            final(self).spec_erase_rc() == old(self).spec_erase_rc(),
            final(self).contents() == old(self).contents(),
            final(self).history() == old(self).history(),
            final(self).read_calls() == old(self).read_calls(),
            final(self).unlock_calls() == old(self).unlock_calls(),
            final(self).write_calls() == old(self).write_calls(),
            final(self).erase_calls() == old(self).erase_calls(),
            final(self).spec_unlock_count() == old(self).spec_unlock_count(),
            final(self).spec_write_count() == old(self).spec_write_count(),
    {
        self.write_rc = rc;
    }

    /// Force the erase routine to return `rc` from now on.
    pub fn set_erase_rc(&mut self, rc: i32)
        ensures
            final(self).spec_erase_rc() == rc,
            final(self).spec_read_rc() == old(self).spec_read_rc(),
            final(self).spec_unlock_rc() == old(self).spec_unlock_rc(),
            final(self).spec_write_rc() == old(self).spec_write_rc(),
            final(self).contents() == old(self).contents(),
            final(self).history() == old(self).history(),
            final(self).read_calls() == old(self).read_calls(),
            final(self).unlock_calls() == old(self).unlock_calls(),
            final(self).write_calls() == old(self).write_calls(),
            final(self).erase_calls() == old(self).erase_calls(),
            final(self).spec_unlock_count() == old(self).spec_unlock_count(),
            final(self).spec_write_count() == old(self).spec_write_count(),
    {
        self.erase_rc = rc;
    }

    /// How many unlock calls the device has received, saturating at the
    /// counter's maximum.
    pub fn unlock_count(&self) -> (r: u64)
        ensures
            r == self.spec_unlock_count(),
    {
        self.unlock_count
    }

    /// How many program calls the device has received, saturating at the
    /// counter's maximum.
    pub fn write_count(&self) -> (r: u64)
        ensures
            r == self.spec_write_count(),
    {
        self.write_count
    }

    /// The byte the device holds at `addr`.
    pub fn byte_at(&self, addr: usize) -> (r: u8)
        requires
            addr < self.contents().len(),
        ensures
            r == self.contents()[addr as int],
    {
        self.mem[addr]
    }

    /// How many bytes the device holds.
    pub fn mem_len(&self) -> (r: usize)
        ensures
            r == self.contents().len(),
    {
        self.mem.len()
    }
}

impl FlashRom for SimFlash {
    closed spec fn contents(&self) -> Seq<u8> {
        self.mem@
    }

    closed spec fn history(&self) -> Seq<FlashEvent> {
        self.log@
    }

    closed spec fn read_calls(&self) -> nat {
        self.reads@
    }

    closed spec fn unlock_calls(&self) -> nat {
        self.unlocks@
    }

    closed spec fn write_calls(&self) -> nat {
        self.writes@
    }

    closed spec fn erase_calls(&self) -> nat {
        self.erases@
    }

    fn read(&mut self, offset: u32, len: u32) -> (r: (i32, Vec<u8>))
        ensures
            r.0 == 0 <==> old(self).spec_read_rc() == 0 && offset as int + len as int <= old(
                self,
            ).contents().len(),
            r.0 != 0 ==> r.0 == old(self).spec_read_rc() || r.0 == 1,
            final(self).spec_read_rc() == old(self).spec_read_rc(),
            final(self).spec_unlock_rc() == old(self).spec_unlock_rc(),
            final(self).spec_write_rc() == old(self).spec_write_rc(),
            final(self).spec_erase_rc() == old(self).spec_erase_rc(),
            final(self).spec_unlock_count() == old(self).spec_unlock_count(),
            final(self).spec_write_count() == old(self).spec_write_count(),
    {
        self.reads = Ghost(self.reads@ + 1);
        if self.read_rc != 0 {
            let rc = self.read_rc;
            self.log = Ghost(self.log@.push(FlashEvent::Read { offset, len, status: rc }));
            return (rc, Vec::new());
        }
        let off = offset as usize;
        let l = len as usize;
        if l > self.mem.len() || off > self.mem.len() - l {
            self.log = Ghost(self.log@.push(FlashEvent::Read { offset, len, status: 1 }));
            return (1, Vec::new());
        }
        self.log = Ghost(self.log@.push(FlashEvent::Read { offset, len, status: 0 }));
        let mut data: Vec<u8> = Vec::new();
        let mut i: usize = 0;
        while i < l
            invariant
                i <= l,
                off + l <= self.mem@.len(),
                off + l <= usize::MAX,
                data@.len() == i,
                forall|j: int| 0 <= j < i ==> data@[j] == self.mem@[off + j],
            decreases l - i,
        {
            data.push(self.mem[off + i]);
            i = i + 1;
        }
        proof {
            assert(data@ =~= self.mem@.subrange(offset as int, offset as int + len as int));
        }
        (0, data)
    }

    fn unlock(&mut self) -> (rc: i32)
        ensures
            rc == old(self).spec_unlock_rc(),
            final(self).spec_read_rc() == old(self).spec_read_rc(),
            final(self).spec_unlock_rc() == old(self).spec_unlock_rc(),
            final(self).spec_write_rc() == old(self).spec_write_rc(),
            final(self).spec_erase_rc() == old(self).spec_erase_rc(),
            final(self).spec_write_count() == old(self).spec_write_count(),
            old(self).spec_unlock_count() < u64::MAX ==> final(self).spec_unlock_count() == old(self).spec_unlock_count() + 1,
    {
        self.unlocks = Ghost(self.unlocks@ + 1);
        if self.unlock_count < u64::MAX {
            self.unlock_count = self.unlock_count + 1;
        }
        let rc = self.unlock_rc;
        self.log = Ghost(self.log@.push(FlashEvent::Unlock { status: rc }));
        rc
    }

    fn write(&mut self, offset: u32, data: &[u8]) -> (rc: i32)
        ensures
            old(self).spec_write_count() < u64::MAX ==> final(self).spec_write_count() == old(self).spec_write_count() + 1,
            rc == 0 <==> old(self).spec_write_rc() == 0 && offset as int + data@.len() <= old(
                self,
            ).contents().len(),
            rc != 0 ==> rc == old(self).spec_write_rc() || rc == 1,
            rc != 0 ==> final(self).contents() == old(self).contents(),
            rc == 0 && offset as int + data@.len() <= old(self).contents().len() ==> final(self).contents() == old(self).contents().take(offset as int) + data@ + old(self).contents().skip(offset as int + data@.len()),
            final(self).spec_read_rc() == old(self).spec_read_rc(),
            final(self).spec_unlock_rc() == old(self).spec_unlock_rc(),
            final(self).spec_write_rc() == old(self).spec_write_rc(),
            final(self).spec_erase_rc() == old(self).spec_erase_rc(),
            final(self).spec_unlock_count() == old(self).spec_unlock_count(),
    {
        self.writes = Ghost(self.writes@ + 1);
        if self.write_count < u64::MAX {
            self.write_count = self.write_count + 1;
        }
        if self.write_rc != 0 {
            let rc = self.write_rc;
            self.log = Ghost(self.log@.push(FlashEvent::Write { offset, data: data@, status: rc }));
            return rc;
        }
        let off = offset as usize;
        let l = data.len();
        if l > self.mem.len() || off > self.mem.len() - l {
            self.log = Ghost(self.log@.push(FlashEvent::Write { offset, data: data@, status: 1 }));
            return 1;
        }
        self.log = Ghost(self.log@.push(FlashEvent::Write { offset, data: data@, status: 0 }));
        let count_after: u64 = self.write_count;
        let mut i: usize = 0;
        while i < l
            invariant
                i <= l,
                l == data@.len(),
                off + l <= self.mem@.len(),
                off + l <= usize::MAX,
                self.mem@.len() == old(self).mem@.len(),
                self.read_rc == old(self).read_rc,
                self.unlock_rc == old(self).unlock_rc,
                self.write_rc == old(self).write_rc,
                self.erase_rc == old(self).erase_rc,
                self.reads@ == old(self).reads@,
                self.unlocks@ == old(self).unlocks@,
                self.writes@ == old(self).writes@ + 1,
                self.erases@ == old(self).erases@,
                self.log@ == old(self).log@.push(
                    (FlashEvent::Write { offset, data: data@, status: 0 }),
                ),
                self.unlock_count == old(self).unlock_count,
                self.write_count == count_after,
                count_after == if old(self).write_count < u64::MAX {
                    (old(self).write_count + 1) as u64
                } else {
                    old(self).write_count
                },
                forall|j: int| 0 <= j < off ==> self.mem@[j] == old(self).mem@[j],
                forall|j: int| off <= j < off + i ==> self.mem@[j] == data@[j - off],
                forall|j: int|
                    off + l <= j < self.mem@.len() ==> self.mem@[j] == old(self).mem@[j],
            decreases l - i,
        {
            self.mem.set(off + i, data[i]);
            i = i + 1;
        }
        proof {
            assert(self.mem@ =~= old(self).mem@.take(offset as int) + data@ + old(self).mem@.skip(offset as int + data@.len()));
        }
        0
    }

    fn erase_sector(&mut self, sector: u32) -> (rc: i32)
        ensures
            rc == 0 <==> old(self).spec_erase_rc() == 0 && (sector as int + 1)
                * FlashStorage::SECTOR_SIZE <= old(self).contents().len(),
            rc != 0 ==> rc == old(self).spec_erase_rc() || rc == 1,
            rc != 0 ==> final(self).contents() == old(self).contents(),
            final(self).spec_read_rc() == old(self).spec_read_rc(),
            final(self).spec_unlock_rc() == old(self).spec_unlock_rc(),
            final(self).spec_write_rc() == old(self).spec_write_rc(),
            final(self).spec_erase_rc() == old(self).spec_erase_rc(),
            final(self).spec_unlock_count() == old(self).spec_unlock_count(),
            final(self).spec_write_count() == old(self).spec_write_count(),
            rc == 0 ==> {
                forall|j: int|
                    #![auto]
                    sector as int * FlashStorage::SECTOR_SIZE <= j < (sector as int + 1)
                        * FlashStorage::SECTOR_SIZE ==> final(self).contents()[j] == 0xff
            },
            rc == 0 ==> {
                forall|j: int|
                    #![auto]
                    0 <= j < final(self).contents().len() && !(sector as int
                        * FlashStorage::SECTOR_SIZE <= j < (sector as int + 1)
                        * FlashStorage::SECTOR_SIZE) ==> final(self).contents()[j] == old(self).contents()[j]
            },
    {
        self.erases = Ghost(self.erases@ + 1);
        if self.erase_rc != 0 {
            let rc = self.erase_rc;
            self.log = Ghost(self.log@.push(FlashEvent::Erase { sector, status: rc }));
            return rc;
        }
        let sector_size: u64 = 4096;
        let start64: u64 = sector as u64 * sector_size;
        if (self.mem.len() as u64) < sector_size || start64 > (self.mem.len() as u64) - sector_size {
            self.log = Ghost(self.log@.push(FlashEvent::Erase { sector, status: 1 }));
            return 1;
        }
        self.log = Ghost(self.log@.push(FlashEvent::Erase { sector, status: 0 }));
        let start = start64 as usize;
        let mut i: usize = 0;
        while i < 4096
            invariant
                i <= 4096,
                start as int + 4096 <= self.mem@.len(),
                start as int + 4096 <= usize::MAX,
                start == start64,
                start64 == sector as int * 4096,
                self.mem@.len() == old(self).mem@.len(),
                self.read_rc == old(self).read_rc,
                self.unlock_rc == old(self).unlock_rc,
                self.write_rc == old(self).write_rc,
                self.erase_rc == old(self).erase_rc,
                self.reads@ == old(self).reads@,
                self.unlocks@ == old(self).unlocks@,
                self.writes@ == old(self).writes@,
                self.erases@ == old(self).erases@ + 1,
                self.log@ == old(self).log@.push((FlashEvent::Erase { sector, status: 0 })),
                self.unlock_count == old(self).unlock_count,
                self.write_count == old(self).write_count,
                forall|j: int| 0 <= j < start ==> self.mem@[j] == old(self).mem@[j],
                forall|j: int| start <= j < start + i ==> self.mem@[j] == 0xff,
                forall|j: int|
                    start + 4096 <= j < self.mem@.len() ==> self.mem@[j] == old(self).mem@[j],
            decreases 4096 - i,
        {
            self.mem.set(start + i, 0xff);
            i = i + 1;
        }
        0
    }
}

} // verus!
