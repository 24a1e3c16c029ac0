//! A sector-sized staging buffer for whole-sector read/rewrite workflows.
//!
//! The buffer always holds exactly one sector of bytes, and its contract
//! deliberately says nothing about the contents a fresh buffer starts with:
//! callers must treat them as unspecified until a successful full-sector
//! read has overwritten every byte.

use vstd::prelude::*;

use crate::storage::FlashStorage;

verus! {

/// A caller-owned staging buffer of exactly one sector.
pub struct FlashSectorBuffer {
    data: Vec<u8>,
}

impl View for FlashSectorBuffer {
    type V = Seq<u8>;

    closed spec fn view(&self) -> Seq<u8> {
        self.data@
    }
}

impl FlashSectorBuffer {
    /// The buffer holds exactly one sector of bytes.
    pub open spec fn wf(&self) -> bool {
        self@.len() == FlashStorage::SECTOR_SIZE
    }

    /// A fresh sector buffer.  Its contents are unspecified: nothing may be
    /// assumed about them until every byte has been overwritten, for
    /// instance by a successful full-sector read.
    pub fn uninit() -> (r: FlashSectorBuffer)
        ensures
            r.wf(),
    {
        let mut data: Vec<u8> = Vec::new();
        let mut i: usize = 0;
        while i < 4096
            invariant
                i <= 4096,
                data@.len() == i,
            decreases 4096 - i,
        {
            data.push(0u8);
            i = i + 1;
        }
        FlashSectorBuffer { data }
    }

    /// The buffer length in bytes; always one sector.
    pub fn len(&self) -> (r: usize)
        requires
            self.wf(),
        ensures
            r == FlashStorage::SECTOR_SIZE,
    {
        self.data.len()
    }

    /// A read-only view of the buffer's bytes.  The caller is responsible
    /// for knowing which of them have actually been written.
    pub fn bytes(&self) -> (r: &Vec<u8>)
        ensures
            r@ == self@,
    {
        &self.data
    }

    /// Take the bytes out of the buffer, for instance to pass them to a
    /// read operation.  The caller is responsible for knowing which bytes
    /// have actually been written.
    pub fn into_bytes(self) -> (r: Vec<u8>)
        ensures
            r@ == self@,
    {
        self.data
    }

    /// Rebuild a sector buffer from exactly one sector of bytes.
    pub fn from_bytes(data: Vec<u8>) -> (r: FlashSectorBuffer)
        requires
            data@.len() == FlashStorage::SECTOR_SIZE,
        ensures
            r.wf(),
            r@ == data@,
    {
        FlashSectorBuffer { data }
    }
}

} // verus!
