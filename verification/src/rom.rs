//! The firmware flash routines, modelled as an opaque capability.
//!
//! The hardware exposes four primitive routines — raw read, raw program,
//! sector erase and unlock — each returning a numeric status code whose
//! meaning is fixed (0 is success).  The driver never looks inside these
//! routines; it only decides when to call them and how to interpret their
//! codes.  The trait records, as specification state, the bytes the device
//! holds, per-routine call counts, and a history of every call with its
//! arguments and returned status, so that the driver's contracts can say
//! precisely which physical calls an operation issues and how its result
//! follows from the statuses that came back.
//! [`crate::sim::SimFlash`] is a verified implementation.

use vstd::prelude::*;

verus! {

/// One firmware call: the arguments the routine was given and the status
/// code it returned.  The history of these events is specification state
/// only; it lets the driver's contracts say exactly which physical calls an
/// operation issued and how it interpreted their outcomes.
pub enum FlashEvent {
    /// A read of `len` bytes at byte address `offset`.
    Read { offset: u32, len: u32, status: i32 },
    /// An unlock attempt.
    Unlock { status: i32 },
    /// A program of `data` at byte address `offset`.
    Write { offset: u32, data: Seq<u8>, status: i32 },
    /// An erase of the sector with index `sector`.
    Erase { sector: u32, status: i32 },
}

/// The status code a firmware call returned.
pub open spec fn status_of(e: FlashEvent) -> i32 {
    match e {
        FlashEvent::Read { offset: _, len: _, status } => status,
        FlashEvent::Unlock { status } => status,
        FlashEvent::Write { offset: _, data: _, status } => status,
        FlashEvent::Erase { sector: _, status } => status,
    }
}

/// The event is a read call that carried exactly `offset` and `len`.
pub open spec fn is_read_call(e: FlashEvent, offset: u32, len: u32) -> bool {
    match e {
        FlashEvent::Read { offset: o, len: l, status: _ } => o == offset && l == len,
        _ => false,
    }
}

/// The event is an unlock call.
pub open spec fn is_unlock_call(e: FlashEvent) -> bool {
    match e {
        FlashEvent::Unlock { status: _ } => true,
        _ => false,
    }
}

/// The event is a program call that carried exactly `offset` and `data`.
pub open spec fn is_write_call(e: FlashEvent, offset: u32, data: Seq<u8>) -> bool {
    match e {
        FlashEvent::Write { offset: o, data: d, status: _ } => o == offset && d == data,
        _ => false,
    }
}

/// The event is an erase call that carried exactly `sector`.
pub open spec fn is_erase_call(e: FlashEvent, sector: u32) -> bool {
    match e {
        FlashEvent::Erase { sector: s, status: _ } => s == sector,
        _ => false,
    }
}

/// `h1` is `h0` with exactly `n` further events appended.
pub open spec fn extends_by(h0: Seq<FlashEvent>, h1: Seq<FlashEvent>, n: int) -> bool {
    h1.len() == h0.len() + n && h1.subrange(0, h0.len() as int) == h0
}

/// The four primitive firmware routines of the flash device.
pub trait FlashRom: Sized {
    /// The bytes the device currently holds.
    spec fn contents(&self) -> Seq<u8>;

    /// Every firmware call issued so far, oldest first, with its arguments
    /// and its returned status.
    spec fn history(&self) -> Seq<FlashEvent>;

    /// How many physical read calls have been issued so far.
    spec fn read_calls(&self) -> nat;

    /// How many unlock calls have been issued so far.
    spec fn unlock_calls(&self) -> nat;

    /// How many physical program (write) calls have been issued so far.
    spec fn write_calls(&self) -> nat;

    /// How many sector-erase calls have been issued so far.
    spec fn erase_calls(&self) -> nat;

    /// Read `len` bytes starting at byte address `offset`.  On status 0 the
    /// returned buffer holds exactly the requested bytes; on a nonzero
    /// status its contents are meaningless.
    fn read(&mut self, offset: u32, len: u32) -> (r: (i32, Vec<u8>))
        ensures
            final(self).history() == old(self).history().push(
                (FlashEvent::Read { offset, len, status: r.0 }),
            ),
            final(self).contents() == old(self).contents(),
            final(self).read_calls() == old(self).read_calls() + 1,
            final(self).unlock_calls() == old(self).unlock_calls(),
            final(self).write_calls() == old(self).write_calls(),
            final(self).erase_calls() == old(self).erase_calls(),
            r.0 == 0 ==> r.1@.len() == len as nat,
            r.0 == 0 && offset as int + len as int <= old(self).contents().len() ==> r.1@
                == old(self).contents().subrange(offset as int, offset as int + len as int),
    ;

    /// Attempt the one-time unlock of the device; 0 means it is now
    /// writable.
    fn unlock(&mut self) -> (rc: i32)
        ensures
            final(self).history() == old(self).history().push(
                (FlashEvent::Unlock { status: rc }),
            ),
            final(self).contents() == old(self).contents(),
            final(self).read_calls() == old(self).read_calls(),
            final(self).unlock_calls() == old(self).unlock_calls() + 1,
            final(self).write_calls() == old(self).write_calls(),
            final(self).erase_calls() == old(self).erase_calls(),
    ;

    /// Program `data` starting at byte address `offset`.  Whatever the
    /// outcome, the device keeps its size.
    fn write(&mut self, offset: u32, data: &[u8]) -> (rc: i32)
        ensures
            final(self).history() == old(self).history().push(
                (FlashEvent::Write { offset, data: data@, status: rc }),
            ),
            final(self).contents().len() == old(self).contents().len(),
            final(self).read_calls() == old(self).read_calls(),
            final(self).unlock_calls() == old(self).unlock_calls(),
            final(self).write_calls() == old(self).write_calls() + 1,
            final(self).erase_calls() == old(self).erase_calls(),
    ;

    /// Erase the sector with index `sector`.  Whatever the outcome, the
    /// device keeps its size.
    fn erase_sector(&mut self, sector: u32) -> (rc: i32)
        ensures
            final(self).history() == old(self).history().push(
                (FlashEvent::Erase { sector, status: rc }),
            ),
            final(self).contents().len() == old(self).contents().len(),
            final(self).read_calls() == old(self).read_calls(),
            final(self).unlock_calls() == old(self).unlock_calls(),
            final(self).write_calls() == old(self).write_calls(),
            final(self).erase_calls() == old(self).erase_calls() + 1,
    ;
}

} // verus!
