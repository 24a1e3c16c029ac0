//! The driver's closed error taxonomy and the translation of firmware status
//! codes into it.

use vstd::prelude::*;

verus! {

/// Every failure the driver can report.
///
/// `Other` preserves an unrecognized firmware status code for diagnostics;
/// the set is marked non-exhaustive so that future firmware codes can be
/// surfaced without a breaking change.
#[derive(Debug, Clone, Copy, PartialEq, Eq)]
#[non_exhaustive]
pub enum FlashStorageError {
    /// Generic firmware I/O failure.
    IoError,
    /// The firmware reported that the operation timed out.
    IoTimeout,
    /// The unlock transition failed; the device stays locked.
    CantUnlock,
    /// Offset or length is not a multiple of the word size.
    NotAligned,
    /// The requested range does not lie within the device capacity.
    OutOfBounds,
    /// An unrecognized nonzero firmware status code.
    Other(i32),
}

/// What translating the firmware status code `rc` must yield: 0 is success,
/// 1 and 2 are the two known failures, and any other nonzero code is
/// preserved verbatim.
pub open spec fn rc_result(rc: i32) -> Result<(), FlashStorageError> {
    if rc == 0 {
        Ok(())
    } else if rc == 1 {
        Err(FlashStorageError::IoError)
    } else if rc == 2 {
        Err(FlashStorageError::IoTimeout)
    } else {
        Err(FlashStorageError::Other(rc))
    }
}

/// Translate a firmware status code into the driver's error taxonomy.
pub fn check_rc(rc: i32) -> (r: Result<(), FlashStorageError>)
    ensures
        r == rc_result(rc),
{
    match rc {
        0 => Ok(()),
        1 => Err(FlashStorageError::IoError),
        2 => Err(FlashStorageError::IoTimeout),
        _ => Err(FlashStorageError::Other(rc)),
    }
}

} // verus!
