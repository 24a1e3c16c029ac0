//! A bounds- and alignment-checked driver for raw on-chip flash storage.
//!
//! The driver validates every access against the detected device capacity and
//! the word-alignment constraint of the underlying firmware routines, manages
//! the one-time unlock transition required before mutating operations, and
//! translates firmware status codes into a closed error taxonomy.  The
//! firmware routines themselves are an opaque capability, modelled by the
//! [`rom::FlashRom`] trait; [`sim::SimFlash`] is a verified in-memory
//! implementation for host-side use.

pub mod buffer;
pub mod error;
pub mod rom;
pub mod sim;
pub mod storage;

pub use buffer::FlashSectorBuffer;
pub use error::check_rc;
pub use error::FlashStorageError;
pub use rom::FlashRom;
pub use sim::SimFlash;
pub use storage::FlashStorage;
