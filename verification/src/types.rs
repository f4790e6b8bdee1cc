//! The library's error taxonomy. Every operation reports exactly one of
//! these; nothing is recovered locally.

use crate::flash;
use vstd::prelude::*;

verus! {

#[derive(Debug, Clone, Copy, PartialEq, Eq, Structural)]
pub enum Error {
    /// Underlying flash read/erase/write failed.
    Io(flash::Error),
    /// No candidate offset holds a valid EFS for the request.
    EfsHeaderNotFound,
    /// EFS create at an offset not permitted for the generation.
    EfsRangeCheck,
    /// EFS present but the PSP pointer is a sentinel or the directory does not parse.
    PspDirectoryHeaderNotFound,
    /// EFS present but the BHD pointer is a sentinel or the directory does not parse.
    BhdDirectoryHeaderNotFound,
    /// Payload base not aligned to 4 kiB.
    DirectoryPayloadMisaligned,
    /// Entry count exceeds capacity, arithmetic overflow, or structural invariant violation.
    DirectoryRangeCheck,
    /// Payload address arithmetic overflows or leaves the flash.
    DirectoryPayloadRangeCheck,
    /// Byte slice too short to parse a header or entry.
    Marshal,
    /// Two directories placed at conflicting ranges.
    Overlap,
    /// A directory that already exists was created again.
    Duplicate,
    /// A `Location` not aligned to the flash's erase-block size where one was required.
    Misaligned,
    /// Entry's encoded address mode incompatible with the request.
    EntryTypeMismatch,
    /// Expected entry absent.
    EntryNotFound,
    /// Cookie or address mode not as expected.
    DirectoryTypeMismatch,
    /// SPI-mode bytes inconsistent with the requested generation.
    SpiModeMismatch,
}

pub type Result<Q> = core::result::Result<Q, Error>;

impl From<flash::Error> for Error {
    fn from(error: flash::Error) -> (r: Error) {
        Error::Io(error)
    }
}

impl vstd::std_specs::convert::FromSpecImpl<flash::Error> for Error {
    open spec fn obeys_from_spec() -> bool {
        true
    }

    open spec fn from_spec(error: flash::Error) -> Error {
        Error::Io(error)
    }
}

} // verus!
