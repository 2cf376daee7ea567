//! The `edbg-avr-read` command: which region read its options ask for.
use vstd::prelude::*;

use crate::avr::AvrMemoryRegion;
use crate::edbg_avr::DebugProbeSelector;
use crate::read_output::OutputFormat;
use crate::words::{checked_byte_len, ReadWriteBitWidth};

verus! {

/// The regions `edbg-avr-read` can read.
#[derive(PartialEq, Eq, Structural, Clone, Copy, Debug)]
pub enum Region {
    /// EEPROM memory, addressed relative to the EEPROM start.
    Eeprom,
}

impl Region {
    /// The memory region a command region names.
    pub open spec fn spec_memory_region(self) -> AvrMemoryRegion {
        match self {
            Region::Eeprom => AvrMemoryRegion::Eeprom,
        }
    }

    /// The memory region this command region names.
    pub fn memory_region(self) -> (r: AvrMemoryRegion)
        ensures
            r == self.spec_memory_region(),
    {
        match self {
            Region::Eeprom => AvrMemoryRegion::Eeprom,
        }
    }
}

/// Why a region read request cannot be made.
#[derive(PartialEq, Eq, Structural, Clone, Copy, Debug)]
pub enum ReadRequestError {
    /// The requested read length overflowed.
    LengthOverflow,
    /// The requested read length exceeds 32-bit range.
    LengthExceeds32Bit,
    /// The region-relative address exceeds 32-bit range.
    OffsetExceeds32Bit,
}

/// The region-relative offset and byte length of a read of `words` words of
/// `width` bytes at `address`: the byte length must fit `usize` and then 32
/// bits, and the address 32 bits, checked in that order.
pub open spec fn read_request_spec(words: usize, width: ReadWriteBitWidth, address: u64) -> Result<
    (u32, u32),
    ReadRequestError,
> {
    let n = words * width.spec_byte_width();
    if n > usize::MAX {
        Err(ReadRequestError::LengthOverflow)
    } else if n > u32::MAX {
        Err(ReadRequestError::LengthExceeds32Bit)
    } else if address > u32::MAX {
        Err(ReadRequestError::OffsetExceeds32Bit)
    } else {
        Ok((address as u32, n as u32))
    }
}

/// The region-relative offset and byte length of a read of `words` words of
/// width `width` at `address`.
pub fn region_read_request(words: usize, width: ReadWriteBitWidth, address: u64) -> (r: Result<
    (u32, u32),
    ReadRequestError,
>)
    ensures
        r == read_request_spec(words, width, address),
{
    let byte_len = match checked_byte_len(words, width) {
        Some(n) => n,
        None => {
            return Err(ReadRequestError::LengthOverflow);
        },
    };
    if byte_len as u64 > u32::MAX as u64 {
        return Err(ReadRequestError::LengthExceeds32Bit);
    }
    if address > u32::MAX as u64 {
        return Err(ReadRequestError::OffsetExceeds32Bit);
    }
    Ok((address as u32, byte_len as u32))
}

/// A read of `length` bytes at `offset` in `region`.
#[derive(PartialEq, Eq, Structural, Clone, Copy, Debug)]
pub struct RegionRead {
    pub region: AvrMemoryRegion,
    pub offset: u32,
    pub length: u32,
}

/// Experimental AVR UPDI region read.
///
/// The address is relative to the selected AVR region: reading 16 bytes at
/// EEPROM offset 0x00 is `--region eeprom b8 0x00 16`.
pub struct Cmd {
    /// Disable interactive probe selection
    pub non_interactive: bool,
    /// Use this flag to select a specific probe in the list.
    pub probe: Option<DebugProbeSelector>,
    /// AVR memory region to read from
    pub region: Region,
    /// Region-relative address to read from
    pub address: u64,
    /// Width of the words to read
    pub width: ReadWriteBitWidth,
    /// Number of words to read from the selected region
    pub words: usize,
    /// File to output binary data to
    pub output: Option<String>,
    /// Format of the outputted binary data
    pub format: OutputFormat,
}

impl Cmd {
    /// The region read these options ask for, or why it cannot be made.
    pub fn read_request(&self) -> (r: Result<RegionRead, ReadRequestError>)
        ensures
            r == match read_request_spec(self.words, self.width, self.address) {
                Ok((offset, length)) => Ok::<RegionRead, ReadRequestError>(
                    RegionRead { region: self.region.spec_memory_region(), offset, length },
                ),
                Err(e) => Err(e),
            },
    {
        let region = self.region.memory_region();
        let (offset, length) = region_read_request(self.words, self.width, self.address)?;
        Ok(RegionRead { region, offset, length })
    }
}

} // verus!
