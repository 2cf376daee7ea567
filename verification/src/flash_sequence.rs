//! Host-side flash sequence for AVR UPDI targets.
//!
//! AVR chips have no on-chip flash algorithm: page programming is driven
//! entirely from the host. Erase is a chip erase; programming and
//! verification go through byte writes and reads of the core's memory.
use vstd::prelude::*;

verus! {

/// AVR UPDI flash sequence.
#[derive(PartialEq, Eq, Structural, Clone, Copy, Debug)]
pub struct AvrFlashSequence;

impl AvrFlashSequence {
    /// Create a new AVR flash sequence.
    pub fn new() -> (r: Self)
        ensures
            r == AvrFlashSequence,
    {
        AvrFlashSequence
    }

    /// Flash is erased as a whole by a chip erase.
    pub fn supports_chip_erase(&self) -> (r: bool)
        ensures
            r,
    {
        true
    }

    /// AVR UPDI integrates page-erase with page-write: there is no separate
    /// per-sector erase command, so the loader issues one chip erase before
    /// programming.
    pub fn supports_sector_erase(&self) -> (r: bool)
        ensures
            !r,
    {
        false
    }

    /// Verification passes exactly when the bytes read back equal the bytes written.
    pub fn verify_readback(&self, readback: &[u8], data: &[u8]) -> (r: bool)
        ensures
            r == (readback@ == data@),
    {
        if readback.len() != data.len() {
            return false;
        }
        let mut i: usize = 0;
        while i < data.len()
            invariant
                readback@.len() == data@.len(),
                i <= data@.len(),
                forall|j: int| 0 <= j < i ==> readback@[j] == data@[j],
            decreases data@.len() - i,
        {
            if readback[i] != data[i] {
                return false;
            }
            i = i + 1;
        }
        assert(readback@ =~= data@);
        true
    }
}

} // verus!
