//! Verified host-side logic for AVR UPDI targets behind Microchip EDBG/nEDBG probes.
use vstd::prelude::*;

pub mod bytes;
pub mod edbg_avr;
pub mod edbg_link;
pub mod text;
pub mod query;
pub mod avr;
pub mod words;
pub mod memory_rpc;
pub mod hexfmt;
pub mod read_output;
pub mod edbg_avr_info;
pub mod edbg_avr_read;
pub mod flash_sequence;

verus! {

} // verus!
