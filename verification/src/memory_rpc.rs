//! Memory requests of the remote-procedure interface, and the translation of
//! region-relative AVR addresses into absolute ones.
use vstd::prelude::*;

use crate::avr::{AvrChipDescriptor, AvrMemoryRegion};

verus! {

/// Handle of a debug session on the server side.
#[derive(PartialEq, Eq, Structural, Clone, Copy, Debug)]
pub struct SessionKey {
    pub key: u64,
}

/// Request to write words to a core's memory.
pub struct WriteMemoryRequest<W> {
    pub sessid: SessionKey,
    pub core: u32,
    pub address: u64,
    pub data: Vec<W>,
    pub region: Option<AvrMemoryRegion>,
}

/// Request to read words from a core's memory.
pub struct ReadMemoryRequest {
    pub sessid: SessionKey,
    pub core: u32,
    pub address: u64,
    pub count: u32,
    pub region: Option<AvrMemoryRegion>,
}

/// Request to reset a core.
pub struct ResetCoreRequest {
    pub sessid: SessionKey,
    pub core: u32,
}

/// Request to reset a core and halt it.
pub struct ResetCoreAndHaltRequest {
    pub sessid: SessionKey,
    pub core: u32,
    pub timeout: std::time::Duration,
}

/// A region was named for a session whose target is not an AVR.
#[derive(PartialEq, Eq, Structural, Clone, Copy, Debug)]
pub enum ResolveError {
    NotAvrSession,
}

/// The absolute address of `address` in `region`: the region's base plus the
/// offset; without a region the address is already absolute.
pub open spec fn resolved_address(chip: AvrChipDescriptor, address: u64, region: AvrMemoryRegion) -> int {
    chip.region_base(region) + address
}

/// Convert a region-relative AVR address to an absolute address.
///
/// For non-AVR sessions (or when no region is specified), the address is
/// returned unchanged. When a region is specified for an AVR session, the
/// region's base address from the chip descriptor is added to the
/// user-supplied offset; flash is addressed from 0.
pub fn avr_resolve_address(
    chip: Option<&AvrChipDescriptor>,
    address: u64,
    region: Option<AvrMemoryRegion>,
) -> (r: Result<u64, ResolveError>)
    requires
        region is Some && chip is Some ==> resolved_address(*chip->0, address, region->0)
            <= u64::MAX,
    ensures
        region is None ==> r == Ok::<u64, ResolveError>(address),
        region is Some && chip is None ==> r == Err::<u64, ResolveError>(ResolveError::NotAvrSession),
        region is Some && chip is Some ==> r == Ok::<u64, ResolveError>(
            resolved_address(*chip->0, address, region->0) as u64,
        ),
{
    let region = match region {
        None => {
            return Ok(address);
        },
        Some(region) => region,
    };
    let chip = match chip {
        None => {
            return Err(ResolveError::NotAvrSession);
        },
        Some(chip) => chip,
    };
    let base: u64 = match region {
        AvrMemoryRegion::Flash => 0,
        AvrMemoryRegion::Eeprom => chip.eeprom_base as u64,
        AvrMemoryRegion::Fuses => chip.fuses_base as u64,
        AvrMemoryRegion::Lock => chip.lock_base as u64,
        AvrMemoryRegion::UserRow => chip.userrow_base as u64,
        AvrMemoryRegion::ProdSig => chip.signature_base as u64,
    };
    Ok(base + address)
}

/// Resolving a region-relative address and mapping the result back to a
/// region gives the region and the offset again, for any offset inside the
/// region, whenever no region that the mapping tries before this one contains
/// the resolved address. Flash is tried first, so flash offsets always come
/// back.
pub proof fn lemma_resolve_then_map(chip: AvrChipDescriptor, region: AvrMemoryRegion, offset: u32)
    requires
        chip.wf(),
        offset < chip.region_size(region),
        forall|earlier: AvrMemoryRegion|
            AvrChipDescriptor::search_rank(earlier) < AvrChipDescriptor::search_rank(region)
                ==> !#[trigger] chip.in_region(earlier, resolved_address(chip, offset as u64, region)),
    ensures
        resolved_address(chip, offset as u64, region) <= u32::MAX,
        chip.region_of(resolved_address(chip, offset as u64, region) as u32) == Some(
            (region, offset),
        ),
{
    let a = resolved_address(chip, offset as u64, region);
    assert(chip.in_region(region, a));
    if AvrChipDescriptor::search_rank(region) > 0 {
        assert(!chip.in_region(AvrMemoryRegion::Flash, a));
    }
    if AvrChipDescriptor::search_rank(region) > 1 {
        assert(!chip.in_region(AvrMemoryRegion::Eeprom, a));
    }
    if AvrChipDescriptor::search_rank(region) > 2 {
        assert(!chip.in_region(AvrMemoryRegion::Fuses, a));
    }
    if AvrChipDescriptor::search_rank(region) > 3 {
        assert(!chip.in_region(AvrMemoryRegion::Lock, a));
    }
    if AvrChipDescriptor::search_rank(region) > 4 {
        assert(!chip.in_region(AvrMemoryRegion::UserRow, a));
    }
}

/// On a chip whose regions do not overlap, every offset inside a region
/// resolves to an address that maps back to that region and offset.
pub proof fn lemma_resolve_then_map_disjoint(
    chip: AvrChipDescriptor,
    region: AvrMemoryRegion,
    offset: u32,
)
    requires
        chip.wf(),
        chip.regions_disjoint(),
        offset < chip.region_size(region),
    ensures
        resolved_address(chip, offset as u64, region) <= u32::MAX,
        chip.region_of(resolved_address(chip, offset as u64, region) as u32) == Some(
            (region, offset),
        ),
{
    let a = resolved_address(chip, offset as u64, region);
    assert(chip.in_region(region, a));
    assert forall|earlier: AvrMemoryRegion|
        AvrChipDescriptor::search_rank(earlier) < AvrChipDescriptor::search_rank(region)
            implies !#[trigger] chip.in_region(earlier, a) by {
        if chip.in_region(earlier, a) {
            assert(earlier != region);
        }
    }
    lemma_resolve_then_map(chip, region, offset);
}

} // verus!
