//! AVR core support for UPDI-attached chips behind EDBG/nEDBG probes: the
//! address map of a chip, the routing of memory reads and writes to the
//! programming or the on-chip-debug transport, and the decisions of the debug
//! interface (status, registers, breakpoints).
//!
//! The transfers themselves are made by the caller: the functions here say
//! where a request goes and what comes of the answer.
use vstd::prelude::*;

use crate::bytes::copy_range;

verus! {

/// A named memory region of an AVR UPDI chip.
#[derive(PartialEq, Eq, Structural, Clone, Copy, Debug)]
pub enum AvrMemoryRegion {
    Flash,
    Eeprom,
    Fuses,
    Lock,
    UserRow,
    ProdSig,
}

/// Memory type used by the on-chip-debug transport.
#[derive(PartialEq, Eq, Structural, Clone, Copy, Debug)]
pub enum DebugMemType {
    Flash,
    Eeprom,
    Sram,
}

/// Base addresses and sizes of the memory regions of an AVR chip, in the
/// data address space.
#[derive(PartialEq, Eq, Structural, Clone, Copy, Debug)]
pub struct AvrChipDescriptor {
    pub flash_base: u32,
    pub flash_size: u32,
    pub eeprom_base: u32,
    pub eeprom_size: u32,
    pub fuses_base: u32,
    pub fuses_size: u32,
    pub lock_base: u32,
    pub lock_size: u32,
    pub userrow_base: u32,
    pub userrow_size: u32,
    pub signature_base: u32,
    pub prodsig_size: u32,
}

impl AvrChipDescriptor {
    /// Every region ends within the 32-bit address space.
    pub open spec fn wf(self) -> bool {
        &&& self.flash_base + self.flash_size <= u32::MAX
        &&& self.eeprom_base + self.eeprom_size <= u32::MAX
        &&& self.fuses_base + self.fuses_size <= u32::MAX
        &&& self.lock_base + self.lock_size <= u32::MAX
        &&& self.userrow_base + self.userrow_size <= u32::MAX
        &&& self.signature_base + self.prodsig_size <= u32::MAX
    }

    /// Base address of `region` as seen by region-relative requests: flash is
    /// addressed from 0, every other region from its data-space base.
    pub open spec fn region_base(self, region: AvrMemoryRegion) -> u32 {
        match region {
            AvrMemoryRegion::Flash => 0,
            AvrMemoryRegion::Eeprom => self.eeprom_base,
            AvrMemoryRegion::Fuses => self.fuses_base,
            AvrMemoryRegion::Lock => self.lock_base,
            AvrMemoryRegion::UserRow => self.userrow_base,
            AvrMemoryRegion::ProdSig => self.signature_base,
        }
    }

    /// Size of `region`.
    pub open spec fn region_size(self, region: AvrMemoryRegion) -> u32 {
        match region {
            AvrMemoryRegion::Flash => self.flash_size,
            AvrMemoryRegion::Eeprom => self.eeprom_size,
            AvrMemoryRegion::Fuses => self.fuses_size,
            AvrMemoryRegion::Lock => self.lock_size,
            AvrMemoryRegion::UserRow => self.userrow_size,
            AvrMemoryRegion::ProdSig => self.prodsig_size,
        }
    }

    /// `addr` lies in `[base, base + size)`.
    pub open spec fn within(addr: int, base: u32, size: u32) -> bool {
        base <= addr < base + size
    }

    /// The region and region-relative offset an absolute address maps to.
    /// Flash is found at `[0, flash_size)` and, when the chip maps it into data
    /// space, at `[flash_base, flash_base + flash_size)`; the other regions
    /// follow, first match first.
    pub open spec fn region_of(self, addr: u32) -> Option<(AvrMemoryRegion, u32)> {
        if addr < self.flash_size {
            Some((AvrMemoryRegion::Flash, addr))
        } else if self.flash_base > 0 && Self::within(addr as int, self.flash_base, self.flash_size) {
            Some((AvrMemoryRegion::Flash, (addr - self.flash_base) as u32))
        } else if Self::within(addr as int, self.eeprom_base, self.eeprom_size) {
            Some((AvrMemoryRegion::Eeprom, (addr - self.eeprom_base) as u32))
        } else if Self::within(addr as int, self.fuses_base, self.fuses_size) {
            Some((AvrMemoryRegion::Fuses, (addr - self.fuses_base) as u32))
        } else if Self::within(addr as int, self.lock_base, self.lock_size) {
            Some((AvrMemoryRegion::Lock, (addr - self.lock_base) as u32))
        } else if Self::within(addr as int, self.userrow_base, self.userrow_size) {
            Some((AvrMemoryRegion::UserRow, (addr - self.userrow_base) as u32))
        } else if Self::within(addr as int, self.signature_base, self.prodsig_size) {
            Some((AvrMemoryRegion::ProdSig, (addr - self.signature_base) as u32))
        } else {
            None
        }
    }

    /// The position of `region` in the order in which [`Self::region_of`]
    /// tries the regions: flash (at both mappings), EEPROM, fuses, lock, user
    /// row, production signature.
    pub open spec fn search_rank(region: AvrMemoryRegion) -> int {
        match region {
            AvrMemoryRegion::Flash => 0,
            AvrMemoryRegion::Eeprom => 1,
            AvrMemoryRegion::Fuses => 2,
            AvrMemoryRegion::Lock => 3,
            AvrMemoryRegion::UserRow => 4,
            AvrMemoryRegion::ProdSig => 5,
        }
    }

    /// The debug memory type and address an absolute address maps to while the
    /// on-chip-debug transport is active. Addresses from `0x800000` are GDB
    /// data-space addresses: memory-mapped flash reads as flash, EEPROM as
    /// EEPROM, everything else as SRAM. Lower addresses are program-space
    /// (flash) addresses, read through their data-space mapping.
    pub open spec fn debug_location(self, addr: u32) -> (DebugMemType, u32) {
        if addr >= GDB_AVR_DATA_OFFSET {
            let data_addr = (addr - GDB_AVR_DATA_OFFSET) as u32;
            if self.flash_base > 0 && Self::within(data_addr as int, self.flash_base, self.flash_size) {
                (DebugMemType::Flash, (data_addr - self.flash_base) as u32)
            } else if Self::within(data_addr as int, self.eeprom_base, self.eeprom_size) {
                (DebugMemType::Eeprom, data_addr)
            } else {
                (DebugMemType::Sram, data_addr)
            }
        } else if addr < self.flash_size {
            (DebugMemType::Sram, (self.flash_base + addr) as u32)
        } else {
            (DebugMemType::Sram, addr)
        }
    }

    /// The regions other than flash do not overlap each other, nor flash at
    /// either of its two mappings.
    pub open spec fn regions_disjoint(self) -> bool {
        forall|a: AvrMemoryRegion, b: AvrMemoryRegion, x: int|
            a != b && #[trigger] self.in_region(a, x) && #[trigger] self.in_region(b, x) ==> false
    }

    /// `x` lies in `region`; flash counts at both of its mappings.
    pub open spec fn in_region(self, region: AvrMemoryRegion, x: int) -> bool {
        match region {
            AvrMemoryRegion::Flash => 0 <= x < self.flash_size || (self.flash_base > 0
                && Self::within(x, self.flash_base, self.flash_size)),
            _ => Self::within(x, self.region_base(region), self.region_size(region)),
        }
    }
}

/// While debugging, a GDB data-space address `0x800000 + d` reads the
/// memory-mapped flash as flash, at its offset from the flash base; it reads
/// the EEPROM, and only the EEPROM, as EEPROM at `d`; everything else (SRAM,
/// I/O, fuses, lock, user row, signature row) is read as SRAM at `d`.
pub proof fn lemma_debug_data_space(chip: AvrChipDescriptor, d: u32)
    requires
        d + 0x800000 <= u32::MAX,
    ensures
        ({
            let loc = chip.debug_location((d + 0x800000) as u32);
            let in_flash = chip.flash_base > 0 && chip.flash_base <= d && d < chip.flash_base
                + chip.flash_size;
            let in_eeprom = chip.eeprom_base <= d && d < chip.eeprom_base + chip.eeprom_size;
            &&& in_flash ==> loc == (DebugMemType::Flash, (d - chip.flash_base) as u32)
            &&& !in_flash ==> (loc.0 == DebugMemType::Eeprom <==> in_eeprom)
            &&& !in_flash && in_eeprom ==> loc == (DebugMemType::Eeprom, d)
            &&& !in_flash && !in_eeprom ==> loc == (DebugMemType::Sram, d)
        }),
{
}

/// While debugging, a program-space address `a` below `0x800000` is read as
/// SRAM: flash addresses through flash's data-space mapping at
/// `flash_base + a`, any other address as it is.
pub proof fn lemma_debug_program_space(chip: AvrChipDescriptor, a: u32)
    requires
        a < 0x800000,
        chip.wf(),
    ensures
        a < chip.flash_size ==> chip.debug_location(a) == (DebugMemType::Sram, (chip.flash_base
            + a) as u32),
        a >= chip.flash_size ==> chip.debug_location(a) == (DebugMemType::Sram, a),
{
}

/// GDB's offset of the AVR data address space.
pub const GDB_AVR_DATA_OFFSET: u32 = 0x800000;

/// Errors of the AVR core interface.
#[derive(PartialEq, Eq, Structural, Clone, Copy, Debug)]
pub enum AvrError {
    /// The address does not fit in 32 bits.
    AddressExceeds32Bit(u64),
    /// The address lies in none of the chip's regions.
    UnmappedAddress(u32),
    /// The transfer length does not fit in 32 bits.
    LengthExceeds32Bit,
    /// The transport returned fewer bytes than requested.
    ShortRead { debug: bool, got: usize, expected: usize },
    /// The operation is not supported on AVR.
    NotImplemented(Unsupported),
    /// No register has this id.
    UnknownRegister(u16),
    /// Only breakpoint unit 0 exists.
    BreakpointUnitOutOfRange(usize),
    /// The breakpoint address does not fit in 32 bits.
    BreakpointAddressExceeds32Bit(u64),
    /// The core did not halt in time.
    Timeout,
}

/// Operations the AVR core interface does not offer.
#[derive(PartialEq, Eq, Structural, Clone, Copy, Debug)]
pub enum Unsupported {
    /// Writes outside the flash region.
    NonFlashWrite,
    /// Register writes.
    RegisterWrite,
    /// Reset catch.
    ResetCatch,
}

/// On-chip-debug session state kept across core-interface calls.
#[derive(PartialEq, Eq, Structural, Clone, Copy, Debug)]
pub struct AvrDebugState {
    /// The on-chip-debug transport is active.
    pub in_debug_mode: bool,
    /// The address of the hardware breakpoint, when one is set.
    pub hw_breakpoint: Option<u64>,
}

/// Core state for AVR, including persistent OCD debug session state.
#[derive(PartialEq, Eq, Structural, Clone, Copy, Debug)]
pub struct AvrCoreState {
    /// Debug session state tracked across core-interface calls.
    pub debug_state: AvrDebugState,
}

impl AvrCoreState {
    /// Create a new AVR core state: not in debug mode, no breakpoint.
    pub fn new() -> (r: Self)
        ensures
            r.debug_state == (AvrDebugState { in_debug_mode: false, hw_breakpoint: None }),
    {
        AvrCoreState { debug_state: AvrDebugState { in_debug_mode: false, hw_breakpoint: None } }
    }
}

/// An AVR core: the chip's address map and the debug session state.
pub struct Avr<'a> {
    pub chip: &'a AvrChipDescriptor,
    pub state: AvrCoreState,
}

/// Where a byte read goes.
#[derive(PartialEq, Eq, Structural, Clone, Copy, Debug)]
pub enum ReadRoute {
    /// Nothing to read.
    Empty,
    /// Through the on-chip-debug transport.
    Debug { memtype: DebugMemType, address: u32, length: u32 },
    /// Through the programming interface.
    Programming { region: AvrMemoryRegion, offset: u32, length: u32 },
}

/// Status of the core.
#[derive(PartialEq, Eq, Structural, Clone, Copy, Debug)]
pub enum CoreStatus {
    /// Not in debug mode: the status is not known.
    Unknown,
    Running,
    Halted(HaltReason),
}

/// Why the core halted.
#[derive(PartialEq, Eq, Structural, Clone, Copy, Debug)]
pub enum HaltReason {
    /// A halt request.
    Request,
    /// The hardware breakpoint.
    HardwareBreakpoint,
}

/// How a reset is made.
#[derive(PartialEq, Eq, Structural, Clone, Copy, Debug)]
pub enum ResetRoute {
    /// Through the on-chip-debug transport.
    Debug,
    /// Through the probe's target reset.
    Probe,
}

/// Where the value of a register is read from.
#[derive(PartialEq, Eq, Structural, Clone, Copy, Debug)]
pub enum RegisterSource {
    /// General-purpose register `R0`..`R31`.
    General(u8),
    /// Status register.
    Sreg,
    /// Stack pointer.
    Sp,
    /// Program counter.
    Pc,
}

/// What the wait-for-halt loop does after a status poll.
#[derive(PartialEq, Eq, Structural, Clone, Copy, Debug)]
pub enum WaitStep {
    /// The core is halted.
    Done,
    /// Give up.
    TimedOut,
    /// Sleep, then poll again.
    Poll,
}

/// The register a register id names: `0..=31` the general-purpose registers,
/// `32` SREG, `33` SP, `34` PC (GDB's AVR numbering).
pub open spec fn register_of(id: u16) -> Option<RegisterSource> {
    if id <= 31 {
        Some(RegisterSource::General(id as u8))
    } else if id == 32 {
        Some(RegisterSource::Sreg)
    } else if id == 33 {
        Some(RegisterSource::Sp)
    } else if id == 34 {
        Some(RegisterSource::Pc)
    } else {
        None
    }
}

/// Which register a register id names.
pub fn register_source(id: u16) -> (r: Result<RegisterSource, AvrError>)
    ensures
        r == match register_of(id) {
            Some(s) => Ok::<RegisterSource, AvrError>(s),
            None => Err(AvrError::UnknownRegister(id)),
        },
{
    if id <= 31 {
        Ok(RegisterSource::General(id as u8))
    } else if id == 32 {
        Ok(RegisterSource::Sreg)
    } else if id == 33 {
        Ok(RegisterSource::Sp)
    } else if id == 34 {
        Ok(RegisterSource::Pc)
    } else {
        Err(AvrError::UnknownRegister(id))
    }
}

/// The wait-for-halt decision after a poll: done when halted, otherwise give
/// up once the timeout has elapsed and poll again before.
pub fn wait_for_halt_step(halted: bool, timeout_elapsed: bool) -> (r: WaitStep)
    ensures
        halted ==> r == WaitStep::Done,
        !halted && timeout_elapsed ==> r == WaitStep::TimedOut,
        !halted && !timeout_elapsed ==> r == WaitStep::Poll,
{
    if halted {
        WaitStep::Done
    } else if timeout_elapsed {
        WaitStep::TimedOut
    } else {
        WaitStep::Poll
    }
}

/// The first `len` bytes of what a transport read returned; fewer bytes than
/// requested is an error.
pub fn complete_read(bytes: Vec<u8>, len: usize, debug: bool) -> (r: Result<Vec<u8>, AvrError>)
    ensures
        bytes@.len() < len ==> r == Err::<Vec<u8>, AvrError>(
            AvrError::ShortRead { debug, got: bytes@.len() as usize, expected: len },
        ),
        bytes@.len() >= len ==> r is Ok && r->Ok_0@ == bytes@.subrange(0, len as int),
{
    if bytes.len() < len {
        return Err(AvrError::ShortRead { debug, got: bytes.len(), expected: len });
    }
    Ok(copy_range(bytes.as_slice(), 0, len))
}

impl<'a> Avr<'a> {
    /// Create a new AVR core interface for `chip` with session state `state`.
    pub fn new(state: AvrCoreState, chip: &'a AvrChipDescriptor) -> (r: Self)
        ensures
            r.chip == chip,
            r.state == state,
    {
        Avr { chip, state }
    }

    /// Map an absolute address to an (AvrMemoryRegion, region-relative offset) pair.
    pub fn address_to_region(&self, address: u64) -> (r: Result<(AvrMemoryRegion, u32), AvrError>)
        requires
            self.chip.wf(),
        ensures
            address > u32::MAX ==> r == Err::<(AvrMemoryRegion, u32), AvrError>(
                AvrError::AddressExceeds32Bit(address),
            ),
            address <= u32::MAX ==> r == match self.chip.region_of(address as u32) {
                Some(p) => Ok::<(AvrMemoryRegion, u32), AvrError>(p),
                None => Err(AvrError::UnmappedAddress(address as u32)),
            },
    {
        if address > u32::MAX as u64 {
            return Err(AvrError::AddressExceeds32Bit(address));
        }
        let addr = address as u32;
        let chip = self.chip;
        if addr < chip.flash_size {
            return Ok((AvrMemoryRegion::Flash, addr));
        }
        if chip.flash_base > 0 && addr >= chip.flash_base && addr < chip.flash_base
            + chip.flash_size {
            return Ok((AvrMemoryRegion::Flash, addr - chip.flash_base));
        }
        if addr >= chip.eeprom_base && addr < chip.eeprom_base + chip.eeprom_size {
            return Ok((AvrMemoryRegion::Eeprom, addr - chip.eeprom_base));
        }
        if addr >= chip.fuses_base && addr < chip.fuses_base + chip.fuses_size {
            return Ok((AvrMemoryRegion::Fuses, addr - chip.fuses_base));
        }
        if addr >= chip.lock_base && addr < chip.lock_base + chip.lock_size {
            return Ok((AvrMemoryRegion::Lock, addr - chip.lock_base));
        }
        if addr >= chip.userrow_base && addr < chip.userrow_base + chip.userrow_size {
            return Ok((AvrMemoryRegion::UserRow, addr - chip.userrow_base));
        }
        if addr >= chip.signature_base && addr < chip.signature_base + chip.prodsig_size {
            return Ok((AvrMemoryRegion::ProdSig, addr - chip.signature_base));
        }
        Err(AvrError::UnmappedAddress(addr))
    }

    /// Map an absolute data-space address to a (debug memtype, address) pair for
    /// use when the OCD debug transport is active.
    pub fn debug_address_to_memtype(&self, address: u64) -> (r: Result<(DebugMemType, u32), AvrError>)
        requires
            self.chip.wf(),
        ensures
            address > u32::MAX ==> r == Err::<(DebugMemType, u32), AvrError>(
                AvrError::AddressExceeds32Bit(address),
            ),
            address <= u32::MAX ==> r == Ok::<(DebugMemType, u32), AvrError>(
                self.chip.debug_location(address as u32),
            ),
    {
        if address > u32::MAX as u64 {
            return Err(AvrError::AddressExceeds32Bit(address));
        }
        let addr = address as u32;
        let chip = self.chip;
        if addr >= GDB_AVR_DATA_OFFSET {
            let data_addr = addr - GDB_AVR_DATA_OFFSET;
            if chip.flash_base > 0 && data_addr >= chip.flash_base && data_addr < chip.flash_base
                + chip.flash_size {
                return Ok((DebugMemType::Flash, data_addr - chip.flash_base));
            }
            if data_addr >= chip.eeprom_base && data_addr < chip.eeprom_base + chip.eeprom_size {
                return Ok((DebugMemType::Eeprom, data_addr));
            }
            return Ok((DebugMemType::Sram, data_addr));
        }
        if addr < chip.flash_size {
            return Ok((DebugMemType::Sram, chip.flash_base + addr));
        }
        Ok((DebugMemType::Sram, addr))
    }

    /// Where a read of `len` bytes at `address` goes: nowhere for an empty read,
    /// to the debug transport in debug mode, to the programming interface otherwise.
    pub fn plan_read_8(&self, address: u64, len: usize) -> (r: Result<ReadRoute, AvrError>)
        requires
            self.chip.wf(),
        ensures
            len == 0 ==> r == Ok::<ReadRoute, AvrError>(ReadRoute::Empty),
            len > 0 && address > u32::MAX ==> r == Err::<ReadRoute, AvrError>(
                AvrError::AddressExceeds32Bit(address),
            ),
            len > 0 && address <= u32::MAX && self.state.debug_state.in_debug_mode ==> r == (
            if len > u32::MAX {
                Err::<ReadRoute, AvrError>(AvrError::LengthExceeds32Bit)
            } else {
                Ok(
                    ReadRoute::Debug {
                        memtype: self.chip.debug_location(address as u32).0,
                        address: self.chip.debug_location(address as u32).1,
                        length: len as u32,
                    },
                )
            }),
            len > 0 && address <= u32::MAX && !self.state.debug_state.in_debug_mode ==> r == match self.chip.region_of(
                address as u32,
            ) {
                None => Err::<ReadRoute, AvrError>(AvrError::UnmappedAddress(address as u32)),
                Some((region, offset)) => if len > u32::MAX {
                    Err::<ReadRoute, AvrError>(AvrError::LengthExceeds32Bit)
                } else {
                    Ok(ReadRoute::Programming { region, offset, length: len as u32 })
                },
            },
    {
        if len == 0 {
            return Ok(ReadRoute::Empty);
        }
        if self.state.debug_state.in_debug_mode {
            let (memtype, addr) = self.debug_address_to_memtype(address)?;
            if len as u64 > u32::MAX as u64 {
                return Err(AvrError::LengthExceeds32Bit);
            }
            Ok(ReadRoute::Debug { memtype, address: addr, length: len as u32 })
        } else {
            let (region, offset) = self.address_to_region(address)?;
            if len as u64 > u32::MAX as u64 {
                return Err(AvrError::LengthExceeds32Bit);
            }
            Ok(ReadRoute::Programming { region, offset, length: len as u32 })
        }
    }

    /// Where a write of `len` bytes at `address` goes: nowhere for an empty
    /// write, otherwise to the flash offset it maps to; writes only reach flash.
    pub fn plan_write_8(&self, address: u64, len: usize) -> (r: Result<Option<u32>, AvrError>)
        requires
            self.chip.wf(),
        ensures
            len == 0 ==> r == Ok::<Option<u32>, AvrError>(None),
            len > 0 && address > u32::MAX ==> r == Err::<Option<u32>, AvrError>(
                AvrError::AddressExceeds32Bit(address),
            ),
            len > 0 && address <= u32::MAX ==> r == match self.chip.region_of(address as u32) {
                None => Err::<Option<u32>, AvrError>(AvrError::UnmappedAddress(address as u32)),
                Some((AvrMemoryRegion::Flash, offset)) => Ok(Some(offset)),
                Some(_) => Err(AvrError::NotImplemented(Unsupported::NonFlashWrite)),
            },
    {
        if len == 0 {
            return Ok(None);
        }
        let (region, offset) = self.address_to_region(address)?;
        if region != AvrMemoryRegion::Flash {
            return Err(AvrError::NotImplemented(Unsupported::NonFlashWrite));
        }
        Ok(Some(offset))
    }

    /// The core-halted answer that needs no transfer: outside debug mode the core
    /// is reported halted, for callers that check before entering debug mode.
    /// `None` when the debug transport has to be asked.
    pub fn halted_without_query(&self) -> (r: Option<bool>)
        ensures
            !self.state.debug_state.in_debug_mode ==> r == Some(true),
            self.state.debug_state.in_debug_mode ==> r is None,
    {
        if !self.state.debug_state.in_debug_mode {
            Some(true)
        } else {
            None
        }
    }

    /// The status that needs no transfer: unknown outside debug mode. `None`
    /// when the debug transport has to be asked.
    pub fn status_without_query(&self) -> (r: Option<CoreStatus>)
        ensures
            !self.state.debug_state.in_debug_mode ==> r == Some(CoreStatus::Unknown),
            self.state.debug_state.in_debug_mode ==> r is None,
    {
        if !self.state.debug_state.in_debug_mode {
            Some(CoreStatus::Unknown)
        } else {
            None
        }
    }

    /// The status once the debug transport answered whether the core is
    /// halted: a halt counts as a breakpoint hit while a hardware breakpoint is set.
    pub fn status_after_query(&self, halted: bool) -> (r: CoreStatus)
        ensures
            !halted ==> r == CoreStatus::Running,
            halted && self.state.debug_state.hw_breakpoint is Some ==> r == CoreStatus::Halted(
                HaltReason::HardwareBreakpoint,
            ),
            halted && self.state.debug_state.hw_breakpoint is None ==> r == CoreStatus::Halted(
                HaltReason::Request,
            ),
    {
        if halted {
            if self.state.debug_state.hw_breakpoint.is_some() {
                CoreStatus::Halted(HaltReason::HardwareBreakpoint)
            } else {
                CoreStatus::Halted(HaltReason::Request)
            }
        } else {
            CoreStatus::Running
        }
    }

    /// A reset goes through the debug transport in debug mode, through the
    /// probe's target reset otherwise.
    pub fn reset_route(&self) -> (r: ResetRoute)
        ensures
            self.state.debug_state.in_debug_mode ==> r == ResetRoute::Debug,
            !self.state.debug_state.in_debug_mode ==> r == ResetRoute::Probe,
    {
        if self.state.debug_state.in_debug_mode {
            ResetRoute::Debug
        } else {
            ResetRoute::Probe
        }
    }

    /// Checks a request to set hardware breakpoint `unit_index` at `addr`:
    /// only unit 0 exists, and the address must fit in 32 bits. Returns the
    /// 32-bit address to hand to the debug transport.
    pub fn check_set_breakpoint(&self, unit_index: usize, addr: u64) -> (r: Result<u32, AvrError>)
        ensures
            unit_index != 0 ==> r == Err::<u32, AvrError>(
                AvrError::BreakpointUnitOutOfRange(unit_index),
            ),
            unit_index == 0 && addr > u32::MAX ==> r == Err::<u32, AvrError>(
                AvrError::BreakpointAddressExceeds32Bit(addr),
            ),
            unit_index == 0 && addr <= u32::MAX ==> r == Ok::<u32, AvrError>(addr as u32),
    {
        if unit_index != 0 {
            return Err(AvrError::BreakpointUnitOutOfRange(unit_index));
        }
        if addr > u32::MAX as u64 {
            return Err(AvrError::BreakpointAddressExceeds32Bit(addr));
        }
        Ok(addr as u32)
    }

    /// Checks a request to clear hardware breakpoint `unit_index`: only unit 0 exists.
    pub fn check_clear_breakpoint(&self, unit_index: usize) -> (r: Result<(), AvrError>)
        ensures
            unit_index != 0 ==> r == Err::<(), AvrError>(
                AvrError::BreakpointUnitOutOfRange(unit_index),
            ),
            unit_index == 0 ==> r == Ok::<(), AvrError>(()),
    {
        if unit_index != 0 {
            return Err(AvrError::BreakpointUnitOutOfRange(unit_index));
        }
        Ok(())
    }

    /// Records that the debug transport set the hardware breakpoint at `addr`.
    pub fn breakpoint_set(&mut self, addr: u64)
        ensures
            final(self).state.debug_state == (AvrDebugState {
                hw_breakpoint: Some(addr),
                ..old(self).state.debug_state
            }),
            final(self).chip == old(self).chip,
    {
        self.state.debug_state.hw_breakpoint = Some(addr);
    }

    /// Records that the debug transport cleared the hardware breakpoint. The
    /// stored breakpoint address is kept, so that a later run can run to it:
    /// GDB removes and re-inserts breakpoints around each continue.
    pub fn breakpoint_cleared(&mut self)
        ensures
            final(self).state == old(self).state,
            final(self).state.debug_state.hw_breakpoint == old(self).state.debug_state.hw_breakpoint,
            final(self).chip == old(self).chip,
    {
    }

    /// The hardware breakpoints: one unit, holding the breakpoint address if set.
    pub fn hw_breakpoints(&self) -> (r: Vec<Option<u64>>)
        ensures
            r@ == seq![self.state.debug_state.hw_breakpoint],
    {
        let r = vec![self.state.debug_state.hw_breakpoint];
        assert(r@ =~= seq![self.state.debug_state.hw_breakpoint]);
        r
    }

    /// Hardware breakpoints are usable while the debug transport is active.
    pub fn hw_breakpoints_enabled(&self) -> (r: bool)
        ensures
            r == self.state.debug_state.in_debug_mode,
    {
        self.state.debug_state.in_debug_mode
    }

    /// AVR has one hardware breakpoint unit.
    pub fn available_breakpoint_units(&self) -> (r: u32)
        ensures
            r == 1,
    {
        1
    }

    /// Register writes are not offered.
    pub fn write_core_reg(&self, id: u16, value: u32) -> (r: Result<(), AvrError>)
        ensures
            r == Err::<(), AvrError>(AvrError::NotImplemented(Unsupported::RegisterWrite)),
    {
        Err(AvrError::NotImplemented(Unsupported::RegisterWrite))
    }

    /// Reset catch is not offered.
    pub fn reset_catch_set(&self) -> (r: Result<(), AvrError>)
        ensures
            r == Err::<(), AvrError>(AvrError::NotImplemented(Unsupported::ResetCatch)),
    {
        Err(AvrError::NotImplemented(Unsupported::ResetCatch))
    }

    /// Reset catch is not offered.
    pub fn reset_catch_clear(&self) -> (r: Result<(), AvrError>)
        ensures
            r == Err::<(), AvrError>(AvrError::NotImplemented(Unsupported::ResetCatch)),
    {
        Err(AvrError::NotImplemented(Unsupported::ResetCatch))
    }

    /// Memory accesses are assembled from byte transfers.
    pub fn supports_native_64bit_access(&self) -> (r: bool)
        ensures
            !r,
    {
        false
    }

    /// Byte transfers are supported.
    pub fn supports_8bit_transfers(&self) -> (r: bool)
        ensures
            r,
    {
        true
    }

    /// AVR has no floating-point unit.
    pub fn fpu_support(&self) -> (r: bool)
        ensures
            !r,
    {
        false
    }

    /// AVR has no floating-point registers.
    pub fn floating_point_register_count(&self) -> (r: usize)
        ensures
            r == 0,
    {
        0
    }
}

/// The value of general-purpose register `index` in a register dump.
pub fn general_register_value(regs: &[u8], index: u8) -> (r: u32)
    requires
        (index as int) < regs@.len(),
    ensures
        r == regs@[index as int] as u32,
{
    regs[index as usize] as u32
}

} // verus!
