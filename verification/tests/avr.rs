use probe_rs_avr::avr::{
    complete_read, general_register_value, register_source, wait_for_halt_step, Avr,
    AvrChipDescriptor, AvrCoreState, AvrError, AvrMemoryRegion, CoreStatus, DebugMemType,
    HaltReason, ReadRoute, RegisterSource, ResetRoute, Unsupported, WaitStep,
};
use probe_rs_avr::flash_sequence::AvrFlashSequence;
use probe_rs_avr::memory_rpc::{avr_resolve_address, ResolveError};

fn m4809() -> AvrChipDescriptor {
    AvrChipDescriptor {
        flash_base: 0x4000,
        flash_size: 0xc000,
        eeprom_base: 0x1400,
        eeprom_size: 0x100,
        fuses_base: 0x1280,
        fuses_size: 10,
        lock_base: 0x128a,
        lock_size: 1,
        userrow_base: 0x1300,
        userrow_size: 0x40,
        signature_base: 0x1100,
        prodsig_size: 0x40,
    }
}

/// A chip whose flash is small enough that no region overlaps it.
fn small_chip() -> AvrChipDescriptor {
    AvrChipDescriptor { flash_size: 0x800, ..m4809() }
}

#[test]
fn program_mode_address_map() {
    let chip = m4809();
    let avr = Avr::new(AvrCoreState::new(), &chip);
    assert_eq!(avr.address_to_region(0x0000), Ok((AvrMemoryRegion::Flash, 0)));
    assert_eq!(avr.address_to_region(0xbfff), Ok((AvrMemoryRegion::Flash, 0xbfff)));
    assert_eq!(avr.address_to_region(0xc000), Ok((AvrMemoryRegion::Flash, 0x8000)));
    assert_eq!(avr.address_to_region(0xffff), Ok((AvrMemoryRegion::Flash, 0xbfff)));
    assert_eq!(avr.address_to_region(0x1_0000), Err(AvrError::UnmappedAddress(0x1_0000)));
    assert_eq!(
        avr.address_to_region(0x1_0000_0000),
        Err(AvrError::AddressExceeds32Bit(0x1_0000_0000))
    );
    // the 0-based flash window shadows the data-space regions below flash_size
    assert_eq!(avr.address_to_region(0x1400), Ok((AvrMemoryRegion::Flash, 0x1400)));
}

#[test]
fn regions_of_a_chip_with_small_flash() {
    let chip = small_chip();
    let avr = Avr::new(AvrCoreState::new(), &chip);
    assert_eq!(avr.address_to_region(0x1401), Ok((AvrMemoryRegion::Eeprom, 1)));
    assert_eq!(avr.address_to_region(0x1289), Ok((AvrMemoryRegion::Fuses, 9)));
    assert_eq!(avr.address_to_region(0x128a), Ok((AvrMemoryRegion::Lock, 0)));
    assert_eq!(avr.address_to_region(0x1310), Ok((AvrMemoryRegion::UserRow, 0x10)));
    assert_eq!(avr.address_to_region(0x1102), Ok((AvrMemoryRegion::ProdSig, 2)));
    assert_eq!(avr.address_to_region(0x4010), Ok((AvrMemoryRegion::Flash, 0x10)));
    assert_eq!(avr.address_to_region(0x1000), Err(AvrError::UnmappedAddress(0x1000)));
}

#[test]
fn resolve_then_map_gives_region_and_offset_back() {
    let chip = small_chip();
    let avr = Avr::new(AvrCoreState::new(), &chip);
    for (region, offset) in [
        (AvrMemoryRegion::Flash, 0x10u32),
        (AvrMemoryRegion::Eeprom, 0xff),
        (AvrMemoryRegion::Fuses, 3),
        (AvrMemoryRegion::Lock, 0),
        (AvrMemoryRegion::UserRow, 0x3f),
        (AvrMemoryRegion::ProdSig, 2),
    ] {
        let absolute = avr_resolve_address(Some(&chip), offset as u64, Some(region)).unwrap();
        assert_eq!(avr.address_to_region(absolute), Ok((region, offset)));
    }
}

#[test]
fn resolve_then_map_on_overlapping_chip() {
    let chip = m4809();
    let avr = Avr::new(AvrCoreState::new(), &chip);
    for offset in [0u32, 0x10, 0xbfff] {
        let absolute = avr_resolve_address(Some(&chip), offset as u64, Some(AvrMemoryRegion::Flash)).unwrap();
        assert_eq!(avr.address_to_region(absolute), Ok((AvrMemoryRegion::Flash, offset)));
    }
    let eeprom = avr_resolve_address(Some(&chip), 0, Some(AvrMemoryRegion::Eeprom)).unwrap();
    assert_eq!(avr.address_to_region(eeprom), Ok((AvrMemoryRegion::Flash, 0x1400)));
}

#[test]
fn resolve_without_region_or_chip() {
    let chip = m4809();
    assert_eq!(avr_resolve_address(Some(&chip), 0x20, None), Ok(0x20));
    assert_eq!(avr_resolve_address(None, 0x20, None), Ok(0x20));
    assert_eq!(
        avr_resolve_address(None, 0x20, Some(AvrMemoryRegion::Eeprom)),
        Err(ResolveError::NotAvrSession)
    );
    assert_eq!(avr_resolve_address(Some(&chip), 0x20, Some(AvrMemoryRegion::Eeprom)), Ok(0x1420));
    assert_eq!(avr_resolve_address(Some(&chip), 0x20, Some(AvrMemoryRegion::Flash)), Ok(0x20));
}

#[test]
fn debug_mode_address_map() {
    let chip = m4809();
    let avr = Avr::new(AvrCoreState::new(), &chip);
    assert_eq!(avr.debug_address_to_memtype(0x80_4010), Ok((DebugMemType::Flash, 0x10)));
    assert_eq!(avr.debug_address_to_memtype(0x80_1402), Ok((DebugMemType::Eeprom, 0x1402)));
    assert_eq!(avr.debug_address_to_memtype(0x80_3f00), Ok((DebugMemType::Sram, 0x3f00)));
    assert_eq!(avr.debug_address_to_memtype(0x0100), Ok((DebugMemType::Sram, 0x4100)));
    assert_eq!(avr.debug_address_to_memtype(0x1_0000), Ok((DebugMemType::Sram, 0x1_0000)));
    assert_eq!(
        avr.debug_address_to_memtype(u64::MAX),
        Err(AvrError::AddressExceeds32Bit(u64::MAX))
    );
}

#[test]
fn reads_are_routed_by_mode() {
    let chip = m4809();
    let mut state = AvrCoreState::new();
    let avr = Avr::new(state, &chip);
    assert_eq!(avr.plan_read_8(0x10, 0), Ok(ReadRoute::Empty));
    assert_eq!(avr.plan_read_8(0x1_0000_0000, 0), Ok(ReadRoute::Empty));
    assert_eq!(
        avr.plan_read_8(0xc004, 4),
        Ok(ReadRoute::Programming { region: AvrMemoryRegion::Flash, offset: 0x8004, length: 4 })
    );
    assert_eq!(avr.plan_read_8(0x2_0000, 4), Err(AvrError::UnmappedAddress(0x2_0000)));
    state.debug_state.in_debug_mode = true;
    let avr = Avr::new(state, &chip);
    assert_eq!(
        avr.plan_read_8(0x80_1400, 2),
        Ok(ReadRoute::Debug { memtype: DebugMemType::Eeprom, address: 0x1400, length: 2 })
    );
}

#[test]
fn reads_are_completed() {
    assert_eq!(complete_read(vec![1, 2, 3], 2, false), Ok(vec![1, 2]));
    assert_eq!(
        complete_read(vec![1], 2, true),
        Err(AvrError::ShortRead { debug: true, got: 1, expected: 2 })
    );
}

#[test]
fn writes_reach_only_flash() {
    let chip = small_chip();
    let avr = Avr::new(AvrCoreState::new(), &chip);
    assert_eq!(avr.plan_write_8(0x12, 0), Ok(None));
    assert_eq!(avr.plan_write_8(0x12, 2), Ok(Some(0x12)));
    assert_eq!(avr.plan_write_8(0x4012, 2), Ok(Some(0x12)));
    assert_eq!(
        avr.plan_write_8(0x1400, 2),
        Err(AvrError::NotImplemented(Unsupported::NonFlashWrite))
    );
}

#[test]
fn status_and_halt_decisions() {
    let chip = m4809();
    let mut state = AvrCoreState::new();
    let avr = Avr::new(state, &chip);
    assert_eq!(avr.halted_without_query(), Some(true));
    assert_eq!(avr.status_without_query(), Some(CoreStatus::Unknown));
    assert_eq!(avr.reset_route(), ResetRoute::Probe);
    assert!(!avr.hw_breakpoints_enabled());
    state.debug_state.in_debug_mode = true;
    let mut avr = Avr::new(state, &chip);
    assert_eq!(avr.halted_without_query(), None);
    assert_eq!(avr.status_without_query(), None);
    assert_eq!(avr.reset_route(), ResetRoute::Debug);
    assert_eq!(avr.status_after_query(false), CoreStatus::Running);
    assert_eq!(avr.status_after_query(true), CoreStatus::Halted(HaltReason::Request));
    avr.breakpoint_set(0x200);
    assert_eq!(avr.status_after_query(true), CoreStatus::Halted(HaltReason::HardwareBreakpoint));
    assert_eq!(avr.hw_breakpoints(), vec![Some(0x200)]);
    avr.breakpoint_cleared();
    assert_eq!(avr.hw_breakpoints(), vec![Some(0x200)]);
    assert_eq!(wait_for_halt_step(true, true), WaitStep::Done);
    assert_eq!(wait_for_halt_step(false, true), WaitStep::TimedOut);
    assert_eq!(wait_for_halt_step(false, false), WaitStep::Poll);
}

#[test]
fn breakpoint_requests() {
    let chip = m4809();
    let avr = Avr::new(AvrCoreState::new(), &chip);
    assert_eq!(avr.check_set_breakpoint(0, 0x1234), Ok(0x1234));
    assert_eq!(avr.check_set_breakpoint(1, 0x1234), Err(AvrError::BreakpointUnitOutOfRange(1)));
    assert_eq!(
        avr.check_set_breakpoint(0, 0x1_0000_0000),
        Err(AvrError::BreakpointAddressExceeds32Bit(0x1_0000_0000))
    );
    assert_eq!(avr.check_clear_breakpoint(0), Ok(()));
    assert_eq!(avr.check_clear_breakpoint(2), Err(AvrError::BreakpointUnitOutOfRange(2)));
    assert_eq!(avr.available_breakpoint_units(), 1);
}

#[test]
fn registers() {
    assert_eq!(register_source(0), Ok(RegisterSource::General(0)));
    assert_eq!(register_source(31), Ok(RegisterSource::General(31)));
    assert_eq!(register_source(32), Ok(RegisterSource::Sreg));
    assert_eq!(register_source(33), Ok(RegisterSource::Sp));
    assert_eq!(register_source(34), Ok(RegisterSource::Pc));
    assert_eq!(register_source(35), Err(AvrError::UnknownRegister(35)));
    let regs: Vec<u8> = (0..32).map(|i| i * 3).collect();
    assert_eq!(general_register_value(&regs, 5), 15);
    let chip = m4809();
    let avr = Avr::new(AvrCoreState::new(), &chip);
    assert_eq!(avr.write_core_reg(0, 1), Err(AvrError::NotImplemented(Unsupported::RegisterWrite)));
    assert_eq!(avr.reset_catch_set(), Err(AvrError::NotImplemented(Unsupported::ResetCatch)));
    assert_eq!(avr.reset_catch_clear(), Err(AvrError::NotImplemented(Unsupported::ResetCatch)));
    assert!(!avr.supports_native_64bit_access());
    assert!(avr.supports_8bit_transfers());
    assert!(!avr.fpu_support());
    assert_eq!(avr.floating_point_register_count(), 0);
}

#[test]
fn flash_sequence() {
    let seq = AvrFlashSequence::new();
    assert!(seq.supports_chip_erase());
    assert!(!seq.supports_sector_erase());
    assert!(seq.verify_readback(&[1, 2, 3], &[1, 2, 3]));
    assert!(!seq.verify_readback(&[1, 2, 4], &[1, 2, 3]));
    assert!(!seq.verify_readback(&[1, 2], &[1, 2, 3]));
}
