//! The target query of the `pkobn_updi` + ATmega4809 path as a sequence of CMD3
//! steps: which command each step sends, and what its response adds to the
//! information block or to the session state.
//!
//! A query runs: connect the CMSIS-DAP side ([`check_connect_response`], then
//! [`EdbgAvrTransport::mark_prepared`]), then every step from
//! [`QueryStep::first`] along [`QueryStep::next`], sending
//! [`QueryStep::command`] and handing the response to
//! [`EdbgAvrTransport::finish_query_step`]. Whatever happens, the session is then
//! torn down along [`EdbgAvrTransport::teardown_steps`].
//!
//! [`check_connect_response`]: crate::edbg_link::check_connect_response
use vstd::prelude::*;

use crate::bytes::{le16_value, le32_bytes};
use crate::edbg_avr::{
    get_info_command, get_info_response, get_param_command, get_param_response,
    m4809_descriptor, m4809_signature, m4809_updi_device_descriptor, parse_ice_firmware_version,
    parse_u16_param, partial_family_id, partial_family_id_from_response, quotes_response,
    read_memory_command, read_memory_response, set_param_command, tail_truncated, Context,
    DebugProbeSelector, EdbgAvrError, IceFirmwareVersion, PkobnUpdiM4809Info, ResponseDetails,
    AVR_SIBLEN, CMD3_ENTER_PROGMODE, CMD3_GET_INFO, CMD3_GET_PARAMETER, CMD3_INFO_SERIAL,
    CMD3_READ_MEMORY, CMD3_SET_PARAMETER, CMD3_SIGN_ON, M4809_SIGNATURE, M4809_SIGNATURE_BASE,
    M4809_SYSCFG_BASE, MTYPE_PRODSIG, MTYPE_SIB, MTYPE_SRAM, PARM3_ARCH, PARM3_ARCH_UPDI,
    PARM3_CLK_XMEGA_PDI, PARM3_CONNECTION, PARM3_CONN_UPDI, PARM3_DEVICEDESC, PARM3_HW_VER,
    PARM3_SESS_PROGRAMMING, PARM3_SESS_PURPOSE, PARM3_VTARGET, RSP3_DATA, RSP3_INFO, RSP3_OK,
    RSP3_STATUS_MASK, SCOPE_AVR, SCOPE_GENERAL, SCOPE_INFO,
};
use crate::edbg_link::{check_command_response, EdbgAvrTransport, TransportView};
use crate::text::{clean_probe_string, opt_view, trim_ascii_nul, trim_end_whitespace, trim_trailing_zeros, utf8_lossy};

verus! {

/// One CMD3 exchange of the target query, in the order they are made.
#[derive(PartialEq, Eq, Structural, Clone, Copy, Debug)]
pub enum QueryStep {
    GeneralSignOn,
    ReadIceFirmwareVersion,
    ReadIceSerial,
    SetArchitecture,
    SetSessionPurpose,
    SetConnection,
    ReadTargetVoltage,
    ReadUpdiClock,
    SetDeviceDescriptor,
    AvrSignOn,
    ReadSib,
    EnterProgmode,
    ReadChipRevision,
    ReadSignature,
}

/// The CMD3 get-parameter command, as a sequence.
pub open spec fn get_param_bytes(scope: u8, section: u8, parameter: u8, length: u8) -> Seq<u8> {
    seq![scope, CMD3_GET_PARAMETER, 0u8, section, parameter, length]
}

/// The CMD3 set-parameter command, as a sequence.
pub open spec fn set_param_bytes(scope: u8, section: u8, parameter: u8, value: Seq<u8>) -> Seq<
    u8,
> {
    seq![scope, CMD3_SET_PARAMETER, 0u8, section, parameter, value.len() as u8] + value
}

/// The CMD3 read-memory command, as a sequence.
pub open spec fn read_memory_bytes(memory_type: u8, address: u32, length: u32) -> Seq<u8> {
    seq![SCOPE_AVR, CMD3_READ_MEMORY, 0u8, memory_type] + le32_bytes(address) + le32_bytes(length)
}

/// The outcome class of a step's response.
#[derive(PartialEq, Eq, Structural, Clone, Copy, Debug)]
pub enum StepFault {
    /// Shorter than a status header.
    TooShort,
    /// The status is not OK; the command failed with this code.
    Failed(u8),
    /// The response has the wrong shape for what the step reads, in this context.
    Unexpected(Context),
    /// The step needed `expected` data bytes and got `got`, in this context.
    Length { context: Context, expected: usize, got: usize },
}

/// The status check every CMD3 response goes through.
pub open spec fn status_fault(r: Seq<u8>) -> Option<StepFault> {
    if r.len() < 2 {
        Some(StepFault::TooShort)
    } else if r[1] & RSP3_STATUS_MASK != RSP3_OK {
        Some(
            StepFault::Failed(
                if r.len() > 3 {
                    r[3]
                } else {
                    0
                },
            ),
        )
    } else {
        None
    }
}

/// Data bytes of a data response, cut to `max`.
pub open spec fn data_of(r: Seq<u8>, max: int) -> Seq<u8> {
    tail_truncated(r, 3, max)
}

/// The first fault, if any, of the response `r` to `step`.
pub open spec fn step_fault(step: QueryStep, r: Seq<u8>) -> Option<StepFault> {
    if status_fault(r) is Some {
        status_fault(r)
    } else {
        match step {
            QueryStep::ReadIceFirmwareVersion => if !(r.len() >= 3 && r[1] == RSP3_DATA) {
                Some(StepFault::Unexpected(Context::GetParameter))
            } else if data_of(r, 5).len() < 5 {
                Some(
                    StepFault::Length {
                        context: Context::IceFirmwareVersion,
                        expected: 5,
                        got: data_of(r, 5).len() as usize,
                    },
                )
            } else {
                None
            },
            QueryStep::ReadIceSerial => if !(r.len() >= 3 && r[1] == RSP3_INFO) {
                Some(StepFault::Unexpected(Context::GetInfoString))
            } else {
                None
            },
            QueryStep::ReadTargetVoltage | QueryStep::ReadUpdiClock => if !(r.len() >= 3 && r[1]
                == RSP3_DATA) {
                Some(StepFault::Unexpected(Context::GetParameter))
            } else if data_of(r, 2).len() < 2 {
                Some(
                    StepFault::Length {
                        context: Context::Get16BitParameter,
                        expected: 2,
                        got: data_of(r, 2).len() as usize,
                    },
                )
            } else {
                None
            },
            QueryStep::ReadSib => if !(r.len() >= 3 && r[1] == RSP3_DATA) {
                Some(StepFault::Unexpected(Context::ReadMemory))
            } else {
                None
            },
            QueryStep::ReadChipRevision => if !(r.len() >= 3 && r[1] == RSP3_DATA) {
                Some(StepFault::Unexpected(Context::ReadMemory))
            } else if data_of(r, 1).len() != 1 {
                Some(
                    StepFault::Length {
                        context: Context::ChipRevision,
                        expected: 1,
                        got: data_of(r, 1).len() as usize,
                    },
                )
            } else {
                None
            },
            QueryStep::ReadSignature => if !(r.len() >= 3 && r[1] == RSP3_DATA) {
                Some(StepFault::Unexpected(Context::ReadMemory))
            } else if data_of(r, 3).len() != 3 {
                Some(
                    StepFault::Length {
                        context: Context::SignatureRead,
                        expected: 3,
                        got: data_of(r, 3).len() as usize,
                    },
                )
            } else {
                None
            },
            _ => None,
        }
    }
}

/// `e` reports fault `f` of the response `r` to a command sent in `context`.
pub open spec fn reports_fault(e: EdbgAvrError, context: Context, f: StepFault, r: Seq<u8>) -> bool {
    match f {
        StepFault::TooShort => match e {
            EdbgAvrError::UnexpectedResponse {
                context: c,
                details: ResponseDetails::ResponseTooShort(b),
            } => c == context && b@ == r,
            _ => false,
        },
        StepFault::Failed(code) => e == EdbgAvrError::CommandFailed { context, code },
        StepFault::Unexpected(c) => quotes_response(e, c, r),
        StepFault::Length { context: c, expected, got } => e == EdbgAvrError::UnexpectedResponse {
            context: c,
            details: ResponseDetails::ExpectedBytes { expected, got },
        },
    }
}

/// The ATmega4809 part name.
pub open spec fn m4809_part_name() -> Seq<char> {
    "ATmega4809"@
}

/// What a successful response `r` to `step` makes of the information block
/// `old` (`new` is the block afterwards).
pub open spec fn info_after_step(
    step: QueryStep,
    r: Seq<u8>,
    old: PkobnUpdiM4809Info,
    new: PkobnUpdiM4809Info,
) -> bool {
    match step {
        QueryStep::ReadIceFirmwareVersion => new == PkobnUpdiM4809Info {
            ice_firmware_version: IceFirmwareVersion {
                hardware: r[3],
                major: r[4],
                minor: r[5],
                release: le16_value(r[6], r[7]),
            },
            ..old
        },
        QueryStep::ReadIceSerial => new == PkobnUpdiM4809Info { ice_serial: new.ice_serial, ..old }
            && opt_view(new.ice_serial) == clean_probe_string(
            utf8_lossy(r.subrange(3, r.len() as int)),
        ),
        QueryStep::ReadTargetVoltage => new == PkobnUpdiM4809Info {
            target_voltage_mv: le16_value(r[3], r[4]),
            ..old
        },
        QueryStep::ReadUpdiClock => new == PkobnUpdiM4809Info {
            updi_clock_khz: le16_value(r[3], r[4]),
            ..old
        },
        QueryStep::AvrSignOn => new == PkobnUpdiM4809Info {
            partial_family_id: new.partial_family_id,
            ..old
        } && opt_view(new.partial_family_id) == partial_family_id(r),
        QueryStep::ReadSib => new == PkobnUpdiM4809Info { sib_string: new.sib_string, ..old }
            && new.sib_string@ == trim_end_whitespace(
            utf8_lossy(trim_trailing_zeros(data_of(r, AVR_SIBLEN as int))),
        ),
        QueryStep::ReadChipRevision => new == PkobnUpdiM4809Info { chip_revision: r[3], ..old },
        QueryStep::ReadSignature => new == PkobnUpdiM4809Info {
            signature: new.signature,
            detected_part: new.detected_part,
            ..old
        } && new.signature@ == r.subrange(3, 6) && (if r.subrange(3, 6) == m4809_signature() {
            new.detected_part matches Some(p) && p@ == m4809_part_name()
        } else {
            new.detected_part is None
        }),
        _ => new == old,
    }
}

/// What a successful response to `step` does to the session state.
pub open spec fn link_after_step(step: QueryStep, old: TransportView) -> TransportView {
    match step {
        QueryStep::GeneralSignOn => TransportView { general_signed_on: true, ..old },
        QueryStep::AvrSignOn => TransportView { avr_signed_on: true, ..old },
        QueryStep::EnterProgmode => TransportView { programming_enabled: true, ..old },
        _ => old,
    }
}

impl QueryStep {
    /// The step after this one, if any.
    pub open spec fn spec_next(self) -> Option<QueryStep> {
        match self {
            QueryStep::GeneralSignOn => Some(QueryStep::ReadIceFirmwareVersion),
            QueryStep::ReadIceFirmwareVersion => Some(QueryStep::ReadIceSerial),
            QueryStep::ReadIceSerial => Some(QueryStep::SetArchitecture),
            QueryStep::SetArchitecture => Some(QueryStep::SetSessionPurpose),
            QueryStep::SetSessionPurpose => Some(QueryStep::SetConnection),
            QueryStep::SetConnection => Some(QueryStep::ReadTargetVoltage),
            QueryStep::ReadTargetVoltage => Some(QueryStep::ReadUpdiClock),
            QueryStep::ReadUpdiClock => Some(QueryStep::SetDeviceDescriptor),
            QueryStep::SetDeviceDescriptor => Some(QueryStep::AvrSignOn),
            QueryStep::AvrSignOn => Some(QueryStep::ReadSib),
            QueryStep::ReadSib => Some(QueryStep::EnterProgmode),
            QueryStep::EnterProgmode => Some(QueryStep::ReadChipRevision),
            QueryStep::ReadChipRevision => Some(QueryStep::ReadSignature),
            QueryStep::ReadSignature => None,
        }
    }

    /// The CMD3 command sent for this step.
    pub open spec fn spec_command(self) -> Seq<u8> {
        match self {
            QueryStep::GeneralSignOn => seq![SCOPE_GENERAL, CMD3_SIGN_ON, 0u8],
            QueryStep::ReadIceFirmwareVersion => get_param_bytes(
                SCOPE_GENERAL,
                0,
                PARM3_HW_VER,
                5,
            ),
            QueryStep::ReadIceSerial => seq![SCOPE_INFO, CMD3_GET_INFO, 0u8, CMD3_INFO_SERIAL],
            QueryStep::SetArchitecture => set_param_bytes(
                SCOPE_AVR,
                0,
                PARM3_ARCH,
                seq![PARM3_ARCH_UPDI],
            ),
            QueryStep::SetSessionPurpose => set_param_bytes(
                SCOPE_AVR,
                0,
                PARM3_SESS_PURPOSE,
                seq![PARM3_SESS_PROGRAMMING],
            ),
            QueryStep::SetConnection => set_param_bytes(
                SCOPE_AVR,
                1,
                PARM3_CONNECTION,
                seq![PARM3_CONN_UPDI],
            ),
            QueryStep::ReadTargetVoltage => get_param_bytes(SCOPE_GENERAL, 1, PARM3_VTARGET, 2),
            QueryStep::ReadUpdiClock => get_param_bytes(SCOPE_AVR, 1, PARM3_CLK_XMEGA_PDI, 2),
            QueryStep::SetDeviceDescriptor => set_param_bytes(
                SCOPE_AVR,
                2,
                PARM3_DEVICEDESC,
                m4809_descriptor(),
            ),
            QueryStep::AvrSignOn => seq![SCOPE_AVR, CMD3_SIGN_ON, 0u8, 0u8],
            QueryStep::ReadSib => read_memory_bytes(MTYPE_SIB, 0, AVR_SIBLEN),
            QueryStep::EnterProgmode => seq![SCOPE_AVR, CMD3_ENTER_PROGMODE, 0u8],
            QueryStep::ReadChipRevision => read_memory_bytes(MTYPE_SRAM, (M4809_SYSCFG_BASE + 1) as u32, 1),
            QueryStep::ReadSignature => read_memory_bytes(MTYPE_PRODSIG, M4809_SIGNATURE_BASE, 3),
        }
    }

    /// The context the step's command is sent in.
    pub open spec fn spec_context(self) -> Context {
        match self {
            QueryStep::GeneralSignOn => Context::GeneralSignOn,
            QueryStep::ReadIceFirmwareVersion => Context::GetParameter,
            QueryStep::ReadIceSerial => Context::GetInfoString,
            QueryStep::SetArchitecture => Context::SetParameter,
            QueryStep::SetSessionPurpose => Context::SetParameter,
            QueryStep::SetConnection => Context::SetParameter,
            QueryStep::ReadTargetVoltage => Context::GetParameter,
            QueryStep::ReadUpdiClock => Context::GetParameter,
            QueryStep::SetDeviceDescriptor => Context::SetParameter,
            QueryStep::AvrSignOn => Context::AvrSignOn,
            QueryStep::ReadSib => Context::ReadMemory,
            QueryStep::EnterProgmode => Context::EnterProgmode,
            QueryStep::ReadChipRevision => Context::ReadMemory,
            QueryStep::ReadSignature => Context::ReadMemory,
        }
    }

    /// The context the step's command is sent in.
    pub fn context(self) -> (r: Context)
        ensures
            r == self.spec_context(),
    {
        match self {
            QueryStep::GeneralSignOn => Context::GeneralSignOn,
            QueryStep::ReadIceFirmwareVersion => Context::GetParameter,
            QueryStep::ReadIceSerial => Context::GetInfoString,
            QueryStep::SetArchitecture => Context::SetParameter,
            QueryStep::SetSessionPurpose => Context::SetParameter,
            QueryStep::SetConnection => Context::SetParameter,
            QueryStep::ReadTargetVoltage => Context::GetParameter,
            QueryStep::ReadUpdiClock => Context::GetParameter,
            QueryStep::SetDeviceDescriptor => Context::SetParameter,
            QueryStep::AvrSignOn => Context::AvrSignOn,
            QueryStep::ReadSib => Context::ReadMemory,
            QueryStep::EnterProgmode => Context::EnterProgmode,
            QueryStep::ReadChipRevision => Context::ReadMemory,
            QueryStep::ReadSignature => Context::ReadMemory,
        }
    }

    /// The first step of a query.
    pub fn first() -> (r: QueryStep)
        ensures
            r == QueryStep::GeneralSignOn,
    {
        QueryStep::GeneralSignOn
    }

    /// The step after this one, if any.
    pub fn next(self) -> (r: Option<QueryStep>)
        ensures
            r == self.spec_next(),
    {
        match self {
            QueryStep::GeneralSignOn => Some(QueryStep::ReadIceFirmwareVersion),
            QueryStep::ReadIceFirmwareVersion => Some(QueryStep::ReadIceSerial),
            QueryStep::ReadIceSerial => Some(QueryStep::SetArchitecture),
            QueryStep::SetArchitecture => Some(QueryStep::SetSessionPurpose),
            QueryStep::SetSessionPurpose => Some(QueryStep::SetConnection),
            QueryStep::SetConnection => Some(QueryStep::ReadTargetVoltage),
            QueryStep::ReadTargetVoltage => Some(QueryStep::ReadUpdiClock),
            QueryStep::ReadUpdiClock => Some(QueryStep::SetDeviceDescriptor),
            QueryStep::SetDeviceDescriptor => Some(QueryStep::AvrSignOn),
            QueryStep::AvrSignOn => Some(QueryStep::ReadSib),
            QueryStep::ReadSib => Some(QueryStep::EnterProgmode),
            QueryStep::EnterProgmode => Some(QueryStep::ReadChipRevision),
            QueryStep::ReadChipRevision => Some(QueryStep::ReadSignature),
            QueryStep::ReadSignature => None,
        }
    }

    /// The CMD3 command this step sends, and the context it is sent in.
    pub fn command(self) -> (r: (Vec<u8>, Context))
        ensures
            r.0@ == self.spec_command(),
            r.1 == self.spec_context(),
    {
        match self {
            QueryStep::GeneralSignOn => {
                let c = vec![SCOPE_GENERAL, CMD3_SIGN_ON, 0];
                assert(c@ =~= self.spec_command());
                (c, Context::GeneralSignOn)
            },
            QueryStep::ReadIceFirmwareVersion => (
                get_param_command(SCOPE_GENERAL, 0, PARM3_HW_VER, 5),
                Context::GetParameter,
            ),
            QueryStep::ReadIceSerial => (get_info_command(CMD3_INFO_SERIAL), Context::GetInfoString),
            QueryStep::SetArchitecture => (
                set_param_value(SCOPE_AVR, 0, PARM3_ARCH, &[PARM3_ARCH_UPDI]),
                Context::SetParameter,
            ),
            QueryStep::SetSessionPurpose => (
                set_param_value(SCOPE_AVR, 0, PARM3_SESS_PURPOSE, &[PARM3_SESS_PROGRAMMING]),
                Context::SetParameter,
            ),
            QueryStep::SetConnection => (
                set_param_value(SCOPE_AVR, 1, PARM3_CONNECTION, &[PARM3_CONN_UPDI]),
                Context::SetParameter,
            ),
            QueryStep::ReadTargetVoltage => (
                get_param_command(SCOPE_GENERAL, 1, PARM3_VTARGET, 2),
                Context::GetParameter,
            ),
            QueryStep::ReadUpdiClock => (
                get_param_command(SCOPE_AVR, 1, PARM3_CLK_XMEGA_PDI, 2),
                Context::GetParameter,
            ),
            QueryStep::SetDeviceDescriptor => {
                let descriptor = m4809_updi_device_descriptor();
                (
                    set_param_value(SCOPE_AVR, 2, PARM3_DEVICEDESC, &descriptor),
                    Context::SetParameter,
                )
            },
            QueryStep::AvrSignOn => {
                let c = vec![SCOPE_AVR, CMD3_SIGN_ON, 0, 0];
                assert(c@ =~= self.spec_command());
                (c, Context::AvrSignOn)
            },
            QueryStep::ReadSib => (read_memory_command(MTYPE_SIB, 0, AVR_SIBLEN), Context::ReadMemory),
            QueryStep::EnterProgmode => {
                let c = vec![SCOPE_AVR, CMD3_ENTER_PROGMODE, 0];
                assert(c@ =~= self.spec_command());
                (c, Context::EnterProgmode)
            },
            QueryStep::ReadChipRevision => (
                read_memory_command(MTYPE_SRAM, M4809_SYSCFG_BASE + 1, 1),
                Context::ReadMemory,
            ),
            QueryStep::ReadSignature => (
                read_memory_command(MTYPE_PRODSIG, M4809_SIGNATURE_BASE, 3),
                Context::ReadMemory,
            ),
        }
    }
}

/// A set-parameter command whose value is short enough to be described.
fn set_param_value(scope: u8, section: u8, parameter: u8, value: &[u8]) -> (r: Vec<u8>)
    requires
        value@.len() <= 255,
    ensures
        r@ == set_param_bytes(scope, section, parameter, value@),
{
    match set_param_command(scope, section, parameter, value) {
        Ok(c) => c,
        Err(_) => {
            assert(false);
            Vec::new()
        },
    }
}

impl PkobnUpdiM4809Info {
    /// The information block before the target is queried: what the CMSIS-DAP
    /// side reported, and zero or empty target fields.
    pub fn initial(
        probe_selector: DebugProbeSelector,
        cmsis_dap_vendor: Option<String>,
        cmsis_dap_product: Option<String>,
        cmsis_dap_serial: Option<String>,
        cmsis_dap_firmware_version: Option<String>,
        cmsis_dap_packet_size: u16,
    ) -> (r: Self)
        ensures
            r.probe_selector == probe_selector,
            r.cmsis_dap_vendor == cmsis_dap_vendor,
            r.cmsis_dap_product == cmsis_dap_product,
            r.cmsis_dap_serial == cmsis_dap_serial,
            r.cmsis_dap_firmware_version == cmsis_dap_firmware_version,
            r.cmsis_dap_packet_size == cmsis_dap_packet_size,
            r.ice_serial is None,
            r.ice_firmware_version == (IceFirmwareVersion {
                hardware: 0,
                major: 0,
                minor: 0,
                release: 0,
            }),
            r.target_voltage_mv == 0,
            r.updi_clock_khz == 0,
            r.partial_family_id is None,
            r.sib_string@.len() == 0,
            r.chip_revision == 0,
            r.signature@ == seq![0u8, 0u8, 0u8],
            r.lock_byte == 0,
            r.fuses@.len() == 0,
            r.userrow@.len() == 0,
            r.prodsig@.len() == 0,
            r.detected_part is None,
    {
        let r = PkobnUpdiM4809Info {
            probe_selector,
            cmsis_dap_vendor,
            cmsis_dap_product,
            cmsis_dap_serial,
            cmsis_dap_firmware_version,
            cmsis_dap_packet_size,
            ice_serial: None,
            ice_firmware_version: IceFirmwareVersion { hardware: 0, major: 0, minor: 0, release: 0 },
            target_voltage_mv: 0,
            updi_clock_khz: 0,
            partial_family_id: None,
            sib_string: String::new(),
            chip_revision: 0,
            signature: [0; 3],
            lock_byte: 0,
            fuses: Vec::new(),
            userrow: Vec::new(),
            prodsig: Vec::new(),
            detected_part: None,
        };
        assert(r.signature@ =~= seq![0u8, 0u8, 0u8]);
        r
    }
}

impl EdbgAvrTransport {
    /// Takes the response to the command of `step`: checks its status, reads
    /// what the step asks for into the information block, and records the
    /// session step it took. On any fault the information block is dropped, the
    /// session state is unchanged, and the error says what went wrong.
    pub fn finish_query_step(
        &mut self,
        step: QueryStep,
        response: Vec<u8>,
        info: PkobnUpdiM4809Info,
    ) -> (r: Result<PkobnUpdiM4809Info, EdbgAvrError>)
        ensures
            match step_fault(step, response@) {
                Some(f) => final(self)@ == old(self)@ && match r {
                    Err(e) => reports_fault(e, step.spec_context(), f, response@),
                    Ok(_) => false,
                },
                None => final(self)@ == link_after_step(step, old(self)@) && match r {
                    Ok(new) => info_after_step(step, response@, info, new),
                    Err(_) => false,
                },
            },
    {
        let ghost r0 = response@;
        let response = check_command_response(response, step.context())?;
        let mut info = info;
        match step {
            QueryStep::GeneralSignOn => {
                self.mark_general_signed_on();
            },
            QueryStep::ReadIceFirmwareVersion => {
                let params = get_param_response(response.as_slice(), 5)?;
                info.ice_firmware_version = parse_ice_firmware_version(params.as_slice())?;
            },
            QueryStep::ReadIceSerial => {
                info.ice_serial = get_info_response(response.as_slice())?;
            },
            QueryStep::ReadTargetVoltage => {
                let value = get_param_response(response.as_slice(), 2)?;
                info.target_voltage_mv = parse_u16_param(value.as_slice())?;
            },
            QueryStep::ReadUpdiClock => {
                let value = get_param_response(response.as_slice(), 2)?;
                info.updi_clock_khz = parse_u16_param(value.as_slice())?;
            },
            QueryStep::AvrSignOn => {
                self.mark_avr_signed_on();
                info.partial_family_id = partial_family_id_from_response(response.as_slice());
            },
            QueryStep::ReadSib => {
                let sib = read_memory_response(response.as_slice(), AVR_SIBLEN)?;
                info.sib_string = trim_ascii_nul(sib);
            },
            QueryStep::EnterProgmode => {
                self.mark_programming_enabled();
            },
            QueryStep::ReadChipRevision => {
                let chip_revision = read_memory_response(response.as_slice(), 1)?;
                if chip_revision.len() != 1 {
                    return Err(
                        EdbgAvrError::UnexpectedResponse {
                            context: Context::ChipRevision,
                            details: ResponseDetails::ExpectedBytes {
                                expected: 1,
                                got: chip_revision.len(),
                            },
                        },
                    );
                }
                info.chip_revision = chip_revision[0];
            },
            QueryStep::ReadSignature => {
                let signature = read_memory_response(response.as_slice(), 3)?;
                if signature.len() != 3 {
                    return Err(
                        EdbgAvrError::UnexpectedResponse {
                            context: Context::SignatureRead,
                            details: ResponseDetails::ExpectedBytes {
                                expected: 3,
                                got: signature.len(),
                            },
                        },
                    );
                }
                info.signature = [signature[0], signature[1], signature[2]];
                let matches = signature[0] == M4809_SIGNATURE[0] && signature[1]
                    == M4809_SIGNATURE[1] && signature[2] == M4809_SIGNATURE[2];
                assert(matches <==> signature@ == m4809_signature()) by {
                    if signature@ == m4809_signature() {
                        assert(signature@[0] == m4809_signature()[0]);
                        assert(signature@[1] == m4809_signature()[1]);
                        assert(signature@[2] == m4809_signature()[2]);
                    }
                    if matches {
                        assert(signature@ =~= m4809_signature());
                    }
                }
                assert(info.signature@ =~= signature@);
                info.detected_part = if matches {
                    Some("ATmega4809")
                } else {
                    None
                };
            },
            _ => {},
        }
        Ok(info)
    }
}

/// The steps of a query, in the order they are made.
pub open spec fn query_steps() -> Seq<QueryStep> {
    seq![
        QueryStep::GeneralSignOn,
        QueryStep::ReadIceFirmwareVersion,
        QueryStep::ReadIceSerial,
        QueryStep::SetArchitecture,
        QueryStep::SetSessionPurpose,
        QueryStep::SetConnection,
        QueryStep::ReadTargetVoltage,
        QueryStep::ReadUpdiClock,
        QueryStep::SetDeviceDescriptor,
        QueryStep::AvrSignOn,
        QueryStep::ReadSib,
        QueryStep::EnterProgmode,
        QueryStep::ReadChipRevision,
        QueryStep::ReadSignature,
    ]
}

/// The session state after every step of `steps` succeeded, in order.
pub open spec fn link_after_steps(v: TransportView, steps: Seq<QueryStep>) -> TransportView
    decreases steps.len(),
{
    if steps.len() == 0 {
        v
    } else {
        link_after_steps(link_after_step(steps[0], v), steps.subrange(1, steps.len() as int))
    }
}

/// Walking from [`QueryStep::first`] along [`QueryStep::next`] visits the
/// query steps in order, each once, and then stops.
pub proof fn lemma_step_order()
    ensures
        query_steps()[0] == QueryStep::GeneralSignOn,
        forall|i: int|
            0 <= i < query_steps().len() - 1 ==> #[trigger] query_steps()[i].spec_next() == Some(
                query_steps()[i + 1],
            ),
        query_steps().last().spec_next() is None,
{
    assert forall|i: int| 0 <= i < query_steps().len() - 1 implies #[trigger] query_steps()[i].spec_next()
        == Some(query_steps()[i + 1]) by {
        assert(0 <= i < 13);
        if i == 0 {
        } else if i == 1 {
        } else if i == 2 {
        } else if i == 3 {
        } else if i == 4 {
        } else if i == 5 {
        } else if i == 6 {
        } else if i == 7 {
        } else if i == 8 {
        } else if i == 9 {
        } else if i == 10 {
        } else if i == 11 {
        } else {
            assert(i == 12);
        }
    }
}

/// The session state after the query steps from index `k` on.
proof fn lemma_link_after_suffix(w: TransportView, k: int)
    requires
        0 <= k <= 14,
    ensures
        ({
            let r = link_after_steps(w, query_steps().subrange(k, 14));
            &&& r.general_signed_on == (w.general_signed_on || k == 0)
            &&& r.avr_signed_on == (w.avr_signed_on || k <= 9)
            &&& r.programming_enabled == (w.programming_enabled || k <= 11)
            &&& r.prepared == w.prepared
            &&& r.command_sequence == w.command_sequence
            &&& r.device == w.device
        }),
    decreases 14 - k,
{
    let s = query_steps();
    if k < 14 {
        let rest = s.subrange(k, 14);
        assert(rest[0] == s[k]);
        assert(rest.subrange(1, rest.len() as int) =~= s.subrange(k + 1, 14));
        lemma_link_after_suffix(link_after_step(s[k], w), k + 1);
    } else {
        assert(s.subrange(14, 14) =~= Seq::<QueryStep>::empty());
    }
}

/// A query whose steps all succeed, started on a connected link, leaves the
/// general scope and the AVR scope signed on and the target in programming
/// mode, with the sequence number untouched by the session steps; the
/// teardown it then owes is leaving programming mode, AVR sign-off, general
/// sign-off and the CMSIS-DAP disconnect, in that order.
pub proof fn lemma_completed_query_session(v: TransportView)
    requires
        v.prepared,
    ensures
        link_after_steps(v, query_steps()).general_signed_on,
        link_after_steps(v, query_steps()).avr_signed_on,
        link_after_steps(v, query_steps()).programming_enabled,
        link_after_steps(v, query_steps()).prepared,
        link_after_steps(v, query_steps()).command_sequence == v.command_sequence,
        crate::edbg_link::teardown_plan(link_after_steps(v, query_steps())) == seq![
            crate::edbg_link::Teardown::LeaveProgmode,
            crate::edbg_link::Teardown::AvrSignOff,
            crate::edbg_link::Teardown::GeneralSignOff,
            crate::edbg_link::Teardown::FinishPrepare,
        ],
{
    lemma_link_after_suffix(v, 0);
    let w = link_after_steps(v, query_steps());
    assert(query_steps().subrange(0, 14) =~= query_steps());
    assert(crate::edbg_link::teardown_plan(w) =~= seq![
        crate::edbg_link::Teardown::LeaveProgmode,
        crate::edbg_link::Teardown::AvrSignOff,
        crate::edbg_link::Teardown::GeneralSignOff,
        crate::edbg_link::Teardown::FinishPrepare,
    ]);
}

} // verus!
