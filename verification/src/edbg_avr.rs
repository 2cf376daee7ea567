//! The EDBG/JTAGICE3 ("CMD3") command layer used to talk to AVR UPDI targets
//! through Microchip `pkobn_updi` probes: probe identification, the error type,
//! the information block returned by a target query, the CMD3 command payloads
//! and the parsing of their responses.
use vstd::prelude::*;

use crate::bytes::{
    copy_range, le16_bytes, le16_value, le32_bytes, push_all, u16_from_le, u16_to_le, u32_to_le,
};
use crate::text::{clean_probe_string, opt_view, string_from_utf8_lossy, trim_probe_string, utf8_lossy};

verus! {

/// USB vendor id of the supported probe.
pub const PKOBN_UPDI_VID: u16 = 0x03eb;
/// USB product id of the supported probe.
pub const PKOBN_UPDI_PID: u16 = 0x2175;

/// First byte of every CMD3 message body.
pub const TOKEN: u8 = 0x0e;

pub const SCOPE_INFO: u8 = 0x00;
pub const SCOPE_GENERAL: u8 = 0x01;
pub const SCOPE_AVR: u8 = 0x12;

pub const CMD3_GET_INFO: u8 = 0x00;
pub const CMD3_SET_PARAMETER: u8 = 0x01;
pub const CMD3_GET_PARAMETER: u8 = 0x02;
pub const CMD3_SIGN_ON: u8 = 0x10;
pub const CMD3_SIGN_OFF: u8 = 0x11;
pub const CMD3_ENTER_PROGMODE: u8 = 0x15;
pub const CMD3_LEAVE_PROGMODE: u8 = 0x16;
pub const CMD3_READ_MEMORY: u8 = 0x21;

pub const CMD3_INFO_SERIAL: u8 = 0x81;

pub const RSP3_OK: u8 = 0x80;
pub const RSP3_INFO: u8 = 0x81;
pub const RSP3_DATA: u8 = 0x84;
pub const RSP3_STATUS_MASK: u8 = 0xe0;

pub const MTYPE_SRAM: u8 = 0x20;
pub const MTYPE_PRODSIG: u8 = 0xc6;
pub const MTYPE_SIB: u8 = 0xd3;

pub const PARM3_HW_VER: u8 = 0x00;
pub const PARM3_VTARGET: u8 = 0x00;
pub const PARM3_DEVICEDESC: u8 = 0x00;
pub const PARM3_ARCH: u8 = 0x00;
pub const PARM3_ARCH_UPDI: u8 = 5;
pub const PARM3_SESS_PURPOSE: u8 = 0x01;
pub const PARM3_SESS_PROGRAMMING: u8 = 1;
pub const PARM3_CONNECTION: u8 = 0x00;
pub const PARM3_CONN_UPDI: u8 = 8;
pub const PARM3_CLK_XMEGA_PDI: u8 = 0x31;

pub const DEFAULT_MINIMUM_CHARACTERISED_DIV1_VOLTAGE_MV: u16 = 4500;
pub const DEFAULT_MINIMUM_CHARACTERISED_DIV2_VOLTAGE_MV: u16 = 2700;
pub const DEFAULT_MINIMUM_CHARACTERISED_DIV4_VOLTAGE_MV: u16 = 2200;
pub const DEFAULT_MINIMUM_CHARACTERISED_DIV8_VOLTAGE_MV: u16 = 1500;
pub const MAX_FREQUENCY_SHARED_UPDI_PIN: u16 = 750;
pub const UPDI_ADDRESS_MODE_16BIT: u8 = 0;
pub const FUSES_SYSCFG0_OFFSET: u8 = 5;

/// Length of the UPDI System Information Block.
pub const AVR_SIBLEN: u32 = 32;
/// Device signature of the ATmega4809.
pub const M4809_SIGNATURE: [u8; 3] = [0x1e, 0x96, 0x51];
pub const M4809_SIGNATURE_BASE: u32 = 0x1100;
pub const M4809_SYSCFG_BASE: u32 = 0x0f00;

/// The ATmega4809 signature as a sequence.
pub open spec fn m4809_signature() -> Seq<u8> {
    seq![0x1eu8, 0x96u8, 0x51u8]
}

/// Identifies a debug probe by USB vendor id, product id and optional serial number.
#[derive(Debug, Clone, PartialEq, Eq)]
pub struct DebugProbeSelector {
    /// USB vendor id.
    pub vendor_id: u16,
    /// USB product id.
    pub product_id: u16,
    /// Serial number, when one was given.
    pub serial_number: Option<String>,
}

/// Firmware version reported by the EDBG/JTAG3 general parameter block.
#[derive(Debug, Clone, PartialEq, Eq)]
pub struct IceFirmwareVersion {
    /// Hardware version number.
    pub hardware: u8,
    /// Major firmware version number.
    pub major: u8,
    /// Minor firmware version number.
    pub minor: u8,
    /// Firmware release/build number.
    pub release: u16,
}

/// Narrow information block returned by the `pkobn_updi` + `m4809` query path.
#[derive(Debug, Clone, PartialEq, Eq)]
pub struct PkobnUpdiM4809Info {
    /// Probe selector used to open the probe.
    pub probe_selector: DebugProbeSelector,
    /// CMSIS-DAP vendor string.
    pub cmsis_dap_vendor: Option<String>,
    /// CMSIS-DAP product string.
    pub cmsis_dap_product: Option<String>,
    /// CMSIS-DAP serial number.
    pub cmsis_dap_serial: Option<String>,
    /// CMSIS-DAP firmware version string.
    pub cmsis_dap_firmware_version: Option<String>,
    /// CMSIS-DAP packet size in bytes.
    pub cmsis_dap_packet_size: u16,
    /// EDBG serial number returned by the AVR info scope.
    pub ice_serial: Option<String>,
    /// EDBG firmware version reported by the general parameter block.
    pub ice_firmware_version: IceFirmwareVersion,
    /// Target voltage in millivolts.
    pub target_voltage_mv: u16,
    /// UPDI clock in kilohertz.
    pub updi_clock_khz: u16,
    /// Partial family identifier returned by AVR sign-on.
    pub partial_family_id: Option<String>,
    /// UPDI SIB string.
    pub sib_string: String,
    /// Raw chip revision byte.
    pub chip_revision: u8,
    /// Raw three-byte device signature.
    pub signature: [u8; 3],
    /// Lock byte.
    pub lock_byte: u8,
    /// Fuse bytes.
    pub fuses: Vec<u8>,
    /// User row contents.
    pub userrow: Vec<u8>,
    /// Production signature row contents.
    pub prodsig: Vec<u8>,
    /// Resolved part name when the signature matches the hardcoded target.
    pub detected_part: Option<&'static str>,
}

/// What the library was doing when an EDBG AVR exchange went wrong.
#[derive(PartialEq, Eq, Structural, Clone, Copy, Debug)]
pub enum Context {
    CmsisDapConnect,
    CmsisDapDisconnect,
    GeneralSignOn,
    GeneralSignOff,
    AvrSignOn,
    AvrSignOff,
    EnterProgmode,
    LeaveProgmode,
    IceFirmwareVersion,
    GetInfoString,
    GetParameter,
    Get16BitParameter,
    SetParameter,
    ReadMemory,
    ChipRevision,
    SignatureRead,
    EdbgSend,
    EdbgSendAck,
    EdbgReceive,
}

/// Status word of a CMSIS-DAP response.
#[derive(PartialEq, Eq, Structural, Clone, Copy, Debug)]
pub enum DapStatus {
    DapOk,
    DapError,
}

/// Why a response was judged unexpected.
#[derive(Debug, Clone, PartialEq, Eq)]
pub enum ResponseDetails {
    /// The CMSIS-DAP connect did not select SWD mode.
    ProbeNotInSwdMode,
    /// The CMSIS-DAP disconnect reported this status.
    DisconnectStatus(DapStatus),
    /// A fixed number of bytes was expected and another number arrived.
    ExpectedBytes { expected: usize, got: usize },
    /// A response had the wrong shape; these are its bytes.
    UnexpectedResponse(Vec<u8>),
    /// A parameter value longer than a length byte can describe.
    ValueTooLarge(usize),
    /// A response shorter than a status header; these are its bytes.
    ResponseTooShort(Vec<u8>),
    /// The probe's packet size leaves no room for a fragment header.
    PacketSizeTooSmall(usize),
    /// A payload would need more fragments than a count byte can describe.
    TooManyFragments(usize),
    /// A fragment whose length does not fit the 16-bit length field.
    FragmentTooLarge(usize),
    /// An acknowledgement with the wrong prefix; these are its bytes.
    UnexpectedAck(Vec<u8>),
    /// The acknowledgement of the last fragment did not report completion.
    LastFragmentCompletionMissing(Vec<u8>),
    /// A response packet with the wrong prefix; these are its bytes.
    UnexpectedPrefix(Vec<u8>),
    /// The probe reported that it has no response data.
    NoResponseData,
    /// A fragment announced another fragment count than the first one.
    InconsistentFragmentCount(Vec<u8>),
    /// Fragments arrived out of order.
    UnexpectedFragment { expected: u8, received: u8 },
    /// A reassembled response without token and sequence number.
    MalformedResponse(Vec<u8>),
}

/// Errors of the EDBG AVR path.
#[derive(Debug, Clone, PartialEq, Eq)]
pub enum EdbgAvrError {
    /// Error while using the CMSIS-DAP transport layer.
    CmsisDap(String),
    /// Error while using the probe transport.
    Transport(String),
    /// The selected probe is not supported by the narrow EDBG AVR path.
    UnsupportedProbe { selector: DebugProbeSelector },
    /// Unexpected EDBG AVR response while handling `context`.
    UnexpectedResponse { context: Context, details: ResponseDetails },
    /// EDBG AVR command `context` failed with status `code`.
    CommandFailed { context: Context, code: u8 },
}

/// The probe is the supported `03eb:2175` device.
pub open spec fn is_supported_probe(selector: DebugProbeSelector) -> bool {
    selector.vendor_id == PKOBN_UPDI_VID && selector.product_id == PKOBN_UPDI_PID
}

/// Accepts only the `pkobn_updi` (`03eb:2175`) probe; any other selector is refused
/// with `UnsupportedProbe`, which hands the selector back.
pub fn check_supported_probe(selector: DebugProbeSelector) -> (r: Result<
    DebugProbeSelector,
    EdbgAvrError,
>)
    ensures
        is_supported_probe(selector) ==> r == Ok::<DebugProbeSelector, EdbgAvrError>(selector),
        !is_supported_probe(selector) ==> r == Err::<DebugProbeSelector, EdbgAvrError>(
            EdbgAvrError::UnsupportedProbe { selector },
        ),
{
    if selector.vendor_id != PKOBN_UPDI_VID || selector.product_id != PKOBN_UPDI_PID {
        Err(EdbgAvrError::UnsupportedProbe { selector })
    } else {
        Ok(selector)
    }
}

} // verus!

verus! {

// ---- CMD3 commands and their responses ----

/// The sub-sequence `r[from..min(to, len)]`: a tail of `r` cut to at most `to - from` bytes.
pub open spec fn tail_truncated(r: Seq<u8>, from: int, max: int) -> Seq<u8> {
    if r.len() - from <= max {
        r.subrange(from, r.len() as int)
    } else {
        r.subrange(from, from + max)
    }
}

/// `e` is an `UnexpectedResponse` error in `context` that quotes `bytes`.
pub open spec fn quotes_response(e: EdbgAvrError, context: Context, bytes: Seq<u8>) -> bool {
    match e {
        EdbgAvrError::UnexpectedResponse {
            context: c,
            details: ResponseDetails::UnexpectedResponse(b),
        } => c == context && b@ == bytes,
        _ => false,
    }
}

/// A data response: at least a header, and the data status in byte 1.
pub open spec fn is_data_response(r: Seq<u8>, status: u8) -> bool {
    r.len() >= 3 && r[1] == status
}

/// The CMD3 command that reads `length` bytes of parameter `parameter` in
/// section `section` of `scope`.
pub fn get_param_command(scope: u8, section: u8, parameter: u8, length: u8) -> (r: Vec<u8>)
    ensures
        r@ == seq![scope, CMD3_GET_PARAMETER, 0u8, section, parameter, length],
{
    let r = vec![scope, CMD3_GET_PARAMETER, 0, section, parameter, length];
    assert(r@ =~= seq![scope, CMD3_GET_PARAMETER, 0u8, section, parameter, length]);
    r
}

/// The value carried by a get-parameter response: the bytes after the 3-byte
/// header, at most `length` of them.
pub fn get_param_response(response: &[u8], length: u8) -> (r: Result<Vec<u8>, EdbgAvrError>)
    ensures
        !is_data_response(response@, RSP3_DATA) ==> r is Err && quotes_response(
            r->Err_0,
            Context::GetParameter,
            response@,
        ),
        is_data_response(response@, RSP3_DATA) ==> r is Ok && r->Ok_0@ == tail_truncated(
            response@,
            3,
            length as int,
        ),
{
    data_after_header(response, RSP3_DATA, length as usize, Context::GetParameter)
}

/// The data after the 3-byte header of a response with status `status`, at most
/// `max` bytes of it; a response of another shape is refused in `context`.
fn data_after_header(response: &[u8], status: u8, max: usize, context: Context) -> (r: Result<
    Vec<u8>,
    EdbgAvrError,
>)
    ensures
        !is_data_response(response@, status) ==> r is Err && quotes_response(
            r->Err_0,
            context,
            response@,
        ),
        is_data_response(response@, status) ==> r is Ok && r->Ok_0@ == tail_truncated(
            response@,
            3,
            max as int,
        ),
{
    if response.len() < 3 || response[1] != status {
        let b = copy_range(response, 0, response.len());
        assert(b@ =~= response@);
        return Err(
            EdbgAvrError::UnexpectedResponse {
                context,
                details: ResponseDetails::UnexpectedResponse(b),
            },
        );
    }
    let end = if response.len() - 3 <= max {
        response.len()
    } else {
        3 + max
    };
    Ok(copy_range(response, 3, end))
}

/// A 16-bit parameter value: the first two bytes, little-endian; fewer than two
/// bytes is an error.
pub fn parse_u16_param(value: &[u8]) -> (r: Result<u16, EdbgAvrError>)
    ensures
        value@.len() < 2 ==> r == Err::<u16, EdbgAvrError>(
            EdbgAvrError::UnexpectedResponse {
                context: Context::Get16BitParameter,
                details: ResponseDetails::ExpectedBytes { expected: 2, got: value@.len() as usize },
            },
        ),
        value@.len() >= 2 ==> r == Ok::<u16, EdbgAvrError>(le16_value(value@[0], value@[1])),
{
    if value.len() < 2 {
        return Err(
            EdbgAvrError::UnexpectedResponse {
                context: Context::Get16BitParameter,
                details: ResponseDetails::ExpectedBytes { expected: 2, got: value.len() },
            },
        );
    }
    Ok(u16_from_le(value[0], value[1]))
}

/// The ICE firmware version block: hardware, major, minor, then a
/// little-endian release number; fewer than five bytes is an error.
pub fn parse_ice_firmware_version(params: &[u8]) -> (r: Result<IceFirmwareVersion, EdbgAvrError>)
    ensures
        params@.len() < 5 ==> r == Err::<IceFirmwareVersion, EdbgAvrError>(
            EdbgAvrError::UnexpectedResponse {
                context: Context::IceFirmwareVersion,
                details: ResponseDetails::ExpectedBytes { expected: 5, got: params@.len() as usize },
            },
        ),
        params@.len() >= 5 ==> r == Ok::<IceFirmwareVersion, EdbgAvrError>(
            IceFirmwareVersion {
                hardware: params@[0],
                major: params@[1],
                minor: params@[2],
                release: le16_value(params@[3], params@[4]),
            },
        ),
{
    if params.len() < 5 {
        return Err(
            EdbgAvrError::UnexpectedResponse {
                context: Context::IceFirmwareVersion,
                details: ResponseDetails::ExpectedBytes { expected: 5, got: params.len() },
            },
        );
    }
    Ok(
        IceFirmwareVersion {
            hardware: params[0],
            major: params[1],
            minor: params[2],
            release: u16_from_le(params[3], params[4]),
        },
    )
}

/// The CMD3 command that sets parameter `parameter` in section `section` of
/// `scope` to `value`; a value longer than 255 bytes cannot be described by the
/// length byte.
pub fn set_param_command(scope: u8, section: u8, parameter: u8, value: &[u8]) -> (r: Result<
    Vec<u8>,
    EdbgAvrError,
>)
    ensures
        value@.len() > 255 ==> r == Err::<Vec<u8>, EdbgAvrError>(
            EdbgAvrError::UnexpectedResponse {
                context: Context::SetParameter,
                details: ResponseDetails::ValueTooLarge(value@.len() as usize),
            },
        ),
        value@.len() <= 255 ==> r is Ok && r->Ok_0@ == seq![
            scope,
            CMD3_SET_PARAMETER,
            0u8,
            section,
            parameter,
            value@.len() as u8,
        ] + value@,
{
    if value.len() > 255 {
        return Err(
            EdbgAvrError::UnexpectedResponse {
                context: Context::SetParameter,
                details: ResponseDetails::ValueTooLarge(value.len()),
            },
        );
    }
    let length = value.len() as u8;
    let mut command = vec![scope, CMD3_SET_PARAMETER, 0, section, parameter, length];
    push_all(&mut command, value);
    Ok(command)
}

/// The CMD3 command that reads `length` bytes of memory type `memory_type`
/// starting at `address`.
pub fn read_memory_command(memory_type: u8, address: u32, length: u32) -> (r: Vec<u8>)
    ensures
        r@ == seq![SCOPE_AVR, CMD3_READ_MEMORY, 0u8, memory_type] + le32_bytes(address)
            + le32_bytes(length),
{
    let mut command = vec![SCOPE_AVR, CMD3_READ_MEMORY, 0, memory_type];
    push_all(&mut command, &u32_to_le(address));
    push_all(&mut command, &u32_to_le(length));
    command
}

/// The memory carried by a read-memory response: the bytes after the 3-byte
/// header, at most `length` of them.
pub fn read_memory_response(response: &[u8], length: u32) -> (r: Result<Vec<u8>, EdbgAvrError>)
    ensures
        !is_data_response(response@, RSP3_DATA) ==> r is Err && quotes_response(
            r->Err_0,
            Context::ReadMemory,
            response@,
        ),
        is_data_response(response@, RSP3_DATA) ==> r is Ok && r->Ok_0@ == tail_truncated(
            response@,
            3,
            length as int,
        ),
{
    let max: usize = if length as u64 > usize::MAX as u64 {
        usize::MAX
    } else {
        length as usize
    };
    let r = data_after_header(response, RSP3_DATA, max, Context::ReadMemory);
    proof {
        if is_data_response(response@, RSP3_DATA) {
            assert(response@.len() - 3 <= max <==> response@.len() - 3 <= length);
        }
    }
    r
}

/// The CMD3 command that asks the info scope for string `info_kind`.
pub fn get_info_command(info_kind: u8) -> (r: Vec<u8>)
    ensures
        r@ == seq![SCOPE_INFO, CMD3_GET_INFO, 0u8, info_kind],
{
    let r = vec![SCOPE_INFO, CMD3_GET_INFO, 0, info_kind];
    assert(r@ =~= seq![SCOPE_INFO, CMD3_GET_INFO, 0u8, info_kind]);
    r
}

/// The string carried by an info response: the bytes after the 3-byte header,
/// decoded lossily and cleaned up like every probe string.
pub fn get_info_response(response: &[u8]) -> (r: Result<Option<String>, EdbgAvrError>)
    ensures
        !is_data_response(response@, RSP3_INFO) ==> r is Err && quotes_response(
            r->Err_0,
            Context::GetInfoString,
            response@,
        ),
        is_data_response(response@, RSP3_INFO) ==> r is Ok && opt_view(r->Ok_0)
            == clean_probe_string(utf8_lossy(response@.subrange(3, response@.len() as int))),
{
    if response.len() < 3 || response[1] != RSP3_INFO {
        let b = copy_range(response, 0, response.len());
        assert(b@ =~= response@);
        return Err(
            EdbgAvrError::UnexpectedResponse {
                context: Context::GetInfoString,
                details: ResponseDetails::UnexpectedResponse(b),
            },
        );
    }
    let body = copy_range(response, 3, response.len());
    let decoded = string_from_utf8_lossy(body.as_slice());
    Ok(trim_probe_string(Some(decoded)))
}

/// The partial family id in an AVR sign-on response: four bytes after the
/// header, decoded lossily, without trailing NULs; absent when the response is
/// not a data response of at least seven bytes or the id is empty.
pub open spec fn partial_family_id(r: Seq<u8>) -> Option<Seq<char>> {
    if r.len() >= 7 && r[1] == RSP3_DATA {
        clean_probe_string(utf8_lossy(r.subrange(3, 7)))
    } else {
        None
    }
}

/// Extracts the partial family id from an AVR sign-on response.
pub fn partial_family_id_from_response(response: &[u8]) -> (r: Option<String>)
    ensures
        opt_view(r) == partial_family_id(response@),
{
    if response.len() >= 7 && response[1] == RSP3_DATA {
        let id = copy_range(response, 3, 7);
        let decoded = string_from_utf8_lossy(id.as_slice());
        trim_probe_string(Some(decoded))
    } else {
        None
    }
}

// ---- ATmega4809 UPDI device descriptor ----

/// The UPDI device descriptor of the ATmega4809, field by field.
pub open spec fn m4809_descriptor() -> Seq<u8> {
    le16_bytes(0x4000)  // program memory base
     + seq![128u8, 64u8]  // flash page size, EEPROM page size
     + le16_bytes(0x1000)  // NVM controller base
     + le16_bytes(0x0f80)  // OCD base
     + le16_bytes(DEFAULT_MINIMUM_CHARACTERISED_DIV1_VOLTAGE_MV) + le16_bytes(
        DEFAULT_MINIMUM_CHARACTERISED_DIV2_VOLTAGE_MV,
    ) + le16_bytes(DEFAULT_MINIMUM_CHARACTERISED_DIV4_VOLTAGE_MV) + le16_bytes(
        DEFAULT_MINIMUM_CHARACTERISED_DIV8_VOLTAGE_MV,
    ) + le16_bytes(MAX_FREQUENCY_SHARED_UPDI_PIN) + le32_bytes(0x0000_c000)  // flash size
     + le16_bytes(256)  // EEPROM size
     + le16_bytes(64)  // user row size
     + seq![10u8, FUSES_SYSCFG0_OFFSET, 0xffu8, 0x00u8, 0xffu8, 0x00u8] + le16_bytes(0x1400)  // EEPROM base
     + le16_bytes(0x1300)  // user row base
     + le16_bytes(M4809_SIGNATURE_BASE as u16) + le16_bytes(0x1280)  // fuses base
     + le16_bytes(0x128a)  // lock base
     + seq![M4809_SIGNATURE[1], M4809_SIGNATURE[2], 0u8, 0u8, UPDI_ADDRESS_MODE_16BIT, 1u8]
}

/// Builds the 48-byte UPDI device descriptor sent to the probe for the ATmega4809.
pub fn m4809_updi_device_descriptor() -> (r: [u8; 48])
    ensures
        r@ == m4809_descriptor(),
{
    let prog_base = u16_to_le(0x4000);
    let nvm_base = u16_to_le(0x1000);
    let ocd_base = u16_to_le(0x0f80);
    let div1 = u16_to_le(DEFAULT_MINIMUM_CHARACTERISED_DIV1_VOLTAGE_MV);
    let div2 = u16_to_le(DEFAULT_MINIMUM_CHARACTERISED_DIV2_VOLTAGE_MV);
    let div4 = u16_to_le(DEFAULT_MINIMUM_CHARACTERISED_DIV4_VOLTAGE_MV);
    let div8 = u16_to_le(DEFAULT_MINIMUM_CHARACTERISED_DIV8_VOLTAGE_MV);
    let shared = u16_to_le(MAX_FREQUENCY_SHARED_UPDI_PIN);
    let flash_size = u32_to_le(0x0000_c000);
    let eeprom_size = u16_to_le(256);
    let userrow_size = u16_to_le(64);
    let eeprom_base = u16_to_le(0x1400);
    let userrow_base = u16_to_le(0x1300);
    let sig_base = u16_to_le(M4809_SIGNATURE_BASE as u16);
    let fuses_base = u16_to_le(0x1280);
    let lock_base = u16_to_le(0x128a);
    let descriptor: [u8; 48] = [
        prog_base[0],
        prog_base[1],
        128,
        64,
        nvm_base[0],
        nvm_base[1],
        ocd_base[0],
        ocd_base[1],
        div1[0],
        div1[1],
        div2[0],
        div2[1],
        div4[0],
        div4[1],
        div8[0],
        div8[1],
        shared[0],
        shared[1],
        flash_size[0],
        flash_size[1],
        flash_size[2],
        flash_size[3],
        eeprom_size[0],
        eeprom_size[1],
        userrow_size[0],
        userrow_size[1],
        10,
        FUSES_SYSCFG0_OFFSET,
        0xff,
        0x00,
        0xff,
        0x00,
        eeprom_base[0],
        eeprom_base[1],
        userrow_base[0],
        userrow_base[1],
        sig_base[0],
        sig_base[1],
        fuses_base[0],
        fuses_base[1],
        lock_base[0],
        lock_base[1],
        M4809_SIGNATURE[1],
        M4809_SIGNATURE[2],
        0,
        0,
        UPDI_ADDRESS_MODE_16BIT,
        1,
    ];
    assert(descriptor@ =~= m4809_descriptor());
    descriptor
}

} // verus!
