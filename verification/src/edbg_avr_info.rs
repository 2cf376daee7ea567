//! The `edbg-avr-info` command: probe selection and the text report of a
//! target query.
use vstd::prelude::*;

use crate::edbg_avr::{DebugProbeSelector, IceFirmwareVersion, PkobnUpdiM4809Info};
use crate::hexfmt::{
    decimal, hex2, hex_padded, lemma_decimal_ascii, lemma_hex_padded_ascii, push_decimal,
    push_hex2, push_hex_padded,
};
use crate::read_output::{hex_words, push_hex_words};
use crate::text::{all_ascii, ascii_chars, ascii_string};

verus! {

/// The `edbg-avr-info` command's options.
pub struct Cmd {
    /// Disable interactive probe selection
    pub non_interactive: bool,
    /// Use this flag to select a specific probe in the list.
    pub probe: Option<DebugProbeSelector>,
}

/// What probe selection does with the list of candidate probes.
#[derive(PartialEq, Eq, Structural, Clone, Copy, Debug)]
pub enum ProbeSelection {
    /// Use the only candidate.
    Single,
    /// A selector was given and no probe matches it.
    ProbeNotFound,
    /// No selector was given and no probe is attached.
    NoProbesFound,
    /// A selector was given, several probes match, and asking is not allowed.
    MultipleMatched,
    /// No selector was given, several probes are attached, and asking is not allowed.
    MultipleFound,
    /// Ask the user to pick one.
    Interactive,
}

/// Decides probe selection from the number of candidates: the probes matching
/// the selector when one was given, else all attached probes.
pub fn probe_selection(candidates: usize, selector_given: bool, non_interactive: bool) -> (r:
    ProbeSelection)
    ensures
        candidates == 0 && selector_given ==> r == ProbeSelection::ProbeNotFound,
        candidates == 0 && !selector_given ==> r == ProbeSelection::NoProbesFound,
        candidates == 1 ==> r == ProbeSelection::Single,
        candidates > 1 && non_interactive && selector_given ==> r
            == ProbeSelection::MultipleMatched,
        candidates > 1 && non_interactive && !selector_given ==> r == ProbeSelection::MultipleFound,
        candidates > 1 && !non_interactive ==> r == ProbeSelection::Interactive,
{
    if candidates == 0 {
        if selector_given {
            ProbeSelection::ProbeNotFound
        } else {
            ProbeSelection::NoProbesFound
        }
    } else if candidates == 1 {
        ProbeSelection::Single
    } else if non_interactive {
        if selector_given {
            ProbeSelection::MultipleMatched
        } else {
            ProbeSelection::MultipleFound
        }
    } else {
        ProbeSelection::Interactive
    }
}

/// The views of a list of strings.
pub open spec fn views(v: Seq<String>) -> Seq<Seq<char>> {
    v.map_values(|s: String| s@)
}

/// The decimal text of `n`.
pub open spec fn dec(n: nat) -> Seq<char> {
    ascii_chars(decimal(n))
}

/// The two-digit lowercase hex text of `b`.
pub open spec fn hex2c(b: u8) -> Seq<char> {
    ascii_chars(hex2(b))
}

/// Decimal text of a number.
fn decimal_text(n: u64) -> (r: String)
    ensures
        r@ == dec(n as nat),
{
    let mut b: Vec<u8> = Vec::new();
    push_decimal(&mut b, n);
    proof {
        lemma_decimal_ascii(n as nat);
        assert(b@ =~= decimal(n as nat));
    }
    ascii_string(b)
}

/// Hex text of a number, zero-padded to at least `width` digits.
fn hex_text(n: u64, width: usize) -> (r: String)
    ensures
        r@ == ascii_chars(hex_padded(n as nat, width as nat)),
{
    let mut b: Vec<u8> = Vec::new();
    push_hex_padded(&mut b, n, width);
    proof {
        lemma_hex_padded_ascii(n as nat, width as nat);
        assert(b@ =~= hex_padded(n as nat, width as nat));
    }
    ascii_string(b)
}

/// Two-digit hex text of a byte.
fn hex2_text(v: u8) -> (r: String)
    ensures
        r@ == hex2c(v),
{
    let mut b: Vec<u8> = Vec::new();
    push_hex2(&mut b, v);
    assert(b@ =~= hex2(v));
    ascii_string(b)
}

/// The bytes as two-digit hex, separated by spaces.
pub open spec fn hex_bytes_text(data: Seq<u8>) -> Seq<char> {
    ascii_chars(hex_words(data, 1))
}

/// Every byte of a hex-word rendering is ASCII.
proof fn lemma_hex_words_ascii(data: Seq<u8>, k: nat)
    ensures
        all_ascii(hex_words(data, k)),
    decreases data.len(),
{
    lemma_rev_hex_ascii(data);
    if !(k == 0 || data.len() <= k) {
        lemma_rev_hex_ascii(data.subrange(0, k as int));
        lemma_hex_words_ascii(data.subrange(k as int, data.len() as int), k);
        let a = crate::read_output::rev_hex(data.subrange(0, k as int));
        let b = hex_words(data.subrange(k as int, data.len() as int), k);
        let s = hex_words(data, k);
        assert(s == a + seq![32u8] + b);
        assert forall|i: int| 0 <= i < s.len() implies #[trigger] s[i] < 128 by {
            if i < a.len() {
                assert(s[i] == a[i]);
            } else if i > a.len() {
                assert(s[i] == b[i - a.len() - 1]);
            }
        }
    }
}

/// Every byte of a reversed hex rendering is ASCII.
proof fn lemma_rev_hex_ascii(w: Seq<u8>)
    ensures
        all_ascii(crate::read_output::rev_hex(w)),
    decreases w.len(),
{
    if w.len() > 0 {
        lemma_rev_hex_ascii(w.subrange(1, w.len() as int));
        let a = crate::read_output::rev_hex(w.subrange(1, w.len() as int));
        let s = crate::read_output::rev_hex(w);
        assert forall|i: int| 0 <= i < s.len() implies #[trigger] s[i] < 128 by {
            if i < a.len() {
                assert(s[i] == a[i]);
            }
        }
    }
}

/// Formats bytes as two-digit hex values separated by spaces.
pub fn format_hex_bytes(data: &[u8]) -> (r: String)
    ensures
        r@ == hex_bytes_text(data@),
{
    let mut b: Vec<u8> = Vec::new();
    push_hex_words(&mut b, data, 1);
    proof {
        lemma_hex_words_ascii(data@, 1);
        assert(b@ =~= hex_words(data@, 1));
    }
    ascii_string(b)
}

/// Number of 16-byte rows that hold `n` bytes.
pub open spec fn rows(n: nat) -> nat {
    if n % 16 == 0 {
        n / 16
    } else {
        n / 16 + 1
    }
}

/// Row `i` of a hex dump: its offset as at least four hex digits, then its bytes.
pub open spec fn dump_row(data: Seq<u8>, i: int) -> Seq<char> {
    let start = 16 * i;
    let end = if data.len() < start + 16 {
        data.len() as int
    } else {
        start + 16
    };
    "  "@ + ascii_chars(hex_padded(start as nat, 4)) + ": "@ + hex_bytes_text(
        data.subrange(start, end),
    )
}

/// A labelled hex dump: the label and a colon, then one row per 16 bytes.
pub open spec fn dump_lines(label: Seq<char>, data: Seq<u8>) -> Seq<Seq<char>> {
    seq![label + ":"@] + Seq::new(rows(data.len()), |i: int| dump_row(data, i))
}

/// A labelled hex dump: the label and a colon, then one row per 16 bytes.
pub fn hex_dump_lines(label: &str, data: &[u8]) -> (r: Vec<String>)
    ensures
        views(r@) == dump_lines(label@, data@),
        r@.len() == 1 + rows(data@.len()),
        r@[0]@ == label@ + ":"@,
        forall|i: int| 0 <= i < rows(data@.len()) ==> #[trigger] r@[i + 1]@ == dump_row(data@, i),
{
    let mut first = String::from_str(label);
    first.append(":");
    let mut lines: Vec<String> = Vec::new();
    lines.push(first);
    let len = data.len();
    let nrows: usize = len / 16 + if len % 16 != 0 {
        1usize
    } else {
        0usize
    };
    let mut row: usize = 0;
    while row < nrows
        invariant
            len == data@.len(),
            nrows == rows(len as nat),
            row <= nrows,
            lines@.len() == 1 + row,
            lines@[0]@ == label@ + ":"@,
            forall|i: int| 0 <= i < row ==> #[trigger] lines@[i + 1]@ == dump_row(data@, i),
        decreases nrows - row,
    {
        let start = 16 * row;
        let end = if len - start < 16 {
            len
        } else {
            start + 16
        };
        let mut line = String::from_str("  ");
        line.append(hex_text(start as u64, 4).as_str());
        line.append(": ");
        let window = vstd::slice::slice_subrange(data, start, end);
        line.append(format_hex_bytes(window).as_str());
        assert(line@ == dump_row(data@, row as int));
        lines.push(line);
        row = row + 1;
    }
    assert(views(lines@) =~= dump_lines(label@, data@)) by {
        assert forall|i: int| 0 <= i < lines@.len() implies #[trigger] views(lines@)[i]
            == dump_lines(label@, data@)[i] by {
            if i > 0 {
                assert(lines@[(i - 1) + 1]@ == dump_row(data@, i - 1));
            }
        }
    }
    lines
}

/// The text of a probe selector: vendor and product id as four hex digits
/// each, then the serial number when there is one, separated by colons.
pub open spec fn selector_text(s: DebugProbeSelector) -> Seq<char> {
    ascii_chars(hex_padded(s.vendor_id as nat, 4)) + ":"@ + ascii_chars(
        hex_padded(s.product_id as nat, 4),
    ) + match s.serial_number {
        Some(sn) => ":"@ + sn@,
        None => Seq::empty(),
    }
}

impl DebugProbeSelector {
    /// The selector as text, as it is shown and parsed on the command line.
    pub fn to_text(&self) -> (r: String)
        ensures
            r@ == selector_text(*self),
    {
        let mut t = hex_text(self.vendor_id as u64, 4);
        t.append(":");
        t.append(hex_text(self.product_id as u64, 4).as_str());
        match &self.serial_number {
            Some(sn) => {
                t.append(":");
                t.append(sn.as_str());
            },
            None => {},
        }
        t
    }
}

/// A line for an optional value: the label and the value when there is one.
pub open spec fn opt_line(label: Seq<char>, v: Option<String>) -> Seq<Seq<char>> {
    match v {
        Some(s) => seq![label + s@],
        None => Seq::empty(),
    }
}

/// The packet-size line.
pub open spec fn packet_size_line(n: u16) -> Seq<char> {
    "CMSIS-DAP packet size: "@ + dec(n as nat) + " bytes"@
}

/// The probe-selector line.
pub open spec fn selector_line(s: DebugProbeSelector) -> Seq<char> {
    "Probe selector: "@ + selector_text(s)
}

/// The EDBG firmware line.
pub open spec fn firmware_line(fw: IceFirmwareVersion) -> Seq<char> {
    "EDBG firmware: HW "@ + dec(fw.hardware as nat) + " FW "@ + dec(fw.major as nat) + "."@ + dec(
        fw.minor as nat,
    ) + " (rel. "@ + dec(fw.release as nat) + ")"@
}

/// The target-voltage line.
pub open spec fn voltage_line(voltage: Seq<char>) -> Seq<char> {
    "Target voltage: "@ + voltage + " V"@
}

/// The UPDI-clock line.
pub open spec fn clock_line(khz: u16) -> Seq<char> {
    "UPDI clock: "@ + dec(khz as nat) + " kHz"@
}

/// The SIB line.
pub open spec fn sib_line(sib: Seq<char>) -> Seq<char> {
    "SIB: "@ + sib
}

/// The chip-revision line: major and minor revision nibbles.
pub open spec fn revision_line(rev: u8) -> Seq<char> {
    "Chip revision: "@ + dec((rev / 16) as nat) + "."@ + dec((rev % 16) as nat)
}

/// The signature line.
pub open spec fn signature_line(sig: Seq<u8>) -> Seq<char> {
    "Signature: "@ + hex2c(sig[0]) + " "@ + hex2c(sig[1]) + " "@ + hex2c(sig[2])
}

/// The lock-byte line.
pub open spec fn lock_line(lock: u8) -> Seq<char> {
    "Lock byte: "@ + hex2c(lock)
}

/// The fuses line.
pub open spec fn fuses_line(fuses: Seq<u8>) -> Seq<char> {
    "Fuses: "@ + hex_bytes_text(fuses)
}

/// The detected-part line, when a part was detected.
pub open spec fn part_lines(p: Option<&'static str>) -> Seq<Seq<char>> {
    match p {
        Some(p) => seq!["Detected part: "@ + p@],
        None => Seq::empty(),
    }
}

/// The lines of the report of a target query; `voltage` is the target
/// voltage in volts, already rendered with two decimals.
pub open spec fn info_lines(info: PkobnUpdiM4809Info, voltage: Seq<char>) -> Seq<Seq<char>> {
    opt_line("CMSIS-DAP vendor: "@, info.cmsis_dap_vendor) + opt_line(
        "CMSIS-DAP product: "@,
        info.cmsis_dap_product,
    ) + opt_line("CMSIS-DAP serial: "@, info.cmsis_dap_serial) + opt_line(
        "CMSIS-DAP firmware: "@,
        info.cmsis_dap_firmware_version,
    ) + seq![packet_size_line(info.cmsis_dap_packet_size), selector_line(info.probe_selector)]
        + opt_line("EDBG serial: "@, info.ice_serial) + seq![
        firmware_line(info.ice_firmware_version),
        voltage_line(voltage),
        clock_line(info.updi_clock_khz),
    ] + opt_line("Partial family ID: "@, info.partial_family_id) + seq![
        sib_line(info.sib_string@),
        revision_line(info.chip_revision),
        signature_line(info.signature@),
        lock_line(info.lock_byte),
        fuses_line(info.fuses@),
    ] + dump_lines("USERROW"@, info.userrow@) + dump_lines("PRODSIG"@, info.prodsig@) + part_lines(
        info.detected_part,
    )
}

/// A sequence that contains `x` keeps containing it when more is put
/// before or after it.
proof fn lemma_concat_contains<T>()
    ensures
        forall|a: Seq<T>, b: Seq<T>, x: T|
            #![trigger (a + b).contains(x)]
            (a.contains(x) || b.contains(x)) ==> (a + b).contains(x),
{
    assert forall|a: Seq<T>, b: Seq<T>, x: T|
        (a.contains(x) || b.contains(x)) implies #[trigger] (a + b).contains(x) by {
        if a.contains(x) {
            let i = choose|i: int| 0 <= i < a.len() && a[i] == x;
            assert((a + b)[i] == x);
        } else {
            let i = choose|i: int| 0 <= i < b.len() && b[i] == x;
            assert((a + b)[a.len() + i] == x);
        }
    }
}

/// 1 when an optional value is present.
pub open spec fn present<T>(v: Option<T>) -> int {
    if v is Some {
        1
    } else {
        0
    }
}

/// The report names every optional item that is present, each on a line of
/// its own label and value, and has twelve fixed lines (packet size,
/// selector, firmware, voltage, clock, SIB, revision, signature, lock byte,
/// fuses, and the two dump headers), one line per present optional item, and
/// one line per 16-byte row of the USERROW and PRODSIG dumps.
pub proof fn lemma_report_names_present_items(info: PkobnUpdiM4809Info, voltage: Seq<char>)
    ensures
        info.cmsis_dap_vendor matches Some(v) ==> info_lines(info, voltage).contains(
            "CMSIS-DAP vendor: "@ + v@,
        ),
        info.cmsis_dap_product matches Some(v) ==> info_lines(info, voltage).contains(
            "CMSIS-DAP product: "@ + v@,
        ),
        info.cmsis_dap_serial matches Some(v) ==> info_lines(info, voltage).contains(
            "CMSIS-DAP serial: "@ + v@,
        ),
        info.cmsis_dap_firmware_version matches Some(v) ==> info_lines(info, voltage).contains(
            "CMSIS-DAP firmware: "@ + v@,
        ),
        info.ice_serial matches Some(v) ==> info_lines(info, voltage).contains(
            "EDBG serial: "@ + v@,
        ),
        info.partial_family_id matches Some(v) ==> info_lines(info, voltage).contains(
            "Partial family ID: "@ + v@,
        ),
        info.detected_part matches Some(p) ==> info_lines(info, voltage).contains(
            "Detected part: "@ + p@,
        ),
        info_lines(info, voltage).len() == 12 + present(info.cmsis_dap_vendor) + present(
            info.cmsis_dap_product,
        ) + present(info.cmsis_dap_serial) + present(info.cmsis_dap_firmware_version) + present(
            info.ice_serial,
        ) + present(info.partial_family_id) + present(info.detected_part) + rows(
            info.userrow@.len(),
        ) + rows(info.prodsig@.len()),
{
    lemma_concat_contains::<Seq<char>>();
    match info.cmsis_dap_vendor {
        Some(v) => assert(opt_line("CMSIS-DAP vendor: "@, info.cmsis_dap_vendor)[0] == "CMSIS-DAP vendor: "@ + v@),
        None => {},
    }
    match info.cmsis_dap_product {
        Some(v) => assert(opt_line("CMSIS-DAP product: "@, info.cmsis_dap_product)[0] == "CMSIS-DAP product: "@ + v@),
        None => {},
    }
    match info.cmsis_dap_serial {
        Some(v) => assert(opt_line("CMSIS-DAP serial: "@, info.cmsis_dap_serial)[0] == "CMSIS-DAP serial: "@ + v@),
        None => {},
    }
    match info.cmsis_dap_firmware_version {
        Some(v) => assert(opt_line("CMSIS-DAP firmware: "@, info.cmsis_dap_firmware_version)[0] == "CMSIS-DAP firmware: "@ + v@),
        None => {},
    }
    match info.ice_serial {
        Some(v) => assert(opt_line("EDBG serial: "@, info.ice_serial)[0] == "EDBG serial: "@ + v@),
        None => {},
    }
    match info.partial_family_id {
        Some(v) => assert(opt_line("Partial family ID: "@, info.partial_family_id)[0] == "Partial family ID: "@ + v@),
        None => {},
    }
    match info.detected_part {
        Some(p) => assert(part_lines(info.detected_part)[0] == "Detected part: "@ + p@),
        None => {},
    }
}

/// Appends a line for an optional value.
fn push_opt_line(lines: &mut Vec<String>, label: &str, v: &Option<String>)
    ensures
        views(final(lines)@) == views(old(lines)@) + opt_line(label@, *v),
{
    match v {
        Some(s) => {
            let mut line = String::from_str(label);
            line.append(s.as_str());
            lines.push(line);
        },
        None => {},
    }
    assert(views(lines@) =~= views(old(lines)@) + opt_line(label@, *v));
}

/// Appends a line.
fn push_line(lines: &mut Vec<String>, line: String)
    ensures
        views(final(lines)@) == views(old(lines)@).push(line@),
{
    let ghost l = line@;
    lines.push(line);
    assert(views(lines@) =~= views(old(lines)@).push(l));
}

fn make_packet_size_line(n: u16) -> (r: String)
    ensures
        r@ == packet_size_line(n),
{
    let mut l = String::from_str("CMSIS-DAP packet size: ");
    l.append(decimal_text(n as u64).as_str());
    l.append(" bytes");
    l
}

fn make_selector_line(s: &DebugProbeSelector) -> (r: String)
    ensures
        r@ == selector_line(*s),
{
    let mut l = String::from_str("Probe selector: ");
    l.append(s.to_text().as_str());
    l
}

fn make_firmware_line(fw: &IceFirmwareVersion) -> (r: String)
    ensures
        r@ == firmware_line(*fw),
{
    let mut l = String::from_str("EDBG firmware: HW ");
    l.append(decimal_text(fw.hardware as u64).as_str());
    l.append(" FW ");
    l.append(decimal_text(fw.major as u64).as_str());
    l.append(".");
    l.append(decimal_text(fw.minor as u64).as_str());
    l.append(" (rel. ");
    l.append(decimal_text(fw.release as u64).as_str());
    l.append(")");
    l
}

fn make_voltage_line(voltage: &str) -> (r: String)
    ensures
        r@ == voltage_line(voltage@),
{
    let mut l = String::from_str("Target voltage: ");
    l.append(voltage);
    l.append(" V");
    l
}

fn make_clock_line(khz: u16) -> (r: String)
    ensures
        r@ == clock_line(khz),
{
    let mut l = String::from_str("UPDI clock: ");
    l.append(decimal_text(khz as u64).as_str());
    l.append(" kHz");
    l
}

fn make_sib_line(sib: &String) -> (r: String)
    ensures
        r@ == sib_line(sib@),
{
    let mut l = String::from_str("SIB: ");
    l.append(sib.as_str());
    l
}

fn make_revision_line(rev: u8) -> (r: String)
    ensures
        r@ == revision_line(rev),
{
    let mut l = String::from_str("Chip revision: ");
    l.append(decimal_text((rev / 16) as u64).as_str());
    l.append(".");
    l.append(decimal_text((rev % 16) as u64).as_str());
    l
}

fn make_lock_line(lock: u8) -> (r: String)
    ensures
        r@ == lock_line(lock),
{
    let mut l = String::from_str("Lock byte: ");
    l.append(hex2_text(lock).as_str());
    l
}

fn make_fuses_line(fuses: &Vec<u8>) -> (r: String)
    ensures
        r@ == fuses_line(fuses@),
{
    let mut l = String::from_str("Fuses: ");
    l.append(format_hex_bytes(fuses.as_slice()).as_str());
    l
}

/// Appends a labelled hex dump.
fn push_dump_lines(lines: &mut Vec<String>, label: &str, data: &Vec<u8>)
    ensures
        views(final(lines)@) == views(old(lines)@) + dump_lines(label@, data@),
{
    let mut dump = hex_dump_lines(label, data.as_slice());
    let ghost before = lines@;
    let ghost added = dump@;
    lines.append(&mut dump);
    assert(lines@ == before + added);
    assert(views(lines@) =~= views(before) + views(added));
}

fn make_signature_line(sig: &[u8; 3]) -> (r: String)
    ensures
        r@ == signature_line(sig@),
{
    let mut l = String::from_str("Signature: ");
    l.append(hex2_text(sig[0]).as_str());
    l.append(" ");
    l.append(hex2_text(sig[1]).as_str());
    l.append(" ");
    l.append(hex2_text(sig[2]).as_str());
    l
}

/// The probe part of the report.
pub open spec fn probe_lines(info: PkobnUpdiM4809Info) -> Seq<Seq<char>> {
    opt_line("CMSIS-DAP vendor: "@, info.cmsis_dap_vendor) + opt_line(
        "CMSIS-DAP product: "@,
        info.cmsis_dap_product,
    ) + opt_line("CMSIS-DAP serial: "@, info.cmsis_dap_serial) + opt_line(
        "CMSIS-DAP firmware: "@,
        info.cmsis_dap_firmware_version,
    ) + seq![packet_size_line(info.cmsis_dap_packet_size), selector_line(info.probe_selector)]
}

/// The EDBG part of the report.
pub open spec fn edbg_lines(info: PkobnUpdiM4809Info, voltage: Seq<char>) -> Seq<Seq<char>> {
    opt_line("EDBG serial: "@, info.ice_serial) + seq![
        firmware_line(info.ice_firmware_version),
        voltage_line(voltage),
        clock_line(info.updi_clock_khz),
    ]
}

/// The target part of the report.
pub open spec fn target_lines(info: PkobnUpdiM4809Info) -> Seq<Seq<char>> {
    opt_line("Partial family ID: "@, info.partial_family_id) + seq![
        sib_line(info.sib_string@),
        revision_line(info.chip_revision),
        signature_line(info.signature@),
        lock_line(info.lock_byte),
        fuses_line(info.fuses@),
    ] + dump_lines("USERROW"@, info.userrow@) + dump_lines("PRODSIG"@, info.prodsig@) + part_lines(
        info.detected_part,
    )
}

fn push_probe_lines(lines: &mut Vec<String>, info: &PkobnUpdiM4809Info)
    ensures
        views(final(lines)@) == views(old(lines)@) + probe_lines(*info),
{
    push_opt_line(lines, "CMSIS-DAP vendor: ", &info.cmsis_dap_vendor);
    push_opt_line(lines, "CMSIS-DAP product: ", &info.cmsis_dap_product);
    push_opt_line(lines, "CMSIS-DAP serial: ", &info.cmsis_dap_serial);
    push_opt_line(lines, "CMSIS-DAP firmware: ", &info.cmsis_dap_firmware_version);
    push_line(lines, make_packet_size_line(info.cmsis_dap_packet_size));
    push_line(lines, make_selector_line(&info.probe_selector));
    assert(views(lines@) =~= views(old(lines)@) + probe_lines(*info));
}

fn push_edbg_lines(lines: &mut Vec<String>, info: &PkobnUpdiM4809Info, voltage: &str)
    ensures
        views(final(lines)@) == views(old(lines)@) + edbg_lines(*info, voltage@),
{
    push_opt_line(lines, "EDBG serial: ", &info.ice_serial);
    push_line(lines, make_firmware_line(&info.ice_firmware_version));
    push_line(lines, make_voltage_line(voltage));
    push_line(lines, make_clock_line(info.updi_clock_khz));
    assert(views(lines@) =~= views(old(lines)@) + edbg_lines(*info, voltage@));
}

fn push_target_lines(lines: &mut Vec<String>, info: &PkobnUpdiM4809Info)
    ensures
        views(final(lines)@) == views(old(lines)@) + target_lines(*info),
{
    push_opt_line(lines, "Partial family ID: ", &info.partial_family_id);
    push_line(lines, make_sib_line(&info.sib_string));
    push_line(lines, make_revision_line(info.chip_revision));
    push_line(lines, make_signature_line(&info.signature));
    push_line(lines, make_lock_line(info.lock_byte));
    push_line(lines, make_fuses_line(&info.fuses));
    push_dump_lines(lines, "USERROW", &info.userrow);
    push_dump_lines(lines, "PRODSIG", &info.prodsig);
    let ghost before = views(lines@);
    match info.detected_part {
        Some(p) => {
            let mut l = String::from_str("Detected part: ");
            l.append(p);
            push_line(lines, l);
        },
        None => {},
    }
    assert(views(lines@) =~= before + part_lines(info.detected_part));
    assert(views(lines@) =~= views(old(lines)@) + target_lines(*info));
}

/// The report of a target query, one line per item; `voltage` is the target
/// voltage in volts, rendered with two decimals.
pub fn format_info_lines(info: &PkobnUpdiM4809Info, voltage: &str) -> (r: Vec<String>)
    ensures
        views(r@) == info_lines(*info, voltage@),
{
    let mut lines: Vec<String> = Vec::new();
    assert(views(lines@) =~= Seq::<Seq<char>>::empty());
    push_probe_lines(&mut lines, info);
    push_edbg_lines(&mut lines, info, voltage);
    push_target_lines(&mut lines, info);
    assert(views(lines@) =~= info_lines(*info, voltage@));
    lines
}

} // verus!
