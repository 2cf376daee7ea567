//! Renderings of memory read back from a target: raw binary, Intel HEX, a
//! list of hex words, and a hex table with addresses.
use vstd::prelude::*;

use crate::hexfmt::{hex2, hex_padded, push_hex2, push_hex_padded};
use crate::words::ReadWriteBitWidth;

verus! {

/// Output formats for memory read back from a target.
#[derive(PartialEq, Eq, Structural, Clone, Copy, Debug)]
pub enum OutputFormat {
    /// Intel Hex Format
    Ihex,
    /// Simple list of hexadecimal numbers
    SimpleHex,
    /// Hexadecimal numbers formatted into a table
    HexTable,
    /// The raw binary
    Binary,
}

/// Errors of the renderings.
#[derive(PartialEq, Eq, Structural, Clone, Copy, Debug)]
pub enum OutputError {
    /// Intel HEX only addresses 32 bits.
    HexAddressBeyond32Bit,
    /// The Intel HEX writer refused the records.
    IhexWriter,
}

#[verifier::external_type_specification]
#[verifier::external_body]
pub struct ExIhexWriterError(ihex::WriterError);

/// A record of an Intel HEX object file.
#[derive(Debug, Clone, PartialEq, Eq)]
pub enum HexRecord {
    /// Data at a 16-bit offset in the current segment.
    Data { offset: u16, value: Vec<u8> },
    /// Upper 16 bits of the addresses of the following data records.
    ExtendedLinearAddress(u16),
    /// End of file.
    EndOfFile,
}

/// Abstract view of a [`HexRecord`].
pub enum HexRecordSpec {
    Data { offset: u16, value: Seq<u8> },
    ExtendedLinearAddress(u16),
    EndOfFile,
}

impl View for HexRecord {
    type V = HexRecordSpec;

    open spec fn view(&self) -> HexRecordSpec {
        match self {
            HexRecord::Data { offset, value } => HexRecordSpec::Data { offset: *offset, value: value@ },
            HexRecord::ExtendedLinearAddress(a) => HexRecordSpec::ExtendedLinearAddress(*a),
            HexRecord::EndOfFile => HexRecordSpec::EndOfFile,
        }
    }
}

/// The views of a record list.
pub open spec fn records_view(rs: Seq<HexRecord>) -> Seq<HexRecordSpec> {
    rs.map_values(|r: HexRecord| r@)
}

/// An uppercase hexadecimal digit.
pub open spec fn upper_hex_digit(d: nat) -> char {
    if d < 10 {
        (48 + d) as char
    } else {
        (55 + d) as char
    }
}

/// The bytes as uppercase hexadecimal, two digits each, most significant digit first.
pub open spec fn upper_hex_bytes(bytes: Seq<u8>) -> Seq<char>
    decreases bytes.len(),
{
    if bytes.len() == 0 {
        Seq::empty()
    } else {
        seq![upper_hex_digit((bytes[0] / 16) as nat), upper_hex_digit((bytes[0] % 16) as nat)]
            + upper_hex_bytes(bytes.subrange(1, bytes.len() as int))
    }
}

/// The sum of the bytes.
pub open spec fn byte_sum(bytes: Seq<u8>) -> nat
    decreases bytes.len(),
{
    if bytes.len() == 0 {
        0
    } else {
        bytes[0] as nat + byte_sum(bytes.subrange(1, bytes.len() as int))
    }
}

/// The Intel HEX checksum: the two's complement of the byte sum, modulo 256.
pub open spec fn ihex_checksum(bytes: Seq<u8>) -> u8 {
    ((256 - byte_sum(bytes) % 256) % 256) as u8
}

/// The fields of a record before its checksum: data length, big-endian
/// address, record type, data.
pub open spec fn record_fields(record: HexRecordSpec) -> Seq<u8> {
    match record {
        HexRecordSpec::Data { offset, value } => seq![
            value.len() as u8,
            (offset / 256) as u8,
            (offset % 256) as u8,
            0u8,
        ] + value,
        HexRecordSpec::ExtendedLinearAddress(a) => seq![
            2u8,
            0u8,
            0u8,
            4u8,
            (a / 256) as u8,
            (a % 256) as u8,
        ],
        HexRecordSpec::EndOfFile => seq![0u8, 0u8, 0u8, 1u8],
    }
}

/// The text of one record: a colon, then its fields and their checksum in
/// uppercase hexadecimal.
pub open spec fn record_text(record: HexRecordSpec) -> Seq<char> {
    seq![':'] + upper_hex_bytes(record_fields(record).push(ihex_checksum(record_fields(record))))
}

/// The Intel HEX object file text of a record list: each record's text
/// followed by a newline.
pub open spec fn ihex_object_text(records: Seq<HexRecordSpec>) -> Seq<char>
    decreases records.len(),
{
    if records.len() == 0 {
        Seq::empty()
    } else {
        record_text(records[0]) + seq!['\n'] + ihex_object_text(
            records.subrange(1, records.len() as int),
        )
    }
}

/// The record list is one the Intel HEX writer accepts: it ends with the only
/// end-of-file record, and no data record holds more than 255 bytes.
pub open spec fn ihex_writable(records: Seq<HexRecordSpec>) -> bool {
    &&& records.len() >= 1
    &&& records.last() == HexRecordSpec::EndOfFile
    &&& forall|i: int| 0 <= i < records.len() - 1 ==> records[i] != HexRecordSpec::EndOfFile
    &&& forall|i: int|
        0 <= i < records.len() ==> (#[trigger] records[i] matches HexRecordSpec::Data { value, .. }
            ==> value.len() <= 255)
}

/// Writes the Intel HEX object file representation of `records`.
///
/// Calls `ihex::create_object_file_representation`. Its contract claims that
/// the text is `ihex_object_text` of the records (each record as `:`, then its
/// length, big-endian address, type, data and checksum in uppercase hex, then a
/// newline, as the crate's `format_record` writes it), and that a record list
/// ending in its only end-of-file record, with no data record over 255 bytes,
/// is accepted (the function's source checks exactly these, and writing into a
/// `String` cannot fail). Which error a refused list gets is left unsaid.
#[verifier::external_body]
fn ihex_object_file(records: &[HexRecord]) -> (r: Result<String, ihex::WriterError>)
    ensures
        ihex_writable(records_view(records@)) ==> r is Ok,
        r matches Ok(s) ==> s@ == ihex_object_text(records_view(records@)),
{
    let records: Vec<ihex::Record> = records.iter().map(|r| match r {
        HexRecord::Data { offset, value } => ihex::Record::Data { offset: *offset, value: value.clone() },
        HexRecord::ExtendedLinearAddress(a) => ihex::Record::ExtendedLinearAddress(*a),
        HexRecord::EndOfFile => ihex::Record::EndOfFile,
    }).collect();
    ihex::create_object_file_representation(&records)
}

// ---- Intel HEX records ----

pub open spec fn min3(a: int, b: int, c: int) -> int {
    if a <= b && a <= c {
        a
    } else if b <= c {
        b
    } else {
        c
    }
}

/// Length of the data record starting at `address` with `len` bytes left: at
/// most 255 bytes, and never across a 64 KiB boundary.
pub open spec fn ihex_chunk(address: nat, len: nat) -> nat {
    min3(len as int, 255, 0x10000 - address % 0x10000) as nat
}

/// The records for `data` placed at `address`, after a record list whose last
/// extended linear address was `last`: before each data record, an extended
/// linear address record when the upper 16 address bits change. `None` when an
/// address beyond 32 bits would be needed.
pub open spec fn ihex_data_records(address: nat, data: Seq<u8>, last: Option<u16>) -> Option<
    Seq<HexRecordSpec>,
>
    decreases data.len(),
{
    if data.len() == 0 {
        Some(Seq::empty())
    } else if address >= 0x1_0000_0000 {
        None
    } else {
        let msbs = (address / 0x10000) as u16;
        let chunk = ihex_chunk(address, data.len());
        let ela = if last == Some(msbs) {
            Seq::<HexRecordSpec>::empty()
        } else {
            seq![HexRecordSpec::ExtendedLinearAddress(msbs)]
        };
        let rec = HexRecordSpec::Data {
            offset: (address % 0x10000) as u16,
            value: data.subrange(0, chunk as int),
        };
        if chunk == 0 {
            None
        } else {
            match ihex_data_records(
                address + chunk,
                data.subrange(chunk as int, data.len() as int),
                Some(msbs),
            ) {
                Some(rest) => Some(ela + seq![rec] + rest),
                None => None,
            }
        }
    }
}

/// The complete record list for `data` at `address`.
pub open spec fn ihex_records_spec(address: nat, data: Seq<u8>) -> Option<Seq<HexRecordSpec>> {
    match ihex_data_records(address, data, None) {
        Some(rs) => Some(rs.push(HexRecordSpec::EndOfFile)),
        None => None,
    }
}

/// `p` followed by the records of `rest`, when there are any.
pub open spec fn prepend_records(p: Seq<HexRecordSpec>, rest: Option<Seq<HexRecordSpec>>) -> Option<
    Seq<HexRecordSpec>,
> {
    match rest {
        Some(r) => Some(p + r),
        None => None,
    }
}

/// The record list for `data` at `address`; an address beyond 32 bits is refused.
pub fn ihex_records(address: u64, data: &[u8]) -> (r: Result<Vec<HexRecord>, OutputError>)
    ensures
        match ihex_records_spec(address as nat, data@) {
            Some(rs) => r is Ok && records_view(r->Ok_0@) == rs,
            None => r == Err::<Vec<HexRecord>, OutputError>(OutputError::HexAddressBeyond32Bit),
        },
{
    let mut records: Vec<HexRecord> = Vec::new();
    let mut running_address: u64 = address;
    let mut last_address_msbs: Option<u16> = None;
    let mut pos: usize = 0;
    proof {
        assert(records_view(records@) =~= Seq::<HexRecordSpec>::empty());
        assert(data@.subrange(0, data@.len() as int) =~= data@);
        match ihex_data_records(address as nat, data@, None) {
            Some(rs) => {
                assert(Seq::<HexRecordSpec>::empty() + rs =~= rs);
            },
            None => {},
        }
    }
    while pos < data.len()
        invariant
            pos <= data@.len(),
            running_address == address + pos,
            ihex_data_records(address as nat, data@, None) == prepend_records(
                records_view(records@),
                ihex_data_records(
                    running_address as nat,
                    data@.subrange(pos as int, data@.len() as int),
                    last_address_msbs,
                ),
            ),
        decreases data@.len() - pos,
    {
        let ghost rem = data@.subrange(pos as int, data@.len() as int);
        let ghost before = records_view(records@);
        let ghost old_last = last_address_msbs;
        if running_address >= 0x1_0000_0000 {
            return Err(OutputError::HexAddressBeyond32Bit);
        }
        let address_msbs = (running_address / 0x10000) as u16;
        let ghost ela = if old_last == Some(address_msbs) {
            Seq::<HexRecordSpec>::empty()
        } else {
            seq![HexRecordSpec::ExtendedLinearAddress(address_msbs)]
        };
        if last_address_msbs != Some(address_msbs) {
            records.push(HexRecord::ExtendedLinearAddress(address_msbs));
            last_address_msbs = Some(address_msbs);
        }
        assert(records_view(records@) =~= before + ela);
        let bytes_until_boundary = 0x10000 - running_address % 0x10000;
        let remaining = data.len() - pos;
        let mut chunk_len: usize = if remaining < 255 {
            remaining
        } else {
            255
        };
        if (chunk_len as u64) > bytes_until_boundary {
            chunk_len = bytes_until_boundary as usize;
        }
        assert(chunk_len == ihex_chunk(running_address as nat, rem.len()));
        let value = crate::bytes::copy_range(data, pos, pos + chunk_len);
        let ghost rec = HexRecordSpec::Data {
            offset: (running_address % 0x10000) as u16,
            value: value@,
        };
        records.push(HexRecord::Data { offset: (running_address % 0x10000) as u16, value });
        proof {
            assert(records_view(records@) =~= before + ela + seq![rec]);
            let next_rem = data@.subrange((pos + chunk_len) as int, data@.len() as int);
            assert(rem.subrange(chunk_len as int, rem.len() as int) =~= next_rem);
            assert(rem.subrange(0, chunk_len as int) =~= value@);
            let next = ihex_data_records(
                (running_address + chunk_len) as nat,
                next_rem,
                Some(address_msbs),
            );
            assert(ihex_data_records(running_address as nat, rem, old_last) == match next {
                Some(rest) => Some(ela + seq![rec] + rest),
                None => None::<Seq<HexRecordSpec>>,
            });
            match next {
                Some(rest) => {
                    assert(before + (ela + seq![rec] + rest) =~= before + ela + seq![rec] + rest);
                },
                None => {},
            }
        }
        pos = pos + chunk_len;
        running_address = running_address + chunk_len as u64;
    }
    let ghost before = records_view(records@);
    assert(data@.subrange(pos as int, data@.len() as int) =~= Seq::<u8>::empty());
    records.push(HexRecord::EndOfFile);
    assert(records_view(records@) =~= before.push(HexRecordSpec::EndOfFile));
    Ok(records)
}

/// The data bytes of a record list, in record order.
pub open spec fn records_payload(rs: Seq<HexRecordSpec>) -> Seq<u8>
    decreases rs.len(),
{
    if rs.len() == 0 {
        Seq::empty()
    } else {
        (match rs[0] {
            HexRecordSpec::Data { value, .. } => value,
            _ => Seq::empty(),
        }) + records_payload(rs.subrange(1, rs.len() as int))
    }
}

/// The payload of a concatenation is the concatenation of the payloads.
proof fn lemma_records_payload_append(a: Seq<HexRecordSpec>, b: Seq<HexRecordSpec>)
    ensures
        records_payload(a + b) == records_payload(a) + records_payload(b),
    decreases a.len(),
{
    if a.len() == 0 {
        assert(a + b =~= b);
        assert(records_payload(a) + records_payload(b) =~= records_payload(b));
    } else {
        assert((a + b).subrange(1, (a + b).len() as int) =~= a.subrange(1, a.len() as int) + b);
        lemma_records_payload_append(a.subrange(1, a.len() as int), b);
        let h = match a[0] {
            HexRecordSpec::Data { value, .. } => value,
            _ => Seq::empty(),
        };
        assert(h + (records_payload(a.subrange(1, a.len() as int)) + records_payload(b)) =~= (h
            + records_payload(a.subrange(1, a.len() as int))) + records_payload(b));
    }
}

/// The records for `data` carry exactly `data`, in order; they hold no
/// end-of-file record; each data record holds 1 to 255 bytes and stays inside
/// one 64 KiB segment. The records exist exactly when `data` is empty or ends
/// at or below the 4 GiB boundary.
pub proof fn lemma_ihex_data_records(address: nat, data: Seq<u8>, last: Option<u16>)
    ensures
        ihex_data_records(address, data, last) is Some <==> (data.len() == 0 || address
            + data.len() <= 0x1_0000_0000),
        ihex_data_records(address, data, last) matches Some(rs) ==> {
            &&& records_payload(rs) == data
            &&& forall|i: int|
                0 <= i < rs.len() ==> #[trigger] rs[i] != HexRecordSpec::EndOfFile && (rs[i] matches HexRecordSpec::Data {
                    offset,
                    value,
                } ==> 1 <= value.len() <= 255 && offset + value.len() <= 0x10000)
        },
    decreases data.len(),
{
    if data.len() > 0 && address < 0x1_0000_0000 {
        let msbs = (address / 0x10000) as u16;
        let chunk = ihex_chunk(address, data.len());
        let rest_data = data.subrange(chunk as int, data.len() as int);
        assert(chunk >= 1);
        assert(address + chunk <= 0x1_0000_0000);
        lemma_ihex_data_records(address + chunk, rest_data, Some(msbs));
        let ela = if last == Some(msbs) {
            Seq::<HexRecordSpec>::empty()
        } else {
            seq![HexRecordSpec::ExtendedLinearAddress(msbs)]
        };
        let rec = HexRecordSpec::Data {
            offset: (address % 0x10000) as u16,
            value: data.subrange(0, chunk as int),
        };
        match ihex_data_records(address + chunk, rest_data, Some(msbs)) {
            Some(rest) => {
                let rs = ela + seq![rec] + rest;
                lemma_records_payload_append(ela + seq![rec], rest);
                lemma_records_payload_append(ela, seq![rec]);
                reveal_with_fuel(records_payload, 2);
                assert(records_payload(ela) =~= Seq::<u8>::empty());
                assert(records_payload(seq![rec]) =~= data.subrange(0, chunk as int));
                assert(data.subrange(0, chunk as int) + rest_data =~= data);
                assert(records_payload(ela + seq![rec]) =~= data.subrange(0, chunk as int));
                assert forall|i: int| 0 <= i < rs.len() implies #[trigger] rs[i]
                    != HexRecordSpec::EndOfFile && (rs[i] matches HexRecordSpec::Data {
                    offset,
                    value,
                } ==> 1 <= value.len() <= 255 && offset + value.len() <= 0x10000) by {
                    if i >= ela.len() + 1 {
                        assert(rs[i] == rest[i - ela.len() - 1]);
                    }
                }
            },
            None => {},
        }
    }
}

/// The complete record list is accepted by the Intel HEX writer.
proof fn lemma_ihex_records_writable(address: nat, data: Seq<u8>)
    requires
        ihex_records_spec(address, data) is Some,
    ensures
        ihex_writable(ihex_records_spec(address, data)->0),
{
    lemma_ihex_data_records(address, data, None);
    let rs = ihex_data_records(address, data, None)->0;
    let all = rs.push(HexRecordSpec::EndOfFile);
    assert forall|i: int| 0 <= i < all.len() - 1 implies all[i] != HexRecordSpec::EndOfFile by {
        assert(all[i] == rs[i]);
    }
    assert forall|i: int| 0 <= i < all.len() implies (#[trigger] all[i] matches HexRecordSpec::Data {
        value,
        ..
    } ==> value.len() <= 255) by {
        if i < rs.len() {
            assert(all[i] == rs[i]);
        }
    }
}

/// The Intel HEX text for `data` at `address`, as bytes.
pub fn write_ihex(address: u64, data: &[u8]) -> (r: Result<Vec<u8>, OutputError>)
    ensures
        match ihex_records_spec(address as nat, data@) {
            Some(rs) => r is Ok && r->Ok_0@ == vstd::utf8::encode_utf8(ihex_object_text(rs)),
            None => r == Err::<Vec<u8>, OutputError>(OutputError::HexAddressBeyond32Bit),
        },
{
    let records = ihex_records(address, data)?;
    proof {
        lemma_ihex_records_writable(address as nat, data@);
    }
    match ihex_object_file(records.as_slice()) {
        Ok(text) => Ok(text.as_str().as_bytes_vec()),
        Err(_) => Err(OutputError::IhexWriter),
    }
}

// ---- Hex words and hex tables ----

/// The bytes of `w` as hex digits, last byte first (the word's value when the
/// bytes are little-endian).
pub open spec fn rev_hex(w: Seq<u8>) -> Seq<u8>
    decreases w.len(),
{
    if w.len() == 0 {
        Seq::empty()
    } else {
        rev_hex(w.subrange(1, w.len() as int)) + hex2(w[0])
    }
}

/// The words of `data` (`k` bytes each, the last one possibly shorter) as hex,
/// separated by spaces.
pub open spec fn hex_words(data: Seq<u8>, k: nat) -> Seq<u8>
    decreases data.len(),
{
    if k == 0 || data.len() <= k {
        rev_hex(data)
    } else {
        rev_hex(data.subrange(0, k as int)) + seq![32u8] + hex_words(
            data.subrange(k as int, data.len() as int),
            k,
        )
    }
}

/// The simple-hex rendering: the words as hex, separated by spaces, then a newline.
pub open spec fn simple_hex(data: Seq<u8>, k: nat) -> Seq<u8> {
    hex_words(data, k) + seq![10u8]
}

/// Number of lines of `b` bytes that hold `n` bytes.
pub open spec fn line_count(n: nat, b: nat) -> nat
    decreases n,
{
    if n == 0 || b == 0 {
        0
    } else if n <= b {
        1
    } else {
        1 + line_count((n - b) as nat, b)
    }
}

/// The hex table: for each line of `bpl` bytes, its address as at least eight
/// hex digits, a colon and a space, then the line in simple-hex form.
pub open spec fn hex_table(address: nat, data: Seq<u8>, k: nat, bpl: nat) -> Seq<u8>
    decreases data.len(),
{
    if data.len() == 0 || bpl == 0 {
        Seq::empty()
    } else if data.len() <= bpl {
        hex_padded(address, 8) + seq![58u8, 32u8] + simple_hex(data, k)
    } else {
        hex_padded(address, 8) + seq![58u8, 32u8] + simple_hex(data.subrange(0, bpl as int), k)
            + hex_table(address + bpl, data.subrange(bpl as int, data.len() as int), k, bpl)
    }
}

/// Bytes per hex-table line for each width.
pub open spec fn spec_line_bytes(width: ReadWriteBitWidth) -> nat {
    match width {
        ReadWriteBitWidth::B8 => 8,
        ReadWriteBitWidth::B16 => 16,
        ReadWriteBitWidth::B32 => 32,
        ReadWriteBitWidth::B64 => 32,
    }
}

/// Line `j` of a table of `b`-byte lines: the address of its first byte,
/// `address + b * j`, as at least eight hex digits, a colon and a space, then
/// bytes `b * j` up to `b * (j + 1)` (or the end) as hex words and a newline.
pub open spec fn table_line(address: nat, data: Seq<u8>, k: nat, b: nat, j: nat) -> Seq<u8> {
    let start: int = (b * j) as int;
    let end: int = if data.len() < start + b {
        data.len() as int
    } else {
        start + b
    };
    hex_padded(address + b * j, 8) + seq![58u8, 32u8] + simple_hex(
        data.subrange(start, end),
        k,
    )
}

/// Lines `j` up to `m` of a table of `b`-byte lines, one after the other.
pub open spec fn table_lines(address: nat, data: Seq<u8>, k: nat, b: nat, j: nat, m: nat) -> Seq<u8>
    decreases m - j,
{
    if j >= m {
        Seq::empty()
    } else {
        table_line(address, data, k, b, j) + table_lines(address, data, k, b, j + 1, m)
    }
}

/// Dropping the first `b` bytes of the data and moving the address on by `b`
/// shifts the lines by one.
proof fn lemma_table_lines_shift(address: nat, data: Seq<u8>, k: nat, b: nat, j: nat, m: nat)
    requires
        b > 0,
        data.len() >= b,
        m == 0 || b * (m - 1) < data.len() - b,
    ensures
        table_lines(address + b, data.subrange(b as int, data.len() as int), k, b, j, m)
            == table_lines(address, data, k, b, j + 1, m + 1),
    decreases m - j,
{
    let rest = data.subrange(b as int, data.len() as int);
    if j < m {
        lemma_table_lines_shift(address, data, k, b, j + 1, m);
        assert(b * (j + 1) == b * j + b) by (nonlinear_arith);
        assert(b * j <= b * (m - 1)) by (nonlinear_arith)
            requires
                j < m,
                b > 0,
        ;
        let s1: int = (b * j) as int;
        let e1: int = if rest.len() < s1 + b {
            rest.len() as int
        } else {
            s1 + b
        };
        assert(rest.subrange(s1, e1) =~= data.subrange(s1 + b, e1 + b));
        assert(table_line(address + b, rest, k, b, j) == table_line(address, data, k, b, j + 1));
    }
}

/// A hex table of `b`-byte lines is its `ceil(n / b)` lines, line `j`
/// starting at address `address + b * j`.
proof fn lemma_hex_table_lines(address: nat, data: Seq<u8>, k: nat, b: nat)
    requires
        b > 0,
    ensures
        hex_table(address, data, k, b) == table_lines(
            address,
            data,
            k,
            b,
            0,
            ((data.len() + b - 1) / (b as int)) as nat,
        ),
    decreases data.len(),
{
    let n = data.len();
    if n == 0 {
        assert((b - 1) / (b as int) == 0) by (nonlinear_arith)
            requires
                b > 0,
        ;
    } else if n <= b {
        assert((n + b - 1) / (b as int) == 1) by (nonlinear_arith)
            requires
                b > 0,
                1 <= n <= b,
        ;
        assert(data.subrange(0, n as int) =~= data);
        assert(b * 0 == 0);
        assert(table_lines(address, data, k, b, 1, 1) == Seq::<u8>::empty());
    } else {
        let rest = data.subrange(b as int, n as int);
        lemma_hex_table_lines(address + b, rest, k, b);
        let m = ((rest.len() + b - 1) / (b as int)) as nat;
        let x = rest.len() + b - 1;
        vstd::arithmetic::div_mod::lemma_fundamental_div_mod(x, b as int);
        assert(m == 0 || b * (m - 1) < rest.len()) by (nonlinear_arith)
            requires
                m == x / (b as int),
                x == (b as int) * (x / (b as int)) + x % (b as int),
                0 <= x % (b as int) < b,
                x == rest.len() + b - 1,
                b > 0,
        ;
        assert((n + b - 1) / (b as int) == (rest.len() + b - 1) / (b as int) + 1) by (nonlinear_arith)
            requires
                b > 0,
                rest.len() == n - b,
                n > b,
        ;
        lemma_table_lines_shift(address, data, k, b, 0, m);
        assert(b * 0 == 0);
        assert(data.subrange(0, b as int) == data.subrange(0, b as int));
    }
}

/// Every hex table keeps its width's fixed line size: 8 bytes a line for
/// 8-bit words, 16 for 16-bit words, and 32 for 32-bit and 64-bit words. A
/// table of `n` bytes is `ceil(n / size)` lines, line `j` starting at
/// `address + size * j`.
pub proof fn lemma_hex_table_line_sizes(address: nat, data: Seq<u8>, width: ReadWriteBitWidth)
    ensures
        width == ReadWriteBitWidth::B8 ==> hex_table(address, data, 1, spec_line_bytes(width))
            == table_lines(address, data, 1, 8, 0, ((data.len() + 7) / 8) as nat),
        width == ReadWriteBitWidth::B16 ==> hex_table(address, data, 2, spec_line_bytes(width))
            == table_lines(address, data, 2, 16, 0, ((data.len() + 15) / 16) as nat),
        width == ReadWriteBitWidth::B32 ==> hex_table(address, data, 4, spec_line_bytes(width))
            == table_lines(address, data, 4, 32, 0, ((data.len() + 31) / 32) as nat),
        width == ReadWriteBitWidth::B64 ==> hex_table(address, data, 8, spec_line_bytes(width))
            == table_lines(address, data, 8, 32, 0, ((data.len() + 31) / 32) as nat),
{
    let k = width.spec_byte_width();
    lemma_hex_table_lines(address, data, k, spec_line_bytes(width));
}

/// Appends the bytes `data[from..to]` as hex, last byte first.
fn push_rev_hex(out: &mut Vec<u8>, data: &[u8], from: usize, to: usize)
    requires
        from <= to <= data@.len(),
    ensures
        final(out)@ == old(out)@ + rev_hex(data@.subrange(from as int, to as int)),
{
    let mut j = to;
    while j > from
        invariant
            from <= j <= to <= data@.len(),
            out@ == old(out)@ + rev_hex(data@.subrange(j as int, to as int)),
        decreases j - from,
    {
        let ghost before = out@;
        push_hex2(out, data[j - 1]);
        proof {
            let w = data@.subrange(j - 1, to as int);
            assert(w.subrange(1, w.len() as int) =~= data@.subrange(j as int, to as int));
            assert(out@ =~= old(out)@ + rev_hex(w));
        }
        j = j - 1;
    }
}

/// Appends the words of `data`, `k` bytes each, as space-separated hex.
pub fn push_hex_words(out: &mut Vec<u8>, data: &[u8], k: usize)
    requires
        k >= 1,
    ensures
        final(out)@ == old(out)@ + hex_words(data@, k as nat),
{
    let len = data.len();
    let mut pos: usize = 0;
    while pos < len
        invariant
            k >= 1,
            len == data@.len(),
            pos <= len,
            old(out)@ + hex_words(data@, k as nat) == out@ + (if pos == 0 {
                hex_words(data@, k as nat)
            } else if pos >= len {
                Seq::empty()
            } else {
                seq![32u8] + hex_words(data@.subrange(pos as int, len as int), k as nat)
            }),
        decreases len - pos,
    {
        let ghost rem = data@.subrange(pos as int, len as int);
        let ghost before = out@;
        proof {
            if pos == 0 {
                assert(rem =~= data@);
            }
        }
        if pos > 0 {
            out.push(32u8);
        }
        let end = if len - pos <= k {
            len
        } else {
            pos + k
        };
        push_rev_hex(out, data, pos, end);
        proof {
            if len - pos <= k {
                assert(data@.subrange(pos as int, end as int) =~= rem);
            } else {
                assert(rem.subrange(0, k as int) =~= data@.subrange(pos as int, end as int));
                assert(rem.subrange(k as int, rem.len() as int) =~= data@.subrange(
                    end as int,
                    len as int,
                ));
            }
        }
        pos = end;
    }
    proof {
        if len == 0 {
            assert(hex_words(data@, k as nat) =~= Seq::<u8>::empty());
        }
    }
    assert(out@ =~= old(out)@ + hex_words(data@, k as nat));
}

/// The simple-hex rendering of `data` at width `width`.
pub fn write_simple_hex(width: ReadWriteBitWidth, data: &[u8]) -> (r: Vec<u8>)
    ensures
        r@ == simple_hex(data@, width.spec_byte_width()),
{
    let mut out: Vec<u8> = Vec::new();
    push_hex_words(&mut out, data, width.byte_width());
    out.push(10u8);
    assert(out@ =~= simple_hex(data@, width.spec_byte_width()));
    out
}

/// The hex table of `data` starting at `address`, at width `width`. The
/// address of each line must fit in 64 bits, and so must the address after
/// the last line.
pub fn write_hex_table(address: u64, width: ReadWriteBitWidth, data: &[u8]) -> (r: Vec<u8>)
    requires
        address + spec_line_bytes(width) * line_count(data@.len(), spec_line_bytes(width))
            <= u64::MAX,
    ensures
        r@ == hex_table(address as nat, data@, width.spec_byte_width(), spec_line_bytes(width)),
{
    let bytes_in_line: usize = match width {
        ReadWriteBitWidth::B8 => 8,
        ReadWriteBitWidth::B16 => 16,
        ReadWriteBitWidth::B32 | ReadWriteBitWidth::B64 => 32,
    };
    let k = width.byte_width();
    let len = data.len();
    let ghost bpl = bytes_in_line as nat;
    let mut out: Vec<u8> = Vec::new();
    let mut pos: usize = 0;
    let mut line_address = address;
    assert(data@.subrange(0, len as int) =~= data@);
    while pos < len
        invariant
            len == data@.len(),
            pos <= len,
            bpl == spec_line_bytes(width),
            bytes_in_line == bpl,
            k == width.spec_byte_width(),
            k >= 1,
            line_address + bpl * line_count((len - pos) as nat, bpl) <= u64::MAX,
            hex_table(address as nat, data@, k as nat, bpl) == out@ + hex_table(
                line_address as nat,
                data@.subrange(pos as int, len as int),
                k as nat,
                bpl,
            ),
        decreases len - pos,
    {
        let ghost rem = data@.subrange(pos as int, len as int);
        let ghost before = out@;
        let end = if len - pos <= bytes_in_line {
            len
        } else {
            pos + bytes_in_line
        };
        push_hex_padded(&mut out, line_address, 8);
        out.push(58u8);
        out.push(32u8);
        let window = vstd::slice::slice_subrange(data, pos, end);
        push_hex_words(&mut out, window, k);
        out.push(10u8);
        proof {
            let n = (len - pos) as nat;
            if n <= bpl {
                assert(line_count(n, bpl) == 1);
                assert(window@ =~= rem);
                assert(data@.subrange(end as int, len as int) =~= Seq::<u8>::empty());
            } else {
                assert(line_count(n, bpl) == 1 + line_count((n - bpl) as nat, bpl));
                assert(bpl * line_count(n, bpl) == bpl + bpl * line_count((n - bpl) as nat, bpl))
                    by (nonlinear_arith)
                    requires
                        line_count(n, bpl) == 1 + line_count((n - bpl) as nat, bpl),
                ;
                assert(rem.subrange(0, bpl as int) =~= window@);
                assert(rem.subrange(bpl as int, rem.len() as int) =~= data@.subrange(
                    end as int,
                    len as int,
                ));
            }
            assert(bpl * line_count(n, bpl) >= bpl) by (nonlinear_arith)
                requires
                    line_count(n, bpl) >= 1,
            ;
            let line = hex_padded(line_address as nat, 8) + seq![58u8, 32u8] + simple_hex(
                window@,
                k as nat,
            );
            assert(out@ =~= before + line);
            if n > bpl {
                assert(hex_table(line_address as nat, rem, k as nat, bpl) =~= line + hex_table(
                    (line_address + bpl) as nat,
                    data@.subrange(end as int, len as int),
                    k as nat,
                    bpl,
                ));
            } else {
                assert(hex_table(line_address as nat, rem, k as nat, bpl) =~= line);
            }
        }
        line_address = line_address + bytes_in_line as u64;
        pos = end;
    }
    proof {
        assert(data@.subrange(pos as int, len as int) =~= Seq::<u8>::empty());
    }
    assert(out@ =~= hex_table(address as nat, data@, k as nat, bpl));
    out
}

/// The raw binary rendering: the bytes themselves.
pub fn write_binary(data: &[u8]) -> (r: Vec<u8>)
    ensures
        r@ == data@,
{
    let r = crate::bytes::copy_range(data, 0, data.len());
    assert(r@ =~= data@);
    r
}

impl OutputFormat {
    /// Renders `data`, read at `address` with word width `width`, in this format.
    pub fn write(self, address: u64, width: ReadWriteBitWidth, data: &[u8]) -> (r: Result<
        Vec<u8>,
        OutputError,
    >)
        requires
            self == OutputFormat::HexTable ==> address + spec_line_bytes(width) * line_count(
                data@.len(),
                spec_line_bytes(width),
            ) <= u64::MAX,
        ensures
            self == OutputFormat::Binary ==> r is Ok && r->Ok_0@ == data@,
            self == OutputFormat::SimpleHex ==> r is Ok && r->Ok_0@ == simple_hex(
                data@,
                width.spec_byte_width(),
            ),
            self == OutputFormat::HexTable ==> r is Ok && r->Ok_0@ == hex_table(
                address as nat,
                data@,
                width.spec_byte_width(),
                spec_line_bytes(width),
            ),
            self == OutputFormat::Ihex ==> match ihex_records_spec(address as nat, data@) {
                Some(rs) => r is Ok && r->Ok_0@ == vstd::utf8::encode_utf8(ihex_object_text(rs)),
                None => r == Err::<Vec<u8>, OutputError>(OutputError::HexAddressBeyond32Bit),
            },
    {
        match self {
            OutputFormat::Binary => Ok(write_binary(data)),
            OutputFormat::Ihex => write_ihex(address, data),
            OutputFormat::SimpleHex => Ok(write_simple_hex(width, data)),
            OutputFormat::HexTable => Ok(write_hex_table(address, width, data)),
        }
    }
}

} // verus!
