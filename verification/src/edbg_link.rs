//! The EDBG vendor-command link that carries CMD3 messages over CMSIS-DAP
//! reports: fragmentation of outgoing messages, acknowledgements, reassembly of
//! incoming fragments, the command sequence number, the report frames, and the
//! session flags that decide what has to be torn down.
//!
//! The USB transfers themselves are made by the caller: the functions here take
//! what came back from the probe and say what to send next.
use vstd::prelude::*;

use crate::bytes::{
    be16_bytes, be16_value, copy_range, le16_bytes, le16_value, push_all, u16_from_be,
    u16_from_le, u16_to_be, u16_to_le,
};
use crate::edbg_avr::{
    Context, DapStatus, EdbgAvrError, ResponseDetails, CMD3_LEAVE_PROGMODE, CMD3_SIGN_OFF,
    RSP3_OK, RSP3_STATUS_MASK, SCOPE_AVR, SCOPE_GENERAL, TOKEN,
};

verus! {

/// Prefix of an outgoing EDBG vendor report (and of its acknowledgement).
pub const EDBG_VENDOR_AVR_CMD: u8 = 0x80;
/// Prefix of an EDBG vendor report that polls for (and carries) a response fragment.
pub const EDBG_VENDOR_AVR_RSP: u8 = 0x81;

/// How the CMSIS-DAP device frames its reports.
#[derive(PartialEq, Eq, Structural, Clone, Copy, Debug)]
pub enum DeviceFraming {
    /// HID device with fixed-size reports.
    V1 { report_size: usize },
    /// Bulk-endpoint device.
    V2 { max_packet_size: usize },
}

impl DeviceFraming {
    pub open spec fn spec_packet_size(self) -> int {
        match self {
            DeviceFraming::V1 { report_size } => report_size as int,
            DeviceFraming::V2 { max_packet_size } => max_packet_size as int,
        }
    }

    /// The size of one report: the HID report size, or the bulk packet size.
    pub fn packet_size(&self) -> (r: usize)
        ensures
            r == self.spec_packet_size(),
    {
        match self {
            DeviceFraming::V1 { report_size } => *report_size,
            DeviceFraming::V2 { max_packet_size } => *max_packet_size,
        }
    }
}

// ---- Outgoing fragmentation ----

/// Payload bytes that fit in the first fragment (after the 4-byte report
/// header and the 4-byte message header).
pub open spec fn first_capacity(ps: int) -> int {
    ps - 8
}

/// Payload bytes that fit in a continuation fragment.
pub open spec fn continuation_capacity(ps: int) -> int {
    ps - 4
}

pub open spec fn fragment_capacity(ps: int, i: int) -> int {
    if i == 0 {
        first_capacity(ps)
    } else {
        continuation_capacity(ps)
    }
}

/// `a / b` rounded up.
pub open spec fn ceil_div(a: int, b: int) -> int {
    a / b + if a % b != 0 {
        1int
    } else {
        0int
    }
}

/// Number of fragments a payload of `len` bytes is cut into.
pub open spec fn fragment_total(ps: int, len: int) -> int {
    if len <= first_capacity(ps) {
        1
    } else {
        1 + ceil_div(len - first_capacity(ps), continuation_capacity(ps))
    }
}

/// Offset in the payload where fragment `i` starts: each fragment takes as
/// many of the remaining bytes as fit.
pub open spec fn fragment_start(ps: int, len: int, i: nat) -> int
    decreases i,
{
    if i == 0 {
        0
    } else {
        let prev = fragment_start(ps, len, (i - 1) as nat);
        prev + min_int(len - prev, fragment_capacity(ps, i - 1))
    }
}

pub open spec fn min_int(a: int, b: int) -> int {
    if a <= b {
        a
    } else {
        b
    }
}

/// Number of payload bytes carried by fragment `i`.
pub open spec fn fragment_chunk(ps: int, len: int, i: nat) -> int {
    min_int(len - fragment_start(ps, len, i), fragment_capacity(ps, i as int))
}

/// Fragment number and fragment count, packed as the original firmware expects:
/// the number in the high nibble, the count in the low bits.
pub open spec fn fragment_info(number: u8, total: u8) -> u8 {
    (number << 4u8) | total
}

/// The report that carries fragment `i` of `payload`, sent with command
/// sequence number `seq`.
pub open spec fn send_packet(ps: int, seq: u16, payload: Seq<u8>, i: nat) -> Seq<u8> {
    let len = payload.len() as int;
    let start = fragment_start(ps, len, i);
    let chunk = fragment_chunk(ps, len, i);
    let frag_len = if i == 0 {
        chunk + 4
    } else {
        chunk
    };
    seq![EDBG_VENDOR_AVR_CMD, fragment_info((i + 1) as u8, fragment_total(ps, len) as u8)]
        + be16_bytes(frag_len as u16) + (if i == 0 {
        seq![TOKEN, 0u8] + le16_bytes(seq)
    } else {
        Seq::empty()
    }) + payload.subrange(start, start + chunk)
}

/// `ceil_div` is the usual rounded-up quotient `(a + b - 1) / b`.
proof fn lemma_ceil_div(a: int, b: int)
    requires
        a >= 0,
        b > 0,
    ensures
        ceil_div(a, b) == (a + b - 1) / b,
{
    vstd::arithmetic::div_mod::lemma_fundamental_div_mod(a, b);
    let q = a / b;
    let r = a % b;
    assert(b * q == q * b) by (nonlinear_arith);
    assert((q + 1) * b == q * b + b) by (nonlinear_arith);
    if r == 0 {
        vstd::arithmetic::div_mod::lemma_fundamental_div_mod_converse(a + b - 1, b, q, b - 1);
    } else {
        vstd::arithmetic::div_mod::lemma_fundamental_div_mod_converse(a + b - 1, b, q + 1, r - 1);
    }
}

/// Every report of a payload that is cut into at most 15 fragments starts with
/// the command prefix, then the fragment-info byte: the fragment's 1-based
/// number in the high nibble and the fragment count (one fragment when the
/// payload fits in the first report's `ps - 8` bytes, else one more per
/// `ps - 4` bytes of the rest, rounded up) in the low nibble. Then comes the
/// big-endian length of what follows the 4-byte report header, and the first
/// report carries the token, a zero byte and the little-endian sequence
/// number.
pub proof fn lemma_send_packet_header(ps: int, seq: u16, payload: Seq<u8>, i: nat)
    requires
        ps >= 8,
        (if payload.len() <= ps - 8 {
            payload.len() + 4int
        } else {
            ps - 4
        }) <= 0xffff,
        (if payload.len() <= ps - 8 {
            1int
        } else {
            1 + (payload.len() - (ps - 8) + (ps - 4) - 1) / (ps - 4)
        }) <= 15,
        i < (if payload.len() <= ps - 8 {
            1int
        } else {
            1 + (payload.len() - (ps - 8) + (ps - 4) - 1) / (ps - 4)
        }),
    ensures
        ({
            let n = if payload.len() <= ps - 8 {
                1int
            } else {
                1 + (payload.len() - (ps - 8) + (ps - 4) - 1) / (ps - 4)
            };
            let p = send_packet(ps, seq, payload, i);
            &&& fragment_total(ps, payload.len() as int) == n
            &&& p.len() >= 4
            &&& p[0] == 0x80
            &&& p[1] & 0x0f == n
            &&& p[1] >> 4u8 == i + 1
            &&& 256 * p[2] + p[3] == p.len() - 4
            &&& i == 0 ==> p.len() >= 8 && p[4] == 0x0e && p[5] == 0 && p[6] + 256 * p[7] == seq
        }),
{
    let len = payload.len() as int;
    let n = if len <= ps - 8 {
        1int
    } else {
        1 + (len - (ps - 8) + (ps - 4) - 1) / (ps - 4)
    };
    if len > ps - 8 {
        lemma_ceil_div(len - (ps - 8), ps - 4);
    }
    assert(fragment_total(ps, len) == n);
    lemma_fragments_cover_payload(ps, len);
    let start = fragment_start(ps, len, i);
    let chunk = fragment_chunk(ps, len, i);
    assert(0 <= start && start + chunk <= len);
    assert(chunk >= 0);
    assert(chunk <= fragment_capacity(ps, i as int));
    let frag_len = if i == 0 {
        chunk + 4
    } else {
        chunk
    };
    if i == 0 {
        assert(fragment_start(ps, len, 0) == 0);
        assert(chunk <= len);
        assert(frag_len <= 0xffff);
    } else {
        assert(n > 1);
        assert(frag_len <= ps - 4);
    }
    let num = (i + 1) as u8;
    let tot = n as u8;
    assert(num <= 15 && tot <= 15);
    let info = fragment_info(num, tot);
    assert(info & 0x0f == tot && info >> 4u8 == num) by (bit_vector)
        requires
            info == (num << 4u8) | tot,
            num <= 15,
            tot <= 15,
    ;
    let p = send_packet(ps, seq, payload, i);
    let f = frag_len as u16;
    assert(256 * ((f / 256) as u8) + ((f % 256) as u8) == f);
    assert(p[1] == info);
    assert(p[2] == (f / 256) as u8 && p[3] == (f % 256) as u8);
    if i == 0 {
        assert(p[4] == TOKEN && p[5] == 0 && p[6] == (seq % 256) as u8 && p[7] == (seq / 256) as u8);
    }
}

/// Why a payload of `len` bytes cannot be sent with packet size `ps`, if it cannot.
pub open spec fn send_plan_error(ps: int, len: int) -> Option<ResponseDetails> {
    if ps < 8 {
        Some(ResponseDetails::PacketSizeTooSmall(ps as usize))
    } else if fragment_total(ps, len) > 255 {
        Some(ResponseDetails::TooManyFragments(fragment_total(ps, len) as usize))
    } else if min_int(len, first_capacity(ps)) + 4 > 0xffff {
        Some(ResponseDetails::FragmentTooLarge((min_int(len, first_capacity(ps)) + 4) as usize))
    } else {
        None
    }
}

/// After fragment `i` (`i >= 1`), the payload has been consumed up to
/// `first + (i - 1) * continuation` bytes, or entirely.
proof fn lemma_fragment_start_closed(ps: int, len: int, i: nat)
    requires
        ps >= 8,
        len >= 0,
        i >= 1,
    ensures
        fragment_start(ps, len, i) == min_int(
            len,
            first_capacity(ps) + (i - 1) * continuation_capacity(ps),
        ),
    decreases i,
{
    let fc = first_capacity(ps);
    let cc = continuation_capacity(ps);
    if i == 1 {
        assert(fragment_start(ps, len, 0) == 0);
    } else {
        lemma_fragment_start_closed(ps, len, (i - 1) as nat);
        let prev = fragment_start(ps, len, (i - 1) as nat);
        let k = (i - 2) as int;
        assert(fc + (k + 1) * cc == fc + k * cc + cc) by (nonlinear_arith);
        assert(k * cc >= 0) by (nonlinear_arith)
            requires
                k >= 0,
                cc >= 0,
        ;
        assert(prev == min_int(len, fc + k * cc));
        assert(fragment_start(ps, len, i) == prev + min_int(len - prev, cc));
        assert((i - 1) as int == k + 1);
    }
}

/// Every fragment start lies within the payload.
proof fn lemma_fragment_start_bounded(ps: int, len: int, i: nat)
    requires
        ps >= 8,
        len >= 0,
    ensures
        0 <= fragment_start(ps, len, i) <= len,
    decreases i,
{
    if i > 0 {
        lemma_fragment_start_bounded(ps, len, (i - 1) as nat);
    }
}

/// The fragments of a payload, taken in order, carry all of it and nothing more:
/// the last one ends exactly at the end of the payload.
pub proof fn lemma_fragments_cover_payload(ps: int, len: int)
    requires
        ps >= 8,
        len >= 0,
    ensures
        fragment_total(ps, len) >= 1,
        fragment_start(ps, len, fragment_total(ps, len) as nat) == len,
        forall|i: nat|
            i < fragment_total(ps, len) ==> 0 <= #[trigger] fragment_start(ps, len, i)
                && fragment_start(ps, len, i) + fragment_chunk(ps, len, i) == fragment_start(
                ps,
                len,
                i + 1,
            ) <= len,
{
    let n = fragment_total(ps, len);
    let fc = first_capacity(ps);
    let cc = continuation_capacity(ps);
    if len > fc {
        let d = len - fc;
        let q = ceil_div(d, cc);
        vstd::arithmetic::div_mod::lemma_fundamental_div_mod(d, cc);
        assert(q >= 1) by {
            if d / cc == 0 {
                assert(d % cc == d);
            }
        }
        assert(q * cc >= d) by (nonlinear_arith)
            requires
                q == d / cc + (if d % cc != 0 {
                    1int
                } else {
                    0int
                }),
                d == cc * (d / cc) + d % cc,
                0 <= d % cc < cc,
                cc > 0,
        ;
        lemma_fragment_start_closed(ps, len, n as nat);
        assert(n - 1 == q);
        assert((n - 1) * cc == q * cc);
    } else {
        lemma_fragment_start_closed(ps, len, 1);
    }
    assert forall|i: nat| i < n implies 0 <= #[trigger] fragment_start(ps, len, i) && fragment_start(
        ps,
        len,
        i,
    ) + fragment_chunk(ps, len, i) == fragment_start(ps, len, i + 1) <= len by {
        lemma_fragment_start_bounded(ps, len, i);
        lemma_fragment_start_bounded(ps, len, i + 1);
    }
}

/// A fragment number that fits the fragment-info nibble packing.
fn fragment_info_byte(number: u8, total: u8) -> (r: u8)
    ensures
        r == fragment_info(number, total),
{
    (number << 4u8) | total
}

// ---- Link state ----

/// State of the EDBG AVR link: how the device frames reports, the sequence
/// number of the next command, and which session steps are in effect.
#[derive(Debug)]
pub struct EdbgAvrTransport {
    device: DeviceFraming,
    command_sequence: u16,
    prepared: bool,
    general_signed_on: bool,
    avr_signed_on: bool,
    programming_enabled: bool,
}

/// Abstract view of an [`EdbgAvrTransport`].
pub struct TransportView {
    pub device: DeviceFraming,
    /// Sequence number the next command is sent with, and its response must carry.
    pub command_sequence: u16,
    /// The CMSIS-DAP side has been connected.
    pub prepared: bool,
    /// The general CMD3 scope has been signed on.
    pub general_signed_on: bool,
    /// The AVR CMD3 scope has been signed on.
    pub avr_signed_on: bool,
    /// The target is in programming mode.
    pub programming_enabled: bool,
}

impl View for EdbgAvrTransport {
    type V = TransportView;

    closed spec fn view(&self) -> TransportView {
        TransportView {
            device: self.device,
            command_sequence: self.command_sequence,
            prepared: self.prepared,
            general_signed_on: self.general_signed_on,
            avr_signed_on: self.avr_signed_on,
            programming_enabled: self.programming_enabled,
        }
    }
}

/// The sequence number that follows `s`: sequence numbers count up and wrap
/// from `0xfffe` to `0`, so `0xffff` is never used.
pub open spec fn next_sequence(s: u16) -> u16 {
    if s == 0xfffe {
        0
    } else {
        (s + 1) as u16
    }
}

impl EdbgAvrTransport {
    #[verifier::type_invariant]
    closed spec fn inv(&self) -> bool {
        self.command_sequence != 0xffff
    }

    /// A fresh link: sequence number 0 and no session step in effect.
    pub fn new(device: DeviceFraming) -> (r: Self)
        ensures
            r@ == (TransportView {
                device,
                command_sequence: 0,
                prepared: false,
                general_signed_on: false,
                avr_signed_on: false,
                programming_enabled: false,
            }),
    {
        EdbgAvrTransport {
            device,
            command_sequence: 0,
            prepared: false,
            general_signed_on: false,
            avr_signed_on: false,
            programming_enabled: false,
        }
    }

    /// The sequence number the next command is sent with; it is never the
    /// reserved value `0xffff`.
    pub fn command_sequence(&self) -> (r: u16)
        ensures
            r == self@.command_sequence,
            r != 0xffff,
    {
        proof {
            use_type_invariant(self);
        }
        self.command_sequence
    }

    /// The report size of the device.
    pub fn packet_size(&self) -> (r: usize)
        ensures
            r == self@.device.spec_packet_size(),
    {
        self.device.packet_size()
    }

    /// The reports that carry `payload` to the probe, in the order they are sent,
    /// or the reason it cannot be sent with this device's report size.
    pub fn send_packets(&self, payload: &[u8]) -> (r: Result<Vec<Vec<u8>>, EdbgAvrError>)
        ensures
            match send_plan_error(self@.device.spec_packet_size(), payload@.len() as int) {
                Some(details) => r == Err::<Vec<Vec<u8>>, EdbgAvrError>(
                    EdbgAvrError::UnexpectedResponse { context: Context::EdbgSend, details },
                ),
                None => match r {
                    Ok(packets) => {
                        &&& packets@.len() == fragment_total(
                            self@.device.spec_packet_size(),
                            payload@.len() as int,
                        )
                        &&& forall|i: int|
                            0 <= i < packets@.len() ==> #[trigger] packets@[i]@ == send_packet(
                                self@.device.spec_packet_size(),
                                self@.command_sequence,
                                payload@,
                                i as nat,
                            ) && packets@[i]@.len() <= self@.device.spec_packet_size()
                    },
                    Err(_) => false,
                },
            },
    {
        let packet_size = self.device.packet_size();
        let ghost ps = packet_size as int;
        let ghost len = payload@.len() as int;
        if packet_size < 8 {
            return Err(
                EdbgAvrError::UnexpectedResponse {
                    context: Context::EdbgSend,
                    details: ResponseDetails::PacketSizeTooSmall(packet_size),
                },
            );
        }
        let first_capacity = packet_size - 8;
        let continuation_capacity = packet_size - 4;
        let nfragments: usize = if payload.len() <= first_capacity {
            1
        } else {
            let d = payload.len() - first_capacity;
            proof {
                let q = d as int / continuation_capacity as int;
                vstd::arithmetic::div_mod::lemma_fundamental_div_mod(
                    d as int,
                    continuation_capacity as int,
                );
                assert(q * 4 <= d) by (nonlinear_arith)
                    requires
                        d == continuation_capacity * q + d as int % continuation_capacity as int,
                        d as int % continuation_capacity as int >= 0,
                        continuation_capacity >= 4,
                        q >= 0,
                ;
            }
            1 + (d / continuation_capacity + if d % continuation_capacity != 0 {
                1usize
            } else {
                0usize
            })
        };
        assert(nfragments == fragment_total(ps, len));
        if nfragments > 255 {
            return Err(
                EdbgAvrError::UnexpectedResponse {
                    context: Context::EdbgSend,
                    details: ResponseDetails::TooManyFragments(nfragments),
                },
            );
        }
        let nfragments_u8 = nfragments as u8;
        proof {
            lemma_fragments_cover_payload(ps, len);
        }
        let mut packets: Vec<Vec<u8>> = Vec::new();
        let mut cursor: usize = 0;
        let mut i: usize = 0;
        while i < nfragments
            invariant
                ps == packet_size,
                ps == self@.device.spec_packet_size(),
                ps >= 8,
                len == payload@.len(),
                first_capacity == ps - 8,
                continuation_capacity == ps - 4,
                nfragments == fragment_total(ps, len),
                1 <= nfragments <= 255,
                nfragments_u8 == nfragments,
                i <= nfragments,
                cursor == fragment_start(ps, len, i as nat),
                packets@.len() == i,
                i > 0 && nfragments > 1 ==> continuation_capacity <= 0xffff,
                nfragments > 1 ==> len > first_capacity,
                i > 0 ==> send_plan_error(ps, len) is None,
                forall|i: nat|
                    i < fragment_total(ps, len) ==> 0 <= #[trigger] fragment_start(ps, len, i)
                        && fragment_start(ps, len, i) + fragment_chunk(ps, len, i)
                        == fragment_start(ps, len, i + 1) <= len,
                forall|j: int|
                    0 <= j < i ==> #[trigger] packets@[j]@ == send_packet(
                        ps,
                        self@.command_sequence,
                        payload@,
                        j as nat,
                    ) && packets@[j]@.len() <= ps,
            decreases nfragments - i,
        {
            let is_first = i == 0;
            let max_chunk = if is_first {
                first_capacity
            } else {
                continuation_capacity
            };
            let remaining = payload.len() - cursor;
            let chunk_len = if remaining < max_chunk {
                remaining
            } else {
                max_chunk
            };
            assert(chunk_len == fragment_chunk(ps, len, i as nat));
            assert(is_first ==> chunk_len == min_int(len, ps - 8));
            let fragment_len = if is_first {
                chunk_len + 4
            } else {
                chunk_len
            };
            if fragment_len > 0xffff {
                return Err(
                    EdbgAvrError::UnexpectedResponse {
                        context: Context::EdbgSend,
                        details: ResponseDetails::FragmentTooLarge(fragment_len),
                    },
                );
            }
            let mut packet: Vec<u8> = Vec::new();
            packet.push(EDBG_VENDOR_AVR_CMD);
            packet.push(fragment_info_byte((i + 1) as u8, nfragments_u8));
            let len_bytes = u16_to_be(fragment_len as u16);
            push_all(&mut packet, &len_bytes);
            if is_first {
                packet.push(TOKEN);
                packet.push(0);
                let seq_bytes = u16_to_le(self.command_sequence);
                push_all(&mut packet, &seq_bytes);
            }
            let chunk = slice_range(payload, cursor, cursor + chunk_len);
            push_all(&mut packet, chunk);
            assert(packet@ =~= send_packet(ps, self@.command_sequence, payload@, i as nat));
            packets.push(packet);
            cursor = cursor + chunk_len;
            i = i + 1;
        }
        Ok(packets)
    }
}

impl EdbgAvrTransport {
    /// Checks the acknowledgement of one sent report: it must carry the command
    /// prefix, and the acknowledgement of the last fragment must report completion.
    pub fn check_send_ack(&self, ack: &[u8], is_last: bool) -> (r: Result<(), EdbgAvrError>)
        ensures
            (ack@.len() == 0 || ack@[0] != EDBG_VENDOR_AVR_CMD) ==> match r {
                Err(
                    EdbgAvrError::UnexpectedResponse {
                        context: Context::EdbgSendAck,
                        details: ResponseDetails::UnexpectedAck(b),
                    },
                ) => b@ == ack@,
                _ => false,
            },
            (ack@.len() >= 1 && ack@[0] == EDBG_VENDOR_AVR_CMD && is_last && (ack@.len() < 2
                || ack@[1] != 0x01)) ==> match r {
                Err(
                    EdbgAvrError::UnexpectedResponse {
                        context: Context::EdbgSendAck,
                        details: ResponseDetails::LastFragmentCompletionMissing(b),
                    },
                ) => b@ == ack@,
                _ => false,
            },
            (ack@.len() >= 1 && ack@[0] == EDBG_VENDOR_AVR_CMD && !(is_last && (ack@.len() < 2
                || ack@[1] != 0x01))) ==> r is Ok,
    {
        if ack.len() == 0 || ack[0] != EDBG_VENDOR_AVR_CMD {
            return Err(
                EdbgAvrError::UnexpectedResponse {
                    context: Context::EdbgSendAck,
                    details: ResponseDetails::UnexpectedAck(whole(ack)),
                },
            );
        }
        if is_last && (ack.len() < 2 || ack[1] != 0x01) {
            return Err(
                EdbgAvrError::UnexpectedResponse {
                    context: Context::EdbgSendAck,
                    details: ResponseDetails::LastFragmentCompletionMissing(whole(ack)),
                },
            );
        }
        Ok(())
    }

    /// Takes a fully reassembled message. A message without token and sequence
    /// number is refused. A message for another sequence number is stale: it is
    /// dropped (`Ok(None)`) and the caller receives again. The message for the
    /// current sequence number yields its body (after token and sequence number)
    /// and advances the sequence number.
    pub fn accept_reply(&mut self, collected: &[u8]) -> (r: Result<Option<Vec<u8>>, EdbgAvrError>)
        ensures
            (collected@.len() < 4 || collected@[0] != TOKEN) ==> final(self)@ == old(self)@
                && match r {
                Err(
                    EdbgAvrError::UnexpectedResponse {
                        context: Context::EdbgReceive,
                        details: ResponseDetails::MalformedResponse(b),
                    },
                ) => b@ == collected@,
                _ => false,
            },
            (collected@.len() >= 4 && collected@[0] == TOKEN && le16_value(collected@[1], collected@[2])
                != old(self)@.command_sequence) ==> final(self)@ == old(self)@ && r == Ok::<
                Option<Vec<u8>>,
                EdbgAvrError,
            >(None),
            (collected@.len() >= 4 && collected@[0] == TOKEN && le16_value(collected@[1], collected@[2])
                == old(self)@.command_sequence) ==> final(self)@ == (TransportView {
                command_sequence: next_sequence(old(self)@.command_sequence),
                ..old(self)@
            }) && match r {
                Ok(Some(body)) => body@ == collected@.subrange(3, collected@.len() as int),
                _ => false,
            },
    {
        if collected.len() < 4 || collected[0] != TOKEN {
            return Err(
                EdbgAvrError::UnexpectedResponse {
                    context: Context::EdbgReceive,
                    details: ResponseDetails::MalformedResponse(whole(collected)),
                },
            );
        }
        let received_sequence = u16_from_le(collected[1], collected[2]);
        if received_sequence != self.command_sequence {
            return Ok(None);
        }
        proof {
            use_type_invariant(&*self);
        }
        self.command_sequence = if self.command_sequence == 0xfffe {
            0
        } else {
            self.command_sequence + 1
        };
        Ok(Some(copy_range(collected, 3, collected.len())))
    }

    /// The bytes written to the device for one report carrying `payload`: a zero
    /// report id, then the payload, zero-padded to a full report on HID (V1)
    /// devices and cut after the payload on bulk (V2) devices.
    pub fn transfer_frame(&self, payload: &[u8]) -> (r: Vec<u8>)
        requires
            payload@.len() <= self@.device.spec_packet_size() < usize::MAX,
        ensures
            r@.len() == match self@.device {
                DeviceFraming::V1 { report_size } => report_size + 1,
                DeviceFraming::V2 { .. } => payload@.len() as int + 1,
            },
            r@[0] == 0,
            r@.subrange(1, payload@.len() as int + 1) == payload@,
            forall|i: int| payload@.len() + 1 <= i < r@.len() ==> r@[i] == 0,
    {
        let packet_size = self.device.packet_size();
        let write_len = match self.device {
            DeviceFraming::V1 { .. } => packet_size + 1,
            DeviceFraming::V2 { .. } => payload.len() + 1,
        };
        let mut tx: Vec<u8> = Vec::new();
        tx.push(0);
        push_all(&mut tx, payload);
        while tx.len() < write_len
            invariant
                payload@.len() + 1 <= tx@.len() <= write_len,
                tx@[0] == 0,
                tx@.subrange(1, payload@.len() as int + 1) == payload@,
                forall|i: int| payload@.len() + 1 <= i < tx@.len() ==> tx@[i] == 0,
            decreases write_len - tx@.len(),
        {
            tx.push(0);
        }
        tx
    }

    /// Size of the buffer a response report is read into: one report plus the report id.
    pub fn receive_buffer_len(&self) -> (r: usize)
        requires
            self@.device.spec_packet_size() < usize::MAX,
        ensures
            r == self@.device.spec_packet_size() + 1,
    {
        self.device.packet_size() + 1
    }
}

/// Checks the status byte of a CMD3 response: a response shorter than two bytes
/// is refused, and a status outside the OK class fails the command with the
/// code at byte 3 (or 0 when the response has none). An accepted response is
/// handed back whole.
pub fn check_command_response(response: Vec<u8>, context: Context) -> (r: Result<
    Vec<u8>,
    EdbgAvrError,
>)
    ensures
        response@.len() < 2 ==> match r {
            Err(EdbgAvrError::UnexpectedResponse { context: c, details: ResponseDetails::ResponseTooShort(b) }) => c == context && b@ == response@,
            _ => false,
        },
        response@.len() >= 2 && response@[1] & RSP3_STATUS_MASK != RSP3_OK ==> r == Err::<Vec<u8>, EdbgAvrError>(
            EdbgAvrError::CommandFailed {
                context,
                code: if response@.len() > 3 {
                    response@[3]
                } else {
                    0
                },
            },
        ),
        response@.len() >= 2 && response@[1] & RSP3_STATUS_MASK == RSP3_OK ==> match r {
            Ok(v) => v@ == response@,
            Err(_) => false,
        },
{
    if response.len() < 2 {
        return Err(
            EdbgAvrError::UnexpectedResponse {
                context,
                details: ResponseDetails::ResponseTooShort(response),
            },
        );
    }
    if response[1] & RSP3_STATUS_MASK != RSP3_OK {
        let code = if response.len() > 3 {
            response[3]
        } else {
            0
        };
        return Err(EdbgAvrError::CommandFailed { context, code });
    }
    Ok(response)
}

// ---- Session steps and teardown ----

/// Answer of the probe to a CMSIS-DAP connect request.
#[derive(PartialEq, Eq, Structural, Clone, Copy, Debug)]
pub enum ConnectResponse {
    SuccessfulInitForSWD,
    SuccessfulInitForJTAG,
    InitFailed,
}

/// The connect step succeeds only when the probe entered SWD mode.
pub fn check_connect_response(response: ConnectResponse) -> (r: Result<(), EdbgAvrError>)
    ensures
        response == ConnectResponse::SuccessfulInitForSWD ==> r == Ok::<(), EdbgAvrError>(()),
        response != ConnectResponse::SuccessfulInitForSWD ==> r == Err::<(), EdbgAvrError>(
            EdbgAvrError::UnexpectedResponse {
                context: Context::CmsisDapConnect,
                details: ResponseDetails::ProbeNotInSwdMode,
            },
        ),
{
    match response {
        ConnectResponse::SuccessfulInitForSWD => Ok(()),
        ConnectResponse::SuccessfulInitForJTAG | ConnectResponse::InitFailed => Err(
            EdbgAvrError::UnexpectedResponse {
                context: Context::CmsisDapConnect,
                details: ResponseDetails::ProbeNotInSwdMode,
            },
        ),
    }
}

/// The disconnect step succeeds only when the probe reports `DapOk`.
pub fn check_disconnect_status(status: DapStatus) -> (r: Result<(), EdbgAvrError>)
    ensures
        status == DapStatus::DapOk ==> r == Ok::<(), EdbgAvrError>(()),
        status != DapStatus::DapOk ==> r == Err::<(), EdbgAvrError>(
            EdbgAvrError::UnexpectedResponse {
                context: Context::CmsisDapDisconnect,
                details: ResponseDetails::DisconnectStatus(status),
            },
        ),
{
    match status {
        DapStatus::DapOk => Ok(()),
        DapStatus::DapError => Err(
            EdbgAvrError::UnexpectedResponse {
                context: Context::CmsisDapDisconnect,
                details: ResponseDetails::DisconnectStatus(status),
            },
        ),
    }
}

/// A session step that has to be undone when the session ends.
#[derive(PartialEq, Eq, Structural, Clone, Copy, Debug)]
pub enum Teardown {
    /// Leave programming mode.
    LeaveProgmode,
    /// Sign off the AVR scope.
    AvrSignOff,
    /// Sign off the general scope.
    GeneralSignOff,
    /// Disconnect the CMSIS-DAP side.
    FinishPrepare,
}

/// The teardown steps owed by a link in state `v`, in the order they are made:
/// the reverse of the order in which the session steps are taken.
pub open spec fn teardown_plan(v: TransportView) -> Seq<Teardown> {
    (if v.programming_enabled {
        seq![Teardown::LeaveProgmode]
    } else {
        Seq::empty()
    }) + (if v.avr_signed_on {
        seq![Teardown::AvrSignOff]
    } else {
        Seq::empty()
    }) + (if v.general_signed_on {
        seq![Teardown::GeneralSignOff]
    } else {
        Seq::empty()
    }) + (if v.prepared {
        seq![Teardown::FinishPrepare]
    } else {
        Seq::empty()
    })
}

/// The position of a teardown step in the fixed undo order: programming mode
/// is left first, then the AVR scope signs off, then the general scope, and
/// the CMSIS-DAP side disconnects last.
pub open spec fn teardown_rank(step: Teardown) -> int {
    match step {
        Teardown::LeaveProgmode => 0,
        Teardown::AvrSignOff => 1,
        Teardown::GeneralSignOff => 2,
        Teardown::FinishPrepare => 3,
    }
}

/// The session step that `step` undoes is in effect in `v`.
pub open spec fn teardown_owed(v: TransportView, step: Teardown) -> bool {
    match step {
        Teardown::LeaveProgmode => v.programming_enabled,
        Teardown::AvrSignOff => v.avr_signed_on,
        Teardown::GeneralSignOff => v.general_signed_on,
        Teardown::FinishPrepare => v.prepared,
    }
}

/// In every link state, the teardown consists of exactly the steps that are
/// owed, each once, in the fixed undo order: leaving programming mode before
/// the AVR sign-off, the AVR sign-off before the general sign-off, and the
/// general sign-off before the disconnect.
pub proof fn lemma_teardown_order(v: TransportView)
    ensures
        forall|i: int, j: int|
            0 <= i < j < teardown_plan(v).len() ==> teardown_rank(#[trigger] teardown_plan(v)[i])
                < teardown_rank(#[trigger] teardown_plan(v)[j]),
        forall|step: Teardown| #[trigger] teardown_plan(v).contains(step) <==> teardown_owed(v, step),
{
    let p = teardown_plan(v);
    let a: Seq<Teardown> = if v.programming_enabled { seq![Teardown::LeaveProgmode] } else { Seq::empty() };
    let b: Seq<Teardown> = if v.avr_signed_on { seq![Teardown::AvrSignOff] } else { Seq::empty() };
    let c: Seq<Teardown> = if v.general_signed_on { seq![Teardown::GeneralSignOff] } else { Seq::empty() };
    let d: Seq<Teardown> = if v.prepared { seq![Teardown::FinishPrepare] } else { Seq::empty() };
    assert(p =~= a + b + c + d);
    let ab = a + b;
    let abc = a + b + c;
    assert forall|i: int| 0 <= i < p.len() implies teardown_rank(#[trigger] p[i]) == (if i < a.len() {
        0int
    } else if i < ab.len() {
        1int
    } else if i < abc.len() {
        2int
    } else {
        3int
    }) by {
        if i < a.len() {
            assert(p[i] == a[i]);
        } else if i < ab.len() {
            assert(p[i] == b[i - a.len()]);
        } else if i < abc.len() {
            assert(p[i] == c[i - ab.len()]);
        } else {
            assert(p[i] == d[i - abc.len()]);
        }
    }
    assert forall|i: int, j: int| 0 <= i < j < p.len() implies teardown_rank(#[trigger] p[i])
        < teardown_rank(#[trigger] p[j]) by {
        assert(a.len() <= 1 && b.len() <= 1 && c.len() <= 1 && d.len() <= 1);
    }
    assert forall|step: Teardown| #[trigger] p.contains(step) <==> teardown_owed(v, step) by {
        if teardown_owed(v, step) {
            let k: int = match step {
                Teardown::LeaveProgmode => 0,
                Teardown::AvrSignOff => a.len() as int,
                Teardown::GeneralSignOff => ab.len() as int,
                Teardown::FinishPrepare => abc.len() as int,
            };
            assert(p[k] == step);
        }
        if p.contains(step) {
            let k = choose|k: int| 0 <= k < p.len() && p[k] == step;
            if k < a.len() {
                assert(p[k] == a[k]);
            } else if k < ab.len() {
                assert(p[k] == b[k - a.len()]);
            } else if k < abc.len() {
                assert(p[k] == c[k - ab.len()]);
            } else {
                assert(p[k] == d[k - abc.len()]);
            }
        }
    }
}

/// The link state after teardown step `step` succeeded.
pub open spec fn after_teardown(v: TransportView, step: Teardown) -> TransportView {
    match step {
        Teardown::LeaveProgmode => TransportView { programming_enabled: false, ..v },
        Teardown::AvrSignOff => TransportView { avr_signed_on: false, ..v },
        Teardown::GeneralSignOff => TransportView { general_signed_on: false, ..v },
        Teardown::FinishPrepare => TransportView { prepared: false, ..v },
    }
}

/// The link state after every step of `steps` succeeded, in order.
pub open spec fn after_teardowns(v: TransportView, steps: Seq<Teardown>) -> TransportView
    decreases steps.len(),
{
    if steps.len() == 0 {
        v
    } else {
        after_teardowns(after_teardown(v, steps[0]), steps.subrange(1, steps.len() as int))
    }
}

/// When every teardown step owed by a link succeeds, no session step remains
/// in effect and the sequence number is untouched.
pub proof fn lemma_full_teardown_ends_session(v: TransportView)
    ensures
        !after_teardowns(v, teardown_plan(v)).prepared,
        !after_teardowns(v, teardown_plan(v)).general_signed_on,
        !after_teardowns(v, teardown_plan(v)).avr_signed_on,
        !after_teardowns(v, teardown_plan(v)).programming_enabled,
        after_teardowns(v, teardown_plan(v)).command_sequence == v.command_sequence,
{
    let p = teardown_plan(v);
    let a = if v.programming_enabled { seq![Teardown::LeaveProgmode] } else { Seq::empty() };
    let b = if v.avr_signed_on { seq![Teardown::AvrSignOff] } else { Seq::empty() };
    let c = if v.general_signed_on { seq![Teardown::GeneralSignOff] } else { Seq::empty() };
    let d = if v.prepared { seq![Teardown::FinishPrepare] } else { Seq::empty() };
    lemma_after_teardowns_append(v, a, b + c + d);
    let v1 = after_teardowns(v, a);
    lemma_after_teardowns_append(v1, b, c + d);
    let v2 = after_teardowns(v1, b);
    lemma_after_teardowns_append(v2, c, d);
    let v3 = after_teardowns(v2, c);
    assert(p =~= a + (b + c + d));
    assert(b + c + d =~= b + (c + d));
    reveal_with_fuel(after_teardowns, 2);
}

/// Running `s + t` is running `s`, then `t`.
proof fn lemma_after_teardowns_append(v: TransportView, s: Seq<Teardown>, t: Seq<Teardown>)
    ensures
        after_teardowns(v, s + t) == after_teardowns(after_teardowns(v, s), t),
    decreases s.len(),
{
    if s.len() > 0 {
        assert((s + t).subrange(1, (s + t).len() as int) =~= s.subrange(1, s.len() as int) + t);
        lemma_after_teardowns_append(after_teardown(v, s[0]), s.subrange(1, s.len() as int), t);
    } else {
        assert(s + t =~= t);
    }
}

impl Teardown {
    /// The CMD3 command that undoes this step, with its context; `None` for the
    /// CMSIS-DAP disconnect, which is not a CMD3 command.
    pub fn command(self) -> (r: Option<(Vec<u8>, Context)>)
        ensures
            match self {
                Teardown::LeaveProgmode => r matches Some((p, c)) && p@ == seq![
                    SCOPE_AVR,
                    CMD3_LEAVE_PROGMODE,
                    0u8,
                ] && c == Context::LeaveProgmode,
                Teardown::AvrSignOff => r matches Some((p, c)) && p@ == seq![
                    SCOPE_AVR,
                    CMD3_SIGN_OFF,
                    0u8,
                ] && c == Context::AvrSignOff,
                Teardown::GeneralSignOff => r matches Some((p, c)) && p@ == seq![
                    SCOPE_GENERAL,
                    CMD3_SIGN_OFF,
                    0u8,
                    0u8,
                ] && c == Context::GeneralSignOff,
                Teardown::FinishPrepare => r is None,
            },
    {
        match self {
            Teardown::LeaveProgmode => Some(
                (vec![SCOPE_AVR, CMD3_LEAVE_PROGMODE, 0], Context::LeaveProgmode),
            ),
            Teardown::AvrSignOff => Some((vec![SCOPE_AVR, CMD3_SIGN_OFF, 0], Context::AvrSignOff)),
            Teardown::GeneralSignOff => Some(
                (vec![SCOPE_GENERAL, CMD3_SIGN_OFF, 0, 0], Context::GeneralSignOff),
            ),
            Teardown::FinishPrepare => None,
        }
    }
}

/// Of the errors met while tearing down, the first one is reported.
pub fn keep_first_error(first: Option<EdbgAvrError>, outcome: Result<(), EdbgAvrError>) -> (r:
    Option<EdbgAvrError>)
    ensures
        r == match first {
            Some(e) => Some(e),
            None => match outcome {
                Ok(_) => None,
                Err(e) => Some(e),
            },
        },
{
    match first {
        Some(e) => Some(e),
        None => match outcome {
            Ok(_) => None,
            Err(e) => Some(e),
        },
    }
}

/// The result of a cleanup: the first error met, if any.
pub fn cleanup_outcome(first: Option<EdbgAvrError>) -> (r: Result<(), EdbgAvrError>)
    ensures
        r == match first {
            Some(e) => Err::<(), EdbgAvrError>(e),
            None => Ok(()),
        },
{
    match first {
        Some(e) => Err(e),
        None => Ok(()),
    }
}

impl EdbgAvrTransport {
    /// The teardown steps this link owes, in the order they are to be made.
    pub fn teardown_steps(&self) -> (r: Vec<Teardown>)
        ensures
            r@ == teardown_plan(self@),
    {
        let mut steps: Vec<Teardown> = Vec::new();
        if self.programming_enabled {
            steps.push(Teardown::LeaveProgmode);
        }
        if self.avr_signed_on {
            steps.push(Teardown::AvrSignOff);
        }
        if self.general_signed_on {
            steps.push(Teardown::GeneralSignOff);
        }
        if self.prepared {
            steps.push(Teardown::FinishPrepare);
        }
        assert(steps@ =~= teardown_plan(self@));
        steps
    }

    /// Records the outcome of teardown step `step`: the step is undone only when
    /// it succeeded. Returns the first error met so far.
    pub fn finish_teardown(
        &mut self,
        step: Teardown,
        outcome: Result<(), EdbgAvrError>,
        first: Option<EdbgAvrError>,
    ) -> (r: Option<EdbgAvrError>)
        ensures
            outcome is Ok ==> final(self)@ == after_teardown(old(self)@, step),
            outcome is Err ==> final(self)@ == old(self)@,
            r == match first {
                Some(e) => Some(e),
                None => match outcome {
                    Ok(_) => None,
                    Err(e) => Some(e),
                },
            },
    {
        proof {
            use_type_invariant(&*self);
        }
        if outcome.is_ok() {
            match step {
                Teardown::LeaveProgmode => self.programming_enabled = false,
                Teardown::AvrSignOff => self.avr_signed_on = false,
                Teardown::GeneralSignOff => self.general_signed_on = false,
                Teardown::FinishPrepare => self.prepared = false,
            }
        }
        keep_first_error(first, outcome)
    }

    /// The CMSIS-DAP side has been connected.
    pub fn mark_prepared(&mut self)
        ensures
            final(self)@ == (TransportView { prepared: true, ..old(self)@ }),
    {
        proof {
            use_type_invariant(&*self);
        }
        self.prepared = true;
    }

    /// The general scope has been signed on.
    pub fn mark_general_signed_on(&mut self)
        ensures
            final(self)@ == (TransportView { general_signed_on: true, ..old(self)@ }),
    {
        proof {
            use_type_invariant(&*self);
        }
        self.general_signed_on = true;
    }

    /// The AVR scope has been signed on.
    pub fn mark_avr_signed_on(&mut self)
        ensures
            final(self)@ == (TransportView { avr_signed_on: true, ..old(self)@ }),
    {
        proof {
            use_type_invariant(&*self);
        }
        self.avr_signed_on = true;
    }

    /// The target has entered programming mode.
    pub fn mark_programming_enabled(&mut self)
        ensures
            final(self)@ == (TransportView { programming_enabled: true, ..old(self)@ }),
    {
        proof {
            use_type_invariant(&*self);
        }
        self.programming_enabled = true;
    }
}

/// `s[from..to]` as a slice.
fn slice_range(s: &[u8], from: usize, to: usize) -> (r: &[u8])
    requires
        from <= to <= s@.len(),
    ensures
        r@ == s@.subrange(from as int, to as int),
{
    vstd::slice::slice_subrange(s, from, to)
}

// ---- Incoming fragments ----

/// A copy of a whole response, kept in an error report.
fn whole(response: &[u8]) -> (r: Vec<u8>)
    ensures
        r@ == response@,
{
    let r = copy_range(response, 0, response.len());
    assert(r@ =~= response@);
    r
}

/// Reassembly state of one incoming CMD3 message.
#[derive(Debug)]
pub struct ReceiveState {
    collected: Vec<u8>,
    fragment_count: Option<u8>,
    expected_fragment: u8,
}

/// Abstract view of a [`ReceiveState`].
pub struct ReceiveView {
    /// Message bytes gathered so far.
    pub collected: Seq<u8>,
    /// The fragment count announced by the first fragment, once one arrived.
    pub fragment_count: Option<u8>,
    /// The number the next fragment must carry.
    pub expected_fragment: u8,
}

impl View for ReceiveState {
    type V = ReceiveView;

    closed spec fn view(&self) -> ReceiveView {
        ReceiveView {
            collected: self.collected@,
            fragment_count: self.fragment_count,
            expected_fragment: self.expected_fragment,
        }
    }
}

/// Fragment count (low nibble) of a fragment-info byte.
pub open spec fn info_total(info: u8) -> u8 {
    info & 0x0f
}

/// Fragment number (high nibble) of a fragment-info byte.
pub open spec fn info_number(info: u8) -> u8 {
    (info >> 4u8) & 0x0f
}

/// Number of data bytes a response fragment carries: its claimed length,
/// clamped to what actually arrived.
pub open spec fn fragment_data_len(r: Seq<u8>) -> int {
    min_int(be16_value(r[2], r[3]) as int, r.len() - 4)
}

/// `r` would make the reassembly index past the end of the response: it has the
/// response prefix and a non-zero info byte, but is too short for the header
/// bytes that are read next.
pub open spec fn fragment_overruns(s: ReceiveView, r: Seq<u8>) -> bool {
    &&& r.len() >= 1
    &&& r[0] == EDBG_VENDOR_AVR_RSP
    &&& !(r.len() >= 2 && r[1] == 0)
    &&& (r.len() < 2 || (r.len() < 4 && (match s.fragment_count {
        Some(c) => c == info_total(r[1]),
        None => true,
    }) && info_number(r[1]) == s.expected_fragment))
}

/// Why a response fragment is refused.
#[derive(PartialEq, Eq, Structural, Clone, Copy, Debug)]
pub enum FragmentFault {
    /// The report does not start with the response prefix.
    UnexpectedPrefix,
    /// The probe has no response data yet.
    NoResponseData,
    /// The fragment announces another fragment count than the first one did.
    InconsistentFragmentCount,
    /// The fragment is not the next one in order.
    UnexpectedFragment { expected: u8, received: u8 },
}

/// The outcome of offering response `r` to reassembly state `s`:
/// the fault when the fragment is refused, otherwise whether it was the last one.
pub open spec fn fragment_outcome(s: ReceiveView, r: Seq<u8>) -> Result<bool, FragmentFault> {
    if r.len() == 0 || r[0] != EDBG_VENDOR_AVR_RSP {
        Err(FragmentFault::UnexpectedPrefix)
    } else if r.len() >= 2 && r[1] == 0 {
        Err(FragmentFault::NoResponseData)
    } else if s.fragment_count is Some && s.fragment_count->0 != info_total(r[1]) {
        Err(FragmentFault::InconsistentFragmentCount)
    } else if info_number(r[1]) != s.expected_fragment {
        Err(
            FragmentFault::UnexpectedFragment {
                expected: s.expected_fragment,
                received: info_number(r[1]),
            },
        )
    } else {
        Ok(info_number(r[1]) == info_total(r[1]))
    }
}

/// `e` is the receive error that reports `fault` for response `r`.
pub open spec fn is_receive_error(e: EdbgAvrError, fault: FragmentFault, r: Seq<u8>) -> bool {
    match e {
        EdbgAvrError::UnexpectedResponse { context, details } => context == Context::EdbgReceive
            && match (fault, details) {
            (FragmentFault::UnexpectedPrefix, ResponseDetails::UnexpectedPrefix(b)) => b@ == r,
            (
                FragmentFault::InconsistentFragmentCount,
                ResponseDetails::InconsistentFragmentCount(b),
            ) => b@ == r,
            (FragmentFault::NoResponseData, ResponseDetails::NoResponseData) => true,
            (
                FragmentFault::UnexpectedFragment { expected: e1, received: r1 },
                ResponseDetails::UnexpectedFragment { expected: e2, received: r2 },
            ) => e1 == e2 && r1 == r2,
            _ => false,
        },
        _ => false,
    }
}

impl ReceiveState {
    /// Reassembly state is well formed: fragment numbers are 4-bit, so the next
    /// expected number never passes 16.
    pub open spec fn wf_view(v: ReceiveView) -> bool {
        1 <= v.expected_fragment <= 16
    }

    /// A fresh reassembly: nothing collected, fragment 1 expected next.
    pub fn new() -> (r: Self)
        ensures
            r@.collected == Seq::<u8>::empty(),
            r@.fragment_count == None::<u8>,
            r@.expected_fragment == 1,
    {
        ReceiveState { collected: Vec::new(), fragment_count: None, expected_fragment: 1 }
    }

    /// The message bytes gathered so far.
    pub fn collected(&self) -> (r: &Vec<u8>)
        ensures
            r@ == self@.collected,
    {
        &self.collected
    }

    /// Exec form of [`fragment_overruns`], for callers that must fail the way
    /// the reassembly would on such a response.
    pub fn overruns(&self, response: &[u8]) -> (r: bool)
        ensures
            r == fragment_overruns(self@, response@),
    {
        if response.len() < 1 || response[0] != EDBG_VENDOR_AVR_RSP {
            return false;
        }
        if response.len() >= 2 && response[0] == EDBG_VENDOR_AVR_RSP && response[1] == 0 {
            return false;
        }
        if response.len() < 2 {
            return true;
        }
        if response.len() >= 4 {
            return false;
        }
        let info = response[1];
        let count_ok = match self.fragment_count {
            Some(c) => c == info & 0x0f,
            None => true,
        };
        count_ok && (info >> 4u8) & 0x0f == self.expected_fragment
    }

    /// Takes one response report of the receive loop. On success the fragment's
    /// data (its claimed length, clamped to what arrived) is appended to the
    /// collected bytes and the result says whether it was the last fragment.
    pub fn accept_fragment(&mut self, response: &[u8]) -> (r: Result<bool, EdbgAvrError>)
        requires
            Self::wf_view(old(self)@),
            !fragment_overruns(old(self)@, response@),
        ensures
            Self::wf_view(final(self)@),
            match fragment_outcome(old(self)@, response@) {
                Ok(complete) => r == Ok::<bool, EdbgAvrError>(complete) && final(self)@
                    == ReceiveView {
                    collected: old(self)@.collected + response@.subrange(
                        4,
                        4 + fragment_data_len(response@),
                    ),
                    fragment_count: Some(info_total(response@[1])),
                    expected_fragment: (old(self)@.expected_fragment + 1) as u8,
                },
                Err(fault) => final(self)@ == old(self)@ && match r {
                    Err(e) => is_receive_error(e, fault, response@),
                    Ok(_) => false,
                },
            },
    {
        if response.len() == 0 || response[0] != EDBG_VENDOR_AVR_RSP {
            return Err(
                EdbgAvrError::UnexpectedResponse {
                    context: Context::EdbgReceive,
                    details: ResponseDetails::UnexpectedPrefix(whole(response)),
                },
            );
        }
        if response.len() >= 2 && response[1] == 0 {
            return Err(
                EdbgAvrError::UnexpectedResponse {
                    context: Context::EdbgReceive,
                    details: ResponseDetails::NoResponseData,
                },
            );
        }
        let fragment_info = response[1];
        let total_fragments = fragment_info & 0x0f;
        let fragment_number = (fragment_info >> 4u8) & 0x0f;
        match self.fragment_count {
            Some(existing_count) => {
                if existing_count != total_fragments {
                    return Err(
                        EdbgAvrError::UnexpectedResponse {
                            context: Context::EdbgReceive,
                            details: ResponseDetails::InconsistentFragmentCount(whole(response)),
                        },
                    );
                }
            },
            None => {},
        }
        if fragment_number != self.expected_fragment {
            return Err(
                EdbgAvrError::UnexpectedResponse {
                    context: Context::EdbgReceive,
                    details: ResponseDetails::UnexpectedFragment {
                        expected: self.expected_fragment,
                        received: fragment_number,
                    },
                },
            );
        }
        assert(fragment_number <= 15) by (bit_vector)
            requires
                fragment_number == (fragment_info >> 4u8) & 0x0f,
        ;
        let claimed_len = u16_from_be(response[2], response[3]) as usize;
        let available_len = response.len() - 4;
        let fragment_len = if claimed_len < available_len {
            claimed_len
        } else {
            available_len
        };
        let data = copy_range(response, 4, 4 + fragment_len);
        push_all(&mut self.collected, data.as_slice());
        self.fragment_count = Some(total_fragments);
        self.expected_fragment = self.expected_fragment + 1;
        Ok(fragment_number == total_fragments)
    }
}

} // verus!
