//! Memory words and their little-endian byte images: the word widths a memory
//! request can use, the conversion of words to the bytes that are transferred
//! and back, and the range check of values written at a given width.
use vstd::prelude::*;

verus! {

/// The `n` least significant bytes of `v`, least significant first.
pub open spec fn le_bytes(v: nat, n: nat) -> Seq<u8>
    decreases n,
{
    if n == 0 {
        Seq::empty()
    } else {
        seq![(v % 256) as u8] + le_bytes(v / 256, (n - 1) as nat)
    }
}

/// The value of a little-endian byte sequence.
pub open spec fn le_value(b: Seq<u8>) -> nat
    decreases b.len(),
{
    if b.len() == 0 {
        0
    } else {
        b[0] as nat + 256 * le_value(b.subrange(1, b.len() as int))
    }
}

/// `256` to the power `n`: one more than the largest value `n` bytes hold.
pub open spec fn pow256(n: nat) -> nat
    decreases n,
{
    if n == 0 {
        1
    } else {
        256 * pow256((n - 1) as nat)
    }
}

/// The byte images of `vs`, `k` bytes each, one after the other.
pub open spec fn concat_le(vs: Seq<nat>, k: nat) -> Seq<u8>
    decreases vs.len(),
{
    if vs.len() == 0 {
        Seq::empty()
    } else {
        concat_le(vs.drop_last(), k) + le_bytes(vs.last(), k)
    }
}

/// The values of the consecutive `k`-byte chunks of `b`; a trailing partial
/// chunk is ignored.
pub open spec fn chunk_values(b: Seq<u8>, k: nat) -> Seq<nat>
    decreases b.len(),
{
    if k == 0 || b.len() < k {
        Seq::empty()
    } else {
        chunk_values(b.subrange(0, b.len() - k), k).push(
            le_value(b.subrange(b.len() - k, b.len() as int)),
        )
    }
}

/// An encoding has `k` bytes.
pub proof fn lemma_le_bytes_len(v: nat, k: nat)
    ensures
        le_bytes(v, k).len() == k,
    decreases k,
{
    if k > 0 {
        lemma_le_bytes_len(v / 256, (k - 1) as nat);
    }
}

/// Decoding the `k`-byte encoding of a value that fits in `k` bytes gives the value back.
pub proof fn lemma_le_roundtrip(v: nat, k: nat)
    requires
        v < pow256(k),
    ensures
        le_value(le_bytes(v, k)) == v,
    decreases k,
{
    if k > 0 {
        lemma_le_roundtrip(v / 256, (k - 1) as nat);
        lemma_le_bytes_len(v / 256, (k - 1) as nat);
        let b = le_bytes(v, k);
        assert(b.subrange(1, b.len() as int) =~= le_bytes(v / 256, (k - 1) as nat));
    }
}

/// The concatenated images of `n` values are `k * n` bytes long.
pub proof fn lemma_concat_le_len(vs: Seq<nat>, k: nat)
    ensures
        concat_le(vs, k).len() == k * vs.len(),
    decreases vs.len(),
{
    if vs.len() > 0 {
        lemma_concat_le_len(vs.drop_last(), k);
        lemma_le_bytes_len(vs.last(), k);
        assert(k * vs.len() == k * vs.drop_last().len() + k) by (nonlinear_arith)
            requires
                vs.len() == vs.drop_last().len() + 1,
        ;
    }
}

/// Reading words back from the bytes they were written as gives the words:
/// cutting the concatenated `k`-byte images of values that fit in `k` bytes
/// into `k`-byte chunks yields the values.
pub proof fn lemma_words_roundtrip(vs: Seq<nat>, k: nat)
    requires
        k > 0,
        forall|i: int| 0 <= i < vs.len() ==> #[trigger] vs[i] < pow256(k),
    ensures
        chunk_values(concat_le(vs, k), k) == vs,
    decreases vs.len(),
{
    if vs.len() > 0 {
        let b = concat_le(vs, k);
        let front = concat_le(vs.drop_last(), k);
        lemma_concat_le_len(vs, k);
        lemma_concat_le_len(vs.drop_last(), k);
        lemma_le_bytes_len(vs.last(), k);
        lemma_words_roundtrip(vs.drop_last(), k);
        lemma_le_roundtrip(vs.last(), k);
        assert(b.subrange(0, b.len() - k) =~= front);
        assert(b.subrange(b.len() - k, b.len() as int) =~= le_bytes(vs.last(), k));
        assert(chunk_values(b, k) =~= vs);
    } else {
        assert(chunk_values(concat_le(vs, k), k) =~= vs);
    }
}

/// Width of the words of a memory request.
#[derive(PartialEq, Eq, Structural, Clone, Copy, Debug)]
pub enum ReadWriteBitWidth {
    B8,
    B16,
    B32,
    B64,
}

impl ReadWriteBitWidth {
    pub open spec fn spec_byte_width(self) -> nat {
        match self {
            ReadWriteBitWidth::B8 => 1,
            ReadWriteBitWidth::B16 => 2,
            ReadWriteBitWidth::B32 => 4,
            ReadWriteBitWidth::B64 => 8,
        }
    }

    /// Bytes per word.
    pub fn byte_width(self) -> (r: usize)
        ensures
            r == self.spec_byte_width(),
    {
        match self {
            ReadWriteBitWidth::B8 => 1,
            ReadWriteBitWidth::B16 => 2,
            ReadWriteBitWidth::B32 => 4,
            ReadWriteBitWidth::B64 => 8,
        }
    }

    /// Bits per word.
    pub fn bits(self) -> (r: u8)
        ensures
            r == 8 * self.spec_byte_width(),
    {
        match self {
            ReadWriteBitWidth::B8 => 8,
            ReadWriteBitWidth::B16 => 16,
            ReadWriteBitWidth::B32 => 32,
            ReadWriteBitWidth::B64 => 64,
        }
    }
}

/// A value too large for the width it is to be written at.
#[derive(PartialEq, Eq, Structural, Clone, Copy, Debug)]
pub struct ValueOutOfRange {
    /// The first offending value.
    pub value: u64,
    /// The width of the write.
    pub width: ReadWriteBitWidth,
}

/// The values of a `u64` sequence as natural numbers.
pub open spec fn nats_u64(s: Seq<u64>) -> Seq<nat> {
    s.map_values(|v: u64| v as nat)
}

/// The values of a `u32` sequence as natural numbers.
pub open spec fn nats_u32(s: Seq<u32>) -> Seq<nat> {
    s.map_values(|v: u32| v as nat)
}

/// The values of a `u16` sequence as natural numbers.
pub open spec fn nats_u16(s: Seq<u16>) -> Seq<nat> {
    s.map_values(|v: u16| v as nat)
}

/// The values of a `u8` sequence as natural numbers.
pub open spec fn nats_u8(s: Seq<u8>) -> Seq<nat> {
    s.map_values(|v: u8| v as nat)
}

/// Checks that every value fits the write width; the first value that does
/// not is reported.
pub fn ensure_data_in_range(data: &[u64], width: ReadWriteBitWidth) -> (r: Result<
    (),
    ValueOutOfRange,
>)
    ensures
        r is Ok <==> forall|i: int| 0 <= i < data@.len() ==> data@[i] < pow256(
            width.spec_byte_width(),
        ),
        r matches Err(e) ==> e.width == width && exists|i: int|
            0 <= i < data@.len() && data@[i] == e.value && e.value >= pow256(
                width.spec_byte_width(),
            ) && forall|j: int| 0 <= j < i ==> data@[j] < pow256(width.spec_byte_width()),
{
    let max: u64 = match width {
        ReadWriteBitWidth::B8 => 0xff,
        ReadWriteBitWidth::B16 => 0xffff,
        ReadWriteBitWidth::B32 => 0xffff_ffff,
        ReadWriteBitWidth::B64 => 0xffff_ffff_ffff_ffff,
    };
    proof {
        reveal_with_fuel(pow256, 9);
    }
    assert(max + 1 == pow256(width.spec_byte_width()));
    let mut i: usize = 0;
    while i < data.len()
        invariant
            i <= data@.len(),
            max + 1 == pow256(width.spec_byte_width()),
            forall|j: int| 0 <= j < i ==> data@[j] < pow256(width.spec_byte_width()),
        decreases data@.len() - i,
    {
        if data[i] > max {
            return Err(ValueOutOfRange { value: data[i], width });
        }
        i = i + 1;
    }
    Ok(())
}

/// Appends the `k` least significant bytes of `v`, least significant first.
pub fn push_le(out: &mut Vec<u8>, v: u64, k: usize)
    ensures
        final(out)@ == old(out)@ + le_bytes(v as nat, k as nat),
{
    let mut x = v;
    let mut j: usize = 0;
    while j < k
        invariant
            j <= k,
            old(out)@ + le_bytes(v as nat, k as nat) == out@ + le_bytes(x as nat, (k - j) as nat),
        decreases k - j,
    {
        let ghost before = out@;
        out.push((x % 256) as u8);
        assert(before + le_bytes(x as nat, (k - j) as nat) =~= out@ + le_bytes(
            (x / 256) as nat,
            (k - j - 1) as nat,
        ));
        x = x / 256;
        j = j + 1;
    }
    assert(out@ + le_bytes(x as nat, 0) =~= out@);
}

/// The little-endian byte images of `values`, each cut to the write width.
pub fn values_to_le_bytes(width: ReadWriteBitWidth, values: &[u64]) -> (r: Vec<u8>)
    ensures
        r@ == concat_le(nats_u64(values@), width.spec_byte_width()),
{
    let k = width.byte_width();
    let mut out: Vec<u8> = Vec::new();
    let mut i: usize = 0;
    while i < values.len()
        invariant
            i <= values@.len(),
            k == width.spec_byte_width(),
            out@ == concat_le(nats_u64(values@.subrange(0, i as int)), k as nat),
        decreases values@.len() - i,
    {
        push_le(&mut out, values[i], k);
        proof {
            let s = nats_u64(values@.subrange(0, i + 1));
            assert(s.drop_last() =~= nats_u64(values@.subrange(0, i as int)));
        }
        i = i + 1;
    }
    assert(values@.subrange(0, values@.len() as int) =~= values@);
    out
}

/// The little-endian byte images of 16-bit words.
pub fn u16s_to_le_bytes(words: &[u16]) -> (r: Vec<u8>)
    ensures
        r@ == concat_le(nats_u16(words@), 2),
{
    let mut out: Vec<u8> = Vec::new();
    let mut i: usize = 0;
    while i < words.len()
        invariant
            i <= words@.len(),
            out@ == concat_le(nats_u16(words@.subrange(0, i as int)), 2),
        decreases words@.len() - i,
    {
        push_le(&mut out, words[i] as u64, 2);
        proof {
            let s = nats_u16(words@.subrange(0, i + 1));
            assert(s.drop_last() =~= nats_u16(words@.subrange(0, i as int)));
        }
        i = i + 1;
    }
    assert(words@.subrange(0, words@.len() as int) =~= words@);
    out
}

/// The little-endian byte images of 32-bit words.
pub fn u32s_to_le_bytes(words: &[u32]) -> (r: Vec<u8>)
    ensures
        r@ == concat_le(nats_u32(words@), 4),
{
    let mut out: Vec<u8> = Vec::new();
    let mut i: usize = 0;
    while i < words.len()
        invariant
            i <= words@.len(),
            out@ == concat_le(nats_u32(words@.subrange(0, i as int)), 4),
        decreases words@.len() - i,
    {
        push_le(&mut out, words[i] as u64, 4);
        proof {
            let s = nats_u32(words@.subrange(0, i + 1));
            assert(s.drop_last() =~= nats_u32(words@.subrange(0, i as int)));
        }
        i = i + 1;
    }
    assert(words@.subrange(0, words@.len() as int) =~= words@);
    out
}

/// The little-endian byte images of 64-bit words.
pub fn u64s_to_le_bytes(words: &[u64]) -> (r: Vec<u8>)
    ensures
        r@ == concat_le(nats_u64(words@), 8),
{
    values_to_le_bytes(ReadWriteBitWidth::B64, words)
}

/// The bytes of 8-bit words (the identity, stated in the same terms as the
/// wider widths).
pub fn u8s_to_le_bytes(words: &[u8]) -> (r: Vec<u8>)
    ensures
        r@ == concat_le(nats_u8(words@), 1),
{
    let mut out: Vec<u8> = Vec::new();
    let mut i: usize = 0;
    while i < words.len()
        invariant
            i <= words@.len(),
            out@ == concat_le(nats_u8(words@.subrange(0, i as int)), 1),
        decreases words@.len() - i,
    {
        push_le(&mut out, words[i] as u64, 1);
        proof {
            let s = nats_u8(words@.subrange(0, i + 1));
            assert(s.drop_last() =~= nats_u8(words@.subrange(0, i as int)));
        }
        i = i + 1;
    }
    assert(words@.subrange(0, words@.len() as int) =~= words@);
    out
}

/// Reads `k` little-endian bytes of `b` starting at `at`.
fn read_le(b: &[u8], at: usize, k: usize) -> (r: u64)
    requires
        k <= 8,
        at + k <= b@.len(),
    ensures
        r == le_value(b@.subrange(at as int, at + k)),
{
    let mut v: u64 = 0;
    let mut j: usize = k;
    proof {
        reveal_with_fuel(pow256, 9);
    }
    while j > 0
        invariant
            j <= k <= 8,
            at + k <= b.len(),
            v == le_value(b@.subrange(at + j, at + k)),
            v < pow256((k - j) as nat),
            pow256(8) == 18446744073709551616,
        decreases j,
    {
        proof {
            lemma_pow256_monotone((k - j) as nat, 7);
        }
        let ghost s = b@.subrange(at + j - 1, at + k);
        assert(s.subrange(1, s.len() as int) =~= b@.subrange(at + j, at + k));
        v = b[at + j - 1] as u64 + 256 * v;
        j = j - 1;
    }
    v
}

/// `pow256` grows with its exponent.
proof fn lemma_pow256_monotone(a: nat, b: nat)
    requires
        a <= b,
    ensures
        pow256(a) <= pow256(b),
        pow256(a) >= 1,
    decreases b,
{
    if b > a {
        lemma_pow256_monotone(a, (b - 1) as nat);
    } else if a > 0 {
        lemma_pow256_monotone((a - 1) as nat, (a - 1) as nat);
    }
}

/// The 16-bit words whose little-endian images `bytes` holds.
pub fn le_bytes_to_u16s(bytes: &[u8]) -> (r: Vec<u16>)
    requires
        bytes@.len() % 2 == 0,
    ensures
        nats_u16(r@) == chunk_values(bytes@, 2),
{
    let mut out: Vec<u16> = Vec::new();
    let mut i: usize = 0;
    proof {
        reveal_with_fuel(pow256, 3);
    }
    while bytes.len() - i >= 2
        invariant
            i <= bytes@.len(),
            i % 2 == 0,
            bytes@.len() % 2 == 0,
            nats_u16(out@) == chunk_values(bytes@.subrange(0, i as int), 2),
            pow256(2) == 65536,
        decreases bytes@.len() - i,
    {
        let w = read_le(bytes, i, 2);
        proof {
            lemma_le_value_bound(bytes@.subrange(i as int, i + 2));
        }
        out.push(w as u16);
        proof {
            let s = bytes@.subrange(0, i + 2);
            assert(s.subrange(0, s.len() - 2) =~= bytes@.subrange(0, i as int));
            assert(s.subrange(s.len() - 2, s.len() as int) =~= bytes@.subrange(i as int, i + 2));
            assert(nats_u16(out@) =~= chunk_values(bytes@.subrange(0, i as int), 2).push(w as nat));
        }
        i = i + 2;
    }
    assert(bytes@.subrange(0, i as int) =~= bytes@);
    out
}

/// The 32-bit words whose little-endian images `bytes` holds.
pub fn le_bytes_to_u32s(bytes: &[u8]) -> (r: Vec<u32>)
    requires
        bytes@.len() % 4 == 0,
    ensures
        nats_u32(r@) == chunk_values(bytes@, 4),
{
    let mut out: Vec<u32> = Vec::new();
    let mut i: usize = 0;
    proof {
        reveal_with_fuel(pow256, 5);
    }
    while bytes.len() - i >= 4
        invariant
            i <= bytes@.len(),
            i % 4 == 0,
            bytes@.len() % 4 == 0,
            nats_u32(out@) == chunk_values(bytes@.subrange(0, i as int), 4),
            pow256(4) == 4294967296,
        decreases bytes@.len() - i,
    {
        let w = read_le(bytes, i, 4);
        proof {
            lemma_le_value_bound(bytes@.subrange(i as int, i + 4));
        }
        out.push(w as u32);
        proof {
            let s = bytes@.subrange(0, i + 4);
            assert(s.subrange(0, s.len() - 4) =~= bytes@.subrange(0, i as int));
            assert(s.subrange(s.len() - 4, s.len() as int) =~= bytes@.subrange(i as int, i + 4));
            assert(nats_u32(out@) =~= chunk_values(bytes@.subrange(0, i as int), 4).push(w as nat));
        }
        i = i + 4;
    }
    assert(bytes@.subrange(0, i as int) =~= bytes@);
    out
}

/// The 64-bit words whose little-endian images `bytes` holds.
pub fn le_bytes_to_u64s(bytes: &[u8]) -> (r: Vec<u64>)
    requires
        bytes@.len() % 8 == 0,
    ensures
        nats_u64(r@) == chunk_values(bytes@, 8),
{
    let mut out: Vec<u64> = Vec::new();
    let mut i: usize = 0;
    while bytes.len() - i >= 8
        invariant
            i <= bytes@.len(),
            i % 8 == 0,
            bytes@.len() % 8 == 0,
            nats_u64(out@) == chunk_values(bytes@.subrange(0, i as int), 8),
        decreases bytes@.len() - i,
    {
        let w = read_le(bytes, i, 8);
        out.push(w);
        proof {
            let s = bytes@.subrange(0, i + 8);
            assert(s.subrange(0, s.len() - 8) =~= bytes@.subrange(0, i as int));
            assert(s.subrange(s.len() - 8, s.len() as int) =~= bytes@.subrange(i as int, i + 8));
            assert(nats_u64(out@) =~= chunk_values(bytes@.subrange(0, i as int), 8).push(w as nat));
        }
        i = i + 8;
    }
    assert(bytes@.subrange(0, i as int) =~= bytes@);
    out
}

/// A little-endian value of `n` bytes is below `256^n`.
pub proof fn lemma_le_value_bound(b: Seq<u8>)
    ensures
        le_value(b) < pow256(b.len()),
    decreases b.len(),
{
    if b.len() > 0 {
        lemma_le_value_bound(b.subrange(1, b.len() as int));
    }
}

/// Number of bytes a read of `words` words of width `width` transfers, if it
/// fits in `usize`.
pub fn checked_byte_len(words: usize, width: ReadWriteBitWidth) -> (r: Option<usize>)
    ensures
        r == (if words * width.spec_byte_width() <= usize::MAX {
            Some((words * width.spec_byte_width()) as usize)
        } else {
            None::<usize>
        }),
{
    words.checked_mul(width.byte_width())
}

/// Values that pass the range check of a write width survive their
/// encoding: the bytes written, cut back into words of that width, are the values.
pub proof fn lemma_checked_values_survive_encoding(values: Seq<u64>, width: ReadWriteBitWidth)
    requires
        forall|i: int| 0 <= i < values.len() ==> values[i] < pow256(width.spec_byte_width()),
    ensures
        chunk_values(concat_le(nats_u64(values), width.spec_byte_width()), width.spec_byte_width())
            == nats_u64(values),
{
    lemma_words_roundtrip(nats_u64(values), width.spec_byte_width());
}

} // verus!
