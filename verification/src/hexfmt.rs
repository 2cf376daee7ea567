//! ASCII renderings of numbers: lowercase hexadecimal with a minimum width,
//! and decimal.
use vstd::prelude::*;

verus! {

/// The lowercase ASCII hex digit of `d` (`d < 16`).
pub open spec fn hex_digit(d: nat) -> u8 {
    if d < 10 {
        (48 + d) as u8
    } else {
        (87 + d) as u8
    }
}

/// The lowercase hex digits of `n`, left-padded with zeros to at least `width` digits.
pub open spec fn hex_padded(n: nat, width: nat) -> Seq<u8>
    decreases n + width,
{
    if n < 16 && width <= 1 {
        seq![hex_digit(n)]
    } else {
        hex_padded(n / 16, if width > 0 {
            (width - 1) as nat
        } else {
            0
        }) + seq![hex_digit(n % 16)]
    }
}

/// A byte as two lowercase hex digits.
pub open spec fn hex2(b: u8) -> Seq<u8> {
    seq![hex_digit((b / 16) as nat), hex_digit((b % 16) as nat)]
}

/// The decimal digits of `n`.
pub open spec fn decimal(n: nat) -> Seq<u8>
    decreases n,
{
    if n < 10 {
        seq![(48 + n) as u8]
    } else {
        decimal(n / 10) + seq![(48 + n % 10) as u8]
    }
}

/// The ASCII hex digit of a value below 16.
pub fn hex_digit_byte(d: u8) -> (r: u8)
    requires
        d < 16,
    ensures
        r == hex_digit(d as nat),
{
    if d < 10 {
        48 + d
    } else {
        87 + d
    }
}

/// Appends the lowercase hex digits of `n`, zero-padded to at least `width` digits.
pub fn push_hex_padded(out: &mut Vec<u8>, n: u64, width: usize)
    ensures
        final(out)@ == old(out)@ + hex_padded(n as nat, width as nat),
    decreases n + width,
{
    if n < 16 && width <= 1 {
        out.push(hex_digit_byte(n as u8));
    } else {
        let w = if width > 0 {
            width - 1
        } else {
            0
        };
        push_hex_padded(out, n / 16, w);
        out.push(hex_digit_byte((n % 16) as u8));
        assert(final(out)@ =~= old(out)@ + hex_padded(n as nat, width as nat)) by {
            assert(hex_padded(n as nat, width as nat) == hex_padded((n / 16) as nat, w as nat) + seq![
                hex_digit((n % 16) as nat),
            ]);
        }
    }
}

/// Appends a byte as two lowercase hex digits.
pub fn push_hex2(out: &mut Vec<u8>, b: u8)
    ensures
        final(out)@ == old(out)@ + hex2(b),
{
    out.push(hex_digit_byte(b / 16));
    out.push(hex_digit_byte(b % 16));
    assert(final(out)@ =~= old(out)@ + hex2(b));
}

/// Appends the decimal digits of `n`.
pub fn push_decimal(out: &mut Vec<u8>, n: u64)
    ensures
        final(out)@ == old(out)@ + decimal(n as nat),
    decreases n,
{
    if n < 10 {
        out.push(48 + n as u8);
    } else {
        push_decimal(out, n / 10);
        out.push(48 + (n % 10) as u8);
        assert(final(out)@ =~= old(out)@ + decimal(n as nat));
    }
}

/// Every byte of a hex rendering is an ASCII character.
pub proof fn lemma_hex_padded_ascii(n: nat, width: nat)
    ensures
        forall|i: int| 0 <= i < hex_padded(n, width).len() ==> #[trigger] hex_padded(n, width)[i] < 128,
    decreases n + width,
{
    if !(n < 16 && width <= 1) {
        let w = if width > 0 {
            (width - 1) as nat
        } else {
            0
        };
        lemma_hex_padded_ascii(n / 16, w);
        let p = hex_padded(n / 16, w);
        let s = hex_padded(n, width);
        assert(s == p + seq![hex_digit(n % 16)]);
        assert forall|i: int| 0 <= i < s.len() implies #[trigger] s[i] < 128 by {
            if i < p.len() {
                assert(s[i] == p[i]);
            }
        }
    }
}

/// Every byte of a decimal rendering is an ASCII digit.
pub proof fn lemma_decimal_ascii(n: nat)
    ensures
        forall|i: int| 0 <= i < decimal(n).len() ==> #[trigger] decimal(n)[i] < 128,
    decreases n,
{
    if n >= 10 {
        lemma_decimal_ascii(n / 10);
        let p = decimal(n / 10);
        let s = decimal(n);
        assert forall|i: int| 0 <= i < s.len() implies #[trigger] s[i] < 128 by {
            if i < p.len() {
                assert(s[i] == p[i]);
            }
        }
    }
}

} // verus!
