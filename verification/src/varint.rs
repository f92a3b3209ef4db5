//! Unsigned LEB128 variable-length integers.
//!
//! Every length prefix of the protocol (handshakes and notification frames
//! alike) is an unsigned LEB128 integer: little-endian groups of seven bits,
//! the high bit of each byte marking that another byte follows. A `u64`
//! value occupies at most ten bytes; a prefix that does not terminate within
//! ten bytes, or that encodes a value above `u64::MAX`, is malformed.

use vstd::prelude::*;
use vstd::arithmetic::div_mod::lemma_fundamental_div_mod;

verus! {

/// Largest number of bytes a length prefix may occupy.
pub const MAX_VARINT_LEN: usize = 10;

/// Outcome of reading a length prefix from the front of a byte sequence.
pub enum VarintParse {
    /// The bytes run out before the final digit: wait for more input.
    NeedMore,
    /// No final digit within ten bytes, a value above `u64::MAX`, or an
    /// encoding that wastes a trailing zero byte (a non-minimal encoding).
    Malformed,
    /// A value, and how many bytes of the sequence it occupied.
    Value { value: nat, length: nat },
}

/// The canonical LEB128 encoding of `n`.
pub open spec fn varint_encoding(n: nat) -> Seq<u8>
    decreases n,
{
    if n < 128 {
        seq![n as u8]
    } else {
        seq![(128 + n % 128) as u8] + varint_encoding(n / 128)
    }
}

/// How many bytes the canonical encoding of `n` occupies.
pub open spec fn varint_len(n: nat) -> nat
    decreases n,
{
    if n < 128 {
        1
    } else {
        1 + varint_len(n / 128)
    }
}

/// `128^i`: the weight of the `i`-th seven-bit digit.
pub open spec fn pow128(i: int) -> nat
    decreases i,
{
    if i <= 0 {
        1
    } else {
        128 * pow128(i - 1)
    }
}

/// Reading a prefix, resumed at byte `i` with the digits before `i` already
/// accumulated into `acc`, the next digit weighing `mult`.
pub open spec fn parse_varint_from(s: Seq<u8>, i: int, acc: nat, mult: nat) -> VarintParse
    decreases 10 - i,
{
    if i >= 10 {
        VarintParse::Malformed
    } else if i >= s.len() {
        VarintParse::NeedMore
    } else {
        let digit = (s[i] % 128) as nat;
        if s[i] < 128 {
            if i > 0 && s[i] == 0 {
                VarintParse::Malformed
            } else if acc + digit * mult < 0x1_0000_0000_0000_0000 {
                VarintParse::Value { value: acc + digit * mult, length: (i + 1) as nat }
            } else {
                VarintParse::Malformed
            }
        } else {
            parse_varint_from(s, i + 1, acc + digit * mult, mult * 128)
        }
    }
}

/// What reading a length prefix from the front of `s` yields.
pub open spec fn parse_varint(s: Seq<u8>) -> VarintParse {
    parse_varint_from(s, 0, 0, 1)
}

/// The encoding is as long as `varint_len` says.
pub proof fn lemma_varint_encoding_len(n: nat)
    ensures
        varint_encoding(n).len() == varint_len(n),
    decreases n,
{
    if n >= 128 {
        lemma_varint_encoding_len(n / 128);
    }
}

/// The low powers of 128, written out.
proof fn lemma_pow128_values()
    ensures
        pow128(8) == 0x100_0000_0000_0000,
        pow128(9) == 0x8000_0000_0000_0000,
        pow128(10) == 0x40_0000_0000_0000_0000,
{
    assert(pow128(0) == 1);
    assert(pow128(1) == 128);
    assert(pow128(2) == 0x4000);
    assert(pow128(3) == 0x20_0000);
    assert(pow128(4) == 0x1000_0000);
    assert(pow128(5) == 0x8_0000_0000);
    assert(pow128(6) == 0x400_0000_0000);
    assert(pow128(7) == 0x2_0000_0000_0000);
    assert(pow128(8) == 0x100_0000_0000_0000);
    assert(pow128(9) == 0x8000_0000_0000_0000);
    assert(pow128(10) == 0x40_0000_0000_0000_0000);
}

/// `pow128` never falls below one.
proof fn lemma_pow128_pos(i: int)
    requires
        0 <= i,
    ensures
        pow128(i) >= 1,
    decreases i,
{
    if i > 0 {
        lemma_pow128_pos(i - 1);
    }
}

/// `pow128` grows with its argument.
proof fn lemma_pow128_le(i: int, j: int)
    requires
        0 <= i <= j,
    ensures
        pow128(i) <= pow128(j),
    decreases j,
{
    if i < j {
        lemma_pow128_le(i, j - 1);
        lemma_pow128_pos(j - 1);
    }
}

/// Values below `128^k` encode in at most `k` bytes.
proof fn lemma_varint_len_bound(n: nat, k: int)
    requires
        k >= 1,
        n < pow128(k),
    ensures
        varint_len(n) <= k,
    decreases k,
{
    if n >= 128 {
        assert(pow128(k) == 128 * pow128(k - 1));
        assert(n / 128 < pow128(k - 1)) by {
            lemma_fundamental_div_mod(n as int, 128);
        }
        lemma_varint_len_bound(n / 128, k - 1);
    }
}

/// A `u64` value encodes in at most ten bytes.
pub proof fn lemma_varint_len_le_10(n: nat)
    requires
        n < 0x1_0000_0000_0000_0000,
    ensures
        varint_len(n) <= 10,
{
    lemma_pow128_values();
    lemma_varint_len_bound(n, 10);
}

/// Resumable reading inverts the encoding, wherever it stands in the input.
proof fn lemma_parse_encoding_from(n: nat, s: Seq<u8>, i: int, acc: nat, mult: nat)
    requires
        0 <= i,
        i > 0 ==> n >= 1,
        mult == pow128(i),
        i + varint_len(n) <= 10,
        i + varint_len(n) <= s.len(),
        forall|j: int|
            0 <= j < varint_len(n) ==> s[i + j] == #[trigger] varint_encoding(n)[j],
        acc < mult,
        acc + n * mult < 0x1_0000_0000_0000_0000,
    ensures
        parse_varint_from(s, i, acc, mult) == (VarintParse::Value {
            value: acc + n * mult,
            length: (i + varint_len(n)) as nat,
        }),
    decreases n,
{
    lemma_varint_encoding_len(n);
    assert(s[i + 0] == varint_encoding(n)[0]);
    if n < 128 {
        assert(varint_encoding(n)[0] == n as u8);
        assert((s[i] % 128) as nat == n);
        assert(!(i > 0 && s[i] == 0));
    } else {
        let b: u8 = (128 + n % 128) as u8;
        assert(varint_encoding(n)[0] == b);
        assert(s[i] == b && b >= 128);
        let digit: nat = (n % 128) as nat;
        assert((s[i] % 128) as nat == digit);
        let acc2: nat = acc + digit * mult;
        let mult2: nat = mult * 128;
        let n2: nat = n / 128;
        lemma_fundamental_div_mod(n as int, 128);
        assert(n == 128 * n2 + digit);
        assert(acc2 + n2 * mult2 == acc + n * mult) by (nonlinear_arith)
            requires
                n == 128 * n2 + digit,
                acc2 == acc + digit * mult,
                mult2 == mult * 128,
        ;
        assert(acc2 < mult2) by (nonlinear_arith)
            requires
                acc < mult,
                digit < 128,
                acc2 == acc + digit * mult,
                mult2 == mult * 128,
        ;
        assert(mult2 == pow128(i + 1));
        lemma_varint_encoding_len(n2);
        assert forall|j: int| 0 <= j < varint_len(n2) implies s[(i + 1) + j]
            == #[trigger] varint_encoding(n2)[j] by {
            assert(varint_encoding(n) == seq![b] + varint_encoding(n2));
            assert(varint_encoding(n)[j + 1] == varint_encoding(n2)[j]);
            assert(s[i + (j + 1)] == varint_encoding(n)[j + 1]);
        }
        lemma_parse_encoding_from(n2, s, i + 1, acc2, mult2);
        assert(i + varint_len(n) == (i + 1) + varint_len(n2));
    }
}

/// Round trip: reading an encoded value back, with anything following it,
/// yields exactly that value and consumes exactly its encoding.
pub proof fn lemma_varint_roundtrip(n: u64, rest: Seq<u8>)
    ensures
        parse_varint(varint_encoding(n as nat) + rest) == (VarintParse::Value {
            value: n as nat,
            length: varint_len(n as nat),
        }),
{
    let s = varint_encoding(n as nat) + rest;
    lemma_varint_len_le_10(n as nat);
    lemma_varint_encoding_len(n as nat);
    assert(forall|j: int|
        0 <= j < varint_len(n as nat) ==> s[0 + j] == #[trigger] varint_encoding(n as nat)[j]);
    lemma_parse_encoding_from(n as nat, s, 0, 0, 1);
}

/// Outcome of the executable prefix reader.
#[derive(Debug)]
pub enum VarintDecode {
    /// The buffer holds only a strict prefix of a length prefix.
    NeedMore,
    /// The buffer cannot begin with any valid length prefix.
    Malformed,
    /// The value read, and how many bytes of the buffer it occupied.
    Value { value: u64, length: usize },
}

/// Append the LEB128 encoding of `value` to `out`.
pub fn encode_varint_into(out: &mut Vec<u8>, value: u64)
    ensures
        final(out)@ == old(out)@ + varint_encoding(value as nat),
{
    let mut v: u64 = value;
    while v >= 128
        invariant
            out@ + varint_encoding(v as nat) == old(out)@ + varint_encoding(value as nat),
        decreases v,
    {
        let b: u8 = 128 + (v % 128) as u8;
        proof {
            assert(varint_encoding(v as nat) == seq![b] + varint_encoding((v / 128) as nat));
            assert(out@.push(b) + varint_encoding((v / 128) as nat) =~= out@ + (seq![b]
                + varint_encoding((v / 128) as nat)));
        }
        out.push(b);
        v = v / 128;
    }
    proof {
        assert(varint_encoding(v as nat) == seq![v as u8]);
        assert(out@.push(v as u8) =~= out@ + varint_encoding(v as nat));
    }
    out.push(v as u8);
}

/// The LEB128 encoding of `value`, as a fresh buffer.
pub fn encode_varint(value: u64) -> (r: Vec<u8>)
    ensures
        r@ == varint_encoding(value as nat),
{
    let mut out: Vec<u8> = Vec::new();
    encode_varint_into(&mut out, value);
    proof {
        assert(out@ =~= varint_encoding(value as nat));
    }
    out
}

/// Read one length prefix from the front of `buf`.
pub fn decode_varint(buf: &Vec<u8>) -> (r: VarintDecode)
    ensures
        match r {
            VarintDecode::NeedMore => parse_varint(buf@) == VarintParse::NeedMore,
            VarintDecode::Malformed => parse_varint(buf@) == VarintParse::Malformed,
            VarintDecode::Value { value, length } => parse_varint(buf@) == (VarintParse::Value {
                value: value as nat,
                length: length as nat,
            }) && 1 <= length <= buf@.len(),
        },
{
    let mut i: usize = 0;
    let mut acc: u64 = 0;
    let mut mult: u64 = 1;
    while i < 10
        invariant
            0 <= i <= 9,
            mult as nat == pow128(i as int),
            acc < mult,
            mult <= 0x8000_0000_0000_0000,
            parse_varint(buf@) == parse_varint_from(buf@, i as int, acc as nat, mult as nat),
        decreases 10 - i,
    {
        if i >= buf.len() {
            return VarintDecode::NeedMore;
        }
        let b: u8 = buf[i];
        let digit: u64 = (b % 128) as u64;
        if b < 128 {
            if i > 0 && b == 0 {
                return VarintDecode::Malformed;
            }
            proof {
                assert((digit as u128) * (mult as u128) < 0x8000_0000_0000_0000_0000)
                    by (nonlinear_arith)
                    requires
                        digit < 128,
                        mult <= 0x8000_0000_0000_0000,
                ;
            }
            let total: u128 = acc as u128 + (digit as u128) * (mult as u128);
            if total <= 0xffff_ffff_ffff_ffff {
                return VarintDecode::Value { value: total as u64, length: i + 1 };
            } else {
                return VarintDecode::Malformed;
            }
        }
        if i == 9 {
            proof {
                assert(parse_varint_from(
                    buf@,
                    10,
                    (acc + digit * mult) as nat,
                    (mult * 128) as nat,
                ) == VarintParse::Malformed);
            }
            return VarintDecode::Malformed;
        }
        proof {
            lemma_pow128_le(i as int, 8);
            lemma_pow128_values();
            assert((digit as nat) * (mult as nat) <= 127 * 0x100_0000_0000_0000)
                by (nonlinear_arith)
                requires
                    digit < 128,
                    mult as nat <= 0x100_0000_0000_0000,
            ;
        }
        let step: u64 = digit * mult;
        let acc2: u64 = acc + step;
        let mult2: u64 = mult * 128;
        proof {
            assert(acc2 < mult2) by (nonlinear_arith)
                requires
                    acc < mult,
                    digit < 128,
                    step == digit * mult,
                    acc2 == acc + step,
                    mult2 == mult * 128,
            ;
            assert(mult2 as nat == pow128(i + 1));
        }
        acc = acc2;
        mult = mult2;
        i = i + 1;
    }
    proof {
        assert(false);
    }
    VarintDecode::Malformed
}

} // verus!
