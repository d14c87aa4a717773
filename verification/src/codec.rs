//! Big-endian register codec.
//!
//! Every register exchange with the ADC carries its payload as 1 to 4 bytes,
//! most significant byte first.  This module gives that encoding a
//! mathematical definition, executable encode/decode functions proved
//! against it, and the round-trip law that register writes followed by reads
//! rely on.

use vstd::prelude::*;

verus! {

use vstd::arithmetic::div_mod::{lemma_div_denominator, lemma_mod_breakdown};

/// Numeric value of a big-endian byte string: the first byte is the most
/// significant.
pub open spec fn be_val(s: Seq<u8>) -> int
    decreases s.len(),
{
    if s.len() == 0 {
        0
    } else {
        be_val(s.drop_last()) * 256 + s.last()
    }
}

/// 256 to the power `n`: the number of values an `n`-byte register can take.
pub open spec fn pow256(n: nat) -> int
    decreases n,
{
    if n == 0 {
        1
    } else {
        256 * pow256((n - 1) as nat)
    }
}

/// The `size`-byte big-endian encoding of `value`: the low `size` bytes of
/// `value`, most significant first.
pub open spec fn be_bytes(value: int, size: nat) -> Seq<u8>
    decreases size,
{
    if size == 0 {
        Seq::empty()
    } else {
        be_bytes(value / 256, (size - 1) as nat).push((value % 256) as u8)
    }
}

pub proof fn lemma_pow256_pos(n: nat)
    ensures
        pow256(n) >= 1,
    decreases n,
{
    if n > 0 {
        lemma_pow256_pos((n - 1) as nat);
    }
}

pub proof fn lemma_pow256_mono(m: nat, n: nat)
    requires
        m <= n,
    ensures
        pow256(m) <= pow256(n),
    decreases n,
{
    if m < n {
        lemma_pow256_mono(m, (n - 1) as nat);
        lemma_pow256_pos((n - 1) as nat);
    }
}

pub proof fn lemma_be_bytes_len(value: int, size: nat)
    ensures
        be_bytes(value, size).len() == size,
    decreases size,
{
    if size > 0 {
        lemma_be_bytes_len(value / 256, (size - 1) as nat);
    }
}

/// A big-endian byte string of length `n` denotes a value in `[0, 256^n)`.
pub proof fn lemma_be_val_bound(s: Seq<u8>)
    ensures
        0 <= be_val(s) < pow256(s.len()),
    decreases s.len(),
{
    if s.len() > 0 {
        lemma_be_val_bound(s.drop_last());
    }
}

/// Round-trip law of the register codec: decoding the `size`-byte big-endian
/// encoding of a value gives the value back, reduced modulo the register
/// width.
pub proof fn lemma_be_round_trip(value: int, size: nat)
    requires
        value >= 0,
    ensures
        be_val(be_bytes(value, size)) == value % pow256(size),
    decreases size,
{
    if size == 0 {
        assert(value % 1 == 0);
    } else {
        let rest = (size - 1) as nat;
        lemma_be_round_trip(value / 256, rest);
        lemma_be_bytes_len(value / 256, rest);
        let pre = be_bytes(value / 256, rest);
        assert(be_bytes(value, size).drop_last() =~= pre);
        assert(be_val(be_bytes(value, size)) == be_val(pre) * 256 + (value % 256));
        lemma_pow256_pos(rest);
        lemma_mod_breakdown(value, 256, pow256(rest));
        assert(pow256(size) == 256 * pow256(rest));
    }
}

/// Decode a big-endian payload of up to four bytes, as a register read does.
pub fn decode_be(bytes: &Vec<u8>) -> (r: u32)
    requires
        bytes@.len() <= 4,
    ensures
        r == be_val(bytes@),
{
    let mut acc: u32 = 0;
    let mut i: usize = 0;
    while i < bytes.len()
        invariant
            i <= bytes@.len() <= 4,
            acc == be_val(bytes@.take(i as int)),
        decreases bytes@.len() - i,
    {
        proof {
            lemma_be_val_bound(bytes@.take(i as int));
            lemma_pow256_mono(i as nat, 3);
            assert(pow256(0) == 1);
            assert(pow256(1) == 256);
            assert(pow256(2) == 65536);
            assert(pow256(3) == 16777216);
        }
        acc = acc * 256 + bytes[i] as u32;
        proof {
            assert(bytes@.take(i + 1).drop_last() =~= bytes@.take(i as int));
        }
        i = i + 1;
    }
    proof {
        assert(bytes@.take(bytes@.len() as int) =~= bytes@);
    }
    acc
}

/// Encode a value into its `size`-byte big-endian payload, truncating to the
/// register width, as a register write does.
pub fn encode_be(value: u32, size: usize) -> (r: Vec<u8>)
    requires
        1 <= size <= 4,
    ensures
        r@ == be_bytes(value as int, size as nat),
{
    let mut r: Vec<u8> = Vec::new();
    if size == 1 {
        r.push((value % 256) as u8);
    } else if size == 2 {
        r.push(((value / 256) % 256) as u8);
        r.push((value % 256) as u8);
    } else if size == 3 {
        r.push(((value / 65536) % 256) as u8);
        r.push(((value / 256) % 256) as u8);
        r.push((value % 256) as u8);
    } else {
        r.push(((value / 16777216) % 256) as u8);
        r.push(((value / 65536) % 256) as u8);
        r.push(((value / 256) % 256) as u8);
        r.push((value % 256) as u8);
    }
    proof {
        reveal_with_fuel(be_bytes, 5);
        let v = value as int;
        lemma_div_denominator(v, 256, 256);
        lemma_div_denominator(v, 65536, 256);
        assert(v / 256 / 256 == v / 65536);
        assert(v / 65536 / 256 == v / 16777216);
        assert(be_bytes(v / 256, 1) =~= seq![((v / 256) % 256) as u8]);
        assert(be_bytes(v / 65536, 1) =~= seq![((v / 65536) % 256) as u8]);
        assert(be_bytes(v / 256, 2) =~= seq![
            ((v / 65536) % 256) as u8,
            ((v / 256) % 256) as u8,
        ]);
        assert(be_bytes(v / 256, 3) =~= seq![
            ((v / 16777216) % 256) as u8,
            ((v / 65536) % 256) as u8,
            ((v / 256) % 256) as u8,
        ]);
        if size == 1 {
            assert(r@ =~= be_bytes(v, 1));
        } else if size == 2 {
            assert(r@ =~= be_bytes(v, 2));
        } else if size == 3 {
            assert(r@ =~= be_bytes(v, 3));
        } else {
            assert(r@ =~= be_bytes(v, 4));
        }
    }
    r
}

} // verus!
