//! The short content hash that indexing records for a file.

use vstd::prelude::*;
use crate::text::{hex, hex_digit, push_char, push_hex, push_str, zero_pad};

verus! {

/// The BLAKE3 hash of `data`.
pub uninterp spec fn blake3_hash(data: Seq<u8>) -> Seq<u8>;

/// The number whose little-endian bytes are `s`.
pub open spec fn le_value(s: Seq<u8>) -> nat
    decreases s.len(),
{
    if s.len() == 0 {
        0
    } else {
        s[0] as nat + 256 * le_value(s.drop_first())
    }
}

/// `256` to the power `n`.
pub open spec fn pow256(n: nat) -> nat
    decreases n,
{
    if n == 0 {
        1
    } else {
        256 * pow256((n - 1) as nat)
    }
}

/// `16` to the power `n`.
pub open spec fn pow16(n: nat) -> nat
    decreases n,
{
    if n == 0 {
        1
    } else {
        16 * pow16((n - 1) as nat)
    }
}

/// The short hash of `data`: the first 16 bytes of its BLAKE3 hash read as a
/// little-endian 128-bit number, written in lower-case hexadecimal and padded
/// with zeros to at least 16 digits.
pub open spec fn short_hash_text(data: Seq<u8>) -> Seq<char> {
    zero_pad(hex(le_value(hash_prefix(blake3_hash(data)))), 16)
}

/// The first 16 bytes of a hash (all of it, were it shorter).
pub open spec fn hash_prefix(h: Seq<u8>) -> Seq<u8> {
    if h.len() >= 16 {
        h.take(16)
    } else {
        h
    }
}

/// `blake3::hash`: the 32-byte BLAKE3 hash of `data`.
#[verifier::external_body]
fn blake3_digest(data: &[u8]) -> (r: Vec<u8>)
    ensures
        r@ == blake3_hash(data@),
        r@.len() == 32,
{
    blake3::hash(data).as_bytes().to_vec()
}

proof fn lemma_le_value_bound(s: Seq<u8>)
    ensures
        le_value(s) < pow256(s.len()),
    decreases s.len(),
{
    if s.len() > 0 {
        lemma_le_value_bound(s.drop_first());
        let v = le_value(s.drop_first());
        let p = pow256(s.drop_first().len());
        let b = s[0] as nat;
        assert(b + 256 * v < 256 * p) by (nonlinear_arith)
            requires
                v < p,
                b < 256,
        ;
    }
}

/// The 128-bit number whose little-endian bytes are the first 16 of `b`.
fn le_u128(b: &Vec<u8>) -> (r: u128)
    requires
        b@.len() >= 16,
    ensures
        r == le_value(b@.take(16)),
{
    let ghost s = b@.take(16);
    let mut v: u128 = 0;
    let mut i: usize = 16;
    assert(s.subrange(16, 16) =~= Seq::<u8>::empty());
    while i > 0
        invariant
            i <= 16,
            s == b@.take(16),
            b@.len() >= 16,
            v == le_value(s.subrange(i as int, 16)),
        decreases i,
    {
        i = i - 1;
        proof {
            let t = s.subrange(i as int, 16);
            assert(t.drop_first() =~= s.subrange(i + 1, 16));
            assert(t[0] == b@[i as int]);
            lemma_le_value_bound(s.subrange(i + 1, 16));
            lemma_pow256_mono((16 - (i + 1)) as nat, 15);
            reveal_with_fuel(pow256, 17);
            assert(pow256(15) == 1329227995784915872903807060280344576);
            assert(v * 256 + b@[i as int] < 340282366920938463463374607431768211456) by (nonlinear_arith)
                requires
                    v < 1329227995784915872903807060280344576,
                    b@[i as int] < 256,
            ;
        }
        v = v * 256 + b[i] as u128;
    }
    assert(s.subrange(0, 16) =~= s);
    v
}

proof fn lemma_pow256_mono(a: nat, b: nat)
    requires
        a <= b,
    ensures
        pow256(a) <= pow256(b),
    decreases b,
{
    if a < b {
        lemma_pow256_mono(a, (b - 1) as nat);
    }
}

/// The short hash of `data`, as indexing records it.
pub fn short_hash_of(data: &[u8]) -> (r: String)
    ensures
        r@ == short_hash_text(data@),
{
    let digest = blake3_digest(data);
    let v = le_u128(&digest);
    let mut digits = String::new();
    push_hex(&mut digits, v);
    let n = digits.as_str().unicode_len();
    let mut out = String::new();
    let mut k: usize = n;
    while k < 16
        invariant
            n <= k <= 16 || (n > 16 && k == n),
            out@ == Seq::new((k - n) as nat, |i: int| '0'),
        decreases 16 - k,
    {
        push_char(&mut out, '0');
        assert(out@ =~= Seq::new((k + 1 - n) as nat, |i: int| '0'));
        k = k + 1;
    }
    push_str(&mut out, digits.as_str());
    assert(digits@ =~= hex(v as nat));
    assert(out@ =~= zero_pad(hex(v as nat), 16));
    out
}

/// A lower-case hexadecimal digit character.
pub open spec fn is_hex_char(c: char) -> bool {
    ('0' <= c && c <= '9') || ('a' <= c && c <= 'f')
}

proof fn lemma_hex_shape(n: nat, k: nat)
    requires
        k >= 1,
        n < pow16(k),
    ensures
        hex(n).len() <= k,
        forall|i: int| 0 <= i < hex(n).len() ==> is_hex_char(#[trigger] hex(n)[i]),
    decreases n,
{
    if n >= 16 {
        assert(n / 16 < pow16((k - 1) as nat)) by (nonlinear_arith)
            requires
                n < pow16(k),
                k >= 1,
                pow16(k) == 16 * pow16((k - 1) as nat),
        ;
        lemma_hex_shape(n / 16, (k - 1) as nat);
        let d = n % 16;
        assert(is_hex_char(hex_digit(d)));
        assert forall|i: int| 0 <= i < hex(n).len() implies is_hex_char(#[trigger] hex(n)[i]) by {
            if i < hex(n / 16).len() {
                assert(hex(n)[i] == hex(n / 16)[i]);
            }
        }
    } else {
        assert(is_hex_char(hex_digit(n)));
    }
}

/// A short hash is between 16 and 32 lower-case hexadecimal digits long, for
/// any content.
pub proof fn law_short_hash_shape(data: Seq<u8>)
    ensures
        16 <= short_hash_text(data).len() <= 32,
        forall|i: int| 0 <= i < short_hash_text(data).len() ==> is_hex_char(#[trigger] short_hash_text(data)[i]),
{
    let s = hash_prefix(blake3_hash(data));
    let v = le_value(s);
    lemma_le_value_bound(s);
    lemma_pow256_mono(s.len(), 16);
    lemma_pow_relation();
    lemma_hex_shape(v, 32);
    let h = hex(v);
    let t = short_hash_text(data);
    assert forall|i: int| 0 <= i < t.len() implies is_hex_char(#[trigger] t[i]) by {
        if h.len() < 16 {
            if i >= 16 - h.len() {
                assert(t[i] == h[i - (16 - h.len())]);
            }
        }
    }
}

proof fn lemma_pow_relation()
    ensures
        pow256(16) == pow16(32),
{
    reveal_with_fuel(pow256, 17);
    reveal_with_fuel(pow16, 33);
}

} // verus!
