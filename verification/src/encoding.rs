//! Byte-level encodings that feed identifier derivation.

use vstd::prelude::*;

verus! {

/// The eight bytes of `x`, most significant first.
#[verifier::opaque]
pub open spec fn be_bytes(x: u64) -> Seq<u8> {
    seq![
        ((x / 0x100_0000_0000_0000) % 0x100) as u8,
        ((x / 0x1_0000_0000_0000) % 0x100) as u8,
        ((x / 0x100_0000_0000) % 0x100) as u8,
        ((x / 0x1_0000_0000) % 0x100) as u8,
        ((x / 0x100_0000) % 0x100) as u8,
        ((x / 0x1_0000) % 0x100) as u8,
        ((x / 0x100) % 0x100) as u8,
        (x % 0x100) as u8,
    ]
}

/// The value whose big-endian encoding is `b`, for `b` of eight bytes.
pub open spec fn from_be_bytes(b: Seq<u8>) -> int {
    b[0] * 0x100_0000_0000_0000 + b[1] * 0x1_0000_0000_0000 + b[2] * 0x100_0000_0000 + b[3]
        * 0x1_0000_0000 + b[4] * 0x100_0000 + b[5] * 0x1_0000 + b[6] * 0x100 + b[7]
}

/// Decoding undoes encoding, so distinct values have distinct encodings.
pub proof fn lemma_be_bytes_roundtrip(x: u64)
    ensures
        be_bytes(x).len() == 8,
        from_be_bytes(be_bytes(x)) == x,
{
    reveal(be_bytes);
    let q1 = x / 0x100;
    let q2 = q1 / 0x100;
    let q3 = q2 / 0x100;
    let q4 = q3 / 0x100;
    let q5 = q4 / 0x100;
    let q6 = q5 / 0x100;
    let q7 = q6 / 0x100;
    assert(q2 == x / 0x1_0000);
    assert(q3 == x / 0x100_0000);
    assert(q4 == x / 0x1_0000_0000);
    assert(q5 == x / 0x100_0000_0000);
    assert(q6 == x / 0x1_0000_0000_0000);
    assert(q7 == x / 0x100_0000_0000_0000);
    assert(q7 < 0x100);
    let b = be_bytes(x);
    assert(b[7] == x % 0x100);
    assert(b[6] == q1 % 0x100);
    assert(b[5] == q2 % 0x100);
    assert(b[4] == q3 % 0x100);
    assert(b[3] == q4 % 0x100);
    assert(b[2] == q5 % 0x100);
    assert(b[1] == q6 % 0x100);
    assert(b[0] == q7);
    assert(q6 == q7 * 0x100 + b[1]);
    assert(q5 == q6 * 0x100 + b[2]);
    assert(q4 == q5 * 0x100 + b[3]);
    assert(q3 == q4 * 0x100 + b[4]);
    assert(q2 == q3 * 0x100 + b[5]);
    assert(q1 == q2 * 0x100 + b[6]);
    assert(x == q1 * 0x100 + b[7]);
}

/// Two values with the same big-endian encoding are the same value.
pub proof fn lemma_be_bytes_injective(x: u64, y: u64)
    requires
        be_bytes(x) == be_bytes(y),
    ensures
        x == y,
{
    lemma_be_bytes_roundtrip(x);
    lemma_be_bytes_roundtrip(y);
}

/// Encodes `x` as eight bytes, most significant first.
pub fn u64_to_be_bytes(x: u64) -> (out: [u8; 8])
    ensures
        out@ == be_bytes(x),
{
    let out: [u8; 8] = [
        ((x / 0x100_0000_0000_0000) % 0x100) as u8,
        ((x / 0x1_0000_0000_0000) % 0x100) as u8,
        ((x / 0x100_0000_0000) % 0x100) as u8,
        ((x / 0x1_0000_0000) % 0x100) as u8,
        ((x / 0x100_0000) % 0x100) as u8,
        ((x / 0x1_0000) % 0x100) as u8,
        ((x / 0x100) % 0x100) as u8,
        (x % 0x100) as u8,
    ];
    assert(out@ =~= be_bytes(x)) by {
        reveal(be_bytes);
    }
    out
}

/// The concatenation of `parts`, in order.
pub open spec fn concat(parts: Seq<Seq<u8>>) -> Seq<u8>
    decreases parts.len(),
{
    if parts.len() == 0 {
        Seq::empty()
    } else {
        concat(parts.drop_last()) + parts.last()
    }
}

/// Appending one more part appends its bytes.
pub proof fn lemma_concat_push(parts: Seq<Seq<u8>>, part: Seq<u8>)
    ensures
        concat(parts.push(part)) == concat(parts) + part,
{
    assert(parts.push(part).drop_last() =~= parts);
}

/// The concatenation of the first `n` parts is no longer than the
/// concatenation of all.
pub proof fn lemma_concat_prefix_len(parts: Seq<Seq<u8>>, n: int)
    requires
        0 <= n <= parts.len(),
    ensures
        concat(parts.subrange(0, n)).len() <= concat(parts).len(),
    decreases parts.len() - n,
{
    if n < parts.len() {
        lemma_concat_prefix_len(parts, n + 1);
        assert(parts.subrange(0, n + 1).drop_last() =~= parts.subrange(0, n));
    } else {
        assert(parts.subrange(0, n) =~= parts);
    }
}

/// Appends the bytes of `part` to `out`.
pub fn append_bytes(out: &mut Vec<u8>, part: &[u8])
    ensures
        final(out)@ == old(out)@ + part@,
{
    let n: usize = part.len();
    let mut i: usize = 0;
    while i < n
        invariant
            n == part@.len(),
            i <= n,
            out@ == old(out)@ + part@.subrange(0, i as int),
        decreases n - i,
    {
        out.push(part[i]);
        i = i + 1;
        assert(out@ =~= old(out)@ + part@.subrange(0, i as int));
    }
    assert(part@.subrange(0, n as int) =~= part@);
}

} // verus!
