//! Generic tagged-record (TLV) encoding.
//!
//! A record is `type ++ length ++ value`, where `type` and `length` are
//! minimal big-endian unsigned integers ("big-size": zero encodes as the
//! empty byte string, any other value as the shortest big-endian byte string
//! without a leading zero byte). A stream is the concatenation of the
//! records of the present fields, in ascending type order; absent fields
//! emit no record at all.

use vstd::prelude::*;

verus! {

/// Minimal big-endian encoding of an unsigned integer: zero is the empty
/// byte string; otherwise the shortest big-endian byte string with no
/// leading zero byte.
pub open spec fn big_size(n: nat) -> Seq<u8>
    decreases n,
{
    if n == 0 {
        Seq::empty()
    } else {
        big_size(n / 256) + seq![(n % 256) as u8]
    }
}

/// One tagged record: big-size type, big-size length, then the value bytes.
pub open spec fn tlv_record(t: nat, value: Seq<u8>) -> Seq<u8> {
    big_size(t) + big_size(value.len()) + value
}

/// The bytes an optional field contributes to a stream: its record when the
/// field is present, nothing when it is absent.
pub open spec fn opt_record(t: nat, value: Option<Seq<u8>>) -> Seq<u8> {
    match value {
        Some(v) => tlv_record(t, v),
        None => Seq::empty(),
    }
}

/// Concatenation of a sequence of byte strings, in order.
pub open spec fn concat_all(parts: Seq<Seq<u8>>) -> Seq<u8>
    decreases parts.len(),
{
    if parts.len() == 0 {
        Seq::empty()
    } else {
        concat_all(parts.drop_last()) + parts.last()
    }
}

/// The unsigned integer a big-endian byte string stands for.
pub open spec fn be_value(bytes: Seq<u8>) -> nat
    decreases bytes.len(),
{
    if bytes.len() == 0 {
        0
    } else {
        be_value(bytes.drop_last()) * 256 + (bytes.last() as nat)
    }
}

/// The big-size encoding is faithful and minimal: its bytes reproduce the
/// integer, zero encodes as the empty string, and any other value starts
/// with a nonzero byte, so no shorter big-endian form reproduces it.
pub proof fn lemma_big_size_minimal(n: nat)
    ensures
        be_value(big_size(n)) == n,
        n == 0 ==> big_size(n).len() == 0,
        n > 0 ==> big_size(n).len() >= 1 && big_size(n)[0] != 0,
    decreases n,
{
    if n > 0 {
        lemma_big_size_minimal(n / 256);
        let prefix = big_size(n / 256);
        let all = big_size(n);
        assert(all.drop_last() =~= prefix);
        assert(be_value(all) == be_value(prefix) * 256 + n % 256);
        assert(n / 256 * 256 + n % 256 == n);
        if n / 256 > 0 {
            assert(all[0] == prefix[0]);
        } else {
            assert(all[0] == (n % 256) as u8);
        }
    }
}

/// Two different integers never share a big-size encoding.
pub proof fn lemma_big_size_injective(a: nat, b: nat)
    requires
        big_size(a) == big_size(b),
    ensures
        a == b,
{
    lemma_big_size_minimal(a);
    lemma_big_size_minimal(b);
}

/// Computes the big-size encoding of `n`.
pub fn big_size_bytes(n: u64) -> (r: Vec<u8>)
    ensures
        r@ == big_size(n as nat),
    decreases n,
{
    if n == 0 {
        Vec::new()
    } else {
        let mut r = big_size_bytes(n / 256);
        r.push((n % 256) as u8);
        r
    }
}

/// Appends a slice to a byte buffer.
pub fn push_bytes(buf: &mut Vec<u8>, bytes: &[u8])
    ensures
        final(buf)@ == old(buf)@ + bytes@,
{
    let mut i: usize = 0;
    while i < bytes.len()
        invariant
            i <= bytes@.len(),
            buf@ == old(buf)@ + bytes@.take(i as int),
        decreases bytes@.len() - i,
    {
        buf.push(bytes[i]);
        i = i + 1;
        assert(buf@ =~= old(buf)@ + bytes@.take(i as int));
    }
    assert(buf@ =~= old(buf)@ + bytes@);
}

/// Appends one tagged record for type `t` with the given value bytes.
pub fn append_record(buf: &mut Vec<u8>, t: u64, value: &Vec<u8>)
    ensures
        final(buf)@ == old(buf)@ + tlv_record(t as nat, value@),
{
    let type_bytes = big_size_bytes(t);
    push_bytes(buf, type_bytes.as_slice());
    let len_bytes = big_size_bytes(value.len() as u64);
    push_bytes(buf, len_bytes.as_slice());
    push_bytes(buf, value.as_slice());
    assert(buf@ =~= old(buf)@ + tlv_record(t as nat, value@));
}

} // verus!
