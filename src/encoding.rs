//! Big-endian encoding of the committed counter.

use byteorder::ByteOrder;
use vstd::prelude::*;

verus! {

/// The `k` low-order base-256 digits of `n`, most significant first.
pub open spec fn be_digits(n: nat, k: nat) -> Seq<u8>
    decreases k,
{
    if k == 0 {
        Seq::empty()
    } else {
        be_digits(n / 256, (k - 1) as nat).push((n % 256) as u8)
    }
}

/// The 8-byte big-endian encoding of `n`.
pub open spec fn be_u64(n: u64) -> Seq<u8> {
    be_digits(n as nat, 8)
}

/// Relies on byteorder's `BigEndian::write_u64`, which writes the eight
/// bytes of `n.to_be_bytes()` into the buffer.
#[verifier::external_body]
pub(crate) fn encode_u64_be(n: u64) -> (r: Vec<u8>)
    ensures
        r@ == be_u64(n),
{
    let mut buf = [0u8; 8];
    byteorder::BigEndian::write_u64(&mut buf, n);
    buf.to_vec()
}

} // verus!
