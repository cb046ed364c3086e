//! The caller-owned byte buffer the streaming codecs read from and
//! write into: `bytes::BytesMut`, seen through a small set of trusted
//! declarations.

use vstd::prelude::*;

use bytes::Buf;
use bytes::BufMut;

verus! {

#[verifier::external_type_specification]
#[verifier::external_body]
pub struct ExBytesMut(bytes::BytesMut);

/// The bytes a buffer currently holds, in order.
pub uninterp spec fn bytes_view(b: bytes::BytesMut) -> Seq<u8>;

/// Relies on `bytes::BytesMut::len`: the number of bytes in the buffer.
#[verifier::external_body]
pub fn bytes_mut_len(b: &bytes::BytesMut) -> (r: usize)
    ensures
        r == bytes_view(*b).len(),
{
    b.len()
}

/// Relies on `bytes::BufMut::put_slice`: appends the given bytes at the
/// end of the buffer.
#[verifier::external_body]
pub fn bytes_mut_put_slice(b: &mut bytes::BytesMut, src: &Vec<u8>)
    requires
        bytes_view(*old(b)).len() + src@.len() <= 0x7FFF_FFFF,
    ensures
        bytes_view(*final(b)) == bytes_view(*old(b)) + src@,
{
    b.put_slice(src.as_slice())
}

/// Relies on `bytes::Buf::advance`: discards the first `n` bytes of the
/// buffer and keeps the rest.
#[verifier::external_body]
pub fn bytes_mut_advance(b: &mut bytes::BytesMut, n: usize)
    requires
        n <= bytes_view(*old(b)).len(),
    ensures
        bytes_view(*final(b)) == bytes_view(*old(b)).skip(n as int),
{
    b.advance(n)
}

/// Relies on the buffer's slice view (`[u8]::to_vec` through `Deref`):
/// copies the buffered bytes out without consuming them.
#[verifier::external_body]
pub fn bytes_mut_to_vec(b: &bytes::BytesMut) -> (r: Vec<u8>)
    ensures
        r@ == bytes_view(*b),
{
    b.to_vec()
}

} // verus!
