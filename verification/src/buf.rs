//! The growable byte buffer of the `bytes` crate, as far as the library
//! uses it.
//!
//! The verifier cannot look into a `BytesMut`. What a buffer holds is given a
//! name, and each operation is described by what it does to that content.
//! None of these descriptions is proved: they restate the crate's
//! documentation and its source.

use crate::endian::{be_bytes_u32, le_bytes_u32};
use bytes::BufMut;
use bytes::BytesMut;
use std::ops::Deref;
use vstd::prelude::*;

verus! {

#[verifier::external_type_specification]
#[verifier::external_body]
pub struct ExBytesMut(bytes::BytesMut);

/// The bytes a buffer holds, first to last.
pub uninterp spec fn bytes_mut_contents(buf: BytesMut) -> Seq<u8>;

/// `BytesMut::new`: a buffer of length zero.
#[verifier::external_body]
pub(crate) fn bytes_mut_new() -> (buf: BytesMut)
    ensures
        bytes_mut_contents(buf) == Seq::<u8>::empty(),
{
    BytesMut::new()
}

/// `BufMut::put_u32_ne` on a `BytesMut`: appends the four bytes of `n` in
/// the byte order of the machine, which is one of the two orders. The buffer
/// grows as needed; growing fails only past the largest allocation, which
/// the precondition keeps away from.
#[verifier::external_body]
pub(crate) fn bytes_mut_put_u32_ne(buf: &mut BytesMut, n: u32)
    requires
        bytes_mut_contents(*old(buf)).len() + 4 <= isize::MAX,
    ensures
        bytes_mut_contents(*final(buf)) == bytes_mut_contents(*old(buf)) + le_bytes_u32(n)
            || bytes_mut_contents(*final(buf)) == bytes_mut_contents(*old(buf)) + be_bytes_u32(n),
{
    buf.put_u32_ne(n)
}

/// `BufMut::put_slice` on a `BytesMut`: appends the bytes of `src`. The
/// buffer grows as needed; growing fails only past the largest allocation,
/// which the precondition keeps away from.
#[verifier::external_body]
pub(crate) fn bytes_mut_put_slice(buf: &mut BytesMut, src: &[u8])
    requires
        bytes_mut_contents(*old(buf)).len() + src@.len() <= isize::MAX,
    ensures
        bytes_mut_contents(*final(buf)) == bytes_mut_contents(*old(buf)) + src@,
{
    buf.put_slice(src)
}

/// `Deref::deref` on a `BytesMut`: the bytes the buffer holds, as a slice,
/// copied into a vector.
#[verifier::external_body]
pub(crate) fn bytes_mut_to_vec(buf: &BytesMut) -> (r: Vec<u8>)
    ensures
        r@ == bytes_mut_contents(*buf),
{
    Vec::from(buf.deref())
}

} // verus!
