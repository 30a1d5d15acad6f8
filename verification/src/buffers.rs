//! The byte containers of the `bytes` crate, as far as this library reads
//! and fills them.
//!
//! Nothing in this file is proved: each contract restates what the `bytes`
//! crate does, and the rest of the library is verified against it.

use vstd::prelude::*;

verus! {

/// `bytes::Bytes`, carried as an opaque value.
#[verifier::external_type_specification]
#[verifier::external_body]
pub struct ExBytes(bytes::Bytes);

/// The bytes that a `bytes::Bytes` holds, first to last.
pub uninterp spec fn bytes_view(b: bytes::Bytes) -> Seq<u8>;

/// `bytes::Bytes::len`: the number of bytes held.
pub assume_specification[ bytes::Bytes::len ](b: &bytes::Bytes) -> (n: usize)
    ensures
        n == bytes_view(*b).len(),
;

/// `bytes::Buf::get_u8` on a `Bytes`: hands out the first byte and advances
/// past it. The outside function panics on an empty buffer, which the
/// precondition leaves out.
#[verifier::external_body]
pub(crate) fn take_byte(b: &mut bytes::Bytes) -> (r: u8)
    requires
        bytes_view(*old(b)).len() > 0,
    ensures
        r == bytes_view(*old(b))[0],
        bytes_view(*final(b)) == bytes_view(*old(b)).subrange(1, bytes_view(*old(b)).len() as int),
{
    bytes::Buf::get_u8(b)
}

/// `bytes::BufMut::put` on a `Vec<u8>`: appends every byte of `src`. The
/// outside function reserves room first, which panics once the vector would
/// exceed `isize::MAX` bytes; the precondition leaves that out.
#[verifier::external_body]
pub(crate) fn put_bytes(buf: &mut Vec<u8>, src: bytes::Bytes)
    requires
        old(buf)@.len() + bytes_view(src).len() <= isize::MAX,
    ensures
        final(buf)@ == old(buf)@ + bytes_view(src),
{
    bytes::BufMut::put(buf, src)
}

} // verus!
