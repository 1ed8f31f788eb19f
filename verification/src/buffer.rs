//! Contracts for the byte containers of the `bytes` crate.
//!
//! Nothing here is proved: each contract restates what the `bytes` crate
//! documents for the method it is attached to.

use bytes::Bytes;
use bytes::BytesMut;
use vstd::prelude::*;

verus! {

/// `bytes::Bytes`: an immutable buffer of bytes, known by its contents alone.
#[verifier::external_type_specification]
#[verifier::external_body]
pub struct ExBytes(bytes::Bytes);

/// `bytes::BytesMut`: a growable buffer of bytes, known by its contents alone.
#[verifier::external_type_specification]
#[verifier::external_body]
pub struct ExBytesMut(bytes::BytesMut);

/// The bytes that an immutable buffer holds, in order.
pub uninterp spec fn bytes_contents(b: Bytes) -> Seq<u8>;

/// The bytes that a growable buffer holds, in order.
pub uninterp spec fn bytes_mut_contents(b: BytesMut) -> Seq<u8>;

/// `Bytes::len` returns the number of bytes held.
pub assume_specification[ Bytes::len ](b: &Bytes) -> (n: usize)
    ensures
        n == bytes_contents(*b).len(),
;

/// `Bytes::clone` yields a handle onto the same bytes.
pub assume_specification[ <Bytes as Clone>::clone ](b: &Bytes) -> (c: Bytes)
    ensures
        bytes_contents(c) == bytes_contents(*b),
;

/// `BytesMut::new` creates an empty buffer.
pub assume_specification[ BytesMut::new ]() -> (b: BytesMut)
    ensures
        bytes_mut_contents(b) == Seq::<u8>::empty(),
;

/// `BytesMut::len` returns the number of bytes held.
pub assume_specification[ BytesMut::len ](b: &BytesMut) -> (n: usize)
    ensures
        n == bytes_mut_contents(*b).len(),
;

/// `BytesMut::is_empty` tells whether no byte is held.
pub assume_specification[ BytesMut::is_empty ](b: &BytesMut) -> (e: bool)
    ensures
        e == (bytes_mut_contents(*b).len() == 0),
;

/// `BytesMut::extend_from_slice` appends the slice; it panics only when the
/// new length would overflow `usize`.
pub assume_specification[ BytesMut::extend_from_slice ](b: &mut BytesMut, extend: &[u8])
    requires
        bytes_mut_contents(*old(b)).len() + extend@.len() <= usize::MAX,
    ensures
        bytes_mut_contents(*final(b)) == bytes_mut_contents(*old(b)) + extend@,
;

/// `BytesMut::split` hands out everything held and leaves the buffer empty.
pub assume_specification[ BytesMut::split ](b: &mut BytesMut) -> (taken: BytesMut)
    ensures
        bytes_mut_contents(taken) == bytes_mut_contents(*old(b)),
        bytes_mut_contents(*final(b)) == Seq::<u8>::empty(),
;

/// `BytesMut::freeze` turns the buffer into an immutable one with the same bytes.
pub assume_specification[ BytesMut::freeze ](b: BytesMut) -> (frozen: Bytes)
    ensures
        bytes_contents(frozen) == bytes_mut_contents(b),
;


/// `Bytes::new` creates an empty buffer.
pub assume_specification[ Bytes::new ]() -> (b: Bytes)
    ensures
        bytes_contents(b) == Seq::<u8>::empty(),
;

/// `Bytes::is_empty` tells whether no byte is held.
pub assume_specification[ Bytes::is_empty ](b: &Bytes) -> (e: bool)
    ensures
        e == (bytes_contents(*b).len() == 0),
;

/// `Buf::copy_to_slice` on `Bytes` fills `dst` with the first bytes held and
/// drops them from the buffer; it panics when fewer are held than `dst` takes.
#[verifier::external_body]
pub(crate) fn bytes_copy_to_slice(src: &mut Bytes, dst: &mut [u8])
    requires
        old(dst)@.len() <= bytes_contents(*old(src)).len(),
    ensures
        final(dst)@ == bytes_contents(*old(src)).subrange(0, old(dst)@.len() as int),
        bytes_contents(*final(src)) == bytes_contents(*old(src)).skip(old(dst)@.len() as int),
{
    bytes::Buf::copy_to_slice(src, dst)
}

} // verus!
