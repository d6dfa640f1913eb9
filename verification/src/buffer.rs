//! The shared byte buffers in which the QUIC layer takes and hands out data.

use vstd::prelude::*;

verus! {

/// A buffer of bytes that several owners can share.
#[verifier::external_type_specification]
#[verifier::external_body]
pub struct ExBytes(bytes::Bytes);

/// A buffer of bytes that is still being filled.
#[verifier::external_type_specification]
#[verifier::external_body]
pub struct ExBytesMut(bytes::BytesMut);

/// The bytes that a `bytes::Bytes` holds, in order.
pub uninterp spec fn contents(buffer: bytes::Bytes) -> Seq<u8>;

/// The bytes that a `bytes::BytesMut` holds so far, in order.
pub uninterp spec fn filled(buffer: bytes::BytesMut) -> Seq<u8>;

/// The number of bytes that a `bytes::BytesMut` was made for.
pub uninterp spec fn room(buffer: bytes::BytesMut) -> nat;

/// `bytes::Bytes::new` makes an empty buffer.
pub assume_specification[ bytes::Bytes::new ]() -> (r: bytes::Bytes)
    ensures
        contents(r) == Seq::<u8>::empty(),
;

/// `bytes::Bytes::len` counts the bytes.
pub assume_specification[ bytes::Bytes::len ](this: &bytes::Bytes) -> (r: usize)
    ensures
        r == contents(*this).len(),
;

/// `bytes::Bytes::copy_from_slice` makes a buffer that holds a copy of the slice.
pub assume_specification[ bytes::Bytes::copy_from_slice ](data: &[u8]) -> (r: bytes::Bytes)
    ensures
        contents(r) == data@,
;

/// `bytes::Bytes::split_to` cuts the buffer in two, keeps the bytes from `at` on and returns those
/// before. It panics if `at` lies beyond the end.
pub assume_specification[ bytes::Bytes::split_to ](this: &mut bytes::Bytes, at: usize) -> (r:
    bytes::Bytes)
    requires
        at <= contents(*old(this)).len(),
    ensures
        contents(r) == contents(*old(this)).take(at as int),
        contents(*final(this)) == contents(*old(this)).skip(at as int),
;

/// `bytes::Bytes::split_off` cuts the buffer in two, keeps the bytes before `at` and returns those
/// from there on. It panics if `at` lies beyond the end.
pub assume_specification[ bytes::Bytes::split_off ](this: &mut bytes::Bytes, at: usize) -> (r:
    bytes::Bytes)
    requires
        at <= contents(*old(this)).len(),
    ensures
        contents(r) == contents(*old(this)).skip(at as int),
        contents(*final(this)) == contents(*old(this)).take(at as int),
;

/// `bytes::BytesMut::with_capacity` makes an empty buffer with room for `capacity` bytes. It panics
/// where no allocation can be that large.
pub assume_specification[ bytes::BytesMut::with_capacity ](capacity: usize) -> (r: bytes::BytesMut)
    requires
        capacity <= isize::MAX,
    ensures
        filled(r) == Seq::<u8>::empty(),
        room(r) == capacity,
;

/// `bytes::BytesMut::extend_from_slice` appends a copy of the slice. It may panic where the buffer has
/// to grow, which it has not within what it was made for.
pub assume_specification[ bytes::BytesMut::extend_from_slice ](
    this: &mut bytes::BytesMut,
    extend: &[u8],
)
    requires
        filled(*old(this)).len() + extend@.len() <= room(*old(this)),
    ensures
        filled(*final(this)) == filled(*old(this)) + extend@,
        room(*final(this)) == room(*old(this)),
;

/// `bytes::BytesMut::freeze` hands the bytes over to a buffer that can be shared.
pub assume_specification[ bytes::BytesMut::freeze ](this: bytes::BytesMut) -> (r: bytes::Bytes)
    ensures
        contents(r) == filled(this),
;

/// Looks at the bytes through the `Deref` of `bytes::Bytes`.
#[verifier::external_body]
pub(crate) fn as_slice(buffer: &bytes::Bytes) -> (r: &[u8])
    ensures
        r@ == contents(*buffer),
{
    buffer
}

/// Drops the first `n` bytes, as the `bytes::Buf::advance` of `bytes::Bytes` does. It panics if there
/// are fewer.
#[verifier::external_body]
pub(crate) fn advance(buffer: &mut bytes::Bytes, n: usize)
    requires
        n <= contents(*old(buffer)).len(),
    ensures
        contents(*final(buffer)) == contents(*old(buffer)).skip(n as int),
{
    bytes::Buf::advance(buffer, n);
}

/// Hands the vector's bytes over to a shared buffer, by the `From<Vec<u8>>` of `bytes::Bytes`.
#[verifier::external_body]
pub(crate) fn from_vec(data: Vec<u8>) -> (r: bytes::Bytes)
    ensures
        contents(r) == data@,
{
    bytes::Bytes::from(data)
}

} // verus!
