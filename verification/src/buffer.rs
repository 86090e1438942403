//! The byte buffers of the `bytes` crate, as this library uses them: a `BytesMut`
//! that is filled and then frozen into an immutable `Bytes`.
use bytes::BufMut;
use bytes::Bytes;
use bytes::BytesMut;
use vstd::prelude::*;

verus! {

#[verifier::external_type_specification]
#[verifier::external_body]
pub struct ExBytes(Bytes);

#[verifier::external_type_specification]
#[verifier::external_body]
pub struct ExBytesMut(BytesMut);

/// The bytes that a `Bytes` holds, in order.
pub uninterp spec fn bytes_contents(b: Bytes) -> Seq<u8>;

/// The bytes that a `BytesMut` holds, in order.
pub uninterp spec fn bytes_mut_contents(b: BytesMut) -> Seq<u8>;

/// How many more bytes a `BytesMut` can take without reallocating: its capacity
/// less its length.
pub uninterp spec fn bytes_mut_spare(b: BytesMut) -> nat;

/// `BytesMut::with_capacity`: an empty buffer that can hold at least `capacity`
/// bytes without reallocating. The underlying `Vec::with_capacity` panics on a
/// capacity above `isize::MAX`, which `requires` rules out.
#[verifier::external_body]
pub(crate) fn bytes_mut_with_capacity(capacity: usize) -> (b: BytesMut)
    requires
        capacity <= isize::MAX,
    ensures
        bytes_mut_contents(b) == Seq::<u8>::empty(),
        bytes_mut_spare(b) >= capacity,
{
    BytesMut::with_capacity(capacity)
}

/// `BufMut::put_bytes` on a `BytesMut`: appends `count` copies of `val`. When
/// `count` fits in the spare capacity, the `reserve` it starts with returns at
/// once, so nothing is reallocated and nothing panics; the spare capacity
/// shrinks by `count`.
#[verifier::external_body]
pub(crate) fn bytes_mut_put_bytes(b: &mut BytesMut, val: u8, count: usize)
    requires
        count <= bytes_mut_spare(*old(b)),
    ensures
        bytes_mut_contents(*final(b)) == bytes_mut_contents(*old(b)) + Seq::new(
            count as nat,
            |i: int| val,
        ),
        bytes_mut_spare(*final(b)) == bytes_mut_spare(*old(b)) - count,
{
    b.put_bytes(val, count)
}

/// `BytesMut::freeze`: an immutable `Bytes` with the same contents.
#[verifier::external_body]
pub(crate) fn bytes_mut_freeze(b: BytesMut) -> (r: Bytes)
    ensures
        bytes_contents(r) == bytes_mut_contents(b),
{
    b.freeze()
}

} // verus!
