//! The growable byte buffer of the `bytes` crate, as the framing code sees it.
use bytes::Buf;
use bytes::BytesMut;
use vstd::prelude::*;

verus! {

/// `bytes::BytesMut`, carried opaquely; its contents are `bytes_contents`.
#[verifier::external_type_specification]
#[verifier::external_body]
pub struct ExBytesMut(BytesMut);

/// The bytes a `BytesMut` holds, first to last.
pub uninterp spec fn bytes_contents(b: BytesMut) -> Seq<u8>;

/// Calls `BytesMut::with_capacity`: a buffer holding no bytes (the capacity
/// it reserves is not modeled).
#[verifier::external_body]
pub(crate) fn bytes_with_capacity(capacity: usize) -> (r: BytesMut)
    ensures
        bytes_contents(r) == Seq::<u8>::empty(),
{
    BytesMut::with_capacity(capacity)
}

/// Calls `BytesMut::len`: the number of bytes held.
#[verifier::external_body]
pub(crate) fn bytes_len(b: &BytesMut) -> (r: usize)
    ensures
        r == bytes_contents(*b).len(),
{
    b.len()
}

/// Reads byte `i` through `BytesMut`'s slice view (`b[i]`).
#[verifier::external_body]
pub(crate) fn bytes_at(b: &BytesMut, i: usize) -> (r: u8)
    requires
        i < bytes_contents(*b).len(),
    ensures
        r == bytes_contents(*b)[i as int],
{
    b[i]
}

/// Calls `<BytesMut as Buf>::advance`: drops the first `n` bytes (it panics
/// when `n` exceeds the length, which `requires` rules out).
#[verifier::external_body]
pub(crate) fn bytes_advance(b: &mut BytesMut, n: usize)
    requires
        n <= bytes_contents(*old(b)).len(),
    ensures
        bytes_contents(*final(b)) == bytes_contents(*old(b)).skip(n as int),
{
    b.advance(n)
}

/// Calls `BytesMut::split_to`: returns the first `at` bytes and keeps the
/// rest (it panics when `at` exceeds the length, which `requires` rules out).
#[verifier::external_body]
pub(crate) fn bytes_split_to(b: &mut BytesMut, at: usize) -> (r: BytesMut)
    requires
        at <= bytes_contents(*old(b)).len(),
    ensures
        bytes_contents(r) == bytes_contents(*old(b)).take(at as int),
        bytes_contents(*final(b)) == bytes_contents(*old(b)).skip(at as int),
{
    b.split_to(at)
}

/// Calls `BytesMut::extend_from_slice`: appends `data` (growing past
/// `isize::MAX` bytes panics, which `requires` rules out).
#[verifier::external_body]
pub(crate) fn bytes_extend(b: &mut BytesMut, data: &[u8])
    requires
        bytes_contents(*old(b)).len() + data@.len() <= isize::MAX,
    ensures
        bytes_contents(*final(b)) == bytes_contents(*old(b)) + data@,
{
    b.extend_from_slice(data)
}

/// Calls `BytesMut::clear`: drops every byte held.
#[verifier::external_body]
pub(crate) fn bytes_clear(b: &mut BytesMut)
    ensures
        bytes_contents(*final(b)) == Seq::<u8>::empty(),
{
    b.clear()
}

} // verus!
