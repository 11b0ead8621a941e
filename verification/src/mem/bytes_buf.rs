//! The contract this crate assumes of `bytes::BytesMut`.
//!
//! Nothing in this file is proved. Each function forwards to one method of
//! the `bytes` crate and states what that method is documented to do, over
//! the sequence of bytes that the buffer holds. A buffer never holds more
//! than `isize::MAX` bytes, the largest allocation there is; a call that
//! would grow it beyond that is left out by the preconditions.

use bytes::{Buf, BufMut, BytesMut};
use vstd::prelude::*;

verus! {

#[verifier::external_type_specification]
#[verifier::external_body]
pub struct ExBytesMut(bytes::BytesMut);

/// The bytes a buffer holds, first to last.
pub uninterp spec fn buf_bytes(buf: BytesMut) -> Seq<u8>;

/// Value of a string of base-256 digits, most significant digit first.
pub open spec fn be_value(digits: Seq<u8>) -> nat
    decreases digits.len(),
{
    if digits.len() == 0 {
        0
    } else {
        be_value(digits.drop_last()) * 256 + digits.last() as nat
    }
}

/// The `width` low-order base-256 digits of `value`, most significant first.
pub open spec fn be_bytes(value: nat, width: nat) -> Seq<u8>
    decreases width,
{
    if width == 0 {
        Seq::empty()
    } else {
        be_bytes(value / 256, (width - 1) as nat).push((value % 256) as u8)
    }
}

/// `BytesMut::with_capacity`: a fresh buffer that holds no bytes.
#[verifier::external_body]
pub(crate) fn buf_with_capacity(capacity: usize) -> (buf: BytesMut)
    requires
        capacity <= isize::MAX,
    ensures
        buf_bytes(buf) == Seq::<u8>::empty(),
{
    BytesMut::with_capacity(capacity)
}

/// `BytesMut::len`: the number of bytes held.
#[verifier::external_body]
pub(crate) fn buf_len(buf: &BytesMut) -> (len: usize)
    ensures
        len == buf_bytes(*buf).len(),
{
    buf.len()
}

/// `BytesMut::capacity`: the number of bytes the buffer can hold without
/// allocating again, which is never less than what it holds.
#[verifier::external_body]
pub(crate) fn buf_capacity(buf: &BytesMut) -> (capacity: usize)
    ensures
        capacity >= buf_bytes(*buf).len(),
{
    buf.capacity()
}

/// `BytesMut::reserve`: makes room for `additional` more bytes, moving the
/// contents to the start of the allocation where that is enough. The bytes
/// held stay as they are.
#[verifier::external_body]
pub(crate) fn buf_reserve(buf: &mut BytesMut, additional: usize)
    requires
        buf_bytes(*old(buf)).len() + additional <= isize::MAX,
    ensures
        buf_bytes(*final(buf)) == buf_bytes(*old(buf)),
{
    buf.reserve(additional)
}

/// `BufMut::put_slice` on a `BytesMut`: appends `src`, growing the buffer
/// as needed.
#[verifier::external_body]
pub(crate) fn buf_put_slice(buf: &mut BytesMut, src: &[u8])
    requires
        buf_bytes(*old(buf)).len() + src@.len() <= isize::MAX,
    ensures
        buf_bytes(*final(buf)) == buf_bytes(*old(buf)) + src@,
{
    buf.put_slice(src)
}

/// `BufMut::put_uint` on a `BytesMut`: appends the `nbytes` low-order bytes
/// of `value`, most significant first.
#[verifier::external_body]
pub(crate) fn buf_put_uint(buf: &mut BytesMut, value: u64, nbytes: usize)
    requires
        nbytes <= 8,
        buf_bytes(*old(buf)).len() + nbytes <= isize::MAX,
    ensures
        buf_bytes(*final(buf)) == buf_bytes(*old(buf)) + be_bytes(value as nat, nbytes as nat),
{
    buf.put_uint(value, nbytes)
}

/// `Buf::get_uint` on a `BytesMut`: removes the first `nbytes` bytes and
/// returns them read as one big-endian number.
#[verifier::external_body]
pub(crate) fn buf_get_uint(buf: &mut BytesMut, nbytes: usize) -> (value: u64)
    requires
        nbytes <= 8,
        nbytes <= buf_bytes(*old(buf)).len(),
    ensures
        value == be_value(buf_bytes(*old(buf)).subrange(0, nbytes as int)),
        buf_bytes(*final(buf)) == buf_bytes(*old(buf)).skip(nbytes as int),
{
    buf.get_uint(nbytes)
}

/// `BytesMut::split_to`: removes the first `at` bytes and returns them as a
/// buffer of their own.
#[verifier::external_body]
pub(crate) fn buf_split_to(buf: &mut BytesMut, at: usize) -> (head: BytesMut)
    requires
        at <= buf_bytes(*old(buf)).len(),
    ensures
        buf_bytes(head) == buf_bytes(*old(buf)).subrange(0, at as int),
        buf_bytes(*final(buf)) == buf_bytes(*old(buf)).skip(at as int),
{
    buf.split_to(at)
}

/// `BytesMut::split_off`: keeps the first `at` bytes and returns the rest as
/// a buffer of its own.
#[verifier::external_body]
pub(crate) fn buf_split_off(buf: &mut BytesMut, at: usize) -> (tail: BytesMut)
    requires
        at <= buf_bytes(*old(buf)).len(),
    ensures
        buf_bytes(tail) == buf_bytes(*old(buf)).skip(at as int),
        buf_bytes(*final(buf)) == buf_bytes(*old(buf)).subrange(0, at as int),
{
    buf.split_off(at)
}

/// `AsRef<[u8]>` for `BytesMut`: the bytes held, as a slice.
#[verifier::external_body]
pub(crate) fn buf_as_slice(buf: &BytesMut) -> (bytes: &[u8])
    ensures
        bytes@ == buf_bytes(*buf),
{
    buf.as_ref()
}

} // verus!
