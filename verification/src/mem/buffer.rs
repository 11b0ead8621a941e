//! The incremental deframer: cuts a byte stream into length-prefixed chunks,
//! however the stream was broken up on arrival.

use crate::mem::bytes_buf::{
    be_bytes, be_value, buf_as_slice, buf_bytes, buf_capacity, buf_get_uint, buf_len,
    buf_put_slice, buf_put_uint, buf_reserve, buf_split_to, buf_with_capacity,
};
use crate::mem::endian::{lemma_be_bytes_len, lemma_be_bytes_of_value, lemma_be_value_bound, pow256};
use bytes::BytesMut;
use std::marker::PhantomData;
use vstd::prelude::*;

verus! {

/// The longest payload that a length prefix of `header_len` bytes can
/// announce.
pub open spec fn max_body(header_len: nat) -> nat {
    (pow256(header_len) - 1) as nat
}

/// The widths a length prefix may have: at least one byte, at most eight,
/// and narrow enough that two chunks of the greatest size fit into one
/// allocation.
pub open spec fn header_len_fits(header_len: nat) -> bool {
    &&& 1 <= header_len <= 8
    &&& 2 * (header_len + max_body(header_len)) <= isize::MAX
}

/// Length of the chunk that starts `stream`, prefix included. It is known as
/// soon as the prefix has arrived.
pub open spec fn chunk_len(stream: Seq<u8>, header_len: nat) -> nat
    recommends
        stream.len() >= header_len,
{
    header_len + be_value(stream.subrange(0, header_len as int))
}

/// The chunk that starts `stream`, if all of it has arrived.
pub open spec fn first_chunk(stream: Seq<u8>, header_len: nat) -> Option<Seq<u8>> {
    if stream.len() >= header_len && stream.len() >= chunk_len(stream, header_len) {
        Some(stream.subrange(0, chunk_len(stream, header_len) as int))
    } else {
        None
    }
}

/// `wire` is exactly one chunk: a length prefix and as many bytes as it
/// announces.
pub open spec fn is_chunk(wire: Seq<u8>, header_len: nat) -> bool {
    wire.len() >= header_len && wire.len() == chunk_len(wire, header_len)
}

/// An unbreakable piece of a byte stream: a length prefix and the payload it
/// announces.
pub trait Chunk: Sized {
    /// Width of the length prefix, in bytes.
    spec fn spec_header_len() -> usize;

    /// Whether this type has a value for a chunk whose payload is `body_len`
    /// bytes long.
    spec fn spec_accepts(body_len: usize) -> bool;

    /// The chunk as it travels: the length prefix, then the payload.
    spec fn wire(&self) -> Seq<u8>;

    /// Returns the number of bytes that the length prefix takes.
    fn header_len() -> (len: usize)
        ensures
            len == Self::spec_header_len(),
            header_len_fits(len as nat),
    ;

    /// Turns the bytes of one whole chunk into a value, or hands them back
    /// where the type has no value for a payload of that length.
    fn from_wire(wire: BytesMut) -> (chunk: Result<Self, BytesMut>)
        requires
            is_chunk(buf_bytes(wire), Self::spec_header_len() as nat),
        ensures
            match chunk {
                Ok(chunk) => {
                    &&& Self::spec_accepts(
                        (buf_bytes(wire).len() - Self::spec_header_len()) as usize,
                    )
                    &&& chunk.wire() == buf_bytes(wire)
                },
                Err(bytes) => {
                    &&& !Self::spec_accepts(
                        (buf_bytes(wire).len() - Self::spec_header_len()) as usize,
                    )
                    &&& buf_bytes(bytes) == buf_bytes(wire)
                },
            },
    ;

    /// Returns the longest payload that the length prefix can announce.
    fn max_body_len() -> (len: usize)
        ensures
            len == max_body(Self::spec_header_len() as nat),
    {
        let width = Self::header_len();
        let mut len: usize = 0;
        let mut done: usize = 0;
        while done < width
            invariant
                done <= width,
                len == max_body(done as nat),
                max_body(width as nat) <= isize::MAX,
            decreases width - done,
        {
            proof {
                crate::mem::endian::lemma_pow256_grows((done + 1) as nat, width as nat);
            }
            len = len * 256 + 255;
            done = done + 1;
        }
        len
    }
}

/// Why a buffer could not be set up.
#[derive(Debug, Clone, Copy, PartialEq, Eq, Structural)]
pub enum BufferError {
    /// The capacity asked for cannot hold two chunks of the greatest size.
    InsufficientCapacity,
}

/// A buffer that restores chunks from a byte stream.
///
/// Bytes are appended as they arrive; `try_read_chunk` hands out the chunks
/// in order, each as soon as its last byte is there.
pub struct ConcatBuf<T: Chunk> {
    inner: BytesMut,
    partial_chunk: Option<(usize, BytesMut)>,
    chunk: PhantomData<T>,
}

/// The start of a chunk that has been moved out of the arrival buffer:
/// `held` has the prefix and no more than the `target` bytes it announces.
pub open spec fn is_partial(held: Seq<u8>, target: nat, header_len: nat) -> bool {
    &&& held.len() >= header_len
    &&& target == chunk_len(held, header_len)
    &&& held.len() <= target
}

/// What of a stream is set apart for the next chunk by an attempt to read
/// that hands nothing out: nothing while the length prefix is short, else
/// all that has arrived of the chunk.
pub open spec fn claimed(stream: Seq<u8>, header_len: nat) -> Seq<u8> {
    if stream.len() < header_len {
        Seq::empty()
    } else if stream.len() >= chunk_len(stream, header_len) {
        stream.subrange(0, chunk_len(stream, header_len) as int)
    } else {
        stream
    }
}

/// The least capacity that holds two chunks of the greatest size.
pub open spec fn least_capacity(header_len: nat) -> nat {
    2 * (header_len + max_body(header_len))
}

impl<T: Chunk> ConcatBuf<T> {
    /// The bytes that have arrived and have not been handed out yet.
    pub closed spec fn stream(&self) -> Seq<u8> {
        match self.partial_chunk {
            Some((_, held)) => buf_bytes(held) + buf_bytes(self.inner),
            None => buf_bytes(self.inner),
        }
    }

    /// The bytes that wait for a chunk to begin with them: those of the
    /// stream that are not part of a chunk already under assembly.
    pub closed spec fn buffered(&self) -> Seq<u8> {
        buf_bytes(self.inner)
    }

    /// The start of the stream that has been set apart as the beginning of
    /// the next chunk. The stream is this and then what is buffered.
    pub closed spec fn assembling(&self) -> Seq<u8> {
        match self.partial_chunk {
            Some((_, held)) => buf_bytes(held),
            None => Seq::empty(),
        }
    }

    /// A whole chunk is under assembly and stays there, because the chunk
    /// type has no value for it.
    pub open spec fn blocked(&self) -> bool {
        is_chunk(self.assembling(), T::spec_header_len() as nat)
    }

    /// The stream is what is under assembly and then what is buffered.
    pub proof fn lemma_stream_parts(&self)
        ensures
            self.stream() == self.assembling() + self.buffered(),
    {
        assert(self.stream() =~= self.assembling() + self.buffered());
    }

    /// The buffer is in order.
    pub closed spec fn wf(&self) -> bool {
        &&& header_len_fits(T::spec_header_len() as nat)
        &&& match self.partial_chunk {
            Some((target, held)) => {
                &&& is_partial(buf_bytes(held), target as nat, T::spec_header_len() as nat)
                &&& buf_bytes(held).len() == target ==> !T::spec_accepts(
                    (target - T::spec_header_len()) as usize,
                )
            },
            None => true,
        }
    }

    /// What `try_read_chunk` is to hand out of `stream`: the first chunk, if
    /// it is whole and the chunk type has a value for it.
    pub open spec fn next_chunk(stream: Seq<u8>) -> Option<Seq<u8>> {
        match first_chunk(stream, T::spec_header_len() as nat) {
            Some(wire) => if T::spec_accepts((wire.len() - T::spec_header_len()) as usize) {
                Some(wire)
            } else {
                None
            },
            None => None,
        }
    }

    /// Creates an empty buffer with room for `capacity` bytes, as far as
    /// one allocation goes.
    ///
    /// A capacity that cannot hold two chunks of the greatest size is
    /// refused.
    pub fn with_capacity(capacity: usize) -> (buffer: Result<Self, BufferError>)
        ensures
            match buffer {
                Ok(buffer) => {
                    &&& capacity >= least_capacity(T::spec_header_len() as nat)
                    &&& buffer.wf()
                    &&& buffer.assembling() == Seq::<u8>::empty()
                    &&& buffer.stream() == Seq::<u8>::empty()
                },
                Err(error) => {
                    &&& capacity < least_capacity(T::spec_header_len() as nat)
                    &&& error == BufferError::InsufficientCapacity
                },
            },
    {
        let least = Self::default_capacity();
        if capacity < least {
            Err(BufferError::InsufficientCapacity)
        } else {
            // More than the greatest allocation cannot be had; the buffer
            // grows on its own when it has to.
            let room = if capacity <= isize::MAX as usize {
                capacity
            } else {
                least
            };
            Ok(ConcatBuf { inner: buf_with_capacity(room), partial_chunk: None, chunk: PhantomData })
        }
    }

    /// The capacity of a buffer that is created without one: two chunks of
    /// the greatest size.
    fn default_capacity() -> (capacity: usize)
        ensures
            capacity == least_capacity(T::spec_header_len() as nat),
            capacity <= isize::MAX,
            header_len_fits(T::spec_header_len() as nat),
    {
        let header_len = T::header_len();
        let body_len = T::max_body_len();
        (header_len + body_len) * 2
    }

    /// Number of bytes that wait for a chunk to begin with them.
    pub fn len(&self) -> (len: usize)
        ensures
            len == self.buffered().len(),
    {
        buf_len(&self.inner)
    }

    /// The bytes that wait for a chunk to begin with them.
    pub fn as_slice(&self) -> (bytes: &[u8])
        ensures
            bytes@ == self.buffered(),
    {
        buf_as_slice(&self.inner)
    }

    /// Appends bytes that have arrived.
    pub fn put_slice(&mut self, src: &[u8])
        requires
            old(self).wf(),
            old(self).buffered().len() + src@.len() <= isize::MAX,
        ensures
            final(self).wf(),
            final(self).assembling() == old(self).assembling(),
            final(self).stream() == old(self).stream() + src@,
            final(self).buffered() == old(self).buffered() + src@,
    {
        buf_put_slice(&mut self.inner, src);
        proof {
            assert(self.stream() =~= old(self).stream() + src@);
        }
    }

    /// Appends one byte that has arrived.
    pub fn put_u8(&mut self, byte: u8)
        requires
            old(self).wf(),
            old(self).buffered().len() + 1 <= isize::MAX,
        ensures
            final(self).wf(),
            final(self).assembling() == old(self).assembling(),
            final(self).stream() == old(self).stream().push(byte),
            final(self).buffered() == old(self).buffered().push(byte),
    {
        let bytes: [u8; 1] = [byte];
        self.put_slice(bytes.as_slice());
        proof {
            assert(bytes@ =~= Seq::<u8>::empty().push(byte));
            assert(self.stream() =~= old(self).stream().push(byte));
            assert(self.buffered() =~= old(self).buffered().push(byte));
        }
    }

    /// Appends the `nbytes` low-order bytes of `value`, most significant
    /// first.
    pub fn put_uint(&mut self, value: u64, nbytes: usize)
        requires
            old(self).wf(),
            nbytes <= 8,
            old(self).buffered().len() + nbytes <= isize::MAX,
        ensures
            final(self).wf(),
            final(self).assembling() == old(self).assembling(),
            final(self).stream() == old(self).stream() + be_bytes(value as nat, nbytes as nat),
            final(self).buffered() == old(self).buffered() + be_bytes(
                value as nat,
                nbytes as nat,
            ),
    {
        buf_put_uint(&mut self.inner, value, nbytes);
        proof {
            assert(self.stream() =~= old(self).stream() + be_bytes(value as nat, nbytes as nat));
        }
    }

    /// Tries to read the next chunk.
    ///
    /// Returns the chunk that the stream starts with and removes it from the
    /// stream, if all of its bytes have arrived and the chunk type has a
    /// value for it. Otherwise returns `None` and the stream stays as it is.
    /// Call it until it returns `None` after bytes have been appended.
    pub fn try_read_chunk(&mut self) -> (chunk: Option<T>)
        requires
            old(self).wf(),
        ensures
            final(self).wf(),
            match Self::next_chunk(old(self).stream()) {
                Some(wire) => {
                    &&& chunk matches Some(c) && c.wire() == wire
                    &&& final(self).stream() == old(self).stream().skip(wire.len() as int)
                },
                None => chunk is None && final(self).stream() == old(self).stream(),
            },
            final(self).assembling() == if chunk is Some {
                Seq::<u8>::empty()
            } else {
                claimed(old(self).stream(), T::spec_header_len() as nat)
            },
            final(self).blocked() == (chunk is None && first_chunk(
                old(self).stream(),
                T::spec_header_len() as nat,
            ) is Some),
    {
        match self.partial_chunk.take() {
            Some((target, held)) => self.try_read_partial_chunk(target, held),
            None => self.try_read_full_chunk(),
        }
    }

    /// Whether the last attempt to read found a whole chunk for which the
    /// chunk type has no value. Such a chunk is never handed out, and
    /// nothing behind it either.
    pub fn is_blocked(&self) -> (blocked: bool)
        requires
            self.wf(),
        ensures
            blocked == self.blocked(),
            blocked ==> first_chunk(self.stream(), T::spec_header_len() as nat) is Some
                && Self::next_chunk(self.stream()) is None,
    {
        match &self.partial_chunk {
            Some((target, held)) => {
                proof {
                    let header_len = T::spec_header_len() as nat;
                    assert(self.stream().subrange(0, header_len as int) =~= buf_bytes(
                        *held,
                    ).subrange(0, header_len as int));
                    if buf_bytes(*held).len() == *target {
                        assert(self.stream().subrange(0, *target as int) =~= buf_bytes(*held));
                    }
                }
                buf_len(held) == *target
            },
            None => false,
        }
    }

    /// Completes the chunk under assembly from what has arrived, or takes in
    /// what there is.
    fn try_read_partial_chunk(&mut self, target: usize, held: BytesMut) -> (chunk: Option<T>)
        requires
            old(self).partial_chunk is None,
            header_len_fits(T::spec_header_len() as nat),
            is_partial(buf_bytes(held), target as nat, T::spec_header_len() as nat),
        ensures
            final(self).wf(),
            match Self::next_chunk(buf_bytes(held) + buf_bytes(old(self).inner)) {
                Some(wire) => {
                    &&& chunk matches Some(c) && c.wire() == wire
                    &&& final(self).stream() == (buf_bytes(held) + buf_bytes(
                        old(self).inner,
                    )).skip(wire.len() as int)
                },
                None => chunk is None && final(self).stream() == buf_bytes(held) + buf_bytes(
                    old(self).inner,
                ),
            },
            final(self).assembling() == if chunk is Some {
                Seq::<u8>::empty()
            } else {
                claimed(buf_bytes(held) + buf_bytes(old(self).inner), T::spec_header_len() as nat)
            },
            final(self).blocked() == (chunk is None && first_chunk(
                buf_bytes(held) + buf_bytes(old(self).inner),
                T::spec_header_len() as nat,
            ) is Some),
    {
        let mut held = held;
        let ghost header_len = T::spec_header_len() as nat;
        let ghost before = buf_bytes(held);
        let ghost arrived = buf_bytes(self.inner);
        let ghost stream = before + arrived;
        proof {
            assert(stream.subrange(0, header_len as int) =~= before.subrange(0, header_len as int));
            lemma_be_value_bound(before.subrange(0, header_len as int));
        }
        let missing = target - buf_len(&held);
        let available = buf_len(&self.inner);
        if missing <= available {
            let tail = buf_split_to(&mut self.inner, missing);
            buf_put_slice(&mut held, buf_as_slice(&tail));
            proof {
                assert(buf_bytes(held) =~= stream.subrange(0, target as int));
                assert(buf_bytes(held).subrange(0, header_len as int) =~= before.subrange(
                    0,
                    header_len as int,
                ));
                assert(buf_bytes(self.inner) =~= stream.skip(target as int));
            }
            match T::from_wire(held) {
                Ok(chunk) => Some(chunk),
                Err(bytes) => {
                    self.partial_chunk = Some((target, bytes));
                    proof {
                        assert(self.stream() =~= stream);
                    }
                    None
                },
            }
        } else {
            let tail = buf_split_to(&mut self.inner, available);
            buf_put_slice(&mut held, buf_as_slice(&tail));
            self.fragment();
            proof {
                assert(buf_bytes(held) =~= stream);
                assert(buf_bytes(held).subrange(0, header_len as int) =~= before.subrange(
                    0,
                    header_len as int,
                ));
            }
            self.partial_chunk = Some((target, held));
            proof {
                assert(self.stream() =~= stream);
            }
            None
        }
    }

    /// Starts a new chunk, if its length prefix has arrived.
    fn try_read_full_chunk(&mut self) -> (chunk: Option<T>)
        requires
            old(self).partial_chunk is None,
            header_len_fits(T::spec_header_len() as nat),
        ensures
            final(self).wf(),
            match Self::next_chunk(buf_bytes(old(self).inner)) {
                Some(wire) => {
                    &&& chunk matches Some(c) && c.wire() == wire
                    &&& final(self).stream() == buf_bytes(old(self).inner).skip(wire.len() as int)
                },
                None => chunk is None && final(self).stream() == buf_bytes(old(self).inner),
            },
            final(self).assembling() == if chunk is Some {
                Seq::<u8>::empty()
            } else {
                claimed(buf_bytes(old(self).inner), T::spec_header_len() as nat)
            },
            final(self).blocked() == (chunk is None && first_chunk(
                buf_bytes(old(self).inner),
                T::spec_header_len() as nat,
            ) is Some),
    {
        let ghost stream = buf_bytes(self.inner);
        match self.try_read_header() {
            Some(body_len) => {
                let held = Self::create_chunk(body_len);
                proof {
                    let header_len = T::spec_header_len() as nat;
                    let header = stream.subrange(0, header_len as int);
                    lemma_be_bytes_of_value(header);
                    assert(buf_bytes(held) == header);
                    assert(header.subrange(0, header_len as int) =~= header);
                    assert(header + stream.skip(header_len as int) =~= stream);
                }
                self.try_read_partial_chunk(T::header_len() + body_len, held)
            },
            None => None,
        }
    }

    /// A chunk under assembly that holds nothing but the prefix for a
    /// payload of `body_len` bytes.
    fn create_chunk(body_len: usize) -> (held: BytesMut)
        requires
            header_len_fits(T::spec_header_len() as nat),
            body_len <= max_body(T::spec_header_len() as nat),
        ensures
            buf_bytes(held) == be_bytes(body_len as nat, T::spec_header_len() as nat),
    {
        let header_len = T::header_len();
        let mut held = buf_with_capacity(header_len + body_len);
        buf_put_uint(&mut held, body_len as u64, header_len);
        proof {
            assert(Seq::<u8>::empty() + be_bytes(body_len as nat, header_len as nat) =~= be_bytes(
                body_len as nat,
                header_len as nat,
            ));
        }
        held
    }

    /// Takes the length prefix off the arrival buffer, if all of it is
    /// there, and returns the payload length it announces.
    fn try_read_header(&mut self) -> (body_len: Option<usize>)
        requires
            old(self).partial_chunk is None,
            header_len_fits(T::spec_header_len() as nat),
        ensures
            final(self).partial_chunk is None,
            match body_len {
                Some(body_len) => {
                    &&& buf_bytes(old(self).inner).len() >= T::spec_header_len()
                    &&& body_len == be_value(
                        buf_bytes(old(self).inner).subrange(0, T::spec_header_len() as int),
                    )
                    &&& body_len <= max_body(T::spec_header_len() as nat)
                    &&& buf_bytes(final(self).inner) == buf_bytes(old(self).inner).skip(
                        T::spec_header_len() as int,
                    )
                },
                None => {
                    &&& buf_bytes(old(self).inner).len() < T::spec_header_len()
                    &&& buf_bytes(final(self).inner) == buf_bytes(old(self).inner)
                },
            },
    {
        let header_len = T::header_len();
        if buf_len(&self.inner) >= header_len {
            proof {
                lemma_be_value_bound(buf_bytes(self.inner).subrange(0, header_len as int));
            }
            let announced = buf_get_uint(&mut self.inner, header_len);
            Some(announced as usize)
        } else {
            self.fragment();
            None
        }
    }

    /// Moves what is left in the arrival buffer to the start of its
    /// allocation, so that the room in front of it can be written again.
    fn fragment(&mut self)
        ensures
            buf_bytes(final(self).inner) == buf_bytes(old(self).inner),
            final(self).partial_chunk == old(self).partial_chunk,
    {
        let capacity = buf_capacity(&self.inner);
        let len = buf_len(&self.inner);
        if capacity < isize::MAX as usize {
            buf_reserve(&mut self.inner, capacity - len + 1);
        }
    }
}

impl<T: Chunk> Default for ConcatBuf<T> {
    /// An empty buffer with room for two chunks of the greatest size.
    fn default() -> (buffer: Self)
        ensures
            buffer.wf(),
            buffer.assembling() == Seq::<u8>::empty(),
            buffer.stream() == Seq::<u8>::empty(),
    {
        ConcatBuf {
            inner: buf_with_capacity(Self::default_capacity()),
            partial_chunk: None,
            chunk: PhantomData,
        }
    }
}

/// Nothing is lost and nothing is made up: a chunk that is cut off the
/// stream is one whole chunk, and together with what stays behind it is the
/// stream as it was, byte for byte.
pub proof fn lemma_stream_is_conserved(stream: Seq<u8>, header_len: nat)
    ensures
        match first_chunk(stream, header_len) {
            Some(wire) => {
                &&& is_chunk(wire, header_len)
                &&& wire + stream.skip(wire.len() as int) == stream
                &&& wire.len() + stream.skip(wire.len() as int).len() == stream.len()
            },
            None => true,
        },
{
    match first_chunk(stream, header_len) {
        Some(wire) => {
            assert(wire.subrange(0, header_len as int) =~= stream.subrange(0, header_len as int));
            assert(wire + stream.skip(wire.len() as int) =~= stream);
        },
        None => {},
    }
}

/// A chunk is cut off the stream where it ends, whatever follows it.
pub proof fn lemma_first_chunk_of_concat(wire: Seq<u8>, rest: Seq<u8>, header_len: nat)
    requires
        is_chunk(wire, header_len),
    ensures
        first_chunk(wire + rest, header_len) == Some(wire),
        (wire + rest).skip(wire.len() as int) == rest,
{
    let stream = wire + rest;
    assert(stream.subrange(0, header_len as int) =~= wire.subrange(0, header_len as int));
    assert(stream.subrange(0, wire.len() as int) =~= wire);
    assert(stream.skip(wire.len() as int) =~= rest);
}

/// The chunks that a stream holds in full, in order.
pub open spec fn chunks_of(stream: Seq<u8>, header_len: nat) -> Seq<Seq<u8>>
    decreases stream.len(),
{
    match first_chunk(stream, header_len) {
        Some(wire) => if header_len >= 1 {
            seq![wire] + chunks_of(stream.skip(wire.len() as int), header_len)
        } else {
            Seq::empty()
        },
        None => Seq::empty(),
    }
}

/// The stream made of `chunks`, one after the other.
pub open spec fn joined(chunks: Seq<Seq<u8>>) -> Seq<u8>
    decreases chunks.len(),
{
    if chunks.len() == 0 {
        Seq::empty()
    } else {
        chunks[0] + joined(chunks.skip(1))
    }
}

/// Cutting undoes joining: a stream made of chunks holds exactly these
/// chunks, in the order in which they were joined. Where the bytes of the
/// stream were broken up on arrival plays no part, for what is handed out
/// depends on the stream alone.
pub proof fn lemma_chunks_of_joined(chunks: Seq<Seq<u8>>, header_len: nat)
    requires
        header_len >= 1,
        forall|i: int| 0 <= i < chunks.len() ==> is_chunk(#[trigger] chunks[i], header_len),
    ensures
        chunks_of(joined(chunks), header_len) == chunks,
    decreases chunks.len(),
{
    if chunks.len() == 0 {
        assert(first_chunk(joined(chunks), header_len) is None);
        assert(chunks_of(joined(chunks), header_len) =~= chunks);
    } else {
        let head = chunks[0];
        let tail = chunks.skip(1);
        assert forall|i: int| 0 <= i < tail.len() implies is_chunk(
            #[trigger] tail[i],
            header_len,
        ) by {
            assert(tail[i] == chunks[i + 1]);
        }
        lemma_chunks_of_joined(tail, header_len);
        lemma_first_chunk_of_concat(head, joined(tail), header_len);
        assert(chunks_of(joined(chunks), header_len) =~= chunks);
    }
}

/// No chunk is handed out before its last byte has arrived.
pub proof fn lemma_no_chunk_before_its_end(wire: Seq<u8>, arrived: int, header_len: nat)
    requires
        is_chunk(wire, header_len),
        0 <= arrived < wire.len(),
    ensures
        first_chunk(wire.subrange(0, arrived), header_len) is None,
{
    let part = wire.subrange(0, arrived);
    if arrived >= header_len {
        assert(part.subrange(0, header_len as int) =~= wire.subrange(0, header_len as int));
    }
}

} // verus!
