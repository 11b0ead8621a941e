//! The frame: one unit on the wire, made of a length, a kind and a body.
//!
//! ```text
//! +------------------+--------+----------------+
//! | length (2 bytes) |  kind  | body (L - 1 B) |
//! +------------------+--------+----------------+
//! ```
//!
//! The length is big-endian and counts the kind and the body.

use crate::mem::buffer::{chunk_len, header_len_fits, is_chunk, max_body, Chunk};
use crate::mem::bytes_buf::{
    be_bytes, be_value, buf_as_slice, buf_bytes, buf_len, buf_put_slice, buf_put_uint,
    buf_split_off, buf_with_capacity,
};
use crate::mem::endian::{lemma_be_bytes_len, lemma_be_value_bound, lemma_be_value_of_bytes, pow256};
use crate::sync::kind_pool::Kind;
use bytes::BytesMut;
use vstd::prelude::*;
use vstd::slice::{slice_index_get, slice_subrange, slice_to_vec};

verus! {

/// Bytes of the length field.
pub const HEADER_LEN_BYTES: usize = 2;

/// Bytes of the kind field.
pub const HEADER_KIND_BYTES: usize = 1;

/// Bytes in front of the body.
pub const HEADER_BYTES: usize = HEADER_LEN_BYTES + HEADER_KIND_BYTES;

/// The longest body a frame can carry: the length field counts the kind too.
pub const MAX_BODY_LEN: usize = 65534;

/// Why a frame could not be made.
#[derive(Debug, Clone, Copy, PartialEq, Eq, Structural)]
pub enum FrameError {
    /// The body and the kind together are more than the length field can
    /// announce.
    BodyTooLarge,
}

/// The wire form of a frame of kind `kind` with body `body`.
pub open spec fn frame_wire(kind: u8, body: Seq<u8>) -> Seq<u8> {
    be_bytes((body.len() + 1) as nat, HEADER_LEN_BYTES as nat).push(kind) + body
}

/// `wire` is the wire form of some frame: one whole chunk with at least the
/// kind in it.
pub open spec fn is_frame(wire: Seq<u8>) -> bool {
    wire.len() >= HEADER_BYTES && is_chunk(wire, HEADER_LEN_BYTES as nat)
}

/// The kind of the frame with wire form `wire`.
pub open spec fn frame_kind(wire: Seq<u8>) -> u8
    recommends
        is_frame(wire),
{
    wire[HEADER_LEN_BYTES as int]
}

/// The body of the frame with wire form `wire`.
pub open spec fn frame_body(wire: Seq<u8>) -> Seq<u8>
    recommends
        is_frame(wire),
{
    wire.skip(HEADER_BYTES as int)
}

/// Two bytes tell 65536 values apart, and two frames of the greatest size
/// fit into one allocation.
pub proof fn lemma_header_len_fits()
    ensures
        pow256(HEADER_LEN_BYTES as nat) == 65536,
        max_body(HEADER_LEN_BYTES as nat) == 65535,
        header_len_fits(HEADER_LEN_BYTES as nat),
{
    assert(pow256(0) == 1);
    assert(pow256(1) == 256);
    assert(pow256(2) == 65536);
}

/// What is put into a frame is what is found in it: the wire form of
/// `(kind, body)` is a frame of that kind with that body, three bytes longer
/// than the body.
pub proof fn lemma_frame_round_trip(kind: u8, body: Seq<u8>)
    requires
        body.len() <= MAX_BODY_LEN,
    ensures
        is_frame(frame_wire(kind, body)),
        frame_kind(frame_wire(kind, body)) == kind,
        frame_body(frame_wire(kind, body)) == body,
        frame_wire(kind, body).len() == HEADER_BYTES + body.len(),
        chunk_len(frame_wire(kind, body), HEADER_LEN_BYTES as nat) == frame_wire(kind, body).len(),
{
    let announced = (body.len() + 1) as nat;
    let header = be_bytes(announced, HEADER_LEN_BYTES as nat);
    let wire = frame_wire(kind, body);
    lemma_header_len_fits();
    lemma_be_bytes_len(announced, HEADER_LEN_BYTES as nat);
    lemma_be_value_of_bytes(announced, HEADER_LEN_BYTES as nat);
    assert(wire.subrange(0, HEADER_LEN_BYTES as int) =~= header);
    assert(wire.skip(HEADER_BYTES as int) =~= body);
}

/// Every frame is the wire form of its kind and its body, and its body is
/// no longer than a frame can carry.
pub proof fn lemma_frame_is_wire_of_parts(wire: Seq<u8>)
    requires
        is_frame(wire),
    ensures
        frame_body(wire).len() <= MAX_BODY_LEN,
        wire == frame_wire(frame_kind(wire), frame_body(wire)),
{
    let header = wire.subrange(0, HEADER_LEN_BYTES as int);
    lemma_header_len_fits();
    lemma_be_value_bound(header);
    crate::mem::endian::lemma_be_bytes_of_value(header);
    assert(wire =~= frame_wire(frame_kind(wire), frame_body(wire)));
}

/// A unit of communication on a stream: a kind and a body in wire form.
pub struct Frame {
    inner: BytesMut,
}

impl View for Frame {
    type V = Seq<u8>;

    /// The frame as it travels.
    closed spec fn view(&self) -> Seq<u8> {
        buf_bytes(self.inner)
    }
}

impl Frame {
    #[verifier::type_invariant]
    closed spec fn well_formed(&self) -> bool {
        is_frame(buf_bytes(self.inner))
    }

    /// Creates the frame of kind `kind` with body `body`.
    ///
    /// Fails when the body is longer than a frame can carry.
    pub fn create(kind: u8, body: &[u8]) -> (frame: Result<Self, FrameError>)
        ensures
            match frame {
                Ok(frame) => body@.len() <= MAX_BODY_LEN && frame@ == frame_wire(kind, body@),
                Err(error) => body@.len() > MAX_BODY_LEN && error == FrameError::BodyTooLarge,
            },
    {
        if body.len() > MAX_BODY_LEN {
            return Err(FrameError::BodyTooLarge);
        }
        let total_len = HEADER_BYTES + body.len();
        let mut inner = buf_with_capacity(total_len);
        proof {
            lemma_be_bytes_len((body@.len() + 1) as nat, HEADER_LEN_BYTES as nat);
            lemma_be_bytes_len(kind as nat, HEADER_KIND_BYTES as nat);
            lemma_frame_round_trip(kind, body@);
        }
        Self::put_header(&mut inner, kind, body.len());
        Self::put_body(&mut inner, body);
        Ok(Frame { inner })
    }

    fn put_header(inner: &mut BytesMut, kind: u8, body_len: usize)
        requires
            buf_bytes(*old(inner)).len() == 0,
            body_len <= MAX_BODY_LEN,
        ensures
            buf_bytes(*final(inner)) == be_bytes(
                (body_len + 1) as nat,
                HEADER_LEN_BYTES as nat,
            ).push(kind),
    {
        proof {
            lemma_be_bytes_len((body_len + 1) as nat, HEADER_LEN_BYTES as nat);
        }
        buf_put_uint(inner, (body_len + HEADER_KIND_BYTES) as u64, HEADER_LEN_BYTES);
        buf_put_uint(inner, kind as u64, HEADER_KIND_BYTES);
        proof {
            let header = be_bytes((body_len + 1) as nat, HEADER_LEN_BYTES as nat);
            assert(be_bytes(kind as nat, 1) =~= Seq::<u8>::empty().push(kind)) by {
                assert(be_bytes((kind as nat) / 256, 0) =~= Seq::<u8>::empty());
            }
            assert(buf_bytes(*inner) =~= header.push(kind));
        }
    }

    fn put_body(inner: &mut BytesMut, body: &[u8])
        requires
            buf_bytes(*old(inner)).len() + body@.len() <= isize::MAX,
        ensures
            buf_bytes(*final(inner)) == buf_bytes(*old(inner)) + body@,
    {
        buf_put_slice(inner, body)
    }

    /// The body of the frame. Nothing is copied.
    pub fn body(&self) -> (body: &[u8])
        ensures
            is_frame(self@),
            body@ == frame_body(self@),
    {
        proof {
            use_type_invariant(self);
        }
        let bytes = buf_as_slice(&self.inner);
        let body = slice_subrange(bytes, HEADER_BYTES, bytes.len());
        proof {
            assert(body@ =~= frame_body(self@));
        }
        body
    }

    /// The frame in wire form, as it is sent.
    pub fn bytes(&self) -> (bytes: &[u8])
        ensures
            is_frame(self@),
            bytes@ == self@,
    {
        proof {
            use_type_invariant(self);
        }
        buf_as_slice(&self.inner)
    }

    /// Number of bytes of the wire form.
    pub fn len(&self) -> (len: usize)
        ensures
            is_frame(self@),
            len == self@.len(),
            len == HEADER_BYTES + frame_body(self@).len(),
    {
        proof {
            use_type_invariant(self);
        }
        buf_len(&self.inner)
    }

    /// A copy of the wire form.
    pub fn to_vec(&self) -> (bytes: Vec<u8>)
        ensures
            is_frame(self@),
            bytes@ == self@,
    {
        slice_to_vec(self.bytes())
    }

    /// Gives up the frame for its body. Nothing is copied.
    pub fn get_body(self) -> (body: BytesMut)
        ensures
            buf_bytes(body) == frame_body(self@),
    {
        proof {
            use_type_invariant(&self);
        }
        let mut inner = self.inner;
        buf_split_off(&mut inner, HEADER_BYTES)
    }
}

impl Kind<u8> for Frame {
    open spec fn spec_kind(&self) -> u8 {
        frame_kind(self@)
    }

    fn kind(&self) -> (kind: u8)
        ensures
            kind == frame_kind(self@),
    {
        proof {
            use_type_invariant(self);
        }
        *slice_index_get(buf_as_slice(&self.inner), HEADER_LEN_BYTES)
    }
}

impl Chunk for Frame {
    open spec fn spec_header_len() -> usize {
        HEADER_LEN_BYTES
    }

    /// A frame has at least its kind.
    open spec fn spec_accepts(body_len: usize) -> bool {
        body_len >= HEADER_KIND_BYTES
    }

    open spec fn wire(&self) -> Seq<u8> {
        self@
    }

    fn header_len() -> (len: usize) {
        proof {
            lemma_header_len_fits();
        }
        HEADER_LEN_BYTES
    }

    fn from_wire(wire: BytesMut) -> (chunk: Result<Self, BytesMut>)
        ensures
            chunk matches Ok(frame) ==> frame@ == buf_bytes(wire),
    {
        if buf_len(&wire) >= HEADER_BYTES {
            Ok(Frame { inner: wire })
        } else {
            Err(wire)
        }
    }
}

} // verus!
