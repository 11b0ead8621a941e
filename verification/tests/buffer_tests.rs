use bytes::BytesMut;
use cobra_rs::mem::buffer::{Chunk, ConcatBuf};
use vstd::seq::Seq;

#[derive(Debug)]
struct BodyChunk {
    inner: Vec<u8>,
}

impl Chunk for BodyChunk {
    fn spec_header_len() -> usize {
        2
    }

    fn spec_accepts(_body_len: usize) -> bool {
        true
    }

    fn wire(&self) -> Seq<u8> {
        unreachable!()
    }

    fn header_len() -> usize {
        2
    }

    fn from_wire(wire: BytesMut) -> Result<Self, BytesMut> {
        Ok(BodyChunk { inner: wire[Self::header_len()..].to_vec() })
    }
}

// [0 1](255)[0 2](255 255)[0 3](255 255 255)
#[test]
fn example() {
    let mut buffer: ConcatBuf<BodyChunk> = ConcatBuf::default();

    buffer.put_uint(1, BodyChunk::header_len());
    buffer.put_u8(10);

    buffer.put_uint(2, BodyChunk::header_len());
    buffer.put_u8(11);
    buffer.put_u8(12);

    buffer.put_uint(3, BodyChunk::header_len());
    buffer.put_u8(13);
    buffer.put_u8(14);
    buffer.put_u8(15);

    assert_eq!(buffer.try_read_chunk().unwrap().inner, vec![10]);

    assert_eq!(buffer.try_read_chunk().unwrap().inner, vec![11, 12]);

    assert_eq!(buffer.try_read_chunk().unwrap().inner, vec![13, 14, 15]);
}

// [0 1](1)
#[test]
fn partial_header_input() {
    let mut buffer: ConcatBuf<BodyChunk> = ConcatBuf::default();

    buffer.put_u8(0);
    buffer.put_u8(1);

    buffer.put_u8(1);

    assert_eq!(buffer.try_read_chunk().unwrap().inner, vec![1]);
}

// [1 1](0..0)
#[test]
fn big_partial_header_input() {
    let mut buffer: ConcatBuf<BodyChunk> = ConcatBuf::default();

    buffer.put_u8(1);
    buffer.put_u8(1);

    for _ in 0..257 {
        buffer.put_u8(0);
    }

    assert_eq!(buffer.try_read_chunk().unwrap().inner, vec![0; 257]);
}

// [0 10](0 1 2 3 4 5 6 7 8 9)
#[test]
fn none_response() {
    let mut buffer: ConcatBuf<BodyChunk> = ConcatBuf::default();

    buffer.put_u8(0);
    assert!(buffer.try_read_chunk().is_none());
    buffer.put_u8(10);
    assert!(buffer.try_read_chunk().is_none());

    for i in 0..9 {
        buffer.put_u8(i);
        assert!(buffer.try_read_chunk().is_none());
    }
    buffer.put_u8(9);

    assert_eq!(buffer.try_read_chunk().unwrap().inner, vec![0, 1, 2, 3, 4, 5, 6, 7, 8, 9]);
}

// [0 2](1 2)[0 2](3 4)
#[test]
fn partial_body_read() {
    let mut buffer: ConcatBuf<BodyChunk> = ConcatBuf::default();

    buffer.put_uint(2, BodyChunk::header_len());

    buffer.put_u8(1);
    buffer.put_u8(2);

    buffer.put_uint(2, BodyChunk::header_len());

    buffer.put_u8(3);

    assert_eq!(buffer.try_read_chunk().unwrap().inner, vec![1, 2]);
    assert!(buffer.try_read_chunk().is_none());

    buffer.put_u8(4);

    assert_eq!(buffer.try_read_chunk().unwrap().inner, vec![3, 4]);
}

// [0 2](1 2)[0 2](3 4)
#[test]
fn partial_head_read() {
    let mut buffer: ConcatBuf<BodyChunk> = ConcatBuf::default();

    buffer.put_uint(2, BodyChunk::header_len());

    buffer.put_u8(1);
    buffer.put_u8(2);

    buffer.put_u8(0);

    assert_eq!(buffer.try_read_chunk().unwrap().inner, vec![1, 2]);
    assert!(buffer.try_read_chunk().is_none());

    buffer.put_u8(2);

    buffer.put_u8(3);
    buffer.put_u8(4);

    assert_eq!(buffer.try_read_chunk().unwrap().inner, vec![3, 4]);
}

// [0 1](0)[0 2](0 1)..[0 255](0..255)
#[test]
fn buffer_tests_stress_test() {
    let mut buffer: ConcatBuf<BodyChunk> = ConcatBuf::default();

    for capacity in 0..255 {
        buffer.put_uint(capacity, BodyChunk::header_len());
        for i in 0..capacity {
            buffer.put_u8(i as u8);
        }
    }

    for capacity in 0..255 {
        let v: Vec<u8> = (0u8..capacity).collect();
        assert_eq!(buffer.try_read_chunk().unwrap().inner, v);
    }
}

// [255 255](0..0)[255 255)[1..1]
#[test]
fn huge_chunks() {
    let mut buffer: ConcatBuf<BodyChunk> = ConcatBuf::default();

    buffer.put_uint(65535, BodyChunk::header_len());
    for _ in 0..65535 {
        buffer.put_u8(0);
    }

    buffer.put_uint(65535, BodyChunk::header_len());
    for _ in 0..65535 {
        buffer.put_u8(1);
    }

    assert_eq!(buffer.try_read_chunk().unwrap().inner, vec![0; 65535]);
    assert_eq!(buffer.try_read_chunk().unwrap().inner, vec![1; 65535]);
}

// [0 0]()[0 0]()[0 0]()
#[test]
fn buffer_tests_zero_len_chunks() {
    let mut buffer: ConcatBuf<BodyChunk> = ConcatBuf::default();

    buffer.put_uint(0, BodyChunk::header_len());
    buffer.put_uint(0, BodyChunk::header_len());
    buffer.put_uint(0, BodyChunk::header_len());

    assert_eq!(buffer.try_read_chunk().unwrap().inner, vec![]);
    assert_eq!(buffer.try_read_chunk().unwrap().inner, vec![]);
    assert_eq!(buffer.try_read_chunk().unwrap().inner, vec![]);
}
