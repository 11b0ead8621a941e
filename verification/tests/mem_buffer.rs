use bytes::BytesMut;
use cobra_rs::mem::buffer::{BufferError, Chunk, ConcatBuf};
use cobra_rs::mem::frame::Frame;
use cobra_rs::sync::kind_pool::Kind;
use vstd::seq::Seq;

#[derive(Debug)]
struct TestChunk {
    inner: BytesMut,
}

impl TestChunk {
    fn as_bytes(&self) -> &[u8] {
        &self.inner[Self::header_len()..]
    }
}

impl Chunk for TestChunk {
    fn spec_header_len() -> usize {
        2
    }

    fn spec_accepts(_body_len: usize) -> bool {
        true
    }

    fn wire(&self) -> Seq<u8> {
        unreachable!()
    }

    fn header_len() -> usize {
        2
    }

    fn from_wire(wire: BytesMut) -> Result<Self, BytesMut> {
        Ok(TestChunk { inner: wire })
    }
}

// [0 1](1)[0 2](1 2)[0 3](1 2 3)
#[test]
fn simple_chunks() {
    let mut buffer: ConcatBuf<TestChunk> = ConcatBuf::default();

    buffer.put_uint(1, TestChunk::header_len());
    buffer.put_u8(1);

    buffer.put_uint(2, TestChunk::header_len());
    buffer.put_u8(1);
    buffer.put_u8(2);

    buffer.put_uint(3, TestChunk::header_len());
    buffer.put_u8(1);
    buffer.put_u8(2);
    buffer.put_u8(3);

    assert_eq!(buffer.try_read_chunk().unwrap().as_bytes(), vec![1]);
    assert_eq!(buffer.try_read_chunk().unwrap().as_bytes(), vec![1, 2]);
    assert_eq!(buffer.try_read_chunk().unwrap().as_bytes(), vec![1, 2, 3]);
}

// [0 5](1 2 3 4 5)
#[test]
fn partial_chunk() {
    let mut buffer: ConcatBuf<TestChunk> = ConcatBuf::default();

    buffer.put_u8(0);
    assert!(buffer.try_read_chunk().is_none());

    buffer.put_u8(5);
    assert!(buffer.try_read_chunk().is_none());

    for i in 1..5 {
        buffer.put_u8(i);
        assert!(buffer.try_read_chunk().is_none());
    }

    buffer.put_u8(5);
    assert_eq!(buffer.try_read_chunk().unwrap().as_bytes(), vec![1, 2, 3, 4, 5]);
}

// [0 2](1 2)[0 2](3 4)
#[test]
fn next_chunk_partial_header() {
    let mut buffer: ConcatBuf<TestChunk> = ConcatBuf::default();

    buffer.put_uint(2, TestChunk::header_len());

    buffer.put_u8(1);
    buffer.put_u8(2);

    buffer.put_u8(0);

    assert_eq!(buffer.try_read_chunk().unwrap().as_bytes(), vec![1, 2]);
    assert!(buffer.try_read_chunk().is_none());

    buffer.put_u8(2);

    buffer.put_u8(3);
    buffer.put_u8(4);

    assert_eq!(buffer.try_read_chunk().unwrap().as_bytes(), vec![3, 4]);
}

// [0 2](1 2)[0 2](3 4)
#[test]
fn next_chunk_partial_body() {
    let mut buffer: ConcatBuf<TestChunk> = ConcatBuf::default();

    buffer.put_uint(2, TestChunk::header_len());

    buffer.put_u8(1);
    buffer.put_u8(2);

    buffer.put_uint(2, TestChunk::header_len());

    buffer.put_u8(3);

    assert_eq!(buffer.try_read_chunk().unwrap().as_bytes(), vec![1, 2]);
    assert!(buffer.try_read_chunk().is_none());

    buffer.put_u8(4);

    assert_eq!(buffer.try_read_chunk().unwrap().as_bytes(), vec![3, 4]);
}

// [255 255](0){65535}[255 255](1){65535}
#[test]
fn max_len_chunks() {
    let mut buffer: ConcatBuf<TestChunk> = ConcatBuf::default();

    buffer.put_uint(65535, TestChunk::header_len());
    for _ in 0..65535 {
        buffer.put_u8(0);
    }

    buffer.put_uint(65535, TestChunk::header_len());
    for _ in 0..65535 {
        buffer.put_u8(1);
    }

    assert_eq!(buffer.try_read_chunk().unwrap().as_bytes(), vec![0; 65535]);
    assert_eq!(buffer.try_read_chunk().unwrap().as_bytes(), vec![1; 65535]);
}

// [0 0]()[0 0]()
#[test]
fn mem_buffer_zero_len_chunks() {
    let mut buffer: ConcatBuf<TestChunk> = ConcatBuf::default();

    buffer.put_uint(0, TestChunk::header_len());
    buffer.put_uint(0, TestChunk::header_len());

    assert_eq!(buffer.try_read_chunk().unwrap().as_bytes(), vec![]);
    assert_eq!(buffer.try_read_chunk().unwrap().as_bytes(), vec![]);
}

// [0 1](1)
#[test]
fn buffer_cleaning() {
    let mut buffer: ConcatBuf<TestChunk> = ConcatBuf::default();

    buffer.put_uint(1, TestChunk::header_len());
    buffer.put_u8(1);

    buffer.try_read_chunk();
    assert_eq!(buffer.len(), 0);

    assert!(buffer.try_read_chunk().is_none());
    assert_eq!(buffer.len(), 0);
}

// [0 1](1)[0..
#[test]
fn header_moving() {
    let mut buffer: ConcatBuf<TestChunk> = ConcatBuf::default();

    buffer.put_uint(1, TestChunk::header_len());
    buffer.put_u8(1);

    buffer.put_u8(1);

    buffer.try_read_chunk();
    assert_eq!(buffer.len(), 1);

    assert!(buffer.try_read_chunk().is_none());
    assert_eq!(buffer.len(), 1);

    assert_eq!(buffer.as_slice()[0], 1);
}

// [0 1](0)[0 2](0 1)..[0 255](0..255)
#[test]
fn mem_buffer_stress_test() {
    let mut buffer: ConcatBuf<TestChunk> = ConcatBuf::default();

    for capacity in 0..255 {
        buffer.put_uint(capacity, TestChunk::header_len());
        for i in 0..capacity {
            buffer.put_u8(i as u8);
        }
    }

    for capacity in 0..255 {
        let v: Vec<u8> = (0_u8..capacity).collect();
        assert_eq!(buffer.try_read_chunk().unwrap().as_bytes(), v);
    }
}

const STREAM: [u8; 12] = [0x00, 0x01, 0xAA, 0x00, 0x02, 0xBB, 0xCC, 0x00, 0x03, 0x01, 0x02, 0x03];

#[test]
fn framing_boundary() {
    let mut buffer: ConcatBuf<TestChunk> = ConcatBuf::default();

    buffer.put_slice(&STREAM);

    assert_eq!(buffer.try_read_chunk().unwrap().as_bytes(), vec![0xAA]);
    assert_eq!(buffer.try_read_chunk().unwrap().as_bytes(), vec![0xBB, 0xCC]);
    assert_eq!(buffer.try_read_chunk().unwrap().as_bytes(), vec![0x01, 0x02, 0x03]);
    assert!(buffer.try_read_chunk().is_none());
}

#[test]
fn framing_boundary_of_frames() {
    let mut buffer: ConcatBuf<Frame> = ConcatBuf::default();

    buffer.put_slice(&STREAM);

    let first = buffer.try_read_chunk().unwrap();
    assert_eq!(first.kind(), 0xAA);
    assert!(first.body().is_empty());
    let second = buffer.try_read_chunk().unwrap();
    assert_eq!(second.kind(), 0xBB);
    assert_eq!(second.body(), &[0xCC]);
    let third = buffer.try_read_chunk().unwrap();
    assert_eq!(third.kind(), 0x01);
    assert_eq!(third.body(), &[0x02, 0x03]);
    assert!(buffer.try_read_chunk().is_none());
    assert!(!buffer.is_blocked());
}

#[test]
fn byte_by_byte_arrival() {
    let mut buffer: ConcatBuf<TestChunk> = ConcatBuf::default();
    let mut chunks: Vec<(usize, Vec<u8>)> = Vec::new();

    for (at, byte) in STREAM.iter().enumerate() {
        buffer.put_u8(*byte);
        if let Some(chunk) = buffer.try_read_chunk() {
            chunks.push((at, chunk.as_bytes().to_vec()));
        }
        assert!(buffer.try_read_chunk().is_none());
    }

    assert_eq!(
        chunks,
        vec![(2, vec![0xAA]), (6, vec![0xBB, 0xCC]), (11, vec![0x01, 0x02, 0x03])]
    );
}

#[test]
fn max_sized_frames() {
    let mut buffer: ConcatBuf<Frame> = ConcatBuf::default();
    let first = Frame::create(1, &vec![0x11; 65534]).unwrap();
    let second = Frame::create(2, &vec![0x22; 65534]).unwrap();

    buffer.put_slice(first.bytes());
    buffer.put_slice(second.bytes());

    let frame = buffer.try_read_chunk().unwrap();
    assert_eq!(frame.len(), 65537);
    assert_eq!(frame.kind(), 1);
    assert_eq!(frame.body(), &vec![0x11; 65534][..]);
    let frame = buffer.try_read_chunk().unwrap();
    assert_eq!(frame.kind(), 2);
    assert_eq!(frame.body(), &vec![0x22; 65534][..]);
    assert!(buffer.try_read_chunk().is_none());
}

#[test]
fn header_split_across_reads() {
    let mut buffer: ConcatBuf<TestChunk> = ConcatBuf::default();

    buffer.put_slice(&[0x01]);
    assert!(buffer.try_read_chunk().is_none());
    buffer.put_slice(&[0x00]);
    assert!(buffer.try_read_chunk().is_none());
    buffer.put_slice(&vec![7; 255]);
    assert!(buffer.try_read_chunk().is_none());
    buffer.put_slice(&[8, 9]);

    let chunk = buffer.try_read_chunk().unwrap();
    let mut expected = vec![7; 255];
    expected.push(8);
    assert_eq!(chunk.as_bytes(), expected);
    assert_eq!(buffer.as_slice(), &[9]);
}

#[test]
fn nothing_is_lost() {
    let mut buffer: ConcatBuf<TestChunk> = ConcatBuf::default();
    let fed: Vec<u8> = vec![0, 2, 10, 11, 0, 0, 0, 3, 12, 13, 14, 0, 4, 15];

    let mut seen: Vec<u8> = Vec::new();
    for part in fed.chunks(3) {
        buffer.put_slice(part);
        while let Some(chunk) = buffer.try_read_chunk() {
            seen.extend_from_slice(&chunk.inner);
        }
    }

    assert_eq!(seen, &fed[..11]);
    assert_eq!(seen.len() + 3, fed.len());
}

#[test]
fn chunk_without_kind_is_no_frame() {
    let mut buffer: ConcatBuf<Frame> = ConcatBuf::default();

    buffer.put_slice(&[0, 1, 5, 0, 0, 0, 1, 6]);

    assert_eq!(buffer.try_read_chunk().unwrap().kind(), 5);
    assert!(!buffer.is_blocked());
    assert!(buffer.try_read_chunk().is_none());
    assert!(buffer.is_blocked());
    assert!(buffer.try_read_chunk().is_none());
    assert!(buffer.is_blocked());
}

#[test]
fn insufficient_capacity() {
    let least = 2 * (2 + 65535);

    assert!(matches!(
        ConcatBuf::<TestChunk>::with_capacity(least - 1),
        Err(BufferError::InsufficientCapacity)
    ));
    assert!(matches!(
        ConcatBuf::<TestChunk>::with_capacity(0),
        Err(BufferError::InsufficientCapacity)
    ));
    let mut buffer = ConcatBuf::<TestChunk>::with_capacity(least).unwrap();
    buffer.put_slice(&[0, 1, 4]);
    assert_eq!(buffer.try_read_chunk().unwrap().as_bytes(), vec![4]);
}

#[test]
fn max_body_len_of_two_byte_header() {
    assert_eq!(TestChunk::max_body_len(), 65535);
    assert_eq!(Frame::max_body_len(), 65535);
    assert_eq!(Frame::header_len(), 2);
}
