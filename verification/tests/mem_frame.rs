use cobra_rs::mem::frame::{Frame, FrameError, MAX_BODY_LEN};
use cobra_rs::sync::kind_pool::Kind;

#[test]
fn simple_frame() {
    let data = vec![1_u8, 2, 3];
    let frame = Frame::create(1_u8, &data).unwrap();

    assert_eq!(frame.to_vec(), vec![0_u8, 4, 1, 1, 2, 3]);
    assert_eq!(frame.get_body().to_vec(), vec![1_u8, 2, 3]);
}

#[test]
fn frame_parts() {
    let frame = Frame::create(7, &[0xAA, 0xBB]).unwrap();

    assert_eq!(frame.kind(), 7);
    assert_eq!(frame.body(), &[0xAA, 0xBB]);
    assert_eq!(frame.bytes(), &[0, 3, 7, 0xAA, 0xBB]);
    assert_eq!(frame.len(), 5);
}

#[test]
fn empty_body_frame() {
    let frame = Frame::create(9, &[]).unwrap();

    assert_eq!(frame.to_vec(), vec![0_u8, 1, 9]);
    assert_eq!(frame.kind(), 9);
    assert!(frame.body().is_empty());
    assert!(frame.get_body().is_empty());
}

#[test]
fn length_field_is_big_endian() {
    let body = vec![5_u8; 0x0102];
    let frame = Frame::create(0, &body).unwrap();

    assert_eq!(&frame.bytes()[..3], &[0x01, 0x03, 0]);
    assert_eq!(frame.len(), 3 + 0x0102);
}

#[test]
fn largest_body_frame() {
    let body = vec![3_u8; MAX_BODY_LEN];
    let frame = Frame::create(2, &body).unwrap();

    assert_eq!(&frame.bytes()[..3], &[0xFF, 0xFF, 2]);
    assert_eq!(frame.len(), 65537);
    assert_eq!(frame.body(), &body[..]);
}

#[test]
fn body_too_large() {
    let body = vec![0_u8; MAX_BODY_LEN + 1];

    assert!(matches!(Frame::create(1, &body), Err(FrameError::BodyTooLarge)));
}
