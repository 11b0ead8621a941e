use cobra_rs::mem::frame::Frame;
use cobra_rs::sync::kind_pool::{Kind, KindPoolState};
use cobra_rs::sync::pool::{Deposit, Pickup, PoolState, WriteError};
use cobra_rs::transport::conn::{
    ConnEvent, ConnPhase, ConnReader, ConnState, ConnWriter, ReadAction, ReadEvent, WriteAction,
    WriteEvent,
};
use cobra_rs::transport::listener::{AcceptAction, AcceptEvent, Listener};

fn delivered(action: ReadAction) -> Frame {
    match action {
        ReadAction::Deliver(frame) => frame,
        ReadAction::Read => panic!("asked for more bytes"),
        ReadAction::Close => panic!("worker ended"),
    }
}

#[test]
fn reader_delivers_frames_in_order() {
    let mut reader = ConnReader::create();
    let first = Frame::create(1, &[1, 2, 3]).unwrap();
    let second = Frame::create(2, &[4]).unwrap();
    let mut stream = first.to_vec();
    stream.extend_from_slice(second.bytes());

    let frame = delivered(reader.on_read(ReadEvent::Received(&stream)));
    assert_eq!(frame.to_vec(), first.to_vec());
    let frame = delivered(reader.on_delivered(Ok(())));
    assert_eq!((frame.kind(), frame.body()), (2, &[4_u8][..]));
    assert!(matches!(reader.on_delivered(Ok(())), ReadAction::Read));
}

#[test]
fn reader_waits_for_the_rest_of_a_frame() {
    let mut reader = ConnReader::create();

    assert!(matches!(reader.on_read(ReadEvent::Received(&[0])), ReadAction::Read));
    assert!(matches!(reader.on_read(ReadEvent::WouldBlock), ReadAction::Read));
    assert!(matches!(reader.on_read(ReadEvent::Received(&[3, 9])), ReadAction::Read));
    assert!(matches!(reader.on_read(ReadEvent::Received(&[8])), ReadAction::Read));
    let frame = delivered(reader.on_read(ReadEvent::Received(&[7, 0])));
    assert_eq!(frame.to_vec(), vec![0, 3, 9, 8, 7]);
    assert!(matches!(reader.on_delivered(Ok(())), ReadAction::Read));
}

#[test]
fn reader_ends_with_the_stream() {
    let mut reader = ConnReader::create();
    assert!(matches!(reader.on_read(ReadEvent::Eof), ReadAction::Close));
    assert!(matches!(reader.on_read(ReadEvent::Received(&[0, 1, 1])), ReadAction::Close));

    let mut reader = ConnReader::create();
    assert!(matches!(reader.on_read(ReadEvent::Failed), ReadAction::Close));
    assert!(matches!(reader.on_read(ReadEvent::WouldBlock), ReadAction::Close));

    let mut reader = ConnReader::create();
    assert!(matches!(reader.on_read(ReadEvent::NotReadable), ReadAction::Close));
    assert!(matches!(reader.on_delivered(Ok(())), ReadAction::Close));
}

#[test]
fn reader_ends_when_the_pool_is_closed() {
    let mut reader = ConnReader::create();
    let stream = [0, 1, 1, 0, 1, 2];

    let frame = delivered(reader.on_read(ReadEvent::Received(&stream)));
    assert!(matches!(reader.on_delivered(Err(WriteError::Closed(frame))), ReadAction::Close));
    assert!(matches!(reader.on_read(ReadEvent::WouldBlock), ReadAction::Close));
}

#[test]
fn reader_goes_on_after_a_rejected_frame() {
    let mut reader = ConnReader::create();
    let stream = [0, 1, 1, 0, 1, 2];

    let frame = delivered(reader.on_read(ReadEvent::Received(&stream)));
    let frame = delivered(reader.on_delivered(Err(WriteError::Rejected(frame))));
    assert_eq!(frame.kind(), 2);
}

#[test]
fn reader_ends_on_a_chunk_that_is_no_frame() {
    let mut reader = ConnReader::create();

    assert!(matches!(reader.on_read(ReadEvent::Received(&[0, 0, 0, 1, 1])), ReadAction::Close));
    assert!(matches!(reader.on_read(ReadEvent::Received(&[0, 1, 1])), ReadAction::Close));
}

#[test]
fn reader_feeds_the_inbound_pool() {
    let mut reader = ConnReader::create();
    let mut inbound: KindPoolState<u8, Frame> = KindPoolState::new();
    let stream = [0, 2, 5, 50, 0, 2, 6, 60];

    let frame = delivered(reader.on_read(ReadEvent::Received(&stream)));
    assert!(matches!(inbound.write_value(frame), Deposit::Stored));
    let frame = delivered(reader.on_delivered(Ok(())));
    assert!(matches!(inbound.write_value(frame), Deposit::Stored));

    let guard = match inbound.read_value(6) {
        Pickup::Taken(guard) => guard,
        _ => panic!("nothing to read"),
    };
    assert_eq!(inbound.accept(guard).body(), &[60]);
    let guard = match inbound.read_value(5) {
        Pickup::Taken(guard) => guard,
        _ => panic!("nothing to read"),
    };
    assert_eq!(inbound.accept(guard).body(), &[50]);
}

#[test]
fn writer_accepts_after_the_last_byte() {
    let mut writer = ConnWriter::create();

    assert_eq!(writer.on_idle(), WriteAction::Take);
    assert_eq!(writer.on_frame(10), WriteAction::Write(0));
    assert_eq!(writer.on_write(WriteEvent::Wrote(4)), WriteAction::Write(4));
    assert_eq!(writer.on_write(WriteEvent::WouldBlock), WriteAction::Write(4));
    assert_eq!(writer.on_write(WriteEvent::Wrote(5)), WriteAction::Write(9));
    assert_eq!(writer.on_write(WriteEvent::Wrote(1)), WriteAction::Accept);
    assert_eq!(writer.on_idle(), WriteAction::Take);
    assert_eq!(writer.on_frame(3), WriteAction::Write(0));
    assert_eq!(writer.on_write(WriteEvent::Wrote(3)), WriteAction::Accept);
}

#[test]
fn writer_rejects_when_the_socket_fails() {
    let mut writer = ConnWriter::create();

    assert_eq!(writer.on_frame(10), WriteAction::Write(0));
    assert_eq!(writer.on_write(WriteEvent::Wrote(4)), WriteAction::Write(4));
    assert_eq!(writer.on_write(WriteEvent::Failed), WriteAction::Reject);
    assert_eq!(writer.on_frame(5), WriteAction::Reject);
    assert_eq!(writer.on_frame(6), WriteAction::Reject);
    assert_eq!(writer.on_idle(), WriteAction::Close);

    let mut writer = ConnWriter::create();
    assert_eq!(writer.on_frame(10), WriteAction::Write(0));
    assert_eq!(writer.on_write(WriteEvent::NotWritable), WriteAction::Reject);
    assert_eq!(writer.on_idle(), WriteAction::Close);
}

#[test]
fn ok_count_equals_frames_delivered() {
    let mut writer = ConnWriter::create();
    let mut outbound: PoolState<Frame> = PoolState::new();
    let mut socket: Vec<u8> = Vec::new();
    let mut told_ok = 0;
    let mut told_rejected = 0;
    let fails_at_frame = 3;

    for number in 0..5_u8 {
        let frame = Frame::create(number, &[number; 4]).unwrap();
        assert!(matches!(outbound.write_value(frame), Deposit::Stored));
        let guard = match outbound.read_value() {
            Pickup::Taken(guard) => guard,
            _ => panic!("nothing to read"),
        };
        let mut action = writer.on_frame(guard.get().len());
        loop {
            match action {
                WriteAction::Write(from) => {
                    let event = if number == fails_at_frame {
                        WriteEvent::Failed
                    } else {
                        let end = (from + 3).min(guard.get().len());
                        socket.extend_from_slice(&guard.get().bytes()[from..end]);
                        WriteEvent::Wrote(end - from)
                    };
                    action = writer.on_write(event);
                }
                WriteAction::Accept => {
                    guard.accept(&mut outbound);
                    break;
                }
                WriteAction::Reject => {
                    guard.reject(&mut outbound);
                    break;
                }
                _ => panic!("no frame at hand"),
            }
        }
        match outbound.wait_response().unwrap() {
            Ok(()) => told_ok += 1,
            Err(WriteError::Rejected(frame)) => {
                assert_eq!(frame.kind(), number);
                told_rejected += 1;
            }
            Err(WriteError::Closed(_)) => panic!("pool closed"),
        }
    }

    assert_eq!((told_ok, told_rejected), (3, 2));
    assert_eq!(socket.len(), 3 * 7);
    assert_eq!(writer.on_idle(), WriteAction::Close);
}

#[test]
fn connection_phases() {
    let mut state = ConnState::new();
    assert_eq!(state.phase(), ConnPhase::Open);
    assert_eq!(state.on_event(ConnEvent::ReadEnded), ConnPhase::Draining);
    assert!(!state.reading && state.writing);
    assert_eq!(state.on_event(ConnEvent::ReadEnded), ConnPhase::Draining);
    assert_eq!(state.on_event(ConnEvent::WriteEnded), ConnPhase::Closed);

    let mut state = ConnState::new();
    assert_eq!(state.on_event(ConnEvent::WriteEnded), ConnPhase::Draining);
    assert!(state.reading && !state.writing);
    assert_eq!(state.on_event(ConnEvent::Close), ConnPhase::Closed);
    assert_eq!(state.on_event(ConnEvent::ReadEnded), ConnPhase::Closed);

    let mut state = ConnState::new();
    state.close();
    assert_eq!(state.phase(), ConnPhase::Closed);
    state.close();
    assert_eq!(state.phase(), ConnPhase::Closed);
}

#[test]
fn accept_loop() {
    let mut listener = Listener::listen();
    assert!(listener.is_active());
    assert_eq!(listener.on_event(AcceptEvent::Accepted), AcceptAction::Offer);
    assert_eq!(listener.on_event(AcceptEvent::Offered), AcceptAction::Accept);
    assert_eq!(listener.on_event(AcceptEvent::Accepted), AcceptAction::Offer);
    assert_eq!(listener.on_event(AcceptEvent::OfferFailed), AcceptAction::Close);
    assert!(!listener.is_active());
    assert_eq!(listener.on_event(AcceptEvent::Accepted), AcceptAction::Close);

    let mut listener = Listener::listen();
    assert_eq!(listener.on_event(AcceptEvent::AcceptFailed), AcceptAction::Close);

    let mut listener = Listener::listen();
    listener.close();
    assert_eq!(listener.on_event(AcceptEvent::Accepted), AcceptAction::Close);
}
