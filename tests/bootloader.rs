use pcan::bootloader::{Action, Phase, Session, ACK, BLOCK_LEN, ERASE_ID, GO_ID, SYNC_ID, WRITE_DATA_ID, WRITE_ID};
use pcan::{Error, Frame};

#[derive(Debug, PartialEq)]
enum Event {
    Sent(u32, Vec<u8>),
    Acked(u32),
}

fn ack(id: u32) -> Frame {
    Frame::new_standard(id, &[ACK]).unwrap()
}

/// Runs the command in progress against a target that acknowledges every
/// awaited step, and returns what passed on the bus.
fn run_acked(s: &mut Session) -> Vec<Event> {
    let mut events = Vec::new();
    loop {
        match s.next_action() {
            Action::Transmit(f) => {
                events.push(Event::Sent(f.id().id(), f.data().to_vec()));
                s.sent();
            }
            Action::ReceiveAck(id) => {
                s.received(ack(id)).unwrap();
                events.push(Event::Acked(id));
            }
            Action::Idle => return events,
        }
    }
}

/// Feeds `image` in reads of at most one block, as from a file.
fn write_image(s: &mut Session, address: u32, image: &[u8]) -> Vec<Event> {
    s.start_write(address);
    let mut events = Vec::new();
    for block in image.chunks(BLOCK_LEN) {
        s.write_block(block);
        events.extend(run_acked(s));
    }
    events
}

#[test]
fn write_of_300_bytes_takes_two_blocks() {
    let image: Vec<u8> = (0..300u32).map(|i| i as u8).collect();
    let mut s = Session::new();
    let events = write_image(&mut s, 0x0800_0000, &image);

    let mut expected = vec![Event::Sent(WRITE_ID, vec![0x08, 0x00, 0x00, 0x00, 0xFF]), Event::Acked(WRITE_ID)];
    for c in image[..256].chunks(8) {
        expected.push(Event::Sent(WRITE_DATA_ID, c.to_vec()));
    }
    expected.push(Event::Acked(WRITE_ID));
    expected.push(Event::Sent(WRITE_ID, vec![0x08, 0x00, 0x01, 0x00, 43]));
    expected.push(Event::Acked(WRITE_ID));
    for c in image[256..].chunks(8) {
        expected.push(Event::Sent(WRITE_DATA_ID, c.to_vec()));
    }
    expected.push(Event::Acked(WRITE_ID));
    assert_eq!(events, expected);

    let headers = events.iter().filter(|e| matches!(e, Event::Sent(WRITE_ID, _))).count();
    let data = events.iter().filter(|e| matches!(e, Event::Sent(WRITE_DATA_ID, _))).count();
    let acks = events.iter().filter(|e| matches!(e, Event::Acked(_))).count();
    assert_eq!((headers, data, acks), (2, 32 + 6, 4));
    assert_eq!(s.cursor(), 0x0800_0000 + 300);
    assert_eq!(s.phase(), Phase::Writing);
    assert!(s.is_idle());
}

#[test]
fn last_data_frame_of_a_block_may_be_short() {
    let mut s = Session::new();
    let events = write_image(&mut s, 0x10, &[1, 2, 3, 4, 5, 6, 7, 8, 9]);
    assert_eq!(
        events,
        vec![
            Event::Sent(WRITE_ID, vec![0, 0, 0, 0x10, 8]),
            Event::Acked(WRITE_ID),
            Event::Sent(WRITE_DATA_ID, vec![1, 2, 3, 4, 5, 6, 7, 8]),
            Event::Sent(WRITE_DATA_ID, vec![9]),
            Event::Acked(WRITE_ID),
        ]
    );
}

#[test]
fn enable_succeeds_on_one_ack() {
    let mut s = Session::new();
    s.enable();
    let events = run_acked(&mut s);
    assert_eq!(events, vec![Event::Sent(SYNC_ID, vec![]), Event::Acked(SYNC_ID)]);
    assert_eq!(s.phase(), Phase::Enabled);
}

#[test]
fn enable_rejects_any_other_frame() {
    let wrong = [
        Frame::new_standard(SYNC_ID, &[0x1F]).unwrap(),
        Frame::new_standard(ERASE_ID, &[ACK]).unwrap(),
        Frame::new_standard(SYNC_ID, &[ACK, ACK]).unwrap(),
        Frame::new_standard(SYNC_ID, &[]).unwrap(),
        Frame::new_extended(SYNC_ID, &[ACK]).unwrap(),
    ];
    for frame in wrong {
        let mut s = Session::new();
        s.enable();
        assert!(matches!(s.next_action(), Action::Transmit(_)));
        s.sent();
        assert!(matches!(s.next_action(), Action::ReceiveAck(SYNC_ID)));
        match s.received(frame) {
            Err(Error::UnexpectedAcknowledgement(f)) => assert_eq!(f.to_wire().id, frame.to_wire().id),
            other => panic!("expected a protocol violation, got {:?}", other),
        }
        assert_eq!(s.phase(), Phase::Created);
        assert!(s.is_idle());
    }
}

#[test]
fn erase_needs_two_acks() {
    let mut s = Session::new();
    s.enable();
    run_acked(&mut s);
    s.erase();
    match s.next_action() {
        Action::Transmit(f) => {
            assert_eq!(f.id().id(), ERASE_ID);
            assert_eq!(f.data(), &[0xFF]);
        }
        other => panic!("expected the erase command, got {:?}", other),
    }
    s.sent();
    s.received(ack(ERASE_ID)).unwrap();
    assert_eq!(s.phase(), Phase::Enabled);
    assert!(matches!(s.next_action(), Action::ReceiveAck(ERASE_ID)));
    s.abandon();
    assert_eq!(s.phase(), Phase::Enabled);
    assert!(s.is_idle());

    s.erase();
    let events = run_acked(&mut s);
    assert_eq!(events, vec![Event::Sent(ERASE_ID, vec![0xFF]), Event::Acked(ERASE_ID), Event::Acked(ERASE_ID)]);
    assert_eq!(s.phase(), Phase::Erased);
}

#[test]
fn go_sends_the_address_big_endian() {
    let mut s = Session::new();
    s.go(0x0800_0000);
    let events = run_acked(&mut s);
    assert_eq!(events, vec![Event::Sent(GO_ID, vec![0x08, 0, 0, 0]), Event::Acked(GO_ID)]);
    assert_eq!(s.phase(), Phase::Jumped);
}

#[test]
fn failed_write_block_keeps_the_cursor() {
    let mut s = Session::new();
    s.start_write(0x100);
    s.write_block(&[1, 2, 3]);
    s.sent();
    assert!(s.received(Frame::new_standard(WRITE_ID, &[0x1F]).unwrap()).is_err());
    assert_eq!(s.cursor(), 0x100);
    assert_eq!(s.phase(), Phase::Created);
    assert!(matches!(s.next_action(), Action::Idle));
}

#[test]
fn full_update_sequence() {
    let mut s = Session::new();
    s.enable();
    run_acked(&mut s);
    s.erase();
    run_acked(&mut s);
    assert_eq!(s.phase(), Phase::Erased);
    write_image(&mut s, 0x0800_0000, &[0xAB; 512]);
    assert_eq!(s.cursor(), 0x0800_0200);
    s.go(0x0800_0000);
    run_acked(&mut s);
    assert_eq!(s.phase(), Phase::Jumped);
}
