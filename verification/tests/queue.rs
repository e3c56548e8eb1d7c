use chess_session::codec::{encode, UnknownPacketError};
use chess_session::packet::{Ack, Move, PacketType, Start};
use chess_session::queue::InboundQueue;

fn mv(from: (u8, u8), to: (u8, u8)) -> PacketType {
    PacketType::Move(Move { from, to, promotion: None, forfeit: false, offer_draw: false })
}

#[test]
fn a_new_queue_is_empty() {
    let mut queue = InboundQueue::new();
    assert_eq!(queue.len(), 0);
    assert_eq!(queue.get_packet(), None);
    assert_eq!(queue.len(), 0);
}

#[test]
fn packets_leave_in_the_order_of_arrival() {
    let mut queue = InboundQueue::new();
    let first = PacketType::Start(Start { name: Some("Fay".to_string()), is_white: true });
    let second = mv((4, 1), (4, 3));
    let third = PacketType::Ack(Ack { ok: true, end_state: None });
    queue.push_back(first.clone());
    queue.push_back(second.clone());
    assert_eq!(queue.len(), 2);
    assert_eq!(queue.get_packet(), Some(first));
    queue.push_back(third.clone());
    assert_eq!(queue.len(), 2);
    assert_eq!(queue.get_packet(), Some(second));
    assert_eq!(queue.get_packet(), Some(third));
    assert_eq!(queue.get_packet(), None);
}

#[test]
fn received_bytes_join_the_queue_decoded() {
    let mut queue = InboundQueue::new();
    let first = mv((1, 0), (1, 2));
    let second = PacketType::Ack(Ack { ok: false, end_state: None });
    assert_eq!(queue.receive(&encode(&first).unwrap()), Ok(()));
    assert_eq!(queue.receive(&encode(&second).unwrap()), Ok(()));
    assert_eq!(queue.len(), 2);
    assert_eq!(queue.get_packet(), Some(first));
    assert_eq!(queue.get_packet(), Some(second));
}

#[test]
fn bytes_that_hold_no_packet_leave_the_queue_alone() {
    let mut queue = InboundQueue::new();
    queue.push_back(mv((0, 1), (0, 2)));
    assert_eq!(queue.receive(&[0xff, 0x00, 0x13]), Err(UnknownPacketError));
    assert_eq!(queue.receive(&[]), Err(UnknownPacketError));
    assert_eq!(queue.len(), 1);
    assert_eq!(queue.get_packet(), Some(mv((0, 1), (0, 2))));
}

#[test]
fn a_read_of_a_whole_buffer_holds_one_packet() {
    let mut data = [0u8; 1024];
    let bytes = encode(&mv((4, 6), (4, 4))).unwrap();
    data[..bytes.len()].copy_from_slice(&bytes);
    let mut queue = InboundQueue::new();
    assert_eq!(queue.receive(&data[..bytes.len()]), Ok(()));
    assert_eq!(queue.get_packet(), Some(mv((4, 6), (4, 4))));
}
