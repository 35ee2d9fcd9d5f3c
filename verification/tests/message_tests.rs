use quic_p2p::addr::{Ip, NodeAddr};
use quic_p2p::connection::{Connection, Message, SendStream};
use quic_p2p::error::Error;
use quic_p2p::payload::{payload_from_vec, payload_len, payload_to_vec};

fn addr(d: u8, port: u16) -> NodeAddr {
    NodeAddr::new(Ip::V4(127, 0, 0, d), port)
}

#[test]
fn payload_round_trip_preserves_bytes() {
    let v = vec![0u8, 255, 7, 7, 1];
    let b = payload_from_vec(v.clone());
    assert_eq!(payload_len(&b), 5);
    assert_eq!(payload_to_vec(&b), v);
    // The container really holds these bytes, through its own API too.
    assert_eq!(&b[..], &v[..]);
    assert_eq!(b.len(), 5);
}

#[test]
fn small_message_arrives_intact() {
    let src = addr(1, 9001);
    let conn = Connection::new(5, src, 1024);
    let msg = conn.accept_uni(payload_from_vec(vec![1u8, 2, 3, 4]), src).unwrap();
    match msg {
        Message::UniStream { bytes, src: got_src } => {
            assert_eq!(payload_to_vec(&bytes), vec![1u8, 2, 3, 4]);
            assert_eq!(got_src, src);
        }
        Message::BiStream { .. } => panic!("expected a one-way message"),
    }
}

#[test]
fn message_at_exactly_the_maximum_is_accepted() {
    let src = addr(1, 9001);
    let conn = Connection::new(5, src, 4);
    let msg = conn.accept_uni(payload_from_vec(vec![9u8; 4]), src).unwrap();
    match msg {
        Message::UniStream { bytes, .. } => assert_eq!(payload_to_vec(&bytes), vec![9u8; 4]),
        Message::BiStream { .. } => panic!("expected a one-way message"),
    }
}

#[test]
fn oversized_message_is_rejected_and_does_not_arrive() {
    let src = addr(1, 9001);
    let conn = Connection::new(5, src, 3);
    let r = conn.accept_uni(payload_from_vec(vec![0u8; 4]), src);
    match r {
        Err(Error::MessageTooLarge { size, max }) => {
            assert_eq!(size, 4);
            assert_eq!(max, 3);
        }
        Ok(_) => panic!("oversized payload must not arrive"),
        Err(_) => panic!("expected the too-large error"),
    }
}

#[test]
fn bi_message_carries_reply_capability() {
    let src = addr(2, 9002);
    let conn = Connection::new(6, src, 1024);
    let reply = SendStream::new(77, src);
    let msg = conn.accept_bi(payload_from_vec(vec![9u8]), src, reply).unwrap();
    match msg {
        Message::BiStream { bytes, src: got_src, send } => {
            assert_eq!(payload_to_vec(&bytes), vec![9u8]);
            assert_eq!(got_src, src);
            // Answering consumes the capability; it yields the token
            // the transport collaborator replies through.
            assert_eq!(send.into_reply_token(), 77);
        }
        Message::UniStream { .. } => panic!("expected a two-way message"),
    }
}

#[test]
fn oversized_bi_message_discards_reply_capability() {
    let src = addr(2, 9002);
    let conn = Connection::new(6, src, 2);
    let reply = SendStream::new(78, src);
    let r = conn.accept_bi(payload_from_vec(vec![1u8, 2, 3]), src, reply);
    match r {
        Err(Error::MessageTooLarge { size, max }) => {
            assert_eq!(size, 3);
            assert_eq!(max, 2);
        }
        Ok(_) => panic!("oversized payload must not arrive"),
        Err(_) => panic!("expected the too-large error"),
    }
}
