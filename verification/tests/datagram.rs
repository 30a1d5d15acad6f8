use bytes::Bytes;
use h3_datagram::datagram::{Datagram, DatagramError, H3_DATAGRAM_ERROR};
use h3_datagram::stream_id::{StreamId, MAX_STREAM_ID};

fn id(value: u64) -> StreamId {
    StreamId::from_u64(value).unwrap()
}

fn wire_of(stream: u64, payload: &[u8]) -> Vec<u8> {
    let mut wire = Vec::new();
    Datagram::new(id(stream), Bytes::copy_from_slice(payload)).encode(&mut wire);
    wire
}

fn round_trip(stream: u64, payload: &[u8]) {
    let wire = wire_of(stream, payload);
    let back = Datagram::decode(Bytes::from(wire)).unwrap();
    assert_eq!(back.stream_id().into_inner(), stream);
    assert_eq!(back.payload().as_ref(), payload);
}

#[test]
fn stream_eight_with_two_bytes() {
    let wire = wire_of(8, &[0x41, 0x42]);
    assert_eq!(wire, vec![0x02, 0x41, 0x42]);
    let back = Datagram::decode(Bytes::from(vec![0x02, 0x41, 0x42])).unwrap();
    assert_eq!(back.stream_id(), id(8));
    assert_eq!(back.stream_id().into_inner(), 8);
    assert_eq!(back.payload().as_ref(), &[0x41, 0x42]);
    assert_eq!(back.into_payload(), Bytes::from_static(&[0x41, 0x42]));
}

#[test]
fn round_trip_on_every_header_length() {
    let payload = [1u8, 2, 3, 0, 255];
    round_trip(0, &payload);
    round_trip(4, &payload);
    round_trip(63 * 4, &payload);
    round_trip(64 * 4, &payload);
    round_trip(16383 * 4, &payload);
    round_trip(16384 * 4, &payload);
    round_trip(((1u64 << 30) - 1) * 4, &payload);
    round_trip((1u64 << 30) * 4, &payload);
    round_trip(MAX_STREAM_ID - 3, &payload);
}

#[test]
fn header_bytes_of_each_length() {
    assert_eq!(wire_of(0, &[]), vec![0x00]);
    assert_eq!(wire_of(63 * 4, &[]), vec![0x3f]);
    assert_eq!(wire_of(64 * 4, &[]), vec![0x40, 0x40]);
    assert_eq!(wire_of(15293 * 4, &[]), vec![0x7b, 0xbd]);
    assert_eq!(wire_of(16383 * 4, &[]), vec![0x7f, 0xff]);
    assert_eq!(wire_of(16384 * 4, &[]), vec![0x80, 0x00, 0x40, 0x00]);
    assert_eq!(wire_of(494_878_333 * 4, &[]), vec![0x9d, 0x7f, 0x3e, 0x7d]);
    assert_eq!(
        wire_of((1u64 << 30) * 4, &[]),
        vec![0xc0, 0x00, 0x00, 0x00, 0x40, 0x00, 0x00, 0x00]
    );
    assert_eq!(
        wire_of(MAX_STREAM_ID - 3, &[9]),
        vec![0xcf, 0xff, 0xff, 0xff, 0xff, 0xff, 0xff, 0xff, 9]
    );
}

#[test]
fn empty_payload_is_legal() {
    let wire = wire_of(12, &[]);
    assert_eq!(wire, vec![0x03]);
    let back = Datagram::decode(Bytes::from(wire)).unwrap();
    assert_eq!(back.stream_id().into_inner(), 12);
    assert_eq!(back.payload().len(), 0);
    round_trip(64 * 4, &[]);
}

#[test]
fn encode_appends_to_what_the_buffer_holds() {
    let mut wire = vec![7u8, 7];
    Datagram::new(id(8), Bytes::from_static(&[0x41])).encode(&mut wire);
    assert_eq!(wire, vec![7, 7, 0x02, 0x41]);
}

#[test]
fn payload_is_taken_verbatim() {
    let back = Datagram::decode(Bytes::from(vec![0x40, 0x02, 0xc0, 0x00])).unwrap();
    assert_eq!(back.stream_id().into_inner(), 8);
    assert_eq!(back.payload().as_ref(), &[0xc0, 0x00]);
}

#[test]
fn largest_legal_stream_id_decodes() {
    let wire = vec![0xcf, 0xff, 0xff, 0xff, 0xff, 0xff, 0xff, 0xff];
    let back = Datagram::decode(Bytes::from(wire)).unwrap();
    assert_eq!(back.stream_id().into_inner(), (1u64 << 62) - 4);
    assert_eq!(back.payload().len(), 0);
}

#[test]
fn empty_message_is_malformed() {
    let err = Datagram::decode(Bytes::new()).unwrap_err();
    assert_eq!(err, DatagramError::MalformedFrame);
    assert_eq!(err.code(), 0x33);
    assert_eq!(err.code(), H3_DATAGRAM_ERROR);
    assert_eq!(err.cause(), "malformed datagram frame");
}

#[test]
fn truncated_header_is_malformed() {
    let cases: Vec<Vec<u8>> = vec![
        vec![0x40],
        vec![0x80, 0x00, 0x00],
        vec![0xc0, 1, 2, 3, 4, 5, 6],
        vec![0xff],
    ];
    for wire in cases {
        let err = Datagram::decode(Bytes::from(wire)).unwrap_err();
        assert_eq!(err, DatagramError::MalformedFrame);
    }
}

#[test]
fn quarter_id_beyond_the_stream_range_is_invalid() {
    let err = Datagram::decode(Bytes::from(vec![0xd0, 0, 0, 0, 0, 0, 0, 0, 0x41])).unwrap_err();
    assert_eq!(err, DatagramError::InvalidStreamId);
    assert_eq!(err.code(), 0x33);
    assert_eq!(err.cause(), "invalid stream id");
    let err = Datagram::decode(Bytes::from(vec![0xff; 8])).unwrap_err();
    assert_eq!(err, DatagramError::InvalidStreamId);
}

#[test]
fn only_multiples_of_four_make_a_datagram() {
    for s in [1u64, 2, 3, 5, 6, 7, MAX_STREAM_ID] {
        assert!(Datagram::try_new(id(s), Bytes::new()).is_none());
    }
    for s in [0u64, 4, 8, MAX_STREAM_ID - 3] {
        let d = Datagram::try_new(id(s), Bytes::from_static(&[1])).unwrap();
        assert_eq!(d.stream_id().into_inner(), s);
        assert_eq!(d.stream_id().into_inner() % 4, 0);
        assert_eq!(d.payload().as_ref(), &[1]);
    }
}

#[test]
fn stream_ids_end_at_two_to_the_sixty_two() {
    assert_eq!(MAX_STREAM_ID, (1u64 << 62) - 1);
    assert_eq!(StreamId::from_u64(0).unwrap().into_inner(), 0);
    assert_eq!(StreamId::from_u64(MAX_STREAM_ID).unwrap().into_inner(), MAX_STREAM_ID);
    assert!(StreamId::from_u64(MAX_STREAM_ID + 1).is_none());
    assert!(StreamId::from_u64(u64::MAX).is_none());
}

#[test]
fn payload_of_another_type_is_carried_through() {
    let d = Datagram::new(id(16), vec![1u8, 2, 3]);
    assert_eq!(d.stream_id().into_inner(), 16);
    assert_eq!(d.payload(), &vec![1u8, 2, 3]);
    assert_eq!(d.into_payload(), vec![1u8, 2, 3]);
    assert!(Datagram::try_new(id(18), String::from("x")).is_none());
}
