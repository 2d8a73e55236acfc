use bytes::Bytes;
use sheeko::common::packet::{decode, encode, DecodeError, Header, HEADER_LEN};

#[test]
fn round_trip() {
    let header = Header {
        sequence: 42,
        timestamp: 123_456,
        ssrc: 0xdead_beef,
    };
    let payload = b"opus bytes go here";

    let packet = encode(header, payload);
    let (decoded_header, decoded_payload) = decode(packet).unwrap();

    assert_eq!(decoded_header, header);
    assert_eq!(&decoded_payload[..], payload);
}

#[test]
fn rejects_short_packets() {
    let too_short = Bytes::from_static(&[0u8; HEADER_LEN - 1]);
    assert_eq!(decode(too_short), Err(DecodeError::TooShort(HEADER_LEN - 1)));
}

#[test]
fn header_is_big_endian_in_field_order() {
    let header = Header {
        sequence: 0x0102,
        timestamp: 0x0304_0506,
        ssrc: 0x0708_090a,
    };
    let packet = encode(header, &[0xff, 0xee]);
    assert_eq!(
        &packet[..],
        &[0x01, 0x02, 0x03, 0x04, 0x05, 0x06, 0x07, 0x08, 0x09, 0x0a, 0xff, 0xee]
    );
}

#[test]
fn decode_reads_header_and_keeps_payload() {
    let raw = Bytes::from_static(&[0, 7, 0, 0, 1, 0, 0xca, 0xfe, 0xba, 0xbe, 1, 2, 3]);
    let (header, payload) = decode(raw).unwrap();
    assert_eq!(
        header,
        Header {
            sequence: 7,
            timestamp: 256,
            ssrc: 0xcafe_babe,
        }
    );
    assert_eq!(&payload[..], &[1, 2, 3]);
}

#[test]
fn exactly_a_header_has_an_empty_payload() {
    let header = Header {
        sequence: u16::MAX,
        timestamp: u32::MAX,
        ssrc: 0,
    };
    let (decoded, payload) = decode(encode(header, &[])).unwrap();
    assert_eq!(decoded, header);
    assert!(payload.is_empty());
}

#[test]
fn empty_packet_is_too_short() {
    assert_eq!(decode(Bytes::new()), Err(DecodeError::TooShort(0)));
}

#[test]
fn decode_error_describes_itself() {
    assert_eq!(
        DecodeError::TooShort(3).message(),
        "packet too short: 3 bytes, need at least 10"
    );
}
