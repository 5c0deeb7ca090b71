use mcping::java::{
    frame_length, read_string, write_string, Chat, FrameReader, FrameStep, Packet,
};
use mcping::Error;

fn text_bytes(text: &str) -> Vec<u8> {
    let mut buf = Vec::new();
    write_string(&mut buf, text).unwrap();
    buf
}

#[test]
fn java_string_is_length_then_bytes() {
    assert_eq!(text_bytes("abc"), vec![3, b'a', b'b', b'c']);
    assert_eq!(text_bytes("é"), vec![2, 0xc3, 0xa9]);
    assert_eq!(text_bytes(""), vec![0]);
}

#[test]
fn java_string_round_trip() {
    for text in ["a", "mc.hypixel.net", "{\"version\":{}}", "§6Größe ✓ 🎮"] {
        let bytes = text_bytes(text);
        assert_eq!(read_string(&bytes, 0), Ok((text.to_string(), bytes.len())));
    }
    let long = "x".repeat(300);
    let bytes = text_bytes(&long);
    assert_eq!(bytes.len(), 302);
    assert_eq!(read_string(&bytes, 0), Ok((long, 302)));
}

#[test]
fn java_string_appends_to_what_is_there() {
    let mut buf = vec![9, 9];
    write_string(&mut buf, "hi").unwrap();
    assert_eq!(buf, vec![9, 9, 2, b'h', b'i']);
    assert_eq!(read_string(&buf, 2), Ok(("hi".to_string(), 5)));
}

#[test]
fn java_string_of_length_zero_is_refused() {
    assert_eq!(read_string(&[0], 0), Err(Error::InvalidFraming));
    assert_eq!(read_string(&[0, b'a'], 0), Err(Error::InvalidFraming));
}

#[test]
fn java_string_of_negative_length_is_refused() {
    let bytes = [0xff, 0xff, 0xff, 0xff, 0x0f, b'a'];
    assert_eq!(read_string(&bytes, 0), Err(Error::InvalidFraming));
}

#[test]
fn java_string_cut_short_is_an_io_failure() {
    assert_eq!(
        read_string(&[3, b'a', b'b'], 0),
        Err(Error::Io("unexpected end of input".to_string()))
    );
    assert_eq!(
        read_string(&[], 0),
        Err(Error::Io("unexpected end of input".to_string()))
    );
}

#[test]
fn java_string_of_bad_utf8_is_an_io_failure() {
    assert_eq!(
        read_string(&[2, 0xc3, 0x28], 0),
        Err(Error::Io("Bad UTF-8 in Netty string".to_string()))
    );
}

#[test]
fn java_string_with_overlong_length_is_refused() {
    assert_eq!(
        read_string(&[0x80, 0x80, 0x80, 0x80, 0x80], 0),
        Err(Error::InvalidVarInt)
    );
}

#[test]
fn java_handshake_bytes() {
    let packet = Packet::Handshake {
        version: 47,
        host: "localhost".to_string(),
        port: 25565,
        next_state: 1,
    };
    let mut expected = vec![15, 0x00, 47, 9];
    expected.extend_from_slice(b"localhost");
    expected.extend_from_slice(&[0x63, 0xdd, 0x01]);
    assert_eq!(packet.encode(), Ok(expected));
}

#[test]
fn java_request_bytes() {
    assert_eq!((Packet::Request {}).encode(), Ok(vec![1, 0x00]));
}

#[test]
fn java_ping_bytes() {
    let packet = Packet::Ping {
        payload: 0x0102_0304_0506_0708,
    };
    assert_eq!(packet.encode(), Ok(vec![9, 0x01, 1, 2, 3, 4, 5, 6, 7, 8]));
}

#[test]
fn java_server_packets_cannot_be_sent() {
    let response = Packet::Response {
        response: "{}".to_string(),
    };
    assert_eq!(response.encode(), Err(Error::InvalidPacket));
    assert_eq!(
        (Packet::Pong { payload: 1 }).encode(),
        Err(Error::InvalidPacket)
    );
}

#[test]
fn java_response_is_decoded() {
    let mut body = vec![0x00];
    write_string(&mut body, "{\"a\":1}").unwrap();
    assert_eq!(
        Packet::decode(&body),
        Ok(Packet::Response {
            response: "{\"a\":1}".to_string()
        })
    );
}

#[test]
fn java_pong_is_decoded() {
    let body = [0x01, 0, 0, 0, 0, 0, 0, 0x01, 0x00, 0xee];
    assert_eq!(Packet::decode(&body), Ok(Packet::Pong { payload: 256 }));
    let body = [0x01, 0xff, 0xff, 0xff, 0xff, 0xff, 0xff, 0xff, 0xff];
    assert_eq!(
        Packet::decode(&body),
        Ok(Packet::Pong { payload: u64::MAX })
    );
}

#[test]
fn java_ping_body_reads_as_pong() {
    let payload = 0xdead_beef_0042_4242;
    let framed = (Packet::Ping { payload }).encode().unwrap();
    assert_eq!(Packet::decode(&framed[1..]), Ok(Packet::Pong { payload }));
}

#[test]
fn java_unknown_packet_id_is_invalid() {
    assert_eq!(Packet::decode(&[0x02, 1, 2, 3]), Err(Error::InvalidPacket));
    assert_eq!(
        Packet::decode(&[0xff, 0xff, 0xff, 0xff, 0x0f]),
        Err(Error::InvalidPacket)
    );
}

#[test]
fn java_packet_cut_short_is_an_io_failure() {
    let eof = Err(Error::Io("unexpected end of input".to_string()));
    assert_eq!(Packet::decode(&[]), eof);
    assert_eq!(Packet::decode(&[0x01, 1, 2, 3]), eof);
    assert_eq!(Packet::decode(&[0x00]), eof);
}

#[test]
fn java_empty_response_is_refused() {
    assert_eq!(Packet::decode(&[0x00, 0x00]), Err(Error::InvalidFraming));
}

#[test]
fn java_frame_length() {
    assert_eq!(frame_length(0), Ok(0));
    assert_eq!(frame_length(1024), Ok(1024));
    assert_eq!(frame_length(-1), Err(Error::InvalidVarInt));
    assert_eq!(frame_length(i32::MIN), Err(Error::InvalidVarInt));
}

#[test]
fn java_frame_reader_gives_the_length() {
    let reader = FrameReader::new();
    let reader = match reader.push(0xac) {
        FrameStep::More(next) => next,
        _ => panic!("ended early"),
    };
    assert!(matches!(reader.push(0x02), FrameStep::Body(300)));
}

#[test]
fn java_frame_reader_refuses_bad_lengths() {
    let mut reader = FrameReader::new();
    for _ in 0..4 {
        reader = match reader.push(0xff) {
            FrameStep::More(next) => next,
            _ => panic!("ended early"),
        };
    }
    assert!(matches!(
        reader.push(0x0f),
        FrameStep::Failed(Error::InvalidVarInt)
    ));
    let mut reader = FrameReader::new();
    for _ in 0..4 {
        reader = match reader.push(0x80) {
            FrameStep::More(next) => next,
            _ => panic!("ended early"),
        };
    }
    assert!(matches!(
        reader.push(0x80),
        FrameStep::Failed(Error::InvalidVarInt)
    ));
}

#[test]
fn chat_text_of_both_forms() {
    let object = Chat::Text {
        text: "Hello".to_string(),
    };
    assert_eq!(object.text(), "Hello");
    let bare = Chat::String("Just text".to_string());
    assert_eq!(bare.text(), "Just text");
}

#[test]
fn error_messages() {
    assert_eq!(
        Error::InvalidPacket.to_string(),
        "an invalid packet configuration was sent"
    );
    assert_eq!(
        Error::InvalidVarInt.to_string(),
        "VarInt length was negative or too large"
    );
    assert_eq!(
        Error::Io("Invalid Payload".to_string()).to_string(),
        "an I/O error occurred: Invalid Payload"
    );
    assert_eq!(
        Error::JsonErr("EOF while parsing".to_string()).to_string(),
        "a JSON error occurred: EOF while parsing"
    );
    assert_eq!(
        Error::InvalidAddress.to_string(),
        "an invalid address was provided"
    );
    assert_eq!(
        Error::DnsLookupFailed.to_string(),
        "DNS lookup for the host provided failed"
    );
    assert_eq!(
        Error::TimedOut.to_string(),
        "the server did not answer in time"
    );
    assert_eq!(
        Error::InvalidFraming.to_string(),
        "a string length was zero, negative or too large"
    );
}
