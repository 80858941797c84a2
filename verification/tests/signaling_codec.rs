use drip_net::signaling::{SignalingData, SignalingPacket};
use drip_net::MalformedPacketError;

fn offer(from: &str, to: &str, sdp: &str) -> SignalingPacket {
    SignalingPacket {
        data: SignalingData::Offer(sdp.to_string()),
        from: from.to_string(),
        to: to.to_string(),
    }
}

fn fields(p: &SignalingPacket) -> (u8, String, String, String) {
    let (tag, text) = match &p.data {
        SignalingData::Offer(s) => (1, s.clone()),
        SignalingData::Answer(s) => (2, s.clone()),
        SignalingData::IceCandidate(s) => (3, s.clone()),
    };
    (tag, p.from.clone(), p.to.clone(), text)
}

#[test]
fn round_trip_offer() {
    let p = offer("apollo", "zeus", "v=0 mock-session-description");
    assert!(p.check_wf());
    let decoded = SignalingPacket::decode(&p.encode()).unwrap();
    assert_eq!(fields(&decoded), fields(&p));
}

#[test]
fn round_trip_answer_and_candidate() {
    let a = SignalingPacket {
        data: SignalingData::Answer("answer-text".to_string()),
        from: "zeus".to_string(),
        to: "apollo".to_string(),
    };
    let decoded = SignalingPacket::decode(&a.encode()).unwrap();
    assert_eq!(fields(&decoded), fields(&a));

    let c = SignalingPacket {
        data: SignalingData::IceCandidate("candidate:0 1 UDP 123 host".to_string()),
        from: "apollo".to_string(),
        to: "zeus".to_string(),
    };
    let decoded = SignalingPacket::decode(&c.encode()).unwrap();
    assert_eq!(fields(&decoded), fields(&c));
}

#[test]
fn round_trip_empty_fields() {
    let p = offer("", "", "");
    let decoded = SignalingPacket::decode(&p.encode()).unwrap();
    assert_eq!(fields(&decoded), fields(&p));
}

#[test]
fn exact_header_layout() {
    let p = offer("ab", "cde", "fg");
    let bytes = p.encode();
    assert_eq!(bytes[0], 1);
    assert_eq!(&bytes[1..3], &[2, 0]); // from length, little-endian
    assert_eq!(&bytes[3..5], &[3, 0]); // to length
    assert_eq!(&bytes[5..9], &[2, 0, 0, 0]); // payload length
    assert_eq!(&bytes[9..], b"abcdefg");
}

#[test]
fn rejects_unknown_tag() {
    let mut bytes = offer("a", "b", "c").encode();
    bytes[0] = 9;
    assert!(matches!(
        SignalingPacket::decode(&bytes),
        Err(MalformedPacketError::BadTag)
    ));
    bytes[0] = 0;
    assert!(matches!(
        SignalingPacket::decode(&bytes),
        Err(MalformedPacketError::BadTag)
    ));
}

#[test]
fn rejects_truncated_header() {
    assert!(matches!(
        SignalingPacket::decode(&[1, 0, 0]),
        Err(MalformedPacketError::Truncated)
    ));
}

#[test]
fn rejects_signal_length_mismatch() {
    let mut bytes = offer("a", "b", "c").encode();
    bytes[1] = 200; // from-length now overruns the buffer
    assert!(matches!(
        SignalingPacket::decode(&bytes),
        Err(MalformedPacketError::BadLength)
    ));
    let mut longer = offer("a", "b", "c").encode();
    longer.push(0);
    assert!(matches!(
        SignalingPacket::decode(&longer),
        Err(MalformedPacketError::BadLength)
    ));
}

#[test]
fn rejects_invalid_utf8_field() {
    let mut bytes = offer("a", "b", "c").encode();
    let n = bytes.len();
    bytes[n - 1] = 0xfe; // payload byte, no longer UTF-8
    assert!(matches!(
        SignalingPacket::decode(&bytes),
        Err(MalformedPacketError::BadName)
    ));
}

#[test]
fn routing_filters_by_addressee() {
    let p = offer("apollo", "zeus", "x");
    assert!(p.is_addressed_to(&"zeus".to_string()));
    assert!(!p.is_addressed_to(&"apollo".to_string()));
    assert!(!p.is_addressed_to(&"ZEUS".to_string()));
}
