use drip_net::heartbeat::{Packet, CURRENT_VERSION};
use drip_net::MalformedPacketError;

fn wire(timestamp: u64, name: &str) -> Vec<u8> {
    let mut buf = Vec::new();
    buf.extend_from_slice(b"DRIPPING");
    buf.push(CURRENT_VERSION);
    buf.extend_from_slice(&timestamp.to_le_bytes());
    buf.push(name.len() as u8);
    buf.extend_from_slice(name.as_bytes());
    buf
}

#[test]
fn serialize_exact_layout() {
    let p = Packet::new(String::from("garden"), 0x0102030405060708);
    let bytes = p.serialize();
    assert_eq!(bytes, wire(0x0102030405060708, "garden"));
    assert_eq!(bytes.len(), 18 + 6);
    assert_eq!(&bytes[0..8], b"DRIPPING");
    assert_eq!(bytes[8], 1);
    assert_eq!(bytes[17], 6);
}

#[test]
fn round_trip_ascii_name() {
    let p = Packet::new(String::from("workstation-7"), 1_700_000_000);
    let decoded = Packet::deserialize(&p.serialize()).unwrap();
    assert_eq!(decoded.timestamp, 1_700_000_000);
    assert_eq!(decoded.device_name, b"workstation-7".to_vec());
}

#[test]
fn round_trip_unicode_name() {
    let name = "b\u{00fc}ro-ger\u{00e4}t";
    let p = Packet::new(String::from(name), 42);
    let decoded = Packet::deserialize(&p.serialize()).unwrap();
    assert_eq!(decoded.timestamp, 42);
    assert_eq!(decoded.device_name, name.as_bytes().to_vec());
}

#[test]
fn round_trip_empty_name() {
    let p = Packet::new(String::new(), 0);
    let decoded = Packet::deserialize(&p.serialize()).unwrap();
    assert_eq!(decoded.timestamp, 0);
    assert_eq!(decoded.device_name, Vec::<u8>::new());
}

#[test]
fn round_trip_longest_name() {
    let name: String = std::iter::repeat('x').take(255).collect();
    let p = Packet::new(name.clone(), u64::MAX);
    let bytes = p.serialize();
    assert_eq!(bytes.len(), 18 + 255);
    let decoded = Packet::deserialize(&bytes).unwrap();
    assert_eq!(decoded.timestamp, u64::MAX);
    assert_eq!(decoded.device_name, name.as_bytes().to_vec());
}

#[test]
fn rejects_bad_magic() {
    let mut bytes = wire(7, "peer");
    bytes[0] = b'X';
    assert_eq!(
        Packet::deserialize(&bytes),
        Err(MalformedPacketError::BadMagic)
    );
}

#[test]
fn rejects_unknown_version() {
    let mut bytes = wire(7, "peer");
    bytes[8] = 2;
    assert_eq!(
        Packet::deserialize(&bytes),
        Err(MalformedPacketError::BadVersion)
    );
}

#[test]
fn rejects_length_mismatch() {
    let mut bytes = wire(7, "peer");
    bytes[17] = 10; // advertises more name bytes than the buffer holds
    assert_eq!(
        Packet::deserialize(&bytes),
        Err(MalformedPacketError::BadLength)
    );
    let mut extended = wire(7, "peer");
    extended.push(0); // trailing byte not covered by the length field
    assert_eq!(
        Packet::deserialize(&extended),
        Err(MalformedPacketError::BadLength)
    );
}

#[test]
fn rejects_invalid_utf8_name() {
    let mut bytes = wire(7, "ab");
    let n = bytes.len();
    bytes[n - 1] = 0xff;
    assert_eq!(
        Packet::deserialize(&bytes),
        Err(MalformedPacketError::BadName)
    );
}

#[test]
fn rejects_truncated_buffer() {
    assert_eq!(
        Packet::deserialize(b"DRIP"),
        Err(MalformedPacketError::Truncated)
    );
    assert_eq!(
        Packet::deserialize(&[]),
        Err(MalformedPacketError::Truncated)
    );
    // 17 bytes: one short of the fixed header
    assert_eq!(
        Packet::deserialize(&wire(7, "")[..17]),
        Err(MalformedPacketError::Truncated)
    );
}
