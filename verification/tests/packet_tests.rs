use flight_mesh::packets::{
    DataBody, DataPacket, DataRelayHeader, MessageType, RelayPathEntry, MAX_RELAY_HOPS,
    SECTION_SIZE,
};

fn sample_packet() -> DataPacket {
    let mut body = DataBody::default();
    for i in 0..SECTION_SIZE {
        body.audio_enc[i] = (i % 251) as u8;
        body.log_enc[i] = (i % 13) as u8;
    }
    let mut pkt = DataPacket {
        header: DataRelayHeader {
            timestamp_utc: 0x0102_0304_0506_0708,
            payload_hash: [0u8; 32],
            relay_path: Vec::new(),
        },
        body,
    };
    assert!(pkt.push_hop(RelayPathEntry { aircraft_id: [0xaa; 32], hop_number: 1 }));
    assert!(pkt.push_hop(RelayPathEntry { aircraft_id: [0xbb; 32], hop_number: 2 }));
    pkt
}

#[test]
fn message_type_tags_match_wire_values() {
    assert_eq!(MessageType::Ping.tag(), 0x01);
    assert_eq!(MessageType::Pong.tag(), 0x02);
    assert_eq!(MessageType::DataRelay.tag(), 0x03);
    assert_eq!(MessageType::Ack.tag(), 0x04);
}

#[test]
fn default_body_is_zero_filled() {
    let body = DataBody::default();
    assert!(body.audio_enc.iter().all(|&b| b == 0));
    assert!(body.log_enc.iter().all(|&b| b == 0));
    assert!(body.decoy1_enc.iter().all(|&b| b == 0));
    assert!(body.decoy2_enc.iter().all(|&b| b == 0));
    assert_eq!(body.audio_enc.len(), SECTION_SIZE);
}

#[test]
fn digest_is_deterministic() {
    let pkt = sample_packet();
    assert_eq!(pkt.calc_hash(), pkt.calc_hash());
    let same = sample_packet();
    assert_eq!(pkt.calc_hash(), same.calc_hash());
}

#[test]
fn digest_ignores_stored_hash_field() {
    let mut pkt = sample_packet();
    let before = pkt.calc_hash();
    pkt.header.payload_hash = [0x55; 32];
    assert_eq!(pkt.calc_hash(), before);
}

#[test]
fn digest_changes_when_any_field_changes() {
    let base = sample_packet();
    let d = base.calc_hash();

    let mut pkt = sample_packet();
    pkt.header.timestamp_utc += 1;
    assert_ne!(pkt.calc_hash(), d);

    let mut pkt = sample_packet();
    pkt.header.relay_path[0].hop_number = 9;
    assert_ne!(pkt.calc_hash(), d);

    let mut pkt = sample_packet();
    pkt.header.relay_path[1].aircraft_id[31] ^= 0x01;
    assert_ne!(pkt.calc_hash(), d);

    let mut pkt = sample_packet();
    pkt.body.audio_enc[0] ^= 0x01;
    assert_ne!(pkt.calc_hash(), d);

    let mut pkt = sample_packet();
    pkt.body.log_enc[SECTION_SIZE - 1] ^= 0x80;
    assert_ne!(pkt.calc_hash(), d);

    let mut pkt = sample_packet();
    pkt.body.decoy1_enc[7] = 1;
    assert_ne!(pkt.calc_hash(), d);

    let mut pkt = sample_packet();
    pkt.body.decoy2_enc[4095] = 2;
    assert_ne!(pkt.calc_hash(), d);
}

#[test]
fn digest_depends_on_field_order() {
    // Swapping the two relay entries reorders the hashed bytes.
    let base = sample_packet();
    let mut swapped = sample_packet();
    swapped.header.relay_path.swap(0, 1);
    assert_ne!(swapped.calc_hash(), base.calc_hash());
}

#[test]
fn digest_matches_incremental_blake3_over_wire_order() {
    let pkt = sample_packet();
    let mut h = blake3::Hasher::new();
    h.update(&pkt.header.timestamp_utc.to_be_bytes());
    for entry in pkt.header.relay_path.iter() {
        h.update(&entry.aircraft_id);
        h.update(&entry.hop_number.to_be_bytes());
    }
    h.update(&pkt.body.audio_enc);
    h.update(&pkt.body.log_enc);
    h.update(&pkt.body.decoy1_enc);
    h.update(&pkt.body.decoy2_enc);
    assert_eq!(pkt.calc_hash(), *h.finalize().as_bytes());
}

#[test]
fn verify_digest_accepts_fresh_and_rejects_mutated() {
    let mut pkt = sample_packet();
    pkt.header.payload_hash = pkt.calc_hash();
    assert!(pkt.verify_digest());
    pkt.body.audio_enc[100] ^= 0x20;
    assert!(!pkt.verify_digest());
}

#[test]
fn verify_digest_rejects_wrong_stored_digest() {
    let mut pkt = sample_packet();
    pkt.header.payload_hash = pkt.calc_hash();
    pkt.header.payload_hash[0] ^= 0x01;
    assert!(!pkt.verify_digest());
}

#[test]
fn push_hop_rejects_ninth_entry() {
    let mut pkt = DataPacket {
        header: DataRelayHeader {
            timestamp_utc: 0,
            payload_hash: [0u8; 32],
            relay_path: Vec::new(),
        },
        body: DataBody::default(),
    };
    for hop in 0..MAX_RELAY_HOPS {
        assert!(pkt.push_hop(RelayPathEntry {
            aircraft_id: [hop as u8; 32],
            hop_number: hop as u16,
        }));
    }
    assert_eq!(pkt.header.relay_path.len(), MAX_RELAY_HOPS);
    let rejected = !pkt.push_hop(RelayPathEntry { aircraft_id: [0xff; 32], hop_number: 8 });
    assert!(rejected);
    assert_eq!(pkt.header.relay_path.len(), MAX_RELAY_HOPS);
}
