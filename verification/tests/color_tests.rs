use g910_replay::color::{Color, ColorPacket, FlushPacket, KeyColor, KeyColorError};
use g910_replay::keys::{GamingKey, KeyType, StandardKey};

#[test]
fn test_add_key_color() {
    let mut color_packet = ColorPacket::new_standard();
    assert!(color_packet.len == 0);

    let key_color_a = KeyColor::new_standard(StandardKey::A, Color::new(1, 2, 3));
    assert!(color_packet.add_key_color(key_color_a.clone()) == Ok(()));
    assert!(color_packet.colors[0] == key_color_a);
    assert!(color_packet.len == 1);

    let key_color_b = KeyColor::new_standard(StandardKey::B, Color::new(4, 5, 6));
    assert!(color_packet.add_key_color(key_color_b.clone()) == Ok(()));

    let key_color_c = KeyColor::new_standard(StandardKey::C, Color::new(7, 8, 9));
    for _i in 0..12 {
        assert!(color_packet.add_key_color(key_color_c.clone()) == Ok(()));
    }

    assert!(color_packet.colors[0] == key_color_a && color_packet.colors[1] == key_color_b);

    for e in color_packet.colors.iter().skip(2) {
        assert!(*e == key_color_c);
    }

    assert!(color_packet.add_key_color(key_color_c.clone()) == Err(KeyColorError::PacketFull));
}

#[test]
fn fifteenth_add_fails_and_slots_keep_call_order() {
    let mut packet = ColorPacket::new_standard();
    let mut expected = Vec::new();
    for i in 0..14u8 {
        let kc = KeyColor::new(4 + i, Color::new(i, 2 * i, 3 * i));
        expected.push(kc);
        assert_eq!(packet.add_key_color(kc), Ok(()));
    }
    let extra = KeyColor::new(99, Color::new(9, 9, 9));
    assert_eq!(packet.add_key_color(extra), Err(KeyColorError::PacketFull));
    for i in 0..14 {
        assert_eq!(packet.colors[i], expected[i]);
    }
    assert_eq!(packet.len, 14);
}

#[test]
fn fresh_standard_packet_layout() {
    let packet = ColorPacket::new_standard();
    let bytes = packet.to_bytes();
    assert_eq!(bytes.len(), 64);
    assert_eq!(&bytes[..8], &[0x12, 0xff, 0x0f, 0x3b, 0x00, 0x00, 0x00, 0x00]);
    for slot in 0..14 {
        assert_eq!(&bytes[8 + 4 * slot..12 + 4 * slot], &[0, 0, 0, 0]);
    }
}

#[test]
fn gaming_packet_tag_byte() {
    let packet = ColorPacket::new_gaming();
    let bytes = packet.to_bytes();
    assert_eq!(bytes[5], 0x01);
    assert_eq!(packet.key_type, KeyType::Gaming);
}

#[test]
fn populated_packet_layout() {
    let mut packet = ColorPacket::new_standard();
    let kc = KeyColor::new_standard(StandardKey::A, Color::new(64, 128, 255));
    assert_eq!(packet.add_key_color(kc), Ok(()));
    let bytes = packet.to_bytes();
    assert_eq!(bytes[7], 1);
    assert_eq!(&bytes[8..12], &[StandardKey::A.code(), 64, 128, 255]);
    assert_eq!(&bytes[12..16], &[0, 0, 0, 0]);
}

#[test]
fn flush_packet_layout() {
    let flush = FlushPacket::new();
    let bytes = flush.to_bytes();
    assert_eq!(bytes.len(), 20);
    assert_eq!(&bytes[..4], &[0x11, 0xff, 0x0f, 0x5b]);
    for b in &bytes[4..] {
        assert_eq!(*b, 0);
    }
}

#[test]
fn gaming_key_color_uses_ordinal_code() {
    let kc = KeyColor::new_gaming(GamingKey::G5, Color::new(1, 1, 1));
    assert_eq!(kc.key_code, 5);
    let kc2 = KeyColor::new_gaming(GamingKey::NoKey, Color::new(0, 0, 0));
    assert_eq!(kc2.key_code, 0);
}
