use g910_replay::usb::{Direction, Packet, TransferType, UrbType};

fn sample_packet() -> Packet {
    Packet {
        id: 0x0102030405060708,
        urb_type: 0x53,
        transfer_type: 0x02,
        endpoint_direction: 0x82,
        device: 9,
        bus_id: 0x1234,
        setup_request: 0x80,
        data_present: 0x00,
        sec: 0x1122334455667788,
        usec: 0xdeadbeef,
        status: 0xfffffff2,
        length: 64,
        data_length: 3,
        bm_request_type: 0x21,
        b_request: 0x09,
        descriptor_index: 0x02,
        descriptor_type: 0x03,
        language_id: 0x0409,
        w_length: 0x0040,
        interval: 1,
        start_frame: 2,
        transfer_flags: 0x200,
        num_iso_desc: 0,
        data: vec![0xaa, 0xbb, 0xcc],
    }
}

#[test]
fn packet_round_trip() {
    let p = sample_packet();
    let bytes = p.to_bytes();
    assert_eq!(bytes.len(), 64 + 3);
    let q = Packet::from_bytes(&bytes).unwrap();
    assert_eq!(q.get_id(), 0x0102030405060708);
    assert_eq!(q.get_urb_type(), UrbType::Submit);
    assert_eq!(q.get_transfer_type(), TransferType::Control);
    assert_eq!(q.get_direction(), Direction::In);
    assert_eq!(q.get_endpoint(), 2);
    assert_eq!(q.get_endpoint_direction(), 0x82);
    assert_eq!(q.get_device(), 9);
    assert_eq!(q.get_bus_id(), 0x1234);
    assert_eq!(q.get_setup_request(), 0x80);
    assert!(q.is_data_present());
    assert_eq!(q.get_sec(), 0x1122334455667788);
    assert_eq!(q.get_usec(), 0xdeadbeef);
    assert_eq!(q.get_status(), 0xfffffff2);
    assert_eq!(q.get_length(), 64);
    assert_eq!(q.get_data_length(), 3);
    assert_eq!(q.get_bm_request_type(), 0x21);
    assert_eq!(q.get_b_request(), 0x09);
    assert_eq!(q.get_descriptor_index(), 0x02);
    assert_eq!(q.get_descriptor_type(), 0x03);
    assert_eq!(q.get_language_id(), 0x0409);
    assert_eq!(q.get_w_length(), 0x0040);
    assert_eq!(q.get_interval(), 1);
    assert_eq!(q.get_start_frame(), 2);
    assert_eq!(q.get_transfer_flags(), 0x200);
    assert_eq!(q.get_num_iso_desc(), 0);
    assert_eq!(q.get_data(), &vec![0xaa, 0xbb, 0xcc]);
}

#[test]
fn value_reconstruction() {
    let p = sample_packet();
    assert_eq!(p.get_value(), 0x0302);
}

#[test]
fn header_is_little_endian() {
    let p = sample_packet();
    let bytes = p.to_bytes();
    assert_eq!(bytes[0], 0x08);
    assert_eq!(bytes[7], 0x01);
    assert_eq!(&bytes[12..14], &[0x34, 0x12]);
    assert_eq!(&bytes[44..46], &[0x09, 0x04]);
    assert_eq!(&bytes[64..], &[0xaa, 0xbb, 0xcc]);
}

#[test]
fn data_presence_is_inverted() {
    let mut p = sample_packet();
    p.data_present = 0x00;
    assert!(p.is_data_present());
    p.data_present = 0x01;
    assert!(!p.is_data_present());
    p.data_present = 0x3c;
    assert!(!p.is_data_present());
}

#[test]
fn short_buffer_is_rejected() {
    let bytes = vec![0u8; 63];
    assert!(Packet::from_bytes(&bytes).is_none());
    let bytes = vec![0u8; 64];
    let p = Packet::from_bytes(&bytes).unwrap();
    assert!(p.get_data().is_empty());
}

#[test]
fn urb_and_transfer_bytes() {
    let mut bytes = vec![0u8; 64];
    bytes[8] = 0x43;
    bytes[9] = 0x01;
    let p = Packet::from_bytes(&bytes).unwrap();
    assert_eq!(p.get_urb_type(), UrbType::Complete);
    assert_eq!(p.get_transfer_type(), TransferType::Interrupt);
    assert_eq!(p.get_direction(), Direction::Out);
}

#[test]
fn same_disregards_session_artifacts() {
    let a = sample_packet();
    let mut b = sample_packet();
    b.id = 77;
    b.sec = 0;
    b.usec = 0;
    b.device = 1;
    b.bus_id = 2;
    assert!(a.same(&b));
    let mut c = sample_packet();
    c.data = vec![0xaa, 0xbb, 0xcd];
    assert!(!a.same(&c));
    let mut d = sample_packet();
    d.status = 0;
    assert!(!a.same(&d));
}
