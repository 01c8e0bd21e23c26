use g910_replay::capture::{CaptureError, CaptureReader};
use g910_replay::usb::Packet;
use g910_replay::utils::{collect_color_payloads, compare_captures, hex_chars, CompareEnd};

fn push_le32(out: &mut Vec<u8>, v: u32) {
    out.extend_from_slice(&v.to_le_bytes());
}

fn capture_file(records: &[Vec<u8>]) -> Vec<u8> {
    let mut out = Vec::new();
    push_le32(&mut out, 0xa1b2c3d4);
    out.extend_from_slice(&[2, 0, 4, 0]);
    push_le32(&mut out, 0);
    push_le32(&mut out, 0);
    push_le32(&mut out, 0xffff);
    push_le32(&mut out, 220);
    for r in records {
        push_le32(&mut out, 1);
        push_le32(&mut out, 2);
        push_le32(&mut out, r.len() as u32);
        push_le32(&mut out, r.len() as u32);
        out.extend_from_slice(r);
    }
    out
}

fn record(urb_type: u8, endpoint_direction: u8, status: u32, payload: &[u8]) -> Vec<u8> {
    let p = Packet {
        id: 1,
        urb_type,
        transfer_type: 0x02,
        endpoint_direction,
        device: 1,
        bus_id: 1,
        setup_request: 0,
        data_present: if payload.is_empty() { 1 } else { 0 },
        sec: 10,
        usec: 20,
        status,
        length: payload.len() as u32,
        data_length: payload.len() as u32,
        bm_request_type: 0x21,
        b_request: 0x09,
        descriptor_index: 0,
        descriptor_type: 0,
        language_id: 0,
        w_length: payload.len() as u16,
        interval: 0,
        start_frame: 0,
        transfer_flags: 0,
        num_iso_desc: 0,
        data: payload.to_vec(),
    };
    p.to_bytes()
}

#[test]
fn reader_walks_records_in_order() {
    let r1 = record(0x53, 0x00, 0, &[1, 2, 3]);
    let r2 = record(0x43, 0x80, 0, &[]);
    let bytes = capture_file(&[r1.clone(), r2.clone()]);
    let mut reader = CaptureReader::new(bytes).unwrap();
    assert_eq!(reader.next().unwrap(), r1);
    assert_eq!(reader.next().unwrap(), r2);
    assert!(reader.next().is_none());
}

#[test]
fn reader_rejects_short_and_bad_magic() {
    assert_eq!(CaptureReader::new(vec![0u8; 10]).err().unwrap(), CaptureError::TooShort);
    let mut bytes = capture_file(&[]);
    bytes[0] = 0x00;
    assert_eq!(CaptureReader::new(bytes).err().unwrap(), CaptureError::BadMagic);
}

#[test]
fn reader_handles_swapped_byte_order() {
    let payload = vec![7u8, 8, 9];
    let mut bytes = Vec::new();
    bytes.extend_from_slice(&0xa1b2c3d4u32.to_be_bytes());
    bytes.extend_from_slice(&[0, 2, 0, 4]);
    bytes.extend_from_slice(&[0; 16]);
    bytes.extend_from_slice(&0u32.to_be_bytes());
    bytes.extend_from_slice(&0u32.to_be_bytes());
    bytes.extend_from_slice(&(payload.len() as u32).to_be_bytes());
    bytes.extend_from_slice(&(payload.len() as u32).to_be_bytes());
    bytes.extend_from_slice(&payload);
    let mut reader = CaptureReader::new(bytes).unwrap();
    assert!(reader.big_endian);
    assert_eq!(reader.next().unwrap(), payload);
    assert!(reader.next().is_none());
}

#[test]
fn reader_stops_at_truncated_record() {
    let r1 = record(0x53, 0x00, 0, &[]);
    let mut bytes = capture_file(&[r1.clone()]);
    // A record header promising more bytes than the file holds.
    push_le32(&mut bytes, 1);
    push_le32(&mut bytes, 2);
    push_le32(&mut bytes, 4096);
    push_le32(&mut bytes, 4096);
    bytes.push(0);
    let mut reader = CaptureReader::new(bytes).unwrap();
    assert_eq!(reader.next().unwrap(), r1);
    assert!(reader.next().is_none());
}

#[test]
fn skip_records_passes_the_preamble() {
    let r1 = record(0x53, 0x00, 0, &[1]);
    let r2 = record(0x43, 0x00, 0, &[2]);
    let r3 = record(0x53, 0x00, 0, &[3]);
    let bytes = capture_file(&[r1, r2, r3.clone()]);
    let mut reader = CaptureReader::new(bytes).unwrap();
    reader.skip_records(2);
    assert_eq!(reader.next().unwrap(), r3);
    assert!(reader.next().is_none());
}

#[test]
fn compare_equal_captures() {
    let rs = [record(0x53, 0x00, 0, &[1, 2]), record(0x43, 0x80, 0, &[3])];
    let a = CaptureReader::new(capture_file(&rs)).unwrap();
    let b = CaptureReader::new(capture_file(&rs)).unwrap();
    let report = compare_captures(a, b);
    assert_eq!(report.compared, 2);
    assert!(report.mismatches.is_empty());
    assert_eq!(report.end, CompareEnd::BothEnded);
}

#[test]
fn compare_reports_mismatch_index() {
    let first = [record(0x53, 0x00, 0, &[1, 2]), record(0x43, 0x80, 0, &[3])];
    let second = [record(0x53, 0x00, 0, &[1, 2]), record(0x43, 0x80, 5, &[3])];
    let a = CaptureReader::new(capture_file(&first)).unwrap();
    let b = CaptureReader::new(capture_file(&second)).unwrap();
    let report = compare_captures(a, b);
    assert_eq!(report.compared, 2);
    assert_eq!(report.mismatches, vec![1]);
    assert_eq!(report.end, CompareEnd::BothEnded);
}

#[test]
fn compare_reports_shorter_capture() {
    let first = [record(0x53, 0x00, 0, &[1])];
    let second = [record(0x53, 0x00, 0, &[1]), record(0x43, 0x00, 0, &[2])];
    let a = CaptureReader::new(capture_file(&first)).unwrap();
    let b = CaptureReader::new(capture_file(&second)).unwrap();
    let report = compare_captures(a, b);
    assert_eq!(report.compared, 1);
    assert_eq!(report.end, CompareEnd::FirstEnded);
}

#[test]
fn compare_stops_at_unparseable_record() {
    let first = [record(0x53, 0x00, 0, &[1]), vec![0u8; 10]];
    let second = [record(0x53, 0x00, 0, &[1]), record(0x43, 0x00, 0, &[2])];
    let a = CaptureReader::new(capture_file(&first)).unwrap();
    let b = CaptureReader::new(capture_file(&second)).unwrap();
    let report = compare_captures(a, b);
    assert_eq!(report.compared, 1);
    assert_eq!(report.end, CompareEnd::BadRecord);
}

#[test]
fn collects_only_color_payloads() {
    let color = record(0x53, 0x00, 0, &[0x12, 0xff, 0x0f, 0x3b]);
    let inbound = record(0x53, 0x80, 0, &[0x12]);
    let other_magic = record(0x53, 0x00, 0, &[0x11, 0xff]);
    let bytes = capture_file(&[inbound, color, other_magic]);
    let reader = CaptureReader::new(bytes).unwrap();
    let (payloads, complete) = collect_color_payloads(reader);
    assert!(complete);
    assert_eq!(payloads, vec![vec![0x12, 0xff, 0x0f, 0x3b]]);
}

#[test]
fn hex_chars_renders_byte_pairs() {
    let chars = hex_chars(&vec![0x0f, 0xa5, 0x00]);
    assert_eq!(chars, vec!['0', 'f', 'a', '5', '0', '0']);
}
