//! The USB capture-record model: one 64-byte kernel USB-monitor header plus
//! the trailing payload, decoded field by field in little-endian order.

use vstd::prelude::*;
use crate::bytes::{
    le16_spec, le32_spec, le64_spec, read_le16, read_le32, read_le64, u16_bytes_spec,
    u32_bytes_spec, u64_bytes_spec, push_le16, push_le32, push_le64, lemma_le16_round_trip,
    lemma_le32_round_trip, lemma_le64_round_trip, bytes_eq,
};

verus! {

/// Whether a record is the submission of a transfer or its completion.
#[derive(Clone, Copy, Debug, PartialEq, Eq, Structural)]
pub enum UrbType {
    Submit,
    Complete,
}

impl UrbType {
    /// The meaning of a record's URB-type byte.  Only `0x53` ("S") and
    /// `0x43` ("C") occur in well-formed captures; every other value is out
    /// of this tool's scope.
    pub open spec fn of_byte_spec(b: u8) -> UrbType
        recommends
            b == 0x53 || b == 0x43,
    {
        if b == 0x53 {
            UrbType::Submit
        } else {
            UrbType::Complete
        }
    }

    pub fn of_byte(b: u8) -> (r: UrbType)
        requires
            b == 0x53 || b == 0x43,
        ensures
            r == Self::of_byte_spec(b),
    {
        if b == 0x53 {
            UrbType::Submit
        } else {
            UrbType::Complete
        }
    }
}

/// The USB transfer type of a record.  Only `Control` and `Interrupt` are
/// accepted by this tool; the `Isochronous` and `Bulk` values exist in the
/// format but are out of scope.
#[derive(Clone, Copy, Debug, PartialEq, Eq, Structural)]
pub enum TransferType {
    Control,
    Isochronous,
    Bulk,
    Interrupt,
}

impl TransferType {
    /// The meaning of a record's transfer-type byte, for the two types this
    /// tool accepts.
    pub open spec fn of_byte_spec(b: u8) -> TransferType
        recommends
            b == 0x01 || b == 0x02,
    {
        if b == 0x01 {
            TransferType::Interrupt
        } else {
            TransferType::Control
        }
    }

    pub fn of_byte(b: u8) -> (r: TransferType)
        requires
            b == 0x01 || b == 0x02,
        ensures
            r == Self::of_byte_spec(b),
    {
        if b == 0x01 {
            TransferType::Interrupt
        } else {
            TransferType::Control
        }
    }
}

/// The direction of a transfer, seen from the host.
#[derive(Clone, Copy, Debug, PartialEq, Eq, Structural)]
pub enum Direction {
    In,
    Out,
}

impl Direction {
    pub open spec fn of_flag_spec(b: bool) -> Direction {
        if b {
            Direction::In
        } else {
            Direction::Out
        }
    }

    pub fn of_flag(b: bool) -> (r: Direction)
        ensures
            r == Self::of_flag_spec(b),
    {
        if b {
            Direction::In
        } else {
            Direction::Out
        }
    }
}

/// The mathematical image of a parsed capture record.
pub struct PacketView {
    pub id: u64,
    pub urb_type: u8,
    pub transfer_type: u8,
    pub endpoint_direction: u8,
    pub device: u8,
    pub bus_id: u16,
    pub setup_request: u8,
    pub data_present: u8,
    pub sec: u64,
    pub usec: u32,
    pub status: u32,
    pub length: u32,
    pub data_length: u32,
    pub bm_request_type: u8,
    pub b_request: u8,
    pub descriptor_index: u8,
    pub descriptor_type: u8,
    pub language_id: u16,
    pub w_length: u16,
    pub interval: u32,
    pub start_frame: u32,
    pub transfer_flags: u32,
    pub num_iso_desc: u32,
    pub data: Seq<u8>,
}

impl PacketView {
    /// The record decoded from its wire bytes: the 64-byte header's fields
    /// at their fixed offsets, then the payload.
    pub open spec fn of_bytes_spec(b: Seq<u8>) -> PacketView
        recommends
            b.len() >= 64,
    {
        PacketView {
            id: le64_spec(b, 0),
            urb_type: b[8],
            transfer_type: b[9],
            endpoint_direction: b[10],
            device: b[11],
            bus_id: le16_spec(b, 12),
            setup_request: b[14],
            data_present: b[15],
            sec: le64_spec(b, 16),
            usec: le32_spec(b, 24),
            status: le32_spec(b, 28),
            length: le32_spec(b, 32),
            data_length: le32_spec(b, 36),
            bm_request_type: b[40],
            b_request: b[41],
            descriptor_index: b[42],
            descriptor_type: b[43],
            language_id: le16_spec(b, 44),
            w_length: le16_spec(b, 46),
            interval: le32_spec(b, 48),
            start_frame: le32_spec(b, 52),
            transfer_flags: le32_spec(b, 56),
            num_iso_desc: le32_spec(b, 60),
            data: b.skip(64),
        }
    }

    /// The record's wire bytes: every header field at its fixed offset in
    /// little-endian order, then the payload.
    pub open spec fn bytes_spec(self) -> Seq<u8> {
        u64_bytes_spec(self.id) + seq![
            self.urb_type,
            self.transfer_type,
            self.endpoint_direction,
            self.device,
        ] + u16_bytes_spec(self.bus_id) + seq![self.setup_request, self.data_present]
            + u64_bytes_spec(self.sec) + u32_bytes_spec(self.usec) + u32_bytes_spec(self.status)
            + u32_bytes_spec(self.length) + u32_bytes_spec(self.data_length) + seq![
            self.bm_request_type,
            self.b_request,
            self.descriptor_index,
            self.descriptor_type,
        ] + u16_bytes_spec(self.language_id) + u16_bytes_spec(self.w_length) + u32_bytes_spec(
            self.interval,
        ) + u32_bytes_spec(self.start_frame) + u32_bytes_spec(self.transfer_flags)
            + u32_bytes_spec(self.num_iso_desc) + self.data
    }

    /// Equivalence for capture diffing: the protocol-relevant fields agree
    /// while the capture-session artifacts (record id, timestamp, device and
    /// bus numbers) are disregarded.
    pub open spec fn same_spec(self, other: PacketView) -> bool {
        &&& self.urb_type == other.urb_type
        &&& self.transfer_type == other.transfer_type
        &&& self.endpoint_direction == other.endpoint_direction
        &&& self.status == other.status
        &&& self.length == other.length
        &&& self.data_length == other.data_length
        &&& self.data == other.data
    }
}

/// One parsed capture record: the typed view of a 64-byte USB-monitor
/// header and its trailing payload.
#[derive(Clone, Debug)]
pub struct Packet {
    pub id: u64,
    pub urb_type: u8,
    pub transfer_type: u8,
    pub endpoint_direction: u8,
    pub device: u8,
    pub bus_id: u16,
    pub setup_request: u8,
    pub data_present: u8,
    pub sec: u64,
    pub usec: u32,
    pub status: u32,
    pub length: u32,
    pub data_length: u32,
    pub bm_request_type: u8,
    pub b_request: u8,
    pub descriptor_index: u8,
    pub descriptor_type: u8,
    pub language_id: u16,
    pub w_length: u16,
    pub interval: u32,
    pub start_frame: u32,
    pub transfer_flags: u32,
    pub num_iso_desc: u32,
    pub data: Vec<u8>,
}

impl View for Packet {
    type V = PacketView;

    open spec fn view(&self) -> PacketView {
        PacketView {
            id: self.id,
            urb_type: self.urb_type,
            transfer_type: self.transfer_type,
            endpoint_direction: self.endpoint_direction,
            device: self.device,
            bus_id: self.bus_id,
            setup_request: self.setup_request,
            data_present: self.data_present,
            sec: self.sec,
            usec: self.usec,
            status: self.status,
            length: self.length,
            data_length: self.data_length,
            bm_request_type: self.bm_request_type,
            b_request: self.b_request,
            descriptor_index: self.descriptor_index,
            descriptor_type: self.descriptor_type,
            language_id: self.language_id,
            w_length: self.w_length,
            interval: self.interval,
            start_frame: self.start_frame,
            transfer_flags: self.transfer_flags,
            num_iso_desc: self.num_iso_desc,
            data: self.data@,
        }
    }
}

impl Packet {
    /// Parse one capture record.  A buffer shorter than the fixed 64-byte
    /// header cannot hold a record and yields nothing; everything after the
    /// header is the payload.
    pub fn from_bytes(bytes: &Vec<u8>) -> (r: Option<Packet>)
        ensures
            r is Some <==> bytes@.len() >= 64,
            r matches Some(p) ==> p@ == PacketView::of_bytes_spec(bytes@),
    {
        if bytes.len() < 64 {
            return None;
        }
        let mut data: Vec<u8> = Vec::new();
        let mut i: usize = 64;
        while i < bytes.len()
            invariant
                64 <= i <= bytes@.len(),
                data@ == bytes@.subrange(64, i as int),
            decreases bytes@.len() - i,
        {
            data.push(bytes[i]);
            assert(data@ =~= bytes@.subrange(64, i + 1));
            i = i + 1;
        }
        assert(data@ =~= bytes@.skip(64));
        Some(
            Packet {
                id: read_le64(bytes, 0),
                urb_type: bytes[8],
                transfer_type: bytes[9],
                endpoint_direction: bytes[10],
                device: bytes[11],
                bus_id: read_le16(bytes, 12),
                setup_request: bytes[14],
                data_present: bytes[15],
                sec: read_le64(bytes, 16),
                usec: read_le32(bytes, 24),
                status: read_le32(bytes, 28),
                length: read_le32(bytes, 32),
                data_length: read_le32(bytes, 36),
                bm_request_type: bytes[40],
                b_request: bytes[41],
                descriptor_index: bytes[42],
                descriptor_type: bytes[43],
                language_id: read_le16(bytes, 44),
                w_length: read_le16(bytes, 46),
                interval: read_le32(bytes, 48),
                start_frame: read_le32(bytes, 52),
                transfer_flags: read_le32(bytes, 56),
                num_iso_desc: read_le32(bytes, 60),
                data,
            },
        )
    }

    /// The record's wire bytes, header then payload.
    pub fn to_bytes(&self) -> (r: Vec<u8>)
        ensures
            r@ == self@.bytes_spec(),
    {
        let mut r: Vec<u8> = Vec::new();
        push_le64(&mut r, self.id);
        r.push(self.urb_type);
        r.push(self.transfer_type);
        r.push(self.endpoint_direction);
        r.push(self.device);
        push_le16(&mut r, self.bus_id);
        r.push(self.setup_request);
        r.push(self.data_present);
        push_le64(&mut r, self.sec);
        push_le32(&mut r, self.usec);
        push_le32(&mut r, self.status);
        push_le32(&mut r, self.length);
        push_le32(&mut r, self.data_length);
        r.push(self.bm_request_type);
        r.push(self.b_request);
        r.push(self.descriptor_index);
        r.push(self.descriptor_type);
        push_le16(&mut r, self.language_id);
        push_le16(&mut r, self.w_length);
        push_le32(&mut r, self.interval);
        push_le32(&mut r, self.start_frame);
        push_le32(&mut r, self.transfer_flags);
        push_le32(&mut r, self.num_iso_desc);
        let ghost header = r@;
        let mut i: usize = 0;
        while i < self.data.len()
            invariant
                i <= self.data@.len(),
                r@ == header + self.data@.subrange(0, i as int),
            decreases self.data@.len() - i,
        {
            r.push(self.data[i]);
            assert(r@ =~= header + self.data@.subrange(0, i + 1));
            i = i + 1;
        }
        proof {
            assert(self.data@.subrange(0, self.data@.len() as int) =~= self.data@);
            assert(r@ =~= self@.bytes_spec());
        }
        r
    }

    pub fn get_id(&self) -> (r: u64)
        ensures
            r == self@.id,
    {
        self.id
    }

    /// Whether this record is a submission or a completion.  The format is
    /// assumed well-formed: any other URB-type byte is out of scope.
    pub fn get_urb_type(&self) -> (r: UrbType)
        requires
            self@.urb_type == 0x53 || self@.urb_type == 0x43,
        ensures
            r == UrbType::of_byte_spec(self@.urb_type),
    {
        UrbType::of_byte(self.urb_type)
    }

    /// The record's transfer type.  Only control and interrupt records are
    /// in scope; isochronous and bulk captures are not accepted.
    pub fn get_transfer_type(&self) -> (r: TransferType)
        requires
            self@.transfer_type == 0x01 || self@.transfer_type == 0x02,
        ensures
            r == TransferType::of_byte_spec(self@.transfer_type),
    {
        TransferType::of_byte(self.transfer_type)
    }

    /// The transfer direction: bit `0x80` of the endpoint byte set means
    /// device-to-host.
    pub fn get_direction(&self) -> (r: Direction)
        ensures
            r == Direction::of_flag_spec(self@.endpoint_direction & 0x80 == 0x80),
    {
        Direction::of_flag((self.endpoint_direction & 0x80) == 0x80)
    }

    /// The 7-bit endpoint number.
    pub fn get_endpoint(&self) -> (r: u8)
        ensures
            r == self@.endpoint_direction & 0x7f,
    {
        self.endpoint_direction & 0x7f
    }

    /// The raw endpoint byte, direction flag included.
    pub fn get_endpoint_direction(&self) -> (r: u8)
        ensures
            r == self@.endpoint_direction,
    {
        self.endpoint_direction
    }

    pub fn get_device(&self) -> (r: u8)
        ensures
            r == self@.device,
    {
        self.device
    }

    pub fn get_bus_id(&self) -> (r: u16)
        ensures
            r == self@.bus_id,
    {
        self.bus_id
    }

    pub fn get_setup_request(&self) -> (r: u8)
        ensures
            r == self@.setup_request,
    {
        self.setup_request
    }

    /// Whether a payload was captured.  The flag is inverted on the wire: the
    /// byte equals zero exactly when data is present.
    pub fn is_data_present(&self) -> (r: bool)
        ensures
            r == (self@.data_present == 0x00),
    {
        self.data_present == 0x00
    }

    pub fn get_sec(&self) -> (r: u64)
        ensures
            r == self@.sec,
    {
        self.sec
    }

    pub fn get_usec(&self) -> (r: u32)
        ensures
            r == self@.usec,
    {
        self.usec
    }

    pub fn get_status(&self) -> (r: u32)
        ensures
            r == self@.status,
    {
        self.status
    }

    pub fn get_length(&self) -> (r: u32)
        ensures
            r == self@.length,
    {
        self.length
    }

    pub fn get_data_length(&self) -> (r: u32)
        ensures
            r == self@.data_length,
    {
        self.data_length
    }

    pub fn get_bm_request_type(&self) -> (r: u8)
        ensures
            r == self@.bm_request_type,
    {
        self.bm_request_type
    }

    pub fn get_b_request(&self) -> (r: u8)
        ensures
            r == self@.b_request,
    {
        self.b_request
    }

    pub fn get_descriptor_index(&self) -> (r: u8)
        ensures
            r == self@.descriptor_index,
    {
        self.descriptor_index
    }

    pub fn get_descriptor_type(&self) -> (r: u8)
        ensures
            r == self@.descriptor_type,
    {
        self.descriptor_type
    }

    /// The setup packet's 16-bit `wValue`, reconstructed from its two bytes.
    pub open spec fn value_spec(self) -> u16 {
        (self.descriptor_type as u16) << 8 | (self.descriptor_index as u16)
    }

    pub fn get_value(&self) -> (r: u16)
        ensures
            r == ((self@.descriptor_type as u16) << 8 | (self@.descriptor_index as u16)),
    {
        (self.descriptor_type as u16) << 8u16 | (self.descriptor_index as u16)
    }

    pub fn get_language_id(&self) -> (r: u16)
        ensures
            r == self@.language_id,
    {
        self.language_id
    }

    pub fn get_w_length(&self) -> (r: u16)
        ensures
            r == self@.w_length,
    {
        self.w_length
    }

    pub fn get_interval(&self) -> (r: u32)
        ensures
            r == self@.interval,
    {
        self.interval
    }

    pub fn get_start_frame(&self) -> (r: u32)
        ensures
            r == self@.start_frame,
    {
        self.start_frame
    }

    pub fn get_transfer_flags(&self) -> (r: u32)
        ensures
            r == self@.transfer_flags,
    {
        self.transfer_flags
    }

    pub fn get_num_iso_desc(&self) -> (r: u32)
        ensures
            r == self@.num_iso_desc,
    {
        self.num_iso_desc
    }

    pub fn get_data(&self) -> (r: &Vec<u8>)
        ensures
            r@ == self@.data,
    {
        &self.data
    }

    /// Semantic equivalence for capture diffing, per `PacketView::same_spec`:
    /// protocol-relevant fields compared, session artifacts disregarded.
    pub fn same(&self, other: &Packet) -> (r: bool)
        ensures
            r == self@.same_spec(other@),
    {
        self.urb_type == other.urb_type && self.transfer_type == other.transfer_type
            && self.endpoint_direction == other.endpoint_direction && self.status == other.status
            && self.length == other.length && self.data_length == other.data_length && bytes_eq(
            &self.data,
            &other.data,
        )
    }
}

/// Encoding a record and parsing the result reproduces every field exactly.
pub proof fn lemma_packet_round_trip(v: PacketView)
    ensures
        PacketView::of_bytes_spec(v.bytes_spec()) == v,
{
    let b = v.bytes_spec();
    lemma_le64_round_trip(v.id);
    lemma_le64_round_trip(v.sec);
    lemma_le16_round_trip(v.bus_id);
    lemma_le16_round_trip(v.language_id);
    lemma_le16_round_trip(v.w_length);
    lemma_le32_round_trip(v.usec);
    lemma_le32_round_trip(v.status);
    lemma_le32_round_trip(v.length);
    lemma_le32_round_trip(v.data_length);
    lemma_le32_round_trip(v.interval);
    lemma_le32_round_trip(v.start_frame);
    lemma_le32_round_trip(v.transfer_flags);
    lemma_le32_round_trip(v.num_iso_desc);
    assert(b.skip(64) =~= v.data);
    assert(PacketView::of_bytes_spec(b) == v);
}

} // verus!
