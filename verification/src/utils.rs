//! Offline diagnostic utilities: walking two captures in lockstep to find
//! where they diverge, harvesting raw color-protocol payloads from a
//! capture, hex rendering, and the endpoint/device-selection helpers used
//! while probing a device.

use vstd::prelude::*;
use crate::capture::CaptureReader;
use crate::bytes::clone_bytes;
use crate::usb::{Packet, PacketView, Direction, TransferType};

verus! {

/// Whether a pair of records cannot be parsed: either is shorter than the
/// fixed header.
pub open spec fn bad_pair_at(ra: Seq<Seq<u8>>, rb: Seq<Seq<u8>>, i: int) -> bool {
    ra[i].len() < 64 || rb[i].len() < 64
}

/// Whether a pair of records is equivalent under the capture-diff rule.
pub open spec fn same_pair_at(ra: Seq<Seq<u8>>, rb: Seq<Seq<u8>>, i: int) -> bool {
    PacketView::of_bytes_spec(ra[i]).same_spec(PacketView::of_bytes_spec(rb[i]))
}

/// How a capture comparison ended.
#[derive(Clone, Copy, Debug, PartialEq, Eq, Structural)]
pub enum CompareEnd {
    /// Both captures ran out together.
    BothEnded,
    /// The first capture ran out while the second still had records.
    FirstEnded,
    /// The second capture ran out while the first still had records.
    SecondEnded,
    /// A record too short to parse stopped the walk.
    BadRecord,
}

/// The result of walking two captures in lockstep.
#[derive(Clone, Debug)]
pub struct CompareReport {
    /// How many record pairs were parsed and compared.
    pub compared: usize,
    /// The indices, in ascending order, whose pairs were not equivalent.
    pub mismatches: Vec<usize>,
    /// Why the walk stopped.
    pub end: CompareEnd,
}

/// Walk two captures in lockstep, comparing corresponding records under the
/// capture-diff equivalence and reporting every index at which they differ,
/// and which capture ran out first if their lengths differ.
pub fn compare_captures(a: CaptureReader, b: CaptureReader) -> (r: CompareReport)
    requires
        a.wf(),
        b.wf(),
    ensures
        ({
            let ra = a.remaining_spec();
            let rb = b.remaining_spec();
            let n = if ra.len() <= rb.len() {
                ra.len() as int
            } else {
                rb.len() as int
            };
            &&& r.compared <= n
            &&& (forall|k: int| 0 <= k < r.compared ==> !bad_pair_at(ra, rb, k))
            &&& (r.end == CompareEnd::BadRecord <==> r.compared < n)
            &&& (r.end == CompareEnd::BadRecord ==> bad_pair_at(ra, rb, r.compared as int))
            &&& (r.compared == n ==> r.end == (if ra.len() == rb.len() {
                CompareEnd::BothEnded
            } else if ra.len() < rb.len() {
                CompareEnd::FirstEnded
            } else {
                CompareEnd::SecondEnded
            }))
            &&& (forall|k: int|
                0 <= k < r.compared ==> (r.mismatches@.contains(k as usize) <==> !same_pair_at(
                    ra,
                    rb,
                    k,
                )))
            &&& (forall|p: int, q: int|
                0 <= p < q < r.mismatches@.len() ==> r.mismatches@[p] < r.mismatches@[q])
        }),
{
    let ghost ra = a.remaining_spec();
    let ghost rb = b.remaining_spec();
    let mut ca = a;
    let mut cb = b;
    let mut mismatches: Vec<usize> = Vec::new();
    let mut k: usize = 0;
    let mut end = CompareEnd::BothEnded;
    proof {
        assert(ra.skip(0) =~= ra);
        assert(rb.skip(0) =~= rb);
        crate::capture::lemma_records_from_bounded(ca.bytes@, ca.pos as int, ca.big_endian);
        assert(ca.bytes@.len() == ca.bytes.len());
        assert(ra.len() <= usize::MAX);
    }
    loop
        invariant_except_break
            ca.wf(),
            cb.wf(),
            ca.remaining_spec() == ra.skip(k as int),
            cb.remaining_spec() == rb.skip(k as int),
        invariant
            k <= ra.len(),
            k <= rb.len(),
            ra.len() <= usize::MAX,
            forall|j: int| 0 <= j < k ==> !bad_pair_at(ra, rb, j),
            forall|j: int|
                0 <= j < k ==> (mismatches@.contains(j as usize) <==> !same_pair_at(ra, rb, j)),
            forall|j: int| 0 <= j < mismatches@.len() ==> mismatches@[j] < k,
            forall|p: int, q: int|
                0 <= p < q < mismatches@.len() ==> mismatches@[p] < mismatches@[q],
        ensures
            end == CompareEnd::BadRecord ==> k < ra.len() && k < rb.len() && bad_pair_at(
                ra,
                rb,
                k as int,
            ),
            end == CompareEnd::BothEnded ==> k == ra.len() && k == rb.len(),
            end == CompareEnd::FirstEnded ==> k == ra.len() && k < rb.len(),
            end == CompareEnd::SecondEnded ==> k == rb.len() && k < ra.len(),
        decreases ra.len() - k,
    {
        let da = ca.next();
        let db = cb.next();
        proof {
            if ra.skip(k as int).len() > 0 {
                assert(ra.skip(k as int).skip(1) =~= ra.skip(k + 1));
                assert(ra.skip(k as int)[0] == ra[k as int]);
            }
            if rb.skip(k as int).len() > 0 {
                assert(rb.skip(k as int).skip(1) =~= rb.skip(k + 1));
                assert(rb.skip(k as int)[0] == rb[k as int]);
            }
        }
        match (da, db) {
            (Option::None, Option::None) => {
                end = CompareEnd::BothEnded;
                break;
            },
            (Option::None, Some(_)) => {
                end = CompareEnd::FirstEnded;
                break;
            },
            (Some(_), Option::None) => {
                end = CompareEnd::SecondEnded;
                break;
            },
            (Some(da), Some(db)) => {
                let pa = Packet::from_bytes(&da);
                let pb = Packet::from_bytes(&db);
                match (pa, pb) {
                    (Some(pa), Some(pb)) => {
                        if !pa.same(&pb) {
                            let ghost prev = mismatches@;
                            mismatches.push(k);
                            proof {
                                assert(forall|j: int|
                                    0 <= j < prev.len() ==> mismatches@[j] == prev[j]);
                                assert(mismatches@[prev.len() as int] == k);
                                assert forall|x: usize| #[trigger] mismatches@.contains(x) implies (
                                prev.contains(x) || x == k) by {
                                    let i = choose|i: int|
                                        0 <= i < mismatches@.len() && mismatches@[i] == x;
                                    if i < prev.len() {
                                        assert(prev[i] == x);
                                    }
                                }
                                assert forall|x: usize|
                                    prev.contains(x) || x == k implies #[trigger] mismatches@.contains(
                                    x,
                                ) by {
                                    if prev.contains(x) {
                                        let i = choose|i: int|
                                            0 <= i < prev.len() && prev[i] == x;
                                        assert(mismatches@[i] == x);
                                    } else {
                                        assert(mismatches@[prev.len() as int] == x);
                                    }
                                }
                            }
                        }
                        k = k + 1;
                    },
                    _ => {
                        end = CompareEnd::BadRecord;
                        break;
                    },
                }
            },
        }
    }
    CompareReport { compared: k, mismatches, end }
}

/// Whether a parsed record is an outbound, non-empty, endpoint-zero control
/// payload of the color protocol: its first payload byte is the color-set
/// magic byte.
pub open spec fn is_color_record(p: PacketView) -> bool {
    &&& p.endpoint_direction & 0x80 != 0x80
    &&& p.data_length != 0
    &&& p.endpoint_direction & 0x7f == 0
    &&& p.data.len() > 0
    &&& p.data[0] == 0x12
}

/// The color-protocol payloads of a record sequence, in order, and whether
/// every record up to the end could be parsed (the walk stops at the first
/// record shorter than the fixed header).
pub open spec fn color_dump_spec(rs: Seq<Seq<u8>>) -> (Seq<Seq<u8>>, bool)
    decreases rs.len(),
{
    if rs.len() == 0 {
        (Seq::empty(), true)
    } else if rs[0].len() < 64 {
        (Seq::empty(), false)
    } else {
        let rest = color_dump_spec(rs.skip(1));
        if is_color_record(PacketView::of_bytes_spec(rs[0])) {
            (seq![PacketView::of_bytes_spec(rs[0]).data] + rest.0, rest.1)
        } else {
            rest
        }
    }
}

/// Harvest every color-protocol payload from a capture: the raw example
/// packets from which the wire format was reverse engineered.  The flag
/// reports whether every record parsed; the walk stops at the first that
/// does not.
pub fn collect_color_payloads(cap: CaptureReader) -> (r: (Vec<Vec<u8>>, bool))
    requires
        cap.wf(),
    ensures
        r.0.deep_view() == color_dump_spec(cap.remaining_spec()).0,
        r.1 == color_dump_spec(cap.remaining_spec()).1,
{
    let ghost full = cap.remaining_spec();
    let mut cur = cap;
    let mut done: Vec<Vec<u8>> = Vec::new();
    let mut complete = true;
    let ghost mut k: int = 0;
    proof {
        assert(full.skip(0) =~= full);
        assert(done.deep_view() =~= Seq::<Seq<u8>>::empty());
    }
    loop
        invariant_except_break
            cur.wf(),
            cur.remaining_spec() == full.skip(k),
        invariant
            0 <= k <= full.len(),
            color_dump_spec(full).0 == done.deep_view() + color_dump_spec(full.skip(k)).0,
            color_dump_spec(full).1 == color_dump_spec(full.skip(k)).1,
        ensures
            done.deep_view() == color_dump_spec(full).0,
            complete == color_dump_spec(full).1,
        decreases full.len() - k,
    {
        let d = match cur.next() {
            Some(d) => d,
            Option::None => {
                proof {
                    assert(color_dump_spec(full.skip(k)).0 =~= Seq::<Seq<u8>>::empty());
                    assert(done.deep_view() + Seq::<Seq<u8>>::empty() =~= done.deep_view());
                }
                complete = true;
                break;
            },
        };
        proof {
            assert(full.skip(k)[0] == full[k]);
            assert(full.skip(k).skip(1) =~= full.skip(k + 1));
        }
        let p = match Packet::from_bytes(&d) {
            Some(p) => p,
            Option::None => {
                proof {
                    assert(color_dump_spec(full.skip(k)).0 =~= Seq::<Seq<u8>>::empty());
                    assert(done.deep_view() + Seq::<Seq<u8>>::empty() =~= done.deep_view());
                }
                complete = false;
                break;
            },
        };
        let is_color = p.get_direction() == Direction::Out && p.get_data_length() != 0
            && p.get_endpoint() == 0 && p.get_data().len() > 0 && p.get_data()[0] == 0x12;
        proof {
            assert(is_color == is_color_record(PacketView::of_bytes_spec(full[k])));
        }
        if is_color {
            let ghost prev = done.deep_view();
            let data = clone_bytes(p.get_data());
            done.push(data);
            proof {
                assert(done.deep_view() =~~= prev.push(data@));
                assert(done.deep_view() =~= prev + seq![PacketView::of_bytes_spec(full[k]).data]);
            }
        }
        proof {
            k = k + 1;
        }
    }
    (done, complete)
}

/// The character rendering a hex digit.
pub open spec fn hex_digit_spec(n: u8) -> char
    recommends
        n < 16,
{
    if n == 0 {
        '0'
    } else if n == 1 {
        '1'
    } else if n == 2 {
        '2'
    } else if n == 3 {
        '3'
    } else if n == 4 {
        '4'
    } else if n == 5 {
        '5'
    } else if n == 6 {
        '6'
    } else if n == 7 {
        '7'
    } else if n == 8 {
        '8'
    } else if n == 9 {
        '9'
    } else if n == 10 {
        'a'
    } else if n == 11 {
        'b'
    } else if n == 12 {
        'c'
    } else if n == 13 {
        'd'
    } else if n == 14 {
        'e'
    } else {
        'f'
    }
}

fn hex_digit(n: u8) -> (r: char)
    requires
        n < 16,
    ensures
        r == hex_digit_spec(n),
{
    match n {
        0 => '0',
        1 => '1',
        2 => '2',
        3 => '3',
        4 => '4',
        5 => '5',
        6 => '6',
        7 => '7',
        8 => '8',
        9 => '9',
        10 => 'a',
        11 => 'b',
        12 => 'c',
        13 => 'd',
        14 => 'e',
        _ => 'f',
    }
}

/// Render bytes as two lowercase hex digits each, in order.
pub fn hex_chars(data: &Vec<u8>) -> (r: Vec<char>)
    ensures
        r@.len() == 2 * data@.len(),
        forall|i: int|
            0 <= i < data@.len() ==> r@[2 * i] == hex_digit_spec((data@[i] >> 4) as u8) && r@[2 * i
                + 1] == hex_digit_spec((data@[i] & 0x0f) as u8),
{
    let mut r: Vec<char> = Vec::new();
    let mut i: usize = 0;
    while i < data.len()
        invariant
            i <= data@.len(),
            r@.len() == 2 * i,
            forall|j: int|
                0 <= j < i ==> r@[2 * j] == hex_digit_spec((data@[j] >> 4) as u8) && r@[2 * j + 1]
                    == hex_digit_spec((data@[j] & 0x0f) as u8),
        decreases data@.len() - i,
    {
        let byte = data[i];
        assert((byte >> 4u8) < 16 && (byte & 0x0f) < 16) by (bit_vector);
        r.push(hex_digit(byte >> 4u8));
        r.push(hex_digit(byte & 0x0f));
        i = i + 1;
    }
    r
}

/// The effective indentation prefix of a diagnostic printer: an absent
/// prefix prints as nothing.
pub fn resolve_prefix<'a>(prefix: Option<&'a str>) -> (r: &'a str)
    ensures
        prefix matches Some(p) ==> r == p,
        prefix is None ==> r@ == Seq::<char>::empty(),
{
    match prefix {
        Some(p) => p,
        Option::None => {
            proof {
                reveal_strlit("");
            }
            ""
        },
    }
}

/// The indentation prefix one nesting level deeper: four more spaces.
pub fn nest_prefix(prefix: &str) -> (r: String)
    ensures
        r@ == prefix@ + "    "@,
{
    let mut s = String::from_str(prefix);
    s.append("    ");
    s
}

/// One endpoint of a device's descriptor tree, as the diagnostic probe
/// records it.
#[derive(Clone, Copy, Debug, PartialEq, Eq, Structural)]
pub struct Endpoint {
    pub config: u8,
    pub iface: u8,
    pub setting: u8,
    pub address: u8,
    pub transfer_type: TransferType,
}

impl Endpoint {
    /// The transfer direction encoded in the endpoint address.
    pub open spec fn direction_spec(self) -> Direction {
        Direction::of_flag_spec(self.address & 0x80 == 0x80)
    }

    pub fn direction(&self) -> (r: Direction)
        ensures
            r == self.direction_spec(),
    {
        Direction::of_flag((self.address & 0x80) == 0x80)
    }
}

/// The endpoints of a descriptor walk that transfer in one direction, in
/// walk order.
pub open spec fn endpoints_with_direction(s: Seq<Endpoint>, dir: Direction) -> Seq<Endpoint>
    decreases s.len(),
{
    if s.len() == 0 {
        Seq::empty()
    } else {
        endpoints_with_direction(s.drop_last(), dir) + (if s.last().direction_spec() == dir {
            seq![s.last()]
        } else {
            Seq::empty()
        })
    }
}

/// Keep the endpoints matching the requested direction, in order.
pub fn get_endpoints(list: &Vec<Endpoint>, dir: Direction) -> (r: Vec<Endpoint>)
    ensures
        r@ == endpoints_with_direction(list@, dir),
{
    let mut r: Vec<Endpoint> = Vec::new();
    let mut i: usize = 0;
    proof {
        assert(endpoints_with_direction(list@.take(0), dir) =~= Seq::<Endpoint>::empty());
    }
    while i < list.len()
        invariant
            i <= list@.len(),
            r@ == endpoints_with_direction(list@.take(i as int), dir),
        decreases list@.len() - i,
    {
        let e = list[i];
        proof {
            assert(list@.take(i + 1).drop_last() =~= list@.take(i as int));
            assert(list@.take(i + 1).last() == list@[i as int]);
        }
        if e.direction() == dir {
            r.push(e);
            assert(r@ =~= endpoints_with_direction(list@.take(i + 1), dir));
        } else {
            assert(r@ =~= endpoints_with_direction(list@.take(i + 1), dir));
        }
        i = i + 1;
    }
    assert(list@.take(list@.len() as int) =~= list@);
    r
}

/// The device-to-host endpoints of a walk.
pub fn get_readable_endpoints(list: &Vec<Endpoint>) -> (r: Vec<Endpoint>)
    ensures
        r@ == endpoints_with_direction(list@, Direction::In),
{
    get_endpoints(list, Direction::In)
}

/// The host-to-device endpoints of a walk.
pub fn get_writable_endpoints(list: &Vec<Endpoint>) -> (r: Vec<Endpoint>)
    ensures
        r@ == endpoints_with_direction(list@, Direction::Out),
{
    get_endpoints(list, Direction::Out)
}

/// The first device of an enumeration whose descriptor carries the wanted
/// vendor and product identifiers.
pub fn find_device(devices: &Vec<(u16, u16)>, vendor_id: u16, product_id: u16) -> (r: Option<
    usize,
>)
    ensures
        r matches Some(i) ==> i < devices@.len() && devices@[i as int].0 == vendor_id
            && devices@[i as int].1 == product_id && (forall|j: int|
            0 <= j < i ==> !(devices@[j].0 == vendor_id && devices@[j].1 == product_id)),
        r is None ==> forall|j: int|
            0 <= j < devices@.len() ==> !(devices@[j].0 == vendor_id && devices@[j].1
                == product_id),
{
    let mut i: usize = 0;
    while i < devices.len()
        invariant
            i <= devices@.len(),
            forall|j: int|
                0 <= j < i ==> !(devices@[j].0 == vendor_id && devices@[j].1 == product_id),
        decreases devices@.len() - i,
    {
        let (v, p) = devices[i];
        if v == vendor_id && p == product_id {
            return Some(i);
        }
        i = i + 1;
    }
    None
}

} // verus!
