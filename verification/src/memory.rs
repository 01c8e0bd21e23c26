//! The firmware memory-layout analyzer: a pure simulation that stamps each
//! key's own code into the three per-channel cells the firmware keeps for
//! it, inside a 1000-byte image, using the reverse-engineered per-key offset
//! tables.  No device is touched; the image, its report windows and the
//! never-used byte values are computed for inspection.
//!
//! Each table entry packs, for the key whose code indexes it, a page index
//! in its low byte and the red, green and blue sub-offsets in the next three
//! bytes; the all-ones entry marks a key with no mapping, and the sentinel
//! "no key" code is always skipped.

use vstd::prelude::*;
use crate::keys::{StandardKey, GamingKey};

verus! {

/// The size of the simulated firmware memory image.
pub const IMAGE_SIZE: usize = 1000;

/// The table entry that marks "no mapping" for a key.
pub const NO_MAPPING: u32 = 0xffffffff;

/// The firmware's per-key record stride.
pub const PAGE_STRIDE: usize = 0xf0;

/// The fixed offset of the first key record.
pub const PAGE_BASE: usize = 0x2b;

/// The base offset of a table entry's page.
pub open spec fn base_offset_spec(e: u32) -> int {
    0xf0 * (e & 0xff) + 0x2b
}

/// The absolute red-channel offset of a table entry.
pub open spec fn red_offset_spec(e: u32) -> int {
    base_offset_spec(e) + ((e >> 8) & 0xff)
}

/// The absolute green-channel offset of a table entry.
pub open spec fn green_offset_spec(e: u32) -> int {
    base_offset_spec(e) + ((e >> 16) & 0xff)
}

/// The absolute blue-channel offset of a table entry.
pub open spec fn blue_offset_spec(e: u32) -> int {
    base_offset_spec(e) + ((e >> 24) & 0xff)
}

/// Write one cell, when its offset falls inside the image.
pub open spec fn stamp_cell(image: Seq<u8>, off: int, code: u8) -> Seq<u8> {
    if 0 <= off < image.len() {
        image.update(off, code)
    } else {
        image
    }
}

/// Stamp one key's three channel cells with its own code.  The sentinel
/// "no key" code, a code outside the table, and a key marked "no mapping"
/// leave the image untouched.
pub open spec fn stamp_one(image: Seq<u8>, table: Seq<u32>, code: u8) -> Seq<u8> {
    if code == 0 || code >= table.len() {
        image
    } else {
        let e = table[code as int];
        if e == NO_MAPPING {
            image
        } else {
            stamp_cell(
                stamp_cell(stamp_cell(image, red_offset_spec(e), code), green_offset_spec(e), code),
                blue_offset_spec(e),
                code,
            )
        }
    }
}

/// Stamp a whole bank, key by key in order.
pub open spec fn stamp_all(image: Seq<u8>, table: Seq<u32>, codes: Seq<u8>) -> Seq<u8>
    decreases codes.len(),
{
    if codes.len() == 0 {
        image
    } else {
        stamp_one(stamp_all(image, table, codes.drop_last()), table, codes.last())
    }
}

proof fn lemma_stamp_all_take(image: Seq<u8>, table: Seq<u32>, codes: Seq<u8>, i: int)
    requires
        0 <= i < codes.len(),
    ensures
        stamp_all(image, table, codes.take(i + 1)) == stamp_one(
            stamp_all(image, table, codes.take(i)),
            table,
            codes[i],
        ),
{
    assert(codes.take(i + 1).drop_last() =~= codes.take(i));
    assert(codes.take(i + 1).last() == codes[i]);
}

/// Stamping never writes outside the image: the length is kept, and every
/// cell that differs from the starting image holds some stamped key's code,
/// a key that is neither the sentinel nor marked "no mapping", at one of
/// that key's three in-bounds channel offsets.
pub proof fn lemma_stamp_all_in_image(
    image: Seq<u8>,
    table: Seq<u32>,
    codes: Seq<u8>,
    off: int,
)
    ensures
        stamp_all(image, table, codes).len() == image.len(),
        stamp_all(image, table, codes)[off] != image[off] && 0 <= off < image.len() ==> exists|
            j: int,
        |
            {
                &&& 0 <= j < codes.len()
                &&& codes[j] != 0
                &&& codes[j] < table.len()
                &&& table[codes[j] as int] != NO_MAPPING
                &&& {
                    let e = table[codes[j] as int];
                    ||| (off == red_offset_spec(e) && 0 <= red_offset_spec(e) < image.len())
                    ||| (off == green_offset_spec(e) && 0 <= green_offset_spec(e) < image.len())
                    ||| (off == blue_offset_spec(e) && 0 <= blue_offset_spec(e) < image.len())
                }
            },
    decreases codes.len(),
{
    if codes.len() > 0 {
        lemma_stamp_all_in_image(image, table, codes.drop_last(), off);
        let prev = stamp_all(image, table, codes.drop_last());
        let code = codes.last();
        if stamp_all(image, table, codes)[off] != image[off] && 0 <= off < image.len() {
            if stamp_one(prev, table, code)[off] != prev[off] {
                assert(code != 0 && code < table.len() && table[code as int] != NO_MAPPING);
                let e = table[code as int];
                assert(off == red_offset_spec(e) || off == green_offset_spec(e) || off
                    == blue_offset_spec(e));
                assert(codes[codes.len() - 1] == code);
            } else {
                let j = choose|j: int|
                    {
                        &&& 0 <= j < codes.drop_last().len()
                        &&& codes.drop_last()[j] != 0
                        &&& codes.drop_last()[j] < table.len()
                        &&& table[codes.drop_last()[j] as int] != NO_MAPPING
                        &&& {
                            let e = table[codes.drop_last()[j] as int];
                            ||| (off == red_offset_spec(e) && 0 <= red_offset_spec(e)
                                < image.len())
                            ||| (off == green_offset_spec(e) && 0 <= green_offset_spec(e)
                                < image.len())
                            ||| (off == blue_offset_spec(e) && 0 <= blue_offset_spec(e)
                                < image.len())
                        }
                    };
                assert(codes[j] == codes.drop_last()[j]);
            }
        }
    }
}

/// Stamp a whole bank into the image.
fn stamp_bank(image: &mut Vec<u8>, table: &Vec<u32>, codes: &Vec<u8>)
    ensures
        final(image)@ == stamp_all(old(image)@, table@, codes@),
{
    let ghost image0 = image@;
    let mut i: usize = 0;
    proof {
        assert(stamp_all(image0, table@, codes@.take(0)) =~= image0);
    }
    while i < codes.len()
        invariant
            i <= codes@.len(),
            image@ == stamp_all(image0, table@, codes@.take(i as int)),
        decreases codes@.len() - i,
    {
        let code = codes[i];
        proof {
            lemma_stamp_all_take(image0, table@, codes@, i as int);
        }
        if code != 0 && (code as usize) < table.len() {
            let e = table[code as usize];
            if e != NO_MAPPING {
                proof {
                    assert((e & 0xff) < 256 && ((e >> 8u32) & 0xff) < 256 && ((e >> 16u32) & 0xff)
                        < 256 && ((e >> 24u32) & 0xff) < 256) by (bit_vector);
                }
                let base = PAGE_STRIDE * ((e & 0xff) as usize) + PAGE_BASE;
                let red = base + (((e >> 8u32) & 0xff) as usize);
                let green = base + (((e >> 16u32) & 0xff) as usize);
                let blue = base + (((e >> 24u32) & 0xff) as usize);
                if red < image.len() {
                    image.set(red, code);
                }
                if green < image.len() {
                    image.set(green, code);
                }
                if blue < image.len() {
                    image.set(blue, code);
                }
            }
        }
        i = i + 1;
    }
    proof {
        assert(codes@.take(codes@.len() as int) =~= codes@);
    }
}

/// The fully stamped image: a zeroed 1000-byte image with the standard bank
/// stamped first, then the gaming bank.
pub open spec fn layout_image_spec() -> Seq<u8> {
    stamp_all(
        stamp_all(
            Seq::new(IMAGE_SIZE as nat, |i: int| 0u8),
            standard_key_offsets_spec(),
            StandardKey::codes_spec(),
        ),
        gaming_key_offsets_spec(),
        GamingKey::codes_spec(),
    )
}

/// Build the simulated memory image of both banks.
pub fn memory_layout_image() -> (r: Vec<u8>)
    ensures
        r@ == layout_image_spec(),
        r@.len() == IMAGE_SIZE,
{
    proof {
        let zeros = Seq::new(IMAGE_SIZE as nat, |i: int| 0u8);
        lemma_stamp_all_in_image(zeros, standard_key_offsets_spec(), StandardKey::codes_spec(), 0);
        lemma_stamp_all_in_image(
            stamp_all(zeros, standard_key_offsets_spec(), StandardKey::codes_spec()),
            gaming_key_offsets_spec(),
            GamingKey::codes_spec(),
            0,
        );
    }
    let mut image = crate::replay::zero_buf(IMAGE_SIZE);
    let standard_table = standard_key_offsets();
    let standard_codes = StandardKey::codes();
    stamp_bank(&mut image, &standard_table, &standard_codes);
    let gaming_table = gaming_key_offsets();
    let gaming_codes = GamingKey::codes();
    stamp_bank(&mut image, &gaming_table, &gaming_codes);
    image
}

/// One report window of the image, in rows of ten cells with only the five
/// odd-indexed cells of each row kept: the even-indexed cells are
/// reverse-engineered padding.
pub fn window_cells(image: &Vec<u8>, start: usize, end: usize) -> (r: Vec<Vec<u8>>)
    requires
        start <= end <= image.len(),
        (end - start) % 10 == 0,
    ensures
        10 * r@.len() == end - start,
        forall|i: int|
            0 <= i < r@.len() ==> #[trigger] r@[i]@ == seq![
                image@[start + 10 * i + 1],
                image@[start + 10 * i + 3],
                image@[start + 10 * i + 5],
                image@[start + 10 * i + 7],
                image@[start + 10 * i + 9],
            ],
{
    let mut r: Vec<Vec<u8>> = Vec::new();
    let mut s: usize = start;
    while s < end
        invariant
            start <= s <= end <= image@.len(),
            (end - start) % 10 == 0,
            (s - start) % 10 == 0,
            10 * r@.len() == s - start,
            forall|i: int|
                0 <= i < r@.len() ==> #[trigger] r@[i]@ == seq![
                    image@[start + 10 * i + 1],
                    image@[start + 10 * i + 3],
                    image@[start + 10 * i + 5],
                    image@[start + 10 * i + 7],
                    image@[start + 10 * i + 9],
                ],
        decreases end - s,
    {
        proof {
            assert(s + 10 <= end) by {
                assert((end - s) % 10 == 0);
                assert(end - s > 0);
                assert(end - s >= 10) by {
                    if end - s < 10 {
                        assert((end - s) % 10 == end - s);
                    }
                };
            };
        }
        let mut row: Vec<u8> = Vec::new();
        row.push(image[s + 1]);
        row.push(image[s + 3]);
        row.push(image[s + 5]);
        row.push(image[s + 7]);
        row.push(image[s + 9]);
        let ghost m = r@.len();
        r.push(row);
        proof {
            assert(row@ =~= seq![
                image@[start + 10 * m + 1],
                image@[start + 10 * m + 3],
                image@[start + 10 * m + 5],
                image@[start + 10 * m + 7],
                image@[start + 10 * m + 9],
            ]);
        }
        s = s + 10;
    }
    r
}

fn image_contains(image: &Vec<u8>, v: u8) -> (r: bool)
    ensures
        r == image@.contains(v),
{
    let mut i: usize = 0;
    while i < image.len()
        invariant
            i <= image@.len(),
            forall|j: int| 0 <= j < i ==> image@[j] != v,
        decreases image@.len() - i,
    {
        if image[i] == v {
            return true;
        }
        i = i + 1;
    }
    false
}

/// Every byte value below `0xff` that never occurs anywhere in the image:
/// the candidate unused firmware memory addresses, in ascending order.
pub fn absent_values(image: &Vec<u8>) -> (r: Vec<u8>)
    ensures
        forall|v: u8| r@.contains(v) <==> (v < 0xff && !image@.contains(v)),
        forall|p: int, q: int| 0 <= p < q < r@.len() ==> r@[p] < r@[q],
{
    let mut r: Vec<u8> = Vec::new();
    let mut v: usize = 0;
    while v < 0xff
        invariant
            v <= 0xff,
            forall|x: u8| r@.contains(x) <==> (x < v && !image@.contains(x)),
            forall|j: int| 0 <= j < r@.len() ==> r@[j] < v,
            forall|p: int, q: int| 0 <= p < q < r@.len() ==> r@[p] < r@[q],
        decreases 0xff - v,
    {
        let b = v as u8;
        if !image_contains(image, b) {
            let ghost prev = r@;
            r.push(b);
            proof {
                assert(forall|j: int| 0 <= j < prev.len() ==> r@[j] == prev[j]);
                assert(r@[prev.len() as int] == b);
                assert forall|x: u8| #[trigger] r@.contains(x) implies (prev.contains(x) || x == b)
                    by {
                    let i = choose|i: int| 0 <= i < r@.len() && r@[i] == x;
                    if i < prev.len() {
                        assert(prev[i] == x);
                    }
                }
                assert forall|x: u8| prev.contains(x) || x == b implies #[trigger] r@.contains(x)
                    by {
                    if prev.contains(x) {
                        let i = choose|i: int| 0 <= i < prev.len() && prev[i] == x;
                        assert(r@[i] == x);
                    } else {
                        assert(r@[prev.len() as int] == x);
                    }
                }
            }
        }
        v = v + 1;
    }
    r
}

/// One part of the gaming key offsets table, in order.
pub open spec fn gaming_key_offsets_chunk_a() -> Seq<u32> {
    seq![
        0xFFFFFFFFu32,
        0x382E2402u32,
        0x92887E02u32,
        0x584E4402u32,
        0x766C6202u32,
        0x948A8002u32,
        0x362C2202u32,
        0x342A2002u32,
        0x32281E02u32,
        0xAAA09601u32,
    ]
}

fn gaming_key_offsets_part_a() -> (r: Vec<u32>)
    ensures
        r@ == gaming_key_offsets_chunk_a(),
{
    let mut v: Vec<u32> = Vec::new();
    v.push(0xFFFFFFFF);
    v.push(0x382E2402);
    v.push(0x92887E02);
    v.push(0x584E4402);
    v.push(0x766C6202);
    v.push(0x948A8002);
    v.push(0x362C2202);
    v.push(0x342A2002);
    v.push(0x32281E02);
    v.push(0xAAA09601);
    assert(v@ =~= gaming_key_offsets_chunk_a());
    v
}

/// The whole gaming key offsets table.
pub open spec fn gaming_key_offsets_spec() -> Seq<u32> {
    gaming_key_offsets_chunk_a()
}

pub fn gaming_key_offsets() -> (r: Vec<u32>)
    ensures
        r@ == gaming_key_offsets_spec(),
{
    let mut v = gaming_key_offsets_part_a();
    v
}

/// One part of the standard key offsets table, in order.
pub open spec fn standard_key_offsets_chunk_a() -> Seq<u32> {
    seq![
        0xFFFFFFFFu32,
        0xFFFFFFFFu32,
        0xFFFFFFFFu32,
        0xFFFFFFFFu32,
        0xAEA49A02u32,
        0x32281E01u32,
        0xE6DCD202u32,
        0xC8BEB402u32,
        0x8C827802u32,
        0xAAA09602u32,
        0x6E645A01u32,
        0x160C0201u32,
        0x90867C01u32,
        0x180E0401u32,
        0x72685E01u32,
        0x746A6001u32,
        0x362C2201u32,
        0x342A2001u32,
        0x92887E01u32,
        0xECE2D801u32,
        0x72685E02u32,
        0x6E645A02u32,
        0xACA29802u32,
        0x8C827801u32,
        0x52483E01u32,
        0x140A0001u32,
        0x8E847A02u32,
        0xCAC0B602u32,
        0x70665C01u32,
        0x90867C02u32,
        0x544A4002u32,
        0x52483E02u32,
    ]
}

/// One part of the standard key offsets table, in order.
pub open spec fn standard_key_offsets_chunk_b() -> Seq<u32> {
    seq![
        0x70665C02u32,
        0x50463C02u32,
        0xE6DCD201u32,
        0xE8DED401u32,
        0x8E847A01u32,
        0xEAE0D601u32,
        0xCCC2B801u32,
        0xCEC4BA01u32,
        0x6E645A00u32,
        0x1A100602u32,
        0xC8BEB400u32,
        0x746A6002u32,
        0x50463C01u32,
        0xEEE4DA01u32,
        0x948A8001u32,
        0x766C6201u32,
        0x8C827800u32,
        0x8E847A00u32,
        0xAAA09600u32,
        0x1A100601u32,
        0x1C120801u32,
        0x564C4202u32,
        0x544A4001u32,
        0x382E2401u32,
        0x3A302601u32,
        0xB0A69C02u32,
        0x180E0402u32,
        0x160C0202u32,
        0x140A0002u32,
        0xC8BEB401u32,
        0xCAC0B601u32,
        0xACA29801u32,
    ]
}

/// One part of the standard key offsets table, in order.
pub open spec fn standard_key_offsets_chunk_c() -> Seq<u32> {
    seq![
        0xAEA49A01u32,
        0xB0A69C01u32,
        0xB2A89E01u32,
        0xD0C6BC01u32,
        0xE6DCD200u32,
        0xE8DED400u32,
        0xCAC0B600u32,
        0xCCC2B800u32,
        0x180E0400u32,
        0xACA29800u32,
        0xAEA49A00u32,
        0xEAE0D600u32,
        0x70665C00u32,
        0x72685E00u32,
        0x90867C00u32,
        0x544A4000u32,
        0x342A2000u32,
        0x52483E00u32,
        0x160C0200u32,
        0xCEC4BA00u32,
        0xECE2D800u32,
        0xEEE4DA00u32,
        0xD0C6BC00u32,
        0x948A8000u32,
        0x584E4400u32,
        0x382E2400u32,
        0x1A100600u32,
        0x1C120800u32,
        0x564C4200u32,
        0x746A6000u32,
        0x766C6200u32,
        0x92887E00u32,
    ]
}

/// One part of the standard key offsets table, in order.
pub open spec fn standard_key_offsets_chunk_d() -> Seq<u32> {
    seq![
        0xB0A69C00u32,
        0xB2A89E00u32,
        0x362C2200u32,
        0x3A302600u32,
        0xCCC2B802u32,
        0x50463C00u32,
        0xFFFFFFFFu32,
        0xFFFFFFFFu32,
        0xFFFFFFFFu32,
        0xFFFFFFFFu32,
        0xFFFFFFFFu32,
        0xFFFFFFFFu32,
        0xFFFFFFFFu32,
        0xFFFFFFFFu32,
        0xFFFFFFFFu32,
        0xFFFFFFFFu32,
        0xFFFFFFFFu32,
        0xFFFFFFFFu32,
        0xFFFFFFFFu32,
        0xFFFFFFFFu32,
        0xFFFFFFFFu32,
        0xFFFFFFFFu32,
        0xFFFFFFFFu32,
        0xFFFFFFFFu32,
        0xFFFFFFFFu32,
        0xFFFFFFFFu32,
        0xFFFFFFFFu32,
        0xFFFFFFFFu32,
        0xFFFFFFFFu32,
        0xFFFFFFFFu32,
        0xFFFFFFFFu32,
        0xFFFFFFFFu32,
    ]
}

/// One part of the standard key offsets table, in order.
pub open spec fn standard_key_offsets_chunk_e() -> Seq<u32> {
    seq![
        0xFFFFFFFFu32,
        0xFFFFFFFFu32,
        0xFFFFFFFFu32,
        0xFFFFFFFFu32,
        0xFFFFFFFFu32,
        0xFFFFFFFFu32,
        0xFFFFFFFFu32,
        0x1C120802u32,
        0x564C4201u32,
        0x3A302602u32,
        0xB2A89E02u32,
        0xD0C6BC02u32,
        0xFFFFFFFFu32,
        0xFFFFFFFFu32,
        0xFFFFFFFFu32,
        0xFFFFFFFFu32,
        0xFFFFFFFFu32,
        0xFFFFFFFFu32,
        0xFFFFFFFFu32,
        0xFFFFFFFFu32,
        0xFFFFFFFFu32,
        0xFFFFFFFFu32,
        0xFFFFFFFFu32,
        0xFFFFFFFFu32,
        0xFFFFFFFFu32,
        0xFFFFFFFFu32,
        0xFFFFFFFFu32,
        0xFFFFFFFFu32,
        0xFFFFFFFFu32,
        0xFFFFFFFFu32,
        0xFFFFFFFFu32,
        0xFFFFFFFFu32,
    ]
}

/// One part of the standard key offsets table, in order.
pub open spec fn standard_key_offsets_chunk_f() -> Seq<u32> {
    seq![
        0xFFFFFFFFu32,
        0xFFFFFFFFu32,
        0xFFFFFFFFu32,
        0xFFFFFFFFu32,
        0xFFFFFFFFu32,
        0xFFFFFFFFu32,
        0xFFFFFFFFu32,
        0xFFFFFFFFu32,
        0xFFFFFFFFu32,
        0xFFFFFFFFu32,
        0xFFFFFFFFu32,
        0xFFFFFFFFu32,
        0xFFFFFFFFu32,
        0xFFFFFFFFu32,
        0xFFFFFFFFu32,
        0xFFFFFFFFu32,
        0xFFFFFFFFu32,
        0xFFFFFFFFu32,
        0xFFFFFFFFu32,
        0xFFFFFFFFu32,
        0xFFFFFFFFu32,
        0xFFFFFFFFu32,
        0xFFFFFFFFu32,
        0xFFFFFFFFu32,
        0xFFFFFFFFu32,
        0xFFFFFFFFu32,
        0xFFFFFFFFu32,
        0xFFFFFFFFu32,
        0xFFFFFFFFu32,
        0xFFFFFFFFu32,
        0xFFFFFFFFu32,
        0xFFFFFFFFu32,
    ]
}

/// One part of the standard key offsets table, in order.
pub open spec fn standard_key_offsets_chunk_g() -> Seq<u32> {
    seq![
        0xFFFFFFFFu32,
        0xFFFFFFFFu32,
        0xFFFFFFFFu32,
        0xFFFFFFFFu32,
        0xFFFFFFFFu32,
        0xFFFFFFFFu32,
        0xFFFFFFFFu32,
        0xFFFFFFFFu32,
        0xFFFFFFFFu32,
        0xFFFFFFFFu32,
        0xFFFFFFFFu32,
        0xFFFFFFFFu32,
        0xFFFFFFFFu32,
        0xFFFFFFFFu32,
        0xFFFFFFFFu32,
        0xFFFFFFFFu32,
        0xFFFFFFFFu32,
        0xFFFFFFFFu32,
        0xFFFFFFFFu32,
        0xFFFFFFFFu32,
        0xFFFFFFFFu32,
        0xFFFFFFFFu32,
        0xFFFFFFFFu32,
        0xFFFFFFFFu32,
        0xFFFFFFFFu32,
        0xFFFFFFFFu32,
        0xFFFFFFFFu32,
        0xFFFFFFFFu32,
        0xFFFFFFFFu32,
        0xFFFFFFFFu32,
        0xFFFFFFFFu32,
        0xFFFFFFFFu32,
    ]
}

/// One part of the standard key offsets table, in order.
pub open spec fn standard_key_offsets_chunk_h() -> Seq<u32> {
    seq![
        0xECE2D802u32,
        0xCEC4BA02u32,
        0xE8DED402u32,
        0xEAE0D602u32,
        0x32281E00u32,
        0x140A0000u32,
        0x564C4201u32,
        0x584E4401u32,
        0xFF0000FFu32,
        0x23FF0011u32,
        0x5FFF00u32,
        0xFF00FBFFu32,
        0xFF5E00FFu32,
        0xFF2000u32,
        0xFF0Eu32,
        0xFF0000FFu32,
        0x11FF0000u32,
        0x23FF00u32,
        0xFF005FFFu32,
        0xFFFF00FBu32,
        0xFF5E00u32,
        0xE00FF20u32,
        0xFF0000FFu32,
        0x11FF0000u32,
        0x23FF00u32,
        0xFF005FFFu32,
        0xFFFF00FBu32,
        0xFFFF00u32,
        0x2000FF5Eu32,
        0xFF0E00FFu32,
        0x484B0000u32,
        0x78424Du32,
    ]
}

fn standard_key_offsets_part_a() -> (r: Vec<u32>)
    ensures
        r@ == standard_key_offsets_chunk_a(),
{
    let mut v: Vec<u32> = Vec::new();
    v.push(0xFFFFFFFF);
    v.push(0xFFFFFFFF);
    v.push(0xFFFFFFFF);
    v.push(0xFFFFFFFF);
    v.push(0xAEA49A02);
    v.push(0x32281E01);
    v.push(0xE6DCD202);
    v.push(0xC8BEB402);
    v.push(0x8C827802);
    v.push(0xAAA09602);
    v.push(0x6E645A01);
    v.push(0x160C0201);
    v.push(0x90867C01);
    v.push(0x180E0401);
    v.push(0x72685E01);
    v.push(0x746A6001);
    v.push(0x362C2201);
    v.push(0x342A2001);
    v.push(0x92887E01);
    v.push(0xECE2D801);
    v.push(0x72685E02);
    v.push(0x6E645A02);
    v.push(0xACA29802);
    v.push(0x8C827801);
    v.push(0x52483E01);
    v.push(0x140A0001);
    v.push(0x8E847A02);
    v.push(0xCAC0B602);
    v.push(0x70665C01);
    v.push(0x90867C02);
    v.push(0x544A4002);
    v.push(0x52483E02);
    assert(v@ =~= standard_key_offsets_chunk_a());
    v
}

fn standard_key_offsets_part_b() -> (r: Vec<u32>)
    ensures
        r@ == standard_key_offsets_chunk_b(),
{
    let mut v: Vec<u32> = Vec::new();
    v.push(0x70665C02);
    v.push(0x50463C02);
    v.push(0xE6DCD201);
    v.push(0xE8DED401);
    v.push(0x8E847A01);
    v.push(0xEAE0D601);
    v.push(0xCCC2B801);
    v.push(0xCEC4BA01);
    v.push(0x6E645A00);
    v.push(0x1A100602);
    v.push(0xC8BEB400);
    v.push(0x746A6002);
    v.push(0x50463C01);
    v.push(0xEEE4DA01);
    v.push(0x948A8001);
    v.push(0x766C6201);
    v.push(0x8C827800);
    v.push(0x8E847A00);
    v.push(0xAAA09600);
    v.push(0x1A100601);
    v.push(0x1C120801);
    v.push(0x564C4202);
    v.push(0x544A4001);
    v.push(0x382E2401);
    v.push(0x3A302601);
    v.push(0xB0A69C02);
    v.push(0x180E0402);
    v.push(0x160C0202);
    v.push(0x140A0002);
    v.push(0xC8BEB401);
    v.push(0xCAC0B601);
    v.push(0xACA29801);
    assert(v@ =~= standard_key_offsets_chunk_b());
    v
}

fn standard_key_offsets_part_c() -> (r: Vec<u32>)
    ensures
        r@ == standard_key_offsets_chunk_c(),
{
    let mut v: Vec<u32> = Vec::new();
    v.push(0xAEA49A01);
    v.push(0xB0A69C01);
    v.push(0xB2A89E01);
    v.push(0xD0C6BC01);
    v.push(0xE6DCD200);
    v.push(0xE8DED400);
    v.push(0xCAC0B600);
    v.push(0xCCC2B800);
    v.push(0x180E0400);
    v.push(0xACA29800);
    v.push(0xAEA49A00);
    v.push(0xEAE0D600);
    v.push(0x70665C00);
    v.push(0x72685E00);
    v.push(0x90867C00);
    v.push(0x544A4000);
    v.push(0x342A2000);
    v.push(0x52483E00);
    v.push(0x160C0200);
    v.push(0xCEC4BA00);
    v.push(0xECE2D800);
    v.push(0xEEE4DA00);
    v.push(0xD0C6BC00);
    v.push(0x948A8000);
    v.push(0x584E4400);
    v.push(0x382E2400);
    v.push(0x1A100600);
    v.push(0x1C120800);
    v.push(0x564C4200);
    v.push(0x746A6000);
    v.push(0x766C6200);
    v.push(0x92887E00);
    assert(v@ =~= standard_key_offsets_chunk_c());
    v
}

fn standard_key_offsets_part_d() -> (r: Vec<u32>)
    ensures
        r@ == standard_key_offsets_chunk_d(),
{
    let mut v: Vec<u32> = Vec::new();
    v.push(0xB0A69C00);
    v.push(0xB2A89E00);
    v.push(0x362C2200);
    v.push(0x3A302600);
    v.push(0xCCC2B802);
    v.push(0x50463C00);
    v.push(0xFFFFFFFF);
    v.push(0xFFFFFFFF);
    v.push(0xFFFFFFFF);
    v.push(0xFFFFFFFF);
    v.push(0xFFFFFFFF);
    v.push(0xFFFFFFFF);
    v.push(0xFFFFFFFF);
    v.push(0xFFFFFFFF);
    v.push(0xFFFFFFFF);
    v.push(0xFFFFFFFF);
    v.push(0xFFFFFFFF);
    v.push(0xFFFFFFFF);
    v.push(0xFFFFFFFF);
    v.push(0xFFFFFFFF);
    v.push(0xFFFFFFFF);
    v.push(0xFFFFFFFF);
    v.push(0xFFFFFFFF);
    v.push(0xFFFFFFFF);
    v.push(0xFFFFFFFF);
    v.push(0xFFFFFFFF);
    v.push(0xFFFFFFFF);
    v.push(0xFFFFFFFF);
    v.push(0xFFFFFFFF);
    v.push(0xFFFFFFFF);
    v.push(0xFFFFFFFF);
    v.push(0xFFFFFFFF);
    assert(v@ =~= standard_key_offsets_chunk_d());
    v
}

fn standard_key_offsets_part_e() -> (r: Vec<u32>)
    ensures
        r@ == standard_key_offsets_chunk_e(),
{
    let mut v: Vec<u32> = Vec::new();
    v.push(0xFFFFFFFF);
    v.push(0xFFFFFFFF);
    v.push(0xFFFFFFFF);
    v.push(0xFFFFFFFF);
    v.push(0xFFFFFFFF);
    v.push(0xFFFFFFFF);
    v.push(0xFFFFFFFF);
    v.push(0x1C120802);
    v.push(0x564C4201);
    v.push(0x3A302602);
    v.push(0xB2A89E02);
    v.push(0xD0C6BC02);
    v.push(0xFFFFFFFF);
    v.push(0xFFFFFFFF);
    v.push(0xFFFFFFFF);
    v.push(0xFFFFFFFF);
    v.push(0xFFFFFFFF);
    v.push(0xFFFFFFFF);
    v.push(0xFFFFFFFF);
    v.push(0xFFFFFFFF);
    v.push(0xFFFFFFFF);
    v.push(0xFFFFFFFF);
    v.push(0xFFFFFFFF);
    v.push(0xFFFFFFFF);
    v.push(0xFFFFFFFF);
    v.push(0xFFFFFFFF);
    v.push(0xFFFFFFFF);
    v.push(0xFFFFFFFF);
    v.push(0xFFFFFFFF);
    v.push(0xFFFFFFFF);
    v.push(0xFFFFFFFF);
    v.push(0xFFFFFFFF);
    assert(v@ =~= standard_key_offsets_chunk_e());
    v
}

fn standard_key_offsets_part_f() -> (r: Vec<u32>)
    ensures
        r@ == standard_key_offsets_chunk_f(),
{
    let mut v: Vec<u32> = Vec::new();
    v.push(0xFFFFFFFF);
    v.push(0xFFFFFFFF);
    v.push(0xFFFFFFFF);
    v.push(0xFFFFFFFF);
    v.push(0xFFFFFFFF);
    v.push(0xFFFFFFFF);
    v.push(0xFFFFFFFF);
    v.push(0xFFFFFFFF);
    v.push(0xFFFFFFFF);
    v.push(0xFFFFFFFF);
    v.push(0xFFFFFFFF);
    v.push(0xFFFFFFFF);
    v.push(0xFFFFFFFF);
    v.push(0xFFFFFFFF);
    v.push(0xFFFFFFFF);
    v.push(0xFFFFFFFF);
    v.push(0xFFFFFFFF);
    v.push(0xFFFFFFFF);
    v.push(0xFFFFFFFF);
    v.push(0xFFFFFFFF);
    v.push(0xFFFFFFFF);
    v.push(0xFFFFFFFF);
    v.push(0xFFFFFFFF);
    v.push(0xFFFFFFFF);
    v.push(0xFFFFFFFF);
    v.push(0xFFFFFFFF);
    v.push(0xFFFFFFFF);
    v.push(0xFFFFFFFF);
    v.push(0xFFFFFFFF);
    v.push(0xFFFFFFFF);
    v.push(0xFFFFFFFF);
    v.push(0xFFFFFFFF);
    assert(v@ =~= standard_key_offsets_chunk_f());
    v
}

fn standard_key_offsets_part_g() -> (r: Vec<u32>)
    ensures
        r@ == standard_key_offsets_chunk_g(),
{
    let mut v: Vec<u32> = Vec::new();
    v.push(0xFFFFFFFF);
    v.push(0xFFFFFFFF);
    v.push(0xFFFFFFFF);
    v.push(0xFFFFFFFF);
    v.push(0xFFFFFFFF);
    v.push(0xFFFFFFFF);
    v.push(0xFFFFFFFF);
    v.push(0xFFFFFFFF);
    v.push(0xFFFFFFFF);
    v.push(0xFFFFFFFF);
    v.push(0xFFFFFFFF);
    v.push(0xFFFFFFFF);
    v.push(0xFFFFFFFF);
    v.push(0xFFFFFFFF);
    v.push(0xFFFFFFFF);
    v.push(0xFFFFFFFF);
    v.push(0xFFFFFFFF);
    v.push(0xFFFFFFFF);
    v.push(0xFFFFFFFF);
    v.push(0xFFFFFFFF);
    v.push(0xFFFFFFFF);
    v.push(0xFFFFFFFF);
    v.push(0xFFFFFFFF);
    v.push(0xFFFFFFFF);
    v.push(0xFFFFFFFF);
    v.push(0xFFFFFFFF);
    v.push(0xFFFFFFFF);
    v.push(0xFFFFFFFF);
    v.push(0xFFFFFFFF);
    v.push(0xFFFFFFFF);
    v.push(0xFFFFFFFF);
    v.push(0xFFFFFFFF);
    assert(v@ =~= standard_key_offsets_chunk_g());
    v
}

fn standard_key_offsets_part_h() -> (r: Vec<u32>)
    ensures
        r@ == standard_key_offsets_chunk_h(),
{
    let mut v: Vec<u32> = Vec::new();
    v.push(0xECE2D802);
    v.push(0xCEC4BA02);
    v.push(0xE8DED402);
    v.push(0xEAE0D602);
    v.push(0x32281E00);
    v.push(0x140A0000);
    v.push(0x564C4201);
    v.push(0x584E4401);
    v.push(0xFF0000FF);
    v.push(0x23FF0011);
    v.push(0x5FFF00);
    v.push(0xFF00FBFF);
    v.push(0xFF5E00FF);
    v.push(0xFF2000);
    v.push(0xFF0E);
    v.push(0xFF0000FF);
    v.push(0x11FF0000);
    v.push(0x23FF00);
    v.push(0xFF005FFF);
    v.push(0xFFFF00FB);
    v.push(0xFF5E00);
    v.push(0xE00FF20);
    v.push(0xFF0000FF);
    v.push(0x11FF0000);
    v.push(0x23FF00);
    v.push(0xFF005FFF);
    v.push(0xFFFF00FB);
    v.push(0xFFFF00);
    v.push(0x2000FF5E);
    v.push(0xFF0E00FF);
    v.push(0x484B0000);
    v.push(0x78424D);
    assert(v@ =~= standard_key_offsets_chunk_h());
    v
}

/// The whole standard key offsets table.
pub open spec fn standard_key_offsets_spec() -> Seq<u32> {
    standard_key_offsets_chunk_a() + standard_key_offsets_chunk_b() + standard_key_offsets_chunk_c() + standard_key_offsets_chunk_d() + standard_key_offsets_chunk_e() + standard_key_offsets_chunk_f() + standard_key_offsets_chunk_g() + standard_key_offsets_chunk_h()
}

pub fn standard_key_offsets() -> (r: Vec<u32>)
    ensures
        r@ == standard_key_offsets_spec(),
{
    let mut v = standard_key_offsets_part_a();
    let mut p1 = standard_key_offsets_part_b();
    v.append(&mut p1);
    let mut p2 = standard_key_offsets_part_c();
    v.append(&mut p2);
    let mut p3 = standard_key_offsets_part_d();
    v.append(&mut p3);
    let mut p4 = standard_key_offsets_part_e();
    v.append(&mut p4);
    let mut p5 = standard_key_offsets_part_f();
    v.append(&mut p5);
    let mut p6 = standard_key_offsets_part_g();
    v.append(&mut p6);
    let mut p7 = standard_key_offsets_part_h();
    v.append(&mut p7);
    v
}

} // verus!
