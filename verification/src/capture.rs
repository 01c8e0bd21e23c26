//! Sequential reader for packet-capture container files: a 24-byte global
//! header whose magic fixes the byte order, then for each record a 16-byte
//! record header followed by the captured bytes.  Records are consumed
//! strictly in order and never rewound.

use vstd::prelude::*;
use crate::bytes::{le32_spec, be32_spec, read_le32, read_be32};

verus! {

/// The capture magic as read little-endian from a file written on a
/// little-endian machine.
pub const CAPTURE_MAGIC: u32 = 0xa1b2c3d4;

/// The same magic as it reads when the file was written big-endian.
pub const CAPTURE_MAGIC_SWAPPED: u32 = 0xd4c3b2a1;

/// Why a byte buffer is not a readable capture file.
#[derive(Clone, Copy, Debug, PartialEq, Eq, Structural)]
pub enum CaptureError {
    /// Shorter than the 24-byte global header.
    TooShort,
    /// The leading magic number is neither byte order of the capture magic.
    BadMagic,
}

/// The captured length field of the record header at `pos`.
pub open spec fn record_len_at(b: Seq<u8>, pos: int, big_endian: bool) -> u32
    recommends
        0 <= pos,
        pos + 16 <= b.len(),
{
    if big_endian {
        be32_spec(b, pos + 8)
    } else {
        le32_spec(b, pos + 8)
    }
}

/// The record starting at `pos`: its captured bytes and the position of the
/// next record; nothing when the buffer cannot hold a whole record there.
pub open spec fn record_at(b: Seq<u8>, pos: int, big_endian: bool) -> Option<(Seq<u8>, int)> {
    if 0 <= pos && pos + 16 <= b.len() && pos + 16 + record_len_at(b, pos, big_endian) <= b.len() {
        let len = record_len_at(b, pos, big_endian) as int;
        Some((b.subrange(pos + 16, pos + 16 + len), pos + 16 + len))
    } else {
        None
    }
}

/// All records readable from `pos` on, in order.
pub open spec fn records_from(b: Seq<u8>, pos: int, big_endian: bool) -> Seq<Seq<u8>>
    decreases b.len() - pos,
{
    match record_at(b, pos, big_endian) {
        Some((data, next)) => seq![data] + records_from(b, next, big_endian),
        None => Seq::empty(),
    }
}

/// A buffer holds fewer readable records than bytes past the position: each
/// record takes at least its 16-byte header.
pub proof fn lemma_records_from_bounded(b: Seq<u8>, pos: int, big_endian: bool)
    ensures
        pos <= b.len() ==> records_from(b, pos, big_endian).len() <= b.len() - pos,
        pos > b.len() ==> records_from(b, pos, big_endian).len() == 0,
    decreases b.len() - pos,
{
    match record_at(b, pos, big_endian) {
        Some((data, next)) => {
            lemma_records_from_bounded(b, next, big_endian);
        },
        None => {},
    }
}

/// The records of a whole capture buffer, after its global header.
pub open spec fn capture_records(b: Seq<u8>, big_endian: bool) -> Seq<Seq<u8>> {
    records_from(b, 24, big_endian)
}

/// A capture buffer positioned at its next unread record.
pub struct CaptureReader {
    pub bytes: Vec<u8>,
    pub pos: usize,
    pub big_endian: bool,
}

impl CaptureReader {
    pub open spec fn wf(self) -> bool {
        24 <= self.pos <= self.bytes@.len()
    }

    /// The records not yet read.
    pub open spec fn remaining_spec(self) -> Seq<Seq<u8>> {
        records_from(self.bytes@, self.pos as int, self.big_endian)
    }

    /// Open a capture buffer: check the global header and its magic, note
    /// the byte order, and stand before the first record.
    pub fn new(bytes: Vec<u8>) -> (r: Result<CaptureReader, CaptureError>)
        ensures
            bytes@.len() < 24 ==> r == Err::<CaptureReader, CaptureError>(CaptureError::TooShort),
            bytes@.len() >= 24 && le32_spec(bytes@, 0) != CAPTURE_MAGIC && le32_spec(bytes@, 0)
                != CAPTURE_MAGIC_SWAPPED ==> r == Err::<CaptureReader, CaptureError>(
                CaptureError::BadMagic,
            ),
            bytes@.len() >= 24 && (le32_spec(bytes@, 0) == CAPTURE_MAGIC || le32_spec(bytes@, 0)
                == CAPTURE_MAGIC_SWAPPED) ==> (r matches Ok(c) && c.wf() && c.pos == 24 && c.bytes@
                == bytes@ && c.big_endian == (le32_spec(bytes@, 0) == CAPTURE_MAGIC_SWAPPED)),
    {
        if bytes.len() < 24 {
            return Err(CaptureError::TooShort);
        }
        let magic = read_le32(&bytes, 0);
        if magic == CAPTURE_MAGIC {
            Ok(CaptureReader { bytes, pos: 24, big_endian: false })
        } else if magic == CAPTURE_MAGIC_SWAPPED {
            Ok(CaptureReader { bytes, pos: 24, big_endian: true })
        } else {
            Err(CaptureError::BadMagic)
        }
    }

    /// Read the next record's captured bytes, or nothing at the end of the
    /// readable records.
    pub fn next(&mut self) -> (r: Option<Vec<u8>>)
        requires
            old(self).wf(),
        ensures
            final(self).wf(),
            final(self).bytes@ == old(self).bytes@,
            final(self).big_endian == old(self).big_endian,
            old(self).remaining_spec().len() == 0 ==> r is None && final(self).pos == old(self).pos,
            old(self).remaining_spec().len() > 0 ==> (r matches Some(d)
                && d@ == old(self).remaining_spec()[0]
                && old(self).remaining_spec() == seq![d@] + final(self).remaining_spec()),
    {
        let n = self.bytes.len();
        if n - self.pos < 16 {
            assert(record_at(self.bytes@, self.pos as int, self.big_endian) is None);
            return None;
        }
        let incl = if self.big_endian {
            read_be32(&self.bytes, self.pos + 8)
        } else {
            read_le32(&self.bytes, self.pos + 8)
        };
        let start = self.pos + 16;
        if (incl as usize) > n - start {
            assert(record_at(self.bytes@, self.pos as int, self.big_endian) is None);
            return None;
        }
        let end = start + incl as usize;
        let mut d: Vec<u8> = Vec::new();
        let mut j: usize = start;
        while j < end
            invariant
                start <= j <= end <= self.bytes@.len(),
                d@ == self.bytes@.subrange(start as int, j as int),
            decreases end - j,
        {
            let byte = self.bytes[j];
            d.push(byte);
            assert(d@ =~= self.bytes@.subrange(start as int, j + 1));
            j = j + 1;
        }
        proof {
            assert(record_at(self.bytes@, self.pos as int, self.big_endian) matches Some(
                (data, next),
            ) && data == d@ && next == end as int);
        }
        self.pos = end;
        Some(d)
    }

    /// Skip the given number of records: used to pass over the non-protocol
    /// preamble records at the head of a capture.
    pub fn skip_records(&mut self, count: u8)
        requires
            old(self).wf(),
        ensures
            final(self).wf(),
            final(self).bytes@ == old(self).bytes@,
            final(self).big_endian == old(self).big_endian,
            count <= old(self).remaining_spec().len() ==> final(self).remaining_spec() == old(
                self,
            ).remaining_spec().skip(count as int),
            count > old(self).remaining_spec().len() ==> final(self).remaining_spec().len() == 0,
    {
        let ghost full = self.remaining_spec();
        let mut i: u8 = 0;
        proof {
            assert(full.skip(0) =~= full);
        }
        while i < count
            invariant
                old(self).wf(),
                self.wf(),
                i <= count,
                self.bytes@ == old(self).bytes@,
                self.big_endian == old(self).big_endian,
                i <= full.len() ==> self.remaining_spec() == full.skip(i as int),
                i > full.len() ==> self.remaining_spec().len() == 0,
            decreases count - i,
        {
            proof {
                if i <= full.len() && full.skip(i as int).len() > 0 {
                    assert(full.skip(i as int).skip(1) =~= full.skip(i + 1));
                }
                if i as int + 1 > full.len() && i <= full.len() {
                    assert(full.skip(i as int).len() == full.len() - i);
                }
            }
            let _ = self.next();
            proof {
                if i as int + 1 <= full.len() {
                } else {
                    assert(self.remaining_spec().len() == 0);
                }
            }
            i = i + 1;
        }
    }
}

} // verus!
