//! The color/LED wire protocol: the 64-byte "stage per-key colors" record and
//! the 20-byte "commit staged colors" record, byte-exact.

use vstd::prelude::*;
use crate::keys::{KeyType, StandardKey, GamingKey};

verus! {

/// Three 8-bit color channels.
#[derive(Clone, Copy, Debug, PartialEq, Eq, Structural)]
pub struct Color {
    pub red: u8,
    pub green: u8,
    pub blue: u8,
}

impl Color {
    pub fn new(red: u8, green: u8, blue: u8) -> (r: Color)
        ensures
            r == (Color { red, green, blue }),
    {
        Color { red, green, blue }
    }
}

/// A key's one-byte wire code paired with the color to stage for it.
#[derive(Clone, Copy, Debug, PartialEq, Eq, Structural)]
pub struct KeyColor {
    pub key_code: u8,
    pub color: Color,
}

impl KeyColor {
    pub fn new(key_code: u8, color: Color) -> (r: KeyColor)
        ensures
            r == (KeyColor { key_code, color }),
    {
        KeyColor { key_code, color }
    }

    pub fn new_standard(key_code: StandardKey, color: Color) -> (r: KeyColor)
        ensures
            r == (KeyColor { key_code: key_code.code_spec(), color }),
    {
        KeyColor::new(key_code.code(), color)
    }

    pub fn new_gaming(key_code: GamingKey, color: Color) -> (r: KeyColor)
        ensures
            r == (KeyColor { key_code: key_code.code_spec(), color }),
    {
        KeyColor::new(key_code.code(), color)
    }

    /// The four wire bytes of one slot: key code, then red, green, blue.
    pub open spec fn bytes_spec(self) -> Seq<u8> {
        seq![self.key_code, self.color.red, self.color.green, self.color.blue]
    }

    /// The zero-color placeholder that fills unused slots.
    pub open spec fn placeholder_spec() -> KeyColor {
        KeyColor { key_code: 0, color: Color { red: 0, green: 0, blue: 0 } }
    }

    /// The placeholder entry for a packet's unused trailing slots: the
    /// sentinel "no key" code with a zero color.
    pub fn placeholder() -> (r: KeyColor)
        ensures
            r == Self::placeholder_spec(),
    {
        KeyColor { key_code: 0, color: Color { red: 0, green: 0, blue: 0 } }
    }
}

/// Why populating a color packet was refused.
#[derive(Clone, Copy, Debug, PartialEq, Eq, Structural)]
pub enum KeyColorError {
    /// The packet already holds its maximum of fourteen entries.
    PacketFull,
    /// Reserved for a key-bank/packet-tag mismatch; not raised today.
    InvalidKeyType,
}

/// The number of key-color slots in one color packet.
pub const PACKET_SLOTS: usize = 14;

/// The fixed 64-byte "stage per-key colors" record.
///
/// Wire layout: the 4 header bytes `12 FF 0F 3B`, one zero byte, the one-byte
/// bank tag, one reserved zero byte, the occupancy count, then fourteen
/// 4-byte key-color slots, the unused trailing ones holding the zero-color
/// placeholder.
#[derive(Clone, Debug, PartialEq, Eq)]
pub struct ColorPacket {
    pub key_type: KeyType,
    pub len: u8,
    pub colors: Vec<KeyColor>,
}

/// The wire bytes of a slot sequence, one 4-byte group per slot.
pub open spec fn colors_bytes(s: Seq<KeyColor>) -> Seq<u8>
    decreases s.len(),
{
    if s.len() == 0 {
        Seq::empty()
    } else {
        colors_bytes(s.drop_last()) + s.last().bytes_spec()
    }
}

pub proof fn lemma_colors_bytes_len(s: Seq<KeyColor>)
    ensures
        colors_bytes(s).len() == 4 * s.len(),
    decreases s.len(),
{
    if s.len() > 0 {
        lemma_colors_bytes_len(s.drop_last());
    }
}

/// Appending one slot appends exactly its four bytes.
pub proof fn lemma_colors_bytes_take(s: Seq<KeyColor>, i: int)
    requires
        0 <= i < s.len(),
    ensures
        colors_bytes(s.take(i + 1)) == colors_bytes(s.take(i)) + s[i].bytes_spec(),
{
    assert(s.take(i + 1).drop_last() =~= s.take(i));
    assert(s.take(i + 1).last() == s[i]);
}

impl ColorPacket {
    /// Structural soundness: fourteen slots, a supported bank tag, the
    /// occupancy count within bounds, and every unused trailing slot holding
    /// the zero-color placeholder.
    pub open spec fn wf(self) -> bool {
        &&& self.colors@.len() == PACKET_SLOTS
        &&& self.len <= PACKET_SLOTS
        &&& (self.key_type == KeyType::Standard || self.key_type == KeyType::Gaming)
        &&& forall|i: int|
            self.len <= i < PACKET_SLOTS ==> self.colors@[i] == KeyColor::placeholder_spec()
    }

    /// A fresh packet for the given bank, pre-filled with fourteen
    /// placeholder slots.  The `Memory` bank's wire form was never recovered,
    /// so building for it is not supported.
    pub fn new(key_type: KeyType) -> (r: ColorPacket)
        requires
            key_type != KeyType::Memory,
        ensures
            r.wf(),
            r.key_type == key_type,
            r.len == 0,
    {
        let mut colors: Vec<KeyColor> = Vec::new();
        let mut i: usize = 0;
        while i < PACKET_SLOTS
            invariant
                i <= PACKET_SLOTS,
                colors@.len() == i,
                forall|j: int| 0 <= j < i ==> colors@[j] == KeyColor::placeholder_spec(),
            decreases PACKET_SLOTS - i,
        {
            colors.push(KeyColor::placeholder());
            i = i + 1;
        }
        ColorPacket { key_type, len: 0, colors }
    }

    pub fn new_standard() -> (r: ColorPacket)
        ensures
            r.wf(),
            r.key_type == KeyType::Standard,
            r.len == 0,
    {
        ColorPacket::new(KeyType::Standard)
    }

    pub fn new_gaming() -> (r: ColorPacket)
        ensures
            r.wf(),
            r.key_type == KeyType::Gaming,
            r.len == 0,
    {
        ColorPacket::new(KeyType::Gaming)
    }

    /// Append a key color to the first free slot.
    ///
    /// The fifteenth and every later attempt fails with `PacketFull` and
    /// leaves the packet unchanged; a successful call changes exactly the
    /// slot at the old occupancy count and leaves every earlier slot as the
    /// earlier calls set it.
    pub fn add_key_color(&mut self, key_color: KeyColor) -> (r: Result<(), KeyColorError>)
        requires
            old(self).wf(),
        ensures
            final(self).wf(),
            final(self).key_type == old(self).key_type,
            old(self).len < PACKET_SLOTS ==> {
                &&& r == Ok::<(), KeyColorError>(())
                &&& final(self).len == old(self).len + 1
                &&& final(self).colors@ == old(self).colors@.update(
                    old(self).len as int,
                    key_color,
                )
            },
            old(self).len >= PACKET_SLOTS ==> {
                &&& r == Err::<(), KeyColorError>(KeyColorError::PacketFull)
                &&& *final(self) == *old(self)
            },
    {
        if (self.len as usize) >= PACKET_SLOTS {
            Err(KeyColorError::PacketFull)
        } else {
            let at = self.len as usize;
            self.colors.set(at, key_color);
            self.len = self.len + 1;
            Ok(())
        }
    }

    /// The packet's exact 64-byte wire form.
    pub open spec fn bytes_spec(self) -> Seq<u8> {
        seq![0x12u8, 0xffu8, 0x0fu8, 0x3bu8, 0x00u8, self.key_type.tag_spec(), 0x00u8, self.len]
            + colors_bytes(self.colors@)
    }

    /// Serialize to the 64 bytes sent as the body of the color-set control
    /// transfer.
    pub fn to_bytes(&self) -> (r: Vec<u8>)
        requires
            self.wf(),
        ensures
            r@ == self.bytes_spec(),
            r@.len() == 64,
    {
        let mut r: Vec<u8> = Vec::new();
        r.push(0x12);
        r.push(0xff);
        r.push(0x0f);
        r.push(0x3b);
        r.push(0x00);
        r.push(self.key_type.tag());
        r.push(0x00);
        r.push(self.len);
        let ghost header = r@;
        assert(colors_bytes(self.colors@.take(0)) =~= Seq::<u8>::empty());
        let mut i: usize = 0;
        while i < PACKET_SLOTS
            invariant
                i <= PACKET_SLOTS,
                self.wf(),
                header.len() == 8,
                r@ == header + colors_bytes(self.colors@.take(i as int)),
            decreases PACKET_SLOTS - i,
        {
            let kc = self.colors[i];
            r.push(kc.key_code);
            r.push(kc.color.red);
            r.push(kc.color.green);
            r.push(kc.color.blue);
            proof {
                lemma_colors_bytes_take(self.colors@, i as int);
                assert(r@ =~= header + colors_bytes(self.colors@.take(i + 1)));
            }
            i = i + 1;
        }
        proof {
            assert(self.colors@.take(PACKET_SLOTS as int) =~= self.colors@);
            lemma_colors_bytes_len(self.colors@);
            assert(r@ =~= self.bytes_spec());
        }
        r
    }
}

/// The fixed 20-byte "commit staged colors" record: the 4 header bytes
/// `11 FF 0F 5B` followed by sixteen zero bytes.
#[derive(Clone, Copy, Debug, PartialEq, Eq, Structural)]
pub struct FlushPacket {}

impl FlushPacket {
    pub fn new() -> (r: FlushPacket) {
        FlushPacket {}
    }

    /// The record's exact 20-byte wire form.
    pub open spec fn bytes_spec() -> Seq<u8> {
        seq![0x11u8, 0xffu8, 0x0fu8, 0x5bu8] + Seq::new(16, |i: int| 0u8)
    }

    /// Serialize to the 20 bytes sent as the body of the flush control
    /// transfer.
    pub fn to_bytes(&self) -> (r: Vec<u8>)
        ensures
            r@ == Self::bytes_spec(),
            r@.len() == 20,
    {
        let mut r: Vec<u8> = Vec::new();
        r.push(0x11);
        r.push(0xff);
        r.push(0x0f);
        r.push(0x5b);
        let mut i: usize = 0;
        while i < 16
            invariant
                i <= 16,
                r@.len() == 4 + i,
                r@.take(4) =~= seq![0x11u8, 0xffu8, 0x0fu8, 0x5bu8],
                forall|j: int| 4 <= j < r@.len() ==> r@[j] == 0u8,
            decreases 16 - i,
        {
            r.push(0x00);
            i = i + 1;
        }
        proof {
            assert(r@ =~= Self::bytes_spec());
        }
        r
    }
}

} // verus!
