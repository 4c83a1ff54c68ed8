//! Type records: kind-tagged nodes of the kernel's type graph.
//!
//! A record carries a packed `info` word (kind tag and declared entry count),
//! a name offset into the name table, and the raw words of its trailing entry
//! array. The two trailing layouts — enumerator entries and member entries —
//! are incompatible, so every accessor here is gated on the kind tag and
//! bounds-checked against the declared count.

use vstd::prelude::*;

verus! {

/// Kind tag of a structure record, as the kernel's type metadata encodes it.
pub const KIND_STRUCT: u32 = 4;

/// Kind tag of an enumeration record with direct 32-bit values.
pub const KIND_ENUM32: u32 = 6;

/// Kind tag of an enumeration record whose values are split into 32-bit halves.
pub const KIND_ENUM64: u32 = 19;

/// Words per trailing entry of an enumeration-32 record: name offset, value.
pub const ENUM32_WORDS: usize = 2;

/// Words per trailing entry of an enumeration-64 record: name offset, low
/// half, high half.
pub const ENUM64_WORDS: usize = 3;

/// Words per trailing entry of a structure record: name offset, type
/// reference, bit offset. Only the name offset matters to this layer.
pub const MEMBER_WORDS: usize = 3;

/// The kind tag packed into bits 24..29 of a record's info word.
pub open spec fn spec_kind(info: u32) -> u32 {
    (info >> 24) & 0x1f
}

/// The declared count of trailing entries, packed into the low 16 bits of a
/// record's info word.
pub open spec fn spec_vlen(info: u32) -> u32 {
    info & 0xffff
}

/// The declared entry count always fits in 16 bits.
pub proof fn lemma_vlen_bound(info: u32)
    ensures
        spec_vlen(info) <= 0xffff,
{
    assert(info & 0xffff <= 0xffff) by (bit_vector);
}

/// Extracts the kind tag from a packed info word.
pub fn kind_of(info: u32) -> (k: u32)
    ensures
        k == spec_kind(info),
{
    (info >> 24) & 0x1f
}

/// Extracts the declared trailing-entry count from a packed info word.
pub fn vlen_of(info: u32) -> (n: u32)
    ensures
        n == spec_vlen(info),
        n <= 0xffff,
{
    proof {
        lemma_vlen_bound(info);
    }
    info & 0xffff
}

/// One node of the type graph: a name offset into the name table, the packed
/// info word, and the raw words of the trailing entry array.
#[derive(Debug)]
pub struct TypeRecord {
    /// Byte offset of the record's name in the name table.
    pub name_off: u32,
    /// Packed kind tag and declared trailing-entry count.
    pub info: u32,
    /// Raw words of the trailing entry array, exactly as the metadata source
    /// laid them out.
    pub tail: Vec<u32>,
}

/// Mathematical image of a type record.
pub struct RecordModel {
    /// Byte offset of the record's name in the name table.
    pub name_off: u32,
    /// Packed kind tag and declared trailing-entry count.
    pub info: u32,
    /// The trailing words.
    pub tail: Seq<u32>,
}

impl View for TypeRecord {
    type V = RecordModel;

    open spec fn view(&self) -> RecordModel {
        RecordModel { name_off: self.name_off, info: self.info, tail: self.tail@ }
    }
}

/// A record is well formed when its trailing array holds exactly the words
/// its declared count calls for, under the layout its kind tag selects.
/// Records of other kinds carry no trailing data this layer reads.
pub open spec fn record_wf(m: RecordModel) -> bool {
    &&& spec_kind(m.info) == KIND_ENUM32 ==> m.tail.len() == ENUM32_WORDS * spec_vlen(m.info)
    &&& spec_kind(m.info) == KIND_ENUM64 ==> m.tail.len() == ENUM64_WORDS * spec_vlen(m.info)
    &&& spec_kind(m.info) == KIND_STRUCT ==> m.tail.len() == MEMBER_WORDS * spec_vlen(m.info)
}

/// Name offset of enumerator `i` of an enumeration-32 record.
pub open spec fn enum32_name_off(m: RecordModel, i: int) -> u32 {
    m.tail[ENUM32_WORDS * i]
}

/// Raw 32-bit value word of enumerator `i` of an enumeration-32 record.
pub open spec fn enum32_raw(m: RecordModel, i: int) -> u32 {
    m.tail[ENUM32_WORDS * i + 1]
}

/// Name offset of enumerator `i` of an enumeration-64 record.
pub open spec fn enum64_name_off(m: RecordModel, i: int) -> u32 {
    m.tail[ENUM64_WORDS * i]
}

/// Low 32-bit half of the value of enumerator `i` of an enumeration-64 record.
pub open spec fn enum64_lo(m: RecordModel, i: int) -> u32 {
    m.tail[ENUM64_WORDS * i + 1]
}

/// High 32-bit half of the value of enumerator `i` of an enumeration-64 record.
pub open spec fn enum64_hi(m: RecordModel, i: int) -> u32 {
    m.tail[ENUM64_WORDS * i + 2]
}

/// Name offset of member `i` of a structure record.
pub open spec fn member_name_off(m: RecordModel, i: int) -> u32 {
    m.tail[MEMBER_WORDS * i]
}

/// An enumeration-32 value, widened to 64 bits the way a signed 32-bit
/// quantity widens: the high half is filled with the sign bit.
pub open spec fn spec_enum32_value(raw: u32) -> u64 {
    if raw >= 0x8000_0000 {
        (raw as u64) | 0xffff_ffff_0000_0000u64
    } else {
        raw as u64
    }
}

/// An enumeration-64 value, reassembled from its halves as
/// `(high << 32) | low` in the native byte order.
pub open spec fn spec_enum64_value(lo: u32, hi: u32) -> u64 {
    ((hi as u64) << 32) | (lo as u64)
}

/// Widens a raw enumeration-32 value word, filling the high half with the
/// sign bit.
pub fn enum32_value(raw: u32) -> (v: u64)
    ensures
        v == spec_enum32_value(raw),
{
    if raw >= 0x8000_0000 {
        (raw as u64) | 0xffff_ffff_0000_0000u64
    } else {
        raw as u64
    }
}

/// Reassembles an enumeration-64 value from its 32-bit halves.
pub fn enum64_value(lo: u32, hi: u32) -> (v: u64)
    ensures
        v == spec_enum64_value(lo, hi),
{
    ((hi as u64) << 32) | (lo as u64)
}

impl TypeRecord {
    /// Reads the name offset and raw value word of enumerator `i`, checked
    /// against the record's declared count.
    pub fn enum32_entry(&self, i: usize) -> (e: (u32, u32))
        requires
            record_wf(self@),
            spec_kind(self.info) == KIND_ENUM32,
            i < spec_vlen(self.info),
        ensures
            e.0 == enum32_name_off(self@, i as int),
            e.1 == enum32_raw(self@, i as int),
    {
        proof {
            lemma_vlen_bound(self.info);
        }
        (self.tail[ENUM32_WORDS * i], self.tail[ENUM32_WORDS * i + 1])
    }

    /// Reads the name offset and the two value halves of enumerator `i`,
    /// checked against the record's declared count.
    pub fn enum64_entry(&self, i: usize) -> (e: (u32, u32, u32))
        requires
            record_wf(self@),
            spec_kind(self.info) == KIND_ENUM64,
            i < spec_vlen(self.info),
        ensures
            e.0 == enum64_name_off(self@, i as int),
            e.1 == enum64_lo(self@, i as int),
            e.2 == enum64_hi(self@, i as int),
    {
        proof {
            lemma_vlen_bound(self.info);
        }
        (
            self.tail[ENUM64_WORDS * i],
            self.tail[ENUM64_WORDS * i + 1],
            self.tail[ENUM64_WORDS * i + 2],
        )
    }

    /// Reads the name offset of member `i`, checked against the record's
    /// declared count.
    pub fn member_entry(&self, i: usize) -> (name_off: u32)
        requires
            record_wf(self@),
            spec_kind(self.info) == KIND_STRUCT,
            i < spec_vlen(self.info),
        ensures
            name_off == member_name_off(self@, i as int),
    {
        proof {
            lemma_vlen_bound(self.info);
        }
        self.tail[MEMBER_WORDS * i]
    }
}

} // verus!
