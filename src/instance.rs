//! The packed per-instance record that a top-level acceleration structure
//! reads.
use vstd::prelude::*;

verus! {

/// Low 24 bits of a field word.
pub open spec fn low24(w: u32) -> u32 {
    w & 0x00ff_ffffu32
}

/// High 8 bits of a field word.
pub open spec fn high8(w: u32) -> u32 {
    w >> 24u32
}

/// A 24-bit value packed under an 8-bit value; bits of `low` above 24 and of
/// `high` above 8 are dropped.
pub open spec fn pack24_8(low: u32, high: u32) -> u32 {
    (low & 0x00ff_ffffu32) | (high << 24u32)
}

/// Little-endian bytes of a 32-bit word.
pub open spec fn le_u32(w: u32) -> Seq<u8> {
    seq![w as u8, (w >> 8u32) as u8, (w >> 16u32) as u8, (w >> 24u32) as u8]
}

/// Little-endian bytes of a 64-bit word.
pub open spec fn le_u64(w: u64) -> Seq<u8> {
    le_u32(w as u32) + le_u32((w >> 32u64) as u32)
}

/// Little-endian bytes of a 16-bit word.
pub open spec fn le_u16(w: u16) -> Seq<u8> {
    seq![w as u8, (w >> 8u16) as u8]
}

/// The words of `ws` laid out one after another, each little-endian.
pub open spec fn words_le(ws: Seq<u32>) -> Seq<u8>
    decreases ws.len(),
{
    if ws.len() == 0 {
        Seq::empty()
    } else {
        words_le(ws.drop_last()) + le_u32(ws.last())
    }
}

/// The half-words of `hs` laid out one after another, each little-endian.
pub open spec fn halves_le(hs: Seq<u16>) -> Seq<u8>
    decreases hs.len(),
{
    if hs.len() == 0 {
        Seq::empty()
    } else {
        halves_le(hs.drop_last()) + le_u16(hs.last())
    }
}

/// Appends the little-endian bytes of `w`.
pub fn push_u32_le(out: &mut Vec<u8>, w: u32)
    ensures
        final(out)@ == old(out)@ + le_u32(w),
{
    out.push(w as u8);
    out.push((w >> 8) as u8);
    out.push((w >> 16) as u8);
    out.push((w >> 24) as u8);
    assert(final(out)@ =~= old(out)@ + le_u32(w));
}

/// Encodes 32-bit words as consecutive little-endian bytes, as a host-visible
/// buffer receives them.
pub fn words_to_bytes(ws: &Vec<u32>) -> (r: Vec<u8>)
    ensures
        r@ == words_le(ws@),
{
    let mut out: Vec<u8> = Vec::new();
    let mut i: usize = 0;
    while i < ws.len()
        invariant
            i <= ws@.len(),
            out@ == words_le(ws@.subrange(0, i as int)),
        decreases ws@.len() - i,
    {
        proof {
            assert(ws@.subrange(0, i + 1).drop_last() =~= ws@.subrange(0, i as int));
        }
        push_u32_le(&mut out, ws[i]);
        i = i + 1;
    }
    assert(ws@.subrange(0, ws@.len() as int) =~= ws@);
    out
}

/// Encodes 16-bit words as consecutive little-endian bytes.
pub fn halves_to_bytes(hs: &Vec<u16>) -> (r: Vec<u8>)
    ensures
        r@ == halves_le(hs@),
{
    let mut out: Vec<u8> = Vec::new();
    let mut i: usize = 0;
    while i < hs.len()
        invariant
            i <= hs@.len(),
            out@ == halves_le(hs@.subrange(0, i as int)),
        decreases hs@.len() - i,
    {
        proof {
            assert(hs@.subrange(0, i + 1).drop_last() =~= hs@.subrange(0, i as int));
        }
        let h = hs[i];
        out.push(h as u8);
        out.push((h >> 8) as u8);
        assert(out@ =~= halves_le(hs@.subrange(0, i as int)) + le_u16(h));
        i = i + 1;
    }
    assert(hs@.subrange(0, hs@.len() as int) =~= hs@);
    out
}

/// One instance of a bottom-level structure in a top-level structure.
///
/// The transform is a 3x4 row-major matrix held as the IEEE-754 single
/// precision bit patterns of its entries.
#[derive(Clone, Copy)]
pub struct GeometryInstance {
    pub transform: [u32; 12],
    /// Instance id in bits 0..24, visibility mask in bits 24..32.
    pub instance_id_and_mask: u32,
    /// Binding-table offset in bits 0..24, instance flags in bits 24..32.
    pub instance_offset_and_flags: u32,
    /// Opaque handle of the referenced bottom-level structure.
    pub acceleration_handle: u64,
}

impl GeometryInstance {
    /// Packs a record in one step. Bits of `id` and `offset` above the 24th,
    /// and of `flags` above the 8th, are silently dropped.
    pub fn new(transform: [u32; 12], id: u32, mask: u8, offset: u32, flags: u32, acceleration_handle: u64) -> (r: Self)
        ensures
            r.transform@ == transform@,
            r.instance_id_and_mask == pack24_8(id, mask as u32),
            r.instance_offset_and_flags == pack24_8(offset, flags),
            r.acceleration_handle == acceleration_handle,
    {
        let mut instance = GeometryInstance {
            transform,
            instance_id_and_mask: 0,
            instance_offset_and_flags: 0,
            acceleration_handle,
        };
        instance.set_id(id);
        instance.set_mask(mask);
        instance.set_offset(offset);
        instance.set_flags(flags);
        let m = mask as u32;
        assert(((0u32 | (id & 0x00ff_ffffu32)) | (m << 24u32)) == pack24_8(id, m)) by (bit_vector);
        assert(((0u32 | (offset & 0x00ff_ffffu32)) | (flags << 24u32)) == pack24_8(offset, flags))
            by (bit_vector);
        instance
    }

    /// Ors the low 24 bits of `id` into the id field.
    pub fn set_id(&mut self, id: u32)
        ensures
            final(self).instance_id_and_mask == old(self).instance_id_and_mask | (id & 0x00ff_ffffu32),
            final(self).instance_offset_and_flags == old(self).instance_offset_and_flags,
            final(self).transform == old(self).transform,
            final(self).acceleration_handle == old(self).acceleration_handle,
    {
        let id = id & 0x00ff_ffff;
        self.instance_id_and_mask = self.instance_id_and_mask | id;
    }

    /// Ors `mask` into the top byte of the id field.
    pub fn set_mask(&mut self, mask: u8)
        ensures
            final(self).instance_id_and_mask == old(self).instance_id_and_mask | ((mask as u32) << 24u32),
            final(self).instance_offset_and_flags == old(self).instance_offset_and_flags,
            final(self).transform == old(self).transform,
            final(self).acceleration_handle == old(self).acceleration_handle,
    {
        let mask = mask as u32;
        self.instance_id_and_mask = self.instance_id_and_mask | (mask << 24);
    }

    /// Ors the low 24 bits of `offset` into the offset field.
    pub fn set_offset(&mut self, offset: u32)
        ensures
            final(self).instance_offset_and_flags == old(self).instance_offset_and_flags | (offset
                & 0x00ff_ffffu32),
            final(self).instance_id_and_mask == old(self).instance_id_and_mask,
            final(self).transform == old(self).transform,
            final(self).acceleration_handle == old(self).acceleration_handle,
    {
        let offset = offset & 0x00ff_ffff;
        self.instance_offset_and_flags = self.instance_offset_and_flags | offset;
    }

    /// Ors the raw instance flags into the top byte of the offset field.
    pub fn set_flags(&mut self, flags: u32)
        ensures
            final(self).instance_offset_and_flags == old(self).instance_offset_and_flags | (flags
                << 24u32),
            final(self).instance_id_and_mask == old(self).instance_id_and_mask,
            final(self).transform == old(self).transform,
            final(self).acceleration_handle == old(self).acceleration_handle,
    {
        self.instance_offset_and_flags = self.instance_offset_and_flags | (flags << 24);
    }

    /// The 24-bit instance id.
    pub fn id(&self) -> (r: u32)
        ensures
            r == low24(self.instance_id_and_mask),
    {
        self.instance_id_and_mask & 0x00ff_ffff
    }

    /// The 8-bit visibility mask.
    pub fn mask(&self) -> (r: u8)
        ensures
            r as u32 == high8(self.instance_id_and_mask),
    {
        let w = self.instance_id_and_mask;
        assert(w >> 24u32 <= 255u32) by (bit_vector);
        (w >> 24) as u8
    }

    /// The 24-bit binding-table offset.
    pub fn offset(&self) -> (r: u32)
        ensures
            r == low24(self.instance_offset_and_flags),
    {
        self.instance_offset_and_flags & 0x00ff_ffff
    }

    /// The raw instance flag byte.
    pub fn flags(&self) -> (r: u8)
        ensures
            r as u32 == high8(self.instance_offset_and_flags),
    {
        let w = self.instance_offset_and_flags;
        assert(w >> 24u32 <= 255u32) by (bit_vector);
        (w >> 24) as u8
    }

    /// The record as a device reads it: the twelve transform words, the two
    /// packed words and the handle, each little-endian.
    pub open spec fn bytes_spec(self) -> Seq<u8> {
        words_le(self.transform@) + le_u32(self.instance_id_and_mask) + le_u32(
            self.instance_offset_and_flags,
        ) + le_u64(self.acceleration_handle)
    }

    /// Encodes the record in its 64-byte device layout.
    pub fn to_bytes(&self) -> (r: Vec<u8>)
        ensures
            r@ == self.bytes_spec(),
            r@.len() == 64,
    {
        let mut words: Vec<u32> = Vec::new();
        let mut i: usize = 0;
        while i < 12
            invariant
                i <= 12,
                words@ == self.transform@.subrange(0, i as int),
            decreases 12 - i,
        {
            words.push(self.transform[i]);
            assert(words@ =~= self.transform@.subrange(0, i + 1));
            i = i + 1;
        }
        assert(words@ =~= self.transform@);
        let mut out = words_to_bytes(&words);
        push_u32_le(&mut out, self.instance_id_and_mask);
        push_u32_le(&mut out, self.instance_offset_and_flags);
        let h = self.acceleration_handle;
        push_u32_le(&mut out, h as u32);
        push_u32_le(&mut out, (h >> 32) as u32);
        proof {
            lemma_words_le_len(self.transform@);
        }
        assert(out@ =~= self.bytes_spec());
        out
    }
}

/// Each word contributes four bytes.
pub proof fn lemma_words_le_len(ws: Seq<u32>)
    ensures
        words_le(ws).len() == 4 * ws.len(),
    decreases ws.len(),
{
    if ws.len() > 0 {
        lemma_words_le_len(ws.drop_last());
    }
}

/// Packing an id below 2^24, a mask, an offset below 2^24 and a flag byte,
/// then reading the 24- and 8-bit fields back, gives each value unchanged.
pub proof fn lemma_instance_round_trip(id: u32, mask: u8, offset: u32, flags: u8)
    requires
        id < 0x0100_0000,
        offset < 0x0100_0000,
    ensures
        low24(pack24_8(id, mask as u32)) == id,
        high8(pack24_8(id, mask as u32)) == mask as u32,
        low24(pack24_8(offset, flags as u32)) == offset,
        high8(pack24_8(offset, flags as u32)) == flags as u32,
{
    let m = mask as u32;
    let f = flags as u32;
    assert(m < 256);
    assert(f < 256);
    assert(id < 0x0100_0000u32 && m < 256u32 ==> ((id & 0x00ff_ffffu32) | (m << 24u32)) & 0x00ff_ffffu32 == id) by (bit_vector);
    assert(id < 0x0100_0000u32 && m < 256u32 ==> ((id & 0x00ff_ffffu32) | (m << 24u32)) >> 24u32 == m) by (bit_vector);
    assert(offset < 0x0100_0000u32 && f < 256u32 ==> ((offset & 0x00ff_ffffu32) | (f << 24u32)) & 0x00ff_ffffu32 == offset) by (bit_vector);
    assert(offset < 0x0100_0000u32 && f < 256u32 ==> ((offset & 0x00ff_ffffu32) | (f << 24u32)) >> 24u32 == f) by (bit_vector);
}

} // verus!
