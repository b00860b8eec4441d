use vstd::prelude::*;

verus! {

/// The little-endian word stored at `addr` in `mem`.
pub open spec fn spec_read32(mem: Seq<u8>, addr: int) -> u32 {
    (mem[addr] as u32) | ((mem[addr + 1] as u32) << 8u32) | ((mem[addr + 2] as u32) << 16u32) | ((
    mem[addr + 3] as u32) << 24u32)
}

/// The little-endian halfword stored at `addr` in `mem`.
pub open spec fn spec_read16(mem: Seq<u8>, addr: int) -> u16 {
    (mem[addr] as u16) | ((mem[addr + 1] as u16) << 8u16)
}

/// `mem` with the little-endian bytes of `value` stored from `addr`.
pub open spec fn spec_write32(mem: Seq<u8>, addr: int, value: u32) -> Seq<u8> {
    mem.update(addr, (value & 0xff) as u8).update(addr + 1, ((value >> 8u32) & 0xff) as u8).update(
        addr + 2,
        ((value >> 16u32) & 0xff) as u8,
    ).update(addr + 3, (value >> 24u32) as u8)
}

/// `mem` with the little-endian bytes of `value` stored from `addr`.
pub open spec fn spec_write16(mem: Seq<u8>, addr: int, value: u16) -> Seq<u8> {
    mem.update(addr, (value & 0xff) as u8).update(addr + 1, (value >> 8u16) as u8)
}

proof fn lemma_word_bytes(value: u32)
    by (bit_vector)
    ensures
        ((value & 0xff) as u8 as u32) | ((((value >> 8u32) & 0xff) as u8 as u32) << 8u32) | ((((value
            >> 16u32) & 0xff) as u8 as u32) << 16u32) | (((value >> 24u32) as u8 as u32) << 24u32)
            == value,
        ((value & 0xff) as u16 as u8 as u16) | ((((value >> 8u32) & 0xff) as u16 as u8 as u16)
            << 8u16) == (value & 0xffff) as u16,
{
}

/// A word read gives back the word last written at the same address.
pub proof fn lemma_read32_after_write32(mem: Seq<u8>, addr: int, value: u32)
    requires
        0 <= addr,
        addr + 4 <= mem.len(),
    ensures
        spec_read32(spec_write32(mem, addr, value), addr) == value,
{
    lemma_word_bytes(value);
}

/// A halfword read gives back the halfword last written at the same address.
pub proof fn lemma_read16_after_write16(mem: Seq<u8>, addr: int, value: u16)
    requires
        0 <= addr,
        addr + 2 <= mem.len(),
    ensures
        spec_read16(spec_write16(mem, addr, value), addr) == value,
{
    lemma_word_bytes(value as u32);
    assert(((value as u32) & 0xffff) as u16 == value) by (bit_vector);
    assert(((value as u32 & 0xff) as u16 as u8) == (value & 0xff) as u8) by (bit_vector);
    assert(((((value as u32) >> 8u32) & 0xff) as u16 as u8) == (value >> 8u16) as u8) by (bit_vector);
}

/// Writing a word changes no byte outside its four.
pub proof fn lemma_write32_frame(mem: Seq<u8>, addr: int, value: u32, other: int)
    requires
        0 <= addr,
        addr + 4 <= mem.len(),
        0 <= other < mem.len(),
        other < addr || addr + 4 <= other,
    ensures
        spec_write32(mem, addr, value)[other] == mem[other],
        spec_write32(mem, addr, value).len() == mem.len(),
{
}

/// Reads the little-endian word at `addr`.
pub fn read32(mem: &Vec<u8>, addr: usize) -> (r: u32)
    requires
        addr + 4 <= mem.len(),
    ensures
        r == spec_read32(mem@, addr as int),
{
    (mem[addr] as u32) | ((mem[addr + 1] as u32) << 8) | ((mem[addr + 2] as u32) << 16) | ((
    mem[addr + 3] as u32) << 24)
}

/// Reads the little-endian halfword at `addr`.
pub fn read16(mem: &Vec<u8>, addr: usize) -> (r: u16)
    requires
        addr + 2 <= mem.len(),
    ensures
        r == spec_read16(mem@, addr as int),
{
    (mem[addr] as u16) | ((mem[addr + 1] as u16) << 8)
}

/// Stores `value` little-endian at `addr`.
pub fn write32(mem: &mut Vec<u8>, addr: usize, value: u32)
    requires
        addr + 4 <= old(mem).len(),
    ensures
        final(mem)@ == spec_write32(old(mem)@, addr as int, value),
{
    mem.set(addr, (value & 0xff) as u8);
    mem.set(addr + 1, ((value >> 8) & 0xff) as u8);
    mem.set(addr + 2, ((value >> 16) & 0xff) as u8);
    mem.set(addr + 3, (value >> 24) as u8);
}

/// Stores `value` little-endian at `addr`.
pub fn write16(mem: &mut Vec<u8>, addr: usize, value: u16)
    requires
        addr + 2 <= old(mem).len(),
    ensures
        final(mem)@ == spec_write16(old(mem)@, addr as int, value),
{
    mem.set(addr, (value & 0xff) as u8);
    mem.set(addr + 1, (value >> 8) as u8);
}

} // verus!
