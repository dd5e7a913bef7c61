//! Low-level wire primitives of the DNS message format: big-endian
//! 16-bit fields and the header flags word.
//!
//! Every multi-byte integer in a DNS message is network byte order
//! (big-endian). The flags word packs the 4-bit opcode into bits 11-14,
//! the recursion-desired bit into bit 8, and the 4-bit response code
//! into bits 0-3.

use vstd::prelude::*;

verus! {

/// Mask of the opcode field inside the 16-bit flags word (bits 11-14).
pub const OPCODE_MASK: u16 = 0x7800;

/// Mask of the recursion-desired bit inside the flags word (bit 8).
pub const RECURSION_DESIRED: u16 = 0x0100;

/// Mask of the response-code field inside the flags word (bits 0-3).
pub const RCODE_MASK: u16 = 0x000f;

/// The two big-endian bytes of a 16-bit value: high byte first.
pub open spec fn be16(v: u16) -> Seq<u8> {
    seq![(v >> 8) as u8, (v & 0xff) as u8]
}

/// The 16-bit value read back from two big-endian bytes.
pub open spec fn be16_val(hi: u8, lo: u8) -> u16 {
    ((hi as u16) << 8) | (lo as u16)
}

/// Reading the two bytes of `be16` yields the encoded value back.
pub proof fn lemma_be16_round_trip(v: u16)
    ensures
        be16_val(be16(v)[0], be16(v)[1]) == v,
{
    let hi: u8 = (v >> 8) as u8;
    let lo: u8 = (v & 0xff) as u8;
    assert((((v >> 8) as u8 as u16) << 8) | ((v & 0xff) as u8 as u16) == v) by (bit_vector);
    assert(be16(v)[0] == hi && be16(v)[1] == lo);
}

/// Appends a 16-bit value to `buf` in network byte order.
pub fn push_u16_be(buf: &mut Vec<u8>, v: u16)
    ensures
        final(buf)@ == old(buf)@ + be16(v),
{
    buf.push((v >> 8) as u8);
    buf.push((v & 0xff) as u8);
    assert(buf@ =~= old(buf)@ + be16(v));
}

/// Reads a big-endian 16-bit value from two bytes of `buf`.
pub fn read_u16_be(buf: &[u8], off: usize) -> (r: u16)
    requires
        off + 2 <= buf@.len(),
    ensures
        r == be16_val(buf@[off as int], buf@[off as int + 1]),
{
    ((buf[off] as u16) << 8) | (buf[off + 1] as u16)
}

/// The flags word built from an opcode, a response code and the
/// recursion-desired bit. Only these three fields of the header enter
/// the word in this query builder; all other flag bits stay zero.
pub open spec fn flags_word(opcode: u16, rcode: u8, rd: bool) -> u16 {
    ((opcode & 0xf) << 11) | (if rd {
        RECURSION_DESIRED
    } else {
        0
    }) | ((rcode as u16) & 0xf)
}

/// The opcode carried in bits 11-14 of a flags word.
pub open spec fn flags_opcode(flags: u16) -> u16 {
    (flags & OPCODE_MASK) >> 11
}

/// The response code carried in bits 0-3 of a flags word.
pub open spec fn flags_rcode(flags: u16) -> u8 {
    (flags & RCODE_MASK) as u8
}

/// Whether the recursion-desired bit (bit 8) of a flags word is set.
pub open spec fn flags_rd(flags: u16) -> bool {
    flags & RECURSION_DESIRED != 0
}

/// Packs an opcode, a response code and the recursion-desired bit into
/// the 16-bit flags word of the header.
pub fn pack_flags(opcode: u16, rcode: u8, rd: bool) -> (r: u16)
    requires
        opcode < 16,
        rcode < 16,
    ensures
        r == flags_word(opcode, rcode, rd),
{
    let rd_bit: u16 = if rd {
        RECURSION_DESIRED
    } else {
        0
    };
    ((opcode & 0xf) << 11) | rd_bit | ((rcode as u16) & 0xf)
}

/// Reads the opcode back out of a flags word.
pub fn unpack_opcode(flags: u16) -> (r: u16)
    ensures
        r == flags_opcode(flags),
{
    (flags & OPCODE_MASK) >> 11
}

/// Reads the response code back out of a flags word.
pub fn unpack_rcode(flags: u16) -> (r: u8)
    ensures
        r == flags_rcode(flags),
{
    (flags & RCODE_MASK) as u8
}

/// Reads the recursion-desired bit back out of a flags word.
pub fn unpack_rd(flags: u16) -> (r: bool)
    ensures
        r == flags_rd(flags),
{
    flags & RECURSION_DESIRED != 0
}

/// Bit-pack/unpack inverse law: decoding a flags word built from a
/// 4-bit opcode, a 4-bit response code and the recursion-desired bit
/// reproduces exactly the three values that were encoded.
pub proof fn lemma_flags_round_trip(opcode: u16, rcode: u8, rd: bool)
    by (bit_vector)
    requires
        opcode < 16,
        rcode < 16,
    ensures
        flags_opcode(flags_word(opcode, rcode, rd)) == opcode,
        flags_rcode(flags_word(opcode, rcode, rd)) == rcode,
        flags_rd(flags_word(opcode, rcode, rd)) == rd,
{
}

} // verus!
