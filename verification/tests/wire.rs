use dns_lookup::wire::{
    pack_flags, push_u16_be, read_u16_be, unpack_opcode, unpack_rcode, unpack_rd,
    OPCODE_MASK, RECURSION_DESIRED,
};

#[test]
fn test_masks() {
    assert_eq!(OPCODE_MASK, 0b0111_1000_0000_0000);
    assert_eq!(RECURSION_DESIRED, 0b0000_0001_0000_0000);
}

#[test]
fn test_push_read_big_endian() {
    let mut buf: Vec<u8> = Vec::new();
    push_u16_be(&mut buf, 0xABCD);
    assert_eq!(buf, vec![0xAB, 0xCD]);
    push_u16_be(&mut buf, 1);
    assert_eq!(buf, vec![0xAB, 0xCD, 0x00, 0x01]);
    assert_eq!(read_u16_be(&buf, 0), 0xABCD);
    assert_eq!(read_u16_be(&buf, 2), 1);
}

#[test]
fn test_flags_pack_values() {
    // a standard recursive query: only bit 8 set
    assert_eq!(pack_flags(0, 0, true), 0x0100);
    assert_eq!(pack_flags(0, 0, false), 0x0000);
    // opcode 2 lands in bits 11-14, response code 3 in bits 0-3
    assert_eq!(pack_flags(2, 3, false), 0x1003);
    assert_eq!(pack_flags(15, 15, true), 0x790F);
}

#[test]
fn test_flags_round_trip_concrete() {
    for opcode in 0u16..16 {
        for rcode in 0u8..16 {
            for rd in [false, true] {
                let f = pack_flags(opcode, rcode, rd);
                assert_eq!(unpack_opcode(f), opcode);
                assert_eq!(unpack_rcode(f), rcode);
                assert_eq!(unpack_rd(f), rd);
            }
        }
    }
}
