use allude_sim::memory::{
    byte, half_from_bytes, word_from_bytes, AccessSize, FlatMemory, MemError, Memory,
};

#[test]
fn a_new_memory_is_zeroed() {
    let mem = FlatMemory::new(16, 0x8000_0000);
    assert_eq!(mem.base_addr(), 0x8000_0000);
    assert_eq!(mem.size(), 16);
    assert_eq!(mem.read_bytes(0x8000_0000, 16).unwrap(), vec![0u8; 16]);
    assert_eq!(FlatMemory::new(0, 4).size(), 0);
}

#[test]
fn every_width_has_its_byte_count_and_name() {
    assert_eq!(AccessSize::Byte.bytes(), 1);
    assert_eq!(AccessSize::Half.bytes(), 2);
    assert_eq!(AccessSize::Word.bytes(), 4);
    assert_eq!(AccessSize::Byte.label(), "Byte");
    assert_eq!(AccessSize::Half.label(), "Half");
    assert_eq!(AccessSize::Word.label(), "Word");
}

#[test]
fn misalignment_is_found_before_a_range_violation() {
    let mut mem = FlatMemory::new(8, 0x100);
    let unaligned = |addr, access| MemError::Unaligned { addr, access };
    let outside = |addr, access| MemError::OutOfRange { addr, access, base: 0x100, size: 8 };
    assert_eq!(mem.load16(0x201), Err(unaligned(0x201, AccessSize::Half)));
    assert_eq!(mem.load32(0x202), Err(unaligned(0x202, AccessSize::Word)));
    assert_eq!(mem.store16(0x107, 1), Err(unaligned(0x107, AccessSize::Half)));
    assert_eq!(mem.store32(0x106, 1), Err(unaligned(0x106, AccessSize::Word)));
    assert_eq!(mem.load8(0xFF), Err(outside(0xFF, AccessSize::Byte)));
    assert_eq!(mem.load8(0x108), Err(outside(0x108, AccessSize::Byte)));
    assert_eq!(mem.load16(0x108), Err(outside(0x108, AccessSize::Half)));
    assert_eq!(mem.load32(0x108), Err(outside(0x108, AccessSize::Word)));
    assert_eq!(mem.store8(0xFFFF_FFFF, 1), Err(outside(0xFFFF_FFFF, AccessSize::Byte)));
    assert_eq!(mem.store16(0xFE, 1), Err(outside(0xFE, AccessSize::Half)));
    assert_eq!(mem.store32(0xFC, 1), Err(outside(0xFC, AccessSize::Word)));
    assert_eq!(mem.read_bytes(0x100, 8).unwrap(), vec![0u8; 8]);
    assert_eq!(mem.load32(0x104), Ok(0));
    assert_eq!(mem.load16(0x106), Ok(0));
    assert_eq!(mem.load8(0x107), Ok(0));
}

#[test]
fn stores_are_little_endian_and_read_back() {
    let mut mem = FlatMemory::new(16, 0);
    mem.store32(4, 0xDEAD_BEEF).unwrap();
    assert_eq!(mem.read_bytes(4, 4).unwrap(), vec![0xEF, 0xBE, 0xAD, 0xDE]);
    assert_eq!(mem.load32(4), Ok(0xDEAD_BEEF));
    assert_eq!(mem.load16(4), Ok(0xBEEF));
    assert_eq!(mem.load16(6), Ok(0xDEAD));
    mem.store16(6, 0x1234).unwrap();
    assert_eq!(mem.load32(4), Ok(0x1234_BEEF));
    mem.store8(5, 0xFF).unwrap();
    assert_eq!(mem.load32(4), Ok(0x1234_FFEF));
    assert_eq!(mem.load32(0), Ok(0));
    assert_eq!(mem.load32(8), Ok(0));
}

#[test]
fn bytes_and_words_convert_both_ways() {
    assert_eq!(byte(0xA1B2_C3D4, 0), 0xD4);
    assert_eq!(byte(0xA1B2_C3D4, 1), 0xC3);
    assert_eq!(byte(0xA1B2_C3D4, 2), 0xB2);
    assert_eq!(byte(0xA1B2_C3D4, 3), 0xA1);
    assert_eq!(half_from_bytes(0xD4, 0xC3), 0xC3D4);
    assert_eq!(word_from_bytes(0xD4, 0xC3, 0xB2, 0xA1), 0xA1B2_C3D4);
}

#[test]
fn block_writes_fit_or_change_nothing() {
    let mut mem = FlatMemory::new(8, 0x10);
    assert_eq!(mem.write_bytes(0x14, &[1, 2, 3, 4]), Ok(()));
    assert_eq!(
        mem.write_bytes(0x15, &[9, 9, 9, 9]),
        Err(MemError::OutOfRange { addr: 0x15, access: AccessSize::Byte, base: 0x10, size: 8 })
    );
    assert_eq!(
        mem.write_bytes(0x0F, &[9]),
        Err(MemError::OutOfRange { addr: 0x0F, access: AccessSize::Byte, base: 0x10, size: 8 })
    );
    assert_eq!(mem.write_bytes(0x4000, &[]), Ok(()));
    assert_eq!(mem.read_bytes(0x10, 8).unwrap(), vec![0, 0, 0, 0, 1, 2, 3, 4]);
    assert_eq!(mem.read_bytes(0x16, 2).unwrap(), vec![3, 4]);
    assert_eq!(mem.read_bytes(0x4000, 0).unwrap(), Vec::<u8>::new());
    assert_eq!(
        mem.read_bytes(0x17, 2),
        Err(MemError::OutOfRange { addr: 0x17, access: AccessSize::Byte, base: 0x10, size: 8 })
    );
    assert_eq!(mem.fill(0x12, 3, 0xAA), Ok(()));
    assert_eq!(mem.fill(0x12, 0, 0xBB), Ok(()));
    assert_eq!(
        mem.fill(0x12, 7, 0xCC),
        Err(MemError::OutOfRange { addr: 0x12, access: AccessSize::Byte, base: 0x10, size: 8 })
    );
    assert_eq!(mem.read_bytes(0x10, 8).unwrap(), vec![0, 0, 0xAA, 0xAA, 0xAA, 2, 3, 4]);
}

#[test]
fn a_memory_may_end_at_the_top_of_the_address_space() {
    let mut mem = FlatMemory::new(16, 0xFFFF_FFF0);
    assert_eq!(mem.store32(0xFFFF_FFFC, 7), Ok(()));
    assert_eq!(mem.load8(0xFFFF_FFFF), Ok(0));
    assert_eq!(mem.load32(0xFFFF_FFFC), Ok(7));
    assert!(mem.load8(0).is_err());
}

#[test]
fn errors_are_spelled_out() {
    assert_eq!(
        MemError::Unaligned { addr: 0x1F3, access: AccessSize::Word }.to_string(),
        "Unaligned Word access at 0x000001f3"
    );
    assert_eq!(
        MemError::OutOfRange { addr: 0xABCD_EF01, access: AccessSize::Half, base: 0x8000_0000, size: 0x1000 }
            .to_string(),
        "Out-of-range Half access at 0xabcdef01 (region=0x80000000..0x80001000)"
    );
    assert_eq!(
        MemError::OutOfRange { addr: 0, access: AccessSize::Byte, base: 0xFFFF_FFF0, size: 0x20 }
            .to_string(),
        "Out-of-range Byte access at 0x00000000 (region=0xfffffff0..0x00000010)"
    );
}
