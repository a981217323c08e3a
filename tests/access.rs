use cycle_guard::access::{BABY_BEAR_MODULUS, NUM_REGISTERS};
use cycle_guard::{align, validate_access, AccessFault, AccessKind, Register};

#[test]
fn align_rounds_down_to_word() {
    assert_eq!(align(0), 0);
    assert_eq!(align(3), 0);
    assert_eq!(align(4), 4);
    assert_eq!(align(7), 4);
    assert_eq!(align(0x1003), 0x1000);
    assert_eq!(align(u32::MAX), u32::MAX - 3);
    for addr in [1u32, 2, 5, 41, 42, 43, 1000, 0x7800_0001] {
        assert_eq!(align(addr), addr - addr % 4);
        assert_eq!(align(addr) % 4, 0);
    }
}

#[test]
fn aligned_canonical_addresses_above_reserved_region_are_valid() {
    for addr in [44u32, 48, 0x1000, 0x7800_0000] {
        assert_eq!(validate_access(addr, AccessKind::MemoryAddress), Ok(()));
    }
}

#[test]
fn reserved_region_is_rejected() {
    assert_eq!(
        validate_access(40, AccessKind::MemoryAddress),
        Err(AccessFault::ReservedRegionAccess)
    );
    assert_eq!(
        validate_access(0, AccessKind::MemoryAddress),
        Err(AccessFault::ReservedRegionAccess)
    );
    assert_eq!(
        validate_access(4, AccessKind::MemoryAddress),
        Err(AccessFault::ReservedRegionAccess)
    );
}

#[test]
fn address_just_above_reserved_boundary_must_still_be_aligned() {
    assert_eq!(
        validate_access(41, AccessKind::MemoryAddress),
        Err(AccessFault::MisalignedAccess)
    );
    assert_eq!(validate_access(44, AccessKind::MemoryAddress), Ok(()));
}

#[test]
fn misaligned_address_is_rejected() {
    assert_eq!(
        validate_access(42, AccessKind::MemoryAddress),
        Err(AccessFault::MisalignedAccess)
    );
    assert_eq!(
        validate_access(0x1001, AccessKind::MemoryAddress),
        Err(AccessFault::MisalignedAccess)
    );
}

#[test]
fn non_canonical_address_is_rejected() {
    assert_eq!(BABY_BEAR_MODULUS, 2_013_265_921);
    for addr in [BABY_BEAR_MODULUS, BABY_BEAR_MODULUS + 3, 0x8000_0000, u32::MAX] {
        assert_eq!(
            validate_access(addr, AccessKind::MemoryAddress),
            Err(AccessFault::NonCanonicalAddress)
        );
    }
    assert_eq!(
        validate_access(BABY_BEAR_MODULUS - 1, AccessKind::MemoryAddress),
        Ok(())
    );
}

#[test]
fn register_operands_in_range_are_valid() {
    for idx in 0..NUM_REGISTERS {
        assert_eq!(validate_access(idx, AccessKind::RegisterOperand), Ok(()));
        assert_eq!(Register::from_u32(idx).map(|r| r.index()), Some(idx));
    }
}

#[test]
fn register_operands_out_of_range_are_rejected() {
    for idx in [32u32, 33, 100, u32::MAX] {
        assert_eq!(
            validate_access(idx, AccessKind::RegisterOperand),
            Err(AccessFault::InvalidRegisterIndex)
        );
        assert!(Register::from_u32(idx).is_none());
    }
}
