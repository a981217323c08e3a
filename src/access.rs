use p3_baby_bear::BabyBear;
use p3_field::integers::QuotientMap;
use vstd::prelude::*;

verus! {

/// The prime of the Baby Bear field, `2^31 - 2^27 + 1`.
pub const BABY_BEAR_MODULUS: u32 = 0x7800_0001;

/// Memory addresses at or below this value belong to the emulator's own
/// bookkeeping and are never touched by program memory operations.
pub const RESERVED_BOUNDARY: u32 = 40;

/// Number of CPU registers; legal register indices are `0..NUM_REGISTERS`.
pub const NUM_REGISTERS: u32 = 32;

/// What a validated value stands for at the moment of the check.
#[derive(Clone, Copy, Debug, PartialEq, Eq, Structural)]
pub enum AccessKind {
    MemoryAddress,
    RegisterOperand,
}

/// The ways an access can be unrepresentable in the proven trace.
#[derive(Clone, Copy, Debug, PartialEq, Eq, Structural)]
pub enum AccessFault {
    MisalignedAccess,
    NonCanonicalAddress,
    ReservedRegionAccess,
    InvalidRegisterIndex,
}

/// A legal register identifier.
#[derive(Clone, Copy, Debug, PartialEq, Eq)]
pub struct Register {
    index: u32,
}

impl View for Register {
    type V = u32;

    closed spec fn view(&self) -> u32 {
        self.index
    }
}

impl Register {
    #[verifier::type_invariant]
    spec fn inv(self) -> bool {
        self.index < NUM_REGISTERS
    }

    /// Resolves a raw operand to a register, or `None` when it names none.
    pub fn from_u32(raw: u32) -> (r: Option<Register>)
        ensures
            r.is_some() == (raw < NUM_REGISTERS),
            r matches Some(reg) ==> reg@ == raw,
    {
        if raw < NUM_REGISTERS {
            Some(Register { index: raw })
        } else {
            None
        }
    }

    pub fn index(&self) -> (r: u32)
        ensures
            r == self@,
            r < NUM_REGISTERS,
    {
        proof {
            use_type_invariant(self);
        }
        self.index
    }
}

/// Relies on `QuotientMap::<u32>::from_canonical_checked` for `BabyBear`,
/// which returns `Some` exactly when the integer is below the field's prime.
#[verifier::external_body]
fn baby_bear_from_canonical(value: u32) -> (r: bool)
    ensures
        r == (value < BABY_BEAR_MODULUS),
{
    <BabyBear as QuotientMap<u32>>::from_canonical_checked(value).is_some()
}


/// The fault, if any, of touching memory at `addr`. An address that is not a
/// canonical field element is reported as such before anything else, since
/// it cannot even be encoded; then alignment; then the reserved low region.
pub open spec fn memory_fault(addr: u32) -> Option<AccessFault> {
    if addr >= BABY_BEAR_MODULUS {
        Some(AccessFault::NonCanonicalAddress)
    } else if addr % 4 != 0 {
        Some(AccessFault::MisalignedAccess)
    } else if addr <= RESERVED_BOUNDARY {
        Some(AccessFault::ReservedRegionAccess)
    } else {
        None
    }
}

/// The fault, if any, of using `index` as a register operand.
pub open spec fn register_fault(index: u32) -> Option<AccessFault> {
    if index < NUM_REGISTERS {
        None
    } else {
        Some(AccessFault::InvalidRegisterIndex)
    }
}

/// The fault, if any, of an access of the given kind.
pub open spec fn access_fault(value: u32, kind: AccessKind) -> Option<AccessFault> {
    match kind {
        AccessKind::MemoryAddress => memory_fault(value),
        AccessKind::RegisterOperand => register_fault(value),
    }
}

/// Checks an access against what the proof backend can represent.
pub fn validate_access(value: u32, kind: AccessKind) -> (r: Result<(), AccessFault>)
    ensures
        r.is_ok() == access_fault(value, kind).is_none(),
        r matches Err(fault) ==> access_fault(value, kind) == Some(fault),
{
    match kind {
        AccessKind::MemoryAddress => {
            if !baby_bear_from_canonical(value) {
                Err(AccessFault::NonCanonicalAddress)
            } else if value % 4 != 0 {
                Err(AccessFault::MisalignedAccess)
            } else if value <= RESERVED_BOUNDARY {
                Err(AccessFault::ReservedRegionAccess)
            } else {
                Ok(())
            }
        },
        AccessKind::RegisterOperand => {
            match Register::from_u32(value) {
                Some(_) => Ok(()),
                None => Err(AccessFault::InvalidRegisterIndex),
            }
        },
    }
}

/// Every word-aligned, canonical address above the reserved region is a
/// valid memory access.
pub proof fn lemma_valid_memory_access(addr: u32)
    requires
        addr % 4 == 0,
        addr < BABY_BEAR_MODULUS,
        addr > RESERVED_BOUNDARY,
    ensures
        access_fault(addr, AccessKind::MemoryAddress) == None::<AccessFault>,
{
}

/// Every address at or above the field modulus is rejected as
/// non-canonical.
pub proof fn lemma_non_canonical_address(addr: u32)
    requires
        addr >= BABY_BEAR_MODULUS,
    ensures
        access_fault(addr, AccessKind::MemoryAddress) == Some(AccessFault::NonCanonicalAddress),
{
}

/// A register operand is accepted exactly when it lies in the legal range,
/// and is otherwise rejected as an invalid register index.
pub proof fn lemma_register_operand(index: u32)
    ensures
        access_fault(index, AccessKind::RegisterOperand) == (if index < NUM_REGISTERS {
            None
        } else {
            Some(AccessFault::InvalidRegisterIndex)
        }),
{
}

} // verus!
