//! Canonical virtual and masked physical 64-bit addresses.

use vstd::prelude::*;

verus! {

/// Bit 47, the highest virtual address bit that the hardware implements.
pub const SIGN_BIT: u64 = 0x0000_8000_0000_0000;

/// Bits 0 to 47 of a virtual address.
pub const LOW_48: u64 = 0x0000_FFFF_FFFF_FFFF;

/// Bits 48 to 63 of a virtual address.
pub const HIGH_16: u64 = 0xFFFF_0000_0000_0000;

/// Bits 0 to 51, the part of a physical address that can be used.
pub const PHYS_MASK: u64 = 0x000F_FFFF_FFFF_FFFF;

/// Bits 47 to 63 of `value` are all zero or all one.
pub open spec fn is_canonical(value: u64) -> bool {
    value >> 47 == 0 || value >> 47 == 0x1FFFF
}

/// `value` with bits 48 to 63 replaced by copies of bit 47.
pub open spec fn sign_extend(value: u64) -> u64 {
    if value & SIGN_BIT == 0 {
        value & LOW_48
    } else {
        value | HIGH_16
    }
}

/// A canonical address read as a number lies in the lowest or in the highest
/// 2^47 addresses.
pub proof fn lemma_canonical_halves(value: u64)
    ensures
        is_canonical(value) <==> (value < 0x0000_8000_0000_0000 || value
            >= 0xFFFF_8000_0000_0000),
{
    assert((value >> 47 == 0 || value >> 47 == 0x1FFFF) <==> (value < 0x0000_8000_0000_0000
        || value >= 0xFFFF_8000_0000_0000)) by (bit_vector);
}

/// Sign extension leaves a canonical value alone, always gives a canonical
/// value, and never changes bits 0 to 47.
pub proof fn lemma_sign_extend(value: u64)
    ensures
        is_canonical(value) ==> sign_extend(value) == value,
        is_canonical(sign_extend(value)),
        sign_extend(value) & LOW_48 == value & LOW_48,
        sign_extend(value) as int % 0x1_0000_0000_0000 == value as int % 0x1_0000_0000_0000,
{
    let low = if value & SIGN_BIT == 0 {
        value & LOW_48
    } else {
        value | HIGH_16
    };
    assert({
        &&& (value >> 47 == 0 || value >> 47 == 0x1FFFF) ==> low == value
        &&& (low >> 47 == 0 || low >> 47 == 0x1FFFF)
        &&& low & 0x0000_FFFF_FFFF_FFFF == value & 0x0000_FFFF_FFFF_FFFF
        &&& low % 0x1_0000_0000_0000 == value % 0x1_0000_0000_0000
    }) by (bit_vector)
        requires
            low == if value & 0x0000_8000_0000_0000 == 0 {
                value & 0x0000_FFFF_FFFF_FFFF
            } else {
                value | 0xFFFF_0000_0000_0000
            },
    ;
}

/// A canonical 64-bit virtual address: bits 48 to 63 are copies of bit 47.
#[derive(Clone, Copy, Debug, PartialEq, Eq)]
pub struct VAddr(u64);

/// A physical 64-bit address: only the lower 52 bits are used, the upper 12
/// are zero.
#[derive(Clone, Copy, Debug, PartialEq, Eq)]
pub struct PAddr(u64);

impl VAddr {
    #[verifier::type_invariant]
    spec fn inv(self) -> bool {
        is_canonical(self.0)
    }

    /// The address as a number.
    pub closed spec fn view(&self) -> u64 {
        self.0
    }

    /// Makes a virtual address out of any 64-bit value. A canonical value is
    /// kept; any other has bits 48 to 63 overwritten with bit 47.
    pub fn from(value: u64) -> (r: VAddr)
        ensures
            r@ == sign_extend(value),
            is_canonical(r@),
            is_canonical(value) ==> r@ == value,
            r@ & LOW_48 == value & LOW_48,
    {
        proof {
            lemma_sign_extend(value);
        }
        let upper: u64 = value >> 47;
        if upper == 0_u64 || upper == 0x1FFFF_u64 {
            VAddr(value)
        } else {
            let extended: u64 = ((value << 16) as i64 >> 16) as u64;
            assert(extended == sign_extend(value)) by (bit_vector)
                requires
                    extended == ((value << 16) as i64 >> 16) as u64,
            ;
            VAddr(extended)
        }
    }

    /// The virtual address 0.
    pub fn zero() -> (r: VAddr)
        ensures
            r@ == 0,
    {
        assert(0u64 >> 47 == 0) by (bit_vector);
        VAddr(0_u64)
    }

    /// The address as a number.
    pub fn as_u64(&self) -> (r: u64)
        ensures
            r == self@,
            is_canonical(r),
    {
        proof {
            use_type_invariant(self);
        }
        self.0
    }
}

impl PAddr {
    #[verifier::type_invariant]
    spec fn inv(self) -> bool {
        self.0 <= PHYS_MASK
    }

    /// The address as a number.
    pub closed spec fn view(&self) -> u64 {
        self.0
    }

    /// Makes a physical address out of any 64-bit value by dropping bits 52
    /// to 63.
    pub fn from(value: u64) -> (r: PAddr)
        ensures
            r@ == value & PHYS_MASK,
            r@ & PHYS_MASK == value & PHYS_MASK,
            r@ >> 52 == 0,
            r@ as int == value as int % 0x10_0000_0000_0000,
    {
        let masked: u64 = value & PHYS_MASK;
        assert(masked <= 0x000F_FFFF_FFFF_FFFF && masked >> 52 == 0 && masked == value
            % 0x10_0000_0000_0000 && masked & 0x000F_FFFF_FFFF_FFFF == masked) by (bit_vector)
            requires
                masked == value & 0x000F_FFFF_FFFF_FFFF,
        ;
        PAddr(masked)
    }

    /// The physical address 0.
    pub fn zero() -> (r: PAddr)
        ensures
            r@ == 0,
    {
        PAddr(0_u64)
    }

    /// The address as a number.
    pub fn as_u64(&self) -> (r: u64)
        ensures
            r == self@,
            r <= PHYS_MASK,
    {
        proof {
            use_type_invariant(self);
        }
        self.0
    }
}

} // verus!
