//! How a core is addressed: the four affinity fields, the register layout they
//! are read from, and the encodings the controller takes.

use vstd::arithmetic::power2::{lemma2_to64, lemma_pow2_strictly_increases, pow2};
use vstd::bits::lemma_u8_shl_is_mul;
use vstd::prelude::*;
use vstd::std_specs::convert::FromSpecImpl;

verus! {

/// The cores that a Software Generated Interrupt is sent to.
#[derive(Clone, Copy)]
pub enum SGITarget<'a> {
    /// Every core but the one that raises the interrupt.
    AllOther,
    /// The cores listed, in the order given.
    Targets(&'a [CPUTarget]),
}

/// The address of a core: its four affinity fields, from the innermost level
/// (`aff0`) to the outermost (`aff3`).
#[derive(Clone, Copy)]
pub struct CPUTarget {
    pub aff0: u8,
    pub aff1: u8,
    pub aff2: u8,
    pub aff3: u8,
}

impl CPUTarget {
    /// The core whose affinity fields are all zero.
    pub open spec fn spec_core0() -> Self {
        CPUTarget { aff0: 0, aff1: 0, aff2: 0, aff3: 0 }
    }

    /// The core whose affinity fields are all zero.
    #[verifier::when_used_as_spec(spec_core0)]
    pub fn core0() -> (core: Self)
        ensures
            core == Self::spec_core0(),
    {
        CPUTarget { aff0: 0, aff1: 0, aff2: 0, aff3: 0 }
    }

    /// The address of the core whose affinity register reads `mpid`: the
    /// fields `aff0`, `aff1` and `aff2` as they are, and the low byte of
    /// `aff3`.
    pub open spec fn from_mpid(mpid: MPID) -> Self {
        CPUTarget {
            aff0: mpid.aff0,
            aff1: mpid.aff1,
            aff2: mpid.aff2,
            aff3: (mpid.aff3 % 0x100) as u8,
        }
    }

    /// The four affinity fields as one number, a byte each, `aff0` lowest.
    pub open spec fn spec_affinity(&self) -> nat {
        (self.aff0 + self.aff1 * 0x100 + self.aff2 * 0x1_0000 + self.aff3 * 0x100_0000) as nat
    }

    /// The four affinity fields packed into the value that an interrupt
    /// routing register takes.
    pub fn affinity(&self) -> (packed: u32)
        ensures
            packed == self.spec_affinity(),
    {
        let a0: u32 = self.aff0 as u32;
        let a1: u32 = self.aff1 as u32;
        let a2: u32 = self.aff2 as u32;
        let a3: u32 = self.aff3 as u32;
        assert((a0 | a1 << 8 | a2 << 16 | a3 << 24) == a0 + a1 * 0x100 + a2 * 0x1_0000 + a3
            * 0x100_0000) by (bit_vector)
            requires
                a0 < 0x100,
                a1 < 0x100,
                a2 < 0x100,
                a3 < 0x100,
        ;
        a0 | a1 << 8 | a2 << 16 | a3 << 24
    }

    /// The mask that selects this core among the eight of its cluster: bit
    /// `aff0` alone is set. The mask has eight bits, so a core whose `aff0`
    /// is 8 or more has no place in it.
    pub fn cpu_target_list(&self) -> (mask: u8)
        requires
            self.aff0 < 8,
        ensures
            mask == pow2(self.aff0 as nat),
    {
        let shift: u8 = self.aff0;
        proof {
            lemma2_to64();
            lemma_pow2_strictly_increases(shift as nat, 8);
            lemma_u8_shl_is_mul(1u8, shift);
        }
        1u8 << shift
    }
}

impl From<MPID> for CPUTarget {
    /// Takes the affinity fields of a register value that was read; of its
    /// wide `aff3` field the low byte is kept.
    fn from(value: MPID) -> (target: CPUTarget)
        ensures
            target == CPUTarget::from_mpid(value),
    {
        let aff3: u32 = value.aff3;
        assert(aff3 & 0xff == aff3 % 0x100) by (bit_vector);
        CPUTarget {
            aff0: value.aff0,
            aff1: value.aff1,
            aff2: value.aff2,
            aff3: (aff3 & 0xff) as u8,
        }
    }
}

impl FromSpecImpl<MPID> for CPUTarget {
    open spec fn obeys_from_spec() -> bool {
        true
    }

    open spec fn from_spec(value: MPID) -> CPUTarget {
        CPUTarget::from_mpid(value)
    }
}

/// The value of the affinity register whose byte 0 is `aff0`, byte 1 `aff1`,
/// byte 2 `aff2`, byte 3 `flag`, and whose bytes 4 to 7 hold `aff3`.
pub open spec fn register_value(aff0: u8, aff1: u8, aff2: u8, flag: u8, aff3: u32) -> nat {
    (aff0 + aff1 * 0x100 + aff2 * 0x1_0000 + flag * 0x100_0000 + aff3 * 0x1_0000_0000) as nat
}

/// The multiprocessor affinity register as it is read from the hardware.
///
/// `aff3` has the width of the register's upper half; the hardware fills its
/// low byte only.
pub struct MPID {
    pub aff0: u8,
    pub aff1: u8,
    pub aff2: u8,
    /// Byte 3 of the register, which holds no affinity.
    pub _flag: u8,
    pub aff3: u32,
}

impl MPID {
    /// The fields of the register value `value`: byte 0 is `aff0`, byte 1
    /// `aff1`, byte 2 `aff2`, byte 3 `_flag`, and bytes 4 to 7 are `aff3`.
    pub open spec fn from_register(value: u64) -> Self {
        MPID {
            aff0: (value % 0x100) as u8,
            aff1: (value / 0x100 % 0x100) as u8,
            aff2: (value / 0x1_0000 % 0x100) as u8,
            _flag: (value / 0x100_0000 % 0x100) as u8,
            aff3: (value / 0x1_0000_0000) as u32,
        }
    }
}

impl View for MPID {
    type V = nat;

    /// The value of the register.
    open spec fn view(&self) -> nat {
        register_value(self.aff0, self.aff1, self.aff2, self._flag, self.aff3)
    }
}

impl From<u64> for MPID {
    /// Splits a value read from the affinity register into its fields.
    fn from(value: u64) -> (mpid: MPID)
        ensures
            mpid == MPID::from_register(value),
            mpid@ == value,
    {
        let b0: u64 = value & 0xff;
        let b1: u64 = (value >> 8) & 0xff;
        let b2: u64 = (value >> 16) & 0xff;
        let b3: u64 = (value >> 24) & 0xff;
        let hi: u64 = value >> 32;
        assert(b0 == value % 0x100 && b1 == value / 0x100 % 0x100 && b2 == value / 0x1_0000 % 0x100
            && b3 == value / 0x100_0000 % 0x100 && hi == value / 0x1_0000_0000 && hi
            <= 0xffff_ffff) by (bit_vector)
            requires
                b0 == value & 0xff,
                b1 == (value >> 8) & 0xff,
                b2 == (value >> 16) & 0xff,
                b3 == (value >> 24) & 0xff,
                hi == value >> 32,
        ;
        proof {
            lemma_split_keeps_register_value(value);
        }
        MPID { aff0: b0 as u8, aff1: b1 as u8, aff2: b2 as u8, _flag: b3 as u8, aff3: hi as u32 }
    }
}

impl FromSpecImpl<u64> for MPID {
    open spec fn obeys_from_spec() -> bool {
        true
    }

    open spec fn from_spec(value: u64) -> MPID {
        MPID::from_register(value)
    }
}

impl From<usize> for MPID {
    /// Splits a value read from the affinity register into its fields.
    fn from(value: usize) -> (mpid: MPID)
        ensures
            mpid == MPID::from_register(value as u64),
            mpid@ == value,
    {
        MPID::from(value as u64)
    }
}

impl FromSpecImpl<usize> for MPID {
    open spec fn obeys_from_spec() -> bool {
        true
    }

    open spec fn from_spec(value: usize) -> MPID {
        MPID::from_register(value as u64)
    }
}

/// The register value that is split into an `MPID` is the value that the
/// `MPID` stands for: no bit of the register is lost or moved.
pub proof fn lemma_split_keeps_register_value(value: u64)
    ensures
        MPID::from_register(value)@ == value,
{
    assert(value % 0x100 + value / 0x100 % 0x100 * 0x100 + value / 0x1_0000 % 0x100 * 0x1_0000
        + value / 0x100_0000 % 0x100 * 0x100_0000 + value / 0x1_0000_0000 * 0x1_0000_0000
        == value) by (bit_vector);
    assert(value / 0x1_0000_0000 <= 0xffff_ffff) by (bit_vector);
}

/// Packing affinity fields into the register layout, splitting the value and
/// taking the core's address from it gives the fields back: `aff0`, `aff1`
/// and `aff2` as they were, and of `aff3` the low byte.
pub proof fn lemma_register_round_trip(aff0: u8, aff1: u8, aff2: u8, flag: u8, aff3: u32)
    ensures
        register_value(aff0, aff1, aff2, flag, aff3) <= u64::MAX,
        MPID::from_register(register_value(aff0, aff1, aff2, flag, aff3) as u64)
            == (MPID { aff0, aff1, aff2, _flag: flag, aff3 }),
        CPUTarget::from_mpid(
            MPID::from_register(register_value(aff0, aff1, aff2, flag, aff3) as u64),
        ) == (CPUTarget { aff0, aff1, aff2, aff3: (aff3 % 0x100) as u8 }),
{
    let raw: u64 = register_value(aff0, aff1, aff2, flag, aff3) as u64;
    assert(raw % 0x100 == aff0 && raw / 0x100 % 0x100 == aff1 && raw / 0x1_0000 % 0x100 == aff2
        && raw / 0x100_0000 % 0x100 == flag && raw / 0x1_0000_0000 == aff3) by (bit_vector)
        requires
            raw == aff0 + aff1 * 0x100 + aff2 * 0x1_0000 + flag * 0x100_0000 + aff3
                * 0x1_0000_0000,
    ;
}

} // verus!
