//! The interrupt identifier space: the numbers 0 to 1023, in four categories.

use crate::decimal::{append_decimal, decimal};
use vstd::prelude::*;
use vstd::std_specs::convert::FromSpecImpl;
use vstd::string::StringExecFns;

verus! {

/// Interrupt IDs 0-15 are Software Generated Interrupts, which a core raises
/// by a register write to signal other cores.
pub const SGI_START: u32 = 0;

/// One past the last Software Generated Interrupt.
pub const SGI_END: u32 = 16;

/// Interrupt IDs 16-31 are Private Peripheral Interrupts, specific to a single
/// core.
pub const PPI_START: u32 = 16;

/// One past the last Private Peripheral Interrupt.
pub const PPI_END: u32 = 32;

/// Interrupt IDs 32-1019 are Shared Peripheral Interrupts, which the
/// distributor can route to any of a set of cores.
pub const SPI_START: u32 = 32;

/// One past the last Shared Peripheral Interrupt.
pub const SPI_END: u32 = 1020;

/// Interrupt IDs 1020-1023 are reserved for special purposes.
pub const SPECIAL_START: u32 = 1020;

/// One past the last interrupt ID.
pub const SPECIAL_END: u32 = 1024;

/// An interrupt ID.
///
/// Every value that executable code holds is below [`SPECIAL_END`]: the
/// constructors admit nothing else, and the number cannot be changed
/// afterwards.
#[derive(Copy, Clone, Eq, Ord, PartialOrd, PartialEq, Structural)]
pub struct IntId(u32);

impl View for IntId {
    type V = nat;

    /// The number of the interrupt.
    closed spec fn view(&self) -> nat {
        self.0 as nat
    }
}

impl IntId {
    /// What holds of every ID that executable code holds: its number is in
    /// the ID space.
    #[verifier::type_invariant]
    pub open spec fn in_id_space(&self) -> bool {
        self@ < SPECIAL_END
    }

    /// The ID with the number `id`.
    pub closed spec fn spec_raw(id: u32) -> Self {
        IntId(id)
    }

    /// The ID of the `sgi`-th Software Generated Interrupt.
    pub open spec fn spec_sgi(sgi: u32) -> Self {
        Self::spec_raw(sgi)
    }

    /// The ID of the `ppi`-th Private Peripheral Interrupt.
    pub open spec fn spec_ppi(ppi: u32) -> Self {
        Self::spec_raw((PPI_START + ppi) as u32)
    }

    /// The ID of the `spi`-th Shared Peripheral Interrupt.
    pub open spec fn spec_spi(spi: u32) -> Self {
        Self::spec_raw((SPI_START + spi) as u32)
    }

    /// Whether the ID lies in the SGI range.
    pub open spec fn spec_is_sgi(&self) -> bool {
        self@ < SGI_END
    }

    /// Whether the ID lies below the SPI range.
    pub open spec fn spec_is_private(&self) -> bool {
        self@ < SPI_START
    }

    /// The number of the interrupt as a `u32`.
    pub open spec fn spec_to_u32(&self) -> u32 {
        self@ as u32
    }

    /// The text that [`IntId::debug_string`] gives: the name of the range the
    /// ID lies in, followed by its offset in that range for an SGI, PPI or
    /// SPI, and by the ID itself otherwise.
    pub open spec fn spec_debug_string(&self) -> Seq<char> {
        if self@ < SGI_END {
            "SGI "@ + decimal((self@ - SGI_START) as nat)
        } else if self@ < PPI_END {
            "PPI "@ + decimal((self@ - PPI_START) as nat)
        } else if self@ < SPI_END {
            "SPI "@ + decimal((self@ - SPI_START) as nat)
        } else if self@ < SPECIAL_END {
            "Special IntId"@ + decimal(self@)
        } else {
            "Invalid IntId"@ + decimal(self@)
        }
    }

    /// Create a new `IntId` from a raw ID, such as one read back from the
    /// controller.
    #[verifier::when_used_as_spec(spec_raw)]
    pub fn raw(id: u32) -> (intid: Self)
        requires
            id < SPECIAL_END,
        ensures
            intid == Self::spec_raw(id),
            intid@ == id,
    {
        IntId(id)
    }

    /// Returns the interrupt ID for the given Software Generated Interrupt.
    #[verifier::when_used_as_spec(spec_sgi)]
    pub fn sgi(sgi: u32) -> (intid: Self)
        requires
            sgi < SGI_END,
        ensures
            intid == Self::spec_sgi(sgi),
            intid@ == sgi,
    {
        IntId(sgi)
    }

    /// Returns the interrupt ID for the given Private Peripheral Interrupt.
    #[verifier::when_used_as_spec(spec_ppi)]
    pub fn ppi(ppi: u32) -> (intid: Self)
        requires
            ppi < PPI_END - PPI_START,
        ensures
            intid == Self::spec_ppi(ppi),
            intid@ == PPI_START + ppi,
    {
        IntId(PPI_START + ppi)
    }

    /// Returns the interrupt ID for the given Shared Peripheral Interrupt.
    #[verifier::when_used_as_spec(spec_spi)]
    pub fn spi(spi: u32) -> (intid: Self)
        requires
            spi < SPI_END - SPI_START,
        ensures
            intid == Self::spec_spi(spi),
            intid@ == SPI_START + spi,
    {
        IntId(SPI_START + spi)
    }

    /// Returns whether this interrupt ID is for a Software Generated Interrupt.
    #[verifier::when_used_as_spec(spec_is_sgi)]
    pub fn is_sgi(&self) -> (sgi: bool)
        ensures
            sgi == self.spec_is_sgi(),
    {
        self.0 < SGI_END
    }

    /// Returns whether this interrupt ID is private to a core, i.e. it is an
    /// SGI or PPI.
    #[verifier::when_used_as_spec(spec_is_private)]
    pub fn is_private(&self) -> (private: bool)
        ensures
            private == self.spec_is_private(),
    {
        self.0 < SPI_START
    }

    /// Returns the number of the interrupt.
    #[verifier::when_used_as_spec(spec_to_u32)]
    pub fn to_u32(&self) -> (id: u32)
        ensures
            id == self.spec_to_u32(),
            id == self@,
            id < SPECIAL_END,
    {
        proof {
            use_type_invariant(self);
        }
        self.0
    }

    /// Renders the ID for diagnostics: `SGI 5`, `PPI 4`, `SPI 68`,
    /// `Special IntId1021`. No ID is rendered as invalid.
    pub fn debug_string(&self) -> (text: String)
        ensures
            text@ == self.spec_debug_string(),
            !"Invalid"@.is_prefix_of(text@),
    {
        proof {
            use_type_invariant(self);
            lemma_id_never_renders_invalid(*self);
        }
        let id: u32 = self.0;
        if id < SGI_END {
            let mut text = String::from_str("SGI ");
            append_decimal(&mut text, id - SGI_START);
            text
        } else if id < PPI_END {
            let mut text = String::from_str("PPI ");
            append_decimal(&mut text, id - PPI_START);
            text
        } else if id < SPI_END {
            let mut text = String::from_str("SPI ");
            append_decimal(&mut text, id - SPI_START);
            text
        } else {
            let mut text = String::from_str("Special IntId");
            append_decimal(&mut text, id);
            text
        }
    }
}

impl From<IntId> for u32 {
    fn from(intid: IntId) -> (id: u32)
        ensures
            id == intid@,
            id < SPECIAL_END,
    {
        intid.to_u32()
    }
}

impl FromSpecImpl<IntId> for u32 {
    open spec fn obeys_from_spec() -> bool {
        true
    }

    open spec fn from_spec(intid: IntId) -> u32 {
        intid.spec_to_u32()
    }
}

/// Every number below 1024 gives, by `raw`, an ID whose `to_u32` is that
/// number again.
pub proof fn lemma_raw_to_u32(id: u32)
    requires
        id < SPECIAL_END,
    ensures
        IntId::raw(id)@ == id,
        IntId::raw(id).to_u32() == id,
        IntId::raw(id).in_id_space(),
{
}

/// Each of the sixteen Software Generated Interrupts has an ID that is an SGI
/// and is private to a core.
pub proof fn lemma_sgi_is_sgi_and_private(sgi: u32)
    requires
        sgi < 16,
    ensures
        IntId::sgi(sgi).is_sgi(),
        IntId::sgi(sgi).is_private(),
        IntId::sgi(sgi)@ == sgi,
{
}

/// Each of the sixteen Private Peripheral Interrupts has an ID from 16 to 31,
/// which is private to a core and is no SGI.
pub proof fn lemma_ppi_is_private_not_sgi(ppi: u32)
    requires
        ppi < 16,
    ensures
        !IntId::ppi(ppi).is_sgi(),
        IntId::ppi(ppi).is_private(),
        IntId::ppi(ppi)@ == 16 + ppi,
{
}

/// Each of the 988 Shared Peripheral Interrupts has an ID from 32 to 1019,
/// which is neither private to a core nor an SGI.
pub proof fn lemma_spi_is_not_private(spi: u32)
    requires
        spi < 988,
    ensures
        !IntId::spi(spi).is_private(),
        !IntId::spi(spi).is_sgi(),
        IntId::spi(spi)@ == 32 + spi,
        IntId::spi(spi)@ < SPI_END,
{
}

/// No ID in the ID space is rendered as invalid: its text starts with the
/// name of the one range that it lies in.
pub proof fn lemma_id_never_renders_invalid(intid: IntId)
    requires
        intid.in_id_space(),
    ensures
        !"Invalid"@.is_prefix_of(intid.spec_debug_string()),
        "SGI "@.is_prefix_of(intid.spec_debug_string()) <==> intid@ < 16,
        "PPI "@.is_prefix_of(intid.spec_debug_string()) <==> 16 <= intid@ < 32,
        "SPI "@.is_prefix_of(intid.spec_debug_string()) <==> 32 <= intid@ < 1020,
        "Special IntId"@.is_prefix_of(intid.spec_debug_string()) <==> 1020 <= intid@,
{
    reveal_strlit("Invalid");
    reveal_strlit("SGI ");
    reveal_strlit("PPI ");
    reveal_strlit("SPI ");
    reveal_strlit("Special IntId");
    let text = intid.spec_debug_string();
    if intid@ < 16 {
        assert(text.subrange(0, 4) =~= "SGI "@);
        assert(text[0] == 'S' && text[1] == 'G');
    } else if intid@ < 32 {
        assert(text.subrange(0, 4) =~= "PPI "@);
        assert(text[0] == 'P');
    } else if intid@ < 1020 {
        assert(text.subrange(0, 4) =~= "SPI "@);
        assert(text[0] == 'S' && text[1] == 'P');
    } else {
        assert(text.subrange(0, 13) =~= "Special IntId"@);
        assert(text[0] == 'S' && text[1] == 'p');
    }
}

} // verus!
