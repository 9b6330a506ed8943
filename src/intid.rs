//! Interrupt identities and their classification.

use vstd::prelude::*;

verus! {

/// First identity of the software-generated interrupts.
pub const SGI_START: u32 = 0;

/// First identity of the peripheral-private interrupts.
pub const PPI_START: u32 = 16;

/// First identity of the shared-peripheral interrupts.
pub const SPI_START: u32 = 32;

/// First of the reserved identities, which mean "no interrupt" or a spurious one.
pub const SPECIAL_START: u32 = 1020;

/// An identity that names a software-generated interrupt.
pub open spec fn is_sgi_id(n: u32) -> bool {
    SGI_START <= n < PPI_START
}

/// An identity that names a peripheral-private interrupt.
pub open spec fn is_ppi_id(n: u32) -> bool {
    PPI_START <= n < SPI_START
}

/// An identity that names a shared-peripheral interrupt.
pub open spec fn is_spi_id(n: u32) -> bool {
    SPI_START <= n < SPECIAL_START
}

/// An identity routed through the redistributor's private frame.
pub open spec fn is_private_id(n: u32) -> bool {
    n < SPI_START
}

/// The identity of an interrupt, always below [`SPECIAL_START`].
#[derive(Clone, Copy, Debug, PartialEq, Eq)]
pub struct IntId(u32);

impl View for IntId {
    type V = u32;

    closed spec fn view(&self) -> u32 {
        self.0
    }
}

impl IntId {
    #[verifier::type_invariant]
    spec fn inv(self) -> bool {
        self.0 < SPECIAL_START
    }

    /// The identity of software-generated interrupt `n`.
    pub fn sgi(n: u32) -> (r: IntId)
        requires
            n < PPI_START - SGI_START,
        ensures
            r@ == SGI_START + n,
    {
        IntId(SGI_START + n)
    }

    /// The identity of peripheral-private interrupt `n`.
    pub fn ppi(n: u32) -> (r: IntId)
        requires
            n < SPI_START - PPI_START,
        ensures
            r@ == PPI_START + n,
    {
        IntId(PPI_START + n)
    }

    /// The identity of shared-peripheral interrupt `n`.
    pub fn spi(n: u32) -> (r: IntId)
        requires
            n < SPECIAL_START - SPI_START,
        ensures
            r@ == SPI_START + n,
    {
        IntId(SPI_START + n)
    }

    /// The identity for a raw value, or `None` where the value is not below
    /// [`SPECIAL_START`].
    pub fn from_raw(n: u32) -> (r: Option<IntId>)
        ensures
            r is Some <==> n < SPECIAL_START,
            r matches Some(id) ==> id@ == n,
    {
        if n < SPECIAL_START {
            Some(IntId(n))
        } else {
            None
        }
    }

    /// The raw value of the identity.
    pub fn to_u32(self) -> (r: u32)
        ensures
            r == self@,
            r < SPECIAL_START,
    {
        proof {
            use_type_invariant(&self);
        }
        self.0
    }

    /// Whether this is a software-generated interrupt.
    pub fn is_sgi(self) -> (r: bool)
        ensures
            r == is_sgi_id(self@),
    {
        self.0 < PPI_START
    }

    /// Whether this is a peripheral-private interrupt.
    pub fn is_ppi(self) -> (r: bool)
        ensures
            r == is_ppi_id(self@),
    {
        PPI_START <= self.0 && self.0 < SPI_START
    }

    /// Whether this is a shared-peripheral interrupt.
    pub fn is_spi(self) -> (r: bool)
        ensures
            r == is_spi_id(self@),
    {
        proof {
            use_type_invariant(&self);
        }
        SPI_START <= self.0
    }

    /// Whether this interrupt is private to a core, that is software-generated or
    /// peripheral-private.
    pub fn is_private(self) -> (r: bool)
        ensures
            r == is_private_id(self@),
    {
        self.0 < SPI_START
    }
}

/// Every identity below [`SPECIAL_START`] is exactly one of software-generated,
/// peripheral-private and shared-peripheral, and it is private exactly when it
/// is one of the first two.
pub proof fn lemma_classification_partition(n: u32)
    requires
        n < SPECIAL_START,
    ensures
        is_sgi_id(n) || is_ppi_id(n) || is_spi_id(n),
        !(is_sgi_id(n) && is_ppi_id(n)),
        !(is_sgi_id(n) && is_spi_id(n)),
        !(is_ppi_id(n) && is_spi_id(n)),
        is_private_id(n) <==> (is_sgi_id(n) || is_ppi_id(n)),
{
}

/// How an interrupt is triggered.
#[derive(Clone, Copy, Debug, PartialEq, Eq, Structural)]
pub enum Trigger {
    /// Edge-triggered.
    Edge,
    /// Level-triggered.
    Level,
}

} // verus!
