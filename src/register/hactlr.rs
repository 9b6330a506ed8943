//! Values of the *Hyp Auxiliary Control Register* (HACTLR).

use vstd::prelude::*;

use crate::register::text::{bit_text, push_bit, push_str};

use crate::bits::{bit_of, with_bit};

verus! {

/// A value of the *Hyp Auxiliary Control Register* (HACTLR).
#[derive(Clone, Copy, Debug, PartialEq, Eq, Structural)]
pub struct Hactlr(pub u32);

impl Hactlr {
    /// Controls access to IMP_TESTR1 at EL0 and EL1 (bit 15).
    pub fn testr1(self) -> (r: bool)
        ensures
            r == bit_of(self.0, 15),
    {
        (self.0 & (1u32 << 15u32)) != 0
    }

    /// This value with bit 15 set to `v`.
    pub fn with_testr1(self, v: bool) -> (r: Hactlr)
        ensures
            r.0 == with_bit(self.0, 15, v),
    {
        if v {
            Hactlr(self.0 | (1u32 << 15u32))
        } else {
            Hactlr(self.0 & !(1u32 << 15u32))
        }
    }

    /// Controls access to IMP_DCERR0, IMP_DCERR1, IMP_ICERR0, IMP_ICERR1,
    /// IMP_TCMERR0, IMP_TCMERR1, IMP_FLASHERR0, and IMP_FLASHERR1 registers (bit 13).
    pub fn err(self) -> (r: bool)
        ensures
            r == bit_of(self.0, 13),
    {
        (self.0 & (1u32 << 13u32)) != 0
    }

    /// This value with bit 13 set to `v`.
    pub fn with_err(self, v: bool) -> (r: Hactlr)
        ensures
            r.0 == with_bit(self.0, 13, v),
    {
        if v {
            Hactlr(self.0 | (1u32 << 13u32))
        } else {
            Hactlr(self.0 & !(1u32 << 13u32))
        }
    }

    /// Controls access to IMP_INTMONR at EL1 (bit 12).
    pub fn intmonr(self) -> (r: bool)
        ensures
            r == bit_of(self.0, 12),
    {
        (self.0 & (1u32 << 12u32)) != 0
    }

    /// This value with bit 12 set to `v`.
    pub fn with_intmonr(self, v: bool) -> (r: Hactlr)
        ensures
            r.0 == with_bit(self.0, 12, v),
    {
        if v {
            Hactlr(self.0 | (1u32 << 12u32))
        } else {
            Hactlr(self.0 & !(1u32 << 12u32))
        }
    }

    /// Controls access to IMP_BUSTIMEOUTR at EL1 (bit 10).
    pub fn bustimeoutr(self) -> (r: bool)
        ensures
            r == bit_of(self.0, 10),
    {
        (self.0 & (1u32 << 10u32)) != 0
    }

    /// This value with bit 10 set to `v`.
    pub fn with_bustimeoutr(self, v: bool) -> (r: Hactlr)
        ensures
            r.0 == with_bit(self.0, 10, v),
    {
        if v {
            Hactlr(self.0 | (1u32 << 10u32))
        } else {
            Hactlr(self.0 & !(1u32 << 10u32))
        }
    }

    /// Controls access to QOSR at EL1 (bit 9).
    pub fn qosr(self) -> (r: bool)
        ensures
            r == bit_of(self.0, 9),
    {
        (self.0 & (1u32 << 9u32)) != 0
    }

    /// This value with bit 9 set to `v`.
    pub fn with_qosr(self, v: bool) -> (r: Hactlr)
        ensures
            r.0 == with_bit(self.0, 9, v),
    {
        if v {
            Hactlr(self.0 | (1u32 << 9u32))
        } else {
            Hactlr(self.0 & !(1u32 << 9u32))
        }
    }

    /// Controls access to IMP_PERIPHPREGIONR at EL1 (bit 8).
    pub fn periphpregionr(self) -> (r: bool)
        ensures
            r == bit_of(self.0, 8),
    {
        (self.0 & (1u32 << 8u32)) != 0
    }

    /// This value with bit 8 set to `v`.
    pub fn with_periphpregionr(self, v: bool) -> (r: Hactlr)
        ensures
            r.0 == with_bit(self.0, 8, v),
    {
        if v {
            Hactlr(self.0 | (1u32 << 8u32))
        } else {
            Hactlr(self.0 & !(1u32 << 8u32))
        }
    }

    /// Controls access to IMP_FLASHIFREGIONR at EL1 (bit 7).
    pub fn flashifregionr(self) -> (r: bool)
        ensures
            r == bit_of(self.0, 7),
    {
        (self.0 & (1u32 << 7u32)) != 0
    }

    /// This value with bit 7 set to `v`.
    pub fn with_flashifregionr(self, v: bool) -> (r: Hactlr)
        ensures
            r.0 == with_bit(self.0, 7, v),
    {
        if v {
            Hactlr(self.0 | (1u32 << 7u32))
        } else {
            Hactlr(self.0 & !(1u32 << 7u32))
        }
    }

    /// Controls access to CDBGDCI at EL1 (bit 1).
    pub fn cdbgdci(self) -> (r: bool)
        ensures
            r == bit_of(self.0, 1),
    {
        (self.0 & (1u32 << 1u32)) != 0
    }

    /// This value with bit 1 set to `v`.
    pub fn with_cdbgdci(self, v: bool) -> (r: Hactlr)
        ensures
            r.0 == with_bit(self.0, 1, v),
    {
        if v {
            Hactlr(self.0 | (1u32 << 1u32))
        } else {
            Hactlr(self.0 & !(1u32 << 1u32))
        }
    }

    /// Controls write access to IMP_CPUACTLR (bit 0).
    pub fn cpuactlr(self) -> (r: bool)
        ensures
            r == bit_of(self.0, 0),
    {
        (self.0 & (1u32 << 0u32)) != 0
    }

    /// This value with bit 0 set to `v`.
    pub fn with_cpuactlr(self, v: bool) -> (r: Hactlr)
        ensures
            r.0 == with_bit(self.0, 0, v),
    {
        if v {
            Hactlr(self.0 | (1u32 << 0u32))
        } else {
            Hactlr(self.0 & !(1u32 << 0u32))
        }
    }

    /// The value as diagnostics print it, such as
    /// `HACTLR { CPUACTLR=1, CDBGDCI=0, FLASHIFREGIONR=0, PERIPHPREGIONR=0, QOSR=0, BUSTIMEOUTR=0, INTMONR=0, ERR=0, TESTR1=0 }`.
    pub fn debug_string(self) -> (r: String)
        ensures
            r@ == hactlr_text(self),
    {
        let mut s = "HACTLR { CPUACTLR=".to_owned();
        push_bit(&mut s, self.cpuactlr());
        push_str(&mut s, ", CDBGDCI=");
        push_bit(&mut s, self.cdbgdci());
        push_str(&mut s, ", FLASHIFREGIONR=");
        push_bit(&mut s, self.flashifregionr());
        push_str(&mut s, ", PERIPHPREGIONR=");
        push_bit(&mut s, self.periphpregionr());
        push_str(&mut s, ", QOSR=");
        push_bit(&mut s, self.qosr());
        push_str(&mut s, ", BUSTIMEOUTR=");
        push_bit(&mut s, self.bustimeoutr());
        push_str(&mut s, ", INTMONR=");
        push_bit(&mut s, self.intmonr());
        push_str(&mut s, ", ERR=");
        push_bit(&mut s, self.err());
        push_str(&mut s, ", TESTR1=");
        push_bit(&mut s, self.testr1());
        push_str(&mut s, " }");
        s
    }
}

/// How diagnostics print a HACTLR value.
pub open spec fn hactlr_text(v: Hactlr) -> Seq<char> {
    "HACTLR { CPUACTLR="@
        + bit_text(bit_of(v.0, 0))
        + ", CDBGDCI="@
        + bit_text(bit_of(v.0, 1))
        + ", FLASHIFREGIONR="@
        + bit_text(bit_of(v.0, 7))
        + ", PERIPHPREGIONR="@
        + bit_text(bit_of(v.0, 8))
        + ", QOSR="@
        + bit_text(bit_of(v.0, 9))
        + ", BUSTIMEOUTR="@
        + bit_text(bit_of(v.0, 10))
        + ", INTMONR="@
        + bit_text(bit_of(v.0, 12))
        + ", ERR="@
        + bit_text(bit_of(v.0, 13))
        + ", TESTR1="@
        + bit_text(bit_of(v.0, 15))
        + " }"@
}

} // verus!
