//! Values of the *System Control Register* (SCTLR).

use vstd::prelude::*;

use crate::register::text::{bit_text, push_bit, push_str};

use crate::bits::{bit_of, with_bit};

verus! {

/// A value of the *System Control Register* (SCTLR).
#[derive(Clone, Copy, Debug, PartialEq, Eq, Structural)]
pub struct Sctlr(pub u32);

impl Sctlr {
    /// The bitmask for the N bit.
    pub const N_BIT: u32 = 1u32 << 31;

    /// The bitmask for the Instruction Endianness bit.
    const IE_BIT: u32 = 1u32 << 31;

    /// The bitmask for the Thumb Exception Enable bit.
    const TE_BIT: u32 = 1u32 << 30;

    /// The bitmask for the Non-Maskable FIQ bit.
    const NMFI_BIT: u32 = 1u32 << 27;

    /// The bitmask for the Exception Endianness bit.
    const EE_BIT: u32 = 1u32 << 25;

    /// The bitmask for the U bit.
    const U_BIT: u32 = 1u32 << 22;

    /// The bitmask for the Fast Interrupt bit.
    const FI_BIT: u32 = 1u32 << 21;

    /// The bitmask for the Divide by Zero Fault bit.
    const DZ_BIT: u32 = 1u32 << 18;

    /// The bitmask for the Background Region bit.
    const BR_BIT: u32 = 1u32 << 17;

    /// The bitmask for the Round Robin bit.
    const RR_BIT: u32 = 1u32 << 14;

    /// The bitmask for the Exception Vector Table bit.
    const V_BIT: u32 = 1u32 << 13;

    /// The bitmask for the Instruction Cache enable bit.
    const I_BIT: u32 = 1u32 << 12;

    /// The bitmask for the Branch Prediction enable bit.
    const Z_BIT: u32 = 1u32 << 11;

    /// The bitmask for the SWP bit.
    const SW_BIT: u32 = 1u32 << 10;

    /// The bitmask for the Cache enable bit.
    const C_BIT: u32 = 1u32 << 2;

    /// The bitmask for the Alignment check bit.
    const A_BIT: u32 = 1u32 << 1;

    /// The bitmask for the MPU bit.
    const M_BIT: u32 = 1u32 << 0;

    /// Is the IE bit set?
    pub fn ie(self) -> (r: bool)
        ensures
            r == bit_of(self.0, 31),
    {
        (self.0 & Self::IE_BIT) != 0
    }

    /// Set the IE bit.
    pub fn set_ie(&mut self)
        ensures
            final(self).0 == with_bit(old(self).0, 31, true),
    {
        self.0 = self.0 | Self::IE_BIT;
    }

    /// Clear the IE bit.
    pub fn clear_ie(&mut self)
        ensures
            final(self).0 == with_bit(old(self).0, 31, false),
    {
        self.0 = self.0 & !Self::IE_BIT;
    }

    /// Is the TE bit set?
    pub fn te(self) -> (r: bool)
        ensures
            r == bit_of(self.0, 30),
    {
        (self.0 & Self::TE_BIT) != 0
    }

    /// Set the TE bit.
    pub fn set_te(&mut self)
        ensures
            final(self).0 == with_bit(old(self).0, 30, true),
    {
        self.0 = self.0 | Self::TE_BIT;
    }

    /// Clear the TE bit.
    pub fn clear_te(&mut self)
        ensures
            final(self).0 == with_bit(old(self).0, 30, false),
    {
        self.0 = self.0 & !Self::TE_BIT;
    }

    /// Is the NMFI bit set?
    pub fn nmfi(self) -> (r: bool)
        ensures
            r == bit_of(self.0, 27),
    {
        (self.0 & Self::NMFI_BIT) != 0
    }

    /// Set the NMFI bit.
    pub fn set_nmfi(&mut self)
        ensures
            final(self).0 == with_bit(old(self).0, 27, true),
    {
        self.0 = self.0 | Self::NMFI_BIT;
    }

    /// Clear the NMFI bit.
    pub fn clear_nmfi(&mut self)
        ensures
            final(self).0 == with_bit(old(self).0, 27, false),
    {
        self.0 = self.0 & !Self::NMFI_BIT;
    }

    /// Is the EE bit set?
    pub fn ee(self) -> (r: bool)
        ensures
            r == bit_of(self.0, 25),
    {
        (self.0 & Self::EE_BIT) != 0
    }

    /// Set the EE bit.
    pub fn set_ee(&mut self)
        ensures
            final(self).0 == with_bit(old(self).0, 25, true),
    {
        self.0 = self.0 | Self::EE_BIT;
    }

    /// Clear the EE bit.
    pub fn clear_ee(&mut self)
        ensures
            final(self).0 == with_bit(old(self).0, 25, false),
    {
        self.0 = self.0 & !Self::EE_BIT;
    }

    /// Is the U bit set?
    pub fn u(self) -> (r: bool)
        ensures
            r == bit_of(self.0, 22),
    {
        (self.0 & Self::U_BIT) != 0
    }

    /// Set the U bit.
    pub fn set_u(&mut self)
        ensures
            final(self).0 == with_bit(old(self).0, 22, true),
    {
        self.0 = self.0 | Self::U_BIT;
    }

    /// Clear the U bit.
    pub fn clear_u(&mut self)
        ensures
            final(self).0 == with_bit(old(self).0, 22, false),
    {
        self.0 = self.0 & !Self::U_BIT;
    }

    /// Is the FI bit set?
    pub fn fi(self) -> (r: bool)
        ensures
            r == bit_of(self.0, 21),
    {
        (self.0 & Self::FI_BIT) != 0
    }

    /// Set the FI bit.
    pub fn set_fi(&mut self)
        ensures
            final(self).0 == with_bit(old(self).0, 21, true),
    {
        self.0 = self.0 | Self::FI_BIT;
    }

    /// Clear the FI bit.
    pub fn clear_fi(&mut self)
        ensures
            final(self).0 == with_bit(old(self).0, 21, false),
    {
        self.0 = self.0 & !Self::FI_BIT;
    }

    /// Is the DZ bit set?
    pub fn dz(self) -> (r: bool)
        ensures
            r == bit_of(self.0, 18),
    {
        (self.0 & Self::DZ_BIT) != 0
    }

    /// Set the DZ bit.
    pub fn set_dz(&mut self)
        ensures
            final(self).0 == with_bit(old(self).0, 18, true),
    {
        self.0 = self.0 | Self::DZ_BIT;
    }

    /// Clear the DZ bit.
    pub fn clear_dz(&mut self)
        ensures
            final(self).0 == with_bit(old(self).0, 18, false),
    {
        self.0 = self.0 & !Self::DZ_BIT;
    }

    /// Is the BR bit set?
    pub fn br(self) -> (r: bool)
        ensures
            r == bit_of(self.0, 17),
    {
        (self.0 & Self::BR_BIT) != 0
    }

    /// Set the BR bit.
    pub fn set_br(&mut self)
        ensures
            final(self).0 == with_bit(old(self).0, 17, true),
    {
        self.0 = self.0 | Self::BR_BIT;
    }

    /// Clear the BR bit.
    pub fn clear_br(&mut self)
        ensures
            final(self).0 == with_bit(old(self).0, 17, false),
    {
        self.0 = self.0 & !Self::BR_BIT;
    }

    /// Is the RR bit set?
    pub fn rr(self) -> (r: bool)
        ensures
            r == bit_of(self.0, 14),
    {
        (self.0 & Self::RR_BIT) != 0
    }

    /// Set the RR bit.
    pub fn set_rr(&mut self)
        ensures
            final(self).0 == with_bit(old(self).0, 14, true),
    {
        self.0 = self.0 | Self::RR_BIT;
    }

    /// Clear the RR bit.
    pub fn clear_rr(&mut self)
        ensures
            final(self).0 == with_bit(old(self).0, 14, false),
    {
        self.0 = self.0 & !Self::RR_BIT;
    }

    /// Is the V bit set?
    pub fn v(self) -> (r: bool)
        ensures
            r == bit_of(self.0, 13),
    {
        (self.0 & Self::V_BIT) != 0
    }

    /// Set the V bit.
    pub fn set_v(&mut self)
        ensures
            final(self).0 == with_bit(old(self).0, 13, true),
    {
        self.0 = self.0 | Self::V_BIT;
    }

    /// Clear the V bit.
    pub fn clear_v(&mut self)
        ensures
            final(self).0 == with_bit(old(self).0, 13, false),
    {
        self.0 = self.0 & !Self::V_BIT;
    }

    /// Is the I bit set?
    pub fn i(self) -> (r: bool)
        ensures
            r == bit_of(self.0, 12),
    {
        (self.0 & Self::I_BIT) != 0
    }

    /// Set the I bit.
    pub fn set_i(&mut self)
        ensures
            final(self).0 == with_bit(old(self).0, 12, true),
    {
        self.0 = self.0 | Self::I_BIT;
    }

    /// Clear the I bit.
    pub fn clear_i(&mut self)
        ensures
            final(self).0 == with_bit(old(self).0, 12, false),
    {
        self.0 = self.0 & !Self::I_BIT;
    }

    /// Is the Z bit set?
    pub fn z(self) -> (r: bool)
        ensures
            r == bit_of(self.0, 11),
    {
        (self.0 & Self::Z_BIT) != 0
    }

    /// Set the Z bit.
    pub fn set_z(&mut self)
        ensures
            final(self).0 == with_bit(old(self).0, 11, true),
    {
        self.0 = self.0 | Self::Z_BIT;
    }

    /// Clear the Z bit.
    pub fn clear_z(&mut self)
        ensures
            final(self).0 == with_bit(old(self).0, 11, false),
    {
        self.0 = self.0 & !Self::Z_BIT;
    }

    /// Is the SW bit set?
    pub fn sw(self) -> (r: bool)
        ensures
            r == bit_of(self.0, 10),
    {
        (self.0 & Self::SW_BIT) != 0
    }

    /// Set the SW bit.
    pub fn set_sw(&mut self)
        ensures
            final(self).0 == with_bit(old(self).0, 10, true),
    {
        self.0 = self.0 | Self::SW_BIT;
    }

    /// Clear the SW bit.
    pub fn clear_sw(&mut self)
        ensures
            final(self).0 == with_bit(old(self).0, 10, false),
    {
        self.0 = self.0 & !Self::SW_BIT;
    }

    /// Is the C bit set?
    pub fn c(self) -> (r: bool)
        ensures
            r == bit_of(self.0, 2),
    {
        (self.0 & Self::C_BIT) != 0
    }

    /// Set the C bit.
    pub fn set_c(&mut self)
        ensures
            final(self).0 == with_bit(old(self).0, 2, true),
    {
        self.0 = self.0 | Self::C_BIT;
    }

    /// Clear the C bit.
    pub fn clear_c(&mut self)
        ensures
            final(self).0 == with_bit(old(self).0, 2, false),
    {
        self.0 = self.0 & !Self::C_BIT;
    }

    /// Is the A bit set?
    pub fn a(self) -> (r: bool)
        ensures
            r == bit_of(self.0, 1),
    {
        (self.0 & Self::A_BIT) != 0
    }

    /// Set the A bit.
    pub fn set_a(&mut self)
        ensures
            final(self).0 == with_bit(old(self).0, 1, true),
    {
        self.0 = self.0 | Self::A_BIT;
    }

    /// Clear the A bit.
    pub fn clear_a(&mut self)
        ensures
            final(self).0 == with_bit(old(self).0, 1, false),
    {
        self.0 = self.0 & !Self::A_BIT;
    }

    /// Is the M bit set?
    pub fn m(self) -> (r: bool)
        ensures
            r == bit_of(self.0, 0),
    {
        (self.0 & Self::M_BIT) != 0
    }

    /// Set the M bit.
    pub fn set_m(&mut self)
        ensures
            final(self).0 == with_bit(old(self).0, 0, true),
    {
        self.0 = self.0 | Self::M_BIT;
    }

    /// Clear the M bit.
    pub fn clear_m(&mut self)
        ensures
            final(self).0 == with_bit(old(self).0, 0, false),
    {
        self.0 = self.0 & !Self::M_BIT;
    }

    /// The value as diagnostics print it, such as
    /// `SCTLR { IE=0 TE=0 NMFI=0 EE=0 U=0 FI=0 DZ=0 BR=0 RR=0 V=0 I=1 Z=1 SW=0 C=1 A=0 M=0 }`.
    pub fn debug_string(self) -> (r: String)
        ensures
            r@ == sctlr_text(self),
    {
        let mut s = "SCTLR { IE=".to_owned();
        push_bit(&mut s, self.ie());
        push_str(&mut s, " TE=");
        push_bit(&mut s, self.te());
        push_str(&mut s, " NMFI=");
        push_bit(&mut s, self.nmfi());
        push_str(&mut s, " EE=");
        push_bit(&mut s, self.ee());
        push_str(&mut s, " U=");
        push_bit(&mut s, self.u());
        push_str(&mut s, " FI=");
        push_bit(&mut s, self.fi());
        push_str(&mut s, " DZ=");
        push_bit(&mut s, self.dz());
        push_str(&mut s, " BR=");
        push_bit(&mut s, self.br());
        push_str(&mut s, " RR=");
        push_bit(&mut s, self.rr());
        push_str(&mut s, " V=");
        push_bit(&mut s, self.v());
        push_str(&mut s, " I=");
        push_bit(&mut s, self.i());
        push_str(&mut s, " Z=");
        push_bit(&mut s, self.z());
        push_str(&mut s, " SW=");
        push_bit(&mut s, self.sw());
        push_str(&mut s, " C=");
        push_bit(&mut s, self.c());
        push_str(&mut s, " A=");
        push_bit(&mut s, self.a());
        push_str(&mut s, " M=");
        push_bit(&mut s, self.m());
        push_str(&mut s, " }");
        s
    }
}

/// How diagnostics print a SCTLR value.
pub open spec fn sctlr_text(v: Sctlr) -> Seq<char> {
    "SCTLR { IE="@
        + bit_text(bit_of(v.0, 31))
        + " TE="@
        + bit_text(bit_of(v.0, 30))
        + " NMFI="@
        + bit_text(bit_of(v.0, 27))
        + " EE="@
        + bit_text(bit_of(v.0, 25))
        + " U="@
        + bit_text(bit_of(v.0, 22))
        + " FI="@
        + bit_text(bit_of(v.0, 21))
        + " DZ="@
        + bit_text(bit_of(v.0, 18))
        + " BR="@
        + bit_text(bit_of(v.0, 17))
        + " RR="@
        + bit_text(bit_of(v.0, 14))
        + " V="@
        + bit_text(bit_of(v.0, 13))
        + " I="@
        + bit_text(bit_of(v.0, 12))
        + " Z="@
        + bit_text(bit_of(v.0, 11))
        + " SW="@
        + bit_text(bit_of(v.0, 10))
        + " C="@
        + bit_text(bit_of(v.0, 2))
        + " A="@
        + bit_text(bit_of(v.0, 1))
        + " M="@
        + bit_text(bit_of(v.0, 0))
        + " }"@
}

} // verus!
