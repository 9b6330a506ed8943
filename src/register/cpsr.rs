//! Values of the *Current Program Status Register* (CPSR).

use vstd::prelude::*;

use crate::register::text::{bit_text, hex_text, push_bit, push_hex, push_str};

use crate::bits::bit_of;

verus! {

/// The mode field's value in Supervisor mode.
pub const SUPERVISOR_MODE: u8 = 0b10011;

/// A value of the *Current Program Status Register* (CPSR).
#[derive(Clone, Copy, Debug, PartialEq, Eq, Structural)]
pub struct Cpsr(pub u32);

impl Cpsr {
    /// The bitmask for Negative Result from ALU.
    pub const N_BIT: u32 = 1u32 << 31;

    /// The bitmask for Zero Result from ALU.
    pub const Z_BIT: u32 = 1u32 << 30;

    /// The bitmask for ALU operation Carry Out.
    pub const C_BIT: u32 = 1u32 << 29;

    /// The bitmask for ALU operation Overflow.
    pub const V_BIT: u32 = 1u32 << 28;

    /// The bitmask for Cumulative Saturation.
    pub const Q_BIT: u32 = 1u32 << 27;

    /// The bitmask for Jazelle State.
    pub const J_BIT: u32 = 1u32 << 24;

    /// The bitmask for Endianness.
    pub const E_BIT: u32 = 1u32 << 9;

    /// The bitmask for Asynchronous Aborts.
    pub const A_BIT: u32 = 1u32 << 8;

    /// The bitmask for Interrupts Enabled.
    pub const I_BIT: u32 = 1u32 << 7;

    /// The bitmask for Fast Interrupts Enabled.
    pub const F_BIT: u32 = 1u32 << 6;

    /// The bitmask for Thumb state.
    pub const T_BIT: u32 = 1u32 << 5;

    /// The bitmask for Processor Mode.
    pub const MODE_BITS: u32 = 0x1F;

    /// Is the N bit set?
    pub fn n(self) -> (r: bool)
        ensures
            r == bit_of(self.0, 31),
    {
        (self.0 & Self::N_BIT) != 0
    }

    /// Is the Z bit set?
    pub fn z(self) -> (r: bool)
        ensures
            r == bit_of(self.0, 30),
    {
        (self.0 & Self::Z_BIT) != 0
    }

    /// Is the C bit set?
    pub fn c(self) -> (r: bool)
        ensures
            r == bit_of(self.0, 29),
    {
        (self.0 & Self::C_BIT) != 0
    }

    /// Is the V bit set?
    pub fn v(self) -> (r: bool)
        ensures
            r == bit_of(self.0, 28),
    {
        (self.0 & Self::V_BIT) != 0
    }

    /// Is the Q bit set?
    pub fn q(self) -> (r: bool)
        ensures
            r == bit_of(self.0, 27),
    {
        (self.0 & Self::Q_BIT) != 0
    }

    /// Is the J bit set?
    pub fn j(self) -> (r: bool)
        ensures
            r == bit_of(self.0, 24),
    {
        (self.0 & Self::J_BIT) != 0
    }

    /// Is the E bit set?
    pub fn e(self) -> (r: bool)
        ensures
            r == bit_of(self.0, 9),
    {
        (self.0 & Self::E_BIT) != 0
    }

    /// Is the A bit set?
    pub fn a(self) -> (r: bool)
        ensures
            r == bit_of(self.0, 8),
    {
        (self.0 & Self::A_BIT) != 0
    }

    /// Is the I bit set?
    pub fn i(self) -> (r: bool)
        ensures
            r == bit_of(self.0, 7),
    {
        (self.0 & Self::I_BIT) != 0
    }

    /// Is the F bit set?
    pub fn f(self) -> (r: bool)
        ensures
            r == bit_of(self.0, 6),
    {
        (self.0 & Self::F_BIT) != 0
    }

    /// Is the T bit set?
    pub fn t(self) -> (r: bool)
        ensures
            r == bit_of(self.0, 5),
    {
        (self.0 & Self::T_BIT) != 0
    }

    /// The current mode.
    pub fn mode(self) -> (r: u8)
        ensures
            r == self.0 & Self::MODE_BITS,
    {
        let v = self.0;
        assert(v & 0x1Fu32 <= 0x1F) by (bit_vector);
        (v & Self::MODE_BITS) as u8
    }

    /// Is the core in Supervisor mode?
    pub fn is_supervisor_mode(self) -> (r: bool)
        ensures
            r == (self.0 & Self::MODE_BITS == SUPERVISOR_MODE),
    {
        self.mode() == SUPERVISOR_MODE
    }

    /// The value as diagnostics print it, such as
    /// `CPSR { N=0 Z=0 C=0 V=0 Q=0 J=0 E=0 A=1 I=1 F=1 T=0 MODE=0x13 }`.
    pub fn debug_string(self) -> (r: String)
        ensures
            r@ == cpsr_text(self),
    {
        let mut s = "CPSR { N=".to_owned();
        push_bit(&mut s, self.n());
        push_str(&mut s, " Z=");
        push_bit(&mut s, self.z());
        push_str(&mut s, " C=");
        push_bit(&mut s, self.c());
        push_str(&mut s, " V=");
        push_bit(&mut s, self.v());
        push_str(&mut s, " Q=");
        push_bit(&mut s, self.q());
        push_str(&mut s, " J=");
        push_bit(&mut s, self.j());
        push_str(&mut s, " E=");
        push_bit(&mut s, self.e());
        push_str(&mut s, " A=");
        push_bit(&mut s, self.a());
        push_str(&mut s, " I=");
        push_bit(&mut s, self.i());
        push_str(&mut s, " F=");
        push_bit(&mut s, self.f());
        push_str(&mut s, " T=");
        push_bit(&mut s, self.t());
        push_str(&mut s, " MODE=0x");
        push_hex(&mut s, self.mode() as u32);
        push_str(&mut s, " }");
        s
    }
}

/// How diagnostics print a CPSR value.
pub open spec fn cpsr_text(v: Cpsr) -> Seq<char> {
    "CPSR { N="@
        + bit_text(bit_of(v.0, 31))
        + " Z="@
        + bit_text(bit_of(v.0, 30))
        + " C="@
        + bit_text(bit_of(v.0, 29))
        + " V="@
        + bit_text(bit_of(v.0, 28))
        + " Q="@
        + bit_text(bit_of(v.0, 27))
        + " J="@
        + bit_text(bit_of(v.0, 24))
        + " E="@
        + bit_text(bit_of(v.0, 9))
        + " A="@
        + bit_text(bit_of(v.0, 8))
        + " I="@
        + bit_text(bit_of(v.0, 7))
        + " F="@
        + bit_text(bit_of(v.0, 6))
        + " T="@
        + bit_text(bit_of(v.0, 5))
        + " MODE=0x"@
        + hex_text(v.0 & Cpsr::MODE_BITS)
        + " }"@
}

} // verus!
