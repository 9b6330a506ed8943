//! Values of the *Main ID Register* (MIDR).

use vstd::prelude::*;

use crate::register::text::{hex_fixed, hex_text, push_hex, push_hex_fixed, push_str};

verus! {

/// A value of the *Main ID Register* (MIDR).
#[derive(Clone, Copy, Debug, PartialEq, Eq, Structural)]
pub struct Midr(pub u32);

impl Midr {
    /// The implementer field, bits 31 to 24.
    pub fn implementer(self) -> (r: u32)
        ensures
            r == self.0 >> 24u32,
    {
        self.0 >> 24
    }

    /// The variant field, bits 23 to 20.
    pub fn variant(self) -> (r: u32)
        ensures
            r == (self.0 >> 20u32) & 0xF,
    {
        (self.0 >> 20) & 0xF
    }

    /// The architecture field, bits 19 to 16.
    pub fn arch(self) -> (r: u32)
        ensures
            r == (self.0 >> 16u32) & 0xF,
    {
        (self.0 >> 16) & 0xF
    }

    /// The primary part number field, bits 15 to 4.
    pub fn part_no(self) -> (r: u32)
        ensures
            r == (self.0 >> 4u32) & 0xFFF,
    {
        (self.0 >> 4) & 0xFFF
    }

    /// The revision field, bits 3 to 0.
    pub fn rev(self) -> (r: u32)
        ensures
            r == self.0 & 0xF,
    {
        self.0 & 0xF
    }

    /// The value as diagnostics print it, such as
    /// `MIDR { implementer=0x41 variant=0x1 arch=0xf part_no=0xd13 rev=0x2 }`.
    pub fn debug_string(self) -> (r: String)
        ensures
            r@ == midr_text(self),
    {
        let mut s = "MIDR { implementer=0x".to_owned();
        push_hex_fixed(&mut s, self.implementer(), 2);
        push_str(&mut s, " variant=0x");
        push_hex(&mut s, self.variant());
        push_str(&mut s, " arch=0x");
        push_hex(&mut s, self.arch());
        push_str(&mut s, " part_no=0x");
        push_hex_fixed(&mut s, self.part_no(), 3);
        push_str(&mut s, " rev=0x");
        push_hex(&mut s, self.rev());
        push_str(&mut s, " }");
        s
    }
}

/// How diagnostics print a MIDR value.
pub open spec fn midr_text(v: Midr) -> Seq<char> {
    "MIDR { implementer=0x"@
        + hex_fixed(v.0 >> 24u32, 2)
        + " variant=0x"@
        + hex_text((v.0 >> 20u32) & 0xF)
        + " arch=0x"@
        + hex_text((v.0 >> 16u32) & 0xF)
        + " part_no=0x"@
        + hex_fixed((v.0 >> 4u32) & 0xFFF, 3)
        + " rev=0x"@
        + hex_text(v.0 & 0xF)
        + " }"@
}

} // verus!
