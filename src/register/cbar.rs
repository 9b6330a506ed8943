//! Values of the *Configuration Base Address Register* (CBAR).

use vstd::prelude::*;

use crate::register::text::{hex_text, push_hex, push_str};

verus! {

/// A value of the *Configuration Base Address Register* (CBAR).
#[derive(Clone, Copy, Debug, PartialEq, Eq, Structural)]
pub struct Cbar(pub u32);

impl Cbar {
    /// The base address of the core's peripherals.
    pub fn periphbase(self) -> (r: usize)
        ensures
            r == self.0 & 0xFFFFF,
    {
        (self.0 & 0xFFFFF) as usize
    }

    /// The value as diagnostics print it, such as
    /// `CBAR { PERIPHBASE=0x23456 }`.
    pub fn debug_string(self) -> (r: String)
        ensures
            r@ == cbar_text(self),
    {
        let mut s = "CBAR { PERIPHBASE=0x".to_owned();
        push_hex(&mut s, self.0 & 0xFFFFF);
        push_str(&mut s, " }");
        s
    }
}

/// How diagnostics print a CBAR value.
pub open spec fn cbar_text(v: Cbar) -> Seq<char> {
    "CBAR { PERIPHBASE=0x"@
        + hex_text(v.0 & 0xFFFFF)
        + " }"@
}

} // verus!
