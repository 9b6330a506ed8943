//! Values of Armv7-R and Armv8-R system registers.

pub mod cbar;
pub mod cpsr;
pub mod hactlr;
pub mod midr;
pub mod sctlr;
pub mod text;
