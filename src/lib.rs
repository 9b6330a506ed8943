//! Verified driver for the Arm Generic Interrupt Controller version 3 (or 4).

pub mod bits;
pub mod intid;
pub mod gicv3;
pub mod register;

pub use intid::{IntId, Trigger};
