//! Bit-exact codec for the ZIA (the global interconnect array) of CoolRunner-II
//! style CPLDs.
//!
//! Each function block sees the ZIA as a stack of rows, one per AND-term input.
//! A row is a handful of fuses that pick one global signal, or a wired constant,
//! for that input. This crate turns the fuses of one row into the signal they
//! select and a signal back into the fuses that select it. Every function is
//! verified against the model in [`zia_model`], and [`zia_laws`] proves that the
//! two directions agree.

use vstd::prelude::*;

pub mod zia;
pub mod zia_laws;
pub mod zia_model;
pub mod zia_tables;

verus! {

/// Number of inputs of an AND term, and so the number of ZIA rows that each
/// function block has.
pub const INPUTS_PER_ANDTERM: usize = 40;

/// The parts whose ZIA layout is known.
#[derive(Copy, Clone, PartialEq, Eq, Structural, Debug)]
pub enum XC2Device {
    XC2C32,
    XC2C32A,
    XC2C64,
    XC2C64A,
}

} // verus!
