//! Energy units, fuels, and the providers that turn fuel into energy; and, on
//! the side, the outcomes of processing a run of items and their counts.
//!
//! - [`units`]: the joule, the calorie and the BTU, and how one is written in
//!   another.
//! - [`fuel`]: fuels as types, each with a fixed energy density, and blends of
//!   two fuels.
//! - [`provider`]: containers of fuel and the providers that use them up.
//! - [`outcome`]: outcomes, how a run of items is sorted into them, and how
//!   they are counted.

pub mod fuel;
pub mod outcome;
pub mod provider;
pub mod units;
