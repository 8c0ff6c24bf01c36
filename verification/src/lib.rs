//! Verified core of a bonding-curve token launchpad.
//!
//! The library holds the launchpad's accounting: the global admin state, the
//! per-token bonding-curve vault, the linear pricing helpers, the fee split of
//! every trade and the graduation and migration rules. The market capitalisation
//! that the launchpad reads off its curve is computed in floating point by the
//! program around this library and handed in as a function of the supply.

pub mod constants;
pub mod error;
pub mod address;
pub mod linear_curve;
pub mod market;
pub mod vault;
pub mod events;
pub mod trade;
pub mod global;
pub mod launch;
