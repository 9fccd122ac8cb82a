//! A constant-product bonding-curve market maker for a newly issued token
//! priced against a base asset.
//!
//! The curve is described by two virtual reserves whose product is (modulo a
//! deliberate rounding bias) invariant across trades, together with two real
//! reserves tracking the balances actually held in custody.  The library
//! computes swap quotes, applies them atomically to the curve state, and
//! governs the curve's lifecycle from initialization through trading to
//! graduation and final withdrawal.  Moving the assets themselves is the duty
//! of an external custody layer: every operation here only reports how much
//! should move, and between which logical custody buckets.

pub mod errors;
pub mod lifecycle;
pub mod pricing;
pub mod state;
pub mod trades;
