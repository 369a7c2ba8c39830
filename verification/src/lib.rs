//! Accounting core of a collateralized lending market.
//!
//! The crate tracks, per asset, the supplied and borrowed totals of a money
//! market, compounds interest with a utilization-sensitive rate curve,
//! represents lender claims as shares at a floating exchange rate, scales
//! borrower principal by cumulative interest indices, and computes the
//! health-factor and liquidation payouts for under-collateralized debt.
//! Every operation is all-or-nothing: on any error the touched records are
//! left exactly as they were.

pub mod constants;
pub mod errors;
pub mod math;
pub mod state;
pub mod instructions;
