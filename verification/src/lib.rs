//! A two-outcome prediction market with constant-product pricing.
//!
//! Traders deposit a reference currency to acquire YES or NO position
//! tokens priced by an automated market maker; after a deadline the market
//! authority settles the market against a fundraising goal, and holders of
//! the winning position redeem one-for-one for the reference currency.
//! Balance custody (minting, burning and transferring the actual tokens)
//! and the clock are external collaborators: every operation here takes
//! the current time as an argument and returns the quantities the custodian
//! must move.

pub mod market;
pub mod pricing;
pub mod laws;
