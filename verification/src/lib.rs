//! Decision core of a market-making risk-control agent for resting limit
//! orders: a shared top-of-book view filled by a subscription callback, a
//! reprice decider that keeps a resting bid competitive, and a liquidity
//! safeguard that cancels the order when the nearby book is too thin.
//!
//! All prices and sizes are exact fixed-point decimals, carried as scaled
//! integer units; the scale is chosen by the caller and never appears in the
//! logic, which only compares, adds and sums units.

pub mod book;
pub mod cycle;
pub mod decision;
pub mod market;
