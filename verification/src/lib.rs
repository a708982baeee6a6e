//! Core state types of an automated-market-maker liquidity pool that prices
//! every asset against a single shared hub asset.
//!
//! The crate models the persisted per-asset record ([`types::AssetState`]),
//! its transient composition with the live pool balance
//! ([`types::AssetReserveState`]), liquidity-provider positions
//! ([`types::Position`]), the protocol-wide signed imbalance accumulator
//! ([`types::SimpleImbalance`]) and the per-asset trade-permission bit set
//! ([`types::Tradability`]). All balance arithmetic is checked: an overflow
//! or underflow is reported as an explicit failure, never wrapped.
//!
//! Spot prices are fixed-point rationals computed by `sp_arithmetic`
//! ([`price`]), and the constant-product legs of a hub-mediated exchange are
//! computed by `hydra_dx_math` ([`math`]); the exchange entry points that
//! gate, combine and atomically apply those results live in [`exchange`].

pub mod exchange;
pub mod math;
pub mod price;
pub mod types;
