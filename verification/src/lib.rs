//! Core decision and risk engine of an automated cryptocurrency trading
//! controller, together with its dead-man's-switch safety monitor.
//!
//! The engine classifies the portfolio into a capital tier, scores market
//! data into trade signals, sizes positions under a risk budget, evaluates
//! exits in a fixed priority, and bounds how many positions may open; the
//! watchdog decides on emergency liquidation from heartbeat staleness.
//!
//! All monetary amounts are fixed-point integers in cents, all percentages
//! are in basis points (hundredths of a percent), and multipliers,
//! confidences and range positions are in hundredths of a unit.  Asset
//! quantities are in hundred-millionths of a base unit.

pub mod capital_tier;
pub mod client;
pub mod config;
pub mod error;
pub mod fixed;
pub mod strategy;
pub mod trading;
pub mod timeparse;
pub mod types;
pub mod watchdog;
