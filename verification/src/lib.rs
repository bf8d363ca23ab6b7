//! Trading core for binary prediction markets priced in whole cents.
//!
//! The crate holds the decision logic shared by three strategies: pricing
//! from weather forecasts, complete-set arbitrage, and rule-risk screening.
//! Every function is verified against the contract written on it; the
//! handful of calls into other crates and into unspecified parts of the
//! standard library are marked as trusted where they are made.

pub mod api;
pub mod arb;
pub mod auth;
pub mod clock;
pub mod config;
pub mod discovery;
pub mod error;
pub mod fees;
pub mod ids;
pub mod journal;
pub mod parse;
pub mod positions;
pub mod rules;
pub mod sports;
pub mod stream;
pub mod text;
pub mod types;
pub mod weather;

pub use error::Error;
pub use fees::FeeSchedule;
pub use types::{Action, OrderType, Side};
