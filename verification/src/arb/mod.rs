//! Complete-set arbitrage: grouping, pricing, risk and execution.

pub mod config;
pub mod cycle;
pub mod evaluator;
pub mod exec;
pub mod fees;
pub mod opportunity;
pub mod quotes;
pub mod risk;
pub mod universe;


pub use evaluator::ArbEvaluator;
pub use exec::{ArbExecutor, ExecutionOutcome};
pub use fees::ArbFeeModel;
pub use config::{ArbConfig, ArbRiskConfig, ArbTimingConfig, ExecutionConfig};
pub use opportunity::{ArbDirection, ArbLeg, ArbOpportunity};
pub use quotes::{MarketQuote, PriceEntry, QuoteBook};
pub use risk::ArbRiskManager;
pub use universe::{ArbGroup, EdgeCase, UniverseBuilder};

