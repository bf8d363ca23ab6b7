//! Pricing from weather forecasts: signals, the evaluation engine and its
//! risk manager.

pub mod cycle;
pub mod engine;
pub mod risk;
pub mod signal;
pub mod sizing;

pub use engine::{EvaluationResult, RejectedSignal, StrategyEngine};
pub use risk::RiskManager;
pub use signal::{new_forecast_cache, ForecastCache, ForecastEntry, ProbabilityEstimate};
