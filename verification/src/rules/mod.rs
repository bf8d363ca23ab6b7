//! Screening of markets with complex rules: candidates, research
//! validation, the decision engine, the risk guard and the research
//! budget.

pub mod budget;
pub mod candidate;
pub mod config;
pub mod cycle;
pub mod decision;
pub mod execution;
pub mod research;
pub mod risk;
pub mod transport;

pub use decision::{Decision, DecisionEngine, DeterministicInput, TradeIntent, VetoReason};
pub use budget::BudgetManager;
pub use execution::{ExecutionEngine, ExecutionOutcome};
pub use risk::RiskGuard;
pub use research::{validate_research_response, Provenance, ResearchError, RiskLevel};
