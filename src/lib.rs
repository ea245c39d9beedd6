//! Ledger logic for AI-model drift markets: a model registry, drift insurance
//! policies, and a binary prediction market priced by a constant-product curve.
pub mod accounts;
pub mod amm;
pub mod market;
pub mod prediction_market;
pub mod market_laws;
pub mod insurance;
pub mod model_registry;
