//! Composite buy/sell/hold signal of one instrument from its daily bars.
//!
//! The baseline (MACD + RSI) and nine extension indicators each turn the bar
//! series into a five-level score; the scores are recorded once in a ledger,
//! weighted and aggregated into a single snapshot, and presented as bands,
//! stance percentages and gauges.  Every value is fixed point (`fixed`).

pub mod fixed;
pub mod score;
pub mod bars;
pub mod indicator;
pub mod extension;
pub mod baseline;
pub mod ledger;
pub mod aggregate;
pub mod present;
pub mod log_fields;
pub mod narrative;
pub mod ticker;
pub mod news;
pub mod input;
