//! Lifecycle rules of a fixed-price sale market: its states, the guarded
//! transitions between them, and the expiry that the end date imposes.
pub mod laws;
pub mod processor;
pub mod state;

pub use processor::ResumeMarket;
pub use state::{ErrorCode, Market, MarketState};
