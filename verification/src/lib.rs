//! Assembly, encoding, submission and confirmation of atomically relayed
//! transaction bundles, together with the selection and sizing of the tip
//! that buys their inclusion.

pub mod arbitrage;
pub mod bundle;
pub mod client;
pub mod copytrade;
pub mod encoder;
pub mod global;
pub mod jito;
pub mod ledger;
pub mod poller;
pub mod tool;
pub mod types;

pub use crate::jito::{ArbitrageConfig, ArbitrageOpportunity, BackrunConfig, Jito};
pub use crate::types::{JitoError, JitoResult};
