//! The production relay's endpoints.

use vstd::prelude::*;

verus! {

/// Core Bundle Endpoints RPC
pub const BUNDLE_RPC: &'static str = "https://mainnet.block-engine.jito.wtf/api/v1/bundles";

/// Tip Endpoints RPC
pub const TIP_RPC: &'static str = "https://mainnet.block-engine.jito.wtf/api/v1/tip-accounts";

/// Block Engine Endpoints RPC
pub const BLOCK_EGNINE_RPC: &'static str = "https://mainnet.block-engine.jito.wtf/api/v1/block-engine";

/// Verify Node Information RPC
pub const VALIDATORS_RPC: &'static str = "https://mainnet.block-engine.jito.wtf/api/v1/validators";

/// Trading Pool RPC
pub const TRANSACTIONS_POOL_RPC: &'static str = "https://mainnet.block-engine.jito.wtf/api/v1/transactions";

/// Health RPC
pub const HEALTH_RPC: &'static str = "https://mainnet.block-engine.jito.wtf/api/v1/health";

/// Statistics RPC
pub const STATISTICS_RPC: &'static str = "https://mainnet.block-engine.jito.wtf/api/v1/stats";

} // verus!
