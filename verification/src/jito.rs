//! The relay seen as one service: every client behind one error taxonomy,
//! and the settings of the strategies that use it.

use crate::client::{
    failure_of, first_maximum, BlockEngineClient, BlockEngineResponse, BundleClient,
    BundleResponse,
    BundleStatus, BundleStatusResponse, ClientEnum, FetchFailure, Fetched, HealthClient,
    HealthResponse, Leader, MemPoolTransaction, StatisticsClient, StatsResponse, TipAccount,
    TipClient, TransactionsPoolClient, Validator, ValidatorsClient, spec_http_failure_message,
};
use crate::global::{
    BLOCK_EGNINE_RPC, BUNDLE_RPC, HEALTH_RPC, STATISTICS_RPC, TIP_RPC, TRANSACTIONS_POOL_RPC,
    VALIDATORS_RPC,
};
use crate::ledger::Pubkey;
use crate::poller::{BundleState, ConfirmationPoller};
use crate::types::{JitoError, JitoResult};
use vstd::prelude::*;

verus! {

/// The relay's clients.
#[derive(Debug, Clone, PartialEq, Eq)]
pub struct Jito {
    pub bundle: BundleClient,
    pub tip: TipClient,
    pub block_engine: BlockEngineClient,
    pub validators: ValidatorsClient,
    pub transactions_pool: TransactionsPoolClient,
    pub health: HealthClient,
    pub statistics: StatisticsClient,
}

/// The settings of the arbitrage strategy. The tip percentage is in basis
/// points of the expected profit.
#[derive(Debug, Clone, Copy, PartialEq, Eq)]
pub struct ArbitrageConfig {
    pub min_profit_lamports: u64,
    pub max_slippage_bps: u16,
    pub max_retries: u32,
    pub tip_percentage: u64,
}

/// The settings of the backrun strategy.
#[derive(Debug, Clone, Copy, PartialEq, Eq)]
pub struct BackrunConfig {
    pub min_priority_fee: u64,
    pub max_transactions: usize,
    pub profit_threshold: u64,
}

/// A trade that the discovery reports as profitable.
#[derive(Debug, Clone, PartialEq, Eq)]
pub struct ArbitrageOpportunity {
    pub route: Vec<Pubkey>,
    pub expected_profit: u64,
    pub input_amount: u64,
    pub output_amount: u64,
    pub dexes: Vec<String>,
}

impl Default for ArbitrageConfig {
    fn default() -> (r: Self)
        ensures
            r.min_profit_lamports == 10_000,
            r.max_slippage_bps == 50,
            r.max_retries == 3,
            r.tip_percentage == 1_000,
    {
        Self {
            min_profit_lamports: 10_000,
            max_slippage_bps: 50,
            max_retries: 3,
            tip_percentage: 1_000,
        }
    }
}

impl Default for BackrunConfig {
    fn default() -> (r: Self)
        ensures
            r.min_priority_fee == 50_000,
            r.max_transactions == 5,
            r.profit_threshold == 5_000,
    {
        Self { min_priority_fee: 50_000, max_transactions: 5, profit_threshold: 5_000 }
    }
}

/// Whether a text is the message of the failure that an exchange amounts to.
pub open spec fn failure_text<T>(reply: Fetched<T>, message: Seq<char>) -> bool {
    match reply {
        Fetched::TransportFailed(why) => message == why@,
        Fetched::Refused { status, body } => message == spec_http_failure_message(status@, body@),
        Fetched::Undecodable(why) => message == why@,
        Fetched::Decoded(_) => false,
    }
}

proof fn lemma_failure_text<T>(reply: Fetched<T>, failure: FetchFailure)
    requires
        failure_of(reply, failure),
    ensures
        failure matches FetchFailure::RequestFailed(m) ==> failure_text(reply, m@),
        failure matches FetchFailure::ApiError(m) ==> failure_text(reply, m@),
{
}

impl Jito {
    /// The clients of the production relay.
    pub fn new() -> (r: JitoResult<Self, String>)
        ensures
            r matches Ok(jito) && jito.bundle.endpoint@ == BUNDLE_RPC@ && jito.tip.endpoint@
                == TIP_RPC@ && jito.block_engine.endpoint@ == BLOCK_EGNINE_RPC@
                && jito.validators.endpoint@ == VALIDATORS_RPC@ && jito.transactions_pool.endpoint@
                == TRANSACTIONS_POOL_RPC@ && jito.health.endpoint@ == HEALTH_RPC@
                && jito.statistics.endpoint@ == STATISTICS_RPC@,
    {
        Ok(
            Self {
                bundle: BundleClient::new(),
                tip: TipClient::new(),
                block_engine: BlockEngineClient::new(),
                validators: ValidatorsClient::new(),
                transactions_pool: TransactionsPoolClient::new(),
                health: HealthClient::new(),
                statistics: StatisticsClient::new(),
            },
        )
    }

    /// The endpoint that each client speaks to.
    pub open spec fn spec_endpoint(&self, client: ClientEnum) -> String {
        match client {
            ClientEnum::Bundle => self.bundle.endpoint,
            ClientEnum::Tip => self.tip.endpoint,
            ClientEnum::BlockEngine => self.block_engine.endpoint,
            ClientEnum::Validators => self.validators.endpoint,
            ClientEnum::TransactionsPool => self.transactions_pool.endpoint,
            ClientEnum::Health => self.health.endpoint,
            ClientEnum::Statistics => self.statistics.endpoint,
        }
    }

    /// The endpoint that the given client speaks to.
    pub fn endpoint(&self, client: ClientEnum) -> (r: &String)
        ensures
            *r == self.spec_endpoint(client),
    {
        match client {
            ClientEnum::Bundle => &self.bundle.endpoint,
            ClientEnum::Tip => &self.tip.endpoint,
            ClientEnum::BlockEngine => &self.block_engine.endpoint,
            ClientEnum::Validators => &self.validators.endpoint,
            ClientEnum::TransactionsPool => &self.transactions_pool.endpoint,
            ClientEnum::Health => &self.health.endpoint,
            ClientEnum::Statistics => &self.statistics.endpoint,
        }
    }

    /// The service's health, or a health error that carries the failure's
    /// message; for a service that reports itself unhealthy, its status.
    pub fn health_check(&self, reply: Fetched<HealthResponse>) -> (r: Result<
        HealthResponse,
        JitoError<String>,
    >)
        ensures
            match r {
                Ok(health) => reply == Fetched::Decoded(health) && health.status@ == "healthy"@,
                Err(e) => e matches JitoError::HealthError(m) && match reply {
                    Fetched::Decoded(health) => m@ == health.status@ && m@ != "healthy"@,
                    _ => failure_text(reply, m@),
                },
            },
    {
        match self.health.check_health(reply) {
            Ok(health) => Ok(health),
            Err(e) => {
                proof {
                    if e.is_fetch_failure() {
                        lemma_failure_text(reply, e.as_failure());
                    }
                }
                Err(JitoError::HealthError(e.into_message()))
            },
        }
    }

    /// The relay's statistics, or a statistics error with the failure's message.
    pub fn get_statistics(&self, reply: Fetched<StatsResponse>) -> (r: Result<
        StatsResponse,
        JitoError<String>,
    >)
        ensures
            match r {
                Ok(stats) => reply == Fetched::Decoded(stats),
                Err(e) => e matches JitoError::StatisticsError(m) && failure_text(reply, m@),
            },
    {
        match self.statistics.get_statistics(reply) {
            Ok(stats) => Ok(stats),
            Err(e) => {
                proof {
                    lemma_failure_text(reply, e.as_failure());
                }
                Err(JitoError::StatisticsError(e.into_message()))
            },
        }
    }

    /// The tip catalog, or a tip error with the failure's message.
    pub fn get_tip_accounts(&self, reply: Fetched<Vec<TipAccount>>) -> (r: Result<
        Vec<TipAccount>,
        JitoError<String>,
    >)
        ensures
            match r {
                Ok(accounts) => reply == Fetched::Decoded(accounts),
                Err(e) => e matches JitoError::TipError(m) && failure_text(reply, m@),
            },
    {
        match self.tip.get_tip_accounts(reply) {
            Ok(accounts) => Ok(accounts),
            Err(e) => {
                proof {
                    lemma_failure_text(reply, e.as_failure());
                }
                Err(JitoError::TipError(e.into_message()))
            },
        }
    }

    /// The best-paying account of the catalog, the first among equals; a tip
    /// error if the catalog is empty or could not be fetched.
    pub fn get_optimal_tip_account(&self, reply: Fetched<Vec<TipAccount>>) -> (r: Result<
        TipAccount,
        JitoError<String>,
    >)
        ensures
            match reply {
                Fetched::Decoded(accounts) => if accounts@.len() == 0 {
                    r matches Err(JitoError::TipError(m)) && m@ == "No tip accounts"@
                } else {
                    r == Ok::<TipAccount, JitoError<String>>(accounts@[first_maximum(accounts@)])
                },
                _ => r matches Err(JitoError::TipError(m)) && failure_text(reply, m@),
            },
    {
        match self.tip.get_optimal_tip_account(reply) {
            Ok(account) => Ok(account),
            Err(e) => {
                proof {
                    if e.is_fetch_failure() {
                        lemma_failure_text(reply, e.as_failure());
                    }
                }
                Err(JitoError::TipError(e.into_message()))
            },
        }
    }

    /// The congestion multiplier in basis points, or a block engine error.
    pub fn get_network_congestion(&self, reply: Fetched<BlockEngineResponse>) -> (r: Result<
        u64,
        JitoError<String>,
    >)
        ensures
            match r {
                Ok(congestion) => reply matches Fetched::Decoded(info) && info.congestion
                    == congestion,
                Err(e) => e matches JitoError::BlockEngineError(m) && failure_text(reply, m@),
            },
    {
        match self.block_engine.get_network_congestion(reply) {
            Ok(congestion) => Ok(congestion),
            Err(e) => {
                proof {
                    lemma_failure_text(reply, e.as_failure());
                }
                Err(JitoError::BlockEngineError(e.into_message()))
            },
        }
    }

    /// The current leaders, or a block engine error.
    pub fn get_current_leaders(&self, reply: Fetched<BlockEngineResponse>) -> (r: Result<
        Vec<Leader>,
        JitoError<String>,
    >)
        ensures
            match r {
                Ok(leaders) => reply matches Fetched::Decoded(info) && info.leaders == leaders,
                Err(e) => e matches JitoError::BlockEngineError(m) && failure_text(reply, m@),
            },
    {
        match self.block_engine.get_current_leaders(reply) {
            Ok(leaders) => Ok(leaders),
            Err(e) => {
                proof {
                    lemma_failure_text(reply, e.as_failure());
                }
                Err(JitoError::BlockEngineError(e.into_message()))
            },
        }
    }

    /// The active validators in the answer's order, or a validators error.
    pub fn get_active_validators(&self, reply: Fetched<Vec<Validator>>) -> (r: Result<
        Vec<Validator>,
        JitoError<String>,
    >)
        ensures
            match r {
                Ok(kept) => reply matches Fetched::Decoded(validators) && kept@
                    == validators@.filter(|v: Validator| v.active),
                Err(e) => e matches JitoError::ValidatorsError(m) && failure_text(reply, m@),
            },
    {
        match self.validators.get_active_validators(reply) {
            Ok(kept) => Ok(kept),
            Err(e) => {
                proof {
                    lemma_failure_text(reply, e.as_failure());
                }
                Err(JitoError::ValidatorsError(e.into_message()))
            },
        }
    }

    /// The pending transactions, or a transactions pool error.
    pub fn get_mempool_transactions(&self, reply: Fetched<Vec<MemPoolTransaction>>) -> (r: Result<
        Vec<MemPoolTransaction>,
        JitoError<String>,
    >)
        ensures
            match r {
                Ok(transactions) => reply == Fetched::Decoded(transactions),
                Err(e) => e matches JitoError::TransactionsPoolError(m) && failure_text(reply, m@),
            },
    {
        match self.transactions_pool.get_mempool_transactions(reply) {
            Ok(transactions) => Ok(transactions),
            Err(e) => {
                proof {
                    lemma_failure_text(reply, e.as_failure());
                }
                Err(JitoError::TransactionsPoolError(e.into_message()))
            },
        }
    }

    // ============== Bundle submission ==============
    /// Reads the relay's answer to a submission. An error object is a bundle
    /// error that carries the relay's message verbatim, whatever else the
    /// answer holds; a result alone is the bundle's identifier; an answer
    /// with neither is a bundle error that says so; a failed exchange is a
    /// bundle error with the failure's message.
    pub fn submitted_bundle(&self, reply: Fetched<BundleResponse>) -> (r: Result<
        String,
        JitoError<String>,
    >)
        ensures
            match reply {
                Fetched::Decoded(response) => match response.error {
                    Some(error) => r matches Err(JitoError::BundleError(m)) && m@
                        == error.message@,
                    None => match response.result {
                        Some(result) => r == Ok::<String, JitoError<String>>(result.bundle_id),
                        None => r matches Err(JitoError::BundleError(m)) && m@
                            == "No result in response"@,
                    },
                },
                _ => r matches Err(JitoError::BundleError(m)) && failure_text(reply, m@),
            },
    {
        match self.bundle.handle_response(reply) {
            Ok(bundle_id) => Ok(bundle_id),
            Err(e) => {
                proof {
                    if e.is_fetch_failure() && !(reply is Decoded) {
                        lemma_failure_text(reply, e.as_failure());
                    }
                }
                Err(JitoError::BundleError(e.into_message()))
            },
        }
    }

    // ============== Bundle status monitoring ==============
    /// What the relay reports of a bundle, or a bundle error with the
    /// failure's message.
    pub fn monitor_bundle_status(&self, reply: Fetched<BundleStatusResponse>) -> (r: Result<
        BundleStatus,
        JitoError<String>,
    >)
        ensures
            match r {
                Ok(status) => reply matches Fetched::Decoded(response) && response.result == status,
                Err(e) => e matches JitoError::BundleError(m) && failure_text(reply, m@),
            },
    {
        match self.bundle.handle_status_response(reply) {
            Ok(status) => Ok(status),
            Err(e) => {
                proof {
                    lemma_failure_text(reply, e.as_failure());
                }
                Err(JitoError::BundleError(e.into_message()))
            },
        }
    }

    /// Starts the wait for a bundle's confirmation: a poller with the given
    /// retry budget that has recorded nothing yet.
    pub fn wait_for_bundle_confirmation(&self, max_retries: u32) -> (poller: ConfirmationPoller)
        ensures
            poller.wf(),
            poller.history() == Seq::<BundleState>::empty(),
            poller.max_retries() == max_retries,
    {
        ConfirmationPoller::new(max_retries)
    }
}

} // verus!
