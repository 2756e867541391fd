//! The arbitrage strategy: which opportunity a cycle takes, what bundle it
//! makes of it, and how the loop goes on.

use crate::bundle::{Bundle, BundleView};
use crate::client::TipAccount;
use crate::jito::{ArbitrageConfig, ArbitrageOpportunity, Jito};
use crate::ledger::{
    base58_address, instruction_views, pubkey_from_str, Blockhash, Instruction, Keypair,
};
use crate::tool::{arbitrage_transactions, cal_optimal_tip, signable, spec_optimal_tip};
use crate::types::JitoError;
use vstd::prelude::*;

verus! {

/// The pause between two arbitrage cycles, in milliseconds.
pub const ARBITRAGE_INTERVAL_MS: u64 = 2_000;

/// The amount, in lamports, that a scan prices each monitored pair with.
pub const SCAN_AMOUNT: u64 = 1_000_000;

/// What a cycle came to.
#[derive(Debug, PartialEq, Eq)]
pub enum CycleReport {
    /// A bundle was submitted; carries its identifier.
    Executed(String),
    /// Nothing qualified. This is the ordinary outcome and no error.
    Idle,
    /// The cycle failed; carries the error as text. The loop goes on.
    Failed(String),
}

/// What a strategy loop does after a cycle.
#[derive(Debug, Clone, Copy, PartialEq, Eq, Structural)]
pub enum LoopAction {
    /// Leave the loop: cancellation was asked for.
    Stop,
    /// Pause for the given milliseconds, then run the next cycle.
    WaitThenScan(u64),
}

/// Whether an opportunity promises at least the given profit.
pub open spec fn qualifies(opportunity: ArbitrageOpportunity, min_profit: u64) -> bool {
    opportunity.expected_profit >= min_profit
}

/// The position of the first opportunity that qualifies, in the scan's
/// order; the length if none does.
pub open spec fn first_qualifying(opportunities: Seq<ArbitrageOpportunity>, min_profit: u64) -> int
    decreases opportunities.len(),
{
    if opportunities.len() == 0 {
        0
    } else if qualifies(opportunities.first(), min_profit) {
        0
    } else {
        1 + first_qualifying(opportunities.drop_first(), min_profit)
    }
}

/// The chosen position lies within the scan or at its end, it qualifies if
/// it lies within, and nothing before it qualifies.
pub proof fn lemma_first_qualifying(opportunities: Seq<ArbitrageOpportunity>, min_profit: u64)
    ensures
        0 <= first_qualifying(opportunities, min_profit) <= opportunities.len(),
        first_qualifying(opportunities, min_profit) < opportunities.len() ==> qualifies(
            opportunities[first_qualifying(opportunities, min_profit)],
            min_profit,
        ),
        forall|j: int|
            0 <= j < first_qualifying(opportunities, min_profit) ==> !qualifies(
                #[trigger] opportunities[j],
                min_profit,
            ),
    decreases opportunities.len(),
{
    if opportunities.len() > 0 && !qualifies(opportunities.first(), min_profit) {
        let rest = opportunities.drop_first();
        lemma_first_qualifying(rest, min_profit);
        assert forall|j: int| 0 <= j < first_qualifying(opportunities, min_profit) implies !qualifies(
            #[trigger] opportunities[j],
            min_profit,
        ) by {
            if j > 0 {
                assert(opportunities[j] == rest[j - 1]);
            }
        }
    }
}

/// A scan in which nothing qualifies, an empty one included, has no first
/// qualifying opportunity.
pub proof fn lemma_none_qualifies(opportunities: Seq<ArbitrageOpportunity>, min_profit: u64)
    requires
        forall|j: int| 0 <= j < opportunities.len() ==> !qualifies(#[trigger] opportunities[j], min_profit),
    ensures
        first_qualifying(opportunities, min_profit) == opportunities.len(),
{
    lemma_first_qualifying(opportunities, min_profit);
}

/// The congestion that a tip is sized with: the reading in basis points,
/// and none where the reading failed. A failed reading never fails the flow.
pub fn congestion_or_none<E>(reading: Result<u64, E>) -> (congestion: u64)
    ensures
        congestion == match reading {
            Ok(value) => value,
            Err(_) => 0,
        },
{
    match reading {
        Ok(value) => value,
        Err(_) => 0,
    }
}

/// The arbitrage strategy over one relay.
pub struct Arbitrage {
    jito: Jito,
}

impl Arbitrage {
    pub fn new(jito: Jito) -> (r: Self)
        ensures
            r.jito() == jito,
    {
        Self { jito }
    }

    pub closed spec fn jito(&self) -> Jito {
        self.jito
    }

    /// The relay that the strategy submits to.
    pub fn relay(&self) -> (r: &Jito)
        ensures
            *r == self.jito(),
    {
        &self.jito
    }

    /// Makes the bundle of an opportunity: the swap, then a tip to the given
    /// account, sized from the expected profit, the configured percentage
    /// and the congestion (in basis points; zero where it is not known).
    /// Fails with a serialization error when the tip account's address
    /// cannot be read, and with a bundle error when the wallet cannot sign
    /// the swap instructions as one transaction.
    pub fn exe_arbitrage(
        &self,
        wallet: &Keypair,
        opportunity: &ArbitrageOpportunity,
        config: &ArbitrageConfig,
        tip_account: &TipAccount,
        network_congestion: u64,
        swap_instructions: &Vec<Instruction>,
        recent_blockhash: &Blockhash,
    ) -> (r: Result<Bundle, JitoError<String>>)
        ensures
            match base58_address(tip_account.pubkey@) {
                None => r matches Err(JitoError::SerializationError(_)),
                Some(address) => if signable(
                    instruction_views(swap_instructions@),
                    wallet.secret_bytes(),
                ) {
                    r matches Ok(bundle) && bundle@ == (BundleView {
                        transactions: arbitrage_transactions(
                            wallet.secret_bytes(),
                            instruction_views(swap_instructions@),
                            address,
                            spec_optimal_tip(
                                opportunity.expected_profit,
                                network_congestion,
                                config.tip_percentage,
                            ) as u64,
                            recent_blockhash@,
                        ),
                        recent_blockhash: recent_blockhash@,
                        tip_account: Some(address),
                        tip_amount: Some(
                            spec_optimal_tip(
                                opportunity.expected_profit,
                                network_congestion,
                                config.tip_percentage,
                            ) as u64,
                        ),
                    })
                } else {
                    r matches Err(JitoError::BundleError(_))
                },
            },
    {
        let tip_pubkey = match pubkey_from_str(tip_account.pubkey.as_str()) {
            Ok(pk) => pk,
            Err(e) => {
                return Err(e);
            },
        };
        let tip_amount = cal_optimal_tip(
            opportunity.expected_profit,
            network_congestion,
            config.tip_percentage,
        );
        Bundle::create_arbitrage_bundle(
            wallet,
            swap_instructions,
            tip_pubkey,
            tip_amount,
            recent_blockhash,
        )
    }

    /// Picks the opportunity that a cycle acts on: the first of the scan
    /// that promises at least the configured profit. A scan in which none
    /// does, an empty one included, has no opportunity.
    pub fn arbitrage_cycle(
        &self,
        opportunities: Vec<ArbitrageOpportunity>,
        config: &ArbitrageConfig,
    ) -> (r: Result<ArbitrageOpportunity, JitoError<String>>)
        ensures
            first_qualifying(opportunities@, config.min_profit_lamports) < opportunities@.len()
                ==> r == Ok::<ArbitrageOpportunity, JitoError<String>>(
                opportunities@[first_qualifying(opportunities@, config.min_profit_lamports)],
            ),
            first_qualifying(opportunities@, config.min_profit_lamports) >= opportunities@.len()
                ==> r matches Err(JitoError::NoArbitrageOpportunity),
    {
        let min_profit = config.min_profit_lamports;
        let mut i: usize = 0;
        proof {
            assert(opportunities@.skip(0) =~= opportunities@);
        }
        while i < opportunities.len()
            invariant
                i <= opportunities@.len(),
                min_profit == config.min_profit_lamports,
                first_qualifying(opportunities@, min_profit) == i + first_qualifying(
                    opportunities@.skip(i as int),
                    min_profit,
                ),
            decreases opportunities@.len() - i,
        {
            proof {
                let rest = opportunities@.skip(i as int);
                assert(rest.first() == opportunities@[i as int]);
                assert(rest.drop_first() =~= opportunities@.skip(i + 1));
            }
            if opportunities[i].expected_profit >= min_profit {
                let mut found = opportunities;
                return Ok(found.swap_remove(i));
            }
            i += 1;
        }
        Err(JitoError::NoArbitrageOpportunity)
    }

    /// Decides how the loop goes on after a cycle. A cycle without an
    /// opportunity is idle and no failure; any other error is reported as
    /// text, and never ends the loop. The loop stops only on cancellation,
    /// which takes effect here, between two cycles.
    pub fn monitor_and_arbitrage(
        &self,
        outcome: Result<String, JitoError<String>>,
        cancel_requested: bool,
    ) -> (r: (CycleReport, LoopAction))
        ensures
            match outcome {
                Ok(bundle_id) => r.0 == CycleReport::Executed(bundle_id),
                Err(JitoError::NoArbitrageOpportunity) => r.0 is Idle,
                Err(e) => r.0 matches CycleReport::Failed(m) && m@ == e.rendered(),
            },
            r.1 == if cancel_requested {
                LoopAction::Stop
            } else {
                LoopAction::WaitThenScan(ARBITRAGE_INTERVAL_MS)
            },
    {
        let action = if cancel_requested {
            LoopAction::Stop
        } else {
            LoopAction::WaitThenScan(ARBITRAGE_INTERVAL_MS)
        };
        let report = match outcome {
            Ok(bundle_id) => CycleReport::Executed(bundle_id),
            Err(e) => if e.is_no_opportunity() {
                CycleReport::Idle
            } else {
                CycleReport::Failed(e.to_string())
            },
        };
        (report, action)
    }
}

} // verus!
