//! The backrun strategy: which pending transactions a scan follows, and the
//! bundle that runs behind one of them.

use crate::arbitrage::LoopAction;
use crate::bundle::{Bundle, BundleView};
use crate::client::{MemPoolTransaction, TipAccount};
use crate::jito::{BackrunConfig, Jito};
use crate::ledger::{base58_address, pubkey_from_str, SignedTransaction};
use crate::tool::transaction_views;
use crate::types::JitoError;
use vstd::prelude::*;

verus! {

/// The pause between two scans for backrun targets, in milliseconds.
pub const BACKRUN_INTERVAL_MS: u64 = 500;

/// The backrun strategy over one relay.
pub struct CopyTrade {
    jito: Jito,
}

impl CopyTrade {
    pub fn new(jito: Jito) -> (r: Self)
        ensures
            r.jito() == jito,
    {
        Self { jito }
    }

    pub closed spec fn jito(&self) -> Jito {
        self.jito
    }

    /// The relay that the strategy submits to.
    pub fn relay(&self) -> (r: &Jito)
        ensures
            *r == self.jito(),
    {
        &self.jito
    }

    /// Makes the bundle that runs behind a target: the target first, the
    /// backrun second, and a tip of the configured priority fee announced
    /// for the given account. Fails with a serialization error when the
    /// tip account's address cannot be read, and with a bundle error when
    /// the two transactions do not carry the same reference hash.
    pub fn exe_backrun(
        &self,
        target_transaction: SignedTransaction,
        backrun_tx: SignedTransaction,
        config: &BackrunConfig,
        tip_account: &TipAccount,
    ) -> (r: Result<Bundle, JitoError<String>>)
        ensures
            match base58_address(tip_account.pubkey@) {
                None => r matches Err(JitoError::SerializationError(_)),
                Some(address) => if target_transaction@.recent_blockhash
                    == backrun_tx@.recent_blockhash {
                    r matches Ok(bundle) && bundle@ == (BundleView {
                        transactions: seq![target_transaction@, backrun_tx@],
                        recent_blockhash: target_transaction@.recent_blockhash,
                        tip_account: Some(address),
                        tip_amount: Some(config.min_priority_fee),
                    })
                } else {
                    r matches Err(JitoError::BundleError(_))
                },
            },
    {
        let tip_pubkey = match pubkey_from_str(tip_account.pubkey.as_str()) {
            Ok(pk) => pk,
            Err(e) => {
                return Err(e);
            },
        };
        let tip_amount = config.min_priority_fee;
        let mut transactions: Vec<SignedTransaction> = Vec::new();
        transactions.push(target_transaction);
        transactions.push(backrun_tx);
        proof {
            let views = transaction_views(transactions@);
            assert(views =~= seq![target_transaction@, backrun_tx@]);
            if target_transaction@.recent_blockhash != backrun_tx@.recent_blockhash {
                assert(views[1].recent_blockhash != target_transaction@.recent_blockhash);
            }
        }
        Bundle::new(transactions, Some(tip_pubkey), Some(tip_amount))
    }

    /// The targets of one scan: the first `max_transactions` of the
    /// high-priority transactions, in their order.
    pub fn monitor_for_backrun_opportunities(
        &self,
        high_priority_txs: Vec<MemPoolTransaction>,
        config: &BackrunConfig,
    ) -> (targets: Vec<MemPoolTransaction>)
        ensures
            targets@ == if high_priority_txs@.len() <= config.max_transactions {
                high_priority_txs@
            } else {
                high_priority_txs@.take(config.max_transactions as int)
            },
    {
        let mut targets = high_priority_txs;
        if targets.len() > config.max_transactions {
            targets.truncate(config.max_transactions);
            assert(targets@ =~= high_priority_txs@.take(config.max_transactions as int));
        }
        targets
    }

    /// What the loop does after a scan: it stops on cancellation and
    /// otherwise pauses before the next scan, whatever the scan came to.
    pub fn after_scan(&self, cancel_requested: bool) -> (action: LoopAction)
        ensures
            action == if cancel_requested {
                LoopAction::Stop
            } else {
                LoopAction::WaitThenScan(BACKRUN_INTERVAL_MS)
            },
    {
        if cancel_requested {
            LoopAction::Stop
        } else {
            LoopAction::WaitThenScan(BACKRUN_INTERVAL_MS)
        }
    }
}

} // verus!
