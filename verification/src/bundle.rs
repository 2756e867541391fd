//! Bundles: ordered, non-empty groups of signed transactions that share one
//! reference hash, and the request shapes they are assembled from.

use crate::ledger::{
    instruction_views, optional_pubkey_view, signed_by, Blockhash, Instruction, Keypair, Pubkey,
    SignedTransaction, SignedTransactionView,
};
use crate::client::{
    encodable, send_bundle_request, BundleClient, BundleRequest,
};
use crate::tool::{
    arbitrage_transactions, build_arbitrage_transactions, build_dex_swap_transaction,
    build_tip_transaction, build_token_transfer_transaction, signable,
    token_transfer_transaction, transaction_views, transfer_transaction,
};
use crate::types::JitoError;
use vstd::prelude::*;
use vstd::string::StringExecFns;

verus! {

/// One transfer of a batch.
#[derive(Debug, Clone, Copy, PartialEq, Eq)]
pub struct TokenTransferRequest {
    pub from_token_account: Pubkey,
    pub to_token_account: Pubkey,
    pub amount: u64,
}

impl TokenTransferRequest {
    pub fn new(from_token_account: Pubkey, to_token_account: Pubkey, amount: u64) -> (r: Self)
        ensures
            r.from_token_account == from_token_account,
            r.to_token_account == to_token_account,
            r.amount == amount,
    {
        Self { from_token_account, to_token_account, amount }
    }
}

/// How a caller wants its bundles tipped and retried.
#[derive(Debug, Clone, Copy, PartialEq, Eq)]
pub struct BundleConfig {
    pub tip_account: Option<Pubkey>,
    pub tip_amount: Option<u64>,
    pub priority_fee: Option<u64>,
    pub max_retries: u32,
}

impl Default for BundleConfig {
    fn default() -> (r: Self)
        ensures
            r.tip_account is None,
            r.tip_amount is None,
            r.priority_fee == Some(50_000u64),
            r.max_retries == 3,
    {
        Self { tip_account: None, tip_amount: None, priority_fee: Some(50_000), max_retries: 3 }
    }
}

/// An ordered, non-empty group of signed transactions that all carry the
/// same reference hash, with the tip that is announced to the relay.
#[derive(Debug)]
pub struct Bundle {
    transactions: Vec<SignedTransaction>,
    recent_blockhash: Blockhash,
    tip_account: Option<Pubkey>,
    tip_amount: Option<u64>,
}

pub ghost struct BundleView {
    pub transactions: Seq<SignedTransactionView>,
    pub recent_blockhash: Seq<u8>,
    pub tip_account: Option<Seq<u8>>,
    pub tip_amount: Option<u64>,
}

/// Whether a list of transactions is not empty and all of them carry the given hash.
pub open spec fn tied_to(transactions: Seq<SignedTransactionView>, blockhash: Seq<u8>) -> bool {
    &&& transactions.len() > 0
    &&& forall|i: int|
        0 <= i < transactions.len() ==> (#[trigger] transactions[i]).recent_blockhash == blockhash
}

/// The transactions of a batch: one token transfer per request, in the order of the requests.
pub open spec fn batch_transactions(
    secret: Seq<u8>,
    transfers: Seq<TokenTransferRequest>,
    blockhash: Seq<u8>,
) -> Seq<SignedTransactionView> {
    Seq::new(
        transfers.len(),
        |k: int|
            token_transfer_transaction(
                secret,
                transfers[k].from_token_account@,
                transfers[k].to_token_account@,
                transfers[k].amount,
                blockhash,
            ),
    )
}

impl View for Bundle {
    type V = BundleView;

    closed spec fn view(&self) -> BundleView {
        BundleView {
            transactions: transaction_views(self.transactions@),
            recent_blockhash: self.recent_blockhash@,
            tip_account: optional_pubkey_view(self.tip_account),
            tip_amount: self.tip_amount,
        }
    }
}

impl Bundle {
    #[verifier::type_invariant]
    spec fn well_formed(&self) -> bool {
        tied_to(transaction_views(self.transactions@), self.recent_blockhash@)
    }

    /// The transactions, in execution order. Whatever the bundle, there is
    /// at least one, and every one carries the bundle's reference hash.
    pub fn transactions(&self) -> (r: &Vec<SignedTransaction>)
        ensures
            transaction_views(r@) == self@.transactions,
            tied_to(self@.transactions, self@.recent_blockhash),
    {
        proof {
            use_type_invariant(self);
        }
        &self.transactions
    }

    /// The reference hash that every transaction carries.
    pub fn recent_blockhash(&self) -> (r: Blockhash)
        ensures
            r@ == self@.recent_blockhash,
    {
        self.recent_blockhash
    }

    pub fn tip_account(&self) -> (r: Option<Pubkey>)
        ensures
            optional_pubkey_view(r) == self@.tip_account,
    {
        self.tip_account
    }

    pub fn tip_amount(&self) -> (r: Option<u64>)
        ensures
            r == self@.tip_amount,
    {
        self.tip_amount
    }

    /// Makes a bundle of transactions that were signed elsewhere. Succeeds
    /// exactly when there is at least one and all carry the hash of the first;
    /// the order is kept.
    pub fn new(
        transactions: Vec<SignedTransaction>,
        tip_account: Option<Pubkey>,
        tip_amount: Option<u64>,
    ) -> (r: Result<Bundle, JitoError<String>>)
        ensures
            match r {
                Ok(bundle) => bundle@ == (BundleView {
                    transactions: transaction_views(transactions@),
                    recent_blockhash: transactions@[0]@.recent_blockhash,
                    tip_account: optional_pubkey_view(tip_account),
                    tip_amount,
                }) && tied_to(transaction_views(transactions@), transactions@[0]@.recent_blockhash),
                Err(e) => e is BundleError && !(transactions@.len() > 0 && tied_to(
                    transaction_views(transactions@),
                    transactions@[0]@.recent_blockhash,
                )),
            },
    {
        if transactions.len() == 0 {
            return Err(
                JitoError::BundleError(String::from_str("a bundle holds at least one transaction")),
            );
        }
        let recent_blockhash = transactions[0].recent_blockhash;
        let mut i: usize = 1;
        while i < transactions.len()
            invariant
                1 <= i <= transactions@.len(),
                recent_blockhash@ == transactions@[0]@.recent_blockhash,
                forall|k: int|
                    0 <= k < i ==> (#[trigger] transaction_views(
                        transactions@,
                    )[k]).recent_blockhash == recent_blockhash@,
            decreases transactions@.len() - i,
        {
            if !transactions[i].recent_blockhash.same_as(&recent_blockhash) {
                assert(transaction_views(transactions@)[i as int].recent_blockhash
                    != recent_blockhash@);
                return Err(
                    JitoError::BundleError(
                        String::from_str("the transactions of a bundle share one reference hash"),
                    ),
                );
            }
            i += 1;
        }
        Ok(Bundle { transactions, recent_blockhash, tip_account, tip_amount })
    }

    /// A bundle of transactions supplied by the caller, as `new` makes it.
    pub fn create_multi_transaction_bundle(
        transactions: Vec<SignedTransaction>,
        tip_account: Option<Pubkey>,
        tip_amount: Option<u64>,
    ) -> (r: Result<Bundle, JitoError<String>>)
        ensures
            match r {
                Ok(bundle) => bundle@ == (BundleView {
                    transactions: transaction_views(transactions@),
                    recent_blockhash: transactions@[0]@.recent_blockhash,
                    tip_account: optional_pubkey_view(tip_account),
                    tip_amount,
                }) && tied_to(transaction_views(transactions@), transactions@[0]@.recent_blockhash),
                Err(e) => e is BundleError && !(transactions@.len() > 0 && tied_to(
                    transaction_views(transactions@),
                    transactions@[0]@.recent_blockhash,
                )),
            },
    {
        Bundle::new(transactions, tip_account, tip_amount)
    }

    fn single(
        tx: SignedTransaction,
        recent_blockhash: &Blockhash,
        tip_account: Option<Pubkey>,
        tip_amount: Option<u64>,
    ) -> (bundle: Bundle)
        requires
            tx@.recent_blockhash == recent_blockhash@,
        ensures
            bundle@ == (BundleView {
                transactions: seq![tx@],
                recent_blockhash: recent_blockhash@,
                tip_account: optional_pubkey_view(tip_account),
                tip_amount,
            }),
    {
        let mut transactions: Vec<SignedTransaction> = Vec::new();
        transactions.push(tx);
        assert(transaction_views(transactions@) =~= seq![tx@]);
        Bundle { transactions, recent_blockhash: *recent_blockhash, tip_account, tip_amount }
    }

    /// A transfer of native lamports from the wallet: one transaction.
    pub fn create_sol_transfer_bundle(
        wallet: &Keypair,
        to_pubkey: Pubkey,
        lamports: u64,
        tip_account: Option<Pubkey>,
        tip_amount: Option<u64>,
        recent_blockhash: &Blockhash,
    ) -> (r: Result<Bundle, JitoError<String>>)
        ensures
            r matches Ok(bundle) && bundle@ == (BundleView {
                transactions: seq![
                    transfer_transaction(
                        wallet.secret_bytes(),
                        to_pubkey@,
                        lamports,
                        recent_blockhash@,
                    ),
                ],
                recent_blockhash: recent_blockhash@,
                tip_account: optional_pubkey_view(tip_account),
                tip_amount,
            }),
    {
        match build_tip_transaction(wallet, to_pubkey, lamports, recent_blockhash) {
            Ok(tx) => Ok(Bundle::single(tx, recent_blockhash, tip_account, tip_amount)),
            Err(e) => Err(e),
        }
    }

    /// A transfer of tokens between two token accounts: one transaction.
    /// `amount` is in the token's smallest unit.
    pub fn create_token_transfer_bundle(
        wallet: &Keypair,
        token_mint: Pubkey,
        from_token_account: Pubkey,
        to_token_account: Pubkey,
        amount: u64,
        tip_account: Option<Pubkey>,
        tip_amount: Option<u64>,
        recent_blockhash: &Blockhash,
    ) -> (r: Result<Bundle, JitoError<String>>)
        ensures
            r matches Ok(bundle) && bundle@ == (BundleView {
                transactions: seq![
                    token_transfer_transaction(
                        wallet.secret_bytes(),
                        from_token_account@,
                        to_token_account@,
                        amount,
                        recent_blockhash@,
                    ),
                ],
                recent_blockhash: recent_blockhash@,
                tip_account: optional_pubkey_view(tip_account),
                tip_amount,
            }),
    {
        match build_token_transfer_transaction(
            wallet,
            &from_token_account,
            &to_token_account,
            amount,
            recent_blockhash,
        ) {
            Ok(tx) => Ok(Bundle::single(tx, recent_blockhash, tip_account, tip_amount)),
            Err(e) => Err(e),
        }
    }

    /// A swap: one transaction that carries the caller's instructions. Fails
    /// with a bundle error exactly when the wallet cannot sign them as one
    /// transaction.
    pub fn create_token_swap_bundle(
        wallet: &Keypair,
        swap_instructions: Vec<Instruction>,
        tip_account: Option<Pubkey>,
        tip_amount: Option<u64>,
        recent_blockhash: &Blockhash,
    ) -> (r: Result<Bundle, JitoError<String>>)
        ensures
            match r {
                Ok(bundle) => signable(
                    instruction_views(swap_instructions@),
                    wallet.secret_bytes(),
                ) && bundle@ == (BundleView {
                    transactions: seq![
                        signed_by(
                            wallet.secret_bytes(),
                            instruction_views(swap_instructions@),
                            recent_blockhash@,
                        ),
                    ],
                    recent_blockhash: recent_blockhash@,
                    tip_account: optional_pubkey_view(tip_account),
                    tip_amount,
                }),
                Err(e) => !signable(instruction_views(swap_instructions@), wallet.secret_bytes())
                    && e is BundleError,
            },
    {
        match build_dex_swap_transaction(wallet, &swap_instructions, recent_blockhash) {
            Ok(tx) => Ok(Bundle::single(tx, recent_blockhash, tip_account, tip_amount)),
            Err(e) => Err(e),
        }
    }

    /// A token transfer and the payment of its tip: exactly two transactions,
    /// the transfer first and the tip second, and the tip announced to the relay.
    pub fn create_token_transfer_with_tip_bundle(
        wallet: &Keypair,
        token_mint: Pubkey,
        from_token_account: Pubkey,
        to_token_account: Pubkey,
        token_amount: u64,
        tip_account: Pubkey,
        tip_amount: u64,
        recent_blockhash: &Blockhash,
    ) -> (r: Result<Bundle, JitoError<String>>)
        ensures
            r matches Ok(bundle) && bundle@ == (BundleView {
                transactions: seq![
                    token_transfer_transaction(
                        wallet.secret_bytes(),
                        from_token_account@,
                        to_token_account@,
                        token_amount,
                        recent_blockhash@,
                    ),
                    transfer_transaction(
                        wallet.secret_bytes(),
                        tip_account@,
                        tip_amount,
                        recent_blockhash@,
                    ),
                ],
                recent_blockhash: recent_blockhash@,
                tip_account: Some(tip_account@),
                tip_amount: Some(tip_amount),
            }),
    {
        let mut transactions: Vec<SignedTransaction> = Vec::new();
        let transfer_tx = match build_token_transfer_transaction(
            wallet,
            &from_token_account,
            &to_token_account,
            token_amount,
            recent_blockhash,
        ) {
            Ok(tx) => tx,
            Err(e) => {
                return Err(e);
            },
        };
        transactions.push(transfer_tx);
        let tip_tx = match build_tip_transaction(wallet, tip_account, tip_amount, recent_blockhash) {
            Ok(tx) => tx,
            Err(e) => {
                return Err(e);
            },
        };
        transactions.push(tip_tx);
        assert(transaction_views(transactions@) =~= seq![transfer_tx@, tip_tx@]);
        Ok(
            Bundle {
                transactions,
                recent_blockhash: *recent_blockhash,
                tip_account: Some(tip_account),
                tip_amount: Some(tip_amount),
            },
        )
    }

    /// A batch of token transfers: one transaction per request, in the order
    /// of the requests, all tied to the same reference hash. An empty batch
    /// makes no bundle.
    pub fn create_batch_token_transfers_bundle(
        wallet: &Keypair,
        transfers: Vec<TokenTransferRequest>,
        tip_account: Option<Pubkey>,
        tip_amount: Option<u64>,
        recent_blockhash: &Blockhash,
    ) -> (r: Result<Bundle, JitoError<String>>)
        ensures
            transfers@.len() > 0 ==> (r matches Ok(bundle) && bundle@ == (BundleView {
                transactions: batch_transactions(
                    wallet.secret_bytes(),
                    transfers@,
                    recent_blockhash@,
                ),
                recent_blockhash: recent_blockhash@,
                tip_account: optional_pubkey_view(tip_account),
                tip_amount,
            })),
            transfers@.len() == 0 ==> r matches Err(JitoError::BundleError(_)),
    {
        if transfers.len() == 0 {
            return Err(
                JitoError::BundleError(String::from_str("a bundle holds at least one transaction")),
            );
        }
        let ghost expected = batch_transactions(
            wallet.secret_bytes(),
            transfers@,
            recent_blockhash@,
        );
        let mut transactions: Vec<SignedTransaction> = Vec::new();
        let mut i: usize = 0;
        while i < transfers.len()
            invariant
                i <= transfers@.len(),
                expected == batch_transactions(
                    wallet.secret_bytes(),
                    transfers@,
                    recent_blockhash@,
                ),
                transaction_views(transactions@) == expected.take(i as int),
            decreases transfers@.len() - i,
        {
            let transfer = &transfers[i];
            let tx = match build_token_transfer_transaction(
                wallet,
                &transfer.from_token_account,
                &transfer.to_token_account,
                transfer.amount,
                recent_blockhash,
            ) {
                Ok(tx) => tx,
                Err(e) => {
                    return Err(e);
                },
            };
            let ghost before = transaction_views(transactions@);
            transactions.push(tx);
            proof {
                assert(*transfer == transfers@[i as int]);
                assert(expected[i as int] == tx@);
                assert(transaction_views(transactions@) =~= before.push(tx@));
                assert(expected.take(i + 1) =~= expected.take(i as int).push(expected[i as int]));
            }
            i += 1;
        }
        assert(expected.take(i as int) =~= expected);
        Ok(Bundle { transactions, recent_blockhash: *recent_blockhash, tip_account, tip_amount })
    }

    /// An arbitrage: the swap that carries the caller's instructions, then
    /// the payment of the tip, and the tip announced to the relay. Fails with
    /// a bundle error exactly when the wallet cannot sign the swap
    /// instructions as one transaction.
    pub fn create_arbitrage_bundle(
        wallet: &Keypair,
        swap_instructions: &Vec<Instruction>,
        tip_account: Pubkey,
        tip_amount: u64,
        recent_blockhash: &Blockhash,
    ) -> (r: Result<Bundle, JitoError<String>>)
        ensures
            match r {
                Ok(bundle) => signable(
                    instruction_views(swap_instructions@),
                    wallet.secret_bytes(),
                ) && bundle@ == (BundleView {
                    transactions: arbitrage_transactions(
                        wallet.secret_bytes(),
                        instruction_views(swap_instructions@),
                        tip_account@,
                        tip_amount,
                        recent_blockhash@,
                    ),
                    recent_blockhash: recent_blockhash@,
                    tip_account: Some(tip_account@),
                    tip_amount: Some(tip_amount),
                }),
                Err(e) => !signable(instruction_views(swap_instructions@), wallet.secret_bytes())
                    && e is BundleError,
            },
    {
        match build_arbitrage_transactions(
            wallet,
            swap_instructions,
            tip_account,
            tip_amount,
            recent_blockhash,
        ) {
            Ok(transactions) => Ok(
                Bundle {
                    transactions,
                    recent_blockhash: *recent_blockhash,
                    tip_account: Some(tip_account),
                    tip_amount: Some(tip_amount),
                },
            ),
            Err(e) => Err(e),
        }
    }

    /// Writes the call that submits the bundle: every transaction encoded,
    /// in the bundle's order, with the bundle's tip. Fails with a bundle
    /// error exactly when some transaction is too large to encode.
    pub fn send_bundle(&self, client: &BundleClient) -> (r: Result<BundleRequest, JitoError<String>>)
        ensures
            match r {
                Ok(request) => encodable(self@.transactions) && request@ == send_bundle_request(
                    self@.transactions,
                    self@.tip_account,
                    self@.tip_amount,
                ),
                Err(e) => !encodable(self@.transactions) && e is BundleError,
            },
    {
        match client.send_bundle(&self.transactions, self.tip_account, self.tip_amount) {
            Ok(request) => Ok(request),
            Err(e) => Err(JitoError::BundleError(e.into_message())),
        }
    }
}

} // verus!
