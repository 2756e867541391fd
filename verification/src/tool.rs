//! The transactions a bundle is made of, and the size of the tip.

use crate::ledger::{
    compilable, ed25519_pubkey, instruction_views, lemma_single_compilable, signed_by,
    signed_only_by, system_transfer, system_transfer_view, token_program_id, token_transfer,
    program_error_text, token_transfer_view, Blockhash, Instruction, InstructionView, Keypair,
    Pubkey, SignedTransaction, SignedTransactionView, SigningError,
};
use crate::types::JitoError;
use vstd::bytes::lemma_auto_spec_u64_to_from_le_bytes;
use vstd::pervasive::unreached;
use vstd::prelude::*;
use vstd::string::StringExecFns;

verus! {

// ============== what the builders produce ==============
/// The transaction by which a wallet pays lamports to an address.
pub open spec fn transfer_transaction(
    secret: Seq<u8>,
    to: Seq<u8>,
    lamports: u64,
    blockhash: Seq<u8>,
) -> SignedTransactionView {
    signed_by(secret, seq![system_transfer_view(ed25519_pubkey(secret), to, lamports)], blockhash)
}

/// The transaction by which a wallet moves tokens from one token account to
/// another that it has authority over.
pub open spec fn token_transfer_transaction(
    secret: Seq<u8>,
    source: Seq<u8>,
    destination: Seq<u8>,
    amount: u64,
    blockhash: Seq<u8>,
) -> SignedTransactionView {
    signed_by(
        secret,
        seq![token_transfer_view(source, destination, ed25519_pubkey(secret), amount)],
        blockhash,
    )
}

/// Whether a wallet can turn the instructions into one transaction.
pub open spec fn signable(instructions: Seq<InstructionView>, secret: Seq<u8>) -> bool {
    compilable(ed25519_pubkey(secret), instructions) && signed_only_by(
        instructions,
        ed25519_pubkey(secret),
    )
}

/// The text that tells why a wallet could not turn instructions into a transaction.
pub open spec fn signing_failure_text(e: SigningError) -> Seq<char> {
    match e {
        SigningError::TooLarge => "instructions do not fit into one message"@,
        SigningError::ForeignSigner => "instructions require a signer other than the wallet"@,
    }
}

/// The bundle error reported for instructions that a wallet cannot turn
/// into a transaction.
pub fn signing_failure(e: SigningError) -> (r: JitoError<String>)
    ensures
        r matches JitoError::BundleError(m) && m@ == signing_failure_text(e),
{
    match e {
        SigningError::TooLarge => JitoError::BundleError(
            String::from_str("instructions do not fit into one message"),
        ),
        SigningError::ForeignSigner => JitoError::BundleError(
            String::from_str("instructions require a signer other than the wallet"),
        ),
    }
}

fn sign_single(wallet: &Keypair, ix: Instruction, recent_blockhash: &Blockhash) -> (tx:
    SignedTransaction)
    requires
        ix@.accounts.len() <= 3,
        ix@.data.len() <= 12,
        forall|j: int|
            0 <= j < ix@.accounts.len() && (#[trigger] ix@.accounts[j]).is_signer
                ==> ix@.accounts[j].pubkey == wallet.spec_pubkey(),
    ensures
        tx@ == signed_by(wallet.secret_bytes(), seq![ix@], recent_blockhash@),
{
    let mut instructions: Vec<Instruction> = Vec::new();
    instructions.push(ix);
    proof {
        assert(instruction_views(instructions@) =~= seq![ix@]);
        lemma_single_compilable(wallet.spec_pubkey(), ix@);
    }
    match SignedTransaction::new(wallet, &instructions, recent_blockhash) {
        Ok(tx) => tx,
        Err(_) => unreached(),
    }
}

// ============== builders ==============
/// The instruction by which `from` pays `lamports` to `to`.
pub fn system_transfer_instruction(from: &Pubkey, to: &Pubkey, lamports: u64) -> (ix: Instruction)
    ensures
        ix@ == system_transfer_view(from@, to@, lamports),
{
    system_transfer(from, to, lamports)
}

/// The instruction by which `authority` moves `amount` token units from one
/// token account to another.
pub fn token_transfer_instruction(
    source: &Pubkey,
    destination: &Pubkey,
    authority: &Pubkey,
    amount: u64,
) -> (r: Result<Instruction, JitoError<String>>)
    ensures
        r matches Ok(ix) && ix@ == token_transfer_view(source@, destination@, authority@, amount),
{
    let program = token_program_id();
    match token_transfer(&program, source, destination, authority, amount) {
        Ok(ix) => Ok(ix),
        Err(e) => Err(JitoError::BundleError(program_error_text(&e))),
    }
}

/// Builds and signs the payment of a tip: a transfer of `tip_amount` lamports
/// from the wallet to the tip account, tied to the given reference hash.
pub fn build_tip_transaction(
    wallet: &Keypair,
    tip_account: Pubkey,
    tip_amount: u64,
    recent_blockhash: &Blockhash,
) -> (r: Result<SignedTransaction, JitoError<String>>)
    ensures
        r matches Ok(tx) && tx@ == transfer_transaction(
            wallet.secret_bytes(),
            tip_account@,
            tip_amount,
            recent_blockhash@,
        ),
{
    let payer = wallet.pubkey();
    let ix = system_transfer_instruction(&payer, &tip_account, tip_amount);
    proof {
        lemma_auto_spec_u64_to_from_le_bytes();
    }
    Ok(sign_single(wallet, ix, recent_blockhash))
}

/// Builds and signs a transfer of `amount` token units between two token
/// accounts that the wallet has authority over.
pub fn build_token_transfer_transaction(
    wallet: &Keypair,
    from_token_account: &Pubkey,
    to_token_account: &Pubkey,
    amount: u64,
    recent_blockhash: &Blockhash,
) -> (r: Result<SignedTransaction, JitoError<String>>)
    ensures
        r matches Ok(tx) && tx@ == token_transfer_transaction(
            wallet.secret_bytes(),
            from_token_account@,
            to_token_account@,
            amount,
            recent_blockhash@,
        ),
{
    let authority = wallet.pubkey();
    match token_transfer_instruction(from_token_account, to_token_account, &authority, amount) {
        Ok(ix) => {
            proof {
                lemma_auto_spec_u64_to_from_le_bytes();
            }
            Ok(sign_single(wallet, ix, recent_blockhash))
        },
        Err(e) => Err(e),
    }
}

/// Signs the swap instructions that the caller supplies as one transaction.
/// Fails with a bundle error exactly when they do not fit into one message
/// or ask for a signature other than the wallet's.
pub fn build_dex_swap_transaction(
    wallet: &Keypair,
    swap_instructions: &Vec<Instruction>,
    recent_blockhash: &Blockhash,
) -> (r: Result<SignedTransaction, JitoError<String>>)
    ensures
        match r {
            Ok(tx) => signable(instruction_views(swap_instructions@), wallet.secret_bytes())
                && tx@ == signed_by(
                wallet.secret_bytes(),
                instruction_views(swap_instructions@),
                recent_blockhash@,
            ),
            Err(e) => !signable(instruction_views(swap_instructions@), wallet.secret_bytes())
                && e is BundleError,
        },
{
    match SignedTransaction::new(wallet, swap_instructions, recent_blockhash) {
        Ok(tx) => Ok(tx),
        Err(e) => Err(signing_failure(e)),
    }
}

/// The two transactions of an arbitrage: the swap first, the tip second.
pub open spec fn arbitrage_transactions(
    secret: Seq<u8>,
    swap_instructions: Seq<InstructionView>,
    tip_account: Seq<u8>,
    tip_amount: u64,
    blockhash: Seq<u8>,
) -> Seq<SignedTransactionView> {
    seq![
        signed_by(secret, swap_instructions, blockhash),
        transfer_transaction(secret, tip_account, tip_amount, blockhash),
    ]
}

/// The views of a list of transactions, in order.
pub open spec fn transaction_views(transactions: Seq<SignedTransaction>) -> Seq<
    SignedTransactionView,
> {
    transactions.map_values(|tx: SignedTransaction| tx@)
}

/// Builds the transactions of an arbitrage: the swap, then the tip, both
/// tied to the same reference hash.
pub fn build_arbitrage_transactions(
    wallet: &Keypair,
    swap_instructions: &Vec<Instruction>,
    tip_account: Pubkey,
    tip_amount: u64,
    recent_blockhash: &Blockhash,
) -> (r: Result<Vec<SignedTransaction>, JitoError<String>>)
    ensures
        match r {
            Ok(transactions) => signable(
                instruction_views(swap_instructions@),
                wallet.secret_bytes(),
            ) && transaction_views(transactions@) == arbitrage_transactions(
                wallet.secret_bytes(),
                instruction_views(swap_instructions@),
                tip_account@,
                tip_amount,
                recent_blockhash@,
            ),
            Err(e) => !signable(instruction_views(swap_instructions@), wallet.secret_bytes())
                && e is BundleError,
        },
{
    let mut transactions: Vec<SignedTransaction> = Vec::new();
    let arbitrage_tx = match build_dex_swap_transaction(wallet, swap_instructions, recent_blockhash) {
        Ok(tx) => tx,
        Err(e) => {
            return Err(e);
        },
    };
    transactions.push(arbitrage_tx);
    let tip_tx = match build_tip_transaction(wallet, tip_account, tip_amount, recent_blockhash) {
        Ok(tx) => tx,
        Err(e) => {
            return Err(e);
        },
    };
    transactions.push(tip_tx);
    proof {
        assert(transaction_views(transactions@) =~= arbitrage_transactions(
            wallet.secret_bytes(),
            instruction_views(swap_instructions@),
            tip_account@,
            tip_amount,
            recent_blockhash@,
        ));
    }
    Ok(transactions)
}

// ============== the size of the tip ==============
/// The ceiling of the profit share that is paid as tip, in lamports.
pub const TIP_CAP: u64 = 1_000_000;

/// The number of basis points that make one whole.
pub const BASIS_POINTS: u64 = 10_000;

/// The share of the expected profit that goes into the tip, in basis points
/// of a lamport: the percentage of the profit, and at most the cap. Nothing
/// is cut off here. The percentage is in basis points.
pub open spec fn spec_capped_share(expected_profit: u64, tip_percentage: u64) -> int {
    let share = expected_profit * tip_percentage;
    if share <= TIP_CAP * BASIS_POINTS {
        share
    } else {
        TIP_CAP * BASIS_POINTS
    }
}

/// The tip: the capped share raised by the congestion multiplier, cut to
/// whole lamports once, at the end, and at most what a `u64` holds.
/// Congestion is in basis points; none leaves the capped share as it is.
pub open spec fn spec_optimal_tip(
    expected_profit: u64,
    network_congestion: u64,
    tip_percentage: u64,
) -> int {
    let raised = (spec_capped_share(expected_profit, tip_percentage) * (BASIS_POINTS
        + network_congestion)) / (BASIS_POINTS * BASIS_POINTS);
    if raised <= u64::MAX {
        raised
    } else {
        u64::MAX as int
    }
}

/// The tip never exceeds the cap raised by the congestion multiplier.
pub proof fn lemma_tip_within_cap(expected_profit: u64, network_congestion: u64, tip_percentage: u64)
    ensures
        0 <= spec_optimal_tip(expected_profit, network_congestion, tip_percentage),
        spec_optimal_tip(expected_profit, network_congestion, tip_percentage) * BASIS_POINTS
            <= TIP_CAP * (BASIS_POINTS + network_congestion),
{
    let share = spec_capped_share(expected_profit, tip_percentage);
    let factor = BASIS_POINTS + network_congestion;
    assert(0 <= expected_profit * tip_percentage) by (nonlinear_arith);
    assert(0 <= share <= TIP_CAP * BASIS_POINTS);
    assert(0 <= share * factor <= (TIP_CAP * BASIS_POINTS) * factor) by (nonlinear_arith)
        requires
            0 <= share <= TIP_CAP * BASIS_POINTS,
            0 <= factor,
    ;
    let raised = (share * factor) / (BASIS_POINTS * BASIS_POINTS);
    assert(0 <= raised && raised * 100_000_000 <= share * factor) by (nonlinear_arith)
        requires
            raised == (share * factor) / (BASIS_POINTS * BASIS_POINTS),
            0 <= share * factor,
            BASIS_POINTS == 10_000,
    ;
    assert(raised * BASIS_POINTS <= TIP_CAP * factor) by (nonlinear_arith)
        requires
            raised * 100_000_000 <= share * factor,
            share * factor <= (TIP_CAP * BASIS_POINTS) * factor,
            BASIS_POINTS == 10_000,
    ;
}

/// Without congestion the tip is the percentage of the profit in whole
/// lamports, and at most the cap.
pub proof fn lemma_tip_without_congestion(expected_profit: u64, tip_percentage: u64)
    ensures
        spec_optimal_tip(expected_profit, 0, tip_percentage) == if (expected_profit
            * tip_percentage) / (BASIS_POINTS as int) <= TIP_CAP {
            (expected_profit * tip_percentage) / (BASIS_POINTS as int)
        } else {
            TIP_CAP as int
        },
{
    let share = spec_capped_share(expected_profit, tip_percentage);
    let product = expected_profit * tip_percentage;
    assert(0 <= product) by (nonlinear_arith)
        requires
            product == expected_profit * tip_percentage,
    ;
    assert((share * 10_000) / 100_000_000 == share / 10_000) by (nonlinear_arith)
        requires
            0 <= share,
    ;
    assert(share * (BASIS_POINTS + 0) == share * 10_000) by (nonlinear_arith)
        requires
            BASIS_POINTS == 10_000,
    ;
    assert(BASIS_POINTS * BASIS_POINTS == 100_000_000) by (nonlinear_arith)
        requires
            BASIS_POINTS == 10_000,
    ;
    assert(TIP_CAP * BASIS_POINTS == 10_000_000_000) by (nonlinear_arith)
        requires
            BASIS_POINTS == 10_000,
            TIP_CAP == 1_000_000,
    ;
}

/// A tip of at most the whole profit, paid without congestion, never
/// exceeds the profit it is funded from.
pub proof fn lemma_tip_within_profit(expected_profit: u64, tip_percentage: u64)
    requires
        tip_percentage <= BASIS_POINTS,
    ensures
        spec_optimal_tip(expected_profit, 0, tip_percentage) <= expected_profit,
{
    lemma_tip_without_congestion(expected_profit, tip_percentage);
    let product = expected_profit * tip_percentage;
    assert(0 <= product <= expected_profit * 10_000) by (nonlinear_arith)
        requires
            product == expected_profit * tip_percentage,
            0 <= tip_percentage <= 10_000,
            0 <= expected_profit,
    ;
}

/// Sizes the tip for an expected profit. `tip_percentage` and
/// `network_congestion` are in basis points; a caller without a congestion
/// reading passes zero. The amount is cut to whole lamports once, after the
/// congestion multiplier is applied.
pub fn cal_optimal_tip(expected_profit: u64, network_congestion: u64, tip_percentage: u64) -> (tip:
    u64)
    ensures
        tip == spec_optimal_tip(expected_profit, network_congestion, tip_percentage),
        tip * BASIS_POINTS <= TIP_CAP * (BASIS_POINTS + network_congestion),
{
    proof {
        lemma_tip_within_cap(expected_profit, network_congestion, tip_percentage);
        assert(0 <= expected_profit * tip_percentage <= u64::MAX * u64::MAX) by (nonlinear_arith);
    }
    let share: u128 = expected_profit as u128 * tip_percentage as u128;
    let ceiling: u128 = TIP_CAP as u128 * BASIS_POINTS as u128;
    let capped: u128 = if share <= ceiling {
        share
    } else {
        ceiling
    };
    let factor: u128 = BASIS_POINTS as u128 + network_congestion as u128;
    proof {
        assert(0 <= capped * factor <= 10_000_000_000 * (10_000 + u64::MAX)) by (nonlinear_arith)
            requires
                0 <= capped <= 10_000_000_000,
                0 <= factor <= 10_000 + u64::MAX,
        ;
    }
    let raised: u128 = (capped * factor) / (BASIS_POINTS as u128 * BASIS_POINTS as u128);
    if raised <= u64::MAX as u128 {
        raised as u64
    } else {
        u64::MAX
    }
}

} // verus!
