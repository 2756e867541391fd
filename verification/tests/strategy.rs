use jito_bundle::arbitrage::{
    congestion_or_none, Arbitrage, CycleReport, LoopAction, ARBITRAGE_INTERVAL_MS, SCAN_AMOUNT,
};
use jito_bundle::client::{MemPoolTransaction, TipAccount};
use jito_bundle::copytrade::{CopyTrade, BACKRUN_INTERVAL_MS};
use jito_bundle::ledger::{Blockhash, Keypair, Pubkey};
use jito_bundle::tool::{build_tip_transaction, system_transfer_instruction};
use jito_bundle::{ArbitrageConfig, ArbitrageOpportunity, BackrunConfig, Jito, JitoError};

fn opportunity(expected_profit: u64, input_amount: u64) -> ArbitrageOpportunity {
    ArbitrageOpportunity {
        route: vec![],
        expected_profit,
        input_amount,
        output_amount: input_amount + expected_profit,
        dexes: vec![String::from("dex")],
    }
}

fn arbitrage() -> Arbitrage {
    Arbitrage::new(Jito::new().unwrap())
}

fn tip_account(pubkey: &str) -> TipAccount {
    TipAccount { pubkey: String::from(pubkey), lamports_per_signature: 9 }
}

fn pending(signature: &str) -> MemPoolTransaction {
    MemPoolTransaction {
        signature: String::from(signature),
        slot: 1,
        cu_consumed: None,
        priority_fee: Some(60_000),
    }
}

#[test]
fn first_qualifying_opportunity_is_taken() {
    let config = ArbitrageConfig::default();
    let scan = vec![opportunity(9_999, 1), opportunity(10_000, 2), opportunity(50_000, 3)];
    assert_eq!(arbitrage().arbitrage_cycle(scan, &config), Ok(opportunity(10_000, 2)));
    let scan = vec![opportunity(70_000, 1), opportunity(80_000, 2)];
    assert_eq!(arbitrage().arbitrage_cycle(scan, &config), Ok(opportunity(70_000, 1)));
}

#[test]
fn scan_without_qualifying_opportunity_is_no_opportunity() {
    let config = ArbitrageConfig::default();
    assert_eq!(
        arbitrage().arbitrage_cycle(vec![], &config),
        Err(JitoError::NoArbitrageOpportunity)
    );
    let scan = vec![opportunity(1, 1), opportunity(9_999, 2)];
    assert_eq!(arbitrage().arbitrage_cycle(scan, &config), Err(JitoError::NoArbitrageOpportunity));
}

#[test]
fn cycle_without_opportunity_is_idle_and_the_loop_goes_on() {
    let strategy = arbitrage();
    let outcome = strategy
        .arbitrage_cycle(vec![opportunity(1, 1)], &ArbitrageConfig::default())
        .map(|_| String::from("unreached"));
    assert_eq!(
        strategy.monitor_and_arbitrage(outcome, false),
        (CycleReport::Idle, LoopAction::WaitThenScan(2_000))
    );
    assert_eq!(ARBITRAGE_INTERVAL_MS, 2_000);
    assert_eq!(SCAN_AMOUNT, 1_000_000);
}

#[test]
fn failed_cycle_is_reported_and_the_loop_goes_on() {
    let strategy = arbitrage();
    assert_eq!(
        strategy.monitor_and_arbitrage(Err(JitoError::BundleError(String::from("rejected"))), false),
        (
            CycleReport::Failed(String::from("Bundle error: rejected")),
            LoopAction::WaitThenScan(ARBITRAGE_INTERVAL_MS)
        )
    );
    assert_eq!(
        strategy.monitor_and_arbitrage(Err(JitoError::InsufficientBalance), false).0,
        CycleReport::Failed(String::from("Insufficient balance"))
    );
    assert_eq!(
        strategy.monitor_and_arbitrage(Ok(String::from("id-1")), false),
        (CycleReport::Executed(String::from("id-1")), LoopAction::WaitThenScan(2_000))
    );
}

#[test]
fn cancellation_stops_the_loop_between_cycles() {
    let strategy = arbitrage();
    assert_eq!(
        strategy.monitor_and_arbitrage(Ok(String::from("id-1")), true),
        (CycleReport::Executed(String::from("id-1")), LoopAction::Stop)
    );
    assert_eq!(
        strategy.monitor_and_arbitrage(Err(JitoError::NoArbitrageOpportunity), true).1,
        LoopAction::Stop
    );
    let backrun = CopyTrade::new(Jito::new().unwrap());
    assert_eq!(backrun.after_scan(true), LoopAction::Stop);
    assert_eq!(backrun.after_scan(false), LoopAction::WaitThenScan(500));
    assert_eq!(BACKRUN_INTERVAL_MS, 500);
}

#[test]
fn arbitrage_bundle_is_swap_then_sized_tip() {
    let wallet = Keypair::new_from_array([7u8; 32]);
    let hash = Blockhash::new_from_array([3u8; 32]);
    let swap = vec![system_transfer_instruction(&wallet.pubkey(), &Pubkey::new_from_array([8; 32]), 1)];
    let bundle = arbitrage()
        .exe_arbitrage(
            &wallet,
            &opportunity(100_000, 5),
            &ArbitrageConfig::default(),
            &tip_account("11111111111111111111111111111111"),
            10_000,
            &swap,
            &hash,
        )
        .unwrap();
    let tip = build_tip_transaction(&wallet, Pubkey::new_from_array([0; 32]), 20_000, &hash).unwrap();
    assert_eq!(bundle.transactions().len(), 2);
    assert_eq!(bundle.transactions()[1], tip);
    assert_eq!(bundle.tip_account(), Some(Pubkey::new_from_array([0; 32])));
    assert_eq!(bundle.tip_amount(), Some(20_000));
}

#[test]
fn arbitrage_with_unreadable_tip_account_is_a_serialization_error() {
    let wallet = Keypair::new_from_array([7u8; 32]);
    let hash = Blockhash::new_from_array([3u8; 32]);
    let r = arbitrage().exe_arbitrage(
        &wallet,
        &opportunity(100_000, 5),
        &ArbitrageConfig::default(),
        &tip_account("0OIl"),
        0,
        &vec![],
        &hash,
    );
    assert!(matches!(r, Err(JitoError::SerializationError(_))));
}

#[test]
fn backrun_bundle_is_target_then_backrun() {
    let wallet = Keypair::new_from_array([7u8; 32]);
    let hash = Blockhash::new_from_array([3u8; 32]);
    let target = build_tip_transaction(&wallet, Pubkey::new_from_array([1; 32]), 1, &hash).unwrap();
    let backrun = build_tip_transaction(&wallet, Pubkey::new_from_array([2; 32]), 2, &hash).unwrap();
    let strategy = CopyTrade::new(Jito::new().unwrap());
    let bundle = strategy
        .exe_backrun(
            target.clone(),
            backrun.clone(),
            &BackrunConfig::default(),
            &tip_account("11111111111111111111111111111111"),
        )
        .unwrap();
    assert_eq!(bundle.transactions(), &vec![target.clone(), backrun]);
    assert_eq!(bundle.tip_amount(), Some(50_000));
    assert_eq!(bundle.tip_account(), Some(Pubkey::new_from_array([0; 32])));

    let other = Blockhash::new_from_array([4u8; 32]);
    let stale = build_tip_transaction(&wallet, Pubkey::new_from_array([2; 32]), 2, &other).unwrap();
    let r = strategy.exe_backrun(
        target.clone(),
        stale,
        &BackrunConfig::default(),
        &tip_account("11111111111111111111111111111111"),
    );
    assert!(matches!(r, Err(JitoError::BundleError(_))));
    let r = strategy.exe_backrun(
        target.clone(),
        target,
        &BackrunConfig::default(),
        &tip_account("?"),
    );
    assert!(matches!(r, Err(JitoError::SerializationError(_))));
}

#[test]
fn scan_follows_at_most_the_configured_number_of_targets() {
    let strategy = CopyTrade::new(Jito::new().unwrap());
    let config = BackrunConfig::default();
    let seven: Vec<MemPoolTransaction> =
        ["a", "b", "c", "d", "e", "f", "g"].iter().map(|s| pending(s)).collect();
    let targets = strategy.monitor_for_backrun_opportunities(seven, &config);
    assert_eq!(
        targets,
        vec![pending("a"), pending("b"), pending("c"), pending("d"), pending("e")]
    );
    let two = vec![pending("a"), pending("b")];
    assert_eq!(
        strategy.monitor_for_backrun_opportunities(two, &config),
        vec![pending("a"), pending("b")]
    );
    let none = BackrunConfig { max_transactions: 0, ..config };
    assert!(strategy.monitor_for_backrun_opportunities(vec![pending("a")], &none).is_empty());
}

#[test]
fn failed_congestion_reading_counts_as_none() {
    let failed: Result<u64, JitoError<String>> =
        Err(JitoError::BlockEngineError(String::from("down")));
    assert_eq!(congestion_or_none(failed), 0);
    let read: Result<u64, JitoError<String>> = Ok(2_500);
    assert_eq!(congestion_or_none(read), 2_500);
}
