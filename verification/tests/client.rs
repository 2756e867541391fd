use jito_bundle::client::{
    active_validators, high_priority_transactions, http_failure_message, is_success,
    BlockEngineClient, BlockEngineError, BlockEngineResponse, BundleClient, BundleError,
    BundleResponse, BundleResult, BundleStatus, BundleStatusResponse, ClientEnum, FetchFailure,
    Fetched, HealthClient, HealthError, HealthResponse, Leader, MemPoolTransaction, RelayError,
    StatisticsClient, StatisticsError, StatsResponse, TipError, TransactionsPoolClient,
    TransactionsPoolError, Validator, ValidatorsClient, ValidatorsError,
};
use jito_bundle::global::{
    BLOCK_EGNINE_RPC, BUNDLE_RPC, HEALTH_RPC, STATISTICS_RPC, TIP_RPC, TRANSACTIONS_POOL_RPC,
    VALIDATORS_RPC,
};
use jito_bundle::ledger::{Blockhash, Pubkey, SignedTransaction};
use jito_bundle::{Jito, JitoError};

fn text(s: &str) -> String {
    String::from(s)
}

fn refused<T>() -> Fetched<T> {
    Fetched::Refused { status: text("503 Service Unavailable"), body: text("busy") }
}

fn validator(identity: &str, active: bool) -> Validator {
    Validator { identity: text(identity), vote_account: text("v"), commission: 5, active }
}

fn pending(signature: &str, priority_fee: Option<u64>) -> MemPoolTransaction {
    MemPoolTransaction { signature: text(signature), slot: 1, cu_consumed: None, priority_fee }
}

fn health(status: &str) -> HealthResponse {
    HealthResponse { status: text(status), version: text("1.0"), uptime: Some(3) }
}

#[test]
fn success_statuses_are_the_two_hundreds() {
    assert!(!is_success(199));
    assert!(is_success(200));
    assert!(is_success(204));
    assert!(is_success(299));
    assert!(!is_success(300));
    assert!(!is_success(404));
    assert!(!is_success(0));
}

#[test]
fn failure_status_message_names_status_and_body() {
    assert_eq!(http_failure_message("404 Not Found", "no such route"), "HTTP 404 Not Found: no such route");
    assert_eq!(http_failure_message("", ""), "HTTP : ");
}

#[test]
fn exchange_outcomes_are_told_apart() {
    assert_eq!(Fetched::Decoded(7u64).into_result(), Ok(7));
    assert_eq!(
        Fetched::<u64>::TransportFailed(text("connection reset")).into_result(),
        Err(FetchFailure::RequestFailed(text("connection reset")))
    );
    assert_eq!(
        refused::<u64>().into_result(),
        Err(FetchFailure::RequestFailed(text("HTTP 503 Service Unavailable: busy")))
    );
    assert_eq!(
        Fetched::<u64>::Undecodable(text("expected value")).into_result(),
        Err(FetchFailure::ApiError(text("expected value")))
    );
}

#[test]
fn relay_error_object_is_a_rejection_with_its_message() {
    let client = BundleClient::new();
    let response = BundleResponse {
        result: None,
        error: Some(RelayError { message: text("bundle already processed") }),
    };
    assert_eq!(
        client.handle_response(Fetched::Decoded(response)),
        Err(BundleError::BundleRejected(text("bundle already processed")))
    );
    let both = BundleResponse {
        result: Some(BundleResult { bundle_id: text("abc") }),
        error: Some(RelayError { message: text("") }),
    };
    assert_eq!(
        client.handle_response(Fetched::Decoded(both)),
        Err(BundleError::BundleRejected(text("")))
    );
}

#[test]
fn transport_and_status_failures_are_request_failures() {
    let client = BundleClient::new();
    assert_eq!(
        client.handle_response(Fetched::TransportFailed(text("timed out"))),
        Err(BundleError::RequestFailed(text("timed out")))
    );
    assert_eq!(
        client.handle_response(refused()),
        Err(BundleError::RequestFailed(text("HTTP 503 Service Unavailable: busy")))
    );
}

#[test]
fn answer_without_result_and_error_is_an_api_error() {
    let client = BundleClient::new();
    let empty = BundleResponse { result: None, error: None };
    assert_eq!(
        client.handle_response(Fetched::Decoded(empty)),
        Err(BundleError::ApiError(text("No result in response")))
    );
    assert_eq!(
        client.handle_response(Fetched::Undecodable(text("EOF while parsing"))),
        Err(BundleError::ApiError(text("EOF while parsing")))
    );
}

#[test]
fn result_alone_is_the_bundle_identifier() {
    let client = BundleClient::new();
    let accepted =
        BundleResponse { result: Some(BundleResult { bundle_id: text("id-1") }), error: None };
    assert_eq!(client.handle_response(Fetched::Decoded(accepted)), Ok(text("id-1")));
}

#[test]
fn status_request_and_answer() {
    let client = BundleClient::new();
    let request = client.get_bundle_status("id-1");
    assert_eq!(request.jsonrpc, "2.0");
    assert_eq!(request.id, 1);
    assert_eq!(request.method, "getBundleStatus");
    assert_eq!(request.params, vec![text("id-1")]);
    let status = BundleStatus { bundle_id: text("id-1"), status: text("pending"), slot: Some(9) };
    let again = BundleStatus { bundle_id: text("id-1"), status: text("pending"), slot: Some(9) };
    assert_eq!(
        client.handle_status_response(Fetched::Decoded(BundleStatusResponse { result: status })),
        Ok(again)
    );
    assert_eq!(
        client.handle_status_response(Fetched::TransportFailed(text("down"))),
        Err(BundleError::RequestFailed(text("down")))
    );
}

#[test]
fn send_bundle_request_carries_the_encoded_transactions_in_order() {
    let client = BundleClient::new();
    let hash = Blockhash::new_from_array([0; 32]);
    let first =
        SignedTransaction { signatures: vec![[1u8; 64]], message: vec![9, 8, 7], recent_blockhash: hash };
    let second = SignedTransaction { signatures: vec![], message: vec![], recent_blockhash: hash };
    let request = client
        .send_bundle(&vec![first, second], Some(Pubkey::new_from_array([0; 32])), Some(77))
        .unwrap();
    assert_eq!(request.jsonrpc, "2.0");
    assert_eq!(request.id, 1);
    assert_eq!(request.method, "sendBundle");
    assert_eq!(request.params.len(), 1);
    assert_eq!(
        request.params[0].txs,
        vec![
            text("AQAAAAAAAAABAQEBAQEBAQEBAQEBAQEBAQEBAQEBAQEBAQEBAQEBAQEBAQEBAQEBAQEBAQEBAQEBAQEBAQEBAQEBAQEBAQEBCQgH"),
            text("AAAAAAAAAAA="),
        ]
    );
    assert_eq!(request.params[0].tip_account, Some(text("11111111111111111111111111111111")));
    assert_eq!(request.params[0].tip_amount, Some(77));

    let bare = client.send_bundle(&vec![], None, None).unwrap();
    assert!(bare.params[0].txs.is_empty());
    assert_eq!(bare.params[0].tip_account, None);
    assert_eq!(bare.params[0].tip_amount, None);
}

#[test]
fn clients_start_at_the_production_endpoints() {
    let jito = Jito::new().unwrap();
    assert_eq!(jito.bundle.endpoint, BUNDLE_RPC);
    assert_eq!(jito.tip.endpoint, TIP_RPC);
    assert_eq!(jito.block_engine.endpoint, BLOCK_EGNINE_RPC);
    assert_eq!(jito.validators.endpoint, VALIDATORS_RPC);
    assert_eq!(jito.transactions_pool.endpoint, TRANSACTIONS_POOL_RPC);
    assert_eq!(jito.health.endpoint, HEALTH_RPC);
    assert_eq!(jito.statistics.endpoint, STATISTICS_RPC);
    assert_eq!(BUNDLE_RPC, "https://mainnet.block-engine.jito.wtf/api/v1/bundles");
    assert_ne!(ClientEnum::Bundle, ClientEnum::Tip);
}

#[test]
fn endpoints_are_found_by_client_and_can_be_replaced() {
    let mut jito = Jito::new().unwrap();
    assert_eq!(jito.endpoint(ClientEnum::Bundle), BUNDLE_RPC);
    assert_eq!(jito.endpoint(ClientEnum::Tip), TIP_RPC);
    assert_eq!(jito.endpoint(ClientEnum::BlockEngine), BLOCK_EGNINE_RPC);
    assert_eq!(jito.endpoint(ClientEnum::Validators), VALIDATORS_RPC);
    assert_eq!(jito.endpoint(ClientEnum::TransactionsPool), TRANSACTIONS_POOL_RPC);
    assert_eq!(jito.endpoint(ClientEnum::Health), HEALTH_RPC);
    assert_eq!(jito.endpoint(ClientEnum::Statistics), STATISTICS_RPC);
    jito.health.endpoint = text("http://localhost:8080/health");
    assert_eq!(jito.endpoint(ClientEnum::Health), "http://localhost:8080/health");
    assert_eq!(jito.endpoint(ClientEnum::Bundle), BUNDLE_RPC);
}

#[test]
fn active_validators_keep_their_order() {
    let all = vec![validator("a", true), validator("b", false), validator("c", true)];
    assert_eq!(active_validators(all), vec![validator("a", true), validator("c", true)]);
    assert_eq!(active_validators(vec![]), vec![]);
    assert_eq!(active_validators(vec![validator("b", false)]), vec![]);
    let client = ValidatorsClient::new();
    assert_eq!(
        client.get_active_validators(Fetched::Decoded(vec![validator("b", false), validator("d", true)])),
        Ok(vec![validator("d", true)])
    );
    assert_eq!(
        client.get_validators(Fetched::Undecodable(text("bad"))),
        Err(ValidatorsError::ApiError(text("bad")))
    );
}

#[test]
fn high_priority_transactions_pay_at_least_the_fee() {
    let all = vec![
        pending("a", Some(10)),
        pending("b", None),
        pending("c", Some(9)),
        pending("d", Some(11)),
    ];
    assert_eq!(
        high_priority_transactions(all.iter().map(|t| pending(&t.signature, t.priority_fee)).collect(), 10),
        vec![pending("a", Some(10)), pending("d", Some(11))]
    );
    assert_eq!(high_priority_transactions(all, 0).len(), 4);
    let client = TransactionsPoolClient::new();
    assert_eq!(
        client.get_high_priority_transactions(Fetched::Decoded(vec![pending("b", None)]), 1),
        Ok(vec![])
    );
    assert_eq!(
        client.get_mempool_transactions(refused()),
        Err(TransactionsPoolError::RequestFailed(text("HTTP 503 Service Unavailable: busy")))
    );
}

#[test]
fn health_is_the_literal_status() {
    let client = HealthClient::new();
    assert_eq!(client.check_health(Fetched::Decoded(health("healthy"))), Ok(health("healthy")));
    assert_eq!(
        client.check_health(Fetched::Decoded(health("degraded"))),
        Err(HealthError::Unhealthy(text("degraded")))
    );
    assert_eq!(
        client.check_health(Fetched::Decoded(health("Healthy"))),
        Err(HealthError::Unhealthy(text("Healthy")))
    );
    assert_eq!(
        client.check_health(Fetched::TransportFailed(text("down"))),
        Err(HealthError::RequestFailed(text("down")))
    );
    assert!(client.is_healthy(Fetched::Decoded(health("healthy"))));
    assert!(!client.is_healthy(Fetched::Decoded(health(""))));
    assert!(!client.is_healthy(refused()));
}

#[test]
fn block_engine_and_statistics_answers() {
    let engine = BlockEngineClient::new();
    let info = || BlockEngineResponse {
        leaders: vec![Leader { pubkey: text("l"), slot: 4 }],
        congestion: 2_500,
        current_slot: 4,
    };
    assert_eq!(engine.get_network_congestion(Fetched::Decoded(info())), Ok(2_500));
    assert_eq!(
        engine.get_current_leaders(Fetched::Decoded(info())),
        Ok(vec![Leader { pubkey: text("l"), slot: 4 }])
    );
    assert_eq!(engine.get_block_engine_info(Fetched::Decoded(info())), Ok(info()));
    assert_eq!(
        engine.get_network_congestion(Fetched::Undecodable(text("bad"))),
        Err(BlockEngineError::ApiError(text("bad")))
    );
    let statistics = StatisticsClient::new();
    let stats = || StatsResponse {
        bundles_sent: 10,
        bundles_accepted: 9,
        success_rate: 9_000,
        average_tip: 5,
        total_volume: 100,
    };
    assert_eq!(statistics.get_success_rate(Fetched::Decoded(stats())), Ok(9_000));
    assert_eq!(statistics.get_statistics(Fetched::Decoded(stats())), Ok(stats()));
    assert_eq!(
        statistics.get_statistics(Fetched::TransportFailed(text("down"))),
        Err(StatisticsError::RequestFailed(text("down")))
    );
}

#[test]
fn errors_give_up_their_messages() {
    assert_eq!(BundleError::BundleRejected(text("dup")).into_message(), "dup");
    assert_eq!(BundleError::SerializationError(text("s")).into_message(), "s");
    assert_eq!(TipError::NoTipAccounts.into_message(), "No tip accounts");
    assert_eq!(HealthError::Unhealthy(text("degraded")).into_message(), "degraded");
    assert_eq!(
        TipError::from_failure(FetchFailure::ApiError(text("x"))),
        TipError::ApiError(text("x"))
    );
}

#[test]
fn service_reports_every_client_in_its_own_kind() {
    let jito = Jito::new().unwrap();
    assert_eq!(
        jito.health_check(Fetched::Decoded(health("degraded"))),
        Err(JitoError::HealthError(text("degraded")))
    );
    assert_eq!(
        jito.health_check(refused()),
        Err(JitoError::HealthError(text("HTTP 503 Service Unavailable: busy")))
    );
    assert_eq!(jito.health_check(Fetched::Decoded(health("healthy"))), Ok(health("healthy")));
    assert_eq!(
        jito.get_statistics(Fetched::Undecodable(text("bad"))),
        Err(JitoError::StatisticsError(text("bad")))
    );
    assert_eq!(
        jito.get_tip_accounts(Fetched::TransportFailed(text("down"))),
        Err(JitoError::TipError(text("down")))
    );
    assert_eq!(
        jito.get_optimal_tip_account(Fetched::Decoded(vec![])),
        Err(JitoError::TipError(text("No tip accounts")))
    );
    assert_eq!(
        jito.get_network_congestion(Fetched::TransportFailed(text("down"))),
        Err(JitoError::BlockEngineError(text("down")))
    );
    assert_eq!(
        jito.get_current_leaders(Fetched::TransportFailed(text("down"))),
        Err(JitoError::BlockEngineError(text("down")))
    );
    assert_eq!(
        jito.get_active_validators(Fetched::TransportFailed(text("down"))),
        Err(JitoError::ValidatorsError(text("down")))
    );
    assert_eq!(
        jito.get_mempool_transactions(Fetched::TransportFailed(text("down"))),
        Err(JitoError::TransactionsPoolError(text("down")))
    );
    assert_eq!(
        jito.monitor_bundle_status(Fetched::TransportFailed(text("down"))),
        Err(JitoError::BundleError(text("down")))
    );
}

#[test]
fn submission_answers_reach_the_caller_as_bundle_errors() {
    let jito = Jito::new().unwrap();
    let rejected = BundleResponse {
        result: Some(BundleResult { bundle_id: text("ignored") }),
        error: Some(RelayError { message: text("bundle already processed") }),
    };
    assert_eq!(
        jito.submitted_bundle(Fetched::Decoded(rejected)),
        Err(JitoError::BundleError(text("bundle already processed")))
    );
    let accepted =
        BundleResponse { result: Some(BundleResult { bundle_id: text("id-1") }), error: None };
    assert_eq!(jito.submitted_bundle(Fetched::Decoded(accepted)), Ok(text("id-1")));
    let empty = BundleResponse { result: None, error: None };
    assert_eq!(
        jito.submitted_bundle(Fetched::Decoded(empty)),
        Err(JitoError::BundleError(text("No result in response")))
    );
    assert_eq!(
        jito.submitted_bundle(Fetched::TransportFailed(text("timed out"))),
        Err(JitoError::BundleError(text("timed out")))
    );
    assert_eq!(
        jito.submitted_bundle(refused()),
        Err(JitoError::BundleError(text("HTTP 503 Service Unavailable: busy")))
    );
    assert_eq!(
        jito.submitted_bundle(Fetched::Undecodable(text("EOF"))),
        Err(JitoError::BundleError(text("EOF")))
    );
}
