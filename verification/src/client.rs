//! The relay's clients: what each one asks, and the rules that turn what a
//! call brought back into a value or an error of the calling component.

use crate::encoder::{base64_text, encode, spec_frame, MAX_FRAME_BYTES};
use crate::global::{
    BLOCK_EGNINE_RPC, BUNDLE_RPC, HEALTH_RPC, STATISTICS_RPC, TIP_RPC, TRANSACTIONS_POOL_RPC,
    VALIDATORS_RPC,
};
use crate::ledger::{
    base58_text, optional_pubkey_view, pubkey_to_string, Pubkey, SignedTransaction,
    SignedTransactionView,
};
use crate::tool::transaction_views;
use vstd::prelude::*;
use vstd::string::StringExecFns;

verus! {

/// The collaborators a relay client speaks to.
#[derive(Debug, Clone, Copy, PartialEq, Eq, Structural)]
pub enum ClientEnum {
    Bundle,
    Tip,
    BlockEngine,
    Validators,
    TransactionsPool,
    Health,
    Statistics,
}

// ============== what a call brought back ==============
/// The outcome of one HTTP exchange, before any interpretation.
#[derive(Debug, PartialEq, Eq)]
pub enum Fetched<T> {
    /// The exchange never completed; carries the transport's own description.
    TransportFailed(String),
    /// The service answered with a status outside the success range;
    /// `status` is the status line as the transport shows it.
    Refused { status: String, body: String },
    /// The service answered with success, but the body could not be decoded.
    Undecodable(String),
    /// The decoded body.
    Decoded(T),
}

/// Why an exchange yielded no value.
#[derive(Debug, PartialEq, Eq)]
pub enum FetchFailure {
    /// The call did not complete, or completed with a failure status.
    RequestFailed(String),
    /// The call completed, but what came back breaks the protocol.
    ApiError(String),
}

/// Whether an HTTP status code reports success.
pub open spec fn spec_is_success(code: u16) -> bool {
    200 <= code < 300
}

#[verifier::when_used_as_spec(spec_is_success)]
pub fn is_success(code: u16) -> (r: bool)
    ensures
        r == spec_is_success(code),
{
    200 <= code && code < 300
}

/// The message reported for a failure status: `HTTP <status>: <body>`.
pub open spec fn spec_http_failure_message(status: Seq<char>, body: Seq<char>) -> Seq<char> {
    "HTTP "@ + status + ": "@ + body
}

pub fn http_failure_message(status: &str, body: &str) -> (m: String)
    ensures
        m@ == spec_http_failure_message(status@, body@),
{
    String::from_str("HTTP ").concat(status).concat(": ").concat(body)
}

/// Whether a failure is the one that an exchange amounts to: a transport
/// failure and a failure status are request failures, the latter with the
/// message `HTTP <status>: <body>`; an undecodable body is a protocol failure.
pub open spec fn failure_of<T>(reply: Fetched<T>, failure: FetchFailure) -> bool {
    match reply {
        Fetched::TransportFailed(why) => failure == FetchFailure::RequestFailed(why),
        Fetched::Refused { status, body } => failure matches FetchFailure::RequestFailed(m) && m@
            == spec_http_failure_message(status@, body@),
        Fetched::Undecodable(why) => failure == FetchFailure::ApiError(why),
        Fetched::Decoded(_) => false,
    }
}

impl<T> Fetched<T> {
    /// Interprets one exchange: the decoded value, or the failure it amounts to.
    pub fn into_result(self) -> (r: Result<T, FetchFailure>)
        ensures
            match r {
                Ok(value) => self == Fetched::Decoded(value),
                Err(failure) => failure_of(self, failure),
            },
    {
        match self {
            Fetched::TransportFailed(why) => Err(FetchFailure::RequestFailed(why)),
            Fetched::Refused { status, body } => Err(
                FetchFailure::RequestFailed(http_failure_message(status.as_str(), body.as_str())),
            ),
            Fetched::Undecodable(why) => Err(FetchFailure::ApiError(why)),
            Fetched::Decoded(value) => Ok(value),
        }
    }
}

// ============== bundle client ==============
/// Why a bundle could not be submitted or its status not be read.
#[derive(Debug, PartialEq, Eq)]
pub enum BundleError {
    /// The call itself did not complete.
    RequestFailed(String),
    /// A transaction could not be put into, or read from, its transport form.
    SerializationError(String),
    /// The relay answered with an error object; carries its message verbatim.
    BundleRejected(String),
    /// The relay's answer breaks the protocol.
    ApiError(String),
}

impl BundleError {
    /// Whether the error reports a failed exchange.
    pub open spec fn is_fetch_failure(self) -> bool {
        self is RequestFailed || self is ApiError
    }

    /// The failed exchange that the error reports.
    pub open spec fn as_failure(self) -> FetchFailure {
        match self {
            BundleError::RequestFailed(m) => FetchFailure::RequestFailed(m),
            BundleError::ApiError(m) => FetchFailure::ApiError(m),
            _ => arbitrary(),
        }
    }

    /// Reports a failed exchange as this component's error, message kept.
    pub fn from_failure(failure: FetchFailure) -> (e: BundleError)
        ensures
            e.is_fetch_failure(),
            e.as_failure() == failure,
    {
        match failure {
            FetchFailure::RequestFailed(m) => BundleError::RequestFailed(m),
            FetchFailure::ApiError(m) => BundleError::ApiError(m),
        }
    }

    /// The message the error carries.
    pub open spec fn spec_message(self) -> Seq<char> {
        match self {
            BundleError::RequestFailed(m) => m@,
            BundleError::SerializationError(m) => m@,
            BundleError::BundleRejected(m) => m@,
            BundleError::ApiError(m) => m@,
        }
    }

    /// Takes the message out of the error, verbatim.
    pub fn into_message(self) -> (m: String)
        ensures
            m@ == self.spec_message(),
    {
        match self {
            BundleError::RequestFailed(m) => m,
            BundleError::SerializationError(m) => m,
            BundleError::BundleRejected(m) => m,
            BundleError::ApiError(m) => m,
        }
    }
}

/// What the relay reports of a bundle at the instant of the query.
#[derive(Debug, PartialEq, Eq)]
pub struct BundleStatus {
    pub bundle_id: String,
    pub status: String,
    pub slot: Option<u64>,
}

/// The parameters of a `sendBundle` call.
#[derive(Debug, PartialEq, Eq)]
pub struct BundleParams {
    pub txs: Vec<String>,
    pub tip_account: Option<String>,
    pub tip_amount: Option<u64>,
}

/// A `sendBundle` call.
#[derive(Debug, PartialEq, Eq)]
pub struct BundleRequest {
    pub jsonrpc: String,
    pub id: u64,
    pub method: String,
    pub params: Vec<BundleParams>,
}

/// A `getBundleStatus` call.
#[derive(Debug, PartialEq, Eq)]
pub struct BundleStatusRequest {
    pub jsonrpc: String,
    pub id: u64,
    pub method: String,
    pub params: Vec<String>,
}

/// The result object of a `sendBundle` answer.
#[derive(Debug, PartialEq, Eq)]
pub struct BundleResult {
    pub bundle_id: String,
}

/// The error object of a `sendBundle` answer.
#[derive(Debug, PartialEq, Eq)]
pub struct RelayError {
    pub message: String,
}

/// A `sendBundle` answer.
#[derive(Debug, PartialEq, Eq)]
pub struct BundleResponse {
    pub result: Option<BundleResult>,
    pub error: Option<RelayError>,
}

/// A `getBundleStatus` answer.
#[derive(Debug, PartialEq, Eq)]
pub struct BundleStatusResponse {
    pub result: BundleStatus,
}

pub ghost struct BundleParamsView {
    pub txs: Seq<Seq<char>>,
    pub tip_account: Option<Seq<char>>,
    pub tip_amount: Option<u64>,
}

pub ghost struct BundleRequestView {
    pub jsonrpc: Seq<char>,
    pub id: u64,
    pub method: Seq<char>,
    pub params: Seq<BundleParamsView>,
}

pub ghost struct BundleStatusRequestView {
    pub jsonrpc: Seq<char>,
    pub id: u64,
    pub method: Seq<char>,
    pub params: Seq<Seq<char>>,
}

/// The views of a list of texts, in order.
pub open spec fn text_views(texts: Seq<String>) -> Seq<Seq<char>> {
    texts.map_values(|t: String| t@)
}

/// The view of a text that may be absent.
pub open spec fn optional_text_view(text: Option<String>) -> Option<Seq<char>> {
    match text {
        Some(t) => Some(t@),
        None => None,
    }
}

impl View for BundleParams {
    type V = BundleParamsView;

    open spec fn view(&self) -> BundleParamsView {
        BundleParamsView {
            txs: text_views(self.txs@),
            tip_account: optional_text_view(self.tip_account),
            tip_amount: self.tip_amount,
        }
    }
}

impl View for BundleRequest {
    type V = BundleRequestView;

    open spec fn view(&self) -> BundleRequestView {
        BundleRequestView {
            jsonrpc: self.jsonrpc@,
            id: self.id,
            method: self.method@,
            params: self.params@.map_values(|p: BundleParams| p@),
        }
    }
}

impl View for BundleStatusRequest {
    type V = BundleStatusRequestView;

    open spec fn view(&self) -> BundleStatusRequestView {
        BundleStatusRequestView {
            jsonrpc: self.jsonrpc@,
            id: self.id,
            method: self.method@,
            params: text_views(self.params@),
        }
    }
}

/// Whether every transaction's frame is short enough to be put into text.
pub open spec fn encodable(transactions: Seq<SignedTransactionView>) -> bool {
    forall|i: int|
        0 <= i < transactions.len() ==> spec_frame(#[trigger] transactions[i]).len()
            <= MAX_FRAME_BYTES
}

/// The transport encodings of a list of transactions, in order.
pub open spec fn encoded_transactions(transactions: Seq<SignedTransactionView>) -> Seq<Seq<char>> {
    Seq::new(transactions.len(), |i: int| base64_text(spec_frame(transactions[i])))
}

/// The text form of an address that may be absent.
pub open spec fn optional_base58(address: Option<Seq<u8>>) -> Option<Seq<char>> {
    match address {
        Some(a) => Some(base58_text(a)),
        None => None,
    }
}

/// The `sendBundle` call for a list of transactions and a tip: one parameter
/// object that holds the encoded transactions in order and names the tip.
pub open spec fn send_bundle_request(
    transactions: Seq<SignedTransactionView>,
    tip_account: Option<Seq<u8>>,
    tip_amount: Option<u64>,
) -> BundleRequestView {
    BundleRequestView {
        jsonrpc: "2.0"@,
        id: 1,
        method: "sendBundle"@,
        params: seq![
            BundleParamsView {
                txs: encoded_transactions(transactions),
                tip_account: optional_base58(tip_account),
                tip_amount,
            },
        ],
    }
}

/// The `getBundleStatus` call for a bundle identifier.
pub open spec fn bundle_status_request(bundle_id: Seq<char>) -> BundleStatusRequestView {
    BundleStatusRequestView {
        jsonrpc: "2.0"@,
        id: 1,
        method: "getBundleStatus"@,
        params: seq![bundle_id],
    }
}

/// What a `sendBundle` answer amounts to: an error object is a rejection
/// with the relay's message, whatever else the answer holds; a result alone
/// is the bundle's identifier; neither is a protocol failure.
pub open spec fn accepted_as(response: BundleResponse, r: Result<String, BundleError>) -> bool {
    match response.error {
        Some(error) => r == Err::<String, BundleError>(BundleError::BundleRejected(error.message)),
        None => match response.result {
            Some(result) => r == Ok::<String, BundleError>(result.bundle_id),
            None => r matches Err(BundleError::ApiError(m)) && m@ == "No result in response"@,
        },
    }
}

/// The submission client: what is sent to the bundle endpoint and what its
/// answers mean.
#[derive(Debug, Clone, PartialEq, Eq)]
pub struct BundleClient {
    pub endpoint: String,
}

impl BundleClient {
    pub fn new() -> (client: Self)
        ensures
            client.endpoint@ == BUNDLE_RPC@,
    {
        Self { endpoint: String::from_str(BUNDLE_RPC) }
    }

    /// Encodes every transaction, in order, and writes the `sendBundle` call
    /// that carries them with the tip. Fails exactly when some transaction
    /// is too large to encode.
    pub fn send_bundle(
        &self,
        transactions: &Vec<SignedTransaction>,
        tip_account: Option<Pubkey>,
        tip_amount: Option<u64>,
    ) -> (r: Result<BundleRequest, BundleError>)
        ensures
            match r {
                Ok(request) => encodable(transaction_views(transactions@)) && request@
                    == send_bundle_request(
                    transaction_views(transactions@),
                    optional_pubkey_view(tip_account),
                    tip_amount,
                ),
                Err(e) => !encodable(transaction_views(transactions@)) && e is SerializationError,
            },
    {
        let ghost views = transaction_views(transactions@);
        let mut encoded_txs: Vec<String> = Vec::new();
        let mut i: usize = 0;
        while i < transactions.len()
            invariant
                i <= transactions@.len(),
                views == transaction_views(transactions@),
                text_views(encoded_txs@) == encoded_transactions(views).take(i as int),
                forall|k: int| 0 <= k < i ==> spec_frame(#[trigger] views[k]).len() <= MAX_FRAME_BYTES,
            decreases transactions@.len() - i,
        {
            let ghost before = text_views(encoded_txs@);
            proof {
                assert(views[i as int] == transactions@[i as int]@);
            }
            match encode(&transactions[i]) {
                Ok(text) => {
                    encoded_txs.push(text);
                    proof {
                        assert(text_views(encoded_txs@) =~= before.push(text@));
                        assert(encoded_transactions(views).take(i + 1) =~= encoded_transactions(
                            views,
                        ).take(i as int).push(encoded_transactions(views)[i as int]));
                    }
                },
                Err(e) => {
                    return Err(e);
                },
            }
            i += 1;
        }
        let tip_text = match tip_account {
            Some(pk) => Some(pubkey_to_string(&pk)),
            None => None,
        };
        let params = BundleParams { txs: encoded_txs, tip_account: tip_text, tip_amount };
        let mut all_params: Vec<BundleParams> = Vec::new();
        all_params.push(params);
        let request = BundleRequest {
            jsonrpc: String::from_str("2.0"),
            id: 1,
            method: String::from_str("sendBundle"),
            params: all_params,
        };
        proof {
            assert(encoded_transactions(views).take(i as int) =~= encoded_transactions(views));
            assert(request@.params =~= seq![params@]);
        }
        Ok(request)
    }

    /// Writes the `getBundleStatus` call for a bundle identifier.
    pub fn get_bundle_status(&self, bundle_id: &str) -> (request: BundleStatusRequest)
        ensures
            request@ == bundle_status_request(bundle_id@),
    {
        let mut params: Vec<String> = Vec::new();
        params.push(String::from_str(bundle_id));
        let request = BundleStatusRequest {
            jsonrpc: String::from_str("2.0"),
            id: 1,
            method: String::from_str("getBundleStatus"),
            params,
        };
        proof {
            assert(request@.params =~= seq![bundle_id@]);
        }
        request
    }

    /// Reads the answer to a `sendBundle` call. A failed exchange is a
    /// request failure or a protocol failure, as `failure_of` tells; an
    /// answer that was decoded is read as `accepted_as` tells.
    pub fn handle_response(&self, reply: Fetched<BundleResponse>) -> (r: Result<
        String,
        BundleError,
    >)
        ensures
            match reply {
                Fetched::Decoded(response) => accepted_as(response, r),
                _ => r matches Err(e) && e.is_fetch_failure() && failure_of(reply, e.as_failure()),
            },
    {
        let bundle_response = match reply.into_result() {
            Ok(response) => response,
            Err(failure) => {
                return Err(BundleError::from_failure(failure));
            },
        };
        match bundle_response.error {
            Some(error) => Err(BundleError::BundleRejected(error.message)),
            None => match bundle_response.result {
                Some(result) => Ok(result.bundle_id),
                None => Err(BundleError::ApiError(String::from_str("No result in response"))),
            },
        }
    }

    /// Reads the answer to a `getBundleStatus` call.
    pub fn handle_status_response(&self, reply: Fetched<BundleStatusResponse>) -> (r: Result<
        BundleStatus,
        BundleError,
    >)
        ensures
            match r {
                Ok(status) => reply matches Fetched::Decoded(response) && response.result == status,
                Err(e) => e.is_fetch_failure() && failure_of(reply, e.as_failure()),
            },
    {
        match reply.into_result() {
            Ok(response) => Ok(response.result),
            Err(failure) => Err(BundleError::from_failure(failure)),
        }
    }
}

// ============== tip client ==============
#[derive(Debug, PartialEq, Eq)]
pub enum TipError {
    RequestFailed(String),
    ApiError(String),
    NoTipAccounts,
}

impl TipError {
    /// Whether the error reports a failed exchange.
    pub open spec fn is_fetch_failure(self) -> bool {
        self is RequestFailed || self is ApiError
    }

    /// The failed exchange that the error reports.
    pub open spec fn as_failure(self) -> FetchFailure {
        match self {
            TipError::RequestFailed(m) => FetchFailure::RequestFailed(m),
            TipError::ApiError(m) => FetchFailure::ApiError(m),
            _ => arbitrary(),
        }
    }

    /// Reports a failed exchange as this component's error, message kept.
    pub fn from_failure(failure: FetchFailure) -> (e: TipError)
        ensures
            e.is_fetch_failure(),
            e.as_failure() == failure,
    {
        match failure {
            FetchFailure::RequestFailed(m) => TipError::RequestFailed(m),
            FetchFailure::ApiError(m) => TipError::ApiError(m),
        }
    }

    /// The message the error carries.
    pub open spec fn spec_message(self) -> Seq<char> {
        match self {
            TipError::RequestFailed(m) => m@,
            TipError::ApiError(m) => m@,
            TipError::NoTipAccounts => "No tip accounts"@,
        }
    }

    /// Takes the message out of the error, verbatim.
    pub fn into_message(self) -> (m: String)
        ensures
            m@ == self.spec_message(),
    {
        match self {
            TipError::RequestFailed(m) => m,
            TipError::ApiError(m) => m,
            TipError::NoTipAccounts => String::from_str("No tip accounts"),
        }
    }
}

/// One fee-receiving account of the relay's catalog.
#[derive(Debug, Clone, PartialEq, Eq)]
pub struct TipAccount {
    pub pubkey: String,
    pub lamports_per_signature: u64,
}

/// The position of the first account that pays the most, scanning from the
/// front: a later account replaces the choice only if it pays strictly more.
pub open spec fn first_maximum(catalog: Seq<TipAccount>) -> int
    decreases catalog.len(),
{
    if catalog.len() <= 1 {
        0
    } else {
        let before = first_maximum(catalog.drop_last());
        if catalog.last().lamports_per_signature > catalog[before].lamports_per_signature {
            catalog.len() - 1
        } else {
            before
        }
    }
}

/// The chosen position holds a maximum, and no earlier position holds one.
pub proof fn lemma_first_maximum(catalog: Seq<TipAccount>)
    requires
        catalog.len() > 0,
    ensures
        0 <= first_maximum(catalog) < catalog.len(),
        forall|j: int|
            0 <= j < catalog.len() ==> (#[trigger] catalog[j]).lamports_per_signature
                <= catalog[first_maximum(catalog)].lamports_per_signature,
        forall|j: int|
            0 <= j < first_maximum(catalog) ==> (#[trigger] catalog[j]).lamports_per_signature
                < catalog[first_maximum(catalog)].lamports_per_signature,
    decreases catalog.len(),
{
    if catalog.len() > 1 {
        let front = catalog.drop_last();
        lemma_first_maximum(front);
        assert forall|j: int| 0 <= j < front.len() implies front[j] == catalog[j] by {}
    }
}

/// Picks the account that pays the most per signature; among equals, the
/// first in the catalog's order. An empty catalog has none.
pub fn select_tip_account(catalog: Vec<TipAccount>) -> (r: Result<TipAccount, TipError>)
    ensures
        catalog@.len() == 0 ==> r matches Err(TipError::NoTipAccounts),
        catalog@.len() > 0 ==> (r matches Ok(account) && account == catalog@[first_maximum(
            catalog@,
        )]),
{
    if catalog.len() == 0 {
        return Err(TipError::NoTipAccounts);
    }
    let mut best: usize = 0;
    let mut i: usize = 1;
    while i < catalog.len()
        invariant
            1 <= i <= catalog@.len(),
            best == first_maximum(catalog@.take(i as int)),
            best < i,
        decreases catalog@.len() - i,
    {
        proof {
            assert(catalog@.take(i + 1).drop_last() =~= catalog@.take(i as int));
        }
        if catalog[i].lamports_per_signature > catalog[best].lamports_per_signature {
            best = i;
        }
        i += 1;
    }
    proof {
        assert(catalog@.take(i as int) =~= catalog@);
    }
    let mut catalog = catalog;
    Ok(catalog.swap_remove(best))
}

/// The tip catalog's client.
#[derive(Debug, Clone, PartialEq, Eq)]
pub struct TipClient {
    pub endpoint: String,
}

impl TipClient {
    pub fn new() -> (client: Self)
        ensures
            client.endpoint@ == TIP_RPC@,
    {
        Self { endpoint: String::from_str(TIP_RPC) }
    }

    /// Reads the catalog from the endpoint's answer.
    pub fn get_tip_accounts(&self, reply: Fetched<Vec<TipAccount>>) -> (r: Result<
        Vec<TipAccount>,
        TipError,
    >)
        ensures
            match r {
                Ok(accounts) => reply == Fetched::Decoded(accounts),
                Err(e) => e.is_fetch_failure() && failure_of(reply, e.as_failure()),
            },
    {
        match reply.into_result() {
            Ok(accounts) => Ok(accounts),
            Err(failure) => Err(TipError::from_failure(failure)),
        }
    }

    /// The account of the answered catalog that pays the most per
    /// signature, the first of them in the catalog's order.
    pub fn get_optimal_tip_account(&self, reply: Fetched<Vec<TipAccount>>) -> (r: Result<
        TipAccount,
        TipError,
    >)
        ensures
            match reply {
                Fetched::Decoded(accounts) => if accounts@.len() == 0 {
                    r matches Err(TipError::NoTipAccounts)
                } else {
                    r == Ok::<TipAccount, TipError>(accounts@[first_maximum(accounts@)])
                },
                _ => r matches Err(e) && e.is_fetch_failure() && failure_of(reply, e.as_failure()),
            },
    {
        match self.get_tip_accounts(reply) {
            Ok(accounts) => select_tip_account(accounts),
            Err(e) => Err(e),
        }
    }

    /// What the best-paying account of the answered catalog pays per signature.
    pub fn get_recommended_tip(&self, reply: Fetched<Vec<TipAccount>>) -> (r: Result<u64, TipError>)
        ensures
            match reply {
                Fetched::Decoded(accounts) => if accounts@.len() == 0 {
                    r matches Err(TipError::NoTipAccounts)
                } else {
                    r == Ok::<u64, TipError>(
                        accounts@[first_maximum(accounts@)].lamports_per_signature,
                    )
                },
                _ => r matches Err(e) && e.is_fetch_failure() && failure_of(reply, e.as_failure()),
            },
    {
        match self.get_optimal_tip_account(reply) {
            Ok(account) => Ok(account.lamports_per_signature),
            Err(e) => Err(e),
        }
    }
}

// ============== block engine client ==============
#[derive(Debug, PartialEq, Eq)]
pub enum BlockEngineError {
    RequestFailed(String),
    ApiError(String),
}

impl BlockEngineError {
    /// Whether the error reports a failed exchange.
    pub open spec fn is_fetch_failure(self) -> bool {
        self is RequestFailed || self is ApiError
    }

    /// The failed exchange that the error reports.
    pub open spec fn as_failure(self) -> FetchFailure {
        match self {
            BlockEngineError::RequestFailed(m) => FetchFailure::RequestFailed(m),
            BlockEngineError::ApiError(m) => FetchFailure::ApiError(m),
        }
    }

    /// Reports a failed exchange as this component's error, message kept.
    pub fn from_failure(failure: FetchFailure) -> (e: BlockEngineError)
        ensures
            e.is_fetch_failure(),
            e.as_failure() == failure,
    {
        match failure {
            FetchFailure::RequestFailed(m) => BlockEngineError::RequestFailed(m),
            FetchFailure::ApiError(m) => BlockEngineError::ApiError(m),
        }
    }

    /// The message the error carries.
    pub open spec fn spec_message(self) -> Seq<char> {
        match self {
            BlockEngineError::RequestFailed(m) => m@,
            BlockEngineError::ApiError(m) => m@,
        }
    }

    /// Takes the message out of the error, verbatim.
    pub fn into_message(self) -> (m: String)
        ensures
            m@ == self.spec_message(),
    {
        match self {
            BlockEngineError::RequestFailed(m) => m,
            BlockEngineError::ApiError(m) => m,
        }
    }
}

#[derive(Debug, PartialEq, Eq)]
pub struct Leader {
    pub pubkey: String,
    pub slot: u64,
}

/// The block engine's snapshot. The congestion multiplier is held in basis
/// points: 10 000 stands for a multiplier of one.
#[derive(Debug, PartialEq, Eq)]
pub struct BlockEngineResponse {
    pub leaders: Vec<Leader>,
    pub congestion: u64,
    pub current_slot: u64,
}

/// The block engine's client.
#[derive(Debug, Clone, PartialEq, Eq)]
pub struct BlockEngineClient {
    pub endpoint: String,
}

impl BlockEngineClient {
    pub fn new() -> (client: Self)
        ensures
            client.endpoint@ == BLOCK_EGNINE_RPC@,
    {
        Self { endpoint: String::from_str(BLOCK_EGNINE_RPC) }
    }

    /// Reads the snapshot from the endpoint's answer.
    pub fn get_block_engine_info(&self, reply: Fetched<BlockEngineResponse>) -> (r: Result<
        BlockEngineResponse,
        BlockEngineError,
    >)
        ensures
            match r {
                Ok(info) => reply == Fetched::Decoded(info),
                Err(e) => failure_of(reply, e.as_failure()),
            },
    {
        match reply.into_result() {
            Ok(info) => Ok(info),
            Err(failure) => Err(BlockEngineError::from_failure(failure)),
        }
    }

    /// The leaders of the answered snapshot, in its order.
    pub fn get_current_leaders(&self, reply: Fetched<BlockEngineResponse>) -> (r: Result<
        Vec<Leader>,
        BlockEngineError,
    >)
        ensures
            match r {
                Ok(leaders) => reply matches Fetched::Decoded(info) && info.leaders == leaders,
                Err(e) => failure_of(reply, e.as_failure()),
            },
    {
        match self.get_block_engine_info(reply) {
            Ok(info) => Ok(info.leaders),
            Err(e) => Err(e),
        }
    }

    /// The congestion multiplier of the answered snapshot, in basis points.
    pub fn get_network_congestion(&self, reply: Fetched<BlockEngineResponse>) -> (r: Result<
        u64,
        BlockEngineError,
    >)
        ensures
            match r {
                Ok(congestion) => reply matches Fetched::Decoded(info) && info.congestion
                    == congestion,
                Err(e) => failure_of(reply, e.as_failure()),
            },
    {
        match self.get_block_engine_info(reply) {
            Ok(info) => Ok(info.congestion),
            Err(e) => Err(e),
        }
    }
}

// ============== validators client ==============
#[derive(Debug, PartialEq, Eq)]
pub enum ValidatorsError {
    RequestFailed(String),
    ApiError(String),
}

impl ValidatorsError {
    /// Whether the error reports a failed exchange.
    pub open spec fn is_fetch_failure(self) -> bool {
        self is RequestFailed || self is ApiError
    }

    /// The failed exchange that the error reports.
    pub open spec fn as_failure(self) -> FetchFailure {
        match self {
            ValidatorsError::RequestFailed(m) => FetchFailure::RequestFailed(m),
            ValidatorsError::ApiError(m) => FetchFailure::ApiError(m),
        }
    }

    /// Reports a failed exchange as this component's error, message kept.
    pub fn from_failure(failure: FetchFailure) -> (e: ValidatorsError)
        ensures
            e.is_fetch_failure(),
            e.as_failure() == failure,
    {
        match failure {
            FetchFailure::RequestFailed(m) => ValidatorsError::RequestFailed(m),
            FetchFailure::ApiError(m) => ValidatorsError::ApiError(m),
        }
    }

    /// The message the error carries.
    pub open spec fn spec_message(self) -> Seq<char> {
        match self {
            ValidatorsError::RequestFailed(m) => m@,
            ValidatorsError::ApiError(m) => m@,
        }
    }

    /// Takes the message out of the error, verbatim.
    pub fn into_message(self) -> (m: String)
        ensures
            m@ == self.spec_message(),
    {
        match self {
            ValidatorsError::RequestFailed(m) => m,
            ValidatorsError::ApiError(m) => m,
        }
    }
}

#[derive(Debug, PartialEq, Eq)]
pub struct Validator {
    pub identity: String,
    pub vote_account: String,
    pub commission: u8,
    pub active: bool,
}

/// Keeps the validators that are active, in their order.
pub fn active_validators(validators: Vec<Validator>) -> (kept: Vec<Validator>)
    ensures
        kept@ == validators@.filter(|v: Validator| v.active),
{
    let ghost all = validators@;
    let ghost pred = |v: Validator| v.active;
    let mut kept: Vec<Validator> = Vec::new();
    let mut rest = validators;
    let mut n: usize = 0;
    let total = rest.len();
    proof {
        assert(all.take(0).filter(pred) =~= Seq::<Validator>::empty());
    }
    for validator in it: rest
        invariant
            kept@ == all.take(it.index() as int).filter(pred),
            it.seq() == all,
            forall|v: Validator| #[trigger] pred(v) == v.active,
    {
        proof {
            let i = it.index() as int;
            let next = all.take(i + 1);
            assert(next.drop_last() =~= all.take(i));
            assert(next.last() == validator);
            reveal(Seq::filter);
            assert(next.filter(pred) == if pred(validator) {
                all.take(i).filter(pred).push(validator)
            } else {
                all.take(i).filter(pred)
            });
        }
        if validator.active {
            kept.push(validator);
        }
    }
    proof {
        assert(all.take(all.len() as int) =~= all);
    }
    kept
}

/// The validator set's client.
#[derive(Debug, Clone, PartialEq, Eq)]
pub struct ValidatorsClient {
    pub endpoint: String,
}

impl ValidatorsClient {
    pub fn new() -> (client: Self)
        ensures
            client.endpoint@ == VALIDATORS_RPC@,
    {
        Self { endpoint: String::from_str(VALIDATORS_RPC) }
    }

    /// Reads the validators from the endpoint's answer.
    pub fn get_validators(&self, reply: Fetched<Vec<Validator>>) -> (r: Result<
        Vec<Validator>,
        ValidatorsError,
    >)
        ensures
            match r {
                Ok(validators) => reply == Fetched::Decoded(validators),
                Err(e) => failure_of(reply, e.as_failure()),
            },
    {
        match reply.into_result() {
            Ok(validators) => Ok(validators),
            Err(failure) => Err(ValidatorsError::from_failure(failure)),
        }
    }

    /// The active validators of the answer, in its order.
    pub fn get_active_validators(&self, reply: Fetched<Vec<Validator>>) -> (r: Result<
        Vec<Validator>,
        ValidatorsError,
    >)
        ensures
            match r {
                Ok(kept) => reply matches Fetched::Decoded(validators) && kept@
                    == validators@.filter(|v: Validator| v.active),
                Err(e) => failure_of(reply, e.as_failure()),
            },
    {
        match self.get_validators(reply) {
            Ok(validators) => Ok(active_validators(validators)),
            Err(e) => Err(e),
        }
    }
}

// ============== transactions pool client ==============
#[derive(Debug, PartialEq, Eq)]
pub enum TransactionsPoolError {
    RequestFailed(String),
    ApiError(String),
}

impl TransactionsPoolError {
    /// Whether the error reports a failed exchange.
    pub open spec fn is_fetch_failure(self) -> bool {
        self is RequestFailed || self is ApiError
    }

    /// The failed exchange that the error reports.
    pub open spec fn as_failure(self) -> FetchFailure {
        match self {
            TransactionsPoolError::RequestFailed(m) => FetchFailure::RequestFailed(m),
            TransactionsPoolError::ApiError(m) => FetchFailure::ApiError(m),
        }
    }

    /// Reports a failed exchange as this component's error, message kept.
    pub fn from_failure(failure: FetchFailure) -> (e: TransactionsPoolError)
        ensures
            e.is_fetch_failure(),
            e.as_failure() == failure,
    {
        match failure {
            FetchFailure::RequestFailed(m) => TransactionsPoolError::RequestFailed(m),
            FetchFailure::ApiError(m) => TransactionsPoolError::ApiError(m),
        }
    }

    /// The message the error carries.
    pub open spec fn spec_message(self) -> Seq<char> {
        match self {
            TransactionsPoolError::RequestFailed(m) => m@,
            TransactionsPoolError::ApiError(m) => m@,
        }
    }

    /// Takes the message out of the error, verbatim.
    pub fn into_message(self) -> (m: String)
        ensures
            m@ == self.spec_message(),
    {
        match self {
            TransactionsPoolError::RequestFailed(m) => m,
            TransactionsPoolError::ApiError(m) => m,
        }
    }
}

#[derive(Debug, PartialEq, Eq)]
pub struct MemPoolTransaction {
    pub signature: String,
    pub slot: u64,
    pub cu_consumed: Option<u64>,
    pub priority_fee: Option<u64>,
}

/// Whether a pending transaction pays at least the given priority fee; one
/// that names no fee pays none.
pub open spec fn pays_at_least(tx: MemPoolTransaction, min_priority_fee: u64) -> bool {
    match tx.priority_fee {
        Some(fee) => fee >= min_priority_fee,
        None => 0 >= min_priority_fee,
    }
}

/// Keeps the pending transactions that pay at least the given priority fee,
/// in their order.
pub fn high_priority_transactions(transactions: Vec<MemPoolTransaction>, min_priority_fee: u64) -> (kept:
    Vec<MemPoolTransaction>)
    ensures
        kept@ == transactions@.filter(|tx: MemPoolTransaction| pays_at_least(tx, min_priority_fee)),
{
    let ghost all = transactions@;
    let ghost pred = |tx: MemPoolTransaction| pays_at_least(tx, min_priority_fee);
    let mut kept: Vec<MemPoolTransaction> = Vec::new();
    proof {
        assert(all.take(0).filter(pred) =~= Seq::<MemPoolTransaction>::empty());
    }
    for transaction in it: transactions
        invariant
            kept@ == all.take(it.index() as int).filter(pred),
            it.seq() == all,
            forall|tx: MemPoolTransaction| #[trigger] pred(tx) == pays_at_least(tx, min_priority_fee),
    {
        proof {
            let i = it.index() as int;
            let next = all.take(i + 1);
            assert(next.drop_last() =~= all.take(i));
            assert(next.last() == transaction);
            reveal(Seq::filter);
            assert(next.filter(pred) == if pred(transaction) {
                all.take(i).filter(pred).push(transaction)
            } else {
                all.take(i).filter(pred)
            });
        }
        let fee = match transaction.priority_fee {
            Some(fee) => fee,
            None => 0,
        };
        if fee >= min_priority_fee {
            kept.push(transaction);
        }
    }
    proof {
        assert(all.take(all.len() as int) =~= all);
    }
    kept
}

/// The pending-transaction pool's client.
#[derive(Debug, Clone, PartialEq, Eq)]
pub struct TransactionsPoolClient {
    pub endpoint: String,
}

impl TransactionsPoolClient {
    pub fn new() -> (client: Self)
        ensures
            client.endpoint@ == TRANSACTIONS_POOL_RPC@,
    {
        Self { endpoint: String::from_str(TRANSACTIONS_POOL_RPC) }
    }

    /// Reads the pending transactions from the endpoint's answer.
    pub fn get_mempool_transactions(&self, reply: Fetched<Vec<MemPoolTransaction>>) -> (r: Result<
        Vec<MemPoolTransaction>,
        TransactionsPoolError,
    >)
        ensures
            match r {
                Ok(transactions) => reply == Fetched::Decoded(transactions),
                Err(e) => failure_of(reply, e.as_failure()),
            },
    {
        match reply.into_result() {
            Ok(transactions) => Ok(transactions),
            Err(failure) => Err(TransactionsPoolError::from_failure(failure)),
        }
    }

    /// The pending transactions of the answer that pay at least the given
    /// priority fee, in its order.
    pub fn get_high_priority_transactions(
        &self,
        reply: Fetched<Vec<MemPoolTransaction>>,
        min_priority_fee: u64,
    ) -> (r: Result<Vec<MemPoolTransaction>, TransactionsPoolError>)
        ensures
            match r {
                Ok(kept) => reply matches Fetched::Decoded(transactions) && kept@
                    == transactions@.filter(
                    |tx: MemPoolTransaction| pays_at_least(tx, min_priority_fee),
                ),
                Err(e) => failure_of(reply, e.as_failure()),
            },
    {
        match self.get_mempool_transactions(reply) {
            Ok(transactions) => Ok(high_priority_transactions(transactions, min_priority_fee)),
            Err(e) => Err(e),
        }
    }
}

// ============== health client ==============
#[derive(Debug, PartialEq, Eq)]
pub enum HealthError {
    RequestFailed(String),
    ApiError(String),
    /// The service reports a status other than `healthy`; carries that status.
    Unhealthy(String),
}

impl HealthError {
    /// Whether the error reports a failed exchange.
    pub open spec fn is_fetch_failure(self) -> bool {
        self is RequestFailed || self is ApiError
    }

    /// The failed exchange that the error reports.
    pub open spec fn as_failure(self) -> FetchFailure {
        match self {
            HealthError::RequestFailed(m) => FetchFailure::RequestFailed(m),
            HealthError::ApiError(m) => FetchFailure::ApiError(m),
            _ => arbitrary(),
        }
    }

    /// Reports a failed exchange as this component's error, message kept.
    pub fn from_failure(failure: FetchFailure) -> (e: HealthError)
        ensures
            e.is_fetch_failure(),
            e.as_failure() == failure,
    {
        match failure {
            FetchFailure::RequestFailed(m) => HealthError::RequestFailed(m),
            FetchFailure::ApiError(m) => HealthError::ApiError(m),
        }
    }

    /// The message the error carries.
    pub open spec fn spec_message(self) -> Seq<char> {
        match self {
            HealthError::RequestFailed(m) => m@,
            HealthError::ApiError(m) => m@,
            HealthError::Unhealthy(m) => m@,
        }
    }

    /// Takes the message out of the error, verbatim.
    pub fn into_message(self) -> (m: String)
        ensures
            m@ == self.spec_message(),
    {
        match self {
            HealthError::RequestFailed(m) => m,
            HealthError::ApiError(m) => m,
            HealthError::Unhealthy(m) => m,
        }
    }
}

#[derive(Debug, PartialEq, Eq)]
pub struct HealthResponse {
    pub status: String,
    pub version: String,
    pub uptime: Option<u64>,
}

/// The health endpoint's client.
#[derive(Debug, Clone, PartialEq, Eq)]
pub struct HealthClient {
    pub endpoint: String,
}

impl HealthClient {
    pub fn new() -> (client: Self)
        ensures
            client.endpoint@ == HEALTH_RPC@,
    {
        Self { endpoint: String::from_str(HEALTH_RPC) }
    }

    /// Reads the service's health from the endpoint's answer. A decoded
    /// answer whose status is anything but `healthy` is a reported-unhealthy
    /// condition that carries that status; it is no failed exchange.
    pub fn check_health(&self, reply: Fetched<HealthResponse>) -> (r: Result<
        HealthResponse,
        HealthError,
    >)
        ensures
            match r {
                Ok(health) => reply == Fetched::Decoded(health) && health.status@ == "healthy"@,
                Err(HealthError::Unhealthy(status)) => reply matches Fetched::Decoded(health)
                    && health.status == status && status@ != "healthy"@,
                Err(e) => failure_of(reply, e.as_failure()),
            },
    {
        let health_response = match reply.into_result() {
            Ok(health) => health,
            Err(failure) => {
                return Err(HealthError::from_failure(failure));
            },
        };
        if health_response.status != String::from_str("healthy") {
            return Err(HealthError::Unhealthy(health_response.status));
        }
        Ok(health_response)
    }

    /// Whether the answer reports a healthy service.
    pub fn is_healthy(&self, reply: Fetched<HealthResponse>) -> (r: bool)
        ensures
            r == (reply matches Fetched::Decoded(health) && health.status@ == "healthy"@),
    {
        match self.check_health(reply) {
            Ok(_) => true,
            Err(_) => false,
        }
    }
}

// ============== statistics client ==============
#[derive(Debug, PartialEq, Eq)]
pub enum StatisticsError {
    RequestFailed(String),
    ApiError(String),
}

impl StatisticsError {
    /// Whether the error reports a failed exchange.
    pub open spec fn is_fetch_failure(self) -> bool {
        self is RequestFailed || self is ApiError
    }

    /// The failed exchange that the error reports.
    pub open spec fn as_failure(self) -> FetchFailure {
        match self {
            StatisticsError::RequestFailed(m) => FetchFailure::RequestFailed(m),
            StatisticsError::ApiError(m) => FetchFailure::ApiError(m),
        }
    }

    /// Reports a failed exchange as this component's error, message kept.
    pub fn from_failure(failure: FetchFailure) -> (e: StatisticsError)
        ensures
            e.is_fetch_failure(),
            e.as_failure() == failure,
    {
        match failure {
            FetchFailure::RequestFailed(m) => StatisticsError::RequestFailed(m),
            FetchFailure::ApiError(m) => StatisticsError::ApiError(m),
        }
    }

    /// The message the error carries.
    pub open spec fn spec_message(self) -> Seq<char> {
        match self {
            StatisticsError::RequestFailed(m) => m@,
            StatisticsError::ApiError(m) => m@,
        }
    }

    /// Takes the message out of the error, verbatim.
    pub fn into_message(self) -> (m: String)
        ensures
            m@ == self.spec_message(),
    {
        match self {
            StatisticsError::RequestFailed(m) => m,
            StatisticsError::ApiError(m) => m,
        }
    }
}

/// The relay's statistics. The success rate is held in basis points.
#[derive(Debug, PartialEq, Eq)]
pub struct StatsResponse {
    pub bundles_sent: u64,
    pub bundles_accepted: u64,
    pub success_rate: u64,
    pub average_tip: u64,
    pub total_volume: u64,
}

/// The statistics endpoint's client.
#[derive(Debug, Clone, PartialEq, Eq)]
pub struct StatisticsClient {
    pub endpoint: String,
}

impl StatisticsClient {
    pub fn new() -> (client: Self)
        ensures
            client.endpoint@ == STATISTICS_RPC@,
    {
        Self { endpoint: String::from_str(STATISTICS_RPC) }
    }

    /// Reads the statistics from the endpoint's answer.
    pub fn get_statistics(&self, reply: Fetched<StatsResponse>) -> (r: Result<
        StatsResponse,
        StatisticsError,
    >)
        ensures
            match r {
                Ok(stats) => reply == Fetched::Decoded(stats),
                Err(e) => failure_of(reply, e.as_failure()),
            },
    {
        match reply.into_result() {
            Ok(stats) => Ok(stats),
            Err(failure) => Err(StatisticsError::from_failure(failure)),
        }
    }

    /// The success rate of the answered statistics, in basis points.
    pub fn get_success_rate(&self, reply: Fetched<StatsResponse>) -> (r: Result<
        u64,
        StatisticsError,
    >)
        ensures
            match r {
                Ok(rate) => reply matches Fetched::Decoded(stats) && stats.success_rate == rate,
                Err(e) => failure_of(reply, e.as_failure()),
            },
    {
        match self.get_statistics(reply) {
            Ok(stats) => Ok(stats.success_rate),
            Err(e) => Err(e),
        }
    }
}

} // verus!
