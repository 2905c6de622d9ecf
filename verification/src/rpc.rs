//! JSON-RPC calls to Bitcoin Core: which requests to send, where to send
//! them, and what their responses mean.

use vstd::prelude::*;

use crate::endpoint::{url_pop_if_empty, url_push_segment, url_segments_pop_if_empty, url_segments_push, RpcUrl};
use crate::error::RpcError;
use crate::json::{json_quote, json_string_literal, request_body, request_body_text, texts};

verus! {

/// Where and as whom to call Bitcoin Core.
pub struct RpcConnection {
    pub url: RpcUrl,
    pub username: String,
    pub password: String,
    pub timeout_seconds: u64,
}

impl RpcConnection {
    /// A copy of the connection settings.
    pub fn duplicate(&self) -> (r: RpcConnection)
        ensures
            r.url@ == self.url@,
            r.url.parsed_url() == self.url.parsed_url(),
            r.username == self.username,
            r.password == self.password,
            r.timeout_seconds == self.timeout_seconds,
    {
        RpcConnection {
            url: self.url.duplicate(),
            username: self.username.clone(),
            password: self.password.clone(),
            timeout_seconds: self.timeout_seconds,
        }
    }
}

/// One JSON-RPC call: the method, its positional parameters as JSON texts,
/// and the wallet whose endpoint it goes to, if any.
pub struct RpcCall {
    pub wallet: Option<String>,
    pub method: String,
    pub params: Vec<String>,
}

/// An HTTP POST to send: the endpoint and the JSON body.
pub struct HttpRequest {
    pub endpoint: RpcUrl,
    pub body: String,
}

/// The endpoint of `wallet` under the RPC URL serialized as `base`: one
/// trailing empty path segment removed, then the segments `wallet` and the
/// wallet name appended, so that `<base>/wallet/<name>`.
pub open spec fn wallet_endpoint_url(base: Seq<char>, wallet: Seq<char>) -> (
    Seq<char>,
    Seq<char>,
    bool,
) {
    url_push_segment(url_push_segment(url_pop_if_empty(base).0, "wallet"@).0, wallet)
}

/// The endpoint of a wallet under the RPC URL: `<base>/wallet/<wallet>`.
pub fn wallet_endpoint(base_url: &RpcUrl, wallet: &str) -> (r: Result<RpcUrl, RpcError>)
    ensures
        r is Err <==> base_url@.2,
        r matches Err(e) ==> e is InvalidBaseUrl,
        r matches Ok(u) ==> u@ == wallet_endpoint_url(base_url@.0, wallet@),
{
    let trimmed = match url_segments_pop_if_empty(base_url) {
        Some(url) => url,
        None => return Err(RpcError::InvalidBaseUrl),
    };
    let under_wallets = match url_segments_push(&trimmed, "wallet") {
        Some(url) => url,
        None => return Err(RpcError::InvalidBaseUrl),
    };
    match url_segments_push(&under_wallets, wallet) {
        Some(url) => Ok(url),
        None => Err(RpcError::InvalidBaseUrl),
    }
}

impl RpcCall {
    /// A call of `method` with `params` at the node's endpoint.
    pub fn node(method: &str, params: Vec<String>) -> (r: RpcCall)
        ensures
            r.wallet is None,
            r.method@ == method@,
            r.params@ == params@,
    {
        RpcCall { wallet: None, method: String::from_str(method), params }
    }

    /// A call of `method` with `params` at `wallet`'s endpoint.
    pub fn wallet(wallet: &str, method: &str, params: Vec<String>) -> (r: RpcCall)
        ensures
            r.wallet matches Some(w) && w@ == wallet@,
            r.method@ == method@,
            r.params@ == params@,
    {
        RpcCall { wallet: Some(String::from_str(wallet)), method: String::from_str(method), params }
    }

    /// `getblockchaininfo` without parameters.
    pub fn blockchain_info() -> (r: RpcCall)
        ensures
            r.wallet is None,
            r.method@ == "getblockchaininfo"@,
            r.params@.len() == 0,
    {
        RpcCall::node("getblockchaininfo", Vec::new())
    }

    /// `getwalletinfo` without parameters, at the wallet.
    pub fn wallet_metadata(wallet: &str) -> (r: RpcCall)
        ensures
            r.wallet matches Some(w) && w@ == wallet@,
            r.method@ == "getwalletinfo"@,
            r.params@.len() == 0,
    {
        RpcCall::wallet(wallet, "getwalletinfo", Vec::new())
    }

    /// `getbalances` without parameters, at the wallet.
    pub fn wallet_balances(wallet: &str) -> (r: RpcCall)
        ensures
            r.wallet matches Some(w) && w@ == wallet@,
            r.method@ == "getbalances"@,
            r.params@.len() == 0,
    {
        RpcCall::wallet(wallet, "getbalances", Vec::new())
    }

    /// `getbalance` without parameters, at the wallet.
    pub fn balance(wallet: &str) -> (r: RpcCall)
        ensures
            r.wallet matches Some(w) && w@ == wallet@,
            r.method@ == "getbalance"@,
            r.params@.len() == 0,
    {
        RpcCall::wallet(wallet, "getbalance", Vec::new())
    }

    /// `getnewaddress` with an empty label and the `bech32` address type, at
    /// the wallet.
    pub fn new_address(wallet: &str) -> (r: RpcCall)
        ensures
            r.wallet matches Some(w) && w@ == wallet@,
            r.method@ == "getnewaddress"@,
            texts(r.params@) == seq![json_string_literal(""@), json_string_literal("bech32"@)],
    {
        let mut params: Vec<String> = Vec::new();
        params.push(json_quote(""));
        params.push(json_quote("bech32"));
        let r = RpcCall::wallet(wallet, "getnewaddress", params);
        assert(texts(r.params@) =~= seq![json_string_literal(""@), json_string_literal("bech32"@)]);
        r
    }
}

/// The endpoint a call goes to: the RPC URL, or the wallet's endpoint under
/// it; `None` when a wallet call meets a URL that cannot be a base.
pub open spec fn call_endpoint(
    url: (Seq<char>, Seq<char>, bool),
    wallet: Option<String>,
) -> Option<(Seq<char>, Seq<char>, bool)> {
    match wallet {
        None => Some(url),
        Some(w) => if url.2 {
            None
        } else {
            Some(wallet_endpoint_url(url.0, w@))
        },
    }
}

/// Prepares the HTTP request of a call: its endpoint and its JSON-RPC body.
pub fn prepare(conn: &RpcConnection, call: &RpcCall) -> (r: Result<HttpRequest, RpcError>)
    ensures
        match call_endpoint(conn.url@, call.wallet) {
            None => r matches Err(e) && e is InvalidBaseUrl,
            Some(endpoint) => r matches Ok(req) && req.endpoint@ == endpoint && req.body@
                == request_body_text(call.method@, texts(call.params@)),
        },
{
    let endpoint = match &call.wallet {
        None => conn.url.duplicate(),
        Some(wallet) => match wallet_endpoint(&conn.url, wallet.as_str()) {
            Ok(url) => url,
            Err(error) => return Err(error),
        },
    };
    let body = request_body(call.method.as_str(), &call.params);
    Ok(HttpRequest { endpoint, body })
}

/// The error member of a JSON-RPC response; `data` is its JSON text.
pub struct JsonRpcError {
    pub code: i64,
    pub message: String,
    pub data: Option<String>,
}

/// A JSON-RPC response.
pub struct JsonRpcResponse<T> {
    pub result: Option<T>,
    pub error: Option<JsonRpcError>,
}

/// What a JSON-RPC response means: its error if it has one, else its
/// result, else a missing result.
pub open spec fn envelope_outcome<T>(response: JsonRpcResponse<T>) -> Result<T, RpcError> {
    match response.error {
        Some(e) => Err(RpcError::BitcoinCore { code: e.code, message: e.message, data: e.data }),
        None => match response.result {
            Some(value) => Ok(value),
            None => Err(RpcError::MissingResult),
        },
    }
}

impl<T> JsonRpcResponse<T> {
    /// The result of the response, or the error it reports.
    pub fn into_result(self) -> (r: Result<T, RpcError>)
        ensures
            r == envelope_outcome(self),
    {
        match self.error {
            Some(error) => Err(
                RpcError::BitcoinCore { code: error.code, message: error.message, data: error.data },
            ),
            None => match self.result {
                Some(value) => Ok(value),
                None => Err(RpcError::MissingResult),
            },
        }
    }
}

/// Whether an HTTP status says that the credentials were refused.
pub open spec fn rejects_credentials(status: u16) -> bool {
    status == 401 || status == 403
}

/// Whether an HTTP status is a success (2xx).
pub open spec fn is_success(status: u16) -> bool {
    200 <= status <= 299
}

/// What a readable JSON-RPC response means when its result was converted
/// into the expected type: its error if it has one, else the converted
/// result, else the unexpected shape of the result (`reason` being the
/// conversion's message), else a missing result.
pub open spec fn decoded_outcome<T>(response: JsonRpcResponse<Result<T, String>>) -> Result<
    T,
    RpcError,
> {
    match envelope_outcome(response) {
        Ok(Ok(value)) => Ok(value),
        Ok(Err(reason)) => Err(RpcError::InvalidResult(reason)),
        Err(e) => Err(e),
    }
}

/// What an HTTP response to a JSON-RPC request means, given its status and
/// what reading its body as a JSON-RPC response gave: an unreadable body,
/// or a response whose result is the outcome of converting it into the
/// expected type.
pub open spec fn response_outcome<T>(
    status: u16,
    parsed: Result<JsonRpcResponse<Result<T, String>>, String>,
) -> Result<T, RpcError> {
    if rejects_credentials(status) {
        Err(RpcError::Authentication)
    } else {
        match parsed {
            Ok(response) => decoded_outcome(response),
            Err(reason) => if !is_success(status) {
                Err(RpcError::HttpStatus(status))
            } else {
                Err(RpcError::InvalidResponse(reason))
            },
        }
    }
}

/// Refuses a response whose status says that the credentials were refused,
/// before its body is read.
pub fn check_credentials(status: u16) -> (r: Result<(), RpcError>)
    ensures
        r is Err <==> rejects_credentials(status),
        r matches Err(e) ==> e is Authentication,
{
    if status == 401 || status == 403 {
        Err(RpcError::Authentication)
    } else {
        Ok(())
    }
}

/// Interprets an HTTP response to a JSON-RPC request.
pub fn interpret_response<T>(
    status: u16,
    parsed: Result<JsonRpcResponse<Result<T, String>>, String>,
) -> (r: Result<T, RpcError>)
    ensures
        r == response_outcome(status, parsed),
{
    if status == 401 || status == 403 {
        return Err(RpcError::Authentication);
    }
    match parsed {
        Ok(response) => match response.into_result() {
            Ok(Ok(value)) => Ok(value),
            Ok(Err(reason)) => Err(RpcError::InvalidResult(reason)),
            Err(error) => Err(error),
        },
        Err(reason) => if !(200 <= status && status <= 299) {
            Err(RpcError::HttpStatus(status))
        } else {
            Err(RpcError::InvalidResponse(reason))
        },
    }
}

/// `after` is what a wallet call reports for `before`: Bitcoin Core's error
/// -18 (wallet not found or not loaded) becomes `WalletUnavailable` naming
/// the wallet and keeping the message; every other error stays as it is.
pub open spec fn wallet_error_mapped(wallet: Seq<char>, before: RpcError, after: RpcError) -> bool {
    match before {
        RpcError::BitcoinCore { code, message, .. } => if code == -18 {
            match after {
                RpcError::WalletUnavailable { wallet: w, message: m } => w@ == wallet && m
                    == message,
                _ => false,
            }
        } else {
            after == before
        },
        _ => after == before,
    }
}

/// Turns Bitcoin Core's "wallet not found" error into `WalletUnavailable`.
pub fn map_wallet_error(wallet: &str, error: RpcError) -> (r: RpcError)
    ensures
        wallet_error_mapped(wallet@, error, r),
{
    match error {
        RpcError::BitcoinCore { code, message, data } => {
            if code == -18 {
                RpcError::WalletUnavailable { wallet: String::from_str(wallet), message }
            } else {
                RpcError::BitcoinCore { code, message, data }
            }
        },
        other => other,
    }
}

/// The outcome of a call as its caller sees it: for a wallet call, the
/// wallet's errors are mapped; node calls pass through.
pub fn finish_call<T>(call: &RpcCall, outcome: Result<T, RpcError>) -> (r: Result<T, RpcError>)
    ensures
        match call.wallet {
            None => r == outcome,
            Some(w) => match outcome {
                Ok(value) => r == Ok::<T, RpcError>(value),
                Err(before) => r matches Err(after) && wallet_error_mapped(w@, before, after),
            },
        },
{
    match &call.wallet {
        None => outcome,
        Some(wallet) => match outcome {
            Ok(value) => Ok(value),
            Err(error) => Err(map_wallet_error(wallet.as_str(), error)),
        },
    }
}

/// A wallet call changes exactly one error: Bitcoin Core's -18 becomes
/// `WalletUnavailable` naming the wallet with the same message; every other
/// error, Bitcoin Core's other codes included, is reported unchanged.
pub proof fn law_only_wallet_not_found_is_mapped(
    wallet: Seq<char>,
    before: RpcError,
    after: RpcError,
    code: i64,
    message: String,
    data: Option<String>,
)
    requires
        wallet_error_mapped(wallet, before, after),
    ensures
        !(before is BitcoinCore) ==> after == before,
        before == (RpcError::BitcoinCore { code, message, data }) && code != -18 ==> after == before,
        before == (RpcError::BitcoinCore { code, message, data }) && code == -18 ==> (after matches RpcError::WalletUnavailable { wallet: w, message: m } && w@ == wallet && m == message),
{
}

/// Mapping wallet errors twice is mapping them once.
pub proof fn law_wallet_error_mapping_idempotent(
    wallet: Seq<char>,
    first: RpcError,
    second: RpcError,
    third: RpcError,
)
    requires
        wallet_error_mapped(wallet, first, second),
        wallet_error_mapped(wallet, second, third),
    ensures
        third == second,
{
}

/// The members of `getwalletinfo`'s result that the library reads.
pub struct WalletMetadata {
    pub walletname: String,
    pub txcount: u64,
}

/// The balances of the wallet's own coins in `getbalances`' result, each
/// the text of a JSON number.
pub struct MineBalances {
    pub trusted: String,
    pub untrusted_pending: String,
    pub immature: String,
}

/// The part of `getbalances`' result that the library reads.
pub struct WalletBalances {
    pub mine: MineBalances,
}

/// A summary of a wallet; balances are texts of JSON numbers.
pub struct WalletInfo {
    pub walletname: String,
    pub trusted_balance: String,
    pub unconfirmed_balance: String,
    pub immature_balance: String,
    pub txcount: u64,
}

impl WalletInfo {
    /// Combines `getwalletinfo`'s and `getbalances`' results: the name and
    /// transaction count from the first; the trusted, untrusted-pending and
    /// immature balances of the wallet's own coins from the second.
    pub fn from_responses(metadata: WalletMetadata, balances: WalletBalances) -> (r: WalletInfo)
        ensures
            r.walletname == metadata.walletname,
            r.txcount == metadata.txcount,
            r.trusted_balance == balances.mine.trusted,
            r.unconfirmed_balance == balances.mine.untrusted_pending,
            r.immature_balance == balances.mine.immature,
    {
        WalletInfo {
            walletname: metadata.walletname,
            trusted_balance: balances.mine.trusted,
            unconfirmed_balance: balances.mine.untrusted_pending,
            immature_balance: balances.mine.immature,
            txcount: metadata.txcount,
        }
    }
}

} // verus!
