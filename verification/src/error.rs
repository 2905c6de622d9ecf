//! Errors of RPC calls.

use vstd::prelude::*;

use crate::text::{decimal, decimal_string, signed_decimal, signed_decimal_string};

verus! {

/// Why an RPC call to Bitcoin Core failed. Texts of lower-level errors are
/// kept as their messages.
#[derive(Debug)]
pub enum RpcError {
    /// The HTTP client could not be built.
    BuildClient(String),
    /// The request could not be sent or no response arrived.
    Transport(String),
    /// Bitcoin Core answered 401 or 403.
    Authentication,
    /// Bitcoin Core answered a non-success status without a readable
    /// JSON-RPC response.
    HttpStatus(u16),
    /// The response body was not a JSON-RPC response of the expected shape.
    InvalidResponse(String),
    /// The result had an unexpected shape.
    InvalidResult(String),
    /// Bitcoin Core reported a JSON-RPC error; `data` is its JSON text.
    BitcoinCore { code: i64, message: String, data: Option<String> },
    /// The wallet named in a wallet call does not exist or is not loaded.
    WalletUnavailable { wallet: String, message: String },
    /// The RPC URL cannot take path segments.
    InvalidBaseUrl,
    /// The response carried neither a result nor an error.
    MissingResult,
}

/// The reason phrase that `http` gives a status code
/// (`StatusCode::canonical_reason`), if it knows one.
pub uninterp spec fn http_canonical_reason(status: u16) -> Option<Seq<char>>;

/// Calls `reqwest::StatusCode::from_u16` and then `canonical_reason`. As the
/// `http` source shows, `from_u16` refuses codes outside 100..=999, which
/// then have no reason phrase; the contract names the phrase of the others
/// `http_canonical_reason`.
#[verifier::external_body]
fn status_reason(status: u16) -> (r: Option<String>)
    ensures
        r matches Some(t) ==> http_canonical_reason(status) == Some(t@),
        r is None <==> http_canonical_reason(status) is None,
        (status < 100 || status > 999) ==> r is None,
{
    match reqwest::StatusCode::from_u16(status) {
        Ok(code) => match code.canonical_reason() {
            Some(reason) => Some(reason.to_owned()),
            None => None,
        },
        Err(_) => None,
    }
}

/// How an HTTP status is shown: its code, a space and its reason phrase, or
/// `<unknown status code>` where there is none.
pub open spec fn status_text(status: u16) -> Seq<char> {
    decimal(status as nat) + " "@ + match http_canonical_reason(status) {
        Some(reason) => reason,
        None => "<unknown status code>"@,
    }
}

/// The message of an RPC error.
pub open spec fn rpc_error_message(e: RpcError) -> Seq<char> {
    match e {
        RpcError::BuildClient(m) => "failed to build the HTTP client: "@ + m@,
        RpcError::Transport(m) => "could not connect to Bitcoin Core: "@ + m@,
        RpcError::Authentication => "Bitcoin Core rejected the RPC credentials"@,
        RpcError::HttpStatus(status) => "Bitcoin Core returned HTTP status "@ + status_text(status),
        RpcError::InvalidResponse(m) => "Bitcoin Core returned an invalid JSON-RPC response: "@
            + m@,
        RpcError::InvalidResult(m) => "Bitcoin Core returned a result with an unexpected shape: "@
            + m@,
        RpcError::BitcoinCore { code, message, .. } => "Bitcoin Core RPC error "@ + signed_decimal(
            code as int,
        ) + ": "@ + message@,
        RpcError::WalletUnavailable { wallet, message } => "wallet `"@ + wallet@
            + "` does not exist or is not loaded: "@ + message@,
        RpcError::InvalidBaseUrl => "the configured RPC URL cannot be used as a base URL"@,
        RpcError::MissingResult => "Bitcoin Core returned neither a result nor an error"@,
    }
}

fn prefixed(prefix: &str, text: &str) -> (r: String)
    ensures
        r@ == prefix@ + text@,
{
    let mut m = String::from_str(prefix);
    m.append(text);
    m
}

impl RpcError {
    /// The message of the error.
    pub fn message(&self) -> (r: String)
        ensures
            r@ == rpc_error_message(*self),
    {
        match self {
            RpcError::BuildClient(m) => prefixed("failed to build the HTTP client: ", m.as_str()),
            RpcError::Transport(m) => prefixed("could not connect to Bitcoin Core: ", m.as_str()),
            RpcError::Authentication => String::from_str("Bitcoin Core rejected the RPC credentials"),
            RpcError::HttpStatus(status) => {
                let mut m = String::from_str("Bitcoin Core returned HTTP status ");
                let code = decimal_string(*status as u64);
                m.append(code.as_str());
                m.append(" ");
                match status_reason(*status) {
                    Some(reason) => m.append(reason.as_str()),
                    None => m.append("<unknown status code>"),
                }
                m
            },
            RpcError::InvalidResponse(m) => prefixed(
                "Bitcoin Core returned an invalid JSON-RPC response: ",
                m.as_str(),
            ),
            RpcError::InvalidResult(m) => prefixed(
                "Bitcoin Core returned a result with an unexpected shape: ",
                m.as_str(),
            ),
            RpcError::BitcoinCore { code, message, .. } => {
                let mut m = String::from_str("Bitcoin Core RPC error ");
                let digits = signed_decimal_string(*code);
                m.append(digits.as_str());
                m.append(": ");
                m.append(message.as_str());
                m
            },
            RpcError::WalletUnavailable { wallet, message } => {
                let mut m = String::from_str("wallet `");
                m.append(wallet.as_str());
                m.append("` does not exist or is not loaded: ");
                m.append(message.as_str());
                m
            },
            RpcError::InvalidBaseUrl => String::from_str(
                "the configured RPC URL cannot be used as a base URL",
            ),
            RpcError::MissingResult => String::from_str(
                "Bitcoin Core returned neither a result nor an error",
            ),
        }
    }
}

} // verus!
