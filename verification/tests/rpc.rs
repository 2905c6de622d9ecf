use bitcoin_cli_rs::endpoint::RpcUrl;
use bitcoin_cli_rs::error::RpcError;
use bitcoin_cli_rs::json::request_body;
use bitcoin_cli_rs::rpc::{
    check_credentials, finish_call, interpret_response, map_wallet_error, prepare,
    wallet_endpoint, JsonRpcError, JsonRpcResponse, MineBalances, RpcCall, RpcConnection,
    WalletBalances, WalletInfo, WalletMetadata,
};
use serde_json::Value;

fn connection(url: &str) -> RpcConnection {
    RpcConnection {
        url: RpcUrl::parse(url).expect("valid test URL"),
        username: "user".to_owned(),
        password: "pass".to_owned(),
        timeout_seconds: 30,
    }
}

#[test]
fn builds_percent_encoded_wallet_endpoint() {
    let base = RpcUrl::parse("http://127.0.0.1:18443").expect("valid test URL");
    let endpoint = wallet_endpoint(&base, "team wallet").expect("valid wallet endpoint");

    assert_eq!(
        endpoint.as_str(),
        "http://127.0.0.1:18443/wallet/team%20wallet"
    );
}

#[test]
fn converts_json_rpc_error_to_typed_error() {
    let response = JsonRpcResponse::<Value> {
        result: None,
        error: Some(JsonRpcError {
            code: -18,
            message: "Requested wallet does not exist or is not loaded".to_owned(),
            data: None,
        }),
    };

    let error = response.into_result().expect_err("response should fail");
    assert!(matches!(error, RpcError::BitcoinCore { code: -18, .. }));
}

#[test]
fn maps_wallet_not_found_to_wallet_unavailable() {
    let error = RpcError::BitcoinCore {
        code: -18,
        message: "Requested wallet does not exist or is not loaded".to_owned(),
        data: None,
    };

    let error = map_wallet_error("missing-wallet", error);

    assert!(matches!(
        error,
        RpcError::WalletUnavailable { wallet, .. } if wallet == "missing-wallet"
    ));
}

#[test]
fn other_errors_pass_wallet_mapping_unchanged() {
    let error = RpcError::BitcoinCore { code: -32601, message: "Method not found".to_owned(), data: None };
    assert!(matches!(
        map_wallet_error("w", error),
        RpcError::BitcoinCore { code: -32601, .. }
    ));
    assert!(matches!(map_wallet_error("w", RpcError::Authentication), RpcError::Authentication));
    let once = map_wallet_error(
        "w",
        RpcError::BitcoinCore { code: -18, message: "m".to_owned(), data: None },
    );
    let twice = map_wallet_error("w", once);
    assert!(matches!(twice, RpcError::WalletUnavailable { wallet, message } if wallet == "w" && message == "m"));
}

#[test]
fn cannot_be_a_base_url_has_no_wallet_endpoint() {
    let base = RpcUrl::parse("mailto:node@example.com").expect("valid test URL");
    assert!(base.cannot_be_a_base());
    assert!(matches!(wallet_endpoint(&base, "w"), Err(RpcError::InvalidBaseUrl)));
    let conn = connection("mailto:node@example.com");
    assert!(matches!(prepare(&conn, &RpcCall::balance("w")), Err(RpcError::InvalidBaseUrl)));
    assert!(prepare(&conn, &RpcCall::blockchain_info()).is_ok());
}

#[test]
fn trailing_slash_is_not_doubled_in_wallet_endpoint() {
    let base = RpcUrl::parse("http://127.0.0.1:18443/").expect("valid test URL");
    let endpoint = wallet_endpoint(&base, "w/1").expect("valid wallet endpoint");
    assert_eq!(endpoint.as_str(), "http://127.0.0.1:18443/wallet/w%2F1");
}

#[test]
fn request_bodies_are_framed() {
    let conn = connection("http://127.0.0.1:18443");
    let request = prepare(&conn, &RpcCall::blockchain_info()).expect("node call");
    assert_eq!(request.endpoint.as_str(), "http://127.0.0.1:18443/");
    assert_eq!(
        request.body,
        r#"{"jsonrpc":"1.0","id":"bitcoin-cli-rs","method":"getblockchaininfo","params":[]}"#
    );

    let request = prepare(&conn, &RpcCall::new_address("my wallet")).expect("wallet call");
    assert_eq!(request.endpoint.as_str(), "http://127.0.0.1:18443/wallet/my%20wallet");
    assert_eq!(
        request.body,
        r#"{"jsonrpc":"1.0","id":"bitcoin-cli-rs","method":"getnewaddress","params":["","bech32"]}"#
    );
    let parsed: Value = serde_json::from_str(&request.body).expect("the body is JSON");
    assert_eq!(parsed["params"][1], Value::String("bech32".to_owned()));

    let body = request_body("say \"hi\"", &vec!["1".to_owned(), "{\"a\":[true]}".to_owned()]);
    assert_eq!(
        body,
        r#"{"jsonrpc":"1.0","id":"bitcoin-cli-rs","method":"say \"hi\"","params":[1,{"a":[true]}]}"#
    );
}

type Decoded = JsonRpcResponse<Result<u64, String>>;

#[test]
fn responses_are_interpreted() {
    let ok = |v: u64| -> Result<Decoded, String> {
        Ok(JsonRpcResponse { result: Some(Ok(v)), error: None })
    };
    assert!(matches!(interpret_response(200, ok(5)), Ok(5)));
    assert!(matches!(interpret_response(401, ok(5)), Err(RpcError::Authentication)));
    assert!(matches!(interpret_response(403, ok(5)), Err(RpcError::Authentication)));
    assert!(matches!(
        interpret_response::<u64>(500, Err("bad".to_owned())),
        Err(RpcError::HttpStatus(500))
    ));
    assert!(matches!(
        interpret_response::<u64>(200, Err("bad".to_owned())),
        Err(RpcError::InvalidResponse(m)) if m == "bad"
    ));
    assert!(matches!(
        interpret_response::<u64>(500, Ok(JsonRpcResponse { result: None, error: None })),
        Err(RpcError::MissingResult)
    ));
    let both: Decoded = JsonRpcResponse {
        result: Some(Ok(1)),
        error: Some(JsonRpcError { code: -1, message: "boom".to_owned(), data: Some("[1]".to_owned()) }),
    };
    assert!(matches!(
        interpret_response(500, Ok(both)),
        Err(RpcError::BitcoinCore { code: -1, message, data: Some(d) }) if message == "boom" && d == "[1]"
    ));
    assert!(matches!(check_credentials(401), Err(RpcError::Authentication)));
    assert!(check_credentials(500).is_ok());
}

#[test]
fn wrong_shaped_results_are_invalid_results() {
    let wrong: Decoded = JsonRpcResponse {
        result: Some(Err("invalid type: integer `5`, expected struct BlockchainInfo".to_owned())),
        error: None,
    };
    let outcome = interpret_response(200, Ok(wrong));
    assert!(matches!(&outcome, Err(RpcError::InvalidResult(m)) if m.contains("expected struct")));
    if let Err(error) = outcome {
        assert!(error
            .message()
            .starts_with("Bitcoin Core returned a result with an unexpected shape: "));
    }
    let reported: Decoded = JsonRpcResponse {
        result: Some(Err("unused".to_owned())),
        error: Some(JsonRpcError { code: -8, message: "bad".to_owned(), data: None }),
    };
    assert!(matches!(
        interpret_response(200, Ok(reported)),
        Err(RpcError::BitcoinCore { code: -8, .. })
    ));
}

#[test]
fn wallet_calls_map_wallet_errors() {
    let missing = || -> Result<u64, RpcError> {
        Err(RpcError::BitcoinCore { code: -18, message: "gone".to_owned(), data: None })
    };
    assert!(matches!(
        finish_call(&RpcCall::balance("w"), missing()),
        Err(RpcError::WalletUnavailable { wallet, message }) if wallet == "w" && message == "gone"
    ));
    assert!(matches!(
        finish_call(&RpcCall::blockchain_info(), missing()),
        Err(RpcError::BitcoinCore { code: -18, .. })
    ));
    assert!(matches!(finish_call(&RpcCall::balance("w"), Ok(3u64)), Ok(3)));
}

#[test]
fn wallet_info_combines_both_responses() {
    let info = WalletInfo::from_responses(
        WalletMetadata { walletname: "bitcoin-cli-rs-wallet".to_owned(), txcount: 2 },
        WalletBalances {
            mine: MineBalances {
                trusted: "1.25".to_owned(),
                untrusted_pending: "0.1".to_owned(),
                immature: "50.0".to_owned(),
            },
        },
    );
    assert_eq!(info.walletname, "bitcoin-cli-rs-wallet");
    assert_eq!(info.trusted_balance, "1.25");
    assert_eq!(info.unconfirmed_balance, "0.1");
    assert_eq!(info.immature_balance, "50.0");
    assert_eq!(info.txcount, 2);
}

#[test]
fn wallet_endpoint_keeps_base_path_and_encodes_the_name() {
    let base = RpcUrl::parse("http://h/api/?x=1#f").expect("valid test URL");
    let endpoint = wallet_endpoint(&base, "a/b%").expect("valid wallet endpoint");
    assert_eq!(endpoint.as_str(), "http://h/api/wallet/a%2Fb%25?x=1#f");
    assert_eq!(base.as_str(), "http://h/api/?x=1#f");
    assert_eq!(endpoint.url().as_str(), endpoint.as_str());
}

#[test]
fn rpc_error_messages() {
    assert_eq!(
        RpcError::Authentication.message(),
        "Bitcoin Core rejected the RPC credentials"
    );
    assert_eq!(
        RpcError::WalletUnavailable {
            wallet: "missing-wallet".to_owned(),
            message: "Requested wallet does not exist or is not loaded".to_owned(),
        }
        .message(),
        "wallet `missing-wallet` does not exist or is not loaded: Requested wallet does not exist or is not loaded"
    );
    assert_eq!(
        RpcError::BitcoinCore { code: -32601, message: "Method not found".to_owned(), data: None }
            .message(),
        "Bitcoin Core RPC error -32601: Method not found"
    );
    assert_eq!(
        RpcError::BitcoinCore { code: i64::MIN, message: "m".to_owned(), data: None }.message(),
        format!("Bitcoin Core RPC error {}: m", i64::MIN)
    );
    assert_eq!(
        RpcError::HttpStatus(404).message(),
        "Bitcoin Core returned HTTP status 404 Not Found"
    );
    assert_eq!(
        RpcError::HttpStatus(599).message(),
        "Bitcoin Core returned HTTP status 599 <unknown status code>"
    );
    assert_eq!(
        RpcError::Transport("refused".to_owned()).message(),
        "could not connect to Bitcoin Core: refused"
    );
    assert_eq!(
        RpcError::InvalidBaseUrl.message(),
        "the configured RPC URL cannot be used as a base URL"
    );
}

#[test]
fn duplicated_connections_are_equal() {
    let conn = connection("http://127.0.0.1:18443");
    let copy = conn.duplicate();
    assert_eq!(copy.url.as_str(), conn.url.as_str());
    assert_eq!(copy.url.url(), conn.url.url());
    assert_eq!(copy.username, "user");
    assert_eq!(copy.password, "pass");
    assert_eq!(copy.timeout_seconds, 30);
}
