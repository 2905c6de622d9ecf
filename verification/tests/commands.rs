use bitcoin_cli_rs::commands::{
    balance_report, blockchain_info_report, handle_wallet_result, rpc_command_call, wallet_info_report, CommandError,
};
use bitcoin_cli_rs::error::RpcError;
use bitcoin_cli_rs::json::parse_params;
use bitcoin_cli_rs::rpc::{finish_call, RpcCall, WalletInfo};
use bitcoin_cli_rs::text::{decimal_string, is_blank};
use serde_json::Value;

fn as_value(text: &str) -> Value {
    serde_json::from_str(text).expect("parameters are JSON texts")
}

#[test]
fn parses_json_values_and_preserves_plain_strings() {
    let params = parse_params(vec![
        "200".to_owned(),
        "true".to_owned(),
        "null".to_owned(),
        "block-hash".to_owned(),
        "[1,2]".to_owned(),
        r#"{"verbosity":2}"#.to_owned(),
    ]);

    let mut object = serde_json::Map::new();
    object.insert("verbosity".to_owned(), Value::from(2));
    let values: Vec<Value> = params.iter().map(|p| as_value(p)).collect();
    assert_eq!(
        values,
        vec![
            Value::from(200),
            Value::Bool(true),
            Value::Null,
            Value::String("block-hash".to_owned()),
            Value::Array(vec![Value::from(1), Value::from(2)]),
            Value::Object(object),
        ]
    );
}

#[test]
fn plain_strings_are_escaped_as_json_strings() {
    let params = parse_params(vec!["say \"hi\"".to_owned(), " [1, 2] ".to_owned()]);
    assert_eq!(params, vec![r#""say \"hi\"""#.to_owned(), "[1,2]".to_owned()]);
}

#[test]
fn wallet_unavailable_gets_a_hint() {
    let result: Result<u64, RpcError> = Err(RpcError::WalletUnavailable {
        wallet: "w".to_owned(),
        message: "Requested wallet does not exist or is not loaded".to_owned(),
    });
    match handle_wallet_result(result, "w") {
        Err(CommandError::Context { message, source }) => {
            assert_eq!(
                message,
                "wallet `w` is unavailable; create it with `bitcoin-cli createwallet \"w\"` or load it with `bitcoin-cli loadwallet \"w\"`"
            );
            assert_eq!(
                source.message(),
                "wallet `w` does not exist or is not loaded: Requested wallet does not exist or is not loaded"
            );
        },
        _ => panic!("expected a hint"),
    }
    assert!(matches!(handle_wallet_result(Ok::<u64, RpcError>(4), "w"), Ok(4)));
    assert!(matches!(
        handle_wallet_result(Err::<u64, RpcError>(RpcError::Authentication), "w"),
        Err(CommandError::Rpc(RpcError::Authentication))
    ));
}

#[test]
fn rpc_command_refuses_blank_methods() {
    match rpc_command_call("  ".to_owned(), vec![]) {
        Err(CommandError::Invalid { message }) => assert_eq!(message, "RPC method cannot be empty"),
        _ => panic!("blank method should fail"),
    }
    let call = match rpc_command_call("getblockhash".to_owned(), vec!["20".to_owned()]) {
        Ok(call) => call,
        Err(_) => panic!("valid method"),
    };
    assert_eq!(call.method, "getblockhash");
    assert!(call.wallet.is_none());
    assert_eq!(call.params, vec!["20".to_owned()]);
}

#[test]
fn reports_match_the_printed_text() {
    let info = WalletInfo {
        walletname: "bitcoin-cli-rs-wallet".to_owned(),
        trusted_balance: "0.0".to_owned(),
        unconfirmed_balance: "0.0".to_owned(),
        immature_balance: "0.0".to_owned(),
        txcount: 0,
    };
    assert_eq!(
        wallet_info_report(&info),
        "Wallet:              bitcoin-cli-rs-wallet\nTrusted balance:     0.0 BTC\nUnconfirmed balance: 0.0 BTC\nImmature balance:    0.0 BTC\nTransactions:        0\n"
    );
    assert_eq!(balance_report("0.0"), "0.0 BTC\n");
    assert_eq!(
        blockchain_info_report(
            "regtest",
            1,
            1,
            "337e012a20f4e1d013bd5fc25d1e63750a92fc71c4753a91da3800f54580e18a",
            "0.00000000046565423739069247",
            "100.00",
            false,
            false,
        ),
        "Chain:                 regtest\nBlocks:                1\nHeaders:               1\nBest block hash:       337e012a20f4e1d013bd5fc25d1e63750a92fc71c4753a91da3800f54580e18a\nDifficulty:            0.00000000046565423739069247\nVerification progress: 100.00%\nInitial block download: false\nPruned:                false\n"
    );
}

#[test]
fn decimals_and_blanks() {
    assert_eq!(decimal_string(0), "0");
    assert_eq!(decimal_string(1050), "1050");
    assert_eq!(decimal_string(u64::MAX), u64::MAX.to_string());
    assert!(is_blank(""));
    assert!(is_blank(" \t\n\u{a0}\u{2028}"));
    assert!(!is_blank(" x "));
}

#[test]
fn missing_wallet_from_a_wallet_call_is_explained() {
    let reported: Result<u64, RpcError> = Err(RpcError::BitcoinCore {
        code: -18,
        message: "Requested wallet does not exist or is not loaded".to_owned(),
        data: None,
    });
    let outcome = finish_call(&RpcCall::wallet_metadata("team wallet"), reported);
    match handle_wallet_result(outcome, "team wallet") {
        Err(CommandError::Context { message, source: RpcError::WalletUnavailable { wallet, .. } }) => {
            assert_eq!(wallet, "team wallet");
            assert!(message.contains("createwallet \"team wallet\""));
            assert!(message.contains("loadwallet \"team wallet\""));
        },
        _ => panic!("expected the wallet hint"),
    }
}

#[test]
fn control_characters_are_escaped() {
    let params = parse_params(vec!["a\u{1}\u{8}\u{c}\n\r\t\u{1f}\u{7f}é\\".to_owned()]);
    assert_eq!(params, vec!["\"a\\u0001\\b\\f\\n\\r\\t\\u001f\u{7f}é\\\\\"".to_owned()]);
}
