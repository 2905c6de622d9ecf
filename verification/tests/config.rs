use bitcoin_cli_rs::cli::{Cli, Command};
use bitcoin_cli_rs::config::{required_value, AppConfig, ConfigError, FileConfig};

fn cli_with(
    rpc_url: Option<&str>,
    rpc_user: Option<&str>,
    rpc_password: Option<&str>,
    timeout_seconds: Option<u64>,
) -> Cli {
    Cli {
        config: "test-data/missing-config.toml".to_owned(),
        rpc_url: rpc_url.map(|s| s.to_owned()),
        rpc_user: rpc_user.map(|s| s.to_owned()),
        rpc_password: rpc_password.map(|s| s.to_owned()),
        wallet: None,
        timeout_seconds,
        command: Command::BlockchainInfo,
    }
}

#[test]
fn rejects_zero_timeout() {
    let cli = cli_with(None, Some("user"), Some("pass"), Some(0));

    let error = match AppConfig::load(&cli, FileConfig::default()) {
        Ok(_) => panic!("zero timeout should fail"),
        Err(error) => error,
    };

    assert!(error.message().contains("greater than zero"));
}

#[test]
fn rejects_non_http_rpc_url() {
    let cli = cli_with(Some("file:///tmp/bitcoin.sock"), Some("user"), Some("pass"), None);

    let error = match AppConfig::load(&cli, FileConfig::default()) {
        Ok(_) => panic!("file URL should fail"),
        Err(error) => error,
    };

    assert!(error.message().contains("http or https"));
}

#[test]
fn defaults_apply_when_nothing_is_configured() {
    let cli = cli_with(None, Some("user"), Some("pass"), None);
    let config = match AppConfig::load(&cli, FileConfig::default()) {
        Ok(config) => config,
        Err(error) => panic!("defaults should load: {}", error.message()),
    };
    let connection = config.rpc_connection();
    assert_eq!(connection.url.as_str(), "http://127.0.0.1:18443/");
    assert_eq!(connection.url.scheme(), "http");
    assert_eq!(connection.username, "user");
    assert_eq!(connection.password, "pass");
    assert_eq!(connection.timeout_seconds, 30);
    assert_eq!(config.wallet, "bitcoin-cli-rs-wallet");
}

#[test]
fn command_line_overrides_file_which_overrides_defaults() {
    let mut cli = cli_with(Some("https://node.example:8332"), None, Some("cli-pass"), None);
    cli.wallet = Some("cli-wallet".to_owned());
    let file = FileConfig {
        rpc_url: Some("http://file.example:1".to_owned()),
        rpc_user: Some("file-user".to_owned()),
        rpc_password: Some("file-pass".to_owned()),
        wallet: Some("file-wallet".to_owned()),
        timeout_seconds: Some(7),
    };
    let config = match AppConfig::load(&cli, file) {
        Ok(config) => config,
        Err(error) => panic!("should load: {}", error.message()),
    };
    let connection = config.rpc_connection();
    assert_eq!(connection.url.as_str(), "https://node.example:8332/");
    assert_eq!(connection.username, "file-user");
    assert_eq!(connection.password, "cli-pass");
    assert_eq!(connection.timeout_seconds, 7);
    assert_eq!(config.wallet, "cli-wallet");
    assert_eq!(config.wallet(), "cli-wallet");
    assert_eq!(config.duplicate().wallet(), "cli-wallet");
}

#[test]
fn missing_username_is_reported_before_password() {
    let cli = cli_with(None, None, None, Some(0));
    match AppConfig::load(&cli, FileConfig::default()) {
        Ok(_) => panic!("missing username should fail"),
        Err(error) => {
            assert!(matches!(&error, ConfigError::MissingValue { label } if label == "RPC username"));
            assert_eq!(
                error.message(),
                "RPC username is required; provide it through a CLI flag, environment variable, or config.toml"
            );
        },
    }
}

#[test]
fn blank_password_is_missing() {
    let cli = cli_with(None, Some("user"), Some(" \t\u{3000}"), None);
    match AppConfig::load(&cli, FileConfig::default()) {
        Ok(_) => panic!("blank password should fail"),
        Err(error) => {
            assert!(matches!(&error, ConfigError::MissingValue { label } if label == "RPC password"))
        },
    }
}

#[test]
fn invalid_url_is_named() {
    let cli = cli_with(Some("not a url"), Some("user"), Some("pass"), None);
    match AppConfig::load(&cli, FileConfig::default()) {
        Ok(_) => panic!("invalid URL should fail"),
        Err(error) => {
            assert!(matches!(&error, ConfigError::InvalidUrl { url, .. } if url == "not a url"));
            assert_eq!(error.message(), "RPC URL `not a url` is not a valid URL");
        },
    }
}

#[test]
fn required_value_keeps_the_value_untrimmed() {
    match required_value(Some(" user ".to_owned()), "RPC username") {
        Ok(value) => assert_eq!(value, " user "),
        Err(_) => panic!("a non-blank value is present"),
    }
    assert!(matches!(
        required_value(None, "RPC username"),
        Err(ConfigError::MissingValue { .. })
    ));
    assert!(matches!(
        required_value(Some(String::new()), "RPC username"),
        Err(ConfigError::MissingValue { .. })
    ));
}
