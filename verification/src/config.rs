//! Configuration: settings from command-line flags (and their environment
//! variables), the TOML file and built-in defaults, in that order of
//! precedence, checked before any request is made.

use vstd::prelude::*;

use crate::cli::Cli;
use crate::endpoint::{url_parse, RpcUrl};
use crate::rpc::RpcConnection;
use crate::text::{is_blank, is_blank_text};

verus! {

/// The RPC URL used when none is configured.
pub const DEFAULT_RPC_URL: &'static str = "http://127.0.0.1:18443";

/// The wallet used when none is configured.
pub const DEFAULT_WALLET: &'static str = "bitcoin-cli-rs-wallet";

/// The request timeout, in seconds, used when none is configured.
pub const DEFAULT_TIMEOUT_SECONDS: u64 = 30;

/// The settings of the configuration file; each may be absent.
pub struct FileConfig {
    pub rpc_url: Option<String>,
    pub rpc_user: Option<String>,
    pub rpc_password: Option<String>,
    pub wallet: Option<String>,
    pub timeout_seconds: Option<u64>,
}

impl Default for FileConfig {
    /// The settings of a missing file: none.
    fn default() -> (r: Self)
        ensures
            r.rpc_url is None,
            r.rpc_user is None,
            r.rpc_password is None,
            r.wallet is None,
            r.timeout_seconds is None,
    {
        FileConfig {
            rpc_url: None,
            rpc_user: None,
            rpc_password: None,
            wallet: None,
            timeout_seconds: None,
        }
    }
}

/// Why a configuration was refused.
#[derive(Debug)]
pub enum ConfigError {
    /// A required setting (`label`) is absent or blank.
    MissingValue { label: String },
    /// The timeout is zero.
    ZeroTimeout,
    /// The RPC URL `url` does not parse; `reason` is the parser's message.
    InvalidUrl { url: String, reason: String },
    /// The RPC URL's scheme is neither `http` nor `https`.
    UnsupportedScheme,
}

/// The message of a configuration error.
pub open spec fn config_error_message(e: ConfigError) -> Seq<char> {
    match e {
        ConfigError::MissingValue { label } => label@
            + " is required; provide it through a CLI flag, environment variable, or config.toml"@,
        ConfigError::ZeroTimeout => "RPC timeout must be greater than zero seconds"@,
        ConfigError::InvalidUrl { url, .. } => "RPC URL `"@ + url@ + "` is not a valid URL"@,
        ConfigError::UnsupportedScheme => "RPC URL must use http or https"@,
    }
}

impl ConfigError {
    /// The message of the error.
    pub fn message(&self) -> (r: String)
        ensures
            r@ == config_error_message(*self),
    {
        match self {
            ConfigError::MissingValue { label } => {
                let mut m = label.clone();
                m.append(
                    " is required; provide it through a CLI flag, environment variable, or config.toml",
                );
                m
            },
            ConfigError::ZeroTimeout => String::from_str(
                "RPC timeout must be greater than zero seconds",
            ),
            ConfigError::InvalidUrl { url, .. } => {
                let mut m = String::from_str("RPC URL `");
                m.append(url.as_str());
                m.append("` is not a valid URL");
                m
            },
            ConfigError::UnsupportedScheme => String::from_str("RPC URL must use http or https"),
        }
    }
}

/// A setting taken from the command line if given there, else from the file.
pub open spec fn layered<T>(cli: Option<T>, file: Option<T>) -> Option<T> {
    match cli {
        Some(v) => Some(v),
        None => file,
    }
}

/// A text setting from the command line, else the file, else `default`.
pub open spec fn layered_text(cli: Option<String>, file: Option<String>, default: Seq<char>) -> Seq<
    char,
> {
    match layered(cli, file) {
        Some(v) => v@,
        None => default,
    }
}

/// The timeout setting from the command line, else the file, else the
/// default.
pub open spec fn layered_timeout(cli: Option<u64>, file: Option<u64>) -> u64 {
    match layered(cli, file) {
        Some(t) => t,
        None => DEFAULT_TIMEOUT_SECONDS,
    }
}

/// A required setting is present when it is given and not blank.
pub open spec fn present(value: Option<String>) -> bool {
    value matches Some(v) && !is_blank_text(v@)
}

/// The error for a required setting that is missing.
pub open spec fn is_missing_value_error(e: ConfigError, label: Seq<char>) -> bool {
    e matches ConfigError::MissingValue { label: l } && l@ == label
}

/// A required setting: its value when present, else an error naming it.
pub fn required_value(value: Option<String>, label: &str) -> (r: Result<String, ConfigError>)
    ensures
        present(value) ==> r == Ok::<String, ConfigError>(value->0),
        !present(value) ==> (r matches Err(e) && is_missing_value_error(e, label@)),
{
    match value {
        Some(v) => {
            if !is_blank(v.as_str()) {
                Ok(v)
            } else {
                Err(ConfigError::MissingValue { label: String::from_str(label) })
            }
        },
        None => Err(ConfigError::MissingValue { label: String::from_str(label) }),
    }
}

/// Settings resolved from their sources, before the RPC URL is parsed.
pub struct Settings {
    pub rpc_url: String,
    pub rpc_user: String,
    pub rpc_password: String,
    pub wallet: String,
    pub timeout_seconds: u64,
}

fn layer_text(cli: &Option<String>, file: Option<String>) -> (r: Option<String>)
    ensures
        r == layered(*cli, file),
{
    match cli {
        Some(v) => Some(v.clone()),
        None => file,
    }
}

/// Which error, if any, the settings of `cli` and `file` meet before the RPC
/// URL is parsed: a missing username, then a missing password, then a zero
/// timeout.
pub open spec fn settings_refused(cli: Cli, file: FileConfig, e: ConfigError) -> bool {
    if !present(layered(cli.rpc_user, file.rpc_user)) {
        is_missing_value_error(e, "RPC username"@)
    } else if !present(layered(cli.rpc_password, file.rpc_password)) {
        is_missing_value_error(e, "RPC password"@)
    } else {
        e is ZeroTimeout
    }
}

/// Whether the settings of `cli` and `file` pass the checks made before the
/// RPC URL is parsed.
pub open spec fn settings_acceptable(cli: Cli, file: FileConfig) -> bool {
    &&& present(layered(cli.rpc_user, file.rpc_user))
    &&& present(layered(cli.rpc_password, file.rpc_password))
    &&& layered_timeout(cli.timeout_seconds, file.timeout_seconds) != 0
}

/// The resolved settings of `cli` and `file`, each from the command line,
/// else the file, else its default.
pub open spec fn settings_resolved(cli: Cli, file: FileConfig, s: Settings) -> bool {
    &&& s.rpc_url@ == layered_text(cli.rpc_url, file.rpc_url, DEFAULT_RPC_URL@)
    &&& Some(s.rpc_user) == layered(cli.rpc_user, file.rpc_user)
    &&& Some(s.rpc_password) == layered(cli.rpc_password, file.rpc_password)
    &&& s.wallet@ == layered_text(cli.wallet, file.wallet, DEFAULT_WALLET@)
    &&& s.timeout_seconds == layered_timeout(cli.timeout_seconds, file.timeout_seconds)
}

/// Each setting comes from the command line when given there, else from the
/// file when given there, else (for those that have one) from its default.
pub proof fn law_settings_precedence(cli: Cli, file: FileConfig, s: Settings)
    requires
        settings_resolved(cli, file, s),
    ensures
        cli.rpc_url is Some ==> s.rpc_url@ == cli.rpc_url->0@,
        cli.rpc_url is None && file.rpc_url is Some ==> s.rpc_url@ == file.rpc_url->0@,
        cli.rpc_url is None && file.rpc_url is None ==> s.rpc_url@ == DEFAULT_RPC_URL@,
        cli.wallet is Some ==> s.wallet@ == cli.wallet->0@,
        cli.wallet is None && file.wallet is Some ==> s.wallet@ == file.wallet->0@,
        cli.wallet is None && file.wallet is None ==> s.wallet@ == DEFAULT_WALLET@,
        cli.rpc_user is Some ==> s.rpc_user == cli.rpc_user->0,
        cli.rpc_user is None && file.rpc_user is Some ==> s.rpc_user == file.rpc_user->0,
        cli.rpc_password is Some ==> s.rpc_password == cli.rpc_password->0,
        cli.rpc_password is None && file.rpc_password is Some ==> s.rpc_password == file.rpc_password->0,
        cli.timeout_seconds is Some ==> s.timeout_seconds == cli.timeout_seconds->0,
        cli.timeout_seconds is None && file.timeout_seconds is Some ==> s.timeout_seconds
            == file.timeout_seconds->0,
        cli.timeout_seconds is None && file.timeout_seconds is None ==> s.timeout_seconds
            == DEFAULT_TIMEOUT_SECONDS,
{
}

/// Resolves every setting by precedence (command line, then file, then
/// default) and checks the credentials and the timeout.
pub fn resolve(cli: &Cli, file: FileConfig) -> (r: Result<Settings, ConfigError>)
    ensures
        settings_acceptable(*cli, file) ==> (r matches Ok(s) && settings_resolved(*cli, file, s)),
        !settings_acceptable(*cli, file) ==> (r matches Err(e) && settings_refused(*cli, file, e)),
{
    let rpc_url = match layer_text(&cli.rpc_url, file.rpc_url) {
        Some(url) => url,
        None => String::from_str(DEFAULT_RPC_URL),
    };
    let rpc_user = match required_value(layer_text(&cli.rpc_user, file.rpc_user), "RPC username") {
        Ok(v) => v,
        Err(e) => return Err(e),
    };
    let rpc_password = match required_value(
        layer_text(&cli.rpc_password, file.rpc_password),
        "RPC password",
    ) {
        Ok(v) => v,
        Err(e) => return Err(e),
    };
    let wallet = match layer_text(&cli.wallet, file.wallet) {
        Some(w) => w,
        None => String::from_str(DEFAULT_WALLET),
    };
    let timeout_seconds = match cli.timeout_seconds {
        Some(t) => t,
        None => match file.timeout_seconds {
            Some(t) => t,
            None => DEFAULT_TIMEOUT_SECONDS,
        },
    };
    if timeout_seconds == 0 {
        return Err(ConfigError::ZeroTimeout);
    }
    Ok(Settings { rpc_url, rpc_user, rpc_password, wallet, timeout_seconds })
}

/// The checked configuration of the client.
pub struct AppConfig {
    rpc_url: RpcUrl,
    rpc_user: String,
    rpc_password: String,
    pub wallet: String,
    timeout_seconds: u64,
}

/// What a configuration holds.
pub struct AppConfigView {
    pub rpc_url: (Seq<char>, Seq<char>, bool),
    pub rpc_user: Seq<char>,
    pub rpc_password: Seq<char>,
    pub wallet: Seq<char>,
    pub timeout_seconds: u64,
}

impl View for AppConfig {
    type V = AppConfigView;

    closed spec fn view(&self) -> AppConfigView {
        AppConfigView {
            rpc_url: self.rpc_url@,
            rpc_user: self.rpc_user@,
            rpc_password: self.rpc_password@,
            wallet: self.wallet@,
            timeout_seconds: self.timeout_seconds,
        }
    }
}

/// Whether a URL scheme is allowed for RPC.
pub open spec fn is_http_scheme(scheme: Seq<char>) -> bool {
    scheme == "http"@ || scheme == "https"@
}

/// What every loaded configuration satisfies: a username and a password
/// that are not blank, a positive timeout, and an `http` or `https` RPC URL.
pub open spec fn is_valid_config(c: AppConfigView) -> bool {
    &&& !is_blank_text(c.rpc_user)
    &&& !is_blank_text(c.rpc_password)
    &&& c.timeout_seconds > 0
    &&& is_http_scheme(c.rpc_url.1)
}

/// The configuration that `cli` and `file` give, with the parsed RPC URL
/// `url`: each setting from the command line, else the file, else its
/// default.
pub open spec fn loaded_view(
    cli: Cli,
    file: FileConfig,
    url: (Seq<char>, Seq<char>, bool),
) -> AppConfigView {
    AppConfigView {
        rpc_url: url,
        rpc_user: layered(cli.rpc_user, file.rpc_user)->0@,
        rpc_password: layered(cli.rpc_password, file.rpc_password)->0@,
        wallet: layered_text(cli.wallet, file.wallet, DEFAULT_WALLET@),
        timeout_seconds: layered_timeout(cli.timeout_seconds, file.timeout_seconds),
    }
}

/// The RPC URL text that `cli` and `file` give.
pub open spec fn loaded_url_text(cli: Cli, file: FileConfig) -> Seq<char> {
    layered_text(cli.rpc_url, file.rpc_url, DEFAULT_RPC_URL@)
}

/// A loaded configuration takes each setting from the command line when
/// given there, else from the file when given there, else from its default;
/// and the RPC URL that is parsed is likewise the command line's, else the
/// file's, else the default.
pub proof fn law_loaded_config_precedence(
    cli: Cli,
    file: FileConfig,
    url: (Seq<char>, Seq<char>, bool),
)
    ensures
        ({
            let c = loaded_view(cli, file, url);
            &&& cli.wallet is Some ==> c.wallet == cli.wallet->0@
            &&& cli.wallet is None && file.wallet is Some ==> c.wallet == file.wallet->0@
            &&& cli.wallet is None && file.wallet is None ==> c.wallet == DEFAULT_WALLET@
            &&& cli.rpc_user is Some ==> c.rpc_user == cli.rpc_user->0@
            &&& cli.rpc_user is None && file.rpc_user is Some ==> c.rpc_user == file.rpc_user->0@
            &&& cli.rpc_password is Some ==> c.rpc_password == cli.rpc_password->0@
            &&& cli.rpc_password is None && file.rpc_password is Some ==> c.rpc_password
                == file.rpc_password->0@
            &&& cli.timeout_seconds is Some ==> c.timeout_seconds == cli.timeout_seconds->0
            &&& cli.timeout_seconds is None && file.timeout_seconds is Some ==> c.timeout_seconds
                == file.timeout_seconds->0
            &&& cli.timeout_seconds is None && file.timeout_seconds is None ==> c.timeout_seconds
                == DEFAULT_TIMEOUT_SECONDS
            &&& c.rpc_url == url
        }),
        cli.rpc_url is Some ==> loaded_url_text(cli, file) == cli.rpc_url->0@,
        cli.rpc_url is None && file.rpc_url is Some ==> loaded_url_text(cli, file)
            == file.rpc_url->0@,
        cli.rpc_url is None && file.rpc_url is None ==> loaded_url_text(cli, file)
            == DEFAULT_RPC_URL@,
{
}

/// The configuration made of resolved settings and a parsed RPC URL.
pub open spec fn config_from(s: Settings, url: (Seq<char>, Seq<char>, bool)) -> AppConfigView {
    AppConfigView {
        rpc_url: url,
        rpc_user: s.rpc_user@,
        rpc_password: s.rpc_password@,
        wallet: s.wallet@,
        timeout_seconds: s.timeout_seconds,
    }
}

fn scheme_is_http(scheme: &str) -> (r: bool)
    ensures
        r == is_http_scheme(scheme@),
{
    let s = String::from_str(scheme);
    let http = String::from_str("http");
    let https = String::from_str("https");
    s == http || s == https
}

impl AppConfig {
    /// Completes resolved settings with what parsing their RPC URL gave:
    /// refuses a URL that did not parse, then one whose scheme is not
    /// `http` or `https`.
    pub fn assemble(settings: Settings, parsed: Result<RpcUrl, String>) -> (r: Result<
        AppConfig,
        ConfigError,
    >)
        ensures
            match parsed {
                Err(reason) => r matches Err(e) && e matches ConfigError::InvalidUrl {
                    url,
                    reason: why,
                } && url == settings.rpc_url && why == reason,
                Ok(u) => if is_http_scheme(u@.1) {
                    r matches Ok(c) && c@ == config_from(settings, u@)
                } else {
                    r matches Err(e) && e is UnsupportedScheme
                },
            },
    {
        match parsed {
            Err(reason) => Err(ConfigError::InvalidUrl { url: settings.rpc_url, reason }),
            Ok(url) => {
                if !scheme_is_http(url.scheme()) {
                    return Err(ConfigError::UnsupportedScheme);
                }
                Ok(
                    AppConfig {
                        rpc_url: url,
                        rpc_user: settings.rpc_user,
                        rpc_password: settings.rpc_password,
                        wallet: settings.wallet,
                        timeout_seconds: settings.timeout_seconds,
                    },
                )
            },
        }
    }

    /// Builds the configuration from the command line and the file's
    /// settings (all absent when there is no file): each setting from the
    /// command line, else the file, else its default; refuses a missing or
    /// blank username, then password, then a zero timeout, then an RPC URL
    /// that does not parse, then one whose scheme is not `http` or `https`.
    pub fn load(cli: &Cli, file: FileConfig) -> (r: Result<AppConfig, ConfigError>)
        ensures
            r matches Ok(c) ==> is_valid_config(c@),
            !settings_acceptable(*cli, file) ==> (r matches Err(e) && settings_refused(*cli, file, e)),
            settings_acceptable(*cli, file) ==> ({
                let url_text = loaded_url_text(*cli, file);
                match url_parse(url_text) {
                    Err(reason) => r matches Err(e) && e matches ConfigError::InvalidUrl {
                        url,
                        reason: why,
                    } && url@ == url_text && why@ == reason,
                    Ok(u) => if is_http_scheme(u.1) {
                        r matches Ok(c) && c@ == loaded_view(*cli, file, u)
                    } else {
                        r matches Err(e) && e is UnsupportedScheme
                    },
                }
            }),
    {
        let settings = match resolve(cli, file) {
            Ok(s) => s,
            Err(e) => return Err(e),
        };
        let parsed = RpcUrl::parse(settings.rpc_url.as_str());
        AppConfig::assemble(settings, parsed)
    }

    /// A copy of the configuration.
    pub fn duplicate(&self) -> (r: AppConfig)
        ensures
            r@ == self@,
    {
        AppConfig {
            rpc_url: self.rpc_url.duplicate(),
            rpc_user: self.rpc_user.clone(),
            rpc_password: self.rpc_password.clone(),
            wallet: self.wallet.clone(),
            timeout_seconds: self.timeout_seconds,
        }
    }

    /// The wallet used by wallet commands.
    pub fn wallet(&self) -> (r: &str)
        ensures
            r@ == self@.wallet,
    {
        self.wallet.as_str()
    }

    /// The connection settings of the RPC client.
    pub fn rpc_connection(&self) -> (r: RpcConnection)
        ensures
            r.url@ == self@.rpc_url,
            r.username@ == self@.rpc_user,
            r.password@ == self@.rpc_password,
            r.timeout_seconds == self@.timeout_seconds,
    {
        RpcConnection {
            url: self.rpc_url.duplicate(),
            username: self.rpc_user.clone(),
            password: self.rpc_password.clone(),
            timeout_seconds: self.timeout_seconds,
        }
    }
}

} // verus!
