//! The command line: global options and the subcommand.

use vstd::prelude::*;

verus! {

/// The program's arguments, after flags and their environment variables
/// have been read.
pub struct Cli {
    /// Path to the TOML configuration file.
    pub config: String,
    /// Bitcoin Core JSON-RPC URL.
    pub rpc_url: Option<String>,
    /// Bitcoin Core JSON-RPC username.
    pub rpc_user: Option<String>,
    /// Bitcoin Core JSON-RPC password.
    pub rpc_password: Option<String>,
    /// Bitcoin Core wallet used by wallet-specific commands.
    pub wallet: Option<String>,
    /// RPC request timeout in seconds.
    pub timeout_seconds: Option<u64>,
    pub command: Command,
}

/// The subcommands.
pub enum Command {
    /// Display information about the active blockchain.
    BlockchainInfo,
    /// Display information about the configured wallet.
    WalletInfo,
    /// Display the configured wallet's trusted balance.
    Balance,
    /// Generate a new receiving address in the configured wallet.
    NewAddress,
    /// Call an arbitrary Bitcoin Core RPC method with positional parameters,
    /// each a JSON value or a plain string.
    Rpc { method: String, params: Vec<String> },
}

} // verus!
