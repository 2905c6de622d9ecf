//! What the commands decide and print, apart from the calls themselves.

use vstd::prelude::*;

use crate::error::RpcError;
use crate::json::{json_reencode, param_json, parse_params};
use crate::rpc::{wallet_error_mapped, RpcCall, WalletInfo};
use crate::text::{
    decimal, decimal_string, is_blank, is_blank_text, lemma_occurs_between, occurs_at,
};

verus! {

/// Why a command failed.
#[derive(Debug)]
pub enum CommandError {
    /// An RPC call failed.
    Rpc(RpcError),
    /// An RPC call failed, and `message` tells the user what to do.
    Context { message: String, source: RpcError },
    /// The command's arguments were refused.
    Invalid { message: String },
}

/// What to tell the user when `wallet` is unavailable.
pub open spec fn wallet_hint(wallet: Seq<char>) -> Seq<char> {
    "wallet `"@ + wallet + "` is unavailable; create it with `bitcoin-cli createwallet \""@ + wallet
        + "\"` or load it with `bitcoin-cli loadwallet \""@ + wallet + "\"`"@
}

/// `r` is what a wallet command reports for the outcome `result` of its
/// call: results pass through; an unavailable wallet gets the hint naming
/// it; other errors pass through as RPC errors.
pub open spec fn wallet_result_handled<T>(
    wallet: Seq<char>,
    result: Result<T, RpcError>,
    r: Result<T, CommandError>,
) -> bool {
    match result {
        Ok(value) => r == Ok::<T, CommandError>(value),
        Err(e) => if e is WalletUnavailable {
            r matches Err(CommandError::Context { message, source }) && message@ == wallet_hint(
                wallet,
            ) && source == e
        } else {
            r == Err::<T, CommandError>(CommandError::Rpc(e))
        },
    }
}

fn wallet_hint_text(wallet: &str) -> (r: String)
    ensures
        r@ == wallet_hint(wallet@),
{
    let mut m = String::from_str("wallet `");
    m.append(wallet);
    m.append("` is unavailable; create it with `bitcoin-cli createwallet \"");
    m.append(wallet);
    m.append("\"` or load it with `bitcoin-cli loadwallet \"");
    m.append(wallet);
    m.append("\"`");
    m
}

/// Adds to an unavailable wallet's error how to create or load the wallet.
pub fn handle_wallet_result<T>(result: Result<T, RpcError>, wallet: &str) -> (r: Result<
    T,
    CommandError,
>)
    ensures
        wallet_result_handled(wallet@, result, r),
{
    match result {
        Ok(value) => Ok(value),
        Err(error) => {
            if let RpcError::WalletUnavailable { .. } = error {
                Err(CommandError::Context { message: wallet_hint_text(wallet), source: error })
            } else {
                Err(CommandError::Rpc(error))
            }
        },
    }
}

/// When Bitcoin Core reports that a wallet call's wallet does not exist or
/// is not loaded (error -18), the command's error names the wallet and says
/// how to create or load it.
pub proof fn law_missing_wallet_is_explained<T>(
    wallet: Seq<char>,
    reported: RpcError,
    mapped: RpcError,
    r: Result<T, CommandError>,
)
    requires
        reported matches RpcError::BitcoinCore { code, .. } && code == -18,
        wallet_error_mapped(wallet, reported, mapped),
        wallet_result_handled(wallet, Err::<T, RpcError>(mapped), r),
    ensures
        r matches Err(CommandError::Context { message, source }) && message@ == wallet_hint(wallet)
            && (source matches RpcError::WalletUnavailable { wallet: w, .. } && w@ == wallet),
{
}

/// The message for an empty RPC method.
pub open spec fn empty_method_message() -> Seq<char> {
    "RPC method cannot be empty"@
}

/// The call of the `rpc` command: refuses a blank method; otherwise calls
/// `method` at the node with each parameter read as a JSON value when it is
/// one and as a string otherwise.
pub fn rpc_command_call(method: String, params: Vec<String>) -> (r: Result<RpcCall, CommandError>)
    ensures
        is_blank_text(method@) ==> (r matches Err(CommandError::Invalid { message })
            && message@ == empty_method_message()),
        !is_blank_text(method@) ==> (r matches Ok(call) && call.wallet is None && call.method
            == method && call.params.len() == params.len() && forall|i: int|
            0 <= i < params.len() ==> #[trigger] call.params[i]@ == param_json(
                params[i]@,
                json_reencode(params[i]@),
            )),
{
    if is_blank(method.as_str()) {
        return Err(CommandError::Invalid { message: String::from_str("RPC method cannot be empty") });
    }
    let params = parse_params(params);
    Ok(RpcCall { wallet: None, method, params })
}

/// How a boolean is shown.
pub open spec fn bool_text(b: bool) -> Seq<char> {
    if b {
        "true"@
    } else {
        "false"@
    }
}

fn bool_string(b: bool) -> (r: &'static str)
    ensures
        r@ == bool_text(b),
{
    if b {
        "true"
    } else {
        "false"
    }
}

/// The text of the `blockchain-info` command; the difficulty and the
/// verification progress (a percentage with two decimals) come as text.
pub open spec fn blockchain_info_text(
    chain: Seq<char>,
    blocks: nat,
    headers: nat,
    best_block_hash: Seq<char>,
    difficulty: Seq<char>,
    progress: Seq<char>,
    initial_block_download: bool,
    pruned: bool,
) -> Seq<char> {
    "Chain:                 "@ + chain + "\n"@ + "Blocks:                "@ + decimal(blocks) + "\n"@
        + "Headers:               "@ + decimal(headers) + "\n"@ + "Best block hash:       "@
        + best_block_hash + "\n"@ + "Difficulty:            "@ + difficulty + "\n"@
        + "Verification progress: "@ + progress + "%\n"@ + "Initial block download: "@ + bool_text(
        initial_block_download,
    ) + "\n"@ + "Pruned:                "@ + bool_text(pruned) + "\n"@
}

/// Prints the state of the active blockchain, one line per item.
pub fn blockchain_info_report(
    chain: &str,
    blocks: u64,
    headers: u64,
    best_block_hash: &str,
    difficulty: &str,
    verification_progress: &str,
    initial_block_download: bool,
    pruned: bool,
) -> (r: String)
    ensures
        r@ == blockchain_info_text(
            chain@,
            blocks as nat,
            headers as nat,
            best_block_hash@,
            difficulty@,
            verification_progress@,
            initial_block_download,
            pruned,
        ),
{
    let mut out = String::from_str("Chain:                 ");
    out.append(chain);
    out.append("\n");
    out.append("Blocks:                ");
    let blocks_text = decimal_string(blocks);
    out.append(blocks_text.as_str());
    out.append("\n");
    out.append("Headers:               ");
    let headers_text = decimal_string(headers);
    out.append(headers_text.as_str());
    out.append("\n");
    out.append("Best block hash:       ");
    out.append(best_block_hash);
    out.append("\n");
    out.append("Difficulty:            ");
    out.append(difficulty);
    out.append("\n");
    out.append("Verification progress: ");
    out.append(verification_progress);
    out.append("%\n");
    out.append("Initial block download: ");
    out.append(bool_string(initial_block_download));
    out.append("\n");
    out.append("Pruned:                ");
    out.append(bool_string(pruned));
    out.append("\n");
    out
}

/// The text of the `wallet-info` command.
pub open spec fn wallet_info_text(
    name: Seq<char>,
    trusted: Seq<char>,
    unconfirmed: Seq<char>,
    immature: Seq<char>,
    txcount: nat,
) -> Seq<char> {
    "Wallet:              "@ + name + "\n"@ + "Trusted balance:     "@ + trusted + " BTC\n"@
        + "Unconfirmed balance: "@ + unconfirmed + " BTC\n"@ + "Immature balance:    "@ + immature
        + " BTC\n"@ + "Transactions:        "@ + decimal(txcount) + "\n"@
}

/// The `blockchain-info` report holds one line per item, in this order: the
/// chain, the block count, the header count, the best block hash, the
/// difficulty, the verification progress (a percentage), whether the node is
/// in initial block download, and whether it is pruned; each line carries
/// its own argument, and nothing else is written.
pub proof fn law_blockchain_report_lines(
    chain: Seq<char>,
    blocks: nat,
    headers: nat,
    best_block_hash: Seq<char>,
    difficulty: Seq<char>,
    progress: Seq<char>,
    initial_block_download: bool,
    pruned: bool,
)
    ensures
        ({
            let t = blockchain_info_text(
                chain,
                blocks,
                headers,
                best_block_hash,
                difficulty,
                progress,
                initial_block_download,
                pruned,
            );
            let l1 = "Chain:                 "@ + chain + "\n"@;
            let l2 = "Blocks:                "@ + decimal(blocks) + "\n"@;
            let l3 = "Headers:               "@ + decimal(headers) + "\n"@;
            let l4 = "Best block hash:       "@ + best_block_hash + "\n"@;
            let l5 = "Difficulty:            "@ + difficulty + "\n"@;
            let l6 = "Verification progress: "@ + progress + "%\n"@;
            let l7 = "Initial block download: "@ + bool_text(initial_block_download) + "\n"@;
            let l8 = "Pruned:                "@ + bool_text(pruned) + "\n"@;
            &&& occurs_at(t, 0, l1)
            &&& occurs_at(t, l1.len() as int, l2)
            &&& occurs_at(t, (l1.len() + l2.len()) as int, l3)
            &&& occurs_at(t, (l1.len() + l2.len() + l3.len()) as int, l4)
            &&& occurs_at(t, (l1.len() + l2.len() + l3.len() + l4.len()) as int, l5)
            &&& occurs_at(t, (l1.len() + l2.len() + l3.len() + l4.len() + l5.len()) as int, l6)
            &&& occurs_at(t, (l1.len() + l2.len() + l3.len() + l4.len() + l5.len() + l6.len()) as int, l7)
            &&& occurs_at(
                t,
                (l1.len() + l2.len() + l3.len() + l4.len() + l5.len() + l6.len() + l7.len()) as int,
                l8,
            )
            &&& t.len() == l1.len() + l2.len() + l3.len() + l4.len() + l5.len() + l6.len()
                + l7.len() + l8.len()
        }),
{
    let t = blockchain_info_text(
        chain,
        blocks,
        headers,
        best_block_hash,
        difficulty,
        progress,
        initial_block_download,
        pruned,
    );
    let l1 = "Chain:                 "@ + chain + "\n"@;
    let l2 = "Blocks:                "@ + decimal(blocks) + "\n"@;
    let l3 = "Headers:               "@ + decimal(headers) + "\n"@;
    let l4 = "Best block hash:       "@ + best_block_hash + "\n"@;
    let l5 = "Difficulty:            "@ + difficulty + "\n"@;
    let l6 = "Verification progress: "@ + progress + "%\n"@;
    let l7 = "Initial block download: "@ + bool_text(initial_block_download) + "\n"@;
    let l8 = "Pruned:                "@ + bool_text(pruned) + "\n"@;
    assert(t =~= l1 + l2 + l3 + l4 + l5 + l6 + l7 + l8);
    lemma_eight_parts(l1, l2, l3, l4, l5, l6, l7, l8);
}

proof fn lemma_eight_parts(
    l1: Seq<char>,
    l2: Seq<char>,
    l3: Seq<char>,
    l4: Seq<char>,
    l5: Seq<char>,
    l6: Seq<char>,
    l7: Seq<char>,
    l8: Seq<char>,
)
    ensures
        ({
            let t = l1 + l2 + l3 + l4 + l5 + l6 + l7 + l8;
            &&& occurs_at(t, 0, l1)
            &&& occurs_at(t, l1.len() as int, l2)
            &&& occurs_at(t, (l1.len() + l2.len()) as int, l3)
            &&& occurs_at(t, (l1.len() + l2.len() + l3.len()) as int, l4)
            &&& occurs_at(t, (l1.len() + l2.len() + l3.len() + l4.len()) as int, l5)
            &&& occurs_at(t, (l1.len() + l2.len() + l3.len() + l4.len() + l5.len()) as int, l6)
            &&& occurs_at(
                t,
                (l1.len() + l2.len() + l3.len() + l4.len() + l5.len() + l6.len()) as int,
                l7,
            )
            &&& occurs_at(
                t,
                (l1.len() + l2.len() + l3.len() + l4.len() + l5.len() + l6.len() + l7.len()) as int,
                l8,
            )
        }),
{
    let head = l1 + l2 + l3 + l4;
    let tail = l5 + l6 + l7 + l8;
    assert(l1 + l2 + l3 + l4 + l5 + l6 + l7 + l8 =~= head + tail);
    lemma_four_parts(l1, l2, l3, l4, tail);
    lemma_four_parts_after(head, l5, l6, l7, l8);
}

proof fn lemma_four_parts(l1: Seq<char>, l2: Seq<char>, l3: Seq<char>, l4: Seq<char>, rest: Seq<char>)
    ensures
        ({
            let t = l1 + l2 + l3 + l4 + rest;
            &&& occurs_at(t, 0, l1)
            &&& occurs_at(t, l1.len() as int, l2)
            &&& occurs_at(t, (l1.len() + l2.len()) as int, l3)
            &&& occurs_at(t, (l1.len() + l2.len() + l3.len()) as int, l4)
        }),
{
    let t = l1 + l2 + l3 + l4 + rest;
    lemma_occurs_between(Seq::empty(), l1, l2 + l3 + l4 + rest);
    assert(t =~= Seq::<char>::empty() + l1 + (l2 + l3 + l4 + rest));
    lemma_occurs_between(l1, l2, l3 + l4 + rest);
    assert(t =~= l1 + l2 + (l3 + l4 + rest));
    lemma_occurs_between(l1 + l2, l3, l4 + rest);
    assert(t =~= (l1 + l2) + l3 + (l4 + rest));
    lemma_occurs_between(l1 + l2 + l3, l4, rest);
}

proof fn lemma_four_parts_after(
    head: Seq<char>,
    l5: Seq<char>,
    l6: Seq<char>,
    l7: Seq<char>,
    l8: Seq<char>,
)
    ensures
        ({
            let t = head + (l5 + l6 + l7 + l8);
            &&& occurs_at(t, head.len() as int, l5)
            &&& occurs_at(t, (head.len() + l5.len()) as int, l6)
            &&& occurs_at(t, (head.len() + l5.len() + l6.len()) as int, l7)
            &&& occurs_at(t, (head.len() + l5.len() + l6.len() + l7.len()) as int, l8)
        }),
{
    let t = head + (l5 + l6 + l7 + l8);
    lemma_occurs_between(head, l5, l6 + l7 + l8);
    assert(t =~= head + l5 + (l6 + l7 + l8));
    lemma_occurs_between(head + l5, l6, l7 + l8);
    assert(t =~= (head + l5) + l6 + (l7 + l8));
    lemma_occurs_between(head + l5 + l6, l7, l8);
    assert(t =~= (head + l5 + l6) + l7 + l8);
    lemma_occurs_between(head + l5 + l6 + l7, l8, Seq::empty());
    assert(t =~= (head + l5 + l6 + l7) + l8 + Seq::<char>::empty());
}

/// The `wallet-info` report holds one line per item, in this order: the
/// wallet's name, the trusted balance, the unconfirmed (untrusted pending)
/// balance and the immature balance, each in BTC, and the transaction count;
/// each line carries its own value, and nothing else is written.
pub proof fn law_wallet_report_lines(
    name: Seq<char>,
    trusted: Seq<char>,
    unconfirmed: Seq<char>,
    immature: Seq<char>,
    txcount: nat,
)
    ensures
        ({
            let t = wallet_info_text(name, trusted, unconfirmed, immature, txcount);
            let l1 = "Wallet:              "@ + name + "\n"@;
            let l2 = "Trusted balance:     "@ + trusted + " BTC\n"@;
            let l3 = "Unconfirmed balance: "@ + unconfirmed + " BTC\n"@;
            let l4 = "Immature balance:    "@ + immature + " BTC\n"@;
            let l5 = "Transactions:        "@ + decimal(txcount) + "\n"@;
            &&& occurs_at(t, 0, l1)
            &&& occurs_at(t, l1.len() as int, l2)
            &&& occurs_at(t, (l1.len() + l2.len()) as int, l3)
            &&& occurs_at(t, (l1.len() + l2.len() + l3.len()) as int, l4)
            &&& occurs_at(t, (l1.len() + l2.len() + l3.len() + l4.len()) as int, l5)
            &&& t.len() == l1.len() + l2.len() + l3.len() + l4.len() + l5.len()
        }),
{
    let t = wallet_info_text(name, trusted, unconfirmed, immature, txcount);
    let l1 = "Wallet:              "@ + name + "\n"@;
    let l2 = "Trusted balance:     "@ + trusted + " BTC\n"@;
    let l3 = "Unconfirmed balance: "@ + unconfirmed + " BTC\n"@;
    let l4 = "Immature balance:    "@ + immature + " BTC\n"@;
    let l5 = "Transactions:        "@ + decimal(txcount) + "\n"@;
    assert(t =~= l1 + l2 + l3 + l4 + l5);
    lemma_occurs_between(Seq::empty(), l1, l2 + l3 + l4 + l5);
    assert(t =~= Seq::<char>::empty() + l1 + (l2 + l3 + l4 + l5));
    lemma_occurs_between(l1, l2, l3 + l4 + l5);
    assert(t =~= l1 + l2 + (l3 + l4 + l5));
    lemma_occurs_between(l1 + l2, l3, l4 + l5);
    assert(t =~= (l1 + l2) + l3 + (l4 + l5));
    lemma_occurs_between(l1 + l2 + l3, l4, l5);
    assert(t =~= (l1 + l2 + l3) + l4 + l5);
    lemma_occurs_between(l1 + l2 + l3 + l4, l5, Seq::empty());
    assert(t =~= (l1 + l2 + l3 + l4) + l5 + Seq::<char>::empty());
}

/// Prints a wallet's summary, one line per item.
pub fn wallet_info_report(info: &WalletInfo) -> (r: String)
    ensures
        r@ == wallet_info_text(
            info.walletname@,
            info.trusted_balance@,
            info.unconfirmed_balance@,
            info.immature_balance@,
            info.txcount as nat,
        ),
{
    let mut out = String::from_str("Wallet:              ");
    out.append(info.walletname.as_str());
    out.append("\n");
    out.append("Trusted balance:     ");
    out.append(info.trusted_balance.as_str());
    out.append(" BTC\n");
    out.append("Unconfirmed balance: ");
    out.append(info.unconfirmed_balance.as_str());
    out.append(" BTC\n");
    out.append("Immature balance:    ");
    out.append(info.immature_balance.as_str());
    out.append(" BTC\n");
    out.append("Transactions:        ");
    let count = decimal_string(info.txcount);
    out.append(count.as_str());
    out.append("\n");
    out
}

/// The text of the `balance` command.
pub open spec fn balance_text(balance: Seq<char>) -> Seq<char> {
    balance + " BTC\n"@
}

/// Prints a balance in BTC.
pub fn balance_report(balance: &str) -> (r: String)
    ensures
        r@ == balance_text(balance@),
{
    let mut out = String::from_str(balance);
    out.append(" BTC\n");
    out
}

} // verus!
