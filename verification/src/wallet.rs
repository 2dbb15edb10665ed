//! The wallet-balance passthrough: address validation, the decision whether
//! to query the chain at all, and the shape of every possible response.
//!
//! The outbound RPC call itself is I/O and lives in the application layer;
//! this module decides everything around it. Balances are held in lamports
//! (10^9 to one SOL).

use vstd::arithmetic::div_mod::lemma_fundamental_div_mod;
use vstd::prelude::*;
use vstd::string::StringExecFns;

verus! {

/// `solana_sdk::pubkey::Pubkey`: an on-chain address, 32 bytes behind a
/// base-58 text form. Opaque here; the library only parses it and hands it
/// on to the balance query.
#[verifier::external_type_specification]
#[verifier::external_body]
pub struct ExPubkey(solana_sdk::pubkey::Pubkey);

/// Whether a string is a syntactically valid base-58 form of a 32-byte
/// public key, exactly as `Pubkey::from_str` decides it.
pub uninterp spec fn pubkey_parse_ok(s: Seq<char>) -> bool;

/// Relies on `solana_sdk::pubkey::Pubkey::from_str`: a deterministic base-58
/// decode that depends on the characters alone, and that rejects any string
/// longer than 44 characters.
#[verifier::external_body]
fn parse_pubkey(address: &str) -> (r: Option<solana_sdk::pubkey::Pubkey>)
    ensures
        r is Some <==> pubkey_parse_ok(address@),
        address@.len() > 44 ==> r is None,
{
    match <solana_sdk::pubkey::Pubkey as core::str::FromStr>::from_str(address) {
        Ok(pk) => Some(pk),
        Err(_) => None,
    }
}

/// How many lamports make one SOL.
pub const LAMPORTS_PER_SOL: u64 = 1_000_000_000;

/// Every body the wallet route can answer with.
pub enum WalletResponse {
    /// The address did not parse as a public key.
    InvalidAddress,
    /// The address parsed, but the balance query failed.
    BalanceUnavailable,
    /// The balance query succeeded: the address echoed verbatim and the
    /// balance in lamports.
    Balance { address: String, lamports: u64 },
}

impl WalletResponse {
    /// The error body for the failed cases, none for a balance.
    pub fn error_message(&self) -> (r: Option<String>)
        ensures
            self is InvalidAddress ==> (r matches Some(s) && s@ == "Invalid wallet address"@),
            self is BalanceUnavailable ==> (r matches Some(s) && s@ == "Failed to get balance"@),
            self is Balance ==> r is None,
    {
        match self {
            WalletResponse::InvalidAddress => Some(String::from_str("Invalid wallet address")),
            WalletResponse::BalanceUnavailable => Some(String::from_str("Failed to get balance")),
            WalletResponse::Balance { .. } => None,
        }
    }
}

/// What the handler should do next with a wallet request.
pub enum WalletAction {
    /// Answer at once with this body, without touching the chain.
    Respond(WalletResponse),
    /// Query the chain for this key's balance.
    QueryBalance(solana_sdk::pubkey::Pubkey),
}

/// The first step of the wallet route: parse the address, and either reject
/// it outright or ask for a balance query. The chain is consulted exactly for
/// the addresses that parse.
pub fn wallet_request(address: &str) -> (r: WalletAction)
    ensures
        pubkey_parse_ok(address@) <==> r is QueryBalance,
        !pubkey_parse_ok(address@) ==> (r matches WalletAction::Respond(w) && w is InvalidAddress),
{
    match parse_pubkey(address) {
        Some(pk) => WalletAction::QueryBalance(pk),
        None => WalletAction::Respond(WalletResponse::InvalidAddress),
    }
}

/// The second step of the wallet route: turn the balance query's outcome into
/// the response body. Success echoes the address verbatim with the lamport
/// balance; failure gives the fixed error body, whatever the failure was.
pub fn wallet_balance_result(address: String, balance: Result<u64, ()>) -> (r: WalletResponse)
    ensures
        (balance matches Ok(lamports) ==> (r matches WalletResponse::Balance {
            address: a,
            lamports: l,
        } && a@ == address@ && l == lamports)),
        balance is Err ==> r is BalanceUnavailable,
{
    match balance {
        Ok(lamports) => WalletResponse::Balance { address, lamports },
        Err(()) => WalletResponse::BalanceUnavailable,
    }
}

/// A lamport balance in whole SOL and the lamport remainder: the two parts
/// from which the decimal SOL rendering is made.
pub fn lamports_to_sol_parts(lamports: u64) -> (r: (u64, u64))
    ensures
        r.0 == lamports / LAMPORTS_PER_SOL,
        r.1 == lamports % LAMPORTS_PER_SOL,
        r.1 < LAMPORTS_PER_SOL,
        lamports == r.0 * LAMPORTS_PER_SOL + r.1,
{
    proof {
        lemma_fundamental_div_mod(lamports as int, LAMPORTS_PER_SOL as int);
    }
    (lamports / LAMPORTS_PER_SOL, lamports % LAMPORTS_PER_SOL)
}

/// The fixed network label every successful wallet response carries.
pub fn network_name() -> (r: String)
    ensures
        r@ == "devnet"@,
{
    String::from_str("devnet")
}

/// The one RPC endpoint the balance query is sent to.
pub fn rpc_endpoint() -> (r: String)
    ensures
        r@ == "https://api.devnet.solana.com"@,
{
    String::from_str("https://api.devnet.solana.com")
}

} // verus!
