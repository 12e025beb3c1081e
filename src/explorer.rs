//! What the wallet makes of the block explorer's answers, and where it finds
//! the explorer.
use crate::model::{FeeRates, Network, WalletError};
use vstd::prelude::*;

verus! {

/// The base URL of the explorer of a network, where one is known.
pub open spec fn api_url_of(network: Network) -> Option<Seq<char>> {
    match network {
        Network::Bitcoin => Some("https://mempool.space"@),
        Network::Testnet => Some("https://mempool.space/testnet4"@),
        _ => None,
    }
}

/// The base URL of the explorer of a network; `UnsupportedNetwork` where
/// none is known.
pub fn get_api_url(network: Network) -> (r: Result<String, WalletError>)
    ensures
        api_url_of(network) is None ==> r == Err::<String, WalletError>(WalletError::UnsupportedNetwork),
        api_url_of(network) is Some ==> (r matches Ok(u) && api_url_of(network) == Some(u@)),
{
    match network {
        Network::Bitcoin => Ok("https://mempool.space".to_owned()),
        Network::Testnet => Ok("https://mempool.space/testnet4".to_owned()),
        _ => Err(WalletError::UnsupportedNetwork),
    }
}

/// The name of a network, as the bitcoin crate writes it.
pub open spec fn network_name_of(network: Network) -> Seq<char> {
    match network {
        Network::Bitcoin => "bitcoin"@,
        Network::Testnet => "testnet"@,
        Network::Testnet4 => "testnet4"@,
        Network::Signet => "signet"@,
        Network::Regtest => "regtest"@,
    }
}

/// The name of a network.
pub fn network_name(network: Network) -> (r: String)
    ensures
        r@ == network_name_of(network),
{
    match network {
        Network::Bitcoin => "bitcoin".to_owned(),
        Network::Testnet => "testnet".to_owned(),
        Network::Testnet4 => "testnet4".to_owned(),
        Network::Signet => "signet".to_owned(),
        Network::Regtest => "regtest".to_owned(),
    }
}

/// The confirmed balance from the explorer's chain statistics: funded less
/// spent. A spent total above the funded one is a malformed answer.
pub fn balance_from_stats(funded_txo_sum: u64, spent_txo_sum: u64) -> (r: Result<u64, WalletError>)
    ensures
        spent_txo_sum > funded_txo_sum ==> r == Err::<u64, WalletError>(WalletError::Decode),
        spent_txo_sum <= funded_txo_sum ==> r == Ok::<u64, WalletError>((funded_txo_sum - spent_txo_sum) as u64),
{
    if spent_txo_sum > funded_txo_sum {
        Err(WalletError::Decode)
    } else {
        Ok(funded_txo_sum - spent_txo_sum)
    }
}

/// The wallet's fee tiers from the explorer's recommended fees: high is the
/// fastest, medium the half-hour and low the minimum fee; the hour and
/// economy fees are not used.
pub fn fee_rates_from(fastest_fee: u32, half_hour_fee: u32, hour_fee: u32, minimum_fee: u32, economy_fee: u32) -> (r: FeeRates)
    ensures
        r == (FeeRates { low: minimum_fee, medium: half_hour_fee, high: fastest_fee }),
{
    FeeRates { low: minimum_fee, medium: half_hour_fee, high: fastest_fee }
}

/// The outcome of submitting a transaction: on success the reply's body is
/// the transaction id; otherwise the body is the explorer's reason, verbatim.
pub fn broadcast_outcome(success: bool, body: String) -> (r: Result<String, WalletError>)
    ensures
        success ==> (r matches Ok(t) && t@ == body@),
        !success ==> (r matches Err(WalletError::Broadcast(m)) && m@ == body@),
{
    if success {
        Ok(body)
    } else {
        Err(WalletError::Broadcast(body))
    }
}

} // verus!
