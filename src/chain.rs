//! What the library asks of the bitcoin crate.

use vstd::prelude::*;
use std::str::FromStr;

verus! {

/// The Bitcoin network that a wallet lives on.
#[derive(Clone, Copy, Debug, PartialEq, Eq, Structural)]
pub enum WalletNetwork {
    Bitcoin,
    Testnet,
    Signet,
    Regtest,
}

#[verifier::external_type_specification]
#[verifier::external_body]
pub struct ExNetwork(bitcoin::Network);

/// Whether the text parses as a Bitcoin address that is valid on `network`.
pub uninterp spec fn address_valid_for(address: Seq<char>, network: WalletNetwork) -> bool;

/// Relies on bitcoin's `FromStr for Address<NetworkUnchecked>` to parse the
/// address and on `Address::is_valid_for_network` to check it against the network.
#[verifier::external_body]
pub(crate) fn address_is_valid(address: &str, network: WalletNetwork) -> (r: bool)
    ensures
        r == address_valid_for(address@, network),
{
    let network = match network {
        WalletNetwork::Bitcoin => bitcoin::Network::Bitcoin,
        WalletNetwork::Testnet => bitcoin::Network::Testnet,
        WalletNetwork::Signet => bitcoin::Network::Signet,
        WalletNetwork::Regtest => bitcoin::Network::Regtest,
    };
    match bitcoin::Address::<bitcoin::address::NetworkUnchecked>::from_str(address) {
        Ok(parsed) => parsed.is_valid_for_network(network),
        Err(_) => false,
    }
}

/// Whether the text parses as a pay-to-witness-script-hash address, the
/// format of this wallet's own multisig addresses.
pub uninterp spec fn address_is_wsh(address: Seq<char>) -> bool;

/// Relies on bitcoin's `FromStr for Address<NetworkUnchecked>` to parse the
/// address and on `Address::address_type` to read its type.
#[verifier::external_body]
pub(crate) fn address_pays_to_wsh(address: &str) -> (r: bool)
    ensures
        r == address_is_wsh(address@),
{
    match bitcoin::Address::<bitcoin::address::NetworkUnchecked>::from_str(address) {
        Ok(parsed) => parsed.assume_checked().address_type() == Some(bitcoin::AddressType::P2wsh),
        Err(_) => false,
    }
}

} // verus!
