//! Checks on what a caller sends, made before the node is asked anything.

use crate::errors::{text_result, GatewayError, GatewayErrorView};
use bitcoincore_rpc::bitcoin::{Address, Network, Txid};
use std::str::FromStr;
use vstd::prelude::*;
use vstd::string::*;

verus! {

/// Whether `c` is one of `0`-`9`, `a`-`f`, `A`-`F`.
pub open spec fn is_hex_digit(c: char) -> bool {
    ||| '0' <= c <= '9'
    ||| 'a' <= c <= 'f'
    ||| 'A' <= c <= 'F'
}

/// A transaction id is written as exactly 64 hex digits.
pub open spec fn is_transaction_id(text: Seq<char>) -> bool {
    &&& text.len() == 64
    &&& forall|i: int| 0 <= i < text.len() ==> is_hex_digit(#[trigger] text[i])
}

/// Why `Txid::from_str` turns a text down, in that crate's words.
pub uninterp spec fn txid_objection(text: Seq<char>) -> Seq<char>;

/// `Txid::from_str`: it accepts a text exactly when the text is 64 hex
/// digits of either case, and otherwise gives a reason.
#[verifier::external_body]
fn read_txid(text: &str) -> (read: Result<(), String>)
    ensures
        read is Ok == is_transaction_id(text@),
        read matches Err(reason) ==> reason@ == txid_objection(text@),
{
    match Txid::from_str(text) {
        Ok(_) => Ok(()),
        Err(e) => Err(e.to_string()),
    }
}

/// What becomes of a text that is offered as a transaction id.
pub open spec fn transaction_id_verdict(text: Seq<char>) -> Result<Seq<char>, GatewayErrorView> {
    if is_transaction_id(text) {
        Ok(text)
    } else {
        Err(GatewayErrorView::InvalidTransactionId(txid_objection(text)))
    }
}

/// Accepts `text` as a transaction id, or says why it is none.
pub fn check_transaction_id(text: &str) -> (checked: Result<String, GatewayError>)
    ensures
        text_result(checked) == transaction_id_verdict(text@),
{
    match read_txid(text) {
        Ok(_) => Ok(text.to_owned()),
        Err(reason) => Err(GatewayError::InvalidTransactionId(reason)),
    }
}

/// The networks that an address can belong to.
#[derive(Clone, Copy, Debug, PartialEq, Eq, Structural)]
pub enum Chain {
    Bitcoin,
    Testnet,
    Testnet4,
    Signet,
    Regtest,
}

/// The one network that the gateway serves: the regression test network.
pub const SERVED_CHAIN: Chain = Chain::Regtest;

/// The name of a network.
pub open spec fn chain_name(chain: Chain) -> Seq<char> {
    match chain {
        Chain::Bitcoin => "bitcoin"@,
        Chain::Testnet => "testnet"@,
        Chain::Testnet4 => "testnet4"@,
        Chain::Signet => "signet"@,
        Chain::Regtest => "regtest"@,
    }
}

impl Chain {
    /// The name of this network.
    pub fn name(&self) -> (name: &'static str)
        ensures
            name@ == chain_name(*self),
    {
        match self {
            Chain::Bitcoin => "bitcoin",
            Chain::Testnet => "testnet",
            Chain::Testnet4 => "testnet4",
            Chain::Signet => "signet",
            Chain::Regtest => "regtest",
        }
    }
}

/// What `Address::from_str` makes of a text: the reason for turning it
/// down, or else whether the address it names is valid on the network
/// `chain`.
pub uninterp spec fn address_reading(text: Seq<char>, chain: Chain) -> Result<bool, Seq<char>>;

/// An executable reading in text.
pub open spec fn reading_text(read: Result<bool, String>) -> Result<bool, Seq<char>> {
    match read {
        Ok(fits) => Ok(fits),
        Err(reason) => Err(reason@),
    }
}

/// `Address::from_str`, then `Address::is_valid_for_network` on what was
/// parsed, for the network that `chain` stands for.
#[verifier::external_body]
fn read_address(text: &str, chain: Chain) -> (read: Result<bool, String>)
    ensures
        reading_text(read) == address_reading(text@, chain),
{
    let network = match chain {
        Chain::Bitcoin => Network::Bitcoin,
        Chain::Testnet => Network::Testnet,
        Chain::Testnet4 => Network::Testnet4,
        Chain::Signet => Network::Signet,
        Chain::Regtest => Network::Regtest,
    };
    match Address::from_str(text) {
        Ok(address) => Ok(address.is_valid_for_network(network)),
        Err(e) => Err(e.to_string()),
    }
}

/// What the gateway says of an address that does not belong to `chain`.
pub open spec fn other_network(text: Seq<char>, chain: Chain) -> Seq<char> {
    "not an address of the "@ + chain_name(chain) + " network: "@ + text
}

/// What becomes of the text `text` that was read as `reading` against
/// `chain`: it is kept if it is an address of that network, and refused as
/// of another network or as no address otherwise.
pub open spec fn address_verdict(
    text: Seq<char>,
    chain: Chain,
    reading: Result<bool, Seq<char>>,
) -> Result<Seq<char>, GatewayErrorView> {
    match reading {
        Ok(fits) => if fits {
            Ok(text)
        } else {
            Err(GatewayErrorView::BadNetwork(other_network(text, chain)))
        },
        Err(reason) => Err(GatewayErrorView::InvalidAddress(reason)),
    }
}

/// What becomes of `text` on the network that the gateway serves.
pub open spec fn served_verdict(text: Seq<char>) -> Result<Seq<char>, GatewayErrorView> {
    address_verdict(text, SERVED_CHAIN, address_reading(text, SERVED_CHAIN))
}

/// Accepts or refuses `text` as it was read against `chain`.
pub fn judge_address(text: &str, chain: Chain, reading: Result<bool, String>) -> (judged: Result<
    String,
    GatewayError,
>)
    ensures
        text_result(judged) == address_verdict(text@, chain, reading_text(reading)),
{
    match reading {
        Ok(fits) => if fits {
            Ok(text.to_owned())
        } else {
            let reason = "not an address of the ".to_owned().concat(chain.name()).concat(
                " network: ",
            ).concat(text);
            Err(GatewayError::BadNetwork(reason))
        },
        Err(reason) => Err(GatewayError::InvalidAddress(reason)),
    }
}

/// Accepts `text` as an address of the network that the gateway serves, or
/// says what is wrong with it.
pub fn check_address(text: &str) -> (checked: Result<String, GatewayError>)
    ensures
        text_result(checked) == served_verdict(text@),
{
    let reading = read_address(text, SERVED_CHAIN);
    judge_address(text, SERVED_CHAIN, reading)
}

} // verus!
