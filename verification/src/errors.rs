//! The gateway's errors, and how each one is answered over HTTP.

use vstd::prelude::*;
use vstd::string::*;

verus! {

/// Everything that can go wrong with a request.
#[derive(Debug, PartialEq, Eq)]
pub enum GatewayError {
    /// The connection settings are unusable.
    ConfigurationError(String),
    /// No session is registered under the wallet name.
    WalletNotFound,
    /// The node did not list the wallet, yet refused to create it as
    /// already there.
    WalletStateConflict,
    /// The text is no address.
    InvalidAddress(String),
    /// The address belongs to another network.
    BadNetwork(String),
    /// The text is no transaction id.
    InvalidTransactionId(String),
    /// The node knows no such transaction.
    TransactionNotFound(String),
    /// Any other failure of the node, in the node's words.
    NodeError(String),
}

/// A [`GatewayError`] with its texts as sequences of characters.
pub enum GatewayErrorView {
    ConfigurationError(Seq<char>),
    WalletNotFound,
    WalletStateConflict,
    InvalidAddress(Seq<char>),
    BadNetwork(Seq<char>),
    InvalidTransactionId(Seq<char>),
    TransactionNotFound(Seq<char>),
    NodeError(Seq<char>),
}

impl View for GatewayError {
    type V = GatewayErrorView;

    open spec fn view(&self) -> GatewayErrorView {
        match self {
            GatewayError::ConfigurationError(m) => GatewayErrorView::ConfigurationError(m@),
            GatewayError::WalletNotFound => GatewayErrorView::WalletNotFound,
            GatewayError::WalletStateConflict => GatewayErrorView::WalletStateConflict,
            GatewayError::InvalidAddress(m) => GatewayErrorView::InvalidAddress(m@),
            GatewayError::BadNetwork(m) => GatewayErrorView::BadNetwork(m@),
            GatewayError::InvalidTransactionId(m) => GatewayErrorView::InvalidTransactionId(m@),
            GatewayError::TransactionNotFound(m) => GatewayErrorView::TransactionNotFound(m@),
            GatewayError::NodeError(m) => GatewayErrorView::NodeError(m@),
        }
    }
}

/// A text or the error in its place, as sequences of characters.
pub open spec fn text_result(result: Result<String, GatewayError>) -> Result<
    Seq<char>,
    GatewayErrorView,
> {
    match result {
        Ok(text) => Ok(text@),
        Err(error) => Err(error@),
    }
}

/// The operations that the gateway offers.
#[derive(Clone, Copy, Debug, PartialEq, Eq, Structural)]
pub enum Endpoint {
    CreateWallet,
    CreateAddress,
    Balance,
    Mine,
    Send,
    Transaction,
    Mempool,
}

/// The HTTP status that answers `error` at `endpoint`.
///
/// Input that the caller got wrong is 400, and a missing wallet or
/// transaction is 404, at every endpoint. What the gateway or the node
/// could not do is 500, except that a node failure is 503 at the two
/// lookups of a transaction and 400 while making an address.
pub open spec fn status_of(endpoint: Endpoint, error: GatewayErrorView) -> u16 {
    match error {
        GatewayErrorView::ConfigurationError(_) => 500,
        GatewayErrorView::WalletStateConflict => 500,
        GatewayErrorView::WalletNotFound => 404,
        GatewayErrorView::InvalidAddress(_) => 400,
        GatewayErrorView::BadNetwork(_) => 400,
        GatewayErrorView::InvalidTransactionId(_) => 400,
        GatewayErrorView::TransactionNotFound(_) => 404,
        GatewayErrorView::NodeError(_) => match endpoint {
            Endpoint::CreateAddress => 400,
            Endpoint::Transaction | Endpoint::Mempool => 503,
            _ => 500,
        },
    }
}

/// The text that answers `error` at `endpoint`.
pub open spec fn message_of(endpoint: Endpoint, error: GatewayErrorView) -> Seq<char> {
    match error {
        GatewayErrorView::ConfigurationError(m) => m,
        GatewayErrorView::WalletStateConflict => "Wallet already exists but was not listed"@,
        GatewayErrorView::WalletNotFound => match endpoint {
            Endpoint::Transaction | Endpoint::Mempool => "No active clients"@,
            Endpoint::Mine | Endpoint::Send => "Wallet not found"@,
            _ => "No such wallet"@,
        },
        GatewayErrorView::InvalidAddress(m) => "Invalid address: "@ + m,
        GatewayErrorView::BadNetwork(m) => match endpoint {
            Endpoint::CreateAddress => "Address generated with error: "@ + m,
            _ => "Invalid network: "@ + m,
        },
        GatewayErrorView::InvalidTransactionId(m) => "Invalid transaction ID: "@ + m,
        GatewayErrorView::TransactionNotFound(m) => m,
        GatewayErrorView::NodeError(m) => match endpoint {
            Endpoint::CreateAddress => "Failed to generate a new address: "@ + m,
            _ => m,
        },
    }
}

/// Every error is answered with one of four statuses: the caller's input
/// was wrong (400), something was not found (404), or the request could not
/// be completed (500, 503). None is answered as a success.
pub proof fn law_every_error_is_answered_as_one(endpoint: Endpoint, error: GatewayErrorView)
    ensures
        status_of(endpoint, error) == 400 || status_of(endpoint, error) == 404 || status_of(
            endpoint,
            error,
        ) == 500 || status_of(endpoint, error) == 503,
{
}

/// A wallet that is not registered is answered with 404 at every endpoint,
/// a missing transaction likewise.
pub proof fn law_not_found_is_404(endpoint: Endpoint, message: Seq<char>)
    ensures
        status_of(endpoint, GatewayErrorView::WalletNotFound) == 404,
        status_of(endpoint, GatewayErrorView::TransactionNotFound(message)) == 404,
{
}

/// `prefix` followed by `rest`.
fn prefixed(prefix: &str, rest: &String) -> (text: String)
    ensures
        text@ == prefix@ + rest@,
{
    String::from_str(prefix).concat(rest.as_str())
}

impl GatewayError {
    /// The HTTP status that answers this error at `endpoint`.
    pub fn status(&self, endpoint: Endpoint) -> (code: u16)
        ensures
            code == status_of(endpoint, self@),
    {
        match self {
            GatewayError::ConfigurationError(_) => 500,
            GatewayError::WalletStateConflict => 500,
            GatewayError::WalletNotFound => 404,
            GatewayError::InvalidAddress(_) => 400,
            GatewayError::BadNetwork(_) => 400,
            GatewayError::InvalidTransactionId(_) => 400,
            GatewayError::TransactionNotFound(_) => 404,
            GatewayError::NodeError(_) => match endpoint {
                Endpoint::CreateAddress => 400,
                Endpoint::Transaction | Endpoint::Mempool => 503,
                _ => 500,
            },
        }
    }

    /// The text that answers this error at `endpoint`.
    pub fn message(&self, endpoint: Endpoint) -> (text: String)
        ensures
            text@ == message_of(endpoint, self@),
    {
        match self {
            GatewayError::ConfigurationError(m) => m.clone(),
            GatewayError::WalletStateConflict => String::from_str(
                "Wallet already exists but was not listed",
            ),
            GatewayError::WalletNotFound => match endpoint {
                Endpoint::Transaction | Endpoint::Mempool => String::from_str("No active clients"),
                Endpoint::Mine | Endpoint::Send => String::from_str("Wallet not found"),
                _ => String::from_str("No such wallet"),
            },
            GatewayError::InvalidAddress(m) => prefixed("Invalid address: ", m),
            GatewayError::BadNetwork(m) => match endpoint {
                Endpoint::CreateAddress => prefixed("Address generated with error: ", m),
                _ => prefixed("Invalid network: ", m),
            },
            GatewayError::InvalidTransactionId(m) => prefixed("Invalid transaction ID: ", m),
            GatewayError::TransactionNotFound(m) => m.clone(),
            GatewayError::NodeError(m) => match endpoint {
                Endpoint::CreateAddress => prefixed("Failed to generate a new address: ", m),
                _ => m.clone(),
            },
        }
    }
}

} // verus!
