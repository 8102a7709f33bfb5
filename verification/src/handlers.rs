//! One request at a time: what to ask the node for it, and what to answer
//! once the node has spoken.
//!
//! Each operation checks what the caller sent, then finds the wallet's
//! session, then names the one call to make. The caller of this module
//! makes that call and comes back with its outcome.

use crate::errors::{status_of, text_result, Endpoint, GatewayError, GatewayErrorView};
use crate::lifecycle::{WalletLoadOutcome, WalletLoadOutcomeView};
use crate::node::{NodeFailure, NodeFailureView};
use crate::registry::Registry;
use crate::session::{session_for, ConfigView, Session, SessionView};
use crate::text::optional_text;
use crate::transaction::{flatten, FlatTransaction, TransactionRecord, TransactionView};
use crate::validate::{
    address_verdict, check_address, check_transaction_id, is_transaction_id, other_network,
    served_verdict, transaction_id_verdict, txid_objection, Chain,
};
use vstd::prelude::*;

verus! {

/// The formats in which the node can make an address.
#[derive(Clone, Copy, Debug, PartialEq, Eq, Structural)]
pub enum AddressFormat {
    Legacy,
    P2shSegwit,
    /// Native segwit, the one format that the gateway asks for.
    Bech32,
    Bech32m,
}

/// A call to the node, with the session to make it through.
#[derive(Debug, PartialEq, Eq)]
pub enum NodeCall {
    /// A new receiving address under `label`.
    NewAddress { session: Session, label: String, format: AddressFormat },
    /// The wallet's state, for its balance.
    WalletInfo { session: Session },
    /// Mine `blocks` blocks with the rewards paid to `address`.
    GenerateToAddress { session: Session, address: String, blocks: u64 },
    /// Pay `amount` of the smallest unit to `address`, with the node's own
    /// choice of fee and coins.
    SendToAddress { session: Session, address: String, amount: u64, comment: Option<String> },
    /// The wallet's record of a transaction.
    GetTransaction { session: Session, txid: String },
    /// A transaction that waits in the node's memory pool.
    GetMempoolEntry { session: Session, txid: String },
}

/// A [`NodeCall`] in text.
pub enum NodeCallView {
    NewAddress { session: SessionView, label: Seq<char>, format: AddressFormat },
    WalletInfo { session: SessionView },
    GenerateToAddress { session: SessionView, address: Seq<char>, blocks: u64 },
    SendToAddress {
        session: SessionView,
        address: Seq<char>,
        amount: u64,
        comment: Option<Seq<char>>,
    },
    GetTransaction { session: SessionView, txid: Seq<char> },
    GetMempoolEntry { session: SessionView, txid: Seq<char> },
}

impl View for NodeCall {
    type V = NodeCallView;

    open spec fn view(&self) -> NodeCallView {
        match self {
            NodeCall::NewAddress { session, label, format } => NodeCallView::NewAddress {
                session: session@,
                label: label@,
                format: *format,
            },
            NodeCall::WalletInfo { session } => NodeCallView::WalletInfo { session: session@ },
            NodeCall::GenerateToAddress { session, address, blocks } => {
                NodeCallView::GenerateToAddress {
                    session: session@,
                    address: address@,
                    blocks: *blocks,
                }
            },
            NodeCall::SendToAddress { session, address, amount, comment } => {
                NodeCallView::SendToAddress {
                    session: session@,
                    address: address@,
                    amount: *amount,
                    comment: optional_text(*comment),
                }
            },
            NodeCall::GetTransaction { session, txid } => NodeCallView::GetTransaction {
                session: session@,
                txid: txid@,
            },
            NodeCall::GetMempoolEntry { session, txid } => NodeCallView::GetMempoolEntry {
                session: session@,
                txid: txid@,
            },
        }
    }
}

/// A planned call or the error in its place, in text.
pub type Plan = Result<NodeCallView, GatewayErrorView>;

/// What a plan holds, in text.
pub open spec fn plan_view(plan: Result<NodeCall, GatewayError>) -> Plan {
    match plan {
        Ok(call) => Ok(call@),
        Err(error) => Err(error@),
    }
}

/// The session of `wallet`, or that the wallet is not registered.
pub open spec fn routed(entries: Map<Seq<char>, SessionView>, wallet: Seq<char>) -> Result<
    SessionView,
    GatewayErrorView,
> {
    if entries.contains_key(wallet) {
        Ok(entries[wallet])
    } else {
        Err(GatewayErrorView::WalletNotFound)
    }
}

/// What a routing holds, in text.
pub open spec fn route_view(route: Result<Session, GatewayError>) -> Result<
    SessionView,
    GatewayErrorView,
> {
    match route {
        Ok(session) => Ok(session@),
        Err(error) => Err(error@),
    }
}

/// Finds the session of `wallet`.
pub fn route(registry: &Registry, wallet: &str) -> (found: Result<Session, GatewayError>)
    ensures
        route_view(found) == routed(registry.entries(), wallet@),
{
    match registry.get(wallet) {
        Some(session) => Ok(session),
        None => Err(GatewayError::WalletNotFound),
    }
}

/// The plan for a new address: always one in the native segwit format.
pub open spec fn planned_address(
    entries: Map<Seq<char>, SessionView>,
    wallet: Seq<char>,
    label: Seq<char>,
) -> Plan {
    match routed(entries, wallet) {
        Ok(session) => Ok(
            NodeCallView::NewAddress { session, label, format: AddressFormat::Bech32 },
        ),
        Err(error) => Err(error),
    }
}

/// Plans the making of a new address for `wallet`, labelled `label`.
pub fn plan_create_address(registry: &Registry, wallet: &str, label: &str) -> (plan: Result<
    NodeCall,
    GatewayError,
>)
    ensures
        plan_view(plan) == planned_address(registry.entries(), wallet@, label@),
{
    match route(registry, wallet) {
        Ok(session) => Ok(
            NodeCall::NewAddress {
                session,
                label: label.to_owned(),
                format: AddressFormat::Bech32,
            },
        ),
        Err(error) => Err(error),
    }
}

/// The plan for a balance.
pub open spec fn planned_balance(entries: Map<Seq<char>, SessionView>, wallet: Seq<char>) -> Plan {
    match routed(entries, wallet) {
        Ok(session) => Ok(NodeCallView::WalletInfo { session }),
        Err(error) => Err(error),
    }
}

/// Plans the reading of the balance of `wallet`.
pub fn plan_balance(registry: &Registry, wallet: &str) -> (plan: Result<NodeCall, GatewayError>)
    ensures
        plan_view(plan) == planned_balance(registry.entries(), wallet@),
{
    match route(registry, wallet) {
        Ok(session) => Ok(NodeCall::WalletInfo { session }),
        Err(error) => Err(error),
    }
}

/// The plan for mining, given what the check of the address said. A bad
/// address is reported before the wallet is looked for.
pub open spec fn planned_mining(
    entries: Map<Seq<char>, SessionView>,
    wallet: Seq<char>,
    checked: Result<Seq<char>, GatewayErrorView>,
    blocks: u64,
) -> Plan {
    match checked {
        Err(error) => Err(error),
        Ok(address) => match routed(entries, wallet) {
            Ok(session) => Ok(NodeCallView::GenerateToAddress { session, address, blocks }),
            Err(error) => Err(error),
        },
    }
}

/// Plans the mining of `blocks` blocks through `wallet`, for an address
/// that was checked already.
pub fn mine_to(
    registry: &Registry,
    wallet: &str,
    checked: Result<String, GatewayError>,
    blocks: u64,
) -> (plan: Result<NodeCall, GatewayError>)
    ensures
        plan_view(plan) == planned_mining(
            registry.entries(),
            wallet@,
            text_result(checked),
            blocks,
        ),
{
    match checked {
        Err(error) => Err(error),
        Ok(address) => match route(registry, wallet) {
            Ok(session) => Ok(NodeCall::GenerateToAddress { session, address, blocks }),
            Err(error) => Err(error),
        },
    }
}

/// Plans the mining of `blocks` blocks through `wallet`, with the rewards
/// paid to `address`.
pub fn plan_mine(registry: &Registry, wallet: &str, address: &str, blocks: u64) -> (plan: Result<
    NodeCall,
    GatewayError,
>)
    ensures
        plan_view(plan) == planned_mining(
            registry.entries(),
            wallet@,
            served_verdict(address@),
            blocks,
        ),
{
    mine_to(registry, wallet, check_address(address), blocks)
}

/// The plan for a payment, given what the check of the address said. A bad
/// address is reported before the wallet is looked for.
pub open spec fn planned_payment(
    entries: Map<Seq<char>, SessionView>,
    wallet: Seq<char>,
    checked: Result<Seq<char>, GatewayErrorView>,
    amount: u64,
    comment: Option<Seq<char>>,
) -> Plan {
    match checked {
        Err(error) => Err(error),
        Ok(address) => match routed(entries, wallet) {
            Ok(session) => Ok(NodeCallView::SendToAddress { session, address, amount, comment }),
            Err(error) => Err(error),
        },
    }
}

/// Plans a payment of `amount` from `wallet`, to an address that was
/// checked already.
pub fn send_to(
    registry: &Registry,
    wallet: &str,
    checked: Result<String, GatewayError>,
    amount: u64,
    comment: Option<String>,
) -> (plan: Result<NodeCall, GatewayError>)
    ensures
        plan_view(plan) == planned_payment(
            registry.entries(),
            wallet@,
            text_result(checked),
            amount,
            optional_text(comment),
        ),
{
    match checked {
        Err(error) => Err(error),
        Ok(address) => match route(registry, wallet) {
            Ok(session) => Ok(NodeCall::SendToAddress { session, address, amount, comment }),
            Err(error) => Err(error),
        },
    }
}

/// Plans a payment of `amount` of the smallest unit from `wallet` to
/// `address`.
pub fn plan_send(
    registry: &Registry,
    wallet: &str,
    address: &str,
    amount: u64,
    comment: Option<String>,
) -> (plan: Result<NodeCall, GatewayError>)
    ensures
        plan_view(plan) == planned_payment(
            registry.entries(),
            wallet@,
            served_verdict(address@),
            amount,
            optional_text(comment),
        ),
{
    send_to(registry, wallet, check_address(address), amount, comment)
}

/// The plan for looking a transaction up in the wallet or, with
/// `in_mempool`, in the memory pool. A bad id is reported before the
/// wallet is looked for.
pub open spec fn planned_lookup(
    entries: Map<Seq<char>, SessionView>,
    wallet: Seq<char>,
    txid: Seq<char>,
    in_mempool: bool,
) -> Plan {
    match transaction_id_verdict(txid) {
        Err(error) => Err(error),
        Ok(id) => match routed(entries, wallet) {
            Ok(session) => if in_mempool {
                Ok(NodeCallView::GetMempoolEntry { session, txid: id })
            } else {
                Ok(NodeCallView::GetTransaction { session, txid: id })
            },
            Err(error) => Err(error),
        },
    }
}

/// Plans the reading of the transaction `txid` from `wallet`.
pub fn plan_transaction(registry: &Registry, wallet: &str, txid: &str) -> (plan: Result<
    NodeCall,
    GatewayError,
>)
    ensures
        plan_view(plan) == planned_lookup(registry.entries(), wallet@, txid@, false),
{
    match check_transaction_id(txid) {
        Err(error) => Err(error),
        Ok(id) => match route(registry, wallet) {
            Ok(session) => Ok(NodeCall::GetTransaction { session, txid: id }),
            Err(error) => Err(error),
        },
    }
}

/// Plans the reading of the transaction `txid` from the memory pool, through
/// `wallet`.
pub fn plan_mempool_entry(registry: &Registry, wallet: &str, txid: &str) -> (plan: Result<
    NodeCall,
    GatewayError,
>)
    ensures
        plan_view(plan) == planned_lookup(registry.entries(), wallet@, txid@, true),
{
    match check_transaction_id(txid) {
        Err(error) => Err(error),
        Ok(id) => match route(registry, wallet) {
            Ok(session) => Ok(NodeCall::GetMempoolEntry { session, txid: id }),
            Err(error) => Err(error),
        },
    }
}

/// The node's failure as the gateway's error, in the node's words.
pub open spec fn node_error(failure: NodeFailureView) -> GatewayErrorView {
    GatewayErrorView::NodeError(failure.message)
}

/// What the node gave is handed on; what it refused becomes a node error
/// with the node's message unchanged. This concludes a balance, a mining
/// and a payment. Nothing is tried a second time.
pub fn conclude<T>(outcome: Result<T, NodeFailure>) -> (answer: Result<T, GatewayError>)
    ensures
        outcome matches Ok(given) ==> (answer matches Ok(kept) && kept == given),
        outcome matches Err(failure) ==> (answer matches Err(error) && error@ == node_error(
            failure@,
        )),
{
    match outcome {
        Ok(given) => Ok(given),
        Err(failure) => Err(GatewayError::NodeError(failure.message)),
    }
}

/// What the node found is handed on; a failure means that the node knows
/// no such transaction. This concludes a lookup in the memory pool.
pub fn conclude_lookup<T>(outcome: Result<T, NodeFailure>) -> (answer: Result<T, GatewayError>)
    ensures
        outcome matches Ok(given) ==> (answer matches Ok(kept) && kept == given),
        outcome matches Err(failure) ==> (answer matches Err(error) && error@
            == GatewayErrorView::TransactionNotFound(failure@.message)),
{
    match outcome {
        Ok(given) => Ok(given),
        Err(failure) => Err(GatewayError::TransactionNotFound(failure.message)),
    }
}

/// The answer to the lookup of a transaction, in text.
pub open spec fn shown(outcome: Result<TransactionRecord, NodeFailure>) -> Result<
    FlatTransaction,
    GatewayErrorView,
> {
    match outcome {
        Ok(record) => Ok(flatten(record@)),
        Err(failure) => Err(GatewayErrorView::TransactionNotFound(failure@.message)),
    }
}

/// What a shown transaction holds, in text.
pub open spec fn shown_view(answer: Result<TransactionView, GatewayError>) -> Result<
    FlatTransaction,
    GatewayErrorView,
> {
    match answer {
        Ok(view) => Ok(view@),
        Err(error) => Err(error@),
    }
}

/// Concludes the lookup of a transaction: the node's record is flattened;
/// a failure means that the node knows no such transaction.
pub fn conclude_transaction(outcome: Result<TransactionRecord, NodeFailure>) -> (answer: Result<
    TransactionView,
    GatewayError,
>)
    ensures
        shown_view(answer) == shown(outcome),
{
    match outcome {
        Ok(record) => Ok(TransactionView::from_record(record)),
        Err(failure) => Err(GatewayError::TransactionNotFound(failure.message)),
    }
}

/// The answer to the making of an address, in text: the address that the
/// node made, if it is one of the regression test network.
pub open spec fn made_address(outcome: Result<String, NodeFailure>) -> Result<
    Seq<char>,
    GatewayErrorView,
> {
    match outcome {
        Ok(address) => served_verdict(address@),
        Err(failure) => Err(node_error(failure@)),
    }
}

/// Concludes the making of an address.
pub fn conclude_create_address(outcome: Result<String, NodeFailure>) -> (answer: Result<
    String,
    GatewayError,
>)
    ensures
        text_result(answer) == made_address(outcome),
{
    match outcome {
        Ok(address) => check_address(address.as_str()),
        Err(failure) => Err(GatewayError::NodeError(failure.message)),
    }
}

/// What the bringing up of a wallet ended in, in text.
pub open spec fn outcome_view(done: Result<WalletLoadOutcome, GatewayError>) -> Result<
    WalletLoadOutcomeView,
    GatewayErrorView,
> {
    match done {
        Ok(outcome) => Ok(outcome@),
        Err(error) => Err(error@),
    }
}

/// The registry after a wallet was brought up with the result `done`: the
/// session is registered under its wallet's name if the wallet is loaded,
/// and nothing changes if it is not.
pub open spec fn registered(
    entries: Map<Seq<char>, SessionView>,
    session: SessionView,
    done: Result<WalletLoadOutcomeView, GatewayErrorView>,
) -> Map<Seq<char>, SessionView> {
    if done is Ok {
        entries.insert(session.wallet, session)
    } else {
        entries
    }
}

/// Concludes the creating or loading of a wallet: registers `session` if
/// the wallet is loaded, and hands the result on.
pub fn conclude_create_wallet(
    registry: &mut Registry,
    session: Session,
    done: Result<WalletLoadOutcome, GatewayError>,
) -> (answer: Result<WalletLoadOutcome, GatewayError>)
    ensures
        outcome_view(answer) == outcome_view(done),
        final(registry).entries() == registered(
            old(registry).entries(),
            session@,
            outcome_view(done),
        ),
{
    match done {
        Ok(outcome) => {
            let name = session.wallet.clone();
            registry.insert(name, session);
            Ok(outcome)
        },
        Err(error) => Err(error),
    }
}

/// Once a wallet was brought to the loaded state under `name`, its balance
/// can be asked for: the wallet is found, whatever was registered before.
pub proof fn law_loaded_wallet_is_found(
    entries: Map<Seq<char>, SessionView>,
    config: ConfigView,
    name: Seq<char>,
    outcome: WalletLoadOutcomeView,
)
    ensures
        planned_balance(registered(entries, session_for(config, name), Ok(outcome)), name) == Ok::<
            NodeCallView,
            GatewayErrorView,
        >(NodeCallView::WalletInfo { session: session_for(config, name) }),
{
}

/// A wallet that could not be brought to the loaded state leaves the
/// registry as it was.
pub proof fn law_failed_wallet_is_not_registered(
    entries: Map<Seq<char>, SessionView>,
    session: SessionView,
    error: GatewayErrorView,
)
    ensures
        registered(entries, session, Err(error)) == entries,
{
}

/// Asking for the balance of a wallet that is not registered is answered
/// with "not found", status 404, and plans no call.
pub proof fn law_unregistered_wallet_is_not_found(
    entries: Map<Seq<char>, SessionView>,
    name: Seq<char>,
)
    requires
        !entries.contains_key(name),
    ensures
        planned_balance(entries, name) == Err::<NodeCallView, GatewayErrorView>(
            GatewayErrorView::WalletNotFound,
        ),
        status_of(Endpoint::Balance, GatewayErrorView::WalletNotFound) == 404,
{
}

/// A payment to an address that does not belong to the network it was
/// read against is refused as such, with status 400, and plans no call:
/// whichever wallet is named, registered or not.
pub proof fn law_wrong_network_is_refused(
    entries: Map<Seq<char>, SessionView>,
    wallet: Seq<char>,
    address: Seq<char>,
    chain: Chain,
    amount: u64,
    comment: Option<Seq<char>>,
)
    ensures
        planned_payment(
            entries,
            wallet,
            address_verdict(address, chain, Ok(false)),
            amount,
            comment,
        ) == Err::<NodeCallView, GatewayErrorView>(
            GatewayErrorView::BadNetwork(other_network(address, chain)),
        ),
        status_of(Endpoint::Send, GatewayErrorView::BadNetwork(other_network(address, chain)))
            == 400,
{
}

/// The lookup of a transaction under a well-formed id through a wallet
/// that is not registered is answered with "not found", status 404, and
/// plans no call.
pub proof fn law_lookup_needs_a_registered_wallet(
    entries: Map<Seq<char>, SessionView>,
    wallet: Seq<char>,
    txid: Seq<char>,
    in_mempool: bool,
)
    requires
        is_transaction_id(txid),
        !entries.contains_key(wallet),
    ensures
        planned_lookup(entries, wallet, txid, in_mempool) == Err::<NodeCallView, GatewayErrorView>(
            GatewayErrorView::WalletNotFound,
        ),
        status_of(Endpoint::Transaction, GatewayErrorView::WalletNotFound) == 404,
        status_of(Endpoint::Mempool, GatewayErrorView::WalletNotFound) == 404,
{
}

/// The lookup of a transaction under an id that is not 64 hex digits is
/// refused as such, with status 400, and plans no call: whichever wallet
/// is named, registered or not.
pub proof fn law_malformed_id_is_refused(
    entries: Map<Seq<char>, SessionView>,
    wallet: Seq<char>,
    txid: Seq<char>,
    in_mempool: bool,
)
    requires
        !is_transaction_id(txid),
    ensures
        planned_lookup(entries, wallet, txid, in_mempool) == Err::<NodeCallView, GatewayErrorView>(
            GatewayErrorView::InvalidTransactionId(txid_objection(txid)),
        ),
        status_of(
            Endpoint::Transaction,
            GatewayErrorView::InvalidTransactionId(txid_objection(txid)),
        ) == 400,
        status_of(Endpoint::Mempool, GatewayErrorView::InvalidTransactionId(txid_objection(txid)))
            == 400,
{
}

} // verus!
