//! Bringing a wallet to the loaded state: what to ask the node next, given
//! what it answered last.
//!
//! The node keeps wallets that exist apart from wallets that are loaded, so
//! the gateway first lists, then loads or creates. The caller makes the
//! calls; [`advance`] decides.

use crate::errors::{GatewayError, GatewayErrorView};
use crate::node::{is_wallet_conflict, NodeFailure, NodeFailureView};
use crate::text::{optional_text, texts_of};
use vstd::prelude::*;
use vstd::string::*;

verus! {

/// What the node says of a wallet that it has loaded or created.
#[derive(Debug, PartialEq, Eq)]
pub struct WalletInfo {
    /// The wallet's name as the node resolved it.
    pub name: String,
    /// A warning that came with it.
    pub warning: Option<String>,
}

/// A [`WalletInfo`] in text.
pub struct WalletInfoView {
    pub name: Seq<char>,
    pub warning: Option<Seq<char>>,
}

impl View for WalletInfo {
    type V = WalletInfoView;

    open spec fn view(&self) -> WalletInfoView {
        WalletInfoView { name: self.name@, warning: optional_text(self.warning) }
    }
}

/// How a wallet came to be loaded.
#[derive(Clone, Copy, Debug, PartialEq, Eq, Structural)]
pub enum LoadKind {
    /// The wallet existed and was loaded.
    Loaded,
    /// The wallet did not exist and was created, which loads it too.
    Created,
}

/// A wallet that is now loaded, with what the node said of it.
#[derive(Debug, PartialEq, Eq)]
pub struct WalletLoadOutcome {
    pub kind: LoadKind,
    pub name: String,
    pub warning: Option<String>,
}

/// A [`WalletLoadOutcome`] in text.
pub struct WalletLoadOutcomeView {
    pub kind: LoadKind,
    pub name: Seq<char>,
    pub warning: Option<Seq<char>>,
}

impl View for WalletLoadOutcome {
    type V = WalletLoadOutcomeView;

    open spec fn view(&self) -> WalletLoadOutcomeView {
        WalletLoadOutcomeView {
            kind: self.kind,
            name: self.name@,
            warning: optional_text(self.warning),
        }
    }
}

/// The call to the node that is under way.
#[derive(Clone, Copy, Debug, PartialEq, Eq, Structural)]
pub enum Phase {
    /// Listing the wallets that the node knows.
    Listing,
    /// Loading the wallet, first attempt.
    Loading,
    /// Unloading the wallet after the node refused to load it as already
    /// loaded.
    Unloading,
    /// Loading the wallet again after unloading it.
    Reloading,
    /// Creating the wallet.
    Creating,
}

/// What the node answered.
#[derive(Debug, PartialEq, Eq)]
pub enum Reply {
    /// The names of the wallets that the node knows.
    Wallets(Vec<String>),
    /// The wallet that was loaded or created.
    Wallet(WalletInfo),
    /// The wallet was unloaded.
    Unloaded,
    /// The call failed.
    Failed(NodeFailure),
}

/// A [`Reply`] in text.
pub enum ReplyView {
    Wallets(Seq<Seq<char>>),
    Wallet(WalletInfoView),
    Unloaded,
    Failed(NodeFailureView),
}

impl View for Reply {
    type V = ReplyView;

    open spec fn view(&self) -> ReplyView {
        match self {
            Reply::Wallets(names) => ReplyView::Wallets(texts_of(names@)),
            Reply::Wallet(info) => ReplyView::Wallet(info@),
            Reply::Unloaded => ReplyView::Unloaded,
            Reply::Failed(failure) => ReplyView::Failed(failure@),
        }
    }
}

/// What to do next.
#[derive(Debug, PartialEq, Eq)]
pub enum Step {
    /// Make the call of this phase and come back with the node's answer.
    Ask(Phase),
    /// Nothing more to ask: the wallet is loaded, or it cannot be.
    Done(Result<WalletLoadOutcome, GatewayError>),
}

/// A [`Step`] in text.
pub enum StepView {
    Ask(Phase),
    Done(Result<WalletLoadOutcomeView, GatewayErrorView>),
}

impl View for Step {
    type V = StepView;

    open spec fn view(&self) -> StepView {
        match self {
            Step::Ask(phase) => StepView::Ask(*phase),
            Step::Done(Ok(outcome)) => StepView::Done(Ok(outcome@)),
            Step::Done(Err(error)) => StepView::Done(Err(error@)),
        }
    }
}

/// The text of the error that answers a reply which does not belong to the
/// call that was under way.
pub const UNEXPECTED_REPLY: &'static str = "unexpected reply from the node";

/// The outcome for a wallet that the node reported as `info`.
pub open spec fn outcome_of(kind: LoadKind, info: WalletInfoView) -> WalletLoadOutcomeView {
    WalletLoadOutcomeView { kind, name: info.name, warning: info.warning }
}

/// The failure of the node handed on as it is.
pub open spec fn passed_on(failure: NodeFailureView) -> StepView {
    StepView::Done(Err(GatewayErrorView::NodeError(failure.message)))
}

/// The step that follows when the call of `phase` for the wallet `name` was
/// answered with `reply`.
///
/// - After listing: load the wallet if it is listed, create it if not.
/// - After a load that failed because the wallet is already loaded: unload
///   it, then load it once more. Any other failure ends the run.
/// - After a creation that failed because the wallet is already there: the
///   node's list and its creation check disagree, which is reported as a
///   conflict and not retried.
/// - A failure of any other call ends the run with the node's message.
pub open spec fn next_step(name: Seq<char>, phase: Phase, reply: ReplyView) -> StepView {
    match (phase, reply) {
        (Phase::Listing, ReplyView::Wallets(known)) => if known.contains(name) {
            StepView::Ask(Phase::Loading)
        } else {
            StepView::Ask(Phase::Creating)
        },
        (Phase::Loading, ReplyView::Wallet(info)) => StepView::Done(
            Ok(outcome_of(LoadKind::Loaded, info)),
        ),
        (Phase::Loading, ReplyView::Failed(failure)) => if is_wallet_conflict(failure) {
            StepView::Ask(Phase::Unloading)
        } else {
            passed_on(failure)
        },
        (Phase::Unloading, ReplyView::Unloaded) => StepView::Ask(Phase::Reloading),
        (Phase::Reloading, ReplyView::Wallet(info)) => StepView::Done(
            Ok(outcome_of(LoadKind::Loaded, info)),
        ),
        (Phase::Creating, ReplyView::Wallet(info)) => StepView::Done(
            Ok(outcome_of(LoadKind::Created, info)),
        ),
        (Phase::Creating, ReplyView::Failed(failure)) => if is_wallet_conflict(failure) {
            StepView::Done(Err(GatewayErrorView::WalletStateConflict))
        } else {
            passed_on(failure)
        },
        (_, ReplyView::Failed(failure)) => passed_on(failure),
        _ => StepView::Done(Err(GatewayErrorView::NodeError(UNEXPECTED_REPLY@))),
    }
}

/// Whether `name` is one of `known`.
pub fn is_listed(known: &Vec<String>, name: &str) -> (listed: bool)
    ensures
        listed == texts_of(known@).contains(name@),
{
    let wanted: String = name.to_owned();
    let mut i: usize = 0;
    while i < known.len()
        invariant
            i <= known.len(),
            wanted@ == name@,
            forall|j: int| 0 <= j < i ==> texts_of(known@)[j] != name@,
        decreases known.len() - i,
    {
        if known[i] == wanted {
            assert(texts_of(known@)[i as int] == name@);
            return true;
        }
        i += 1;
    }
    false
}

/// The call to begin with.
pub fn begin() -> (phase: Phase)
    ensures
        phase == Phase::Listing,
{
    Phase::Listing
}

fn loaded_as(kind: LoadKind, info: WalletInfo) -> (step: Step)
    ensures
        step@ == StepView::Done(Ok(outcome_of(kind, info@))),
{
    Step::Done(Ok(WalletLoadOutcome { kind, name: info.name, warning: info.warning }))
}

fn pass_on(failure: NodeFailure) -> (step: Step)
    ensures
        step@ == passed_on(failure@),
{
    Step::Done(Err(GatewayError::NodeError(failure.message)))
}

/// Decides what follows when the call of `phase` for the wallet `name` was
/// answered with `reply`.
pub fn advance(name: &str, phase: Phase, reply: Reply) -> (step: Step)
    ensures
        step@ == next_step(name@, phase, reply@),
{
    match reply {
        Reply::Wallets(known) => match phase {
            Phase::Listing => if is_listed(&known, name) {
                Step::Ask(Phase::Loading)
            } else {
                Step::Ask(Phase::Creating)
            },
            _ => unexpected(),
        },
        Reply::Wallet(info) => match phase {
            Phase::Loading => loaded_as(LoadKind::Loaded, info),
            Phase::Reloading => loaded_as(LoadKind::Loaded, info),
            Phase::Creating => loaded_as(LoadKind::Created, info),
            _ => unexpected(),
        },
        Reply::Unloaded => match phase {
            Phase::Unloading => Step::Ask(Phase::Reloading),
            _ => unexpected(),
        },
        Reply::Failed(failure) => match phase {
            Phase::Loading => if failure.is_wallet_conflict() {
                Step::Ask(Phase::Unloading)
            } else {
                pass_on(failure)
            },
            Phase::Creating => if failure.is_wallet_conflict() {
                Step::Done(Err(GatewayError::WalletStateConflict))
            } else {
                pass_on(failure)
            },
            _ => pass_on(failure),
        },
    }
}

fn unexpected() -> (step: Step)
    ensures
        step@ == StepView::Done(Err(GatewayErrorView::NodeError(UNEXPECTED_REPLY@))),
{
    Step::Done(Err(GatewayError::NodeError(String::from_str(UNEXPECTED_REPLY))))
}

/// Where a run stands that began in `phase` and has seen `replies`, oldest
/// first. Replies that come after the run is done change nothing.
pub open spec fn run(name: Seq<char>, phase: Phase, replies: Seq<ReplyView>) -> StepView
    decreases replies.len(),
{
    if replies.len() == 0 {
        StepView::Ask(phase)
    } else {
        match next_step(name, phase, replies[0]) {
            StepView::Ask(next) => run(name, next, replies.drop_first()),
            StepView::Done(result) => StepView::Done(result),
        }
    }
}

/// A wallet that the node does not list yet is created, and a second run,
/// in which the node lists it and loads it, succeeds as well.
pub proof fn law_create_then_load(
    name: Seq<char>,
    before: Seq<Seq<char>>,
    after: Seq<Seq<char>>,
    created: WalletInfoView,
    loaded: WalletInfoView,
)
    requires
        !before.contains(name),
        after.contains(name),
    ensures
        run(name, Phase::Listing, seq![ReplyView::Wallets(before), ReplyView::Wallet(created)])
            == StepView::Done(Ok(outcome_of(LoadKind::Created, created))),
        run(name, Phase::Listing, seq![ReplyView::Wallets(after), ReplyView::Wallet(loaded)])
            == StepView::Done(Ok(outcome_of(LoadKind::Loaded, loaded))),
{
    reveal_with_fuel(run, 3);
    let first = seq![ReplyView::Wallets(before), ReplyView::Wallet(created)];
    assert(first.drop_first()[0] == ReplyView::Wallet(created));
    let second = seq![ReplyView::Wallets(after), ReplyView::Wallet(loaded)];
    assert(second.drop_first()[0] == ReplyView::Wallet(loaded));
}

/// A listed wallet that the node refuses to load as already loaded is
/// unloaded and loaded again, and the run ends with the wallet loaded.
pub proof fn law_reload_when_already_loaded(
    name: Seq<char>,
    known: Seq<Seq<char>>,
    refusal: NodeFailureView,
    loaded: WalletInfoView,
)
    requires
        known.contains(name),
        is_wallet_conflict(refusal),
    ensures
        run(
            name,
            Phase::Listing,
            seq![
                ReplyView::Wallets(known),
                ReplyView::Failed(refusal),
                ReplyView::Unloaded,
                ReplyView::Wallet(loaded),
            ],
        ) == StepView::Done(Ok(outcome_of(LoadKind::Loaded, loaded))),
{
    reveal_with_fuel(run, 5);
    let all = seq![
        ReplyView::Wallets(known),
        ReplyView::Failed(refusal),
        ReplyView::Unloaded,
        ReplyView::Wallet(loaded),
    ];
    let rest1 = all.drop_first();
    let rest2 = rest1.drop_first();
    let rest3 = rest2.drop_first();
    assert(rest1[0] == ReplyView::Failed(refusal));
    assert(rest2[0] == ReplyView::Unloaded);
    assert(rest3[0] == ReplyView::Wallet(loaded));
}

/// Whatever the node answers afterwards, a run for a wallet that the node
/// listed never ends in a conflict.
pub proof fn law_listed_wallet_never_conflicts(
    name: Seq<char>,
    known: Seq<Seq<char>>,
    later: Seq<ReplyView>,
)
    requires
        known.contains(name),
    ensures
        run(name, Phase::Listing, seq![ReplyView::Wallets(known)] + later) != StepView::Done(
            Err(GatewayErrorView::WalletStateConflict),
        ),
{
    let all = seq![ReplyView::Wallets(known)] + later;
    assert(all[0] == ReplyView::Wallets(known));
    assert(all.drop_first() =~= later);
    lemma_no_conflict_past_listing(name, Phase::Loading, later);
}

/// From loading, unloading or reloading on, no run ends in a conflict.
proof fn lemma_no_conflict_past_listing(name: Seq<char>, phase: Phase, replies: Seq<ReplyView>)
    requires
        phase == Phase::Loading || phase == Phase::Unloading || phase == Phase::Reloading,
    ensures
        run(name, phase, replies) != StepView::Done(Err(GatewayErrorView::WalletStateConflict)),
    decreases replies.len(),
{
    if replies.len() > 0 {
        match next_step(name, phase, replies[0]) {
            StepView::Ask(next) => {
                lemma_no_conflict_past_listing(name, next, replies.drop_first());
            },
            StepView::Done(_) => {},
        }
    }
}

/// The retry is made once: with four answers every run is done.
pub proof fn law_done_within_four_replies(name: Seq<char>, replies: Seq<ReplyView>)
    requires
        replies.len() >= 4,
    ensures
        run(name, Phase::Listing, replies) is Done,
{
    lemma_done_within(name, Phase::Listing, replies);
}

/// The number of calls that a run in `phase` can still make, this one
/// included.
pub open spec fn calls_left(phase: Phase) -> nat {
    match phase {
        Phase::Listing => 4,
        Phase::Loading => 3,
        Phase::Unloading => 2,
        Phase::Reloading => 1,
        Phase::Creating => 1,
    }
}

proof fn lemma_done_within(name: Seq<char>, phase: Phase, replies: Seq<ReplyView>)
    requires
        replies.len() >= calls_left(phase),
    ensures
        run(name, phase, replies) is Done,
    decreases replies.len(),
{
    match next_step(name, phase, replies[0]) {
        StepView::Ask(next) => {
            assert(calls_left(next) < calls_left(phase));
            lemma_done_within(name, next, replies.drop_first());
        },
        StepView::Done(_) => {},
    }
}

} // verus!
