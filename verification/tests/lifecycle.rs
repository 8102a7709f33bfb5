use wallet_gateway::errors::GatewayError;
use wallet_gateway::lifecycle::{
    advance, begin, is_listed, LoadKind, Phase, Reply, Step, WalletInfo, WalletLoadOutcome,
    UNEXPECTED_REPLY,
};
use wallet_gateway::node::NodeFailure;

fn names(list: &[&str]) -> Vec<String> {
    list.iter().map(|name| name.to_string()).collect()
}

fn info(name: &str) -> WalletInfo {
    WalletInfo { name: name.to_string(), warning: None }
}

fn conflict() -> NodeFailure {
    NodeFailure { code: Some(-4), message: "Wallet is already loaded".to_string() }
}

fn failure(message: &str) -> NodeFailure {
    NodeFailure { code: Some(-18), message: message.to_string() }
}

fn run(name: &str, replies: Vec<Reply>) -> Step {
    let mut step = Step::Ask(begin());
    for reply in replies {
        step = match step {
            Step::Ask(phase) => advance(name, phase, reply),
            done => done,
        };
    }
    step
}

#[test]
fn a_run_begins_with_listing() {
    assert_eq!(begin(), Phase::Listing);
}

#[test]
fn a_listed_wallet_is_loaded() {
    let step = advance("alice", Phase::Listing, Reply::Wallets(names(&["bob", "alice"])));
    assert_eq!(step, Step::Ask(Phase::Loading));
}

#[test]
fn an_unlisted_wallet_is_created() {
    let step = advance("alice", Phase::Listing, Reply::Wallets(names(&["bob"])));
    assert_eq!(step, Step::Ask(Phase::Creating));
    let step = advance("alice", Phase::Listing, Reply::Wallets(Vec::new()));
    assert_eq!(step, Step::Ask(Phase::Creating));
}

#[test]
fn names_are_compared_as_they_are() {
    assert!(is_listed(&names(&["alice"]), "alice"));
    assert!(!is_listed(&names(&["Alice"]), "alice"));
    assert!(!is_listed(&names(&[" alice"]), "alice"));
    assert!(!is_listed(&names(&["alice "]), "alice"));
    assert!(!is_listed(&names(&["alic"]), "alice"));
    assert!(is_listed(&names(&["", "x"]), ""));
    assert!(!is_listed(&names(&[]), ""));
}

#[test]
fn first_registration_creates() {
    let step = run(
        "alice",
        vec![
            Reply::Wallets(names(&[])),
            Reply::Wallet(WalletInfo {
                name: "alice".to_string(),
                warning: Some("descriptor wallet".to_string()),
            }),
        ],
    );
    assert_eq!(
        step,
        Step::Done(Ok(WalletLoadOutcome {
            kind: LoadKind::Created,
            name: "alice".to_string(),
            warning: Some("descriptor wallet".to_string()),
        }))
    );
}

#[test]
fn second_registration_loads() {
    let step = run("alice", vec![Reply::Wallets(names(&["alice"])), Reply::Wallet(info("alice"))]);
    assert_eq!(
        step,
        Step::Done(Ok(WalletLoadOutcome {
            kind: LoadKind::Loaded,
            name: "alice".to_string(),
            warning: None,
        }))
    );
}

#[test]
fn an_already_loaded_wallet_is_reloaded_once() {
    let step = advance("alice", Phase::Loading, Reply::Failed(conflict()));
    assert_eq!(step, Step::Ask(Phase::Unloading));
    let step = advance("alice", Phase::Unloading, Reply::Unloaded);
    assert_eq!(step, Step::Ask(Phase::Reloading));
    let step = advance("alice", Phase::Reloading, Reply::Wallet(info("alice")));
    assert_eq!(
        step,
        Step::Done(Ok(WalletLoadOutcome {
            kind: LoadKind::Loaded,
            name: "alice".to_string(),
            warning: None,
        }))
    );
}

#[test]
fn registering_twice_succeeds_both_times() {
    let first = run("alice", vec![Reply::Wallets(names(&[])), Reply::Wallet(info("alice"))]);
    assert!(matches!(first, Step::Done(Ok(_))));
    let second = run(
        "alice",
        vec![
            Reply::Wallets(names(&["alice"])),
            Reply::Failed(conflict()),
            Reply::Unloaded,
            Reply::Wallet(info("alice")),
        ],
    );
    assert_eq!(
        second,
        Step::Done(Ok(WalletLoadOutcome {
            kind: LoadKind::Loaded,
            name: "alice".to_string(),
            warning: None,
        }))
    );
}

#[test]
fn a_second_refusal_is_not_retried() {
    let step = advance("alice", Phase::Reloading, Reply::Failed(conflict()));
    assert_eq!(
        step,
        Step::Done(Err(GatewayError::NodeError("Wallet is already loaded".to_string())))
    );
}

#[test]
fn a_failed_unload_ends_the_run() {
    let step = advance("alice", Phase::Unloading, Reply::Failed(failure("cannot unload")));
    assert_eq!(step, Step::Done(Err(GatewayError::NodeError("cannot unload".to_string()))));
}

#[test]
fn a_failed_listing_ends_the_run() {
    let step = advance("alice", Phase::Listing, Reply::Failed(failure("connection refused")));
    assert_eq!(step, Step::Done(Err(GatewayError::NodeError("connection refused".to_string()))));
    let step = advance("alice", Phase::Listing, Reply::Failed(conflict()));
    assert_eq!(
        step,
        Step::Done(Err(GatewayError::NodeError("Wallet is already loaded".to_string())))
    );
}

#[test]
fn another_load_failure_is_passed_on() {
    let step = advance("alice", Phase::Loading, Reply::Failed(failure("wallet file corrupt")));
    assert_eq!(step, Step::Done(Err(GatewayError::NodeError("wallet file corrupt".to_string()))));
}

#[test]
fn a_refused_creation_is_a_conflict() {
    let step = run("alice", vec![Reply::Wallets(names(&["bob"])), Reply::Failed(conflict())]);
    assert_eq!(step, Step::Done(Err(GatewayError::WalletStateConflict)));
}

#[test]
fn a_refused_creation_is_recognised_by_its_text() {
    let told = NodeFailure {
        code: None,
        message: "RpcError { code: -4, message: \"Database already exists.\" }".to_string(),
    };
    let step = advance("alice", Phase::Creating, Reply::Failed(told));
    assert_eq!(step, Step::Done(Err(GatewayError::WalletStateConflict)));
}

#[test]
fn another_creation_failure_is_passed_on() {
    let step = advance("alice", Phase::Creating, Reply::Failed(failure("disk full")));
    assert_eq!(step, Step::Done(Err(GatewayError::NodeError("disk full".to_string()))));
}

#[test]
fn a_reply_to_another_call_is_an_error() {
    let unexpected = Step::Done(Err(GatewayError::NodeError(UNEXPECTED_REPLY.to_string())));
    assert_eq!(advance("alice", Phase::Listing, Reply::Unloaded), unexpected);
    assert_eq!(advance("alice", Phase::Listing, Reply::Wallet(info("alice"))), unexpected);
    assert_eq!(advance("alice", Phase::Loading, Reply::Wallets(names(&["alice"]))), unexpected);
    assert_eq!(advance("alice", Phase::Loading, Reply::Unloaded), unexpected);
    assert_eq!(advance("alice", Phase::Unloading, Reply::Wallet(info("alice"))), unexpected);
    assert_eq!(advance("alice", Phase::Reloading, Reply::Unloaded), unexpected);
    assert_eq!(advance("alice", Phase::Creating, Reply::Unloaded), unexpected);
    assert_eq!(UNEXPECTED_REPLY, "unexpected reply from the node");
}

#[test]
fn no_run_asks_more_than_four_times() {
    let replies = vec![
        Reply::Wallets(names(&["alice"])),
        Reply::Failed(conflict()),
        Reply::Unloaded,
        Reply::Failed(conflict()),
    ];
    assert!(matches!(run("alice", replies), Step::Done(Err(GatewayError::NodeError(_)))));
}
