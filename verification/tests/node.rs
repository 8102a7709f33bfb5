use wallet_gateway::node::{holds_number, NodeFailure, WALLET_CONFLICT_CODE, WALLET_CONFLICT_MARK};

fn told(message: &str) -> NodeFailure {
    NodeFailure { code: None, message: message.to_string() }
}

#[test]
fn the_conflict_code_and_its_mark() {
    assert_eq!(WALLET_CONFLICT_CODE, -4);
    assert_eq!(WALLET_CONFLICT_MARK, "code: -4");
}

#[test]
fn a_structured_code_decides() {
    let conflict = NodeFailure { code: Some(-4), message: "whatever".to_string() };
    assert!(conflict.is_wallet_conflict());
    let other = NodeFailure { code: Some(-18), message: "code: -4".to_string() };
    assert!(!other.is_wallet_conflict());
    let near = NodeFailure { code: Some(4), message: "".to_string() };
    assert!(!near.is_wallet_conflict());
}

#[test]
fn a_rendered_conflict_is_recognised() {
    let text = "JSON-RPC error: RPC error response: RpcError { code: -4, message: \"Wallet \
                \\\"alice\\\" is already loaded.\", data: None }";
    assert!(told(text).is_wallet_conflict());
}

#[test]
fn other_rendered_codes_are_not_conflicts() {
    assert!(!told("RpcError { code: -18, message: \"not found\" }").is_wallet_conflict());
    assert!(!told("RpcError { code: -40, message: \"x\" }").is_wallet_conflict());
    assert!(!told("RpcError { code: -41 }").is_wallet_conflict());
    assert!(!told("RpcError { code: 4 }").is_wallet_conflict());
    assert!(!told("code: - 4").is_wallet_conflict());
    assert!(!told("Code: -4").is_wallet_conflict());
    assert!(!told("connection refused").is_wallet_conflict());
    assert!(!told("").is_wallet_conflict());
}

#[test]
fn the_mark_may_stand_anywhere() {
    assert!(told("code: -4").is_wallet_conflict());
    assert!(told("code: -4,").is_wallet_conflict());
    assert!(told("xx code: -4").is_wallet_conflict());
    assert!(told("code: -4 and more").is_wallet_conflict());
    assert!(told("code: -42, then code: -4 }").is_wallet_conflict());
}

#[test]
fn holds_number_wants_the_whole_number() {
    assert!(holds_number("a12b", "12"));
    assert!(holds_number("a12", "12"));
    assert!(!holds_number("a123", "12"));
    assert!(holds_number("a123 12", "12"));
    assert!(!holds_number("1", "12"));
    assert!(!holds_number("", "12"));
    assert!(holds_number("", ""));
    assert!(holds_number("abc", ""));
    assert!(holds_number("123", ""));
}

#[test]
fn holds_number_counts_characters_not_bytes() {
    assert!(holds_number("\u{e9}\u{e9} code: -4 \u{e9}", "code: -4"));
    assert!(holds_number("\u{1f600}7", "7"));
    assert!(!holds_number("\u{1f600}78", "7"));
    assert!(holds_number("\u{1f600}77", "7"));
}
