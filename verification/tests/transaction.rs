use wallet_gateway::transaction::{
    Category, DetailEntry, Replaceable, TransactionRecord, TransactionView,
};

const TXID: &str = "4a5e1e4baab89f3a32518a88c31bc87f618f76673e2cc77ab2127b7afdeda33b";
const BLOCK: &str = "000000000019d6689c085ae165831e934ff763ae46a2a6c172b3f1b60a8ce26f";

fn record(details: Vec<DetailEntry>) -> TransactionRecord {
    TransactionRecord {
        txid: TXID.to_string(),
        blockhash: Some(BLOCK.to_string()),
        blockindex: Some(3),
        blockheight: Some(101),
        bip125_replaceable: Replaceable::No,
        blocktime: Some(1_700_000_100),
        confirmations: 6,
        time: 1_700_000_000,
        timereceived: 1_700_000_001,
        wallet_conflicts: vec!["aa".to_string(), "bb".to_string()],
        amount: -150_000,
        fee: Some(-2_200),
        details,
        raw: vec![0x02, 0x00, 0xab, 0xff],
    }
}

fn entry(address: Option<&str>, vout: u32, category: Category, label: Option<&str>) -> DetailEntry {
    DetailEntry {
        address: address.map(|a| a.to_string()),
        vout,
        category,
        label: label.map(|l| l.to_string()),
    }
}

#[test]
fn the_header_is_carried_over() {
    let view = TransactionView::from_record(record(Vec::new()));
    assert_eq!(view.txid, TXID);
    assert_eq!(view.blockhash, Some(BLOCK.to_string()));
    assert_eq!(view.blockindex, Some(3));
    assert_eq!(view.blockheight, Some(101));
    assert_eq!(view.bip125_replaceable, Replaceable::No);
    assert_eq!(view.blocktime, Some(1_700_000_100));
    assert_eq!(view.confirmations, 6);
    assert_eq!(view.time, 1_700_000_000);
    assert_eq!(view.timereceived, 1_700_000_001);
    assert_eq!(view.wallet_conflicts, vec!["aa".to_string(), "bb".to_string()]);
    assert_eq!(view.amount, -150_000);
    assert_eq!(view.fee, Some(-2_200));
}

#[test]
fn no_entries_give_no_lists() {
    let view = TransactionView::from_record(record(Vec::new()));
    assert_eq!(view.address, None);
    assert_eq!(view.vout, None);
    assert_eq!(view.category, None);
    assert_eq!(view.label, None);
}

#[test]
fn one_entry_gives_lists_of_one() {
    let view = TransactionView::from_record(record(vec![entry(
        Some("bcrt1q2nfxmhd4n3c8834pj72xagvyr9gl57n5r94fsl"),
        1,
        Category::Receive,
        Some("rent"),
    )]));
    assert_eq!(
        view.address,
        Some(vec![Some("bcrt1q2nfxmhd4n3c8834pj72xagvyr9gl57n5r94fsl".to_string())])
    );
    assert_eq!(view.vout, Some(vec![1]));
    assert_eq!(view.category, Some(vec![Category::Receive]));
    assert_eq!(view.label, Some(vec![Some("rent".to_string())]));
}

#[test]
fn several_entries_give_one_item_each_in_order() {
    let view = TransactionView::from_record(record(vec![
        entry(Some("first"), 0, Category::Send, None),
        entry(None, 7, Category::Generate, Some("mined")),
        entry(Some("third"), 2, Category::Immature, Some("")),
    ]));
    assert_eq!(
        view.address,
        Some(vec![Some("first".to_string()), None, Some("third".to_string())])
    );
    assert_eq!(view.vout, Some(vec![0, 7, 2]));
    assert_eq!(
        view.category,
        Some(vec![Category::Send, Category::Generate, Category::Immature])
    );
    assert_eq!(view.label, Some(vec![None, Some("mined".to_string()), Some("".to_string())]));
}

#[test]
fn many_entries_give_lists_of_the_same_length() {
    let count = 50;
    let details = (0..count)
        .map(|i| entry(Some(&format!("addr{}", i)), i, Category::Orphan, None))
        .collect();
    let view = TransactionView::from_record(record(details));
    assert_eq!(view.address.as_ref().map(|l| l.len()), Some(count as usize));
    assert_eq!(view.vout.as_ref().map(|l| l.len()), Some(count as usize));
    assert_eq!(view.category.as_ref().map(|l| l.len()), Some(count as usize));
    assert_eq!(view.label.as_ref().map(|l| l.len()), Some(count as usize));
    assert_eq!(view.vout.unwrap()[49], 49);
    assert_eq!(view.address.unwrap()[49], Some("addr49".to_string()));
}

#[test]
fn a_transaction_in_no_block_has_no_height() {
    let mut unconfirmed = record(Vec::new());
    unconfirmed.blockhash = None;
    unconfirmed.blockindex = None;
    unconfirmed.blockheight = None;
    unconfirmed.blocktime = None;
    unconfirmed.confirmations = 0;
    unconfirmed.bip125_replaceable = Replaceable::Yes;
    let view = TransactionView::from_record(unconfirmed);
    assert_eq!(view.blockheight, None);
    assert_eq!(view.blockhash, None);
    assert_eq!(view.blockindex, None);
    assert_eq!(view.blocktime, None);
    assert_eq!(view.confirmations, 0);
    assert_eq!(view.bip125_replaceable, Replaceable::Yes);
}

#[test]
fn a_missing_fee_stays_missing() {
    let mut received = record(Vec::new());
    received.fee = None;
    received.amount = 5_000_000_000;
    let view = TransactionView::from_record(received);
    assert_eq!(view.fee, None);
    assert_eq!(view.amount, 5_000_000_000);
}

#[test]
fn the_raw_bytes_are_shown_in_lower_case_hex() {
    let view = TransactionView::from_record(record(Vec::new()));
    assert_eq!(view.hex, "0200abff");
}

#[test]
fn every_byte_gives_two_hex_digits() {
    let mut all = record(Vec::new());
    all.raw = (0..=255).collect();
    let view = TransactionView::from_record(all);
    assert_eq!(view.hex.len(), 512);
    assert_eq!(&view.hex[..8], "00010203");
    assert_eq!(&view.hex[18..24], "090a0b");
    assert_eq!(&view.hex[30..34], "0f10");
    assert_eq!(&view.hex[508..], "feff");
}

#[test]
fn no_bytes_give_an_empty_hex_text() {
    let mut empty = record(Vec::new());
    empty.raw = Vec::new();
    assert_eq!(TransactionView::from_record(empty).hex, "");
}
