//! The flat record that the gateway shows of a wallet transaction.

use crate::text::{copy_optional, optional_text, optional_texts_of, texts_of};
use vstd::prelude::*;

verus! {

/// Whether a transaction can still be replaced by one that pays more.
#[derive(Clone, Copy, Debug, PartialEq, Eq, Structural)]
pub enum Replaceable {
    Yes,
    No,
    Unknown,
}

/// What an entry of a transaction did for the wallet.
#[derive(Clone, Copy, Debug, PartialEq, Eq, Structural)]
pub enum Category {
    Send,
    Receive,
    Generate,
    Immature,
    Orphan,
}

/// One input or output of a transaction that concerns the wallet.
#[derive(Debug, PartialEq, Eq)]
pub struct DetailEntry {
    pub address: Option<String>,
    pub vout: u32,
    pub category: Category,
    pub label: Option<String>,
}

/// A [`DetailEntry`] in text.
pub struct DetailEntryView {
    pub address: Option<Seq<char>>,
    pub vout: u32,
    pub category: Category,
    pub label: Option<Seq<char>>,
}

impl View for DetailEntry {
    type V = DetailEntryView;

    open spec fn view(&self) -> DetailEntryView {
        DetailEntryView {
            address: optional_text(self.address),
            vout: self.vout,
            category: self.category,
            label: optional_text(self.label),
        }
    }
}

/// A transaction as the node reports it for a wallet. Amounts are in the
/// smallest unit of the currency.
#[derive(Debug, PartialEq, Eq)]
pub struct TransactionRecord {
    pub txid: String,
    pub blockhash: Option<String>,
    pub blockindex: Option<u64>,
    /// Absent while the transaction is in no block.
    pub blockheight: Option<u32>,
    pub bip125_replaceable: Replaceable,
    pub blocktime: Option<u64>,
    pub confirmations: i32,
    pub time: u64,
    pub timereceived: u64,
    pub wallet_conflicts: Vec<String>,
    pub amount: i64,
    pub fee: Option<i64>,
    pub details: Vec<DetailEntry>,
    /// The transaction as it goes over the wire.
    pub raw: Vec<u8>,
}

/// A [`TransactionRecord`] in text.
pub struct TransactionRecordView {
    pub txid: Seq<char>,
    pub blockhash: Option<Seq<char>>,
    pub blockindex: Option<u64>,
    pub blockheight: Option<u32>,
    pub bip125_replaceable: Replaceable,
    pub blocktime: Option<u64>,
    pub confirmations: i32,
    pub time: u64,
    pub timereceived: u64,
    pub wallet_conflicts: Seq<Seq<char>>,
    pub amount: i64,
    pub fee: Option<i64>,
    pub details: Seq<DetailEntryView>,
    pub raw: Seq<u8>,
}

/// A list of entries in text.
pub open spec fn entries_of(list: Seq<DetailEntry>) -> Seq<DetailEntryView> {
    Seq::new(list.len(), |i: int| list[i]@)
}

impl View for TransactionRecord {
    type V = TransactionRecordView;

    open spec fn view(&self) -> TransactionRecordView {
        TransactionRecordView {
            txid: self.txid@,
            blockhash: optional_text(self.blockhash),
            blockindex: self.blockindex,
            blockheight: self.blockheight,
            bip125_replaceable: self.bip125_replaceable,
            blocktime: self.blocktime,
            confirmations: self.confirmations,
            time: self.time,
            timereceived: self.timereceived,
            wallet_conflicts: texts_of(self.wallet_conflicts@),
            amount: self.amount,
            fee: self.fee,
            details: entries_of(self.details@),
            raw: self.raw@,
        }
    }
}

/// A transaction as the gateway shows it: one flat record. What the node
/// reports once stands once; what it reports per entry stands as one list
/// per attribute, and is left out where there is no entry.
#[derive(Debug, PartialEq, Eq)]
pub struct TransactionView {
    pub txid: String,
    pub blockhash: Option<String>,
    pub blockindex: Option<u64>,
    pub blockheight: Option<u32>,
    pub bip125_replaceable: Replaceable,
    pub blocktime: Option<u64>,
    pub confirmations: i32,
    pub time: u64,
    pub timereceived: u64,
    pub wallet_conflicts: Vec<String>,
    pub amount: i64,
    pub address: Option<Vec<Option<String>>>,
    pub vout: Option<Vec<u32>>,
    pub category: Option<Vec<Category>>,
    pub label: Option<Vec<Option<String>>>,
    pub fee: Option<i64>,
    /// The transaction as it goes over the wire, in hex.
    pub hex: String,
}

/// A [`TransactionView`] in text.
pub struct FlatTransaction {
    pub txid: Seq<char>,
    pub blockhash: Option<Seq<char>>,
    pub blockindex: Option<u64>,
    pub blockheight: Option<u32>,
    pub bip125_replaceable: Replaceable,
    pub blocktime: Option<u64>,
    pub confirmations: i32,
    pub time: u64,
    pub timereceived: u64,
    pub wallet_conflicts: Seq<Seq<char>>,
    pub amount: i64,
    pub address: Option<Seq<Option<Seq<char>>>>,
    pub vout: Option<Seq<u32>>,
    pub category: Option<Seq<Category>>,
    pub label: Option<Seq<Option<Seq<char>>>>,
    pub fee: Option<i64>,
    pub hex: Seq<char>,
}

/// An optional list of optional `String`s in text.
pub open spec fn optional_list_of_texts(list: Option<Vec<Option<String>>>) -> Option<
    Seq<Option<Seq<char>>>,
> {
    match list {
        Some(l) => Some(optional_texts_of(l@)),
        None => None,
    }
}

/// An optional list as an optional sequence.
pub open spec fn optional_list<T>(list: Option<Vec<T>>) -> Option<Seq<T>> {
    match list {
        Some(l) => Some(l@),
        None => None,
    }
}

impl View for TransactionView {
    type V = FlatTransaction;

    open spec fn view(&self) -> FlatTransaction {
        FlatTransaction {
            txid: self.txid@,
            blockhash: optional_text(self.blockhash),
            blockindex: self.blockindex,
            blockheight: self.blockheight,
            bip125_replaceable: self.bip125_replaceable,
            blocktime: self.blocktime,
            confirmations: self.confirmations,
            time: self.time,
            timereceived: self.timereceived,
            wallet_conflicts: texts_of(self.wallet_conflicts@),
            amount: self.amount,
            address: optional_list_of_texts(self.address),
            vout: optional_list(self.vout),
            category: optional_list(self.category),
            label: optional_list_of_texts(self.label),
            fee: self.fee,
            hex: self.hex@,
        }
    }
}

/// The hex digit for a value from 0 to 15, in lower case.
pub open spec fn hex_digit(value: int) -> char {
    "0123456789abcdef"@[value]
}

/// `bytes` in hex: two digits for each byte, the high half first.
pub open spec fn hex_text(bytes: Seq<u8>) -> Seq<char> {
    Seq::new(
        2 * bytes.len(),
        |k: int|
            if k % 2 == 0 {
                hex_digit(bytes[k / 2] as int / 16)
            } else {
                hex_digit(bytes[k / 2] as int % 16)
            },
    )
}

/// `hex::encode`: two lower-case hex digits for each byte, in order.
#[verifier::external_body]
fn to_hex(bytes: &Vec<u8>) -> (text: String)
    ensures
        text@ == hex_text(bytes@),
{
    hex::encode(bytes)
}

/// The addresses of the entries, in the entries' order.
pub open spec fn addresses_of(details: Seq<DetailEntryView>) -> Seq<Option<Seq<char>>> {
    Seq::new(details.len(), |i: int| details[i].address)
}

/// The output indexes of the entries, in the entries' order.
pub open spec fn vouts_of(details: Seq<DetailEntryView>) -> Seq<u32> {
    Seq::new(details.len(), |i: int| details[i].vout)
}

/// The categories of the entries, in the entries' order.
pub open spec fn categories_of(details: Seq<DetailEntryView>) -> Seq<Category> {
    Seq::new(details.len(), |i: int| details[i].category)
}

/// The labels of the entries, in the entries' order.
pub open spec fn labels_of(details: Seq<DetailEntryView>) -> Seq<Option<Seq<char>>> {
    Seq::new(details.len(), |i: int| details[i].label)
}

/// A list that has one item for each entry; nothing where there is no
/// entry.
pub open spec fn per_entry<T>(details: Seq<DetailEntryView>, list: Seq<T>) -> Option<Seq<T>> {
    if details.len() == 0 {
        None
    } else {
        Some(list)
    }
}

/// The flat record for `record`.
pub open spec fn flatten(record: TransactionRecordView) -> FlatTransaction {
    FlatTransaction {
        txid: record.txid,
        blockhash: record.blockhash,
        blockindex: record.blockindex,
        blockheight: record.blockheight,
        bip125_replaceable: record.bip125_replaceable,
        blocktime: record.blocktime,
        confirmations: record.confirmations,
        time: record.time,
        timereceived: record.timereceived,
        wallet_conflicts: record.wallet_conflicts,
        amount: record.amount,
        address: per_entry(record.details, addresses_of(record.details)),
        vout: per_entry(record.details, vouts_of(record.details)),
        category: per_entry(record.details, categories_of(record.details)),
        label: per_entry(record.details, labels_of(record.details)),
        fee: record.fee,
        hex: hex_text(record.raw),
    }
}

impl TransactionView {
    /// Flattens what the node reported. A record without a block height
    /// gives a view without one.
    pub fn from_record(record: TransactionRecord) -> (view: TransactionView)
        ensures
            view@ == flatten(record@),
    {
        let hex = to_hex(&record.raw);
        let count = record.details.len();
        let mut address: Vec<Option<String>> = Vec::new();
        let mut vout: Vec<u32> = Vec::new();
        let mut category: Vec<Category> = Vec::new();
        let mut label: Vec<Option<String>> = Vec::new();
        let mut i: usize = 0;
        while i < count
            invariant
                count == record.details.len(),
                i <= count,
                address.len() == i,
                vout.len() == i,
                category.len() == i,
                label.len() == i,
                forall|j: int|
                    0 <= j < i ==> optional_text(#[trigger] address@[j])
                        == record.details@[j]@.address,
                forall|j: int|
                    0 <= j < i ==> optional_text(#[trigger] label@[j]) == record.details@[j]@.label,
                forall|j: int| 0 <= j < i ==> #[trigger] vout@[j] == record.details@[j]@.vout,
                forall|j: int|
                    0 <= j < i ==> #[trigger] category@[j] == record.details@[j]@.category,
            decreases count - i,
        {
            let entry = &record.details[i];
            address.push(copy_optional(&entry.address));
            vout.push(entry.vout);
            category.push(entry.category);
            label.push(copy_optional(&entry.label));
            i += 1;
        }
        let ghost details = entries_of(record.details@);
        proof {
            assert(optional_texts_of(address@) =~= addresses_of(details));
            assert(optional_texts_of(label@) =~= labels_of(details));
            assert(vout@ =~= vouts_of(details));
            assert(category@ =~= categories_of(details));
        }
        let some = count > 0;
        TransactionView {
            txid: record.txid,
            blockhash: record.blockhash,
            blockindex: record.blockindex,
            blockheight: record.blockheight,
            bip125_replaceable: record.bip125_replaceable,
            blocktime: record.blocktime,
            confirmations: record.confirmations,
            time: record.time,
            timereceived: record.timereceived,
            wallet_conflicts: record.wallet_conflicts,
            amount: record.amount,
            address: if some { Some(address) } else { None },
            vout: if some { Some(vout) } else { None },
            category: if some { Some(category) } else { None },
            label: if some { Some(label) } else { None },
            fee: record.fee,
            hex,
        }
    }
}

/// What the node reports per entry is shown as lists, one item for each
/// entry and in the entries' order; a record without entries shows none
/// of these lists.
pub proof fn law_one_item_per_entry(record: TransactionRecordView)
    ensures
        record.details.len() == 0 ==> {
            &&& flatten(record).address is None
            &&& flatten(record).vout is None
            &&& flatten(record).category is None
            &&& flatten(record).label is None
        },
        record.details.len() > 0 ==> {
            &&& flatten(record).address is Some
            &&& flatten(record).vout is Some
            &&& flatten(record).category is Some
            &&& flatten(record).label is Some
            &&& flatten(record).address->0.len() == record.details.len()
            &&& flatten(record).vout->0.len() == record.details.len()
            &&& flatten(record).category->0.len() == record.details.len()
            &&& flatten(record).label->0.len() == record.details.len()
            &&& forall|i: int|
                0 <= i < record.details.len() ==> {
                    &&& flatten(record).address->0[i] == (#[trigger] record.details[i]).address
                    &&& flatten(record).vout->0[i] == record.details[i].vout
                    &&& flatten(record).category->0[i] == record.details[i].category
                    &&& flatten(record).label->0[i] == record.details[i].label
                }
        },
{
}

} // verus!
