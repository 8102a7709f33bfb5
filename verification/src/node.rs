//! Failures that the node reports, and how the gateway reads them.

use crate::text::characters;
use vstd::prelude::*;

verus! {

/// The code with which the node refuses a wallet that is already there.
pub const WALLET_CONFLICT_CODE: i32 = -4;

/// How a failure with [`WALLET_CONFLICT_CODE`] reads when only its text is
/// left.
pub const WALLET_CONFLICT_MARK: &'static str = "code: -4";

/// A call that the node, or the way to it, did not complete.
#[derive(Debug, PartialEq, Eq)]
pub struct NodeFailure {
    /// The node's error code, where the failure came with one.
    pub code: Option<i32>,
    /// The failure in words.
    pub message: String,
}

/// A [`NodeFailure`] with its text as a sequence of characters.
pub struct NodeFailureView {
    pub code: Option<i32>,
    pub message: Seq<char>,
}

impl View for NodeFailure {
    type V = NodeFailureView;

    open spec fn view(&self) -> NodeFailureView {
        NodeFailureView { code: self.code, message: self.message@ }
    }
}

/// Whether `c` is one of `0`-`9`.
pub open spec fn is_decimal_digit(c: char) -> bool {
    '0' <= c <= '9'
}

/// Whether `pattern` stands in `text` from position `at` on.
pub open spec fn occurs_at(text: Seq<char>, pattern: Seq<char>, at: int) -> bool {
    &&& 0 <= at
    &&& at + pattern.len() <= text.len()
    &&& text.subrange(at, at + pattern.len()) == pattern
}

/// Whether `pattern` stands in `text` from position `at` on as a whole
/// number: no further digit follows it.
pub open spec fn ends_number_at(text: Seq<char>, pattern: Seq<char>, at: int) -> bool {
    &&& occurs_at(text, pattern, at)
    &&& at + pattern.len() < text.len() ==> !is_decimal_digit(text[at + pattern.len()])
}

/// Whether `text` holds `pattern` somewhere with no digit right behind it.
pub open spec fn mentions_number(text: Seq<char>, pattern: Seq<char>) -> bool {
    exists|at: int| ends_number_at(text, pattern, at)
}

/// Whether a failure says that the wallet is already there: by its code
/// where it has one, and else by [`WALLET_CONFLICT_MARK`] in its text.
pub open spec fn is_wallet_conflict(failure: NodeFailureView) -> bool {
    match failure.code {
        Some(code) => code == WALLET_CONFLICT_CODE,
        None => mentions_number(failure.message, WALLET_CONFLICT_MARK@),
    }
}

/// Whether `pattern` stands in `text` from position `at` on.
fn matches_at(text: &Vec<char>, pattern: &Vec<char>, at: usize) -> (found: bool)
    requires
        at + pattern.len() <= text.len(),
    ensures
        found == occurs_at(text@, pattern@, at as int),
{
    let mut k: usize = 0;
    while k < pattern.len()
        invariant
            k <= pattern.len(),
            at + pattern.len() <= text.len(),
            forall|j: int| 0 <= j < k ==> text@[at + j] == pattern@[j],
        decreases pattern.len() - k,
    {
        if text[at + k] != pattern[k] {
            proof {
                let window = text@.subrange(at as int, at + pattern.len());
                assert(window[k as int] == text@[at + k]);
            }
            return false;
        }
        k += 1;
    }
    assert(text@.subrange(at as int, at + pattern.len()) =~= pattern@);
    true
}

/// Whether `text` holds `pattern` somewhere with no digit right behind it.
pub fn holds_number(text: &str, pattern: &str) -> (found: bool)
    ensures
        found == mentions_number(text@, pattern@),
{
    let hay = characters(text);
    let mark = characters(pattern);
    if mark.len() > hay.len() {
        return false;
    }
    let last: usize = hay.len() - mark.len();
    let mut at: usize = 0;
    loop
        invariant
            hay@ == text@,
            mark@ == pattern@,
            last == hay.len() - mark.len(),
            at <= last,
            forall|i: int| 0 <= i < at ==> !ends_number_at(hay@, mark@, i),
        decreases last - at,
    {
        if matches_at(&hay, &mark, at) {
            let behind: usize = at + mark.len();
            if behind == hay.len() {
                assert(ends_number_at(hay@, mark@, at as int));
                return true;
            }
            let next: char = hay[behind];
            if !(next >= '0' && next <= '9') {
                assert(ends_number_at(hay@, mark@, at as int));
                return true;
            }
        }
        if at == last {
            return false;
        }
        at += 1;
    }
}

impl NodeFailure {
    /// Whether this failure says that the wallet is already there.
    pub fn is_wallet_conflict(&self) -> (conflict: bool)
        ensures
            conflict == is_wallet_conflict(self@),
    {
        match self.code {
            Some(code) => code == WALLET_CONFLICT_CODE,
            None => holds_number(self.message.as_str(), WALLET_CONFLICT_MARK),
        }
    }
}

} // verus!
