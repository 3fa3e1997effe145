//! The ledger as a mathematical value, and what each operation does to it.

use vstd::prelude::*;
use crate::error::WarrantyError;
use crate::stats::WarrantyStats;
use crate::token::{expiry_of, TokenView};

verus! {

/// How many of the records in `book` are still active.
pub open spec fn active_count(book: Seq<TokenView>) -> nat
    decreases book.len(),
{
    if book.len() == 0 {
        0
    } else {
        active_count(book.drop_last()) + if book.last().is_active {
            1nat
        } else {
            0nat
        }
    }
}

/// The whole state of a ledger: the id counter, the running totals, and the
/// records in the order in which they were issued.
pub struct LedgerView {
    pub counter: u64,
    pub stats: WarrantyStats,
    pub book: Seq<TokenView>,
}

impl LedgerView {
    /// The ledger that has issued nothing.
    pub open spec fn empty() -> LedgerView {
        LedgerView { counter: 0, stats: WarrantyStats::zero(), book: Seq::empty() }
    }

    /// The counter, the totals and the records agree: ids run from 1 in the
    /// order of issue, no record expires before it was issued, and the
    /// totals count the records as they stand.
    pub open spec fn wf(self) -> bool {
        &&& self.book.len() == self.counter
        &&& forall|i: int|
            0 <= i < self.book.len() ==> {
                &&& (#[trigger] self.book[i]).token_id == i + 1
                &&& self.book[i].issue_date <= self.book[i].expiry_date
            }
        &&& self.stats.total_issued == self.counter
        &&& self.stats.active_warranties == active_count(self.book)
        &&& self.stats.claimed_warranties == self.book.len() - active_count(self.book)
        &&& self.stats.expired_warranties == 0
    }

    /// Whether a warranty was issued under `id`.
    pub open spec fn holds(self, id: u64) -> bool {
        1 <= id <= self.book.len()
    }

    /// The record issued under `id`, if there is one.
    pub open spec fn lookup(self, id: u64) -> Option<TokenView> {
        if self.holds(id) {
            Some(self.book[id - 1])
        } else {
            None
        }
    }

    /// The record issued under `id`, or the "not found" record.
    pub open spec fn check(self, id: u64) -> TokenView {
        match self.lookup(id) {
            Some(token) => token,
            None => TokenView::not_found(),
        }
    }

    /// The id that the next issue hands out.
    pub open spec fn next_id(self) -> int {
        self.counter + 1
    }

    /// Whether one more warranty can be issued at `now` for `days` days
    /// without the id or the expiry date leaving the 64-bit range.
    pub open spec fn can_issue(self, days: u64, now: u64) -> bool {
        self.counter < u64::MAX && expiry_of(now, days) <= u64::MAX
    }

    /// The ledger after a warranty was issued to `owner`.
    pub open spec fn issue(
        self,
        owner: Seq<char>,
        product_name: Seq<char>,
        days: u64,
        now: u64,
    ) -> LedgerView
        recommends
            self.can_issue(days, now),
    {
        LedgerView {
            counter: self.next_id() as u64,
            stats: self.stats.after_issue(),
            book: self.book.push(
                TokenView::issued(self.next_id() as u64, owner, product_name, days, now),
            ),
        }
    }

    /// How a claim on `id` by `claimer` at `now` ends. The claim passes four
    /// gates in a fixed order, and the first that is shut names the error:
    /// is there such a warranty, is it still active, is it still in time, is
    /// the claimer its owner.
    pub open spec fn claim_outcome(self, id: u64, claimer: Seq<char>, now: u64) -> Result<
        (),
        WarrantyError,
    > {
        let token = self.check(id);
        if token.token_id == 0 {
            Err(WarrantyError::NotFound)
        } else if !token.is_active {
            Err(WarrantyError::AlreadyClaimed)
        } else if token.expired_at(now) {
            Err(WarrantyError::Expired)
        } else if token.owner != claimer {
            Err(WarrantyError::Unauthorized)
        } else {
            Ok(())
        }
    }

    /// The ledger after a claim on `id` by `claimer` at `now`: the record is
    /// no longer active and the totals have moved with it, or, where the
    /// claim is refused, nothing has changed.
    pub open spec fn claim(self, id: u64, claimer: Seq<char>, now: u64) -> LedgerView {
        if self.claim_outcome(id, claimer, now).is_ok() && self.holds(id) {
            LedgerView {
                counter: self.counter,
                stats: self.stats.after_claim(),
                book: self.book.update(id - 1, self.book[id - 1].claimed()),
            }
        } else {
            self
        }
    }
}

/// No more records are active than there are records.
pub proof fn lemma_active_count_bound(book: Seq<TokenView>)
    ensures
        active_count(book) <= book.len(),
    decreases book.len(),
{
    if book.len() > 0 {
        lemma_active_count_bound(book.drop_last());
    }
}

/// A new record adds one to the active records exactly when it is active.
pub proof fn lemma_active_count_push(book: Seq<TokenView>, token: TokenView)
    ensures
        active_count(book.push(token)) == active_count(book) + if token.is_active {
            1nat
        } else {
            0nat
        },
{
    assert(book.push(token).drop_last() =~= book);
}

/// Claiming an active record takes one from the active records.
pub proof fn lemma_active_count_claim(book: Seq<TokenView>, i: int)
    requires
        0 <= i < book.len(),
        book[i].is_active,
    ensures
        active_count(book.update(i, book[i].claimed())) + 1 == active_count(book),
    decreases book.len(),
{
    let after = book.update(i, book[i].claimed());
    if i == book.len() - 1 {
        assert(after.drop_last() =~= book.drop_last());
    } else {
        lemma_active_count_claim(book.drop_last(), i);
        assert(after.drop_last() =~= book.drop_last().update(i, book[i].claimed()));
    }
}

/// Issuing keeps a ledger well formed.
pub proof fn lemma_issue_keeps_wf(
    ledger: LedgerView,
    owner: Seq<char>,
    product_name: Seq<char>,
    days: u64,
    now: u64,
)
    requires
        ledger.wf(),
        ledger.can_issue(days, now),
    ensures
        ledger.issue(owner, product_name, days, now).wf(),
{
    let token = TokenView::issued(ledger.next_id() as u64, owner, product_name, days, now);
    lemma_active_count_push(ledger.book, token);
    lemma_active_count_bound(ledger.book);
}

/// Claiming keeps a ledger well formed, whether the claim is granted or not.
pub proof fn lemma_claim_keeps_wf(ledger: LedgerView, id: u64, claimer: Seq<char>, now: u64)
    requires
        ledger.wf(),
    ensures
        ledger.claim(id, claimer, now).wf(),
{
    if ledger.claim_outcome(id, claimer, now).is_ok() && ledger.holds(id) {
        lemma_active_count_claim(ledger.book, id - 1);
        lemma_active_count_bound(ledger.book);
    }
}

} // verus!
