//! The ledger itself: the records, the id counter and the running totals,
//! kept together so that they cannot drift apart.

use vstd::prelude::*;
use crate::address::Address;
use crate::error::WarrantyError;
use crate::model::{
    active_count, lemma_active_count_bound, lemma_active_count_claim, lemma_active_count_push,
    lemma_claim_keeps_wf, lemma_issue_keeps_wf, LedgerView,
};
use crate::stats::WarrantyStats;
use crate::token::{TokenView, WarrantyToken, SECONDS_PER_DAY};

verus! {

/// The key under which a record is kept.
#[derive(Clone, Copy, Debug, PartialEq, Eq, Structural)]
pub enum WarrantyBook {
    /// The warranty issued under this id.
    Warranty(u64),
}

impl WarrantyBook {
    /// The id that the key names.
    pub open spec fn id(self) -> u64 {
        match self {
            WarrantyBook::Warranty(id) => id,
        }
    }
}

/// A warranty ledger.
///
/// Records are only ever added, and the one thing that changes in a record
/// is that it stops being active when it is claimed.
#[derive(Debug)]
pub struct WarrantyContract {
    count: u64,
    stats: WarrantyStats,
    book: Vec<WarrantyToken>,
}

impl View for WarrantyContract {
    type V = LedgerView;

    closed spec fn view(&self) -> LedgerView {
        assembled(self.count, self.stats, self.book@)
    }
}

/// The ledger made of a counter, totals and records in the order of issue.
pub open spec fn assembled(
    count: u64,
    stats: WarrantyStats,
    records: Seq<WarrantyToken>,
) -> LedgerView {
    LedgerView { counter: count, stats, book: Seq::new(records.len(), |i: int| records[i]@) }
}

impl WarrantyContract {
    /// The counter, the totals and the records agree with one another.
    pub open spec fn wf(&self) -> bool {
        self@.wf()
    }

    /// A ledger that has issued nothing.
    pub fn new() -> (ledger: WarrantyContract)
        ensures
            ledger.wf(),
            ledger@ == LedgerView::empty(),
    {
        let ledger = WarrantyContract {
            count: 0,
            stats: WarrantyStats::default(),
            book: Vec::new(),
        };
        assert(ledger@.book =~= Seq::empty());
        ledger
    }

    /// Puts a ledger together again from its parts, as they were taken from
    /// a well-formed ledger: `records` in the order of issue. Gives `None`
    /// where the parts do not agree with one another.
    pub fn restore(count: u64, stats: WarrantyStats, records: Vec<WarrantyToken>) -> (ledger:
        Option<WarrantyContract>)
        ensures
            ledger is Some <==> assembled(count, stats, records@).wf(),
            ledger matches Some(restored) ==> restored@ == assembled(count, stats, records@),
    {
        let ghost book = assembled(count, stats, records@).book;
        let n: usize = records.len();
        if n as u64 != count {
            return None;
        }
        if stats.total_issued != count || stats.expired_warranties != 0 {
            return None;
        }
        let mut active: u64 = 0;
        let mut i: usize = 0;
        while i < n
            invariant
                n == records@.len(),
                n == count,
                i <= n,
                book == assembled(count, stats, records@).book,
                active == active_count(book.take(i as int)),
                active <= i,
                forall|j: int|
                    0 <= j < i ==> {
                        &&& (#[trigger] book[j]).token_id == j + 1
                        &&& book[j].issue_date <= book[j].expiry_date
                    },
            decreases n - i,
        {
            let token = &records[i];
            assert(token@ == book[i as int]);
            if token.token_id != i as u64 + 1 || token.issue_date > token.expiry_date {
                return None;
            }
            proof {
                assert(book.take(i + 1) =~= book.take(i as int).push(book[i as int]));
                lemma_active_count_push(book.take(i as int), book[i as int]);
            }
            if token.is_active {
                active = active + 1;
            }
            i = i + 1;
        }
        assert(book.take(n as int) =~= book);
        if stats.active_warranties != active || stats.claimed_warranties != count - active {
            return None;
        }
        Some(WarrantyContract { count, stats, book: records })
    }

    /// How many warranties have been issued: the id of the latest.
    pub fn count(&self) -> (count: u64)
        ensures
            count == self@.counter,
    {
        self.count
    }

    /// The record kept under `key`, if a warranty was issued under its id.
    pub fn get(&self, key: WarrantyBook) -> (token: Option<&WarrantyToken>)
        ensures
            token is Some <==> self@.holds(key.id()),
            token matches Some(t) ==> Some(t@) == self@.lookup(key.id()),
    {
        let WarrantyBook::Warranty(id) = key;
        if id >= 1 && id - 1 < self.book.len() as u64 {
            let index: usize = (id - 1) as usize;
            Some(&self.book[index])
        } else {
            None
        }
    }

    /// The record issued under `token_id`, or the "not found" record, whose
    /// id is 0, where nothing was issued under it.
    pub fn check_warranty(&self, token_id: u64) -> (token: WarrantyToken)
        ensures
            token@ == self@.check(token_id),
    {
        match self.get(WarrantyBook::Warranty(token_id)) {
            Some(found) => found.clone(),
            None => WarrantyToken::not_found(),
        }
    }

    /// The running totals.
    pub fn get_warranty_stats(&self) -> (stats: WarrantyStats)
        ensures
            stats == self@.stats,
    {
        self.stats
    }

    /// Whether one more warranty can be issued at `now` for
    /// `warranty_period_days` days.
    pub fn can_issue(&self, warranty_period_days: u64, now: u64) -> (fits: bool)
        ensures
            fits == self@.can_issue(warranty_period_days, now),
    {
        if self.count == u64::MAX {
            return false;
        }
        match warranty_period_days.checked_mul(SECONDS_PER_DAY) {
            Some(seconds) => now.checked_add(seconds).is_some(),
            None => false,
        }
    }

    /// Issues a warranty on `product_name` to `owner` at `now`, to run for
    /// `warranty_period_days` days, and returns its id.
    ///
    /// Ids are handed out in order, from 1. The caller has established that
    /// `owner` is the party it acts for.
    pub fn issue_warranty(
        &mut self,
        owner: Address,
        product_name: String,
        warranty_period_days: u64,
        now: u64,
    ) -> (id: u64)
        requires
            old(self).wf(),
            old(self)@.can_issue(warranty_period_days, now),
        ensures
            final(self).wf(),
            final(self)@ == old(self)@.issue(owner@, product_name@, warranty_period_days, now),
            id == old(self)@.next_id(),
            final(self)@.check(id) == TokenView::issued(
                id,
                owner@,
                product_name@,
                warranty_period_days,
                now,
            ),
    {
        proof {
            lemma_issue_keeps_wf(old(self)@, owner@, product_name@, warranty_period_days, now);
            lemma_active_count_bound(old(self)@.book);
        }
        let id: u64 = self.count + 1;
        let expiry_date: u64 = now + warranty_period_days * SECONDS_PER_DAY;
        let token = WarrantyToken {
            token_id: id,
            product_name,
            owner,
            issue_date: now,
            expiry_date,
            is_active: true,
        };
        self.stats.total_issued = self.stats.total_issued + 1;
        self.stats.active_warranties = self.stats.active_warranties + 1;
        self.book.push(token);
        self.count = id;
        assert(self@.book =~= old(self)@.book.push(token@));
        id
    }

    /// Claims the warranty issued under `token_id` for `claimer` at `now`.
    ///
    /// The claim is granted where the warranty exists, is still active, has
    /// not run out and belongs to `claimer`; the first of these that fails,
    /// in this order, names the error. A granted claim makes the record
    /// inactive for good; a refused one changes nothing. The caller has
    /// established that `claimer` is the party it acts for.
    pub fn claim_warranty(&mut self, token_id: u64, claimer: &Address, now: u64) -> (outcome:
        Result<(), WarrantyError>)
        requires
            old(self).wf(),
        ensures
            final(self).wf(),
            outcome == old(self)@.claim_outcome(token_id, claimer@, now),
            final(self)@ == old(self)@.claim(token_id, claimer@, now),
            outcome is Err ==> final(self)@ == old(self)@,
    {
        proof {
            lemma_claim_keeps_wf(old(self)@, token_id, claimer@, now);
            lemma_active_count_bound(old(self)@.book);
        }
        let warranty = self.check_warranty(token_id);
        if warranty.token_id == 0 {
            return Err(WarrantyError::NotFound);
        }
        if !warranty.is_active {
            return Err(WarrantyError::AlreadyClaimed);
        }
        if now > warranty.expiry_date {
            return Err(WarrantyError::Expired);
        }
        if warranty.owner != *claimer {
            return Err(WarrantyError::Unauthorized);
        }
        assert(self@.holds(token_id));
        proof {
            lemma_active_count_claim(self@.book, token_id - 1);
        }
        let claimed = WarrantyToken { is_active: false, ..warranty };
        let len: usize = self.book.len();
        assert(token_id - 1 < len);
        let index: usize = (token_id - 1) as usize;
        self.stats.active_warranties = self.stats.active_warranties - 1;
        self.stats.claimed_warranties = self.stats.claimed_warranties + 1;
        self.book.set(index, claimed);
        assert(self@.book =~= old(self)@.book.update(
            token_id - 1,
            old(self)@.book[token_id - 1].claimed(),
        ));
        Ok(())
    }
}

} // verus!
