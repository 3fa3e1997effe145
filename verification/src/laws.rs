//! What holds of a ledger over any course of calls.
//!
//! A course of calls is a sequence of issues and claims made one after the
//! other. A call that is refused leaves the ledger as it was.

use vstd::prelude::*;
use crate::error::WarrantyError;
use crate::model::{lemma_claim_keeps_wf, lemma_issue_keeps_wf, LedgerView};

verus! {

/// One call made on a ledger.
pub enum Call {
    /// A warranty is issued.
    Issue { owner: Seq<char>, product_name: Seq<char>, days: u64, now: u64 },
    /// A claim is made.
    Claim { token_id: u64, claimer: Seq<char>, now: u64 },
}

/// Whether `call` goes through on `ledger`.
pub open spec fn succeeds(ledger: LedgerView, call: Call) -> bool {
    match call {
        Call::Issue { owner, product_name, days, now } => ledger.can_issue(days, now),
        Call::Claim { token_id, claimer, now } => ledger.claim_outcome(
            token_id,
            claimer,
            now,
        ).is_ok(),
    }
}

/// The ledger after `call`: unchanged where the call does not go through.
pub open spec fn step(ledger: LedgerView, call: Call) -> LedgerView {
    match call {
        Call::Issue { owner, product_name, days, now } => if ledger.can_issue(days, now) {
            ledger.issue(owner, product_name, days, now)
        } else {
            ledger
        },
        Call::Claim { token_id, claimer, now } => ledger.claim(token_id, claimer, now),
    }
}

/// The ledger after all of `calls`, made in order.
pub open spec fn run(ledger: LedgerView, calls: Seq<Call>) -> LedgerView
    decreases calls.len(),
{
    if calls.len() == 0 {
        ledger
    } else {
        step(run(ledger, calls.drop_last()), calls.last())
    }
}

/// The ids that the issues among `calls` returned, in the order of the
/// calls. An issue that does not go through returns none.
pub open spec fn issued_ids(ledger: LedgerView, calls: Seq<Call>) -> Seq<int>
    decreases calls.len(),
{
    if calls.len() == 0 {
        Seq::empty()
    } else {
        let earlier = issued_ids(ledger, calls.drop_last());
        let before = run(ledger, calls.drop_last());
        if calls.last() is Issue && succeeds(before, calls.last()) {
            earlier.push(before.next_id())
        } else {
            earlier
        }
    }
}

/// A well-formed ledger stays well formed through any call.
pub proof fn law_step_keeps_wf(ledger: LedgerView, call: Call)
    requires
        ledger.wf(),
    ensures
        step(ledger, call).wf(),
{
    match call {
        Call::Issue { owner, product_name, days, now } => {
            if ledger.can_issue(days, now) {
                lemma_issue_keeps_wf(ledger, owner, product_name, days, now);
            }
        },
        Call::Claim { token_id, claimer, now } => {
            lemma_claim_keeps_wf(ledger, token_id, claimer, now);
        },
    }
}

/// A well-formed ledger stays well formed through any course of calls, and
/// none of its records goes away.
pub proof fn law_run_keeps_wf(ledger: LedgerView, calls: Seq<Call>)
    requires
        ledger.wf(),
    ensures
        run(ledger, calls).wf(),
        run(ledger, calls).counter >= ledger.counter,
    decreases calls.len(),
{
    if calls.len() > 0 {
        law_run_keeps_wf(ledger, calls.drop_last());
        law_step_keeps_wf(run(ledger, calls.drop_last()), calls.last());
    }
}

/// Ids are handed out in order and never twice: over any course of calls on
/// a new ledger, the issues that went through returned 1, 2, 3 and so on in
/// the order in which they were made, up to the number of warranties issued.
pub proof fn law_ids_count_up(calls: Seq<Call>)
    ensures
        issued_ids(LedgerView::empty(), calls).len() == run(LedgerView::empty(), calls).counter,
        forall|i: int|
            0 <= i < issued_ids(LedgerView::empty(), calls).len() ==> issued_ids(
                LedgerView::empty(),
                calls,
            )[i] == i + 1,
    decreases calls.len(),
{
    if calls.len() > 0 {
        law_ids_count_up(calls.drop_last());
    }
}

/// The id that an issue returns is held by no earlier record, and from then
/// on it is held by the record that was issued.
pub proof fn law_issued_id_is_fresh(
    ledger: LedgerView,
    owner: Seq<char>,
    product_name: Seq<char>,
    days: u64,
    now: u64,
)
    requires
        ledger.wf(),
        ledger.can_issue(days, now),
    ensures
        !ledger.holds(ledger.next_id() as u64),
        ledger.issue(owner, product_name, days, now).holds(ledger.next_id() as u64),
        forall|id: u64|
            ledger.holds(id) ==> ledger.issue(owner, product_name, days, now).lookup(id)
                == ledger.lookup(id),
{
}

/// The totals always add up: after any course of calls on a new ledger, the
/// number of warranties issued is the number still active plus the number
/// claimed.
pub proof fn law_totals_add_up(calls: Seq<Call>)
    ensures
        ({
            let stats = run(LedgerView::empty(), calls).stats;
            stats.total_issued == stats.active_warranties + stats.claimed_warranties
        }),
        run(LedgerView::empty(), calls).stats.balanced(),
{
    assert(LedgerView::empty().wf());
    law_run_keeps_wf(LedgerView::empty(), calls);
}

/// A claim is made once: a record that is no longer active stays so through
/// any course of calls, and every later claim on it, by whomever and at
/// whatever time, is refused as already claimed.
pub proof fn law_claim_is_final(
    ledger: LedgerView,
    calls: Seq<Call>,
    token_id: u64,
    claimer: Seq<char>,
    now: u64,
)
    requires
        ledger.wf(),
        ledger.holds(token_id),
        !ledger.book[token_id - 1].is_active,
    ensures
        run(ledger, calls).holds(token_id),
        !run(ledger, calls).book[token_id - 1].is_active,
        run(ledger, calls).claim_outcome(token_id, claimer, now) == Err::<(), WarrantyError>(
            WarrantyError::AlreadyClaimed,
        ),
        !succeeds(run(ledger, calls), Call::Claim { token_id, claimer, now }),
    decreases calls.len(),
{
    if calls.len() > 0 {
        law_claim_is_final(ledger, calls.drop_last(), token_id, claimer, now);
        law_run_keeps_wf(ledger, calls.drop_last());
    }
    law_run_keeps_wf(ledger, calls);
}

/// A record is never removed, and nothing in it ever changes but that it
/// stops being active: after any course of calls, the record under an id is
/// what it was, or what it was with the claim made.
pub proof fn law_records_only_lose_activity(ledger: LedgerView, calls: Seq<Call>, token_id: u64)
    requires
        ledger.wf(),
        ledger.holds(token_id),
    ensures
        run(ledger, calls).holds(token_id),
        run(ledger, calls).book[token_id - 1] == ledger.book[token_id - 1] || run(
            ledger,
            calls,
        ).book[token_id - 1] == ledger.book[token_id - 1].claimed(),
    decreases calls.len(),
{
    if calls.len() > 0 {
        law_records_only_lose_activity(ledger, calls.drop_last(), token_id);
        law_run_keeps_wf(ledger, calls.drop_last());
    }
}

/// A granted claim leaves the record inactive.
pub proof fn law_granted_claim_deactivates(
    ledger: LedgerView,
    token_id: u64,
    claimer: Seq<char>,
    now: u64,
)
    requires
        ledger.wf(),
        ledger.claim_outcome(token_id, claimer, now).is_ok(),
    ensures
        ledger.holds(token_id),
        ledger.claim(token_id, claimer, now).holds(token_id),
        !ledger.claim(token_id, claimer, now).book[token_id - 1].is_active,
{
}

/// Expiry is tested before ownership: on an active warranty that has run
/// out, a claim is refused as expired even for its owner; on one that is
/// still in time, a claim by anyone but its owner is refused as
/// unauthorized, and a claim by its owner is granted.
pub proof fn law_expiry_before_ownership(
    ledger: LedgerView,
    token_id: u64,
    claimer: Seq<char>,
    now: u64,
)
    requires
        ledger.wf(),
        ledger.holds(token_id),
        ledger.book[token_id - 1].is_active,
    ensures
        now > ledger.book[token_id - 1].expiry_date ==> ledger.claim_outcome(
            token_id,
            claimer,
            now,
        ) == Err::<(), WarrantyError>(WarrantyError::Expired),
        now <= ledger.book[token_id - 1].expiry_date && ledger.book[token_id - 1].owner
            != claimer ==> ledger.claim_outcome(token_id, claimer, now) == Err::<
            (),
            WarrantyError,
        >(WarrantyError::Unauthorized),
        now <= ledger.book[token_id - 1].expiry_date && ledger.book[token_id - 1].owner
            == claimer ==> ledger.claim_outcome(token_id, claimer, now) == Ok::<
            (),
            WarrantyError,
        >(()),
{
}

/// The "not found" record cannot be mistaken for a warranty: looking up an
/// id under which a warranty was issued gives a record with that very id,
/// which is not 0, and looking up any other id gives a record with id 0.
pub proof fn law_not_found_is_distinct(ledger: LedgerView, token_id: u64)
    requires
        ledger.wf(),
    ensures
        ledger.holds(token_id) ==> ledger.check(token_id).token_id == token_id && token_id != 0,
        !ledger.holds(token_id) ==> ledger.check(token_id).token_id == 0,
        ledger.holds(token_id) <==> 1 <= token_id <= ledger.counter,
{
}

/// A claim on an id under which nothing was issued is refused as not found.
pub proof fn law_unknown_id_is_not_found(
    ledger: LedgerView,
    token_id: u64,
    claimer: Seq<char>,
    now: u64,
)
    requires
        !ledger.holds(token_id),
    ensures
        ledger.claim_outcome(token_id, claimer, now) == Err::<(), WarrantyError>(
            WarrantyError::NotFound,
        ),
        ledger.claim(token_id, claimer, now) == ledger,
{
}

} // verus!
