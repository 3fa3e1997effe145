use warranty_ledger::{Address, WarrantyBook, WarrantyContract, WarrantyError, WarrantyStats};

const ALICE: &str = "GA7QYNF7SOWQ3GLR2BGMZEHXAVIRZA4KVWLTJJFC7MGXUA74P7UJVSGZ";
const BOB: &str = "GB3JDWCQJCWMJ3IILWIGDTQJJC5567PGVEVXSCVPEQOTDN64VJBDQBYX";
const DAY: u64 = 86_400;

fn party(key: &str) -> Address {
    Address::from_string(key.to_string())
}

fn issue(ledger: &mut WarrantyContract, owner: &str, product: &str, days: u64, now: u64) -> u64 {
    assert!(ledger.can_issue(days, now));
    ledger.issue_warranty(party(owner), product.to_string(), days, now)
}

#[test]
fn first_issue_returns_id_one_and_stamps_the_record() {
    let mut ledger = WarrantyContract::new();
    let id = issue(&mut ledger, ALICE, "Widget", 30, 1_700_000_000);
    assert_eq!(id, 1);
    let token = ledger.check_warranty(1);
    assert_eq!(token.token_id, 1);
    assert_eq!(token.product_name, "Widget");
    assert_eq!(token.owner.to_string(), ALICE);
    assert_eq!(token.issue_date, 1_700_000_000);
    assert_eq!(token.expiry_date, token.issue_date + 2_592_000);
    assert_eq!(token.expiry_date, 1_702_592_000);
    assert!(token.is_active);
    assert!(token.is_found());
}

#[test]
fn claim_by_owner_before_expiry_is_granted() {
    let mut ledger = WarrantyContract::new();
    issue(&mut ledger, ALICE, "Widget", 30, 1_000);
    let before = ledger.get_warranty_stats();
    assert_eq!(ledger.claim_warranty(1, &party(ALICE), 1_000 + DAY), Ok(()));
    assert!(!ledger.check_warranty(1).is_active);
    let after = ledger.get_warranty_stats();
    assert_eq!(after.active_warranties, before.active_warranties - 1);
    assert_eq!(after.claimed_warranties, before.claimed_warranties + 1);
    assert_eq!(after.total_issued, before.total_issued);
    assert_eq!(
        after,
        WarrantyStats {
            total_issued: 1,
            active_warranties: 0,
            expired_warranties: 0,
            claimed_warranties: 1,
        }
    );
}

#[test]
fn claimed_record_keeps_everything_but_its_status() {
    let mut ledger = WarrantyContract::new();
    issue(&mut ledger, ALICE, "Widget", 30, 1_000);
    assert_eq!(ledger.claim_warranty(1, &party(ALICE), 2_000), Ok(()));
    let token = ledger.check_warranty(1);
    assert_eq!(token.token_id, 1);
    assert_eq!(token.product_name, "Widget");
    assert_eq!(token.owner.to_string(), ALICE);
    assert_eq!(token.issue_date, 1_000);
    assert_eq!(token.expiry_date, 1_000 + 30 * DAY);
    assert!(!token.is_active);
}

#[test]
fn second_claim_is_refused_as_already_claimed() {
    let mut ledger = WarrantyContract::new();
    issue(&mut ledger, ALICE, "Widget", 30, 1_000);
    assert_eq!(ledger.claim_warranty(1, &party(ALICE), 2_000), Ok(()));
    assert_eq!(
        ledger.claim_warranty(1, &party(ALICE), 2_001),
        Err(WarrantyError::AlreadyClaimed)
    );
}

#[test]
fn claim_by_another_party_is_refused_as_unauthorized() {
    let mut ledger = WarrantyContract::new();
    issue(&mut ledger, ALICE, "Widget", 30, 1_000);
    assert_eq!(
        ledger.claim_warranty(1, &party(BOB), 2_000),
        Err(WarrantyError::Unauthorized)
    );
    assert!(ledger.check_warranty(1).is_active);
}

#[test]
fn zero_day_warranty_is_expired_once_the_clock_moves() {
    let mut ledger = WarrantyContract::new();
    issue(&mut ledger, ALICE, "Widget", 0, 5_000);
    let token = ledger.check_warranty(1);
    assert_eq!(token.expiry_date, token.issue_date);
    assert_eq!(
        ledger.claim_warranty(1, &party(ALICE), 5_001),
        Err(WarrantyError::Expired)
    );
    assert!(ledger.check_warranty(1).is_active);
}

#[test]
fn unknown_id_on_an_empty_ledger_gives_the_not_found_record() {
    let ledger = WarrantyContract::new();
    let token = ledger.check_warranty(9999);
    assert_eq!(token.token_id, 0);
    assert_eq!(token.product_name, "Not_Found");
    assert_eq!(
        token.owner.to_string(),
        "GAAAAAAAAAAAAAAAAAAAAAAAAAAAAAAAAAAAAAAAAAAAAAAAAAAAAWHF"
    );
    assert_eq!(token.issue_date, 0);
    assert_eq!(token.expiry_date, 0);
    assert!(!token.is_active);
    assert!(!token.is_found());
}

#[test]
fn ids_count_up_from_one_in_call_order() {
    let mut ledger = WarrantyContract::new();
    for expected in 1..=25u64 {
        let owner = if expected % 2 == 0 { ALICE } else { BOB };
        let id = issue(&mut ledger, owner, "Widget", expected, 10 * expected);
        assert_eq!(id, expected);
        assert_eq!(ledger.count(), expected);
        if expected % 3 == 0 {
            assert_eq!(ledger.claim_warranty(expected, &party(owner), 10 * expected), Ok(()));
        }
    }
    for id in 1..=25u64 {
        assert_eq!(ledger.check_warranty(id).token_id, id);
    }
}

#[test]
fn totals_add_up_after_every_call() {
    let mut ledger = WarrantyContract::new();
    let mut claimed = 0u64;
    for n in 1..=12u64 {
        issue(&mut ledger, ALICE, "Kettle", 7, 100);
        if n % 2 == 0 {
            assert_eq!(ledger.claim_warranty(n / 2, &party(ALICE), 200), Ok(()));
            claimed += 1;
        }
        // refused calls must not move the totals either
        assert!(ledger.claim_warranty(n + 1, &party(ALICE), 200).is_err());
        assert!(ledger.claim_warranty(n, &party(BOB), 200).is_err());
        let stats = ledger.get_warranty_stats();
        assert_eq!(stats.total_issued, n);
        assert_eq!(stats.claimed_warranties, claimed);
        assert_eq!(stats.active_warranties, n - claimed);
        assert_eq!(stats.expired_warranties, 0);
        assert_eq!(
            stats.total_issued,
            stats.active_warranties + stats.claimed_warranties
        );
    }
}

#[test]
fn a_claimed_record_refuses_every_later_claim() {
    let mut ledger = WarrantyContract::new();
    issue(&mut ledger, ALICE, "Widget", 1, 0);
    assert_eq!(ledger.claim_warranty(1, &party(ALICE), 10), Ok(()));
    issue(&mut ledger, BOB, "Gadget", 1, 20);
    for (who, when) in [(ALICE, 10), (BOB, 10), (ALICE, DAY + 1), (BOB, u64::MAX), (ALICE, 0)] {
        assert_eq!(
            ledger.claim_warranty(1, &party(who), when),
            Err(WarrantyError::AlreadyClaimed)
        );
        assert!(!ledger.check_warranty(1).is_active);
    }
}

#[test]
fn expiry_is_tested_before_ownership() {
    let mut ledger = WarrantyContract::new();
    issue(&mut ledger, ALICE, "Widget", 2, 1_000);
    let expiry = 1_000 + 2 * DAY;
    // expired and owned by the caller: expired
    assert_eq!(
        ledger.claim_warranty(1, &party(ALICE), expiry + 1),
        Err(WarrantyError::Expired)
    );
    // expired and not owned by the caller: still expired
    assert_eq!(
        ledger.claim_warranty(1, &party(BOB), expiry + 1),
        Err(WarrantyError::Expired)
    );
    // in time and not owned by the caller: unauthorized
    assert_eq!(
        ledger.claim_warranty(1, &party(BOB), expiry),
        Err(WarrantyError::Unauthorized)
    );
    // in time and owned by the caller: granted
    assert_eq!(ledger.claim_warranty(1, &party(ALICE), expiry), Ok(()));
}

#[test]
fn already_claimed_is_tested_before_expiry_and_ownership() {
    let mut ledger = WarrantyContract::new();
    issue(&mut ledger, ALICE, "Widget", 0, 50);
    assert_eq!(ledger.claim_warranty(1, &party(ALICE), 50), Ok(()));
    assert_eq!(
        ledger.claim_warranty(1, &party(BOB), 51),
        Err(WarrantyError::AlreadyClaimed)
    );
}

#[test]
fn claim_at_the_expiry_date_itself_is_in_time() {
    let mut ledger = WarrantyContract::new();
    issue(&mut ledger, ALICE, "Widget", 0, 777);
    assert_eq!(ledger.claim_warranty(1, &party(ALICE), 777), Ok(()));
}

#[test]
fn issued_ids_are_found_and_no_others() {
    let mut ledger = WarrantyContract::new();
    for _ in 0..3 {
        issue(&mut ledger, ALICE, "Widget", 1, 1);
    }
    for id in 1..=3u64 {
        assert_eq!(ledger.check_warranty(id).token_id, id);
        assert!(ledger.get(WarrantyBook::Warranty(id)).is_some());
    }
    for id in [0u64, 4, 5, 9999, u64::MAX] {
        assert_eq!(ledger.check_warranty(id).token_id, 0);
        assert!(ledger.get(WarrantyBook::Warranty(id)).is_none());
    }
}

#[test]
fn claim_on_an_unknown_id_is_refused_as_not_found() {
    let mut ledger = WarrantyContract::new();
    assert_eq!(
        ledger.claim_warranty(1, &party(ALICE), 0),
        Err(WarrantyError::NotFound)
    );
    issue(&mut ledger, ALICE, "Widget", 1, 1);
    assert_eq!(
        ledger.claim_warranty(0, &party(ALICE), 1),
        Err(WarrantyError::NotFound)
    );
    assert_eq!(
        ledger.claim_warranty(2, &party(ALICE), 1),
        Err(WarrantyError::NotFound)
    );
    assert_eq!(ledger.get_warranty_stats().active_warranties, 1);
}

#[test]
fn a_refused_claim_changes_nothing() {
    let mut ledger = WarrantyContract::new();
    issue(&mut ledger, ALICE, "Widget", 1, 100);
    issue(&mut ledger, BOB, "Gadget", 1, 100);
    let stats = ledger.get_warranty_stats();
    assert!(ledger.claim_warranty(1, &party(BOB), 100).is_err());
    assert!(ledger.claim_warranty(2, &party(BOB), 100 + DAY + 1).is_err());
    assert!(ledger.claim_warranty(3, &party(BOB), 100).is_err());
    assert_eq!(ledger.get_warranty_stats(), stats);
    assert_eq!(ledger.count(), 2);
    assert!(ledger.check_warranty(1).is_active);
    assert!(ledger.check_warranty(2).is_active);
    assert_eq!(ledger.check_warranty(1).owner.to_string(), ALICE);
}

#[test]
fn a_new_ledger_has_all_zero_totals() {
    let ledger = WarrantyContract::new();
    let zero = WarrantyStats {
        total_issued: 0,
        active_warranties: 0,
        expired_warranties: 0,
        claimed_warranties: 0,
    };
    assert_eq!(ledger.get_warranty_stats(), zero);
    assert_eq!(WarrantyStats::default(), zero);
    assert_eq!(ledger.count(), 0);
}

#[test]
fn issue_is_refused_only_where_the_expiry_date_does_not_fit() {
    let ledger = WarrantyContract::new();
    assert!(ledger.can_issue(0, u64::MAX));
    assert!(!ledger.can_issue(1, u64::MAX));
    assert!(ledger.can_issue(1, u64::MAX - DAY));
    assert!(!ledger.can_issue(1, u64::MAX - DAY + 1));
    assert!(ledger.can_issue(u64::MAX / DAY, 0));
    assert!(!ledger.can_issue(u64::MAX / DAY + 1, 0));
    assert!(!ledger.can_issue(u64::MAX, 0));
}

#[test]
fn expiry_date_at_the_top_of_the_range() {
    let mut ledger = WarrantyContract::new();
    let id = issue(&mut ledger, ALICE, "Widget", 1, u64::MAX - DAY);
    assert_eq!(ledger.check_warranty(id).expiry_date, u64::MAX);
    assert_eq!(ledger.claim_warranty(id, &party(ALICE), u64::MAX), Ok(()));
}

#[test]
fn each_error_has_its_message() {
    assert_eq!(WarrantyError::NotFound.message(), "Warranty not found!");
    assert_eq!(WarrantyError::AlreadyClaimed.message(), "Warranty already claimed!");
    assert_eq!(WarrantyError::Expired.message(), "Warranty expired!");
    assert_eq!(WarrantyError::Unauthorized.message(), "Unauthorized!");
}

#[test]
fn addresses_are_the_same_party_when_their_keys_are_equal() {
    let a = party(ALICE);
    assert!(a == party(ALICE));
    assert!(a != party(BOB));
    assert_eq!(a, a.clone());
    assert_eq!(a.to_string(), ALICE);
}

#[test]
fn a_ledger_is_restored_from_its_parts() {
    let mut ledger = WarrantyContract::new();
    issue(&mut ledger, ALICE, "Widget", 3, 10);
    issue(&mut ledger, BOB, "Gadget", 4, 20);
    assert_eq!(ledger.claim_warranty(2, &party(BOB), 30), Ok(()));
    let records = vec![ledger.check_warranty(1), ledger.check_warranty(2)];
    let restored = WarrantyContract::restore(ledger.count(), ledger.get_warranty_stats(), records);
    let mut restored = restored.expect("the parts agree");
    assert_eq!(restored.get_warranty_stats(), ledger.get_warranty_stats());
    assert_eq!(restored.check_warranty(2).product_name, "Gadget");
    assert!(!restored.check_warranty(2).is_active);
    assert_eq!(issue(&mut restored, ALICE, "Kettle", 1, 40), 3);
    assert_eq!(restored.claim_warranty(1, &party(ALICE), 40), Ok(()));
}

#[test]
fn parts_that_disagree_are_not_restored() {
    let mut ledger = WarrantyContract::new();
    issue(&mut ledger, ALICE, "Widget", 3, 10);
    issue(&mut ledger, BOB, "Gadget", 4, 20);
    let stats = ledger.get_warranty_stats();
    let records = || vec![ledger.check_warranty(1), ledger.check_warranty(2)];
    assert!(WarrantyContract::restore(2, stats, records()).is_some());
    // counter and records disagree
    assert!(WarrantyContract::restore(3, stats, records()).is_none());
    assert!(WarrantyContract::restore(2, stats, vec![ledger.check_warranty(1)]).is_none());
    // records out of order
    let swapped = vec![ledger.check_warranty(2), ledger.check_warranty(1)];
    assert!(WarrantyContract::restore(2, stats, swapped).is_none());
    // totals that do not count the records
    let mut wrong = stats;
    wrong.active_warranties = 1;
    wrong.claimed_warranties = 1;
    assert!(WarrantyContract::restore(2, wrong, records()).is_none());
    let mut wrong = stats;
    wrong.expired_warranties = 1;
    assert!(WarrantyContract::restore(2, wrong, records()).is_none());
    let mut wrong = stats;
    wrong.total_issued = 1;
    assert!(WarrantyContract::restore(2, wrong, records()).is_none());
    // a record that expires before it was issued
    let mut early = records();
    early[0].expiry_date = 5;
    assert!(WarrantyContract::restore(2, stats, early).is_none());
    // an empty ledger
    assert!(WarrantyContract::restore(0, WarrantyStats::default(), Vec::new()).is_some());
}
