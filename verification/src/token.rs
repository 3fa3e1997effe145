//! One warranty record.

use vstd::prelude::*;
use crate::address::Address;

verus! {

/// Seconds in one day: warranty periods are given in days, dates in seconds.
pub const SECONDS_PER_DAY: u64 = 86400;

/// One issued warranty and its current status.
///
/// Ids start at 1. A token with id 0 is no warranty: it is what a lookup
/// hands back for an id under which nothing was issued.
#[derive(Debug)]
pub struct WarrantyToken {
    pub token_id: u64,
    pub product_name: String,
    pub owner: Address,
    pub issue_date: u64,
    pub expiry_date: u64,
    pub is_active: bool,
}

/// What a warranty record says, as plain values.
pub struct TokenView {
    pub token_id: u64,
    pub product_name: Seq<char>,
    pub owner: Seq<char>,
    pub issue_date: u64,
    pub expiry_date: u64,
    pub is_active: bool,
}

impl View for WarrantyToken {
    type V = TokenView;

    open spec fn view(&self) -> TokenView {
        TokenView {
            token_id: self.token_id,
            product_name: self.product_name@,
            owner: self.owner@,
            issue_date: self.issue_date,
            expiry_date: self.expiry_date,
            is_active: self.is_active,
        }
    }
}

/// The date at which a warranty issued at `now` for `days` days runs out.
pub open spec fn expiry_of(now: u64, days: u64) -> int {
    now + days * SECONDS_PER_DAY
}

impl TokenView {
    /// The record handed back for an id under which nothing was issued.
    pub open spec fn not_found() -> TokenView {
        TokenView {
            token_id: 0,
            product_name: "Not_Found"@,
            owner: "GAAAAAAAAAAAAAAAAAAAAAAAAAAAAAAAAAAAAAAAAAAAAAAAAAAAAWHF"@,
            issue_date: 0,
            expiry_date: 0,
            is_active: false,
        }
    }

    /// The record of a warranty issued under `id` at `now` for `days` days.
    pub open spec fn issued(
        id: u64,
        owner: Seq<char>,
        product_name: Seq<char>,
        days: u64,
        now: u64,
    ) -> TokenView
        recommends
            expiry_of(now, days) <= u64::MAX,
    {
        TokenView {
            token_id: id,
            product_name,
            owner,
            issue_date: now,
            expiry_date: expiry_of(now, days) as u64,
            is_active: true,
        }
    }

    /// The same record once it has been claimed.
    pub open spec fn claimed(self) -> TokenView {
        TokenView { is_active: false, ..self }
    }

    /// Whether the warranty has run out at `now`: the expiry date itself is
    /// still in time.
    pub open spec fn expired_at(self, now: u64) -> bool {
        now > self.expiry_date
    }
}

impl Clone for WarrantyToken {
    fn clone(&self) -> (copy: Self)
        ensures
            copy@ == self@,
    {
        WarrantyToken {
            token_id: self.token_id,
            product_name: self.product_name.clone(),
            owner: self.owner.clone(),
            issue_date: self.issue_date,
            expiry_date: self.expiry_date,
            is_active: self.is_active,
        }
    }
}

impl WarrantyToken {
    /// The record handed back for an id under which nothing was issued.
    pub fn not_found() -> (token: WarrantyToken)
        ensures
            token@ == TokenView::not_found(),
    {
        WarrantyToken {
            token_id: 0,
            product_name: "Not_Found".to_owned(),
            owner: Address::from_string(
                "GAAAAAAAAAAAAAAAAAAAAAAAAAAAAAAAAAAAAAAAAAAAAAAAAAAAAWHF".to_owned(),
            ),
            issue_date: 0,
            expiry_date: 0,
            is_active: false,
        }
    }

    /// Whether this is a real warranty rather than the record that stands
    /// for "not found".
    pub fn is_found(&self) -> (found: bool)
        ensures
            found == (self.token_id != 0),
    {
        self.token_id != 0
    }
}

} // verus!
