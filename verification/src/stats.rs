//! Running totals over every warranty the ledger has issued.

use vstd::prelude::*;

verus! {

/// How many warranties were issued, and how many of them are in each state.
///
/// No warranty is ever counted as expired: expiry is decided when a claim is
/// made and is never recorded, so `expired_warranties` stays zero.
#[derive(Clone, Copy, Debug, PartialEq, Eq, Structural)]
pub struct WarrantyStats {
    pub total_issued: u64,
    pub active_warranties: u64,
    pub expired_warranties: u64,
    pub claimed_warranties: u64,
}

impl WarrantyStats {
    /// The totals of a ledger that has issued nothing.
    pub open spec fn zero() -> WarrantyStats {
        WarrantyStats {
            total_issued: 0,
            active_warranties: 0,
            expired_warranties: 0,
            claimed_warranties: 0,
        }
    }

    /// Every issued warranty is counted in exactly one state.
    pub open spec fn balanced(self) -> bool {
        self.total_issued == self.active_warranties + self.claimed_warranties
            + self.expired_warranties
    }

    /// The totals after one more warranty was issued.
    pub open spec fn after_issue(self) -> WarrantyStats
        recommends
            self.total_issued < u64::MAX,
            self.active_warranties < u64::MAX,
    {
        WarrantyStats {
            total_issued: (self.total_issued + 1) as u64,
            active_warranties: (self.active_warranties + 1) as u64,
            ..self
        }
    }

    /// The totals after one active warranty was claimed.
    pub open spec fn after_claim(self) -> WarrantyStats
        recommends
            self.active_warranties > 0,
            self.claimed_warranties < u64::MAX,
    {
        WarrantyStats {
            active_warranties: (self.active_warranties - 1) as u64,
            claimed_warranties: (self.claimed_warranties + 1) as u64,
            ..self
        }
    }
}

impl Default for WarrantyStats {
    fn default() -> (stats: WarrantyStats)
        ensures
            stats == WarrantyStats::zero(),
    {
        WarrantyStats {
            total_issued: 0,
            active_warranties: 0,
            expired_warranties: 0,
            claimed_warranties: 0,
        }
    }
}

} // verus!
