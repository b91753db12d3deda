//! Campaign bookkeeping: the partition flag assigned to a newly created
//! campaign.

use vstd::prelude::*;

verus! {

/// Flag for a campaign created on first encounter: one more than the
/// highest flag currently stored across all campaigns, or 1 where no
/// campaign exists yet.  Flags therefore form a dense, monotonically
/// increasing partition key.
pub fn next_flag(highest: Option<i64>) -> (r: i64)
    requires
        highest is Some ==> highest.unwrap() < i64::MAX,
    ensures
        r == match highest {
            Some(h) => h + 1,
            None => 1int,
        },
{
    match highest {
        Some(h) => h + 1,
        None => 1,
    }
}

} // verus!
