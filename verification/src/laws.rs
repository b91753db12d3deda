//! Laws of the row pipeline, stated over the same spec functions that the
//! session's contracts use.

use vstd::prelude::*;
use crate::extract::lead_of;
use crate::extract::cand1;
use crate::extract::cand2;
use crate::extract::cand3;
use crate::extract::novel_phones;
use crate::session::RowOutcome;
use crate::session::outcome_of;
use crate::session::dmids_after;
use crate::session::phones_after;

verus! {

/// Law: a row whose lead identifier is already known for the campaign is
/// never accepted, and leaves both deduplication sets unchanged.
pub proof fn lemma_duplicate_lead_skipped(
    ix: Seq<usize>,
    row: Seq<String>,
    dmids: Set<Seq<char>>,
    phones: Set<Seq<char>>,
)
    requires
        dmids.contains(lead_of(ix, row)),
    ensures
        outcome_of(ix, row, dmids, phones) != RowOutcome::Accepted,
        dmids_after(ix, row, dmids) == dmids,
        phones_after(ix, row, dmids, phones) == phones,
{
    assert(dmids.insert(lead_of(ix, row)) =~= dmids);
}

/// Law: a row whose every phone candidate is already in the global phone
/// set is never accepted, and the global phone set is unchanged by it.
pub proof fn lemma_known_phones_skipped(
    ix: Seq<usize>,
    row: Seq<String>,
    dmids: Set<Seq<char>>,
    phones: Set<Seq<char>>,
)
    requires
        match cand1(ix, row) {
            Some(p) => phones.contains(p),
            None => true,
        },
        match cand2(ix, row) {
            Some(p) => phones.contains(p),
            None => true,
        },
        match cand3(ix, row) {
            Some(p) => phones.contains(p),
            None => true,
        },
    ensures
        outcome_of(ix, row, dmids, phones) != RowOutcome::Accepted,
        phones_after(ix, row, dmids, phones) == phones,
{
    assert(novel_phones(ix, row, phones).len() == 0);
}

/// One run over a file's rows, in order: the lead-identifier set, the
/// global phone set, and the number of rows accepted into batches.
pub open spec fn run_rows(
    ix: Seq<usize>,
    rows: Seq<Seq<String>>,
    dmids: Set<Seq<char>>,
    phones: Set<Seq<char>>,
) -> (Set<Seq<char>>, Set<Seq<char>>, nat)
    decreases rows.len(),
{
    if rows.len() == 0 {
        (dmids, phones, 0nat)
    } else {
        let row = rows.first();
        let d = dmids_after(ix, row, dmids);
        let p = phones_after(ix, row, dmids, phones);
        let rest = run_rows(ix, rows.drop_first(), d, p);
        if outcome_of(ix, row, dmids, phones) == RowOutcome::Accepted {
            (rest.0, rest.1, (rest.2 + 1) as nat)
        } else {
            rest
        }
    }
}

/// Law: re-running a file whose rows were already fully imported is a
/// no-op.  Every row's lead identifier is already seeded (rows with an
/// empty identifier are skipped either way), so nothing is accepted, no
/// set grows, and — with zero rows inserted — the rows-read count is at
/// least the inserted count, so the file is still archived.
pub proof fn lemma_rerun_accepts_nothing(
    ix: Seq<usize>,
    rows: Seq<Seq<String>>,
    dmids: Set<Seq<char>>,
    phones: Set<Seq<char>>,
)
    requires
        forall|i: int|
            0 <= i < rows.len() ==> dmids.contains(lead_of(ix, #[trigger] rows[i])) || lead_of(
                ix,
                rows[i],
            ).len() == 0,
    ensures
        run_rows(ix, rows, dmids, phones) == (dmids, phones, 0nat),
    decreases rows.len(),
{
    if rows.len() > 0 {
        let row = rows.first();
        assert(row == rows[0]);
        assert(dmids_after(ix, row, dmids) =~= dmids);
        assert(forall|i: int|
            0 <= i < rows.drop_first().len() ==> #[trigger] rows.drop_first()[i] == rows[i + 1]);
        lemma_rerun_accepts_nothing(ix, rows.drop_first(), dmids, phones);
    }
}

} // verus!
