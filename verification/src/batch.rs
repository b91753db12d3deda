//! Layout of the transactional bulk insert: the phone-queue rows a batch
//! produces, each correlated to its lead by an identifier computed from
//! the batch position.  The store is assumed to assign identifiers
//! contiguously and in insertion order for one multi-row insert, so the
//! k-th record of the batch gets identifier `first_id + k`.

use vstd::prelude::*;
use vstd::string::StringExecFns;
use crate::records::CombinedRecord;

verus! {

/// `n` copies of a parameter tuple, comma-separated: the VALUES list of a
/// multi-row insert with one tuple per record.
pub open spec fn tuples_list(n: nat, tuple: Seq<char>) -> Seq<char>
    decreases n,
{
    if n == 0 {
        Seq::empty()
    } else if n == 1 {
        tuple
    } else {
        tuples_list((n - 1) as nat, tuple) + ", "@ + tuple
    }
}

/// Builds the VALUES list of a multi-row insert: one copy of the
/// parameter tuple per record, comma-separated, in batch order.
pub fn sql_value_tuples(n: usize, tuple: &str) -> (r: String)
    ensures
        r@ == tuples_list(n as nat, tuple@),
{
    let mut r = String::new();
    let mut i: usize = 0;
    while i < n
        invariant
            i <= n,
            r@ == tuples_list(i as nat, tuple@),
        decreases n - i,
    {
        if i > 0 {
            r.append(", ");
        }
        r.append(tuple);
        proof {
            assert(r@ =~= tuples_list(i as nat + 1, tuple@));
        }
        i = i + 1;
    }
    r
}

/// The workflow step every new phone-queue row starts in.
pub const PHONE_QUEUE_STEP: i64 = 11;

/// One row of the phone-queue insert: the computed foreign key, the three
/// phone slots, and the fixed workflow step.
pub struct PhoneInsert {
    pub aid: i64,
    pub phone1: Option<String>,
    pub phone2: Option<String>,
    pub phone3: Option<String>,
    pub step: i64,
}

/// The phone-queue rows a batch produces, in batch order: one row per
/// record that carries phone data, keyed by `first_id` plus the record's
/// position in the whole batch.
pub open spec fn phone_inserts_spec(batch: Seq<CombinedRecord>, first_id: int) -> Seq<PhoneInsert>
    decreases batch.len(),
{
    if batch.len() == 0 {
        Seq::empty()
    } else {
        let rest = phone_inserts_spec(batch.drop_last(), first_id);
        match batch.last().phone {
            Some(ph) => rest.push(
                PhoneInsert {
                    aid: (first_id + batch.len() - 1) as i64,
                    phone1: ph.phone1,
                    phone2: ph.phone2,
                    phone3: ph.phone3,
                    step: PHONE_QUEUE_STEP,
                },
            ),
            None => rest,
        }
    }
}

fn clone_opt(p: &Option<String>) -> (r: Option<String>)
    ensures
        r == *p,
{
    match p {
        Some(s) => Some(s.clone()),
        None => None,
    }
}

/// Computes the phone-queue rows for one batch, given the identifier the
/// store assigned to the batch's first record.
pub fn phone_inserts(batch: &Vec<CombinedRecord>, first_id: i64) -> (r: Vec<PhoneInsert>)
    requires
        0 <= first_id,
        first_id + batch@.len() <= i64::MAX,
    ensures
        r@ == phone_inserts_spec(batch@, first_id as int),
{
    let mut r: Vec<PhoneInsert> = Vec::new();
    let mut i: usize = 0;
    proof {
        assert(r@ =~= phone_inserts_spec(batch@.take(0), first_id as int));
    }
    while i < batch.len()
        invariant
            i <= batch@.len(),
            0 <= first_id,
            first_id + batch@.len() <= i64::MAX,
            r@ == phone_inserts_spec(batch@.take(i as int), first_id as int),
        decreases batch@.len() - i,
    {
        proof {
            assert(batch@.take(i as int + 1).drop_last() =~= batch@.take(i as int));
            assert(batch@.take(i as int + 1).last() == batch@[i as int]);
        }
        match &batch[i].phone {
            Some(ph) => {
                let row = PhoneInsert {
                    aid: first_id + i as i64,
                    phone1: clone_opt(&ph.phone1),
                    phone2: clone_opt(&ph.phone2),
                    phone3: clone_opt(&ph.phone3),
                    step: PHONE_QUEUE_STEP,
                };
                r.push(row);
            },
            None => {},
        }
        i = i + 1;
    }
    proof {
        assert(batch@.take(batch@.len() as int) =~= batch@);
    }
    r
}

/// Law: the foreign key of the phone-queue row for the record at batch
/// position k is `first_id + k` — the position in the whole batch, never
/// the position among the phone-bearing records alone — and the row
/// carries that record's phone slots and the fixed workflow step.
pub proof fn lemma_phone_fk_by_batch_position(batch: Seq<CombinedRecord>, first_id: int, k: int)
    requires
        0 <= k < batch.len(),
        batch[k].phone is Some,
        0 <= first_id,
        first_id + batch.len() <= i64::MAX,
    ensures
        exists|j: int|
            {
                &&& 0 <= j < phone_inserts_spec(batch, first_id).len()
                &&& #[trigger] phone_inserts_spec(batch, first_id)[j] == PhoneInsert {
                    aid: (first_id + k) as i64,
                    phone1: batch[k].phone.unwrap().phone1,
                    phone2: batch[k].phone.unwrap().phone2,
                    phone3: batch[k].phone.unwrap().phone3,
                    step: PHONE_QUEUE_STEP,
                }
            },
    decreases batch.len(),
{
    let res = phone_inserts_spec(batch, first_id);
    if k == batch.len() - 1 {
        let rest = phone_inserts_spec(batch.drop_last(), first_id);
        assert(res[rest.len() as int] == PhoneInsert {
            aid: (first_id + k) as i64,
            phone1: batch[k].phone.unwrap().phone1,
            phone2: batch[k].phone.unwrap().phone2,
            phone3: batch[k].phone.unwrap().phone3,
            step: PHONE_QUEUE_STEP,
        });
    } else {
        lemma_phone_fk_by_batch_position(batch.drop_last(), first_id, k);
        let rest = phone_inserts_spec(batch.drop_last(), first_id);
        let j = choose|j: int|
            {
                &&& 0 <= j < rest.len()
                &&& #[trigger] rest[j] == PhoneInsert {
                    aid: (first_id + k) as i64,
                    phone1: batch.drop_last()[k].phone.unwrap().phone1,
                    phone2: batch.drop_last()[k].phone.unwrap().phone2,
                    phone3: batch.drop_last()[k].phone.unwrap().phone3,
                    step: PHONE_QUEUE_STEP,
                }
            };
        assert(res[j] == rest[j]);
    }
}

} // verus!
