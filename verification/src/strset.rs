//! Deduplication sets.  The pipeline keeps two of them: a per-campaign
//! set of lead identifiers and one run-global set of phone numbers, each
//! seeded from the store before processing and grown as rows are
//! accepted.

use vstd::prelude::*;
use crate::strutil::trimmed;
use crate::strutil::trim;
use crate::strutil::str_eq;

verus! {

/// A set of strings, seen as the set of their character sequences.
pub struct StrSet {
    items: Vec<String>,
}

impl View for StrSet {
    type V = Set<Seq<char>>;

    closed spec fn view(&self) -> Set<Seq<char>> {
        Set::new(
            |s: Seq<char>|
                exists|i: int| 0 <= i < self.items@.len() && self.items@[i]@ == s,
        )
    }
}

impl StrSet {
    /// The empty set.
    pub fn new() -> (r: StrSet)
        ensures
            r@ == Set::<Seq<char>>::empty(),
    {
        let r = StrSet { items: Vec::new() };
        proof {
            assert(r@ =~= Set::<Seq<char>>::empty());
        }
        r
    }

    /// Whether the set holds this string.
    pub fn contains(&self, s: &str) -> (r: bool)
        ensures
            r == self@.contains(s@),
    {
        let mut i: usize = 0;
        while i < self.items.len()
            invariant
                i <= self.items@.len(),
                forall|k: int| 0 <= k < i ==> self.items@[k]@ != s@,
            decreases self.items@.len() - i,
        {
            if str_eq(self.items[i].as_str(), s) {
                proof {
                    assert(self@.contains(s@));
                }
                return true;
            }
            i = i + 1;
        }
        proof {
            assert(!self@.contains(s@));
        }
        false
    }

    /// Marks a string as seen.
    pub fn insert(&mut self, s: String)
        ensures
            final(self)@ == old(self)@.insert(s@),
    {
        self.items.push(s);
        proof {
            assert forall|t: Seq<char>| self@.contains(t) <==> old(self)@.insert(s@).contains(
                t,
            ) by {
                if old(self)@.insert(s@).contains(t) {
                    if t == s@ {
                        assert(self.items@[self.items@.len() - 1]@ == t);
                    } else {
                        let i = choose|i: int|
                            0 <= i < old(self).items@.len() && old(self).items@[i]@ == t;
                        assert(self.items@[i]@ == t);
                    }
                }
            }
            assert(self@ =~= old(self)@.insert(s@));
        }
    }
}

/// The set of character sequences a vector of strings stands for, taken
/// verbatim.
pub open spec fn strings_as_set(ids: Seq<String>) -> Set<Seq<char>> {
    Set::new(|s: Seq<char>| exists|i: int| 0 <= i < ids.len() && ids[i]@ == s)
}

/// Builds the per-campaign lead-identifier set from the identifiers
/// already stored under the campaign's flag, taken verbatim.
pub fn seed_dmid_set(ids: &Vec<String>) -> (r: StrSet)
    ensures
        r@ == strings_as_set(ids@),
{
    let mut r = StrSet::new();
    let mut i: usize = 0;
    while i < ids.len()
        invariant
            i <= ids@.len(),
            r@ == strings_as_set(ids@.take(i as int)),
        decreases ids@.len() - i,
    {
        let ghost prev = r@;
        r.insert(ids[i].clone());
        proof {
            assert forall|s: Seq<char>|
                prev.insert(ids@[i as int]@).contains(s) <==> strings_as_set(
                    ids@.take(i as int + 1),
                ).contains(s) by {
                if prev.insert(ids@[i as int]@).contains(s) {
                    if s == ids@[i as int]@ {
                        assert(ids@.take(i as int + 1)[i as int]@ == s);
                    } else {
                        let k = choose|k: int|
                            0 <= k < ids@.take(i as int).len() && ids@.take(i as int)[k]@ == s;
                        assert(ids@.take(i as int + 1)[k]@ == s);
                    }
                } else {
                    if strings_as_set(ids@.take(i as int + 1)).contains(s) {
                        let k = choose|k: int|
                            0 <= k < i + 1 && #[trigger] ids@.take(i as int + 1)[k]@ == s;
                        if k < i {
                            assert(ids@.take(i as int)[k]@ == s);
                        }
                        assert(false);
                    }
                }
            }
            assert(r@ =~= strings_as_set(ids@.take(i as int + 1)));
        }
        i = i + 1;
    }
    proof {
        assert(ids@.take(ids@.len() as int) =~= ids@);
    }
    r
}

/// One row of the stored phone table: its three nullable phone columns.
pub struct PhoneRow {
    pub p1: Option<String>,
    pub p2: Option<String>,
    pub p3: Option<String>,
}

/// The phone numbers one stored row contributes to the global set:
/// each present, non-empty column value, trimmed.
pub open spec fn phone_row_set(r: PhoneRow) -> Set<Seq<char>> {
    opt_phone_set(r.p1).union(opt_phone_set(r.p2)).union(opt_phone_set(r.p3))
}

pub open spec fn opt_phone_set(p: Option<String>) -> Set<Seq<char>> {
    match p {
        Some(s) => if trimmed(s@).len() > 0 {
            Set::empty().insert(trimmed(s@))
        } else {
            Set::empty()
        },
        None => Set::empty(),
    }
}

/// The run-global phone set a vector of stored rows seeds.
pub open spec fn phone_seed(rows: Seq<PhoneRow>) -> Set<Seq<char>>
    decreases rows.len(),
{
    if rows.len() == 0 {
        Set::empty()
    } else {
        phone_seed(rows.drop_last()).union(phone_row_set(rows.last()))
    }
}

fn add_phone(r: &mut StrSet, p: &Option<String>)
    ensures
        final(r)@ == old(r)@.union(opt_phone_set(*p)),
{
    match p {
        Some(s) => {
            let t = trim(s.as_str());
            if !t.as_str().is_empty() {
                r.insert(t);
                proof {
                    assert(r@ =~= old(r)@.union(opt_phone_set(*p)));
                }
            } else {
                proof {
                    assert(r@ =~= old(r)@.union(opt_phone_set(*p)));
                }
            }
        },
        None => {
            proof {
                assert(r@ =~= old(r)@.union(opt_phone_set(*p)));
            }
        },
    }
}

/// Builds the run-global phone set from the phone columns already stored:
/// every present, non-empty value of the three columns, trimmed.
pub fn seed_phone_set(rows: &Vec<PhoneRow>) -> (r: StrSet)
    ensures
        r@ == phone_seed(rows@),
{
    let mut r = StrSet::new();
    let mut i: usize = 0;
    proof {
        assert(r@ =~= phone_seed(rows@.take(0)));
    }
    while i < rows.len()
        invariant
            i <= rows@.len(),
            r@ == phone_seed(rows@.take(i as int)),
        decreases rows@.len() - i,
    {
        add_phone(&mut r, &rows[i].p1);
        add_phone(&mut r, &rows[i].p2);
        add_phone(&mut r, &rows[i].p3);
        proof {
            assert(rows@.take(i as int + 1).drop_last() =~= rows@.take(i as int));
            assert(rows@.take(i as int + 1).last() == rows@[i as int]);
            assert(r@ =~= phone_seed(rows@.take(i as int + 1)));
        }
        i = i + 1;
    }
    proof {
        assert(rows@.take(rows@.len() as int) =~= rows@);
    }
    r
}

} // verus!
