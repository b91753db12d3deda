//! Per-file processing state: row counting, two-level deduplication,
//! batch accumulation, and the file's fate once its rows are exhausted.

use vstd::prelude::*;
use crate::schema::ColumnIndex;
use crate::schema::COL_STREET;
use crate::schema::COL_UNIT_NUM;
use crate::schema::COL_CITY;
use crate::schema::COL_STATE;
use crate::schema::COL_ZIP;
use crate::schema::COL_LAT;
use crate::schema::COL_LNG;
use crate::schema::COL_OWNER1_FIRST;
use crate::schema::COL_OWNER1_LAST;
use crate::schema::COL_OWNER1_NAME;
use crate::schema::COL_MAIL_ADDRESS;
use crate::schema::COL_MAIL_CITY;
use crate::schema::COL_MAIL_STATE;
use crate::schema::COL_MAIL_ZIP;
use crate::schema::COL_LEAD_ID;
use crate::schema::COL_OWNER2_FIRST;
use crate::schema::COL_OWNER2_LAST;
use crate::schema::COL_OWNER2_NAME;
use crate::schema::COL_C1_PHONE1;
use crate::schema::COL_C1_PHONE2;
use crate::schema::COL_C1_PHONE3;
use crate::schema::COL_C2_PHONE1;
use crate::schema::COL_C2_PHONE2;
use crate::schema::COL_C2_PHONE3;
use crate::strset::StrSet;
use crate::records::AddressRecord;
use crate::records::PhoneQueueRecord;
use crate::records::CombinedRecord;
use crate::records::optv;
use crate::extract::colv;
use crate::extract::lead_of;
use crate::extract::first_name_of;
use crate::extract::last_name_of;
use crate::extract::full_name_of;
use crate::extract::cand1;
use crate::extract::cand2;
use crate::extract::cand3;
use crate::extract::novel_of;
use crate::extract::novel_phones;
use crate::extract::via_of;
use crate::extract::url_of;
use crate::extract::field;
use crate::extract::fb_field;
use crate::extract::cand_field;
use crate::extract::via_value;
use crate::extract::map_url;

verus! {

/// What became of one raw row.
#[derive(Clone, Copy, PartialEq, Eq, Structural, Debug)]
pub enum RowOutcome {
    /// The lead-identifier cell was empty: silently skipped.
    EmptyLead,
    /// The lead identifier was already known for this campaign: skipped.
    DuplicateLead,
    /// No first name could be resolved from either owner: skipped, though
    /// the lead identifier has already been marked as seen.
    EmptyFirstName,
    /// Every phone candidate was already in the global phone set: skipped,
    /// though the lead identifier has already been marked as seen.
    KnownPhones,
    /// The row was accepted into the batch.
    Accepted,
}

/// The outcome of one row against the current deduplication sets, in the
/// order the pipeline applies its checks.
pub open spec fn outcome_of(
    ix: Seq<usize>,
    row: Seq<String>,
    dmids: Set<Seq<char>>,
    phones: Set<Seq<char>>,
) -> RowOutcome {
    if lead_of(ix, row).len() == 0 {
        RowOutcome::EmptyLead
    } else if dmids.contains(lead_of(ix, row)) {
        RowOutcome::DuplicateLead
    } else if first_name_of(ix, row).len() == 0 {
        RowOutcome::EmptyFirstName
    } else if novel_phones(ix, row, phones).len() == 0 {
        RowOutcome::KnownPhones
    } else {
        RowOutcome::Accepted
    }
}

/// The campaign's lead-identifier set after one row: a non-empty lead
/// identifier is marked as seen as soon as it passes the duplicate check,
/// before any later check can still skip the row.
pub open spec fn dmids_after(ix: Seq<usize>, row: Seq<String>, dmids: Set<Seq<char>>) -> Set<
    Seq<char>,
> {
    if lead_of(ix, row).len() > 0 {
        dmids.insert(lead_of(ix, row))
    } else {
        dmids
    }
}

/// The global phone set after one row: the surviving candidates of an
/// accepted row are added; a skipped row adds nothing.
pub open spec fn phones_after(
    ix: Seq<usize>,
    row: Seq<String>,
    dmids: Set<Seq<char>>,
    phones: Set<Seq<char>>,
) -> Set<Seq<char>> {
    if outcome_of(ix, row, dmids, phones) == RowOutcome::Accepted {
        phones.union(novel_phones(ix, row, phones).to_set())
    } else {
        phones
    }
}

/// What the address part of an accepted row must hold.
pub open spec fn address_matches(
    a: AddressRecord,
    ix: Seq<usize>,
    row: Seq<String>,
    flag: i64,
    skip_ai: i64,
) -> bool {
    &&& a.street@ == colv(ix, row, COL_STREET as int)
    &&& a.unit_type@ == Seq::<char>::empty()
    &&& a.unit_num@ == colv(ix, row, COL_UNIT_NUM as int)
    &&& a.mail_city@ == colv(ix, row, COL_CITY as int)
    &&& a.state@ == colv(ix, row, COL_STATE as int)
    &&& a.zip@ == colv(ix, row, COL_ZIP as int)
    &&& a.latitude@ == colv(ix, row, COL_LAT as int)
    &&& a.longitude@ == colv(ix, row, COL_LNG as int)
    &&& a.fullname@ == full_name_of(ix, row)
    &&& a.fname@ == first_name_of(ix, row)
    &&& a.lname@ == last_name_of(ix, row)
    &&& a.mailing_address@ == colv(ix, row, COL_MAIL_ADDRESS as int)
    &&& a.mailing_city@ == colv(ix, row, COL_MAIL_CITY as int)
    &&& a.mailing_state@ == colv(ix, row, COL_MAIL_STATE as int)
    &&& a.mailing_zip@ == colv(ix, row, COL_MAIL_ZIP as int)
    &&& a.flag == flag
    &&& a.dmid@ == lead_of(ix, row)
    &&& a.via as int == via_of(skip_ai)
    &&& a.map_image_url@ == url_of(skip_ai)
}

/// What the phone part of an accepted row must hold: the surviving
/// candidates, left-shifted into the leading slots.
pub open spec fn phones_match(ph: PhoneQueueRecord, nl: Seq<Seq<char>>) -> bool {
    &&& optv(ph.phone1) == (if nl.len() > 0 {
        Some(nl[0])
    } else {
        None::<Seq<char>>
    })
    &&& optv(ph.phone2) == (if nl.len() > 1 {
        Some(nl[1])
    } else {
        None::<Seq<char>>
    })
    &&& optv(ph.phone3) == (if nl.len() > 2 {
        Some(nl[2])
    } else {
        None::<Seq<char>>
    })
}

/// Whether the file is archived or left for a later run once its rows are
/// done.
#[derive(Clone, Copy, PartialEq, Eq, Structural, Debug)]
pub enum FileFate {
    /// Move the file to the processed area.
    Archive,
    /// Leave the file in place to be reprocessed.
    Retry,
}

/// State of one file being processed: the validated column index, the
/// campaign's flag and the file's skip-AI flag, the campaign-scoped
/// lead-identifier set, the growing batch, and the row counters.
pub struct FileSession {
    pub cols: ColumnIndex,
    pub flag: i64,
    pub skip_ai: i64,
    pub dmids: StrSet,
    pub batch: Vec<CombinedRecord>,
    pub batch_size: usize,
    pub rows_read: usize,
    pub inserted: usize,
}

impl FileSession {
    pub open spec fn wf(&self) -> bool {
        self.cols.wf()
    }

    /// Opens a session for one file, with the campaign's seeded
    /// lead-identifier set.
    pub fn new(cols: ColumnIndex, flag: i64, skip_ai: i64, batch_size: usize, dmids: StrSet) -> (s:
        FileSession)
        requires
            cols.wf(),
        ensures
            s.wf(),
            s.cols == cols,
            s.flag == flag,
            s.skip_ai == skip_ai,
            s.batch_size == batch_size,
            s.dmids == dmids,
            s.batch@ == Seq::<CombinedRecord>::empty(),
            s.rows_read == 0,
            s.inserted == 0,
    {
        FileSession { cols, flag, skip_ai, dmids, batch: Vec::new(), batch_size, rows_read: 0, inserted: 0 }
    }

    /// Counts one raw row as read.  The count includes rows that are
    /// later skipped, and the row on which a timeout stops iteration.
    pub fn note_row(&mut self)
        requires
            old(self).rows_read < usize::MAX,
        ensures
            final(self).rows_read == old(self).rows_read + 1,
            final(self).cols == old(self).cols,
            final(self).flag == old(self).flag,
            final(self).skip_ai == old(self).skip_ai,
            final(self).dmids == old(self).dmids,
            final(self).batch == old(self).batch,
            final(self).batch_size == old(self).batch_size,
            final(self).inserted == old(self).inserted,
    {
        self.rows_read = self.rows_read + 1;
    }

    /// Runs one raw row through extraction, both deduplication scopes and
    /// the accumulator, in the pipeline's order: empty lead, duplicate
    /// lead, empty first name, no novel phone, accept.
    pub fn process_row(&mut self, row: &Vec<String>, phones: &mut StrSet) -> (out: RowOutcome)
        requires
            old(self).wf(),
        ensures
            final(self).wf(),
            final(self).cols == old(self).cols,
            final(self).flag == old(self).flag,
            final(self).skip_ai == old(self).skip_ai,
            final(self).batch_size == old(self).batch_size,
            final(self).rows_read == old(self).rows_read,
            final(self).inserted == old(self).inserted,
            out == outcome_of(old(self).cols.idx@, row@, old(self).dmids@, old(phones)@),
            final(self).dmids@ == dmids_after(old(self).cols.idx@, row@, old(self).dmids@),
            final(phones)@ == phones_after(
                old(self).cols.idx@,
                row@,
                old(self).dmids@,
                old(phones)@,
            ),
            out != RowOutcome::Accepted ==> final(self).batch == old(self).batch,
            out == RowOutcome::Accepted ==> {
                &&& final(self).batch@.len() == old(self).batch@.len() + 1
                &&& final(self).batch@.drop_last() == old(self).batch@
                &&& address_matches(
                    final(self).batch@.last().address,
                    old(self).cols.idx@,
                    row@,
                    old(self).flag,
                    old(self).skip_ai,
                )
                &&& final(self).batch@.last().phone is Some
                &&& phones_match(
                    final(self).batch@.last().phone.unwrap(),
                    novel_phones(old(self).cols.idx@, row@, old(phones)@),
                )
            },
    {
        let ghost ix = self.cols.idx@;
        let lead = field(row, self.cols.idx[COL_LEAD_ID]);
        if lead.as_str().is_empty() {
            return RowOutcome::EmptyLead;
        }
        if self.dmids.contains(lead.as_str()) {
            return RowOutcome::DuplicateLead;
        }
        self.dmids.insert(lead.clone());
        let fname = fb_field(row, self.cols.idx[COL_OWNER1_FIRST], self.cols.idx[COL_OWNER2_FIRST]);
        if fname.as_str().is_empty() {
            return RowOutcome::EmptyFirstName;
        }
        let lname = fb_field(row, self.cols.idx[COL_OWNER1_LAST], self.cols.idx[COL_OWNER2_LAST]);
        let fullname = fb_field(row, self.cols.idx[COL_OWNER1_NAME], self.cols.idx[COL_OWNER2_NAME]);

        let c1 = cand_field(row, self.cols.idx[COL_C1_PHONE1], self.cols.idx[COL_C2_PHONE1]);
        let c2 = cand_field(row, self.cols.idx[COL_C1_PHONE2], self.cols.idx[COL_C2_PHONE2]);
        let c3 = cand_field(row, self.cols.idx[COL_C1_PHONE3], self.cols.idx[COL_C2_PHONE3]);
        let ghost nl = novel_phones(ix, row@, phones@);

        let mut unique: Vec<String> = Vec::new();
        match c1 {
            Some(p) => {
                if !phones.contains(p.as_str()) {
                    unique.push(p);
                }
            },
            None => {},
        }
        proof {
            assert(unique@.map_values(|s: String| s@) =~= novel_of(cand1(ix, row@), phones@));
        }
        let ghost u1 = unique@;
        match c2 {
            Some(p) => {
                if !phones.contains(p.as_str()) {
                    unique.push(p);
                }
            },
            None => {},
        }
        proof {
            assert(unique@.map_values(|s: String| s@) =~= u1.map_values(|s: String| s@)
                + novel_of(cand2(ix, row@), phones@));
        }
        let ghost u2 = unique@;
        match c3 {
            Some(p) => {
                if !phones.contains(p.as_str()) {
                    unique.push(p);
                }
            },
            None => {},
        }
        proof {
            assert(unique@.map_values(|s: String| s@) =~= u2.map_values(|s: String| s@)
                + novel_of(cand3(ix, row@), phones@));
            assert(unique@.map_values(|s: String| s@) == nl);
        }

        if unique.len() == 0 {
            proof {
                assert(nl.len() == 0);
            }
            return RowOutcome::KnownPhones;
        }

        let phone1 = Some(unique[0].clone());
        let phone2 = if unique.len() > 1 {
            Some(unique[1].clone())
        } else {
            None
        };
        let phone3 = if unique.len() > 2 {
            Some(unique[2].clone())
        } else {
            None
        };

        let ghost before_phones = phones@;
        let mut t: usize = 0;
        while t < unique.len()
            invariant
                t <= unique@.len(),
                phones@ == before_phones.union(
                    Set::new(
                        |s: Seq<char>|
                            exists|j: int| 0 <= j < t && unique@[j]@ == s,
                    ),
                ),
            decreases unique@.len() - t,
        {
            phones.insert(unique[t].clone());
            proof {
                assert(phones@ =~= before_phones.union(
                    Set::new(
                        |s: Seq<char>|
                            exists|j: int| 0 <= j < t + 1 && unique@[j]@ == s,
                    ),
                ));
            }
            t = t + 1;
        }
        proof {
            assert forall|s: Seq<char>| nl.to_set().contains(s) implies Set::new(
                |s2: Seq<char>|
                    exists|j: int| 0 <= j < unique@.len() && unique@[j]@ == s2,
            ).contains(s) by {
                let j = choose|j: int| 0 <= j < nl.len() && nl[j] == s;
                assert(unique@.map_values(|x: String| x@)[j] == s);
                assert(unique@[j]@ == s);
            }
            assert forall|s: Seq<char>|
                Set::new(
                    |s2: Seq<char>|
                        exists|j: int| 0 <= j < unique@.len() && unique@[j]@ == s2,
                ).contains(s) implies nl.to_set().contains(s) by {
                let j = choose|j: int| 0 <= j < unique@.len() && unique@[j]@ == s;
                assert(nl[j] == s);
            }
            assert(phones@ =~= before_phones.union(nl.to_set()));
        }

        let via = via_value(self.skip_ai);
        let url = map_url(self.skip_ai);
        let address = AddressRecord {
            street: field(row, self.cols.idx[COL_STREET]),
            unit_type: String::new(),
            unit_num: field(row, self.cols.idx[COL_UNIT_NUM]),
            mail_city: field(row, self.cols.idx[COL_CITY]),
            state: field(row, self.cols.idx[COL_STATE]),
            zip: field(row, self.cols.idx[COL_ZIP]),
            latitude: field(row, self.cols.idx[COL_LAT]),
            longitude: field(row, self.cols.idx[COL_LNG]),
            fullname,
            fname,
            lname,
            mailing_address: field(row, self.cols.idx[COL_MAIL_ADDRESS]),
            mailing_city: field(row, self.cols.idx[COL_MAIL_CITY]),
            mailing_state: field(row, self.cols.idx[COL_MAIL_STATE]),
            mailing_zip: field(row, self.cols.idx[COL_MAIL_ZIP]),
            flag: self.flag,
            dmid: lead,
            via,
            map_image_url: url,
        };
        let rec = CombinedRecord {
            address,
            phone: Some(PhoneQueueRecord { phone1, phone2, phone3 }),
        };
        self.batch.push(rec);
        proof {
            assert(self.batch@.drop_last() =~= old(self).batch@);
            assert(nl[0] == unique@.map_values(|s: String| s@)[0]);
            if nl.len() > 1 {
                assert(nl[1] == unique@.map_values(|s: String| s@)[1]);
            }
            if nl.len() > 2 {
                assert(nl[2] == unique@.map_values(|s: String| s@)[2]);
            }
        }
        RowOutcome::Accepted
    }

    /// Whether the batch has reached the configured flush size.
    pub fn batch_full(&self) -> (r: bool)
        ensures
            r == (self.batch@.len() >= self.batch_size),
    {
        self.batch.len() >= self.batch_size
    }

    /// Hands the accumulated batch over for insertion, leaving the
    /// session's batch empty.
    pub fn take_batch(&mut self) -> (b: Vec<CombinedRecord>)
        ensures
            b@ == old(self).batch@,
            final(self).batch@ == Seq::<CombinedRecord>::empty(),
            final(self).cols == old(self).cols,
            final(self).flag == old(self).flag,
            final(self).skip_ai == old(self).skip_ai,
            final(self).dmids == old(self).dmids,
            final(self).batch_size == old(self).batch_size,
            final(self).rows_read == old(self).rows_read,
            final(self).inserted == old(self).inserted,
    {
        let mut b: Vec<CombinedRecord> = Vec::new();
        core::mem::swap(&mut b, &mut self.batch);
        b
    }

    /// Counts rows that a successful batch insert persisted.
    pub fn note_inserted(&mut self, n: usize)
        requires
            old(self).inserted + n <= usize::MAX,
        ensures
            final(self).inserted == old(self).inserted + n,
            final(self).cols == old(self).cols,
            final(self).flag == old(self).flag,
            final(self).skip_ai == old(self).skip_ai,
            final(self).dmids == old(self).dmids,
            final(self).batch == old(self).batch,
            final(self).batch_size == old(self).batch_size,
            final(self).rows_read == old(self).rows_read,
    {
        self.inserted = self.inserted + n;
    }

    /// The file's fate once its rows are exhausted or its deadline
    /// expired: archived when the raw rows read are at least the rows
    /// inserted — which skipped rows make true in every run without a
    /// failed insert, so a timeout-truncated file is archived as well.
    pub fn fate(&self) -> (f: FileFate)
        ensures
            f == (if self.rows_read >= self.inserted {
                FileFate::Archive
            } else {
                FileFate::Retry
            }),
    {
        if self.rows_read >= self.inserted {
            FileFate::Archive
        } else {
            FileFate::Retry
        }
    }
}

} // verus!
