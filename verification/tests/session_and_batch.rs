use lead_ingest::batch::{phone_inserts, sql_value_tuples, PHONE_QUEUE_STEP};
use lead_ingest::records::CombinedRecord;
use lead_ingest::schema::{validate_header, ColumnIndex};
use lead_ingest::session::{FileFate, FileSession, RowOutcome};
use lead_ingest::strset::{seed_dmid_set, seed_phone_set, PhoneRow, StrSet};

fn required_header() -> Vec<String> {
    [
        "property_address_line_1",
        "property_address_line_2",
        "property_address_city",
        "property_address_state",
        "property_address_zipcode",
        "property_lat",
        "property_lng",
        "owner_1_firstname",
        "owner_1_lastname",
        "owner_1_name",
        "owner_address_line_1",
        "owner_address_city",
        "owner_address_state",
        "owner_address_zip",
        "lead_id",
        "owner_2_firstname",
        "owner_2_lastname",
        "owner_2_name",
        "contact_1_phone1",
        "contact_1_phone2",
        "contact_1_phone3",
        "contact_2_phone1",
        "contact_2_phone2",
        "contact_2_phone3",
    ]
    .iter()
    .map(|s| s.to_string())
    .collect()
}

fn cols() -> ColumnIndex {
    validate_header(&required_header()).expect("header should validate")
}

/// A 24-cell row with the given (position, value) cells set.
fn row(cells: &[(usize, &str)]) -> Vec<String> {
    let mut r: Vec<String> = (0..24).map(|_| String::new()).collect();
    for (i, v) in cells {
        r[*i] = v.to_string();
    }
    r
}

const LEAD: usize = 14;
const O1_FIRST: usize = 7;
const O1_LAST: usize = 8;
const O1_NAME: usize = 9;
const O2_FIRST: usize = 15;
const O2_LAST: usize = 16;
const C1P1: usize = 18;
const C1P2: usize = 19;
const C1P3: usize = 20;
const C2P1: usize = 21;

fn session(dmids: StrSet) -> FileSession {
    FileSession::new(cols(), 7, 0, 1000, dmids)
}

#[test]
fn seeded_duplicate_lead_is_skipped() {
    let dmids = seed_dmid_set(&vec!["D1".to_string()]);
    let mut s = session(dmids);
    let mut phones = StrSet::new();
    let r = row(&[(LEAD, "D1"), (O1_FIRST, "Ann"), (C1P1, "555-0001")]);
    s.note_row();
    let out = s.process_row(&r, &mut phones);
    assert_eq!(out, RowOutcome::DuplicateLead);
    assert_eq!(s.batch.len(), 0);
    assert!(!phones.contains("555-0001"));
}

#[test]
fn duplicate_lead_within_one_file_is_caught() {
    let mut s = session(StrSet::new());
    let mut phones = StrSet::new();
    let r1 = row(&[(LEAD, "D9"), (O1_FIRST, "Ann"), (C1P1, "555-0001")]);
    let r2 = row(&[(LEAD, "D9"), (O1_FIRST, "Bob"), (C1P1, "555-0002")]);
    assert_eq!(s.process_row(&r1, &mut phones), RowOutcome::Accepted);
    assert_eq!(s.process_row(&r2, &mut phones), RowOutcome::DuplicateLead);
    assert_eq!(s.batch.len(), 1);
}

#[test]
fn empty_lead_is_skipped_without_marking() {
    let mut s = session(StrSet::new());
    let mut phones = StrSet::new();
    let r = row(&[(O1_FIRST, "Ann"), (C1P1, "555-0001")]);
    assert_eq!(s.process_row(&r, &mut phones), RowOutcome::EmptyLead);
    assert_eq!(s.batch.len(), 0);
    assert!(!phones.contains("555-0001"));
}

#[test]
fn lead_is_marked_even_when_a_later_check_skips_the_row() {
    let mut s = session(StrSet::new());
    let mut phones = StrSet::new();
    // no first name from either owner: skipped after the lead was marked
    let r1 = row(&[(LEAD, "D5"), (C1P1, "555-0001")]);
    assert_eq!(s.process_row(&r1, &mut phones), RowOutcome::EmptyFirstName);
    let r2 = row(&[(LEAD, "D5"), (O1_FIRST, "Ann"), (C1P1, "555-0002")]);
    assert_eq!(s.process_row(&r2, &mut phones), RowOutcome::DuplicateLead);
    assert_eq!(s.batch.len(), 0);
}

#[test]
fn owner_two_names_fill_in_for_empty_owner_one() {
    let mut s = session(StrSet::new());
    let mut phones = StrSet::new();
    let r = row(&[
        (LEAD, "D2"),
        (O2_FIRST, "Beth"),
        (O2_LAST, "Stone"),
        (O1_NAME, "Ann Archer"),
        (C1P1, "555-0003"),
    ]);
    assert_eq!(s.process_row(&r, &mut phones), RowOutcome::Accepted);
    let rec = &s.batch[0];
    assert_eq!(rec.address.fname, "Beth");
    assert_eq!(rec.address.lname, "Stone");
    assert_eq!(rec.address.fullname, "Ann Archer");
}

#[test]
fn all_known_phones_skip_the_row() {
    let phones_seed = seed_phone_set(&vec![PhoneRow {
        p1: Some("555-0001".to_string()),
        p2: Some("555-0002".to_string()),
        p3: None,
    }]);
    let mut s = session(StrSet::new());
    let mut phones = phones_seed;
    let r = row(&[
        (LEAD, "D3"),
        (O1_FIRST, "Ann"),
        (C1P1, "555-0001"),
        (C1P2, "555-0002"),
    ]);
    assert_eq!(s.process_row(&r, &mut phones), RowOutcome::KnownPhones);
    assert_eq!(s.batch.len(), 0);
}

#[test]
fn slot_two_novel_phone_is_accepted_into_slot_one() {
    let phones_seed = seed_phone_set(&vec![PhoneRow {
        p1: Some("555-0001".to_string()),
        p2: None,
        p3: None,
    }]);
    let mut s = session(StrSet::new());
    let mut phones = phones_seed;
    let r = row(&[
        (LEAD, "D4"),
        (O1_FIRST, "Ann"),
        (C1P1, "555-0001"),
        (C1P2, "555-0044"),
    ]);
    assert_eq!(s.process_row(&r, &mut phones), RowOutcome::Accepted);
    let ph = s.batch[0].phone.as_ref().expect("phone record expected");
    assert_eq!(ph.phone1.as_deref(), Some("555-0044"));
    assert_eq!(ph.phone2, None);
    assert_eq!(ph.phone3, None);
    assert!(phones.contains("555-0044"));
}

#[test]
fn accepted_phones_are_left_shifted() {
    let mut s = session(StrSet::new());
    let mut phones = StrSet::new();
    let r = row(&[
        (LEAD, "D6"),
        (O1_FIRST, "Ann"),
        (C1P2, "555-1111"),
        (C1P3, "555-2222"),
    ]);
    assert_eq!(s.process_row(&r, &mut phones), RowOutcome::Accepted);
    let ph = s.batch[0].phone.as_ref().expect("phone record expected");
    assert_eq!(ph.phone1.as_deref(), Some("555-1111"));
    assert_eq!(ph.phone2.as_deref(), Some("555-2222"));
    assert_eq!(ph.phone3, None);
}

#[test]
fn contact_two_fills_in_for_blank_contact_one() {
    let mut s = session(StrSet::new());
    let mut phones = StrSet::new();
    let r = row(&[(LEAD, "D7"), (O1_FIRST, "Ann"), (C2P1, " 555-7777 ")]);
    assert_eq!(s.process_row(&r, &mut phones), RowOutcome::Accepted);
    let ph = s.batch[0].phone.as_ref().expect("phone record expected");
    assert_eq!(ph.phone1.as_deref(), Some("555-7777"));
}

#[test]
fn accepted_record_carries_trimmed_fields_and_flags() {
    let mut s = FileSession::new(cols(), 9, 1, 1000, StrSet::new());
    let mut phones = StrSet::new();
    let r = row(&[
        (0, " 12 Main St "),
        (1, "Apt 4"),
        (2, "Springfield"),
        (3, "IL"),
        (4, "62704"),
        (5, "39.78"),
        (6, "-89.65"),
        (O1_FIRST, " Ann "),
        (O1_LAST, "Archer"),
        (O1_NAME, "Ann Archer"),
        (10, "PO Box 9"),
        (11, "Salem"),
        (12, "OR"),
        (13, "97301"),
        (LEAD, " D8 "),
        (C1P1, "555-0008"),
    ]);
    assert_eq!(s.process_row(&r, &mut phones), RowOutcome::Accepted);
    let a = &s.batch[0].address;
    assert_eq!(a.street, "12 Main St");
    assert_eq!(a.unit_type, "");
    assert_eq!(a.unit_num, "Apt 4");
    assert_eq!(a.mail_city, "Springfield");
    assert_eq!(a.state, "IL");
    assert_eq!(a.zip, "62704");
    assert_eq!(a.latitude, "39.78");
    assert_eq!(a.longitude, "-89.65");
    assert_eq!(a.fname, "Ann");
    assert_eq!(a.lname, "Archer");
    assert_eq!(a.fullname, "Ann Archer");
    assert_eq!(a.mailing_address, "PO Box 9");
    assert_eq!(a.mailing_city, "Salem");
    assert_eq!(a.mailing_state, "OR");
    assert_eq!(a.mailing_zip, "97301");
    assert_eq!(a.flag, 9);
    assert_eq!(a.dmid, "D8");
    assert_eq!(a.via, 100);
    assert_eq!(a.map_image_url, "google/img/missing.webp");
}

#[test]
fn zero_skip_ai_routes_via_zero() {
    let mut s = session(StrSet::new());
    let mut phones = StrSet::new();
    let r = row(&[(LEAD, "D10"), (O1_FIRST, "Ann"), (C1P1, "555-0010")]);
    assert_eq!(s.process_row(&r, &mut phones), RowOutcome::Accepted);
    let a = &s.batch[0].address;
    assert_eq!(a.via, 0);
    assert_eq!(a.map_image_url, "0");
}

#[test]
fn short_row_reads_missing_cells_as_empty() {
    let mut s = session(StrSet::new());
    let mut phones = StrSet::new();
    // only the first 15 cells exist: lead present, all phones missing
    let mut r = row(&[(LEAD, "D11"), (O1_FIRST, "Ann")]);
    r.truncate(15);
    assert_eq!(s.process_row(&r, &mut phones), RowOutcome::KnownPhones);
    assert_eq!(s.batch.len(), 0);
}

#[test]
fn batch_flush_cycle_counts_inserted_rows() {
    let mut s = FileSession::new(cols(), 1, 0, 2, StrSet::new());
    let mut phones = StrSet::new();
    for k in 0..3 {
        s.note_row();
        let lead = format!("L{}", k);
        let phone = format!("555-10{}", k);
        let r = row(&[(LEAD, lead.as_str()), (O1_FIRST, "Ann"), (C1P1, phone.as_str())]);
        assert_eq!(s.process_row(&r, &mut phones), RowOutcome::Accepted);
        if s.batch_full() {
            let b = s.take_batch();
            let n = b.len();
            s.note_inserted(n);
        }
    }
    assert_eq!(s.batch.len(), 1);
    let b = s.take_batch();
    let n = b.len();
    s.note_inserted(n);
    assert_eq!(s.inserted, 3);
    assert_eq!(s.rows_read, 3);
    assert_eq!(s.fate(), FileFate::Archive);
}

#[test]
fn three_row_file_with_one_duplicate_and_one_nameless_yields_one_record() {
    let dmids = seed_dmid_set(&vec!["KNOWN".to_string()]);
    let mut s = FileSession::new(cols(), 3, 0, 1000, dmids);
    let mut phones = StrSet::new();
    let r1 = row(&[(LEAD, "KNOWN"), (O1_FIRST, "Ann"), (C1P1, "555-0100")]);
    let r2 = row(&[(LEAD, "NEW-1"), (C1P1, "555-0101")]);
    let r3 = row(&[(LEAD, "NEW-2"), (O1_FIRST, "Cay"), (C1P1, "555-0102")]);
    s.note_row();
    assert_eq!(s.process_row(&r1, &mut phones), RowOutcome::DuplicateLead);
    s.note_row();
    assert_eq!(s.process_row(&r2, &mut phones), RowOutcome::EmptyFirstName);
    s.note_row();
    assert_eq!(s.process_row(&r3, &mut phones), RowOutcome::Accepted);
    assert_eq!(s.batch.len(), 1);
    assert_eq!(s.batch[0].address.dmid, "NEW-2");
    let b = s.take_batch();
    let n = b.len();
    s.note_inserted(n);
    assert_eq!(s.inserted, 1);
    assert_eq!(s.fate(), FileFate::Archive);
}

#[test]
fn rerunning_imported_rows_accepts_nothing() {
    // first run imports two rows
    let mut s1 = session(StrSet::new());
    let mut phones = StrSet::new();
    let r1 = row(&[(LEAD, "A1"), (O1_FIRST, "Ann"), (C1P1, "555-0201")]);
    let r2 = row(&[(LEAD, "A2"), (O1_FIRST, "Bob"), (C1P1, "555-0202")]);
    assert_eq!(s1.process_row(&r1, &mut phones), RowOutcome::Accepted);
    assert_eq!(s1.process_row(&r2, &mut phones), RowOutcome::Accepted);

    // re-run: lead identifiers now seeded, phone set carried over
    let dmids = seed_dmid_set(&vec!["A1".to_string(), "A2".to_string()]);
    let mut s2 = session(dmids);
    s2.note_row();
    assert_eq!(s2.process_row(&r1, &mut phones), RowOutcome::DuplicateLead);
    s2.note_row();
    assert_eq!(s2.process_row(&r2, &mut phones), RowOutcome::DuplicateLead);
    assert_eq!(s2.batch.len(), 0);
    assert_eq!(s2.inserted, 0);
    assert_eq!(s2.fate(), FileFate::Archive);
}

#[test]
fn phone_foreign_keys_follow_batch_positions() {
    let mut s = session(StrSet::new());
    let mut phones = StrSet::new();
    let r1 = row(&[(LEAD, "B1"), (O1_FIRST, "Ann"), (C1P1, "555-0301")]);
    let r2 = row(&[(LEAD, "B2"), (O1_FIRST, "Bob"), (C1P1, "555-0302")]);
    let r3 = row(&[(LEAD, "B3"), (O1_FIRST, "Cay"), (C1P1, "555-0303")]);
    assert_eq!(s.process_row(&r1, &mut phones), RowOutcome::Accepted);
    assert_eq!(s.process_row(&r2, &mut phones), RowOutcome::Accepted);
    assert_eq!(s.process_row(&r3, &mut phones), RowOutcome::Accepted);
    let mut b: Vec<CombinedRecord> = s.take_batch();
    // strip the middle record's phone data: its batch position must still count
    b[1].phone = None;
    let rows = phone_inserts(&b, 100);
    assert_eq!(rows.len(), 2);
    assert_eq!(rows[0].aid, 100);
    assert_eq!(rows[0].phone1.as_deref(), Some("555-0301"));
    assert_eq!(rows[0].step, PHONE_QUEUE_STEP);
    // position in the whole batch, not among phone-bearing records: 102, not 101
    assert_eq!(rows[1].aid, 102);
    assert_eq!(rows[1].phone1.as_deref(), Some("555-0303"));
    assert_eq!(rows[1].step, 11);
}

#[test]
fn value_tuples_repeat_per_record() {
    assert_eq!(sql_value_tuples(0, "(?, ?)"), "");
    assert_eq!(sql_value_tuples(1, "(?, ?)"), "(?, ?)");
    assert_eq!(sql_value_tuples(3, "(?, ?)"), "(?, ?), (?, ?), (?, ?)");
}

#[test]
fn empty_phone_batch_produces_no_rows() {
    let b: Vec<CombinedRecord> = Vec::new();
    assert_eq!(phone_inserts(&b, 1).len(), 0);
}

#[test]
fn retry_is_chosen_only_when_inserts_exceed_rows_read() {
    let mut s = session(StrSet::new());
    s.note_inserted(1);
    assert_eq!(s.fate(), FileFate::Retry);
    s.note_row();
    assert_eq!(s.fate(), FileFate::Archive);
}

#[test]
fn dedup_sets_seed_as_specified() {
    let dmids = seed_dmid_set(&vec![" X ".to_string()]);
    // lead identifiers are seeded verbatim, not trimmed
    assert!(dmids.contains(" X "));
    assert!(!dmids.contains("X"));

    let phones = seed_phone_set(&vec![
        PhoneRow { p1: Some(" 555-1 ".to_string()), p2: Some("  ".to_string()), p3: None },
        PhoneRow { p1: None, p2: None, p3: Some("555-2".to_string()) },
    ]);
    // phone numbers are trimmed and blanks dropped
    assert!(phones.contains("555-1"));
    assert!(!phones.contains(" 555-1 "));
    assert!(!phones.contains(""));
    assert!(phones.contains("555-2"));
}
