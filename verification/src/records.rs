//! The records the pipeline builds: one normalized lead per valid CSV
//! row, with an optional phone-outreach companion.

use vstd::prelude::*;

verus! {

/// One normalized lead, built from a valid CSV row and inserted once as
/// part of a batch, never mutated after insertion.
pub struct AddressRecord {
    pub street: String,
    pub unit_type: String,
    pub unit_num: String,
    pub mail_city: String,
    pub state: String,
    pub zip: String,
    pub latitude: String,
    pub longitude: String,
    pub fullname: String,
    pub fname: String,
    pub lname: String,
    pub mailing_address: String,
    pub mailing_city: String,
    pub mailing_state: String,
    pub mailing_zip: String,
    pub flag: i64,
    pub dmid: String,
    pub via: i64,
    pub map_image_url: String,
}

/// Up to three candidate phone numbers for one lead, packed into the
/// leading slots.
pub struct PhoneQueueRecord {
    pub phone1: Option<String>,
    pub phone2: Option<String>,
    pub phone3: Option<String>,
}

/// A lead together with its optional phone record.  Batches keep these in
/// row order so that phone records stay correlated with their leads.
pub struct CombinedRecord {
    pub address: AddressRecord,
    pub phone: Option<PhoneQueueRecord>,
}

/// View of an optional string as an optional character sequence.
pub open spec fn optv(p: Option<String>) -> Option<Seq<char>> {
    match p {
        Some(s) => Some(s@),
        None => None,
    }
}

} // verus!
