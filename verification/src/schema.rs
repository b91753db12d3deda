//! Header schema validation: the fixed set of required columns and the
//! index each one has in a validated header.

use vstd::prelude::*;
use crate::strutil::trimmed;
use crate::strutil::trim;
use crate::strutil::str_eq;

verus! {

/// How many columns the schema requires.
pub const REQUIRED_COLS: usize = 24;

/// Positions of the required columns in a `ColumnIndex`, in the order the
/// schema lists them.
pub const COL_STREET: usize = 0;
pub const COL_UNIT_NUM: usize = 1;
pub const COL_CITY: usize = 2;
pub const COL_STATE: usize = 3;
pub const COL_ZIP: usize = 4;
pub const COL_LAT: usize = 5;
pub const COL_LNG: usize = 6;
pub const COL_OWNER1_FIRST: usize = 7;
pub const COL_OWNER1_LAST: usize = 8;
pub const COL_OWNER1_NAME: usize = 9;
pub const COL_MAIL_ADDRESS: usize = 10;
pub const COL_MAIL_CITY: usize = 11;
pub const COL_MAIL_STATE: usize = 12;
pub const COL_MAIL_ZIP: usize = 13;
pub const COL_LEAD_ID: usize = 14;
pub const COL_OWNER2_FIRST: usize = 15;
pub const COL_OWNER2_LAST: usize = 16;
pub const COL_OWNER2_NAME: usize = 17;
pub const COL_C1_PHONE1: usize = 18;
pub const COL_C1_PHONE2: usize = 19;
pub const COL_C1_PHONE3: usize = 20;
pub const COL_C2_PHONE1: usize = 21;
pub const COL_C2_PHONE2: usize = 22;
pub const COL_C2_PHONE3: usize = 23;

/// Name of the k-th required column.
pub open spec fn required_name_spec(k: int) -> Seq<char> {
    if k == 0 {
        "property_address_line_1"@
    } else if k == 1 {
        "property_address_line_2"@
    } else if k == 2 {
        "property_address_city"@
    } else if k == 3 {
        "property_address_state"@
    } else if k == 4 {
        "property_address_zipcode"@
    } else if k == 5 {
        "property_lat"@
    } else if k == 6 {
        "property_lng"@
    } else if k == 7 {
        "owner_1_firstname"@
    } else if k == 8 {
        "owner_1_lastname"@
    } else if k == 9 {
        "owner_1_name"@
    } else if k == 10 {
        "owner_address_line_1"@
    } else if k == 11 {
        "owner_address_city"@
    } else if k == 12 {
        "owner_address_state"@
    } else if k == 13 {
        "owner_address_zip"@
    } else if k == 14 {
        "lead_id"@
    } else if k == 15 {
        "owner_2_firstname"@
    } else if k == 16 {
        "owner_2_lastname"@
    } else if k == 17 {
        "owner_2_name"@
    } else if k == 18 {
        "contact_1_phone1"@
    } else if k == 19 {
        "contact_1_phone2"@
    } else if k == 20 {
        "contact_1_phone3"@
    } else if k == 21 {
        "contact_2_phone1"@
    } else if k == 22 {
        "contact_2_phone2"@
    } else {
        "contact_2_phone3"@
    }
}

/// Name of the k-th required column, for messages and lookups.
pub fn required_name(k: usize) -> (r: &'static str)
    requires
        k < 24,
    ensures
        r@ == required_name_spec(k as int),
{
    match k {
        0 => "property_address_line_1",
        1 => "property_address_line_2",
        2 => "property_address_city",
        3 => "property_address_state",
        4 => "property_address_zipcode",
        5 => "property_lat",
        6 => "property_lng",
        7 => "owner_1_firstname",
        8 => "owner_1_lastname",
        9 => "owner_1_name",
        10 => "owner_address_line_1",
        11 => "owner_address_city",
        12 => "owner_address_state",
        13 => "owner_address_zip",
        14 => "lead_id",
        15 => "owner_2_firstname",
        16 => "owner_2_lastname",
        17 => "owner_2_name",
        18 => "contact_1_phone1",
        19 => "contact_1_phone2",
        20 => "contact_1_phone3",
        21 => "contact_2_phone1",
        22 => "contact_2_phone2",
        _ => "contact_2_phone3",
    }
}

/// Index of a named column in a header: the last header cell whose
/// trimmed text equals the name, or -1 where none does.  The last match
/// wins because a later duplicate header cell overrides an earlier one in
/// the header lookup the pipeline builds.
pub open spec fn col_of(header: Seq<String>, name: Seq<char>) -> int
    decreases header.len(),
{
    if header.len() == 0 {
        -1
    } else if trimmed(header.last()@) == name {
        header.len() - 1
    } else {
        col_of(header.drop_last(), name)
    }
}

/// Finds a named column in the header: the last cell whose trimmed text
/// equals the name.
pub fn find_col(header: &Vec<String>, name: &str) -> (r: Option<usize>)
    ensures
        match r {
            Some(i) => i as int == col_of(header@, name@),
            None => col_of(header@, name@) == -1,
        },
{
    let mut i: usize = header.len();
    proof {
        assert(header@.take(i as int) =~= header@);
    }
    while i > 0
        invariant
            i <= header@.len(),
            col_of(header@, name@) == col_of(header@.take(i as int), name@),
        decreases i,
    {
        let t = trim(header[i - 1].as_str());
        proof {
            assert(header@.take(i as int).last() == header@[i - 1]);
            assert(header@.take(i as int).drop_last() =~= header@.take(i as int - 1));
        }
        if str_eq(t.as_str(), name) {
            return Some(i - 1);
        }
        i = i - 1;
    }
    None
}

/// The indices of the 24 required columns in a validated header, in
/// schema order.
#[derive(Debug)]
pub struct ColumnIndex {
    pub idx: Vec<usize>,
}

impl ColumnIndex {
    /// A column index is whole when it holds one position per required
    /// column.
    pub open spec fn wf(&self) -> bool {
        self.idx@.len() == 24
    }
}

/// The required column names missing from a header, in schema order,
/// considering the first k names.
pub open spec fn missing_upto(header: Seq<String>, k: int) -> Seq<Seq<char>>
    decreases k,
{
    if k <= 0 {
        Seq::empty()
    } else {
        missing_upto(header, k - 1) + (if col_of(header, required_name_spec(k - 1)) == -1 {
            seq![required_name_spec(k - 1)]
        } else {
            Seq::<Seq<char>>::empty()
        })
    }
}

/// Checks that every required column is present in the header (trimmed,
/// order-independent).  On success, the position of each; on failure, the
/// names of the missing columns, in schema order.  A file failing this
/// check is relocated without import and never retried.
pub fn validate_header(header: &Vec<String>) -> (r: Result<ColumnIndex, Vec<String>>)
    ensures
        match r {
            Ok(cols) => {
                &&& cols.wf()
                &&& missing_upto(header@, 24) == Seq::<Seq<char>>::empty()
                &&& forall|k: int|
                    0 <= k < 24 ==> #[trigger] col_of(header@, required_name_spec(k)) >= 0
                &&& forall|k: int|
                    0 <= k < 24 ==> cols.idx@[k] as int == col_of(
                        header@,
                        required_name_spec(k),
                    )
            },
            Err(missing) => {
                &&& missing@.map_values(|s: String| s@) == missing_upto(header@, 24)
                &&& missing@.len() > 0
                &&& exists|k: int|
                    0 <= k < 24 && #[trigger] col_of(header@, required_name_spec(k)) == -1
            },
        },
{
    let mut idx: Vec<usize> = Vec::new();
    let mut missing: Vec<String> = Vec::new();
    let mut k: usize = 0;
    while k < REQUIRED_COLS
        invariant
            k <= 24,
            idx@.len() == k,
            missing@.map_values(|s: String| s@) == missing_upto(header@, k as int),
            forall|j: int|
                0 <= j < k && missing@.len() == 0 ==> #[trigger] col_of(
                    header@,
                    required_name_spec(j),
                ) >= 0,
            forall|j: int|
                0 <= j < k && col_of(header@, required_name_spec(j)) >= 0 ==> idx@[j] as int
                    == col_of(header@, required_name_spec(j)),
            missing@.len() > 0 ==> exists|j: int|
                0 <= j < k && #[trigger] col_of(header@, required_name_spec(j)) == -1,
        decreases 24 - k,
    {
        let name = required_name(k);
        let ghost before = missing@;
        match find_col(header, name) {
            Some(i) => {
                idx.push(i);
            },
            None => {
                idx.push(0);
                missing.push(name.to_owned());
            },
        }
        proof {
            assert(missing@.map_values(|s: String| s@) =~= missing_upto(header@, k as int + 1));
        }
        k = k + 1;
    }
    if missing.len() == 0 {
        Ok(ColumnIndex { idx })
    } else {
        Err(missing)
    }
}

} // verus!
