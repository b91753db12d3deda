//! Row extraction: how a raw CSV row is read through the validated
//! column index, with the owner-1-then-owner-2 fallback rules.

use vstd::prelude::*;
use crate::strutil::trimmed;
use crate::strutil::trim;
use crate::records::optv;
use crate::schema::COL_STREET;
use crate::schema::COL_UNIT_NUM;
use crate::schema::COL_CITY;
use crate::schema::COL_STATE;
use crate::schema::COL_ZIP;
use crate::schema::COL_LAT;
use crate::schema::COL_LNG;
use crate::schema::COL_OWNER1_FIRST;
use crate::schema::COL_OWNER1_LAST;
use crate::schema::COL_OWNER1_NAME;
use crate::schema::COL_MAIL_ADDRESS;
use crate::schema::COL_MAIL_CITY;
use crate::schema::COL_MAIL_STATE;
use crate::schema::COL_MAIL_ZIP;
use crate::schema::COL_LEAD_ID;
use crate::schema::COL_OWNER2_FIRST;
use crate::schema::COL_OWNER2_LAST;
use crate::schema::COL_OWNER2_NAME;
use crate::schema::COL_C1_PHONE1;
use crate::schema::COL_C1_PHONE2;
use crate::schema::COL_C1_PHONE3;
use crate::schema::COL_C2_PHONE1;
use crate::schema::COL_C2_PHONE2;
use crate::schema::COL_C2_PHONE3;

verus! {

/// The value of a row's cell at a column position: trimmed, and empty
/// where the row is shorter than the position.
pub open spec fn fieldv(row: Seq<String>, i: int) -> Seq<char> {
    if 0 <= i < row.len() {
        trimmed(row[i]@)
    } else {
        Seq::empty()
    }
}

/// The value of the k-th required column of a row, read through the
/// column index `ix`.
pub open spec fn colv(ix: Seq<usize>, row: Seq<String>, k: int) -> Seq<char> {
    fieldv(row, ix[k] as int)
}

/// Owner fallback: the first value where it is non-empty, else the
/// second.
pub open spec fn fb(a: Seq<char>, b: Seq<char>) -> Seq<char> {
    if a.len() > 0 {
        a
    } else {
        b
    }
}

/// The row's lead identifier.
pub open spec fn lead_of(ix: Seq<usize>, row: Seq<String>) -> Seq<char> {
    colv(ix, row, COL_LEAD_ID as int)
}

/// The row's first name: owner 1's, falling back to owner 2's.
pub open spec fn first_name_of(ix: Seq<usize>, row: Seq<String>) -> Seq<char> {
    fb(colv(ix, row, COL_OWNER1_FIRST as int), colv(ix, row, COL_OWNER2_FIRST as int))
}

/// The row's last name: owner 1's, falling back to owner 2's.
pub open spec fn last_name_of(ix: Seq<usize>, row: Seq<String>) -> Seq<char> {
    fb(colv(ix, row, COL_OWNER1_LAST as int), colv(ix, row, COL_OWNER2_LAST as int))
}

/// The row's full name: owner 1's, falling back to owner 2's.
pub open spec fn full_name_of(ix: Seq<usize>, row: Seq<String>) -> Seq<char> {
    fb(colv(ix, row, COL_OWNER1_NAME as int), colv(ix, row, COL_OWNER2_NAME as int))
}

/// A phone candidate from a pair of row positions: contact 1's value
/// where non-empty, else contact 2's where non-empty, else absent.
pub open spec fn cand_at(row: Seq<String>, a: int, b: int) -> Option<Seq<char>> {
    if fieldv(row, a).len() > 0 {
        Some(fieldv(row, a))
    } else if fieldv(row, b).len() > 0 {
        Some(fieldv(row, b))
    } else {
        None
    }
}

/// The slot-1 phone candidate of a row.
pub open spec fn cand1(ix: Seq<usize>, row: Seq<String>) -> Option<Seq<char>> {
    cand_at(row, ix[COL_C1_PHONE1 as int] as int, ix[COL_C2_PHONE1 as int] as int)
}

/// The slot-2 phone candidate of a row.
pub open spec fn cand2(ix: Seq<usize>, row: Seq<String>) -> Option<Seq<char>> {
    cand_at(row, ix[COL_C1_PHONE2 as int] as int, ix[COL_C2_PHONE2 as int] as int)
}

/// The slot-3 phone candidate of a row.
pub open spec fn cand3(ix: Seq<usize>, row: Seq<String>) -> Option<Seq<char>> {
    cand_at(row, ix[COL_C1_PHONE3 as int] as int, ix[COL_C2_PHONE3 as int] as int)
}

/// What a candidate contributes to the accepted list: itself where it is
/// present and not yet in the global phone set, nothing otherwise.
pub open spec fn novel_of(c: Option<Seq<char>>, phones: Set<Seq<char>>) -> Seq<Seq<char>> {
    match c {
        Some(p) => if !phones.contains(p) {
            seq![p]
        } else {
            Seq::empty()
        },
        None => Seq::empty(),
    }
}

/// The row's surviving phone candidates, in slot order, left-shifted:
/// exactly the present candidates not already in the global phone set.
pub open spec fn novel_phones(ix: Seq<usize>, row: Seq<String>, phones: Set<Seq<char>>) -> Seq<
    Seq<char>,
> {
    novel_of(cand1(ix, row), phones) + novel_of(cand2(ix, row), phones) + novel_of(
        cand3(ix, row),
        phones,
    )
}

/// The routing indicator every row of a file gets: 100 where the file's
/// skip-AI flag is set, 0 otherwise.
pub open spec fn via_of(skip_ai: i64) -> int {
    if skip_ai != 0 {
        100
    } else {
        0
    }
}

/// The image-URL placeholder every row of a file gets: a fixed path where
/// the skip-AI flag is set, the literal "0" otherwise.
pub open spec fn url_of(skip_ai: i64) -> Seq<char> {
    if skip_ai != 0 {
        "google/img/missing.webp"@
    } else {
        "0"@
    }
}

/// Reads one cell of a row, trimmed; empty where the row is short.
pub fn field(row: &Vec<String>, i: usize) -> (r: String)
    ensures
        r@ == fieldv(row@, i as int),
{
    if i < row.len() {
        trim(row[i].as_str())
    } else {
        String::new()
    }
}

/// Reads a cell with owner fallback: the first position's value where it
/// is non-empty, else the second's.
pub fn fb_field(row: &Vec<String>, a: usize, b: usize) -> (r: String)
    ensures
        r@ == fb(fieldv(row@, a as int), fieldv(row@, b as int)),
{
    let x = field(row, a);
    if !x.as_str().is_empty() {
        x
    } else {
        field(row, b)
    }
}

/// Reads a phone candidate from its contact-1 and contact-2 positions.
pub fn cand_field(row: &Vec<String>, a: usize, b: usize) -> (r: Option<String>)
    ensures
        optv(r) == cand_at(row@, a as int, b as int),
{
    let x = field(row, a);
    if !x.as_str().is_empty() {
        return Some(x);
    }
    let y = field(row, b);
    if !y.as_str().is_empty() {
        return Some(y);
    }
    None
}

/// The routing indicator, as a value.
pub fn via_value(skip_ai: i64) -> (r: i64)
    ensures
        r as int == via_of(skip_ai),
{
    if skip_ai != 0 {
        100
    } else {
        0
    }
}

/// The image-URL placeholder, as a value.
pub fn map_url(skip_ai: i64) -> (r: String)
    ensures
        r@ == url_of(skip_ai),
{
    if skip_ai != 0 {
        "google/img/missing.webp".to_owned()
    } else {
        "0".to_owned()
    }
}

} // verus!
