//! Filename metadata extraction.  A processable file is named
//! `<digits>_skipAI_<digits>_<original-name>.csv`: the first digit group
//! is an unused timestamp token, the second is the skip-AI flag, and the
//! remainder (its own `.csv` suffix stripped) names the campaign.  A
//! non-matching name is not an error: the file is relocated to the
//! processed area untouched.

use vstd::prelude::*;
use crate::strutil::is_digit;
use crate::strutil::all_digits;
use crate::strutil::skip_ai_val;
use crate::strutil::parse_skip_ai;
use crate::strutil::str_eq;

verus! {

/// The literal marker between the two digit groups.
pub open spec fn marker() -> Seq<char> {
    "_skipAI_"@
}

/// The suffix every processable file name carries.
pub open spec fn csv_suffix() -> Seq<char> {
    ".csv"@
}

/// First position at or after `from` that does not hold a decimal digit,
/// or the end of the sequence.
pub open spec fn digit_run_end(s: Seq<char>, from: int) -> int
    recommends
        0 <= from <= s.len(),
    decreases s.len() - from,
        when from <= s.len()
{
    if from < s.len() && is_digit(s[from]) {
        digit_run_end(s, from + 1)
    } else {
        from
    }
}

pub proof fn lemma_digit_run_end(s: Seq<char>, from: int)
    requires
        0 <= from <= s.len(),
    ensures
        from <= digit_run_end(s, from) <= s.len(),
        forall|k: int| from <= k < digit_run_end(s, from) ==> is_digit(s[k]),
        digit_run_end(s, from) < s.len() ==> !is_digit(s[digit_run_end(s, from)]),
    decreases s.len() - from,
{
    if from < s.len() && is_digit(s[from]) {
        lemma_digit_run_end(s, from + 1);
    }
}

/// End of the leading timestamp digit group.
pub open spec fn d1_end(s: Seq<char>) -> int {
    digit_run_end(s, 0)
}

/// End of the skip-AI digit group, which starts right after the marker.
pub open spec fn d2_end(s: Seq<char>) -> int {
    digit_run_end(s, d1_end(s) + 8)
}

/// Whether a file name matches the processable pattern: a non-empty
/// digit group, the marker, a non-empty digit group, an underscore, and
/// an original name of at least one character ending in `.csv`.
pub open spec fn filename_ok(s: Seq<char>) -> bool {
    let a = d1_end(s);
    a > 0 && a + 8 <= s.len() && s.subrange(a, a + 8) == marker() && {
        let b = d2_end(s);
        b > a + 8 && b < s.len() && s[b] == '_' && s.len() >= b + 6 && s.subrange(
            s.len() - 4,
            s.len() as int,
        ) == csv_suffix()
    }
}

/// The skip-AI digit group of a matching name.
pub open spec fn skip_digits_of(s: Seq<char>) -> Seq<char> {
    s.subrange(d1_end(s) + 8, d2_end(s))
}

/// The embedded original file name of a matching name.
pub open spec fn original_of(s: Seq<char>) -> Seq<char> {
    s.subrange(d2_end(s) + 1, s.len() as int)
}

/// The campaign name a matching file feeds: the original name with its
/// `.csv` suffix stripped.
pub open spec fn campaign_of(s: Seq<char>) -> Seq<char> {
    s.subrange(d2_end(s) + 1, s.len() - 4)
}

/// The skip-AI flag of a matching name, 0 where its digits overflow a
/// signed 64-bit integer.
pub open spec fn file_skip_ai(s: Seq<char>) -> int {
    skip_ai_val(skip_digits_of(s))
}

/// The metadata a file's name encodes.
pub struct FileMeta {
    pub skip_ai: i64,
    pub original: String,
    pub campaign: String,
}

fn digit_run_scan(s: &str, from: usize) -> (e: usize)
    requires
        from as int <= s@.len(),
    ensures
        e as int == digit_run_end(s@, from as int),
        from <= e,
        e as int <= s@.len(),
{
    let n = s.unicode_len();
    let mut i: usize = from;
    loop
        invariant
            n == s@.len(),
            from <= i <= n,
            digit_run_end(s@, from as int) == digit_run_end(s@, i as int),
        ensures
            i <= n,
            digit_run_end(s@, from as int) == i,
        decreases n - i,
    {
        if i == n {
            break;
        }
        let u = s.get_char(i) as u32;
        if u < 48 || u > 57 {
            proof {
                assert(!is_digit(s@[i as int]));
            }
            break;
        }
        i = i + 1;
    }
    i
}

/// Extracts the metadata a file's name encodes, or nothing where the name
/// does not match the pattern.
pub fn parse_filename(name: &str) -> (r: Option<FileMeta>)
    ensures
        r is Some <==> filename_ok(name@),
        r is Some ==> r.unwrap().skip_ai as int == file_skip_ai(name@),
        r is Some ==> r.unwrap().original@ == original_of(name@),
        r is Some ==> r.unwrap().campaign@ == campaign_of(name@),
{
    let n = name.unicode_len();
    let a = digit_run_scan(name, 0);
    if a == 0 {
        return None;
    }
    if n - a < 8 {
        return None;
    }
    let m = name.substring_char(a, a + 8);
    if !str_eq(m, "_skipAI_") {
        return None;
    }
    let b = digit_run_scan(name, a + 8);
    if b == a + 8 {
        return None;
    }
    if b == n {
        return None;
    }
    if name.get_char(b) != '_' {
        return None;
    }
    if n - b < 6 {
        return None;
    }
    let suffix = name.substring_char(n - 4, n);
    if !str_eq(suffix, ".csv") {
        return None;
    }
    let digits = name.substring_char(a + 8, b);
    proof {
        lemma_digit_run_end(name@, a as int + 8);
        assert(all_digits(digits@));
    }
    let skip_ai = parse_skip_ai(digits);
    let original = name.substring_char(b + 1, n).to_owned();
    let campaign = name.substring_char(b + 1, n - 4).to_owned();
    Some(FileMeta { skip_ai, original, campaign })
}

} // verus!
