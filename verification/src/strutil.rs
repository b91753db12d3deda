//! String groundwork for the pipeline: whitespace trimming of field
//! values, decimal digit runs, and unsigned decimal parsing.

use vstd::prelude::*;

verus! {

/// Whitespace stripped from the ends of a field value.
pub open spec fn is_space(c: char) -> bool {
    c == ' ' || c == '\t' || c == '\n' || c == '\r'
}

/// The sequence with its leading whitespace removed.
pub open spec fn trim_front(s: Seq<char>) -> Seq<char>
    decreases s.len(),
{
    if s.len() > 0 && is_space(s[0]) {
        trim_front(s.drop_first())
    } else {
        s
    }
}

/// The sequence with its trailing whitespace removed.
pub open spec fn trim_back(s: Seq<char>) -> Seq<char>
    decreases s.len(),
{
    if s.len() > 0 && is_space(s.last()) {
        trim_back(s.drop_last())
    } else {
        s
    }
}

/// A field value as the pipeline reads it: whitespace removed from both
/// ends.
pub open spec fn trimmed(s: Seq<char>) -> Seq<char> {
    trim_back(trim_front(s))
}

proof fn lemma_trim_front_run(s: Seq<char>, i: int)
    requires
        0 <= i <= s.len(),
        forall|k: int| 0 <= k < i ==> is_space(s[k]),
        i == s.len() || !is_space(s[i]),
    ensures
        trim_front(s) == s.subrange(i, s.len() as int),
    decreases i,
{
    if i == 0 {
        assert(s.subrange(0, s.len() as int) =~= s);
    } else {
        let t = s.drop_first();
        assert(forall|k: int| 0 <= k < i - 1 ==> is_space(t[k]));
        lemma_trim_front_run(t, i - 1);
        assert(t.subrange(i - 1, t.len() as int) =~= s.subrange(i, s.len() as int));
    }
}

proof fn lemma_trim_back_run(s: Seq<char>, j: int)
    requires
        0 <= j <= s.len(),
        forall|k: int| j <= k < s.len() ==> is_space(s[k]),
        j == 0 || !is_space(s[j - 1]),
    ensures
        trim_back(s) == s.subrange(0, j),
    decreases s.len() - j,
{
    if j == s.len() {
        assert(s.subrange(0, j) =~= s);
    } else {
        let t = s.drop_last();
        assert(is_space(s.last()));
        assert(forall|k: int| j <= k < t.len() ==> is_space(t[k]));
        lemma_trim_back_run(t, j);
        assert(t.subrange(0, j) =~= s.subrange(0, j));
    }
}

/// Whether two string slices hold the same characters.
pub fn str_eq(a: &str, b: &str) -> (r: bool)
    ensures
        r == (a@ == b@),
{
    let sa = a.to_owned();
    let sb = b.to_owned();
    sa == sb
}

fn space_char(c: char) -> (b: bool)
    ensures
        b == is_space(c),
{
    c == ' ' || c == '\t' || c == '\n' || c == '\r'
}

/// Removes whitespace from both ends of a string, the normalization every
/// field value goes through before any rule looks at it.
pub fn trim(s: &str) -> (r: String)
    ensures
        r@ == trimmed(s@),
{
    let n = s.unicode_len();
    let mut i: usize = 0;
    loop
        invariant
            n == s@.len(),
            i <= n,
            forall|k: int| 0 <= k < i ==> is_space(s@[k]),
        ensures
            i <= n,
            forall|k: int| 0 <= k < i ==> is_space(s@[k]),
            i == n || !is_space(s@[i as int]),
        decreases n - i,
    {
        if i == n {
            break;
        }
        if !space_char(s.get_char(i)) {
            break;
        }
        i = i + 1;
    }
    let mut j: usize = n;
    loop
        invariant
            n == s@.len(),
            i <= j <= n,
            forall|k: int| j <= k < n ==> is_space(s@[k]),
        ensures
            i <= j <= n,
            forall|k: int| j <= k < n ==> is_space(s@[k]),
            j == i || !is_space(s@[j - 1]),
        decreases j,
    {
        if j == i {
            break;
        }
        if !space_char(s.get_char(j - 1)) {
            break;
        }
        j = j - 1;
    }
    let t = s.substring_char(i, j);
    proof {
        lemma_trim_front_run(s@, i as int);
        let m = s@.subrange(i as int, s@.len() as int);
        assert(forall|k: int| j - i <= k < m.len() ==> is_space(m[k]));
        lemma_trim_back_run(m, j - i);
        assert(m.subrange(0, j - i) =~= s@.subrange(i as int, j as int));
    }
    t.to_owned()
}

/// A decimal digit.
pub open spec fn is_digit(c: char) -> bool {
    48 <= c as int && c as int <= 57
}

/// Whether a sequence consists of decimal digits only.
pub open spec fn all_digits(s: Seq<char>) -> bool {
    forall|k: int| 0 <= k < s.len() ==> is_digit(#[trigger] s[k])
}

/// Numeric value of a digit run, most significant digit first.
pub open spec fn digits_val(s: Seq<char>) -> int
    decreases s.len(),
{
    if s.len() == 0 {
        0
    } else {
        digits_val(s.drop_last()) * 10 + (s.last() as int - 48)
    }
}

pub proof fn lemma_digits_val_nonneg(s: Seq<char>)
    requires
        all_digits(s),
    ensures
        digits_val(s) >= 0,
    decreases s.len(),
{
    if s.len() > 0 {
        lemma_digits_val_nonneg(s.drop_last());
    }
}

/// Extending a digit run to the right never lowers its value.
pub proof fn lemma_digits_val_prefix_le(s: Seq<char>, k: int)
    requires
        all_digits(s),
        0 <= k <= s.len(),
    ensures
        digits_val(s.take(k)) <= digits_val(s),
    decreases s.len() - k,
{
    if k < s.len() {
        assert(s.take(k + 1).drop_last() =~= s.take(k));
        assert(all_digits(s.take(k)));
        lemma_digits_val_nonneg(s.take(k));
        assert(digits_val(s.take(k + 1)) == digits_val(s.take(k)) * 10 + (s[k] as int - 48));
        lemma_digits_val_prefix_le(s, k + 1);
    } else {
        assert(s.take(k) =~= s);
    }
}

/// Value of the skip-AI digit group once it has been parsed as a signed
/// 64-bit integer: the digits' numeric value where it fits, 0 where the
/// parse overflows.
pub open spec fn skip_ai_val(d: Seq<char>) -> int {
    if digits_val(d) <= i64::MAX {
        digits_val(d)
    } else {
        0
    }
}

/// Parses the skip-AI digit group of a filename.  A value too large for a
/// signed 64-bit integer falls back to 0 rather than failing the file.
pub fn parse_skip_ai(s: &str) -> (r: i64)
    requires
        all_digits(s@),
    ensures
        r as int == skip_ai_val(s@),
{
    let n = s.unicode_len();
    let mut acc: u64 = 0;
    let mut k: usize = 0;
    while k < n
        invariant
            n == s@.len(),
            all_digits(s@),
            k <= n,
            acc as int == digits_val(s@.take(k as int)),
            acc as int <= i64::MAX,
        decreases n - k,
    {
        let c = s.get_char(k);
        proof {
            assert(is_digit(s@[k as int]));
        }
        let d: u64 = (c as u32 - 48) as u64;
        let limit: u64 = (0x7fff_ffff_ffff_ffffu64 - d) / 10;
        proof {
            vstd::arithmetic::div_mod::lemma_fundamental_div_mod(
                0x7fff_ffff_ffff_ffff - d as int,
                10,
            );
            assert(s@.take(k as int + 1).drop_last() =~= s@.take(k as int));
        }
        if acc > limit {
            proof {
                assert(digits_val(s@.take(k as int + 1)) > i64::MAX);
                lemma_digits_val_prefix_le(s@, k as int + 1);
                assert(s@.take(n as int) =~= s@);
            }
            return 0;
        }
        acc = acc * 10 + d;
        k = k + 1;
    }
    proof {
        assert(s@.take(n as int) =~= s@);
    }
    acc as i64
}

/// Digit part of an unsigned decimal string: std's unsigned parsing
/// allows one leading '+' sign.
pub open spec fn uint_digits(s: Seq<char>) -> Seq<char> {
    if s.len() > 0 && s[0] == '+' {
        s.drop_first()
    } else {
        s
    }
}

/// Whether a string is a well-formed unsigned decimal integer.
pub open spec fn is_uint_string(s: Seq<char>) -> bool {
    uint_digits(s).len() > 0 && all_digits(uint_digits(s))
}

/// Parses an unsigned decimal string, as std does for `u64`: an optional
/// '+' sign, one or more digits, and a value that fits.
pub fn parse_u64(s: &str) -> (r: Option<u64>)
    ensures
        r is Some <==> is_uint_string(s@) && digits_val(uint_digits(s@)) <= u64::MAX,
        r is Some ==> r.unwrap() as int == digits_val(uint_digits(s@)),
{
    let n = s.unicode_len();
    let start: usize = if n > 0 && s.get_char(0) == '+' {
        1
    } else {
        0
    };
    let ghost d = uint_digits(s@);
    proof {
        assert(d =~= s@.subrange(start as int, n as int));
    }
    if start == n {
        return None;
    }
    let mut acc: u64 = 0;
    let mut k: usize = start;
    while k < n
        invariant
            n == s@.len(),
            start <= k <= n,
            d == uint_digits(s@),
            d == s@.subrange(start as int, n as int),
            all_digits(d.take(k - start)),
            acc as int == digits_val(d.take(k - start)),
        decreases n - k,
    {
        let c = s.get_char(k);
        let u = c as u32;
        proof {
            assert(d[k - start] == s@[k as int]);
            assert(d.take(k - start + 1).drop_last() =~= d.take(k - start));
        }
        if u < 48 || u > 57 {
            proof {
                assert(!is_digit(d[k - start]));
            }
            return None;
        }
        let dv: u64 = (u - 48) as u64;
        let limit: u64 = (u64::MAX - dv) / 10;
        proof {
            vstd::arithmetic::div_mod::lemma_fundamental_div_mod(
                u64::MAX - dv as int,
                10,
            );
        }
        if acc > limit {
            proof {
                assert(digits_val(d.take(k - start + 1)) > u64::MAX);
                if all_digits(d) {
                    lemma_digits_val_prefix_le(d, k - start + 1);
                }
            }
            return None;
        }
        acc = acc * 10 + dv;
        k = k + 1;
    }
    proof {
        assert(d.take(n - start) =~= d);
    }
    Some(acc)
}

/// Parses an unsigned decimal string into a `usize`, as std does.
pub fn parse_usize(s: &str) -> (r: Option<usize>)
    ensures
        r is Some <==> is_uint_string(s@) && digits_val(uint_digits(s@)) <= usize::MAX,
        r is Some ==> r.unwrap() as int == digits_val(uint_digits(s@)),
{
    match parse_u64(s) {
        Some(v) => {
            if v <= usize::MAX as u64 {
                Some(v as usize)
            } else {
                None
            }
        },
        None => {
            proof {
                if is_uint_string(s@) && digits_val(uint_digits(s@)) <= usize::MAX {
                    assert(digits_val(uint_digits(s@)) <= u64::MAX);
                }
            }
            None
        },
    }
}

} // verus!
