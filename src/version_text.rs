//! Reading API versions from their text.

use vstd::prelude::*;

use crate::error::{Error, ErrorKind};
use crate::version::ApiVersion;

verus! {

pub open spec fn is_digit(c: char) -> bool {
    '0' <= c && c <= '9'
}

/// A non-empty run of decimal digits.
pub open spec fn is_number(s: Seq<char>) -> bool {
    s.len() > 0 && forall|i: int| 0 <= i < s.len() ==> is_digit(#[trigger] s[i])
}

/// The value of a run of decimal digits.
pub open spec fn digits_value(s: Seq<char>) -> nat
    decreases s.len(),
{
    if s.len() == 0 {
        0
    } else {
        digits_value(s.drop_last()) * 10 + ((s.last() as u32) - 48) as nat
    }
}

/// `s` is the text `major.minor` of version `v`, both parts in decimal.
pub open spec fn is_version_text(s: Seq<char>, v: ApiVersion) -> bool {
    exists|d: int|
        0 <= d < s.len() && s[d] == '.' && is_number(#[trigger] s.subrange(0, d)) && is_number(
            s.subrange(d + 1, s.len() as int),
        ) && digits_value(s.subrange(0, d)) == v.0 && digits_value(s.subrange(d + 1, s.len() as int))
            == v.1
}

proof fn lemma_prefix_value_bounded(s: Seq<char>, i: int)
    requires
        0 <= i <= s.len(),
        forall|k: int| 0 <= k < s.len() ==> is_digit(#[trigger] s[k]),
    ensures
        digits_value(s.subrange(0, i)) <= digits_value(s),
    decreases s.len(),
{
    if i < s.len() {
        assert(s.drop_last() =~= s.subrange(0, s.len() - 1));
        assert(s.subrange(0, i) =~= s.drop_last().subrange(0, i));
        lemma_prefix_value_bounded(s.drop_last(), i);
    } else {
        assert(s.subrange(0, i) =~= s);
    }
}

/// Read the decimal number in `s[from..to]`, if it is one and fits in 16 bits.
fn parse_number(s: &str, from: usize, to: usize) -> (r: Option<u16>)
    requires
        from <= to <= s@.len(),
    ensures
        r matches Some(n) ==> is_number(s@.subrange(from as int, to as int)) && digits_value(
            s@.subrange(from as int, to as int),
        ) == n,
        r is None ==> !is_number(s@.subrange(from as int, to as int)) || digits_value(
            s@.subrange(from as int, to as int),
        ) > 65535,
{
    if from == to {
        return None;
    }
    let ghost whole = s@.subrange(from as int, to as int);
    let mut value: u32 = 0;
    let mut i: usize = from;
    while i < to
        invariant
            from <= i <= to,
            to <= s@.len(),
            whole == s@.subrange(from as int, to as int),
            forall|k: int| from <= k < i ==> is_digit(#[trigger] s@[k]),
            value == digits_value(s@.subrange(from as int, i as int)),
            value <= 65535,
        decreases to - i,
    {
        let c = s.get_char(i);
        if !('0' <= c && c <= '9') {
            assert(!is_digit(whole[i - from]));
            return None;
        }
        let ghost prefix = s@.subrange(from as int, i as int + 1);
        assert(prefix.drop_last() =~= s@.subrange(from as int, i as int));
        let next = value * 10 + (c as u32 - 48);
        if next > 65535 {
            proof {
                if is_number(whole) {
                    assert(prefix =~= whole.subrange(0, i - from + 1));
                    lemma_prefix_value_bounded(whole, i - from + 1);
                }
            }
            return None;
        }
        value = next;
        i = i + 1;
    }
    assert(is_number(whole)) by {
        assert forall|k: int| 0 <= k < whole.len() implies is_digit(#[trigger] whole[k]) by {
            assert(whole[k] == s@[from + k]);
        }
    }
    Some(value as u16)
}

/// The position of the first dot, if any.
fn find_dot(s: &str) -> (r: Option<usize>)
    ensures
        r matches Some(d) ==> d < s@.len() && s@[d as int] == '.' && forall|k: int|
            0 <= k < d ==> s@[k] != '.',
        r is None ==> forall|k: int| 0 <= k < s@.len() ==> s@[k] != '.',
{
    let n = s.unicode_len();
    let mut d: usize = 0;
    while d < n
        invariant
            n == s@.len(),
            d <= n,
            forall|k: int| 0 <= k < d ==> s@[k] != '.',
        decreases n - d,
    {
        if s.get_char(d) == '.' {
            return Some(d);
        }
        d = d + 1;
    }
    None
}

impl ApiVersion {
    /// Read a version from its text `major.minor`.
    pub fn parse(s: &str) -> (r: Option<ApiVersion>)
        ensures
            r matches Some(v) ==> is_version_text(s@, v),
            r is None ==> forall|v: ApiVersion| !is_version_text(s@, v),
    {
        let n = s.unicode_len();
        let d = match find_dot(s) {
            Some(d) => d,
            None => {
                return None;
            },
        };
        let major = parse_number(s, 0, d);
        let minor = parse_number(s, d + 1, n);
        proof {
            // No other split works: a dot before `d` does not exist, and one
            // after it would leave `d`'s dot in the major part.
            assert forall|e: int|
                0 <= e < s@.len() && s@[e] == '.' && e != d && #[trigger] is_number(
                    s@.subrange(0, e),
                ) implies false by {
                if e > d {
                    assert(s@.subrange(0, e)[d as int] == '.');
                }
            }
        }
        match (major, minor) {
            (Some(a), Some(b)) => {
                let v = ApiVersion(a, b);
                assert(is_number(s@.subrange(0, d as int)));
                Some(v)
            },
            _ => None,
        }
    }
}

/// Read an optional version: the empty text means that none is given; any
/// other text must be a version.
pub fn parse_optional_version(s: &str) -> (r: Result<Option<ApiVersion>, Error>)
    ensures
        s@.len() == 0 ==> r == Ok::<Option<ApiVersion>, Error>(None),
        s@.len() > 0 ==> match r {
            Ok(Some(v)) => is_version_text(s@, v),
            Ok(None) => false,
            Err(e) => e.kind == ErrorKind::InvalidResponse && forall|v: ApiVersion|
                !is_version_text(s@, v),
        },
{
    if s.unicode_len() == 0 {
        return Ok(None);
    }
    match ApiVersion::parse(s) {
        Some(v) => Ok(Some(v)),
        None => Err(Error::new(ErrorKind::InvalidResponse, String::from_str("Invalid API version"))),
    }
}

} // verus!
