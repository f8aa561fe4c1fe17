//! Rational numbers as the probe tool writes them: `N/D` text, both halves
//! signed decimal integers. The fraction is kept exactly as written — it is
//! not reduced, and a zero denominator stands for an undefined rate and is
//! preserved.

use vstd::prelude::*;
use vstd::string::StrSliceExecFns;

use crate::error::ShapeError;
use crate::error::ShapeErrorView;
use crate::json::Json;
use crate::json::spec_lookup;
use crate::json::lookup;
use crate::numbers::count_char;
use crate::numbers::find_char;
use crate::numbers::int_chars;
use crate::numbers::is_digit;
use crate::numbers::lemma_count_char_concat;
use crate::numbers::lemma_count_char_zero;
use crate::numbers::lemma_digits_of_digits;
use crate::numbers::lemma_find_char_first;
use crate::numbers::lemma_parse_int_chars;
use crate::numbers::parse_i64_range;
use crate::numbers::scan_char;
use crate::numbers::spec_parse_i64;

verus! {

/// An exact rational number: numerator over denominator, as written.
#[derive(Clone, Copy, Debug, PartialEq, Eq, Structural)]
pub struct Ratio {
    pub numerator: i64,
    pub denominator: i64,
}

/// Meaning of ratio text: exactly one `/`, and both halves read as integers.
pub open spec fn spec_parse_ratio(s: Seq<char>) -> Option<(int, int)> {
    if count_char(s, '/') == 1 {
        let i = find_char(s, '/');
        let left = spec_parse_i64(s.subrange(0, i));
        let right = spec_parse_i64(s.subrange(i + 1, s.len() as int));
        match (left, right) {
            (Some(a), Some(b)) => Some((a, b)),
            _ => None,
        }
    } else {
        None
    }
}

impl Ratio {
    /// Decodes `N/D` text; any other shape fails with the offending text.
    pub fn parse(s: &str) -> (r: Result<Ratio, ShapeError>)
        ensures
            match r {
                Ok(rat) => spec_parse_ratio(s@) == Some(
                    (rat.numerator as int, rat.denominator as int),
                ),
                Err(e) => spec_parse_ratio(s@) is None && e@ == ShapeErrorView::InvalidRatio(s@),
            },
    {
        let n = s.unicode_len();
        let (cnt, first) = scan_char(s, 0, n, '/');
        proof {
            assert(s@.subrange(0, n as int) =~= s@);
        }
        if cnt != 1 {
            return Err(ShapeError::InvalidRatio(s.to_owned()));
        }
        let k = match first {
            Some(k) => k,
            None => {
                return Err(ShapeError::InvalidRatio(s.to_owned()));
            },
        };
        let left = parse_i64_range(s, 0, k);
        let right = parse_i64_range(s, k + 1, n);
        match (left, right) {
            (Some(a), Some(b)) => Ok(Ratio { numerator: a, denominator: b }),
            _ => Err(ShapeError::InvalidRatio(s.to_owned())),
        }
    }
}

/// No character of an integer's decimal text is a separator.
proof fn lemma_int_chars_no_slash(n: int)
    requires
        i64::MIN <= n <= i64::MAX,
    ensures
        forall|i: int| 0 <= i < int_chars(n).len() ==> int_chars(n)[i] != '/',
        int_chars(n).len() >= 1,
{
    let s = int_chars(n);
    if n >= 0 {
        lemma_digits_of_digits(n);
        assert forall|i: int| 0 <= i < s.len() implies s[i] != '/' by {
            assert(is_digit(s[i]));
        }
    } else {
        lemma_digits_of_digits(-n);
        assert forall|i: int| 0 <= i < s.len() implies s[i] != '/' by {
            if i > 0 {
                assert(is_digit(s[i]));
            }
        }
    }
}

/// Every exact fraction round-trips: for any integers `N` and `D`, the text
/// `N/D` decodes to a ratio with numerator `N` and denominator `D` — a zero
/// denominator included, since it stands for an undefined rate.
pub proof fn lemma_ratio_round_trip(n: i64, d: i64)
    ensures
        spec_parse_ratio(int_chars(n as int) + seq!['/'] + int_chars(d as int)) == Some(
            (n as int, d as int),
        ),
{
    let left = int_chars(n as int);
    let right = int_chars(d as int);
    let mid = seq!['/'];
    let s = left + mid + right;
    lemma_int_chars_no_slash(n as int);
    lemma_int_chars_no_slash(d as int);
    lemma_count_char_zero(left, '/');
    lemma_count_char_zero(right, '/');
    lemma_count_char_concat(left, mid, '/');
    lemma_count_char_concat(left + mid, right, '/');
    assert(mid.drop_last() =~= Seq::<char>::empty());
    assert(count_char(Seq::<char>::empty(), '/') == 0);
    assert(mid.last() == '/');
    assert(count_char(mid, '/') == 1);
    assert(count_char(s, '/') == 1);
    let l = left.len() as int;
    assert(s[l] == '/');
    assert forall|j: int| 0 <= j < l implies s[j] != '/' by {
        assert(s[j] == left[j]);
    }
    lemma_find_char_first(s, '/', l);
    assert(s.subrange(0, l) =~= left);
    assert(s.subrange(l + 1, s.len() as int) =~= right);
    lemma_parse_int_chars(n as int);
    lemma_parse_int_chars(d as int);
}

/// An optional ratio field: absent or null is `None`; a present value must be
/// ratio text, else the field's name is the offending context.
pub open spec fn spec_opt_ratio_field(fields: Seq<(String, Json)>, key: Seq<char>) -> Result<
    Option<(int, int)>,
    ShapeErrorView,
> {
    match spec_lookup(fields, key) {
        None => Ok(None),
        Some(j) => match j {
            Json::Null => Ok(None),
            Json::Str(s) => match spec_parse_ratio(s@) {
                Some(p) => Ok(Some(p)),
                None => Err(ShapeErrorView::InvalidRatio(s@)),
            },
            _ => Err(ShapeErrorView::WrongType(key)),
        },
    }
}

pub open spec fn opt_ratio_view(o: Option<Ratio>) -> Option<(int, int)> {
    match o {
        Some(rat) => Some((rat.numerator as int, rat.denominator as int)),
        None => None,
    }
}

pub fn opt_ratio_field(fields: &Vec<(String, Json)>, key: &str) -> (r: Result<
    Option<Ratio>,
    ShapeError,
>)
    ensures
        match r {
            Ok(o) => spec_opt_ratio_field(fields@, key@) == Ok::<_, ShapeErrorView>(
                opt_ratio_view(o),
            ),
            Err(e) => spec_opt_ratio_field(fields@, key@) == Err::<Option<(int, int)>, _>(e@),
        },
{
    match lookup(fields, key) {
        None => Ok(None),
        Some(j) => match j {
            Json::Null => Ok(None),
            Json::Str(s) => match Ratio::parse(s.as_str()) {
                Ok(rat) => Ok(Some(rat)),
                Err(e) => Err(e),
            },
            _ => Err(ShapeError::WrongType(key.to_owned())),
        },
    }
}

} // verus!
