//! Time spans as the probe tool writes them: a decimal number of seconds in
//! text, kept to nanosecond precision. The tool occasionally emits small
//! negative rounding artifacts; a negative value is deliberately clamped to
//! zero rather than rejected.

use vstd::prelude::*;
use vstd::string::StrSliceExecFns;

use crate::error::ShapeError;
use crate::error::ShapeErrorView;
use crate::json::Json;
use crate::json::spec_lookup;
use crate::json::lookup;
use crate::numbers::all_digits;
use crate::numbers::check_digits_range;
use crate::numbers::count_char;
use crate::numbers::digits_val;
use crate::numbers::find_char;
use crate::numbers::is_digit;
use crate::numbers::lemma_digits_val_bound;
use crate::numbers::parse_u64_range;
use crate::numbers::pow10;
use crate::numbers::scan_char;

verus! {

/// A non-negative time span: whole seconds and a sub-second remainder in
/// nanoseconds.
#[derive(Clone, Copy, Debug, PartialEq, Eq, Structural)]
pub struct Duration {
    pub secs: u64,
    pub nanos: u32,
}

impl Duration {
    /// The nanosecond remainder never reaches one whole second.
    pub open spec fn wf(&self) -> bool {
        self.nanos < 1000000000
    }
}

/// Nanoseconds read from fraction digits: the first nine digits count, scaled
/// up to the full nanosecond width; further digits are beyond the precision
/// kept.
pub open spec fn frac_nanos(fp: Seq<char>) -> int {
    let k: int = if fp.len() < 9 {
        fp.len() as int
    } else {
        9
    };
    digits_val(fp.take(k)) * pow10((9 - k) as nat)
}

/// Meaning of unsigned duration text: digits with at most one dot and at
/// least one digit somewhere. The value is (whole seconds, nanoseconds).
pub open spec fn spec_parse_unsigned_duration(b: Seq<char>) -> Option<(int, int)> {
    if count_char(b, '.') == 0 {
        if b.len() > 0 && all_digits(b) {
            Some((digits_val(b), 0))
        } else {
            None
        }
    } else if count_char(b, '.') == 1 {
        let i = find_char(b, '.');
        let ip = b.subrange(0, i);
        let fp = b.subrange(i + 1, b.len() as int);
        if all_digits(ip) && all_digits(fp) && ip.len() + fp.len() > 0 {
            Some((digits_val(ip), frac_nanos(fp)))
        } else {
            None
        }
    } else {
        None
    }
}

/// Meaning of duration text: an optional sign, then unsigned duration text.
/// A negative value clamps to zero; whole seconds beyond the representable
/// range are rejected.
pub open spec fn spec_parse_duration(s: Seq<char>) -> Option<(int, int)> {
    let signed = s.len() > 0 && (s[0] == '-' || s[0] == '+');
    let b = if signed {
        s.subrange(1, s.len() as int)
    } else {
        s
    };
    match spec_parse_unsigned_duration(b) {
        Some(p) => if p.0 > u64::MAX {
            None
        } else if s.len() > 0 && s[0] == '-' {
            Some((0, 0))
        } else {
            Some(p)
        },
        None => None,
    }
}

/// A negative duration never decodes to a negative span: whenever it decodes
/// at all, it decodes to zero.
pub proof fn lemma_negative_duration_clamped(s: Seq<char>)
    requires
        s.len() > 0,
        s[0] == '-',
        spec_parse_duration(s) is Some,
    ensures
        spec_parse_duration(s) == Some((0int, 0int)),
{
}

proof fn lemma_frac_fits(f: int, p: int, kk: nat)
    requires
        kk <= 9,
        0 <= f < pow10(kk),
        p == pow10((9 - kk) as nat),
        p >= 1,
        pow10(kk) * pow10((9 - kk) as nat) == 1000000000,
    ensures
        f * p < 1000000000,
{
    assert(f * p <= (pow10(kk) - 1) * p) by (nonlinear_arith)
        requires 0 <= f <= pow10(kk) - 1, p >= 1;
    assert((pow10(kk) - 1) * p == pow10(kk) * p - p) by (nonlinear_arith);
}

pub proof fn lemma_pow10_pos(n: nat)
    ensures
        pow10(n) >= 1,
    decreases n,
{
    if n > 0 {
        lemma_pow10_pos((n - 1) as nat);
    }
}

pub proof fn lemma_pow10_le(a: nat, b: nat)
    requires
        a <= b,
    ensures
        pow10(a) <= pow10(b),
    decreases b,
{
    if a < b {
        lemma_pow10_le(a, (b - 1) as nat);
        lemma_pow10_pos((b - 1) as nat);
    }
}

pub proof fn lemma_pow10_add(a: nat, b: nat)
    ensures
        pow10(a + b) == pow10(a) * pow10(b),
    decreases a,
{
    if a == 0 {
    } else {
        lemma_pow10_add((a - 1) as nat, b);
        assert(10 * (pow10((a - 1) as nat) * pow10(b)) == (10 * pow10((a - 1) as nat)) * pow10(b))
            by (nonlinear_arith);
    }
}

fn pow10_small(e: usize) -> (r: u64)
    requires
        e <= 9,
    ensures
        r as int == pow10(e as nat),
        r >= 1,
{
    proof {
        reveal_with_fuel(pow10, 11);
    }
    if e == 0 {
        1
    } else if e == 1 {
        10
    } else if e == 2 {
        100
    } else if e == 3 {
        1000
    } else if e == 4 {
        10000
    } else if e == 5 {
        100000
    } else if e == 6 {
        1000000
    } else if e == 7 {
        10000000
    } else if e == 8 {
        100000000
    } else {
        1000000000
    }
}

impl Duration {
    /// Decodes decimal-second text; any other shape fails with the offending
    /// text.
    #[verifier::rlimit(100)]
    pub fn parse(s: &str) -> (r: Result<Duration, ShapeError>)
        ensures
            match r {
                Ok(d) => spec_parse_duration(s@) == Some((d.secs as int, d.nanos as int))
                    && d.wf(),
                Err(e) => spec_parse_duration(s@) is None && e@ == ShapeErrorView::InvalidDuration(
                    s@,
                ),
            },
    {
        let n = s.unicode_len();
        if n == 0 {
            return Err(ShapeError::InvalidDuration(s.to_owned()));
        }
        let c0 = s.get_char(0);
        let neg: bool = c0 as u32 == 45;
        let signed: bool = neg || c0 as u32 == 43;
        let start: usize = if signed {
            1
        } else {
            0
        };
        let ghost body = s@.subrange(start as int, n as int);
        proof {
            assert(s@.subrange(0, n as int) =~= s@);
            if signed {
                assert(body =~= s@.subrange(1, s@.len() as int));
            } else {
                assert(body =~= s@);
            }
        }
        let (dots, firstdot) = scan_char(s, start, n, '.');
        if dots == 0 {
            match parse_u64_range(s, start, n, u64::MAX) {
                Some(v) => {
                    if neg {
                        Ok(Duration { secs: 0, nanos: 0 })
                    } else {
                        Ok(Duration { secs: v, nanos: 0 })
                    }
                },
                None => Err(ShapeError::InvalidDuration(s.to_owned())),
            }
        } else if dots == 1 {
            let k = match firstdot {
                Some(k) => k,
                None => {
                    return Err(ShapeError::InvalidDuration(s.to_owned()));
                },
            };
            let ghost ip = s@.subrange(start as int, k as int);
            let ghost fp = s@.subrange(k + 1 as int, n as int);
            proof {
                assert(find_char(body, '.') == k - start);
                assert(body.subrange(0, k - start) =~= ip);
                assert(body.subrange(k - start + 1, body.len() as int) =~= fp);
            }
            if start == k && k + 1 == n {
                return Err(ShapeError::InvalidDuration(s.to_owned()));
            }
            let secs: u64 = if start == k {
                proof {
                    assert(ip =~= Seq::<char>::empty());
                }
                0
            } else {
                match parse_u64_range(s, start, k, u64::MAX) {
                    Some(v) => v,
                    None => {
                        return Err(ShapeError::InvalidDuration(s.to_owned()));
                    },
                }
            };
            let fl: usize = n - (k + 1);
            let nanos: u64 = if fl == 0 {
                proof {
                    assert(fp =~= Seq::<char>::empty());
                    assert(fp.take(0) =~= Seq::<char>::empty());
                }
                0
            } else {
                let kk: usize = if fl < 9 {
                    fl
                } else {
                    9
                };
                let ghost fp9 = s@.subrange(k + 1 as int, (k + 1 + kk) as int);
                proof {
                    assert(fp.take(kk as int) =~= fp9);
                }
                let f: u64 = match parse_u64_range(s, k + 1, k + 1 + kk, u64::MAX) {
                    Some(f) => f,
                    None => {
                        proof {
                            if all_digits(fp9) {
                                lemma_digits_val_bound(fp9);
                                lemma_pow10_le(kk as nat, 9);
                                reveal_with_fuel(pow10, 11);
                            }
                            assert(!all_digits(fp9));
                            assert(forall|j: int|
                                0 <= j < fp9.len() ==> fp9[j] == #[trigger] fp[j]);
                        }
                        return Err(ShapeError::InvalidDuration(s.to_owned()));
                    },
                };
                if kk < fl {
                    if !check_digits_range(s, k + 1 + kk, n) {
                        proof {
                            let tail = s@.subrange((k + 1 + kk) as int, n as int);
                            let ghost w = choose|j: int|
                                0 <= j < tail.len() && !is_digit(#[trigger] tail[j]);
                            assert(!is_digit(fp[w + kk]));
                        }
                        return Err(ShapeError::InvalidDuration(s.to_owned()));
                    }
                }
                proof {
                    let tail = s@.subrange((k + 1 + kk) as int, n as int);
                    assert(forall|j: int|
                        0 <= j < fp.len() && j < kk ==> #[trigger] fp[j] == fp9[j]);
                    assert(forall|j: int|
                        kk <= j < fp.len() ==> #[trigger] fp[j] == tail[j - kk]);
                    assert(all_digits(fp));
                }
                let p = pow10_small(9 - kk);
                proof {
                    lemma_digits_val_bound(fp9);
                    lemma_pow10_add(kk as nat, (9 - kk) as nat);
                    reveal_with_fuel(pow10, 11);
                    lemma_frac_fits(f as int, p as int, kk as nat);
                }
                f * p
            };
            if neg {
                Ok(Duration { secs: 0, nanos: 0 })
            } else {
                Ok(Duration { secs, nanos: nanos as u32 })
            }
        } else {
            proof {
                assert(count_char(body, '.') >= 2);
                assert(spec_parse_unsigned_duration(body) is None);
                assert(spec_parse_duration(s@) is None);
            }
            Err(ShapeError::InvalidDuration(s.to_owned()))
        }
    }
}

/// Decodes a duration that may be absent: absent input is no duration, not an
/// error.
pub open spec fn spec_opt_duration(o: Option<Seq<char>>) -> Result<
    Option<(int, int)>,
    ShapeErrorView,
> {
    match o {
        None => Ok(None),
        Some(t) => match spec_parse_duration(t) {
            Some(p) => Ok(Some(p)),
            None => Err(ShapeErrorView::InvalidDuration(t)),
        },
    }
}

pub open spec fn opt_duration_view(o: Option<Duration>) -> Option<(int, int)> {
    match o {
        Some(d) => Some((d.secs as int, d.nanos as int)),
        None => None,
    }
}

pub open spec fn opt_seq_view(o: Option<String>) -> Option<Seq<char>> {
    match o {
        Some(s) => Some(s@),
        None => None,
    }
}

pub fn option_string_to_duration(s: &Option<String>) -> (r: Result<Option<Duration>, ShapeError>)
    ensures
        match r {
            Ok(o) => spec_opt_duration(opt_seq_view(*s)) == Ok::<_, ShapeErrorView>(
                opt_duration_view(o),
            ) && (o matches Some(d) ==> d.wf()),
            Err(e) => spec_opt_duration(opt_seq_view(*s)) == Err::<Option<(int, int)>, _>(e@),
        },
{
    match s {
        None => Ok(None),
        Some(t) => match Duration::parse(t.as_str()) {
            Ok(d) => Ok(Some(d)),
            Err(e) => Err(e),
        },
    }
}

/// An optional duration field: absent or null is `None`; a present value must
/// be duration text, else the field's name is the offending context.
pub open spec fn spec_opt_duration_field(fields: Seq<(String, Json)>, key: Seq<char>) -> Result<
    Option<(int, int)>,
    ShapeErrorView,
> {
    match spec_lookup(fields, key) {
        None => Ok(None),
        Some(j) => match j {
            Json::Null => Ok(None),
            Json::Str(s) => match spec_parse_duration(s@) {
                Some(p) => Ok(Some(p)),
                None => Err(ShapeErrorView::InvalidDuration(s@)),
            },
            _ => Err(ShapeErrorView::WrongType(key)),
        },
    }
}

pub fn opt_duration_field(fields: &Vec<(String, Json)>, key: &str) -> (r: Result<
    Option<Duration>,
    ShapeError,
>)
    ensures
        match r {
            Ok(o) => spec_opt_duration_field(fields@, key@) == Ok::<_, ShapeErrorView>(
                opt_duration_view(o),
            ) && (o matches Some(d) ==> d.wf()),
            Err(e) => spec_opt_duration_field(fields@, key@) == Err::<Option<(int, int)>, _>(e@),
        },
{
    match lookup(fields, key) {
        None => Ok(None),
        Some(j) => match j {
            Json::Null => Ok(None),
            Json::Str(s) => match Duration::parse(s.as_str()) {
                Ok(d) => Ok(Some(d)),
                Err(e) => Err(e),
            },
            _ => Err(ShapeError::WrongType(key.to_owned())),
        },
    }
}

} // verus!
