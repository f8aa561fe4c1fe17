//! Decimal text read as integers: the spec-level meaning of digit strings and
//! verified parsers over ranges of a string.

use vstd::prelude::*;
use vstd::arithmetic::div_mod::lemma_fundamental_div_mod;

verus! {

pub open spec fn is_digit(c: char) -> bool {
    48 <= c as int && c as int <= 57
}

pub open spec fn digit_val(c: char) -> int {
    c as int - 48
}

pub open spec fn all_digits(s: Seq<char>) -> bool {
    forall|i: int| 0 <= i < s.len() ==> is_digit(#[trigger] s[i])
}

/// Value of a digit string read in base ten, most significant digit first.
pub open spec fn digits_val(s: Seq<char>) -> int
    decreases s.len(),
{
    if s.len() == 0 {
        0
    } else {
        digits_val(s.drop_last()) * 10 + digit_val(s.last())
    }
}

pub open spec fn pow10(n: nat) -> int
    decreases n,
{
    if n == 0 {
        1
    } else {
        10 * pow10((n - 1) as nat)
    }
}

pub proof fn lemma_digits_val_bound(s: Seq<char>)
    requires
        all_digits(s),
    ensures
        0 <= digits_val(s) < pow10(s.len()),
    decreases s.len(),
{
    if s.len() > 0 {
        lemma_digits_val_bound(s.drop_last());
    }
}

/// A longer digit prefix never reads as a smaller value.
pub proof fn lemma_digits_val_monotone(s: Seq<char>, k: int)
    requires
        all_digits(s),
        0 <= k <= s.len(),
    ensures
        digits_val(s.take(k)) <= digits_val(s),
    decreases s.len(),
{
    assert(all_digits(s.take(k)));
    if k == s.len() {
        assert(s.take(k) =~= s);
    } else {
        assert(s.drop_last() =~= s.take(s.len() - 1));
        assert(s.take(k) =~= s.drop_last().take(k));
        lemma_digits_val_monotone(s.drop_last(), k);
        lemma_digits_val_bound(s.drop_last());
    }
}

/// Signed decimal text: an optional sign, then at least one digit.
pub open spec fn spec_parse_int(s: Seq<char>) -> Option<int> {
    if s.len() > 0 && (s[0] == '-' || s[0] == '+') {
        let body = s.subrange(1, s.len() as int);
        if body.len() > 0 && all_digits(body) {
            Some(
                if s[0] == '-' {
                    -digits_val(body)
                } else {
                    digits_val(body)
                },
            )
        } else {
            None
        }
    } else if s.len() > 0 && all_digits(s) {
        Some(digits_val(s))
    } else {
        None
    }
}

/// As `spec_parse_int`, but out-of-range values are rejected.
pub open spec fn spec_parse_i64(s: Seq<char>) -> Option<int> {
    match spec_parse_int(s) {
        Some(v) => if i64::MIN <= v <= i64::MAX {
            Some(v)
        } else {
            None
        },
        None => None,
    }
}

pub open spec fn digit_char(d: int) -> char {
    ((48 + d) as u32) as char
}

/// Decimal digits of a non-negative integer, as std prints them.
pub open spec fn digits_of(n: int) -> Seq<char>
    decreases n,
{
    if n < 10 {
        seq![digit_char(n)]
    } else {
        digits_of(n / 10).push(digit_char(n % 10))
    }
}

/// Decimal text of an integer, sign included.
pub open spec fn int_chars(n: int) -> Seq<char> {
    if n < 0 {
        seq!['-'] + digits_of(-n)
    } else {
        digits_of(n)
    }
}

pub proof fn lemma_digits_of_digits(n: int)
    requires
        n >= 0,
    ensures
        all_digits(digits_of(n)),
        digits_of(n).len() >= 1,
        digits_val(digits_of(n)) == n,
    decreases n,
{
    if n < 10 {
        let s = seq![digit_char(n)];
        assert(digit_char(n) as int == 48 + n);
        assert(s.drop_last() =~= Seq::<char>::empty());
        assert(s.last() == digit_char(n));
        assert(digits_val(Seq::<char>::empty()) == 0);
        assert(digits_val(s) == digit_val(digit_char(n)));
    } else {
        lemma_digits_of_digits(n / 10);
        lemma_fundamental_div_mod(n, 10);
        let p = digits_of(n / 10);
        let c = digit_char(n % 10);
        let s = p.push(c);
        assert(c as int == 48 + n % 10);
        assert(s.drop_last() =~= p);
        assert(s.last() == c);
        assert forall|i: int| 0 <= i < s.len() implies is_digit(#[trigger] s[i]) by {
            if i < p.len() {
                assert(s[i] == p[i]);
            }
        }
        assert(digits_val(s) == n);
    }
}

/// Rendering then reading an integer gives it back exactly.
pub proof fn lemma_parse_int_chars(n: int)
    requires
        i64::MIN <= n <= i64::MAX,
    ensures
        spec_parse_i64(int_chars(n)) == Some(n),
{
    if n >= 0 {
        lemma_digits_of_digits(n);
        let s = digits_of(n);
        assert(is_digit(s[0]));
        assert(s[0] != '-' && s[0] != '+');
        assert(spec_parse_int(s) == Some(n));
    } else {
        lemma_digits_of_digits(-n);
        let s = seq!['-'] + digits_of(-n);
        assert(s[0] == '-');
        let body = s.subrange(1, s.len() as int);
        assert(body =~= digits_of(-n));
        assert(spec_parse_int(s) == Some(-digits_val(body)));
    }
}

/// `c` occurs in neither half of a concatenation exactly as often as in both.
pub proof fn lemma_count_char_concat(a: Seq<char>, b: Seq<char>, c: char)
    ensures
        count_char(a + b, c) == count_char(a, c) + count_char(b, c),
    decreases b.len(),
{
    if b.len() == 0 {
        assert(a + b =~= a);
    } else {
        assert((a + b).drop_last() =~= a + b.drop_last());
        assert((a + b).last() == b.last());
        lemma_count_char_concat(a, b.drop_last(), c);
    }
}

pub proof fn lemma_count_char_zero(s: Seq<char>, c: char)
    requires
        forall|i: int| 0 <= i < s.len() ==> s[i] != c,
    ensures
        count_char(s, c) == 0,
    decreases s.len(),
{
    if s.len() > 0 {
        lemma_count_char_zero(s.drop_last(), c);
    }
}

/// How many times `c` occurs.
pub open spec fn count_char(s: Seq<char>, c: char) -> nat
    decreases s.len(),
{
    if s.len() == 0 {
        0
    } else {
        count_char(s.drop_last(), c) + (if s.last() == c {
            1nat
        } else {
            0nat
        })
    }
}

/// Index of the first occurrence of `c`, or the length where there is none.
pub open spec fn find_char(s: Seq<char>, c: char) -> int
    decreases s.len(),
{
    if s.len() == 0 {
        0
    } else if s[0] == c {
        0
    } else {
        1 + find_char(s.drop_first(), c)
    }
}

pub proof fn lemma_find_char_first(s: Seq<char>, c: char, k: int)
    requires
        0 <= k < s.len(),
        s[k] == c,
        forall|j: int| 0 <= j < k ==> s[j] != c,
    ensures
        find_char(s, c) == k,
    decreases s.len(),
{
    if k > 0 {
        lemma_find_char_first(s.drop_first(), c, k - 1);
    }
}

pub proof fn lemma_find_char_none(s: Seq<char>, c: char)
    requires
        forall|j: int| 0 <= j < s.len() ==> s[j] != c,
    ensures
        find_char(s, c) == s.len(),
    decreases s.len(),
{
    if s.len() > 0 {
        lemma_find_char_none(s.drop_first(), c);
    }
}

/// Counts `c` over `s[from..to]` and finds its first position there.
pub fn scan_char(s: &str, from: usize, to: usize, c: char) -> (r: (usize, Option<usize>))
    requires
        from <= to <= s@.len(),
    ensures
        ({
            let range = s@.subrange(from as int, to as int);
            &&& r.0 as nat == count_char(range, c)
            &&& match r.1 {
                Some(k) => from <= k < to && s@[k as int] == c && (forall|j: int|
                    from <= j < k ==> s@[j] != c) && find_char(range, c) == k - from,
                None => count_char(range, c) == 0 && find_char(range, c) == range.len(),
            }
        }),
{
    let mut cnt: usize = 0;
    let mut first: Option<usize> = None;
    let mut i: usize = from;
    while i < to
        invariant
            from <= i <= to <= s@.len(),
            cnt <= i - from,
            cnt as nat == count_char(s@.subrange(from as int, i as int), c),
            match first {
                Some(k) => from <= k < i && s@[k as int] == c && (forall|j: int|
                    from <= j < k ==> s@[j] != c) && cnt > 0,
                None => cnt == 0 && forall|j: int| from <= j < i ==> s@[j] != c,
            },
        decreases to - i,
    {
        let ch = s.get_char(i);
        proof {
            assert(s@.subrange(from as int, i + 1 as int).drop_last() =~= s@.subrange(
                from as int,
                i as int,
            ));
        }
        if ch == c {
            cnt = cnt + 1;
            if first.is_none() {
                first = Some(i);
            }
        }
        i = i + 1;
    }
    proof {
        let range = s@.subrange(from as int, to as int);
        match first {
            Some(k) => {
                assert(range[k - from] == c);
                assert(forall|j: int| 0 <= j < k - from ==> range[j] != c);
                lemma_find_char_first(range, c, k - from);
            },
            None => {
                assert(forall|j: int| 0 <= j < range.len() ==> range[j] != c);
                lemma_find_char_none(range, c);
            },
        }
    }
    (cnt, first)
}

/// Whether every character of `s[from..to]` is a decimal digit.
pub fn check_digits_range(s: &str, from: usize, to: usize) -> (r: bool)
    requires
        from <= to <= s@.len(),
    ensures
        r == all_digits(s@.subrange(from as int, to as int)),
{
    let mut i: usize = from;
    while i < to
        invariant
            from <= i <= to <= s@.len(),
            forall|j: int| from <= j < i ==> is_digit(#[trigger] s@[j]),
        decreases to - i,
    {
        let c = s.get_char(i);
        let cu: u32 = c as u32;
        let ghost range = s@.subrange(from as int, to as int);
        if cu < 48 || cu > 57 {
            proof {
                assert(!is_digit(range[i - from]));
            }
            return false;
        }
        i = i + 1;
    }
    proof {
        let range = s@.subrange(from as int, to as int);
        assert(forall|j: int| 0 <= j < range.len() ==> is_digit(#[trigger] range[j]));
    }
    true
}

/// Reads `s[from..to]` as an unsigned decimal number of value at most `limit`.
pub fn parse_u64_range(s: &str, from: usize, to: usize, limit: u64) -> (r: Option<u64>)
    requires
        from <= to <= s@.len(),
    ensures
        ({
            let range = s@.subrange(from as int, to as int);
            match r {
                Some(v) => range.len() > 0 && all_digits(range) && digits_val(range) == v as int
                    && v <= limit,
                None => range.len() == 0 || !all_digits(range) || digits_val(range) > limit,
            }
        }),
{
    if from == to {
        return None;
    }
    let mut acc: u64 = 0;
    let mut i: usize = from;
    while i < to
        invariant
            from <= i <= to <= s@.len(),
            acc <= limit,
            all_digits(s@.subrange(from as int, i as int)),
            acc as int == digits_val(s@.subrange(from as int, i as int)),
        decreases to - i,
    {
        let c = s.get_char(i);
        let cu: u32 = c as u32;
        let ghost range = s@.subrange(from as int, to as int);
        if cu < 48 || cu > 57 {
            proof {
                assert(!is_digit(range[i - from]));
            }
            return None;
        }
        let d: u64 = (cu - 48) as u64;
        let wide: u128 = acc as u128 * 10 + d as u128;
        proof {
            assert(s@.subrange(from as int, i + 1 as int).drop_last() =~= s@.subrange(
                from as int,
                i as int,
            ));
            assert(digits_val(s@.subrange(from as int, i + 1 as int)) == acc as int * 10 + d);
        }
        if wide > limit as u128 {
            proof {
                if all_digits(range) {
                    lemma_digits_val_bound(s@.subrange(from as int, i + 1 as int));
                    assert(s@.subrange(from as int, i + 1 as int) =~= range.take(i + 1 - from));
                    lemma_digits_val_monotone(range, i + 1 - from);
                }
            }
            return None;
        }
        acc = wide as u64;
        i = i + 1;
    }
    proof {
        assert(s@.subrange(from as int, i as int) =~= s@.subrange(from as int, to as int));
    }
    Some(acc)
}

/// Reads `s[from..to]` as a signed decimal integer that fits an `i64`.
pub fn parse_i64_range(s: &str, from: usize, to: usize) -> (r: Option<i64>)
    requires
        from <= to <= s@.len(),
    ensures
        ({
            let sp = spec_parse_i64(s@.subrange(from as int, to as int));
            match r {
                Some(v) => sp == Some(v as int),
                None => sp is None,
            }
        }),
{
    let ghost range = s@.subrange(from as int, to as int);
    if from == to {
        return None;
    }
    let c0 = s.get_char(from);
    let neg: bool = c0 as u32 == 45;
    let signed: bool = neg || c0 as u32 == 43;
    let start: usize = if signed {
        from + 1
    } else {
        from
    };
    proof {
        assert(range[0] == c0);
        assert(s@.subrange(start as int, to as int) =~= if signed {
            range.subrange(1, range.len() as int)
        } else {
            range
        });
    }
    let limit: u64 = if neg {
        9223372036854775808
    } else {
        9223372036854775807
    };
    match parse_u64_range(s, start, to, limit) {
        None => {
            proof {
                let body = s@.subrange(start as int, to as int);
                if body.len() > 0 && all_digits(body) {
                    lemma_digits_val_bound(body);
                }
            }
            None
        },
        Some(mag) => {
            if neg {
                if mag == 9223372036854775808 {
                    Some(i64::MIN)
                } else {
                    Some(-(mag as i64))
                }
            } else {
                Some(mag as i64)
            }
        },
    }
}

} // verus!
