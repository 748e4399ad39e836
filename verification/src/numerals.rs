//! Decimal numerals as text: recognition, value, and rendering.
//!
//! The wire format carries most numbers as strings of decimal digits. This
//! module fixes, once, what a numeral is and which integer it denotes; every
//! numeric coercer states its contract over these definitions.

use vstd::prelude::*;

verus! {

/// A decimal digit character.
pub open spec fn is_digit(c: char) -> bool {
    48 <= c as u32 <= 57
}

/// The value of one digit character.
pub open spec fn digit_val(c: char) -> int {
    c as u32 - 48
}

/// Every character of `s` is a decimal digit.
pub open spec fn all_digits(s: Seq<char>) -> bool {
    forall|i: int| 0 <= i < s.len() ==> is_digit(#[trigger] s[i])
}

/// A non-empty string of decimal digits (no sign, no bound on its value).
pub open spec fn valid_numeral(s: Seq<char>) -> bool {
    s.len() > 0 && all_digits(s)
}

/// The integer denoted by a string of digits, most significant first.
pub open spec fn numeral_val(s: Seq<char>) -> int
    decreases s.len(),
{
    if s.len() == 0 {
        0
    } else {
        numeral_val(s.drop_last()) * 10 + digit_val(s.last())
    }
}

/// A numeral denotes a non-negative integer.
pub proof fn lemma_numeral_nonneg(s: Seq<char>)
    requires
        all_digits(s),
    ensures
        numeral_val(s) >= 0,
    decreases s.len(),
{
    if s.len() > 0 {
        assert(all_digits(s.drop_last()));
        lemma_numeral_nonneg(s.drop_last());
    }
}

/// Extending a digit string to the right never decreases its value.
pub proof fn lemma_numeral_prefix_le(s: Seq<char>, i: int)
    requires
        all_digits(s),
        0 <= i <= s.len(),
    ensures
        numeral_val(s.subrange(0, i)) <= numeral_val(s),
    decreases s.len() - i,
{
    if i == s.len() {
        assert(s.subrange(0, i) =~= s);
    } else {
        lemma_numeral_prefix_le(s, i + 1);
        let t = s.subrange(0, i + 1);
        assert(t.drop_last() =~= s.subrange(0, i));
        assert(all_digits(s.subrange(0, i)));
        lemma_numeral_nonneg(s.subrange(0, i));
        assert(numeral_val(t) == numeral_val(s.subrange(0, i)) * 10 + digit_val(s[i]));
        assert(numeral_val(s.subrange(0, i)) <= numeral_val(t)) by (nonlinear_arith)
            requires
                numeral_val(t) == numeral_val(s.subrange(0, i)) * 10 + digit_val(s[i]),
                numeral_val(s.subrange(0, i)) >= 0,
                digit_val(s[i]) >= 0,
        {}
    }
}

/// A string of `n` digits denotes a value below `10^n`; stated for the
/// four-digit fields of an ISO date, where the bound is `10000`.
pub proof fn lemma_numeral_bound_4(s: Seq<char>)
    requires
        all_digits(s),
        s.len() <= 4,
    ensures
        numeral_val(s) < 10000,
    decreases s.len(),
{
    if s.len() > 0 {
        assert(all_digits(s.drop_last()));
        lemma_numeral_bound_4(s.drop_last());
        lemma_numeral_nonneg(s.drop_last());
        assert(numeral_val(s.drop_last()) < 1000) by {
            lemma_numeral_small(s.drop_last());
        }
    }
}

/// Bounds for digit strings of up to three digits.
pub proof fn lemma_numeral_small(s: Seq<char>)
    requires
        all_digits(s),
        s.len() <= 3,
    ensures
        numeral_val(s) < 1000,
        s.len() <= 2 ==> numeral_val(s) < 100,
        s.len() <= 1 ==> numeral_val(s) < 10,
    decreases s.len(),
{
    if s.len() > 0 {
        assert(all_digits(s.drop_last()));
        lemma_numeral_small(s.drop_last());
        lemma_numeral_nonneg(s.drop_last());
    }
}

/// Parses a non-empty all-digit string into a `u64`.
///
/// Returns the denoted value exactly when the text is a numeral whose value
/// fits; anything else (empty text, a non-digit, a value past `u64::MAX`)
/// yields `None`.
pub fn parse_u64(s: &str) -> (r: Option<u64>)
    ensures
        valid_numeral(s@) && numeral_val(s@) <= u64::MAX ==> r == Some(numeral_val(s@) as u64),
        !(valid_numeral(s@) && numeral_val(s@) <= u64::MAX) ==> r is None,
{
    let n = s.unicode_len();
    if n == 0 {
        return None;
    }
    let mut acc: u64 = 0;
    let mut i: usize = 0;
    while i < n
        invariant
            0 < n == s@.len(),
            0 <= i <= n,
            forall|j: int| 0 <= j < i ==> is_digit(#[trigger] s@[j]),
            acc == numeral_val(s@.subrange(0, i as int)),
        decreases n - i,
    {
        let c = s.get_char(i);
        let cu = c as u32;
        if cu < 48 || cu > 57 {
            assert(!all_digits(s@));
            return None;
        }
        let d = (cu - 48) as u64;
        proof {
            assert(s@.subrange(0, i + 1).drop_last() =~= s@.subrange(0, i as int));
            assert(s@.subrange(0, i + 1).last() == s@[i as int]);
        }
        if acc > (u64::MAX - d) / 10 {
            proof {
                assert(acc * 10 + d > u64::MAX) by (nonlinear_arith)
                    requires
                        acc > (u64::MAX - d) / 10,
                        0 <= d <= 9,
                        acc >= 0,
                {}
                if all_digits(s@) {
                    lemma_numeral_prefix_le(s@, i + 1);
                    assert(numeral_val(s@.subrange(0, i + 1)) == acc * 10 + d);
                }
            }
            return None;
        }
        proof {
            assert(acc * 10 + d <= u64::MAX) by (nonlinear_arith)
                requires
                    acc <= (u64::MAX - d) / 10,
                    0 <= d <= 9,
                    acc >= 0,
            {}
        }
        acc = acc * 10 + d;
        i = i + 1;
    }
    proof {
        assert(s@.subrange(0, n as int) =~= s@);
    }
    Some(acc)
}

/// The magnitude of `i64::MIN`, the one negative numeral whose magnitude
/// does not itself fit in `i64`.
pub open spec fn i64_min_magnitude() -> int {
    0x8000_0000_0000_0000
}

/// A signed decimal numeral that fits in `i64`: an optional leading minus
/// sign followed by digits.
pub open spec fn valid_i64_numeral(s: Seq<char>) -> bool {
    if s.len() >= 1 && s[0] == '-' {
        valid_numeral(s.subrange(1, s.len() as int)) && numeral_val(
            s.subrange(1, s.len() as int),
        ) <= i64_min_magnitude()
    } else {
        valid_numeral(s) && numeral_val(s) <= i64::MAX
    }
}

/// The integer denoted by a signed decimal numeral.
pub open spec fn i64_numeral_val(s: Seq<char>) -> int {
    if s.len() >= 1 && s[0] == '-' {
        -numeral_val(s.subrange(1, s.len() as int))
    } else {
        numeral_val(s)
    }
}

/// Parses an optionally minus-signed digit string into an `i64`.
pub fn parse_i64(s: &str) -> (r: Option<i64>)
    ensures
        valid_i64_numeral(s@) ==> r == Some(i64_numeral_val(s@) as i64),
        !valid_i64_numeral(s@) ==> r is None,
{
    let n = s.unicode_len();
    if n >= 1 && s.get_char(0) == '-' {
        let rest = s.substring_char(1, n);
        proof {
            assert(rest@ =~= s@.subrange(1, s@.len() as int));
        }
        match parse_u64(rest) {
            Some(v) => {
                proof {
                    assert(valid_numeral(rest@));
                    lemma_numeral_nonneg(rest@);
                    assert(v == numeral_val(rest@));
                    assert(i64_numeral_val(s@) == -(v as int));
                }
                if v <= 0x8000_0000_0000_0000u64 {
                    if v == 0x8000_0000_0000_0000u64 {
                        Some(i64::MIN)
                    } else {
                        Some(-(v as i64))
                    }
                } else {
                    None
                }
            },
            None => {
                proof {
                    if valid_numeral(rest@) {
                        lemma_numeral_nonneg(rest@);
                    }
                }
                None
            },
        }
    } else {
        match parse_u64(s) {
            Some(v) => {
                proof {
                    assert(valid_numeral(s@));
                    lemma_numeral_nonneg(s@);
                }
                if v <= i64::MAX as u64 {
                    Some(v as i64)
                } else {
                    None
                }
            },
            None => None,
        }
    }
}

/// The digit character for a value in `0..10`.
pub open spec fn digit_char(d: int) -> char {
    if d == 0 {
        '0'
    } else if d == 1 {
        '1'
    } else if d == 2 {
        '2'
    } else if d == 3 {
        '3'
    } else if d == 4 {
        '4'
    } else if d == 5 {
        '5'
    } else if d == 6 {
        '6'
    } else if d == 7 {
        '7'
    } else if d == 8 {
        '8'
    } else {
        '9'
    }
}

/// The canonical decimal rendering of a non-negative integer: most
/// significant digit first, no leading zeros (a lone `0` for zero).
pub open spec fn uint_text(n: int) -> Seq<char>
    decreases n,
{
    if n < 10 {
        seq![digit_char(n)]
    } else {
        uint_text(n / 10).push(digit_char(n % 10))
    }
}

/// The canonical decimal rendering of an integer, minus-signed if negative.
pub open spec fn int_text(n: int) -> Seq<char> {
    if n < 0 {
        seq!['-'] + uint_text(-n)
    } else {
        uint_text(n)
    }
}

/// The one-character string for a digit value.
fn digit_str(d: u64) -> (r: &'static str)
    requires
        d < 10,
    ensures
        r@ =~= seq![digit_char(d as int)],
{
    proof {
        reveal_strlit("0");
        reveal_strlit("1");
        reveal_strlit("2");
        reveal_strlit("3");
        reveal_strlit("4");
        reveal_strlit("5");
        reveal_strlit("6");
        reveal_strlit("7");
        reveal_strlit("8");
        reveal_strlit("9");
    }
    if d == 0 {
        "0"
    } else if d == 1 {
        "1"
    } else if d == 2 {
        "2"
    } else if d == 3 {
        "3"
    } else if d == 4 {
        "4"
    } else if d == 5 {
        "5"
    } else if d == 6 {
        "6"
    } else if d == 7 {
        "7"
    } else if d == 8 {
        "8"
    } else {
        "9"
    }
}

/// Renders a `u64` as decimal text.
pub fn uint_to_string(n: u64) -> (r: String)
    ensures
        r@ == uint_text(n as int),
    decreases n,
{
    if n < 10 {
        String::from_str(digit_str(n))
    } else {
        let mut s = uint_to_string(n / 10);
        s.append(digit_str(n % 10));
        proof {
            assert(uint_text((n / 10) as int) + seq![digit_char((n % 10) as int)] =~= uint_text(
                n as int,
            ));
        }
        s
    }
}

/// Renders an `i64` as decimal text, minus-signed if negative.
pub fn int_to_string(n: i64) -> (r: String)
    ensures
        r@ == int_text(n as int),
{
    if n >= 0 {
        uint_to_string(n as u64)
    } else {
        let magnitude: u64 = if n == i64::MIN {
            0x8000_0000_0000_0000u64
        } else {
            (-n) as u64
        };
        let mut s = String::from_str("-");
        let digits = uint_to_string(magnitude);
        s.append(digits.as_str());
        proof {
            reveal_strlit("-");
            assert(s@ =~= seq!['-'] + uint_text(magnitude as int));
        }
        s
    }
}

/// The position of the first occurrence of `c` in `s`, or `-1` if there
/// is none.
pub open spec fn first_occ(s: Seq<char>, c: char) -> int
    decreases s.len(),
{
    if s.len() == 0 {
        -1
    } else if s[0] == c {
        0
    } else {
        let r = first_occ(s.drop_first(), c);
        if r < 0 {
            -1
        } else {
            r + 1
        }
    }
}

/// `first_occ` names the first occurrence: it is `c`, and nothing before
/// it is.
pub proof fn lemma_first_occ(s: Seq<char>, c: char)
    ensures
        first_occ(s, c) == -1 ==> forall|i: int| 0 <= i < s.len() ==> s[i] != c,
        first_occ(s, c) >= 0 ==> 0 <= first_occ(s, c) < s.len() && s[first_occ(s, c)] == c
            && forall|i: int| 0 <= i < first_occ(s, c) ==> s[i] != c,
    decreases s.len(),
{
    if s.len() == 0 {
    } else if s[0] == c {
    } else {
        let t = s.drop_first();
        lemma_first_occ(t, c);
        if first_occ(t, c) == -1 {
            assert(first_occ(s, c) == -1);
            assert forall|i: int| 0 <= i < s.len() implies s[i] != c by {
                if i > 0 {
                    assert(t[i - 1] != c);
                    assert(s[i] == t[i - 1]);
                }
            }
        } else {
            let k = first_occ(t, c);
            assert(first_occ(s, c) == k + 1);
            assert(s[k + 1] == t[k]);
            assert forall|i: int| 0 <= i < k + 1 implies s[i] != c by {
                if i > 0 {
                    assert(t[i - 1] != c);
                    assert(s[i] == t[i - 1]);
                }
            }
        }
    }
}

/// The shape of an unsigned decimal floating-point numeral: digits, or
/// digits around a single dot with at least one digit on each side.
pub open spec fn is_unsigned_float(s: Seq<char>) -> bool {
    if first_occ(s, '.') < 0 {
        valid_numeral(s)
    } else {
        let k = first_occ(s, '.');
        0 < k && k + 1 < s.len() && all_digits(s.subrange(0, k)) && all_digits(
            s.subrange(k + 1, s.len() as int),
        )
    }
}

/// The shape of a decimal floating-point numeral, with an optional sign.
pub open spec fn is_float_numeral(s: Seq<char>) -> bool {
    if s.len() >= 1 && (s[0] == '-' || s[0] == '+') {
        is_unsigned_float(s.subrange(1, s.len() as int))
    } else {
        is_unsigned_float(s)
    }
}

/// True when every character of `s` in `from..to` is a digit.
fn digits_in_range(s: &str, from: usize, to: usize) -> (r: bool)
    requires
        from <= to <= s@.len(),
    ensures
        r == all_digits(s@.subrange(from as int, to as int)),
{
    let mut i = from;
    while i < to
        invariant
            from <= i <= to <= s@.len(),
            forall|j: int| from <= j < i ==> is_digit(#[trigger] s@[j]),
        decreases to - i,
    {
        let cu = s.get_char(i) as u32;
        if cu < 48 || cu > 57 {
            proof {
                assert(s@.subrange(from as int, to as int)[i - from] == s@[i as int]);
            }
            return false;
        }
        i = i + 1;
    }
    proof {
        assert(forall|j: int| 0 <= j < to - from ==> #[trigger] s@.subrange(
            from as int,
            to as int,
        )[j] == s@[j + from]);
    }
    true
}

/// Checks the unsigned part of a floating-point numeral.
fn check_unsigned_float(s: &str, from: usize) -> (r: bool)
    requires
        from <= s@.len(),
    ensures
        r == is_unsigned_float(s@.subrange(from as int, s@.len() as int)),
{
    let ghost t = s@.subrange(from as int, s@.len() as int);
    proof {
        lemma_first_occ(t, '.');
        assert(forall|j: int| 0 <= j < t.len() ==> t[j] == s@[j + from]);
    }
    let n = s.unicode_len();
    let mut i = from;
    while i < n
        invariant
            from <= i <= n == s@.len(),
            t == s@.subrange(from as int, s@.len() as int),
            forall|j: int| from <= j < i ==> s@[j] != '.',
        decreases n - i,
    {
        if s.get_char(i) == '.' {
            proof {
                lemma_first_occ(t, '.');
                assert(t[i - from] == '.');
                assert forall|j: int| 0 <= j < i - from implies t[j] != '.' by {
                    assert(t[j] == s@[j + from]);
                }
                if first_occ(t, '.') == -1 {
                    assert(t[i - from] != '.');
                }
                if 0 <= first_occ(t, '.') < i - from {
                    assert(t[first_occ(t, '.')] != '.');
                }
                if first_occ(t, '.') > i - from {
                    assert(t[i - from] != '.');
                }
                assert(first_occ(t, '.') == i - from);
            }
            let has_digits = i > from && i + 1 < n && digits_in_range(s, from, i)
                && digits_in_range(s, i + 1, n);
            proof {
                assert(s@.subrange(from as int, i as int) =~= t.subrange(0, i - from));
                assert(s@.subrange(i + 1, n as int) =~= t.subrange(i - from + 1, t.len() as int));
            }
            return has_digits;
        }
        i = i + 1;
    }
    proof {
        assert(forall|j: int| 0 <= j < t.len() ==> t[j] != '.');
        assert(first_occ(t, '.') == -1);
        assert(s@.subrange(from as int, n as int) =~= t);
    }
    let r = n > from && digits_in_range(s, from, n);
    r
}

/// Checks the shape of a decimal floating-point numeral, optional sign
/// included.
pub fn check_float_numeral(s: &str) -> (r: bool)
    ensures
        r == is_float_numeral(s@),
{
    let n = s.unicode_len();
    if n >= 1 {
        let c = s.get_char(0);
        if c == '-' || c == '+' {
            let r = check_unsigned_float(s, 1);
            return r;
        }
    }
    proof {
        assert(s@.subrange(0, s@.len() as int) =~= s@);
    }
    let r = check_unsigned_float(s, 0);
    r
}

} // verus!
