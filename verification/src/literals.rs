//! Which texts are integer or floating-point literals, in the syntax that the
//! standard library's `str::parse` accepts for `i64` and `f64`.

use vstd::prelude::*;

verus! {

/// `c` is one of the ASCII digits `0`..`9`.
pub open spec fn is_digit(c: char) -> bool {
    '0' <= c && c <= '9'
}

/// Every character of `s` is an ASCII digit.
pub open spec fn all_digits(s: Seq<char>) -> bool {
    forall|i: int| 0 <= i < s.len() ==> is_digit(#[trigger] s[i])
}

/// The number that the decimal digits `s` denote.
pub open spec fn digits_value(s: Seq<char>) -> int
    decreases s.len(),
{
    if s.len() == 0 {
        0
    } else {
        digits_value(s.drop_last()) * 10 + (s.last() as int - '0' as int)
    }
}

/// `s` without its leading `+` or `-`, if it has one.
pub open spec fn unsigned_part(s: Seq<char>) -> Seq<char> {
    if s.len() > 0 && (s[0] == '+' || s[0] == '-') {
        s.drop_first()
    } else {
        s
    }
}

/// `s` is a decimal `i64`: an optional sign, then one or more ASCII digits, whose
/// value lies in the range of `i64`.
pub open spec fn is_i64_text(s: Seq<char>) -> bool {
    let d = unsigned_part(s);
    &&& d.len() > 0
    &&& all_digits(d)
    &&& if s[0] == '-' {
        digits_value(d) <= 9223372036854775808
    } else {
        digits_value(d) <= 9223372036854775807
    }
}

/// `c` with an ASCII capital letter made small.
pub open spec fn lower_ascii(c: char) -> char {
    if 'A' <= c && c <= 'Z' {
        ((c as u32) + 32) as char
    } else {
        c
    }
}

/// `s` spells `word` (given in small letters), ignoring ASCII case.
pub open spec fn spells_ignoring_case(s: Seq<char>, word: Seq<char>) -> bool {
    &&& s.len() == word.len()
    &&& forall|i: int| 0 <= i < s.len() ==> lower_ascii(#[trigger] s[i]) == word[i]
}

/// `m` is digits with at most one `.` among them, and at least one digit.
pub open spec fn is_mantissa(m: Seq<char>) -> bool {
    &&& forall|i: int| 0 <= i < m.len() ==> is_digit(#[trigger] m[i]) || m[i] == '.'
    &&& forall|i: int, j: int| 0 <= i < j < m.len() ==> !(#[trigger] m[i] == '.' && #[trigger] m[j] == '.')
    &&& exists|i: int| 0 <= i < m.len() && is_digit(#[trigger] m[i])
}

/// `x` is an exponent: `e` or `E`, an optional sign, and one or more digits.
pub open spec fn is_exponent(x: Seq<char>) -> bool {
    let d = unsigned_part(x.drop_first());
    &&& x.len() > 0
    &&& (x[0] == 'e' || x[0] == 'E')
    &&& d.len() > 0
    &&& all_digits(d)
}

/// `n` is a decimal number: a mantissa followed by an optional exponent.
pub open spec fn is_decimal(n: Seq<char>) -> bool {
    exists|k: int|
        0 <= k <= n.len() && is_mantissa(#[trigger] n.take(k)) && (k == n.len() || is_exponent(
            n.skip(k),
        ))
}

/// `s` is a floating-point literal: an optional sign followed by `inf`,
/// `infinity` or `nan` in any ASCII case, or by a decimal number.
pub open spec fn is_float_text(s: Seq<char>) -> bool {
    let b = unsigned_part(s);
    ||| spells_ignoring_case(b, seq!['i', 'n', 'f'])
    ||| spells_ignoring_case(b, seq!['i', 'n', 'f', 'i', 'n', 'i', 't', 'y'])
    ||| spells_ignoring_case(b, seq!['n', 'a', 'n'])
    ||| is_decimal(b)
}

/// Whether `s` parses as an `i64` (`str::parse::<i64>` succeeds).
///
/// Trusted: the contract claims that `<i64 as FromStr>::from_str` accepts exactly
/// an optional `+` or `-` followed by one or more ASCII digits whose value fits in
/// an `i64`, as the standard library documents for `from_str_radix` in base 10.
#[verifier::external_body]
pub(crate) fn parses_as_i64(s: &str) -> (r: bool)
    ensures
        r == is_i64_text(s@),
{
    s.parse::<i64>().is_ok()
}

/// The characters of `s` from index `from` on, with a leading sign skipped.
fn unsigned_start(s: &Vec<char>, from: usize) -> (r: usize)
    requires
        from <= s@.len(),
    ensures
        s@.skip(r as int) == unsigned_part(s@.skip(from as int)),
        from <= r <= s@.len(),
{
    if from < s.len() && (s[from] == '+' || s[from] == '-') {
        assert(s@.skip(from as int).drop_first() =~= s@.skip(from + 1));
        from + 1
    } else {
        from
    }
}

/// Whether `s[from..]` is one or more ASCII digits.
fn digits_from(s: &Vec<char>, from: usize) -> (r: bool)
    requires
        from <= s@.len(),
    ensures
        r == (s@.skip(from as int).len() > 0 && all_digits(s@.skip(from as int))),
{
    let n = s.len();
    if from == n {
        return false;
    }
    let mut i = from;
    while i < n
        invariant
            n == s@.len(),
            from <= i <= n,
            forall|j: int| from <= j < i ==> is_digit(#[trigger] s@[j]),
        decreases n - i,
    {
        if !('0' <= s[i] && s[i] <= '9') {
            assert(!is_digit(s@.skip(from as int)[i - from]));
            return false;
        }
        i = i + 1;
    }
    assert forall|j: int| 0 <= j < s@.skip(from as int).len() implies is_digit(
        #[trigger] s@.skip(from as int)[j],
    ) by {
        assert(s@.skip(from as int)[j] == s@[from + j]);
    }
    true
}

/// Whether `s[from..]` spells `word`, ignoring ASCII case.
fn spells_from(s: &Vec<char>, from: usize, word: &Vec<char>) -> (r: bool)
    requires
        from <= s@.len(),
    ensures
        r == spells_ignoring_case(s@.skip(from as int), word@),
{
    let n = s.len();
    if n - from != word.len() {
        return false;
    }
    let mut i: usize = 0;
    while i < word.len()
        invariant
            n == s@.len(),
            n - from == word@.len(),
            i <= word@.len(),
            forall|j: int| 0 <= j < i ==> lower_ascii(#[trigger] s@[from + j]) == word@[j],
        decreases word@.len() - i,
    {
        let c = s[from + i];
        let lc = if 'A' <= c && c <= 'Z' {
            ((c as u32) + 32) as u8 as char
        } else {
            c
        };
        assert(lc == lower_ascii(c)) by {
            if 'A' <= c && c <= 'Z' {
                assert(((c as u32) + 32) as u8 as char == ((c as u32) + 32) as char);
            }
        }
        if lc != word[i] {
            assert(s@.skip(from as int)[i as int] == c);
            return false;
        }
        i = i + 1;
    }
    assert forall|j: int| 0 <= j < s@.skip(from as int).len() implies lower_ascii(
        #[trigger] s@.skip(from as int)[j],
    ) == word@[j] by {
        assert(s@.skip(from as int)[j] == s@[from + j]);
    }
    true
}

/// The first index at or after `from` that holds `e` or `E`, or `s.len()`.
fn exponent_index(s: &Vec<char>, from: usize) -> (r: usize)
    requires
        from <= s@.len(),
    ensures
        from <= r <= s@.len(),
        r < s@.len() ==> (s@[r as int] == 'e' || s@[r as int] == 'E'),
        forall|j: int| from <= j < r ==> s@[j] != 'e' && s@[j] != 'E',
{
    let n = s.len();
    let mut i = from;
    while i < n
        invariant
            n == s@.len(),
            from <= i <= n,
            forall|j: int| from <= j < i ==> s@[j] != 'e' && s@[j] != 'E',
        decreases n - i,
    {
        if s[i] == 'e' || s[i] == 'E' {
            return i;
        }
        i = i + 1;
    }
    i
}

/// Whether `s[from..to]` is a mantissa.
fn mantissa_between(s: &Vec<char>, from: usize, to: usize) -> (r: bool)
    requires
        from <= to <= s@.len(),
    ensures
        r == is_mantissa(s@.subrange(from as int, to as int)),
{
    let ghost m = s@.subrange(from as int, to as int);
    let mut i = from;
    let mut dot: Option<usize> = None;
    let mut digit: Option<usize> = None;
    while i < to
        invariant
            from <= i <= to <= s@.len(),
            m == s@.subrange(from as int, to as int),
            forall|j: int| from <= j < i ==> is_digit(#[trigger] s@[j]) || s@[j] == '.',
            match dot {
                Some(d) => from <= d < i && s@[d as int] == '.' && forall|j: int|
                    from <= j < i && j != d ==> s@[j] != '.',
                None => forall|j: int| from <= j < i ==> s@[j] != '.',
            },
            match digit {
                Some(d) => from <= d < i && is_digit(s@[d as int]),
                None => forall|j: int| from <= j < i ==> !is_digit(#[trigger] s@[j]),
            },
        decreases to - i,
    {
        let c = s[i];
        if c == '.' {
            if let Some(d) = dot {
                assert(m[d - from] == '.' && m[i - from] == '.');
                return false;
            }
            dot = Some(i);
        } else if '0' <= c && c <= '9' {
            digit = Some(i);
        } else {
            assert(!(is_digit(m[i - from]) || m[i - from] == '.'));
            return false;
        }
        i = i + 1;
    }
    match digit {
        Some(d) => {
            assert(is_digit(m[d - from]));
            assert forall|a: int, b: int| 0 <= a < b < m.len() implies !(#[trigger] m[a] == '.'
                && #[trigger] m[b] == '.') by {
                assert(m[a] == s@[from + a]);
                assert(m[b] == s@[from + b]);
            }
            assert forall|a: int| 0 <= a < m.len() implies is_digit(#[trigger] m[a]) || m[a]
                == '.' by {
                assert(m[a] == s@[from + a]);
            }
            true
        },
        None => {
            assert forall|a: int| 0 <= a < m.len() implies !is_digit(#[trigger] m[a]) by {
                assert(m[a] == s@[from + a]);
            }
            false
        },
    }
}

/// Whether `s[from..]` is a decimal number.
fn decimal_from(s: &Vec<char>, from: usize) -> (r: bool)
    requires
        from <= s@.len(),
    ensures
        r == is_decimal(s@.skip(from as int)),
{
    let ghost n = s@.skip(from as int);
    let k = exponent_index(s, from);
    let m_ok = mantissa_between(s, from, k);
    let e_ok = if k == s.len() {
        true
    } else {
        let d = unsigned_start(s, k + 1);
        proof {
            assert(s@.skip(k as int).drop_first() =~= s@.skip(k + 1));
        }
        digits_from(s, d)
    };
    let ghost kk = k - from;
    proof {
        assert(n.take(kk) =~= s@.subrange(from as int, k as int));
        if k < s@.len() {
            assert(n.skip(kk) =~= s@.skip(k as int));
        }
    }
    if m_ok && e_ok {
        assert(is_mantissa(n.take(kk)));
        return true;
    }
    assert forall|j: int|
        0 <= j <= n.len() && is_mantissa(#[trigger] n.take(j)) implies !(j == n.len()
        || is_exponent(n.skip(j))) by {
        if j < kk {
            assert(n.skip(j)[0] == s@[from + j]);
        } else if j > kk {
            assert(n.take(j)[kk] == s@[k as int]);
        } else {
            if k < s@.len() {
                assert(n.skip(kk) =~= s@.skip(k as int));
            }
        }
    }
    false
}

/// Whether `s` parses as an `f64`.
pub fn is_float_literal(s: &str) -> (r: bool)
    ensures
        r == is_float_text(s@),
{
    let cs = crate::text::chars_of(s);
    let b = unsigned_start(&cs, 0);
    assert(cs@.skip(0) =~= cs@);
    let inf = crate::text::chars_of("inf");
    let infinity = crate::text::chars_of("infinity");
    let nan = crate::text::chars_of("nan");
    proof {
        reveal_strlit("inf");
        reveal_strlit("infinity");
        reveal_strlit("nan");
        assert(inf@ =~= seq!['i', 'n', 'f']);
        assert(infinity@ =~= seq!['i', 'n', 'f', 'i', 'n', 'i', 't', 'y']);
        assert(nan@ =~= seq!['n', 'a', 'n']);
    }
    spells_from(&cs, b, &inf) || spells_from(&cs, b, &infinity) || spells_from(&cs, b, &nan)
        || decimal_from(&cs, b)
}

} // verus!
