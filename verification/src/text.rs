//! Character-level helpers on strings, stated over their `Seq<char>` views.

use vstd::prelude::*;

verus! {

/// `pat` occurs in `s` starting at index `i`.
pub open spec fn occurs_at(s: Seq<char>, pat: Seq<char>, i: int) -> bool {
    &&& 0 <= i
    &&& i + pat.len() <= s.len()
    &&& s.subrange(i, i + pat.len()) == pat
}

/// `pat` occurs somewhere in `s`.
pub open spec fn contains_seq(s: Seq<char>, pat: Seq<char>) -> bool {
    exists|i: int| occurs_at(s, pat, i)
}

/// The first index at or after `from` where `pat` occurs in `s`.
pub open spec fn first_occurrence(s: Seq<char>, pat: Seq<char>, from: int) -> Option<int>
    decreases s.len() + 1 - from,
{
    if from < 0 || from + pat.len() > s.len() {
        None
    } else if occurs_at(s, pat, from) {
        Some(from)
    } else {
        first_occurrence(s, pat, from + 1)
    }
}

/// `first_occurrence` is the least occurrence at or after `from`, and there is none
/// exactly when no index at or after `from` holds one.
pub proof fn lemma_first_occurrence(s: Seq<char>, pat: Seq<char>, from: int)
    requires
        0 <= from,
    ensures
        match first_occurrence(s, pat, from) {
            Some(i) => from <= i && i + pat.len() <= s.len() && occurs_at(s, pat, i) && forall|j: int|
                from <= j < i ==> !occurs_at(s, pat, j),
            None => forall|j: int| from <= j ==> !occurs_at(s, pat, j),
        },
    decreases s.len() + 1 - from,
{
    if from + pat.len() > s.len() {
    } else if occurs_at(s, pat, from) {
    } else {
        lemma_first_occurrence(s, pat, from + 1);
    }
}

/// The number of indices at or after `i` where `pat` occurs in `s`.
pub open spec fn occurrences_from(s: Seq<char>, pat: Seq<char>, i: int) -> nat
    decreases s.len() + 1 - i,
{
    if i < 0 || i > s.len() {
        0
    } else {
        (if occurs_at(s, pat, i) {
            1nat
        } else {
            0nat
        }) + occurrences_from(s, pat, i + 1)
    }
}

/// Counting from a later index finds no more occurrences.
pub proof fn lemma_occurrences_monotone(s: Seq<char>, pat: Seq<char>, i: int, j: int)
    requires
        0 <= i <= j,
    ensures
        occurrences_from(s, pat, j) <= occurrences_from(s, pat, i),
    decreases j - i,
{
    if i < j {
        lemma_occurrences_monotone(s, pat, i + 1, j);
    }
}

/// `s` without every leading repetition of `pat` (for a nonempty `pat`).
pub open spec fn trim_leading(s: Seq<char>, pat: Seq<char>) -> Seq<char>
    decreases s.len(),
{
    if pat.len() > 0 && occurs_at(s, pat, 0) {
        trim_leading(s.skip(pat.len() as int), pat)
    } else {
        s
    }
}

/// What `trim_leading` leaves does not start with `pat` (for a nonempty `pat`).
pub proof fn lemma_trim_leading(s: Seq<char>, pat: Seq<char>)
    requires
        pat.len() > 0,
    ensures
        !occurs_at(trim_leading(s, pat), pat, 0),
    decreases s.len(),
{
    if occurs_at(s, pat, 0) {
        lemma_trim_leading(s.skip(pat.len() as int), pat);
    }
}

/// The characters of `s`, in order.
pub fn chars_of(s: &str) -> (v: Vec<char>)
    ensures
        v@ == s@,
{
    let mut v: Vec<char> = Vec::new();
    for c in it: s.chars()
        invariant
            v@ == it.seq().take(it.index() as int),
            it.seq() == s@,
    {
        v.push(c);
    }
    v
}

/// Whether `pat` occurs in `s` at index `i`.
pub fn matches_at(s: &Vec<char>, pat: &Vec<char>, i: usize) -> (r: bool)
    ensures
        r == occurs_at(s@, pat@, i as int),
{
    if i > s.len() || pat.len() > s.len() - i {
        return false;
    }
    let mut k: usize = 0;
    while k < pat.len()
        invariant
            i + pat.len() <= s.len(),
            k <= pat.len(),
            forall|m: int| 0 <= m < k ==> s@[i + m] == pat@[m],
        decreases pat.len() - k,
    {
        if s[i + k] != pat[k] {
            assert(s@.subrange(i as int, i + pat.len())[k as int] != pat@[k as int]);
            return false;
        }
        k = k + 1;
    }
    assert(s@.subrange(i as int, i + pat.len()) =~= pat@);
    true
}

/// The first index at or after `from` where `pat` occurs in `s`.
pub fn find_from(s: &Vec<char>, pat: &Vec<char>, from: usize) -> (r: Option<usize>)
    ensures
        r == (match first_occurrence(s@, pat@, from as int) {
            Some(i) => Some(i as usize),
            None => None::<usize>,
        }),
{
    if from > s.len() || pat.len() > s.len() - from {
        return None;
    }
    let last = s.len() - pat.len();
    let mut i = from;
    loop
        invariant
            from <= i <= last,
            last + pat@.len() == s@.len(),
            first_occurrence(s@, pat@, from as int) == first_occurrence(s@, pat@, i as int),
        decreases last - i,
    {
        if matches_at(s, pat, i) {
            return Some(i);
        }
        if i == last {
            assert(first_occurrence(s@, pat@, i + 1) == None::<int>);
            return None;
        }
        i = i + 1;
    }
}

/// Whether `pat` occurs anywhere in `s`.
pub fn contains_chars(s: &Vec<char>, pat: &Vec<char>) -> (r: bool)
    ensures
        r == contains_seq(s@, pat@),
{
    let found = find_from(s, pat, 0);
    proof {
        lemma_first_occurrence(s@, pat@, 0);
    }
    found.is_some()
}

/// Whether the text `s` occurs in the text `hay`.
pub fn text_contains(hay: &str, s: &str) -> (r: bool)
    ensures
        r == contains_seq(hay@, s@),
{
    let h = chars_of(hay);
    let p = chars_of(s);
    contains_chars(&h, &p)
}

/// Whether two texts are equal.
pub fn same_text(a: &str, b: &str) -> (r: bool)
    ensures
        r == (a@ == b@),
{
    let x = chars_of(a);
    let y = chars_of(b);
    if x.len() != y.len() {
        return false;
    }
    let r = matches_at(&x, &y, 0);
    assert(x@.subrange(0, y@.len() as int) =~= x@);
    r
}

/// The characters `s[from..to]` as a string.
pub fn slice_text(s: &str, from: usize, to: usize) -> (r: String)
    requires
        from <= to <= s@.len(),
    ensures
        r@ == s@.subrange(from as int, to as int),
{
    String::from_str(s.substring_char(from, to))
}

/// A copy of the text `s`.
pub fn owned_text(s: &str) -> (r: String)
    ensures
        r@ == s@,
{
    String::from_str(s)
}

/// `s` with every leading repetition of the nonempty `pat` removed
/// (`str::trim_start_matches` with a string pattern).
pub fn trim_start_text(s: &str, pat: &str) -> (r: String)
    requires
        pat@.len() > 0,
    ensures
        r@ == trim_leading(s@, pat@),
{
    let cs = chars_of(s);
    let ps = chars_of(pat);
    let n = cs.len();
    let mut i: usize = 0;
    assert(s@.skip(0) =~= s@);
    loop
        invariant
            n == cs@.len(),
            cs@ == s@,
            ps@ == pat@,
            i <= cs@.len(),
            ps@.len() > 0,
            trim_leading(s@, pat@) == trim_leading(s@.skip(i as int), pat@),
        ensures
            i <= cs@.len(),
            trim_leading(s@, pat@) == trim_leading(s@.skip(i as int), pat@),
            !occurs_at(s@, pat@, i as int),
        decreases cs@.len() - i,
    {
        let m = matches_at(&cs, &ps, i);
        if !m {
            break;
        }
        proof {
            let t = s@.skip(i as int);
            assert(t.subrange(0, pat@.len() as int) =~= s@.subrange(i as int, i + pat@.len()));
            assert(t.skip(pat@.len() as int) =~= s@.skip(i + pat@.len()));
        }
        i = i + ps.len();
    }
    proof {
        let t = s@.skip(i as int);
        if occurs_at(t, pat@, 0) {
            assert(t.subrange(0, pat@.len() as int) =~= s@.subrange(i as int, i + pat@.len()));
        }
    }
    slice_text(s, i, cs.len())
}

/// The text `a` followed by the text `b`.
pub fn concat_text(a: &str, b: &str) -> (r: String)
    ensures
        r@ == a@ + b@,
{
    let mut r = String::from_str(a);
    r.append(b);
    r
}

/// `c` has Unicode's `White_Space` property (as `char::is_whitespace` tells):
/// the controls U+0009 to U+000D, the space, U+0085, the no-break space, U+1680,
/// U+2000 to U+200A, the line and paragraph separators, U+202F, U+205F and U+3000.
pub open spec fn is_white_space(c: char) -> bool {
    ||| '\u{9}' <= c && c <= '\u{d}'
    ||| c == ' ' || c == '\u{85}' || c == '\u{a0}' || c == '\u{1680}'
    ||| '\u{2000}' <= c && c <= '\u{200a}'
    ||| c == '\u{2028}' || c == '\u{2029}' || c == '\u{202f}' || c == '\u{205f}' || c == '\u{3000}'
}

/// `s` without its leading whitespace.
pub open spec fn trim_start_ws(s: Seq<char>) -> Seq<char>
    decreases s.len(),
{
    if s.len() > 0 && is_white_space(s[0]) {
        trim_start_ws(s.drop_first())
    } else {
        s
    }
}

/// `s` without its trailing whitespace.
pub open spec fn trim_end_ws(s: Seq<char>) -> Seq<char>
    decreases s.len(),
{
    if s.len() > 0 && is_white_space(s.last()) {
        trim_end_ws(s.drop_last())
    } else {
        s
    }
}

/// The text `s` without its leading and trailing whitespace, as `str::trim`
/// gives it.
pub open spec fn trimmed(s: Seq<char>) -> Seq<char> {
    trim_end_ws(trim_start_ws(s))
}

/// The text `s` in lower case, as `str::to_lowercase` gives it (Unicode case
/// mapping).
pub uninterp spec fn lowercased(s: Seq<char>) -> Seq<char>;

/// `str::trim`: the text without leading and trailing whitespace.
///
/// Trusted: the contract claims what the standard library documents, that the
/// characters with Unicode's `White_Space` property are removed from both ends.
#[verifier::external_body]
pub(crate) fn trim_text(s: &str) -> (r: String)
    ensures
        r@ == trimmed(s@),
{
    s.trim().to_string()
}

/// `str::to_lowercase`: the text in lower case.
///
/// Trusted: the contract only names the result (`lowercased`), a function of `s`
/// alone; the Unicode case mapping itself is not stated.
#[verifier::external_body]
pub(crate) fn lowercase_text(s: &str) -> (r: String)
    ensures
        r@ == lowercased(s@),
{
    s.to_lowercase()
}

/// The models of a sequence of texts.
pub open spec fn texts_model(ts: Seq<String>) -> Seq<Seq<char>> {
    ts.map_values(|t: String| t@)
}

/// The words of `s`: its maximal runs of characters that are not whitespace, in
/// order, as `str::split_whitespace` gives them.
pub open spec fn whitespace_words(s: Seq<char>) -> Seq<Seq<char>>
    decreases s.len(),
{
    if s.len() == 0 {
        seq![]
    } else if is_white_space(s.last()) {
        whitespace_words(s.drop_last())
    } else {
        let rest = whitespace_words(s.drop_last());
        if s.len() >= 2 && !is_white_space(s[s.len() - 2]) && rest.len() > 0 {
            rest.update(rest.len() - 1, rest.last().push(s.last()))
        } else {
            rest.push(seq![s.last()])
        }
    }
}

/// `str::split_whitespace`: the words of `s`.
///
/// Trusted: the contract claims what the standard library documents, that the
/// words are the maximal runs of characters without Unicode's `White_Space`
/// property, in order, none of them empty.
#[verifier::external_body]
pub(crate) fn split_words(s: &str) -> (r: Vec<String>)
    ensures
        texts_model(r@) == whitespace_words(s@),
{
    s.split_whitespace().map(|w| w.to_string()).collect()
}

/// `String::push`: appends the character `c`.
///
/// Trusted: the contract claims what the standard library documents, that `c`
/// is appended to the end of the text.
#[verifier::external_body]
pub(crate) fn push_char(s: &mut String, c: char)
    ensures
        final(s)@ == old(s)@.push(c),
{
    s.push(c);
}

/// `String::pop`: removes the last character, if there is one, and returns it.
///
/// Trusted: the contract claims what the standard library documents.
#[verifier::external_body]
pub(crate) fn pop_char(s: &mut String) -> (r: Option<char>)
    ensures
        old(s)@.len() == 0 ==> r is None && final(s)@ == old(s)@,
        old(s)@.len() > 0 ==> r == Some(old(s)@.last()) && final(s)@ == old(s)@.drop_last(),
{
    s.pop()
}

/// The character of the decimal digit `d`.
pub open spec fn digit_char(d: nat) -> char {
    (48 + d) as char
}

/// The decimal numeral of `n`, without leading zeros.
pub open spec fn decimal(n: nat) -> Seq<char>
    decreases n,
{
    if n < 10 {
        seq![digit_char(n)]
    } else {
        decimal(n / 10).push(digit_char(n % 10))
    }
}

/// The decimal numeral of `n`.
pub fn decimal_text(n: usize) -> (r: String)
    ensures
        r@ == decimal(n as nat),
    decreases n,
{
    let d = (n % 10) as u8;
    let c = (d + 48) as char;
    assert(c == digit_char((n % 10) as nat));
    if n < 10 {
        let mut r = String::new();
        push_char(&mut r, c);
        assert(r@ =~= seq![digit_char(n as nat)]);
        r
    } else {
        let mut r = decimal_text(n / 10);
        push_char(&mut r, c);
        r
    }
}

/// The texts `items` with `sep` between each two.
pub open spec fn joined(items: Seq<Seq<char>>, sep: Seq<char>) -> Seq<char>
    decreases items.len(),
{
    if items.len() == 0 {
        Seq::empty()
    } else if items.len() == 1 {
        items[0]
    } else {
        joined(items.drop_last(), sep) + sep + items.last()
    }
}

/// The texts `items` with `sep` between each two.
pub fn join_texts(items: &Vec<String>, sep: &str) -> (r: String)
    ensures
        r@ == joined(texts_model(items@), sep@),
{
    let mut r = String::new();
    let mut i: usize = 0;
    while i < items.len()
        invariant
            i <= items@.len(),
            r@ == joined(texts_model(items@).take(i as int), sep@),
        decreases items@.len() - i,
    {
        proof {
            let t = texts_model(items@);
            assert(t.take(i + 1).drop_last() =~= t.take(i as int));
            if i == 0 {
                assert(t.take(1) =~= seq![items@[0]@]);
            }
        }
        if i > 0 {
            r.append(sep);
        }
        r.append(items[i].as_str());
        i = i + 1;
    }
    assert(texts_model(items@).take(items@.len() as int) =~= texts_model(items@));
    r
}

/// `std::path::Path::exists`: whether the file system holds an entry at `p`.
///
/// Trusted: nothing is promised of the result, which depends on the file system
/// at the time of the call.
#[verifier::external_body]
pub(crate) fn path_exists(p: &str) -> (r: bool) {
    std::path::Path::new(p).exists()
}

} // verus!
