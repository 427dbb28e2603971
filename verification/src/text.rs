//! Character-level helpers on strings, stated over `Seq<char>`.

use vstd::prelude::*;

verus! {

broadcast use vstd::string::group_string_axioms;

// ---------------------------------------------------------------------------
// Specifications
// ---------------------------------------------------------------------------

/// `sub` occurs in `s` starting at position `i`.
pub open spec fn occurs_at(s: Seq<char>, sub: Seq<char>, i: int) -> bool {
    &&& 0 <= i
    &&& i + sub.len() <= s.len()
    &&& s.subrange(i, i + sub.len()) == sub
}

/// `sub` occurs somewhere in `s` (what `str::contains` answers).
pub open spec fn has_sub(s: Seq<char>, sub: Seq<char>) -> bool {
    exists|i: int| occurs_at(s, sub, i)
}

/// `i` is the first position at which `sub` occurs in `s` (what `str::find` answers).
pub open spec fn first_occurrence(s: Seq<char>, sub: Seq<char>, i: int) -> bool {
    &&& occurs_at(s, sub, i)
    &&& forall|j: int| 0 <= j < i ==> !occurs_at(s, sub, j)
}

/// `i` is the last position at which `sub` occurs in `s` (what `str::rfind` answers).
pub open spec fn last_occurrence(s: Seq<char>, sub: Seq<char>, i: int) -> bool {
    &&& occurs_at(s, sub, i)
    &&& forall|j: int| i < j ==> !occurs_at(s, sub, j)
}

/// `s` begins with `p`.
pub open spec fn starts_with(s: Seq<char>, p: Seq<char>) -> bool {
    p.len() <= s.len() && s.subrange(0, p.len() as int) == p
}

/// The Unicode `White_Space` characters, which `char::is_whitespace` accepts.
pub open spec fn is_space(c: char) -> bool {
    ||| ('\u{9}' <= c && c <= '\u{d}')
    ||| c == ' '
    ||| c == '\u{85}'
    ||| c == '\u{a0}'
    ||| c == '\u{1680}'
    ||| ('\u{2000}' <= c && c <= '\u{200a}')
    ||| c == '\u{2028}'
    ||| c == '\u{2029}'
    ||| c == '\u{202f}'
    ||| c == '\u{205f}'
    ||| c == '\u{3000}'
}

/// Every character of `s` is white space (so `s.trim()` is empty).
pub open spec fn all_space(s: Seq<char>) -> bool {
    forall|i: int| 0 <= i < s.len() ==> is_space(#[trigger] s[i])
}

/// `s` without its leading white space (`str::trim_start`).
pub open spec fn trim_start(s: Seq<char>) -> Seq<char>
    decreases s.len(),
{
    if s.len() > 0 && is_space(s[0]) {
        trim_start(s.drop_first())
    } else {
        s
    }
}

/// `s` without its trailing white space (`str::trim_end`).
pub open spec fn trim_end(s: Seq<char>) -> Seq<char>
    decreases s.len(),
{
    if s.len() > 0 && is_space(s.last()) {
        trim_end(s.drop_last())
    } else {
        s
    }
}

/// `s` without leading and trailing white space (`str::trim`).
pub open spec fn trim(s: Seq<char>) -> Seq<char> {
    trim_end(trim_start(s))
}

/// An ASCII decimal digit.
pub open spec fn is_digit(c: char) -> bool {
    '0' <= c && c <= '9'
}

/// The digit character for `d` (0 to 9).
pub open spec fn digit_char(d: nat) -> char
    recommends
        d < 10,
{
    (d + 48) as char
}

/// The decimal writing of a natural number, without leading zeros.
pub open spec fn decimal_nat(n: nat) -> Seq<char>
    decreases n,
{
    if n < 10 {
        seq![digit_char(n)]
    } else {
        decimal_nat(n / 10).push(digit_char(n % 10))
    }
}

/// The decimal writing of an integer, as `Display` prints it: a minus sign
/// before negative numbers.
pub open spec fn decimal(n: int) -> Seq<char> {
    if n < 0 {
        seq!['-'] + decimal_nat((-n) as nat)
    } else {
        decimal_nat(n as nat)
    }
}

// ---------------------------------------------------------------------------
// std functions without a vstd specification
// ---------------------------------------------------------------------------

/// `String::push`: appends one character at the end of the string.
#[verifier::external_body]
fn push_char(s: &mut String, c: char)
    ensures
        final(s)@ == old(s)@.push(c),
{
    s.push(c);
}

// ---------------------------------------------------------------------------
// Executable helpers
// ---------------------------------------------------------------------------

/// The characters of `s`, in order.
pub fn to_chars(s: &str) -> (v: Vec<char>)
    ensures
        v@ == s@,
{
    let mut v: Vec<char> = Vec::new();
    for c in it: s.chars()
        invariant
            v@ == it.seq().take(it.index() as int),
            it.seq() == s@,
    {
        v.push(c);
    }
    v
}

/// A string holding the characters of `v`.
pub fn from_chars(v: &[char]) -> (s: String)
    ensures
        s@ == v@,
{
    let mut s = String::new();
    let n = v.len();
    for i in 0..n
        invariant
            n == v@.len(),
            s@ == v@.take(i as int),
    {
        push_char(&mut s, v[i]);
        assert(v@.take(i + 1) == v@.take(i as int).push(v@[i as int]));
    }
    assert(v@.take(n as int) == v@);
    s
}

/// Appends the characters of `t` to `v`.
pub fn extend_chars(v: &mut Vec<char>, t: &[char])
    ensures
        final(v)@ == old(v)@ + t@,
{
    let n = t.len();
    for i in 0..n
        invariant
            n == t@.len(),
            v@ == old(v)@ + t@.take(i as int),
    {
        v.push(t[i]);
        assert(t@.take(i + 1) == t@.take(i as int).push(t@[i as int]));
    }
    assert(t@.take(n as int) == t@);
}

/// Appends the characters of the string `t` to `v`.
pub fn extend_str(v: &mut Vec<char>, t: &str)
    ensures
        final(v)@ == old(v)@ + t@,
{
    let tc = to_chars(t);
    extend_chars(v, tc.as_slice());
}

/// The characters `s[from..to]`.
pub fn slice_chars(s: &[char], from: usize, to: usize) -> (r: Vec<char>)
    requires
        from <= to <= s@.len(),
    ensures
        r@ == s@.subrange(from as int, to as int),
{
    let mut r: Vec<char> = Vec::new();
    for i in from..to
        invariant
            to <= s@.len(),
            r@ == s@.subrange(from as int, i as int),
    {
        r.push(s[i]);
        assert(s@.subrange(from as int, i + 1) == s@.subrange(from as int, i as int).push(
            s@[i as int],
        ));
    }
    r
}

/// Whether `sub` occurs in `s` at position `i`.
pub fn matches_at(s: &[char], sub: &[char], i: usize) -> (b: bool)
    ensures
        b == occurs_at(s@, sub@, i as int),
{
    if i > s.len() || sub.len() > s.len() - i {
        return false;
    }
    let n = sub.len();
    let sl = s.len();
    for k in 0..n
        invariant
            n == sub@.len(),
            sl == s@.len(),
            i + n <= sl,
            forall|j: int| 0 <= j < k ==> s@[i + j] == sub@[j],
    {
        if s[i + k] != sub[k] {
            assert(s@.subrange(i as int, i + n)[k as int] != sub@[k as int]);
            return false;
        }
    }
    assert(s@.subrange(i as int, i + n) =~= sub@);
    true
}

/// The first position at which `sub` occurs in `s` (`str::find`).
pub fn find_sub(s: &[char], sub: &[char]) -> (r: Option<usize>)
    ensures
        match r {
            Some(i) => first_occurrence(s@, sub@, i as int),
            None => !has_sub(s@, sub@),
        },
{
    if sub.len() > s.len() {
        return None;
    }
    let last = s.len() - sub.len();
    let mut i: usize = 0;
    loop
        invariant
            i <= last,
            last + sub@.len() == s@.len(),
            forall|j: int| 0 <= j < i ==> !occurs_at(s@, sub@, j),
        decreases last - i,
    {
        if matches_at(s, sub, i) {
            return Some(i);
        }
        if i == last {
            return None;
        }
        i = i + 1;
    }
}

/// The last position at which `sub` occurs in `s` (`str::rfind`).
pub fn rfind_sub(s: &[char], sub: &[char]) -> (r: Option<usize>)
    ensures
        match r {
            Some(i) => last_occurrence(s@, sub@, i as int),
            None => !has_sub(s@, sub@),
        },
{
    if sub.len() > s.len() {
        return None;
    }
    let mut i: usize = s.len() - sub.len();
    loop
        invariant
            i + sub@.len() <= s@.len(),
            forall|j: int| i < j ==> !occurs_at(s@, sub@, j),
        decreases i,
    {
        if matches_at(s, sub, i) {
            return Some(i);
        }
        if i == 0 {
            return None;
        }
        i = i - 1;
    }
}

/// Whether `sub` occurs in `s` (`str::contains`).
pub fn contains_chars(s: &[char], sub: &[char]) -> (b: bool)
    ensures
        b == has_sub(s@, sub@),
{
    find_sub(s, sub).is_some()
}

/// Whether the text `sub` occurs in the text `s` (`str::contains`).
pub fn contains_str(s: &str, sub: &str) -> (b: bool)
    ensures
        b == has_sub(s@, sub@),
{
    let sc = to_chars(s);
    let subc = to_chars(sub);
    contains_chars(sc.as_slice(), subc.as_slice())
}

/// Whether the text `s` begins with the text `p` (`str::starts_with`).
pub fn starts_with_chars(s: &[char], p: &[char]) -> (b: bool)
    ensures
        b == starts_with(s@, p@),
{
    let b = matches_at(s, p, 0);
    b
}

/// Whether two texts are equal.
pub fn str_eq(a: &str, b: &str) -> (r: bool)
    ensures
        r == (a@ == b@),
{
    let ac = to_chars(a);
    let bc = to_chars(b);
    if ac.len() != bc.len() {
        return false;
    }
    let r = matches_at(ac.as_slice(), bc.as_slice(), 0);
    assert(a@ =~= a@.subrange(0, a@.len() as int));
    r
}

/// Whether `c` is white space (`char::is_whitespace`).
pub fn space(c: char) -> (b: bool)
    ensures
        b == is_space(c),
{
    ('\u{9}' <= c && c <= '\u{d}') || c == ' ' || c == '\u{85}' || c == '\u{a0}' || c
        == '\u{1680}' || ('\u{2000}' <= c && c <= '\u{200a}') || c == '\u{2028}' || c
        == '\u{2029}' || c == '\u{202f}' || c == '\u{205f}' || c == '\u{3000}'
}

/// Whether every character of `s` is white space, that is, whether
/// `s.trim().is_empty()`.
pub fn is_blank(s: &str) -> (b: bool)
    ensures
        b == all_space(s@),
        b == (trim(s@).len() == 0),
{
    let sc = to_chars(s);
    proof {
        lemma_trim_empty_iff_all_space(s@);
    }
    let n = sc.len();
    for i in 0..n
        invariant
            n == sc@.len(),
            sc@ == s@,
            (trim(s@).len() == 0) == all_space(s@),
            forall|j: int| 0 <= j < i ==> is_space(#[trigger] s@[j]),
    {
        if !space(sc[i]) {
            assert(!is_space(s@[i as int]));
            return false;
        }
    }
    true
}

/// `trim_start` drops exactly the leading white space.
pub proof fn lemma_trim_start_shape(s: Seq<char>)
    ensures
        exists|k: int|
            0 <= k <= s.len() && trim_start(s) == s.subrange(k, s.len() as int) && all_space(
                s.subrange(0, k),
            ) && (k < s.len() ==> !is_space(s[k])),
    decreases s.len(),
{
    if s.len() > 0 && is_space(s[0]) {
        lemma_trim_start_shape(s.drop_first());
        let k = choose|k: int|
            0 <= k <= s.drop_first().len() && trim_start(s.drop_first())
                == s.drop_first().subrange(k, s.drop_first().len() as int) && all_space(
                s.drop_first().subrange(0, k),
            ) && (k < s.drop_first().len() ==> !is_space(s.drop_first()[k]));
        assert(s.drop_first().subrange(k, s.drop_first().len() as int) =~= s.subrange(
            k + 1,
            s.len() as int,
        ));
        assert forall|j: int| 0 <= j < k + 1 implies is_space(
            #[trigger] s.subrange(0, k + 1)[j],
        ) by {
            if j > 0 {
                assert(s.subrange(0, k + 1)[j] == s.drop_first().subrange(0, k)[j - 1]);
            }
        }
    } else {
        assert(s.subrange(0, s.len() as int) =~= s);
        assert(all_space(s.subrange(0, 0)));
    }
}

/// `trim_end` drops exactly the trailing white space.
pub proof fn lemma_trim_end_shape(s: Seq<char>)
    ensures
        exists|k: int|
            0 <= k <= s.len() && trim_end(s) == s.subrange(0, k) && all_space(
                s.subrange(k, s.len() as int),
            ) && (k > 0 ==> !is_space(s[k - 1])),
    decreases s.len(),
{
    if s.len() > 0 && is_space(s.last()) {
        lemma_trim_end_shape(s.drop_last());
        let k = choose|k: int|
            0 <= k <= s.drop_last().len() && trim_end(s.drop_last()) == s.drop_last().subrange(
                0,
                k,
            ) && all_space(s.drop_last().subrange(k, s.drop_last().len() as int)) && (k > 0
                ==> !is_space(s.drop_last()[k - 1]));
        assert(s.drop_last().subrange(0, k) =~= s.subrange(0, k));
        assert forall|j: int| 0 <= j < s.len() - k implies is_space(
            #[trigger] s.subrange(k, s.len() as int)[j],
        ) by {
            if j < s.len() - 1 - k {
                assert(s.subrange(k, s.len() as int)[j] == s.drop_last().subrange(
                    k,
                    s.drop_last().len() as int,
                )[j]);
            }
        }
    } else {
        assert(s.subrange(0, s.len() as int) =~= s);
        assert(all_space(s.subrange(s.len() as int, s.len() as int)));
    }
}

/// The trimmed text is empty exactly when all characters are white space.
pub proof fn lemma_trim_empty_iff_all_space(s: Seq<char>)
    ensures
        (trim(s).len() == 0) == all_space(s),
{
    lemma_trim_start_shape(s);
    let k = choose|k: int|
        0 <= k <= s.len() && trim_start(s) == s.subrange(k, s.len() as int) && all_space(
            s.subrange(0, k),
        ) && (k < s.len() ==> !is_space(s[k]));
    let t = trim_start(s);
    lemma_trim_end_shape(t);
    let m = choose|m: int|
        0 <= m <= t.len() && trim_end(t) == t.subrange(0, m) && all_space(
            t.subrange(m, t.len() as int),
        ) && (m > 0 ==> !is_space(t[m - 1]));
    if all_space(s) {
        if k < s.len() {
            assert(is_space(s[k]));
        }
        assert(t.len() == 0);
    } else {
        let w = choose|w: int| 0 <= w < s.len() && !is_space(#[trigger] s[w]);
        if w < k {
            assert(s.subrange(0, k)[w] == s[w]);
        }
        assert(k < s.len());
        assert(t[0] == s[k]);
        if m == 0 {
            assert(t.subrange(0, t.len() as int)[0] == t[0]);
            assert(is_space(t.subrange(0, t.len() as int)[0]));
        }
    }
}

/// The decimal writing of `n` (`u64`'s `Display`).
pub fn u64_decimal(n: u64) -> (v: Vec<char>)
    ensures
        v@ == decimal_nat(n as nat),
    decreases n,
{
    let d = (n % 10) as u8;
    let c = (d + 48) as char;
    assert(c == digit_char((n % 10) as nat));
    if n < 10 {
        let mut v: Vec<char> = Vec::new();
        v.push(c);
        assert(v@ =~= seq![c]);
        v
    } else {
        let mut v = u64_decimal(n / 10);
        v.push(c);
        v
    }
}

/// The decimal writing of `n` (`i64`'s `Display`).
pub fn i64_decimal(n: i64) -> (v: Vec<char>)
    ensures
        v@ == decimal(n as int),
{
    if n < 0 {
        let mag: u64 = ((-(n + 1)) as u64) + 1;
        assert(mag == -n);
        let mut v: Vec<char> = Vec::new();
        v.push('-');
        let digits = u64_decimal(mag);
        extend_chars(&mut v, digits.as_slice());
        assert(v@ =~= seq!['-'] + decimal_nat((-n) as nat));
        v
    } else {
        u64_decimal(n as u64)
    }
}

/// The decimal writing of `n` as a string (`i64::to_string`).
pub fn i64_to_string(n: i64) -> (s: String)
    ensures
        s@ == decimal(n as int),
{
    let v = i64_decimal(n);
    from_chars(v.as_slice())
}

/// `s` with every `c` removed (`str::replace(c, "")`).
pub open spec fn without_char(s: Seq<char>, c: char) -> Seq<char>
    decreases s.len(),
{
    if s.len() == 0 {
        s
    } else if s.last() == c {
        without_char(s.drop_last(), c)
    } else {
        without_char(s.drop_last(), c).push(s.last())
    }
}

/// The text after the last occurrence of `sep`, or all of `s` when `sep`
/// does not occur (the last piece of `str::split` for a separator that
/// cannot overlap itself).
pub open spec fn after_last(s: Seq<char>, sep: Seq<char>) -> Seq<char> {
    if has_sub(s, sep) {
        let i = choose|i: int| last_occurrence(s, sep, i);
        s.skip(i + sep.len())
    } else {
        s
    }
}

/// The characters of `s` with every `c` removed.
pub fn remove_char(s: &[char], c: char) -> (r: Vec<char>)
    ensures
        r@ == without_char(s@, c),
{
    let mut r: Vec<char> = Vec::new();
    let n = s.len();
    for i in 0..n
        invariant
            n == s@.len(),
            r@ == without_char(s@.take(i as int), c),
    {
        assert(s@.take(i + 1).drop_last() =~= s@.take(i as int));
        if s[i] != c {
            r.push(s[i]);
        }
    }
    assert(s@.take(n as int) =~= s@);
    r
}

/// The characters of `s` without leading and trailing white space.
pub fn trim_chars(s: &[char]) -> (r: Vec<char>)
    ensures
        r@ == trim(s@),
{
    let n = s.len();
    let mut a: usize = 0;
    assert(s@.skip(0) =~= s@);
    while a < n && space(s[a])
        invariant
            n == s@.len(),
            a <= n,
            trim_start(s@) == trim_start(s@.skip(a as int)),
        decreases n - a,
    {
        assert(s@.skip(a as int).drop_first() =~= s@.skip(a + 1));
        a = a + 1;
    }
    assert(trim_start(s@.skip(a as int)) == s@.skip(a as int));
    let mut b: usize = n;
    while b > a && space(s[b - 1])
        invariant
            n == s@.len(),
            a <= b <= n,
            trim(s@) == trim_end(s@.subrange(a as int, b as int)),
        decreases b,
    {
        assert(s@.subrange(a as int, b as int).drop_last() =~= s@.subrange(a as int, b - 1));
        b = b - 1;
    }
    assert(trim_end(s@.subrange(a as int, b as int)) == s@.subrange(a as int, b as int));
    slice_chars(s, a, b)
}

/// The text after the last occurrence of `sep` in `s`, or all of `s`.
pub fn split_last(s: &[char], sep: &[char]) -> (r: Vec<char>)
    ensures
        r@ == after_last(s@, sep@),
{
    match rfind_sub(s, sep) {
        Some(i) => {
            proof {
                // The last occurrence is unique, so `after_last` chose `i`.
                let j = choose|j: int| last_occurrence(s@, sep@, j);
                assert(j == i);
            }
            let sl = s.len();
            let sepl = sep.len();
            assert(i + sepl <= sl);
            slice_chars(s, i + sepl, sl)
        },
        None => {
            let mut r: Vec<char> = Vec::new();
            extend_chars(&mut r, s);
            r
        },
    }
}

} // verus!
