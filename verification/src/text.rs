//! Verified text utilities over `String` and `&str`.
//!
//! Offsets and lengths count characters (the unit of a string's abstract
//! view), not bytes.

use vstd::prelude::*;

verus! {

/// Whether `c` counts as whitespace, exactly as the standard library's
/// Unicode whitespace test decides it.
pub uninterp spec fn spec_is_whitespace(c: char) -> bool;

/// The lowercase form of a character sequence, exactly as the standard
/// library's Unicode lowercase conversion produces it.
pub uninterp spec fn lower_of(s: Seq<char>) -> Seq<char>;

/// Relies on `String::push`: appends one character at the end.
#[verifier::external_body]
pub fn push_char(s: &mut String, c: char)
    ensures
        final(s)@ == old(s)@.push(c),
{
    s.push(c);
}

/// Relies on `char::is_whitespace`: the Unicode whitespace test, a function
/// of the character alone.
#[verifier::external_body]
pub fn char_is_whitespace(c: char) -> (r: bool)
    ensures
        r == spec_is_whitespace(c),
{
    c.is_whitespace()
}

/// Relies on `str::to_lowercase`: the result depends on the characters alone.
#[verifier::external_body]
pub fn to_lowercase(s: &str) -> (r: String)
    ensures
        r@ == lower_of(s@),
{
    s.to_lowercase()
}

/// Whether two string slices hold the same characters.
pub fn str_eq(a: &str, b: &str) -> (r: bool)
    ensures
        r == (a@ == b@),
{
    let alen = a.unicode_len();
    let blen = b.unicode_len();
    if alen != blen {
        proof {
            assert(a@.len() != b@.len());
        }
        return false;
    }
    let mut i: usize = 0;
    while i < alen
        invariant
            alen == a@.len(),
            blen == b@.len(),
            alen == blen,
            i <= alen,
            forall|j: int| 0 <= j < i ==> a@[j] == b@[j],
        decreases alen - i,
    {
        if a.get_char(i) != b.get_char(i) {
            return false;
        }
        i += 1;
    }
    proof {
        assert(a@ =~= b@);
    }
    true
}

/// Whether a string holds the same characters as a string slice.
pub fn string_eq_str(a: &String, b: &str) -> (r: bool)
    ensures
        r == (a@ == b@),
{
    str_eq(a.as_str(), b)
}

/// The decimal digit character for a value below ten.
pub open spec fn digit_char(d: int) -> char {
    if d == 0 {
        '0'
    } else if d == 1 {
        '1'
    } else if d == 2 {
        '2'
    } else if d == 3 {
        '3'
    } else if d == 4 {
        '4'
    } else if d == 5 {
        '5'
    } else if d == 6 {
        '6'
    } else if d == 7 {
        '7'
    } else if d == 8 {
        '8'
    } else {
        '9'
    }
}

/// The decimal spelling of a natural number, most significant digit first.
pub open spec fn spec_decimal(n: int) -> Seq<char>
    decreases n,
{
    if n < 10 {
        seq![digit_char(n)]
    } else {
        spec_decimal(n / 10).push(digit_char(n % 10))
    }
}

/// The decimal spelling of a number as a fresh string.
pub fn usize_to_decimal(n: usize) -> (r: String)
    ensures
        r@ == spec_decimal(n as int),
    decreases n,
{
    if n < 10 {
        let mut s = String::new();
        push_char(&mut s, digit_char_exec(n));
        s
    } else {
        let mut s = usize_to_decimal(n / 10);
        push_char(&mut s, digit_char_exec(n % 10));
        s
    }
}

/// The decimal digit character for a value below ten.
pub fn digit_char_exec(d: usize) -> (r: char)
    requires
        d < 10,
    ensures
        r == digit_char(d as int),
{
    if d == 0 {
        '0'
    } else if d == 1 {
        '1'
    } else if d == 2 {
        '2'
    } else if d == 3 {
        '3'
    } else if d == 4 {
        '4'
    } else if d == 5 {
        '5'
    } else if d == 6 {
        '6'
    } else if d == 7 {
        '7'
    } else if d == 8 {
        '8'
    } else {
        '9'
    }
}

/// Whether a character is a decimal digit.
pub open spec fn spec_is_digit(c: char) -> bool {
    48 <= (c as u32) <= 57
}

/// The numeric value of a digit character.
pub open spec fn digit_val(c: char) -> int {
    (c as u32) - 48
}

/// Whether every character of `s` is a decimal digit.
pub open spec fn spec_all_digits(s: Seq<char>) -> bool {
    forall|i: int| 0 <= i < s.len() ==> spec_is_digit(#[trigger] s[i])
}

/// The value of a digit string, most significant digit first.
pub open spec fn spec_digits_val(s: Seq<char>) -> int
    decreases s,
{
    if s.len() == 0 {
        0
    } else {
        spec_digits_val(s.drop_last()) * 10 + digit_val(s.last())
    }
}

/// Whether `s` spells a number that the standard unsigned parse accepts:
/// an optional leading `+`, then at least one digit, with a value that fits
/// in `usize`.
pub open spec fn spec_is_ordinal(s: Seq<char>) -> bool {
    let ds = if s.len() > 0 && s[0] == '+' {
        s.drop_first()
    } else {
        s
    };
    ds.len() > 0 && spec_all_digits(ds) && spec_digits_val(ds) <= usize::MAX as int
}

/// A digit string's value only grows as digits are appended.
proof fn lemma_digits_val_mono(s: Seq<char>, i: int, j: int)
    requires
        0 <= i <= j <= s.len(),
        spec_all_digits(s),
    ensures
        spec_digits_val(s.take(i)) <= spec_digits_val(s.take(j)),
        spec_digits_val(s.take(i)) >= 0,
    decreases j - i,
{
    if i == j {
        lemma_digits_val_nonneg(s.take(i));
    } else {
        lemma_digits_val_mono(s, i, j - 1);
        assert(s.take(j).drop_last() =~= s.take(j - 1));
        assert(spec_is_digit(s.take(j).last()));
        lemma_digits_val_nonneg(s.take(j - 1));
    }
}

/// A digit string's value is never negative.
proof fn lemma_digits_val_nonneg(s: Seq<char>)
    ensures
        spec_digits_val(s) >= 0 || !spec_all_digits(s),
    decreases s,
{
    if s.len() > 0 {
        lemma_digits_val_nonneg(s.drop_last());
        assert(spec_all_digits(s) ==> spec_all_digits(s.drop_last())) by {
            if spec_all_digits(s) {
                assert(forall|i: int|
                    0 <= i < s.drop_last().len() ==> spec_is_digit(#[trigger] s.drop_last()[i]));
            }
        }
    }
}

/// Whether `s` spells a number the standard unsigned parse accepts.
#[verifier::loop_isolation(false)]
pub fn is_ordinal_str(s: &str) -> (r: bool)
    ensures
        r == spec_is_ordinal(s@),
{
    let len = s.unicode_len();
    let start: usize = if len > 0 && s.get_char(0) == '+' {
        1
    } else {
        0
    };
    let ghost ds = if s@.len() > 0 && s@[0] == '+' {
        s@.drop_first()
    } else {
        s@
    };
    proof {
        assert(ds =~= s@.subrange(start as int, len as int));
    }
    if start >= len {
        return false;
    }
    let mut i: usize = start;
    let mut acc: usize = 0;
    while i < len
        invariant
            start <= i <= len,
            len == s@.len(),
            start < len,
            ds == s@.subrange(start as int, len as int),
            spec_all_digits(ds.take(i - start)),
            acc as int == spec_digits_val(ds.take(i - start)),
        decreases len - i,
    {
        let c = s.get_char(i);
        let cu = c as u32;
        if cu < 48 || cu > 57 {
            proof {
                assert(ds[i - start] == c);
                assert(!spec_all_digits(ds));
            }
            return false;
        }
        let d = (cu - 48) as usize;
        proof {
            assert(ds.take(i - start + 1).drop_last() =~= ds.take(i - start));
            assert(ds.take(i - start + 1).last() == c);
        }
        if acc > (usize::MAX - d) / 10 {
            proof {
                assert(acc as int * 10 + d > usize::MAX as int) by (nonlinear_arith)
                    requires
                        acc as int > ((usize::MAX - d) as int) / 10,
                        0 <= d <= 9,
                        d <= usize::MAX,
                ;
                assert(spec_digits_val(ds.take(i - start + 1)) > usize::MAX as int);
                if spec_all_digits(ds) {
                    lemma_digits_val_mono(ds, i - start + 1, ds.len() as int);
                    assert(ds.take(ds.len() as int) =~= ds);
                }
            }
            return false;
        }
        acc = acc * 10 + d;
        i += 1;
    }
    proof {
        assert(ds.take(ds.len() as int) =~= ds);
    }
    true
}

/// The sequence holding `n` copies of `c`.
pub open spec fn char_repeat(c: char, n: int) -> Seq<char> {
    Seq::new(n as nat, |i: int| c)
}

/// A fresh string of `n` copies of `c`.
pub fn repeat_char(c: char, n: usize) -> (r: String)
    ensures
        r@ == char_repeat(c, n as int),
{
    let mut s = String::new();
    let mut i: usize = 0;
    while i < n
        invariant
            i <= n,
            s@ =~= char_repeat(c, i as int),
        decreases n - i,
    {
        push_char(&mut s, c);
        i += 1;
    }
    proof {
        assert(s@ =~= char_repeat(c, n as int));
    }
    s
}

/// `s` with every occurrence of `from` replaced by `to`.
pub open spec fn spec_replace_char(s: Seq<char>, from: char, to: char) -> Seq<char> {
    Seq::new(s.len(), |i: int| if s[i] == from { to } else { s[i] })
}

/// A fresh string equal to `s` with every `from` replaced by `to`.
pub fn replace_char(s: &str, from: char, to: char) -> (r: String)
    ensures
        r@ == spec_replace_char(s@, from, to),
{
    let len = s.unicode_len();
    let mut out = String::new();
    let mut i: usize = 0;
    while i < len
        invariant
            i <= len,
            len == s@.len(),
            out@ =~= spec_replace_char(s@, from, to).take(i as int),
        decreases len - i,
    {
        let c = s.get_char(i);
        if c == from {
            push_char(&mut out, to);
        } else {
            push_char(&mut out, c);
        }
        proof {
            assert(out@ =~= spec_replace_char(s@, from, to).take(i + 1));
        }
        i += 1;
    }
    proof {
        assert(out@ =~= spec_replace_char(s@, from, to));
    }
    out
}

/// The first position of `c` in `s`, if any.
pub fn find_char(s: &str, c: char) -> (r: Option<usize>)
    ensures
        match r {
            Some(i) => i < s@.len() && s@[i as int] == c && forall|j: int|
                0 <= j < i ==> s@[j] != c,
            None => forall|j: int| 0 <= j < s@.len() ==> s@[j] != c,
        },
{
    let len = s.unicode_len();
    let mut i: usize = 0;
    while i < len
        invariant
            i <= len,
            len == s@.len(),
            forall|j: int| 0 <= j < i ==> s@[j] != c,
        decreases len - i,
    {
        if s.get_char(i) == c {
            return Some(i);
        }
        i += 1;
    }
    None
}

/// Whether `needle` occurs in `hay` as a contiguous run.
pub open spec fn spec_contains_seq(hay: Seq<char>, needle: Seq<char>) -> bool {
    exists|i: int|
        0 <= i <= hay.len() - needle.len() && #[trigger] hay.subrange(i, i + needle.len() as int)
            =~= needle
}

/// Whether `needle` occurs in `hay` as a contiguous run.
pub fn contains_sub(hay: &str, needle: &str) -> (r: bool)
    ensures
        r == spec_contains_seq(hay@, needle@),
{
    let hlen = hay.unicode_len();
    let nlen = needle.unicode_len();
    if nlen > hlen {
        proof {
            assert(!spec_contains_seq(hay@, needle@));
        }
        return false;
    }
    let mut i: usize = 0;
    while i <= hlen - nlen
        invariant
            nlen <= hlen,
            hlen == hay@.len(),
            nlen == needle@.len(),
            i <= hlen - nlen + 1,
            forall|k: int|
                0 <= k < i ==> !(#[trigger] hay@.subrange(k, k + needle@.len() as int)
                    =~= needle@),
        decreases hlen + 1 - i,
    {
        let mut j: usize = 0;
        let mut matches_here = true;
        while j < nlen
            invariant
                i + nlen <= hlen,
                hlen == hay@.len(),
                nlen == needle@.len(),
                j <= nlen,
                matches_here == (forall|t: int| 0 <= t < j ==> hay@[i + t] == needle@[t]),
                !matches_here ==> j == nlen,
            decreases nlen - j,
        {
            if hay.get_char(i + j) != needle.get_char(j) {
                matches_here = false;
                proof {
                    assert(hay@[i + j] != needle@[j as int]);
                }
                j = nlen;
            } else {
                proof {
                    assert(forall|t: int| 0 <= t < j + 1 ==> hay@[i + t] == needle@[t]);
                }
                j += 1;
            }
        }
        if matches_here {
            proof {
                assert(hay@.subrange(i as int, i + needle@.len() as int) =~= needle@);
            }
            return true;
        }
        proof {
            assert(!(hay@.subrange(i as int, i + needle@.len() as int) =~= needle@));
        }
        i += 1;
    }
    proof {
        assert forall|k: int| 0 <= k <= hay@.len() - needle@.len() implies !(#[trigger] hay@
            .subrange(k, k + needle@.len() as int) =~= needle@) by {
            assert(k < i);
        }
    }
    false
}

/// The number of leading whitespace characters of `s`.
pub open spec fn spec_trim_start_len(s: Seq<char>) -> int
    decreases s,
{
    if s.len() == 0 {
        0
    } else if spec_is_whitespace(s[0]) {
        1 + spec_trim_start_len(s.drop_first())
    } else {
        0
    }
}

/// The number of trailing whitespace characters of `s`.
pub open spec fn spec_trim_end_len(s: Seq<char>) -> int
    decreases s,
{
    if s.len() == 0 {
        0
    } else if spec_is_whitespace(s.last()) {
        1 + spec_trim_end_len(s.drop_last())
    } else {
        0
    }
}

/// `s` without leading and trailing whitespace.
pub open spec fn spec_trim(s: Seq<char>) -> Seq<char> {
    let a = spec_trim_start_len(s);
    let b = spec_trim_end_len(s);
    if a + b <= s.len() {
        s.subrange(a, s.len() - b)
    } else {
        Seq::empty()
    }
}

/// The leading-whitespace count is the first non-whitespace position.
proof fn lemma_trim_start_at(s: Seq<char>, i: int)
    requires
        0 <= i <= s.len(),
        forall|j: int| 0 <= j < i ==> spec_is_whitespace(#[trigger] s[j]),
        i < s.len() ==> !spec_is_whitespace(s[i]),
    ensures
        spec_trim_start_len(s) == i,
    decreases s,
{
    if s.len() == 0 {
    } else if spec_is_whitespace(s[0]) {
        assert(i != 0);
        lemma_trim_start_at(s.drop_first(), i - 1);
    } else {
        assert(i == 0);
    }
}

/// The trailing-whitespace count is determined by the last non-whitespace
/// position.
proof fn lemma_trim_end_at(s: Seq<char>, i: int)
    requires
        0 <= i <= s.len(),
        forall|j: int| i <= j < s.len() ==> spec_is_whitespace(#[trigger] s[j]),
        i > 0 ==> !spec_is_whitespace(s[i - 1]),
    ensures
        spec_trim_end_len(s) == s.len() - i,
    decreases s,
{
    if s.len() == 0 {
    } else if spec_is_whitespace(s.last()) {
        assert(i != s.len());
        lemma_trim_end_at(s.drop_last(), i);
    } else {
        assert(i == s.len());
    }
}

/// A fresh string equal to `s` without leading and trailing whitespace.
pub fn trim_str(s: &str) -> (r: String)
    ensures
        r@ == spec_trim(s@),
{
    let len = s.unicode_len();
    let mut a: usize = 0;
    while a < len && char_is_whitespace(s.get_char(a))
        invariant
            a <= len,
            len == s@.len(),
            forall|j: int| 0 <= j < a ==> spec_is_whitespace(#[trigger] s@[j]),
        decreases len - a,
    {
        a += 1;
    }
    proof {
        lemma_trim_start_at(s@, a as int);
    }
    if a == len {
        proof {
            lemma_trim_end_at(s@, 0);
            assert(spec_trim(s@) =~= Seq::<char>::empty());
        }
        return String::new();
    }
    let mut b: usize = len;
    while b > a && char_is_whitespace(s.get_char(b - 1))
        invariant
            a <= b <= len,
            len == s@.len(),
            forall|j: int| b <= j < len ==> spec_is_whitespace(#[trigger] s@[j]),
        decreases b,
    {
        b -= 1;
    }
    if b == a {
        proof {
            assert(!spec_is_whitespace(s@[a as int]));
            assert(spec_is_whitespace(s@[a as int]));
        }
    }
    proof {
        lemma_trim_end_at(s@, b as int);
    }
    s.substring_char(a, b).to_owned()
}

} // verus!
