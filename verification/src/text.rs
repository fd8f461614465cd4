//! Text helpers with their exact meaning: decimal numerals, concatenation,
//! Unicode white space, prefixes and splitting.
use vstd::prelude::*;
use vstd::string::*;

use crate::encoding::{string_chars, string_from_chars};

verus! {

pub open spec fn digit_char(d: u64) -> char {
    (('0' as u64) + d) as char
}

/// The decimal numeral of `n`, without sign or leading zeros.
pub open spec fn decimal_text(n: u64) -> Seq<char>
    decreases n,
{
    if n < 10 {
        seq![digit_char(n)]
    } else {
        decimal_text(n / 10) + seq![digit_char(n % 10)]
    }
}

proof fn lemma_decimal_text_nonempty(n: u64)
    ensures
        decimal_text(n).len() >= 1,
        n >= 10 ==> decimal_text(n).len() >= 2,
    decreases n,
{
    if n >= 10 {
        lemma_decimal_text_nonempty(n / 10);
    }
}

/// Different numbers have different numerals.
pub proof fn lemma_decimal_text_injective(n: u64, m: u64)
    requires
        decimal_text(n) == decimal_text(m),
    ensures
        n == m,
    decreases n,
{
    lemma_decimal_text_nonempty(n);
    lemma_decimal_text_nonempty(m);
    let a = decimal_text(n);
    if n < 10 && m < 10 {
        assert(a[0] == digit_char(n));
        assert(decimal_text(m)[0] == digit_char(m));
    } else if n >= 10 && m >= 10 {
        let pa = decimal_text(n / 10);
        let pb = decimal_text(m / 10);
        assert(a.last() == digit_char(n % 10));
        assert(decimal_text(m).last() == digit_char(m % 10));
        assert(a.drop_last() =~= pa);
        assert(decimal_text(m).drop_last() =~= pb);
        lemma_decimal_text_injective(n / 10, m / 10);
    } else {
        assert(a.len() != decimal_text(m).len());
    }
}

/// Formats `n` in decimal, as `n.to_string()` does.
pub fn decimal_string(n: u64) -> (s: String)
    ensures
        s@ == decimal_text(n),
{
    let mut digits: Vec<char> = Vec::new();
    let mut m = n;
    // Collect digits least significant first.
    loop
        invariant_except_break
            decimal_text(n) == decimal_text(m) + digits@.reverse(),
        ensures
            decimal_text(n) == digits@.reverse(),
        decreases m,
    {
        let d = m % 10;
        let c = (('0' as u64) + d) as u8 as char;
        assert(c == digit_char(d));
        if m < 10 {
            digits.push(c);
            assert(digits@.reverse() =~= seq![c] + digits@.drop_last().reverse());
            break;
        }
        digits.push(c);
        assert(digits@.reverse() =~= seq![c] + digits@.drop_last().reverse());
        m = m / 10;
    }
    let mut out: Vec<char> = Vec::new();
    let mut i: usize = digits.len();
    while i > 0
        invariant
            0 <= i <= digits@.len(),
            out@ == digits@.subrange(i as int, digits@.len() as int).reverse(),
        decreases i,
    {
        i = i - 1;
        out.push(digits[i]);
        assert(out@ =~= digits@.subrange(i as int, digits@.len() as int).reverse());
    }
    assert(decimal_text(n) == digits@.reverse());
    assert(digits@.subrange(0, digits@.len() as int) =~= digits@);
    string_from_chars(&out)
}

/// `a` followed by `b`.
pub fn concat(a: &str, b: &str) -> (s: String)
    ensures
        s@ == a@ + b@,
{
    let mut s = String::from_str(a);
    s.append(b);
    s
}

/// Unicode's `White_Space` property, the characters for which
/// `char::is_whitespace` holds.
pub open spec fn is_white_space(c: char) -> bool {
    ||| ('\u{9}' <= c && c <= '\u{d}')
    ||| c == ' '
    ||| c == '\u{85}'
    ||| c == '\u{a0}'
    ||| c == '\u{1680}'
    ||| ('\u{2000}' <= c && c <= '\u{200a}')
    ||| c == '\u{2028}'
    ||| c == '\u{2029}'
    ||| c == '\u{202f}'
    ||| c == '\u{205f}'
    ||| c == '\u{3000}'
}

pub fn char_is_white_space(c: char) -> (r: bool)
    ensures
        r == is_white_space(c),
{
    ('\u{9}' <= c && c <= '\u{d}') || c == ' ' || c == '\u{85}' || c == '\u{a0}' || c
        == '\u{1680}' || ('\u{2000}' <= c && c <= '\u{200a}') || c == '\u{2028}' || c
        == '\u{2029}' || c == '\u{202f}' || c == '\u{205f}' || c == '\u{3000}'
}

/// The text is empty once white space is trimmed from both ends.
pub open spec fn blank(s: Seq<char>) -> bool {
    forall|i: int| 0 <= i < s.len() ==> is_white_space(#[trigger] s[i])
}

pub fn is_blank(s: &str) -> (r: bool)
    ensures
        r == blank(s@),
{
    let chars = string_chars(s);
    let mut i: usize = 0;
    while i < chars.len()
        invariant
            chars@ == s@,
            0 <= i <= chars@.len(),
            forall|j: int| 0 <= j < i ==> is_white_space(#[trigger] chars@[j]),
        decreases chars@.len() - i,
    {
        if !char_is_white_space(chars[i]) {
            return false;
        }
        i = i + 1;
    }
    true
}

pub fn strings_equal(a: &str, b: &str) -> (r: bool)
    ensures
        r == (a@ == b@),
{
    let x = string_chars(a);
    let y = string_chars(b);
    if x.len() != y.len() {
        return false;
    }
    let mut i: usize = 0;
    while i < x.len()
        invariant
            x@ == a@,
            y@ == b@,
            x@.len() == y@.len(),
            0 <= i <= x@.len(),
            forall|j: int| 0 <= j < i ==> x@[j] == y@[j],
        decreases x@.len() - i,
    {
        if x[i] != y[i] {
            return false;
        }
        i = i + 1;
    }
    assert(x@ =~= y@);
    true
}

/// The rest of `s` after `prefix`, when `s` starts with it.
pub fn strip_prefix(s: &str, prefix: &str) -> (r: Option<String>)
    ensures
        r matches Some(rest) ==> s@ == prefix@ + rest@,
        r is None <==> !(prefix@.len() <= s@.len() && s@.subrange(0, prefix@.len() as int)
            == prefix@),
{
    let x = string_chars(s);
    let p = string_chars(prefix);
    if p.len() > x.len() {
        return None;
    }
    let mut i: usize = 0;
    while i < p.len()
        invariant
            x@ == s@,
            p@ == prefix@,
            p@.len() <= x@.len(),
            0 <= i <= p@.len(),
            forall|j: int| 0 <= j < i ==> x@[j] == p@[j],
        decreases p@.len() - i,
    {
        if x[i] != p[i] {
            assert(s@.subrange(0, prefix@.len() as int)[i as int] != prefix@[i as int]);
            return None;
        }
        i = i + 1;
    }
    assert(s@.subrange(0, prefix@.len() as int) =~= prefix@);
    let mut rest: Vec<char> = Vec::new();
    let mut k: usize = p.len();
    while k < x.len()
        invariant
            x@ == s@,
            p@.len() <= k <= x@.len(),
            rest@ == x@.subrange(p@.len() as int, k as int),
        decreases x@.len() - k,
    {
        rest.push(x[k]);
        k = k + 1;
        assert(rest@ =~= x@.subrange(p@.len() as int, k as int));
    }
    assert(s@ =~= prefix@ + rest@);
    Some(string_from_chars(&rest))
}

/// Splits at the first occurrence of `sep`.
pub fn split_once(s: &str, sep: char) -> (r: Option<(String, String)>)
    ensures
        r is None <==> !s@.contains(sep),
        r matches Some((a, b)) ==> s@ == a@ + seq![sep] + b@ && !a@.contains(sep),
{
    let x = string_chars(s);
    let mut i: usize = 0;
    while i < x.len()
        invariant
            x@ == s@,
            0 <= i <= x@.len(),
            forall|j: int| 0 <= j < i ==> x@[j] != sep,
        decreases x@.len() - i,
    {
        if x[i] == sep {
            let mut a: Vec<char> = Vec::new();
            let mut k: usize = 0;
            while k < i
                invariant
                    x@ == s@,
                    0 <= k <= i < x@.len(),
                    a@ == x@.subrange(0, k as int),
                decreases i - k,
            {
                a.push(x[k]);
                k = k + 1;
                assert(a@ =~= x@.subrange(0, k as int));
            }
            let mut b: Vec<char> = Vec::new();
            let mut k2: usize = i + 1;
            while k2 < x.len()
                invariant
                    x@ == s@,
                    i < x@.len(),
                    i + 1 <= k2 <= x@.len(),
                    b@ == x@.subrange(i + 1, k2 as int),
                decreases x@.len() - k2,
            {
                b.push(x[k2]);
                k2 = k2 + 1;
                assert(b@ =~= x@.subrange(i + 1, k2 as int));
            }
            assert(s@ =~= a@ + seq![sep] + b@);
            assert(!a@.contains(sep)) by {
                if a@.contains(sep) {
                    let j = choose|j: int| 0 <= j < a@.len() && a@[j] == sep;
                    assert(x@[j] == sep);
                }
            }
            return Some((string_from_chars(&a), string_from_chars(&b)));
        }
        i = i + 1;
    }
    assert(!s@.contains(sep)) by {
        if s@.contains(sep) {
            let j = choose|j: int| 0 <= j < s@.len() && s@[j] == sep;
            assert(x@[j] == sep);
        }
    }
    None
}

} // verus!
