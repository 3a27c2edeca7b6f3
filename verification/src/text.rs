//! Character-level helpers: whitespace trimming, quote stripping, substring
//! search, upper-casing and decimal rendering.

use crate::laws::{lemma_trimmed_empty_iff_blank, lemma_trimmed_has_no_outer_space};
use std::str::Chars;
use vstd::prelude::*;
use vstd::std_specs::iter::IteratorSpec;
use vstd::string::*;

verus! {

/// The code points that count as white space.
pub open spec fn is_space(c: char) -> bool {
    let n = c as int;
    (0x09 <= n <= 0x0D) || n == 0x20 || n == 0x85 || n == 0xA0 || n == 0x1680
        || (0x2000 <= n <= 0x200A) || n == 0x2028 || n == 0x2029 || n == 0x202F
        || n == 0x205F || n == 0x3000
}

/// `s` without its leading run of white space.
pub open spec fn trim_front(s: Seq<char>) -> Seq<char>
    decreases s.len(),
{
    if s.len() > 0 && is_space(s[0]) {
        trim_front(s.drop_first())
    } else {
        s
    }
}

/// `s` without its trailing run of white space.
pub open spec fn trim_back(s: Seq<char>) -> Seq<char>
    decreases s.len(),
{
    if s.len() > 0 && is_space(s.last()) {
        trim_back(s.drop_last())
    } else {
        s
    }
}

/// `s` without surrounding white space.
pub open spec fn trimmed(s: Seq<char>) -> Seq<char> {
    trim_back(trim_front(s))
}

/// `s` neither starts nor ends with white space.
pub open spec fn no_outer_space(s: Seq<char>) -> bool {
    s.len() > 0 ==> !is_space(s[0]) && !is_space(s.last())
}

/// Every character of `s` is white space.
pub open spec fn all_space(s: Seq<char>) -> bool {
    forall|i: int| 0 <= i < s.len() ==> is_space(#[trigger] s[i])
}

/// The characters of `s`, in order.
pub fn chars_of(s: &str) -> (v: Vec<char>)
    ensures
        v@ == s@,
{
    broadcast use group_string_axioms;

    let mut it: Chars<'_> = s.chars();
    let mut v: Vec<char> = Vec::new();
    let mut done: bool = false;
    proof {
        assert(v@ + it.remaining() =~= s@);
    }
    while !done
        invariant
            it.obeys_prophetic_iter_laws(),
            v@ + it.remaining() == s@,
            it.decrease() is Some,
            done ==> it.remaining().len() == 0,
        decreases (if done { 0int } else { 1int }), it.decrease()->0,
    {
        let ghost before = it.remaining();
        let ghost taken = v@;
        match it.next() {
            Some(c) => {
                v.push(c);
                proof {
                    assert(before.len() > 0);
                    assert(v@ + it.remaining() =~= taken + before);
                }
            },
            None => {
                done = true;
            },
        }
    }
    proof {
        assert(v@ + it.remaining() =~= v@);
    }
    v
}

/// Whether `c` is white space.
pub fn is_whitespace(c: char) -> (b: bool)
    ensures
        b == is_space(c),
{
    let n: u32 = c as u32;
    (0x09 <= n && n <= 0x0D) || n == 0x20 || n == 0x85 || n == 0xA0 || n == 0x1680
        || (0x2000 <= n && n <= 0x200A) || n == 0x2028 || n == 0x2029 || n == 0x202F
        || n == 0x205F || n == 0x3000
}

/// Removes the white space around `s`.
pub fn trim(s: &str) -> (r: String)
    ensures
        r@ == trimmed(s@),
        no_outer_space(r@),
        r@.len() == 0 <==> all_space(s@),
{
    let chars = chars_of(s);
    let n: usize = chars.len();
    let mut a: usize = 0;
    let mut found: bool = false;
    proof {
        assert(s@.skip(0) =~= s@);
    }
    while !found && a < n
        invariant
            a <= n,
            n == s@.len(),
            chars@ == s@,
            trim_front(s@) == trim_front(s@.skip(a as int)),
            found ==> a < n && !is_space(s@[a as int]),
        decreases n - a + if found { 0int } else { 1int },
    {
        let c = chars[a];
        if is_whitespace(c) {
            proof {
                assert(s@.skip(a as int).drop_first() =~= s@.skip(a + 1));
            }
            a += 1;
        } else {
            found = true;
        }
    }
    let mut b: usize = n;
    let mut stop: bool = false;
    while !stop && b > a
        invariant
            a <= b <= n,
            n == s@.len(),
            chars@ == s@,
            trim_back(s@.skip(a as int)) == trim_back(s@.subrange(a as int, b as int)),
            stop ==> b > a && !is_space(s@[b - 1]),
        decreases b - a + if stop { 0int } else { 1int },
    {
        let c = chars[b - 1];
        if is_whitespace(c) {
            proof {
                assert(s@.subrange(a as int, b as int).drop_last() =~= s@.subrange(
                    a as int,
                    b - 1,
                ));
            }
            b -= 1;
        } else {
            stop = true;
        }
    }
    proof {
        assert(s@.skip(a as int) =~= s@.subrange(a as int, n as int));
        lemma_trimmed_has_no_outer_space(s@);
        lemma_trimmed_empty_iff_blank(s@);
    }
    String::from_str(s.substring_char(a, b))
}

/// `s` without one leading double quote, if it has one.
pub open spec fn skip_quote(s: Seq<char>) -> Seq<char> {
    if s.len() > 0 && s[0] == '"' {
        s.drop_first()
    } else {
        s
    }
}

/// `s` without one trailing double quote, if it has one.
pub open spec fn drop_quote(s: Seq<char>) -> Seq<char> {
    if s.len() > 0 && s.last() == '"' {
        s.drop_last()
    } else {
        s
    }
}

/// `s` with a single layer of surrounding double quotes removed: one at the
/// front and one at the back of what is then left, each only if present.
pub open spec fn unquoted(s: Seq<char>) -> Seq<char> {
    drop_quote(skip_quote(s))
}

/// Removes a single layer of surrounding double quotes.
pub fn strip_quotes(s: &str) -> (r: String)
    ensures
        r@ == unquoted(s@),
{
    let n: usize = s.unicode_len();
    let a: usize = if n > 0 && s.get_char(0) == '"' {
        1
    } else {
        0
    };
    let b: usize = if n > a && s.get_char(n - 1) == '"' {
        n - 1
    } else {
        n
    };
    proof {
        if a == 1 {
            assert(s@.drop_first() =~= s@.subrange(1, n as int));
        } else {
            assert(s@ =~= s@.subrange(0, n as int));
        }
        if n > a {
            assert(s@.subrange(a as int, n as int).drop_last() =~= s@.subrange(
                a as int,
                n - 1,
            ));
        }
    }
    String::from_str(s.substring_char(a, b))
}

/// `needle` stands in `hay` at index `i`.
pub open spec fn occurs_at(hay: Seq<char>, needle: Seq<char>, i: int) -> bool {
    &&& 0 <= i
    &&& i + needle.len() <= hay.len()
    &&& hay.subrange(i, i + needle.len()) == needle
}

/// `needle` stands somewhere in `hay`, character for character.
pub open spec fn contains(hay: Seq<char>, needle: Seq<char>) -> bool {
    exists|i: int| occurs_at(hay, needle, i)
}

fn occurs_here(hay: &Vec<char>, needle: &Vec<char>, i: usize) -> (r: bool)
    requires
        i + needle@.len() <= hay@.len(),
    ensures
        r == occurs_at(hay@, needle@, i as int),
{
    let m: usize = needle.len();
    let n: usize = hay.len();
    let mut j: usize = 0;
    while j < m
        invariant
            j <= m,
            m == needle@.len(),
            n == hay@.len(),
            i + m <= n,
            forall|k: int| 0 <= k < j ==> hay@[i + k] == #[trigger] needle@[k],
        decreases m - j,
    {
        if hay[i + j] != needle[j] {
            proof {
                assert(hay@.subrange(i as int, i + m)[j as int] == hay@[i + j]);
            }
            return false;
        }
        j += 1;
    }
    proof {
        assert(hay@.subrange(i as int, i + m) =~= needle@);
    }
    true
}

/// Whether `needle` stands somewhere in `hay`, character for character.
pub fn contains_text(hay: &str, needle: &str) -> (r: bool)
    ensures
        r == contains(hay@, needle@),
{
    let text = chars_of(hay);
    let word = chars_of(needle);
    let n: usize = text.len();
    let m: usize = word.len();
    if m > n {
        return false;
    }
    let last: usize = n - m;
    let mut i: usize = 0;
    while i < last
        invariant
            last == n - m,
            n == hay@.len(),
            m == needle@.len(),
            text@ == hay@,
            word@ == needle@,
            i <= last,
            forall|k: int| 0 <= k < i ==> !occurs_at(hay@, needle@, k),
        decreases last - i,
    {
        if occurs_here(&text, &word, i) {
            return true;
        }
        i += 1;
    }
    occurs_here(&text, &word, last)
}

/// The upper-case form of `s` by the rules of Unicode, under which one
/// character may become several.
pub uninterp spec fn uppercased(s: Seq<char>) -> Seq<char>;

/// Upper-cases `text` with `str::to_uppercase` of std. The result is a new
/// text that depends on `text` alone: no locale takes part.
#[verifier::external_body]
pub(crate) fn to_upper(text: &str) -> (r: String)
    ensures
        r@ == uppercased(text@),
{
    text.to_uppercase()
}

/// The character of the decimal digit `d`.
pub open spec fn digit(d: nat) -> char {
    if d == 0 {
        '0'
    } else if d == 1 {
        '1'
    } else if d == 2 {
        '2'
    } else if d == 3 {
        '3'
    } else if d == 4 {
        '4'
    } else if d == 5 {
        '5'
    } else if d == 6 {
        '6'
    } else if d == 7 {
        '7'
    } else if d == 8 {
        '8'
    } else {
        '9'
    }
}

/// `n` in decimal, without leading zeros.
pub open spec fn decimal(n: nat) -> Seq<char>
    decreases n,
{
    if n < 10 {
        seq![digit(n)]
    } else {
        decimal(n / 10).push(digit(n % 10))
    }
}

fn digit_str(d: u64) -> (r: &'static str)
    requires
        d < 10,
    ensures
        r@ == seq![digit(d as nat)],
{
    proof {
        reveal_strlit("0");
        reveal_strlit("1");
        reveal_strlit("2");
        reveal_strlit("3");
        reveal_strlit("4");
        reveal_strlit("5");
        reveal_strlit("6");
        reveal_strlit("7");
        reveal_strlit("8");
        reveal_strlit("9");
    }
    let r: &'static str = if d == 0 {
        "0"
    } else if d == 1 {
        "1"
    } else if d == 2 {
        "2"
    } else if d == 3 {
        "3"
    } else if d == 4 {
        "4"
    } else if d == 5 {
        "5"
    } else if d == 6 {
        "6"
    } else if d == 7 {
        "7"
    } else if d == 8 {
        "8"
    } else {
        "9"
    };
    proof {
        assert(r@ =~= seq![digit(d as nat)]);
    }
    r
}

/// Renders `n` in decimal.
pub fn decimal_string(n: u64) -> (r: String)
    ensures
        r@ == decimal(n as nat),
    decreases n,
{
    if n < 10 {
        String::from_str(digit_str(n))
    } else {
        let mut r = decimal_string(n / 10);
        r.append(digit_str(n % 10));
        proof {
            assert(r@ =~= decimal((n / 10) as nat).push(digit((n % 10) as nat)));
        }
        r
    }
}

/// The value of the decimal digit `c`; 0 for any other character.
pub open spec fn digit_value(c: char) -> nat {
    if c == '1' {
        1
    } else if c == '2' {
        2
    } else if c == '3' {
        3
    } else if c == '4' {
        4
    } else if c == '5' {
        5
    } else if c == '6' {
        6
    } else if c == '7' {
        7
    } else if c == '8' {
        8
    } else if c == '9' {
        9
    } else {
        0
    }
}

/// The number that the decimal digits `s` stand for.
pub open spec fn decimal_value(s: Seq<char>) -> nat
    decreases s.len(),
{
    if s.len() == 0 {
        0
    } else {
        decimal_value(s.drop_last()) * 10 + digit_value(s.last())
    }
}

} // verus!
