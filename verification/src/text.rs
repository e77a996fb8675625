//! Small facts about text: whitespace, prefixes, decimal numbers.

use vstd::prelude::*;

verus! {

/// Unicode's `White_Space` property.
pub open spec fn is_white_space(c: char) -> bool {
    let n = c as u32;
    ||| 0x9 <= n <= 0xd
    ||| n == 0x20
    ||| n == 0x85
    ||| n == 0xa0
    ||| n == 0x1680
    ||| 0x2000 <= n <= 0x200a
    ||| n == 0x2028
    ||| n == 0x2029
    ||| n == 0x202f
    ||| n == 0x205f
    ||| n == 0x3000
}

/// `s` without the white space in front.
pub open spec fn trimmed_front(s: Seq<char>) -> Seq<char>
    decreases s.len(),
{
    if s.len() > 0 && is_white_space(s[0]) {
        trimmed_front(s.drop_first())
    } else {
        s
    }
}

/// `s` without the white space at the end.
pub open spec fn trimmed_back(s: Seq<char>) -> Seq<char>
    decreases s.len(),
{
    if s.len() > 0 && is_white_space(s.last()) {
        trimmed_back(s.drop_last())
    } else {
        s
    }
}

/// `s` without the white space around it.
pub open spec fn trimmed(s: Seq<char>) -> Seq<char> {
    trimmed_back(trimmed_front(s))
}

/// `str::trim` takes off leading and trailing white space, as Unicode defines it.
pub assume_specification[ str::trim ](s: &str) -> (res: &str)
    ensures
        res@ == trimmed(s@),
;

/// `str::strip_prefix` with a text as the pattern: what follows `prefix`, if `s` begins with it.
#[verifier::external_body]
pub(crate) fn strip_prefix<'a>(s: &'a str, prefix: &str) -> (res: Option<&'a str>)
    ensures
        match res {
            Some(rest) => s@ == prefix@ + rest@,
            None => !prefix@.is_prefix_of(s@),
        },
{
    s.strip_prefix(prefix)
}

/// `pattern` occurs in `s`.
pub open spec fn contains_text(s: Seq<char>, pattern: Seq<char>) -> bool {
    exists|i: int| 0 <= i <= s.len() - pattern.len() && #[trigger] s.subrange(i, i + pattern.len())
        == pattern
}

/// `str::contains` with a text as the pattern.
#[verifier::external_body]
pub(crate) fn contains(s: &str, pattern: &str) -> (res: bool)
    ensures
        res == contains_text(s@, pattern@),
{
    s.contains(pattern)
}

/// The part of `s` in front of the first `separator`; all of `s` if there is none.
pub open spec fn first_item(s: Seq<char>, separator: char) -> Seq<char> {
    if s.contains(separator) {
        s.take(s.index_of_first(separator)->0)
    } else {
        s
    }
}

/// `str::split_once` with a character as the delimiter: splits `s` at its first occurrence.
#[verifier::external_body]
fn split_once(s: &str, delimiter: char) -> (res: Option<(&str, &str)>)
    ensures
        match res {
            Some((before, after)) => {
                &&& s@ == before@ + seq![delimiter] + after@
                &&& !before@.contains(delimiter)
            },
            None => !s@.contains(delimiter),
        },
{
    s.split_once(delimiter)
}

/// The part of `s` in front of the first `separator`; all of `s` if there is none.
pub fn item_in_front(s: &str, separator: char) -> (res: &str)
    ensures
        res@ == first_item(s@, separator),
{
    match split_once(s, separator) {
        Some((before, _)) => {
            proof {
                let n = before@.len() as int;
                assert(s@[n] == separator);
                s@.index_of_first_ensures(separator);
                let first = s@.index_of_first(separator)->0;
                if first < n {
                    assert(before@[first] == separator);
                }
                assert(s@.take(n) =~= before@);
            }
            before
        },
        None => s,
    }
}

/// Whether two texts are the same.
pub(crate) fn same_text(a: &str, b: &str) -> (res: bool)
    ensures
        res == (a@ == b@),
{
    a.to_owned() == b.to_owned()
}

/// The decimal digits of a number.
pub open spec fn is_digits(s: Seq<char>) -> bool {
    s.len() > 0 && forall|i: int| 0 <= i < s.len() ==> '0' <= #[trigger] s[i] <= '9'
}

/// The number that decimal digits stand for.
pub open spec fn digits_value(s: Seq<char>) -> int
    decreases s.len(),
{
    if s.len() == 0 {
        0
    } else {
        10 * digits_value(s.drop_last()) + (s.last() as int - '0' as int)
    }
}

/// The number that a text stands for: decimal digits with a sign in front or without one.
pub open spec fn signed_decimal(s: Seq<char>) -> Option<int> {
    if is_digits(s) {
        Some(digits_value(s))
    } else if s.len() > 0 && is_digits(s.skip(1)) && s[0] == '+' {
        Some(digits_value(s.skip(1)))
    } else if s.len() > 0 && is_digits(s.skip(1)) && s[0] == '-' {
        Some(-digits_value(s.skip(1)))
    } else {
        None
    }
}

/// `str::parse` to an `i32`: the number that the text stands for, if it fits.
#[verifier::external_body]
pub(crate) fn parse_i32(s: &str) -> (res: Option<i32>)
    ensures
        match res {
            Some(n) => signed_decimal(s@) == Some(n as int),
            None => match signed_decimal(s@) {
                Some(n) => n < i32::MIN || n > i32::MAX,
                None => true,
            },
        },
{
    s.parse::<i32>().ok()
}

/// The decimal digits of a natural number.
pub open spec fn digits(n: nat) -> Seq<char>
    decreases n,
{
    if n < 10 {
        seq![('0' as int + n) as char]
    } else {
        digits(n / 10).push(('0' as int + n % 10) as char)
    }
}

/// A number in decimal.
pub open spec fn decimal(n: int) -> Seq<char> {
    if n < 0 {
        seq!['-'] + digits((-n) as nat)
    } else {
        digits(n as nat)
    }
}

/// `i32`'s `to_string` writes a number in decimal.
#[verifier::external_body]
pub(crate) fn i32_to_string(n: i32) -> (res: String)
    ensures
        res@ == decimal(n as int),
{
    n.to_string()
}

} // verus!
