//! What holds of texts: white space, items, numbers.

use vstd::prelude::*;

use crate::text::{
    contains_text, decimal, digits, digits_value, first_item, is_digits, is_white_space,
    signed_decimal, trimmed, trimmed_back, trimmed_front,
};

verus! {

/// White space is what Unicode calls so: the space, the line breaks and tabs of ASCII, and a few
/// characters beyond ASCII.
pub proof fn law_white_space(c: char)
    ensures
        is_white_space(c) <==> {
            ||| c == ' '
            ||| '\t' <= c <= '\r'
            ||| c == '\u{85}'
            ||| c == '\u{a0}'
            ||| c == '\u{1680}'
            ||| '\u{2000}' <= c <= '\u{200a}'
            ||| c == '\u{2028}'
            ||| c == '\u{2029}'
            ||| c == '\u{202f}'
            ||| c == '\u{205f}'
            ||| c == '\u{3000}'
        },
{
}

/// White space in front comes off.
proof fn front_comes_off(front: Seq<char>, rest: Seq<char>)
    requires
        forall|i: int| 0 <= i < front.len() ==> is_white_space(#[trigger] front[i]),
    ensures
        trimmed_front(front + rest) == trimmed_front(rest),
    decreases front.len(),
{
    if front.len() == 0 {
        assert(front + rest =~= rest);
    } else {
        assert((front + rest).drop_first() =~= front.drop_first() + rest);
        front_comes_off(front.drop_first(), rest);
    }
}

/// White space at the end comes off.
proof fn back_comes_off(rest: Seq<char>, back: Seq<char>)
    requires
        forall|i: int| 0 <= i < back.len() ==> is_white_space(#[trigger] back[i]),
    ensures
        trimmed_back(rest + back) == trimmed_back(rest),
    decreases back.len(),
{
    if back.len() == 0 {
        assert(rest + back =~= rest);
    } else {
        assert((rest + back).drop_last() =~= rest + back.drop_last());
        back_comes_off(rest, back.drop_last());
    }
}

/// To trim a text takes off the white space around it, all of it and nothing else.
pub proof fn law_trim_takes_white_space_off(front: Seq<char>, text: Seq<char>, back: Seq<char>)
    requires
        forall|i: int| 0 <= i < front.len() ==> is_white_space(#[trigger] front[i]),
        forall|i: int| 0 <= i < back.len() ==> is_white_space(#[trigger] back[i]),
        text.len() > 0 ==> !is_white_space(text[0]) && !is_white_space(text.last()),
    ensures
        trimmed(front + text + back) == text,
{
    assert(front + text + back =~= front + (text + back));
    front_comes_off(front, text + back);
    if text.len() == 0 {
        assert(text + back =~= back + text);
        front_comes_off(back, text);
    } else {
        assert((text + back)[0] == text[0]);
        back_comes_off(text, back);
    }
}

/// The first item of a text is what stands in front of the first separator, or all of the text.
pub proof fn law_first_item_ends_at_separator(item: Seq<char>, separator: char, rest: Seq<char>)
    requires
        !item.contains(separator),
    ensures
        first_item(item, separator) == item,
        first_item(item + seq![separator] + rest, separator) == item,
{
    let text = item + seq![separator] + rest;
    let n = item.len() as int;
    assert(text[n] == separator);
    text.index_of_first_ensures(separator);
    let first = text.index_of_first(separator)->0;
    if first < n {
        assert(item[first] == separator);
    }
    assert(text.take(n) =~= item);
}

/// A text occurs in another one if that is made of something, the text and something.
pub proof fn law_text_occurs_between(text: Seq<char>, pattern: Seq<char>)
    ensures
        contains_text(text, pattern) <==> exists|before: Seq<char>, behind: Seq<char>|
            text == #[trigger] (before + pattern + behind),
{
    if contains_text(text, pattern) {
        let i = choose|i: int|
            0 <= i <= text.len() - pattern.len() && #[trigger] text.subrange(i, i + pattern.len())
                == pattern;
        let behind = text.skip(i + pattern.len());
        assert(text =~= text.take(i) + text.subrange(i, i + pattern.len()) + behind);
        assert(text == text.take(i) + pattern + behind);
    }
    if exists|before: Seq<char>, behind: Seq<char>| text == #[trigger] (before + pattern + behind) {
        let (before, behind) = choose|before: Seq<char>, behind: Seq<char>|
            text == #[trigger] (before + pattern + behind);
        let i = before.len() as int;
        assert(text.subrange(i, i + pattern.len()) =~= pattern);
    }
}

/// A number is written with decimal digits, at least one, and may have a sign in front.
pub proof fn law_number_is_digits_with_a_sign(text: Seq<char>)
    ensures
        signed_decimal(text) is Some <==> {
            ||| {
                &&& text.len() > 0
                &&& forall|i: int| 0 <= i < text.len() ==> '0' <= #[trigger] text[i] <= '9'
            }
            ||| {
                &&& text.len() > 1
                &&& text[0] == '+' || text[0] == '-'
                &&& forall|i: int| 1 <= i < text.len() ==> '0' <= #[trigger] text[i] <= '9'
            }
        },
{
    if text.len() > 0 {
        let rest = text.skip(1);
        assert forall|i: int| 1 <= i < text.len() implies #[trigger] text[i] == rest[i - 1] by {}
        assert forall|i: int| 0 <= i < rest.len() implies #[trigger] rest[i] == text[i + 1] by {}
    }
}

/// A sign in front of digits makes the number negative, or leaves it as it is.
pub proof fn law_sign_counts(text: Seq<char>)
    requires
        text.len() > 0,
        forall|i: int| 0 <= i < text.len() ==> '0' <= #[trigger] text[i] <= '9',
    ensures
        signed_decimal(text) is Some,
        signed_decimal(text)->0 >= 0,
        signed_decimal(seq!['+'] + text) == signed_decimal(text),
        signed_decimal(seq!['-'] + text) == Some(-signed_decimal(text)->0),
{
    digits_are_not_negative(text);
    assert((seq!['+'] + text).skip(1) =~= text);
    assert((seq!['-'] + text).skip(1) =~= text);
    assert((seq!['+'] + text)[0] == '+');
    assert((seq!['-'] + text)[0] == '-');
}

/// The number that digits stand for is not negative.
proof fn digits_are_not_negative(text: Seq<char>)
    requires
        forall|i: int| 0 <= i < text.len() ==> '0' <= #[trigger] text[i] <= '9',
    ensures
        digits_value(text) >= 0,
    decreases text.len(),
{
    if text.len() > 0 {
        digits_are_not_negative(text.drop_last());
    }
}

/// Each further digit of a number counts one, and those in front of it ten times as much.
pub proof fn law_digits_count_by_ten(text: Seq<char>, digit: char)
    requires
        forall|i: int| 0 <= i < text.len() ==> '0' <= #[trigger] text[i] <= '9',
        '0' <= digit <= '9',
    ensures
        signed_decimal(seq![digit]) == Some(digit as int - '0' as int),
        text.len() > 0 ==> signed_decimal(text.push(digit)) == Some(
            10 * signed_decimal(text)->0 + (digit as int - '0' as int),
        ),
{
    reveal_with_fuel(digits_value, 2);
    assert(seq![digit].drop_last() =~= Seq::<char>::empty());
    assert(seq![digit][0] == digit);
    assert(is_digits(seq![digit]));
    if text.len() > 0 {
        let longer = text.push(digit);
        assert(longer.drop_last() =~= text);
        assert forall|i: int| 0 <= i < longer.len() implies '0' <= #[trigger] longer[i] <= '9' by {
            if i < text.len() {
                assert(longer[i] == text[i]);
            }
        }
        assert(is_digits(longer));
        assert(is_digits(text));
    }
}

/// The digits of a number stand for it, and begin with zero only if they are all of it.
proof fn digits_read_back(n: nat)
    ensures
        is_digits(digits(n)),
        digits_value(digits(n)) == n,
        digits(n)[0] == '0' ==> n == 0,
    decreases n,
{
    reveal_with_fuel(digits_value, 2);
    if n < 10 {
        assert(digits(n).drop_last() =~= Seq::<char>::empty());
        assert(digits(n)[0] == ('0' as int + n) as char);
    } else {
        digits_read_back(n / 10);
        let c = ('0' as int + n % 10) as char;
        let front = digits(n / 10);
        assert(digits(n) == front.push(c));
        assert(digits(n).drop_last() =~= front);
        assert forall|i: int| 0 <= i < digits(n).len() implies '0' <= #[trigger] digits(
            n,
        )[i] <= '9' by {
            if i < front.len() {
                assert(digits(n)[i] == front[i]);
            }
        }
        assert(digits(n)[0] == front[0]);
    }
}

/// What is written for a number reads back as the number. It has no sign but the minus of a
/// negative number, and no zeros in front.
pub proof fn law_decimal_reads_back(n: int)
    ensures
        signed_decimal(decimal(n)) == Some(n),
        decimal(n).len() > 0,
        n < 0 ==> decimal(n) == seq!['-'] + decimal(-n),
        n >= 0 ==> '0' <= decimal(n)[0] <= '9',
        n > 0 ==> decimal(n)[0] != '0',
        n == 0 ==> decimal(n) == seq!['0'],
{
    if n < 0 {
        digits_read_back((-n) as nat);
        let d = digits((-n) as nat);
        assert((seq!['-'] + d).skip(1) =~= d);
        assert((seq!['-'] + d)[0] == '-');
    } else {
        digits_read_back(n as nat);
    }
}

} // verus!
