//! What holds of request headers.

use vstd::prelude::*;

use crate::address::forwarded;
use crate::headers::{ascii_text, bearer, header_text, is_visible_ascii};
use crate::laws::text::{law_first_item_ends_at_separator, law_trim_takes_white_space_off};
use crate::text::is_white_space;
use crate::token::is_token;

verus! {

/// Bytes that are the characters of a text, all of them visible ASCII, are read as that text.
proof fn bytes_are_read_as_text(bytes: Seq<u8>, text: Seq<char>)
    requires
        bytes.len() == text.len(),
        forall|i: int| 0 <= i < bytes.len() ==> #[trigger] bytes[i] as int == text[i] as int,
        forall|i: int|
            0 <= i < text.len() ==> ' ' <= #[trigger] text[i] <= '~' || text[i] == '\t',
    ensures
        is_visible_ascii(bytes),
        ascii_text(bytes) == text,
{
    assert forall|i: int| 0 <= i < bytes.len() implies 32 <= #[trigger] bytes[i] < 127 || bytes[i]
        == 9 by {
        assert(' ' <= text[i] <= '~' || text[i] == '\t');
    }
    assert(ascii_text(bytes) =~= text);
}

/// A request whose authorization header is `Bearer `, any number of spaces and tabs, a text and
/// again spaces and tabs carries that text as its token, all of it.
pub proof fn law_bearer_token_is_the_text_behind_bearer(
    headers: Map<Seq<char>, Seq<u8>>,
    front: Seq<char>,
    token: Seq<char>,
    back: Seq<char>,
)
    requires
        headers.contains_key("authorization"@),
        ({
            let text = "Bearer "@ + front + token + back;
            let bytes = headers["authorization"@];
            &&& bytes.len() == text.len()
            &&& forall|i: int| 0 <= i < bytes.len() ==> #[trigger] bytes[i] as int == text[i] as int
        }),
        forall|i: int| 0 <= i < front.len() ==> #[trigger] front[i] == ' ' || front[i] == '\t',
        forall|i: int| 0 <= i < back.len() ==> #[trigger] back[i] == ' ' || back[i] == '\t',
        forall|i: int|
            0 <= i < token.len() ==> ' ' <= #[trigger] token[i] <= '~' || token[i] == '\t',
        token.len() > 0 ==> token[0] != ' ' && token[0] != '\t' && token.last() != ' '
            && token.last() != '\t',
    ensures
        bearer(headers) == Some(token),
{
    reveal_strlit("Bearer ");
    let text = "Bearer "@ + front + token + back;
    assert forall|i: int| 0 <= i < text.len() implies ' ' <= #[trigger] text[i] <= '~' || text[i]
        == '\t' by {
        let f = 7 + front.len();
        let t = f + token.len();
        if i < 7 {
            assert(text[i] == "Bearer "@[i]);
        } else if i < f {
            assert(text[i] == front[i - 7]);
        } else if i < t {
            assert(text[i] == token[i - f]);
        } else {
            assert(text[i] == back[i - t]);
        }
    }
    bytes_are_read_as_text(headers["authorization"@], text);
    assert("Bearer "@ =~= text.subrange(0, 7));
    assert(text.skip(7) =~= front + token + back);
    assert forall|i: int| 0 <= i < front.len() implies is_white_space(#[trigger] front[i]) by {}
    assert forall|i: int| 0 <= i < back.len() implies is_white_space(#[trigger] back[i]) by {}
    law_trim_takes_white_space_off(front, token, back);
}

/// A token of the form that logins give out is carried by a request whose authorization header is
/// `Bearer ` and the token.
pub proof fn law_bearer_carries_tokens_of_logins(
    headers: Map<Seq<char>, Seq<u8>>,
    token: Seq<char>,
)
    requires
        is_token(token),
        headers.contains_key("authorization"@),
        headers["authorization"@].len() == 39,
        forall|i: int|
            0 <= i < 39 ==> #[trigger] headers["authorization"@][i] as int == ("Bearer "@
                + token)[i] as int,
    ensures
        bearer(headers) == Some(token),
{
    let none = Seq::<char>::empty();
    reveal_strlit("Bearer ");
    assert("Bearer "@ + none + token + none =~= "Bearer "@ + token);
    law_bearer_token_is_the_text_behind_bearer(headers, none, token, none);
}

/// A request carries no token if it has no authorization header, if the header holds a byte other
/// than visible ASCII and tabs, or if the header does not begin with `Bearer `.
pub proof fn law_no_bearer_no_token(headers: Map<Seq<char>, Seq<u8>>)
    requires
        headers.contains_key("authorization"@) ==> {
            let bytes = headers["authorization"@];
            ||| exists|i: int|
                0 <= i < bytes.len() && !(32 <= #[trigger] bytes[i] < 127) && bytes[i] != 9
            ||| bytes.len() < 7
            ||| exists|i: int| 0 <= i < 7 && #[trigger] bytes[i] as int != "Bearer "@[i] as int
        },
    ensures
        bearer(headers) is None,
{
    reveal_strlit("Bearer ");
    if let Some(text) = header_text(headers, "authorization"@) {
        let bytes = headers["authorization"@];
        if "Bearer "@.is_prefix_of(text) {
            assert forall|i: int| 0 <= i < 7 implies #[trigger] bytes[i] as int
                == "Bearer "@[i] as int by {
                assert("Bearer "@[i] == text.subrange(0, 7)[i]);
                assert(text[i] == bytes[i] as char);
            }
        }
    }
}

/// The address that a proxy puts down is the first item of the header, up to a comma, without the
/// spaces and tabs around it.
pub proof fn law_forwarded_address_is_the_first_item(
    headers: Map<Seq<char>, Seq<u8>>,
    front: Seq<char>,
    item: Seq<char>,
    back: Seq<char>,
    tail: Seq<char>,
)
    requires
        headers.contains_key("x-forwarded-for"@),
        ({
            let text = front + item + back + tail;
            let bytes = headers["x-forwarded-for"@];
            &&& bytes.len() == text.len()
            &&& forall|i: int| 0 <= i < bytes.len() ==> #[trigger] bytes[i] as int == text[i] as int
        }),
        forall|i: int| 0 <= i < front.len() ==> #[trigger] front[i] == ' ' || front[i] == '\t',
        forall|i: int| 0 <= i < back.len() ==> #[trigger] back[i] == ' ' || back[i] == '\t',
        forall|i: int|
            0 <= i < item.len() ==> ' ' <= #[trigger] item[i] <= '~' || item[i] == '\t',
        forall|i: int|
            0 <= i < tail.len() ==> ' ' <= #[trigger] tail[i] <= '~' || tail[i] == '\t',
        forall|i: int| 0 <= i < item.len() ==> #[trigger] item[i] != ',',
        item.len() > 0 ==> item[0] != ' ' && item[0] != '\t' && item.last() != ' ' && item.last()
            != '\t',
        tail.len() > 0 ==> tail[0] == ',',
    ensures
        forwarded(headers) == Some(item),
{
    let text = front + item + back + tail;
    let first = front + item + back;
    assert forall|i: int| 0 <= i < text.len() implies ' ' <= #[trigger] text[i] <= '~' || text[i]
        == '\t' by {
        let f = front.len() as int;
        let t = f + item.len();
        let b = t + back.len();
        if i < f {
            assert(text[i] == front[i]);
        } else if i < t {
            assert(text[i] == item[i - f]);
        } else if i < b {
            assert(text[i] == back[i - t]);
        } else {
            assert(text[i] == tail[i - b]);
        }
    }
    bytes_are_read_as_text(headers["x-forwarded-for"@], text);
    if first.contains(',') {
        let i = choose|i: int| 0 <= i < first.len() && first[i] == ',';
        let f = front.len() as int;
        let t = f + item.len();
        if i < f {
            assert(first[i] == front[i]);
        } else if i < t {
            assert(first[i] == item[i - f]);
        } else {
            assert(first[i] == back[i - t]);
        }
    }
    law_first_item_ends_at_separator(first, ',', tail.skip(1));
    if tail.len() == 0 {
        assert(text =~= first);
    } else {
        assert(text =~= first + seq![','] + tail.skip(1));
    }
    assert forall|i: int| 0 <= i < front.len() implies is_white_space(#[trigger] front[i]) by {}
    assert forall|i: int| 0 <= i < back.len() implies is_white_space(#[trigger] back[i]) by {}
    law_trim_takes_white_space_off(front, item, back);
}

/// No address is put down if the header is missing or holds a byte other than visible ASCII and
/// tabs.
pub proof fn law_no_header_no_forwarded_address(headers: Map<Seq<char>, Seq<u8>>)
    requires
        headers.contains_key("x-forwarded-for"@) ==> exists|i: int|
            {
                &&& 0 <= i < headers["x-forwarded-for"@].len()
                &&& !(32 <= #[trigger] headers["x-forwarded-for"@][i] < 127)
                &&& headers["x-forwarded-for"@][i] != 9
            },
    ensures
        forwarded(headers) is None,
{
}

} // verus!
