//! Session tokens.

use vstd::prelude::*;

verus! {

/// A digit of a lower-case hexadecimal number.
pub open spec fn is_lower_hex(c: char) -> bool {
    '0' <= c <= '9' || 'a' <= c <= 'f'
}

/// The form of a session token: a random (version 4) UUID in hexadecimal, without hyphens.
pub open spec fn is_token(token: Seq<char>) -> bool {
    &&& token.len() == 32
    &&& forall|i: int| 0 <= i < 32 ==> is_lower_hex(#[trigger] token[i])
    &&& token[12] == '4'
    &&& (token[16] == '8' || token[16] == '9' || token[16] == 'a' || token[16] == 'b')
}

/// `uuid::Uuid::new_v4`, written without hyphens: thirty-two lower-case hexadecimal digits, drawn
/// at random but for those that hold the version and the variant.
#[verifier::external_body]
pub(crate) fn new_token() -> (res: String)
    ensures
        is_token(res@),
{
    uuid::Uuid::new_v4().simple().to_string()
}

/// A text that a call of [`new_token`] has given, and so was drawn at random.
pub closed spec fn is_drawn(token: Seq<char>) -> bool {
    exists|drawn: String| #[trigger] call_ensures(new_token, (), drawn) && drawn@ == token
}

/// What has been drawn came out of [`new_token`].
pub(crate) proof fn drawn_tokens_come_from_new_token(token: Seq<char>)
    requires
        is_drawn(token),
    ensures
        exists|drawn: String| #[trigger] call_ensures(new_token, (), drawn) && drawn@ == token,
{
}

/// Draws a token.
pub fn draw_token() -> (res: String)
    ensures
        is_token(res@),
        is_drawn(res@),
{
    let token = new_token();
    assert(call_ensures(new_token, (), token));
    token
}

} // verus!
