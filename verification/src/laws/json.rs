//! What holds of JSON documents.

use vstd::prelude::*;

use crate::json::Json;

verus! {

/// The members of an object are found under their keys, and nothing else is found.
pub proof fn law_members_are_found_under_their_keys(
    members: Map<Seq<char>, Json>,
    key: Seq<char>,
    other: Json,
)
    ensures
        members.contains_key(key) ==> Json::Object(members).member(key) == Some(members[key]),
        !members.contains_key(key) ==> Json::Object(members).member(key) is None,
        !(other is Object) ==> other.member(key) is None,
{
}

/// Texts, truth values, integers and nothing are exact; so are arrays and objects of exact values
/// up to the depth, unless the key that serde_json keeps for itself is a member.
pub proof fn law_plain_documents_are_exact(
    text: Seq<char>,
    n: int,
    b: bool,
    items: Seq<Json>,
    members: Map<Seq<char>, Json>,
    depth: nat,
)
    requires
        forall|i: int| 0 <= i < items.len() ==> (#[trigger] items[i]).is_exact(depth),
        forall|key: Seq<char>| #[trigger]
            members.contains_key(key) ==> members[key].is_exact(depth),
        !members.contains_key("$serde_json::private::RawValue"@),
    ensures
        Json::Null.is_exact(0),
        Json::Text(text).is_exact(0),
        Json::Integer(n).is_exact(0),
        Json::Bool(b).is_exact(0),
        Json::Array(items).is_exact(depth + 1),
        Json::Object(members).is_exact(depth + 1),
{
    let deeper = Json::Array(items);
    assert((depth + 1 - 1) as nat == depth);
    assert(deeper.is_exact(depth + 1));
    assert forall|key: Seq<char>| members.contains_key(key) implies (
    #[trigger] members[key]).is_exact(depth) by {
        assert(members.contains_key(key));
    }
}

} // verus!
