//! The calls into outside crates that the room logic makes.
use vstd::prelude::*;

verus! {

/// The text of the alias with the given localpart on the given server.
pub open spec fn alias_text(localpart: Seq<char>, server_name: Seq<char>) -> Seq<char> {
    seq!['#'] + localpart + seq![':'] + server_name
}

/// Whether ruma accepts the text as a room alias.
pub uninterp spec fn is_room_alias(s: Seq<char>) -> bool;

/// Whether serde_json parses the text as a JSON value.
pub uninterp spec fn is_json(s: Seq<char>) -> bool;

/// Relies on ruma's `<&RoomAliasId>::try_from`: whether ruma accepts the text
/// as a room alias.
#[verifier::external_body]
pub(crate) fn is_room_alias_text(text: &str) -> (r: bool)
    ensures
        r == is_room_alias(text@),
{
    <&ruma::RoomAliasId>::try_from(text).is_ok()
}

/// Relies on std's `String::push_str`: the text is appended.
#[verifier::external_body]
pub(crate) fn push_str(s: &mut String, t: &str)
    ensures
        final(s)@ == old(s)@ + t@,
{
    s.push_str(t)
}

/// Relies on `serde_json::from_str::<serde_json::Value>`: whether the text is
/// one JSON value.
#[verifier::external_body]
pub(crate) fn parses_as_json(s: &str) -> (r: bool)
    ensures
        r == is_json(s@),
{
    serde_json::from_str::<serde_json::Value>(s).is_ok()
}

} // verus!
