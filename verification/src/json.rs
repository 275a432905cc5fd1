//! The JSON that the service reads and writes. Strings are encoded and
//! documents decoded by `serde_json`; the few fixed objects of the service are
//! framed here.

use vstd::prelude::*;

verus! {

/// The JSON string literal that `serde_json` writes for `text`: the text between
/// double quotes, with the characters that JSON does not take as they are escaped.
pub uninterp spec fn json_string_literal(text: Seq<char>) -> Seq<char>;

/// The members of the JSON object that `text` holds, or `None` where `text` is
/// not one JSON object. Each member is given by its name and, where its value is
/// a JSON string, by that string; a member with any other value has `None`.
pub uninterp spec fn json_object_members(text: Seq<char>) -> Option<
    Seq<(Seq<char>, Option<Seq<char>>)>,
>;

/// The digit character for `d`, a number below ten.
pub open spec fn digit(d: nat) -> char {
    (('0' as nat) + d) as char
}

/// The decimal numeral of `n`, without leading zeros.
pub open spec fn decimal(n: nat) -> Seq<char>
    decreases n,
{
    if n < 10 {
        seq![digit(n)]
    } else {
        decimal(n / 10).push(digit(n % 10))
    }
}

/// The string value of the first member called `name`, or `None` where there is
/// no such member or its value is not a string.
pub open spec fn string_member(
    members: Seq<(Seq<char>, Option<Seq<char>>)>,
    name: Seq<char>,
) -> Option<Seq<char>>
    decreases members.len(),
{
    if members.len() == 0 {
        None
    } else if members[0].0 == name {
        members[0].1
    } else {
        string_member(members.drop_first(), name)
    }
}

/// The string under `name` in the JSON object that `text` holds, if `text` is
/// one JSON object and has a string there.
pub open spec fn object_string(text: Seq<char>, name: Seq<char>) -> Option<Seq<char>> {
    match json_object_members(text) {
        Some(members) => string_member(members, name),
        None => None,
    }
}

/// Calls `serde_json::to_string` on a string slice. Writing a string into a
/// byte vector has no failing step, so the text always comes back; it is the
/// JSON string literal for `text`.
#[verifier::external_body]
pub(crate) fn encode_string(text: &str) -> (literal: String)
    ensures
        literal@ == json_string_literal(text@),
{
    serde_json::to_string(text).unwrap_or_default()
}

/// Calls `serde_json::from_str` for a `serde_json::Map`, which takes one JSON
/// object and nothing else, and hands its members out in the map's own order,
/// each string value as a plain string and any other value as `None`.
#[verifier::external_body]
fn decode_object(text: &str) -> (members: Option<Vec<(String, Option<String>)>>)
    ensures
        members.deep_view() == json_object_members(text@),
{
    let object = serde_json::from_str::<serde_json::Map<String, serde_json::Value>>(text).ok()?;
    Some(
        object.into_iter().map(
            |(name, value)|
                match value {
                    serde_json::Value::String(s) => (name, Some(s)),
                    _ => (name, None),
                },
        ).collect(),
    )
}

/// Appends the decimal numeral of `n` to `out`.
pub fn push_decimal(out: &mut String, n: u16)
    ensures
        final(out)@ == old(out)@ + decimal(n as nat),
    decreases n,
{
    if n >= 10 {
        push_decimal(out, n / 10);
    }
    let d: u8 = (n % 10) as u8;
    out.push((48u8 + d) as char);
}

/// Looks up the string value of the first member called `name`.
pub fn find_string_member(members: &Vec<(String, Option<String>)>, name: &str) -> (found: Option<
    String,
>)
    ensures
        found.deep_view() == string_member(members.deep_view(), name@),
{
    let wanted = String::from_str(name);
    let mut i: usize = 0;
    assert(members.deep_view().skip(0) =~= members.deep_view());
    while i < members.len()
        invariant
            i <= members.len(),
            wanted@ == name@,
            string_member(members.deep_view(), name@) == string_member(
                members.deep_view().skip(i as int),
                name@,
            ),
        decreases members.len() - i,
    {
        let ghost rest = members.deep_view().skip(i as int);
        assert(rest.drop_first() =~= members.deep_view().skip(i + 1));
        if members[i].0 == wanted {
            return members[i].1.clone();
        }
        i += 1;
    }
    None
}

/// Reads the string under `name` from the JSON object in `text`.
pub fn read_object_string(text: &str, name: &str) -> (found: Option<String>)
    ensures
        found.deep_view() == object_string(text@, name@),
{
    match decode_object(text) {
        Some(members) => find_string_member(&members, name),
        None => None,
    }
}

} // verus!
