//! JSON text as the envelope needs it: quoting a string, checking a raw
//! value, splitting an object into members, reading a string or a number, and
//! writing a number in decimal.

use std::collections::BTreeMap;
use vstd::prelude::*;

verus! {

/// The members of a JSON object, each as a name and the raw text of its value.
pub type Members = Seq<(Seq<char>, Seq<char>)>;

/// The JSON string literal that `serde_json::to_string` writes for a string:
/// the string between double quotes, with what JSON does not take in a string
/// written as escapes.
pub uninterp spec fn json_string_literal(s: Seq<char>) -> Seq<char>;

/// The text that `serde_json::value::RawValue::from_string` keeps of a string:
/// the one JSON value in it without the white space around it, and `None`
/// where the string does not hold exactly one JSON value.
pub uninterp spec fn json_raw_value(text: Seq<char>) -> Option<Seq<char>>;

/// What `serde_json::from_str` reads from a text as a map from names to raw
/// values: each name once, in the order of the names, with the value that
/// stands last under that name; `None` where the text is no JSON object.
pub uninterp spec fn json_object_members(text: Seq<char>) -> Option<Members>;

/// What `serde_json::from_str` reads from a text as a string.
pub uninterp spec fn json_string_value(text: Seq<char>) -> Option<Seq<char>>;

/// What `serde_json::from_str` reads from a text as a `u64`.
pub uninterp spec fn json_u64_value(text: Seq<char>) -> Option<u64>;

/// Calls `serde_json::to_string` on a string. The call writes into a vector
/// in memory and has no way to fail on a string. Trusted: the result is the
/// literal that `json_string_literal` names.
#[verifier::external_body]
pub(crate) fn quote(s: &str) -> (r: String)
    ensures
        r@ == json_string_literal(s@),
{
    serde_json::to_string(s).unwrap_or_default()
}

/// Calls `serde_json::value::RawValue::from_string`. Trusted: the text of the
/// raw value is the one that `json_raw_value` names; that text is one JSON
/// value with no white space around it, so it is its own raw value; the error
/// holds the parser's message.
#[verifier::external_body]
pub(crate) fn raw_value(text: String) -> (r: Result<String, String>)
    ensures
        r matches Ok(raw) ==> json_raw_value(text@) == Some(raw@) && json_raw_value(raw@) == Some(
            raw@,
        ),
        r is Err ==> json_raw_value(text@) is None,
{
    match serde_json::value::RawValue::from_string(text) {
        Ok(raw) => Ok(String::from(Box::<str>::from(raw))),
        Err(e) => Err(e.to_string()),
    }
}

/// Calls `serde_json::from_str` for a `BTreeMap` from `String` to
/// `Box<RawValue>`. Trusted: the members are those that `json_object_members`
/// names.
#[verifier::external_body]
pub(crate) fn object_members(text: &str) -> (r: Option<Vec<(String, String)>>)
    ensures
        r.deep_view() == json_object_members(text@),
{
    let parsed: Result<BTreeMap<String, Box<serde_json::value::RawValue>>, _> =
        serde_json::from_str(text);
    match parsed {
        Ok(map) => Some(map.into_iter().map(|(k, v)| (k, String::from(Box::<str>::from(v)))).collect()),
        Err(_) => None,
    }
}

/// Calls `serde_json::from_str` for a `String`. Trusted: the result is the one
/// that `json_string_value` names.
#[verifier::external_body]
pub(crate) fn string_value(text: &str) -> (r: Option<String>)
    ensures
        r.deep_view() == json_string_value(text@),
{
    serde_json::from_str::<String>(text).ok()
}

/// Calls `serde_json::from_str` for a `u64`. Trusted: the result is the one
/// that `json_u64_value` names.
#[verifier::external_body]
pub(crate) fn u64_value(text: &str) -> (r: Option<u64>)
    ensures
        r == json_u64_value(text@),
{
    serde_json::from_str::<u64>(text).ok()
}

/// The raw value of the first member named `key`.
pub open spec fn member(members: Members, key: Seq<char>) -> Option<Seq<char>>
    decreases members.len(),
{
    if members.len() == 0 {
        None
    } else if members[0].0 == key {
        Some(members[0].1)
    } else {
        member(members.drop_first(), key)
    }
}

/// Looks a member up by name.
pub fn lookup(members: &Vec<(String, String)>, key: &str) -> (r: Option<String>)
    ensures
        r.deep_view() == member(members.deep_view(), key@),
{
    let wanted = key.to_owned();
    let ghost all = members.deep_view();
    let mut i: usize = 0;
    assert(all.skip(0) == all);
    while i < members.len()
        invariant
            i <= members.len(),
            wanted@ == key@,
            all == members.deep_view(),
            member(all, key@) == member(all.skip(i as int), key@),
        decreases members.len() - i,
    {
        let ghost rest = all.skip(i as int);
        assert(rest.len() > 0);
        assert(rest[0] == all[i as int]);
        assert(all[i as int] == (members[i as int].0@, members[i as int].1@));
        assert(rest.drop_first() == all.skip(i + 1));
        if members[i].0 == wanted {
            let found = members[i].1.clone();
            return Some(found);
        }
        i += 1;
    }
    assert(all.skip(i as int).len() == 0);
    None
}

/// The numeral of one decimal digit.
pub open spec fn digit(d: nat) -> Seq<char> {
    if d == 0 {
        "0"@
    } else if d == 1 {
        "1"@
    } else if d == 2 {
        "2"@
    } else if d == 3 {
        "3"@
    } else if d == 4 {
        "4"@
    } else if d == 5 {
        "5"@
    } else if d == 6 {
        "6"@
    } else if d == 7 {
        "7"@
    } else if d == 8 {
        "8"@
    } else {
        "9"@
    }
}

/// A number in decimal, without leading zeros.
pub open spec fn decimal(n: nat) -> Seq<char>
    decreases n,
{
    if n < 10 {
        digit(n)
    } else {
        decimal(n / 10) + digit(n % 10)
    }
}

/// The numeral of one decimal digit.
fn digit_text(d: u64) -> (s: &'static str)
    requires
        d < 10,
    ensures
        s@ == digit(d as nat),
{
    if d == 0 {
        "0"
    } else if d == 1 {
        "1"
    } else if d == 2 {
        "2"
    } else if d == 3 {
        "3"
    } else if d == 4 {
        "4"
    } else if d == 5 {
        "5"
    } else if d == 6 {
        "6"
    } else if d == 7 {
        "7"
    } else if d == 8 {
        "8"
    } else {
        "9"
    }
}

/// Writes a number in decimal.
pub fn decimal_text(n: u64) -> (s: String)
    ensures
        s@ == decimal(n as nat),
    decreases n,
{
    if n < 10 {
        digit_text(n).to_owned()
    } else {
        let mut s = decimal_text(n / 10);
        s.append(digit_text(n % 10));
        s
    }
}

} // verus!
