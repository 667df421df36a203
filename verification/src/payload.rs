//! The parse stage's structural check: the decoded payload must be an
//! object holding `data`, itself an object holding `usdt`, itself an object;
//! that innermost object is the supply mapping the aggregator reads. Any
//! other shape is a single malformed-payload failure.

use vstd::prelude::*;
use crate::errors::CheckTetherSupplyCommandRunError;
use crate::model::JsonField;
use crate::model::JsonValue;

verus! {

/// The value of the first member with this name, if the object has one.
pub open spec fn member_lookup(members: Seq<JsonField>, name: Seq<char>) -> Option<JsonValue>
    decreases members.len(),
{
    if members.len() == 0 {
        None
    } else if members.first().name@ == name {
        Some(members.first().value)
    } else {
        member_lookup(members.drop_first(), name)
    }
}

/// The supply mapping under `data.usdt`, if the payload has the expected
/// shape.
pub open spec fn usdt_fields_of(payload: JsonValue) -> Option<Seq<JsonField>> {
    match payload {
        JsonValue::Object(top) => match member_lookup(top@, "data"@) {
            Some(JsonValue::Object(data)) => match member_lookup(data@, "usdt"@) {
                Some(JsonValue::Object(usdt)) => Some(usdt@),
                _ => None,
            },
            _ => None,
        },
        _ => None,
    }
}

/// Finds the first member with this name and hands its index back.
fn find_member(members: &Vec<JsonField>, name: &String) -> (r: Option<usize>)
    ensures
        match r {
            Some(i) => i < members@.len() && member_lookup(members@, name@) == Some(
                members@[i as int].value,
            ),
            None => member_lookup(members@, name@) is None,
        },
{
    let mut i: usize = 0;
    proof {
        assert(members@.skip(0) =~= members@);
    }
    while i < members.len()
        invariant
            i <= members@.len(),
            member_lookup(members@, name@) == member_lookup(members@.skip(i as int), name@),
            forall|j: int| 0 <= j < i ==> (#[trigger] members@[j]).name@ != name@,
        decreases members@.len() - i,
    {
        proof {
            assert(members@.skip(i as int).first() == members@[i as int]);
            assert(members@.skip(i as int).drop_first() =~= members@.skip(i + 1 as int));
        }
        if members[i].name == *name {
            return Some(i);
        }
        i += 1;
    }
    proof {
        assert(members@.skip(members@.len() as int) =~= Seq::<JsonField>::empty());
    }
    None
}

/// Takes the first member with this name out of the object and hands its
/// value back.
fn take_member(members: Vec<JsonField>, name: &String) -> (r: Option<JsonValue>)
    ensures
        r == member_lookup(members@, name@),
{
    let mut members = members;
    match find_member(&members, name) {
        Some(i) => Some(members.remove(i).value),
        None => None,
    }
}

/// Checks the shape of the decoded payload and hands back the supply
/// mapping under `data.usdt`, or the parse-stage failure when the payload
/// is shaped otherwise.
pub fn extract_usdt_fields(payload: JsonValue) -> (r: Result<
    Vec<JsonField>,
    CheckTetherSupplyCommandRunError,
>)
    ensures
        match r {
            Ok(fields) => usdt_fields_of(payload) == Some(fields@),
            Err(e) => usdt_fields_of(payload) is None && match e {
                CheckTetherSupplyCommandRunError::ParseTransparencyFailed { message } => message@
                    == "transparency payload does not have the expected shape"@,
                _ => false,
            },
        },
{
    match payload {
        JsonValue::Object(top) => match take_member(top, &String::from_str("data")) {
            Some(JsonValue::Object(data)) => match take_member(data, &String::from_str("usdt")) {
                Some(JsonValue::Object(usdt)) => Ok(usdt),
                _ => Err(malformed_payload()),
            },
            _ => Err(malformed_payload()),
        },
        _ => Err(malformed_payload()),
    }
}

/// The parse-stage failure reported for a payload of the wrong shape.
fn malformed_payload() -> (e: CheckTetherSupplyCommandRunError)
    ensures
        e matches CheckTetherSupplyCommandRunError::ParseTransparencyFailed { message } && message@
            == "transparency payload does not have the expected shape"@,
{
    CheckTetherSupplyCommandRunError::ParseTransparencyFailed {
        message: String::from_str("transparency payload does not have the expected shape"),
    }
}

} // verus!
