//! A slice function that holds a trigger back for a while.

use crate::json::{int_of, json_value, member_value, Json, JsonNumber, JsonObject, JsonValue};
use crate::master::{EngineAction, SliceFunction, SliceResult, SliceValue};
use crate::rules::{armed, is_armed, only_state, slice_outcome, SliceError};
use crate::text::{signed_decimal, signed_decimal_text};
use vstd::prelude::*;

verus! {

/// The registry entry of `condition_sleep`.
pub fn _condition_sleep() -> (r: (String, SliceFunction))
    ensures
        r.0@ == "condition_sleep"@,
        r.1 == SliceFunction::ConditionSleep,
{
    ("condition_sleep".to_string(), condition_sleep())
}

/// The function that holds a trigger back: it swallows the mark that arms
/// the emitters and sets it again once more than `_millis` milliseconds have
/// passed.
pub fn condition_sleep() -> (r: SliceFunction)
    ensures
        r == SliceFunction::ConditionSleep,
{
    SliceFunction::ConditionSleep
}

/// The key under which the function at a position of the list keeps the
/// time of its trigger.
pub open spec fn sleep_key(index: int) -> Seq<char> {
    "condition_sleep_"@ + signed_decimal_text(index)
}

/// The delay that the working document asks for, in milliseconds.
pub open spec fn sleep_millis(info: JsonValue) -> int {
    match int_of(member_value(info, "_millis"@)) {
        Some(millis) => millis,
        None => 1000,
    }
}

/// The patch of `condition_sleep` at a position of the list, at a time.
pub open spec fn sleep_state(info: JsonValue, index: int, timestamp: int) -> JsonValue {
    let key = sleep_key(index);
    let activation = int_of(member_value(info, key));
    JsonValue::Object(
        if is_armed(info) {
            Map::empty().insert(key, JsonValue::Int(timestamp)).insert("_start"@, JsonValue::Null)
        } else if activation is Some && timestamp - activation->0 > sleep_millis(info) {
            Map::empty().insert(key, JsonValue::Null).insert("_start"@, JsonValue::Bool(true))
        } else {
            Map::empty().insert("_start"@, JsonValue::Null)
        },
    )
}

/// What `condition_sleep` hands back.
pub open spec fn condition_sleep_outcome(info: JsonValue) -> Result<SliceValue, SliceError> {
    let index = int_of(member_value(info, "_index"@));
    let timestamp = int_of(member_value(info, "_timestamp"@));
    if index is None {
        Err(SliceError::MissingIndex)
    } else if timestamp is None {
        Err(SliceError::MissingTimestamp)
    } else {
        Ok(only_state(sleep_state(info, index->0, timestamp->0)))
    }
}

/// The integer member under `key`, if the document is an object with such a
/// member.
pub fn int_member(info: &Json, key: &str) -> (r: Option<i64>)
    ensures
        r is Some <==> int_of(member_value(json_value(*info), key@)) is Some,
        r is Some ==> r->0 as int == int_of(member_value(json_value(*info), key@))->0,
{
    match info.member(key) {
        Some(found) => found.as_i64(),
        None => None,
    }
}

/// Runs `condition_sleep`.
pub fn apply_condition_sleep(info: &Json, _action: &EngineAction) -> (r: Result<
    SliceResult,
    SliceError,
>)
    ensures
        slice_outcome(r) == condition_sleep_outcome(json_value(*info)),
{
    let millis = match int_member(info, "_millis") {
        Some(millis) => millis,
        None => 1000,
    };
    let index = match int_member(info, "_index") {
        Some(index) => index,
        None => { return Err(SliceError::MissingIndex); },
    };
    let timestamp = match int_member(info, "_timestamp") {
        Some(timestamp) => timestamp,
        None => { return Err(SliceError::MissingTimestamp); },
    };
    let mut key = "condition_sleep_".to_string();
    key.append(signed_decimal(index).as_str());
    let state = if armed(info) {
        JsonObject::new().insert(key, Json::Number(JsonNumber::Int(timestamp))).insert(
            "_start".to_string(),
            Json::Null,
        )
    } else {
        let due = match int_member(info, key.as_str()) {
            Some(activation) => timestamp as i128 - activation as i128 > millis as i128,
            None => false,
        };
        if due {
            JsonObject::new().insert(key, Json::Null).insert("_start".to_string(), Json::Bool(true))
        } else {
            JsonObject::new().insert("_start".to_string(), Json::Null)
        }
    };
    Ok(SliceResult::state(Json::Object(state)))
}

} // verus!
