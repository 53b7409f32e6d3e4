//! Slice functions that arm the emitters on an action.

use crate::json::codec::{found_value, json_parse, json_pointer};
use crate::json::{json_value, member_value, text_of, Json, JsonValue};
use crate::master::{ActionValue, EngineAction, SliceFunction, SliceResult, SliceValue};
use crate::rules::{only_state, start_result, start_state, text_member, SliceError};
use crate::text::text_bytes;
use vstd::prelude::*;

verus! {

/// The registry entry of `start_action`.
pub fn slice_start_action() -> (r: (String, SliceFunction))
    ensures
        r.0@ == "start_action"@,
        r.1 == SliceFunction::StartAction,
{
    ("start_action".to_string(), start_action())
}

/// The function that arms the emitters when an action comes in under the
/// topic `_topic` with the bytes of `_command`.
pub fn start_action() -> (r: SliceFunction)
    ensures
        r == SliceFunction::StartAction,
{
    SliceFunction::StartAction
}

/// What `start_action` hands back.
pub open spec fn start_action_outcome(info: JsonValue, action: ActionValue) -> Result<
    SliceValue,
    SliceError,
> {
    let topic = text_of(member_value(info, "_topic"@));
    let command = text_of(member_value(info, "_command"@));
    if topic is None {
        Err(SliceError::MissingTopic)
    } else if command is None {
        Err(SliceError::MissingCommand)
    } else {
        Ok(
            only_state(
                start_state(action.topic == topic->0 && action.payload == text_bytes(command->0)),
            ),
        )
    }
}

/// Runs `start_action`.
pub fn apply_start_action(info: &Json, action: &EngineAction) -> (r: Result<
    SliceResult,
    SliceError,
>)
    ensures
        crate::rules::slice_outcome(r) == start_action_outcome(json_value(*info), action@),
{
    let topic = match text_member(info, "_topic") {
        Some(topic) => topic,
        None => { return Err(SliceError::MissingTopic); },
    };
    let command = match text_member(info, "_command") {
        Some(command) => command,
        None => { return Err(SliceError::MissingCommand); },
    };
    Ok(start_result(action.matches_action(topic, command.as_bytes())))
}

/// The registry entry of `start_json_action`.
pub fn slice_start_json_action() -> (r: (String, SliceFunction))
    ensures
        r.0@ == "start_json_action"@,
        r.1 == SliceFunction::StartJsonAction,
{
    ("start_json_action".to_string(), start_json_action())
}

/// The function that arms the emitters when an action comes in under the
/// topic `_topic` whose payload is a JSON text that holds `_value` under the
/// pointer `_pointer`.
pub fn start_json_action() -> (r: SliceFunction)
    ensures
        r == SliceFunction::StartJsonAction,
{
    SliceFunction::StartJsonAction
}

/// What a JSON pointer finds in the document that a payload holds; nothing
/// where the payload is no JSON text.
pub open spec fn found_in_payload(payload: Seq<u8>, pointer: Seq<char>) -> Option<JsonValue> {
    match json_parse(payload) {
        Ok(doc) => json_pointer(doc, pointer),
        Err(_) => None,
    }
}

/// Whether an action comes under `topic` with a payload that is a JSON text
/// and holds `value` under `pointer`.
pub open spec fn json_action_starts(
    action: ActionValue,
    topic: Seq<char>,
    pointer: Seq<char>,
    value: JsonValue,
) -> bool {
    action.topic == topic && found_in_payload(action.payload, pointer) == Some(value)
}

/// What `start_json_action` hands back.
pub open spec fn start_json_action_outcome(info: JsonValue, action: ActionValue) -> Result<
    SliceValue,
    SliceError,
> {
    let topic = text_of(member_value(info, "_topic"@));
    let pointer = text_of(member_value(info, "_pointer"@));
    if topic is None {
        Err(SliceError::MissingTopic)
    } else if pointer is None {
        Err(SliceError::MissingPointer)
    } else {
        Ok(
            only_state(
                start_state(
                    json_action_starts(action, topic->0, pointer->0, member_value(info, "_value"@)),
                ),
            ),
        )
    }
}

/// The result of a JSON start condition, from what was found in the payload:
/// the emitters are armed where the topic matched and something was found
/// that has the expected value.
pub fn json_action_state(matched: bool, found: &Option<Json>, expected: &Json) -> (r: SliceResult)
    ensures
        r@ == only_state(
            start_state(
                matched && found_value(*found) == Some(json_value(*expected)),
            ),
        ),
{
    let start = matched && match found {
        Some(doc) => doc.same(expected),
        None => false,
    };
    start_result(start)
}

/// Arms the emitters where the action comes under `topic` with a JSON
/// payload that holds `value` under `pointer`.
pub fn imp_start_json_action(
    _info: &Json,
    action: &EngineAction,
    topic: &str,
    pointer: &str,
    value: &Json,
) -> (r: SliceResult)
    ensures
        r@ == only_state(
            start_state(json_action_starts(action@, topic@, pointer@, json_value(*value))),
        ),
{
    let matched = action.matches(topic);
    let found = if matched {
        match Json::parse(action.payload.as_slice()) {
            Ok(doc) => doc.pointer(pointer),
            Err(_) => None,
        }
    } else {
        None
    };
    json_action_state(matched, &found, value)
}

/// Runs `start_json_action`.
pub fn apply_start_json_action(info: &Json, action: &EngineAction) -> (r: Result<
    SliceResult,
    SliceError,
>)
    ensures
        crate::rules::slice_outcome(r) == start_json_action_outcome(json_value(*info), action@),
{
    let topic = match text_member(info, "_topic") {
        Some(topic) => topic,
        None => { return Err(SliceError::MissingTopic); },
    };
    let pointer = match text_member(info, "_pointer") {
        Some(pointer) => pointer,
        None => { return Err(SliceError::MissingPointer); },
    };
    let null = Json::Null;
    let value = match info.member("_value") {
        Some(value) => value,
        None => &null,
    };
    Ok(imp_start_json_action(info, action, topic, pointer, value))
}

} // verus!
