//! Slice functions that hand actions on.

use crate::json::{bool_of, json_value, member_value, text_of, Json, JsonObject, JsonValue};
use crate::master::{
    plain_message, ActionValue, EngineAction, EngineMessage, SliceFunction, SliceResult,
    SliceValue,
};
use crate::rules::{
    message_result, nothing, only_message, parse_or_null, parsed_or_null, slice_outcome,
    text_member, SliceError,
};
use crate::text::copy_bytes;
use vstd::prelude::*;

verus! {

/// The registry entry of `forward_user_action`.
pub fn _forward_user_action() -> (r: (String, SliceFunction))
    ensures
        r.0@ == "forward_user_action"@,
        r.1 == SliceFunction::ForwardUserAction,
{
    ("forward_user_action".to_string(), forward_user_action())
}

/// The function that publishes under `_forwardtopic` the bytes of each
/// action that comes in under `_topic`.
pub fn forward_user_action() -> (r: SliceFunction)
    ensures
        r == SliceFunction::ForwardUserAction,
{
    SliceFunction::ForwardUserAction
}

/// What `forward_user_action` hands back.
pub open spec fn forward_user_action_outcome(info: JsonValue, action: ActionValue) -> Result<
    SliceValue,
    SliceError,
> {
    let topic = text_of(member_value(info, "_topic"@));
    let forwardtopic = text_of(member_value(info, "_forwardtopic"@));
    if topic is None {
        Err(SliceError::MissingTopic)
    } else if forwardtopic is None {
        Err(SliceError::MissingForwardTopic)
    } else if action.topic == topic->0 {
        Ok(only_message(plain_message(forwardtopic->0, action.payload)))
    } else {
        Ok(nothing())
    }
}

/// Runs `forward_user_action`.
pub fn apply_forward_user_action(info: &Json, action: &EngineAction) -> (r: Result<
    SliceResult,
    SliceError,
>)
    ensures
        slice_outcome(r) == forward_user_action_outcome(json_value(*info), action@),
{
    let topic = match text_member(info, "_topic") {
        Some(topic) => topic,
        None => { return Err(SliceError::MissingTopic); },
    };
    let forwardtopic = match text_member(info, "_forwardtopic") {
        Some(forwardtopic) => forwardtopic,
        None => { return Err(SliceError::MissingForwardTopic); },
    };
    if action.matches(topic) {
        return Ok(
            message_result(
                EngineMessage::new(forwardtopic.to_string(), copy_bytes(action.payload.as_slice())),
            ),
        );
    }
    Ok(SliceResult::empty())
}

/// The registry entry of `forward_action`.
pub fn _forward_action() -> (r: (String, SliceFunction))
    ensures
        r.0@ == "forward_action"@,
        r.1 == SliceFunction::ForwardAction,
{
    ("forward_action".to_string(), forward_action())
}

/// The function that, for each toggle that comes in under `_topic`, flips
/// the switch that the working document keeps under the name of
/// `_forwardtopic`, and publishes its new position there.
pub fn forward_action() -> (r: SliceFunction)
    ensures
        r == SliceFunction::ForwardAction,
{
    SliceFunction::ForwardAction
}

/// Whether a payload asks for a toggle.
pub open spec fn asks_toggle(payload: JsonValue) -> bool {
    member_value(payload, "action"@) == JsonValue::Str("toggle"@)
}

/// The position of the switch after a toggle: on where the working document
/// holds no position yet.
pub open spec fn toggled(info: JsonValue, forwardtopic: Seq<char>) -> bool {
    match bool_of(member_value(info, forwardtopic)) {
        None => true,
        Some(position) => !position,
    }
}

/// The byte that is published for a position of the switch.
pub open spec fn position_bytes(position: bool) -> Seq<u8> {
    if position {
        seq![1u8]
    } else {
        seq![0u8]
    }
}

/// What a toggle does to the switch under `forwardtopic`, given the document
/// that the payload holds.
pub open spec fn toggle_forward_value(
    info: JsonValue,
    forwardtopic: Seq<char>,
    payload: JsonValue,
) -> SliceValue {
    if asks_toggle(payload) {
        SliceValue {
            state: JsonValue::Object(
                Map::empty().insert(forwardtopic, JsonValue::Bool(toggled(info, forwardtopic))),
            ),
            messages: seq![
                plain_message(forwardtopic, position_bytes(toggled(info, forwardtopic))),
            ],
        }
    } else {
        nothing()
    }
}

/// What `forward_action` hands back.
pub open spec fn forward_action_outcome(info: JsonValue, action: ActionValue) -> Result<
    SliceValue,
    SliceError,
> {
    let topic = text_of(member_value(info, "_topic"@));
    let forwardtopic = text_of(member_value(info, "_forwardtopic"@));
    if topic is None {
        Err(SliceError::MissingTopic)
    } else if forwardtopic is None {
        Err(SliceError::MissingForwardTopic)
    } else if action.topic == topic->0 {
        Ok(toggle_forward_value(info, forwardtopic->0, parsed_or_null(action.payload)))
    } else {
        Ok(nothing())
    }
}

/// Flips the switch under `forwardtopic` where the document of the payload
/// asks for a toggle.
pub fn toggle_forward(info: &Json, forwardtopic: &str, payload: &Json) -> (r: SliceResult)
    ensures
        r@ == toggle_forward_value(json_value(*info), forwardtopic@, json_value(*payload)),
{
    let asked = match payload.member("action") {
        Some(word) => match word.as_str() {
            Some(text) => crate::text::same_text(text, "toggle"),
            None => false,
        },
        None => false,
    };
    if !asked {
        return SliceResult::empty();
    }
    let position = match info.member(forwardtopic) {
        Some(held) => match held.as_bool() {
            Some(position) => !position,
            None => true,
        },
        None => true,
    };
    let state = JsonObject::new().insert(forwardtopic.to_string(), Json::Bool(position));
    let mut bytes: Vec<u8> = Vec::new();
    bytes.push(if position { 1u8 } else { 0u8 });
    let mut messages: Vec<EngineMessage> = Vec::new();
    messages.push(EngineMessage::new(forwardtopic.to_string(), bytes));
    let r = SliceResult::new(Json::Object(state), messages);
    assert(r@.messages =~= seq![
        plain_message(forwardtopic@, position_bytes(position)),
    ]);
    r
}

/// Runs `forward_action`.
pub fn apply_forward_action(info: &Json, action: &EngineAction) -> (r: Result<
    SliceResult,
    SliceError,
>)
    ensures
        slice_outcome(r) == forward_action_outcome(json_value(*info), action@),
{
    let topic = match text_member(info, "_topic") {
        Some(topic) => topic,
        None => { return Err(SliceError::MissingTopic); },
    };
    let forwardtopic = match text_member(info, "_forwardtopic") {
        Some(forwardtopic) => forwardtopic,
        None => { return Err(SliceError::MissingForwardTopic); },
    };
    if action.matches(topic) {
        let payload = parse_or_null(action.payload.as_slice());
        return Ok(toggle_forward(info, forwardtopic, &payload));
    }
    Ok(SliceResult::empty())
}

} // verus!
