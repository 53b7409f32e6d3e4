//! Slice functions that publish when they are armed.

use crate::json::{json_value, member_value, text_of, Json, JsonValue};
use crate::master::{
    plain_message, EngineAction, EngineMessage, SliceFunction, SliceResult,
    SliceValue,
};
use crate::rules::{
    armed, is_armed, message_result, nothing, only_message, slice_outcome, text_member,
    SliceError,
};
use crate::text::{copy_bytes, text_bytes};
use vstd::prelude::*;

verus! {

/// The registry entry of `relay`.
pub fn relay_action() -> (r: (String, SliceFunction))
    ensures
        r.0@ == "relay"@,
        r.1 == SliceFunction::Relay,
{
    ("relay".to_string(), relay())
}

/// The function that, when armed, publishes the bytes of `_value` under the
/// topic `_topic`.
pub fn relay() -> (r: SliceFunction)
    ensures
        r == SliceFunction::Relay,
{
    SliceFunction::Relay
}

/// The registry entry of `relay_on`.
pub fn relay_value_on() -> (r: (String, SliceFunction))
    ensures
        r.0@ == "relay_on"@,
        r.1 matches SliceFunction::RelayValue(value) && value@ == text_bytes("on"@),
{
    ("relay_on".to_string(), relay_value("on".as_bytes()))
}

/// The registry entry of `relay_off`.
pub fn relay_value_off() -> (r: (String, SliceFunction))
    ensures
        r.0@ == "relay_off"@,
        r.1 matches SliceFunction::RelayValue(value) && value@ == text_bytes("off"@),
{
    ("relay_off".to_string(), relay_value("off".as_bytes()))
}

/// The function that, when armed, publishes `value` under the topic `_topic`.
pub fn relay_value(value: &[u8]) -> (r: SliceFunction)
    ensures
        r matches SliceFunction::RelayValue(held) && held@ == value@,
{
    SliceFunction::RelayValue(copy_bytes(value))
}

/// What a relay publishes: `value` under `topic` when armed, nothing otherwise.
pub open spec fn imp_relay_value(info: JsonValue, topic: Seq<char>, value: Seq<u8>) -> SliceValue {
    if is_armed(info) {
        only_message(plain_message(topic, value))
    } else {
        nothing()
    }
}

/// What `relay` hands back.
pub open spec fn relay_outcome(info: JsonValue) -> Result<SliceValue, SliceError> {
    let topic = text_of(member_value(info, "_topic"@));
    let value = text_of(member_value(info, "_value"@));
    if topic is None {
        Err(SliceError::MissingTopic)
    } else if value is None {
        Err(SliceError::MissingValue)
    } else {
        Ok(imp_relay_value(info, topic->0, text_bytes(value->0)))
    }
}

/// What a relay of fixed bytes hands back.
pub open spec fn relay_value_outcome(value: Seq<u8>, info: JsonValue) -> Result<
    SliceValue,
    SliceError,
> {
    let topic = text_of(member_value(info, "_topic"@));
    if topic is None {
        Err(SliceError::MissingTopic)
    } else {
        Ok(imp_relay_value(info, topic->0, value))
    }
}

/// Publishes `value` under `topic` where the working document is armed.
pub fn imp_relay(mapinfo: &Json, topic: &str, value: &[u8]) -> (r: SliceResult)
    ensures
        r@ == imp_relay_value(json_value(*mapinfo), topic@, value@),
{
    if armed(mapinfo) {
        return message_result(EngineMessage::new(topic.to_string(), copy_bytes(value)));
    }
    SliceResult::empty()
}

/// Runs `relay`.
pub fn apply_relay(info: &Json, _action: &EngineAction) -> (r: Result<SliceResult, SliceError>)
    ensures
        slice_outcome(r) == relay_outcome(json_value(*info)),
{
    let topic = match text_member(info, "_topic") {
        Some(topic) => topic,
        None => { return Err(SliceError::MissingTopic); },
    };
    let value = match text_member(info, "_value") {
        Some(value) => value,
        None => { return Err(SliceError::MissingValue); },
    };
    Ok(imp_relay(info, topic, value.as_bytes()))
}

/// Runs a relay of fixed bytes.
pub fn apply_relay_value(value: &[u8], info: &Json, _action: &EngineAction) -> (r: Result<
    SliceResult,
    SliceError,
>)
    ensures
        slice_outcome(r) == relay_value_outcome(value@, json_value(*info)),
{
    let topic = match text_member(info, "_topic") {
        Some(topic) => topic,
        None => { return Err(SliceError::MissingTopic); },
    };
    Ok(imp_relay(info, topic, value))
}

} // verus!
