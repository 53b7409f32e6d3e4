//! Tests on the actions of zigbee devices, and a slice function made of one.

use crate::json::{json_value, member_value, Json, JsonNumber, JsonObject, JsonValue};
use crate::master::{
    messages_value, ActionValue, EngineAction, EngineMessage, MessageValue, SliceResult,
    SliceValue, UserSlice,
};
use crate::rules::{parse_or_null, parsed_or_null, SliceError};
use crate::text::{copy_bytes, same_text, text_bytes};
use vstd::prelude::*;

verus! {

/// A test on actions: whether a device under a topic reports a word.
#[derive(Debug)]
pub struct Actuator {
    pub topic: String,
    pub action: String,
}

/// Whether a document reports `word` as its action.
pub open spec fn reports(payload: JsonValue, word: Seq<char>) -> bool {
    member_value(payload, "action"@) == JsonValue::Str(word)
}

/// Whether an action comes from the device under `topic` and reports `word`.
pub open spec fn actuates(topic: Seq<char>, word: Seq<char>, action: ActionValue) -> bool {
    action.topic == topic && reports(parsed_or_null(action.payload), word)
}

/// The test for the word `action` from the device under `actuatortopic`.
pub fn actuator(actuatortopic: &str, action: &str) -> (r: Actuator)
    ensures
        r.topic@ == actuatortopic@,
        r.action@ == action@,
{
    Actuator { topic: actuatortopic.to_string(), action: action.to_string() }
}

/// The test for a toggle.
pub fn actuator_toggle(actuatortopic: &str) -> (r: Actuator)
    ensures
        r.topic@ == actuatortopic@,
        r.action@ == "toggle"@,
{
    actuator(actuatortopic, "toggle")
}

/// The test for a click on brightness up.
pub fn actuator_brightness_up(actuatortopic: &str) -> (r: Actuator)
    ensures
        r.topic@ == actuatortopic@,
        r.action@ == "brightness_up_click"@,
{
    actuator(actuatortopic, "brightness_up_click")
}

/// The test for a click on brightness down.
pub fn actuator_brightness_down(actuatortopic: &str) -> (r: Actuator)
    ensures
        r.topic@ == actuatortopic@,
        r.action@ == "brightness_down_click"@,
{
    actuator(actuatortopic, "brightness_down_click")
}

/// The test for a click on the right arrow.
pub fn actuator_arrow_right(actuatortopic: &str) -> (r: Actuator)
    ensures
        r.topic@ == actuatortopic@,
        r.action@ == "arrow_right_click"@,
{
    actuator(actuatortopic, "arrow_right_click")
}

/// The test for a click on the left arrow.
pub fn actuator_arrow_left(actuatortopic: &str) -> (r: Actuator)
    ensures
        r.topic@ == actuatortopic@,
        r.action@ == "arrow_left_click"@,
{
    actuator(actuatortopic, "arrow_left_click")
}

impl Actuator {
    /// Whether a document reports the word of this test.
    pub fn reported_by(&self, payload: &Json) -> (r: bool)
        ensures
            r == reports(json_value(*payload), self.action@),
    {
        match payload.member("action") {
            Some(word) => match word.as_str() {
                Some(text) => same_text(text, self.action.as_str()),
                None => false,
            },
            None => false,
        }
    }

    /// Whether an action passes the test.
    pub fn test(&self, action: &EngineAction) -> (r: bool)
        ensures
            r == actuates(self.topic@, self.action@, action@),
    {
        if action.matches(self.topic.as_str()) {
            self.reported_by(&parse_or_null(action.payload.as_slice()))
        } else {
            false
        }
    }
}

/// The properties of a message that is sent at most once and not retained.
pub open spec fn at_most_once() -> JsonValue {
    JsonValue::Object(
        Map::empty().insert("qos"@, JsonValue::Int(0)).insert("retain"@, JsonValue::Bool(false)),
    )
}

/// The message that asks the light under `topic` to toggle.
pub open spec fn toggle_message(topic: Seq<char>) -> MessageValue {
    MessageValue {
        topic: topic + "/set"@,
        payload: text_bytes("{\"state\":\"TOGGLE\"}"@),
        properties: at_most_once(),
    }
}

/// What is sent for an action that passed or failed a test: a toggle of the
/// light under `topic`, or nothing.
pub open spec fn toggle_messages_of(passed: bool, topic: Seq<char>) -> Seq<MessageValue> {
    if passed {
        seq![toggle_message(topic)]
    } else {
        Seq::empty()
    }
}

/// What is sent for an action that passed or failed a test.
pub fn toggle_messages(passed: bool, topic: &str) -> (r: Vec<EngineMessage>)
    ensures
        messages_value(r@) == toggle_messages_of(passed, topic@),
{
    let mut messages: Vec<EngineMessage> = Vec::new();
    if passed {
        let mut target = topic.to_string();
        target.append("/set");
        let properties = JsonObject::new().insert(
            "qos".to_string(),
            Json::Number(JsonNumber::Int(0)),
        ).insert("retain".to_string(), Json::Bool(false));
        messages.push(
            EngineMessage {
                topic: target,
                payload: copy_bytes("{\"state\":\"TOGGLE\"}".as_bytes()),
                properties: Json::Object(properties),
            },
        );
    }
    messages
}

/// A slice function that asks the light under a topic to toggle whenever an
/// action passes a test.
#[derive(Debug)]
pub struct LightToggle {
    pub actionmatch: Actuator,
    pub topic: String,
}

/// The slice function that toggles the light under `strtopic` on the
/// actions that pass `actionmatch`.
pub fn light_toggle(actionmatch: Actuator, strtopic: &str) -> (r: LightToggle)
    ensures
        r.actionmatch == actionmatch,
        r.topic@ == strtopic@,
{
    LightToggle { actionmatch, topic: strtopic.to_string() }
}

impl UserSlice for LightToggle {
    open spec fn outcome(&self, info: JsonValue, action: ActionValue) -> Result<
        SliceValue,
        SliceError,
    > {
        Ok(
            SliceValue {
                state: JsonValue::Object(Map::empty()),
                messages: toggle_messages_of(
                    actuates(self.actionmatch.topic@, self.actionmatch.action@, action),
                    self.topic@,
                ),
            },
        )
    }

    fn call(&self, info: &Json, action: &EngineAction) -> (r: Result<SliceResult, SliceError>) {
        Ok(
            SliceResult::messages(
                toggle_messages(self.actionmatch.test(action), self.topic.as_str()),
            ),
        )
    }
}

} // verus!
