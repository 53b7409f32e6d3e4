//! The slice functions: the vocabulary that the calls of an engine are made
//! of.

use crate::json::codec::json_parse;
use crate::json::{json_value, member_value, text_of, Json, JsonObject, JsonValue};
use crate::master::{
    slice_kind, ActionValue, EngineAction, EngineMessage, MessageValue, SliceFunction, SliceKind,
    SliceResult, SliceValue, UserSlice,
};
use crate::master::engine::{registry_kinds, Registry};
use vstd::prelude::*;

pub mod forward;
pub mod relay;
pub mod savelist;
pub mod startaction;
pub mod startikea;
pub mod timing;
pub mod zigbee;

verus! {

/// Why a slice function could not run: the working document lacks a
/// parameter, or holds it with another type than the function reads.
#[derive(Debug, Clone, Copy, PartialEq, Eq, Structural)]
pub enum SliceError {
    MissingTopic,
    MissingCommand,
    MissingPointer,
    MissingValue,
    MissingForwardTopic,
    MissingTimestamp,
    MissingIndex,
    MissingCount,
    MissingValues,
    InvalidPeriod,
}

/// What an error says.
pub open spec fn error_text(e: SliceError) -> Seq<char> {
    match e {
        SliceError::MissingTopic => "missing parameter: _topic"@,
        SliceError::MissingCommand => "missing parameter: _command"@,
        SliceError::MissingPointer => "missing parameter: _pointer"@,
        SliceError::MissingValue => "missing parameter: _value"@,
        SliceError::MissingForwardTopic => "missing parameter: _forwardtopic"@,
        SliceError::MissingTimestamp => "missing parameter: _timestamp"@,
        SliceError::MissingIndex => "missing parameter: _index"@,
        SliceError::MissingCount => "missing parameter: _count"@,
        SliceError::MissingValues => "missing list of values"@,
        SliceError::InvalidPeriod => "invalid period"@,
    }
}

impl SliceError {
    /// What the error says.
    pub fn describe(&self) -> (r: &'static str)
        ensures
            r@ == error_text(*self),
    {
        match self {
            SliceError::MissingTopic => "missing parameter: _topic",
            SliceError::MissingCommand => "missing parameter: _command",
            SliceError::MissingPointer => "missing parameter: _pointer",
            SliceError::MissingValue => "missing parameter: _value",
            SliceError::MissingForwardTopic => "missing parameter: _forwardtopic",
            SliceError::MissingTimestamp => "missing parameter: _timestamp",
            SliceError::MissingIndex => "missing parameter: _index",
            SliceError::MissingCount => "missing parameter: _count",
            SliceError::MissingValues => "missing list of values",
            SliceError::InvalidPeriod => "invalid period",
        }
    }
}

/// What a slice function ended with, over values.
pub open spec fn slice_outcome(r: Result<SliceResult, SliceError>) -> Result<
    SliceValue,
    SliceError,
> {
    match r {
        Ok(result) => Ok(result@),
        Err(e) => Err(e),
    }
}

/// The patch that sets or clears the mark that arms the emitters.
pub open spec fn start_state(start: bool) -> JsonValue {
    JsonValue::Object(Map::empty().insert("_start"@, JsonValue::Bool(start)))
}

/// A patch and no messages.
pub open spec fn only_state(state: JsonValue) -> SliceValue {
    SliceValue { state, messages: Seq::empty() }
}

/// One message and an empty patch.
pub open spec fn only_message(message: MessageValue) -> SliceValue {
    SliceValue { state: JsonValue::Object(Map::empty()), messages: seq![message] }
}

/// No message and an empty patch.
pub open spec fn nothing() -> SliceValue {
    SliceValue { state: JsonValue::Object(Map::empty()), messages: Seq::empty() }
}

/// The document that a payload holds; null where it is no JSON text.
pub open spec fn parsed_or_null(payload: Seq<u8>) -> JsonValue {
    match json_parse(payload) {
        Ok(doc) => doc,
        Err(_) => JsonValue::Null,
    }
}

/// Whether the working document carries the mark that arms the emitters.
pub open spec fn is_armed(info: JsonValue) -> bool {
    member_value(info, "_start"@) == JsonValue::Bool(true)
}

/// What a slice function hands back for a working document and an action.
pub open spec fn slice_value(f: SliceFunction, info: JsonValue, action: ActionValue) -> Result<
    SliceValue,
    SliceError,
> {
    match f {
        SliceFunction::StartAction => startaction::start_action_outcome(info, action),
        SliceFunction::StartJsonAction => startaction::start_json_action_outcome(info, action),
        SliceFunction::StartIkeaRemote(command) => startikea::start_ikea_remote_outcome(
            command,
            info,
            action,
        ),
        SliceFunction::Relay => relay::relay_outcome(info),
        SliceFunction::RelayValue(value) => relay::relay_value_outcome(value@, info),
        SliceFunction::ForwardUserAction => forward::forward_user_action_outcome(info, action),
        SliceFunction::ForwardAction => forward::forward_action_outcome(info, action),
        SliceFunction::ConditionSleep => timing::condition_sleep_outcome(info),
        SliceFunction::SaveList => savelist::save_list_outcome(info, action),
        SliceFunction::SaveValue => savelist::save_value_outcome(info, action),
        SliceFunction::User(function) => function.outcome(info, action),
    }
}

/// Two functions of the library that are of one kind hand back the same.
pub proof fn law_kind_decides(
    f: SliceFunction,
    g: SliceFunction,
    info: JsonValue,
    action: ActionValue,
)
    requires
        slice_kind(f) == slice_kind(g),
        slice_kind(f) !is User,
    ensures
        slice_value(f, info, action) == slice_value(g, info, action),
{
}

impl SliceFunction {
    /// Runs the function on the working document and an action.
    pub fn apply(&self, info: &Json, action: &EngineAction) -> (r: Result<SliceResult, SliceError>)
        ensures
            slice_outcome(r) == slice_value(*self, json_value(*info), action@),
    {
        match self {
            SliceFunction::StartAction => startaction::apply_start_action(info, action),
            SliceFunction::StartJsonAction => startaction::apply_start_json_action(info, action),
            SliceFunction::StartIkeaRemote(command) => startikea::apply_start_ikea_remote(
                command,
                info,
                action,
            ),
            SliceFunction::Relay => relay::apply_relay(info, action),
            SliceFunction::RelayValue(value) => relay::apply_relay_value(
                value.as_slice(),
                info,
                action,
            ),
            SliceFunction::ForwardUserAction => forward::apply_forward_user_action(info, action),
            SliceFunction::ForwardAction => forward::apply_forward_action(info, action),
            SliceFunction::ConditionSleep => timing::apply_condition_sleep(info, action),
            SliceFunction::SaveList => savelist::save_list(info, action),
            SliceFunction::SaveValue => savelist::save_value(info, action),
            SliceFunction::User(function) => function.call(info, action),
        }
    }
}

/// The characters of the string member under `key`, if the document is an
/// object with such a member.
pub fn text_member<'a>(info: &'a Json, key: &str) -> (r: Option<&'a str>)
    ensures
        r is Some <==> text_of(member_value(json_value(*info), key@)) is Some,
        r is Some ==> r->0@ == text_of(member_value(json_value(*info), key@))->0,
{
    match info.member(key) {
        Some(found) => found.as_str(),
        None => None,
    }
}

/// Whether the working document carries the mark that arms the emitters.
pub fn armed(info: &Json) -> (r: bool)
    ensures
        r == is_armed(json_value(*info)),
{
    match info.member("_start") {
        Some(found) => match found.as_bool() {
            Some(b) => b,
            None => false,
        },
        None => false,
    }
}

/// The document that a payload holds; null where it is no JSON text.
pub fn parse_or_null(payload: &[u8]) -> (r: Json)
    ensures
        json_value(r) == parsed_or_null(payload@),
{
    match Json::parse(payload) {
        Ok(doc) => doc,
        Err(_) => Json::Null,
    }
}

/// The result that sets the mark to `start`.
pub fn start_result(start: bool) -> (r: SliceResult)
    ensures
        r@ == only_state(start_state(start)),
{
    let object = JsonObject::new().insert("_start".to_string(), Json::Bool(start));
    SliceResult::state(Json::Object(object))
}

/// The result that publishes one message.
pub fn message_result(message: EngineMessage) -> (r: SliceResult)
    ensures
        r@ == only_message(message@),
{
    let mut messages: Vec<EngineMessage> = Vec::new();
    messages.push(message);
    let r = SliceResult::messages(messages);
    assert(r@.messages =~= seq![message@]);
    r
}

/// The functions of the first vocabulary, each under its name.
pub open spec fn default_functions() -> Map<Seq<char>, SliceKind> {
    Map::empty().insert("start_action"@, SliceKind::StartAction).insert(
        "start_json_action"@,
        SliceKind::StartJsonAction,
    ).insert(
        "start_ikea_remote_toggle"@,
        SliceKind::StartIkeaRemote(startikea::IkeaRemote::Toggle),
    ).insert(
        "start_ikea_remote_brightness_down"@,
        SliceKind::StartIkeaRemote(startikea::IkeaRemote::BrightDown),
    ).insert("relay_on"@, SliceKind::RelayValue(crate::text::text_bytes("on"@))).insert(
        "relay"@,
        SliceKind::Relay,
    ).insert("forward_action"@, SliceKind::ForwardAction).insert(
        "forward_user_action"@,
        SliceKind::ForwardUserAction,
    ).insert("condition_sleep"@, SliceKind::ConditionSleep)
}

/// The registry of the first vocabulary.
pub fn default_engine_functions() -> (r: Registry)
    ensures
        registry_kinds(r@) == default_functions(),
{
    let mut registry = Registry::new();
    registry.register(startaction::slice_start_action());
    registry.register(startaction::slice_start_json_action());
    registry.register(startikea::start_ikea_remote_toggle());
    registry.register(startikea::start_ikea_remote_bright_down());
    registry.register(relay::relay_value_on());
    registry.register(relay::relay_action());
    registry.register(forward::_forward_action());
    registry.register(forward::_forward_user_action());
    registry.register(timing::_condition_sleep());
    registry
}

/// Every function of the library, each under its name.
pub open spec fn distributed_functions() -> Map<Seq<char>, SliceKind> {
    default_functions().insert(
        "start_ikea_remote_on"@,
        SliceKind::StartIkeaRemote(startikea::IkeaRemote::On),
    ).insert("start_ikea_remote_off"@, SliceKind::StartIkeaRemote(startikea::IkeaRemote::Off)).insert(
        "start_ikea_remote_brightness_up"@,
        SliceKind::StartIkeaRemote(startikea::IkeaRemote::BrightUp),
    ).insert(
        "start_ikea_remote_arrow_left"@,
        SliceKind::StartIkeaRemote(startikea::IkeaRemote::ArrowLeft),
    ).insert(
        "start_ikea_remote_arrow_right"@,
        SliceKind::StartIkeaRemote(startikea::IkeaRemote::ArrowRight),
    ).insert("relay_off"@, SliceKind::RelayValue(crate::text::text_bytes("off"@)))
}

/// The registry of every function of the library.
pub fn distributed_engine_functions() -> (r: Registry)
    ensures
        registry_kinds(r@) == distributed_functions(),
{
    let mut registry = default_engine_functions();
    registry.register(startikea::start_ikea_remote_on());
    registry.register(startikea::start_ikea_remote_off());
    registry.register(startikea::start_ikea_remote_bright_up());
    registry.register(startikea::start_ikea_remote_arrow_left());
    registry.register(startikea::start_ikea_remote_arrow_right());
    registry.register(relay::relay_value_off());
    registry
}

} // verus!
