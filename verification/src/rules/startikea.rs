//! Slice functions that arm the emitters on a button of a remote control.

use crate::json::{json_value, member_value, text_of, Json, JsonValue};
use crate::master::{ActionValue, EngineAction, SliceFunction, SliceResult, SliceValue};
use crate::rules::startaction::{imp_start_json_action, json_action_starts};
use crate::rules::{only_state, slice_outcome, start_state, text_member, SliceError};
use vstd::prelude::*;

verus! {

/// The buttons of the remote control.
#[derive(Debug, Clone, Copy, PartialEq, Eq, Structural)]
pub enum IkeaRemote {
    On,
    Off,
    Toggle,
    BrightUp,
    BrightDown,
    ArrowRight,
    ArrowLeft,
}

/// The word that the remote control sends for a button.
pub open spec fn ikea_remote_text(r: IkeaRemote) -> Seq<char> {
    match r {
        IkeaRemote::On => "on"@,
        IkeaRemote::Off => "off"@,
        IkeaRemote::Toggle => "toggle"@,
        IkeaRemote::BrightUp => "brightness_up_click"@,
        IkeaRemote::BrightDown => "brightness_down_click"@,
        IkeaRemote::ArrowRight => "arrow_right_click"@,
        IkeaRemote::ArrowLeft => "arrow_left_click"@,
    }
}

/// The word that the remote control sends for a button.
pub fn ikea_remote_to_string(r: &IkeaRemote) -> (s: &'static str)
    ensures
        s@ == ikea_remote_text(*r),
{
    match r {
        IkeaRemote::On => "on",
        IkeaRemote::Off => "off",
        IkeaRemote::Toggle => "toggle",
        IkeaRemote::BrightUp => "brightness_up_click",
        IkeaRemote::BrightDown => "brightness_down_click",
        IkeaRemote::ArrowRight => "arrow_right_click",
        IkeaRemote::ArrowLeft => "arrow_left_click",
    }
}

/// The registry entry of `start_ikea_remote_on`.
pub fn start_ikea_remote_on() -> (r: (String, SliceFunction))
    ensures
        r.0@ == "start_ikea_remote_on"@,
        r.1 == SliceFunction::StartIkeaRemote(IkeaRemote::On),
{
    ("start_ikea_remote_on".to_string(), start_ikea_remote(IkeaRemote::On))
}

/// The registry entry of `start_ikea_remote_off`.
pub fn start_ikea_remote_off() -> (r: (String, SliceFunction))
    ensures
        r.0@ == "start_ikea_remote_off"@,
        r.1 == SliceFunction::StartIkeaRemote(IkeaRemote::Off),
{
    ("start_ikea_remote_off".to_string(), start_ikea_remote(IkeaRemote::Off))
}

/// The registry entry of `start_ikea_remote_toggle`.
pub fn start_ikea_remote_toggle() -> (r: (String, SliceFunction))
    ensures
        r.0@ == "start_ikea_remote_toggle"@,
        r.1 == SliceFunction::StartIkeaRemote(IkeaRemote::Toggle),
{
    ("start_ikea_remote_toggle".to_string(), start_ikea_remote(IkeaRemote::Toggle))
}

/// The registry entry of `start_ikea_remote_brightness_down`.
pub fn start_ikea_remote_bright_down() -> (r: (String, SliceFunction))
    ensures
        r.0@ == "start_ikea_remote_brightness_down"@,
        r.1 == SliceFunction::StartIkeaRemote(IkeaRemote::BrightDown),
{
    ("start_ikea_remote_brightness_down".to_string(), start_ikea_remote(IkeaRemote::BrightDown))
}

/// The registry entry of `start_ikea_remote_brightness_up`.
pub fn start_ikea_remote_bright_up() -> (r: (String, SliceFunction))
    ensures
        r.0@ == "start_ikea_remote_brightness_up"@,
        r.1 == SliceFunction::StartIkeaRemote(IkeaRemote::BrightUp),
{
    ("start_ikea_remote_brightness_up".to_string(), start_ikea_remote(IkeaRemote::BrightUp))
}

/// The registry entry of `start_ikea_remote_arrow_left`.
pub fn start_ikea_remote_arrow_left() -> (r: (String, SliceFunction))
    ensures
        r.0@ == "start_ikea_remote_arrow_left"@,
        r.1 == SliceFunction::StartIkeaRemote(IkeaRemote::ArrowLeft),
{
    ("start_ikea_remote_arrow_left".to_string(), start_ikea_remote(IkeaRemote::ArrowLeft))
}

/// The registry entry of `start_ikea_remote_arrow_right`.
pub fn start_ikea_remote_arrow_right() -> (r: (String, SliceFunction))
    ensures
        r.0@ == "start_ikea_remote_arrow_right"@,
        r.1 == SliceFunction::StartIkeaRemote(IkeaRemote::ArrowRight),
{
    ("start_ikea_remote_arrow_right".to_string(), start_ikea_remote(IkeaRemote::ArrowRight))
}

/// The function that arms the emitters when the remote control under the
/// topic `_topic` reports that a button was pressed.
pub fn start_ikea_remote(command: IkeaRemote) -> (r: SliceFunction)
    ensures
        r == SliceFunction::StartIkeaRemote(command),
{
    SliceFunction::StartIkeaRemote(command)
}

/// What `start_ikea_remote` hands back for a button.
pub open spec fn start_ikea_remote_outcome(
    command: IkeaRemote,
    info: JsonValue,
    action: ActionValue,
) -> Result<SliceValue, SliceError> {
    let topic = text_of(member_value(info, "_topic"@));
    if topic is None {
        Err(SliceError::MissingTopic)
    } else {
        Ok(
            only_state(
                start_state(
                    json_action_starts(
                        action,
                        topic->0,
                        "/action"@,
                        JsonValue::Str(ikea_remote_text(command)),
                    ),
                ),
            ),
        )
    }
}

/// Runs `start_ikea_remote` for a button.
pub fn apply_start_ikea_remote(command: &IkeaRemote, info: &Json, action: &EngineAction) -> (r:
    Result<SliceResult, SliceError>)
    ensures
        slice_outcome(r) == start_ikea_remote_outcome(*command, json_value(*info), action@),
{
    let topic = match text_member(info, "_topic") {
        Some(topic) => topic,
        None => { return Err(SliceError::MissingTopic); },
    };
    let word = Json::Str(ikea_remote_to_string(command).to_string());
    Ok(imp_start_json_action(info, action, topic, "/action", &word))
}

} // verus!
