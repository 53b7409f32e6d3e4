//! What the tasks that load and save the state of an engine take from its
//! results.

use crate::json::codec::json_text_pretty;
use crate::master::engine::{notify_topic, payload_functions, read_functions};
use crate::master::{
    functions_doc, functions_to_json, functions_value, messages_value, ActionValue,
    EngineAction, EngineResult, EngineStatus, FinalStatus, MessageValue, ReducerFunction,
    StatusValue,
};
use crate::text::{copy_bytes, join3, same_text};
use vstd::prelude::*;

verus! {

/// The action that hands the stored list of calls to the engine.
pub fn load_functions_action(functions: Vec<u8>) -> (r: EngineAction)
    ensures
        r@ == (ActionValue { topic: "SYSMR/action/load_functions"@, payload: functions@ }),
{
    EngineAction::new("SYSMR/action/load_functions".to_string(), functions)
}

/// The payload of the last of the messages that went out under `topic`;
/// `previous` where none did.
pub open spec fn latest_of(
    messages: Seq<MessageValue>,
    topic: Seq<char>,
    previous: Option<Seq<u8>>,
) -> Option<Seq<u8>>
    decreases messages.len(),
{
    if messages.len() == 0 {
        previous
    } else if messages.last().topic == topic {
        Some(messages.last().payload)
    } else {
        latest_of(messages.drop_last(), topic, previous)
    }
}

/// The bytes that an option holds.
pub open spec fn held_bytes(r: Option<Vec<u8>>) -> Option<Seq<u8>> {
    match r {
        Some(bytes) => Some(bytes@),
        None => None,
    }
}

/// The payload of the last message of a result that went out under `topic`;
/// `previous` where none did.
pub fn latest_payload(result: &EngineResult, topic: &str, previous: Option<Vec<u8>>) -> (r: Option<
    Vec<u8>,
>)
    ensures
        held_bytes(r) == latest_of(result@, topic@, held_bytes(previous)),
{
    let ghost all = result@;
    let ghost start = held_bytes(previous);
    let mut latest = previous;
    let mut i: usize = 0;
    while i < result.messages.len()
        invariant
            i <= result.messages.len(),
            all == messages_value(result.messages@),
            held_bytes(latest) == latest_of(all.take(i as int), topic@, start),
        decreases result.messages.len() - i,
    {
        assert(all.take(i + 1).drop_last() =~= all.take(i as int));
        if same_text(result.messages[i].topic.as_str(), topic) {
            latest = Some(copy_bytes(result.messages[i].payload.as_slice()));
        }
        i += 1;
    }
    assert(all.take(i as int) =~= all);
    latest
}

/// The stored list of calls after a result: the payload of its last notice
/// to save the list, or what was stored before.
pub fn saved_functions(result: &EngineResult, previous: Option<Vec<u8>>) -> (r: Option<Vec<u8>>)
    ensures
        held_bytes(r) == latest_of(result@, "SYSMR/notify/save_functions"@, held_bytes(previous)),
{
    latest_payload(result, "SYSMR/notify/save_functions", previous)
}

/// The stored last word after a result: the payload of its last notice of
/// the exit, or what was stored before.
pub fn saved_exit(prefix_id: &str, result: &EngineResult, previous: Option<Vec<u8>>) -> (r: Option<
    Vec<u8>,
>)
    ensures
        held_bytes(r) == latest_of(
            result@,
            notify_topic(prefix_id@, "exit"@),
            held_bytes(previous),
        ),
{
    latest_payload(result, join3(prefix_id, "/notify/", "exit").as_str(), previous)
}

/// The word for the way a run ended.
pub open spec fn final_word(status: FinalStatus) -> Seq<char> {
    match status {
        FinalStatus::NORMAL => "NORMAL"@,
        FinalStatus::ERROR => "ERROR"@,
    }
}

/// What is written down when a run has ended: the word for the way it
/// ended, a slash, and its last message.
pub open spec fn exit_text_of(status: StatusValue) -> Option<Seq<char>> {
    match status {
        StatusValue::Final(how, message) => Some(final_word(how) + "/"@ + message),
        _ => None,
    }
}

/// What is written down when a run has ended; nothing while it goes on.
pub fn exit_text(status: &EngineStatus) -> (r: Option<String>)
    ensures
        r is Some <==> exit_text_of(status@) is Some,
        r is Some ==> r->0@ == exit_text_of(status@)->0,
{
    match status {
        EngineStatus::FINAL(how, message) => {
            let word = match how {
                FinalStatus::NORMAL => "NORMAL",
                FinalStatus::ERROR => "ERROR",
            };
            Some(join3(word, "/", message.as_str()))
        },
        _ => None,
    }
}

/// Whether a run has ended, and ended well.
pub fn ended_normally(status: &EngineStatus) -> (r: bool)
    ensures
        r == (status@ matches StatusValue::Final(how, _) && how == FinalStatus::NORMAL),
{
    match status {
        EngineStatus::FINAL(FinalStatus::NORMAL, _) => true,
        _ => false,
    }
}

/// The stored list of calls that a run starts with: the list that the
/// stored bytes hold, or none where they hold no list.
pub fn stored_functions(bytes: &[u8]) -> (r: Vec<ReducerFunction>)
    ensures
        functions_value(r@) == match payload_functions(bytes@) {
            Ok(functions) => functions,
            Err(_) => Seq::empty(),
        },
{
    match read_functions(bytes) {
        Ok(functions) => functions,
        Err(_) => {
            let none: Vec<ReducerFunction> = Vec::new();
            none
        },
    }
}

/// The bytes to store for a list of calls: its indented text.
pub fn functions_to_store(functions: &Vec<ReducerFunction>) -> (r: Vec<u8>)
    ensures
        r@ == json_text_pretty(functions_doc(functions_value(functions@))),
{
    functions_to_json(functions).to_bytes_pretty()
}

} // verus!
