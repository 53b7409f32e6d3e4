//! Slice functions that keep samples of what comes in.

use crate::json::codec::{json_parse, json_text, outcome_value};
use crate::json::{
    int_of, items_of, items_value, json_value, lemma_items_value, member_value, text_of, Json,
    JsonNumber, JsonObject, JsonValue,
};
use crate::master::{
    plain_message, ActionValue, EngineAction, EngineMessage, SliceResult, SliceValue,
};
use crate::rules::timing::int_member;
use crate::rules::{nothing, only_state, slice_outcome, text_member, SliceError};
use vstd::prelude::*;

verus! {

/// The key under which the samples of a topic are kept.
pub open spec fn list_key(topic: Seq<char>) -> Seq<char> {
    topic + "/list"@
}

/// The patch that keeps `value` as the current sample.
pub open spec fn current_state(key: Seq<char>, value: JsonValue) -> JsonValue {
    JsonValue::Object(
        Map::empty().insert(key, JsonValue::Object(Map::empty().insert("current"@, value))),
    )
}

/// The sample that a payload holds: its document, or the word `error` where
/// it is no JSON text.
pub open spec fn sample_of(payload: Seq<u8>) -> JsonValue {
    match json_parse(payload) {
        Ok(doc) => doc,
        Err(_) => JsonValue::Str("error"@),
    }
}

/// The samples with the oldest dropped and `current` added as the newest.
pub open spec fn shift_once(values: Seq<JsonValue>, current: JsonValue) -> Seq<JsonValue> {
    if values.len() == 0 {
        values
    } else {
        values.skip(1).push(current)
    }
}

/// The time of the last sample and the samples, after one sample was added
/// for each full period between `at` and `timestamp`.
pub open spec fn catch_up(
    at: int,
    tick: int,
    timestamp: int,
    values: Seq<JsonValue>,
    current: JsonValue,
) -> (int, Seq<JsonValue>)
    decreases timestamp - at,
{
    if tick > 0 && timestamp >= at + tick {
        catch_up(at + tick, tick, timestamp, shift_once(values, current), current)
    } else {
        (at, values)
    }
}

/// After catching up, the time of the last sample is a whole number of
/// periods after where it was, and less than a period behind; and there are
/// as many samples as before.
pub proof fn law_catch_up(
    at: int,
    tick: int,
    timestamp: int,
    values: Seq<JsonValue>,
    current: JsonValue,
)
    requires
        tick > 0,
        at <= timestamp,
    ensures
        ({
            let moved = catch_up(at, tick, timestamp, values, current);
            &&& moved.0 <= timestamp < moved.0 + tick
            &&& (moved.0 - at) % tick == 0
            &&& moved.1.len() == values.len()
        }),
    decreases timestamp - at,
{
    if timestamp >= at + tick {
        law_catch_up(at + tick, tick, timestamp, shift_once(values, current), current);
        let moved = catch_up(at, tick, timestamp, values, current);
        assert((moved.0 - at) % tick == 0) by (nonlinear_arith)
            requires
                tick > 0,
                (moved.0 - (at + tick)) % tick == 0,
        ;
    } else {
        assert(0int % tick == 0) by (nonlinear_arith)
            requires
                tick > 0,
        ;
    }
}

/// The first list of samples: `count` places, the newest of which holds
/// `current`.
pub open spec fn first_samples(count: int, current: JsonValue) -> Seq<JsonValue> {
    Seq::new(
        count as nat,
        |i: int|
            if i == count - 1 {
                current
            } else {
                JsonValue::Null
            },
    )
}

/// The result that keeps the samples and publishes them.
pub open spec fn saved(key: Seq<char>, at: int, values: Seq<JsonValue>) -> SliceValue {
    SliceValue {
        state: JsonValue::Object(
            Map::empty().insert(
                key,
                JsonValue::Object(
                    Map::empty().insert("valuest"@, JsonValue::Int(at)).insert(
                        "values"@,
                        JsonValue::Array(values),
                    ),
                ),
            ),
        ),
        messages: seq![plain_message(key, json_text(JsonValue::Array(values)))],
    }
}

/// What a tick does to the samples under `key`: the first tick lays out the
/// list; a later one adds a sample for each period that has passed.
pub open spec fn tick_outcome(
    info: JsonValue,
    key: Seq<char>,
    duration: int,
    count: int,
    timestamp: int,
) -> Result<SliceValue, SliceError> {
    let list = member_value(info, key);
    let current = member_value(list, "current"@);
    let tick = duration / count;
    match int_of(member_value(list, "valuest"@)) {
        None => Ok(saved(key, timestamp, first_samples(count, current))),
        Some(at) => match items_of(member_value(list, "values"@)) {
            None => Err(SliceError::MissingValues),
            Some(values) => if timestamp >= at + tick {
                let moved = catch_up(at, tick, timestamp, values, current);
                Ok(saved(key, moved.0, moved.1))
            } else {
                Ok(nothing())
            },
        },
    }
}

/// What `save_list` hands back: an action under `_topic` sets the current
/// sample; a tick of the timer takes samples of it, `_count` of them over
/// `_value` milliseconds, and is refused where that gives no period of at
/// least a millisecond.
pub open spec fn save_list_outcome(info: JsonValue, action: ActionValue) -> Result<
    SliceValue,
    SliceError,
> {
    let topic = text_of(member_value(info, "_topic"@));
    let duration = int_of(member_value(info, "_value"@));
    let count = int_of(member_value(info, "_count"@));
    let timestamp = int_of(member_value(info, "_timestamp"@));
    if topic is None {
        Err(SliceError::MissingTopic)
    } else if duration is None {
        Err(SliceError::MissingValue)
    } else if count is None {
        Err(SliceError::MissingCount)
    } else if timestamp is None {
        Err(SliceError::MissingTimestamp)
    } else if action.topic == topic->0 {
        Ok(only_state(current_state(list_key(topic->0), sample_of(action.payload))))
    } else if action.topic != "SYSMR/action/tick"@ {
        Ok(nothing())
    } else if count->0 <= 0 || duration->0 < count->0 {
        Err(SliceError::InvalidPeriod)
    } else {
        tick_outcome(info, list_key(topic->0), duration->0, count->0, timestamp->0)
    }
}

/// The result that keeps what was read from a payload as the current
/// sample.
pub fn sample_result(key: String, read: Result<Json, String>) -> (r: SliceResult)
    ensures
        r@ == only_state(
            current_state(
                key@,
                match outcome_value(read) {
                    Ok(doc) => doc,
                    Err(_) => JsonValue::Str("error"@),
                },
            ),
        ),
{
    let value = match read {
        Ok(doc) => doc,
        Err(_) => Json::Str("error".to_string()),
    };
    let inner = JsonObject::new().insert("current".to_string(), value);
    SliceResult::state(Json::Object(JsonObject::new().insert(key, Json::Object(inner))))
}

/// A copy of a list of documents.
pub fn copy_items(items: &Vec<Json>) -> (r: Vec<Json>)
    ensures
        items_value(r@) == items_value(items@),
{
    let mut copy: Vec<Json> = Vec::new();
    let mut i: usize = 0;
    while i < items.len()
        invariant
            i <= items.len(),
            copy@.len() == i,
            forall|q: int| 0 <= q < i ==> json_value(#[trigger] copy@[q]) == json_value(items@[q]),
        decreases items.len() - i,
    {
        copy.push(items[i].duplicate());
        i += 1;
    }
    proof {
        lemma_items_value(items@);
        lemma_items_value(copy@);
    }
    copy
}

/// The result that keeps the samples and publishes them.
pub fn saved_result(key: String, at: i64, values: Vec<Json>) -> (r: SliceResult)
    ensures
        r@ == saved(key@, at as int, items_value(values@)),
{
    let list = Json::Array(copy_items(&values));
    let payload = list.to_bytes();
    let inner = JsonObject::new().insert(
        "valuest".to_string(),
        Json::Number(JsonNumber::Int(at)),
    ).insert("values".to_string(), Json::Array(values));
    let state = Json::Object(JsonObject::new().insert(key.clone(), Json::Object(inner)));
    let mut messages: Vec<EngineMessage> = Vec::new();
    messages.push(EngineMessage::new(key, payload));
    let r = SliceResult::new(state, messages);
    assert(r@.messages =~= seq![
        plain_message(key@, json_text(JsonValue::Array(items_value(values@)))),
    ]);
    r
}

/// The first list of samples.
fn first_list(count: i64, current: &Json) -> (r: Vec<Json>)
    requires
        count > 0,
    ensures
        items_value(r@) == first_samples(count as int, json_value(*current)),
{
    let mut values: Vec<Json> = Vec::new();
    let mut i: i64 = 1;
    while i < count
        invariant
            1 <= i <= count,
            values@.len() == i - 1,
            forall|q: int| 0 <= q < i - 1 ==> json_value(#[trigger] values@[q]) == JsonValue::Null,
        decreases count - i,
    {
        values.push(Json::Null);
        i += 1;
    }
    values.push(current.duplicate());
    proof {
        lemma_items_value(values@);
    }
    values
}

/// Adds a sample for each full period between `at` and `timestamp`.
fn move_samples(at: i64, tick: i64, timestamp: i64, values: Vec<Json>, current: &Json) -> (r: (
    i64,
    Vec<Json>,
))
    requires
        tick > 0,
        at <= timestamp,
    ensures
        (r.0 as int, items_value(r.1@)) == catch_up(
            at as int,
            tick as int,
            timestamp as int,
            items_value(values@),
            json_value(*current),
        ),
{
    let mut at = at;
    let mut values = values;
    let ghost end = catch_up(
        at as int,
        tick as int,
        timestamp as int,
        items_value(values@),
        json_value(*current),
    );
    while timestamp as i128 >= at as i128 + tick as i128
        invariant
            tick > 0,
            at <= timestamp,
            end == catch_up(
                at as int,
                tick as int,
                timestamp as int,
                items_value(values@),
                json_value(*current),
            ),
        decreases timestamp - at,
    {
        let ghost before = items_value(values@);
        proof {
            lemma_items_value(values@);
        }
        at = at + tick;
        if values.len() > 0 {
            values.remove(0);
            values.push(current.duplicate());
        }
        proof {
            lemma_items_value(values@);
            assert(items_value(values@) =~= shift_once(before, json_value(*current)));
        }
    }
    (at, values)
}

/// Keeps samples of the values that come in under a topic.
pub fn save_list(info: &Json, action: &EngineAction) -> (r: Result<SliceResult, SliceError>)
    ensures
        slice_outcome(r) == save_list_outcome(json_value(*info), action@),
{
    let topic = match text_member(info, "_topic") {
        Some(topic) => topic,
        None => { return Err(SliceError::MissingTopic); },
    };
    let duration = match int_member(info, "_value") {
        Some(duration) => duration,
        None => { return Err(SliceError::MissingValue); },
    };
    let count = match int_member(info, "_count") {
        Some(count) => count,
        None => { return Err(SliceError::MissingCount); },
    };
    let timestamp = match int_member(info, "_timestamp") {
        Some(timestamp) => timestamp,
        None => { return Err(SliceError::MissingTimestamp); },
    };
    let mut key = topic.to_string();
    key.append("/list");
    if action.matches(topic) {
        return Ok(sample_result(key, Json::parse(action.payload.as_slice())));
    }
    if !action.matches("SYSMR/action/tick") {
        return Ok(SliceResult::empty());
    }
    if count <= 0 || duration < count {
        return Err(SliceError::InvalidPeriod);
    }
    let tick: i64 = duration / count;
    assert(tick >= 1) by (nonlinear_arith)
        requires
            count > 0,
            duration >= count,
            tick == duration / count,
    ;
    let null = Json::Null;
    let list = match info.member(key.as_str()) {
        Some(list) => list,
        None => &null,
    };
    let current = match list.member("current") {
        Some(current) => current,
        None => &null,
    };
    match int_member(list, "valuest") {
        None => Ok(saved_result(key, timestamp, first_list(count, current))),
        Some(at) => {
            let held = match list.member("values") {
                Some(held) => held.as_array(),
                None => None,
            };
            let values = match held {
                Some(values) => values,
                None => { return Err(SliceError::MissingValues); },
            };
            if timestamp as i128 >= at as i128 + tick as i128 {
                let (moved, samples) = move_samples(
                    at,
                    tick,
                    timestamp,
                    copy_items(values),
                    current,
                );
                Ok(saved_result(key, moved, samples))
            } else {
                Ok(SliceResult::empty())
            }
        },
    }
}

/// The key under which the last payload of a topic is kept.
pub open spec fn store_key(topic: Seq<char>) -> Seq<char> {
    topic + "/store"@
}

/// The document that lists bytes as numbers.
pub open spec fn bytes_doc(bytes: Seq<u8>) -> JsonValue {
    JsonValue::Array(Seq::new(bytes.len(), |i: int| JsonValue::Int(bytes[i] as int)))
}

/// What `save_value` hands back: the bytes of an action under `_topic` are
/// kept in the working document.
pub open spec fn save_value_outcome(info: JsonValue, action: ActionValue) -> Result<
    SliceValue,
    SliceError,
> {
    let topic = text_of(member_value(info, "_topic"@));
    if topic is None {
        Err(SliceError::MissingTopic)
    } else if action.topic == topic->0 {
        Ok(
            only_state(
                JsonValue::Object(
                    Map::empty().insert(store_key(topic->0), bytes_doc(action.payload)),
                ),
            ),
        )
    } else {
        Ok(nothing())
    }
}

/// Keeps the last payload that came in under a topic.
pub fn save_value(info: &Json, action: &EngineAction) -> (r: Result<SliceResult, SliceError>)
    ensures
        slice_outcome(r) == save_value_outcome(json_value(*info), action@),
{
    let topic = match text_member(info, "_topic") {
        Some(topic) => topic,
        None => { return Err(SliceError::MissingTopic); },
    };
    if action.matches(topic) {
        let mut numbers: Vec<Json> = Vec::new();
        let mut i: usize = 0;
        while i < action.payload.len()
            invariant
                i <= action.payload.len(),
                numbers@.len() == i,
                forall|q: int|
                    0 <= q < i ==> json_value(#[trigger] numbers@[q]) == JsonValue::Int(
                        action.payload@[q] as int,
                    ),
            decreases action.payload.len() - i,
        {
            numbers.push(Json::Number(JsonNumber::UInt(action.payload[i] as u64)));
            i += 1;
        }
        proof {
            lemma_items_value(numbers@);
            assert(json_value(Json::Array(numbers)) =~= bytes_doc(action.payload@)) by {
                assert(items_value(numbers@) =~= bytes_doc(action.payload@)->Array_0);
            }
        }
        let mut key = topic.to_string();
        key.append("/store");
        return Ok(
            SliceResult::state(Json::Object(JsonObject::new().insert(key, Json::Array(numbers)))),
        );
    }
    Ok(SliceResult::empty())
}

} // verus!
