//! What crosses the border between the engine and the broker: the values of
//! the connection, the quality of service, and which messages and actions
//! pass.

use crate::json::{bool_of, int_of, member_value, JsonValue};
use crate::master::{
    messages_value, ActionValue, EngineAction, EngineMessage, EngineResult, MessageValue,
};
use crate::text::{copy_bytes, has_prefix, join3, text_bytes};
use vstd::prelude::*;

verus! {

/// How to reach the broker.
#[derive(Debug)]
pub struct ConnectionValues {
    pub client_id: String,
    pub host: String,
    pub username: String,
    pub password: String,
    pub port: u16,
    pub keep_alive: u16,
    pub inflight: u16,
    pub clean_session: bool,
    pub cap: usize,
}

/// The port of the broker where none is given.
pub fn port_default() -> (r: u16)
    ensures
        r == 1883,
{
    1883
}

/// The seconds between two signs of life where none are given.
pub fn keep_alive_default() -> (r: u16)
    ensures
        r == 5,
{
    5
}

/// The number of publications in flight where none is given.
pub fn inflight_default() -> (r: u16)
    ensures
        r == 10,
{
    10
}

/// Whether to start with a clean session where nothing is said.
pub fn clean_session_default() -> (r: bool)
    ensures
        !r,
{
    false
}

/// The capacity of the channels where none is given.
pub fn cap_default() -> (r: usize)
    ensures
        r == 10,
{
    10
}

impl ConnectionValues {
    /// The values for a broker, with every other value at its default.
    pub fn new(host: String, username: String, password: String) -> (r: Self)
        ensures
            r.host == host,
            r.username == username,
            r.password == password,
            r.client_id@ == Seq::<char>::empty(),
            r.port == 1883,
            r.keep_alive == 5,
            r.inflight == 10,
            !r.clean_session,
            r.cap == 10,
    {
        ConnectionValues {
            client_id: String::new(),
            host,
            username,
            password,
            port: port_default(),
            keep_alive: keep_alive_default(),
            inflight: inflight_default(),
            clean_session: clean_session_default(),
            cap: cap_default(),
        }
    }
}

/// A topic filter to subscribe to, with the quality of service as a number.
#[derive(Debug)]
pub struct Subscription {
    pub topic: String,
    pub qos: i32,
}

/// The filter that matches every command to the engine with this prefix.
pub open spec fn command_filter(prefix: Seq<char>) -> Seq<char> {
    prefix + "/command/"@ + "#"@
}

/// The subscription to the commands of the engine with this prefix.
pub fn command_subscription(prefix_id: &str) -> (r: Subscription)
    ensures
        r.topic@ == command_filter(prefix_id@),
        r.qos == 0,
{
    Subscription { topic: join3(prefix_id, "/command/", "#"), qos: 0 }
}

/// The quality of service of a publication.
#[derive(Debug, Clone, Copy, PartialEq, Eq, Structural)]
pub enum QoS {
    AtMostOnce,
    AtLeastOnce,
    ExactlyOnce,
}

/// The quality of service that a number stands for.
pub open spec fn qos_of(num: int) -> Option<QoS> {
    if num == 0 {
        Some(QoS::AtMostOnce)
    } else if num == 1 {
        Some(QoS::AtLeastOnce)
    } else if num == 2 {
        Some(QoS::ExactlyOnce)
    } else {
        None
    }
}

/// The quality of service that a number stands for.
pub fn to_qos(num: i32) -> (r: Option<QoS>)
    ensures
        r == qos_of(num as int),
{
    if num == 0 {
        Some(QoS::AtMostOnce)
    } else if num == 1 {
        Some(QoS::AtLeastOnce)
    } else if num == 2 {
        Some(QoS::ExactlyOnce)
    } else {
        None
    }
}

/// The number that stands for a quality of service.
pub fn from_qos(qos: QoS) -> (r: i64)
    ensures
        qos_of(r as int) == Some(qos),
{
    match qos {
        QoS::AtMostOnce => 0,
        QoS::AtLeastOnce => 1,
        QoS::ExactlyOnce => 2,
    }
}

/// The quality of service of a subscription: the one that its number
/// stands for, at least once where it stands for none.
pub open spec fn subscription_qos_of(num: int) -> QoS {
    match qos_of(num) {
        Some(qos) => qos,
        None => QoS::AtLeastOnce,
    }
}

/// The quality of service of a subscription.
pub fn subscription_qos(subscription: &Subscription) -> (r: QoS)
    ensures
        r == subscription_qos_of(subscription.qos as int),
{
    match to_qos(subscription.qos) {
        Some(qos) => qos,
        None => QoS::AtLeastOnce,
    }
}

/// Whether a topic is for use inside the process only.
pub open spec fn is_internal_topic(topic: Seq<char>) -> bool {
    "SYSMR/"@.is_prefix_of(topic)
}

/// Whether a topic is for use inside the process only.
pub fn internal_topic(topic: &str) -> (r: bool)
    ensures
        r == is_internal_topic(topic@),
{
    has_prefix(topic, "SYSMR/")
}

/// What is handed to the broker for a message.
#[derive(Debug)]
pub struct Publication {
    pub topic: String,
    pub qos: QoS,
    pub retain: bool,
    pub payload: Vec<u8>,
}

/// What a publication holds.
pub struct PublicationValue {
    pub topic: Seq<char>,
    pub qos: QoS,
    pub retain: bool,
    pub payload: Seq<u8>,
}

impl View for Publication {
    type V = PublicationValue;

    open spec fn view(&self) -> PublicationValue {
        PublicationValue {
            topic: self.topic@,
            qos: self.qos,
            retain: self.retain,
            payload: self.payload@,
        }
    }
}

/// The quality of service that the properties of a message ask for: the
/// one under `qos` where that is 0, 1 or 2, at least once otherwise.
pub open spec fn message_qos(properties: JsonValue) -> QoS {
    match int_of(member_value(properties, "qos"@)) {
        Some(num) => match qos_of(num) {
            Some(qos) => qos,
            None => QoS::AtLeastOnce,
        },
        None => QoS::AtLeastOnce,
    }
}

/// Whether the properties of a message ask the broker to retain it.
pub open spec fn message_retain(properties: JsonValue) -> bool {
    match bool_of(member_value(properties, "retain"@)) {
        Some(retain) => retain,
        None => false,
    }
}

/// What is handed to the broker for a message: nothing for an internal
/// topic.
pub open spec fn publication_of(message: MessageValue) -> Option<PublicationValue> {
    if is_internal_topic(message.topic) {
        None
    } else {
        Some(
            PublicationValue {
                topic: message.topic,
                qos: message_qos(message.properties),
                retain: message_retain(message.properties),
                payload: message.payload,
            },
        )
    }
}

/// What a publication ended with, over values.
pub open spec fn publication_value(r: Option<Publication>) -> Option<PublicationValue> {
    match r {
        Some(publication) => Some(publication@),
        None => None,
    }
}

/// What is handed to the broker for a message.
pub fn publication(message: EngineMessage) -> (r: Option<Publication>)
    ensures
        publication_value(r) == publication_of(message@),
{
    if internal_topic(message.topic.as_str()) {
        return None;
    }
    let qos = match message.properties.member("qos") {
        Some(held) => match held.as_i64() {
            Some(num) => if 0 <= num && num <= 2 {
                match to_qos(num as i32) {
                    Some(qos) => qos,
                    None => QoS::AtLeastOnce,
                }
            } else {
                QoS::AtLeastOnce
            },
            None => QoS::AtLeastOnce,
        },
        None => QoS::AtLeastOnce,
    };
    let retain = match message.properties.member("retain") {
        Some(held) => match held.as_bool() {
            Some(retain) => retain,
            None => false,
        },
        None => false,
    };
    Some(Publication { topic: message.topic, qos, retain, payload: message.payload })
}

/// What is handed to the broker for a sequence of messages, in order.
pub open spec fn publications_of(messages: Seq<MessageValue>) -> Seq<PublicationValue>
    decreases messages.len(),
{
    if messages.len() == 0 {
        Seq::empty()
    } else {
        match publication_of(messages.last()) {
            Some(p) => publications_of(messages.drop_last()).push(p),
            None => publications_of(messages.drop_last()),
        }
    }
}

/// What a list of publications holds, one by one.
pub open spec fn publications_value(publications: Seq<Publication>) -> Seq<PublicationValue> {
    publications.map_values(|p: Publication| p@)
}

/// What is handed to the broker for a result of the engine.
pub fn publications(result: EngineResult) -> (r: Vec<Publication>)
    ensures
        publications_value(r@) == publications_of(result@),
{
    let ghost all = result@;
    let mut waiting = result.messages;
    let mut out: Vec<Publication> = Vec::new();
    let ghost mut done: int = 0;
    while waiting.len() > 0
        invariant
            0 <= done <= all.len(),
            messages_value(waiting@) == all.subrange(done, all.len() as int),
            publications_value(out@) == publications_of(all.take(done)),
        decreases waiting@.len(),
    {
        let ghost before = waiting@;
        let message = waiting.remove(0);
        proof {
            let rest = all.subrange(done, all.len() as int);
            assert(messages_value(before).len() == before.len());
            assert(messages_value(before)[0] == message@);
            assert forall|i: int| 0 <= i < waiting@.len() implies messages_value(waiting@)[i]
                == all.subrange(done + 1, all.len() as int)[i] by {
                assert(messages_value(before)[i + 1] == rest[i + 1]);
            }
            assert(all.take(done + 1).drop_last() =~= all.take(done));
        }
        match publication(message) {
            Some(p) => {
                out.push(p);
            },
            None => {},
        }
        proof {
            done = done + 1;
        }
    }
    assert(all.take(done) =~= all);
    out
}

/// No publication goes out under an internal topic.
pub proof fn law_internal_topics_stay_inside(messages: Seq<MessageValue>)
    ensures
        forall|i: int|
            0 <= i < publications_of(messages).len() ==> !is_internal_topic(
                (#[trigger] publications_of(messages)[i]).topic,
            ),
    decreases messages.len(),
{
    if messages.len() != 0 {
        law_internal_topics_stay_inside(messages.drop_last());
    }
}

/// The action that a publication from the broker becomes: none for an
/// internal topic.
pub open spec fn inbound_of(topic: Seq<char>, payload: Seq<u8>) -> Option<ActionValue> {
    if is_internal_topic(topic) {
        None
    } else {
        Some(ActionValue { topic, payload })
    }
}

/// What an action ended with, over values.
pub open spec fn action_value(r: Option<EngineAction>) -> Option<ActionValue> {
    match r {
        Some(action) => Some(action@),
        None => None,
    }
}

/// The action that a publication from the broker becomes.
pub fn inbound_action(topic: String, payload: Vec<u8>) -> (r: Option<EngineAction>)
    ensures
        action_value(r) == inbound_of(topic@, payload@),
{
    if internal_topic(topic.as_str()) {
        None
    } else {
        Some(EngineAction::new(topic, payload))
    }
}

/// The action that reports that the connection failed.
pub fn error_action(message: &str) -> (r: EngineAction)
    ensures
        r@ == (ActionValue { topic: "SYSMR/action/error"@, payload: text_bytes(message@) }),
{
    EngineAction::new("SYSMR/action/error".to_string(), copy_bytes(message.as_bytes()))
}

/// The action that a tick of the timer becomes, with the time as its text.
pub fn tick_action(time: &str) -> (r: EngineAction)
    ensures
        r@ == (ActionValue { topic: "SYSMR/action/tick"@, payload: text_bytes(time@) }),
{
    EngineAction::new("SYSMR/action/tick".to_string(), copy_bytes(time.as_bytes()))
}

} // verus!
