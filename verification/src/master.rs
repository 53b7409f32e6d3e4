//! The records that cross the channels of an engine, the list of calls that
//! an engine keeps, and its state.

use crate::json::codec::{json_parse, json_text, json_text_pretty, outcome_value};
use crate::json::{json_value, Json, JsonObject, JsonValue};
use crate::rules::startikea::IkeaRemote;
use crate::rules::SliceError;
use crate::text::{same_bytes, same_text};
use vstd::prelude::*;

pub mod engine;
pub mod filestate;
pub mod laws;

pub use engine::{MasterEngine, Registry};

verus! {

/// What an action holds.
pub struct ActionValue {
    pub topic: Seq<char>,
    pub payload: Seq<u8>,
}

/// What a message holds.
pub struct MessageValue {
    pub topic: Seq<char>,
    pub payload: Seq<u8>,
    pub properties: JsonValue,
}

/// What a slice function hands back.
pub struct SliceValue {
    pub state: JsonValue,
    pub messages: Seq<MessageValue>,
}

/// An event that comes in: a topic and the bytes published under it.
#[derive(Debug)]
pub struct EngineAction {
    pub topic: String,
    pub payload: Vec<u8>,
}

impl View for EngineAction {
    type V = ActionValue;

    open spec fn view(&self) -> ActionValue {
        ActionValue { topic: self.topic@, payload: self.payload@ }
    }
}

impl EngineAction {
    /// An action with this topic and these bytes.
    pub fn new(topic: String, payload: Vec<u8>) -> (r: Self)
        ensures
            r.topic == topic,
            r.payload == payload,
    {
        EngineAction { topic, payload }
    }

    /// An action whose payload is the compact text of a document.
    pub fn new_json(topic: String, payload: &Json) -> (r: Self)
        ensures
            r.topic == topic,
            r.payload@ == json_text(json_value(*payload)),
    {
        EngineAction { topic, payload: payload.to_bytes() }
    }

    /// Whether the action came in under the topic `filter`.
    pub fn matches(&self, filter: &str) -> (r: bool)
        ensures
            r == (self.topic@ == filter@),
    {
        same_text(self.topic.as_str(), filter)
    }

    /// Whether the action came in under the topic `filter` with these bytes.
    pub fn matches_action(&self, filter: &str, payload: &[u8]) -> (r: bool)
        ensures
            r == (self.topic@ == filter@ && self.payload@ == payload@),
    {
        same_text(self.topic.as_str(), filter) && same_bytes(payload, self.payload.as_slice())
    }
}

/// A message to publish: a topic, the bytes, and the properties of the
/// publication.
#[derive(Debug)]
pub struct EngineMessage {
    pub topic: String,
    pub payload: Vec<u8>,
    pub properties: Json,
}

impl View for EngineMessage {
    type V = MessageValue;

    open spec fn view(&self) -> MessageValue {
        MessageValue {
            topic: self.topic@,
            payload: self.payload@,
            properties: json_value(self.properties),
        }
    }
}

/// A message without properties.
pub open spec fn plain_message(topic: Seq<char>, payload: Seq<u8>) -> MessageValue {
    MessageValue { topic, payload, properties: JsonValue::Null }
}

/// What a list of messages holds, one by one.
pub open spec fn messages_value(messages: Seq<EngineMessage>) -> Seq<MessageValue> {
    messages.map_values(|m: EngineMessage| m@)
}

impl EngineMessage {
    /// A message with this topic and these bytes, without properties.
    pub fn new(topic: String, payload: Vec<u8>) -> (r: Self)
        ensures
            r@ == plain_message(topic@, payload@),
    {
        EngineMessage { topic, payload, properties: Json::Null }
    }

    /// A message whose payload is the compact text of a document.
    pub fn new_json(topic: String, payload: &Json) -> (r: Self)
        ensures
            r@ == plain_message(topic@, json_text(json_value(*payload))),
    {
        EngineMessage { topic, payload: payload.to_bytes(), properties: Json::Null }
    }

    /// A message whose payload is the indented text of a document.
    pub fn new_jsonpretty(topic: String, payload: &Json) -> (r: Self)
        ensures
            r@ == plain_message(topic@, json_text_pretty(json_value(*payload))),
    {
        EngineMessage { topic, payload: payload.to_bytes_pretty(), properties: Json::Null }
    }

    /// The document that the payload holds as a JSON text.
    pub fn payload_into_json(&self) -> (r: Result<Json, String>)
        ensures
            json_parse(self.payload@) == outcome_value(r),
    {
        Json::parse(self.payload.as_slice())
    }
}

/// A slice function that comes from outside the library: a pure computation
/// from the working document and an action to a patch and messages.
pub trait UserSlice: Send {
    /// What the function hands back for a working document and an action.
    spec fn outcome(&self, info: JsonValue, action: ActionValue) -> Result<SliceValue, SliceError>;

    /// Runs the function.
    fn call(&self, info: &Json, action: &EngineAction) -> (r: Result<SliceResult, SliceError>)
        ensures
            crate::rules::slice_outcome(r) == self.outcome(json_value(*info), action@),
    ;
}

/// The slice functions that an engine can call: those of the library, each
/// with what it was made with, and those that come from outside.
pub enum SliceFunction {
    StartAction,
    StartJsonAction,
    StartIkeaRemote(IkeaRemote),
    Relay,
    RelayValue(Vec<u8>),
    ForwardUserAction,
    ForwardAction,
    ConditionSleep,
    SaveList,
    SaveValue,
    User(Box<dyn UserSlice>),
}

/// Which of the slice functions one is, with the bytes it holds taken as a
/// value: this says all of a function of the library, and of one from
/// outside only that it is one.
pub enum SliceKind {
    StartAction,
    StartJsonAction,
    StartIkeaRemote(IkeaRemote),
    Relay,
    RelayValue(Seq<u8>),
    ForwardUserAction,
    ForwardAction,
    ConditionSleep,
    SaveList,
    SaveValue,
    User,
}

/// Which slice function this is.
pub open spec fn slice_kind(f: SliceFunction) -> SliceKind {
    match f {
        SliceFunction::StartAction => SliceKind::StartAction,
        SliceFunction::StartJsonAction => SliceKind::StartJsonAction,
        SliceFunction::StartIkeaRemote(command) => SliceKind::StartIkeaRemote(command),
        SliceFunction::Relay => SliceKind::Relay,
        SliceFunction::RelayValue(value) => SliceKind::RelayValue(value@),
        SliceFunction::ForwardUserAction => SliceKind::ForwardUserAction,
        SliceFunction::ForwardAction => SliceKind::ForwardAction,
        SliceFunction::ConditionSleep => SliceKind::ConditionSleep,
        SliceFunction::SaveList => SliceKind::SaveList,
        SliceFunction::SaveValue => SliceKind::SaveValue,
        SliceFunction::User(_) => SliceKind::User,
    }
}

/// A call of a slice function: its name, and the parameters that are merged
/// into the working document before it runs.
#[derive(Debug)]
pub struct ReducerFunction {
    pub name: String,
    pub parameters: JsonObject,
}

/// What a call of a slice function holds.
pub struct FunctionValue {
    pub name: Seq<char>,
    pub parameters: Map<Seq<char>, JsonValue>,
}

impl View for ReducerFunction {
    type V = FunctionValue;

    open spec fn view(&self) -> FunctionValue {
        FunctionValue { name: self.name@, parameters: self.parameters.value() }
    }
}

/// What a list of calls holds, one by one.
pub open spec fn functions_value(functions: Seq<ReducerFunction>) -> Seq<FunctionValue> {
    functions.map_values(|f: ReducerFunction| f@)
}

/// The document that stands for a call: its parameters, and its name under
/// the key `name`.
pub open spec fn function_doc(f: FunctionValue) -> JsonValue {
    JsonValue::Object(f.parameters.insert("name"@, JsonValue::Str(f.name)))
}

/// The document that stands for a list of calls.
pub open spec fn functions_doc(functions: Seq<FunctionValue>) -> JsonValue {
    JsonValue::Array(functions.map_values(|f: FunctionValue| function_doc(f)))
}

/// The call that a document stands for: the document is an object whose
/// member `name` is a string; its other members are the parameters.
pub open spec fn function_of(doc: JsonValue) -> Result<FunctionValue, Seq<char>> {
    match doc {
        JsonValue::Object(members) => if !members.contains_key("name"@) {
            Err("missing field `name`"@)
        } else {
            match members["name"@] {
                JsonValue::Str(name) => Ok(
                    FunctionValue { name, parameters: members.remove("name"@) },
                ),
                _ => Err("field `name` is not a string"@),
            }
        },
        _ => Err("a function is an object"@),
    }
}

/// The calls that a sequence of documents stands for, or what is wrong
/// with the first of them that stands for none.
pub open spec fn functions_of_items(items: Seq<JsonValue>) -> Result<
    Seq<FunctionValue>,
    Seq<char>,
>
    decreases items.len(),
{
    if items.len() == 0 {
        Ok(Seq::empty())
    } else {
        match functions_of_items(items.drop_last()) {
            Err(message) => Err(message),
            Ok(functions) => match function_of(items.last()) {
                Ok(f) => Ok(functions.push(f)),
                Err(message) => Err(message),
            },
        }
    }
}

/// The list of calls that a document stands for: the document is an array
/// of calls.
pub open spec fn functions_of(doc: JsonValue) -> Result<Seq<FunctionValue>, Seq<char>> {
    match doc {
        JsonValue::Array(items) => functions_of_items(items),
        _ => Err("a list of functions is an array"@),
    }
}

/// What reading a call ended with, over values.
pub open spec fn function_outcome(r: Result<ReducerFunction, String>) -> Result<
    FunctionValue,
    Seq<char>,
> {
    match r {
        Ok(f) => Ok(f@),
        Err(message) => Err(message@),
    }
}

/// What reading a list of calls ended with, over values.
pub open spec fn functions_outcome(r: Result<Vec<ReducerFunction>, String>) -> Result<
    Seq<FunctionValue>,
    Seq<char>,
> {
    match r {
        Ok(functions) => Ok(functions_value(functions@)),
        Err(message) => Err(message@),
    }
}

impl ReducerFunction {
    /// A call of the function `name` with these parameters.
    pub fn new(name: String, parameters: JsonObject) -> (r: Self)
        ensures
            r.name == name,
            r.parameters == parameters,
    {
        ReducerFunction { name, parameters }
    }

    /// A copy of the call.
    pub fn duplicate(&self) -> (r: Self)
        ensures
            r@ == self@,
    {
        ReducerFunction { name: self.name.clone(), parameters: self.parameters.duplicate() }
    }

    /// The document that stands for the call.
    pub fn to_json(&self) -> (r: Json)
        ensures
            json_value(r) == function_doc(self@),
    {
        Json::Object(self.parameters.duplicate().insert("name".to_string(), Json::Str(self.name.clone())))
    }

    /// The call that a document stands for.
    pub fn from_json(doc: &Json) -> (r: Result<Self, String>)
        ensures
            function_outcome(r) == function_of(json_value(*doc)),
    {
        match doc {
            Json::Object(object) => match object.get("name") {
                None => Err("missing field `name`".to_string()),
                Some(Json::Str(name)) => Ok(
                    ReducerFunction {
                        name: name.clone(),
                        parameters: object.duplicate().remove("name"),
                    },
                ),
                Some(other) => {
                    Err("field `name` is not a string".to_string())
                },
            },
            Json::Number(n) => {
                Err("a function is an object".to_string())
            },
            _ => Err("a function is an object".to_string()),
        }
    }
}

/// The document that stands for a list of calls.
pub fn functions_to_json(functions: &Vec<ReducerFunction>) -> (r: Json)
    ensures
        json_value(r) == functions_doc(functions_value(functions@)),
{
    let mut items: Vec<Json> = Vec::new();
    let mut i: usize = 0;
    while i < functions.len()
        invariant
            i <= functions.len(),
            items@.len() == i,
            forall|q: int|
                0 <= q < i ==> json_value(#[trigger] items@[q]) == function_doc(functions@[q]@),
        decreases functions.len() - i,
    {
        items.push(functions[i].to_json());
        i += 1;
    }
    proof {
        crate::json::lemma_items_value(items@);
        assert(crate::json::items_value(items@) =~= functions_value(functions@).map_values(
            |f: FunctionValue| function_doc(f),
        ));
    }
    Json::Array(items)
}

/// The list of calls that a document stands for.
pub fn functions_from_json(doc: &Json) -> (r: Result<Vec<ReducerFunction>, String>)
    ensures
        functions_outcome(r) == functions_of(json_value(*doc)),
{
    match doc {
        Json::Array(items) => {
            let mut functions: Vec<ReducerFunction> = Vec::new();
            let mut i: usize = 0;
            proof {
                crate::json::lemma_items_value(items@);
            }
            let ghost values = crate::json::items_value(items@);
            assert(functions_value(functions@) =~= Seq::<FunctionValue>::empty());
            while i < items.len()
                invariant
                    i <= items.len(),
                    json_value(*doc) == JsonValue::Array(values),
                    values.len() == items@.len(),
                    forall|q: int|
                        0 <= q < items@.len() ==> #[trigger] values[q] == json_value(items@[q]),
                    functions_of_items(values.take(i as int)) == Ok::<
                        Seq<FunctionValue>,
                        Seq<char>,
                    >(functions_value(functions@)),
                decreases items.len() - i,
            {
                let ghost before = functions_value(functions@);
                assert(values.take(i + 1).drop_last() =~= values.take(i as int));
                match ReducerFunction::from_json(&items[i]) {
                    Ok(f) => {
                        let ghost fv = f@;
                        functions.push(f);
                        assert(functions_value(functions@) =~= before.push(fv));
                    },
                    Err(message) => {
                        proof {
                            lemma_functions_of_items_fails(values, i as int);
                        }
                        return Err(message);
                    },
                }
                i += 1;
            }
            assert(values.take(i as int) =~= values);
            Ok(functions)
        },
        Json::Number(n) => {
            Err("a list of functions is an array".to_string())
        },
        _ => Err("a list of functions is an array".to_string()),
    }
}

/// Once a document of the sequence stands for no call, the sequence stands
/// for no list, whatever follows.
proof fn lemma_functions_of_items_fails(items: Seq<JsonValue>, at: int)
    requires
        0 <= at < items.len(),
        functions_of_items(items.take(at)) is Ok,
        function_of(items[at]) is Err,
    ensures
        functions_of_items(items) == Err::<Seq<FunctionValue>, Seq<char>>(
            function_of(items[at])->Err_0,
        ),
    decreases items.len(),
{
    if at != items.len() - 1 {
        assert(items.drop_last().take(at) =~= items.take(at));
        lemma_functions_of_items_fails(items.drop_last(), at);
    }
}

/// How a run ended.
#[derive(Debug, Clone, Copy, PartialEq, Eq, Structural)]
pub enum FinalStatus {
    NORMAL,
    ERROR,
}

/// Where a run stands.
#[derive(Debug)]
pub enum EngineStatus {
    INIT,
    RUNNING,
    FINAL(FinalStatus, String),
}

/// Where a run stands, with the final message as a value.
pub enum StatusValue {
    Init,
    Running,
    Final(FinalStatus, Seq<char>),
}

impl View for EngineStatus {
    type V = StatusValue;

    open spec fn view(&self) -> StatusValue {
        match self {
            EngineStatus::INIT => StatusValue::Init,
            EngineStatus::RUNNING => StatusValue::Running,
            EngineStatus::FINAL(status, message) => StatusValue::Final(*status, message@),
        }
    }
}

/// What the engine keeps from one action to the next: the working document,
/// the list of calls, and where the run stands.
#[derive(Debug)]
pub struct EngineState {
    pub info: Json,
    pub functions: Vec<ReducerFunction>,
    pub engine_status: EngineStatus,
}

/// What the state of the engine holds.
pub struct StateValue {
    pub info: JsonValue,
    pub functions: Seq<FunctionValue>,
    pub status: StatusValue,
}

impl View for EngineState {
    type V = StateValue;

    open spec fn view(&self) -> StateValue {
        StateValue {
            info: json_value(self.info),
            functions: functions_value(self.functions@),
            status: self.engine_status@,
        }
    }
}

impl Default for EngineState {
    fn default() -> (r: Self)
        ensures
            r@ == (StateValue {
                info: empty_object(),
                functions: Seq::empty(),
                status: StatusValue::Init,
            }),
    {
        let r = EngineState {
            info: Json::Object(JsonObject::new()),
            functions: Vec::new(),
            engine_status: EngineStatus::INIT,
        };
        assert(r@.functions =~= Seq::empty());
        r
    }
}

impl EngineState {
    /// The state at the start of a run, with this working document and this list.
    pub fn new(info: Json, functions: Vec<ReducerFunction>) -> (r: Self)
        ensures
            r@ == (StateValue {
                info: json_value(info),
                functions: functions_value(functions@),
                status: StatusValue::Init,
            }),
    {
        EngineState { info, functions, engine_status: EngineStatus::INIT }
    }

    /// The state at the start of a run, with this list and an empty working
    /// document.
    pub fn new_functions(functions: Vec<ReducerFunction>) -> (r: Self)
        ensures
            r@ == (StateValue {
                info: empty_object(),
                functions: functions_value(functions@),
                status: StatusValue::Init,
            }),
    {
        EngineState {
            info: Json::Object(JsonObject::new()),
            functions,
            engine_status: EngineStatus::INIT,
        }
    }
}

impl PartialEq for EngineMessage {
    /// Two messages are equal where they hold the same.
    fn eq(&self, other: &EngineMessage) -> (r: bool) {
        same_text(self.topic.as_str(), other.topic.as_str()) && same_bytes(
            self.payload.as_slice(),
            other.payload.as_slice(),
        ) && self.properties.same(&other.properties)
    }
}

impl vstd::std_specs::cmp::PartialEqSpecImpl for EngineMessage {
    open spec fn obeys_eq_spec() -> bool {
        true
    }

    open spec fn eq_spec(&self, other: &EngineMessage) -> bool {
        self@ == other@
    }
}

/// What one step of the engine hands out.
#[derive(Debug)]
pub struct EngineResult {
    pub messages: Vec<EngineMessage>,
}

impl PartialEq for EngineResult {
    /// Two results are equal where they hold the same messages in the same
    /// order.
    fn eq(&self, other: &EngineResult) -> (r: bool) {
        if self.messages.len() != other.messages.len() {
            assert(self@.len() != other@.len());
            return false;
        }
        let mut i: usize = 0;
        while i < self.messages.len()
            invariant
                i <= self.messages.len(),
                self.messages.len() == other.messages.len(),
                forall|q: int| 0 <= q < i ==> self.messages@[q]@ == other.messages@[q]@,
            decreases self.messages.len() - i,
        {
            if !self.messages[i].eq(&other.messages[i]) {
                assert(self@[i as int] != other@[i as int]);
                return false;
            }
            i += 1;
        }
        assert(self@ =~= other@);
        true
    }
}

impl vstd::std_specs::cmp::PartialEqSpecImpl for EngineResult {
    open spec fn obeys_eq_spec() -> bool {
        true
    }

    open spec fn eq_spec(&self, other: &EngineResult) -> bool {
        self@ == other@
    }
}

impl View for EngineResult {
    type V = Seq<MessageValue>;

    open spec fn view(&self) -> Seq<MessageValue> {
        messages_value(self.messages@)
    }
}

/// What a slice function hands back: a merge patch for the working document
/// and the messages to publish.
#[derive(Debug)]
pub struct SliceResult {
    pub state: Json,
    pub messages: Vec<EngineMessage>,
}

impl View for SliceResult {
    type V = SliceValue;

    open spec fn view(&self) -> SliceValue {
        SliceValue { state: json_value(self.state), messages: messages_value(self.messages@) }
    }
}

/// The object without members.
pub open spec fn empty_object() -> JsonValue {
    JsonValue::Object(Map::empty())
}

impl SliceResult {
    /// Nothing to change and nothing to publish.
    pub fn empty() -> (r: Self)
        ensures
            r@ == (SliceValue { state: empty_object(), messages: Seq::empty() }),
    {
        let r = SliceResult { state: Json::Object(JsonObject::new()), messages: Vec::new() };
        assert(r@.messages =~= Seq::empty());
        r
    }

    /// Messages to publish, and nothing to change.
    pub fn messages(messages: Vec<EngineMessage>) -> (r: Self)
        ensures
            r@ == (SliceValue { state: empty_object(), messages: messages_value(messages@) }),
    {
        SliceResult { state: Json::Object(JsonObject::new()), messages }
    }

    /// A patch for the working document, and nothing to publish.
    pub fn state(state: Json) -> (r: Self)
        ensures
            r@ == (SliceValue { state: json_value(state), messages: Seq::empty() }),
    {
        let r = SliceResult { state, messages: Vec::new() };
        assert(r@.messages =~= Seq::empty());
        r
    }

    /// A patch for the working document and messages to publish.
    pub fn new(state: Json, messages: Vec<EngineMessage>) -> (r: Self)
        ensures
            r@ == (SliceValue { state: json_value(state), messages: messages_value(messages@) }),
    {
        SliceResult { state, messages }
    }
}

} // verus!
