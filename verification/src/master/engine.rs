//! The master engine: the commands that change its list of calls, and the
//! pipeline that runs the list on every other action.

use crate::json::codec::{json_parse, json_text};
use crate::json::{
    json_value, merge_value, pruned_value, with_member_value, Json, JsonNumber, JsonObject,
    JsonValue,
};
use crate::master::{
    function_of, functions_doc, functions_from_json, functions_of, functions_to_json,
    functions_value, messages_value, plain_message, slice_kind, ActionValue, EngineAction,
    EngineMessage, EngineResult, EngineState, EngineStatus, FinalStatus, FunctionValue,
    MessageValue, ReducerFunction, SliceFunction, SliceKind, StateValue, StatusValue,
};
use crate::rules::{error_text, slice_value, SliceError};
use crate::runtime::Engine;
use crate::text::{join3, payload_text, text_bytes, text_or_error};
use vstd::hash_map::StringHashMap;
use vstd::prelude::*;

verus! {

/// The slice functions that an engine can call, each under its name.
pub struct Registry {
    functions: StringHashMap<SliceFunction>,
}

impl View for Registry {
    type V = Map<Seq<char>, SliceFunction>;

    closed spec fn view(&self) -> Map<Seq<char>, SliceFunction> {
        self.functions@
    }
}

/// Which kind of function stands under each name.
pub open spec fn registry_kinds(registry: Map<Seq<char>, SliceFunction>) -> Map<
    Seq<char>,
    SliceKind,
> {
    registry.map_values(|f: SliceFunction| slice_kind(f))
}

impl Registry {
    /// A registry without functions.
    pub fn new() -> (r: Self)
        ensures
            r@ == Map::<Seq<char>, SliceFunction>::empty(),
    {
        Registry { functions: StringHashMap::new() }
    }

    /// Puts a function under its name, in place of what stood there.
    pub fn register(&mut self, entry: (String, SliceFunction))
        ensures
            final(self)@ == old(self)@.insert(entry.0@, entry.1),
    {
        self.functions.insert(entry.0, entry.1);
    }

    /// The function under `name`, if there is one.
    pub fn find(&self, name: &str) -> (r: Option<&SliceFunction>)
        ensures
            r is Some <==> self@.contains_key(name@),
            r is Some ==> *r->0 == self@[name@],
    {
        self.functions.get(name)
    }
}

/// The topic of a command to an engine.
pub open spec fn command_topic(prefix: Seq<char>, command: Seq<char>) -> Seq<char> {
    prefix + "/command/"@ + command
}

/// The topic of a notice from an engine.
pub open spec fn notify_topic(prefix: Seq<char>, name: Seq<char>) -> Seq<char> {
    prefix + "/notify/"@ + name
}

/// What an action asks of the engine.
#[derive(Debug, Clone, Copy, PartialEq, Eq, Structural)]
pub enum ActionKind {
    FunctionsPush,
    FunctionsPop,
    FunctionsClear,
    FunctionsPutAll,
    FunctionsGetAll,
    Exit,
    Error,
    Pipeline,
}

/// What an action under `topic` asks of the engine with this prefix.
pub open spec fn classify(prefix: Seq<char>, topic: Seq<char>) -> ActionKind {
    if topic == command_topic(prefix, "functions_push"@) {
        ActionKind::FunctionsPush
    } else if topic == command_topic(prefix, "functions_pop"@) {
        ActionKind::FunctionsPop
    } else if topic == command_topic(prefix, "functions_clear"@) {
        ActionKind::FunctionsClear
    } else if topic == command_topic(prefix, "functions_putall"@) {
        ActionKind::FunctionsPutAll
    } else if topic == command_topic(prefix, "functions_getall"@) {
        ActionKind::FunctionsGetAll
    } else if topic == command_topic(prefix, "exit"@) {
        ActionKind::Exit
    } else if topic == "SYSMR/action/error"@ {
        ActionKind::Error
    } else {
        ActionKind::Pipeline
    }
}

/// The document that reports success.
pub open spec fn success_doc() -> JsonValue {
    JsonValue::Object(Map::empty().insert("success"@, JsonValue::Bool(true)))
}

/// The document that reports success for a function.
pub open spec fn function_notice_doc(name: Seq<char>) -> JsonValue {
    JsonValue::Object(
        Map::empty().insert("success"@, JsonValue::Bool(true)).insert(
            "function"@,
            JsonValue::Str(name),
        ),
    )
}

/// The document that reports what was wrong with a command.
pub open spec fn command_error_doc(command: Seq<char>, message: Seq<char>) -> JsonValue {
    JsonValue::Object(
        Map::empty().insert("command"@, JsonValue::Str(command)).insert(
            "error"@,
            JsonValue::Str(message),
        ),
    )
}

/// The notice that carries a document.
pub open spec fn notice(prefix: Seq<char>, name: Seq<char>, doc: JsonValue) -> MessageValue {
    plain_message(notify_topic(prefix, name), json_text(doc))
}

/// The notice that a call names a function that the registry lacks.
pub open spec fn not_found_notice(prefix: Seq<char>, name: Seq<char>) -> MessageValue {
    plain_message(
        notify_topic(prefix, "system_error"@),
        text_bytes("Function not found: "@ + name),
    )
}

/// The notice that a function could not run.
pub open spec fn failed_notice(prefix: Seq<char>, name: Seq<char>, e: SliceError) -> MessageValue {
    plain_message(
        notify_topic(prefix, "system_error"@),
        text_bytes("Function failed: "@ + name + ": "@ + error_text(e)),
    )
}

/// What a step ends with: the next state and the messages to publish.
pub struct StepValue {
    pub state: StateValue,
    pub messages: Seq<MessageValue>,
}

/// The state of a running engine.
pub open spec fn running(info: JsonValue, functions: Seq<FunctionValue>) -> StateValue {
    StateValue { info, functions, status: StatusValue::Running }
}

/// The call that a payload holds, or what is wrong with it.
pub open spec fn payload_function(payload: Seq<u8>) -> Result<FunctionValue, Seq<char>> {
    match json_parse(payload) {
        Ok(doc) => function_of(doc),
        Err(message) => Err(message),
    }
}

/// The list of calls that a payload holds, or what is wrong with it.
pub open spec fn payload_functions(payload: Seq<u8>) -> Result<Seq<FunctionValue>, Seq<char>> {
    match json_parse(payload) {
        Ok(doc) => functions_of(doc),
        Err(message) => Err(message),
    }
}

/// A call is added at the end of the list.
pub open spec fn push_value(prefix: Seq<char>, state: StateValue, payload: Seq<u8>) -> StepValue {
    match payload_function(payload) {
        Ok(f) => StepValue {
            state: running(state.info, state.functions.push(f)),
            messages: seq![notice(prefix, "functions_push"@, function_notice_doc(f.name))],
        },
        Err(message) => StepValue {
            state: running(state.info, state.functions),
            messages: seq![
                notice(prefix, "system_error"@, command_error_doc("functions_push"@, message)),
            ],
        },
    }
}

/// The name that a pop reports: that of the last call, if there is one.
pub open spec fn popped_name(functions: Seq<FunctionValue>) -> Seq<char> {
    if functions.len() == 0 {
        "<None>"@
    } else {
        functions.last().name
    }
}

/// The list after a pop: without its last call, if there is one.
pub open spec fn popped(functions: Seq<FunctionValue>) -> Seq<FunctionValue> {
    if functions.len() == 0 {
        functions
    } else {
        functions.drop_last()
    }
}

/// The last call leaves the list.
pub open spec fn pop_value(prefix: Seq<char>, state: StateValue) -> StepValue {
    StepValue {
        state: running(state.info, popped(state.functions)),
        messages: seq![
            notice(prefix, "functions_pop"@, function_notice_doc(popped_name(state.functions))),
        ],
    }
}

/// All calls leave the list.
pub open spec fn clear_value(prefix: Seq<char>, state: StateValue) -> StepValue {
    StepValue {
        state: running(state.info, Seq::empty()),
        messages: seq![notice(prefix, "functions_clear"@, success_doc())],
    }
}

/// The list is replaced.
pub open spec fn putall_value(prefix: Seq<char>, state: StateValue, payload: Seq<u8>) -> StepValue {
    match payload_functions(payload) {
        Ok(functions) => StepValue {
            state: running(state.info, functions),
            messages: seq![notice(prefix, "functions_putall"@, success_doc())],
        },
        Err(message) => StepValue {
            state: running(state.info, state.functions),
            messages: seq![
                notice(prefix, "system_error"@, command_error_doc("functions_putall"@, message)),
            ],
        },
    }
}

/// The list is reported.
pub open spec fn getall_value(prefix: Seq<char>, state: StateValue) -> StepValue {
    StepValue {
        state: running(state.info, state.functions),
        messages: seq![notice(prefix, "functions_getall"@, functions_doc(state.functions))],
    }
}

/// The run ends, with the payload as its last word.
pub open spec fn final_value(state: StateValue, status: FinalStatus, payload: Seq<u8>) -> StepValue {
    StepValue {
        state: StateValue {
            info: state.info,
            functions: state.functions,
            status: StatusValue::Final(status, payload_text(payload)),
        },
        messages: Seq::empty(),
    }
}

/// The working document and the messages while the calls of the list run.
pub struct PipelineValue {
    pub info: JsonValue,
    pub messages: Seq<MessageValue>,
}

/// One call of the list runs: its position and its parameters go into the
/// working document, its function is looked up and run, and what the
/// function hands back is merged and collected.
pub open spec fn run_function(
    prefix: Seq<char>,
    registry: Map<Seq<char>, SliceFunction>,
    f: FunctionValue,
    index: int,
    before: PipelineValue,
    action: ActionValue,
) -> PipelineValue {
    let indexed = with_member_value(before.info, "_index"@, JsonValue::Int(index));
    let info = merge_value(indexed, JsonValue::Object(f.parameters));
    if !registry.contains_key(f.name) {
        PipelineValue { info, messages: before.messages.push(not_found_notice(prefix, f.name)) }
    } else {
        match slice_value(registry[f.name], info, action) {
            Ok(result) => PipelineValue {
                info: merge_value(info, result.state),
                messages: before.messages + result.messages,
            },
            Err(e) => PipelineValue {
                info,
                messages: before.messages.push(failed_notice(prefix, f.name, e)),
            },
        }
    }
}

/// The first `count` calls of the list run, in order.
pub open spec fn run_functions(
    prefix: Seq<char>,
    registry: Map<Seq<char>, SliceFunction>,
    functions: Seq<FunctionValue>,
    count: nat,
    start: PipelineValue,
    action: ActionValue,
) -> PipelineValue
    decreases count,
{
    if count == 0 {
        start
    } else {
        run_function(
            prefix,
            registry,
            functions[count - 1],
            count - 1,
            run_functions(prefix, registry, functions, (count - 1) as nat, start, action),
            action,
        )
    }
}

/// The whole list runs on an action: the time goes into the working
/// document, the calls run in order, and the scratch members are dropped.
pub open spec fn pipeline(
    prefix: Seq<char>,
    registry: Map<Seq<char>, SliceFunction>,
    info: JsonValue,
    functions: Seq<FunctionValue>,
    action: ActionValue,
    timestamp: int,
) -> PipelineValue {
    let start = PipelineValue {
        info: with_member_value(info, "_timestamp"@, JsonValue::Int(timestamp)),
        messages: Seq::empty(),
    };
    let done = run_functions(prefix, registry, functions, functions.len(), start, action);
    PipelineValue { info: pruned_value(done.info), messages: done.messages }
}

/// The list runs on an action.
pub open spec fn pipeline_value(
    prefix: Seq<char>,
    registry: Map<Seq<char>, SliceFunction>,
    state: StateValue,
    action: ActionValue,
    timestamp: int,
) -> StepValue {
    let done = pipeline(prefix, registry, state.info, state.functions, action, timestamp);
    StepValue { state: running(done.info, state.functions), messages: done.messages }
}

/// One step of the engine at a time: a state that is final stays as it is;
/// otherwise the action is classified by its topic and exactly one branch
/// runs.
pub open spec fn reduce_value(
    prefix: Seq<char>,
    registry: Map<Seq<char>, SliceFunction>,
    state: StateValue,
    action: ActionValue,
    timestamp: int,
) -> StepValue {
    if state.status is Final {
        StepValue { state, messages: Seq::empty() }
    } else {
        match classify(prefix, action.topic) {
            ActionKind::FunctionsPush => push_value(prefix, state, action.payload),
            ActionKind::FunctionsPop => pop_value(prefix, state),
            ActionKind::FunctionsClear => clear_value(prefix, state),
            ActionKind::FunctionsPutAll => putall_value(prefix, state, action.payload),
            ActionKind::FunctionsGetAll => getall_value(prefix, state),
            ActionKind::Exit => final_value(state, FinalStatus::NORMAL, action.payload),
            ActionKind::Error => final_value(state, FinalStatus::ERROR, action.payload),
            ActionKind::Pipeline => pipeline_value(prefix, registry, state, action, timestamp),
        }
    }
}

/// What a step handed out, over values.
pub open spec fn step_of(r: (EngineState, EngineResult)) -> StepValue {
    StepValue { state: r.0@, messages: r.1@ }
}

/// Reads the clock with `chrono::Utc::now` and gives the time in milliseconds
/// since the start of 1970, by `timestamp_millis`. Nothing is claimed of the
/// result: it differs from call to call. Where the clock of the machine
/// stands before 1970, chrono stops the program.
#[verifier::external_body]
pub(crate) fn now_millis() -> i64 {
    chrono::Utc::now().timestamp_millis()
}

/// The list that holds one message.
pub fn single(message: EngineMessage) -> (r: Vec<EngineMessage>)
    ensures
        messages_value(r@) == seq![message@],
{
    let mut messages: Vec<EngineMessage> = Vec::new();
    messages.push(message);
    messages
}

/// The document that reports success.
pub fn success_json() -> (r: Json)
    ensures
        json_value(r) == success_doc(),
{
    Json::Object(JsonObject::new().insert("success".to_string(), Json::Bool(true)))
}

/// The document that reports success for a function.
pub fn function_notice_json(name: String) -> (r: Json)
    ensures
        json_value(r) == function_notice_doc(name@),
{
    Json::Object(
        JsonObject::new().insert("success".to_string(), Json::Bool(true)).insert(
            "function".to_string(),
            Json::Str(name),
        ),
    )
}

/// The document that reports what was wrong with a command.
pub fn command_error_json(command: &str, message: String) -> (r: Json)
    ensures
        json_value(r) == command_error_doc(command@, message@),
{
    Json::Object(
        JsonObject::new().insert("command".to_string(), Json::Str(command.to_string())).insert(
            "error".to_string(),
            Json::Str(message),
        ),
    )
}

/// The call that a payload holds.
pub fn read_function(payload: &[u8]) -> (r: Result<ReducerFunction, String>)
    ensures
        crate::master::function_outcome(r) == payload_function(payload@),
{
    match Json::parse(payload) {
        Ok(doc) => ReducerFunction::from_json(&doc),
        Err(message) => Err(message),
    }
}

/// The list of calls that a payload holds.
pub fn read_functions(payload: &[u8]) -> (r: Result<Vec<ReducerFunction>, String>)
    ensures
        crate::master::functions_outcome(r) == payload_functions(payload@),
{
    match Json::parse(payload) {
        Ok(doc) => functions_from_json(&doc),
        Err(message) => Err(message),
    }
}

/// The engine that keeps a list of calls of slice functions, changes it on
/// command, and runs it on every other action.
pub struct MasterEngine {
    prefix_id: String,
    engine_functions: Registry,
}

impl MasterEngine {
    /// The prefix of the topics of this engine's commands and notices.
    pub closed spec fn prefix(&self) -> Seq<char> {
        self.prefix_id@
    }

    /// The slice functions that this engine can call.
    pub closed spec fn functions(&self) -> Map<Seq<char>, SliceFunction> {
        self.engine_functions@
    }

    /// An engine with this prefix for its topics and these functions to call.
    pub fn new(prefix_id: String, engine_functions: Registry) -> (r: Self)
        ensures
            r.prefix() == prefix_id@,
            r.functions() == engine_functions@,
    {
        MasterEngine { prefix_id, engine_functions }
    }

    /// What an action asks of this engine.
    pub fn classify(&self, action: &EngineAction) -> (r: ActionKind)
        ensures
            r == classify(self.prefix(), action.topic@),
    {
        let prefix = self.prefix_id.as_str();
        if action.matches(join3(prefix, "/command/", "functions_push").as_str()) {
            ActionKind::FunctionsPush
        } else if action.matches(join3(prefix, "/command/", "functions_pop").as_str()) {
            ActionKind::FunctionsPop
        } else if action.matches(join3(prefix, "/command/", "functions_clear").as_str()) {
            ActionKind::FunctionsClear
        } else if action.matches(join3(prefix, "/command/", "functions_putall").as_str()) {
            ActionKind::FunctionsPutAll
        } else if action.matches(join3(prefix, "/command/", "functions_getall").as_str()) {
            ActionKind::FunctionsGetAll
        } else if action.matches(join3(prefix, "/command/", "exit").as_str()) {
            ActionKind::Exit
        } else if action.matches("SYSMR/action/error") {
            ActionKind::Error
        } else {
            ActionKind::Pipeline
        }
    }

    /// The notice that carries a document.
    pub fn notice(&self, name: &str, doc: &Json) -> (r: EngineMessage)
        ensures
            r@ == notice(self.prefix(), name@, json_value(*doc)),
    {
        EngineMessage::new_json(join3(self.prefix_id.as_str(), "/notify/", name), doc)
    }

    /// The notice that a call names a function that the registry lacks.
    pub fn not_found(&self, name: &str) -> (r: EngineMessage)
        ensures
            r@ == not_found_notice(self.prefix(), name@),
    {
        let mut text = "Function not found: ".to_string();
        text.append(name);
        EngineMessage::new(
            join3(self.prefix_id.as_str(), "/notify/", "system_error"),
            crate::text::copy_bytes(text.as_str().as_bytes()),
        )
    }

    /// The notice that a function could not run.
    pub fn failed(&self, name: &str, e: SliceError) -> (r: EngineMessage)
        ensures
            r@ == failed_notice(self.prefix(), name@, e),
    {
        let mut text = "Function failed: ".to_string();
        text.append(name);
        text.append(": ");
        text.append(e.describe());
        EngineMessage::new(
            join3(self.prefix_id.as_str(), "/notify/", "system_error"),
            crate::text::copy_bytes(text.as_str().as_bytes()),
        )
    }

    /// Runs the list of calls on an action, at a time.
    pub fn run_pipeline(
        &self,
        info: Json,
        functions: &Vec<ReducerFunction>,
        action: &EngineAction,
        timestamp: i64,
    ) -> (r: (Json, Vec<EngineMessage>))
        ensures
            (PipelineValue { info: json_value(r.0), messages: messages_value(r.1@) }) == pipeline(
                self.prefix(),
                self.functions(),
                json_value(info),
                functions_value(functions@),
                action@,
                timestamp as int,
            ),
    {
        let ghost start = PipelineValue {
            info: with_member_value(
                json_value(info),
                "_timestamp"@,
                JsonValue::Int(timestamp as int),
            ),
            messages: Seq::empty(),
        };
        let ghost calls = functions_value(functions@);
        let mut info = info.with_member(
            "_timestamp".to_string(),
            Json::Number(JsonNumber::Int(timestamp)),
        );
        let mut messages: Vec<EngineMessage> = Vec::new();
        assert(messages_value(messages@) =~= Seq::empty());
        let mut i: usize = 0;
        while i < functions.len()
            invariant
                i <= functions.len(),
                calls == functions_value(functions@),
                (PipelineValue { info: json_value(info), messages: messages_value(messages@) })
                    == run_functions(
                    self.prefix(),
                    self.functions(),
                    calls,
                    i as nat,
                    start,
                    action@,
                ),
            decreases functions.len() - i,
        {
            let fun = &functions[i];
            let ghost sent = messages@;
            info = info.with_member("_index".to_string(), Json::Number(JsonNumber::UInt(i as u64)));
            info = info.merge_members(&fun.parameters);
            match self.engine_functions.find(fun.name.as_str()) {
                Some(f) => match f.apply(&info, action) {
                    Ok(result) => {
                        let mut result = result;
                        let ghost more = result.messages@;
                        info = info.merge(&result.state);
                        messages.append(&mut result.messages);
                        assert(messages_value(messages@) =~= messages_value(sent) + messages_value(
                            more,
                        ));
                    },
                    Err(e) => {
                        let note = self.failed(fun.name.as_str(), e);
                        let ghost nv = note@;
                        messages.push(note);
                        assert(messages_value(messages@) =~= messages_value(sent).push(nv));
                    },
                },
                None => {
                    let note = self.not_found(fun.name.as_str());
                    let ghost nv = note@;
                    messages.push(note);
                    assert(messages_value(messages@) =~= messages_value(sent).push(nv));
                },
            }
            i += 1;
        }
        (info.pruned(), messages)
    }

    /// One step of the engine at a given time.
    pub fn reduce_at(&self, state: EngineState, action: EngineAction, timestamp: i64) -> (r: (
        EngineState,
        EngineResult,
    ))
        ensures
            step_of(r) == reduce_value(
                self.prefix(),
                self.functions(),
                state@,
                action@,
                timestamp as int,
            ),
    {
        let ghost calls = functions_value(state.functions@);
        let EngineState { info, functions, engine_status } = state;
        if let EngineStatus::FINAL(status, message) = engine_status {
            let r = (
                EngineState { info, functions, engine_status: EngineStatus::FINAL(status, message) },
                EngineResult { messages: Vec::new() },
            );
            assert(r.1@ =~= Seq::empty());
            return r;
        }
        let mut info = info;
        let mut functions = functions;
        let mut engine_status = EngineStatus::RUNNING;
        let mut messages: Vec<EngineMessage> = Vec::new();
        assert(messages_value(messages@) =~= Seq::empty());
        match self.classify(&action) {
            ActionKind::FunctionsPush => match read_function(action.payload.as_slice()) {
                Ok(f) => {
                    let ghost fv = f@;
                    messages = single(
                        self.notice("functions_push", &function_notice_json(f.name.clone())),
                    );
                    functions.push(f);
                    assert(functions_value(functions@) =~= calls.push(fv));
                },
                Err(message) => {
                    messages = single(
                        self.notice(
                            "system_error",
                            &command_error_json("functions_push", message),
                        ),
                    );
                },
            },
            ActionKind::FunctionsPop => {
                let name = match functions.pop() {
                    Some(f) => f.name,
                    None => "<None>".to_string(),
                };
                assert(functions_value(functions@) =~= popped(calls));
                messages = single(self.notice("functions_pop", &function_notice_json(name)));
            },
            ActionKind::FunctionsClear => {
                functions = Vec::new();
                assert(functions_value(functions@) =~= Seq::empty());
                messages = single(self.notice("functions_clear", &success_json()));
            },
            ActionKind::FunctionsPutAll => match read_functions(action.payload.as_slice()) {
                Ok(list) => {
                    functions = list;
                    messages = single(self.notice("functions_putall", &success_json()));
                },
                Err(message) => {
                    messages = single(
                        self.notice(
                            "system_error",
                            &command_error_json("functions_putall", message),
                        ),
                    );
                },
            },
            ActionKind::FunctionsGetAll => {
                messages = single(self.notice("functions_getall", &functions_to_json(&functions)));
            },
            ActionKind::Exit => {
                engine_status = EngineStatus::FINAL(
                    FinalStatus::NORMAL,
                    text_or_error(action.payload),
                );
            },
            ActionKind::Error => {
                engine_status = EngineStatus::FINAL(
                    FinalStatus::ERROR,
                    text_or_error(action.payload),
                );
            },
            ActionKind::Pipeline => {
                let (next, sent) = self.run_pipeline(info, &functions, &action, timestamp);
                info = next;
                messages = sent;
            },
        }
        (EngineState { info, functions, engine_status }, EngineResult { messages })
    }
}

impl Engine<EngineAction, EngineResult, EngineState> for MasterEngine {
    /// A step is what `reduce_value` gives at some time of the clock.
    open spec fn steps(
        &self,
        state: EngineState,
        action: EngineAction,
        next: EngineState,
        result: EngineResult,
    ) -> bool {
        exists|timestamp: i64|
            step_of((next, result)) == #[trigger] reduce_value(
                self.prefix(),
                self.functions(),
                state@,
                action@,
                timestamp as int,
            )
    }

    open spec fn ends(&self, state: EngineState) -> bool {
        state.engine_status is FINAL
    }

    /// One step of the engine, at the time that the clock shows.
    fn reduce(&self, state: EngineState, action: EngineAction) -> (r: (EngineState, EngineResult)) {
        let timestamp = now_millis();
        let r = self.reduce_at(state, action, timestamp);
        r
    }

    fn is_final(&self, state: &EngineState) -> (r: bool) {
        match state.engine_status {
            EngineStatus::FINAL(_, _) => true,
            _ => false,
        }
    }
}

} // verus!
