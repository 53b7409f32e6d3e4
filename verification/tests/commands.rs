use myrulesiot::json::{Json, JsonObject, JsonValue};
use myrulesiot::master::engine::{
    command_error_json, function_notice_json, read_function, read_functions, single,
    success_json, ActionKind,
};
use myrulesiot::master::{
    functions_from_json, functions_to_json, ActionValue, EngineAction, EngineMessage,
    EngineResult, EngineState, EngineStatus, MasterEngine, ReducerFunction, Registry,
    SliceFunction, SliceResult, SliceValue, UserSlice,
};
use myrulesiot::rules::SliceError;
use myrulesiot::mqtt::publications;
use myrulesiot::rules::relay::relay_action;
use myrulesiot::rules::{default_engine_functions, distributed_engine_functions};
use myrulesiot::runtime::{
    runtime_loop, runtime_loop_sending, runtime_step, stops_after, Engine,
};
use myrulesiot::text::{
    copy_bytes, decimal, join3, same_bytes, signed_decimal, text_or_error,
};

fn json(text: &str) -> Json {
    Json::parse(text.as_bytes()).unwrap()
}

fn engine() -> MasterEngine {
    MasterEngine::new(String::from("MYRULESTEST"), distributed_engine_functions())
}

fn command(name: &str, payload: &str) -> EngineAction {
    EngineAction::new(
        format!("MYRULESTEST/command/{}", name),
        payload.as_bytes().to_vec(),
    )
}

fn action(topic: &str, payload: &[u8]) -> EngineAction {
    EngineAction::new(String::from(topic), payload.to_vec())
}

fn run(actions: Vec<EngineAction>) -> (EngineState, Vec<EngineResult>) {
    runtime_loop(&engine(), EngineState::default(), actions)
}

fn only(result: &EngineResult) -> (&str, String) {
    assert_eq!(result.messages.len(), 1);
    assert!(matches!(result.messages[0].properties, Json::Null));
    (
        result.messages[0].topic.as_str(),
        String::from_utf8(result.messages[0].payload.clone()).unwrap(),
    )
}

fn list_text(state: &EngineState) -> String {
    String::from_utf8(functions_to_json(&state.functions).to_bytes()).unwrap()
}

#[test]
fn classify_tells_the_topics_apart() {
    let engine = engine();
    let cases = [
        ("MYRULESTEST/command/functions_push", ActionKind::FunctionsPush),
        ("MYRULESTEST/command/functions_pop", ActionKind::FunctionsPop),
        ("MYRULESTEST/command/functions_clear", ActionKind::FunctionsClear),
        ("MYRULESTEST/command/functions_putall", ActionKind::FunctionsPutAll),
        ("MYRULESTEST/command/functions_getall", ActionKind::FunctionsGetAll),
        ("MYRULESTEST/command/exit", ActionKind::Exit),
        ("SYSMR/action/error", ActionKind::Error),
        ("SYSMR/action/tick", ActionKind::Pipeline),
        ("OTHER/command/functions_push", ActionKind::Pipeline),
        ("MYRULESTEST/command/functions_push/", ActionKind::Pipeline),
        ("MYRULESTEST/command/unknown", ActionKind::Pipeline),
        ("myrulestest/command/exit", ActionKind::Pipeline),
        ("", ActionKind::Pipeline),
    ];
    for (topic, kind) in cases {
        assert_eq!(engine.classify(&action(topic, b"")), kind, "{}", topic);
    }
}

#[test]
fn push_then_pop_restores_the_list() {
    let (state, results) = run(vec![
        command("functions_push", "{\"name\":\"relay\",\"_topic\":\"a\"}"),
        command("functions_push", "{\"_value\":[1,2],\"name\":\"pushed\"}"),
        command("functions_pop", "ignored"),
    ]);
    assert_eq!(
        only(&results[1]),
        ("MYRULESTEST/notify/functions_push", String::from("{\"function\":\"pushed\",\"success\":true}"))
    );
    assert_eq!(
        only(&results[2]),
        ("MYRULESTEST/notify/functions_pop", String::from("{\"function\":\"pushed\",\"success\":true}"))
    );
    assert_eq!(list_text(&state), "[{\"_topic\":\"a\",\"name\":\"relay\"}]");
    assert!(matches!(state.engine_status, EngineStatus::RUNNING));
}

#[test]
fn pop_on_an_empty_list() {
    let (state, results) = run(vec![command("functions_pop", "")]);
    assert_eq!(
        only(&results[0]),
        ("MYRULESTEST/notify/functions_pop", String::from("{\"function\":\"<None>\",\"success\":true}"))
    );
    assert_eq!(state.functions.len(), 0);
    assert!(matches!(state.engine_status, EngineStatus::RUNNING));
}

#[test]
fn putall_then_getall_reports_the_list() {
    let list = "[{\"_topic\":\"t\",\"name\":\"relay_on\"},{\"f\":0.5,\"n\":{\"deep\":[null,true]},\"name\":\"with_parameters\"},{\"name\":\"bare\"}]";
    let (state, results) = run(vec![
        command("functions_push", "{\"name\":\"replaced\"}"),
        command("functions_putall", list),
        command("functions_getall", ""),
    ]);
    assert_eq!(
        only(&results[1]),
        ("MYRULESTEST/notify/functions_putall", String::from("{\"success\":true}"))
    );
    assert_eq!(only(&results[2]), ("MYRULESTEST/notify/functions_getall", String::from(list)));
    assert_eq!(state.functions.len(), 3);
    assert_eq!(state.functions[1].name, "with_parameters");
}

#[test]
fn clear_empties_the_list() {
    let (state, results) = run(vec![
        command("functions_push", "{\"name\":\"a\"}"),
        command("functions_push", "{\"name\":\"b\"}"),
        command("functions_clear", "whatever"),
        command("functions_getall", ""),
    ]);
    assert_eq!(
        only(&results[2]),
        ("MYRULESTEST/notify/functions_clear", String::from("{\"success\":true}"))
    );
    assert_eq!(only(&results[3]), ("MYRULESTEST/notify/functions_getall", String::from("[]")));
    assert_eq!(state.functions.len(), 0);
}

#[test]
fn push_refuses_what_is_no_function() {
    let cases = [
        ("{\"name\":", "EOF while parsing a value at line 1 column 8"),
        ("[]", "a function is an object"),
        ("7", "a function is an object"),
        ("{\"_topic\":\"t\"}", "missing field `name`"),
        ("{\"name\":7}", "field `name` is not a string"),
        ("{\"name\":null}", "field `name` is not a string"),
    ];
    for (payload, message) in cases {
        let (state, results) = run(vec![
            command("functions_push", "{\"name\":\"kept\"}"),
            command("functions_push", payload),
        ]);
        let (topic, text) = only(&results[1]);
        assert_eq!(topic, "MYRULESTEST/notify/system_error");
        assert!(json(&text).same(&Json::Object(
            JsonObject::new()
                .insert("command".into(), Json::Str("functions_push".into()))
                .insert("error".into(), Json::Str(message.into()))
        )), "{}", text);
        assert_eq!(list_text(&state), "[{\"name\":\"kept\"}]");
    }
}

#[test]
fn putall_refuses_what_is_no_list() {
    let cases = [
        ("[{\"name\":\"a\"},", "EOF while parsing a value at line 1 column 14"),
        ("{\"name\":\"a\"}", "a list of functions is an array"),
        ("[{\"name\":\"a\"},{\"name\":1},{}]", "field `name` is not a string"),
        ("[{\"name\":\"a\"},{},{\"name\":1}]", "missing field `name`"),
        ("[1]", "a function is an object"),
    ];
    for (payload, message) in cases {
        let (state, results) = run(vec![
            command("functions_push", "{\"name\":\"kept\"}"),
            command("functions_putall", payload),
        ]);
        let (topic, text) = only(&results[1]);
        assert_eq!(topic, "MYRULESTEST/notify/system_error");
        assert_eq!(text, format!("{{\"command\":\"functions_putall\",\"error\":\"{}\"}}", message));
        assert_eq!(list_text(&state), "[{\"name\":\"kept\"}]");
    }
}

#[test]
fn commands_leave_the_working_document_alone() {
    let functions = functions_from_json(&json("[{\"name\":\"x\"}]")).unwrap();
    let state = EngineState::new(json("{\"kept\":1,\"_odd\":2}"), functions);
    let (state, _) = engine().reduce_at(state, command("functions_getall", ""), 5);
    assert!(state.info.same(&json("{\"kept\":1,\"_odd\":2}")));
    let (state, _) = engine().reduce_at(state, command("functions_pop", ""), 5);
    assert!(state.info.same(&json("{\"kept\":1,\"_odd\":2}")));
    // the next action that runs the list drops the scratch data
    let (state, result) = engine().reduce_at(state, action("t", b""), 5);
    assert!(state.info.same(&json("{\"kept\":1}")));
    assert_eq!(result.messages.len(), 0);
}

#[test]
fn no_scratch_data_is_left_after_an_action() {
    let (state, _) = run(vec![
        command("functions_push", "{\"name\":\"start_action\",\"_topic\":\"t\",\"_command\":\"c\",\"visible\":{\"_inner\":1},\"_hidden\":2}"),
        command("functions_push", "{\"name\":\"nobody\",\"_more\":1,\"more\":2}"),
        action("t", b"c"),
    ]);
    assert!(state.info.same(&json("{\"visible\":{\"_inner\":1},\"more\":2}")));
}

#[test]
fn the_list_changes_on_commands_only() {
    let (state, _) = run(vec![
        command("functions_push", "{\"name\":\"forward_user_action\",\"_topic\":\"a\",\"_forwardtopic\":\"b\"}"),
        action("a", b"1"),
        action("MYRULESTEST/command/functions_pull", b"{\"name\":\"x\"}"),
        action("MYRULESTEST/notify/functions_push", b"{\"name\":\"x\"}"),
        command("functions_getall", ""),
        action("SYSMR/action/tick", b""),
    ]);
    assert_eq!(
        list_text(&state),
        "[{\"_forwardtopic\":\"b\",\"_topic\":\"a\",\"name\":\"forward_user_action\"}]"
    );
}

#[test]
fn one_result_for_each_action_up_to_the_last() {
    let actions = || {
        vec![
            action("a", b"1"),
            command("functions_pop", ""),
            command("exit", "done"),
            action("b", b"2"),
            action("c", b"3"),
        ]
    };
    let (state, results) = run(actions());
    assert_eq!(results.len(), 3);
    assert!(engine().is_final(&state));
    let mut without_exit = actions();
    without_exit.remove(2);
    let (state, results) = run(without_exit);
    assert_eq!(results.len(), 4);
    assert!(!engine().is_final(&state));
    let (state, results) = run(vec![]);
    assert_eq!(results.len(), 0);
    assert!(matches!(state.engine_status, EngineStatus::INIT));
}

#[test]
fn results_come_in_the_order_of_the_actions() {
    let mut actions = vec![command(
        "functions_push",
        "{\"name\":\"forward_user_action\",\"_topic\":\"in\",\"_forwardtopic\":\"out\"}",
    )];
    for i in 0..20u8 {
        actions.push(action("in", &[i]));
    }
    let (_, results) = run(actions);
    assert_eq!(results.len(), 21);
    for i in 0..20u8 {
        assert_eq!(results[i as usize + 1].messages[0].payload, vec![i]);
    }
}

#[test]
fn runtime_step_says_when_to_stop() {
    let engine = engine();
    let (state, result, stop) = runtime_step(&engine, EngineState::default(), action("t", b""));
    assert!(!stop);
    assert_eq!(result.messages.len(), 0);
    assert!(matches!(state.engine_status, EngineStatus::RUNNING));
    let (state, _, stop) = runtime_step(&engine, state, command("exit", ""));
    assert!(stop);
    assert!(engine.is_final(&state));
}

#[test]
fn functions_text_round_trip() {
    let list = "[{\"name\":\"a\",\"_topic\":\"x/y\"},{\"name\":\"b\",\"n\":[1,-2,3.5,\"s\",null,true,{\"k\":{}}]}]";
    let functions = read_functions(list.as_bytes()).unwrap();
    let first = functions_to_json(&functions).to_bytes_pretty();
    let again = functions_to_json(&read_functions(&first).unwrap()).to_bytes_pretty();
    assert_eq!(first, again);
    assert_eq!(
        String::from_utf8(first).unwrap(),
        "[\n  {\n    \"_topic\": \"x/y\",\n    \"name\": \"a\"\n  },\n  {\n    \"n\": [\n      1,\n      -2,\n      3.5,\n      \"s\",\n      null,\n      true,\n      {\n        \"k\": {}\n      }\n    ],\n    \"name\": \"b\"\n  }\n]"
    );
}

#[test]
fn functions_from_documents() {
    let f = ReducerFunction::from_json(&json("{\"name\":\"n\",\"p\":1}")).unwrap();
    assert_eq!(f.name, "n");
    assert!(f.parameters.same(&JsonObject::new().insert("p".into(), json("1"))));
    assert!(f.to_json().same(&json("{\"p\":1,\"name\":\"n\"}")));
    assert!(f.duplicate().to_json().same(&f.to_json()));
    let made = ReducerFunction::new("m".into(), JsonObject::new().insert("name".into(), json("0")));
    assert!(made.to_json().same(&json("{\"name\":\"m\"}")));
    assert_eq!(ReducerFunction::from_json(&json("[]")).unwrap_err(), "a function is an object");
    assert_eq!(ReducerFunction::from_json(&json("{}")).unwrap_err(), "missing field `name`");
    assert_eq!(read_function(b"{\"name\":true}").unwrap_err(), "field `name` is not a string");
    assert_eq!(read_function(b"{\"name\":\"ok\"}").unwrap().name, "ok");
    assert_eq!(functions_from_json(&json("{}")).unwrap_err(), "a list of functions is an array");
    assert_eq!(read_functions(b"[]").unwrap().len(), 0);
    assert!(read_functions(b"[").is_err());
}

#[test]
fn states_and_results_are_built_as_asked() {
    let state = EngineState::default();
    assert!(state.info.same(&json("{}")));
    assert_eq!(state.functions.len(), 0);
    assert!(matches!(state.engine_status, EngineStatus::INIT));
    let state = EngineState::new_functions(read_functions(b"[{\"name\":\"a\"}]").unwrap());
    assert!(state.info.same(&json("{}")));
    assert_eq!(state.functions.len(), 1);
    assert!(matches!(state.engine_status, EngineStatus::INIT));
    let state = EngineState::new(json("[1]"), vec![]);
    assert!(state.info.same(&json("[1]")));
    let empty = SliceResult::empty();
    assert!(empty.state.same(&json("{}")) && empty.messages.is_empty());
    let only_state = SliceResult::state(json("{\"a\":1}"));
    assert!(only_state.state.same(&json("{\"a\":1}")) && only_state.messages.is_empty());
    let only_messages = SliceResult::messages(vec![EngineMessage::new("t".into(), vec![1])]);
    assert!(only_messages.state.same(&json("{}")));
    assert_eq!(only_messages.messages.len(), 1);
    let both = SliceResult::new(json("2"), vec![EngineMessage::new("t".into(), vec![1])]);
    assert!(both.state.same(&json("2")));
    assert_eq!(both.messages[0].payload, vec![1]);
}

#[test]
fn messages_and_actions_carry_json() {
    let doc = json("{\"b\":1,\"a\":[true]}");
    let message = EngineMessage::new_json("t".into(), &doc);
    assert_eq!(message.payload, b"{\"a\":[true],\"b\":1}".to_vec());
    assert!(message.payload_into_json().unwrap().same(&doc));
    let pretty = EngineMessage::new_jsonpretty("t".into(), &doc);
    assert_eq!(pretty.payload, b"{\n  \"a\": [\n    true\n  ],\n  \"b\": 1\n}".to_vec());
    assert!(matches!(pretty.properties, Json::Null));
    assert!(EngineMessage::new("t".into(), b"{".to_vec()).payload_into_json().is_err());
    let action = EngineAction::new_json("t".into(), &doc);
    assert_eq!(action.payload, b"{\"a\":[true],\"b\":1}".to_vec());
    assert!(action.matches("t"));
    assert!(!action.matches("t/"));
    assert!(action.matches_action("t", b"{\"a\":[true],\"b\":1}"));
    assert!(!action.matches_action("t", b"{\"a\":[true],\"b\":2}"));
    assert!(!action.matches_action("u", b"{\"a\":[true],\"b\":1}"));
}

#[test]
fn notices_of_the_engine() {
    let engine = engine();
    let note = engine.notice("anything", &success_json());
    assert_eq!(note.topic, "MYRULESTEST/notify/anything");
    assert_eq!(note.payload, b"{\"success\":true}".to_vec());
    assert_eq!(
        function_notice_json("f".into()).to_bytes(),
        b"{\"function\":\"f\",\"success\":true}".to_vec()
    );
    assert_eq!(
        command_error_json("c", "m".into()).to_bytes(),
        b"{\"command\":\"c\",\"error\":\"m\"}".to_vec()
    );
    assert_eq!(engine.not_found("nobody").payload, b"Function not found: nobody".to_vec());
    assert_eq!(single(engine.not_found("nobody")).len(), 1);
}

#[test]
fn a_registry_of_ones_own() {
    let mut registry = Registry::new();
    assert!(registry.find("relay").is_none());
    registry.register(relay_action());
    registry.register((String::from("my_relay"), myrulesiot::rules::relay::relay_value(b"1")));
    assert!(registry.find("relay").is_some());
    let engine = MasterEngine::new("P".into(), registry);
    let state = EngineState::new_functions(
        read_functions(b"[{\"name\":\"my_relay\",\"_topic\":\"o\",\"_start\":true},{\"name\":\"relay_on\"}]").unwrap(),
    );
    let (_, result) = engine.reduce_at(state, action("x", b""), 0);
    assert_eq!(result.messages.len(), 2);
    assert_eq!(result.messages[0].topic, "o");
    assert_eq!(result.messages[0].payload, b"1".to_vec());
    assert_eq!(result.messages[1].topic, "P/notify/system_error");
    assert!(default_engine_functions().find("my_relay").is_none());
}

#[test]
fn pipeline_sets_position_and_time() {
    let engine = engine();
    let state = EngineState::new_functions(
        read_functions(b"[{\"name\":\"a\"},{\"name\":\"condition_sleep\",\"_start\":true}]").unwrap(),
    );
    let (info, messages) = engine.run_pipeline(json("{}"), &state.functions, &action("x", b""), 77);
    assert!(info.same(&json("{\"condition_sleep_1\":77}")));
    assert_eq!(messages.len(), 1);
    // a working document that is no object becomes one with the first call
    let (info, _) = engine.run_pipeline(json("3"), &state.functions, &action("x", b""), 78);
    assert!(info.same(&json("{}")));
    let (info, messages) = engine.run_pipeline(json("3"), &vec![], &action("x", b""), 78);
    assert!(info.same(&json("3")));
    assert_eq!(messages.len(), 0);
}

#[test]
fn internal_notices_stay_inside() {
    let engine = MasterEngine::new("SYSMR".into(), distributed_engine_functions());
    let (_, result) = engine.reduce_at(EngineState::default(), action("SYSMR/command/functions_pop", b""), 0);
    assert_eq!(result.messages.len(), 1);
    assert_eq!(publications(result).len(), 0);
}

#[test]
fn texts() {
    assert_eq!(decimal(0), "0");
    assert_eq!(decimal(7), "7");
    assert_eq!(decimal(10), "10");
    assert_eq!(decimal(909), "909");
    assert_eq!(decimal(u64::MAX), "18446744073709551615");
    assert_eq!(signed_decimal(0), "0");
    assert_eq!(signed_decimal(-1), "-1");
    assert_eq!(signed_decimal(i64::MIN), "-9223372036854775808");
    assert_eq!(signed_decimal(i64::MAX), "9223372036854775807");
    assert_eq!(join3("a", "/b/", "c"), "a/b/c");
    assert_eq!(join3("", "", ""), "");
    assert!(same_bytes(b"", b""));
    assert!(same_bytes(b"ab", b"ab"));
    assert!(!same_bytes(b"ab", b"ac"));
    assert!(!same_bytes(b"ab", b"abc"));
    assert_eq!(copy_bytes(&[1, 2, 3]), vec![1, 2, 3]);
    assert_eq!(text_or_error(b"caf\xc3\xa9".to_vec()), "café");
    assert_eq!(text_or_error(vec![]), "");
    assert_eq!(
        text_or_error(vec![b'a', 0x80]),
        "invalid utf-8 sequence of 1 bytes from index 1"
    );
}

/// Counts the bytes of each action that comes in under its topic.
struct Meter {
    topic: String,
}

impl UserSlice for Meter {
    fn outcome(&self, _: JsonValue, _: ActionValue) -> Result<SliceValue, SliceError> {
        unreachable!()
    }

    fn call(&self, info: &Json, action: &EngineAction) -> Result<SliceResult, SliceError> {
        if !action.matches(&self.topic) {
            return Ok(SliceResult::empty());
        }
        let before = info.member("metered").and_then(|n| n.as_i64()).unwrap_or(0);
        let total = before + action.payload.len() as i64;
        Ok(SliceResult::new(
            json(&format!("{{\"metered\":{}}}", total)),
            vec![EngineMessage::new("meter".into(), total.to_string().into_bytes())],
        ))
    }
}

struct Counter;

impl Engine<u8, u8, u8> for Counter {
    fn steps(&self, _: u8, _: u8, _: u8, _: u8) -> bool {
        unreachable!()
    }

    fn ends(&self, _: u8) -> bool {
        unreachable!()
    }

    fn reduce(&self, state: u8, action: u8) -> (u8, u8) {
        (state.wrapping_add(action), action)
    }

    fn is_final(&self, state: &u8) -> bool {
        *state > 10
    }
}

#[test]
fn the_vocabulary_can_be_extended() {
    let mut registry = distributed_engine_functions();
    registry.register((
        String::from("meter"),
        SliceFunction::User(Box::new(Meter { topic: String::from("in") })),
    ));
    let engine = MasterEngine::new(String::from("MYRULESTEST"), registry);
    let (state, results) = runtime_loop(
        &engine,
        EngineState::default(),
        vec![
            command("functions_push", "{\"name\":\"meter\"}"),
            action("in", b"abc"),
            action("elsewhere", b"abcdef"),
            action("in", b"de"),
        ],
    );
    assert_eq!(results[1].messages[0].payload, b"3".to_vec());
    assert_eq!(results[2].messages.len(), 0);
    assert_eq!(results[3].messages[0].payload, b"5".to_vec());
    assert!(state.info.same(&json("{\"metered\":5}")));
}

#[test]
fn the_loop_drives_any_engine() {
    let (state, results) = runtime_loop(&Counter, 0, vec![5, 6, 7]);
    assert_eq!(state, 11);
    assert_eq!(results, vec![5, 6]);
    let (state, results) = runtime_loop(&Counter, 0, vec![1, 2, 3]);
    assert_eq!(state, 6);
    assert_eq!(results, vec![1, 2, 3]);
    // a run that starts in a final state still takes one action
    let (state, results) = runtime_loop(&Counter, 20, vec![1, 2, 3]);
    assert_eq!(state, 21);
    assert_eq!(results, vec![1]);
}

#[test]
fn the_loop_stops_where_a_result_is_not_taken() {
    assert!(!stops_after(true, false));
    assert!(stops_after(true, true));
    assert!(stops_after(false, false));
    assert!(stops_after(false, true));

    // the second result is refused: the run stops there, with the state as it is then
    let (state, results) = runtime_loop_sending(&Counter, 0, vec![1, 2, 3, 4], &vec![true, false]);
    assert_eq!(state, 3);
    assert_eq!(results, vec![1, 2]);
    // the first result is refused
    let (state, results) = runtime_loop_sending(&Counter, 0, vec![1, 2, 3], &vec![false]);
    assert_eq!(state, 1);
    assert_eq!(results, vec![1]);
    // what is said of steps that never run changes nothing
    let (state, results) =
        runtime_loop_sending(&Counter, 0, vec![5, 6, 7], &vec![true, true, false]);
    assert_eq!(state, 11);
    assert_eq!(results, vec![5, 6]);
    // nothing said: every result is taken
    let (state, results) = runtime_loop_sending(&Counter, 0, vec![1, 2, 3], &vec![]);
    assert_eq!(state, 6);
    assert_eq!(results, vec![1, 2, 3]);

    let (state, results) = runtime_loop_sending(
        &engine(),
        EngineState::default(),
        vec![
            command("functions_push", "{\"name\":\"a\"}"),
            command("functions_push", "{\"name\":\"b\"}"),
            command("functions_push", "{\"name\":\"c\"}"),
        ],
        &vec![true, false, true],
    );
    assert_eq!(results.len(), 2);
    assert_eq!(list_text(&state), "[{\"name\":\"a\"},{\"name\":\"b\"}]");
    assert!(matches!(state.engine_status, EngineStatus::RUNNING));
}
