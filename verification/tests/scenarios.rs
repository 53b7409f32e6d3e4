use myrulesiot::json::Json;
use myrulesiot::master::{
    functions_to_json, EngineAction, EngineResult, EngineState, EngineStatus, FinalStatus,
    MasterEngine,
};
use myrulesiot::master::filestate::{ended_normally, exit_text};
use myrulesiot::mqtt::error_action;
use myrulesiot::rules::distributed_engine_functions;
use myrulesiot::runtime::{runtime_loop, Engine};

fn json(text: &str) -> Json {
    Json::parse(text.as_bytes()).unwrap()
}

fn run(actions: Vec<EngineAction>) -> (EngineState, Vec<EngineResult>) {
    let engine = MasterEngine::new(String::from("MYRULESTEST"), distributed_engine_functions());
    runtime_loop(&engine, EngineState::default(), actions)
}

#[test]
fn ikea_basic_messages() {
    let (state, results) = run(vec![
        EngineAction::new(
            String::from("MYRULESTEST/command/functions_push"),
            Vec::from(
                b"{\"name\":\"start_ikea_remote_toggle\", \"_topic\":\"zigbee2mqtt/Tradfri Remote\"}"
            ),
        ),
        EngineAction::new(
            String::from("MYRULESTEST/command/functions_push"),
            Vec::from(
                b"{\"name\":\"relay_on\", \"_topic\":\"shellies/shellyswitch01/relay/1/command\"}",
            ),
        ),
        EngineAction::new(
            String::from("zigbee2mqtt/Tradfri Remote"),
            Vec::from(b"{\"action\":\"toggle\"}"),
        ),
        EngineAction::new(String::from("MYRULESTEST/command/exit"), Vec::new()),
    ]);
    let mut results = results.into_iter();

    // The function push result
    let t = results.next().unwrap();
    assert_eq!(t.messages.len(), 1);
    assert_eq!(&t.messages[0].topic, "MYRULESTEST/notify/functions_push");
    assert_eq!(
        json("{\"function\":\"start_ikea_remote_toggle\",\"success\":true}"),
        Json::parse(&t.messages[0].payload).unwrap()
    );

    // The function push result
    let t = results.next().unwrap();
    assert_eq!(t.messages.len(), 1);
    assert_eq!(&t.messages[0].topic, "MYRULESTEST/notify/functions_push");
    assert_eq!(
        json("{\"function\":\"relay_on\",\"success\":true}"),
        Json::parse(&t.messages[0].payload).unwrap()
    );

    // The actuator action result.
    assert_eq!(
        "EngineResult { messages: [EngineMessage { topic: \"shellies/shellyswitch01/relay/1/command\", payload: [111, 110], properties: Null }] }",
        format!("{:?}", results.next().unwrap())
    );

    assert!(matches!(
        state.engine_status,
        EngineStatus::FINAL(FinalStatus::NORMAL, _)
    ));
    assert_eq!(
        json(
            "[{\"_topic\":\"zigbee2mqtt/Tradfri Remote\",\"name\":\"start_ikea_remote_toggle\"},{\"_topic\":\"shellies/shellyswitch01/relay/1/command\",\"name\":\"relay_on\"}]"
        ),
        functions_to_json(&state.functions)
    );

    let final_result = results.next().unwrap();
    assert_eq!(final_result.messages.len(), 0);

    assert!(results.next().is_none());
}

#[test]
fn masterintegration_basic_messages() {
    let (state, results) = run(vec![
        EngineAction::new("MYRULESTEST/command/functions_push".into(),
            b"{\"name\":\"forward_action\", \"_topic\":\"source_topic\",\"_forwardtopic\":\"target_topic\"}".into()),
        EngineAction::new("MYRULESTEST/command/functions_push".into(),
            b"{\"name\":\"forward_user_action\", \"_topic\":\"SYSTIMER/tick\",\"_forwardtopic\":\"myhelloiot/timer\"}".into()),
        EngineAction::new("source_topic".into(), b"{\"action\":\"toggle\"}".into()),
        EngineAction::new("SYSTIMER/tick".into(), b"123".into()),
        EngineAction::new("MYRULESTEST/command/exit".into(), vec![]),
    ]);
    let mut results = results.into_iter();

    // The function push result
    assert_eq!(
        "EngineResult { messages: [EngineMessage { topic: \"MYRULESTEST/notify/functions_push\", payload: [123, 34, 102, 117, 110, 99, 116, 105, 111, 110, 34, 58, 34, 102, 111, 114, 119, 97, 114, 100, 95, 97, 99, 116, 105, 111, 110, 34, 44, 34, 115, 117, 99, 99, 101, 115, 115, 34, 58, 116, 114, 117, 101, 125], properties: Null }] }",
        format!("{:?}", results.next().unwrap())
    );

    // The function push result
    assert_eq!(
        "EngineResult { messages: [EngineMessage { topic: \"MYRULESTEST/notify/functions_push\", payload: [123, 34, 102, 117, 110, 99, 116, 105, 111, 110, 34, 58, 34, 102, 111, 114, 119, 97, 114, 100, 95, 117, 115, 101, 114, 95, 97, 99, 116, 105, 111, 110, 34, 44, 34, 115, 117, 99, 99, 101, 115, 115, 34, 58, 116, 114, 117, 101, 125], properties: Null }] }",
        format!("{:?}", results.next().unwrap())
    );

    // The forward action result.
    assert_eq!(
        "EngineResult { messages: [EngineMessage { topic: \"target_topic\", payload: [1], properties: Null }] }",
        format!("{:?}", results.next().unwrap())
    );

    // The forward user action tick result.
    assert_eq!(
        "EngineResult { messages: [EngineMessage { topic: \"myhelloiot/timer\", payload: [49, 50, 51], properties: Null }] }",
        format!("{:?}", results.next().unwrap())
    );

    assert!(matches!(
        state.engine_status,
        EngineStatus::FINAL(FinalStatus::NORMAL, _)
    ));

    assert_eq!(
        json(
            "[{\"name\":\"forward_action\",\"_forwardtopic\":\"target_topic\",\"_topic\":\"source_topic\"},{\"name\":\"forward_user_action\",\"_forwardtopic\":\"myhelloiot/timer\",\"_topic\":\"SYSTIMER/tick\"}]"
        ),
        functions_to_json(&state.functions)
    );

    let final_result = results.next().unwrap();
    assert_eq!(final_result.messages.len(), 0);

    assert!(results.next().is_none());
}

fn engine() -> MasterEngine {
    MasterEngine::new(String::from("MYRULESTEST"), distributed_engine_functions())
}

fn push(text: &str) -> EngineAction {
    EngineAction::new(
        String::from("MYRULESTEST/command/functions_push"),
        text.as_bytes().to_vec(),
    )
}

fn action(topic: &str, payload: &[u8]) -> EngineAction {
    EngineAction::new(String::from(topic), payload.to_vec())
}

#[test]
fn forward_action_toggles_back_and_forth() {
    let (state, results) = run(vec![
        push("{\"name\":\"forward_action\",\"_topic\":\"source_topic\",\"_forwardtopic\":\"target_topic\"}"),
        action("source_topic", b"{\"action\":\"toggle\"}"),
        action("source_topic", b"{\"action\":\"toggle\"}"),
        action("source_topic", b"{\"action\":\"other\"}"),
        action("source_topic", b"not json"),
        action("source_topic", b"{\"action\":\"toggle\"}"),
    ]);
    assert_eq!(results.len(), 6);
    assert_eq!(results[1].messages.len(), 1);
    assert_eq!(results[1].messages[0].topic, "target_topic");
    assert_eq!(results[1].messages[0].payload, vec![1u8]);
    assert_eq!(results[2].messages.len(), 1);
    assert_eq!(results[2].messages[0].topic, "target_topic");
    assert_eq!(results[2].messages[0].payload, vec![0u8]);
    assert_eq!(results[3].messages.len(), 0);
    assert_eq!(results[4].messages.len(), 0);
    assert_eq!(results[5].messages[0].payload, vec![1u8]);
    assert!(state.info.same(&json("{\"target_topic\":true}")));
    assert!(matches!(state.engine_status, EngineStatus::RUNNING));
}

#[test]
fn forward_user_action_hands_the_payload_on() {
    let (_, results) = run(vec![
        push("{\"name\":\"forward_user_action\",\"_topic\":\"SYSTIMER/tick\",\"_forwardtopic\":\"myhelloiot/timer\"}"),
        action("SYSTIMER/tick", b"123"),
        action("SYSTIMER/other", b"123"),
    ]);
    assert_eq!(results[1].messages.len(), 1);
    assert_eq!(results[1].messages[0].topic, "myhelloiot/timer");
    assert_eq!(results[1].messages[0].payload, b"123".to_vec());
    assert!(matches!(results[1].messages[0].properties, Json::Null));
    assert_eq!(results[2].messages.len(), 0);
}

#[test]
fn unknown_function_is_reported_once() {
    let (state, results) = run(vec![
        push("{\"name\":\"does_not_exist\",\"kept\":1,\"_dropped\":2}"),
        action("any/topic", b"x"),
    ]);
    assert_eq!(results[1].messages.len(), 1);
    assert_eq!(results[1].messages[0].topic, "MYRULESTEST/notify/system_error");
    assert_eq!(
        results[1].messages[0].payload,
        b"Function not found: does_not_exist".to_vec()
    );
    assert!(state.info.same(&json("{\"kept\":1}")));
    assert_eq!(state.functions.len(), 1);
}

#[test]
fn unknown_function_does_not_stop_the_others() {
    let (_, results) = run(vec![
        push("{\"name\":\"nobody\"}"),
        push("{\"name\":\"forward_user_action\",\"_topic\":\"a\",\"_forwardtopic\":\"b\"}"),
        push("{\"name\":\"nobody_else\"}"),
        action("a", b"payload"),
    ]);
    let sent = &results[3].messages;
    assert_eq!(sent.len(), 3);
    assert_eq!(sent[0].payload, b"Function not found: nobody".to_vec());
    assert_eq!(sent[1].topic, "b");
    assert_eq!(sent[1].payload, b"payload".to_vec());
    assert_eq!(sent[2].payload, b"Function not found: nobody_else".to_vec());
}

#[test]
fn debounced_relay() {
    let engine = engine();
    let mut state = EngineState::default();
    for text in [
        "{\"name\":\"start_action\",\"_topic\":\"t\",\"_command\":\"go\"}",
        "{\"name\":\"condition_sleep\",\"_millis\":500}",
        "{\"name\":\"relay\",\"_topic\":\"out\",\"_value\":\"on\"}",
    ] {
        let (next, result) = engine.reduce_at(state, push(text), 0);
        assert_eq!(result.messages.len(), 1);
        state = next;
    }
    let (state, result) = engine.reduce_at(state, action("t", b"go"), 1000);
    assert_eq!(result.messages.len(), 0);
    assert!(state.info.same(&json("{\"condition_sleep_1\":1000}")));
    let (state, result) = engine.reduce_at(state, action("SYSMR/action/tick", b"now"), 1200);
    assert_eq!(result.messages.len(), 0);
    // exactly at the threshold the relay stays quiet
    let (state, result) = engine.reduce_at(state, action("SYSMR/action/tick", b"now"), 1500);
    assert_eq!(result.messages.len(), 0);
    let (state, result) = engine.reduce_at(state, action("SYSMR/action/tick", b"now"), 1600);
    assert_eq!(
        "EngineResult { messages: [EngineMessage { topic: \"out\", payload: [111, 110], properties: Null }] }",
        format!("{:?}", result)
    );
    assert!(state.info.same(&json("{}")));
    let (_, result) = engine.reduce_at(state, action("SYSMR/action/tick", b"now"), 2600);
    assert_eq!(result.messages.len(), 0);
}

#[test]
fn error_termination() {
    let (state, results) = run(vec![
        error_action("broker down"),
        action("never/taken", b""),
    ]);
    assert_eq!(results.len(), 1);
    assert_eq!(results[0].messages.len(), 0);
    match &state.engine_status {
        EngineStatus::FINAL(FinalStatus::ERROR, message) => assert_eq!(message, "broker down"),
        other => panic!("{:?}", other),
    }
    assert_eq!(exit_text(&state.engine_status), Some(String::from("ERROR/broker down")));
    assert!(engine().is_final(&state));
    assert!(!ended_normally(&state.engine_status));
}

#[test]
fn normal_exit_keeps_the_last_word() {
    let (state, results) = run(vec![action("MYRULESTEST/command/exit", b"bye")]);
    assert_eq!(results.len(), 1);
    assert_eq!(exit_text(&state.engine_status), Some(String::from("NORMAL/bye")));
    assert!(ended_normally(&state.engine_status));
    assert!(!ended_normally(&EngineStatus::RUNNING));
    assert!(!ended_normally(&EngineStatus::INIT));
    assert_eq!(exit_text(&EngineStatus::RUNNING), None);
    assert_eq!(exit_text(&EngineStatus::INIT), None);
}

#[test]
fn exit_with_bytes_that_are_no_text() {
    let (state, _) = run(vec![action("MYRULESTEST/command/exit", &[0xff, 0xfe])]);
    match &state.engine_status {
        EngineStatus::FINAL(FinalStatus::NORMAL, message) => {
            assert_eq!(message, "invalid utf-8 sequence of 1 bytes from index 0")
        }
        other => panic!("{:?}", other),
    }
}

#[test]
fn a_final_state_takes_no_action() {
    let engine = engine();
    let (state, _) = engine.reduce_at(EngineState::default(), action("MYRULESTEST/command/exit", b"x"), 0);
    let (state, result) = engine.reduce_at(state, push("{\"name\":\"relay\"}"), 1);
    assert_eq!(result.messages.len(), 0);
    assert_eq!(state.functions.len(), 0);
    assert!(engine.is_final(&state));
    let (state, result) = engine.reduce(state, action("some/topic", b""));
    assert_eq!(result.messages.len(), 0);
    assert_eq!(exit_text(&state.engine_status), Some(String::from("NORMAL/x")));
}

#[test]
fn reduce_reads_the_clock() {
    let engine = engine();
    let (state, _) = engine.reduce(EngineState::default(), push("{\"name\":\"start_action\",\"_topic\":\"t\",\"_command\":\"go\"}"));
    let (state, _) = engine.reduce(state, push("{\"name\":\"condition_sleep\"}"));
    let (state, result) = engine.reduce(state, action("t", b"go"));
    assert_eq!(result.messages.len(), 0);
    let stamp = state.info.member("condition_sleep_1").unwrap().as_i64().unwrap();
    // later than the first of January 2020
    assert!(stamp > 1_577_836_800_000);
    assert!(!engine.is_final(&state));
}

#[test]
fn slice_function_without_its_parameters_is_reported() {
    let (_, results) = run(vec![
        push("{\"name\":\"relay\",\"_topic\":\"out\"}"),
        action("x", b""),
    ]);
    assert_eq!(results[1].messages.len(), 1);
    assert_eq!(results[1].messages[0].topic, "MYRULESTEST/notify/system_error");
    assert_eq!(
        results[1].messages[0].payload,
        b"Function failed: relay: missing parameter: _value".to_vec()
    );
}
