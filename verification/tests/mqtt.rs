use myrulesiot::json::Json;
use myrulesiot::master::filestate::{
    functions_to_store, latest_payload, load_functions_action, saved_exit, saved_functions,
    stored_functions,
};
use myrulesiot::master::{EngineMessage, EngineResult};
use myrulesiot::mqtt::{
    cap_default, clean_session_default, command_subscription, error_action, from_qos,
    inbound_action, inflight_default, internal_topic, keep_alive_default, port_default,
    publication, publications, subscription_qos, tick_action, to_qos, ConnectionValues, QoS,
    Subscription,
};

fn json(text: &str) -> Json {
    Json::parse(text.as_bytes()).unwrap()
}

fn message(topic: &str, payload: &[u8], properties: &str) -> EngineMessage {
    EngineMessage {
        topic: String::from(topic),
        payload: payload.to_vec(),
        properties: json(properties),
    }
}

#[test]
fn qos_numbers() {
    assert_eq!(to_qos(0), Some(QoS::AtMostOnce));
    assert_eq!(to_qos(1), Some(QoS::AtLeastOnce));
    assert_eq!(to_qos(2), Some(QoS::ExactlyOnce));
    assert_eq!(to_qos(3), None);
    assert_eq!(to_qos(-1), None);
    assert_eq!(to_qos(i32::MAX), None);
    assert_eq!(from_qos(QoS::AtMostOnce), 0);
    assert_eq!(from_qos(QoS::AtLeastOnce), 1);
    assert_eq!(from_qos(QoS::ExactlyOnce), 2);
}

#[test]
fn connection_defaults() {
    assert_eq!(port_default(), 1883);
    assert_eq!(keep_alive_default(), 5);
    assert_eq!(inflight_default(), 10);
    assert!(!clean_session_default());
    assert_eq!(cap_default(), 10);
    let values = ConnectionValues::new("host".into(), "user".into(), "secret".into());
    assert_eq!(values.client_id, "");
    assert_eq!(values.host, "host");
    assert_eq!(values.username, "user");
    assert_eq!(values.password, "secret");
    assert_eq!(values.port, 1883);
    assert_eq!(values.keep_alive, 5);
    assert_eq!(values.inflight, 10);
    assert!(!values.clean_session);
    assert_eq!(values.cap, 10);
}

#[test]
fn subscriptions() {
    let commands = command_subscription("HOMERULES");
    assert_eq!(commands.topic, "HOMERULES/command/#");
    assert_eq!(commands.qos, 0);
    assert_eq!(subscription_qos(&commands), QoS::AtMostOnce);
    assert_eq!(subscription_qos(&Subscription { topic: "t".into(), qos: 2 }), QoS::ExactlyOnce);
    assert_eq!(subscription_qos(&Subscription { topic: "t".into(), qos: 7 }), QoS::AtLeastOnce);
    assert_eq!(subscription_qos(&Subscription { topic: "t".into(), qos: -1 }), QoS::AtLeastOnce);
}

#[test]
fn internal_topics() {
    assert!(internal_topic("SYSMR/action/tick"));
    assert!(internal_topic("SYSMR/"));
    assert!(!internal_topic("SYSMR"));
    assert!(!internal_topic("sysmr/action"));
    assert!(!internal_topic("a/SYSMR/b"));
    assert!(!internal_topic(""));
}

#[test]
fn publication_reads_the_properties() {
    let p = publication(message("t", b"x", "null")).unwrap();
    assert_eq!((p.topic.as_str(), p.qos, p.retain, p.payload.as_slice()), ("t", QoS::AtLeastOnce, false, &b"x"[..]));
    let p = publication(message("t", b"x", "{\"qos\":0,\"retain\":true}")).unwrap();
    assert_eq!((p.qos, p.retain), (QoS::AtMostOnce, true));
    let p = publication(message("t", b"x", "{\"qos\":2,\"retain\":false}")).unwrap();
    assert_eq!((p.qos, p.retain), (QoS::ExactlyOnce, false));
    let p = publication(message("t", b"x", "{\"qos\":1}")).unwrap();
    assert_eq!((p.qos, p.retain), (QoS::AtLeastOnce, false));
    for invalid in ["{\"qos\":3}", "{\"qos\":-1}", "{\"qos\":\"0\"}", "{\"qos\":0.0}", "{\"qos\":4294967296}", "{\"qos\":4294967298}", "{\"retain\":1}", "[0,true]"] {
        let p = publication(message("t", b"x", invalid)).unwrap();
        assert_eq!((p.qos, p.retain), (QoS::AtLeastOnce, false), "{}", invalid);
    }
    assert!(publication(message("SYSMR/notify/save_functions", b"x", "null")).is_none());
}

#[test]
fn internal_messages_are_not_published() {
    let result = EngineResult {
        messages: vec![
            message("a", b"1", "null"),
            message("SYSMR/inside", b"2", "null"),
            message("b", b"3", "{\"qos\":2}"),
            message("SYSMR/", b"4", "null"),
            message("c/SYSMR/", b"5", "null"),
        ],
    };
    let sent = publications(result);
    assert_eq!(sent.len(), 3);
    assert_eq!((sent[0].topic.as_str(), sent[0].payload.as_slice()), ("a", &b"1"[..]));
    assert_eq!((sent[1].topic.as_str(), sent[1].qos), ("b", QoS::ExactlyOnce));
    assert_eq!(sent[2].topic, "c/SYSMR/");
    assert!(sent.iter().all(|p| !p.topic.starts_with("SYSMR/")));
    assert_eq!(publications(EngineResult { messages: vec![] }).len(), 0);
}

#[test]
fn inbound_actions() {
    let action = inbound_action("zigbee/remote".into(), vec![1, 2]).unwrap();
    assert_eq!(action.topic, "zigbee/remote");
    assert_eq!(action.payload, vec![1, 2]);
    assert!(inbound_action("SYSMR/action/error".into(), b"spoofed".to_vec()).is_none());
    let error = error_action("connection refused");
    assert_eq!(error.topic, "SYSMR/action/error");
    assert_eq!(error.payload, b"connection refused".to_vec());
    let tick = tick_action("2024-05-01T10:00:00+02:00");
    assert_eq!(tick.topic, "SYSMR/action/tick");
    assert_eq!(tick.payload, b"2024-05-01T10:00:00+02:00".to_vec());
    let load = load_functions_action(b"[]".to_vec());
    assert_eq!(load.topic, "SYSMR/action/load_functions");
    assert_eq!(load.payload, b"[]".to_vec());
}

#[test]
fn latest_payload_takes_the_last() {
    let result = EngineResult {
        messages: vec![
            message("SYSMR/notify/save_functions", b"first", "null"),
            message("other", b"x", "null"),
            message("SYSMR/notify/save_functions", b"second", "null"),
            message("P/notify/exit", b"bye", "null"),
        ],
    };
    assert_eq!(saved_functions(&result, None), Some(b"second".to_vec()));
    assert_eq!(saved_exit("P", &result, Some(b"old".to_vec())), Some(b"bye".to_vec()));
    assert_eq!(saved_exit("Q", &result, Some(b"old".to_vec())), Some(b"old".to_vec()));
    assert_eq!(latest_payload(&result, "none", None), None);
    assert_eq!(latest_payload(&result, "other", None), Some(b"x".to_vec()));
    let empty = EngineResult { messages: vec![] };
    assert_eq!(saved_functions(&empty, Some(vec![1])), Some(vec![1]));
}

#[test]
fn stored_functions_survive_a_restart() {
    let functions = stored_functions(b"[{\"name\":\"relay\",\"_topic\":\"t\"}]");
    assert_eq!(functions.len(), 1);
    assert_eq!(functions[0].name, "relay");
    let stored = functions_to_store(&functions);
    assert_eq!(
        String::from_utf8(stored.clone()).unwrap(),
        "[\n  {\n    \"_topic\": \"t\",\n    \"name\": \"relay\"\n  }\n]"
    );
    assert_eq!(functions_to_store(&stored_functions(&stored)), stored);
    // what is no list counts as an empty list
    assert_eq!(stored_functions(b"").len(), 0);
    assert_eq!(stored_functions(b"{\"name\":\"relay\"}").len(), 0);
    assert_eq!(stored_functions(b"[{\"name\":1}]").len(), 0);
    assert_eq!(functions_to_store(&vec![]), b"[]".to_vec());
}

#[test]
fn messages_and_results_compare_by_what_they_hold() {
    let a = message("t", b"x", "{\"qos\":1,\"retain\":false}");
    let b = message("t", b"x", "{\"retain\":false,\"qos\":1}");
    assert_eq!(a, b);
    assert_ne!(a, message("u", b"x", "{\"qos\":1,\"retain\":false}"));
    assert_ne!(a, message("t", b"y", "{\"qos\":1,\"retain\":false}"));
    assert_ne!(a, message("t", b"x", "{\"qos\":2,\"retain\":false}"));
    let one = EngineResult { messages: vec![a] };
    let other = EngineResult { messages: vec![b] };
    assert_eq!(one, other);
    assert_ne!(one, EngineResult { messages: vec![] });
    assert_ne!(
        one,
        EngineResult { messages: vec![message("t", b"x", "null")] }
    );
    assert_eq!(json("{\"a\":1,\"b\":[2]}"), json("{\"b\":[2],\"a\":1}"));
    assert_ne!(json("{\"a\":1}"), json("{\"a\":1.0}"));
}
