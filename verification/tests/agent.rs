use repeater_control::config::Config;
use repeater_control::router::OutputPolicy;
use repeater_control::router::Plan;
use repeater_control::router::plan_payload;
use repeater_control::router::response_for_output;
use repeater_control::router::response_message;
use repeater_control::session::ConnectionState;
use repeater_control::session::SessionAction;
use repeater_control::session::SessionEvent;
use repeater_control::session::connect_params;
use repeater_control::session::step;

fn test_config() -> Config {
    Config {
        host: "mqtt://example:1883".to_string(),
        name: "client".to_string(),
        topics: vec!["ctl".to_string(), "status".to_string(), "lwt".to_string()],
        qos: vec![1],
    }
}

#[test]
fn built_in_config_values() {
    let c = Config::built_in();
    assert_eq!(c.host, "mqtt://10.145.0.4:1883");
    assert_eq!(c.name, "GB3VW");
    assert_eq!(
        c.topics,
        vec![
            "repeater-control".to_string(),
            "repeater-control/status".to_string(),
            "repeater-control/lwt".to_string()
        ]
    );
    assert_eq!(c.qos, vec![1]);
    assert!(c.validate());
}

#[test]
fn config_topic_accessors() {
    let c = test_config();
    assert!(c.validate());
    assert_eq!(c.command_topic(), "ctl");
    assert_eq!(c.status_topic(), "status");
    assert_eq!(c.last_will_topic(), "lwt");
    assert_eq!(c.subscribe_qos(), 1);
}

#[test]
fn config_missing_topics_rejected() {
    let c = Config {
        host: "mqtt://example:1883".to_string(),
        name: "client".to_string(),
        topics: vec!["ctl".to_string(), "status".to_string()],
        qos: vec![1],
    };
    assert!(!c.validate());
    let c = Config {
        host: "mqtt://example:1883".to_string(),
        name: "client".to_string(),
        topics: vec!["ctl".to_string(), "status".to_string(), "lwt".to_string()],
        qos: vec![],
    };
    assert!(!c.validate());
}

#[test]
fn diagnostic_code_runs_parameterized_operation() {
    let p = plan_payload("{\"command_type\":\"A\",\"command\":\"restart node\"}");
    match p {
        Plan::Execute { op, policy } => {
            assert_eq!(op.program, "asterisk");
            assert_eq!(op.args, vec!["-x".to_string(), "restart node".to_string()]);
            assert_eq!(policy, OutputPolicy::IfProduced);
        }
        _ => panic!("code A must plan exactly one operation"),
    }
}

#[test]
fn uptime_code_runs_fixed_operation() {
    let p = plan_payload("{\"command_type\":\"U\",\"command\":\"\"}");
    match p {
        Plan::Execute { op, policy } => {
            assert_eq!(op.program, "uptime");
            assert!(op.args.is_empty());
            assert_eq!(policy, OutputPolicy::IfProduced);
        }
        _ => panic!("code U must plan exactly one operation"),
    }
}

#[test]
fn check_code_publishes_unconditionally() {
    let p = plan_payload("{\"command_type\":\"C\",\"command\":\"\"}");
    match p {
        Plan::Execute { op, policy } => {
            assert_eq!(op.program, "asterisk");
            assert_eq!(op.args, vec!["-x".to_string(), "status".to_string()]);
            assert_eq!(policy, OutputPolicy::Always);
        }
        _ => panic!("code C must plan exactly one operation"),
    }
}

#[test]
fn ack_code_answers_without_operation() {
    let p = plan_payload("{\"command_type\":\"D\",\"command\":\"\"}");
    match p {
        Plan::Respond { text } => assert_eq!(text, "Command acknowledged"),
        _ => panic!("code D must answer directly, with no operation"),
    }
}

#[test]
fn unrecognized_code_answered_with_fixed_text() {
    let p = plan_payload("{\"command_type\":\"Z\",\"command\":\"x\"}");
    match p {
        Plan::Respond { text } => assert_eq!(text, "Command type is not valid"),
        _ => panic!("an unrecognized code must be answered"),
    }
}

#[test]
fn empty_command_type_answered_with_fixed_text() {
    let p = plan_payload("{\"command_type\":\"\",\"command\":\"\"}");
    match p {
        Plan::Respond { text } => assert_eq!(text, "Command type is not valid"),
        _ => panic!("an empty type code must be answered"),
    }
}

#[test]
fn only_first_character_routes() {
    let p = plan_payload("{\"command_type\":\"Uplink\",\"command\":\"\"}");
    match p {
        Plan::Execute { op, .. } => assert_eq!(op.program, "uptime"),
        _ => panic!("routing must go by the first character"),
    }
}

#[test]
fn malformed_payload_is_dropped() {
    assert!(matches!(plan_payload("not-json"), Plan::Ignore));
    assert!(matches!(plan_payload(""), Plan::Ignore));
    assert!(matches!(plan_payload("{\"command_type\":\"U\"}"), Plan::Ignore));
    assert!(matches!(plan_payload("{\"command_type\":7,\"command\":\"\"}"), Plan::Ignore));
    assert!(matches!(plan_payload("[\"command_type\",\"command\"]"), Plan::Ignore));
}

#[test]
fn extra_fields_do_not_stop_decoding() {
    let p = plan_payload(
        "{\"command_type\":\"D\",\"command\":\"\",\"response_topic\":\"elsewhere\"}",
    );
    assert!(matches!(p, Plan::Respond { .. }));
}

#[test]
fn output_policy_if_produced() {
    assert_eq!(
        response_for_output(OutputPolicy::IfProduced, Some("up 3 days".to_string())),
        Some("up 3 days".to_string())
    );
    assert_eq!(response_for_output(OutputPolicy::IfProduced, None), None);
}

#[test]
fn output_policy_always() {
    assert_eq!(
        response_for_output(OutputPolicy::Always, Some("ok".to_string())),
        Some("ok".to_string())
    );
    assert_eq!(response_for_output(OutputPolicy::Always, None), Some(String::new()));
}

#[test]
fn responses_go_to_status_topic_at_qos_1() {
    let cfg = test_config();
    let m = response_message(&cfg, "up 3 days".to_string());
    assert_eq!(m.topic, "status");
    assert_eq!(m.payload, "up 3 days");
    assert_eq!(m.qos, 1);
}

#[test]
fn uptime_end_to_end() {
    let cfg = test_config();
    let plan = plan_payload("{\"command_type\":\"U\",\"command\":\"\"}");
    let (op, policy) = match plan {
        Plan::Execute { op, policy } => (op, policy),
        _ => panic!("code U must plan an operation"),
    };
    assert_eq!(op.program, "uptime");
    let captured = Some("14:02 up 3 days, 2 users".to_string());
    let text = response_for_output(policy, captured).expect("output was produced");
    let m = response_message(&cfg, text);
    assert_eq!(m.topic, "status");
    assert_eq!(m.payload, "14:02 up 3 days, 2 users");
    assert_eq!(m.qos, 1);
}

#[test]
fn initial_connect_path() {
    let (s, a) = step(ConnectionState::Disconnected, SessionEvent::Start);
    assert_eq!(s, ConnectionState::Connecting);
    assert!(matches!(a, SessionAction::Connect));
    let (s, a) = step(s, SessionEvent::ConnectSucceeded);
    assert_eq!(s, ConnectionState::Connecting);
    assert!(matches!(a, SessionAction::Subscribe));
    let (s, a) = step(s, SessionEvent::SubscribeSucceeded);
    assert_eq!(s, ConnectionState::Connected);
    assert!(matches!(a, SessionAction::AwaitNext));
}

#[test]
fn initial_connect_failure_is_fatal() {
    let (s, a) = step(ConnectionState::Connecting, SessionEvent::ConnectFailed);
    assert_eq!(s, ConnectionState::Disconnected);
    assert!(matches!(a, SessionAction::Fail));
    let (s, a) = step(ConnectionState::Connecting, SessionEvent::SubscribeFailed);
    assert_eq!(s, ConnectionState::Disconnected);
    assert!(matches!(a, SessionAction::Fail));
}

#[test]
fn publish_failure_is_fatal() {
    let (s, a) = step(ConnectionState::Connected, SessionEvent::PublishFailed);
    assert_eq!(s, ConnectionState::Disconnected);
    assert!(matches!(a, SessionAction::Fail));
}

#[test]
fn reconnect_two_failures_then_success() {
    let mut attempts: u32 = 0;
    let mut subscribes: u32 = 0;
    let (mut s, a) = step(ConnectionState::Connected, SessionEvent::StreamClosed);
    assert_eq!(s, ConnectionState::Reconnecting);
    match a {
        SessionAction::Reconnect { delay_ms } => {
            assert_eq!(delay_ms, 0);
            attempts += 1;
        }
        _ => panic!("a lost connection must be retried at once"),
    }
    for _ in 0..2 {
        let (next, a) = step(s, SessionEvent::ConnectFailed);
        s = next;
        assert_eq!(s, ConnectionState::Reconnecting);
        match a {
            SessionAction::Reconnect { delay_ms } => {
                assert_eq!(delay_ms, 1000);
                attempts += 1;
            }
            SessionAction::Subscribe => subscribes += 1,
            _ => panic!("a failed reconnect must be retried"),
        }
    }
    let (s, a) = step(s, SessionEvent::ConnectSucceeded);
    assert_eq!(s, ConnectionState::Connected);
    assert!(matches!(a, SessionAction::AwaitNext));
    assert_eq!(attempts, 3);
    assert_eq!(subscribes, 0);
}

#[test]
fn messages_processed_in_arrival_order() {
    let first = "{\"command_type\":\"A\",\"command\":\"slow\"}".to_string();
    let second = "{\"command_type\":\"U\",\"command\":\"\"}".to_string();
    let (s, a) = step(
        ConnectionState::Connected,
        SessionEvent::MessageArrived { payload: first.clone() },
    );
    assert_eq!(s, ConnectionState::Connected);
    match a {
        SessionAction::Process { payload } => assert_eq!(payload, first),
        _ => panic!("an arriving message must be processed before the next event"),
    }
    let (s, a) = step(s, SessionEvent::MessageArrived { payload: second.clone() });
    assert_eq!(s, ConnectionState::Connected);
    match a {
        SessionAction::Process { payload } => assert_eq!(payload, second),
        _ => panic!("the second message is processed after the first"),
    }
}

#[test]
fn malformed_then_valid_message_both_handled() {
    let (s, a) = step(
        ConnectionState::Connected,
        SessionEvent::MessageArrived { payload: "not-json".to_string() },
    );
    assert_eq!(s, ConnectionState::Connected);
    let payload = match a {
        SessionAction::Process { payload } => payload,
        _ => panic!("every message is handed to the router"),
    };
    assert!(matches!(plan_payload(&payload), Plan::Ignore));
    let (s, a) = step(
        s,
        SessionEvent::MessageArrived {
            payload: "{\"command_type\":\"U\",\"command\":\"\"}".to_string(),
        },
    );
    assert_eq!(s, ConnectionState::Connected);
    let payload = match a {
        SessionAction::Process { payload } => payload,
        _ => panic!("the session keeps processing after a malformed payload"),
    };
    assert!(matches!(plan_payload(&payload), Plan::Execute { .. }));
}

#[test]
fn connect_params_register_last_will() {
    let cfg = test_config();
    let p = connect_params(&cfg);
    assert_eq!(p.keep_alive_secs, 30);
    assert!(!p.clean_session);
    assert_eq!(p.will.topic, "lwt");
    assert_eq!(p.will.payload, "ALIVE");
    assert_eq!(p.will.qos, 1);
}
