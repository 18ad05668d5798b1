//! Scenarios that start from GlazeWM's JSON text. The JSON is decoded here with
//! serde_json (field by field, with serde's own error texts, since a derive
//! cannot be used in tests), and the library's decisions are driven with the
//! result. The application's socket loops cannot be reached from tests, so the
//! drivers here run the library's state machines the way those loops do.
use std::collections::VecDeque;
use std::time::Duration;

use gat_gwm::diagnostics::RuntimeEvent;
use gat_gwm::protocol::{
    needs_focused_container, parse_glazewm_event, Container, EnvelopeDecoding, GlazeEvent,
    ParseEventError,
};
use gat_gwm::runtime::{
    reconnect_delay, EventStream, Reconnect, ReconnectAction, ReconnectInput, StreamAction,
    StreamInput, StreamOutcome,
};
use gat_gwm::shutdown::ShutdownToken;
use gat_gwm::tiling::TilingDirection;
use serde_json::Value;

fn missing_field(field: &'static str) -> String {
    <serde_json::Error as serde::de::Error>::missing_field(field).to_string()
}

fn decode_field<T: serde::de::DeserializeOwned>(value: Option<&Value>, default: T) -> Result<T, String> {
    match value {
        None => Ok(default),
        Some(value) => serde_json::from_value::<T>(value.clone()).map_err(|error| error.to_string()),
    }
}

fn decode_container(value: &Value) -> Result<Container, String> {
    let object = serde_json::from_value::<serde_json::Map<String, Value>>(value.clone())
        .map_err(|error| error.to_string())?;
    let container_type: Option<String> = decode_field(object.get("type"), None)?;
    let has_focus: bool = decode_field(object.get("hasFocus"), false)?;
    let width: Option<f64> = decode_field(object.get("width"), None)?;
    let height: Option<f64> = decode_field(object.get("height"), None)?;
    let children: Vec<Value> = decode_field(object.get("children"), Vec::new())?;
    Ok(Container {
        container_type,
        has_focus,
        width: width.map(f64::to_bits),
        height: height.map(f64::to_bits),
        children: children
            .iter()
            .map(decode_container)
            .collect::<Result<Vec<_>, _>>()?,
    })
}

/// Decodes a message as the application does, with serde_json's own errors,
/// and classifies it with the library.
fn parse(message: &str) -> Result<Option<GlazeEvent>, ParseEventError> {
    let value: Value = match serde_json::from_str(message) {
        Ok(value) => value,
        Err(error) => {
            return parse_glazewm_event(
                EnvelopeDecoding::NotJson {
                    error: error.to_string(),
                },
                None,
            )
        }
    };
    let event_type = value.get("data").and_then(|data| data.get("eventType"));
    let envelope = match event_type {
        Some(event_type) => match serde_json::from_value::<String>(event_type.clone()) {
            Ok(event_type) => EnvelopeDecoding::EventType { event_type },
            Err(error) => EnvelopeDecoding::Undecodable {
                event_type_present: true,
                error: error.to_string(),
            },
        },
        None => EnvelopeDecoding::Undecodable {
            event_type_present: false,
            error: missing_field(if value.get("data").is_none() { "data" } else { "eventType" }),
        },
    };
    let focused_container = match &envelope {
        EnvelopeDecoding::EventType { event_type } if needs_focused_container(event_type) => Some(
            match value.get("data").and_then(|data| data.get("focusedContainer")) {
                Some(container) => decode_container(container),
                None => Err(missing_field("focusedContainer")),
            },
        ),
        _ => None,
    };
    parse_glazewm_event(envelope, focused_container)
}

enum MockRead {
    Text(String),
    Error(&'static str),
    NonText,
}

struct MockConnection {
    sent: Vec<String>,
    reads: VecDeque<MockRead>,
}

impl MockConnection {
    fn new(reads: Vec<MockRead>) -> Self {
        MockConnection {
            sent: Vec::new(),
            reads: reads.into(),
        }
    }
}

/// Drives one event stream over a mock connection, as the application does
/// over the socket.
fn run_event_stream(
    connection: &mut MockConnection,
    shutdown: &ShutdownToken,
    events: &mut Vec<RuntimeEvent>,
) -> Result<StreamOutcome, String> {
    let mut stream = EventStream::new();
    let mut input = StreamInput::Begin;
    let mut failure: Option<String> = None;
    loop {
        assert!(stream.accepts(&input));
        let step = stream.step(input, shutdown.is_shutdown_requested());
        events.extend(step.events);
        input = match step.action {
            StreamAction::Send { text, context: _ } => {
                connection.sent.push(text);
                StreamInput::Sent
            }
            StreamAction::Read => match connection.reads.pop_front() {
                Some(MockRead::Text(text)) => StreamInput::Received {
                    parsed: parse(&text),
                },
                Some(MockRead::NonText) => StreamInput::NonText,
                Some(MockRead::Error(message)) => {
                    failure = Some(message.to_string());
                    StreamInput::Failed
                }
                None => {
                    failure = Some("no more mock reads".to_string());
                    StreamInput::Failed
                }
            },
            StreamAction::Finish { outcome } => return Ok(outcome),
            StreamAction::Fail => return Err(failure.expect("a failure")),
        };
    }
}

#[test]
fn parses_focus_changed_event() {
    let event = parse(
        r#"{
                "data": {
                    "eventType": "focus_changed",
                    "focusedContainer": {
                        "type": "window",
                        "hasFocus": true,
                        "width": 800,
                        "height": 600
                    }
                }
            }"#,
    )
    .expect("event should parse");

    assert_eq!(
        event,
        Some(GlazeEvent::FocusChanged {
            focused_container: Container {
                container_type: Some("window".to_string()),
                has_focus: true,
                width: Some(800.0f64.to_bits()),
                height: Some(600.0f64.to_bits()),
                children: Vec::new(),
            },
        })
    );
}

#[test]
fn parses_application_exiting_event() {
    let event = parse(r#"{"data":{"eventType":"application_exiting"}}"#)
        .expect("event should parse");

    assert_eq!(event, Some(GlazeEvent::ApplicationExiting));
}

#[test]
fn ignores_unsupported_events() {
    let event =
        parse(r#"{"data":{"eventType":"workspace_changed"}}"#).expect("event should parse");

    assert_eq!(event, None);
}

#[test]
fn reports_missing_event_type() {
    let error = parse(r#"{"data":{}}"#).expect_err("event should fail");

    assert!(matches!(error, ParseEventError::MissingEventType));
}

#[test]
fn reports_invalid_json_and_payloads() {
    let error = parse("not json").expect_err("event should fail");
    assert!(matches!(error, ParseEventError::InvalidJson(_)));
    assert!(error.to_string().starts_with("invalid GlazeWM IPC JSON: "));

    let error = parse(r#"{"data":{"eventType":5}}"#).expect_err("event should fail");
    assert_eq!(
        error,
        ParseEventError::InvalidPayload {
            event_type: "unknown".to_string(),
            source: "invalid type: integer `5`, expected a string".to_string(),
        }
    );
    assert_eq!(
        error.to_string(),
        "invalid GlazeWM IPC payload for unknown: invalid type: integer `5`, expected a string"
    );

    let error = parse(r#"{"data":{"eventType":"focus_changed"}}"#).expect_err("event should fail");
    assert_eq!(
        error,
        ParseEventError::InvalidPayload {
            event_type: "focus_changed".to_string(),
            source: "missing field `focusedContainer`".to_string(),
        }
    );
    assert_eq!(
        ParseEventError::MissingEventType.to_string(),
        "GlazeWM IPC message did not include data.eventType"
    );
}

#[test]
fn finds_focused_window_in_nested_container() {
    let root = Container {
        container_type: Some("split".to_string()),
        has_focus: false,
        width: None,
        height: None,
        children: vec![
            Container {
                container_type: Some("window".to_string()),
                has_focus: false,
                width: Some(400.0f64.to_bits()),
                height: Some(400.0f64.to_bits()),
                children: Vec::new(),
            },
            Container {
                container_type: Some("split".to_string()),
                has_focus: false,
                width: None,
                height: None,
                children: vec![Container {
                    container_type: Some("window".to_string()),
                    has_focus: true,
                    width: Some(300.0f64.to_bits()),
                    height: Some(700.0f64.to_bits()),
                    children: Vec::new(),
                }],
            },
        ],
    };

    let focused = root
        .find_focused_window()
        .expect("focused window should be found");

    assert_eq!(focused.size(), Some((300.0f64.to_bits(), 700.0f64.to_bits())));
}

#[test]
fn no_focused_window_is_found_in_an_unfocused_tree() {
    let root = Container {
        container_type: Some("window".to_string()),
        has_focus: false,
        width: Some(1.0f64.to_bits()),
        height: None,
        children: vec![Container {
            container_type: Some("split".to_string()),
            has_focus: true,
            width: None,
            height: None,
            children: Vec::new(),
        }],
    };
    assert!(root.find_focused_window().is_none());
    assert_eq!(root.size(), None);
}

#[test]
fn subscribes_and_sends_direction_commands() {
    let mut connection = MockConnection::new(vec![
        MockRead::NonText,
        MockRead::Text("not json".to_string()),
        MockRead::Text(
            r#"{
                        "data": {
                            "eventType": "focus_changed",
                            "focusedContainer": {
                                "type": "window",
                                "hasFocus": true,
                                "width": 1000,
                                "height": 500
                            }
                        }
                    }"#
            .to_string(),
        ),
        MockRead::Text(r#"{"data":{"eventType":"application_exiting"}}"#.to_string()),
    ]);

    let mut events = Vec::new();
    let outcome = run_event_stream(&mut connection, &ShutdownToken::new(), &mut events)
        .expect("stream should finish cleanly");

    assert!(matches!(outcome, StreamOutcome::ApplicationExiting));
    assert_eq!(
        connection.sent,
        vec![
            "sub -e focus_changed",
            "sub -e focused_container_moved",
            "sub -e application_exiting",
            "command set-tiling-direction horizontal",
        ]
    );
    assert!(events.contains(&RuntimeEvent::DirectionChanged {
        direction: TilingDirection::Horizontal,
    }));
    assert!(events
        .iter()
        .any(|event| matches!(event, RuntimeEvent::IgnoredMessage { .. })));
}

#[test]
fn a_requested_shutdown_ends_the_stream_after_subscribing() {
    let mut connection = MockConnection::new(vec![MockRead::NonText]);
    let shutdown = ShutdownToken::new();
    shutdown.request_shutdown();
    let clone = shutdown.clone();
    assert!(clone.is_shutdown_requested());
    let mut events = Vec::new();
    let outcome = run_event_stream(&mut connection, &clone, &mut events).expect("clean end");
    assert!(matches!(outcome, StreamOutcome::ShutdownRequested));
    assert_eq!(connection.sent.len(), 3);
    assert_eq!(connection.reads.len(), 1);
    assert!(events.is_empty());
}

#[test]
fn a_failed_action_ends_the_stream_without_events() {
    let mut stream = EventStream::new();
    stream.step(StreamInput::Begin, false);
    let step = stream.step(StreamInput::Failed, false);
    assert!(step.events.is_empty());
    assert!(matches!(step.action, StreamAction::Fail));
    assert!(!stream.accepts(&StreamInput::Sent));
    assert!(!stream.accepts(&StreamInput::Failed));

    let mut connection = MockConnection::new(vec![MockRead::NonText, MockRead::Error("socket dropped")]);
    let mut events = Vec::new();
    let result = run_event_stream(&mut connection, &ShutdownToken::new(), &mut events);
    assert_eq!(result.err(), Some("socket dropped".to_string()));
    assert!(events.is_empty());
    assert!(connection.reads.is_empty());
}

#[test]
fn send_actions_carry_their_failure_context() {
    let mut stream = EventStream::new();
    let step = stream.step(StreamInput::Begin, false);
    match step.action {
        StreamAction::Send { text, context } => {
            assert_eq!(text, "sub -e focus_changed");
            assert_eq!(
                context,
                "Failed to subscribe to GlazeWM IPC event with `sub -e focus_changed`"
            );
        }
        _ => panic!("expected a send"),
    }
    stream.step(StreamInput::Sent, false);
    stream.step(StreamInput::Sent, false);
    let step = stream.step(StreamInput::Sent, false);
    assert!(matches!(step.action, StreamAction::Read));
    let step = stream.step(
        StreamInput::Received {
            parsed: Ok(Some(GlazeEvent::FocusChanged {
                focused_container: Container {
                    container_type: Some("window".to_string()),
                    has_focus: true,
                    width: Some(1.0f64.to_bits()),
                    height: Some(2.0f64.to_bits()),
                    children: Vec::new(),
                },
            })),
        },
        false,
    );
    assert!(step.events.is_empty());
    match step.action {
        StreamAction::Send { text, context } => {
            assert_eq!(text, "command set-tiling-direction vertical");
            assert_eq!(
                context,
                "Failed to send GlazeWM IPC command `command set-tiling-direction vertical`"
            );
        }
        _ => panic!("expected a send"),
    }
    let step = stream.step(StreamInput::Sent, true);
    assert_eq!(
        step.events,
        vec![RuntimeEvent::DirectionChanged {
            direction: TilingDirection::Vertical
        }]
    );
    assert!(matches!(
        step.action,
        StreamAction::Finish {
            outcome: StreamOutcome::ShutdownRequested
        }
    ));
}

struct MockConnector {
    attempts: usize,
    sent: Vec<Vec<String>>,
}

impl MockConnector {
    fn connect(&mut self) -> Result<MockConnection, String> {
        self.attempts += 1;
        match self.attempts {
            1 => Err("GlazeWM offline".to_string()),
            2 => Ok(MockConnection::new(vec![MockRead::Error("socket dropped")])),
            _ => Ok(MockConnection::new(vec![MockRead::Text(
                r#"{"data":{"eventType":"application_exiting"}}"#.to_string(),
            )])),
        }
    }
}

/// Drives the supervisor with a mock connector, recording the sleeps.
fn run_with_reconnect(
    connector: &mut MockConnector,
    sleeps: &mut Vec<Duration>,
    shutdown: &ShutdownToken,
    events: &mut Vec<RuntimeEvent>,
) {
    let mut supervisor = Reconnect::new();
    let mut input = ReconnectInput::Begin;
    let mut connection = None;
    loop {
        assert!(supervisor.accepts(&input));
        let step = supervisor.step(input, shutdown.is_shutdown_requested());
        events.extend(step.events);
        input = match step.action {
            ReconnectAction::Connect => match connector.connect() {
                Ok(opened) => {
                    connection = Some(opened);
                    ReconnectInput::Connected
                }
                Err(message) => ReconnectInput::ConnectFailed { message },
            },
            ReconnectAction::RunStream => {
                let mut opened = connection.take().expect("a connection");
                let result = run_event_stream(&mut opened, shutdown, events);
                connector.sent.push(opened.sent);
                match result {
                    Ok(outcome) => ReconnectInput::StreamEnded { outcome },
                    Err(message) => ReconnectInput::StreamFailed { message },
                }
            }
            ReconnectAction::Sleep { seconds } => {
                sleeps.push(Duration::from_secs(seconds));
                ReconnectInput::Slept
            }
            ReconnectAction::Finish => return,
        };
    }
}

#[test]
fn reconnects_and_resubscribes_after_connection_loss() {
    let mut connector = MockConnector {
        attempts: 0,
        sent: Vec::new(),
    };
    let mut sleeps = Vec::new();
    let mut events = Vec::new();

    run_with_reconnect(&mut connector, &mut sleeps, &ShutdownToken::new(), &mut events);

    assert_eq!(connector.attempts, 3);
    assert_eq!(sleeps, vec![Duration::from_secs(1), Duration::from_secs(1)]);
    assert_eq!(connector.sent.len(), 2);
    for connection_sent in connector.sent.iter() {
        assert_eq!(
            connection_sent,
            &vec![
                "sub -e focus_changed".to_string(),
                "sub -e focused_container_moved".to_string(),
                "sub -e application_exiting".to_string(),
            ]
        );
    }
    assert!(events
        .iter()
        .any(|event| matches!(event, RuntimeEvent::ConnectionError { .. })));
    assert!(events
        .iter()
        .any(|event| matches!(event, RuntimeEvent::Reconnecting { .. })));
    assert_eq!(events[0], RuntimeEvent::Starting);
    assert_eq!(events.last(), Some(&RuntimeEvent::GlazewmExiting));
}

#[test]
fn consecutive_failures_back_off_and_a_connection_resets_the_delay() {
    let mut supervisor = Reconnect::new();
    let step = supervisor.step(ReconnectInput::Begin, false);
    assert_eq!(step.events, vec![RuntimeEvent::Starting, RuntimeEvent::Connecting]);
    let mut sleeps = Vec::new();
    for _ in 0..6 {
        let step = supervisor.step(
            ReconnectInput::ConnectFailed {
                message: "offline".to_string(),
            },
            false,
        );
        match step.action {
            ReconnectAction::Sleep { seconds } => sleeps.push(seconds),
            other => panic!("unexpected {other:?}"),
        }
        assert_eq!(
            step.events,
            vec![
                RuntimeEvent::ConnectionError {
                    message: "offline".to_string()
                },
                RuntimeEvent::Reconnecting {
                    delay_seconds: *sleeps.last().unwrap()
                },
            ]
        );
        supervisor.step(ReconnectInput::Slept, false);
    }
    assert_eq!(sleeps, vec![1, 2, 5, 10, 30, 30]);
    let step = supervisor.step(ReconnectInput::Connected, false);
    assert_eq!(step.events, vec![RuntimeEvent::Connected]);
    assert_eq!(step.action, ReconnectAction::RunStream);
    let step = supervisor.step(
        ReconnectInput::StreamFailed {
            message: "socket dropped".to_string(),
        },
        false,
    );
    assert_eq!(step.action, ReconnectAction::Sleep { seconds: 1 });
    let step = supervisor.step(ReconnectInput::Slept, true);
    assert_eq!(step.events, vec![RuntimeEvent::ShutdownRequested]);
    assert_eq!(step.action, ReconnectAction::Finish);
    assert!(!supervisor.accepts(&ReconnectInput::Slept));
}

#[test]
fn a_stream_ended_by_shutdown_is_announced() {
    let mut supervisor = Reconnect::new();
    supervisor.step(ReconnectInput::Begin, false);
    supervisor.step(ReconnectInput::Connected, false);
    let step = supervisor.step(
        ReconnectInput::StreamEnded {
            outcome: StreamOutcome::ShutdownRequested,
        },
        false,
    );
    assert_eq!(step.events, vec![RuntimeEvent::ShutdownRequested]);
    assert_eq!(step.action, ReconnectAction::Finish);
}

#[test]
fn reconnect_delay_caps_at_thirty_seconds() {
    assert_eq!(Duration::from_secs(reconnect_delay(0)), Duration::from_secs(1));
    assert_eq!(Duration::from_secs(reconnect_delay(1)), Duration::from_secs(2));
    assert_eq!(Duration::from_secs(reconnect_delay(4)), Duration::from_secs(30));
    assert_eq!(Duration::from_secs(reconnect_delay(99)), Duration::from_secs(30));
}
