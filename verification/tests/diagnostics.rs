use gat_gwm::diagnostics::{
    connection_state_from_event, ipc_url_text, log_dir, log_file_path, log_line, ConnectionState, DiagnosticsState, RuntimeEvent, LOG_FILE_PREFIX,
    LOG_RETENTION_DAYS,
};
use gat_gwm::text::one_line_accepts;
use gat_gwm::tiling::TilingDirection;

#[test]
fn formats_connection_text_for_connected_state() {
    assert_eq!(
        ConnectionState::Connected.menu_text(),
        "Connection: connected".to_string()
    );
    assert_eq!(
        ConnectionState::Connected.tooltip_text(),
        "GAT-GWM - connected".to_string()
    );
}

#[test]
fn direction_changes_update_state_without_changing_connection() {
    let mut state = DiagnosticsState {
        connection: ConnectionState::Connected,
        ..Default::default()
    };

    state.apply_event(&RuntimeEvent::DirectionChanged {
        direction: TilingDirection::Horizontal,
    });

    assert_eq!(state.connection, ConnectionState::Connected);
    assert_eq!(state.last_direction, Some(TilingDirection::Horizontal));
}

#[test]
fn ignored_messages_update_state_without_changing_connection() {
    let mut state = DiagnosticsState {
        connection: ConnectionState::Connected,
        ..Default::default()
    };

    state.apply_event(&RuntimeEvent::IgnoredMessage {
        reason: "first line\nsecond line".to_string(),
    });

    assert_eq!(state.connection, ConnectionState::Connected);
    assert_eq!(
        state.last_ignored_message,
        Some("first line\nsecond line".to_string())
    );
}

#[test]
fn ui_errors_update_last_error_without_changing_connection() {
    let mut state = DiagnosticsState {
        connection: ConnectionState::Connected,
        ..Default::default()
    };

    state.apply_event(&RuntimeEvent::UiError {
        message: "could not open log folder".to_string(),
    });

    assert_eq!(state.connection, ConnectionState::Connected);
    assert_eq!(
        state.last_error,
        Some("could not open log folder".to_string())
    );
}

#[test]
fn formats_connection_errors_on_one_line() {
    assert_eq!(
        ConnectionState::Error {
            message: "first line\nsecond line".to_string(),
        }
        .menu_text(),
        "Connection: error - first line second line".to_string()
    );
}

#[test]
fn connection_errors_update_connection_and_last_error() {
    let mut state = DiagnosticsState::default();

    state.apply_event(&RuntimeEvent::ConnectionError {
        message: "socket closed".to_string(),
    });

    assert_eq!(
        state.connection,
        ConnectionState::Error {
            message: "socket closed".to_string()
        }
    );
    assert_eq!(state.last_error, Some("socket closed".to_string()));
}

#[test]
fn log_format_keeps_direction_events() {
    assert_eq!(
        RuntimeEvent::DirectionChanged {
            direction: TilingDirection::Vertical,
        }
        .to_string(),
        "Tiling: set vertical direction"
    );
}

#[test]
fn every_connection_state_has_its_menu_and_tooltip_text() {
    let cases = vec![
        (ConnectionState::Starting, "starting"),
        (ConnectionState::Connecting, "connecting to GlazeWM IPC"),
        (ConnectionState::Connected, "connected"),
        (
            ConnectionState::Reconnecting { delay_seconds: 30 },
            "reconnecting in 30s",
        ),
        (
            ConnectionState::Reconnecting { delay_seconds: 0 },
            "reconnecting in 0s",
        ),
        (
            ConnectionState::Reconnecting {
                delay_seconds: u64::MAX,
            },
            "reconnecting in 18446744073709551615s",
        ),
        (
            ConnectionState::Error {
                message: "  socket \t closed \r\n".to_string(),
            },
            "error - socket closed",
        ),
        (ConnectionState::GlazewmExiting, "GlazeWM exiting"),
        (ConnectionState::ShuttingDown, "shutting down"),
    ];
    for (state, status) in cases {
        assert!(state.renders());
        assert_eq!(state.menu_text(), format!("Connection: {status}"));
        assert_eq!(state.tooltip_text(), format!("GAT-GWM - {status}"));
    }
}

#[test]
fn long_error_messages_are_cut_with_an_ellipsis() {
    let message = "word ".repeat(40);
    let state = ConnectionState::Error { message };
    let text = state.menu_text();
    let expected_line = format!("{}...", &"word ".repeat(40).trim_end()[..93]);
    assert_eq!(text, format!("Connection: error - {expected_line}"));
    assert_eq!(expected_line.len(), 96);
}

#[test]
fn a_line_of_exactly_the_limit_is_kept_whole() {
    let message = "x".repeat(96);
    let state = ConnectionState::Error {
        message: message.clone(),
    };
    assert_eq!(state.menu_text(), format!("Connection: error - {message}"));
    let longer = "x".repeat(97);
    let state = ConnectionState::Error { message: longer };
    assert_eq!(
        state.menu_text(),
        format!("Connection: error - {}...", "x".repeat(93))
    );
}

#[test]
fn a_cut_inside_a_character_is_refused() {
    // 92 one-byte characters then two-byte characters: byte 93 falls inside one.
    let message = format!("{}{}", "a".repeat(92), "é".repeat(10));
    assert!(!one_line_accepts(&message));
    let state = ConnectionState::Error { message };
    assert!(!state.renders());
    // 91 one-byte characters then two-byte characters: byte 93 is a boundary.
    let message = format!("{}{}", "a".repeat(91), "é".repeat(10));
    assert!(one_line_accepts(&message));
    let state = ConnectionState::Error { message };
    assert_eq!(
        state.menu_text(),
        format!("Connection: error - {}é...", "a".repeat(91))
    );
}

#[test]
fn unicode_white_space_collapses_like_split_whitespace() {
    for code in 0u32..=0x10FFFF {
        if let Some(c) = char::from_u32(code) {
            let message = format!(" a{c}{c}b{c}");
            let expected = message.split_whitespace().collect::<Vec<_>>().join(" ");
            let state = ConnectionState::Error { message };
            assert_eq!(
                state.menu_text(),
                format!("Connection: error - {expected}"),
                "code point {code:#x}"
            );
        }
    }
}

#[test]
fn lifecycle_events_log_the_menu_text_of_their_state() {
    let events = vec![
        RuntimeEvent::Starting,
        RuntimeEvent::Connecting,
        RuntimeEvent::Connected,
        RuntimeEvent::Reconnecting { delay_seconds: 5 },
        RuntimeEvent::ConnectionError {
            message: "GlazeWM offline".to_string(),
        },
        RuntimeEvent::GlazewmExiting,
        RuntimeEvent::ShutdownRequested,
    ];
    for event in events {
        let mut state = DiagnosticsState::default();
        state.apply_event(&event);
        assert_eq!(event.to_string(), state.connection.menu_text());
        assert_eq!(connection_state_from_event(&event), Some(state.connection));
    }
    assert_eq!(
        RuntimeEvent::ShutdownRequested.to_string(),
        "Connection: shutting down"
    );
}

#[test]
fn other_events_log_their_own_text() {
    assert_eq!(
        RuntimeEvent::IgnoredMessage {
            reason: "bad\n\njson".to_string()
        }
        .to_string(),
        "Ignored IPC message: bad json"
    );
    assert_eq!(
        RuntimeEvent::UiError {
            message: "no folder".to_string()
        }
        .to_string(),
        "UI error: no folder"
    );
    assert_eq!(
        connection_state_from_event(&RuntimeEvent::UiError {
            message: "no folder".to_string()
        }),
        None
    );
}

#[test]
fn applying_an_event_twice_is_applying_it_once() {
    let event = RuntimeEvent::ConnectionError {
        message: "socket closed".to_string(),
    };
    let mut once = DiagnosticsState::default();
    once.apply_event(&event);
    let mut twice = once.clone();
    twice.apply_event(&event);
    assert_eq!(once, twice);
}

#[test]
fn log_lines_start_with_the_timestamp() {
    assert_eq!(
        log_line(1725029869, &RuntimeEvent::Connected),
        "1725029869 Connection: connected"
    );
    assert_eq!(
        log_line(0, &RuntimeEvent::DirectionChanged {
            direction: TilingDirection::Horizontal
        }),
        "0 Tiling: set horizontal direction"
    );
}

#[test]
fn ipc_url_names_the_endpoint() {
    assert_eq!(ipc_url_text(), "IPC: ws://localhost:6123");
}

#[test]
fn log_paths_follow_the_environment() {
    let path = log_file_path(Some("C:\\Users\\me\\AppData".to_string()), Some("/home/me".to_string()));
    assert_eq!(path.root, Some("C:\\Users\\me\\AppData".to_string()));
    assert_eq!(path.components, vec!["GlazeTiler".to_string(), "glazetiler.log".to_string()]);

    let path = log_file_path(None, Some("/Users/me".to_string()));
    assert_eq!(path.root, Some("/Users/me".to_string()));
    assert_eq!(
        path.components,
        vec![
            "Library".to_string(),
            "Application Support".to_string(),
            "GlazeTiler".to_string(),
            "glazetiler.log".to_string()
        ]
    );

    let path = log_file_path(None, None);
    assert_eq!(path.root, None);
    assert_eq!(path.components, vec!["GlazeTiler".to_string(), "glazetiler.log".to_string()]);

    let dir = log_dir(None, Some("/Users/me".to_string()));
    assert_eq!(dir.root, Some("/Users/me".to_string()));
    assert_eq!(
        dir.components,
        vec![
            "Library".to_string(),
            "Application Support".to_string(),
            "GlazeTiler".to_string()
        ]
    );
    assert_eq!(LOG_FILE_PREFIX, "glazetiler.log");
    assert_eq!(LOG_RETENTION_DAYS, 14);
}
