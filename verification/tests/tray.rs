use gat_gwm::diagnostics::{ConnectionState, RuntimeEvent};
use gat_gwm::tiling::TilingDirection;
use gat_gwm::tray::{TrayAction, TrayInput, TrayState};

fn describe(actions: Vec<TrayAction>) -> Vec<String> {
    actions
        .into_iter()
        .map(|action| match action {
            TrayAction::CreateTray => "create".to_string(),
            TrayAction::Render => "render".to_string(),
            TrayAction::StartRuntime => "start".to_string(),
            TrayAction::Log {
                event,
                report_failure,
            } => format!("log {} {report_failure}", event.to_string()),
            TrayAction::OpenLogFolder => "open".to_string(),
            TrayAction::RequestShutdown => "shutdown".to_string(),
            TrayAction::Exit => "exit".to_string(),
        })
        .collect()
}

#[test]
fn startup_creates_the_tray_then_starts_the_runtime_once() {
    let mut state = TrayState::new();
    assert_eq!(describe(state.step(TrayInput::Started)), vec!["create"]);
    assert_eq!(
        describe(state.step(TrayInput::TrayCreated)),
        vec!["render", "start"]
    );
    assert!(state.tray_shown && state.runtime_started);
    assert!(describe(state.step(TrayInput::Started)).is_empty());
    assert_eq!(describe(state.step(TrayInput::TrayCreated)), vec!["render"]);
}

#[test]
fn a_tray_that_cannot_be_created_ends_the_application() {
    let mut state = TrayState::new();
    state.step(TrayInput::Started);
    assert_eq!(describe(state.step(TrayInput::TrayFailed)), vec!["exit"]);
    assert!(!state.runtime_started);
}

#[test]
fn runtime_events_are_logged_recorded_and_shown() {
    let mut state = TrayState::new();
    state.step(TrayInput::Started);
    state.step(TrayInput::TrayCreated);
    let actions = state.step(TrayInput::Runtime {
        event: RuntimeEvent::DirectionChanged {
            direction: TilingDirection::Vertical,
        },
    });
    assert_eq!(
        describe(actions),
        vec!["log Tiling: set vertical direction true", "render"]
    );
    assert_eq!(
        state.diagnostics.last_direction,
        Some(TilingDirection::Vertical)
    );
    let actions = state.step(TrayInput::Runtime {
        event: RuntimeEvent::GlazewmExiting,
    });
    assert_eq!(
        describe(actions),
        vec!["log Connection: GlazeWM exiting true", "render", "exit"]
    );
    assert_eq!(state.diagnostics.connection, ConnectionState::GlazewmExiting);
}

#[test]
fn menu_items_open_the_log_folder_and_quit() {
    let mut state = TrayState::new();
    assert!(describe(state.step(TrayInput::QuitChosen)).is_empty());
    state.step(TrayInput::Started);
    state.step(TrayInput::TrayCreated);
    assert_eq!(describe(state.step(TrayInput::LogFolderChosen)), vec!["open"]);
    let actions = state.step(TrayInput::LogFolderFailed {
        error: "no file manager".to_string(),
    });
    assert_eq!(
        describe(actions),
        vec![
            "log UI error: Failed to open log folder: no file manager false",
            "render"
        ]
    );
    assert_eq!(
        state.diagnostics.last_error,
        Some("Failed to open log folder: no file manager".to_string())
    );
    let actions = state.step(TrayInput::QuitChosen);
    assert_eq!(
        describe(actions),
        vec![
            "shutdown",
            "log Connection: shutting down false",
            "render",
            "exit"
        ]
    );
    assert_eq!(state.diagnostics.connection, ConnectionState::ShuttingDown);
}
