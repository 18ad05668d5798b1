//! The decisions of the tray application: what it does when it starts, when
//! the runtime reports an event, and when a menu item is chosen.
use vstd::prelude::*;

use crate::diagnostics::{applied, DiagnosticsState, RuntimeEvent, RuntimeEventView};

verus! {

/// What the tray application knows.
pub struct TrayState {
    pub diagnostics: DiagnosticsState,
    /// Whether the tray icon and its menu exist.
    pub tray_shown: bool,
    /// Whether the runtime thread has been started.
    pub runtime_started: bool,
}

/// What happens to the tray application.
pub enum TrayInput {
    /// The window system's event loop started.
    Started,
    /// The tray icon and menu were created.
    TrayCreated,
    /// Creating the tray icon or menu failed.
    TrayFailed,
    /// The runtime reported an event.
    Runtime { event: RuntimeEvent },
    /// The menu item of the log folder was chosen.
    LogFolderChosen,
    /// Opening the log folder failed with this error text.
    LogFolderFailed { error: String },
    /// The quit menu item was chosen.
    QuitChosen,
}

/// What the tray application does, in order.
pub enum TrayAction {
    /// Create the tray icon and its menu.
    CreateTray,
    /// Show the diagnostics in the tray.
    Render,
    /// Start the runtime thread.
    StartRuntime,
    /// Append the event to the diagnostics log; report a failure to write it
    /// when `report_failure` holds.
    Log { event: RuntimeEvent, report_failure: bool },
    /// Open the log folder in the file manager.
    OpenLogFolder,
    /// Ask the runtime to shut down.
    RequestShutdown,
    /// Leave the event loop.
    Exit,
}

/// A [`TrayAction`] with its event taken by its view.
pub enum TrayActionView {
    CreateTray,
    Render,
    StartRuntime,
    Log { event: RuntimeEventView, report_failure: bool },
    OpenLogFolder,
    RequestShutdown,
    Exit,
}

impl View for TrayAction {
    type V = TrayActionView;

    open spec fn view(&self) -> TrayActionView {
        match self {
            TrayAction::CreateTray => TrayActionView::CreateTray,
            TrayAction::Render => TrayActionView::Render,
            TrayAction::StartRuntime => TrayActionView::StartRuntime,
            TrayAction::Log { event, report_failure } => TrayActionView::Log {
                event: event@,
                report_failure: *report_failure,
            },
            TrayAction::OpenLogFolder => TrayActionView::OpenLogFolder,
            TrayAction::RequestShutdown => TrayActionView::RequestShutdown,
            TrayAction::Exit => TrayActionView::Exit,
        }
    }
}

/// A list of actions taken by their views.
pub open spec fn actions_view(actions: Seq<TrayAction>) -> Seq<TrayActionView> {
    actions.map_values(|action: TrayAction| action@)
}

/// The events after which the application ends.
pub open spec fn ends_application(event: RuntimeEvent) -> bool {
    event is GlazewmExiting || event is ShutdownRequested
}

/// The text of the error recorded when the log folder cannot be opened.
pub open spec fn log_folder_error(error: Seq<char>) -> Seq<char> {
    "Failed to open log folder: "@ + error
}

/// What the tray application does for an input: runtime events are logged
/// (reporting a failure to log them), recorded and shown, and the exit notice
/// and a shutdown end the application. Menu items only work once the tray
/// exists: the log folder is opened, and a failure to open it is logged and
/// shown as a UI error; quitting asks the runtime to shut down, logs and shows
/// the shutdown and ends the application.
pub open spec fn tray_actions(state: TrayState, input: TrayInput) -> Seq<TrayActionView> {
    match input {
        TrayInput::Started => if state.tray_shown {
            seq![]
        } else {
            seq![TrayActionView::CreateTray]
        },
        TrayInput::TrayCreated => if state.runtime_started {
            seq![TrayActionView::Render]
        } else {
            seq![TrayActionView::Render, TrayActionView::StartRuntime]
        },
        TrayInput::TrayFailed => seq![TrayActionView::Exit],
        TrayInput::Runtime { event } => seq![
            TrayActionView::Log { event: event@, report_failure: true },
        ] + (if state.tray_shown {
            seq![TrayActionView::Render]
        } else {
            seq![]
        }) + (if ends_application(event) {
            seq![TrayActionView::Exit]
        } else {
            seq![]
        }),
        TrayInput::LogFolderChosen => if state.tray_shown {
            seq![TrayActionView::OpenLogFolder]
        } else {
            seq![]
        },
        TrayInput::LogFolderFailed { error } => seq![
            TrayActionView::Log {
                event: RuntimeEventView::UiError { message: log_folder_error(error@) },
                report_failure: false,
            },
            TrayActionView::Render,
        ],
        TrayInput::QuitChosen => if state.tray_shown {
            seq![
                TrayActionView::RequestShutdown,
                TrayActionView::Log {
                    event: RuntimeEventView::ShutdownRequested,
                    report_failure: false,
                },
                TrayActionView::Render,
                TrayActionView::Exit,
            ]
        } else {
            seq![]
        },
    }
}

/// What the tray application knows after an input: the tray exists once it
/// was created, and so has the runtime been started; every event it logs is
/// also recorded in the diagnostics, and nothing else changes them.
pub open spec fn tray_state_after(before: TrayState, input: TrayInput, after: TrayState) -> bool {
    &&& after.tray_shown == (before.tray_shown || input is TrayCreated)
    &&& after.runtime_started == (before.runtime_started || input is TrayCreated)
    &&& match input {
        TrayInput::Runtime { event } => after.diagnostics == applied(before.diagnostics, event),
        TrayInput::LogFolderFailed { error } => {
            &&& after.diagnostics.connection == before.diagnostics.connection
            &&& after.diagnostics.last_direction == before.diagnostics.last_direction
            &&& after.diagnostics.last_ignored_message == before.diagnostics.last_ignored_message
            &&& after.diagnostics.last_error matches Some(message)
            &&& message@ == log_folder_error(error@)
        },
        TrayInput::QuitChosen => after.diagnostics == if before.tray_shown {
            applied(before.diagnostics, RuntimeEvent::ShutdownRequested)
        } else {
            before.diagnostics
        },
        _ => after.diagnostics == before.diagnostics,
    }
}

impl TrayState {
    /// The application before anything happened.
    pub fn new() -> (state: Self)
        ensures
            state.diagnostics == crate::diagnostics::initial_diagnostics(),
            !state.tray_shown,
            !state.runtime_started,
    {
        TrayState {
            diagnostics: DiagnosticsState::default(),
            tray_shown: false,
            runtime_started: false,
        }
    }

    /// Takes what happened; returns what to do, in order.
    pub fn step(&mut self, input: TrayInput) -> (actions: Vec<TrayAction>)
        ensures
            actions_view(actions@) == tray_actions(*old(self), input),
            tray_state_after(*old(self), input, *final(self)),
    {
        let ghost before = *self;
        let ghost expected = tray_actions(*self, input);
        let mut actions: Vec<TrayAction> = Vec::new();
        match input {
            TrayInput::Started => {
                if !self.tray_shown {
                    actions.push(TrayAction::CreateTray);
                }
            },
            TrayInput::TrayCreated => {
                self.tray_shown = true;
                actions.push(TrayAction::Render);
                if !self.runtime_started {
                    self.runtime_started = true;
                    actions.push(TrayAction::StartRuntime);
                }
            },
            TrayInput::TrayFailed => {
                actions.push(TrayAction::Exit);
            },
            TrayInput::Runtime { event } => {
                self.diagnostics.apply_event(&event);
                let ends = match event {
                    RuntimeEvent::GlazewmExiting => true,
                    RuntimeEvent::ShutdownRequested => true,
                    _ => false,
                };
                actions.push(TrayAction::Log { event, report_failure: true });
                if self.tray_shown {
                    actions.push(TrayAction::Render);
                }
                if ends {
                    actions.push(TrayAction::Exit);
                }
            },
            TrayInput::LogFolderChosen => {
                if self.tray_shown {
                    actions.push(TrayAction::OpenLogFolder);
                }
            },
            TrayInput::LogFolderFailed { error } => {
                let mut message = String::from_str("Failed to open log folder: ");
                message.append(error.as_str());
                self.diagnostics.last_error = Some(message.clone());
                actions.push(
                    TrayAction::Log { event: RuntimeEvent::UiError { message }, report_failure: false },
                );
                actions.push(TrayAction::Render);
            },
            TrayInput::QuitChosen => {
                if self.tray_shown {
                    self.diagnostics.apply_event(&RuntimeEvent::ShutdownRequested);
                    actions.push(TrayAction::RequestShutdown);
                    actions.push(
                        TrayAction::Log { event: RuntimeEvent::ShutdownRequested, report_failure: false },
                    );
                    actions.push(TrayAction::Render);
                    actions.push(TrayAction::Exit);
                }
            },
        }
        assert(actions_view(actions@) =~= expected);
        actions
    }
}

/// The runtime is started once: when the tray has just been created and the
/// runtime has not been started before.
pub proof fn lemma_runtime_starts_once(state: TrayState, input: TrayInput)
    ensures
        tray_actions(state, input).contains(TrayActionView::StartRuntime) <==> (input is TrayCreated
            && !state.runtime_started),
{
    let actions = tray_actions(state, input);
    if input is TrayCreated && !state.runtime_started {
        assert(actions[1] == TrayActionView::StartRuntime);
    }
    if actions.contains(TrayActionView::StartRuntime) {
        let k = choose|k: int| 0 <= k < actions.len() && actions[k] == TrayActionView::StartRuntime;
        assert(actions[k] == TrayActionView::StartRuntime);
    }
}

/// The application ends exactly when the tray cannot be created, when GlazeWM
/// exits or the runtime shuts down, or when quit is chosen from the tray.
pub proof fn lemma_exit_conditions(state: TrayState, input: TrayInput)
    ensures
        tray_actions(state, input).contains(TrayActionView::Exit) <==> ({
            ||| input is TrayFailed
            ||| input matches TrayInput::Runtime { event } && ends_application(event)
            ||| input is QuitChosen && state.tray_shown
        }),
{
    let actions = tray_actions(state, input);
    if actions.contains(TrayActionView::Exit) {
        let k = choose|k: int| 0 <= k < actions.len() && actions[k] == TrayActionView::Exit;
        assert(actions[k] == TrayActionView::Exit);
    }
    match input {
        TrayInput::TrayFailed => {
            assert(actions[0] == TrayActionView::Exit);
        },
        TrayInput::Runtime { event } => {
            if ends_application(event) {
                assert(actions[actions.len() - 1] == TrayActionView::Exit);
            }
        },
        TrayInput::QuitChosen => {
            if state.tray_shown {
                assert(actions[3] == TrayActionView::Exit);
            }
        },
        _ => {},
    }
}

/// Every runtime event is logged, with a failure to log it reported; while the
/// tray exists the diagnostics are then shown again, whatever the event; and
/// the application ends after the event exactly when GlazeWM exits or a
/// shutdown was requested.
pub proof fn lemma_runtime_events_are_logged_and_shown(state: TrayState, event: RuntimeEvent)
    ensures
        tray_actions(state, TrayInput::Runtime { event }) == (if state.tray_shown {
            seq![
                TrayActionView::Log { event: event@, report_failure: true },
                TrayActionView::Render,
            ]
        } else {
            seq![TrayActionView::Log { event: event@, report_failure: true }]
        }) + (if event is GlazewmExiting || event is ShutdownRequested {
            seq![TrayActionView::Exit]
        } else {
            Seq::<TrayActionView>::empty()
        }),
        tray_actions(state, TrayInput::Runtime { event }).contains(TrayActionView::Render)
            <==> state.tray_shown,
{
    let actions = tray_actions(state, TrayInput::Runtime { event });
    if state.tray_shown {
        assert(actions[1] == TrayActionView::Render);
    }
    if actions.contains(TrayActionView::Render) {
        let k = choose|k: int| 0 <= k < actions.len() && actions[k] == TrayActionView::Render;
        assert(actions[k] == TrayActionView::Render);
    }
}

} // verus!
