//! What the tray shows and the log records about the runtime.
use vstd::prelude::*;

use crate::text::{
    decimal_text, is_one_line, lemma_decimal_is_one_line, lemma_one_line_concat,
    lemma_one_line_is_one_line, one_line, one_line_accepts, one_line_defined, one_line_text,
    push_decimal,
};
use crate::tiling::{direction_name, TilingDirection};
use crate::GLAZEWM_WS_URL;

verus! {

/// Something that happened in the runtime, reported to the tray and the log.
#[derive(Debug, Clone, PartialEq, Eq)]
pub enum RuntimeEvent {
    Starting,
    Connecting,
    Connected,
    Reconnecting { delay_seconds: u64 },
    DirectionChanged { direction: TilingDirection },
    IgnoredMessage { reason: String },
    ConnectionError { message: String },
    UiError { message: String },
    GlazewmExiting,
    ShutdownRequested,
}

/// A [`RuntimeEvent`] with its strings taken as character sequences.
pub enum RuntimeEventView {
    Starting,
    Connecting,
    Connected,
    Reconnecting { delay_seconds: u64 },
    DirectionChanged { direction: TilingDirection },
    IgnoredMessage { reason: Seq<char> },
    ConnectionError { message: Seq<char> },
    UiError { message: Seq<char> },
    GlazewmExiting,
    ShutdownRequested,
}

impl View for RuntimeEvent {
    type V = RuntimeEventView;

    open spec fn view(&self) -> RuntimeEventView {
        match self {
            RuntimeEvent::Starting => RuntimeEventView::Starting,
            RuntimeEvent::Connecting => RuntimeEventView::Connecting,
            RuntimeEvent::Connected => RuntimeEventView::Connected,
            RuntimeEvent::Reconnecting { delay_seconds } => RuntimeEventView::Reconnecting {
                delay_seconds: *delay_seconds,
            },
            RuntimeEvent::DirectionChanged { direction } => RuntimeEventView::DirectionChanged {
                direction: *direction,
            },
            RuntimeEvent::IgnoredMessage { reason } => RuntimeEventView::IgnoredMessage {
                reason: reason@,
            },
            RuntimeEvent::ConnectionError { message } => RuntimeEventView::ConnectionError {
                message: message@,
            },
            RuntimeEvent::UiError { message } => RuntimeEventView::UiError { message: message@ },
            RuntimeEvent::GlazewmExiting => RuntimeEventView::GlazewmExiting,
            RuntimeEvent::ShutdownRequested => RuntimeEventView::ShutdownRequested,
        }
    }
}

/// A list of events taken by their views.
pub open spec fn events_view(events: Seq<RuntimeEvent>) -> Seq<RuntimeEventView> {
    events.map_values(|event: RuntimeEvent| event@)
}

/// The state of the connection to GlazeWM, as the tray shows it.
#[derive(Debug, Clone, PartialEq, Eq)]
pub enum ConnectionState {
    Starting,
    Connecting,
    Connected,
    Reconnecting { delay_seconds: u64 },
    Error { message: String },
    GlazewmExiting,
    ShuttingDown,
}

/// Everything the tray shows: the connection and the latest of each kind of
/// report.
#[derive(Debug, Clone, PartialEq, Eq)]
pub struct DiagnosticsState {
    pub connection: ConnectionState,
    pub last_direction: Option<TilingDirection>,
    pub last_ignored_message: Option<String>,
    pub last_error: Option<String>,
}

/// The fixed start of every menu text.
pub open spec fn menu_prefix() -> Seq<char> {
    "Connection: "@
}

/// The part of the menu text after [`menu_prefix`].
pub open spec fn status_text(state: ConnectionState) -> Seq<char> {
    match state {
        ConnectionState::Starting => "starting"@,
        ConnectionState::Connecting => "connecting to GlazeWM IPC"@,
        ConnectionState::Connected => "connected"@,
        ConnectionState::Reconnecting { delay_seconds } => "reconnecting in "@ + decimal_text(
            delay_seconds as nat,
        ) + "s"@,
        ConnectionState::Error { message } => "error - "@ + one_line_text(message@),
        ConnectionState::GlazewmExiting => "GlazeWM exiting"@,
        ConnectionState::ShuttingDown => "shutting down"@,
    }
}

/// The connection line of the tray menu.
pub open spec fn menu_text_of(state: ConnectionState) -> Seq<char> {
    menu_prefix() + status_text(state)
}

/// The tray tooltip: `GAT-GWM - ` followed by the menu text with its
/// `Connection: ` removed (the first occurrence, which is where every menu text
/// starts).
pub open spec fn tooltip_text_of(state: ConnectionState) -> Seq<char> {
    "GAT-GWM - "@ + menu_text_of(state).skip(menu_prefix().len() as int)
}

/// The states whose text can be made: an error message must single-space into
/// something whose cut falls on a character boundary.
pub open spec fn state_renders(state: ConnectionState) -> bool {
    match state {
        ConnectionState::Error { message } => one_line_defined(message@),
        _ => true,
    }
}

/// The connection state that a lifecycle event stands for; none for the
/// other events.
pub open spec fn event_connection(event: RuntimeEvent) -> Option<ConnectionState> {
    match event {
        RuntimeEvent::Starting => Some(ConnectionState::Starting),
        RuntimeEvent::Connecting => Some(ConnectionState::Connecting),
        RuntimeEvent::Connected => Some(ConnectionState::Connected),
        RuntimeEvent::Reconnecting { delay_seconds } => Some(
            ConnectionState::Reconnecting { delay_seconds },
        ),
        RuntimeEvent::ConnectionError { message } => Some(ConnectionState::Error { message }),
        RuntimeEvent::GlazewmExiting => Some(ConnectionState::GlazewmExiting),
        RuntimeEvent::ShutdownRequested => Some(ConnectionState::ShuttingDown),
        RuntimeEvent::DirectionChanged { .. } => None,
        RuntimeEvent::IgnoredMessage { .. } => None,
        RuntimeEvent::UiError { .. } => None,
    }
}

/// The log text of an event: the menu text of its connection state for
/// lifecycle events, a short description for the others.
pub open spec fn event_text(event: RuntimeEvent) -> Seq<char> {
    match event {
        RuntimeEvent::DirectionChanged { direction } => "Tiling: set "@ + direction_name(direction)
            + " direction"@,
        RuntimeEvent::IgnoredMessage { reason } => "Ignored IPC message: "@ + one_line_text(
            reason@,
        ),
        RuntimeEvent::UiError { message } => "UI error: "@ + one_line_text(message@),
        _ => menu_text_of(event_connection(event).unwrap()),
    }
}

/// The events whose text can be made.
pub open spec fn event_renders(event: RuntimeEvent) -> bool {
    match event {
        RuntimeEvent::IgnoredMessage { reason } => one_line_defined(reason@),
        RuntimeEvent::UiError { message } => one_line_defined(message@),
        RuntimeEvent::ConnectionError { message } => one_line_defined(message@),
        _ => true,
    }
}

/// The tray state after an event.
pub open spec fn applied(state: DiagnosticsState, event: RuntimeEvent) -> DiagnosticsState {
    match event {
        RuntimeEvent::ConnectionError { message } => DiagnosticsState {
            connection: ConnectionState::Error { message },
            last_error: Some(message),
            ..state
        },
        RuntimeEvent::UiError { message } => DiagnosticsState { last_error: Some(message), ..state },
        RuntimeEvent::DirectionChanged { direction } => DiagnosticsState {
            last_direction: Some(direction),
            ..state
        },
        RuntimeEvent::IgnoredMessage { reason } => DiagnosticsState {
            last_ignored_message: Some(reason),
            ..state
        },
        _ => DiagnosticsState { connection: event_connection(event).unwrap(), ..state },
    }
}

/// The tray state before any event.
pub open spec fn initial_diagnostics() -> DiagnosticsState {
    DiagnosticsState {
        connection: ConnectionState::Starting,
        last_direction: None,
        last_ignored_message: None,
        last_error: None,
    }
}

impl ConnectionState {
    /// Whether [`ConnectionState::menu_text`] and
    /// [`ConnectionState::tooltip_text`] accept this state.
    pub fn renders(&self) -> (ok: bool)
        ensures
            ok == state_renders(*self),
    {
        match self {
            ConnectionState::Error { message } => one_line_accepts(message.as_str()),
            _ => true,
        }
    }

    fn status_text(&self) -> (text: String)
        requires
            state_renders(*self),
        ensures
            text@ == status_text(*self),
    {
        match self {
            ConnectionState::Starting => String::from_str("starting"),
            ConnectionState::Connecting => String::from_str("connecting to GlazeWM IPC"),
            ConnectionState::Connected => String::from_str("connected"),
            ConnectionState::Reconnecting { delay_seconds } => {
                let mut text = String::from_str("reconnecting in ");
                push_decimal(&mut text, *delay_seconds);
                text.append("s");
                text
            },
            ConnectionState::Error { message } => {
                let mut text = String::from_str("error - ");
                let line = one_line(message.as_str());
                text.append(line.as_str());
                text
            },
            ConnectionState::GlazewmExiting => String::from_str("GlazeWM exiting"),
            ConnectionState::ShuttingDown => String::from_str("shutting down"),
        }
    }

    /// The connection line of the tray menu.
    pub fn menu_text(&self) -> (text: String)
        requires
            state_renders(*self),
        ensures
            text@ == menu_text_of(*self),
    {
        let mut text = String::from_str("Connection: ");
        let status = self.status_text();
        text.append(status.as_str());
        text
    }

    /// The tray tooltip.
    pub fn tooltip_text(&self) -> (text: String)
        requires
            state_renders(*self),
        ensures
            text@ == tooltip_text_of(*self),
    {
        let mut text = String::from_str("GAT-GWM - ");
        let status = self.status_text();
        text.append(status.as_str());
        assert(menu_text_of(*self).skip(menu_prefix().len() as int) =~= status_text(*self));
        text
    }
}

impl Default for DiagnosticsState {
    /// Starting, with nothing reported yet.
    fn default() -> (state: Self)
        ensures
            state == initial_diagnostics(),
    {
        DiagnosticsState {
            connection: ConnectionState::Starting,
            last_direction: None,
            last_ignored_message: None,
            last_error: None,
        }
    }
}

impl DiagnosticsState {
    /// Records an event: lifecycle events set the connection state, a
    /// connection error is also kept as the last error, and the other events
    /// each update only their own field.
    pub fn apply_event(&mut self, event: &RuntimeEvent)
        ensures
            *final(self) == applied(*old(self), *event),
    {
        match event {
            RuntimeEvent::Starting => self.connection = ConnectionState::Starting,
            RuntimeEvent::Connecting => self.connection = ConnectionState::Connecting,
            RuntimeEvent::Connected => self.connection = ConnectionState::Connected,
            RuntimeEvent::Reconnecting { delay_seconds } => {
                self.connection = ConnectionState::Reconnecting { delay_seconds: *delay_seconds };
            },
            RuntimeEvent::ConnectionError { message } => {
                self.connection = ConnectionState::Error { message: message.clone() };
                self.last_error = Some(message.clone());
            },
            RuntimeEvent::UiError { message } => {
                self.last_error = Some(message.clone());
            },
            RuntimeEvent::GlazewmExiting => self.connection = ConnectionState::GlazewmExiting,
            RuntimeEvent::ShutdownRequested => self.connection = ConnectionState::ShuttingDown,
            RuntimeEvent::DirectionChanged { direction } => {
                self.last_direction = Some(*direction);
            },
            RuntimeEvent::IgnoredMessage { reason } => {
                self.last_ignored_message = Some(reason.clone());
            },
        }
    }
}

/// The connection state that a lifecycle event stands for; none for the
/// other events.
pub fn connection_state_from_event(event: &RuntimeEvent) -> (state: Option<ConnectionState>)
    ensures
        state == event_connection(*event),
{
    match event {
        RuntimeEvent::Starting => Some(ConnectionState::Starting),
        RuntimeEvent::Connecting => Some(ConnectionState::Connecting),
        RuntimeEvent::Connected => Some(ConnectionState::Connected),
        RuntimeEvent::Reconnecting { delay_seconds } => Some(
            ConnectionState::Reconnecting { delay_seconds: *delay_seconds },
        ),
        RuntimeEvent::ConnectionError { message } => Some(
            ConnectionState::Error { message: message.clone() },
        ),
        RuntimeEvent::GlazewmExiting => Some(ConnectionState::GlazewmExiting),
        RuntimeEvent::ShutdownRequested => Some(ConnectionState::ShuttingDown),
        RuntimeEvent::DirectionChanged { .. } => None,
        RuntimeEvent::IgnoredMessage { .. } => None,
        RuntimeEvent::UiError { .. } => None,
    }
}

impl RuntimeEvent {
    /// Whether [`RuntimeEvent::to_string`] accepts this event.
    pub fn renders(&self) -> (ok: bool)
        ensures
            ok == event_renders(*self),
    {
        match self {
            RuntimeEvent::IgnoredMessage { reason } => one_line_accepts(reason.as_str()),
            RuntimeEvent::UiError { message } => one_line_accepts(message.as_str()),
            RuntimeEvent::ConnectionError { message } => one_line_accepts(message.as_str()),
            _ => true,
        }
    }

    /// The text with which the event is logged.
    pub fn to_string(&self) -> (text: String)
        requires
            event_renders(*self),
        ensures
            text@ == event_text(*self),
    {
        match self {
            RuntimeEvent::DirectionChanged { direction } => {
                let mut text = String::from_str("Tiling: set ");
                text.append(direction.as_str());
                text.append(" direction");
                text
            },
            RuntimeEvent::IgnoredMessage { reason } => {
                let mut text = String::from_str("Ignored IPC message: ");
                let line = one_line(reason.as_str());
                text.append(line.as_str());
                text
            },
            RuntimeEvent::UiError { message } => {
                let mut text = String::from_str("UI error: ");
                let line = one_line(message.as_str());
                text.append(line.as_str());
                text
            },
            _ => {
                let state = connection_state_from_event(self);
                match state {
                    Some(state) => state.menu_text(),
                    None => String::new(),
                }
            },
        }
    }
}

/// The diagnostics line that names the IPC endpoint.
pub fn ipc_url_text() -> (text: String)
    ensures
        text@ == "IPC: "@ + GLAZEWM_WS_URL@,
{
    let mut text = String::from_str("IPC: ");
    text.append(GLAZEWM_WS_URL);
    text
}

/// A line of the diagnostics log: the time in seconds since the Unix epoch, a
/// space, and the event's text.
pub fn log_line(timestamp_seconds: u64, event: &RuntimeEvent) -> (line: String)
    requires
        event_renders(*event),
    ensures
        line@ == decimal_text(timestamp_seconds as nat) + " "@ + event_text(*event),
{
    let mut line = String::new();
    push_decimal(&mut line, timestamp_seconds);
    line.append(" ");
    let text = event.to_string();
    line.append(text.as_str());
    assert(line@ =~= decimal_text(timestamp_seconds as nat) + " "@ + event_text(*event));
    line
}

/// A location on disk: a root directory and the components joined under it in
/// order. A root of `None` stands for the system's temporary directory.
pub struct DataPath {
    pub root: Option<String>,
    pub components: Vec<String>,
}

/// A [`DataPath`] with its strings taken as character sequences.
pub open spec fn data_path_view(path: DataPath) -> (Option<Seq<char>>, Seq<Seq<char>>) {
    (
        match path.root {
            Some(root) => Some(root@),
            None => None,
        },
        path.components@.map_values(|component: String| component@),
    )
}

/// The application data directory named `app`: under `APPDATA` when that is
/// set, else under `HOME`'s `Library/Application Support`, else under the
/// temporary directory.
pub open spec fn app_data_path(
    appdata: Option<Seq<char>>,
    home: Option<Seq<char>>,
    app: Seq<char>,
) -> (Option<Seq<char>>, Seq<Seq<char>>) {
    match appdata {
        Some(dir) => (Some(dir), seq![app]),
        None => match home {
            Some(dir) => (Some(dir), seq!["Library"@, "Application Support"@, app]),
            None => (None, seq![app]),
        },
    }
}

fn app_data_dir(appdata: Option<String>, home: Option<String>, app: &str) -> (path: DataPath)
    ensures
        data_path_view(path) == app_data_path(
            match appdata {
                Some(dir) => Some(dir@),
                None => None,
            },
            match home {
                Some(dir) => Some(dir@),
                None => None,
            },
            app@,
        ),
{
    let mut components: Vec<String> = Vec::new();
    let root = match appdata {
        Some(dir) => Some(dir),
        None => match home {
            Some(dir) => {
                components.push(String::from_str("Library"));
                components.push(String::from_str("Application Support"));
                Some(dir)
            },
            None => None,
        },
    };
    components.push(String::from_str(app));
    let path = DataPath { root, components };
    assert(data_path_view(path).1 =~= app_data_path(
        match appdata {
            Some(dir) => Some(dir@),
            None => None,
        },
        match home {
            Some(dir) => Some(dir@),
            None => None,
        },
        app@,
    ).1);
    path
}

/// The prefix of the daily rolling log files: each day's file is this name
/// followed by `.` and the date (`YYYY-MM-DD`).
pub const LOG_FILE_PREFIX: &'static str = "glazetiler.log";

/// How many daily rolling log files are kept.
pub const LOG_RETENTION_DAYS: usize = 14;

/// The directory of the logs, `GlazeTiler` in the application data directory,
/// given the values of the `APPDATA` and `HOME` environment variables.
pub fn log_dir(appdata: Option<String>, home: Option<String>) -> (path: DataPath)
    ensures
        data_path_view(path) == app_data_path(
            match appdata {
                Some(dir) => Some(dir@),
                None => None,
            },
            match home {
                Some(dir) => Some(dir@),
                None => None,
            },
            "GlazeTiler"@,
        ),
{
    app_data_dir(appdata, home, "GlazeTiler")
}

/// Where the diagnostics log is written: [`LOG_FILE_PREFIX`] in the log
/// directory; the daily files add `.YYYY-MM-DD` to it.
pub fn log_file_path(appdata: Option<String>, home: Option<String>) -> (path: DataPath)
    ensures
        data_path_view(path) == ({
            let dir = app_data_path(
                match appdata {
                    Some(dir) => Some(dir@),
                    None => None,
                },
                match home {
                    Some(dir) => Some(dir@),
                    None => None,
                },
                "GlazeTiler"@,
            );
            (dir.0, dir.1.push(LOG_FILE_PREFIX@))
        }),
{
    let mut path = log_dir(appdata, home);
    let ghost before = path.components@;
    path.components.push(String::from_str(LOG_FILE_PREFIX));
    assert(path.components@.map_values(|component: String| component@) =~= before.map_values(
        |component: String| component@,
    ).push(LOG_FILE_PREFIX@));
    path
}

/// Every menu text starts with `Connection: `, and the tooltip is `GAT-GWM - `
/// followed by the rest of the menu text.
pub proof fn lemma_tooltip_follows_menu_text(state: ConnectionState)
    ensures
        menu_text_of(state).take(menu_prefix().len() as int) == menu_prefix(),
        tooltip_text_of(state) == "GAT-GWM - "@ + status_text(state),
{
    assert(menu_text_of(state).take(menu_prefix().len() as int) =~= menu_prefix());
    assert(menu_text_of(state).skip(menu_prefix().len() as int) =~= status_text(state));
}

/// A lifecycle event is logged with the menu text of the connection state that
/// it leads the tray to.
pub proof fn lemma_lifecycle_log_matches_menu(state: DiagnosticsState, event: RuntimeEvent)
    requires
        event_connection(event) is Some,
    ensures
        event_text(event) == menu_text_of(applied(state, event).connection),
{
}

/// Only lifecycle events change the connection state, and each event changes
/// only its own field: the direction, the ignored message, or the last error
/// (which a connection error sets too).
pub proof fn lemma_events_touch_their_own_fields(state: DiagnosticsState, event: RuntimeEvent)
    ensures
        applied(state, event).connection == match event_connection(event) {
            Some(connection) => connection,
            None => state.connection,
        },
        applied(state, event).last_direction == match event {
            RuntimeEvent::DirectionChanged { direction } => Some(direction),
            _ => state.last_direction,
        },
        applied(state, event).last_ignored_message == match event {
            RuntimeEvent::IgnoredMessage { reason } => Some(reason),
            _ => state.last_ignored_message,
        },
        applied(state, event).last_error == match event {
            RuntimeEvent::ConnectionError { message } => Some(message),
            RuntimeEvent::UiError { message } => Some(message),
            _ => state.last_error,
        },
{
}

/// Recording the same event twice leaves the tray as recording it once.
pub proof fn lemma_apply_event_idempotent(state: DiagnosticsState, event: RuntimeEvent)
    ensures
        applied(applied(state, event), event) == applied(state, event),
{
}

/// The status part of the tray text is one line.
proof fn lemma_status_is_one_line(state: ConnectionState)
    requires
        state_renders(state),
    ensures
        is_one_line(status_text(state)),
{
    reveal_strlit("starting");
    reveal_strlit("connecting to GlazeWM IPC");
    reveal_strlit("connected");
    reveal_strlit("reconnecting in ");
    reveal_strlit("s");
    reveal_strlit("error - ");
    reveal_strlit("GlazeWM exiting");
    reveal_strlit("shutting down");
    assert(is_one_line("starting"@));
    assert(is_one_line("connecting to GlazeWM IPC"@));
    assert(is_one_line("connected"@));
    assert(is_one_line("reconnecting in "@));
    assert(is_one_line("s"@));
    assert(is_one_line("error - "@));
    assert(is_one_line("GlazeWM exiting"@));
    assert(is_one_line("shutting down"@));
    match state {
        ConnectionState::Reconnecting { delay_seconds } => {
            lemma_decimal_is_one_line(delay_seconds as nat);
            lemma_one_line_concat("reconnecting in "@, decimal_text(delay_seconds as nat));
            lemma_one_line_concat("reconnecting in "@ + decimal_text(delay_seconds as nat), "s"@);
        },
        ConnectionState::Error { message } => {
            lemma_one_line_is_one_line(message@);
            lemma_one_line_concat("error - "@, one_line_text(message@));
        },
        _ => {},
    }
}

/// The tray's connection line and tooltip are each one line.
pub proof fn lemma_tray_text_is_one_line(state: ConnectionState)
    requires
        state_renders(state),
    ensures
        is_one_line(menu_text_of(state)),
        is_one_line(tooltip_text_of(state)),
{
    reveal_strlit("Connection: ");
    reveal_strlit("GAT-GWM - ");
    assert(is_one_line("Connection: "@));
    assert(is_one_line("GAT-GWM - "@));
    lemma_status_is_one_line(state);
    lemma_one_line_concat(menu_prefix(), status_text(state));
    lemma_tooltip_follows_menu_text(state);
    lemma_one_line_concat("GAT-GWM - "@, status_text(state));
}

/// Every event is logged on one line: free text is put on one line, and the
/// fixed parts hold no line breaks.
pub proof fn lemma_log_line_is_one_line(timestamp_seconds: u64, event: RuntimeEvent)
    requires
        event_renders(event),
    ensures
        is_one_line(event_text(event)),
        is_one_line(decimal_text(timestamp_seconds as nat) + " "@ + event_text(event)),
{
    reveal_strlit("Tiling: set ");
    reveal_strlit(" direction");
    reveal_strlit("horizontal");
    reveal_strlit("vertical");
    reveal_strlit("Ignored IPC message: ");
    reveal_strlit("UI error: ");
    reveal_strlit(" ");
    assert(is_one_line("Tiling: set "@));
    assert(is_one_line(" direction"@));
    assert(is_one_line("horizontal"@));
    assert(is_one_line("vertical"@));
    assert(is_one_line("Ignored IPC message: "@));
    assert(is_one_line("UI error: "@));
    assert(is_one_line(" "@));
    match event {
        RuntimeEvent::DirectionChanged { direction } => {
            lemma_one_line_concat("Tiling: set "@, direction_name(direction));
            lemma_one_line_concat("Tiling: set "@ + direction_name(direction), " direction"@);
        },
        RuntimeEvent::IgnoredMessage { reason } => {
            lemma_one_line_is_one_line(reason@);
            lemma_one_line_concat("Ignored IPC message: "@, one_line_text(reason@));
        },
        RuntimeEvent::UiError { message } => {
            lemma_one_line_is_one_line(message@);
            lemma_one_line_concat("UI error: "@, one_line_text(message@));
        },
        _ => {
            lemma_tray_text_is_one_line(event_connection(event).unwrap());
        },
    }
    lemma_decimal_is_one_line(timestamp_seconds as nat);
    lemma_one_line_concat(decimal_text(timestamp_seconds as nat), " "@);
    lemma_one_line_concat(decimal_text(timestamp_seconds as nat) + " "@, event_text(event));
}

} // verus!
