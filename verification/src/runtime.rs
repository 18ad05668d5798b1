//! The decisions of the GlazeWM connection runtime.
//!
//! The runtime talks to a socket, sleeps between attempts and publishes what
//! happens; all of that is done by the caller. The library holds the two
//! state machines that decide what to do next: [`EventStream`] for one
//! connection (subscribe, then read messages and set directions) and
//! [`Reconnect`] for the supervisor that connects, runs a stream and backs off
//! after failures. Each `step` takes what the last action produced and whether
//! shutdown has been requested, and returns the events to publish and the next
//! action.
use vstd::prelude::*;

use crate::diagnostics::{events_view, RuntimeEvent, RuntimeEventView};
use crate::protocol::{parse_error_text, parse_result_view, GlazeEvent, ParseEventError};
use crate::tiling::{direction_command, direction_for_event, event_direction, TilingDirection};

verus! {

/// The subscription commands sent on every new connection, in order.
pub const SUBSCRIPTIONS: [&'static str; 3] = [
    "sub -e focus_changed",
    "sub -e focused_container_moved",
    "sub -e application_exiting",
];

/// The subscription command sent in position `index` (0, 1 or 2).
pub open spec fn subscription(index: int) -> Seq<char> {
    if index == 0 {
        "sub -e focus_changed"@
    } else if index == 1 {
        "sub -e focused_container_moved"@
    } else {
        "sub -e application_exiting"@
    }
}

/// The number of subscription commands.
pub const SUBSCRIPTION_COUNT: usize = 3;

/// The subscription command sent in position `index`.
pub fn subscription_text(index: usize) -> (text: &'static str)
    requires
        index < SUBSCRIPTION_COUNT,
    ensures
        text@ == subscription(index as int),
{
    if index == 0 {
        "sub -e focus_changed"
    } else if index == 1 {
        "sub -e focused_container_moved"
    } else {
        "sub -e application_exiting"
    }
}

/// The seconds to wait before reconnection attempt `attempt` (counted from 0
/// since the last successful connection): 1, 2, 5, 10, then 30 from then on.
pub open spec fn backoff_seconds(attempt: int) -> u64 {
    if attempt <= 0 {
        1
    } else if attempt == 1 {
        2
    } else if attempt == 2 {
        5
    } else if attempt == 3 {
        10
    } else {
        30
    }
}

/// The seconds to wait before reconnection attempt `attempt`.
pub fn reconnect_delay(attempt: usize) -> (seconds: u64)
    ensures
        seconds == backoff_seconds(attempt as int),
{
    if attempt == 0 {
        1
    } else if attempt == 1 {
        2
    } else if attempt == 2 {
        5
    } else if attempt == 3 {
        10
    } else {
        30
    }
}

/// The delays only grow, start at one second and never exceed thirty; from
/// the fifth attempt on they are thirty seconds.
pub proof fn lemma_backoff_schedule(earlier: int, later: int)
    requires
        0 <= earlier <= later,
    ensures
        1 <= backoff_seconds(earlier) <= backoff_seconds(later) <= 30,
        later >= 4 ==> backoff_seconds(later) == 30,
{
}

/// What handling one message calls for.
pub enum MessageReaction {
    /// Nothing: the message is not about GlazeTiler's business.
    Ignore,
    /// Report the message as ignored, for this reason, and go on.
    Report { reason: String },
    /// GlazeWM is exiting: announce it and end the stream.
    Exit,
    /// Send the command that sets this direction.
    SetDirection { direction: TilingDirection },
}

/// A [`MessageReaction`] with its string taken as a character sequence.
pub enum MessageReactionView {
    Ignore,
    Report { reason: Seq<char> },
    Exit,
    SetDirection { direction: TilingDirection },
}

impl View for MessageReaction {
    type V = MessageReactionView;

    open spec fn view(&self) -> MessageReactionView {
        match self {
            MessageReaction::Ignore => MessageReactionView::Ignore,
            MessageReaction::Report { reason } => MessageReactionView::Report { reason: reason@ },
            MessageReaction::Exit => MessageReactionView::Exit,
            MessageReaction::SetDirection { direction } => MessageReactionView::SetDirection {
                direction: *direction,
            },
        }
    }
}

/// How a parsed message is handled: a parse error is reported with its text,
/// the exit notice ends the stream, an event that asks for a direction has it
/// set, and anything else is passed over.
pub open spec fn message_reaction(
    parsed: Result<Option<GlazeEvent>, crate::protocol::ParseErrorView>,
) -> MessageReactionView {
    match parsed {
        Err(error) => MessageReactionView::Report { reason: parse_error_text(error) },
        Ok(None) => MessageReactionView::Ignore,
        Ok(Some(GlazeEvent::ApplicationExiting)) => MessageReactionView::Exit,
        Ok(Some(event)) => match event_direction(event) {
            Some(direction) => MessageReactionView::SetDirection { direction },
            None => MessageReactionView::Ignore,
        },
    }
}

/// Decides what to do with one parsed message.
pub fn handle_message(parsed: &Result<Option<GlazeEvent>, ParseEventError>) -> (reaction: MessageReaction)
    ensures
        reaction@ == message_reaction(parse_result_view(*parsed)),
{
    match parsed {
        Err(error) => MessageReaction::Report { reason: error.to_string() },
        Ok(None) => MessageReaction::Ignore,
        Ok(Some(GlazeEvent::ApplicationExiting)) => MessageReaction::Exit,
        Ok(Some(event)) => match direction_for_event(event) {
            Some(direction) => MessageReaction::SetDirection { direction },
            None => MessageReaction::Ignore,
        },
    }
}

/// How an event stream ended without error.
#[derive(Debug, Clone, Copy, PartialEq, Eq, Structural)]
pub enum StreamOutcome {
    ApplicationExiting,
    ShutdownRequested,
}

/// Where an event stream is.
#[derive(Debug, Clone, Copy, PartialEq, Eq, Structural)]
pub enum StreamPhase {
    /// Nothing sent yet.
    NotStarted,
    /// Waiting for subscription command `index` to be sent.
    Subscribing { index: usize },
    /// Waiting for a message.
    Reading,
    /// Waiting for the command that sets `direction` to be sent.
    SendingCommand { direction: TilingDirection },
    /// Over.
    Ended,
}

/// The decisions of one connection's event stream.
pub struct EventStream {
    pub phase: StreamPhase,
}

/// What the caller reports to an [`EventStream`].
pub enum StreamInput {
    /// Start the stream.
    Begin,
    /// The text of the last `Send` action was written.
    Sent,
    /// A frame that is not text was read.
    NonText,
    /// A text message was read; the result of parsing it.
    Received { parsed: Result<Option<GlazeEvent>, ParseEventError> },
    /// The last `Send` or `Read` failed.
    Failed,
}

/// What an [`EventStream`] asks the caller to do next.
pub enum StreamAction {
    /// Write `text`; if that fails, the error is reported with `context`.
    Send { text: String, context: String },
    /// Read the next frame.
    Read,
    /// The stream is over, without error.
    Finish { outcome: StreamOutcome },
    /// The stream is over because the last action failed: end it with that
    /// action's error (with its `context`, for a `Send`), and touch the
    /// connection no more.
    Fail,
}

/// A [`StreamAction`] with its strings taken as character sequences.
pub enum StreamActionView {
    Send { text: Seq<char>, context: Seq<char> },
    Read,
    Finish { outcome: StreamOutcome },
    Fail,
}

impl View for StreamAction {
    type V = StreamActionView;

    open spec fn view(&self) -> StreamActionView {
        match self {
            StreamAction::Send { text, context } => StreamActionView::Send {
                text: text@,
                context: context@,
            },
            StreamAction::Read => StreamActionView::Read,
            StreamAction::Finish { outcome } => StreamActionView::Finish { outcome: *outcome },
            StreamAction::Fail => StreamActionView::Fail,
        }
    }
}

/// The events to publish and the next action.
pub struct StreamStep {
    pub events: Vec<RuntimeEvent>,
    pub action: StreamAction,
}

/// The context given to a failure to send subscription `index`.
pub open spec fn subscribe_context(index: int) -> Seq<char> {
    "Failed to subscribe to GlazeWM IPC event with `"@ + subscription(index) + "`"@
}

/// The context given to a failure to send the command for `direction`.
pub open spec fn command_context(direction: TilingDirection) -> Seq<char> {
    "Failed to send GlazeWM IPC command `"@ + direction_command(direction) + "`"@
}

/// The inputs that a stream accepts in each phase.
pub open spec fn stream_accepts(phase: StreamPhase, input: StreamInput) -> bool {
    match (phase, input) {
        (StreamPhase::NotStarted, StreamInput::Begin) => true,
        (StreamPhase::Subscribing { index }, StreamInput::Sent) => index < SUBSCRIPTION_COUNT,
        (StreamPhase::Reading, StreamInput::NonText) => true,
        (StreamPhase::Reading, StreamInput::Received { .. }) => true,
        (StreamPhase::SendingCommand { .. }, StreamInput::Sent) => true,
        (StreamPhase::Subscribing { index }, StreamInput::Failed) => index < SUBSCRIPTION_COUNT,
        (StreamPhase::Reading, StreamInput::Failed) => true,
        (StreamPhase::SendingCommand { .. }, StreamInput::Failed) => true,
        _ => false,
    }
}

/// The loop check of the stream: stop when shutdown is requested, else read.
pub open spec fn stream_read_or_stop(shutdown_requested: bool) -> (StreamPhase, StreamActionView) {
    if shutdown_requested {
        (StreamPhase::Ended, StreamActionView::Finish { outcome: StreamOutcome::ShutdownRequested })
    } else {
        (StreamPhase::Reading, StreamActionView::Read)
    }
}

/// One step of an event stream: the next phase, the events to publish and the
/// next action.
pub open spec fn stream_next(phase: StreamPhase, input: StreamInput, shutdown_requested: bool) -> (
    StreamPhase,
    Seq<RuntimeEventView>,
    StreamActionView,
) {
    let (after_phase, after_action) = stream_read_or_stop(shutdown_requested);
    match (phase, input) {
        (StreamPhase::NotStarted, StreamInput::Begin) => (
            StreamPhase::Subscribing { index: 0 },
            seq![],
            StreamActionView::Send { text: subscription(0), context: subscribe_context(0) },
        ),
        (StreamPhase::Subscribing { index }, StreamInput::Sent) => if index + 1
            < SUBSCRIPTION_COUNT {
            (
                StreamPhase::Subscribing { index: (index + 1) as usize },
                seq![],
                StreamActionView::Send {
                    text: subscription(index + 1),
                    context: subscribe_context(index + 1),
                },
            )
        } else {
            (after_phase, seq![], after_action)
        },
        (StreamPhase::SendingCommand { direction }, StreamInput::Sent) => (
            after_phase,
            seq![RuntimeEventView::DirectionChanged { direction }],
            after_action,
        ),
        (StreamPhase::Reading, StreamInput::Received { parsed }) => match message_reaction(
            parse_result_view(parsed),
        ) {
            MessageReactionView::Ignore => (after_phase, seq![], after_action),
            MessageReactionView::Report { reason } => (
                after_phase,
                seq![RuntimeEventView::IgnoredMessage { reason }],
                after_action,
            ),
            MessageReactionView::Exit => (
                StreamPhase::Ended,
                seq![RuntimeEventView::GlazewmExiting],
                StreamActionView::Finish { outcome: StreamOutcome::ApplicationExiting },
            ),
            MessageReactionView::SetDirection { direction } => (
                StreamPhase::SendingCommand { direction },
                seq![],
                StreamActionView::Send {
                    text: direction_command(direction),
                    context: command_context(direction),
                },
            ),
        },
        (_, StreamInput::Failed) => (StreamPhase::Ended, seq![], StreamActionView::Fail),
        _ => (after_phase, seq![], after_action),
    }
}

fn subscribe_context_text(index: usize) -> (context: String)
    requires
        index < SUBSCRIPTION_COUNT,
    ensures
        context@ == subscribe_context(index as int),
{
    let mut context = String::from_str("Failed to subscribe to GlazeWM IPC event with `");
    context.append(subscription_text(index));
    context.append("`");
    context
}

fn command_context_text(direction: TilingDirection) -> (context: String)
    ensures
        context@ == command_context(direction),
{
    let mut context = String::from_str("Failed to send GlazeWM IPC command `");
    context.append(direction.command());
    context.append("`");
    context
}

fn read_or_stop(shutdown_requested: bool) -> (result: (StreamPhase, StreamAction))
    ensures
        (result.0, result.1@) == stream_read_or_stop(shutdown_requested),
{
    if shutdown_requested {
        (StreamPhase::Ended, StreamAction::Finish { outcome: StreamOutcome::ShutdownRequested })
    } else {
        (StreamPhase::Reading, StreamAction::Read)
    }
}

impl EventStream {
    /// A stream that has not started.
    pub fn new() -> (stream: Self)
        ensures
            stream.phase == StreamPhase::NotStarted,
    {
        EventStream { phase: StreamPhase::NotStarted }
    }

    /// Whether the stream takes `input` now.
    pub fn accepts(&self, input: &StreamInput) -> (accepted: bool)
        ensures
            accepted == stream_accepts(self.phase, *input),
    {
        match (&self.phase, input) {
            (StreamPhase::NotStarted, StreamInput::Begin) => true,
            (StreamPhase::Subscribing { index }, StreamInput::Sent) => *index < SUBSCRIPTION_COUNT,
            (StreamPhase::Reading, StreamInput::NonText) => true,
            (StreamPhase::Reading, StreamInput::Received { .. }) => true,
            (StreamPhase::SendingCommand { .. }, StreamInput::Sent) => true,
            (StreamPhase::Subscribing { index }, StreamInput::Failed) => *index < SUBSCRIPTION_COUNT,
            (StreamPhase::Reading, StreamInput::Failed) => true,
            (StreamPhase::SendingCommand { .. }, StreamInput::Failed) => true,
            _ => false,
        }
    }

    /// Takes what the last action produced and whether shutdown has been
    /// requested; moves on, and returns the events to publish and the next
    /// action.
    pub fn step(&mut self, input: StreamInput, shutdown_requested: bool) -> (step: StreamStep)
        requires
            stream_accepts(old(self).phase, input),
        ensures
            (final(self).phase, events_view(step.events@), step.action@) == stream_next(
                old(self).phase,
                input,
                shutdown_requested,
            ),
    {
        let ghost expected = stream_next(self.phase, input, shutdown_requested);
        let mut events: Vec<RuntimeEvent> = Vec::new();
        let action = match (self.phase, input) {
            (StreamPhase::NotStarted, StreamInput::Begin) => {
                self.phase = StreamPhase::Subscribing { index: 0 };
                StreamAction::Send {
                    text: String::from_str(subscription_text(0)),
                    context: subscribe_context_text(0),
                }
            },
            (StreamPhase::Subscribing { index }, StreamInput::Sent) => {
                if index + 1 < SUBSCRIPTION_COUNT {
                    self.phase = StreamPhase::Subscribing { index: index + 1 };
                    StreamAction::Send {
                        text: String::from_str(subscription_text(index + 1)),
                        context: subscribe_context_text(index + 1),
                    }
                } else {
                    let (phase, action) = read_or_stop(shutdown_requested);
                    self.phase = phase;
                    action
                }
            },
            (StreamPhase::SendingCommand { direction }, StreamInput::Sent) => {
                events.push(RuntimeEvent::DirectionChanged { direction });
                let (phase, action) = read_or_stop(shutdown_requested);
                self.phase = phase;
                action
            },
            (StreamPhase::Reading, StreamInput::Received { parsed }) => {
                match handle_message(&parsed) {
                    MessageReaction::Ignore => {
                        let (phase, action) = read_or_stop(shutdown_requested);
                        self.phase = phase;
                        action
                    },
                    MessageReaction::Report { reason } => {
                        events.push(RuntimeEvent::IgnoredMessage { reason });
                        let (phase, action) = read_or_stop(shutdown_requested);
                        self.phase = phase;
                        action
                    },
                    MessageReaction::Exit => {
                        events.push(RuntimeEvent::GlazewmExiting);
                        self.phase = StreamPhase::Ended;
                        StreamAction::Finish { outcome: StreamOutcome::ApplicationExiting }
                    },
                    MessageReaction::SetDirection { direction } => {
                        self.phase = StreamPhase::SendingCommand { direction };
                        StreamAction::Send {
                            text: String::from_str(direction.command()),
                            context: command_context_text(direction),
                        }
                    },
                }
            },
            (_, StreamInput::Failed) => {
                self.phase = StreamPhase::Ended;
                StreamAction::Fail
            },
            _ => {
                let (phase, action) = read_or_stop(shutdown_requested);
                self.phase = phase;
                action
            },
        };
        assert(events_view(events@) =~= expected.1);
        StreamStep { events, action }
    }
}

/// Where the connection supervisor is.
#[derive(Debug, Clone, Copy, PartialEq, Eq, Structural)]
pub enum ReconnectPhase {
    /// Nothing published yet.
    NotStarted,
    /// Waiting for a connection attempt.
    Connecting,
    /// Waiting for the event stream of a connection to end.
    Streaming,
    /// Waiting out the delay before the next attempt.
    Sleeping,
    /// Over.
    Finished,
}

/// The decisions of the connection supervisor: connect, run the event stream,
/// and after a failure wait a growing delay before trying again.
pub struct Reconnect {
    pub phase: ReconnectPhase,
    /// Failed attempts since the last successful connection.
    pub retry_attempt: usize,
}

/// What the caller reports to a [`Reconnect`].
pub enum ReconnectInput {
    /// Start.
    Begin,
    /// The connection attempt succeeded.
    Connected,
    /// The connection attempt failed with this error text.
    ConnectFailed { message: String },
    /// The event stream ended without error.
    StreamEnded { outcome: StreamOutcome },
    /// The event stream ended with this error text.
    StreamFailed { message: String },
    /// The delay is over.
    Slept,
}

/// What a [`Reconnect`] asks the caller to do next.
#[derive(Debug, Clone, Copy, PartialEq, Eq, Structural)]
pub enum ReconnectAction {
    Connect,
    RunStream,
    Sleep { seconds: u64 },
    Finish,
}

/// The events to publish and the next action.
pub struct ReconnectStep {
    pub events: Vec<RuntimeEvent>,
    pub action: ReconnectAction,
}

/// The inputs that the supervisor accepts in each phase.
pub open spec fn reconnect_accepts(phase: ReconnectPhase, input: ReconnectInput) -> bool {
    match (phase, input) {
        (ReconnectPhase::NotStarted, ReconnectInput::Begin) => true,
        (ReconnectPhase::Connecting, ReconnectInput::Connected) => true,
        (ReconnectPhase::Connecting, ReconnectInput::ConnectFailed { .. }) => true,
        (ReconnectPhase::Streaming, ReconnectInput::StreamEnded { .. }) => true,
        (ReconnectPhase::Streaming, ReconnectInput::StreamFailed { .. }) => true,
        (ReconnectPhase::Sleeping, ReconnectInput::Slept) => true,
        _ => false,
    }
}

/// The loop check of the supervisor: stop when shutdown is requested, else
/// try to connect.
pub open spec fn reconnect_connect_or_stop(shutdown_requested: bool) -> (
    ReconnectPhase,
    Seq<RuntimeEventView>,
    ReconnectAction,
) {
    if shutdown_requested {
        (ReconnectPhase::Finished, seq![RuntimeEventView::ShutdownRequested], ReconnectAction::Finish)
    } else {
        (ReconnectPhase::Connecting, seq![RuntimeEventView::Connecting], ReconnectAction::Connect)
    }
}

/// The attempt counter after one more failure.
pub open spec fn next_attempt(attempt: usize) -> usize {
    if attempt < usize::MAX {
        (attempt + 1) as usize
    } else {
        attempt
    }
}

/// One step of the supervisor: the next state, the events to publish and the
/// next action. A failure (to connect, or of the stream) reports the error,
/// announces the delay of the current attempt, and counts the attempt; a
/// successful connection resets the count.
pub open spec fn reconnect_next(
    state: (ReconnectPhase, usize),
    input: ReconnectInput,
    shutdown_requested: bool,
) -> ((ReconnectPhase, usize), Seq<RuntimeEventView>, ReconnectAction) {
    let (phase, attempt) = state;
    let (top_phase, top_events, top_action) = reconnect_connect_or_stop(shutdown_requested);
    let delay = backoff_seconds(attempt as int);
    match input {
        ReconnectInput::Begin => (
            (top_phase, attempt),
            seq![RuntimeEventView::Starting] + top_events,
            top_action,
        ),
        ReconnectInput::Connected => (
            (ReconnectPhase::Streaming, 0),
            seq![RuntimeEventView::Connected],
            ReconnectAction::RunStream,
        ),
        ReconnectInput::StreamEnded { outcome } => match outcome {
            StreamOutcome::ApplicationExiting => (
                (ReconnectPhase::Finished, attempt),
                seq![],
                ReconnectAction::Finish,
            ),
            StreamOutcome::ShutdownRequested => (
                (ReconnectPhase::Finished, attempt),
                seq![RuntimeEventView::ShutdownRequested],
                ReconnectAction::Finish,
            ),
        },
        ReconnectInput::ConnectFailed { message } => (
            (ReconnectPhase::Sleeping, next_attempt(attempt)),
            seq![
                RuntimeEventView::ConnectionError { message: message@ },
                RuntimeEventView::Reconnecting { delay_seconds: delay },
            ],
            ReconnectAction::Sleep { seconds: delay },
        ),
        ReconnectInput::StreamFailed { message } => (
            (ReconnectPhase::Sleeping, next_attempt(attempt)),
            seq![
                RuntimeEventView::ConnectionError { message: message@ },
                RuntimeEventView::Reconnecting { delay_seconds: delay },
            ],
            ReconnectAction::Sleep { seconds: delay },
        ),
        ReconnectInput::Slept => ((top_phase, attempt), top_events, top_action),
    }
}

impl Reconnect {
    /// A supervisor that has not started.
    pub fn new() -> (supervisor: Self)
        ensures
            supervisor.phase == ReconnectPhase::NotStarted,
            supervisor.retry_attempt == 0,
    {
        Reconnect { phase: ReconnectPhase::NotStarted, retry_attempt: 0 }
    }

    /// Whether the supervisor takes `input` now.
    pub fn accepts(&self, input: &ReconnectInput) -> (accepted: bool)
        ensures
            accepted == reconnect_accepts(self.phase, *input),
    {
        match (&self.phase, input) {
            (ReconnectPhase::NotStarted, ReconnectInput::Begin) => true,
            (ReconnectPhase::Connecting, ReconnectInput::Connected) => true,
            (ReconnectPhase::Connecting, ReconnectInput::ConnectFailed { .. }) => true,
            (ReconnectPhase::Streaming, ReconnectInput::StreamEnded { .. }) => true,
            (ReconnectPhase::Streaming, ReconnectInput::StreamFailed { .. }) => true,
            (ReconnectPhase::Sleeping, ReconnectInput::Slept) => true,
            _ => false,
        }
    }

    fn connect_or_stop(&mut self, shutdown_requested: bool, events: &mut Vec<RuntimeEvent>) -> (action: ReconnectAction)
        ensures
            (final(self).phase, events_view(final(events)@), action) == ({
                let (phase, top_events, action) = reconnect_connect_or_stop(shutdown_requested);
                (phase, events_view(old(events)@) + top_events, action)
            }),
            final(self).retry_attempt == old(self).retry_attempt,
    {
        let ghost before = events@;
        if shutdown_requested {
            self.phase = ReconnectPhase::Finished;
            events.push(RuntimeEvent::ShutdownRequested);
            assert(events_view(events@) =~= events_view(before) + seq![
                RuntimeEventView::ShutdownRequested,
            ]);
            ReconnectAction::Finish
        } else {
            self.phase = ReconnectPhase::Connecting;
            events.push(RuntimeEvent::Connecting);
            assert(events_view(events@) =~= events_view(before) + seq![
                RuntimeEventView::Connecting,
            ]);
            ReconnectAction::Connect
        }
    }

    fn back_off(&mut self, message: String) -> (step: ReconnectStep)
        ensures
            final(self).phase == ReconnectPhase::Sleeping,
            final(self).retry_attempt == next_attempt(old(self).retry_attempt),
            events_view(step.events@) == seq![
                RuntimeEventView::ConnectionError { message: message@ },
                RuntimeEventView::Reconnecting {
                    delay_seconds: backoff_seconds(old(self).retry_attempt as int),
                },
            ],
            step.action == (ReconnectAction::Sleep {
                seconds: backoff_seconds(old(self).retry_attempt as int),
            }),
    {
        let delay = reconnect_delay(self.retry_attempt);
        self.retry_attempt = self.retry_attempt.saturating_add(1);
        self.phase = ReconnectPhase::Sleeping;
        let mut events: Vec<RuntimeEvent> = Vec::new();
        let ghost text = message@;
        events.push(RuntimeEvent::ConnectionError { message });
        events.push(RuntimeEvent::Reconnecting { delay_seconds: delay });
        assert(events_view(events@) =~= seq![
            RuntimeEventView::ConnectionError { message: text },
            RuntimeEventView::Reconnecting { delay_seconds: delay },
        ]);
        ReconnectStep { events, action: ReconnectAction::Sleep { seconds: delay } }
    }

    /// Takes what the last action produced and whether shutdown has been
    /// requested; moves on, and returns the events to publish and the next
    /// action.
    pub fn step(&mut self, input: ReconnectInput, shutdown_requested: bool) -> (step: ReconnectStep)
        requires
            reconnect_accepts(old(self).phase, input),
        ensures
            ((final(self).phase, final(self).retry_attempt), events_view(step.events@), step.action)
                == reconnect_next(
                (old(self).phase, old(self).retry_attempt),
                input,
                shutdown_requested,
            ),
    {
        let ghost expected = reconnect_next(
            (self.phase, self.retry_attempt),
            input,
            shutdown_requested,
        );
        match input {
            ReconnectInput::Begin => {
                let mut events: Vec<RuntimeEvent> = Vec::new();
                events.push(RuntimeEvent::Starting);
                assert(events_view(events@) =~= seq![RuntimeEventView::Starting]);
                let action = self.connect_or_stop(shutdown_requested, &mut events);
                assert(events_view(events@) =~= expected.1);
                ReconnectStep { events, action }
            },
            ReconnectInput::Connected => {
                self.retry_attempt = 0;
                self.phase = ReconnectPhase::Streaming;
                let mut events: Vec<RuntimeEvent> = Vec::new();
                events.push(RuntimeEvent::Connected);
                assert(events_view(events@) =~= expected.1);
                ReconnectStep { events, action: ReconnectAction::RunStream }
            },
            ReconnectInput::StreamEnded { outcome } => {
                self.phase = ReconnectPhase::Finished;
                let mut events: Vec<RuntimeEvent> = Vec::new();
                match outcome {
                    StreamOutcome::ApplicationExiting => {},
                    StreamOutcome::ShutdownRequested => {
                        events.push(RuntimeEvent::ShutdownRequested);
                    },
                }
                assert(events_view(events@) =~= expected.1);
                ReconnectStep { events, action: ReconnectAction::Finish }
            },
            ReconnectInput::ConnectFailed { message } => self.back_off(message),
            ReconnectInput::StreamFailed { message } => self.back_off(message),
            ReconnectInput::Slept => {
                let mut events: Vec<RuntimeEvent> = Vec::new();
                assert(events_view(events@) =~= seq![]);
                let action = self.connect_or_stop(shutdown_requested, &mut events);
                assert(events_view(events@) =~= expected.1);
                ReconnectStep { events, action }
            },
        }
    }
}

/// Every stream starts by sending the three subscriptions, in order, before it
/// reads anything; then it reads unless shutdown has been requested.
pub proof fn lemma_stream_subscribes_before_reading(
    shutdown_0: bool,
    shutdown_1: bool,
    shutdown_2: bool,
    shutdown_3: bool,
)
    ensures
        ({
            let (phase_1, events_1, action_1) = stream_next(
                StreamPhase::NotStarted,
                StreamInput::Begin,
                shutdown_0,
            );
            let (phase_2, events_2, action_2) = stream_next(phase_1, StreamInput::Sent, shutdown_1);
            let (phase_3, events_3, action_3) = stream_next(phase_2, StreamInput::Sent, shutdown_2);
            let (phase_4, events_4, action_4) = stream_next(phase_3, StreamInput::Sent, shutdown_3);
            &&& action_1 == StreamActionView::Send {
                text: subscription(0),
                context: subscribe_context(0),
            }
            &&& action_2 == StreamActionView::Send {
                text: subscription(1),
                context: subscribe_context(1),
            }
            &&& action_3 == StreamActionView::Send {
                text: subscription(2),
                context: subscribe_context(2),
            }
            &&& action_4 == if shutdown_3 {
                StreamActionView::Finish { outcome: StreamOutcome::ShutdownRequested }
            } else {
                StreamActionView::Read
            }
            &&& events_1.len() == 0 && events_2.len() == 0 && events_3.len() == 0
                && events_4.len() == 0
            &&& stream_accepts(phase_1, StreamInput::Sent)
            &&& stream_accepts(phase_2, StreamInput::Sent)
            &&& stream_accepts(phase_3, StreamInput::Sent)
        }),
{
}

/// A direction is announced only once the command that sets it has been sent,
/// and it is always announced then; a command that fails to be sent is not
/// announced.
pub proof fn lemma_direction_announced_after_its_command(
    phase: StreamPhase,
    input: StreamInput,
    shutdown_requested: bool,
)
    requires
        stream_accepts(phase, input),
    ensures
        forall|k: int|
            0 <= k < stream_next(phase, input, shutdown_requested).1.len()
                && #[trigger] stream_next(phase, input, shutdown_requested).1[k] is DirectionChanged
                ==> phase == (StreamPhase::SendingCommand {
                direction: stream_next(phase, input, shutdown_requested).1[k]->direction,
            }) && input is Sent,
        phase matches StreamPhase::SendingCommand { direction } ==> (input is Sent ==> stream_next(
            phase,
            input,
            shutdown_requested,
        ).1 == seq![RuntimeEventView::DirectionChanged { direction }]),
        input is Failed ==> stream_next(phase, input, shutdown_requested).1.len() == 0,
{
}

/// How a stream answers a message: a message that cannot be parsed is
/// reported with its error and the stream reads on; the exit notice ends the
/// stream; an event that asks for a direction has its command sent.
pub proof fn lemma_stream_answers_messages(
    parsed: Result<Option<GlazeEvent>, ParseEventError>,
    shutdown_requested: bool,
)
    ensures
        parsed matches Err(error) ==> stream_next(
            StreamPhase::Reading,
            StreamInput::Received { parsed },
            shutdown_requested,
        ) == ({
            let (phase, action) = stream_read_or_stop(shutdown_requested);
            (phase, seq![RuntimeEventView::IgnoredMessage { reason: parse_error_text(error@) }], action)
        }),
        parsed matches Ok(Some(GlazeEvent::ApplicationExiting)) ==> stream_next(
            StreamPhase::Reading,
            StreamInput::Received { parsed },
            shutdown_requested,
        ) == (
            StreamPhase::Ended,
            seq![RuntimeEventView::GlazewmExiting],
            StreamActionView::Finish { outcome: StreamOutcome::ApplicationExiting },
        ),
        parsed matches Ok(Some(event)) ==> (event_direction(event) matches Some(direction)
            ==> stream_next(
            StreamPhase::Reading,
            StreamInput::Received { parsed },
            shutdown_requested,
        ) == (
            StreamPhase::SendingCommand { direction },
            Seq::<RuntimeEventView>::empty(),
            StreamActionView::Send {
                text: direction_command(direction),
                context: command_context(direction),
            },
        )),
{
}

/// A failed attempt, to connect or of a stream, reports its error, waits the
/// delay of the current attempt and counts one more attempt; a successful
/// connection starts the count again.
pub proof fn lemma_failures_back_off(attempt: usize, message: String, shutdown_requested: bool)
    ensures
        reconnect_next(
            (ReconnectPhase::Connecting, attempt),
            ReconnectInput::ConnectFailed { message },
            shutdown_requested,
        ) == (
            (ReconnectPhase::Sleeping, next_attempt(attempt)),
            seq![
                RuntimeEventView::ConnectionError { message: message@ },
                RuntimeEventView::Reconnecting { delay_seconds: backoff_seconds(attempt as int) },
            ],
            ReconnectAction::Sleep { seconds: backoff_seconds(attempt as int) },
        ),
        reconnect_next(
            (ReconnectPhase::Streaming, attempt),
            ReconnectInput::StreamFailed { message },
            shutdown_requested,
        ) == reconnect_next(
            (ReconnectPhase::Connecting, attempt),
            ReconnectInput::ConnectFailed { message },
            shutdown_requested,
        ),
        reconnect_next(
            (ReconnectPhase::Connecting, attempt),
            ReconnectInput::Connected,
            shutdown_requested,
        ).0 == (ReconnectPhase::Streaming, 0usize),
{
}

/// The supervisor after a run of failed connection attempts, each followed by
/// its delay with no shutdown requested, and the delays it asked for.
pub open spec fn after_failed_attempts(
    start: (ReconnectPhase, usize),
    failures: Seq<String>,
) -> ((ReconnectPhase, usize), Seq<u64>)
    decreases failures.len(),
{
    if failures.len() == 0 {
        (start, seq![])
    } else {
        let (state, delays) = after_failed_attempts(start, failures.drop_last());
        let (waiting, _, action) = reconnect_next(
            state,
            ReconnectInput::ConnectFailed { message: failures.last() },
            false,
        );
        let (next, _, _) = reconnect_next(waiting, ReconnectInput::Slept, false);
        (
            next,
            delays.push(
                match action {
                    ReconnectAction::Sleep { seconds } => seconds,
                    _ => 0,
                },
            ),
        )
    }
}

/// Consecutive failed attempts after a connection (or at the start) wait 1, 2,
/// 5, 10, 30, 30, ... seconds, and the supervisor keeps trying.
pub proof fn lemma_consecutive_failures_follow_the_schedule(failures: Seq<String>)
    requires
        failures.len() < usize::MAX,
    ensures
        after_failed_attempts((ReconnectPhase::Connecting, 0), failures) == (
            (ReconnectPhase::Connecting, failures.len() as usize),
            Seq::new(failures.len(), |i: int| backoff_seconds(i)),
        ),
    decreases failures.len(),
{
    if failures.len() > 0 {
        lemma_consecutive_failures_follow_the_schedule(failures.drop_last());
        let (state, delays) = after_failed_attempts(
            (ReconnectPhase::Connecting, 0),
            failures.drop_last(),
        );
        assert(delays.push(backoff_seconds(failures.len() - 1)) =~= Seq::new(
            failures.len(),
            |i: int| backoff_seconds(i),
        ));
    }
}

/// When shutdown is requested at a loop check, the supervisor announces it and
/// finishes; once finished it takes no more input.
pub proof fn lemma_shutdown_finishes(attempt: usize, input: ReconnectInput)
    ensures
        reconnect_next((ReconnectPhase::Sleeping, attempt), ReconnectInput::Slept, true) == (
            (ReconnectPhase::Finished, attempt),
            seq![RuntimeEventView::ShutdownRequested],
            ReconnectAction::Finish,
        ),
        reconnect_next((ReconnectPhase::NotStarted, attempt), ReconnectInput::Begin, true) == (
            (ReconnectPhase::Finished, attempt),
            seq![RuntimeEventView::Starting, RuntimeEventView::ShutdownRequested],
            ReconnectAction::Finish,
        ),
        !reconnect_accepts(ReconnectPhase::Finished, input),
        !stream_accepts(StreamPhase::Ended, StreamInput::Begin),
{
    assert(seq![RuntimeEventView::Starting] + seq![RuntimeEventView::ShutdownRequested] =~= seq![
        RuntimeEventView::Starting,
        RuntimeEventView::ShutdownRequested,
    ]);
}

/// The steps of the supervisor over a run of inputs from `start`: for each
/// input, the state after it, the events published and the action asked for.
/// `shutdowns[k]` is whether shutdown had been requested when input `k` came.
pub open spec fn supervisor_run(
    start: (ReconnectPhase, usize),
    inputs: Seq<ReconnectInput>,
    shutdowns: Seq<bool>,
) -> Seq<((ReconnectPhase, usize), Seq<RuntimeEventView>, ReconnectAction)>
    decreases inputs.len(),
{
    if inputs.len() == 0 {
        seq![]
    } else {
        let before = supervisor_run(start, inputs.drop_last(), shutdowns);
        let state = if before.len() == 0 {
            start
        } else {
            before.last().0
        };
        before.push(reconnect_next(state, inputs.last(), shutdowns[inputs.len() - 1]))
    }
}

/// The state of a run before step `k`.
pub open spec fn run_state_before(
    start: (ReconnectPhase, usize),
    steps: Seq<((ReconnectPhase, usize), Seq<RuntimeEventView>, ReconnectAction)>,
    k: int,
) -> (ReconnectPhase, usize) {
    if k == 0 {
        start
    } else {
        steps[k - 1].0
    }
}

/// Each step of a run is one step of the supervisor from the state before it.
pub proof fn lemma_run_steps(
    start: (ReconnectPhase, usize),
    inputs: Seq<ReconnectInput>,
    shutdowns: Seq<bool>,
)
    ensures
        supervisor_run(start, inputs, shutdowns).len() == inputs.len(),
        forall|k: int|
            0 <= k < inputs.len() ==> #[trigger] supervisor_run(start, inputs, shutdowns)[k]
                == reconnect_next(
                run_state_before(start, supervisor_run(start, inputs, shutdowns), k),
                inputs[k],
                shutdowns[k],
            ),
    decreases inputs.len(),
{
    if inputs.len() > 0 {
        let rest = inputs.drop_last();
        lemma_run_steps(start, rest, shutdowns);
        let before = supervisor_run(start, rest, shutdowns);
        let steps = supervisor_run(start, inputs, shutdowns);
        assert forall|k: int| 0 <= k < inputs.len() implies #[trigger] steps[k] == reconnect_next(
            run_state_before(start, steps, k),
            inputs[k],
            shutdowns[k],
        ) by {
            if k < inputs.len() - 1 {
                assert(steps[k] == before[k]);
                assert(rest[k] == inputs[k]);
                if k > 0 {
                    assert(steps[k - 1] == before[k - 1]);
                }
            }
        }
    }
}

/// The failed attempts since the last successful connection (or since the
/// start, counting from `start_attempts`) after a run of inputs.
pub open spec fn attempts_since_connected(start_attempts: nat, inputs: Seq<ReconnectInput>) -> nat
    decreases inputs.len(),
{
    if inputs.len() == 0 {
        start_attempts
    } else {
        let before = attempts_since_connected(start_attempts, inputs.drop_last());
        match inputs.last() {
            ReconnectInput::Connected => 0,
            ReconnectInput::ConnectFailed { .. } => before + 1,
            ReconnectInput::StreamFailed { .. } => before + 1,
            _ => before,
        }
    }
}

/// A count as the supervisor holds it: saturating at `usize::MAX`.
pub open spec fn saturated(n: nat) -> usize {
    if n < usize::MAX {
        n as usize
    } else {
        usize::MAX
    }
}

/// Over any run, from any state: the supervisor's count is the number of
/// failed attempts since the last successful connection, and every sleep
/// follows a failure and waits the delay of the failures counted before it.
pub proof fn lemma_run_backs_off_since_last_connection(
    start: (ReconnectPhase, usize),
    inputs: Seq<ReconnectInput>,
    shutdowns: Seq<bool>,
    k: int,
)
    requires
        0 <= k < inputs.len(),
    ensures
        supervisor_run(start, inputs, shutdowns)[k].0.1 == saturated(
            attempts_since_connected(start.1 as nat, inputs.take(k + 1)),
        ),
        supervisor_run(start, inputs, shutdowns)[k].2 matches ReconnectAction::Sleep { seconds }
            ==> seconds == backoff_seconds(attempts_since_connected(start.1 as nat, inputs.take(k)) as int)
            && (inputs[k] is ConnectFailed || inputs[k] is StreamFailed),
    decreases k,
{
    lemma_run_steps(start, inputs, shutdowns);
    let steps = supervisor_run(start, inputs, shutdowns);
    let before = run_state_before(start, steps, k);
    let counted = attempts_since_connected(start.1 as nat, inputs.take(k));
    if k > 0 {
        lemma_run_backs_off_since_last_connection(start, inputs, shutdowns, k - 1);
        assert(inputs.take(k - 1 + 1) =~= inputs.take(k));
    } else {
        assert(inputs.take(0) =~= Seq::<ReconnectInput>::empty());
    }
    assert(before.1 == saturated(counted));
    assert(inputs.take(k + 1).drop_last() =~= inputs.take(k));
    assert(inputs.take(k + 1).last() == inputs[k]);
    if counted >= 4 {
        assert(saturated(counted) >= 4);
    }
}

/// What each step of the supervisor publishes, in any state: a failure
/// publishes exactly the error and then the delay that the step sleeps, and
/// nothing else publishes either; a connection attempt is announced just
/// before it is made; `Connected` is published exactly for a successful
/// connection; a shutdown is published only when the run finishes, after
/// which the supervisor takes no input; the exit notice ends the run with
/// nothing more published; and the first step publishes `Starting` first.
pub proof fn lemma_step_announcements(
    state: (ReconnectPhase, usize),
    input: ReconnectInput,
    shutdown_requested: bool,
)
    ensures
        ({
            let (next, events, action) = reconnect_next(state, input, shutdown_requested);
            &&& (action is Sleep) <==> (input is ConnectFailed || input is StreamFailed)
            &&& input matches ReconnectInput::ConnectFailed { message } ==> events == seq![
                RuntimeEventView::ConnectionError { message: message@ },
                RuntimeEventView::Reconnecting { delay_seconds: action->seconds },
            ]
            &&& input matches ReconnectInput::StreamFailed { message } ==> events == seq![
                RuntimeEventView::ConnectionError { message: message@ },
                RuntimeEventView::Reconnecting { delay_seconds: action->seconds },
            ]
            &&& !(input is ConnectFailed || input is StreamFailed) ==> forall|j: int|
                0 <= j < events.len() ==> !(#[trigger] events[j] is ConnectionError)
                    && !(events[j] is Reconnecting)
            &&& action is Connect ==> events.len() > 0 && events.last()
                == RuntimeEventView::Connecting
            &&& forall|j: int|
                0 <= j < events.len() ==> ((#[trigger] events[j] is Connected) <==> input is Connected)
            &&& input is Connected ==> events == seq![RuntimeEventView::Connected]
            &&& forall|j: int|
                0 <= j < events.len() && #[trigger] events[j] is ShutdownRequested ==> action is Finish
            &&& action is Finish ==> next.0 == ReconnectPhase::Finished
            &&& input == (ReconnectInput::StreamEnded { outcome: StreamOutcome::ApplicationExiting })
                ==> events.len() == 0 && action is Finish
            &&& input is Begin ==> events.len() > 0 && events[0] == RuntimeEventView::Starting
        }),
{
    let (next, events, action) = reconnect_next(state, input, shutdown_requested);
    match input {
        ReconnectInput::Begin => {
            assert(events[0] == RuntimeEventView::Starting);
        },
        _ => {},
    }
}

/// A message that asks for nothing (one that parses to no event, or to an
/// event other than the exit notice that asks for no direction) is passed
/// over: nothing is published, and the stream reads the next message, or
/// finishes if shutdown has been requested.
pub proof fn lemma_stream_passes_over_what_asks_nothing(
    parsed: Result<Option<GlazeEvent>, ParseEventError>,
    shutdown_requested: bool,
)
    requires
        parsed matches Ok(None) || (parsed matches Ok(Some(event)) && !(event is ApplicationExiting)
            && event_direction(event) is None),
    ensures
        stream_next(StreamPhase::Reading, StreamInput::Received { parsed }, shutdown_requested)
            == if shutdown_requested {
            (
                StreamPhase::Ended,
                Seq::<RuntimeEventView>::empty(),
                StreamActionView::Finish { outcome: StreamOutcome::ShutdownRequested },
            )
        } else {
            (StreamPhase::Reading, Seq::<RuntimeEventView>::empty(), StreamActionView::Read)
        },
{
}

/// A stream finishes for a shutdown only when shutdown has been requested.
/// Without a request it ends only when GlazeWM exits or an action fails, and
/// after every step that does not end it the stream either reads, or sends a
/// subscription or a command.
pub proof fn lemma_stream_stops_only_on_request(
    phase: StreamPhase,
    input: StreamInput,
    shutdown_requested: bool,
)
    requires
        stream_accepts(phase, input),
    ensures
        stream_next(phase, input, shutdown_requested).2 == (StreamActionView::Finish {
            outcome: StreamOutcome::ShutdownRequested,
        }) ==> shutdown_requested,
        !shutdown_requested ==> (stream_next(phase, input, shutdown_requested).0 is Ended ==> (
        stream_next(phase, input, shutdown_requested).2 is Fail || stream_next(
            phase,
            input,
            shutdown_requested,
        ).2 == (StreamActionView::Finish { outcome: StreamOutcome::ApplicationExiting }))),
        !(stream_next(phase, input, shutdown_requested).0 is Ended) ==> (stream_next(
            phase,
            input,
            shutdown_requested,
        ).2 is Read || stream_next(phase, input, shutdown_requested).2 is Send),
{
}

/// A failed send or read ends the stream at once: nothing is published, the
/// stream fails with that error, and it takes no further input, so the
/// connection is not touched again. In particular a failed subscription ends
/// the stream before anything is read.
pub proof fn lemma_failure_ends_the_stream(phase: StreamPhase, shutdown_requested: bool, next: StreamInput)
    requires
        stream_accepts(phase, StreamInput::Failed),
    ensures
        stream_next(phase, StreamInput::Failed, shutdown_requested) == (
            StreamPhase::Ended,
            Seq::<RuntimeEventView>::empty(),
            StreamActionView::Fail,
        ),
        !stream_accepts(StreamPhase::Ended, next),
        stream_accepts(phase, StreamInput::Failed) <==> (phase is Subscribing || phase is Reading
            || phase is SendingCommand),
{
}

/// For loop iterations that each end in a sleep: how many iterations it has
/// been at iteration `k` since the last one whose connection attempt
/// succeeded (0 when iteration `k`'s own attempt succeeded), or `k` when no
/// attempt has succeeded yet.
pub open spec fn iterations_since_connected(connected: Seq<bool>, k: int) -> nat
    decreases k,
{
    if k <= 0 {
        0
    } else if connected[k] {
        0
    } else {
        iterations_since_connected(connected, k - 1) + 1
    }
}

/// The supervisor's loop iterations that end in a sleep, from a count of
/// `attempt`: in iteration `k` the attempt succeeds and the stream then fails
/// (`connected[k]`), or the attempt fails; then the supervisor sleeps and
/// tries again. The count after the iterations, and the delay each one slept.
pub open spec fn failing_iterations(attempt: usize, connected: Seq<bool>, messages: Seq<String>) -> (
    usize,
    Seq<u64>,
)
    decreases connected.len(),
{
    if connected.len() == 0 {
        (attempt, seq![])
    } else {
        let (before, delays) = failing_iterations(attempt, connected.drop_last(), messages);
        let k = connected.len() - 1;
        let state = (ReconnectPhase::Connecting, before);
        let failed = if connected.last() {
            reconnect_next(
                reconnect_next(state, ReconnectInput::Connected, false).0,
                ReconnectInput::StreamFailed { message: messages[k] },
                false,
            )
        } else {
            reconnect_next(state, ReconnectInput::ConnectFailed { message: messages[k] }, false)
        };
        let after_sleep = reconnect_next(failed.0, ReconnectInput::Slept, false).0;
        (
            after_sleep.1,
            delays.push(
                match failed.2 {
                    ReconnectAction::Sleep { seconds } => seconds,
                    _ => 0,
                },
            ),
        )
    }
}

/// The count of iterations since a success looks only at the iterations so far.
proof fn lemma_iterations_since_connected_prefix(connected: Seq<bool>, k: int)
    requires
        0 <= k < connected.len() - 1,
    ensures
        iterations_since_connected(connected.drop_last(), k) == iterations_since_connected(
            connected,
            k,
        ),
    decreases k,
{
    if k > 0 {
        lemma_iterations_since_connected_prefix(connected, k - 1);
    }
}

/// The schedule does not see the saturation of the count.
proof fn lemma_backoff_of_saturated(n: nat)
    ensures
        backoff_seconds(saturated(n) as int) == backoff_seconds(n as int),
        next_attempt(saturated(n)) == saturated(n + 1),
{
}

/// The back-off in the wording of the supervisor's loop: from a fresh start,
/// the sleep that ends iteration `k` waits `reconnect_delay(k - s)` seconds,
/// where `s` is the last iteration up to `k` whose connection attempt
/// succeeded, and `reconnect_delay(k)` seconds when none has succeeded.
pub proof fn lemma_sleeps_count_iterations_since_connected(
    connected: Seq<bool>,
    messages: Seq<String>,
)
    ensures
        failing_iterations(0, connected, messages).1.len() == connected.len(),
        forall|k: int|
            0 <= k < connected.len() ==> #[trigger] failing_iterations(0, connected, messages).1[k]
                == backoff_seconds(iterations_since_connected(connected, k) as int),
        connected.len() > 0 ==> failing_iterations(0, connected, messages).0 == saturated(
            iterations_since_connected(connected, connected.len() - 1) + 1,
        ),
    decreases connected.len(),
{
    if connected.len() > 0 {
        let rest = connected.drop_last();
        let k = connected.len() - 1;
        lemma_sleeps_count_iterations_since_connected(rest, messages);
        let (before, delays) = failing_iterations(0, rest, messages);
        let (after, all) = failing_iterations(0, connected, messages);
        assert forall|j: int| 0 <= j < k implies #[trigger] all[j] == backoff_seconds(
            iterations_since_connected(connected, j) as int,
        ) by {
            lemma_iterations_since_connected_prefix(connected, j);
            assert(all[j] == delays[j]);
            assert(delays[j] == backoff_seconds(iterations_since_connected(rest, j) as int));
        }
        assert(connected.last() == connected[k]);
        let state = (ReconnectPhase::Connecting, before);
        if connected[k] {
            let streaming = reconnect_next(state, ReconnectInput::Connected, false).0;
            assert(streaming.1 == 0);
            let failed = reconnect_next(
                streaming,
                ReconnectInput::StreamFailed { message: messages[k] },
                false,
            );
            assert(failed.2 == ReconnectAction::Sleep { seconds: backoff_seconds(0) });
            assert(iterations_since_connected(connected, k) == 0);
        } else {
            let failed = reconnect_next(
                state,
                ReconnectInput::ConnectFailed { message: messages[k] },
                false,
            );
            assert(failed.2 == ReconnectAction::Sleep { seconds: backoff_seconds(before as int) });
            if k > 0 {
                let counted: nat = iterations_since_connected(connected, k - 1) + 1;
                lemma_iterations_since_connected_prefix(connected, k - 1);
                lemma_backoff_of_saturated(counted);
                assert(iterations_since_connected(connected, k) == counted);
                assert(rest.len() - 1 == k - 1);
                assert(before == saturated(counted));
                assert(backoff_seconds(before as int) == backoff_seconds(counted as int));
            } else {
                assert(rest.len() == 0);
                assert(before == 0);
                assert(iterations_since_connected(connected, k) == 0);
            }
            assert(backoff_seconds(before as int) == backoff_seconds(
                iterations_since_connected(connected, k) as int,
            ));
        }
        assert(all[k] == backoff_seconds(iterations_since_connected(connected, k) as int));
        lemma_backoff_of_saturated(iterations_since_connected(connected, k));
    }
}

} // verus!
