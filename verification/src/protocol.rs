//! The GlazeWM IPC messages that GlazeTiler acts on.
//!
//! Decoding JSON text into these values is serde's work and happens outside
//! the library; what the library decides is how a decoded (or undecodable)
//! message is classified, and which window in a container tree has focus.
use vstd::prelude::*;

verus! {

/// A GlazeWM container: a window, a split, a workspace, and so on.
///
/// `width` and `height` are the binary64 encodings (as `to_bits` gives them)
/// of the sizes that GlazeWM reports.
#[derive(Debug, PartialEq)]
pub struct Container {
    pub container_type: Option<String>,
    pub has_focus: bool,
    pub width: Option<u64>,
    pub height: Option<u64>,
    pub children: Vec<Container>,
}

/// A GlazeWM event that GlazeTiler subscribes to.
#[derive(Debug, PartialEq)]
pub enum GlazeEvent {
    FocusChanged { focused_container: Container },
    FocusedContainerMoved { focused_container: Container },
    ApplicationExiting,
}

/// Whether a container is the focused window itself.
pub open spec fn is_focused_window(container: Container) -> bool {
    &&& container.container_type matches Some(kind)
    &&& kind@ == "window"@
    &&& container.has_focus
}

/// The focused window in a container tree, searched depth first, the container
/// itself before its children and earlier children before later ones.
pub open spec fn focused_window(container: Container) -> Option<Container>
    decreases container, 0int,
{
    if is_focused_window(container) {
        Some(container)
    } else {
        focused_window_among(container.children@, 0)
    }
}

/// The first focused window found in `children[from..]`, in order.
pub open spec fn focused_window_among(children: Seq<Container>, from: int) -> Option<Container>
    decreases children, children.len() - from,
{
    if from < 0 || from >= children.len() {
        None
    } else {
        match focused_window(children[from]) {
            Some(window) => Some(window),
            None => focused_window_among(children, from + 1),
        }
    }
}

/// The size of a container, when it reports both dimensions.
pub open spec fn container_size(container: Container) -> Option<(u64, u64)> {
    match (container.width, container.height) {
        (Some(width), Some(height)) => Some((width, height)),
        _ => None,
    }
}

/// Whether two container trees are copies of each other: the same fields in
/// every container, children in the same order.
pub open spec fn same_tree(a: Container, b: Container) -> bool
    decreases a, 0int,
{
    &&& a.container_type == b.container_type
    &&& a.has_focus == b.has_focus
    &&& a.width == b.width
    &&& a.height == b.height
    &&& a.children@.len() == b.children@.len()
    &&& same_trees_from(a.children@, b.children@, 0)
}

/// Whether `xs[from..]` and `ys[from..]` are pairwise copies of each other.
pub open spec fn same_trees_from(xs: Seq<Container>, ys: Seq<Container>, from: int) -> bool
    decreases xs, xs.len() - from,
{
    if from < 0 || from >= xs.len() {
        true
    } else {
        same_tree(xs[from], ys[from]) && same_trees_from(xs, ys, from + 1)
    }
}

/// Pairwise copies from `from` on, given element by element.
proof fn lemma_same_trees_from(xs: Seq<Container>, ys: Seq<Container>, from: int)
    requires
        0 <= from <= xs.len(),
        forall|j: int| from <= j < xs.len() ==> #[trigger] same_tree(xs[j], ys[j]),
    ensures
        same_trees_from(xs, ys, from),
    decreases xs.len() - from,
{
    if from < xs.len() {
        assert(same_tree(xs[from], ys[from]));
        lemma_same_trees_from(xs, ys, from + 1);
    }
}

/// Copies find copies of the same focused window.
pub proof fn lemma_copies_find_the_same_window(a: Container, b: Container)
    requires
        same_tree(a, b),
    ensures
        match (focused_window(a), focused_window(b)) {
            (Some(x), Some(y)) => same_tree(x, y),
            (None, None) => true,
            _ => false,
        },
    decreases a, 0int,
{
    if !is_focused_window(a) {
        lemma_copies_find_the_same_window_among(a.children@, b.children@, 0);
    }
}

/// Copies of children find copies of the same focused window.
proof fn lemma_copies_find_the_same_window_among(xs: Seq<Container>, ys: Seq<Container>, from: int)
    requires
        xs.len() == ys.len(),
        0 <= from,
        same_trees_from(xs, ys, from),
    ensures
        match (focused_window_among(xs, from), focused_window_among(ys, from)) {
            (Some(x), Some(y)) => same_tree(x, y),
            (None, None) => true,
            _ => false,
        },
    decreases xs, xs.len() - from,
{
    if from < xs.len() {
        lemma_copies_find_the_same_window(xs[from], ys[from]);
        lemma_copies_find_the_same_window_among(xs, ys, from + 1);
    }
}

impl Clone for Container {
    /// A deep copy.
    fn clone(&self) -> (copy: Self)
        ensures
            same_tree(copy, *self),
        decreases self,
    {
        let mut children: Vec<Container> = Vec::new();
        let mut index: usize = 0;
        while index < self.children.len()
            invariant
                index <= self.children.len(),
                children@.len() == index,
                forall|j: int| 0 <= j < index ==> #[trigger] same_tree(children@[j], self.children@[j]),
            decreases self.children.len() - index,
        {
            proof {
                assert(decreases_to!(self => self.children@[index as int]));
            }
            let child = self.children[index].clone();
            children.push(child);
            index = index + 1;
        }
        let copy = Container {
            container_type: match &self.container_type {
                Some(kind) => Some(kind.clone()),
                None => None,
            },
            has_focus: self.has_focus,
            width: self.width,
            height: self.height,
            children,
        };
        proof {
            lemma_same_trees_from(copy.children@, self.children@, 0);
        }
        copy
    }
}

/// Whether two events are copies of each other.
pub open spec fn same_event(a: GlazeEvent, b: GlazeEvent) -> bool {
    match (a, b) {
        (
            GlazeEvent::FocusChanged { focused_container: x },
            GlazeEvent::FocusChanged { focused_container: y },
        ) => same_tree(x, y),
        (
            GlazeEvent::FocusedContainerMoved { focused_container: x },
            GlazeEvent::FocusedContainerMoved { focused_container: y },
        ) => same_tree(x, y),
        (GlazeEvent::ApplicationExiting, GlazeEvent::ApplicationExiting) => true,
        _ => false,
    }
}

impl Clone for GlazeEvent {
    /// A deep copy.
    fn clone(&self) -> (copy: Self)
        ensures
            same_event(copy, *self),
    {
        match self {
            GlazeEvent::FocusChanged { focused_container } => GlazeEvent::FocusChanged {
                focused_container: focused_container.clone(),
            },
            GlazeEvent::FocusedContainerMoved { focused_container } => GlazeEvent::FocusedContainerMoved {
                focused_container: focused_container.clone(),
            },
            GlazeEvent::ApplicationExiting => GlazeEvent::ApplicationExiting,
        }
    }
}

impl Container {
    /// Width and height, when both are present.
    pub fn size(&self) -> (size: Option<(u64, u64)>)
        ensures
            size == container_size(*self),
    {
        match (self.width, self.height) {
            (Some(width), Some(height)) => Some((width, height)),
            _ => None,
        }
    }

    /// Whether this container is a window that has focus.
    fn is_focused_window(&self) -> (focused: bool)
        ensures
            focused == is_focused_window(*self),
    {
        match &self.container_type {
            Some(kind) => {
                let window = String::from_str("window");
                self.has_focus && *kind == window
            },
            None => false,
        }
    }

    /// The focused window in this container tree, if there is one.
    pub fn find_focused_window(&self) -> (window: Option<&Container>)
        ensures
            match window {
                Some(found) => focused_window(*self) == Some(*found),
                None => focused_window(*self) is None,
            },
        decreases self,
    {
        if self.is_focused_window() {
            return Some(self);
        }
        let mut index: usize = 0;
        while index < self.children.len()
            invariant
                index <= self.children.len(),
                focused_window(*self) == focused_window_among(self.children@, index as int),
            decreases self.children.len() - index,
        {
            proof {
                assert(decreases_to!(self => self.children@[index as int]));
            }
            match self.children[index].find_focused_window() {
                Some(found) => return Some(found),
                None => {},
            }
            index = index + 1;
        }
        None
    }
}

/// The window that the search finds has focus; a focused window is found as
/// itself.
pub proof fn lemma_found_window_has_focus(container: Container)
    ensures
        focused_window(container) matches Some(window) ==> is_focused_window(window),
        is_focused_window(container) ==> focused_window(container) == Some(container),
    decreases container, 0int,
{
    if !is_focused_window(container) {
        lemma_found_window_among_has_focus(container.children@, 0);
    }
}

/// The window found among children has focus.
proof fn lemma_found_window_among_has_focus(children: Seq<Container>, from: int)
    ensures
        focused_window_among(children, from) matches Some(window) ==> is_focused_window(window),
    decreases children, children.len() - from,
{
    if 0 <= from < children.len() {
        lemma_found_window_has_focus(children[from]);
        lemma_found_window_among_has_focus(children, from + 1);
    }
}

/// Why a GlazeWM IPC message could not be used. The strings are the texts of
/// the JSON decoder's errors.
#[derive(Debug, Clone, PartialEq, Eq)]
pub enum ParseEventError {
    InvalidJson(String),
    MissingEventType,
    InvalidPayload { event_type: String, source: String },
}

/// A [`ParseEventError`] with its strings taken as character sequences.
pub enum ParseErrorView {
    InvalidJson(Seq<char>),
    MissingEventType,
    InvalidPayload { event_type: Seq<char>, source: Seq<char> },
}

impl View for ParseEventError {
    type V = ParseErrorView;

    open spec fn view(&self) -> ParseErrorView {
        match self {
            ParseEventError::InvalidJson(source) => ParseErrorView::InvalidJson(source@),
            ParseEventError::MissingEventType => ParseErrorView::MissingEventType,
            ParseEventError::InvalidPayload { event_type, source } => ParseErrorView::InvalidPayload {
                event_type: event_type@,
                source: source@,
            },
        }
    }
}

/// The text of a parse error, as it is logged.
pub open spec fn parse_error_text(error: ParseErrorView) -> Seq<char> {
    match error {
        ParseErrorView::InvalidJson(source) => "invalid GlazeWM IPC JSON: "@ + source,
        ParseErrorView::MissingEventType => "GlazeWM IPC message did not include data.eventType"@,
        ParseErrorView::InvalidPayload { event_type, source } => "invalid GlazeWM IPC payload for "@
            + event_type + ": "@ + source,
    }
}

impl ParseEventError {
    /// The text of the error, as it is logged.
    pub fn to_string(&self) -> (text: String)
        ensures
            text@ == parse_error_text(self@),
    {
        match self {
            ParseEventError::InvalidJson(source) => {
                let mut text = String::from_str("invalid GlazeWM IPC JSON: ");
                text.append(source.as_str());
                text
            },
            ParseEventError::MissingEventType => String::from_str(
                "GlazeWM IPC message did not include data.eventType",
            ),
            ParseEventError::InvalidPayload { event_type, source } => {
                let mut text = String::from_str("invalid GlazeWM IPC payload for ");
                text.append(event_type.as_str());
                text.append(": ");
                text.append(source.as_str());
                text
            },
        }
    }
}

/// A parse result with its error taken by its view.
pub open spec fn parse_result_view(result: Result<Option<GlazeEvent>, ParseEventError>) -> Result<
    Option<GlazeEvent>,
    ParseErrorView,
> {
    match result {
        Ok(event) => Ok(event),
        Err(error) => Err(error@),
    }
}

/// What the JSON decoder made of a message's `{"data": {"eventType": ...}}`
/// envelope.
#[derive(Debug, Clone, PartialEq, Eq)]
pub enum EnvelopeDecoding {
    /// The message is not JSON; the decoder's error text.
    NotJson { error: String },
    /// The envelope decoded and names this event type.
    EventType { event_type: String },
    /// The message is JSON but the envelope did not decode; whether
    /// `data.eventType` is present at all, and the decoder's error text.
    Undecodable { event_type_present: bool, error: String },
}

/// The event types whose payload carries a focused container.
pub open spec fn carries_focused_container(event_type: Seq<char>) -> bool {
    event_type == "focus_changed"@ || event_type == "focused_container_moved"@
}

/// The inputs that [`parse_glazewm_event`] takes: a focused container's decoding
/// is given exactly for the event types that carry one.
pub open spec fn decoding_complete(
    envelope: EnvelopeDecoding,
    focused_container: Option<Result<Container, String>>,
) -> bool {
    match envelope {
        EnvelopeDecoding::EventType { event_type } => carries_focused_container(event_type@)
            <==> focused_container is Some,
        _ => focused_container is None,
    }
}

/// The result of parsing a message, given how its envelope decoded and, for the
/// event types that carry one, how its focused container decoded.
pub open spec fn parsed_event(
    envelope: EnvelopeDecoding,
    focused_container: Option<Result<Container, String>>,
) -> Result<Option<GlazeEvent>, ParseErrorView> {
    match envelope {
        EnvelopeDecoding::NotJson { error } => Err(ParseErrorView::InvalidJson(error@)),
        EnvelopeDecoding::Undecodable { event_type_present, error } => if event_type_present {
            Err(ParseErrorView::InvalidPayload { event_type: "unknown"@, source: error@ })
        } else {
            Err(ParseErrorView::MissingEventType)
        },
        EnvelopeDecoding::EventType { event_type } => match focused_container {
            Some(Ok(container)) => if event_type@ == "focus_changed"@ {
                Ok(Some(GlazeEvent::FocusChanged { focused_container: container }))
            } else {
                Ok(Some(GlazeEvent::FocusedContainerMoved { focused_container: container }))
            },
            Some(Err(source)) => Err(
                ParseErrorView::InvalidPayload { event_type: event_type@, source: source@ },
            ),
            None => if event_type@ == "application_exiting"@ {
                Ok(Some(GlazeEvent::ApplicationExiting))
            } else {
                Ok(None)
            },
        },
    }
}

/// Whether messages of this event type carry a focused container that has to
/// be decoded.
pub fn needs_focused_container(event_type: &str) -> (needed: bool)
    ensures
        needed == carries_focused_container(event_type@),
{
    let event_type = String::from_str(event_type);
    let focus_changed = String::from_str("focus_changed");
    let moved = String::from_str("focused_container_moved");
    event_type == focus_changed || event_type == moved
}

/// Parses a GlazeWM IPC message from what the JSON decoder made of it: text
/// that is not JSON is invalid; an envelope without `data.eventType` is missing
/// its event type; another envelope that does not decode is an invalid payload
/// of unknown type; focus events carry their decoded focused container (or
/// fail with its decoding error); the exit notice carries nothing; other event
/// types are not for GlazeTiler and give no event.
pub fn parse_glazewm_event(
    envelope: EnvelopeDecoding,
    focused_container: Option<Result<Container, String>>,
) -> (parsed: Result<Option<GlazeEvent>, ParseEventError>)
    requires
        decoding_complete(envelope, focused_container),
    ensures
        parse_result_view(parsed) == parsed_event(envelope, focused_container),
{
    match envelope {
        EnvelopeDecoding::NotJson { error } => Err(ParseEventError::InvalidJson(error)),
        EnvelopeDecoding::Undecodable { event_type_present, error } => {
            if event_type_present {
                Err(
                    ParseEventError::InvalidPayload {
                        event_type: String::from_str("unknown"),
                        source: error,
                    },
                )
            } else {
                Err(ParseEventError::MissingEventType)
            }
        },
        EnvelopeDecoding::EventType { event_type } => {
            let focus_changed = String::from_str("focus_changed");
            let exiting = String::from_str("application_exiting");
            match focused_container {
                Some(Ok(container)) => {
                    if event_type == focus_changed {
                        Ok(Some(GlazeEvent::FocusChanged { focused_container: container }))
                    } else {
                        Ok(Some(GlazeEvent::FocusedContainerMoved { focused_container: container }))
                    }
                },
                Some(Err(source)) => Err(ParseEventError::InvalidPayload { event_type, source }),
                None => {
                    if event_type == exiting {
                        Ok(Some(GlazeEvent::ApplicationExiting))
                    } else {
                        Ok(None)
                    }
                },
            }
        },
    }
}

/// How a message is classified: the event type names the event (a focus
/// change, a move of the focused container, or the exit notice), carrying the
/// focused container as it decoded; a focused container that fails to decode
/// is an invalid payload of that event type; other event types give no event;
/// text that is not JSON is invalid JSON; an envelope that does not decode is
/// missing its event type when `data.eventType` is absent, and otherwise an
/// invalid payload of unknown type.
pub proof fn lemma_event_type_decides_the_event(
    event_type: String,
    container: Container,
    error: String,
    event_type_present: bool,
)
    ensures
        event_type@ == "focus_changed"@ ==> parsed_event(
            EnvelopeDecoding::EventType { event_type },
            Some(Ok(container)),
        ) == Ok::<Option<GlazeEvent>, ParseErrorView>(
            Some(GlazeEvent::FocusChanged { focused_container: container }),
        ),
        event_type@ == "focused_container_moved"@ ==> parsed_event(
            EnvelopeDecoding::EventType { event_type },
            Some(Ok(container)),
        ) == Ok::<Option<GlazeEvent>, ParseErrorView>(
            Some(GlazeEvent::FocusedContainerMoved { focused_container: container }),
        ),
        carries_focused_container(event_type@) ==> parsed_event(
            EnvelopeDecoding::EventType { event_type },
            Some(Err(error)),
        ) == Err::<Option<GlazeEvent>, ParseErrorView>(
            ParseErrorView::InvalidPayload { event_type: event_type@, source: error@ },
        ),
        event_type@ == "application_exiting"@ ==> parsed_event(
            EnvelopeDecoding::EventType { event_type },
            None,
        ) == Ok::<Option<GlazeEvent>, ParseErrorView>(Some(GlazeEvent::ApplicationExiting)),
        !carries_focused_container(event_type@) && event_type@ != "application_exiting"@
            ==> parsed_event(EnvelopeDecoding::EventType { event_type }, None) == Ok::<
            Option<GlazeEvent>,
            ParseErrorView,
        >(None),
        parsed_event(EnvelopeDecoding::NotJson { error }, None) == Err::<
            Option<GlazeEvent>,
            ParseErrorView,
        >(ParseErrorView::InvalidJson(error@)),
        parsed_event(EnvelopeDecoding::Undecodable { event_type_present, error }, None) == if event_type_present {
            Err::<Option<GlazeEvent>, ParseErrorView>(
                ParseErrorView::InvalidPayload { event_type: "unknown"@, source: error@ },
            )
        } else {
            Err::<Option<GlazeEvent>, ParseErrorView>(ParseErrorView::MissingEventType)
        },
{
    reveal_strlit("focus_changed");
    reveal_strlit("focused_container_moved");
    assert("focus_changed"@.len() != "focused_container_moved"@.len());
}

} // verus!
