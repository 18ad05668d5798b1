//! Tiling directions and the rule that picks one from a window's size.
//!
//! Window dimensions arrive as IEEE 754 binary64 numbers. The library holds
//! each one as its 64-bit encoding (what `to_bits` gives), so that the
//! comparison GlazeTiler makes between width and height is stated and proved
//! exactly, NaN and signed zeros included.
use vstd::prelude::*;

use crate::protocol::{
    focused_window, focused_window_among, is_focused_window, lemma_copies_find_the_same_window,
    same_event, Container, GlazeEvent,
};

verus! {

/// The direction in which GlazeWM places the next window.
#[derive(Debug, Clone, Copy, PartialEq, Eq, Structural)]
pub enum TilingDirection {
    Horizontal,
    Vertical,
}

/// The lower-case name of a direction.
pub open spec fn direction_name(direction: TilingDirection) -> Seq<char> {
    match direction {
        TilingDirection::Horizontal => "horizontal"@,
        TilingDirection::Vertical => "vertical"@,
    }
}

/// The IPC command that sets a direction.
pub open spec fn direction_command(direction: TilingDirection) -> Seq<char> {
    "command set-tiling-direction "@ + direction_name(direction)
}

impl TilingDirection {
    /// The lower-case name of the direction.
    pub fn as_str(self) -> (name: &'static str)
        ensures
            name@ == direction_name(self),
    {
        match self {
            TilingDirection::Horizontal => "horizontal",
            TilingDirection::Vertical => "vertical",
        }
    }

    /// The GlazeWM IPC command that sets this direction.
    pub fn command(self) -> (text: &'static str)
        ensures
            text@ == direction_command(self),
    {
        proof {
            reveal_strlit("horizontal");
            reveal_strlit("vertical");
            reveal_strlit("command set-tiling-direction ");
            reveal_strlit("command set-tiling-direction horizontal");
            reveal_strlit("command set-tiling-direction vertical");
        }
        match self {
            TilingDirection::Horizontal => {
                let text = "command set-tiling-direction horizontal";
                assert(text@ =~= direction_command(self));
                text
            },
            TilingDirection::Vertical => {
                let text = "command set-tiling-direction vertical";
                assert(text@ =~= direction_command(self));
                text
            },
        }
    }
}

/// Whether the sign bit of an encoding is set.
pub open spec fn encoding_is_negative(bits: u64) -> bool {
    bits >= 0x8000_0000_0000_0000
}

/// The encoding with the sign bit cleared: exponent and fraction together.
pub open spec fn encoding_magnitude(bits: u64) -> int {
    (bits % 0x8000_0000_0000_0000) as int
}

/// Whether an encoding is a NaN: all exponent bits set and a non-zero fraction.
pub open spec fn encoding_is_nan(bits: u64) -> bool {
    encoding_magnitude(bits) > 0x7ff0_0000_0000_0000
}

/// An integer that orders non-NaN encodings as the numbers they encode: IEEE 754
/// orders such numbers by sign and then by magnitude, and both zeros map to 0.
pub open spec fn encoding_rank(bits: u64) -> int {
    if encoding_is_negative(bits) {
        -encoding_magnitude(bits)
    } else {
        encoding_magnitude(bits)
    }
}

/// `a > b` on the numbers that two encodings stand for. Any comparison with a
/// NaN is false.
pub open spec fn encoded_greater(a: u64, b: u64) -> bool {
    &&& !encoding_is_nan(a)
    &&& !encoding_is_nan(b)
    &&& encoding_rank(a) > encoding_rank(b)
}

/// The direction that a window of the given size asks for: horizontal when it is
/// wider than tall, vertical when it is taller than wide, none otherwise.
pub open spec fn size_direction(width: u64, height: u64) -> Option<TilingDirection> {
    if encoded_greater(width, height) {
        Some(TilingDirection::Horizontal)
    } else if encoded_greater(height, width) {
        Some(TilingDirection::Vertical)
    } else {
        None
    }
}

/// The direction a container asks for, when it has both dimensions.
pub open spec fn container_direction(container: Container) -> Option<TilingDirection> {
    match (container.width, container.height) {
        (Some(width), Some(height)) => size_direction(width, height),
        _ => None,
    }
}

/// The direction a GlazeWM event asks for.
pub open spec fn event_direction(event: GlazeEvent) -> Option<TilingDirection> {
    match event {
        GlazeEvent::FocusChanged { focused_container } => container_direction(focused_container),
        GlazeEvent::FocusedContainerMoved { focused_container } => match focused_window(
            focused_container,
        ) {
            Some(window) => container_direction(window),
            None => None,
        },
        GlazeEvent::ApplicationExiting => None,
    }
}

fn rank_of(bits: u64) -> (rank: i64)
    ensures
        rank == encoding_rank(bits),
{
    if bits >= 0x8000_0000_0000_0000 {
        let magnitude: u64 = bits - 0x8000_0000_0000_0000;
        -(magnitude as i64)
    } else {
        bits as i64
    }
}

fn is_nan_encoding(bits: u64) -> (nan: bool)
    ensures
        nan == encoding_is_nan(bits),
{
    let magnitude: u64 = if bits >= 0x8000_0000_0000_0000 {
        bits - 0x8000_0000_0000_0000
    } else {
        bits
    };
    magnitude > 0x7ff0_0000_0000_0000
}

/// The direction for a window `width` wide and `height` tall, both given as
/// binary64 encodings.
pub fn direction_for_size(width: u64, height: u64) -> (direction: Option<TilingDirection>)
    ensures
        direction == size_direction(width, height),
{
    if is_nan_encoding(width) || is_nan_encoding(height) {
        return None;
    }
    let width_rank = rank_of(width);
    let height_rank = rank_of(height);
    if width_rank > height_rank {
        Some(TilingDirection::Horizontal)
    } else if height_rank > width_rank {
        Some(TilingDirection::Vertical)
    } else {
        None
    }
}

/// The direction a container asks for; none when a dimension is missing.
pub fn direction_for_container(container: &Container) -> (direction: Option<TilingDirection>)
    ensures
        direction == container_direction(*container),
{
    match container.size() {
        Some((width, height)) => direction_for_size(width, height),
        None => None,
    }
}

/// The direction a GlazeWM event asks for: the focused container's for a focus
/// change, the focused window's inside the moved container for a move, none
/// for the exit notice.
pub fn direction_for_event(event: &GlazeEvent) -> (direction: Option<TilingDirection>)
    ensures
        direction == event_direction(*event),
{
    match event {
        GlazeEvent::FocusChanged { focused_container } => direction_for_container(focused_container),
        GlazeEvent::FocusedContainerMoved { focused_container } => {
            match focused_container.find_focused_window() {
                Some(window) => direction_for_container(window),
                None => None,
            }
        },
        GlazeEvent::ApplicationExiting => None,
    }
}

/// The command that sets a direction is the fixed prefix followed by the
/// direction's name.
pub proof fn lemma_command_names_direction(direction: TilingDirection)
    ensures
        direction_command(direction) == "command set-tiling-direction "@ + direction_name(direction),
        direction_command(direction).skip(("command set-tiling-direction "@).len() as int)
            == direction_name(direction),
{
    assert(direction_command(direction).skip(("command set-tiling-direction "@).len() as int)
        =~= direction_name(direction));
}

/// A window wider than tall asks for horizontal tiling exactly when the same
/// window turned on its side asks for vertical tiling.
pub proof fn lemma_direction_turns_with_window(width: u64, height: u64)
    ensures
        size_direction(width, height) == Some(TilingDirection::Horizontal) <==> size_direction(
            height,
            width,
        ) == Some(TilingDirection::Vertical),
        size_direction(width, height) is None <==> size_direction(height, width) is None,
{
}

/// A square window, or one with a NaN dimension, leaves the direction alone.
pub proof fn lemma_square_or_nan_keeps_direction(width: u64, height: u64)
    requires
        width == height || encoding_is_nan(width) || encoding_is_nan(height),
    ensures
        size_direction(width, height) is None,
{
}

/// The two zeros are the same size: a window of width +0 and height -0 (or the
/// other way round) asks for no direction.
pub proof fn lemma_signed_zeros_are_equal()
    ensures
        size_direction(0, 0x8000_0000_0000_0000) is None,
        size_direction(0x8000_0000_0000_0000, 0) is None,
{
}

/// A copy of an event asks for the same direction as the event.
pub proof fn lemma_copies_ask_for_the_same_direction(a: GlazeEvent, b: GlazeEvent)
    requires
        same_event(a, b),
    ensures
        event_direction(a) == event_direction(b),
{
    match (a, b) {
        (
            GlazeEvent::FocusedContainerMoved { focused_container: x },
            GlazeEvent::FocusedContainerMoved { focused_container: y },
        ) => {
            lemma_copies_find_the_same_window(x, y);
        },
        _ => {},
    }
}

/// A window wider than tall asks for horizontal tiling, one taller than wide
/// for vertical tiling, and any other window (square, or with a NaN
/// dimension) for none, whatever its size.
pub proof fn lemma_wider_is_horizontal_taller_is_vertical(width: u64, height: u64)
    ensures
        encoded_greater(width, height) ==> size_direction(width, height) == Some(
            TilingDirection::Horizontal,
        ),
        encoded_greater(height, width) ==> size_direction(width, height) == Some(
            TilingDirection::Vertical,
        ),
        !encoded_greater(width, height) && !encoded_greater(height, width) ==> size_direction(
            width,
            height,
        ) is None,
{
}

/// A container asks for the direction of its size, and for none without both
/// dimensions.
pub proof fn lemma_container_asks_for_its_size(container: Container)
    ensures
        (container.width matches Some(width) && container.height matches Some(height))
            ==> container_direction(container) == size_direction(
            container.width.unwrap(),
            container.height.unwrap(),
        ),
        container.width is None || container.height is None ==> container_direction(container) is None,
{
}

/// What an event asks for: a focus change asks for the direction of the
/// focused container itself; a move asks for the direction of the focused
/// window inside the moved container (none when there is none), so the
/// moved container's own size counts only when it is itself that window; the
/// exit notice asks for none.
pub proof fn lemma_event_direction_follows_the_focused_window(
    container: Container,
    resized_width: Option<u64>,
    resized_height: Option<u64>,
)
    ensures
        event_direction(GlazeEvent::FocusChanged { focused_container: container })
            == container_direction(container),
        event_direction(GlazeEvent::FocusedContainerMoved { focused_container: container })
            == match focused_window(container) {
            Some(window) => container_direction(window),
            None => None,
        },
        !is_focused_window(container) ==> event_direction(
            GlazeEvent::FocusedContainerMoved {
                focused_container: Container {
                    width: resized_width,
                    height: resized_height,
                    ..container
                },
            },
        ) == event_direction(GlazeEvent::FocusedContainerMoved { focused_container: container }),
        event_direction(GlazeEvent::ApplicationExiting) is None,
{
    let resized = Container { width: resized_width, height: resized_height, ..container };
    if !is_focused_window(container) {
        assert(!is_focused_window(resized));
        assert(resized.children@ == container.children@);
        assert(focused_window(resized) == focused_window_among(container.children@, 0));
        assert(focused_window(container) == focused_window_among(container.children@, 0));
    }
}

} // verus!
