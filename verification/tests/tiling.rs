use gat_gwm::protocol::{Container, GlazeEvent};
use gat_gwm::tiling::{direction_for_container, direction_for_event, direction_for_size, TilingDirection};

fn container(width: Option<f64>, height: Option<f64>) -> Container {
    Container {
        container_type: Some("window".to_string()),
        has_focus: true,
        width: width.map(f64::to_bits),
        height: height.map(f64::to_bits),
        children: Vec::new(),
    }
}

#[test]
fn wider_container_is_horizontal() {
    assert_eq!(
        direction_for_size(900.0f64.to_bits(), 600.0f64.to_bits()),
        Some(TilingDirection::Horizontal)
    );
}

#[test]
fn taller_container_is_vertical() {
    assert_eq!(
        direction_for_size(600.0f64.to_bits(), 900.0f64.to_bits()),
        Some(TilingDirection::Vertical)
    );
}

#[test]
fn square_container_does_not_change_direction() {
    assert_eq!(direction_for_size(600.0f64.to_bits(), 600.0f64.to_bits()), None);
}

#[test]
fn missing_dimensions_do_not_change_direction() {
    assert_eq!(direction_for_container(&container(None, Some(600.0))), None);
    assert_eq!(direction_for_container(&container(Some(600.0), None)), None);
}

#[test]
fn focused_container_moved_uses_nested_focused_window() {
    let event = GlazeEvent::FocusedContainerMoved {
        focused_container: Container {
            container_type: Some("split".to_string()),
            has_focus: false,
            width: None,
            height: None,
            children: vec![container(Some(400.0), Some(900.0))],
        },
    };

    assert_eq!(direction_for_event(&event), Some(TilingDirection::Vertical));
}

#[test]
fn size_comparison_agrees_with_floating_point_comparison() {
    let values = [
        0.0f64,
        -0.0,
        1.0,
        -1.0,
        0.5,
        -0.5,
        599.999,
        600.0,
        600.0000001,
        1e300,
        -1e300,
        f64::MIN_POSITIVE,
        -f64::MIN_POSITIVE,
        5e-324,
        -5e-324,
        f64::MAX,
        f64::MIN,
        f64::INFINITY,
        f64::NEG_INFINITY,
        f64::NAN,
        -f64::NAN,
    ];
    for &width in &values {
        for &height in &values {
            let expected = if width > height {
                Some(TilingDirection::Horizontal)
            } else if height > width {
                Some(TilingDirection::Vertical)
            } else {
                None
            };
            assert_eq!(
                direction_for_size(width.to_bits(), height.to_bits()),
                expected,
                "{width} x {height}"
            );
        }
    }
}

#[test]
fn focus_change_uses_the_focused_container_itself() {
    let event = GlazeEvent::FocusChanged {
        focused_container: container(Some(1000.0), Some(500.0)),
    };
    assert_eq!(direction_for_event(&event), Some(TilingDirection::Horizontal));
    assert_eq!(direction_for_event(&GlazeEvent::ApplicationExiting), None);
}

#[test]
fn commands_name_their_direction() {
    assert_eq!(TilingDirection::Horizontal.as_str(), "horizontal");
    assert_eq!(TilingDirection::Vertical.as_str(), "vertical");
    assert_eq!(
        TilingDirection::Horizontal.command(),
        "command set-tiling-direction horizontal"
    );
    assert_eq!(
        TilingDirection::Vertical.command(),
        "command set-tiling-direction vertical"
    );
}

#[test]
fn copies_of_events_are_equal_and_ask_for_the_same_direction() {
    let event = GlazeEvent::FocusedContainerMoved {
        focused_container: Container {
            container_type: Some("split".to_string()),
            has_focus: false,
            width: None,
            height: None,
            children: vec![container(Some(400.0), Some(900.0)), container(None, None)],
        },
    };
    let copy = event.clone();
    assert_eq!(copy, event);
    assert_eq!(direction_for_event(&copy), direction_for_event(&event));
    assert_eq!(GlazeEvent::ApplicationExiting.clone(), GlazeEvent::ApplicationExiting);
}
