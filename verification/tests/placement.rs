use layer_console::config;
use layer_console::placement::{Edge, Position, Transition};
use layer_console::window::KeyboardMode;

#[test]
fn default_position_is_top() {
    assert_eq!(Position::default(), Position::Top);
}

#[test]
fn each_position_has_the_edge_of_its_name() {
    assert_eq!(Position::Top.to_edge(), Edge::Top);
    assert_eq!(Position::Bottom.to_edge(), Edge::Bottom);
    assert_eq!(Position::Left.to_edge(), Edge::Left);
    assert_eq!(Position::Right.to_edge(), Edge::Right);
}

#[test]
fn each_position_has_its_style_class() {
    assert_eq!(Position::Top.css_class(), "top");
    assert_eq!(Position::Bottom.css_class(), "bottom");
    assert_eq!(Position::Left.css_class(), "left");
    assert_eq!(Position::Right.css_class(), "right");
}

#[test]
fn console_slides_in_away_from_its_edge() {
    assert_eq!(Position::Top.show_transition(), Transition::SlideDown);
    assert_eq!(Position::Bottom.show_transition(), Transition::SlideUp);
    assert_eq!(Position::Left.show_transition(), Transition::SlideRight);
    assert_eq!(Position::Right.show_transition(), Transition::SlideLeft);
}

#[test]
fn console_slides_out_towards_its_edge() {
    assert_eq!(Position::Top.hide_transition(), Transition::SlideUp);
    assert_eq!(Position::Bottom.hide_transition(), Transition::SlideDown);
    assert_eq!(Position::Left.hide_transition(), Transition::SlideLeft);
    assert_eq!(Position::Right.hide_transition(), Transition::SlideRight);
}

#[test]
fn configured_position_maps_to_window_position() {
    assert_eq!(config::Position::Top.as_position(), Position::Top);
    assert_eq!(config::Position::Bottom.as_position(), Position::Bottom);
    assert_eq!(config::Position::Left.as_position(), Position::Left);
    assert_eq!(config::Position::Right.as_position(), Position::Right);
}

#[test]
fn configured_keyboard_mode_maps_to_surface_mode() {
    assert_eq!(
        config::KeyboardMode::Exclusive.as_keyboard_mode(),
        KeyboardMode::Exclusive
    );
    assert_eq!(
        config::KeyboardMode::OnDemand.as_keyboard_mode(),
        KeyboardMode::OnDemand
    );
}
