use yew_flow::components::viewport::layout::Layout;
use yew_flow::components::viewport::models::{ContainerDimensions, Position, Viewport};
use yew_flow::store::Connector;

fn frame(offset_left: i64, offset_top: i64, width: i64, height: i64) -> Viewport {
    Viewport::new(Some(ContainerDimensions { offset_left, offset_top, width, height }))
}

#[test]
fn unmounted_container_gives_zero_viewport() {
    let viewport = Viewport::new(None);
    assert_eq!(
        viewport.dimensions,
        ContainerDimensions { offset_left: 0, offset_top: 0, width: 0, height: 0 }
    );
    assert_eq!(viewport.dimensions, ContainerDimensions::default());
    assert!(!viewport.is_ready());
}

#[test]
fn measured_container_is_kept_as_measured() {
    let viewport = frame(12, 34, 640, 480);
    assert_eq!(viewport.dimensions.offset_left, 12);
    assert_eq!(viewport.dimensions.offset_top, 34);
    assert_eq!(viewport.dimensions.width, 640);
    assert_eq!(viewport.dimensions.height, 480);
    assert!(viewport.is_ready());
}

#[test]
fn viewport_needs_both_extents_to_be_ready() {
    assert!(!frame(0, 0, 0, 480).is_ready());
    assert!(!frame(0, 0, 640, 0).is_ready());
    assert!(frame(0, 0, 1, 1).is_ready());
}

#[test]
fn relative_x_centres_the_element_on_the_pointer() {
    let viewport = frame(20, 10, 400, 300);
    // 200 - 20 - 150 / 2
    assert_eq!(viewport.relative_x_pos_from_abs(200, Some(150)), 105);
    // 200 - 20, no element
    assert_eq!(viewport.relative_x_pos_from_abs(200, None), 180);
}

#[test]
fn relative_y_centres_the_element_on_the_pointer() {
    let viewport = frame(20, 10, 400, 300);
    // 100 - 10 - 60 / 2
    assert_eq!(viewport.relative_y_pos_from_abs(100, Some(60)), 60);
    assert_eq!(viewport.relative_y_pos_from_abs(100, None), 90);
}

#[test]
fn relative_position_is_clamped_at_both_ends() {
    let viewport = frame(0, 0, 400, 400);
    assert_eq!(viewport.relative_x_pos_from_abs(1000, Some(150)), 250);
    assert_eq!(viewport.relative_y_pos_from_abs(1000, Some(60)), 340);
    assert_eq!(viewport.relative_x_pos_from_abs(-1000, Some(150)), 0);
    assert_eq!(viewport.relative_y_pos_from_abs(-1000, Some(60)), 0);
    assert_eq!(viewport.relative_x_pos_from_abs(1000, None), 400);
    assert_eq!(viewport.relative_y_pos_from_abs(-1, None), 0);
}

#[test]
fn relative_position_stays_in_range_for_many_pointers() {
    let viewport = frame(37, -12, 400, 300);
    let mut pointer: i64 = -2000;
    while pointer <= 2000 {
        let x = viewport.relative_x_pos_from_abs(pointer, Some(150));
        let y = viewport.relative_y_pos_from_abs(pointer, Some(60));
        assert!(0 <= x && x <= 400 - 150);
        assert!(0 <= y && y <= 300 - 60);
        pointer += 7;
    }
}

#[test]
fn relative_position_does_not_overflow_at_the_limits() {
    let viewport = frame(i64::MIN, i64::MAX, i64::MAX, i64::MAX);
    assert_eq!(viewport.relative_x_pos_from_abs(i64::MAX, None), i64::MAX);
    assert_eq!(viewport.relative_y_pos_from_abs(i64::MIN, None), 0);
    assert_eq!(viewport.relative_x_pos_from_abs(i64::MAX, Some(i64::MAX)), 0);
}

#[test]
fn element_as_large_as_the_container_has_one_place() {
    let viewport = frame(0, 0, 150, 60);
    assert_eq!(viewport.relative_x_pos_from_abs(500, Some(150)), 0);
    assert_eq!(viewport.relative_y_pos_from_abs(-500, Some(60)), 0);
}

#[test]
fn odd_element_size_is_halved_downwards() {
    let viewport = frame(0, 0, 100, 100);
    // 50 - 7 / 2 = 50 - 3
    assert_eq!(viewport.relative_x_pos_from_abs(50, Some(7)), 47);
}

#[test]
fn zero_viewport_maps_every_point_to_the_origin() {
    let viewport = Viewport::new(None);
    assert_eq!(viewport.relative_x_pos_from_abs(123, None), 0);
    assert_eq!(viewport.relative_y_pos_from_abs(-123, None), 0);
}

#[test]
fn can_hold_compares_with_both_extents() {
    let viewport = frame(0, 0, 400, 300);
    assert!(viewport.can_hold(150, 60));
    assert!(viewport.can_hold(400, 300));
    assert!(viewport.can_hold(0, 0));
    assert!(!viewport.can_hold(401, 60));
    assert!(!viewport.can_hold(150, 301));
    assert!(!viewport.can_hold(-1, 60));
}

#[test]
fn relative_pos_translates_both_coordinates() {
    let viewport = frame(100, 50, 400, 300);
    assert_eq!(
        viewport.relative_pos_from_abs(Position { x: 190, y: 95 }),
        Position { x: 90, y: 45 }
    );
    assert_eq!(
        viewport.relative_pos_from_abs(Position { x: 0, y: 1000 }),
        Position { x: 0, y: 300 }
    );
}

#[test]
fn empty_layout_resolves_nothing() {
    let layout = Layout::new();
    assert_eq!(layout.resolve(&Connector::Input("a".to_string())), None);
}

#[test]
fn layout_resolves_what_was_recorded() {
    let mut layout = Layout::new();
    layout.record(Connector::Input("a".to_string()), Position { x: 1, y: 2 });
    layout.record(Connector::Output("b".to_string()), Position { x: 3, y: 4 });
    assert_eq!(
        layout.resolve(&Connector::Input("a".to_string())),
        Some(Position { x: 1, y: 2 })
    );
    assert_eq!(
        layout.resolve(&Connector::Output("b".to_string())),
        Some(Position { x: 3, y: 4 })
    );
    assert_eq!(layout.resolve(&Connector::Input("c".to_string())), None);
}

#[test]
fn layout_tells_inputs_from_outputs_of_the_same_id() {
    let mut layout = Layout::new();
    layout.record(Connector::Input("a".to_string()), Position { x: 1, y: 2 });
    assert_eq!(layout.resolve(&Connector::Output("a".to_string())), None);
    layout.record(Connector::Output("a".to_string()), Position { x: 5, y: 6 });
    assert_eq!(
        layout.resolve(&Connector::Input("a".to_string())),
        Some(Position { x: 1, y: 2 })
    );
    assert_eq!(
        layout.resolve(&Connector::Output("a".to_string())),
        Some(Position { x: 5, y: 6 })
    );
}

#[test]
fn later_measurement_replaces_the_earlier_one() {
    let mut layout = Layout::new();
    layout.record(Connector::Input("a".to_string()), Position { x: 1, y: 2 });
    layout.record(Connector::Input("b".to_string()), Position { x: 9, y: 9 });
    layout.record(Connector::Input("a".to_string()), Position { x: 7, y: 8 });
    assert_eq!(
        layout.resolve(&Connector::Input("a".to_string())),
        Some(Position { x: 7, y: 8 })
    );
    assert_eq!(
        layout.resolve(&Connector::Input("b".to_string())),
        Some(Position { x: 9, y: 9 })
    );
}
