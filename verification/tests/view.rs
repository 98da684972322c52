//! The pan/zoom view transform: coordinate conversions, event handling,
//! anchored zoom, and the draw-time matrix.

use shape_layers::rat::Frac;
use shape_layers::zoom::{
    CursorRequest, EventResponse, ViewError, ViewEvent, ViewportSize, WindowCoordinate,
    ZoomState,
};

fn vp(w: u32, h: u32) -> ViewportSize {
    ViewportSize { width: w, height: h }
}

fn win(x: i128, y: i128) -> WindowCoordinate {
    WindowCoordinate { x: Frac::from_int(x as i64), y: Frac::from_int(y as i64) }
}

fn assert_value(f: &Frac, n: i128, d: i128) {
    assert!(f.try_eq(&Frac::new(n, d)).unwrap(), "{}/{} != {}/{}", f.num(), f.den(), n, d);
}

#[test]
fn new_view_starts_at_identity() {
    let st = ZoomState::new(vp(600, 600)).unwrap();
    assert_value(&st.center.x, 0, 1);
    assert_value(&st.center.y, 0, 1);
    assert_value(&st.scale_x, 1, 1);
    assert_value(&st.scale_y, 1, 1);
    assert!(!st.dragging);
}

#[test]
fn zero_viewport_is_rejected() {
    assert!(matches!(ZoomState::new(vp(0, 600)), Err(ViewError::IllegalArgument)));
    assert!(matches!(ZoomState::new(vp(600, 0)), Err(ViewError::IllegalArgument)));
    let mut st = ZoomState::new(vp(600, 600)).unwrap();
    assert_eq!(st.set_size(vp(0, 10)), Err(ViewError::IllegalArgument));
    assert_eq!(st.size, vp(600, 600));
    assert_eq!(st.set_size(vp(800, 400)), Ok(()));
    assert_eq!(st.size, vp(800, 400));
}

#[test]
fn window_to_device_maps_corners() {
    let size = vp(600, 400);
    // Top-left corner maps to (-1, 1): device Y points up.
    let d = win(0, 0).to_gpu_coordinate(&size).unwrap();
    assert_value(&d.x, -1, 1);
    assert_value(&d.y, 1, 1);
    // Bottom-right corner maps to (1, -1).
    let d = win(600, 400).to_gpu_coordinate(&size).unwrap();
    assert_value(&d.x, 1, 1);
    assert_value(&d.y, -1, 1);
    // The center maps to the origin.
    let d = win(300, 200).to_gpu_coordinate(&size).unwrap();
    assert_value(&d.x, 0, 1);
    assert_value(&d.y, 0, 1);
}

#[test]
fn window_to_device_rejects_zero_viewport() {
    assert!(matches!(
        win(10, 10).to_gpu_coordinate(&vp(0, 400)),
        Err(ViewError::IllegalArgument)
    ));
}

#[test]
fn coordinate_round_trip() {
    // Device -> scene -> device is the identity, for an off-center point
    // and a non-trivial view.
    let size = vp(640, 480);
    let center = shape_layers::zoom::SceneCoordinate {
        x: Frac::new(31, 7),
        y: Frac::new(-12, 5),
    };
    let scale_x = Frac::new(3, 2);
    let scale_y = Frac::new(5, 4);
    let d0 = win(123, 456).to_gpu_coordinate(&size).unwrap();
    let scene = d0.to_scene_coordinate(&center, &scale_x, &scale_y, &size).unwrap();
    let d1 = scene.to_gpu_coordinate(&center, &scale_x, &scale_y, &size).unwrap();
    assert!(d0.x.try_eq(&d1.x).unwrap());
    assert!(d0.y.try_eq(&d1.y).unwrap());
}

#[test]
fn button_events_toggle_dragging() {
    let mut st = ZoomState::new(vp(600, 600)).unwrap();
    let r = st.handle_event(&ViewEvent::PrimaryButtonPressed).unwrap();
    assert_eq!(
        r,
        EventResponse { consumed: true, redraw: false, cursor: Some(CursorRequest::Grabbing) }
    );
    assert!(st.dragging);
    let r = st.handle_event(&ViewEvent::PrimaryButtonReleased).unwrap();
    assert_eq!(
        r,
        EventResponse { consumed: true, redraw: false, cursor: Some(CursorRequest::Arrow) }
    );
    assert!(!st.dragging);
}

#[test]
fn pointer_move_without_drag_only_records_position() {
    let mut st = ZoomState::new(vp(600, 600)).unwrap();
    let r = st.handle_event(&ViewEvent::PointerMoved(win(250, 100))).unwrap();
    assert_eq!(r, EventResponse { consumed: true, redraw: false, cursor: None });
    assert_value(&st.last_position.x, 250, 1);
    assert_value(&st.last_position.y, 100, 1);
    assert_value(&st.center.x, 0, 1);
    assert_value(&st.center.y, 0, 1);
}

#[test]
fn drag_pans_center() {
    // Scenario: viewport 600x600, scale (1, 1), center (0, 0); drag from
    // window (300, 300) to (310, 300): delta (-10, 0), so the center
    // moves to (-20, 0).
    let mut st = ZoomState::new(vp(600, 600)).unwrap();
    st.handle_event(&ViewEvent::PointerMoved(win(300, 300))).unwrap();
    st.handle_event(&ViewEvent::PrimaryButtonPressed).unwrap();
    let r = st.handle_event(&ViewEvent::PointerMoved(win(310, 300))).unwrap();
    assert_eq!(r, EventResponse { consumed: true, redraw: true, cursor: None });
    assert_value(&st.center.x, -20, 1);
    assert_value(&st.center.y, 0, 1);
    // The window-space Y delta flips sign: dragging down moves the
    // center up.
    st.handle_event(&ViewEvent::PointerMoved(win(310, 310))).unwrap();
    assert_value(&st.center.x, -20, 1);
    assert_value(&st.center.y, 20, 1);
}

#[test]
fn pan_superposition() {
    // Two sequential drags produce the same center as one combined drag.
    let start = {
        let mut st = ZoomState::new(vp(600, 600)).unwrap();
        st.handle_event(&ViewEvent::PointerMoved(win(300, 300))).unwrap();
        st.handle_event(&ViewEvent::ScrollDelta(1)).unwrap();
        st.handle_event(&ViewEvent::PrimaryButtonPressed).unwrap();
        st
    };
    let mut two_steps = start;
    two_steps.handle_event(&ViewEvent::PointerMoved(win(310, 290))).unwrap();
    two_steps.handle_event(&ViewEvent::PointerMoved(win(323, 284))).unwrap();
    let mut one_step = start;
    one_step.handle_event(&ViewEvent::PointerMoved(win(323, 284))).unwrap();
    assert!(two_steps.center.x.try_eq(&one_step.center.x).unwrap());
    assert!(two_steps.center.y.try_eq(&one_step.center.y).unwrap());
}

#[test]
fn zoom_at_viewport_center_keeps_center() {
    // Scenario: viewport 600x600, scale (1, 1), center (0, 0), pointer
    // at the screen center, scroll by 10: the scale becomes exactly
    // 1.001^10 on both axes and the center stays (0, 0).
    let mut st = ZoomState::new(vp(600, 600)).unwrap();
    st.handle_event(&ViewEvent::PointerMoved(win(300, 300))).unwrap();
    let r = st.handle_event(&ViewEvent::ScrollDelta(10)).unwrap();
    assert_eq!(r, EventResponse { consumed: true, redraw: true, cursor: None });
    // The exact scale components are too large for a cross-multiplied
    // comparison, so compare them directly.
    assert_eq!(st.scale_x.num(), 1001i128.pow(10));
    assert_eq!(st.scale_x.den(), 1000i128.pow(10));
    assert_eq!(st.scale_y.num(), 1001i128.pow(10));
    assert_eq!(st.scale_y.den(), 1000i128.pow(10));
    assert!(st.center.x.try_eq(&Frac::from_int(0)).unwrap());
    assert!(st.center.y.try_eq(&Frac::from_int(0)).unwrap());
}

#[test]
fn zoom_anchors_pointer_position() {
    // The scene point under the pointer maps to the same device
    // coordinate before and after the zoom.
    let size = vp(600, 600);
    let mut st = ZoomState::new(size).unwrap();
    st.handle_event(&ViewEvent::PointerMoved(win(400, 150))).unwrap();
    let d_before = st.last_position.to_gpu_coordinate(&size).unwrap();
    let anchor = d_before
        .to_scene_coordinate(&st.center, &st.scale_x, &st.scale_y, &size)
        .unwrap();
    st.handle_event(&ViewEvent::ScrollDelta(2)).unwrap();
    let d_after = anchor
        .to_gpu_coordinate(&st.center, &st.scale_x, &st.scale_y, &size)
        .unwrap();
    assert!(d_before.x.try_eq(&d_after.x).unwrap());
    assert!(d_before.y.try_eq(&d_after.y).unwrap());
}

#[test]
fn zoom_out_uses_reciprocal_multiplier() {
    let mut st = ZoomState::new(vp(600, 600)).unwrap();
    st.handle_event(&ViewEvent::PointerMoved(win(300, 300))).unwrap();
    st.handle_event(&ViewEvent::ScrollDelta(-3)).unwrap();
    let expected = Frac::new(1000i128.pow(3), 1001i128.pow(3));
    assert!(st.scale_x.try_eq(&expected).unwrap());
}

#[test]
fn huge_zoom_overflows_without_state_change() {
    let mut st = ZoomState::new(vp(600, 600)).unwrap();
    let r = st.handle_event(&ViewEvent::ScrollDelta(10_000));
    assert_eq!(r, Err(ViewError::Overflow));
    assert_value(&st.scale_x, 1, 1);
    assert_value(&st.center.x, 0, 1);
}

#[test]
fn matrix_of_identity_view() {
    let st = ZoomState::new(vp(600, 400)).unwrap();
    let m = st.matrix().unwrap();
    assert_value(&m.xx, 1, 600);
    assert_value(&m.yy, 1, 400);
    assert_value(&m.xw, 0, 1);
    assert_value(&m.yw, 0, 1);
}

#[test]
fn matrix_after_pan() {
    // After a pan, the translation entries are -center * scale / size.
    let mut st = ZoomState::new(vp(600, 600)).unwrap();
    st.handle_event(&ViewEvent::PointerMoved(win(300, 300))).unwrap();
    st.handle_event(&ViewEvent::PrimaryButtonPressed).unwrap();
    st.handle_event(&ViewEvent::PointerMoved(win(310, 295))).unwrap();
    // center is now (-20, -10), scale still (1, 1).
    assert_value(&st.center.x, -20, 1);
    assert_value(&st.center.y, -10, 1);
    let m = st.matrix().unwrap();
    assert_value(&m.xx, 1, 600);
    assert_value(&m.xw, 20, 600);
    assert_value(&m.yw, 10, 600);
}

#[test]
fn scene_conversion_rejects_zero_viewport() {
    let center = shape_layers::zoom::SceneCoordinate {
        x: Frac::from_int(0),
        y: Frac::from_int(0),
    };
    let d = shape_layers::zoom::GPUCoordinate { x: Frac::from_int(0), y: Frac::from_int(0) };
    let one = Frac::from_int(1);
    assert!(matches!(
        d.to_scene_coordinate(&center, &one, &one, &vp(600, 0)),
        Err(ViewError::IllegalArgument)
    ));
}
