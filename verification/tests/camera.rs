use boids::camera::{steer_for, Key, Steer, Zoom, ZOOM_CEILING, ZOOM_FLOOR, ZOOM_START};

const PAN_KEYS: [(Key, Key); 4] = [
    (Key::KeyW, Key::KeyS),
    (Key::ArrowUp, Key::ArrowDown),
    (Key::KeyD, Key::KeyA),
    (Key::ArrowRight, Key::ArrowLeft),
];

#[test]
fn pressed_keys_steer() {
    assert_eq!(steer_for(true, Key::KeyW), Some(Steer::Up));
    assert_eq!(steer_for(true, Key::ArrowUp), Some(Steer::Up));
    assert_eq!(steer_for(true, Key::KeyS), Some(Steer::Down));
    assert_eq!(steer_for(true, Key::ArrowDown), Some(Steer::Down));
    assert_eq!(steer_for(true, Key::KeyD), Some(Steer::Right));
    assert_eq!(steer_for(true, Key::ArrowRight), Some(Steer::Right));
    assert_eq!(steer_for(true, Key::KeyA), Some(Steer::Left));
    assert_eq!(steer_for(true, Key::ArrowLeft), Some(Steer::Left));
    assert_eq!(steer_for(true, Key::KeyE), Some(Steer::ZoomIn));
    assert_eq!(steer_for(true, Key::KeyQ), Some(Steer::ZoomOut));
}

#[test]
fn other_keys_do_not_steer() {
    assert_eq!(steer_for(true, Key::Escape), None);
    assert_eq!(steer_for(true, Key::Other), None);
}

#[test]
fn released_keys_do_not_steer() {
    for key in [
        Key::KeyW,
        Key::KeyS,
        Key::KeyA,
        Key::KeyD,
        Key::ArrowUp,
        Key::ArrowDown,
        Key::ArrowLeft,
        Key::ArrowRight,
        Key::KeyE,
        Key::KeyQ,
        Key::Escape,
        Key::Other,
    ] {
        assert_eq!(steer_for(false, key), None);
    }
}

#[test]
fn directions_are_unit_steps() {
    assert_eq!(Steer::Up.direction(), (0, 1));
    assert_eq!(Steer::Down.direction(), (0, -1));
    assert_eq!(Steer::Right.direction(), (1, 0));
    assert_eq!(Steer::Left.direction(), (-1, 0));
    assert_eq!(Steer::ZoomIn.direction(), (0, 0));
    assert_eq!(Steer::ZoomOut.direction(), (0, 0));
}

#[test]
fn opposite_pan_keys_cancel() {
    for (key, opposite) in PAN_KEYS {
        let there = steer_for(true, key).unwrap();
        let back = steer_for(true, opposite).unwrap();
        let (dx, dy) = there.direction();
        let (ex, ey) = back.direction();
        assert_eq!((dx + ex, dy + ey), (0, 0));
        assert_ne!((dx, dy), (0, 0));
    }
}

#[test]
fn panning_keeps_the_zoom() {
    let mut zoom = Zoom::new();
    for steer in [Steer::Up, Steer::Down, Steer::Left, Steer::Right] {
        zoom.apply(steer);
        assert_eq!(zoom.quarters(), ZOOM_START);
    }
}

#[test]
fn pan_round_trip_in_single_precision() {
    // A pan step is a twentieth of a unit divided by the zoom in units.
    for quarters in [2u32, 4, 39, 40, 41, 4000] {
        let step: f32 = 0.05 / (quarters as f32 * 0.25);
        let mut position: [f32; 2] = [0.0, 0.0];
        for (key, opposite) in PAN_KEYS {
            for key in [key, opposite] {
                let (dx, dy) = steer_for(true, key).unwrap().direction();
                position[0] += dx as f32 * step;
                position[1] += dy as f32 * step;
            }
            assert_eq!(position, [0.0, 0.0]);
        }
    }
}

#[test]
fn zoom_starts_at_ten_units() {
    assert_eq!(ZOOM_START, 40);
    assert_eq!(Zoom::new().quarters(), 40);
    assert_eq!(Zoom::new().quarters() as f32 * 0.25, 10.0);
}

#[test]
fn zoom_moves_by_a_quarter() {
    let mut zoom = Zoom::new();
    zoom.apply(Steer::ZoomIn);
    assert_eq!(zoom.quarters(), 41);
    assert_eq!(zoom.quarters() as f32 * 0.25, 10.25);
    zoom.apply(Steer::ZoomOut);
    zoom.apply(Steer::ZoomOut);
    assert_eq!(zoom.quarters(), 39);
    assert_eq!(zoom.quarters() as f32 * 0.25, 9.75);
}

#[test]
fn zoom_stops_at_the_floor() {
    assert_eq!(ZOOM_FLOOR, 2);
    let mut zoom = Zoom::new();
    for _ in 0..38 {
        zoom.apply(Steer::ZoomOut);
    }
    assert_eq!(zoom.quarters(), ZOOM_FLOOR);
    assert_eq!(zoom.quarters() as f32 * 0.25, 0.5);
    zoom.apply(Steer::ZoomOut);
    assert_eq!(zoom.quarters(), ZOOM_FLOOR);
    for _ in 0..100 {
        zoom.apply(Steer::ZoomOut);
        assert_eq!(zoom.quarters(), ZOOM_FLOOR);
    }
    zoom.apply(Steer::ZoomIn);
    assert_eq!(zoom.quarters(), 3);
}

#[test]
fn ceiling_is_where_quarter_steps_end() {
    assert_eq!(ZOOM_CEILING, 16_777_216);
    let top: f32 = ZOOM_CEILING as f32 * 0.25;
    assert_eq!(top, 4_194_304.0);
    // One quarter more is rounded away.
    assert_eq!(top + 0.25, top);
    // Below the ceiling every quarter step is exact.
    let below: f32 = (ZOOM_CEILING - 1) as f32 * 0.25;
    assert_eq!(below + 0.25, top);
    assert_eq!(top - 0.25, below);
}
