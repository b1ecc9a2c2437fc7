use osm_sound_demo::map::camera::{
    clamp_lat, clamp_pitch, clamp_zoom, normalize_lon, CameraBoost, CameraController, DragState,
    MapCamera, PanTarget, Sums, ZoomSteps, DEFAULT_LAT, DEFAULT_LON, DEFAULT_PITCH, DEFAULT_ZOOM,
    EAST_END, MAX_LAT, MAX_PITCH, MAX_ZOOM, MIN_LAT, MIN_PITCH, MIN_ZOOM, WEST_END,
};
use osm_sound_demo::scalar::Scalar;

fn number(value: f64) -> Scalar {
    Scalar {
        bits: value.to_bits(),
    }
}

fn value(number: Scalar) -> f64 {
    f64::from_bits(number.bits)
}

fn wrap_lon(lon: f64) -> Scalar {
    number((lon + 180.0).rem_euclid(360.0) - 180.0)
}

fn wrap_bearing(bearing: f64) -> Scalar {
    number(bearing.rem_euclid(360.0))
}

/// The camera with its boost added.
fn sums(controller: &CameraController) -> Sums {
    let (camera, boost) = (controller.camera, controller.boost);
    Sums {
        zoom: number(value(camera.zoom) + value(boost.zoom)),
        bearing: wrap_bearing(value(camera.bearing) + value(boost.bearing)),
        pitch: number(value(camera.pitch) + value(boost.pitch)),
    }
}

fn view(controller: &CameraController) -> MapCamera {
    controller.effective(sums(controller))
}

/// Where a distance on screen pans to.
fn target(controller: &CameraController, dx: f64, dy: f64) -> PanTarget {
    let view = view(controller);
    let bearing = value(view.bearing).to_radians();
    let east = dx * bearing.cos() - dy * bearing.sin();
    let north = -dx * bearing.sin() - dy * bearing.cos();
    let lon_per_px = 360.0 / (256.0 * 2.0_f64.powf(value(view.zoom)));
    let lat_per_px = lon_per_px * value(view.lat).to_radians().cos().abs().max(0.1);
    PanTarget {
        lon: wrap_lon(value(controller.camera.lon) - east * lon_per_px),
        lat: number(value(controller.camera.lat) - north * lat_per_px),
    }
}

fn drag_to(controller: &mut CameraController, x: f64, y: f64) -> bool {
    let last = controller.drag_state.unwrap_or(DragState {
        x: number(x),
        y: number(y),
    });
    let target = target(controller, x - value(last.x), y - value(last.y));
    controller.mouse_moved(number(x), number(y), target)
}

fn steps(controller: &CameraController, step: f64) -> ZoomSteps {
    let zoom = value(controller.camera.zoom);
    ZoomSteps {
        out: number(zoom - step),
        closer: number(zoom + step),
    }
}

fn controller_at(lat: f64, lon: f64, zoom: f64) -> CameraController {
    let mut controller = CameraController::new();
    controller.camera.lat = clamp_lat(number(lat));
    controller.camera.lon = normalize_lon(wrap_lon(lon));
    controller.camera.zoom = clamp_zoom(number(zoom));
    controller
}

fn pressed(x: f64, y: f64) -> Option<DragState> {
    Some(DragState {
        x: number(x),
        y: number(y),
    })
}

#[test]
fn normalize_longitude_wraps_to_expected_range() {
    assert_eq!(value(normalize_lon(wrap_lon(190.0))), -170.0);
    assert_eq!(value(normalize_lon(wrap_lon(-190.0))), 170.0);
}

#[test]
fn the_date_line_is_written_one_way() {
    assert_eq!(value(normalize_lon(wrap_lon(180.0))), 180.0);
    assert_eq!(value(normalize_lon(wrap_lon(-180.0))), 180.0);
    assert_eq!(value(normalize_lon(wrap_lon(540.0))), 180.0);
}

#[test]
fn drag_with_zero_bearing_matches_screen_direction() {
    let mut controller = controller_at(0.0, 0.0, 1.0);
    controller.drag_state = pressed(100.0, 100.0);
    assert!(drag_to(&mut controller, 110.0, 90.0));
    assert!(value(controller.camera.lon) < 0.0);
    assert!(value(controller.camera.lat) < 0.0);
}

#[test]
fn drag_is_rotated_by_bearing() {
    let mut controller = controller_at(0.0, 0.0, 1.0);
    controller.camera.bearing = number(90.0);
    controller.drag_state = pressed(100.0, 100.0);
    assert!(drag_to(&mut controller, 110.0, 100.0));
    // Dragging right with the map rotated a quarter turn moves the centre along
    // the north/south axis instead of east/west.
    assert!(value(controller.camera.lat) > 0.0);
    assert!(value(controller.camera.lon).abs() < 1e-9);
}

#[test]
fn drag_without_a_press_is_ignored() {
    let mut controller = controller_at(0.0, 0.0, 1.0);
    assert!(!drag_to(&mut controller, 110.0, 90.0));
    assert_eq!(controller.camera, controller_at(0.0, 0.0, 1.0).camera);
}

#[test]
fn stick_pan_matches_a_drag_of_the_same_delta() {
    let mut dragged = controller_at(35.0, 139.0, 12.0);
    dragged.drag_state = pressed(0.0, 0.0);
    drag_to(&mut dragged, 12.0, -7.0);

    let mut panned = controller_at(35.0, 139.0, 12.0);
    let target = target(&panned, 12.0, -7.0);
    panned.pan_by(target);

    assert_eq!(dragged.camera, panned.camera);
}

#[test]
fn a_pan_stays_on_the_map() {
    let mut controller = controller_at(84.9, 179.9, 2.0);
    let before = controller.camera;
    let target = target(&controller, -400.0, 4000.0);
    controller.pan_by(target);
    assert_eq!(value(controller.camera.lat), 85.0);
    assert!(value(controller.camera.lon) > -180.0 && value(controller.camera.lon) < 0.0);
    assert_eq!(controller.camera.zoom, before.zoom);
    assert_eq!(controller.camera.bearing, before.bearing);
    assert_eq!(controller.camera.pitch, before.pitch);

    // The date line itself is reached from the east.
    controller.pan_by(PanTarget {
        lon: number(-180.0),
        lat: number(-90.0),
    });
    assert_eq!(value(controller.camera.lon), 180.0);
    assert_eq!(value(controller.camera.lat), -85.0);
}

#[test]
fn stick_pan_follows_the_bearing_on_screen() {
    let mut controller = controller_at(0.0, 0.0, 4.0);
    controller.boost = CameraBoost {
        bearing: number(90.0),
        ..CameraBoost::default()
    };
    let target = target(&controller, 10.0, 0.0);
    controller.pan_by(target);
    // A quarter turn on screen sends a sideways pan north/south instead.
    assert!(value(controller.camera.lat) > 0.0, "{:?}", controller.camera);
    assert!(
        value(controller.camera.lon).abs() < 1e-9,
        "{:?}",
        controller.camera
    );
}

#[test]
fn a_boost_shifts_the_camera_on_screen_without_moving_the_base() {
    let mut controller = controller_at(35.0, 139.0, 16.0);
    controller.camera.bearing = number(10.0);
    controller.boost = CameraBoost {
        zoom: number(-2.0),
        pitch: number(-30.0),
        bearing: number(100.0),
    };
    let shown = view(&controller);
    assert_eq!(value(shown.zoom), 14.0);
    assert_eq!(value(shown.pitch), f64::from_bits(DEFAULT_PITCH) - 30.0);
    assert_eq!(value(shown.bearing), 110.0);
    // The user's own camera is untouched, so the effect decays cleanly.
    assert_eq!(value(controller.camera.zoom), 16.0);
    assert_eq!(value(controller.camera.bearing), 10.0);

    // Boosts are clamped to what the map can actually show.
    controller.boost = CameraBoost {
        zoom: number(50.0),
        pitch: number(90.0),
        bearing: number(0.0),
    };
    let shown = view(&controller);
    assert_eq!(value(shown.zoom), f64::from_bits(MAX_ZOOM));
    assert_eq!(value(shown.pitch), f64::from_bits(MAX_PITCH));
}

#[test]
fn a_decayed_boost_shows_the_base_again() {
    let mut controller = controller_at(35.0, 139.0, 16.0);
    controller.boost = CameraBoost::default();
    assert_eq!(view(&controller), controller.camera);
}

#[test]
fn wheel_zoom_is_clamped() {
    let mut controller = controller_at(0.0, 0.0, f64::from_bits(MAX_ZOOM));
    let by = steps(&controller, 0.5);
    controller.wheel_zoomed(number(-120.0), by);
    assert_eq!(controller.camera.zoom.bits, MAX_ZOOM);

    let mut controller = controller_at(0.0, 0.0, f64::from_bits(MIN_ZOOM));
    let by = steps(&controller, 0.5);
    controller.wheel_zoomed(number(120.0), by);
    assert_eq!(controller.camera.zoom.bits, MIN_ZOOM);
}

#[test]
fn the_wheel_zooms_out_for_a_positive_delta() {
    let mut controller = controller_at(0.0, 0.0, 10.0);
    let by = steps(&controller, 0.5);
    assert!(controller.wheel_zoomed(number(1.0), by));
    assert_eq!(value(controller.camera.zoom), 9.5);
    let by = steps(&controller, 0.5);
    assert!(controller.wheel_zoomed(number(-1.0), by));
    assert_eq!(value(controller.camera.zoom), 10.0);
    let by = steps(&controller, 0.5);
    assert!(!controller.wheel_zoomed(number(-0.0), by));
    assert_eq!(value(controller.camera.zoom), 10.0);
}

#[test]
fn a_double_click_zooms_in_and_shift_zooms_out() {
    let mut controller = controller_at(0.0, 0.0, 10.0);
    let by = steps(&controller, 1.0);
    controller.double_clicked(false, by);
    assert_eq!(value(controller.camera.zoom), 11.0);
    let by = steps(&controller, 1.0);
    controller.double_clicked(true, by);
    assert_eq!(value(controller.camera.zoom), 10.0);
}

#[test]
fn the_bounds_are_the_numbers_they_say() {
    assert_eq!(f64::from_bits(MIN_ZOOM), 0.0);
    assert_eq!(f64::from_bits(MAX_ZOOM), 22.0);
    assert_eq!(f64::from_bits(MIN_PITCH), 0.0);
    assert_eq!(f64::from_bits(MAX_PITCH), 85.0);
    assert_eq!(f64::from_bits(MIN_LAT), -85.0);
    assert_eq!(f64::from_bits(MAX_LAT), 85.0);
    assert_eq!(f64::from_bits(EAST_END), 180.0);
    assert_eq!(f64::from_bits(WEST_END), -180.0);
    assert_eq!(f64::from_bits(DEFAULT_LAT), 35.680655);
    assert_eq!(f64::from_bits(DEFAULT_LON), 139.767165);
    assert_eq!(f64::from_bits(DEFAULT_ZOOM), 16.0);
    assert_eq!(f64::from_bits(DEFAULT_PITCH), 70.0);
}

#[test]
fn clamping_agrees_with_the_standard_library() {
    for text in ["-inf", "-91", "-85", "-0.0", "0", "1e-300", "22", "22.5", "85", "90", "inf"] {
        let x: f64 = text.parse().expect("a number");
        assert_eq!(clamp_zoom(number(x)).bits, x.clamp(0.0, 22.0).to_bits());
        assert_eq!(clamp_pitch(number(x)).bits, x.clamp(0.0, 85.0).to_bits());
        assert_eq!(clamp_lat(number(x)).bits, x.clamp(-85.0, 85.0).to_bits());
    }
    assert!(value(clamp_zoom(number(f64::NAN))).is_nan());
}
