use osm_sound_demo::audio::BINS;
use osm_sound_demo::map::camera::{
    CameraBoost, MapCamera, PanTarget, Sums, ZoomSteps,
};
use osm_sound_demo::map::engine::{
    default_style_url, next_pass, start_pass, Attached, CameraMove, Engine, Heard, MapEvent,
    Missing, Pass, Reported, Request, Stage,
};
use osm_sound_demo::map::handle::{frame_ends_flight, Command, Frame, MapLibre};
use osm_sound_demo::map::style::{Band, Light};
use osm_sound_demo::scalar::Scalar;

const SIZE: (u32, u32) = (4, 3);
const STYLE: &str = "https://tile.openstreetmap.jp/styles/maptiler-toner-ja/style.json";

fn number(value: f64) -> Scalar {
    Scalar {
        bits: value.to_bits(),
    }
}

fn value(number: Scalar) -> f64 {
    f64::from_bits(number.bits)
}

fn engine() -> Engine {
    Engine::new(SIZE, default_style_url(None))
}

/// An engine with a map whose style has loaded, and nothing left to draw.
fn ready() -> Engine {
    let mut engine = engine();
    engine.runtime_created();
    engine.map_attached();
    engine.pump(&vec![MapEvent::StyleLoaded], None);
    engine.layers_added();
    draw(&mut engine, None).expect("a frame");
    engine
}

fn draw(engine: &mut Engine, reported: Option<Reported>) -> Option<Frame> {
    let rgba = vec![9; engine.frame_bytes()];
    engine.render(engine.size.0, engine.size.1, rgba, reported)
}

fn report(lat: f64, lon: f64, zoom: f64) -> Reported {
    Reported {
        center: Some((number(lat), number(lon))),
        zoom: Some(number(zoom)),
        bearing: None,
        pitch: None,
    }
}

fn camera(lat: f64, lon: f64, zoom: f64) -> MapCamera {
    MapCamera {
        lat: number(lat),
        lon: number(lon),
        zoom: number(zoom),
        ..MapCamera::default()
    }
}

fn sums(map: &MapLibre) -> Sums {
    let (camera, boost) = (map.controller.camera, map.controller.boost);
    Sums {
        zoom: number(value(camera.zoom) + value(boost.zoom)),
        bearing: number((value(camera.bearing) + value(boost.bearing)).rem_euclid(360.0)),
        pitch: number(value(camera.pitch) + value(boost.pitch)),
    }
}

/// The camera a command publishes.
fn published(command: Option<Command>) -> MapCamera {
    match command {
        Some(Command::Camera(camera)) => camera,
        _ => panic!("not a camera"),
    }
}

#[test]
fn a_stale_frame_cannot_end_a_flight() {
    // Drawn before the fly-to reached the render thread: it belongs to the
    // flight before this one, or to none at all.
    assert!(!frame_ends_flight(None, false, 1));
    assert!(!frame_ends_flight(Some(0), false, 1));
    // In the air, so not over whatever it says about the flight.
    assert!(!frame_ends_flight(Some(1), true, 1));
    // Drawn after the command landed, and reporting the flight done.
    assert!(frame_ends_flight(Some(1), false, 1));
    // Still true for later frames, so a dropped landing frame is not the only
    // chance the UI gets.
    assert!(frame_ends_flight(Some(1), false, 1));
}

#[test]
fn the_style_can_be_overridden() {
    assert_eq!(default_style_url(None), STYLE);
    assert_eq!(default_style_url(Some("")), STYLE);
    assert_eq!(default_style_url(Some(" \t\n")), STYLE);
    assert_eq!(default_style_url(Some(" file:///a.json ")), "file:///a.json");
}

#[test]
fn a_new_engine_has_everything_to_bring_up() {
    let mut engine = engine();
    assert!(engine.wants_frame());
    assert_eq!(engine.ensure_map(), Missing::TheRuntime);
    engine.runtime_created();
    assert_eq!(engine.ensure_map(), Missing::TheMap);
    engine.map_attached();
    assert_eq!(engine.ensure_map(), Missing::Nothing);
    assert_eq!(engine.close(), (true, true));
    assert_eq!(engine.close(), (false, false));
    assert_eq!(engine.ensure_map(), Missing::TheRuntime);
}

#[test]
fn layers_wait_for_the_style() {
    let mut engine = engine();
    let gaps = vec![number(0.0); BINS];
    assert!(!engine.layers_due());
    engine.runtime_created();
    engine.map_attached();
    assert!(!engine.layers_due());
    assert!(!engine.sync_light(Light::default()));
    engine.pump(&vec![MapEvent::StyleLoaded], None);
    assert!(engine.layers_due());
    assert!(engine.sync_light(Light::default()));
    assert!(engine.sync_bands(&gaps).is_empty());
    engine.layers_added();
    assert!(!engine.layers_due());
    // Nothing is applied yet, so every band is due however small the gap.
    assert_eq!(engine.sync_bands(&gaps), (0..BINS).collect::<Vec<usize>>());
}

#[test]
fn only_bands_that_moved_are_set_again() {
    let mut engine = ready();
    for band in 0..BINS {
        engine.band_set(band);
    }
    let mut bands = vec![Band::default(); BINS];
    bands[3].height = number(50.0);
    bands[7].height = number(1.0);
    assert_eq!(engine.apply(Command::Bands(bands.clone())), None);
    assert!(engine.wants_frame());
    let gaps: Vec<Scalar> = engine
        .bands
        .iter()
        .zip(engine.applied.iter())
        .map(|(target, applied)| {
            number(applied.map_or(0.0, |band| value(band.height)) - value(target.height))
        })
        .collect();
    // The one that moved by a metre would not be visible.
    assert_eq!(engine.sync_bands(&gaps), vec![3]);
    engine.band_set(3);
    assert_eq!(engine.applied[3], Some(bands[3]));
    assert_eq!(engine.applied[7], Some(Band::default()));
}

#[test]
fn a_light_is_set_once_even_when_the_style_has_none() {
    let mut engine = ready();
    assert!(engine.sync_light(Light::default()));
    engine.light_set();
    assert!(!engine.sync_light(Light::default()));
    let far = Light {
        hue: number(40.0),
        ..Light::default()
    };
    assert!(engine.sync_light(far));
}

#[test]
fn a_command_that_says_nothing_new_draws_nothing() {
    let mut engine = ready();
    assert!(!engine.wants_frame());
    for command in [
        Command::Resize(SIZE.0, SIZE.1),
        Command::Style(STYLE.to_owned()),
        Command::Camera(MapCamera::default()),
        Command::Bands(vec![Band::default(); BINS]),
        Command::Light(Light::default()),
    ] {
        assert_eq!(engine.apply(command), None);
        assert!(!engine.wants_frame());
    }
}

#[test]
fn a_resize_keeps_the_loaded_style() {
    let mut engine = ready();
    assert_eq!(
        engine.apply(Command::Resize(8, 6)),
        Some(Request::ResizeTarget(8, 6))
    );
    assert_eq!(
        engine.map,
        Some(Attached {
            layers: true,
            style_loaded: true
        })
    );
    assert_eq!(engine.frame_bytes(), 8 * 6 * 4);
    engine.light_set();
    engine.resize_failed();
    assert_eq!(engine.map, None);
    assert_eq!(engine.applied_light, None);
    assert!(engine.applied.iter().all(|applied| applied.is_none()));
}

#[test]
fn another_style_starts_over() {
    let mut engine = ready();
    engine.light_set();
    assert_eq!(
        engine.apply(Command::Style("other".to_owned())),
        Some(Request::LoadStyle)
    );
    assert_eq!(
        engine.map,
        Some(Attached {
            layers: false,
            style_loaded: false
        })
    );
    assert_eq!(engine.applied_light, None);
    assert!(engine.wants_frame());
}

#[test]
fn before_there_is_a_map_nothing_is_asked_of_it() {
    let mut engine = engine();
    assert_eq!(engine.apply(Command::Resize(8, 6)), None);
    assert_eq!(engine.apply(Command::Style("other".to_owned())), None);
    engine.apply(Command::FlyTo {
        camera: camera(1.0, 2.0, 3.0),
        duration_ms: None,
        id: 1,
    });
    assert_eq!(engine.apply(Command::Camera(camera(4.0, 5.0, 6.0))), None);
    assert!(engine.flight_id.is_none());
    assert!(matches!(engine.move_camera(), CameraMove::Jump(to) if to == camera(4.0, 5.0, 6.0)));
}

#[test]
fn a_camera_command_grounds_a_flight_that_has_not_taken_off() {
    let mut engine = ready();
    engine.apply(Command::FlyTo {
        camera: camera(1.0, 2.0, 3.0),
        duration_ms: None,
        id: 7,
    });
    assert!(engine.pending_fly.is_some());
    // Both arrive before the next frame.
    assert_eq!(
        engine.apply(Command::Camera(camera(4.0, 5.0, 6.0))),
        Some(Request::CancelTransitions)
    );
    engine.apply(Command::Resize(16, 12));
    assert!(engine.flight_id.is_none());
    assert!(engine.pending_fly.is_none());
    assert_eq!(engine.camera, camera(4.0, 5.0, 6.0));
    assert!(matches!(engine.move_camera(), CameraMove::Jump(to) if to == camera(4.0, 5.0, 6.0)));
}

#[test]
fn events_decide_whether_to_draw_again() {
    let mut engine = ready();
    engine.pump(&vec![MapEvent::Other, MapEvent::FrameFinished(false)], None);
    assert!(!engine.wants_frame());
    engine.pump(&vec![MapEvent::FrameFinished(true)], None);
    assert!(engine.wants_frame());
    engine.pump(&vec![], None);
    assert!(!engine.wants_frame());
    engine.pump(&vec![MapEvent::UpdateAvailable, MapEvent::FrameFinished(false)], None);
    assert!(engine.wants_frame());
    // A frame settles what the UI asked for, not what the map wants.
    draw(&mut engine, None);
    assert!(engine.wants_frame());
}

#[test]
fn a_fly_to_reaches_its_destination() {
    let target = camera(34.7034131, 135.4975879, 12.0);
    let mut engine = ready();
    engine.apply(Command::FlyTo {
        camera: target,
        duration_ms: Some(number(800.0)),
        id: 7,
    });
    match engine.move_camera() {
        CameraMove::Fly(flight) => {
            assert_eq!(flight.id, 7);
            assert_eq!(flight.camera, target);
        }
        _ => panic!("the flight never started"),
    }
    // The map reports its own camera while it is in the air.
    let frame = draw(&mut engine, Some(report(35.0, 137.0, 9.0))).expect("a frame");
    assert!(frame.flying);
    assert_eq!(frame.flight, Some(7));
    assert_eq!(frame.camera.map(|camera| value(camera.lon)), Some(137.0));
    assert!(matches!(engine.move_camera(), CameraMove::Leave));

    // Another flight's end is not this one's.
    assert!(!engine.landing(&vec![MapEvent::TransitionFinished(6)]));
    engine.pump(&vec![MapEvent::TransitionFinished(6)], None);
    assert_eq!(engine.flight_id, Some(7));

    let events = vec![MapEvent::Other, MapEvent::TransitionFinished(7)];
    assert!(engine.landing(&events));
    engine.pump(&events, Some(report(34.7034131, 135.4975879, 12.0)));
    assert!(engine.flight_id.is_none());
    assert!(engine.reports_camera());
    let landing = draw(&mut engine, Some(report(34.7034131, 135.4975879, 12.0))).expect("a frame");
    // The engine knowing where it landed is not enough: the UI only ever learns
    // the camera from a frame.
    assert!(!landing.flying);
    let reported = landing.camera.expect("the landing frame reports");
    assert!((value(reported.zoom) - 12.0).abs() < 0.01);
    assert!((value(engine.camera.lat) - 34.7034131).abs() < 0.01);
    assert!((value(engine.camera.lon) - 135.4975879).abs() < 0.01);
    assert!((value(engine.camera.zoom) - 12.0).abs() < 0.01);
    // And it is reported once.
    assert!(!engine.reports_camera());
}

#[test]
fn a_camera_command_cancels_a_fly_to() {
    let mut engine = ready();
    engine.apply(Command::FlyTo {
        camera: camera(-1.279803, 36.816647, 12.0),
        duration_ms: Some(number(6000.0)),
        id: 11,
    });
    engine.move_camera();
    draw(&mut engine, None).expect("a frame starts the flight");
    assert!(engine.flight_id.is_some(), "the flight never started");

    let taken_back = camera(43.06868, 141.35079, 16.0);
    assert_eq!(
        engine.apply(Command::Camera(taken_back)),
        Some(Request::CancelTransitions)
    );
    assert!(engine.flight_id.is_none(), "the flight was not cancelled");

    assert!(matches!(engine.move_camera(), CameraMove::Jump(to) if to == taken_back));
    draw(&mut engine, None).expect("a frame after the cancel");
    assert!((value(engine.camera.lon) - value(taken_back.lon)).abs() < 0.01);
}

#[test]
fn a_flight_the_map_refuses_is_over() {
    let mut engine = ready();
    engine.apply(Command::FlyTo {
        camera: camera(1.0, 2.0, 3.0),
        duration_ms: None,
        id: 5,
    });
    engine.move_camera();
    engine.fly_failed();
    let frame = draw(&mut engine, None).expect("a frame");
    assert!(frame_ends_flight(frame.flight, frame.flying, 5));
}

#[test]
fn a_frame_of_another_size_is_skipped() {
    let mut engine = ready();
    engine.request_camera_report();
    let rgba = vec![0; engine.frame_bytes()];
    assert!(engine.render(5, 3, rgba, Some(report(1.0, 2.0, 3.0))).is_none());
    assert!(!engine.wants_frame());
    // Nothing was reported, so the report is still owed.
    assert!(engine.reports_camera());
}

#[test]
fn a_failed_frame_waits_for_something_new() {
    let mut engine = ready();
    engine.mark_dirty();
    engine.render_failed();
    assert!(!engine.wants_frame());
}

#[test]
fn a_dropped_frame_sends_its_camera_again() {
    let mut engine = ready();
    engine.frame_offered(true, true);
    engine.frame_offered(false, false);
    assert!(!engine.wants_frame());
    engine.frame_offered(false, true);
    assert!(engine.wants_frame());
    let frame = draw(&mut engine, Some(report(1.0, 2.0, 3.0))).expect("a frame");
    assert!(frame.camera.is_some());
    assert!(!frame.flying);
}

#[test]
fn a_report_fills_in_only_what_it_says() {
    let home = MapCamera::default();
    let reported = Reported {
        center: None,
        zoom: Some(number(3.0)),
        bearing: None,
        pitch: Some(number(4.0)),
    };
    let camera = home.with(reported);
    assert_eq!(camera.lat, home.lat);
    assert_eq!(camera.lon, home.lon);
    assert_eq!(value(camera.zoom), 3.0);
    assert_eq!(camera.bearing, home.bearing);
    assert_eq!(value(camera.pitch), 4.0);
}

#[test]
fn the_render_thread_goes_round() {
    assert_eq!(start_pass(false), Pass::Wait);
    assert_eq!(start_pass(true), Pass::Drain);
    assert_eq!(next_pass(Pass::Wait, Heard::Silence, false), Pass::Drain);
    assert_eq!(next_pass(Pass::Wait, Heard::Hangup, true), Pass::End);
    assert_eq!(next_pass(Pass::Drain, Heard::Something, true), Pass::Drain);
    assert_eq!(next_pass(Pass::Drain, Heard::Silence, false), Pass::Turn);
    assert_eq!(next_pass(Pass::Drain, Heard::Hangup, true), Pass::End);
    assert_eq!(next_pass(Pass::Turn, Heard::Silence, true), Pass::Draw);
    assert_eq!(next_pass(Pass::Turn, Heard::Silence, false), Pass::Wait);
    assert_eq!(next_pass(Pass::Draw, Heard::Silence, true), Pass::Drain);
    assert_eq!(next_pass(Pass::Draw, Heard::Silence, false), Pass::Wait);
    assert_eq!(next_pass(Pass::End, Heard::Something, true), Pass::End);
}

/// The stages of a frame in which these fail.
fn stages(engine: &mut Engine, failing: &[Stage]) -> Vec<Stage> {
    let mut stage = Stage::BringUp;
    let mut reached = vec![stage];
    while stage != Stage::Finished && stage != Stage::Abandoned {
        stage = engine.stage_over(stage, !failing.contains(&stage));
        reached.push(stage);
    }
    reached
}

#[test]
fn a_frame_is_drawn_stage_by_stage() {
    let mut engine = ready();
    let all = [
        Stage::BringUp,
        Stage::AddLayers,
        Stage::SetHeights,
        Stage::SetLight,
        Stage::MoveCamera,
        Stage::Draw,
        Stage::ReadBack,
        Stage::Finish,
        Stage::Finished,
    ];
    assert_eq!(stages(&mut engine, &[]), all);
    assert_eq!(
        stages(&mut engine, &[Stage::SetHeights, Stage::SetLight]),
        all
    );
    assert_eq!(
        stages(&mut engine, &[Stage::BringUp]),
        [Stage::BringUp, Stage::Abandoned]
    );
    assert!(!stages(&mut engine, &[Stage::AddLayers]).contains(&Stage::SetHeights));
    assert_eq!(
        stages(&mut engine, &[Stage::Finish]).last(),
        Some(&Stage::Abandoned)
    );
}

#[test]
fn what_came_of_a_stage_is_taken_in() {
    let mut engine = engine();
    engine.runtime_created();
    engine.map_attached();
    engine.stage_over(Stage::AddLayers, true);
    assert!(!engine.map.expect("a map").layers);
    engine.pump(&vec![MapEvent::StyleLoaded], None);
    engine.stage_over(Stage::AddLayers, false);
    assert!(engine.layers_due());
    engine.stage_over(Stage::AddLayers, true);
    assert!(!engine.layers_due());
    assert!(engine.map.expect("a map").layers);

    engine.apply(Command::FlyTo {
        camera: camera(1.0, 2.0, 3.0),
        duration_ms: None,
        id: 7,
    });
    engine.move_camera();
    engine.stage_over(Stage::MoveCamera, true);
    assert_eq!(engine.flight_id, Some(7));
    engine.stage_over(Stage::MoveCamera, false);
    assert_eq!(engine.flight_id, None);

    for stage in [Stage::Draw, Stage::ReadBack] {
        engine.mark_dirty();
        assert_ne!(engine.stage_over(stage, true), Stage::Abandoned);
        assert!(engine.wants_frame());
        assert_eq!(engine.stage_over(stage, false), Stage::Abandoned);
        assert!(!engine.wants_frame());
    }
}

#[test]
fn a_flight_goes_there_and_back_through_both_ends() {
    let mut map = MapLibre::new(SIZE);
    let mut engine = ready();
    let stale = draw(&mut engine, None).expect("a frame");

    let command = map.fly_to(number(34.7), number(135.5), number(12.0), None);
    assert!(map.flying());
    // A frame drawn before the command arrived cannot end the flight.
    assert!(map.take_frame(vec![stale]).is_some());
    assert!(map.flying());

    engine.apply(command);
    engine.move_camera();
    let aloft = draw(&mut engine, Some(report(35.0, 137.0, 9.0))).expect("a frame");
    map.take_frame(vec![aloft]);
    assert!(map.flying());
    // While the map flies it owns the camera, and the handle follows.
    assert_eq!(value(map.controller.camera.lon), 137.0);

    engine.pump(&vec![MapEvent::TransitionFinished(1)], None);
    let landing = draw(&mut engine, Some(report(34.7, 135.5, 12.0))).expect("a frame");
    map.take_frame(vec![landing]);
    assert!(!map.flying());
    assert_eq!(value(map.controller.camera.zoom), 12.0);
}

#[test]
fn the_newest_frame_is_the_one_that_is_shown() {
    let mut map = MapLibre::new(SIZE);
    assert!(map.take_frame(Vec::new()).is_none());
    let frame = |flight: u64| Frame {
        width: 1,
        height: 1,
        rgba: vec![0; 4],
        camera: None,
        flying: false,
        flight: Some(flight),
    };
    let shown = map.take_frame(vec![frame(1), frame(2)]).expect("a frame");
    assert_eq!(shown.flight, Some(2));
}

#[test]
fn moving_the_camera_takes_the_wheel_back() {
    let mut map = MapLibre::new(SIZE);
    map.fly_to(number(0.0), number(0.0), number(5.0), None);
    let by = sums(&map);
    match map.push_camera(by) {
        Command::Camera(camera) => assert_eq!(camera, MapCamera::default()),
        _ => panic!("not a camera"),
    }
    assert!(!map.flying());
}

#[test]
fn a_flight_is_held_to_the_map() {
    let mut map = MapLibre::new(SIZE);
    map.mouse_pressed(number(1.0), number(2.0));
    match map.fly_to(number(95.0), number(-180.0), number(30.0), Some(number(9.0))) {
        Command::FlyTo {
            camera,
            duration_ms,
            id,
        } => {
            assert_eq!(value(camera.lat), 85.0);
            assert_eq!(value(camera.lon), 180.0);
            assert_eq!(value(camera.zoom), 22.0);
            assert_eq!(value(camera.pitch), 70.0);
            assert_eq!(duration_ms, Some(number(9.0)));
            assert_eq!(id, 1);
        }
        _ => panic!("not a flight"),
    }
    assert!(map.controller.drag_state.is_none());
    assert_eq!(map.controller.camera, MapCamera::default());
}

#[test]
fn nudges_of_nothing_move_nothing() {
    let mut map = MapLibre::new(SIZE);
    map.fly_to(number(0.0), number(0.0), number(5.0), None);
    let zero = number(0.0);
    let target = PanTarget { lon: zero, lat: zero };
    let by = sums(&map);
    assert!(map.pan_by(zero, number(-0.0), target, by).is_none());
    assert!(map.nudge_zoom(zero, number(3.0), by).is_none());
    assert!(map.nudge_bearing(zero, number(3.0), by).is_none());
    assert!(map.set_boost(CameraBoost::default(), by).is_none());
    assert!(map.mouse_moved(number(1.0), number(1.0), target, by).is_none());
    let steps = ZoomSteps {
        out: number(1.0),
        closer: number(2.0),
    };
    assert!(map.wheel_zoomed(zero, steps, by).is_none());
    assert_eq!(map.controller.camera, MapCamera::default());
    assert!(map.flying());
}

#[test]
fn a_move_publishes_where_the_camera_then_is() {
    let mut map = MapLibre::new(SIZE);
    map.fly_to(number(0.0), number(0.0), number(5.0), None);
    let zero = number(0.0);
    let target = PanTarget { lon: zero, lat: zero };

    // What a move comes to does not depend on the sums, so a copy shows them.
    let mut copy = map;
    copy.pan_by(zero, number(1.0), target, sums(&map));
    let camera = published(map.pan_by(zero, number(1.0), target, sums(&copy)));
    assert_eq!(value(camera.lat), 0.0);
    assert_eq!(value(camera.lon), 0.0);
    assert_eq!(camera, map.camera(sums(&map)));
    assert!(!map.flying());

    let mut copy = map;
    copy.nudge_zoom(number(40.0), number(56.0), sums(&map));
    let camera = published(map.nudge_zoom(number(40.0), number(56.0), sums(&copy)));
    assert_eq!(value(camera.zoom), 22.0);

    let mut copy = map;
    copy.nudge_bearing(number(1.0), number(1.0), sums(&map));
    let camera = published(map.nudge_bearing(number(1.0), number(1.0), sums(&copy)));
    assert_eq!(value(camera.bearing), 1.0);
    assert_eq!(value(map.controller.camera.zoom), 22.0);

    let boost = CameraBoost {
        zoom: number(-2.5),
        ..CameraBoost::default()
    };
    let mut copy = map;
    copy.set_boost(boost, sums(&map));
    let camera = published(map.set_boost(boost, sums(&copy)));
    assert_eq!(value(camera.zoom), 19.5);
    // The base camera stays where the user left it.
    assert_eq!(value(map.controller.camera.zoom), 22.0);
}

#[test]
fn a_move_cancels_the_flight_on_both_ends() {
    let mut map = MapLibre::new(SIZE);
    let mut engine = ready();
    let flight = map.fly_to(number(34.7), number(135.5), number(12.0), None);
    engine.apply(flight);
    let by = sums(&map);
    let moved = map.set_zoom(number(9.0), by);
    assert!(!map.flying());
    engine.apply(moved);
    assert!(engine.flight_id.is_none());
    assert!(matches!(engine.move_camera(), CameraMove::Jump(_)));
}

#[test]
fn the_handle_forwards_the_pointer() {
    let mut map = MapLibre::new(SIZE);
    let target = PanTarget {
        lon: number(10.0),
        lat: number(20.0),
    };
    map.mouse_pressed(number(5.0), number(5.0));
    let by = sums(&map);
    let camera = published(map.mouse_moved(number(6.0), number(7.0), target, by));
    assert_eq!(value(camera.lon), 10.0);
    assert_eq!(value(map.controller.camera.lon), 10.0);
    map.mouse_released();
    assert!(map.mouse_moved(number(8.0), number(9.0), target, by).is_none());
    let steps = ZoomSteps {
        out: number(15.0),
        closer: number(17.0),
    };
    let by = Sums {
        zoom: number(17.0),
        ..sums(&map)
    };
    let camera = published(map.wheel_zoomed(number(-1.0), steps, by));
    assert_eq!(value(camera.zoom), 17.0);
    assert_eq!(value(map.controller.camera.zoom), 17.0);
    let by = Sums {
        zoom: number(15.0),
        ..sums(&map)
    };
    let camera = published(Some(map.double_clicked(true, steps, by)));
    assert_eq!(value(camera.zoom), 15.0);
    assert_eq!(value(map.controller.camera.zoom), 15.0);
}

#[test]
fn setters_hold_the_camera_to_the_map() {
    let mut map = MapLibre::new(SIZE);
    let by = sums(&map);
    map.set_pitch(number(100.0), by);
    map.set_zoom(number(-3.0), by);
    map.set_bearing(number(359.0), by);
    let camera = map.controller.camera;
    assert_eq!(value(camera.pitch), 85.0);
    assert_eq!(value(camera.zoom), 0.0);
    assert_eq!(value(camera.bearing), 359.0);
    let declared = MapCamera {
        lat: number(-86.0),
        lon: number(-180.0),
        zoom: number(23.0),
        bearing: number(12.0),
        pitch: number(-1.0),
    };
    let (style, _) = map.apply_initial(String::new(), declared, by);
    assert!(style.is_none());
    let by = sums(&map);
    let (style, moved) = map.apply_initial("x".to_owned(), declared, by);
    assert!(matches!(style, Some(Command::Style(url)) if url == "x"));
    assert_eq!(published(Some(moved)), map.controller.camera);
    let camera = map.controller.camera;
    assert_eq!(value(camera.lat), -85.0);
    assert_eq!(value(camera.lon), 180.0);
    assert_eq!(value(camera.zoom), 22.0);
    assert_eq!(value(camera.bearing), 12.0);
    assert_eq!(value(camera.pitch), 0.0);
}

#[test]
fn a_resize_to_the_same_size_is_no_news() {
    let mut map = MapLibre::new(SIZE);
    assert!(map.resize(SIZE).is_none());
    assert!(matches!(map.resize((9, 9)), Some(Command::Resize(9, 9))));
    assert_eq!(map.size, (9, 9));
    // A map is never less than a pixel wide or high.
    assert!(matches!(map.resize((0, 0)), Some(Command::Resize(1, 1))));
    assert_eq!(map.size, (1, 1));
    assert!(map.resize((1, 0)).is_none());
    assert_eq!(MapLibre::new((0, 7)).size, (1, 7));
    assert!(matches!(map.load_style("x".to_owned()), Command::Style(url) if url == "x"));
}

#[test]
fn levels_become_bands_and_reset_to_rest() {
    let map = MapLibre::new(SIZE);
    let heights: Vec<Scalar> = (0..BINS).map(|band| number(10.0 + band as f64)).collect();
    match map.apply_levels(&heights) {
        Command::Bands(bands) => {
            assert_eq!(bands.len(), BINS);
            assert!(bands.iter().zip(&heights).all(|(band, height)| band.height == *height));
        }
        _ => panic!("not bands"),
    }
    let light = Light {
        hue: number(1.0),
        ..Light::default()
    };
    assert!(matches!(map.set_light(light), Command::Light(sent) if sent == light));
    match map.reset_levels() {
        (Command::Bands(bands), Command::Light(light)) => {
            assert_eq!(bands, vec![Band::default(); BINS]);
            assert_eq!(light, Light::default());
        }
        _ => panic!("not a reset"),
    }
}
