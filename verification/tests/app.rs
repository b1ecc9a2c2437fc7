use osm_sound_demo::app::{
    animation_gives_way, chosen, hold_after_flight, place, release_failure, since, status_line,
    Count, Deck, Effects, FrameRate, Outcome, Step, Task, Transport, DROP_LENGTH_MS,
    HOLD_AFTER_FLIGHT_MS, NANOS_PER_MS, NO_TRACK, ORBIT_LENGTH_MS, PLACE_COUNT,
};
use osm_sound_demo::gamepad::Action;
use osm_sound_demo::otherman::{ListItem, Release, Track};
use osm_sound_demo::scalar::Scalar;

fn number(value: f64) -> Scalar {
    Scalar {
        bits: value.to_bits(),
    }
}

fn ms(count: u64) -> u128 {
    u128::from(count) * u128::from(NANOS_PER_MS)
}

fn item(id: &str) -> ListItem {
    ListItem {
        id: id.to_owned(),
        artist1: String::new(),
        artist2: String::new(),
        title: String::new(),
    }
}

fn release(id: &str, tracks: &[&str]) -> Release {
    Release {
        id: id.to_owned(),
        artist1: "One".to_owned(),
        artist2: "".to_owned(),
        tracklist: tracks
            .iter()
            .map(|title| Track {
                title: (*title).to_owned(),
                url: format!("//example.org/a b/{title}.mp3"),
            })
            .collect(),
    }
}

/// A transport with three releases listed and the first loaded.
fn loaded() -> Transport {
    let mut transport = Transport::new();
    let fetch = transport.catalogue_loaded(vec![item("A"), item("B"), item("C")]);
    assert_eq!(fetch.as_deref(), Some("A"));
    transport.release_loaded(0, release("A", &["x", "y", "z"]));
    transport
}

#[test]
fn the_animation_gives_way_only_around_a_fly_to() {
    let hold = hold_after_flight(None);
    // Nothing has flown yet, so nothing holds the skyline.
    assert!(!animation_gives_way(false, None, hold));

    // Mid-flight, and for a moment after landing, it gives way.
    assert!(animation_gives_way(true, None, hold));
    assert!(animation_gives_way(false, Some(0), hold));

    // Once the new location has had time to load, it animates again. This is
    // the regression that froze the buildings: the demo spins the bearing every
    // tick while playing, so anything keyed on "the camera moved" never
    // expires.
    assert!(!animation_gives_way(false, Some(ms(hold) + ms(1)), hold));
}

#[test]
fn the_hold_can_be_overridden() {
    assert_eq!(hold_after_flight(None), 2500);
    assert_eq!(hold_after_flight(Some(" 40\n")), 40);
    assert_eq!(hold_after_flight(Some("+7")), 7);
    assert_eq!(hold_after_flight(Some("0")), 0);
    assert_eq!(hold_after_flight(Some("-1")), HOLD_AFTER_FLIGHT_MS);
    assert_eq!(hold_after_flight(Some("1.5")), HOLD_AFTER_FLIGHT_MS);
    assert_eq!(hold_after_flight(Some("18446744073709551615")), u64::MAX);
    assert_eq!(
        hold_after_flight(Some("18446744073709551616")),
        HOLD_AFTER_FLIGHT_MS
    );
    // No hold at all is no hold, even at the moment of landing.
    assert!(!animation_gives_way(false, Some(0), 0));
}

#[test]
fn the_places_are_where_they_say() {
    let degrees = |scaled: i64| scaled as f64 / 1e7;
    let expected = [
        ("Tokyo / Japan", 35.680655, 139.767165),
        ("Osaka / Japan", 34.7034131, 135.4975879),
        ("Sapporo / Japan", 43.06868, 141.35079),
        ("Hiroshima / Japan", 34.394377, 132.455486),
        ("Fukuoka / Japan", 33.5898988, 130.4017509),
        ("Sendai / Japan", 38.260128, 140.883518),
        ("Kyoto / Japan", 34.985034, 135.759535),
        ("Shimane / Japan", 35.463968, 133.064008),
        ("Firenze / Italy", 43.777424, 11.248662),
        ("Prishtina / Kosovo", 42.663895, 21.163569),
        ("Nairobi / Kenya", -1.279803, 36.816647),
        ("Manila / Philippines", 14.656875, 121.067019),
    ];
    assert_eq!(expected.len(), PLACE_COUNT);
    for (index, (name, lat, lon)) in expected.into_iter().enumerate() {
        let place = place(index).expect("a place");
        assert_eq!(place.name, name);
        assert_eq!((degrees(place.lat), degrees(place.lon)), (lat, lon));
    }
    assert!(place(PLACE_COUNT).is_none());
}

#[test]
fn stepping_wraps_around() {
    assert_eq!(Step::Forward.from(0, 3), 1);
    assert_eq!(Step::Forward.from(2, 3), 0);
    assert_eq!(Step::Back.from(0, 3), 2);
    assert_eq!(Step::Back.from(2, 3), 1);
    assert_eq!(Step::Forward.from(0, 1), 0);
    assert_eq!(Step::Back.from(0, 1), 0);
    for count in 1..9usize {
        for current in 0..20usize {
            let wrapped = |delta: isize| (current as isize + delta).rem_euclid(count as isize);
            assert_eq!(Step::Forward.from(current, count) as isize, wrapped(1));
            assert_eq!(Step::Back.from(current, count) as isize, wrapped(-1));
        }
    }
}

#[test]
fn places_are_stepped_through() {
    let mut transport = Transport::new();
    assert_eq!(
        transport.step_place(Step::Back).expect("a place").name,
        "Manila / Philippines"
    );
    assert_eq!(transport.place, 11);
    assert_eq!(
        transport.step_place(Step::Forward).expect("a place").name,
        "Tokyo / Japan"
    );
    assert!(transport.fly_to_place(99).is_none());
    assert_eq!(transport.place, 0);
    assert_eq!(transport.fly_to_place(6).expect("a place").name, "Kyoto / Japan");
    assert_eq!(transport.place, 6);
    assert_eq!(chosen(-1), 0);
    assert_eq!(chosen(4), 4);
}

#[test]
fn a_loaded_release_is_not_fetched_twice() {
    let transport = loaded();
    assert_eq!(transport.select_release(0), None);
    assert_eq!(transport.select_release(1).as_deref(), Some("B"));
    assert_eq!(transport.select_release(3), None);
    assert_eq!(
        transport.step_release(Step::Forward),
        Some((1, Some("B".to_owned())))
    );
    assert_eq!(
        transport.step_release(Step::Back),
        Some((2, Some("C".to_owned())))
    );
    assert_eq!(Transport::new().step_release(Step::Forward), None);
}

#[test]
fn the_title_names_the_track_and_its_artists() {
    let mut transport = Transport::new();
    assert_eq!(transport.current_track_title(), NO_TRACK);
    transport.release_loaded(0, release("A", &[]));
    assert_eq!(
        transport.current_track_title(),
        "No track selected, please select a release."
    );
    assert!(transport.current_track().is_none());
    let mut transport = loaded();
    assert_eq!(transport.current_track_title(), "x / One");
    transport.step_track(Step::Back);
    assert_eq!(transport.current_track_title(), "z / One");
}

#[test]
fn a_track_is_asked_for_and_played() {
    let mut transport = loaded();
    let fetch = transport.start().expect("a track");
    assert_eq!(fetch.url, "https://example.org/a%20b/x.mp3");
    assert!(transport.busy);
    assert!(!transport.playing);
    assert!(transport.accepts(fetch.generation));
    let notice = transport
        .finish(fetch.generation, Outcome::Playing)
        .expect("still wanted");
    assert!(notice.playing);
    assert_eq!(notice.failure, None);
    assert!(transport.playing);
    assert!(!transport.busy);
}

#[test]
fn failures_say_what_went_wrong() {
    let mut transport = loaded();
    let fetch = transport.start().expect("a track");
    let notice = transport
        .finish(fetch.generation, Outcome::Unplayable("noise".to_owned()))
        .expect("still wanted");
    assert!(!notice.playing);
    assert_eq!(
        notice.failure.as_deref(),
        Some("Could not play this track: noise")
    );
    let fetch = transport.start().expect("a track");
    let notice = transport
        .finish(fetch.generation, Outcome::Unreachable("404".to_owned()))
        .expect("still wanted");
    assert_eq!(
        notice.failure.as_deref(),
        Some("Could not stream this track: 404")
    );
    assert_eq!(
        release_failure("OTMN001", "timeout"),
        "Could not load release OTMN001: timeout"
    );
}

#[test]
fn a_superseded_download_is_left_alone() {
    let mut transport = loaded();
    let first = transport.start().expect("a track");
    let second = transport.start().expect("a track");
    assert!(!transport.accepts(first.generation));
    assert!(transport.finish(first.generation, Outcome::Playing).is_none());
    assert!(transport.busy);
    assert!(!transport.playing);

    transport.stop();
    assert!(!transport.accepts(second.generation));
    let third = transport.start().expect("a track");
    transport.quit();
    assert!(!transport.accepts(third.generation));
    let fourth = transport.start().expect("a track");
    transport.release_loaded(1, release("B", &["b"]));
    assert!(!transport.accepts(fourth.generation));
    assert_eq!(transport.release_index, 1);
    assert_eq!(transport.track_index, 0);
}

#[test]
fn other_business_does_not_supersede_a_download() {
    let mut transport = loaded();
    let fetch = transport.start().expect("a track");
    transport.step_place(Step::Forward);
    transport.step_track(Step::Forward);
    transport.set_volume(number(0.5));
    transport.catalogue_loaded(Vec::new());
    assert!(transport.accepts(fetch.generation));
}

#[test]
fn there_is_nothing_to_start_without_a_track() {
    let mut transport = Transport::new();
    assert!(transport.start().is_none());
    assert_eq!(transport.generation, 0);
    assert_eq!(transport.step_track(Step::Forward), None);
    assert_eq!(transport.open_release(), None);
}

#[test]
fn stepping_says_whether_to_restart() {
    let mut transport = loaded();
    assert_eq!(transport.step_track(Step::Forward), Some(Task::Nothing));
    assert_eq!(transport.track_index, 1);
    transport.playing = true;
    assert_eq!(transport.step_track(Step::Forward), Some(Task::Restart));
    assert_eq!(transport.step_track(Step::Forward), Some(Task::Restart));
    assert_eq!(transport.track_index, 0);
    assert_eq!(
        transport.open_release().as_deref(),
        Some("https://www.otherman-records.com/releases/A")
    );
}

#[test]
fn actions_become_tasks() {
    let mut transport = loaded();
    assert_eq!(transport.toggle_play(), Task::Start);
    assert_eq!(transport.run_action(Action::Play), Task::Start);
    assert_eq!(transport.run_action(Action::Stop), Task::Nothing);
    transport.playing = true;
    assert_eq!(transport.toggle_play(), Task::Stop);
    assert_eq!(transport.run_action(Action::Play), Task::Nothing);
    assert_eq!(transport.run_action(Action::Stop), Task::Stop);
    let back = Step::Back;
    let forward = Step::Forward;
    for (action, task) in [
        (Action::PreviousPlace, Task::StepPlace(back)),
        (Action::NextPlace, Task::StepPlace(forward)),
        (Action::PreviousTrack, Task::StepTrack(back)),
        (Action::NextTrack, Task::StepTrack(forward)),
        (Action::PreviousRelease, Task::StepRelease(back)),
        (Action::NextRelease, Task::StepRelease(forward)),
        (Action::Drop, Task::Drop),
        (Action::Orbit, Task::Orbit),
    ] {
        assert_eq!(transport.run_action(action), task);
    }
}

#[test]
fn the_volume_is_driven_between_its_ends() {
    let mut transport = Transport::new();
    assert_eq!(transport.drive_volume(number(0.0), number(0.3)), None);
    // Already at the top.
    assert_eq!(transport.drive_volume(number(1.0), number(1.2)), None);
    assert_eq!(
        transport.drive_volume(number(-1.0), number(0.8)),
        Some(number(0.8))
    );
    assert_eq!(
        transport.drive_volume(number(-1.0), number(-0.2)),
        Some(number(0.0))
    );
    assert_eq!(transport.volume, number(0.0));
}

#[test]
fn a_track_ends_only_once_it_had_time_to_begin() {
    let mut transport = loaded();
    transport.playing = true;
    assert!(!transport.ended(ms(750), true));
    assert!(transport.ended(ms(750) + 1, true));
    assert!(!transport.ended(ms(9000), false));
    transport.busy = true;
    assert!(!transport.ended(ms(9000), true));
    transport.busy = false;
    transport.playing = false;
    assert!(!transport.ended(ms(9000), true));
}

#[test]
fn effects_run_for_as_long_as_they_last() {
    let mut effects = Effects::new();
    let start = ms(5000);
    assert_eq!(effects.drop_envelope(start), None);
    effects.fire_drop(start);
    effects.fire_orbit(start);
    let tick = effects.tick(start, false, false, 2500);
    assert_eq!((tick.drop, tick.orbit), (Some(0), Some(0)));
    let last = start + ms(DROP_LENGTH_MS) - 1;
    assert_eq!(effects.drop_envelope(last), Some(ms(DROP_LENGTH_MS) - 1));
    let tick = effects.tick(start + ms(DROP_LENGTH_MS), false, false, 2500);
    assert_eq!(tick.drop, None);
    assert_eq!(tick.orbit, Some(ms(2200)));
    assert_eq!(effects.drop_started, None);
    assert_eq!(effects.orbit_envelope(start + ms(ORBIT_LENGTH_MS)), None);
    assert_eq!(effects.orbit_started, None);
}

#[test]
fn the_animation_needs_a_track_and_gives_way_to_a_flight() {
    let mut effects = Effects::new();
    let now = ms(1000);
    assert!(effects.tick(now, false, true, 2500).animates);
    assert!(!effects.tick(now, false, false, 2500).animates);
    assert!(!effects.tick(now, true, true, 2500).animates);
    assert_eq!(effects.flight_landed, Some(now));
    assert!(!effects.tick(now + ms(2499), false, true, 2500).animates);
    assert!(effects.tick(now + ms(2500), false, true, 2500).animates);
}

#[test]
fn frames_are_counted_by_the_second() {
    let mut rate = FrameRate::new(ms(100));
    rate.shown();
    rate.shown();
    assert_eq!(rate.close_window(ms(1099), 5, true), None);
    assert_eq!(
        rate.close_window(ms(1100), 5, true),
        Some(Count {
            frames: 2,
            rendered: 5,
            span: ms(1000),
        })
    );
    rate.shown();
    // A count that is not reported leaves the next one to add up.
    let count = rate.close_window(ms(2200), 9, false).expect("a second went by");
    assert_eq!((count.frames, count.rendered), (1, 4));
    let count = rate.close_window(ms(3300), 10, true).expect("a second went by");
    assert_eq!((count.frames, count.rendered), (0, 5));
}

#[test]
fn the_status_line_is_refreshed_on_a_timer() {
    let mut rate = FrameRate::new(0);
    assert!(!rate.status_due(ms(199)));
    assert!(rate.status_due(ms(200)));
    assert!(!rate.status_due(ms(399)));
    assert!(rate.status_due(ms(400)));
}

#[test]
fn the_status_line_says_where_and_how() {
    assert_eq!(
        status_line("35.6807", "139.7672", "16.0", None, None),
        "35.6807, 139.7672 · z16.0 · drag to pan, scroll to zoom"
    );
    assert_eq!(
        status_line("1.0000", "2.0000", "3.5", Some("58"), Some("Pad")),
        "1.0000, 2.0000 · z3.5 · 58 fps · 🎮 Pad"
    );
}

#[test]
fn time_does_not_run_backwards() {
    assert_eq!(since(5, 9), 4);
    assert_eq!(since(9, 5), 0);
}

#[test]
fn a_deck_ticks_through_a_track() {
    let mut deck = Deck::new(ms(100));
    deck.transport.catalogue_loaded(vec![item("A")]);
    deck.transport.release_loaded(0, release("A", &["x", "y"]));
    assert_eq!(deck.begin_tick(ms(116)), ms(16));
    assert_eq!(deck.begin_tick(ms(133)), ms(17));

    let fetch = deck.transport.start().expect("a track");
    assert!(deck.finish(fetch.generation + 1, Outcome::Playing, ms(150)).is_none());
    let notice = deck
        .finish(fetch.generation, Outcome::Playing, ms(200))
        .expect("still wanted");
    assert!(notice.playing);
    assert_eq!(deck.track_started, ms(200));
    assert!(deck.tick(ms(201), false, 2500).animates);
    assert!(!deck.tick(ms(202), true, 2500).animates);

    // The queue is empty for a moment, which is not the end.
    assert!(!deck.end_tick(ms(950), true, 3, true, true).ended);
    let wrap = deck.end_tick(ms(1100), true, 5, true, true);
    assert!(wrap.ended);
    assert_eq!(
        wrap.count,
        Some(Count {
            frames: 2,
            rendered: 5,
            span: ms(1000),
        })
    );
    assert!(!wrap.status);
    assert!(deck.end_tick(ms(1150), false, 5, true, false).status);
    // It still counts as playing, so the next track is started.
    assert_eq!(deck.transport.step_track(Step::Forward), Some(Task::Restart));
}

#[test]
fn a_track_that_would_not_play_starts_no_clock() {
    let mut deck = Deck::new(0);
    deck.transport.release_loaded(0, release("A", &["x"]));
    let fetch = deck.transport.start().expect("a track");
    deck.finish(fetch.generation, Outcome::Unplayable("noise".to_owned()), ms(9));
    assert_eq!(deck.track_started, 0);
    assert!(!deck.transport.playing);
}
