use osm_sound_demo::gamepad::{
    action_for, notice, shape, Action, Axis, Button, Gamepads, InputStack, PadEvent, PadReading,
    Sticks, DEADZONE,
};
use osm_sound_demo::scalar::Scalar;

const DEAD: f32 = 0.15;

fn number(value: f32) -> Scalar {
    Scalar {
        bits: f64::from(value).to_bits(),
    }
}

fn value(number: Scalar) -> f32 {
    f64::from_bits(number.bits) as f32
}

/// Where a stick stands, with what lies past the deadzone worked out.
fn axis(position: f32) -> Axis {
    Axis {
        value: number(position),
        past: number((position.abs() - DEAD) / (1.0 - DEAD)),
    }
}

fn shaped(position: f32) -> f32 {
    value(shape(axis(position)))
}

#[test]
fn the_documented_buttons_map_to_actions() {
    assert_eq!(action_for(Button::Start), Some(Action::Play));
    assert_eq!(action_for(Button::Select), Some(Action::Stop));
    assert_eq!(action_for(Button::LeftTrigger), Some(Action::PreviousPlace));
    assert_eq!(action_for(Button::RightTrigger), Some(Action::NextPlace));
    assert_eq!(action_for(Button::South), Some(Action::Drop));
    assert_eq!(action_for(Button::East), Some(Action::Orbit));
    assert_eq!(action_for(Button::DPadLeft), Some(Action::PreviousTrack));
    assert_eq!(action_for(Button::DPadRight), Some(Action::NextTrack));
    assert_eq!(action_for(Button::DPadUp), Some(Action::PreviousRelease));
    assert_eq!(action_for(Button::DPadDown), Some(Action::NextRelease));
}

#[test]
fn a_resting_trigger_reads_as_untouched() {
    // The axis form rests at -1, which must map to 0 and then fall inside the
    // deadzone; halfway is a half press.
    assert_eq!(shaped((-1.0 + 1.0) / 2.0), 0.0);
    assert!(shaped((0.0 + 1.0) / 2.0) > 0.4);
    assert_eq!(shaped((1.0 + 1.0) / 2.0), 1.0);
}

#[test]
fn the_deadzone_swallows_a_resting_stick_and_rescales_the_rest() {
    assert_eq!(shaped(0.0), 0.0);
    assert_eq!(shaped(0.1), 0.0);
    assert_eq!(shaped(-0.1), 0.0);
    // Just past the deadzone control starts from zero, not from 0.15.
    assert!(shaped(DEAD + 0.001) < 0.01);
    assert_eq!(shaped(1.0), 1.0);
    assert_eq!(shaped(-1.0), -1.0);
    // Values beyond the nominal range are clamped, not amplified.
    assert_eq!(shaped(1.4), 1.0);
}

#[test]
fn only_the_camera_controls_count_as_moving_the_map() {
    assert!(!Sticks::default().moves_map());
    assert!(Sticks {
        turn: number(0.5),
        ..Sticks::default()
    }
    .moves_map());
    assert!(Sticks {
        pan: (number(0.0), number(-0.3)),
        ..Sticks::default()
    }
    .moves_map());
    assert!(Sticks {
        zoom: number(0.4),
        ..Sticks::default()
    }
    .moves_map());
    // Reaching for the volume must not cancel a fly-to.
    assert!(!Sticks {
        volume: number(1.0),
        ..Sticks::default()
    }
    .moves_map());
}

#[test]
fn other_buttons_are_ignored() {
    // L2/R2 work the volume as analog axes, not as presses.
    for button in [
        Button::LeftTrigger2,
        Button::RightTrigger2,
        Button::North,
        Button::West,
        Button::Mode,
        Button::LeftThumb,
        Button::RightThumb,
        Button::Unknown,
    ] {
        assert_eq!(action_for(button), None, "{button:?}");
    }
}

#[test]
fn the_deadzone_is_the_single_precision_number() {
    assert_eq!(f64::from_bits(DEADZONE), f64::from(DEAD));
}

#[test]
fn shaping_agrees_with_the_formula_everywhere() {
    for step in -2000..=2000 {
        let position = step as f32 / 1000.0;
        let expected = if position.abs() < DEAD {
            0.0
        } else {
            let scaled = (position.abs() - DEAD) / (1.0 - DEAD);
            scaled.min(1.0) * position.signum()
        };
        assert_eq!(shaped(position), expected, "{position}");
    }
    assert!(shaped(f32::NAN).is_nan());
}

#[test]
fn events_become_actions_in_order() {
    let mut pads = Gamepads::new(&InputStack::Ready, Some("One".to_owned()));
    assert_eq!(pads.name(), Some("One"));
    let actions = pads.poll(
        &vec![
            PadEvent::ButtonPressed(Button::South),
            PadEvent::Other,
            PadEvent::ButtonPressed(Button::North),
            PadEvent::ButtonPressed(Button::Start),
        ],
        Some("Two".to_owned()),
    );
    assert_eq!(actions, vec![Action::Drop, Action::Play]);
    // Nobody came or went, so the name stands.
    assert_eq!(pads.name(), Some("One"));
}

#[test]
fn the_name_follows_the_pads() {
    let mut pads = Gamepads::new(&InputStack::Ready, None);
    assert_eq!(pads.name(), None);
    pads.poll(&vec![PadEvent::Connected], Some("Pad".to_owned()));
    assert_eq!(pads.name(), Some("Pad"));
    pads.poll(&vec![PadEvent::Disconnected], None);
    assert_eq!(pads.name(), None);
}

#[test]
fn an_unavailable_stack_is_not_fatal() {
    let stack = InputStack::Unavailable("no bus".to_owned());
    assert_eq!(
        notice(&stack).as_deref(),
        Some("gamepad input unavailable: no bus")
    );
    let mut pads = Gamepads::new(&stack, Some("Pad".to_owned()));
    assert_eq!(pads.name(), None);
    let actions = pads.poll(
        &vec![PadEvent::ButtonPressed(Button::Start), PadEvent::Connected],
        Some("Pad".to_owned()),
    );
    assert!(actions.is_empty());
    assert_eq!(pads.name(), None);
    assert!(!pads.sample(&Some(reading()), number(1.0)).moves_map());
}

#[test]
fn a_stack_without_support_is_safe_to_poll() {
    assert_eq!(
        notice(&InputStack::NotImplemented).as_deref(),
        Some("gamepad input is not supported on this platform")
    );
    assert_eq!(notice(&InputStack::Ready), None);
    assert!(Gamepads::new(&InputStack::NotImplemented, None).usable);
}

fn reading() -> PadReading {
    PadReading {
        left_x: axis(1.0),
        left_y: axis(1.0),
        right_x: axis(-1.0),
        right_y: axis(0.1),
        left_button: None,
        left_axis: axis(0.0),
        right_button: Some(axis(1.0)),
        right_axis: axis(0.0),
    }
}

#[test]
fn a_sample_reads_the_sticks_in_screen_terms() {
    let pads = Gamepads::new(&InputStack::Ready, None);
    let pad = Some(reading());
    let (left, right) = pads.trigger_pulls(&pad);
    assert_eq!((value(left), value(right)), (0.0, 1.0));
    let sticks = pads.sample(&pad, number(value(right) - value(left)));
    // Pushing the stick up is up the screen, which is negative.
    assert_eq!((value(sticks.pan.0), value(sticks.pan.1)), (1.0, -1.0));
    assert_eq!(value(sticks.turn), -1.0);
    assert_eq!(value(sticks.zoom), 0.0);
    assert_eq!(value(sticks.volume), 1.0);
}

#[test]
fn no_pad_is_everything_at_rest() {
    let pads = Gamepads::new(&InputStack::Ready, None);
    assert_eq!(
        pads.trigger_pulls(&None),
        (number(0.0), number(0.0))
    );
    let sticks = pads.sample(&None, number(0.5));
    assert!(!sticks.moves_map());
    assert_eq!(value(sticks.volume), 0.0);
}
