//! Gamepad control.
//!
//! Buttons are named by position, so `Start` is the Start button on whatever
//! pad is plugged in. The layout is an Xbox controller's: the action pad is
//! named by compass point, so A is `South` and B is `East`.
use vstd::prelude::*;
use vstd::string::*;

use crate::scalar::{number, Scalar, ONE, ZERO};

verus! {

/// The bit pattern of the deadzone, 0.15 in single precision. Sticks rest a
/// little off-centre, so anything smaller than this counts as centred. Past it
/// the value is rescaled so control starts from zero.
pub const DEADZONE: u64 = 0x3fc3_3333_4000_0000;

/// A button, by position.
#[derive(Clone, Copy, Debug, PartialEq, Eq, Structural)]
pub enum Button {
    South,
    East,
    North,
    West,
    C,
    Z,
    LeftTrigger,
    LeftTrigger2,
    RightTrigger,
    RightTrigger2,
    Select,
    Start,
    Mode,
    LeftThumb,
    RightThumb,
    DPadUp,
    DPadDown,
    DPadLeft,
    DPadRight,
    Unknown,
}

/// What a button press means to this app.
#[derive(Clone, Copy, Debug, PartialEq, Eq, Structural)]
pub enum Action {
    /// Start — begin playback.
    Play,
    /// Select — stop playback.
    Stop,
    /// L1 — fly to the previous place.
    PreviousPlace,
    /// R1 — fly to the next place.
    NextPlace,
    /// A — the drop effect.
    Drop,
    /// B — the orbit effect.
    Orbit,
    /// D-pad left — previous track.
    PreviousTrack,
    /// D-pad right — next track.
    NextTrack,
    /// D-pad up — previous release.
    PreviousRelease,
    /// D-pad down — next release.
    NextRelease,
}

/// What a pad reports.
#[derive(Clone, Copy, Debug, PartialEq, Eq, Structural)]
pub enum PadEvent {
    ButtonPressed(Button),
    Connected,
    Disconnected,
    /// Anything this app has no use for.
    Other,
}

/// How the input stack came up.
pub enum InputStack {
    /// It works.
    Ready,
    /// The platform has no gamepad support, but the stack is safe to poll.
    NotImplemented,
    /// There is none, with this to say.
    Unavailable(String),
}

/// Where a stick or trigger stands.
#[derive(Clone, Copy, Debug, PartialEq, Eq, Structural)]
pub struct Axis {
    /// The position, `-1` to `1`.
    pub value: Scalar,
    /// How far past the deadzone that is, as a fraction of what lies past it:
    /// `(|value| - deadzone) / (1 - deadzone)`.
    pub past: Scalar,
}

/// Where a pad's sticks and triggers stand.
#[derive(Clone, Copy, Debug, PartialEq, Eq, Structural)]
pub struct PadReading {
    pub left_x: Axis,
    pub left_y: Axis,
    pub right_x: Axis,
    pub right_y: Axis,
    /// L2 as a button that carries a value, on the pads that have it as one.
    pub left_button: Option<Axis>,
    /// L2 as an axis, rescaled so that it rests at 0.
    pub left_axis: Axis,
    /// R2 as a button that carries a value, on the pads that have it as one.
    pub right_button: Option<Axis>,
    /// R2 as an axis, rescaled so that it rests at 0.
    pub right_axis: Axis,
}

/// Continuous stick and trigger state, sampled once per frame. Each field is
/// in `-1` to `1`.
#[derive(Clone, Copy, Debug)]
pub struct Sticks {
    /// Left stick: pans the map. Positive y is down the screen.
    pub pan: (Scalar, Scalar),
    /// Right stick, left/right: turns the map.
    pub turn: Scalar,
    /// Right stick, up/down: changes the zoom level. Positive zooms in.
    pub zoom: Scalar,
    /// R2 minus L2: raises or lowers the volume.
    pub volume: Scalar,
}

/// What a button does. L2 and R2 work the volume as analog axes, so as presses
/// they do nothing; nor do the buttons that are not named here.
pub open spec fn bound(button: Button) -> Option<Action> {
    match button {
        Button::Start => Some(Action::Play),
        Button::Select => Some(Action::Stop),
        Button::LeftTrigger => Some(Action::PreviousPlace),
        Button::RightTrigger => Some(Action::NextPlace),
        Button::South => Some(Action::Drop),
        Button::East => Some(Action::Orbit),
        Button::DPadLeft => Some(Action::PreviousTrack),
        Button::DPadRight => Some(Action::NextTrack),
        Button::DPadUp => Some(Action::PreviousRelease),
        Button::DPadDown => Some(Action::NextRelease),
        _ => None,
    }
}

/// What a button does.
pub fn action_for(button: Button) -> (r: Option<Action>)
    ensures
        r == bound(button),
{
    match button {
        Button::Start => Some(Action::Play),
        Button::Select => Some(Action::Stop),
        // `LeftTrigger` is the L1 / LB bumper; `LeftTrigger2` is L2 / LT, which
        // works the volume instead.
        Button::LeftTrigger => Some(Action::PreviousPlace),
        Button::RightTrigger => Some(Action::NextPlace),
        Button::South => Some(Action::Drop),
        Button::East => Some(Action::Orbit),
        Button::DPadLeft => Some(Action::PreviousTrack),
        Button::DPadRight => Some(Action::NextTrack),
        Button::DPadUp => Some(Action::PreviousRelease),
        Button::DPadDown => Some(Action::NextRelease),
        _ => None,
    }
}

/// The actions a run of events asks for, in order.
pub open spec fn actions_of(events: Seq<PadEvent>) -> Seq<Action>
    decreases events.len(),
{
    if events.len() == 0 {
        seq![]
    } else {
        let before = actions_of(events.drop_last());
        match events.last() {
            PadEvent::ButtonPressed(button) => match bound(button) {
                Some(action) => before.push(action),
                None => before,
            },
            _ => before,
        }
    }
}

/// Whether a run of events changes which pads are there.
pub open spec fn roster_changes(events: Seq<PadEvent>) -> bool {
    exists|i: int|
        0 <= i < events.len() && (#[trigger] events[i] is Connected || events[i] is Disconnected)
}

/// A value with the deadzone taken out and what is left rescaled to the full
/// range. A NaN reads as itself.
pub open spec fn shaped(axis: Axis) -> Scalar {
    let deep = if axis.past.below(number(ONE)) {
        axis.past
    } else {
        number(ONE)
    };
    if axis.value.unsigned().below(number(DEADZONE)) {
        number(ZERO)
    } else if axis.value.nan() {
        axis.value
    } else if axis.value.signed() {
        deep.opposite()
    } else {
        deep
    }
}

/// Applies the deadzone and rescales what is left to the full range. Values
/// beyond the nominal range are held at its ends, not amplified.
pub fn shape(axis: Axis) -> (r: Scalar)
    ensures
        r == shaped(axis),
{
    let one = Scalar { bits: ONE };
    if axis.value.abs().less(Scalar { bits: DEADZONE }) {
        return Scalar { bits: ZERO };
    }
    if axis.value.is_nan() {
        return axis.value;
    }
    let deep = if axis.past.less(one) {
        axis.past
    } else {
        one
    };
    if axis.value.bits >= crate::scalar::SIGN {
        deep.negate()
    } else {
        deep
    }
}

/// Where a trigger stands: what its button carries, on the pads that have it as
/// one, and otherwise what its axis does.
pub open spec fn pulled(button: Option<Axis>, axis: Axis) -> Axis {
    match button {
        Some(button) => button,
        None => axis,
    }
}

/// Where a trigger stands.
fn trigger(button: Option<Axis>, axis: Axis) -> (r: Axis)
    ensures
        r == pulled(button, axis),
{
    match button {
        Some(button) => button,
        None => axis,
    }
}

impl Sticks {
    /// Everything at rest.
    pub open spec fn rest() -> Sticks {
        let zero = number(ZERO);
        Sticks { pan: (zero, zero), turn: zero, zoom: zero, volume: zero }
    }

    /// Whether anything that moves the map is being held.
    pub open spec fn moving(&self) -> bool {
        let zero = number(ZERO);
        !self.pan.0.equals(zero) || !self.pan.1.equals(zero) || !self.turn.equals(zero)
            || !self.zoom.equals(zero)
    }

    /// Whether anything that moves the map is being held, so a fly-to knows to
    /// give way. Volume is not a camera control, so it does not count.
    pub fn moves_map(&self) -> (r: bool)
        ensures
            r == self.moving(),
    {
        !self.pan.0.is_zero() || !self.pan.1.is_zero() || !self.turn.is_zero()
            || !self.zoom.is_zero()
    }
}

impl Default for Sticks {
    fn default() -> (r: Sticks)
        ensures
            r == Sticks::rest(),
    {
        let zero = Scalar { bits: ZERO };
        Sticks { pan: (zero, zero), turn: zero, zoom: zero, volume: zero }
    }
}

/// The connected gamepads. An unusable input stack is not fatal: the app simply
/// runs without a pad.
#[derive(Debug)]
pub struct Gamepads {
    /// Whether there is an input stack to poll.
    pub usable: bool,
    /// Name of the first connected pad.
    pub name: Option<String>,
}

/// What the log says of how the input stack came up.
pub open spec fn stack_notice(stack: InputStack) -> Option<Seq<char>> {
    match stack {
        InputStack::Ready => None,
        InputStack::NotImplemented => Some("gamepad input is not supported on this platform"@),
        InputStack::Unavailable(error) => Some("gamepad input unavailable: "@ + error@),
    }
}

/// What the log says of how the input stack came up.
pub fn notice(stack: &InputStack) -> (r: Option<String>)
    ensures
        match r {
            Some(text) => stack_notice(*stack) == Some(text@),
            None => stack_notice(*stack) is None,
        },
{
    match stack {
        InputStack::Ready => None,
        InputStack::NotImplemented => Some(
            "gamepad input is not supported on this platform".to_owned(),
        ),
        InputStack::Unavailable(error) => {
            let mut text = "gamepad input unavailable: ".to_owned();
            text.append(error.as_str());
            Some(text)
        },
    }
}

impl Gamepads {
    /// What is known of the pads once the input stack has come up. `first` is
    /// the name of the first connected one.
    pub fn new(stack: &InputStack, first: Option<String>) -> (r: Gamepads)
        ensures
            r.usable == !(stack is Unavailable),
            r.name == if r.usable {
                first
            } else {
                None
            },
    {
        match stack {
            InputStack::Unavailable(_) => Gamepads { usable: false, name: None },
            _ => Gamepads { usable: true, name: first },
        }
    }

    /// Name of the first connected pad, for the status line.
    pub fn name(&self) -> (r: Option<&str>)
        ensures
            match (r, self.name) {
                (Some(shown), Some(name)) => shown@ == name@,
                (None, None) => true,
                _ => false,
            },
    {
        match &self.name {
            Some(name) => Some(name.as_str()),
            None => None,
        }
    }

    /// Takes in the pending events and returns the actions they map to, in
    /// order. `first` is the name of the first connected pad, which is learned
    /// anew when a pad comes or goes.
    pub fn poll(&mut self, events: &Vec<PadEvent>, first: Option<String>) -> (r: Vec<Action>)
        ensures
            r@ == if old(self).usable {
                actions_of(events@)
            } else {
                seq![]
            },
            final(self).usable == old(self).usable,
            final(self).name == if old(self).usable && roster_changes(events@) {
                first
            } else {
                old(self).name
            },
    {
        let mut actions: Vec<Action> = Vec::new();
        if !self.usable {
            return actions;
        }
        let mut roster_changed = false;
        let mut index: usize = 0;
        proof {
            assert(events@.take(0) =~= seq![]);
        }
        while index < events.len()
            invariant
                index <= events@.len(),
                actions@ == actions_of(events@.take(index as int)),
                roster_changed == roster_changes(events@.take(index as int)),
            decreases events@.len() - index,
        {
            proof {
                let before = events@.take(index as int);
                let after = events@.take(index + 1);
                assert(after.drop_last() =~= before);
                assert(after.last() == events@[index as int]);
                if roster_changes(before) {
                    let i = choose|i: int|
                        0 <= i < before.len() && (#[trigger] before[i] is Connected
                            || before[i] is Disconnected);
                    assert(after[i] == before[i]);
                }
                if roster_changes(after) {
                    let i = choose|i: int|
                        0 <= i < after.len() && (#[trigger] after[i] is Connected
                            || after[i] is Disconnected);
                    if i < index {
                        assert(before[i] == after[i]);
                    }
                }
                if events@[index as int] is Connected || events@[index as int] is Disconnected {
                    assert(after[index as int] == events@[index as int]);
                }
            }
            match events[index] {
                PadEvent::ButtonPressed(button) => {
                    if let Some(action) = action_for(button) {
                        actions.push(action);
                    }
                },
                PadEvent::Connected => {
                    roster_changed = true;
                },
                PadEvent::Disconnected => {
                    roster_changed = true;
                },
                PadEvent::Other => {},
            }
            index = index + 1;
        }
        proof {
            assert(events@.take(index as int) =~= events@);
        }
        if roster_changed {
            self.name = first;
        }
        actions
    }

    /// How far L2 and R2 are pulled, deadzone taken out. Nothing is, where
    /// there is no pad.
    pub fn trigger_pulls(&self, pad: &Option<PadReading>) -> (r: (Scalar, Scalar))
        ensures
            r == match *pad {
                Some(reading) if self.usable => (
                    shaped(pulled(reading.left_button, reading.left_axis)),
                    shaped(pulled(reading.right_button, reading.right_axis)),
                ),
                _ => (number(ZERO), number(ZERO)),
            },
    {
        if self.usable {
            if let Some(reading) = pad {
                return (
                    shape(trigger(reading.left_button, reading.left_axis)),
                    shape(trigger(reading.right_button, reading.right_axis)),
                );
            }
        }
        (Scalar { bits: ZERO }, Scalar { bits: ZERO })
    }

    /// The held state of the sticks. Only the first connected pad drives the
    /// map. `volume` is R2's pull less L2's.
    pub fn sample(&self, pad: &Option<PadReading>, volume: Scalar) -> (r: Sticks)
        ensures
            r == match *pad {
                Some(reading) if self.usable => Sticks {
                    pan: (shaped(reading.left_x), shaped(reading.left_y).opposite()),
                    turn: shaped(reading.right_x),
                    zoom: shaped(reading.right_y),
                    volume,
                },
                _ => Sticks::rest(),
            },
    {
        if self.usable {
            if let Some(reading) = pad {
                // Stick y axes report up as positive; screen coordinates run
                // the other way, and the pan is expressed in screen terms.
                return Sticks {
                    pan: (shape(reading.left_x), shape(reading.left_y).negate()),
                    turn: shape(reading.right_x),
                    zoom: shape(reading.right_y),
                    volume,
                };
            }
        }
        let zero = Scalar { bits: ZERO };
        Sticks { pan: (zero, zero), turn: zero, zoom: zero, volume: zero }
    }
}

/// A shaped value stays within the full range, on the side the stick is held
/// to, and reads zero inside the deadzone.
pub proof fn shaping_stays_in_range(axis: Axis)
    requires
        !axis.value.nan(),
        !axis.past.nan(),
        !axis.past.below(number(ZERO)),
    ensures
        !number(ONE).below(shaped(axis).unsigned()),
        axis.value.unsigned().below(number(DEADZONE)) ==> shaped(axis).equals(
            number(ZERO),
        ),
        shaped(axis).below(number(ZERO)) ==> axis.value.below(number(ZERO)),
        number(ZERO).below(shaped(axis)) ==> number(ZERO).below(axis.value),
{
}

/// Reaching for the volume moves nothing: with the other controls at rest, the
/// map stays where it is whatever the triggers do.
pub proof fn volume_is_no_camera_control(volume: Scalar)
    ensures
        !(Sticks { volume, ..Sticks::rest() }).moving(),
{
}

/// No event is lost or reordered: the actions of two runs of events, one after
/// the other, are the actions of both.
pub proof fn actions_follow_their_events(first: Seq<PadEvent>, second: Seq<PadEvent>)
    ensures
        actions_of(first + second) == actions_of(first) + actions_of(second),
    decreases second.len(),
{
    if second.len() == 0 {
        assert(first + second =~= first);
        assert(actions_of(first) + actions_of(second) =~= actions_of(first));
    } else {
        actions_follow_their_events(first, second.drop_last());
        assert((first + second).drop_last() =~= first + second.drop_last());
        assert(actions_of(first + second) =~= actions_of(first) + actions_of(second));
    }
}

/// Each button that does something does one thing of its own, and the pairs on
/// either side of the pad go opposite ways: left and up back, right and down
/// forward. A and B fire the effects, Start and Select play and stop. Nothing
/// else does anything, the analog triggers as presses included.
pub proof fn buttons_do_one_thing_each(button: Button, other: Button)
    ensures
        bound(button) == Some(Action::Play) <==> button is Start,
        bound(button) == Some(Action::Stop) <==> button is Select,
        bound(button) == Some(Action::PreviousPlace) <==> button is LeftTrigger,
        bound(button) == Some(Action::NextPlace) <==> button is RightTrigger,
        bound(button) == Some(Action::Drop) <==> button is South,
        bound(button) == Some(Action::Orbit) <==> button is East,
        bound(button) == Some(Action::PreviousTrack) <==> button is DPadLeft,
        bound(button) == Some(Action::NextTrack) <==> button is DPadRight,
        bound(button) == Some(Action::PreviousRelease) <==> button is DPadUp,
        bound(button) == Some(Action::NextRelease) <==> button is DPadDown,
        bound(button) is Some && bound(button) == bound(other) ==> button == other,
        button is LeftTrigger2 || button is RightTrigger2 ==> bound(button) is None,
{
}

/// A press asks for what its button does, and nothing else asks for anything.
pub proof fn only_presses_ask_for_actions(events: Seq<PadEvent>, button: Button, event: PadEvent)
    ensures
        actions_of(Seq::empty()) == Seq::<Action>::empty(),
        bound(button) matches Some(action) ==> actions_of(
            events.push(PadEvent::ButtonPressed(button)),
        ) == actions_of(events).push(action),
        bound(button) is None ==> actions_of(events.push(PadEvent::ButtonPressed(button)))
            == actions_of(events),
        !(event is ButtonPressed) ==> actions_of(events.push(event)) == actions_of(events),
{
    assert(events.push(PadEvent::ButtonPressed(button)).drop_last() =~= events);
    assert(events.push(event).drop_last() =~= events);
}

/// Which pads are there is asked again when one comes or goes, and at no other
/// time.
pub proof fn pads_come_and_go(events: Seq<PadEvent>, event: PadEvent)
    ensures
        !roster_changes(Seq::empty()),
        roster_changes(events.push(event)) <==> roster_changes(events) || event is Connected
            || event is Disconnected,
{
    let more = events.push(event);
    assert(more[events.len() as int] == event);
    if roster_changes(events) {
        let i = choose|i: int|
            0 <= i < events.len() && (#[trigger] events[i] is Connected
                || events[i] is Disconnected);
        assert(more[i] == events[i]);
    }
    if roster_changes(more) {
        let i = choose|i: int|
            0 <= i < more.len() && (#[trigger] more[i] is Connected || more[i] is Disconnected);
        if i < events.len() {
            assert(events[i] == more[i]);
        }
    }
}

/// A stick reads zero inside the deadzone. Past it, it reads how far past it is,
/// but one at most, towards the side it is held to: held the other way it reads
/// the opposite.
pub proof fn a_stick_reads_how_far_it_is_held(axis: Axis)
    ensures
        axis.value.unsigned().below(number(0x3fc3_3333_4000_0000)) ==> shaped(axis).bits == 0,
        !axis.value.nan() && !axis.value.unsigned().below(number(0x3fc3_3333_4000_0000)) ==> {
            &&& number(0).below(axis.value) && axis.past.below(number(0x3ff0_0000_0000_0000))
                ==> shaped(axis) == axis.past
            &&& number(0).below(axis.value) && !axis.past.below(number(0x3ff0_0000_0000_0000))
                ==> shaped(axis) == number(0x3ff0_0000_0000_0000)
            &&& shaped((Axis { value: axis.value.opposite(), past: axis.past })) == shaped(
                axis,
            ).opposite()
        },
        axis.value.nan() ==> shaped(axis) == axis.value,
{
}

/// A trigger goes by its button where it has one that carries a value, and by
/// its axis otherwise.
pub proof fn a_trigger_goes_by_its_button(button: Axis, axis: Axis)
    ensures
        pulled(Some(button), axis) == button,
        pulled(None, axis) == axis,
{
}

/// The map moves when anything but the volume is off zero, and only then.
pub proof fn any_stick_moves_the_map(sticks: Sticks)
    ensures
        sticks.moving() <==> !(sticks.pan.0.equals(number(0)) && sticks.pan.1.equals(number(0))
            && sticks.turn.equals(number(0)) && sticks.zoom.equals(number(0))),
        Sticks::rest().pan.0.bits == 0,
        Sticks::rest().pan.1.bits == 0,
        Sticks::rest().turn.bits == 0,
        Sticks::rest().zoom.bits == 0,
        Sticks::rest().volume.bits == 0,
{
}

/// A stack that works is nothing to speak of; one that is missing is, with the
/// reason where there is one.
pub proof fn a_missing_stack_is_noticed(stack: InputStack, reason: String)
    ensures
        stack_notice(stack) is None <==> stack is Ready,
        stack_notice(InputStack::NotImplemented) == Some(
            "gamepad input is not supported on this platform"@,
        ),
        stack_notice(InputStack::Unavailable(reason)) == Some(
            "gamepad input unavailable: "@ + reason@,
        ),
{
}

} // verus!
