//! Camera state and the pointer interactions that change it.
//!
//! A camera is five doubles. Adding to one, wrapping an angle and turning a
//! drag by the bearing are arithmetic on doubles and are done by the caller,
//! which hands in the sums; holding a number to what the map can show, and
//! deciding which sum is wanted at all, is done here.
use vstd::prelude::*;

use crate::scalar::{number, Scalar, ZERO};

verus! {

/// The bit pattern of 0, the widest zoom level.
pub const MIN_ZOOM: u64 = 0;

/// The bit pattern of 22, the closest zoom level.
pub const MAX_ZOOM: u64 = 0x4036_0000_0000_0000;

/// The bit pattern of 0, looking straight down.
pub const MIN_PITCH: u64 = 0;

/// The bit pattern of 85, the flattest view.
pub const MAX_PITCH: u64 = 0x4055_4000_0000_0000;

/// The bit pattern of 85, the northernmost latitude the map shows.
pub const MAX_LAT: u64 = 0x4055_4000_0000_0000;

/// The bit pattern of -85, the southernmost.
pub const MIN_LAT: u64 = 0xc055_4000_0000_0000;

/// The bit pattern of 180.
pub const EAST_END: u64 = 0x4066_8000_0000_0000;

/// The bit pattern of -180.
pub const WEST_END: u64 = 0xc066_8000_0000_0000;

/// The bit pattern of 35.680655, where the map opens.
pub const DEFAULT_LAT: u64 = 0x4041_d71f_b3fa_6df0;

/// The bit pattern of 139.767165, where the map opens.
pub const DEFAULT_LON: u64 = 0x4061_788c_9d9d_3459;

/// The bit pattern of 16, the zoom level the map opens at.
pub const DEFAULT_ZOOM: u64 = 0x4030_0000_0000_0000;

/// The bit pattern of 70, the pitch the map opens at.
pub const DEFAULT_PITCH: u64 = 0x4051_8000_0000_0000;

/// Where the map is looked at from.
#[derive(Clone, Copy, Debug, PartialEq, Eq, Structural)]
pub struct MapCamera {
    pub lat: Scalar,
    pub lon: Scalar,
    pub zoom: Scalar,
    pub bearing: Scalar,
    pub pitch: Scalar,
}

/// Transient camera offsets, driven by the effects. Kept apart from the user's
/// camera so an effect can never leave the map somewhere unexpected once it
/// decays.
#[derive(Clone, Copy, Debug, PartialEq, Eq, Structural)]
pub struct CameraBoost {
    pub zoom: Scalar,
    pub pitch: Scalar,
    pub bearing: Scalar,
}

/// The camera with its boost added: `camera.zoom + boost.zoom`,
/// `camera.pitch + boost.pitch`, and `camera.bearing + boost.bearing` wrapped
/// into `0` to `360`.
#[derive(Clone, Copy, Debug, PartialEq, Eq, Structural)]
pub struct Sums {
    pub zoom: Scalar,
    pub bearing: Scalar,
    pub pitch: Scalar,
}

/// Where a pan would take the camera, before it is held to the map: the
/// longitude wrapped into `-180` to `180`, and the latitude as it comes out.
#[derive(Clone, Copy, Debug, PartialEq, Eq, Structural)]
pub struct PanTarget {
    pub lon: Scalar,
    pub lat: Scalar,
}

/// The zoom levels a step away from the camera's: the one further out and the
/// one further in.
#[derive(Clone, Copy, Debug, PartialEq, Eq, Structural)]
pub struct ZoomSteps {
    pub out: Scalar,
    pub closer: Scalar,
}

/// Where a drag has got to.
#[derive(Clone, Copy, Debug, PartialEq, Eq, Structural)]
pub struct DragState {
    pub x: Scalar,
    pub y: Scalar,
}

/// Camera state and the pointer interactions that change it.
#[derive(Clone, Copy, Debug)]
pub struct CameraController {
    pub camera: MapCamera,
    pub boost: CameraBoost,
    pub drag_state: Option<DragState>,
}

/// A zoom level held to what the map can show.
pub open spec fn shown_zoom(zoom: Scalar) -> Scalar {
    zoom.held(number(MIN_ZOOM), number(MAX_ZOOM))
}

/// A pitch held to what the map can show.
pub open spec fn shown_pitch(pitch: Scalar) -> Scalar {
    pitch.held(number(MIN_PITCH), number(MAX_PITCH))
}

/// A latitude held to what the map can show.
pub open spec fn shown_lat(lat: Scalar) -> Scalar {
    lat.held(number(MIN_LAT), number(MAX_LAT))
}

/// A wrapped longitude with the date line written one way.
pub open spec fn canonical_lon(wrapped: Scalar) -> Scalar {
    if wrapped.equals(number(WEST_END)) {
        number(EAST_END)
    } else {
        wrapped
    }
}

/// Whether a number is a longitude wrapped into `-180` to `180`.
pub open spec fn wrapped_lon(lon: Scalar) -> bool {
    !lon.nan() && !lon.below(number(WEST_END)) && !number(EAST_END).below(lon)
}

/// Whether a number is a longitude with the date line written one way: above
/// -180 and at most 180.
pub open spec fn shown_lon(lon: Scalar) -> bool {
    number(WEST_END).below(lon) && !number(EAST_END).below(lon)
}

/// A wrapped longitude comes out above -180 and at most 180, and one that was
/// there already is left alone.
pub proof fn longitudes_end_in_range(wrapped: Scalar)
    requires
        wrapped_lon(wrapped),
    ensures
        shown_lon(canonical_lon(wrapped)),
        shown_lon(wrapped) ==> canonical_lon(wrapped) == wrapped,
        canonical_lon(canonical_lon(wrapped)) == canonical_lon(wrapped),
{
}

/// Holds a zoom level to what the map can show.
pub fn clamp_zoom(zoom: Scalar) -> (r: Scalar)
    ensures
        r == shown_zoom(zoom),
{
    zoom.clamp(Scalar { bits: MIN_ZOOM }, Scalar { bits: MAX_ZOOM })
}

/// Holds a pitch to what the map can show.
pub fn clamp_pitch(pitch: Scalar) -> (r: Scalar)
    ensures
        r == shown_pitch(pitch),
{
    pitch.clamp(Scalar { bits: MIN_PITCH }, Scalar { bits: MAX_PITCH })
}

/// Holds a latitude to what the map can show.
pub fn clamp_lat(lat: Scalar) -> (r: Scalar)
    ensures
        r == shown_lat(lat),
{
    lat.clamp(Scalar { bits: MIN_LAT }, Scalar { bits: MAX_LAT })
}

/// Writes the date line one way: a longitude wrapped into `-180` to `180` that
/// came out at -180 is 180.
pub fn normalize_lon(wrapped: Scalar) -> (r: Scalar)
    ensures
        r == canonical_lon(wrapped),
{
    if wrapped.same(Scalar { bits: WEST_END }) {
        Scalar { bits: EAST_END }
    } else {
        wrapped
    }
}

impl MapCamera {
    /// Where the map opens.
    pub open spec fn home() -> MapCamera {
        MapCamera {
            lat: number(DEFAULT_LAT),
            lon: number(DEFAULT_LON),
            zoom: number(DEFAULT_ZOOM),
            bearing: number(ZERO),
            pitch: number(DEFAULT_PITCH),
        }
    }

    /// Whether two cameras show the same thing.
    pub open spec fn shows_as(self, other: MapCamera) -> bool {
        self.lat.equals(other.lat) && self.lon.equals(other.lon) && self.zoom.equals(other.zoom)
            && self.bearing.equals(other.bearing) && self.pitch.equals(other.pitch)
    }

    /// Whether the map can show this camera: its latitude, longitude, zoom and
    /// pitch are within their bounds.
    pub open spec fn showable(self) -> bool {
        shown_lat(self.lat) == self.lat && shown_lon(self.lon) && shown_zoom(self.zoom) == self.zoom && shown_pitch(
            self.pitch,
        ) == self.pitch
    }

    /// Whether two cameras show the same thing.
    pub fn same_view(self, other: MapCamera) -> (r: bool)
        ensures
            r == self.shows_as(other),
    {
        self.lat.same(other.lat) && self.lon.same(other.lon) && self.zoom.same(other.zoom)
            && self.bearing.same(other.bearing) && self.pitch.same(other.pitch)
    }
}

impl Default for MapCamera {
    fn default() -> (r: MapCamera)
        ensures
            r == MapCamera::home(),
    {
        MapCamera {
            lat: Scalar { bits: DEFAULT_LAT },
            lon: Scalar { bits: DEFAULT_LON },
            zoom: Scalar { bits: DEFAULT_ZOOM },
            bearing: Scalar { bits: ZERO },
            pitch: Scalar { bits: DEFAULT_PITCH },
        }
    }
}

impl CameraBoost {
    /// No offset at all.
    pub open spec fn none() -> CameraBoost {
        CameraBoost { zoom: number(ZERO), pitch: number(ZERO), bearing: number(ZERO) }
    }

    /// Whether two boosts are the same offsets.
    pub open spec fn equals(self, other: CameraBoost) -> bool {
        self.zoom.equals(other.zoom) && self.pitch.equals(other.pitch) && self.bearing.equals(
            other.bearing,
        )
    }

    /// Whether two boosts are the same offsets.
    pub fn same(self, other: CameraBoost) -> (r: bool)
        ensures
            r == self.equals(other),
    {
        self.zoom.same(other.zoom) && self.pitch.same(other.pitch) && self.bearing.same(
            other.bearing,
        )
    }
}

impl Default for CameraBoost {
    fn default() -> (r: CameraBoost)
        ensures
            r == CameraBoost::none(),
    {
        let zero = Scalar { bits: ZERO };
        CameraBoost { zoom: zero, pitch: zero, bearing: zero }
    }
}

impl CameraController {
    /// The camera as it appears on screen, given the sums.
    pub open spec fn on_screen(self, sums: Sums) -> MapCamera {
        MapCamera {
            lat: self.camera.lat,
            lon: self.camera.lon,
            zoom: shown_zoom(sums.zoom),
            bearing: sums.bearing,
            pitch: shown_pitch(sums.pitch),
        }
    }

    /// The controller with its camera panned.
    pub open spec fn panned(self, target: PanTarget) -> CameraController {
        CameraController {
            camera: MapCamera {
                lon: canonical_lon(target.lon),
                lat: shown_lat(target.lat),
                ..self.camera
            },
            ..self
        }
    }

    /// The controller once the pointer has moved to this position, dragging the
    /// map with it if it is pressed.
    pub open spec fn pointed(self, x: Scalar, y: Scalar, target: PanTarget) -> CameraController {
        match self.drag_state {
            Some(_) => self.dragged(x, y, target),
            None => self,
        }
    }

    /// The controller after a drag to this position.
    pub open spec fn dragged(self, x: Scalar, y: Scalar, target: PanTarget) -> CameraController {
        CameraController { drag_state: Some(DragState { x, y }), ..self.panned(target) }
    }

    /// The controller with its camera at another zoom level.
    pub open spec fn zoomed(self, zoom: Scalar) -> CameraController {
        CameraController { camera: MapCamera { zoom: shown_zoom(zoom), ..self.camera }, ..self }
    }

    /// A controller where the map opens, with nothing pressed.
    pub fn new() -> (r: CameraController)
        ensures
            r.camera == MapCamera::home(),
            r.boost == CameraBoost::none(),
            r.drag_state is None,
    {
        CameraController {
            camera: MapCamera::default(),
            boost: CameraBoost::default(),
            drag_state: None,
        }
    }

    /// The camera as it appears on screen: the base camera plus any boost, held
    /// to what the map can show. The base camera itself is not moved.
    pub fn effective(&self, sums: Sums) -> (r: MapCamera)
        ensures
            r == self.on_screen(sums),
    {
        MapCamera {
            lat: self.camera.lat,
            lon: self.camera.lon,
            zoom: clamp_zoom(sums.zoom),
            bearing: sums.bearing,
            pitch: clamp_pitch(sums.pitch),
        }
    }

    /// Moves the pointer, and the map with it if it is being dragged. `target`
    /// is where the distance from the drag's last position to this one pans to.
    /// Returns whether the map moved.
    pub fn mouse_moved(&mut self, x: Scalar, y: Scalar, target: PanTarget) -> (r: bool)
        ensures
            r == (old(self).drag_state is Some),
            *final(self) == old(self).pointed(x, y, target),
    {
        if self.drag_state.is_none() {
            return false;
        }
        self.drag_state = Some(DragState { x, y });
        self.pan_by(target);
        true
    }

    /// Pans, as a drag would. `target` is where the distance pans to.
    pub fn pan_by(&mut self, target: PanTarget)
        ensures
            *final(self) == old(self).panned(target),
    {
        self.camera.lon = normalize_lon(target.lon);
        self.camera.lat = clamp_lat(target.lat);
    }

    /// Zooms by a wheel step: out for a positive delta, in for any other. No
    /// delta is no step. Returns whether there was one.
    pub fn wheel_zoomed(&mut self, delta: Scalar, steps: ZoomSteps) -> (r: bool)
        ensures
            r == !delta.equals(number(ZERO)),
            *final(self) == if delta.equals(number(ZERO)) {
                *old(self)
            } else if number(ZERO).below(delta) {
                old(self).zoomed(steps.out)
            } else {
                old(self).zoomed(steps.closer)
            },
    {
        if delta.is_zero() {
            return false;
        }
        let zoom = if (Scalar { bits: ZERO }).less(delta) {
            steps.out
        } else {
            steps.closer
        };
        self.camera.zoom = clamp_zoom(zoom);
        true
    }

    /// Zooms in by a double-click step, or out with shift held.
    pub fn double_clicked(&mut self, shift: bool, steps: ZoomSteps)
        ensures
            *final(self) == old(self).zoomed(
                if shift {
                    steps.out
                } else {
                    steps.closer
                },
            ),
    {
        let zoom = if shift {
            steps.out
        } else {
            steps.closer
        };
        self.camera.zoom = clamp_zoom(zoom);
    }
}

/// Whatever the sums, what appears on screen is something the map can show,
/// wherever the base camera's latitude and longitude are.
pub proof fn the_screen_is_showable(controller: CameraController, sums: Sums)
    requires
        shown_lat(controller.camera.lat) == controller.camera.lat,
        shown_lon(controller.camera.lon),
    ensures
        controller.on_screen(sums).showable(),
{
}

/// A boost that has decayed leaves no trace: with nothing added to it, a camera
/// the map can show appears exactly where the user left it.
pub proof fn a_decayed_boost_leaves_no_trace(controller: CameraController, sums: Sums)
    requires
        controller.camera.showable(),
        sums.zoom == controller.camera.zoom,
        sums.bearing == controller.camera.bearing,
        sums.pitch == controller.camera.pitch,
    ensures
        controller.on_screen(sums) == controller.camera,
{
}

/// A stick pans the map exactly as a drag to the same place does, wherever that
/// is: only the latitude and the longitude change, and both end where the map can
/// show them, for a latitude that is a number and a longitude that is wrapped.
/// Without a press the pointer moves nothing.
pub proof fn a_stick_pans_as_a_drag_does(
    pressed: CameraController,
    other: CameraController,
    x: Scalar,
    y: Scalar,
    target: PanTarget,
)
    requires
        pressed.drag_state is Some,
        other.camera == pressed.camera,
        other.boost == pressed.boost,
    ensures
        ({
            let dragged = pressed.pointed(x, y, target);
            let panned = other.panned(target);
            &&& dragged.camera == panned.camera
            &&& dragged.boost == pressed.boost
            &&& panned.boost == other.boost
            &&& panned.drag_state == other.drag_state
            &&& panned.camera.zoom == other.camera.zoom
            &&& panned.camera.bearing == other.camera.bearing
            &&& panned.camera.pitch == other.camera.pitch
            &&& !target.lat.nan() ==> !panned.camera.lat.nan() && !panned.camera.lat.below(
                number(MIN_LAT),
            ) && !number(MAX_LAT).below(panned.camera.lat)
            &&& wrapped_lon(target.lon) ==> shown_lon(panned.camera.lon)
        }),
        other.drag_state is None ==> other.pointed(x, y, target) == other,
{
    if wrapped_lon(target.lon) {
        longitudes_end_in_range(target.lon);
    }
}

/// Panning and zooming keep a camera that the map can show one that it can
/// show, and leave the boost alone.
pub proof fn moving_keeps_the_camera_showable(
    controller: CameraController,
    target: PanTarget,
    zoom: Scalar,
)
    requires
        controller.camera.showable(),
        wrapped_lon(target.lon),
    ensures
        controller.panned(target).camera.showable(),
        controller.zoomed(zoom).camera.showable(),
        controller.panned(target).boost == controller.boost,
        controller.zoomed(zoom).boost == controller.boost,
{
}

/// Two cameras show the same thing only where nothing about them differs:
/// moving any one of the five numbers to another shows something else, and a
/// camera of numbers shows what it shows.
pub proof fn any_move_shows_something_else(camera: MapCamera, other: MapCamera, to: Scalar)
    ensures
        !camera.lat.equals(other.lat) ==> !camera.shows_as(other),
        !camera.lon.equals(other.lon) ==> !camera.shows_as(other),
        !camera.zoom.equals(other.zoom) ==> !camera.shows_as(other),
        !camera.bearing.equals(other.bearing) ==> !camera.shows_as(other),
        !camera.pitch.equals(other.pitch) ==> !camera.shows_as(other),
        !camera.lat.nan() && !camera.lon.nan() && !camera.zoom.nan() && !camera.bearing.nan()
            && !camera.pitch.nan() ==> {
            &&& camera.shows_as(camera)
            &&& to.equals(camera.lat) ==> camera.shows_as((MapCamera { lat: to, ..camera }))
            &&& to.equals(camera.lon) ==> camera.shows_as((MapCamera { lon: to, ..camera }))
            &&& to.equals(camera.zoom) ==> camera.shows_as((MapCamera { zoom: to, ..camera }))
            &&& to.equals(camera.bearing) ==> camera.shows_as(
                (MapCamera { bearing: to, ..camera }),
            )
            &&& to.equals(camera.pitch) ==> camera.shows_as((MapCamera { pitch: to, ..camera }))
        },
{
}

/// Two boosts are the same offsets only where none of the three differs.
pub proof fn any_offset_makes_another_boost(boost: CameraBoost, other: CameraBoost)
    ensures
        !boost.zoom.equals(other.zoom) ==> !boost.equals(other),
        !boost.pitch.equals(other.pitch) ==> !boost.equals(other),
        !boost.bearing.equals(other.bearing) ==> !boost.equals(other),
        !boost.zoom.nan() && !boost.pitch.nan() && !boost.bearing.nan() ==> boost.equals(boost),
        CameraBoost::none().zoom.bits == 0,
        CameraBoost::none().pitch.bits == 0,
        CameraBoost::none().bearing.bits == 0,
{
}

/// What the map shows is the nearest it can to what is asked for: zoom levels
/// from 0 to 22, pitches from 0 to 85 and latitudes from -85 to 85, each left
/// alone where it is one of them.
pub proof fn what_is_shown_is_the_nearest(x: Scalar)
    requires
        !x.nan(),
    ensures
        ({
            let (widest, closest) = (number(0), number(0x4036_0000_0000_0000));
            let shown = shown_zoom(x);
            &&& !shown.nan() && !shown.below(widest) && !closest.below(shown)
            &&& !x.below(widest) && !closest.below(x) ==> shown == x
            &&& x.below(widest) ==> shown == widest
            &&& closest.below(x) ==> shown == closest
        }),
        ({
            let (straight, flattest) = (number(0), number(0x4055_4000_0000_0000));
            let shown = shown_pitch(x);
            &&& !shown.nan() && !shown.below(straight) && !flattest.below(shown)
            &&& !x.below(straight) && !flattest.below(x) ==> shown == x
            &&& x.below(straight) ==> shown == straight
            &&& flattest.below(x) ==> shown == flattest
        }),
        ({
            let north = number(0x4055_4000_0000_0000);
            let shown = shown_lat(x);
            &&& !shown.nan() && !shown.below(north.opposite()) && !north.below(shown)
            &&& !x.below(north.opposite()) && !north.below(x) ==> shown == x
            &&& x.below(north.opposite()) ==> shown == north.opposite()
            &&& north.below(x) ==> shown == north
        }),
{
}

/// A longitude is left where it is, but for -180, which is the same meridian as
/// 180 and is written so.
pub proof fn only_the_date_line_is_rewritten(lon: Scalar)
    ensures
        ({
            let east = number(0x4066_8000_0000_0000);
            &&& lon == east.opposite() ==> canonical_lon(lon) == east
            &&& lon != east.opposite() ==> canonical_lon(lon) == lon
        }),
{
}

/// What appears on screen stands where the camera does and looks the way the
/// sums say: a sum that can be shown is what is shown, and the bearing always
/// is.
pub proof fn the_screen_follows_the_camera(controller: CameraController, sums: Sums)
    ensures
        ({
            let screen = controller.on_screen(sums);
            &&& screen.lat == controller.camera.lat
            &&& screen.lon == controller.camera.lon
            &&& screen.bearing == sums.bearing
            &&& !sums.zoom.nan() && !sums.zoom.below(number(0)) && !number(
                0x4036_0000_0000_0000,
            ).below(sums.zoom) ==> screen.zoom == sums.zoom
            &&& !sums.zoom.nan() ==> !screen.zoom.below(number(0)) && !number(
                0x4036_0000_0000_0000,
            ).below(screen.zoom)
            &&& !sums.pitch.nan() && !sums.pitch.below(number(0)) && !number(
                0x4055_4000_0000_0000,
            ).below(sums.pitch) ==> screen.pitch == sums.pitch
            &&& !sums.pitch.nan() ==> !screen.pitch.below(number(0)) && !number(
                0x4055_4000_0000_0000,
            ).below(screen.pitch)
        }),
{
}

/// A pan ends at its target wherever the map reaches that far, and a drag
/// besides remembers where the pointer got to, so that the next one starts from
/// there.
pub proof fn a_pan_ends_at_its_target(
    controller: CameraController,
    x: Scalar,
    y: Scalar,
    target: PanTarget,
)
    ensures
        ({
            let panned = controller.panned(target);
            let north = number(0x4055_4000_0000_0000);
            &&& target.lon != number(0xc066_8000_0000_0000) ==> panned.camera.lon == target.lon
            &&& target.lon == number(0xc066_8000_0000_0000) ==> panned.camera.lon == number(
                0x4066_8000_0000_0000,
            )
            &&& !target.lat.below(north.opposite()) && !north.below(target.lat)
                ==> panned.camera.lat == target.lat
            &&& target.lat.below(north.opposite()) ==> panned.camera.lat == north.opposite()
            &&& north.below(target.lat) ==> panned.camera.lat == north
            &&& panned == (CameraController {
                camera: MapCamera {
                    lat: panned.camera.lat,
                    lon: panned.camera.lon,
                    ..controller.camera
                },
                ..controller
            })
        }),
        controller.drag_state is Some ==> {
            let dragged = controller.pointed(x, y, target);
            &&& dragged.camera == controller.panned(target).camera
            &&& dragged.drag_state == Some(DragState { x, y })
            &&& dragged.boost == controller.boost
        },
        controller.dragged(x, y, target).drag_state == Some(DragState { x, y }),
        controller.dragged(x, y, target).camera == controller.panned(target).camera,
        controller.dragged(x, y, target).boost == controller.boost,
{
}

/// Zooming changes the zoom level and nothing else, to the level asked for where
/// the map has it.
pub proof fn zooming_only_zooms(controller: CameraController, zoom: Scalar)
    ensures
        ({
            let zoomed = controller.zoomed(zoom);
            &&& zoomed == (CameraController {
                camera: MapCamera { zoom: zoomed.camera.zoom, ..controller.camera },
                ..controller
            })
            &&& !zoom.below(number(0)) && !number(0x4036_0000_0000_0000).below(zoom)
                ==> zoomed.camera.zoom == zoom
            &&& zoom.below(number(0)) ==> zoomed.camera.zoom == number(0)
            &&& number(0x4036_0000_0000_0000).below(zoom) ==> zoomed.camera.zoom == number(
                0x4036_0000_0000_0000,
            )
        }),
{
}

/// The map opens over Tokyo Station, looking north at a slant: near 35.68 degrees
/// north and 139.77 east, at zoom level 16 and a pitch of 70, which is somewhere
/// it can show.
pub proof fn the_map_opens_over_tokyo()
    ensures
        ({
            let home = MapCamera::home();
            &&& number(0x4041_c000_0000_0000).below(home.lat)
            &&& home.lat.below(number(0x4042_0000_0000_0000))
            &&& number(0x4061_6000_0000_0000).below(home.lon)
            &&& home.lon.below(number(0x4061_8000_0000_0000))
            &&& home.zoom == number(0x4030_0000_0000_0000)
            &&& home.bearing == number(0)
            &&& home.pitch == number(0x4051_8000_0000_0000)
            &&& home.lat == number(0x4041_d71f_b3fa_6df0)
            &&& home.lon == number(0x4061_788c_9d9d_3459)
        }),
{
}

} // verus!
