//! The UI thread's handle to the map.
//!
//! Every mutation is forwarded to the render thread as a [`Command`], and
//! finished frames come back. The channels between the two threads are the
//! caller's. A method that moves the camera takes the wheel back from a flight
//! and hands out the one command that publishes where the camera then is. It is
//! given the sums for that camera; what the move itself comes to does not depend
//! on them, so a move made on a copy of the handle shows which camera to add up.
use vstd::prelude::*;
use vstd::string::*;

use crate::audio::BINS;
use crate::map::camera::{
    canonical_lon, clamp_lat, clamp_pitch, clamp_zoom, normalize_lon, shown_lat, shown_pitch,
    shown_zoom, CameraBoost, CameraController, DragState, MapCamera, PanTarget, Sums, ZoomSteps,
};
use crate::map::style::{drawable, safe_size, Band, Light};
use crate::scalar::{number, Scalar, ZERO};

verus! {

/// A rendered map image, handed from the render thread to the UI thread.
pub struct Frame {
    pub width: u32,
    pub height: u32,
    pub rgba: Vec<u8>,
    /// The map's own camera, reported while it is flying so the UI can follow.
    pub camera: Option<MapCamera>,
    /// Whether a fly-to is still in the air.
    pub flying: bool,
    /// The most recent fly-to the render thread has taken on, whether or not it
    /// is still in the air. A frame drawn before the command arrived carries
    /// the one before it, which is how the UI tells the two apart.
    pub flight: Option<u64>,
}

/// What the UI thread asks of the render thread.
pub enum Command {
    Resize(u32, u32),
    Style(String),
    Camera(MapCamera),
    /// Hand the camera to the map and let it fly there itself.
    FlyTo {
        camera: MapCamera,
        duration_ms: Option<Scalar>,
        /// Matched against the end of the flight, so a stale one from a
        /// cancelled flight is ignored.
        id: u64,
    },
    Bands(Vec<Band>),
    Light(Light),
}

/// Whether a frame is allowed to end the flight the UI believes is in the air.
///
/// Only a frame the render thread drew after taking the fly-to on can say it is
/// over. Frames are produced continuously, so one drawn between the command
/// being sent and being applied still reports that nothing flies, and believing
/// it would cancel the flight a tick after it started.
pub open spec fn ends_flight(flight: Option<u64>, flying: bool, waiting_for: u64) -> bool {
    !flying && flight == Some(waiting_for)
}

/// Whether a frame is allowed to end the flight the UI believes is in the air.
pub fn frame_ends_flight(frame_flight: Option<u64>, frame_flying: bool, waiting_for: u64) -> (r:
    bool)
    ensures
        r == ends_flight(frame_flight, frame_flying, waiting_for),
{
    match frame_flight {
        Some(flight) => !frame_flying && flight == waiting_for,
        None => false,
    }
}

/// UI-thread handle to the map.
#[derive(Clone, Copy, Debug)]
pub struct MapLibre {
    pub controller: CameraController,
    pub size: (u32, u32),
    /// Whether a fly-to is in the air, as far as this thread knows.
    pub flying: bool,
    /// Identifies each fly-to so a finished one can be matched to its start.
    pub flight_id: u64,
}

impl MapLibre {
    /// The handle once a frame has been shown: while the map is flying it owns
    /// the camera, so the handle follows it.
    pub open spec fn shown(self, frame: Frame) -> MapLibre {
        MapLibre {
            controller: CameraController {
                camera: match frame.camera {
                    Some(camera) => camera,
                    None => self.controller.camera,
                },
                ..self.controller
            },
            flying: self.flying && !ends_flight(frame.flight, frame.flying, self.flight_id),
            ..self
        }
    }

    /// The handle with its camera moved, which cancels a flight.
    pub open spec fn moved(self, controller: CameraController) -> MapLibre {
        MapLibre { controller, flying: false, ..self }
    }

    /// The handle with another base camera, which cancels a flight.
    pub open spec fn at(self, camera: MapCamera) -> MapLibre {
        self.moved(CameraController { camera, ..self.controller })
    }

    /// The command that publishes the camera as it appears on screen.
    pub open spec fn published(self, sums: Sums) -> Command {
        Command::Camera(self.controller.on_screen(sums))
    }

    /// A map of this size, but at least a pixel each way, where the map opens.
    pub fn new(size: (u32, u32)) -> (r: MapLibre)
        ensures
            r.controller.camera == MapCamera::home(),
            r.controller.boost == CameraBoost::none(),
            r.controller.drag_state is None,
            r.size == drawable(size.0, size.1),
            !r.flying,
            r.flight_id == 0,
    {
        MapLibre {
            controller: CameraController::new(),
            size: safe_size(size.0, size.1),
            flying: false,
            flight_id: 0,
        }
    }

    /// Publishes the camera as it appears on screen. An absolute camera cancels
    /// a flight, on both sides of the channel.
    pub fn push_camera(&mut self, sums: Sums) -> (r: Command)
        ensures
            r == old(self).published(sums),
            *final(self) == (MapLibre { flying: false, ..*old(self) }),
    {
        self.flying = false;
        Command::Camera(self.controller.effective(sums))
    }

    /// The camera as it appears on screen, boost added in.
    pub fn camera(&self, sums: Sums) -> (r: MapCamera)
        ensures
            r == self.controller.on_screen(sums),
    {
        self.controller.effective(sums)
    }

    /// Applies transient camera offsets. [`CameraBoost::default`] returns the
    /// camera to the user's own position, and offsets it already has are no
    /// move.
    pub fn set_boost(&mut self, boost: CameraBoost, sums: Sums) -> (r: Option<Command>)
        ensures
            r == if old(self).controller.boost.equals(boost) {
                None
            } else {
                Some(final(self).published(sums))
            },
            *final(self) == if old(self).controller.boost.equals(boost) {
                *old(self)
            } else {
                old(self).moved((CameraController { boost, ..old(self).controller }))
            },
    {
        if self.controller.boost.same(boost) {
            return None;
        }
        self.controller.boost = boost;
        Some(self.push_camera(sums))
    }

    /// Takes the newest of the frames that have finished since the last call,
    /// oldest first, and follows the map to where it shows.
    pub fn take_frame(&mut self, finished: Vec<Frame>) -> (r: Option<Frame>)
        ensures
            if finished@.len() == 0 {
                r is None && *final(self) == *old(self)
            } else {
                r == Some(finished@.last()) && *final(self) == old(self).shown(finished@.last())
            },
    {
        let mut finished = finished;
        let newest = finished.pop();
        if let Some(frame) = &newest {
            if let Some(camera) = frame.camera {
                self.controller.camera = camera;
            }
            if frame_ends_flight(frame.flight, frame.flying, self.flight_id) {
                self.flying = false;
            }
        }
        newest
    }

    /// Loads another style.
    pub fn load_style(&self, style_url: String) -> (r: Command)
        ensures
            r == Command::Style(style_url),
    {
        Command::Style(style_url)
    }

    /// Resizes the map, to at least a pixel each way. A size it already has is
    /// no news.
    pub fn resize(&mut self, size: (u32, u32)) -> (r: Option<Command>)
        ensures
            ({
                let size = drawable(size.0, size.1);
                &&& r == if old(self).size == size {
                    None
                } else {
                    Some(Command::Resize(size.0, size.1))
                }
                &&& *final(self) == (MapLibre { size, ..*old(self) })
            }),
    {
        let size = safe_size(size.0, size.1);
        if self.size.0 == size.0 && self.size.1 == size.1 {
            return None;
        }
        self.size = size;
        Some(Command::Resize(size.0, size.1))
    }

    /// Hands the camera to the map and lets it fly there. `lon` is the
    /// longitude wrapped into `-180` to `180`.
    ///
    /// The map owns the camera until it lands: each frame reports where it got
    /// to. Anything that moves the camera from here cancels the flight, because
    /// it publishes an absolute camera the map has to obey.
    pub fn fly_to(&mut self, lat: Scalar, lon: Scalar, zoom: Scalar, duration_ms: Option<Scalar>)
        -> (r: Command)
        requires
            old(self).flight_id < u64::MAX,
        ensures
            r == (Command::FlyTo {
                camera: MapCamera {
                    lat: shown_lat(lat),
                    lon: canonical_lon(lon),
                    zoom: shown_zoom(zoom),
                    ..old(self).controller.camera
                },
                duration_ms,
                id: (old(self).flight_id + 1) as u64,
            }),
            *final(self) == (MapLibre {
                controller: CameraController { drag_state: None, ..old(self).controller },
                flying: true,
                flight_id: (old(self).flight_id + 1) as u64,
                ..*old(self)
            }),
    {
        self.controller.drag_state = None;
        self.flight_id = self.flight_id + 1;
        self.flying = true;
        let camera = self.controller.camera;
        Command::FlyTo {
            camera: MapCamera {
                lat: clamp_lat(lat),
                lon: normalize_lon(lon),
                zoom: clamp_zoom(zoom),
                bearing: camera.bearing,
                pitch: camera.pitch,
            },
            duration_ms,
            id: self.flight_id,
        }
    }

    /// Whether a fly-to is in the air.
    pub fn flying(&self) -> (r: bool)
        ensures
            r == self.flying,
    {
        self.flying
    }

    /// Moves the camera to a pitch.
    pub fn set_pitch(&mut self, pitch: Scalar, sums: Sums) -> (r: Command)
        ensures
            r == final(self).published(sums),
            *final(self) == old(self).at(
                (MapCamera { pitch: shown_pitch(pitch), ..old(self).controller.camera }),
            ),
    {
        self.controller.camera.pitch = clamp_pitch(pitch);
        self.push_camera(sums)
    }

    /// Moves the camera to a bearing, wrapped into `0` to `360`.
    pub fn set_bearing(&mut self, bearing: Scalar, sums: Sums) -> (r: Command)
        ensures
            r == final(self).published(sums),
            *final(self) == old(self).at(
                (MapCamera { bearing, ..old(self).controller.camera }),
            ),
    {
        self.controller.camera.bearing = bearing;
        self.push_camera(sums)
    }

    /// Moves the camera to a zoom level.
    pub fn set_zoom(&mut self, zoom: Scalar, sums: Sums) -> (r: Command)
        ensures
            r == final(self).published(sums),
            *final(self) == old(self).at(
                (MapCamera { zoom: shown_zoom(zoom), ..old(self).controller.camera }),
            ),
    {
        self.controller.camera.zoom = clamp_zoom(zoom);
        self.push_camera(sums)
    }

    /// Adopts the style and the camera the UI declared before the map existed,
    /// so that it opens where the UI asked for. No style is left as it is. The
    /// longitude and the bearing come wrapped.
    pub fn apply_initial(&mut self, style_url: String, camera: MapCamera, sums: Sums) -> (r: (
        Option<Command>,
        Command,
    ))
        ensures
            r.0 == if style_url@.len() == 0 {
                None
            } else {
                Some(Command::Style(style_url))
            },
            r.1 == final(self).published(sums),
            *final(self) == old(self).at(
                (MapCamera {
                    lat: shown_lat(camera.lat),
                    lon: canonical_lon(camera.lon),
                    zoom: shown_zoom(camera.zoom),
                    bearing: camera.bearing,
                    pitch: shown_pitch(camera.pitch),
                }),
            ),
    {
        self.controller.camera = MapCamera {
            lat: clamp_lat(camera.lat),
            lon: normalize_lon(camera.lon),
            zoom: clamp_zoom(camera.zoom),
            bearing: camera.bearing,
            pitch: clamp_pitch(camera.pitch),
        };
        let style = if style_url.as_str().unicode_len() > 0 {
            Some(self.load_style(style_url))
        } else {
            None
        };
        (style, self.push_camera(sums))
    }

    /// Pans by a distance on screen, as a drag does. `target` is where the
    /// distance pans to. No distance is no pan.
    pub fn pan_by(&mut self, dx: Scalar, dy: Scalar, target: PanTarget, sums: Sums) -> (r: Option<
        Command,
    >)
        ensures
            if dx.equals(number(ZERO)) && dy.equals(number(ZERO)) {
                r is None && *final(self) == *old(self)
            } else {
                &&& r == Some(final(self).published(sums))
                &&& *final(self) == old(self).moved(old(self).controller.panned(target))
            },
    {
        if dx.is_zero() && dy.is_zero() {
            return None;
        }
        self.controller.pan_by(target);
        Some(self.push_camera(sums))
    }

    /// Adds to the zoom level: `zoom` is what it comes to. Adding nothing is no
    /// move.
    pub fn nudge_zoom(&mut self, delta: Scalar, zoom: Scalar, sums: Sums) -> (r: Option<Command>)
        ensures
            if delta.equals(number(ZERO)) {
                r is None && *final(self) == *old(self)
            } else {
                &&& r == Some(final(self).published(sums))
                &&& *final(self) == old(self).moved(old(self).controller.zoomed(zoom))
            },
    {
        if delta.is_zero() {
            return None;
        }
        self.controller.camera.zoom = clamp_zoom(zoom);
        Some(self.push_camera(sums))
    }

    /// Adds to the bearing: `bearing` is what it comes to, wrapped into `0` to
    /// `360`. Both the demo's own spin and the gamepad's right stick go through
    /// here, so they compose instead of overwriting each other.
    pub fn nudge_bearing(&mut self, delta: Scalar, bearing: Scalar, sums: Sums) -> (r: Option<
        Command,
    >)
        ensures
            if delta.equals(number(ZERO)) {
                r is None && *final(self) == *old(self)
            } else {
                &&& r == Some(final(self).published(sums))
                &&& *final(self) == old(self).at(
                    (MapCamera { bearing, ..old(self).controller.camera }),
                )
            },
    {
        if delta.is_zero() {
            return None;
        }
        self.controller.camera.bearing = bearing;
        Some(self.push_camera(sums))
    }

    /// Starts a drag.
    pub fn mouse_pressed(&mut self, x: Scalar, y: Scalar)
        ensures
            *final(self) == (MapLibre {
                controller: CameraController {
                    drag_state: Some(DragState { x, y }),
                    ..old(self).controller
                },
                ..*old(self)
            }),
    {
        self.controller.drag_state = Some(DragState { x, y });
    }

    /// Ends a drag.
    pub fn mouse_released(&mut self)
        ensures
            *final(self) == (MapLibre {
                controller: CameraController { drag_state: None, ..old(self).controller },
                ..*old(self)
            }),
    {
        self.controller.drag_state = None;
    }

    /// Moves the pointer. See [`CameraController::mouse_moved`].
    pub fn mouse_moved(&mut self, x: Scalar, y: Scalar, target: PanTarget, sums: Sums) -> (r:
        Option<Command>)
        ensures
            if old(self).controller.drag_state is None {
                r is None && *final(self) == *old(self)
            } else {
                &&& r == Some(final(self).published(sums))
                &&& *final(self) == old(self).moved(old(self).controller.dragged(x, y, target))
            },
    {
        if self.controller.mouse_moved(x, y, target) {
            Some(self.push_camera(sums))
        } else {
            None
        }
    }

    /// Turns the wheel. See [`CameraController::wheel_zoomed`].
    pub fn wheel_zoomed(&mut self, delta: Scalar, steps: ZoomSteps, sums: Sums) -> (r: Option<
        Command,
    >)
        ensures
            if delta.equals(number(ZERO)) {
                r is None && *final(self) == *old(self)
            } else {
                &&& r == Some(final(self).published(sums))
                &&& *final(self) == old(self).moved(
                    old(self).controller.zoomed(
                        if number(ZERO).below(delta) {
                            steps.out
                        } else {
                            steps.closer
                        },
                    ),
                )
            },
    {
        if self.controller.wheel_zoomed(delta, steps) {
            Some(self.push_camera(sums))
        } else {
            None
        }
    }

    /// Double-clicks. See [`CameraController::double_clicked`].
    pub fn double_clicked(&mut self, shift: bool, steps: ZoomSteps, sums: Sums) -> (r: Command)
        ensures
            r == final(self).published(sums),
            *final(self) == old(self).moved(
                old(self).controller.zoomed(
                    if shift {
                        steps.out
                    } else {
                        steps.closer
                    },
                ),
            ),
    {
        self.controller.double_clicked(shift, steps);
        self.push_camera(sums)
    }

    /// Applies one frame of the sound animation: every band gets the extrusion
    /// height worked out for it.
    pub fn apply_levels(&self, heights: &Vec<Scalar>) -> (r: Command)
        requires
            heights@.len() == BINS,
        ensures
            r matches Command::Bands(bands) && bands@ == heights@.map_values(
                |height: Scalar| Band { height },
            ),
    {
        let mut bands: Vec<Band> = Vec::new();
        let mut index: usize = 0;
        while index < heights.len()
            invariant
                index <= heights@.len(),
                bands@ == heights@.take(index as int).map_values(
                    |height: Scalar| Band { height },
                ),
            decreases heights@.len() - index,
        {
            bands.push(Band { height: heights[index] });
            index = index + 1;
            proof {
                assert(bands@ =~= heights@.take(index as int).map_values(
                    |height: Scalar| Band { height },
                ));
            }
        }
        proof {
            assert(heights@.take(index as int) =~= heights@);
        }
        Command::Bands(bands)
    }

    /// Sets the style's light.
    pub fn set_light(&self, light: Light) -> (r: Command)
        ensures
            r == Command::Light(light),
    {
        Command::Light(light)
    }

    /// Resets every band back to the flat, unlit state used when nothing plays.
    pub fn reset_levels(&self) -> (r: (Command, Command))
        ensures
            r.0 matches Command::Bands(bands) && bands@ == Seq::new(
                BINS as nat,
                |i: int| Band::flat(),
            ),
            r.1 == Command::Light(Light::dark()),
    {
        let mut bands: Vec<Band> = Vec::new();
        let mut index: usize = 0;
        while index < BINS
            invariant
                index <= BINS,
                bands@ == Seq::new(index as nat, |i: int| Band::flat()),
            decreases BINS - index,
        {
            bands.push(Band::default());
            index = index + 1;
            proof {
                assert(bands@ =~= Seq::new(index as nat, |i: int| Band::flat()));
            }
        }
        (Command::Bands(bands), Command::Light(Light::default()))
    }
}

/// A frame never starts a flight, ends only the one that is waited for, and
/// moves nothing but the base camera.
pub proof fn a_frame_only_lands_the_awaited_flight(map: MapLibre, frame: Frame)
    ensures
        map.shown(frame).flying ==> map.flying,
        map.flying && !map.shown(frame).flying ==> frame.flight == Some(map.flight_id)
            && !frame.flying,
        map.shown(frame).flight_id == map.flight_id,
        map.shown(frame).controller.boost == map.controller.boost,
        map.shown(frame).controller.drag_state == map.controller.drag_state,
        frame.camera is None ==> map.shown(frame).controller.camera == map.controller.camera,
{
}

/// A frame is followed: where it carries a camera, that is the camera from then
/// on, and the flight that is waited for is over exactly when a frame that
/// belongs to it says that nothing flies. Nothing else changes.
pub proof fn a_frame_is_followed(map: MapLibre, frame: Frame)
    ensures
        ({
            let shown = map.shown(frame);
            &&& frame.camera matches Some(camera) ==> shown.controller.camera == camera
            &&& frame.camera is None ==> shown.controller.camera == map.controller.camera
            &&& map.flying && !shown.flying <==> map.flying && frame.flight == Some(map.flight_id)
                && !frame.flying
            &&& !map.flying ==> !shown.flying
            &&& shown == (MapLibre {
                controller: CameraController {
                    camera: shown.controller.camera,
                    ..map.controller
                },
                flying: shown.flying,
                ..map
            })
        }),
        forall|flight: Option<u64>, flying: bool, waiting_for: u64| #[trigger]
            ends_flight(flight, flying, waiting_for) <==> flight == Some(waiting_for) && !flying,
{
}

/// A move takes the wheel back and changes nothing but the controller, and what
/// is published is an absolute camera: it stands where the controller's camera
/// does, turned the way the sums say, at a zoom level and a pitch that the map
/// can show.
pub proof fn a_move_is_published_as_it_is(
    map: MapLibre,
    controller: CameraController,
    camera: MapCamera,
    sums: Sums,
)
    ensures
        !map.moved(controller).flying,
        map.moved(controller).controller == controller,
        map.moved(controller).size == map.size,
        map.moved(controller).flight_id == map.flight_id,
        !map.at(camera).flying,
        map.at(camera).controller.camera == camera,
        map.at(camera).controller.boost == map.controller.boost,
        map.at(camera).controller.drag_state == map.controller.drag_state,
        map.at(camera).size == map.size,
        map.at(camera).flight_id == map.flight_id,
        map.published(sums) is Camera,
        map.published(sums) matches Command::Camera(sent) ==> {
            &&& sent.lat == map.controller.camera.lat
            &&& sent.lon == map.controller.camera.lon
            &&& sent.bearing == sums.bearing
            &&& !sums.zoom.below(number(0)) && !number(0x4036_0000_0000_0000).below(sums.zoom)
                ==> sent.zoom == sums.zoom
            &&& sums.zoom.below(number(0)) ==> sent.zoom == number(0)
            &&& number(0x4036_0000_0000_0000).below(sums.zoom) ==> sent.zoom == number(
                0x4036_0000_0000_0000,
            )
            &&& !sums.pitch.below(number(0)) && !number(0x4055_4000_0000_0000).below(sums.pitch)
                ==> sent.pitch == sums.pitch
            &&& sums.pitch.below(number(0)) ==> sent.pitch == number(0)
            &&& number(0x4055_4000_0000_0000).below(sums.pitch) ==> sent.pitch == number(
                0x4055_4000_0000_0000,
            )
        },
{
}

} // verus!
