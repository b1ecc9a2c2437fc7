//! What the render thread keeps of the map, and what it decides.
//!
//! The native runtime, map and render session are the caller's, and so is every
//! call into them. The engine is told what came of each call and says what is
//! to be called next: whether the runtime, the map or the band layers have to
//! be brought up, which properties are out of date, whether the camera jumps or
//! flies, and what the finished frame carries.
use vstd::prelude::*;
use vstd::string::*;

use crate::audio::BINS;
use crate::map::camera::{MapCamera, Sums};
use crate::map::handle::{ends_flight, Command, Frame, MapLibre};
use crate::map::style::{negligible, Band, Light, HEIGHT_EPSILON};
use crate::scalar::{number, Scalar};
use crate::text::{trim, trimmed};

verus! {

/// The style the map opens with.
pub const DEFAULT_STYLE_URL: &'static str =
    "https://tile.openstreetmap.jp/styles/maptiler-toner-ja/style.json";

/// How long the render thread waits for a command before turning the runtime
/// anyway, so in-flight tile requests keep progressing while the map is idle.
pub const IDLE_TICK_MS: u64 = 16;

/// How long each turn of the runtime may block waiting for work. Short, because
/// the thread has a frame to draw afterwards.
pub const PUMP_BUDGET_MS: u64 = 2;

/// The style to open with, given what the environment asks for: anything but
/// white space, and the default otherwise.
pub open spec fn style_asked_for(value: Option<Seq<char>>) -> Seq<char> {
    match value {
        Some(url) => if trimmed(url).len() == 0 {
            DEFAULT_STYLE_URL@
        } else {
            trimmed(url)
        },
        None => DEFAULT_STYLE_URL@,
    }
}

/// The style to open with, given what the environment asks for.
pub fn default_style_url(value: Option<&str>) -> (r: String)
    ensures
        r@ == style_asked_for(
            match value {
                Some(url) => Some(url@),
                None => None,
            },
        ),
{
    if let Some(url) = value {
        let url = trim(url);
        if url.as_str().unicode_len() > 0 {
            return url;
        }
    }
    DEFAULT_STYLE_URL.to_owned()
}

/// A map with a render target attached.
#[derive(Clone, Copy, Debug, PartialEq, Eq, Structural)]
pub struct Attached {
    /// The band layers exist and can be updated in place.
    pub layers: bool,
    /// The style has finished loading, so its sources exist and layers
    /// referring to them can be added.
    pub style_loaded: bool,
}

/// A fly-to that has not been handed to the map yet.
#[derive(Clone, Copy, Debug)]
pub struct Flight {
    pub camera: MapCamera,
    pub duration_ms: Option<Scalar>,
    pub id: u64,
}

/// What the map says of its own camera. It may leave anything out.
#[derive(Clone, Copy, Debug)]
pub struct Reported {
    /// Latitude and longitude.
    pub center: Option<(Scalar, Scalar)>,
    pub zoom: Option<Scalar>,
    pub bearing: Option<Scalar>,
    pub pitch: Option<Scalar>,
}

/// One event of the map's.
#[derive(Clone, Copy, Debug)]
pub enum MapEvent {
    /// The map has something new to draw.
    UpdateAvailable,
    /// A frame is finished, and whether the map wants another.
    FrameFinished(bool),
    StyleLoaded,
    /// A camera transition is over, by its identifier.
    TransitionFinished(u64),
    /// Anything else, or an event of something other than this map.
    Other,
}

/// What a command asks the caller to do to the native map.
#[derive(Clone, Copy, Debug, PartialEq, Eq, Structural)]
pub enum Request {
    /// Resize the render target, and say so if that failed.
    ResizeTarget(u32, u32),
    /// Load the style whose address the engine now holds.
    LoadStyle,
    /// Cancel the camera transition in the air.
    CancelTransitions,
}

/// What has to be brought up before a frame can be drawn.
#[derive(Clone, Copy, Debug, PartialEq, Eq, Structural)]
pub enum Missing {
    TheRuntime,
    TheMap,
    Nothing,
}

/// What to do with the map's camera before drawing.
#[derive(Clone, Copy, Debug)]
pub enum CameraMove {
    /// Hand it a flight.
    Fly(Flight),
    /// Put it there.
    Jump(MapCamera),
    /// The map drives its own camera while a flight is in the air.
    Leave,
}

/// Everything the render thread keeps of the map.
#[derive(Debug)]
pub struct Engine {
    /// Whether the runtime is up.
    pub runtime: bool,
    pub map: Option<Attached>,
    pub size: (u32, u32),
    pub style_url: String,
    pub camera: MapCamera,
    pub bands: Vec<Band>,
    pub applied: Vec<Option<Band>>,
    pub light: Light,
    pub applied_light: Option<Light>,
    /// The transition the map is running, if any.
    pub flight_id: Option<u64>,
    /// The last fly-to taken on, kept after `flight_id` is cleared so a frame
    /// can still say which flight it belongs to.
    pub last_flight: Option<u64>,
    /// A fly-to that arrived before the map existed, or before this pass.
    pub pending_fly: Option<Flight>,
    /// Report the camera with the next frame even though nothing is flying, so
    /// the UI picks up where a flight ended.
    pub report_camera: bool,
    /// Something the UI asked for has not been drawn yet.
    pub dirty: bool,
    /// The map says it has more to draw: tiles still arriving, or a transition
    /// in flight.
    pub wants_repaint: bool,
}

/// An [`Engine`], as a value.
#[verifier::ext_equal]
pub ghost struct EngineState {
    pub runtime: bool,
    pub map: Option<Attached>,
    pub size: (u32, u32),
    pub style_url: Seq<char>,
    pub camera: MapCamera,
    pub bands: Seq<Band>,
    pub applied: Seq<Option<Band>>,
    pub light: Light,
    pub applied_light: Option<Light>,
    pub flight_id: Option<u64>,
    pub last_flight: Option<u64>,
    pub pending_fly: Option<Flight>,
    pub report_camera: bool,
    pub dirty: bool,
    pub wants_repaint: bool,
}

impl View for Engine {
    type V = EngineState;

    open spec fn view(&self) -> EngineState {
        EngineState {
            runtime: self.runtime,
            map: self.map,
            size: self.size,
            style_url: self.style_url@,
            camera: self.camera,
            bands: self.bands@,
            applied: self.applied@,
            light: self.light,
            applied_light: self.applied_light,
            flight_id: self.flight_id,
            last_flight: self.last_flight,
            pending_fly: self.pending_fly,
            report_camera: self.report_camera,
            dirty: self.dirty,
            wants_repaint: self.wants_repaint,
        }
    }
}

/// Every band at rest.
pub open spec fn resting_bands() -> Seq<Band> {
    Seq::new(BINS as nat, |band: int| Band::flat())
}

/// No band's property set on the map yet.
pub open spec fn nothing_applied() -> Seq<Option<Band>> {
    Seq::new(BINS as nat, |band: int| None)
}

/// Whether two skylines are the same.
pub open spec fn same_skyline(a: Seq<Band>, b: Seq<Band>) -> bool {
    forall|band: int| 0 <= band < BINS ==> (#[trigger] a[band]).equals(b[band])
}

/// Whether a command is one the handle sends.
pub open spec fn sendable(command: Command) -> bool {
    command matches Command::Bands(bands) ==> bands@.len() == BINS
}

/// Whether the map wants another frame, by its events.
pub open spec fn asks_for_repaint(event: MapEvent) -> bool {
    event is UpdateAvailable || event == MapEvent::FrameFinished(true)
}

impl EngineState {
    /// Whether there is a height and an applied height for each band.
    pub open spec fn valid(self) -> bool {
        self.bands.len() == BINS && self.applied.len() == BINS
    }

    /// Whether the style has loaded on the map.
    pub open spec fn style_ready(self) -> bool {
        self.map matches Some(attached) && attached.style_loaded
    }

    /// The engine once a command has been taken in.
    pub open spec fn commanded(self, command: Command) -> EngineState {
        match command {
            Command::Resize(width, height) => if self.size == (width, height) {
                self
            } else {
                EngineState { size: (width, height), dirty: true, ..self }
            },
            Command::Style(url) => if self.style_url == url@ {
                self
            } else {
                EngineState {
                    style_url: url@,
                    map: match self.map {
                        Some(_) => Some(Attached { layers: false, style_loaded: false }),
                        None => None,
                    },
                    applied_light: match self.map {
                        Some(_) => None,
                        None => self.applied_light,
                    },
                    applied: nothing_applied(),
                    dirty: true,
                    ..self
                }
            },
            Command::Camera(camera) => EngineState {
                flight_id: None,
                pending_fly: None,
                camera: if self.camera.shows_as(camera) {
                    self.camera
                } else {
                    camera
                },
                dirty: self.dirty || !self.camera.shows_as(camera),
                ..self
            },
            Command::FlyTo { camera, duration_ms, id } => EngineState {
                camera,
                flight_id: Some(id),
                last_flight: Some(id),
                pending_fly: Some(Flight { camera, duration_ms, id }),
                dirty: true,
                ..self
            },
            Command::Bands(bands) => if same_skyline(self.bands, bands@) {
                self
            } else {
                EngineState { bands: bands@, dirty: true, ..self }
            },
            Command::Light(light) => if self.light.equals(light) {
                self
            } else {
                EngineState { light, dirty: true, ..self }
            },
        }
    }

    /// What a command asks of the native map.
    pub open spec fn request(self, command: Command) -> Option<Request> {
        match command {
            Command::Resize(width, height) => if self.map is Some && self.size != (width, height) {
                Some(Request::ResizeTarget(width, height))
            } else {
                None
            },
            Command::Style(url) => if self.map is Some && self.style_url != url@ {
                Some(Request::LoadStyle)
            } else {
                None
            },
            Command::Camera(_) => if self.map is Some && self.flight_id is Some {
                Some(Request::CancelTransitions)
            } else {
                None
            },
            _ => None,
        }
    }

    /// Whether one of these events ends the flight in the air.
    pub open spec fn lands(self, events: Seq<MapEvent>) -> bool {
        match self.flight_id {
            Some(id) => events.contains(MapEvent::TransitionFinished(id)),
            None => false,
        }
    }

    /// The engine once the events of a turn of the runtime have been taken in.
    /// Without a map there is nothing the events could be of.
    pub open spec fn turned(self, events: Seq<MapEvent>, reported: Option<Reported>) -> EngineState {
        match self.map {
            Some(attached) => {
                let landed = self.lands(events);
                let loaded = events.contains(MapEvent::StyleLoaded);
                EngineState {
                    wants_repaint: exists|i: int|
                        0 <= i < events.len() && asks_for_repaint(#[trigger] events[i]),
                    flight_id: if landed {
                        None
                    } else {
                        self.flight_id
                    },
                    camera: match reported {
                        Some(reported) => if landed {
                            self.camera.reported(reported)
                        } else {
                            self.camera
                        },
                        None => self.camera,
                    },
                    report_camera: self.report_camera || landed,
                    map: Some(
                        Attached { style_loaded: attached.style_loaded || loaded, ..attached },
                    ),
                    dirty: self.dirty || landed || loaded,
                    ..self
                }
            },
            None => self,
        }
    }

    /// Whether a band's property is out of date, given how far its target is
    /// from what was last applied.
    pub open spec fn band_is_due(self, band: int, gap: Scalar) -> bool {
        !(self.applied[band] is Some && negligible(gap, HEIGHT_EPSILON))
    }

    /// What is done with the map's camera before the next frame.
    pub open spec fn next_move(self) -> CameraMove {
        match self.pending_fly {
            Some(flight) => CameraMove::Fly(flight),
            None => if self.flight_id is None {
                CameraMove::Jump(self.camera)
            } else {
                CameraMove::Leave
            },
        }
    }

    /// The engine once a frame has been offered to the UI. One that was dropped
    /// with a camera leaves the camera to be reported again.
    pub open spec fn offered(self, taken: bool, carried_camera: bool) -> EngineState {
        if !taken && carried_camera {
            EngineState { report_camera: true, dirty: true, ..self }
        } else {
            self
        }
    }

    /// Whether the map's own camera goes out with the next frame.
    pub open spec fn reports_camera(self) -> bool {
        self.flight_id is Some || self.report_camera
    }

    /// The camera a frame carries.
    pub open spec fn carried(self, reported: Option<Reported>) -> Option<MapCamera> {
        match reported {
            Some(reported) => if self.reports_camera() {
                Some(self.camera.reported(reported))
            } else {
                None
            },
            None => None,
        }
    }

    /// The engine once a frame of this size has been read back.
    pub open spec fn drawn(self, width: u32, height: u32, reported: Option<Reported>) -> EngineState {
        if self.size != (width, height) {
            EngineState { dirty: false, ..self }
        } else {
            EngineState {
                dirty: false,
                report_camera: self.report_camera && self.flight_id is Some,
                camera: match self.carried(reported) {
                    Some(camera) => camera,
                    None => self.camera,
                },
                ..self
            }
        }
    }
}

impl MapCamera {
    /// This camera with whatever the map reported filled in.
    pub open spec fn reported(self, reported: Reported) -> MapCamera {
        MapCamera {
            lat: match reported.center {
                Some(center) => center.0,
                None => self.lat,
            },
            lon: match reported.center {
                Some(center) => center.1,
                None => self.lon,
            },
            zoom: match reported.zoom {
                Some(zoom) => zoom,
                None => self.zoom,
            },
            bearing: match reported.bearing {
                Some(bearing) => bearing,
                None => self.bearing,
            },
            pitch: match reported.pitch {
                Some(pitch) => pitch,
                None => self.pitch,
            },
        }
    }

    /// This camera with whatever the map reported filled in.
    pub fn with(self, reported: Reported) -> (r: MapCamera)
        ensures
            r == self.reported(reported),
    {
        let (lat, lon) = match reported.center {
            Some(center) => center,
            None => (self.lat, self.lon),
        };
        MapCamera {
            lat,
            lon,
            zoom: match reported.zoom {
                Some(zoom) => zoom,
                None => self.zoom,
            },
            bearing: match reported.bearing {
                Some(bearing) => bearing,
                None => self.bearing,
            },
            pitch: match reported.pitch {
                Some(pitch) => pitch,
                None => self.pitch,
            },
        }
    }
}

/// No band's property set on the map yet.
fn none_applied() -> (r: Vec<Option<Band>>)
    ensures
        r@ == nothing_applied(),
{
    let mut applied: Vec<Option<Band>> = Vec::new();
    let mut band: usize = 0;
    while band < BINS
        invariant
            band <= BINS,
            applied@ == Seq::new(band as nat, |band: int| None::<Band>),
        decreases BINS - band,
    {
        applied.push(None);
        band = band + 1;
        proof {
            assert(applied@ =~= Seq::new(band as nat, |band: int| None::<Band>));
        }
    }
    applied
}

/// Whether two skylines are the same.
fn is_same_skyline(a: &Vec<Band>, b: &Vec<Band>) -> (r: bool)
    requires
        a@.len() == BINS,
        b@.len() == BINS,
    ensures
        r == same_skyline(a@, b@),
{
    let mut band: usize = 0;
    while band < BINS
        invariant
            band <= BINS,
            a@.len() == BINS,
            b@.len() == BINS,
            forall|i: int| 0 <= i < band ==> (#[trigger] a@[i]).equals(b@[i]),
        decreases BINS - band,
    {
        if !a[band].same(b[band]) {
            return false;
        }
        band = band + 1;
    }
    true
}

impl Engine {
    /// An engine with nothing brought up yet, and everything to draw.
    pub fn new(size: (u32, u32), style_url: String) -> (r: Engine)
        ensures
            r@ == (EngineState {
                runtime: false,
                map: None,
                size,
                style_url: style_url@,
                camera: MapCamera::home(),
                bands: resting_bands(),
                applied: nothing_applied(),
                light: Light::dark(),
                applied_light: None,
                flight_id: None,
                last_flight: None,
                pending_fly: None,
                report_camera: false,
                dirty: true,
                wants_repaint: false,
            }),
            r@.valid(),
    {
        let mut bands: Vec<Band> = Vec::new();
        let mut band: usize = 0;
        while band < BINS
            invariant
                band <= BINS,
                bands@ == Seq::new(band as nat, |band: int| Band::flat()),
            decreases BINS - band,
        {
            bands.push(Band::default());
            band = band + 1;
            proof {
                assert(bands@ =~= Seq::new(band as nat, |band: int| Band::flat()));
            }
        }
        Engine {
            runtime: false,
            map: None,
            size,
            style_url,
            camera: MapCamera::default(),
            bands,
            applied: none_applied(),
            light: Light::default(),
            applied_light: None,
            flight_id: None,
            last_flight: None,
            pending_fly: None,
            report_camera: false,
            dirty: true,
            wants_repaint: false,
        }
    }

    /// Takes a command in, and says what it asks of the native map.
    ///
    /// A resize resizes the session rather than rebuilding the map: that keeps
    /// the renderer, the tile pyramid and the loaded style, which a rebuild
    /// would have to fetch again. An absolute camera is the UI taking the wheel
    /// back, so a flight in the air gives way rather than fighting it, and one
    /// that has not taken off yet never does.
    pub fn apply(&mut self, command: Command) -> (r: Option<Request>)
        requires
            old(self)@.valid(),
            sendable(command),
        ensures
            final(self)@ == old(self)@.commanded(command),
            final(self)@.valid(),
            r == old(self)@.request(command),
    {
        match command {
            Command::Resize(width, height) => {
                if self.size.0 == width && self.size.1 == height {
                    return None;
                }
                self.size = (width, height);
                self.mark_dirty();
                if self.map.is_some() {
                    Some(Request::ResizeTarget(width, height))
                } else {
                    None
                }
            },
            Command::Style(url) => {
                if self.style_url == url {
                    return None;
                }
                self.style_url = url;
                self.applied = none_applied();
                self.mark_dirty();
                if self.map.is_some() {
                    self.map = Some(Attached { layers: false, style_loaded: false });
                    self.applied_light = None;
                    Some(Request::LoadStyle)
                } else {
                    None
                }
            },
            Command::Camera(camera) => {
                let flew = self.flight_id.is_some();
                self.flight_id = None;
                self.pending_fly = None;
                if !self.camera.same_view(camera) {
                    self.camera = camera;
                    self.mark_dirty();
                }
                if flew && self.map.is_some() {
                    Some(Request::CancelTransitions)
                } else {
                    None
                }
            },
            Command::FlyTo { camera, duration_ms, id } => {
                self.camera = camera;
                self.flight_id = Some(id);
                self.last_flight = Some(id);
                self.pending_fly = Some(Flight { camera, duration_ms, id });
                self.mark_dirty();
                None
            },
            Command::Bands(bands) => {
                if !is_same_skyline(&self.bands, &bands) {
                    self.bands = bands;
                    self.mark_dirty();
                }
                None
            },
            Command::Light(light) => {
                if !self.light.same(light) {
                    self.light = light;
                    self.mark_dirty();
                }
                None
            },
        }
    }

    /// The render target could not be resized: fall back to a rebuild, which at
    /// least recovers when the network is there.
    pub fn resize_failed(&mut self)
        ensures
            final(self)@ == (EngineState {
                map: None,
                applied: nothing_applied(),
                applied_light: None,
                ..old(self)@
            }),
    {
        self.map = None;
        self.applied = none_applied();
        self.applied_light = None;
    }

    /// Asks for another frame.
    pub fn mark_dirty(&mut self)
        ensures
            *final(self) == (Engine { dirty: true, ..*old(self) }),
    {
        self.dirty = true;
    }

    /// Asks for the map's camera to ride along with the next frame, for when
    /// the frame that was carrying it never reached the UI.
    pub fn request_camera_report(&mut self)
        ensures
            *final(self) == (Engine { report_camera: true, dirty: true, ..*old(self) }),
    {
        self.report_camera = true;
        self.dirty = true;
    }

    /// Whether another frame is worth rendering.
    pub fn wants_frame(&self) -> (r: bool)
        ensures
            r == (self.dirty || self.wants_repaint),
    {
        self.dirty || self.wants_repaint
    }

    /// Whether one of these events ends the flight in the air. The map's camera
    /// is asked for then, before the camera is put anywhere again: otherwise
    /// the next frame would pin the map back to the last position sampled
    /// mid-flight.
    pub fn landing(&self, events: &Vec<MapEvent>) -> (r: bool)
        ensures
            r == self@.lands(events@),
    {
        let flight = match self.flight_id {
            Some(id) => id,
            None => return false,
        };
        let mut index: usize = 0;
        while index < events.len()
            invariant
                index <= events@.len(),
                self.flight_id == Some(flight),
                forall|i: int|
                    0 <= i < index ==> events@[i] != MapEvent::TransitionFinished(flight),
            decreases events@.len() - index,
        {
            if let MapEvent::TransitionFinished(id) = events[index] {
                if id == flight {
                    proof {
                        assert(events@[index as int] == MapEvent::TransitionFinished(flight));
                        assert(events@.contains(MapEvent::TransitionFinished(flight)));
                    }
                    return true;
                }
            }
            index = index + 1;
        }
        false
    }

    /// Takes in the events of a turn of the runtime: whether the map wants
    /// another frame, whether a flight has landed, and whether the style has
    /// loaded. `reported` is the map's own camera if a flight has landed.
    pub fn pump(&mut self, events: &Vec<MapEvent>, reported: Option<Reported>)
        ensures
            final(self)@ == old(self)@.turned(events@, reported),
    {
        let attached = match self.map {
            Some(attached) => attached,
            None => return,
        };
        let landed = self.landing(events);
        let mut wants_repaint = false;
        let mut loaded = false;
        let mut index: usize = 0;
        while index < events.len()
            invariant
                index <= events@.len(),
                wants_repaint == exists|i: int|
                    0 <= i < index && asks_for_repaint(#[trigger] events@[i]),
                loaded == exists|i: int|
                    0 <= i < index && #[trigger] events@[i] == MapEvent::StyleLoaded,
            decreases events@.len() - index,
        {
            match events[index] {
                MapEvent::UpdateAvailable => {
                    wants_repaint = true;
                    assert(asks_for_repaint(events@[index as int]));
                },
                MapEvent::FrameFinished(again) => {
                    wants_repaint = wants_repaint || again;
                    assert(asks_for_repaint(events@[index as int]) == again);
                },
                MapEvent::StyleLoaded => {
                    loaded = true;
                    assert(events@[index as int] == MapEvent::StyleLoaded);
                },
                _ => {},
            }
            index = index + 1;
        }
        proof {
            assert(loaded == events@.contains(MapEvent::StyleLoaded));
        }
        self.wants_repaint = wants_repaint;
        if landed {
            self.flight_id = None;
            if let Some(reported) = reported {
                self.camera = self.camera.with(reported);
            }
            self.request_camera_report();
        }
        if loaded {
            self.map = Some(Attached { layers: attached.layers, style_loaded: true });
            self.mark_dirty();
        }
    }

    /// What has to be brought up before a frame can be drawn.
    pub fn ensure_map(&self) -> (r: Missing)
        ensures
            r == if !self.runtime {
                Missing::TheRuntime
            } else if self.map is None {
                Missing::TheMap
            } else {
                Missing::Nothing
            },
    {
        if !self.runtime {
            Missing::TheRuntime
        } else if self.map.is_none() {
            Missing::TheMap
        } else {
            Missing::Nothing
        }
    }

    /// The runtime is up.
    pub fn runtime_created(&mut self)
        ensures
            *final(self) == (Engine { runtime: true, ..*old(self) }),
    {
        self.runtime = true;
    }

    /// The map is up, its style loading, with a render target attached.
    pub fn map_attached(&mut self)
        ensures
            *final(self) == (Engine {
                map: Some(Attached { layers: false, style_loaded: false }),
                ..*old(self)
            }),
    {
        self.map = Some(Attached { layers: false, style_loaded: false });
    }

    /// Whether the band layers have to be added. A layer naming a source the
    /// style has not loaded yet would be rejected.
    pub fn layers_due(&self) -> (r: bool)
        ensures
            r == (self.map == Some(Attached { layers: false, style_loaded: true })),
    {
        match self.map {
            Some(attached) => attached.style_loaded && !attached.layers,
            None => false,
        }
    }

    /// Every band layer has been added, so nothing is applied to any of them.
    pub fn layers_added(&mut self)
        ensures
            final(self)@ == (EngineState {
                map: match old(self).map {
                    Some(attached) => Some(Attached { layers: true, ..attached }),
                    None => None,
                },
                applied: nothing_applied(),
                ..old(self)@
            }),
    {
        if let Some(attached) = self.map {
            self.map = Some(Attached { layers: true, style_loaded: attached.style_loaded });
        }
        self.applied = none_applied();
    }

    /// The bands whose height has to be set on the map, lowest first. `gaps`
    /// holds, for each band that has a height applied, how far that is from its
    /// target. There are none until the layers exist.
    pub fn sync_bands(&self, gaps: &Vec<Scalar>) -> (r: Vec<usize>)
        requires
            self@.valid(),
            gaps@.len() == BINS,
        ensures
            forall|i: int, j: int| 0 <= i < j < r@.len() ==> r@[i] < r@[j],
            forall|band: usize|
                r@.contains(band) <==> band < BINS && self.map == Some(
                    Attached { layers: true, style_loaded: true },
                ) && self@.band_is_due(band as int, #[trigger] gaps@[band as int]),
    {
        let mut due: Vec<usize> = Vec::new();
        let ready = match self.map {
            Some(attached) => attached.style_loaded && attached.layers,
            None => false,
        };
        if !ready {
            return due;
        }
        let mut band: usize = 0;
        while band < BINS
            invariant
                band <= BINS,
                self@.valid(),
                gaps@.len() == BINS,
                self.map == Some(Attached { layers: true, style_loaded: true }),
                forall|i: int| 0 <= i < due@.len() ==> (#[trigger] due@[i]) < band,
                forall|i: int, j: int| 0 <= i < j < due@.len() ==> due@[i] < due@[j],
                forall|b: usize|
                    due@.contains(b) <==> b < band && self@.band_is_due(
                        b as int,
                        #[trigger] gaps@[b as int],
                    ),
            decreases BINS - band,
        {
            let settled = self.applied[band].is_some() && Band::close_to(gaps[band]);
            let ghost before = due@;
            if !settled {
                due.push(band);
                proof {
                    assert(due@.last() == band);
                    assert forall|b: usize| due@.contains(b) <==> before.contains(b) || b == band by {
                        if before.contains(b) {
                            let i = choose|i: int| 0 <= i < before.len() && before[i] == b;
                            assert(due@[i] == b);
                        }
                        if b == band {
                            assert(due@[before.len() as int] == b);
                        }
                    }
                }
            }
            band = band + 1;
        }
        due
    }

    /// A band's height has been set on the map.
    pub fn band_set(&mut self, band: usize)
        requires
            old(self)@.valid(),
            band < BINS,
        ensures
            final(self)@ == (EngineState {
                applied: old(self)@.applied.update(band as int, Some(old(self)@.bands[band as int])),
                ..old(self)@
            }),
            final(self)@.valid(),
    {
        let target = self.bands[band];
        self.applied.set(band, Some(target));
    }

    /// Whether the style's light has to be set, given how far the target is
    /// from what was last applied.
    pub fn sync_light(&self, gap: Light) -> (r: bool)
        ensures
            r == (self@.style_ready() && !(self.applied_light is Some && Light::close(gap))),
    {
        match self.map {
            Some(attached) => attached.style_loaded && !(self.applied_light.is_some()
                && Light::close_to(gap)),
            None => false,
        }
    }

    /// The style's light has been set, or could not be: retrying every frame on
    /// a style with no light would get no further.
    pub fn light_set(&mut self)
        ensures
            *final(self) == (Engine { applied_light: Some(old(self).light), ..*old(self) }),
    {
        self.applied_light = Some(self.light);
    }

    /// What to do with the map's camera before drawing. A flight that is
    /// waiting is handed out once.
    pub fn move_camera(&mut self) -> (r: CameraMove)
        ensures
            *final(self) == (Engine { pending_fly: None, ..*old(self) }),
            r == old(self)@.next_move(),
    {
        match self.pending_fly {
            Some(flight) => {
                self.pending_fly = None;
                CameraMove::Fly(flight)
            },
            None => if self.flight_id.is_none() {
                CameraMove::Jump(self.camera)
            } else {
                CameraMove::Leave
            },
        }
    }

    /// The map would not take the flight on.
    pub fn fly_failed(&mut self)
        ensures
            *final(self) == (Engine { flight_id: None, ..*old(self) }),
    {
        self.flight_id = None;
    }

    /// How many bytes a frame takes: four for each pixel.
    pub fn frame_bytes(&self) -> (r: usize)
        requires
            self.size.0 * self.size.1 * 4 <= usize::MAX,
        ensures
            r == self.size.0 * self.size.1 * 4,
    {
        let (width, height) = self.size;
        assert(width * height <= width * height * 4) by (nonlinear_arith)
            requires
                0 <= width,
                0 <= height,
        ;
        width as usize * height as usize * 4
    }

    /// The frame could not be drawn, or not read back. It is not tried again
    /// until something new is asked for.
    pub fn render_failed(&mut self)
        ensures
            *final(self) == (Engine { dirty: false, ..*old(self) }),
    {
        self.dirty = false;
    }

    /// Whether the map's own camera goes out with the next frame: it does while
    /// the map flies, so the UI can follow, and once more when it has landed.
    pub fn reports_camera(&self) -> (r: bool)
        ensures
            r == self@.reports_camera(),
    {
        self.flight_id.is_some() || self.report_camera
    }

    /// Finishes a frame that was read back as `width` by `height` pixels. One
    /// that is not the size the map has is skipped: whoever shows it goes by
    /// the size it says. `reported` is the map's own camera, asked for if
    /// [`Engine::reports_camera`] says so.
    pub fn render(
        &mut self,
        width: u32,
        height: u32,
        rgba: Vec<u8>,
        reported: Option<Reported>,
    ) -> (r: Option<Frame>)
        requires
            rgba@.len() == old(self).size.0 * old(self).size.1 * 4,
        ensures
            final(self)@ == old(self)@.drawn(width, height, reported),
            r is Some <==> old(self).size == (width, height),
            r matches Some(frame) ==> {
                &&& frame.width == width
                &&& frame.height == height
                &&& frame.rgba == rgba
                &&& frame.rgba@.len() == frame.width * frame.height * 4
                &&& frame.camera == old(self)@.carried(reported)
                &&& frame.flying == (old(self).flight_id is Some)
                &&& frame.flight == old(self).last_flight
            },
    {
        self.dirty = false;
        if self.size.0 != width || self.size.1 != height {
            return None;
        }
        let flying = self.flight_id.is_some();
        let report = flying || self.report_camera;
        if !flying {
            self.report_camera = false;
        }
        let camera = match reported {
            Some(reported) => if report {
                Some(self.camera.with(reported))
            } else {
                None
            },
            None => None,
        };
        if let Some(camera) = camera {
            self.camera = camera;
        }
        Some(Frame { width, height, rgba, camera, flying, flight: self.last_flight })
    }

    /// The frame has been offered to the UI. One that is dropped is no loss on
    /// its own, but the camera it was carrying is: nothing else will tell the
    /// UI where the map stopped.
    pub fn frame_offered(&mut self, taken: bool, carried_camera: bool)
        ensures
            final(self)@ == old(self)@.offered(taken, carried_camera),
    {
        if !taken && carried_camera {
            self.request_camera_report();
        }
    }

    /// Gives the map and the runtime up, in that order, so the tile cache is
    /// flushed rather than cut off. Says which of the two there are to close.
    pub fn close(&mut self) -> (r: (bool, bool))
        ensures
            *final(self) == (Engine { map: None, runtime: false, ..*old(self) }),
            r.0 == (old(self).map is Some),
            r.1 == old(self).runtime,
    {
        let map = self.map.is_some();
        let runtime = self.runtime;
        self.map = None;
        self.runtime = false;
        (map, runtime)
    }
}

/// Where the drawing of a frame is.
#[derive(Clone, Copy, Debug, PartialEq, Eq, Structural)]
pub enum Stage {
    /// Bringing up the runtime and the map, as far as [`Engine::ensure_map`]
    /// misses them.
    BringUp,
    /// Adding the band layers, if [`Engine::layers_due`] says so.
    AddLayers,
    /// Setting the heights that [`Engine::sync_bands`] finds out of date.
    SetHeights,
    /// Setting the light, if [`Engine::sync_light`] says so.
    SetLight,
    /// Doing what [`Engine::move_camera`] says.
    MoveCamera,
    /// Drawing what the map now shows.
    Draw,
    /// Reading the drawing back.
    ReadBack,
    /// Making a frame of it with [`Engine::render`].
    Finish,
    /// There is a frame.
    Finished,
    /// There is no frame this time.
    Abandoned,
}

/// Where the drawing of a frame goes on once a stage is over. Without a map, a
/// drawing or its pixels there is no frame. Layers that could not be added have
/// no heights to set. Neither they nor the light nor the camera keep a frame
/// from being drawn.
pub open spec fn stage_after(stage: Stage, succeeded: bool) -> Stage {
    match stage {
        Stage::BringUp => if succeeded {
            Stage::AddLayers
        } else {
            Stage::Abandoned
        },
        Stage::AddLayers => if succeeded {
            Stage::SetHeights
        } else {
            Stage::SetLight
        },
        Stage::SetHeights => Stage::SetLight,
        Stage::SetLight => Stage::MoveCamera,
        Stage::MoveCamera => Stage::Draw,
        Stage::Draw => if succeeded {
            Stage::ReadBack
        } else {
            Stage::Abandoned
        },
        Stage::ReadBack => if succeeded {
            Stage::Finish
        } else {
            Stage::Abandoned
        },
        Stage::Finish => if succeeded {
            Stage::Finished
        } else {
            Stage::Abandoned
        },
        Stage::Finished => Stage::Finished,
        Stage::Abandoned => Stage::Abandoned,
    }
}

impl EngineState {
    /// The engine once a stage of drawing a frame is over.
    pub open spec fn staged(self, stage: Stage, succeeded: bool) -> EngineState {
        match (stage, self.map) {
            (Stage::AddLayers, Some(attached)) => if succeeded && attached.style_loaded
                && !attached.layers {
                EngineState {
                    map: Some(Attached { layers: true, ..attached }),
                    applied: nothing_applied(),
                    ..self
                }
            } else {
                self
            },
            (Stage::MoveCamera, _) => if succeeded {
                self
            } else {
                EngineState { flight_id: None, ..self }
            },
            (Stage::Draw, _) | (Stage::ReadBack, _) => if succeeded {
                self
            } else {
                EngineState { dirty: false, ..self }
            },
            _ => self,
        }
    }
}

impl Engine {
    /// Takes in what came of a stage of drawing a frame, and says which is
    /// next. Layers that have been added are there from then on. A camera that
    /// would not move is not in the air. A drawing that failed is not tried
    /// again until something new is asked for.
    pub fn stage_over(&mut self, stage: Stage, succeeded: bool) -> (r: Stage)
        ensures
            r == stage_after(stage, succeeded),
            final(self)@ == old(self)@.staged(stage, succeeded),
    {
        match stage {
            Stage::BringUp => if succeeded {
                Stage::AddLayers
            } else {
                Stage::Abandoned
            },
            Stage::AddLayers => {
                if !succeeded {
                    return Stage::SetLight;
                }
                if self.layers_due() {
                    self.layers_added();
                }
                Stage::SetHeights
            },
            Stage::SetHeights => Stage::SetLight,
            Stage::SetLight => Stage::MoveCamera,
            Stage::MoveCamera => {
                if !succeeded {
                    self.fly_failed();
                }
                Stage::Draw
            },
            Stage::Draw => if succeeded {
                Stage::ReadBack
            } else {
                self.render_failed();
                Stage::Abandoned
            },
            Stage::ReadBack => if succeeded {
                Stage::Finish
            } else {
                self.render_failed();
                Stage::Abandoned
            },
            Stage::Finish => if succeeded {
                Stage::Finished
            } else {
                Stage::Abandoned
            },
            Stage::Finished => Stage::Finished,
            Stage::Abandoned => Stage::Abandoned,
        }
    }
}

/// The stage that the drawing of a frame has reached after a run of stages, by
/// whether each of them succeeded.
pub open spec fn stage_reached(outcomes: Seq<bool>) -> Stage
    decreases outcomes.len(),
{
    if outcomes.len() == 0 {
        Stage::BringUp
    } else {
        stage_after(stage_reached(outcomes.drop_last()), outcomes.last())
    }
}

/// How far along a stage is.
spec fn stage_rank(stage: Stage) -> int {
    match stage {
        Stage::BringUp => 0,
        Stage::AddLayers => 1,
        Stage::SetHeights => 2,
        Stage::SetLight => 3,
        Stage::MoveCamera => 4,
        Stage::Draw => 5,
        Stage::ReadBack => 6,
        Stage::Finish => 7,
        Stage::Finished => 8,
        Stage::Abandoned => 8,
    }
}

/// Each stage follows from the one before it.
proof fn stages_go_on(outcomes: Seq<bool>, n: int)
    requires
        0 <= n < outcomes.len(),
    ensures
        stage_reached(outcomes.take(n + 1)) == stage_after(
            stage_reached(outcomes.take(n)),
            outcomes[n],
        ),
{
    assert(outcomes.take(n + 1).drop_last() =~= outcomes.take(n));
}

/// After a number of stages the drawing is at least that far along.
proof fn stages_add_up(outcomes: Seq<bool>)
    ensures
        stage_rank(stage_reached(outcomes)) >= 8 || stage_rank(stage_reached(outcomes))
            >= outcomes.len(),
    decreases outcomes.len(),
{
    if outcomes.len() > 0 {
        stages_add_up(outcomes.drop_last());
    }
}

/// A frame is finished only after everything it shows: the map was brought up
/// first, the layers come before the light, the light before the camera, the
/// camera is moved exactly once and before anything is drawn, and what was drawn
/// was read back.
pub proof fn a_frame_is_finished_last(outcomes: Seq<bool>)
    requires
        stage_reached(outcomes) is Finish,
    ensures
        ({
            let n = outcomes.len() as int;
            &&& n == if outcomes[1] {
                7int
            } else {
                6int
            }
            &&& stage_reached(outcomes.take(0)) is BringUp
            &&& stage_reached(outcomes.take(1)) is AddLayers
            &&& outcomes[1] ==> stage_reached(outcomes.take(2)) is SetHeights
            &&& stage_reached(outcomes.take(n - 4)) is SetLight
            &&& stage_reached(outcomes.take(n - 3)) is MoveCamera
            &&& stage_reached(outcomes.take(n - 2)) is Draw
            &&& stage_reached(outcomes.take(n - 1)) is ReadBack
            &&& outcomes[0] && outcomes[n - 2] && outcomes[n - 1]
            &&& forall|i: int|
                0 <= i <= n ==> (#[trigger] stage_reached(outcomes.take(i)) is MoveCamera <==> i == n
                    - 3)
        }),
{
    let n = outcomes.len() as int;
    assert(outcomes.take(n) =~= outcomes);
    stages_add_up(outcomes);
    assert(stage_reached(outcomes.take(0)) is BringUp);
    if n > 0 {
        stages_go_on(outcomes, 0);
    }
    if n > 1 {
        stages_go_on(outcomes, 1);
    }
    if n > 2 {
        stages_go_on(outcomes, 2);
    }
    if n > 3 {
        stages_go_on(outcomes, 3);
    }
    if n > 4 {
        stages_go_on(outcomes, 4);
    }
    if n > 5 {
        stages_go_on(outcomes, 5);
    }
    if n > 6 {
        stages_go_on(outcomes, 6);
    }
}

/// The drawing of a frame comes to an end, with a frame or without one.
pub proof fn a_frame_comes_to_an_end(outcomes: Seq<bool>)
    requires
        outcomes.len() >= 8,
    ensures
        stage_reached(outcomes) is Finished || stage_reached(outcomes) is Abandoned,
{
    stages_add_up(outcomes);
}

/// Where the render thread is in a pass.
#[derive(Clone, Copy, Debug, PartialEq, Eq, Structural)]
pub enum Pass {
    /// Waiting for a command, for at most [`IDLE_TICK_MS`].
    Wait,
    /// Taking in whatever commands are pending.
    Drain,
    /// Turning the runtime, for at most [`PUMP_BUDGET_MS`].
    Turn,
    /// Drawing a frame and offering it to the UI.
    Draw,
    /// Done: the UI is gone.
    End,
}

/// What the command channel had.
#[derive(Clone, Copy, Debug, PartialEq, Eq, Structural)]
pub enum Heard {
    /// A command, which has been taken in.
    Something,
    /// No command for now.
    Silence,
    /// The other end is gone.
    Hangup,
}

/// How a pass starts: the thread parks only when there is nothing to draw.
pub open spec fn first_pass(wants_frame: bool) -> Pass {
    if wants_frame {
        Pass::Drain
    } else {
        Pass::Wait
    }
}

/// What comes next on the render thread.
pub open spec fn following(pass: Pass, heard: Heard, wants_frame: bool) -> Pass {
    match pass {
        Pass::Wait => if heard == Heard::Hangup {
            Pass::End
        } else {
            Pass::Drain
        },
        Pass::Drain => match heard {
            Heard::Something => Pass::Drain,
            Heard::Silence => Pass::Turn,
            Heard::Hangup => Pass::End,
        },
        Pass::Turn => if wants_frame {
            Pass::Draw
        } else {
            Pass::Wait
        },
        Pass::Draw => first_pass(wants_frame),
        Pass::End => Pass::End,
    }
}

/// How the render thread starts a pass.
pub fn start_pass(wants_frame: bool) -> (r: Pass)
    ensures
        r == first_pass(wants_frame),
{
    if wants_frame {
        Pass::Drain
    } else {
        Pass::Wait
    }
}

/// What the render thread does next: coalesce whatever commands are pending,
/// turn the runtime whether or not a frame is wanted, and draw at most one
/// frame. `heard` is what the command channel had, where it was asked, and
/// `wants_frame` whether the engine now wants a frame.
pub fn next_pass(pass: Pass, heard: Heard, wants_frame: bool) -> (r: Pass)
    ensures
        r == following(pass, heard, wants_frame),
{
    match pass {
        Pass::Wait => match heard {
            Heard::Hangup => Pass::End,
            _ => Pass::Drain,
        },
        Pass::Drain => match heard {
            Heard::Something => Pass::Drain,
            Heard::Silence => Pass::Turn,
            Heard::Hangup => Pass::End,
        },
        Pass::Turn => if wants_frame {
            Pass::Draw
        } else {
            start_pass(wants_frame)
        },
        Pass::Draw => start_pass(wants_frame),
        Pass::End => Pass::End,
    }
}

impl EngineState {
    /// The engine once a run of commands has been taken in, in order.
    pub open spec fn after(self, commands: Seq<Command>) -> EngineState
        decreases commands.len(),
    {
        if commands.len() == 0 {
            self
        } else {
            self.after(commands.drop_last()).commanded(commands.last())
        }
    }
}

/// Whether a command leaves a flight in the air.
pub open spec fn leaves_flight(command: Command) -> bool {
    !(command is Camera) && !(command is FlyTo)
}

/// Commands that neither move the camera nor start a flight leave the one in
/// the air where it is.
proof fn flight_is_left(engine: EngineState, commands: Seq<Command>)
    requires
        forall|i: int| 0 <= i < commands.len() ==> leaves_flight(#[trigger] commands[i]),
    ensures
        engine.after(commands).flight_id == engine.flight_id,
        engine.after(commands).pending_fly == engine.pending_fly,
        engine.after(commands).camera == engine.camera,
        engine.after(commands).last_flight == engine.last_flight,
        engine.after(commands).map is Some <==> engine.map is Some,
    decreases commands.len(),
{
    if commands.len() > 0 {
        let before = commands.drop_last();
        assert forall|i: int| 0 <= i < before.len() implies leaves_flight(#[trigger] before[i]) by {
            assert(before[i] == commands[i]);
        }
        flight_is_left(engine, before);
        assert(leaves_flight(commands[commands.len() - 1]));
    }
}

/// A frame cannot end a flight that the engine has not taken on: whatever
/// earlier commands it has taken in, a frame drawn before the fly-to arrives
/// carries an earlier flight or none.
pub proof fn a_stale_frame_cannot_end_a_flight(
    engine: EngineState,
    commands: Seq<Command>,
    flying: bool,
    waiting_for: u64,
)
    requires
        engine.last_flight matches Some(id) ==> id < waiting_for,
        forall|i: int|
            0 <= i < commands.len() ==> (#[trigger] commands[i] matches Command::FlyTo {
                id,
                ..
            } ==> id < waiting_for),
    ensures
        !ends_flight(engine.after(commands).last_flight, flying, waiting_for),
        engine.after(commands).last_flight matches Some(id) ==> id < waiting_for,
    decreases commands.len(),
{
    if commands.len() > 0 {
        let before = commands.drop_last();
        assert forall|i: int| 0 <= i < before.len() implies (#[trigger] before[i] matches Command::FlyTo {
            id,
            ..
        } ==> id < waiting_for) by {
            assert(before[i] == commands[i]);
        }
        a_stale_frame_cannot_end_a_flight(engine, before, flying, waiting_for);
        let last = commands[commands.len() - 1];
        assert(last matches Command::FlyTo { id, .. } ==> id < waiting_for);
    }
}

/// A flight that is taken on and left alone lands: once the map says the
/// transition is over, the next frame ends the flight on the UI's side, and it
/// carries the camera the map reports, so the UI is left where the map stopped.
pub proof fn a_flight_lands(
    engine: EngineState,
    fly: Command,
    commands: Seq<Command>,
    events: Seq<MapEvent>,
    at_landing: Option<Reported>,
    with_frame: Reported,
)
    requires
        engine.map is Some,
        fly is FlyTo,
        forall|i: int| 0 <= i < commands.len() ==> leaves_flight(#[trigger] commands[i]),
        events.contains(MapEvent::TransitionFinished(fly->id)),
    ensures
        ({
            let flying = engine.commanded(fly).after(commands);
            let landed = flying.turned(events, at_landing);
            &&& flying.flight_id == Some(fly->id)
            &&& !ends_flight(flying.last_flight, flying.flight_id is Some, fly->id)
            &&& landed.dirty
            &&& landed.reports_camera()
            &&& landed.carried(Some(with_frame)) == Some(landed.camera.reported(with_frame))
            &&& ends_flight(landed.last_flight, landed.flight_id is Some, fly->id)
            &&& !landed.drawn(landed.size.0, landed.size.1, Some(with_frame)).reports_camera()
        }),
{
    flight_is_left(engine.commanded(fly), commands);
}

/// The landing frame is not the only chance the UI gets: a flight that is over
/// stays over in every later frame, whatever else is asked for or happens, until
/// another flight is taken on.
pub proof fn a_landing_keeps_being_reported(
    engine: EngineState,
    id: u64,
    commands: Seq<Command>,
    events: Seq<MapEvent>,
    reported: Option<Reported>,
    width: u32,
    height: u32,
)
    requires
        ends_flight(engine.last_flight, engine.flight_id is Some, id),
        forall|i: int| 0 <= i < commands.len() ==> !(#[trigger] commands[i] is FlyTo),
    ensures
        ({
            let later = engine.after(commands);
            let turned = later.turned(events, reported);
            let drawn = turned.drawn(width, height, reported);
            &&& ends_flight(later.last_flight, later.flight_id is Some, id)
            &&& ends_flight(turned.last_flight, turned.flight_id is Some, id)
            &&& ends_flight(drawn.last_flight, drawn.flight_id is Some, id)
        }),
    decreases commands.len(),
{
    if commands.len() > 0 {
        let before = commands.drop_last();
        assert forall|i: int| 0 <= i < before.len() implies !(#[trigger] before[i] is FlyTo) by {
            assert(before[i] == commands[i]);
        }
        a_landing_keeps_being_reported(engine, id, before, events, reported, width, height);
        assert(!(commands[commands.len() - 1] is FlyTo));
    }
}

/// The band layers are added once for a style: as long as no other style is
/// asked for, they are there, and only their properties are set.
pub proof fn layers_are_added_once(
    engine: EngineState,
    commands: Seq<Command>,
    events: Seq<MapEvent>,
    reported: Option<Reported>,
)
    requires
        engine.map == Some(Attached { layers: true, style_loaded: true }),
        forall|i: int| 0 <= i < commands.len() ==> !(#[trigger] commands[i] is Style),
    ensures
        engine.after(commands).map == engine.map,
        engine.after(commands).turned(events, reported).map == engine.map,
    decreases commands.len(),
{
    if commands.len() > 0 {
        let before = commands.drop_last();
        assert forall|i: int| 0 <= i < before.len() implies !(#[trigger] before[i] is Style) by {
            assert(before[i] == commands[i]);
        }
        layers_are_added_once(engine, before, events, reported);
        assert(!(commands[commands.len() - 1] is Style));
    }
}

/// An absolute camera takes the wheel back: whatever was in the air or about to
/// take off, nothing flies from then on until another flight is taken on, and
/// the next frame puts the map where that camera is.
pub proof fn an_absolute_camera_ends_the_flight(
    engine: EngineState,
    camera: MapCamera,
    commands: Seq<Command>,
)
    requires
        camera.shows_as(camera),
        forall|i: int| 0 <= i < commands.len() ==> leaves_flight(#[trigger] commands[i]),
    ensures
        ({
            let later = engine.commanded(Command::Camera(camera)).after(commands);
            &&& later.flight_id is None
            &&& later.pending_fly is None
            &&& later.camera.shows_as(camera)
            &&& later.next_move() == CameraMove::Jump(later.camera)
        }),
{
    flight_is_left(engine.commanded(Command::Camera(camera)), commands);
}

/// Whatever moves the camera from the UI's end cancels the flight, one in the
/// air as well as one that has not taken off, because what it publishes is an
/// absolute camera.
pub proof fn a_move_cancels_the_flight(
    engine: EngineState,
    map: MapLibre,
    sums: Sums,
    commands: Seq<Command>,
)
    requires
        forall|i: int| 0 <= i < commands.len() ==> leaves_flight(#[trigger] commands[i]),
    ensures
        engine.commanded(map.published(sums)).after(commands).flight_id is None,
        engine.commanded(map.published(sums)).after(commands).pending_fly is None,
{
    flight_is_left(engine.commanded(map.published(sums)), commands);
}

/// A resize keeps the map, its style and its layers, and so leaves nothing to
/// fetch again.
pub proof fn a_resize_keeps_the_style(engine: EngineState, width: u32, height: u32)
    ensures
        ({
            let resized = engine.commanded(Command::Resize(width, height));
            &&& resized.map == engine.map
            &&& resized.style_url == engine.style_url
            &&& resized.applied == engine.applied
            &&& resized.applied_light == engine.applied_light
            &&& resized.size == (width, height)
        }),
{
}

/// Whether the numbers a command carries are numbers.
pub open spec fn numeric(command: Command) -> bool {
    match command {
        Command::Camera(camera) => camera.shows_as(camera),
        Command::Bands(bands) => same_skyline(bands@, bands@),
        Command::Light(light) => light.equals(light),
        _ => true,
    }
}

/// A command that is sent twice is no news the second time: it changes nothing
/// and asks nothing of the map.
pub proof fn a_repeated_command_is_no_news(engine: EngineState, command: Command)
    requires
        numeric(command),
    ensures
        engine.commanded(command).commanded(command) == engine.commanded(command),
        engine.commanded(command).request(command) is None,
{
}

/// A camera that was lost with its frame is sent again: when a frame that
/// carried one is dropped, another frame is drawn, and it carries the camera the
/// map reports then. A frame that is taken leaves nothing to draw for the UI's
/// sake.
pub proof fn a_lost_camera_is_sent_again(
    engine: EngineState,
    reported: Reported,
    again: Reported,
)
    requires
        engine.reports_camera(),
    ensures
        ({
            let drawn = engine.drawn(engine.size.0, engine.size.1, Some(reported));
            let carried = engine.carried(Some(reported)) is Some;
            let dropped = drawn.offered(false, carried);
            &&& carried
            &&& dropped.dirty
            &&& dropped.carried(Some(again)) == Some(dropped.camera.reported(again))
            &&& !drawn.offered(true, carried).dirty
        }),
{
}

/// A UI that hangs up ends the render thread at the next look at the channel,
/// and the thread parks only when there is nothing to draw.
pub proof fn the_render_thread_is_well_behaved(pass: Pass, heard: Heard, wants_frame: bool)
    ensures
        heard == Heard::Hangup && (pass == Pass::Wait || pass == Pass::Drain) ==> following(
            pass,
            heard,
            wants_frame,
        ) == Pass::End,
        following(pass, heard, wants_frame) == Pass::Wait ==> !wants_frame,
        following(pass, heard, wants_frame) == Pass::Draw ==> wants_frame && pass == Pass::Turn,
{
}

/// An absolute camera is taken on: each of the five numbers is then, as a
/// number, the one that was sent. Where any of them differed before, or is no
/// number, the camera is the one that was sent and there is something to draw.
/// Where none did, it is no news. Nothing else changes but that nothing flies.
pub proof fn an_absolute_camera_is_taken_on(engine: EngineState, camera: MapCamera)
    ensures
        ({
            let later = engine.commanded(Command::Camera(camera));
            let news = !engine.camera.lat.equals(camera.lat) || !engine.camera.lon.equals(
                camera.lon,
            ) || !engine.camera.zoom.equals(camera.zoom) || !engine.camera.bearing.equals(
                camera.bearing,
            ) || !engine.camera.pitch.equals(camera.pitch);
            &&& !camera.lat.nan() ==> later.camera.lat.equals(camera.lat)
            &&& !camera.lon.nan() ==> later.camera.lon.equals(camera.lon)
            &&& !camera.zoom.nan() ==> later.camera.zoom.equals(camera.zoom)
            &&& !camera.bearing.nan() ==> later.camera.bearing.equals(camera.bearing)
            &&& !camera.pitch.nan() ==> later.camera.pitch.equals(camera.pitch)
            &&& news ==> later.camera == camera && later.dirty
            &&& !news ==> later.camera == engine.camera && later.dirty == engine.dirty
            &&& later.flight_id is None
            &&& later.pending_fly is None
            &&& later == (EngineState {
                camera: later.camera,
                dirty: later.dirty,
                flight_id: None,
                pending_fly: None,
                ..engine
            })
        }),
{
}

/// A flight is taken on as it was sent: it is the one in the air and the one
/// that is waiting to take off, the camera is where it leads, and there is
/// something to draw. Nothing else changes, and the next thing that is done with
/// the map's camera is to hand it that flight.
pub proof fn a_flight_is_taken_on(
    engine: EngineState,
    camera: MapCamera,
    duration_ms: Option<Scalar>,
    id: u64,
)
    ensures
        ({
            let later = engine.commanded(Command::FlyTo { camera, duration_ms, id });
            &&& later.flight_id == Some(id)
            &&& later.last_flight == Some(id)
            &&& later.camera == camera
            &&& later.dirty
            &&& later.pending_fly matches Some(flight) && flight.camera == camera
                && flight.duration_ms == duration_ms && flight.id == id
            &&& later.next_move() matches CameraMove::Fly(flight) && flight.camera == camera
                && flight.duration_ms == duration_ms && flight.id == id
            &&& later == (EngineState {
                camera,
                flight_id: later.flight_id,
                last_flight: later.last_flight,
                pending_fly: later.pending_fly,
                dirty: true,
                ..engine
            })
        }),
{
}

/// A skyline is taken on: each band is then as high as was sent, and where any
/// of them was not before, there is something to draw. Where all were, it is no
/// news. Nothing but the skyline changes.
pub proof fn a_skyline_is_taken_on(engine: EngineState, bands: Vec<Band>, band: int)
    requires
        engine.bands.len() == 16,
        bands@.len() == 16,
        0 <= band < 16,
    ensures
        ({
            let later = engine.commanded(Command::Bands(bands));
            &&& !bands@[band].height.nan() ==> later.bands[band].height.equals(bands@[band].height)
            &&& !engine.bands[band].height.equals(bands@[band].height) ==> later.dirty
                && later.bands == bands@
            &&& (forall|i: int|
                0 <= i < 16 ==> (#[trigger] engine.bands[i]).height.equals(bands@[i].height))
                ==> later == engine
            &&& later == (EngineState { bands: later.bands, dirty: later.dirty, ..engine })
            &&& later.bands.len() == 16
        }),
{
    let later = engine.commanded(Command::Bands(bands));
    assert(later.bands == bands@ || later.bands == engine.bands);
    if same_skyline(engine.bands, bands@) {
        assert(engine.bands[band].equals(bands@[band]));
    }
    if forall|i: int|
        0 <= i < 16 ==> (#[trigger] engine.bands[i]).height.equals(bands@[i].height) {
        assert(same_skyline(engine.bands, bands@));
    }
}

/// A light is taken on: each of its three numbers is then the one that was sent,
/// and where any of them was not before, there is something to draw. Where all
/// were, it is no news. Nothing but the light changes.
pub proof fn a_light_is_taken_on(engine: EngineState, light: Light)
    ensures
        ({
            let later = engine.commanded(Command::Light(light));
            let news = !engine.light.hue.equals(light.hue) || !engine.light.saturation.equals(
                light.saturation,
            ) || !engine.light.intensity.equals(light.intensity);
            &&& news ==> later == (EngineState { light, dirty: true, ..engine })
            &&& !news ==> later == engine
        }),
{
}

/// Another size is drawn at: it is the size from then on and there is something
/// to draw, and only the target has to be resized, where there is a map. The
/// same size is no news.
pub proof fn a_size_is_taken_on(engine: EngineState, width: u32, height: u32)
    ensures
        ({
            let command = Command::Resize(width, height);
            let later = engine.commanded(command);
            let news = engine.size.0 != width || engine.size.1 != height;
            &&& later.size.0 == width && later.size.1 == height
            &&& news ==> later == (EngineState { size: (width, height), dirty: true, ..engine })
            &&& !news ==> later == engine
            &&& engine.request(command) == if news && engine.map is Some {
                Some(Request::ResizeTarget(width, height))
            } else {
                None
            }
        }),
{
}

/// Another style starts over: it is the one from then on, nothing of the last
/// one's is taken to be on the map, and there is something to draw. Where there
/// is a map, it is told to load the style, and neither the style nor the layers
/// count as there until it says so. The same style is no news.
pub proof fn a_style_is_taken_on(engine: EngineState, url: String, band: int)
    requires
        0 <= band < 16,
    ensures
        ({
            let command = Command::Style(url);
            let later = engine.commanded(command);
            let news = engine.style_url != url@;
            &&& later.style_url == url@
            &&& news ==> {
                &&& later.dirty
                &&& later.applied.len() == 16
                &&& later.applied[band] is None
                &&& engine.map is Some ==> later.applied_light is None
                &&& later.map is Some <==> engine.map is Some
                &&& later.map matches Some(attached) ==> !attached.layers && !attached.style_loaded
                &&& later == (EngineState {
                    style_url: url@,
                    dirty: true,
                    applied: later.applied,
                    applied_light: later.applied_light,
                    map: later.map,
                    ..engine
                })
            }
            &&& engine.map is None ==> later.applied_light == engine.applied_light
            &&& !news ==> later == engine
            &&& engine.request(command) == if news && engine.map is Some {
                Some(Request::LoadStyle)
            } else {
                None
            }
        }),
{
}

/// Only a size, a style or a camera asks anything of the native map, and a
/// camera only where a flight is in the air that it has to cancel.
pub proof fn little_is_asked_of_the_map(engine: EngineState, command: Command)
    ensures
        engine.map is None ==> engine.request(command) is None,
        command is Camera ==> engine.request(command) == if engine.map is Some
            && engine.flight_id is Some {
            Some(Request::CancelTransitions)
        } else {
            None
        },
        command is FlyTo || command is Bands || command is Light ==> engine.request(
            command,
        ) is None,
{
}

/// The map's events are believed, and nothing else is. It wants another frame
/// exactly when one of them says so. The style has loaded once one of them says
/// so. The flight in the air is over exactly when one of them says that this
/// very transition is; the camera is then what the map reports, and goes out
/// with the next frame. What is new is drawn.
pub proof fn the_map_is_believed(
    engine: EngineState,
    events: Seq<MapEvent>,
    reported: Option<Reported>,
)
    ensures
        ({
            let later = engine.turned(events, reported);
            let landed = exists|i: int|
                0 <= i < events.len() && (#[trigger] events[i] matches MapEvent::TransitionFinished(
                    id,
                ) && engine.flight_id == Some(id));
            let loaded = exists|i: int| 0 <= i < events.len() && #[trigger] events[i] is StyleLoaded;
            let asked = exists|i: int|
                0 <= i < events.len() && (#[trigger] events[i] is UpdateAvailable || events[i]
                    == MapEvent::FrameFinished(true));
            &&& engine.map is None ==> later == engine
            &&& engine.map is Some ==> {
                &&& later.wants_repaint == asked
                &&& later.flight_id == if landed {
                    None
                } else {
                    engine.flight_id
                }
                &&& later.report_camera == (engine.report_camera || landed)
                &&& later.dirty == (engine.dirty || landed || loaded)
                &&& later.map is Some
                &&& later.map->0.layers == engine.map->0.layers
                &&& later.map->0.style_loaded == (engine.map->0.style_loaded || loaded)
                &&& !landed || reported is None ==> later.camera == engine.camera
                &&& landed && reported is Some ==> {
                    let said = reported->0;
                    &&& said.center matches Some(center) ==> later.camera.lat == center.0
                        && later.camera.lon == center.1
                    &&& said.zoom matches Some(zoom) ==> later.camera.zoom == zoom
                    &&& said.bearing matches Some(bearing) ==> later.camera.bearing == bearing
                    &&& said.pitch matches Some(pitch) ==> later.camera.pitch == pitch
                }
                &&& later == (EngineState {
                    wants_repaint: later.wants_repaint,
                    flight_id: later.flight_id,
                    report_camera: later.report_camera,
                    dirty: later.dirty,
                    map: later.map,
                    camera: later.camera,
                    ..engine
                })
            }
        }),
        engine.lands(events) <==> exists|i: int|
            0 <= i < events.len() && (#[trigger] events[i] matches MapEvent::TransitionFinished(id)
                && engine.flight_id == Some(id)),
{
    let landed = exists|i: int|
        0 <= i < events.len() && (#[trigger] events[i] matches MapEvent::TransitionFinished(id)
            && engine.flight_id == Some(id));
    if landed {
        let i = choose|i: int|
            0 <= i < events.len() && (#[trigger] events[i] matches MapEvent::TransitionFinished(id)
                && engine.flight_id == Some(id));
        assert(events.contains(events[i]));
    }
    if engine.lands(events) {
        let i = choose|i: int|
            0 <= i < events.len() && events[i] == MapEvent::TransitionFinished(engine.flight_id->0);
        assert(events[i] matches MapEvent::TransitionFinished(id) && engine.flight_id == Some(id));
    }
    if events.contains(MapEvent::StyleLoaded) {
        let i = choose|i: int| 0 <= i < events.len() && events[i] == MapEvent::StyleLoaded;
        assert(events[i] is StyleLoaded);
    }
    if exists|i: int| 0 <= i < events.len() && #[trigger] events[i] is StyleLoaded {
        let i = choose|i: int| 0 <= i < events.len() && #[trigger] events[i] is StyleLoaded;
        assert(events.contains(events[i]));
    }
    if exists|i: int|
        0 <= i < events.len() && (#[trigger] events[i] is UpdateAvailable || events[i]
            == MapEvent::FrameFinished(true)) {
        let i = choose|i: int|
            0 <= i < events.len() && (#[trigger] events[i] is UpdateAvailable || events[i]
                == MapEvent::FrameFinished(true));
        assert(asks_for_repaint(events[i]));
    }
    if exists|i: int| 0 <= i < events.len() && asks_for_repaint(#[trigger] events[i]) {
        let i = choose|i: int| 0 <= i < events.len() && asks_for_repaint(#[trigger] events[i]);
        assert(events[i] is UpdateAvailable || events[i] == MapEvent::FrameFinished(true));
    }
}

/// A report is believed where it says something, number by number, and the
/// camera keeps what it leaves out.
pub proof fn a_report_fills_the_camera_in(camera: MapCamera, said: Reported)
    ensures
        ({
            let filled = camera.reported(said);
            &&& said.center matches Some(center) ==> filled.lat == center.0 && filled.lon
                == center.1
            &&& said.center is None ==> filled.lat == camera.lat && filled.lon == camera.lon
            &&& said.zoom matches Some(zoom) ==> filled.zoom == zoom
            &&& said.zoom is None ==> filled.zoom == camera.zoom
            &&& said.bearing matches Some(bearing) ==> filled.bearing == bearing
            &&& said.bearing is None ==> filled.bearing == camera.bearing
            &&& said.pitch matches Some(pitch) ==> filled.pitch == pitch
            &&& said.pitch is None ==> filled.pitch == camera.pitch
        }),
{
}

/// A band's height is set on the map exactly when none has been, or it is two
/// metres or more from the one that has, or that cannot be told.
pub proof fn a_band_is_set_when_it_has_moved(engine: EngineState, band: int, gap: Scalar)
    ensures
        engine.applied[band] is None ==> engine.band_is_due(band, gap),
        engine.applied[band] is Some ==> (engine.band_is_due(band, gap) <==> !(number(
            0xc000_0000_0000_0000,
        ).below(gap) && gap.below(number(0x4000_0000_0000_0000)))),
{
}

/// The map's camera is put where the engine's is unless a flight has it: one
/// that is waiting is handed over, and one in the air is left alone.
pub proof fn the_camera_is_moved_unless_it_flies(engine: EngineState)
    ensures
        engine.pending_fly matches Some(flight) ==> engine.next_move() == CameraMove::Fly(flight),
        engine.pending_fly is None && engine.flight_id is None ==> engine.next_move()
            == CameraMove::Jump(engine.camera),
        engine.pending_fly is None && engine.flight_id is Some ==> engine.next_move()
            == CameraMove::Leave,
{
}

/// A frame carries the map's camera exactly when it was reported and is wanted,
/// in the air and once more after landing, and the engine goes by it from then
/// on. A frame that was drawn leaves nothing for the UI's sake to draw; one of
/// another size is skipped, and what it would have carried is still owed.
pub proof fn a_frame_carries_the_camera(
    engine: EngineState,
    width: u32,
    height: u32,
    reported: Option<Reported>,
)
    ensures
        ({
            let later = engine.drawn(width, height, reported);
            let carried = engine.carried(reported);
            let fits = engine.size.0 == width && engine.size.1 == height;
            &&& engine.reports_camera() <==> engine.flight_id is Some || engine.report_camera
            &&& carried is Some <==> reported is Some && (engine.flight_id is Some
                || engine.report_camera)
            &&& !later.dirty
            &&& fits && carried is Some ==> later.camera == carried->0
            &&& !fits || carried is None ==> later.camera == engine.camera
            &&& !fits ==> later.report_camera == engine.report_camera
            &&& fits && engine.flight_id is None ==> !later.report_camera
            &&& fits && engine.flight_id is Some ==> later.report_camera == engine.report_camera
            &&& later == (EngineState {
                dirty: false,
                camera: later.camera,
                report_camera: later.report_camera,
                ..engine
            })
        }),
        engine.carried(reported) matches Some(camera) ==> {
            let said = reported->0;
            &&& said.center matches Some(center) ==> camera.lat == center.0 && camera.lon
                == center.1
            &&& said.center is None ==> camera.lat == engine.camera.lat && camera.lon
                == engine.camera.lon
            &&& said.zoom matches Some(zoom) ==> camera.zoom == zoom
            &&& said.zoom is None ==> camera.zoom == engine.camera.zoom
            &&& said.bearing matches Some(bearing) ==> camera.bearing == bearing
            &&& said.bearing is None ==> camera.bearing == engine.camera.bearing
            &&& said.pitch matches Some(pitch) ==> camera.pitch == pitch
            &&& said.pitch is None ==> camera.pitch == engine.camera.pitch
        },
{
}

/// Only a camera that was lost with its frame is asked for again.
pub proof fn only_a_lost_camera_is_sent_again(
    engine: EngineState,
    taken: bool,
    carried_camera: bool,
)
    ensures
        !taken && carried_camera ==> engine.offered(taken, carried_camera) == (EngineState {
            report_camera: true,
            dirty: true,
            ..engine
        }),
        taken || !carried_camera ==> engine.offered(taken, carried_camera) == engine,
{
}

/// What came of a stage is taken in, and nothing more: layers that were due and
/// have been added are there, with nothing applied to them; a camera that would
/// not move is not in the air; and a drawing that failed is not wanted any more.
pub proof fn a_stage_changes_what_it_is_about(
    engine: EngineState,
    stage: Stage,
    succeeded: bool,
    band: int,
)
    requires
        0 <= band < 16,
    ensures
        ({
            let later = engine.staged(stage, succeeded);
            let added = stage is AddLayers && succeeded && (engine.map matches Some(attached)
                && attached.style_loaded && !attached.layers);
            let grounded = stage is MoveCamera && !succeeded;
            let given_up = (stage is Draw || stage is ReadBack) && !succeeded;
            &&& added ==> later.map == Some(Attached { layers: true, style_loaded: true })
            &&& added ==> later.applied.len() == 16 && later.applied[band] is None
            &&& !added ==> later.map == engine.map && later.applied == engine.applied
            &&& grounded ==> later.flight_id is None
            &&& !grounded ==> later.flight_id == engine.flight_id
            &&& given_up ==> !later.dirty
            &&& !given_up ==> later.dirty == engine.dirty
            &&& later == (EngineState {
                map: later.map,
                applied: later.applied,
                flight_id: later.flight_id,
                dirty: later.dirty,
                ..engine
            })
        }),
{
}

/// There is a frame exactly when it has been finished, and it is given up
/// exactly when the map, the drawing, its pixels or the frame itself failed.
pub proof fn a_frame_is_there_once_it_is_finished(stage: Stage, succeeded: bool)
    ensures
        stage_after(stage, succeeded) is Finished <==> stage is Finished || (stage is Finish
            && succeeded),
        stage_after(stage, succeeded) is Abandoned <==> stage is Abandoned || (!succeeded && (
        stage is BringUp || stage is Draw || stage is ReadBack || stage is Finish)),
        stage_after(stage, succeeded) is MoveCamera <==> stage is SetLight,
        stage_after(stage, succeeded) is Draw <==> stage is MoveCamera,
        stage_after(stage, succeeded) is SetHeights <==> stage is AddLayers && succeeded,
        stage_after(stage, succeeded) is AddLayers <==> stage is BringUp && succeeded,
        stage_after(stage, succeeded) is SetLight <==> stage is SetHeights || (stage is AddLayers
            && !succeeded),
        stage_after(stage, succeeded) is ReadBack <==> stage is Draw && succeeded,
        stage_after(stage, succeeded) is Finish <==> stage is ReadBack && succeeded,
{
}

/// The render thread turns the runtime in every pass, after it has taken in
/// every command there is, and draws after that if there is anything to draw.
pub proof fn a_pass_goes_round(pass: Pass, heard: Heard, wants_frame: bool)
    ensures
        ({
            let next = following(pass, heard, wants_frame);
            &&& next is Turn <==> pass is Drain && heard is Silence
            &&& next is Draw <==> pass is Turn && wants_frame
            &&& next is End <==> pass is End || ((pass is Wait || pass is Drain)
                && heard is Hangup)
            &&& next is Wait <==> (pass is Turn || pass is Draw) && !wants_frame
            &&& next is Drain <==> (pass is Wait && !(heard is Hangup)) || (pass is Drain
                && heard is Something) || (pass is Draw && wants_frame)
        }),
        first_pass(wants_frame) is Drain <==> wants_frame,
        first_pass(wants_frame) is Wait <==> !wants_frame,
{
}

/// An engine starts with sixteen bands at rest and nothing of them on the map.
pub proof fn nothing_stands_at_first(band: int)
    requires
        0 <= band < 16,
    ensures
        resting_bands().len() == 16,
        resting_bands()[band].height.bits == 0,
        nothing_applied().len() == 16,
        nothing_applied()[band] is None,
{
}

/// The style the map opens with is the one the environment asks for, without the
/// white space round it, and the default where that leaves nothing.
pub proof fn the_environment_is_asked_for_a_style(value: Seq<char>)
    ensures
        style_asked_for(None) == DEFAULT_STYLE_URL@,
        trimmed(value).len() > 0 ==> style_asked_for(Some(value)) == trimmed(value),
        trimmed(value).len() == 0 ==> style_asked_for(Some(value)) == DEFAULT_STYLE_URL@,
{
}

/// The style is ready once there is a map and its style has loaded, so neither
/// alone is enough.
pub proof fn a_style_is_ready_once_loaded(engine: EngineState)
    ensures
        engine.map is None ==> !engine.style_ready(),
        engine.map matches Some(attached) ==> (engine.style_ready() <==> attached.style_loaded),
        engine.valid() <==> engine.bands.len() == 16 && engine.applied.len() == 16,
{
}

/// An engine is seen as it is, field by field.
pub proof fn an_engine_is_seen_as_it_is(engine: Engine)
    ensures
        engine@.runtime == engine.runtime,
        engine@.map == engine.map,
        engine@.size == engine.size,
        engine@.style_url == engine.style_url@,
        engine@.camera == engine.camera,
        engine@.bands == engine.bands@,
        engine@.applied == engine.applied@,
        engine@.light == engine.light,
        engine@.applied_light == engine.applied_light,
        engine@.flight_id == engine.flight_id,
        engine@.last_flight == engine.last_flight,
        engine@.pending_fly == engine.pending_fly,
        engine@.report_camera == engine.report_camera,
        engine@.dirty == engine.dirty,
        engine@.wants_repaint == engine.wants_repaint,
{
}

} // verus!
