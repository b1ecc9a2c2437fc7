//! The application's own state: release browsing, transport controls, and what
//! the frame loop decides on each tick.
//!
//! Everything here is asked and told by whoever owns the window, the audio
//! device and the worker threads. Times are nanoseconds on one clock that never
//! runs backwards.
use vstd::prelude::*;
use vstd::string::*;

use crate::gamepad::Action;
use crate::otherman::{release_link, ListItem, Release, Track, RELEASE_LINK_BASE};
use crate::scalar::{number, Scalar, ONE, ZERO};
use crate::text::{bounded_value, read_number, trim, trimmed, trimmed_end};
use crate::url::{absolute, absolute_url};

verus! {

/// How many places there are to fly to.
pub const PLACE_COUNT: usize = 12;

/// How close a fly-to to one of the places gets.
pub const FLY_TO_ZOOM: u32 = 16;

/// A freshly started track reports an empty queue for a moment; it is not taken
/// to have ended until it has had a chance to fill.
pub const END_OF_TRACK_GRACE_MS: u64 = 750;

/// How long the skyline stays frozen after a fly-to lands, by default.
///
/// A map that has just flown somewhere new is still loading its tiles, and the
/// animation gives way until it has had time to. Only a fly-to counts: the
/// bearing spins continuously while a track plays, so treating every camera
/// change as a move would freeze the skyline for good.
pub const HOLD_AFTER_FLIGHT_MS: u64 = 2500;

/// How often the status line is refreshed.
pub const STATUS_INTERVAL_MS: u64 = 200;

/// How long a drop lasts.
pub const DROP_LENGTH_MS: u64 = 2200;

/// How long an orbit lasts.
pub const ORBIT_LENGTH_MS: u64 = 3000;

/// How long frames are counted for before the rate is worked out.
pub const RATE_WINDOW_MS: u64 = 1000;

/// How many nanoseconds there are in a millisecond.
pub const NANOS_PER_MS: u64 = 1_000_000;

/// Shown while there is no track.
pub const NO_TRACK: &'static str = "No track selected, please select a release.";

/// Shown when the catalogue did not answer.
pub const NO_CATALOGUE: &'static str = "Could not load the Otherman Records catalogue.";

/// Somewhere to fly to. The coordinates are in ten-millionths of a degree.
#[derive(Clone, Copy, Debug)]
pub struct Place {
    pub name: &'static str,
    pub lat: i64,
    pub lon: i64,
}

/// The place at an index.
pub open spec fn place_at(index: int) -> Option<(Seq<char>, int, int)> {
    if index == 0 {
        Some(("Tokyo / Japan"@, 356806550, 1397671650))
    } else if index == 1 {
        Some(("Osaka / Japan"@, 347034131, 1354975879))
    } else if index == 2 {
        Some(("Sapporo / Japan"@, 430686800, 1413507900))
    } else if index == 3 {
        Some(("Hiroshima / Japan"@, 343943770, 1324554860))
    } else if index == 4 {
        Some(("Fukuoka / Japan"@, 335898988, 1304017509))
    } else if index == 5 {
        Some(("Sendai / Japan"@, 382601280, 1408835180))
    } else if index == 6 {
        Some(("Kyoto / Japan"@, 349850340, 1357595350))
    } else if index == 7 {
        Some(("Shimane / Japan"@, 354639680, 1330640080))
    } else if index == 8 {
        Some(("Firenze / Italy"@, 437774240, 112486620))
    } else if index == 9 {
        Some(("Prishtina / Kosovo"@, 426638950, 211635690))
    } else if index == 10 {
        Some(("Nairobi / Kenya"@, -12798030, 368166470))
    } else if index == 11 {
        Some(("Manila / Philippines"@, 146568750, 1210670190))
    } else {
        None
    }
}

impl Place {
    /// The place as a value.
    pub open spec fn value(self) -> (Seq<char>, int, int) {
        (self.name@, self.lat as int, self.lon as int)
    }
}

/// The place at an index, if there is one.
pub fn place(index: usize) -> (r: Option<Place>)
    ensures
        r is Some <==> index < PLACE_COUNT,
        match r {
            Some(place) => place_at(index as int) == Some(place.value()),
            None => place_at(index as int) is None,
        },
{
    let (name, lat, lon): (&'static str, i64, i64) = match index {
        0 => ("Tokyo / Japan", 356806550, 1397671650),
        1 => ("Osaka / Japan", 347034131, 1354975879),
        2 => ("Sapporo / Japan", 430686800, 1413507900),
        3 => ("Hiroshima / Japan", 343943770, 1324554860),
        4 => ("Fukuoka / Japan", 335898988, 1304017509),
        5 => ("Sendai / Japan", 382601280, 1408835180),
        6 => ("Kyoto / Japan", 349850340, 1357595350),
        7 => ("Shimane / Japan", 354639680, 1330640080),
        8 => ("Firenze / Italy", 437774240, 112486620),
        9 => ("Prishtina / Kosovo", 426638950, 211635690),
        10 => ("Nairobi / Kenya", -12798030, 368166470),
        11 => ("Manila / Philippines", 146568750, 1210670190),
        _ => return None,
    };
    Some(Place { name, lat, lon })
}

/// One step through a list that wraps around.
#[derive(Clone, Copy, Debug, PartialEq, Eq, Structural)]
pub enum Step {
    Back,
    Forward,
}

impl Step {
    /// How far a step goes.
    pub open spec fn distance(self) -> int {
        match self {
            Step::Back => -1,
            Step::Forward => 1,
        }
    }

    /// Where a step from `current` leads in a list of `count`.
    pub open spec fn leads(self, current: int, count: int) -> int {
        (current + self.distance()) % count
    }

    /// Where a step from `current` leads in a list of `count`.
    pub fn from(self, current: usize, count: usize) -> (r: usize)
        requires
            count > 0,
        ensures
            r == self.leads(current as int, count as int),
            r < count,
    {
        let base: usize = current % count;
        proof {
            let c = current as int;
            let n = count as int;
            let q = c / n;
            assert(c == n * q + c % n) by (nonlinear_arith)
                requires
                    n > 0,
                    q == c / n,
            ;
            if base + self.distance() == n {
                assert((c + 1) % n == 0) by (nonlinear_arith)
                    requires
                        n > 0,
                        c == n * q + n - 1,
                ;
            } else if base + self.distance() < 0 {
                assert((c - 1) % n == n - 1) by (nonlinear_arith)
                    requires
                        n > 0,
                        c == n * q,
                ;
            } else {
                let d = self.distance();
                let b = base as int;
                assert((c + d) % n == b + d) by (nonlinear_arith)
                    requires
                        n > 0,
                        c == n * q + b,
                        0 <= b + d < n,
                ;
            }
        }
        match self {
            Step::Back => if base == 0 {
                count - 1
            } else {
                base - 1
            },
            Step::Forward => if base + 1 == count {
                0
            } else {
                base + 1
            },
        }
    }
}

/// A step back undoes a step forward, and the other way round.
pub proof fn steps_undo_each_other(current: int, count: int)
    requires
        0 <= current < count,
    ensures
        Step::Back.leads(Step::Forward.leads(current, count), count) == current,
        Step::Forward.leads(Step::Back.leads(current, count), count) == current,
{
    if current + 1 == count {
        assert((current + 1) % count == 0) by (nonlinear_arith)
            requires
                current + 1 == count,
                count > 0,
        ;
        assert((0 - 1) % count == count - 1) by (nonlinear_arith)
            requires
                count > 0,
        ;
    } else {
        vstd::arithmetic::div_mod::lemma_small_mod((current + 1) as nat, count as nat);
        vstd::arithmetic::div_mod::lemma_small_mod(current as nat, count as nat);
    }
    if current == 0 {
        assert((0 - 1) % count == count - 1) by (nonlinear_arith)
            requires
                count > 0,
        ;
        assert((count - 1 + 1) % count == 0) by (nonlinear_arith)
            requires
                count > 0,
        ;
    } else {
        vstd::arithmetic::div_mod::lemma_small_mod((current - 1) as nat, count as nat);
        vstd::arithmetic::div_mod::lemma_small_mod(current as nat, count as nat);
    }
}

/// The entry a list chooses when nothing or something below the list is chosen.
pub fn chosen(index: i32) -> (r: usize)
    ensures
        r == if index < 0 {
            0
        } else {
            index as int
        },
{
    if index < 0 {
        0
    } else {
        index as usize
    }
}

/// What came of a track that was asked for.
pub enum Outcome {
    /// It is playing.
    Playing,
    /// It arrived, but the player would not have it, and why.
    Unplayable(String),
    /// It did not arrive, and why.
    Unreachable(String),
}

/// What the window is told once a track that was asked for has come to
/// something.
pub struct Notice {
    pub playing: bool,
    pub failure: Option<String>,
}

/// A track to fetch, and which request it is.
pub struct Fetch {
    pub url: String,
    pub generation: u64,
}

/// What an action comes to.
#[derive(Clone, Copy, Debug, PartialEq, Eq, Structural)]
pub enum Task {
    Nothing,
    Start,
    Stop,
    /// Stop what plays and start the track that is now up.
    Restart,
    StepPlace(Step),
    StepTrack(Step),
    StepRelease(Step),
    Drop,
    Orbit,
}

/// Release browsing and transport state.
#[derive(Debug)]
pub struct Transport {
    /// Which of the places was flown to last.
    pub place: usize,
    /// Which release is loaded.
    pub release_index: usize,
    pub volume: Scalar,
    pub releases: Vec<ListItem>,
    pub release: Option<Release>,
    pub track_index: usize,
    pub playing: bool,
    /// Bumped on every load so a slow download for an abandoned track can be
    /// discarded when it finally arrives.
    pub generation: u64,
    pub busy: bool,
}

/// What is said of a failure: what could not be done, and why.
pub open spec fn failure_text(outcome: Outcome) -> Option<Seq<char>> {
    match outcome {
        Outcome::Playing => None,
        Outcome::Unplayable(error) => Some("Could not play this track: "@ + error@),
        Outcome::Unreachable(error) => Some("Could not stream this track: "@ + error@),
    }
}

/// What is said when a release did not load.
pub fn release_failure(id: &str, error: &str) -> (r: String)
    ensures
        r@ == "Could not load release "@ + id@ + ": "@ + error@,
{
    let mut text = "Could not load release ".to_owned();
    text.append(id);
    text.append(": ");
    text.append(error);
    text
}

impl Transport {
    /// The current track, if a release is loaded and has one there.
    pub open spec fn track(self) -> Option<Track> {
        match self.release {
            Some(release) => if self.track_index < release.tracklist@.len() {
                Some(release.tracklist@[self.track_index as int])
            } else {
                None
            },
            None => None,
        }
    }

    /// What the title line says.
    pub open spec fn title(self) -> Seq<char> {
        match (self.release, self.track()) {
            (Some(release), Some(track)) => track.title@ + " / "@ + release.artists_text(),
            _ => NO_TRACK@,
        }
    }

    /// The identifier of the release an index names, unless that is the one
    /// loaded already.
    pub open spec fn fetch_for(self, index: int) -> Option<Seq<char>> {
        if 0 <= index < self.releases@.len() {
            let id = self.releases@[index].id@;
            if self.release is Some && self.release->0.id@ == id {
                None
            } else {
                Some(id)
            }
        } else {
            None
        }
    }

    /// Whether a download belongs to the request that counts.
    pub open spec fn awaits(self, generation: u64) -> bool {
        self.generation == generation
    }

    /// The state when the next request has been made.
    pub open spec fn bumped(self) -> Transport {
        Transport { generation: (self.generation + 1) as u64, ..self }
    }

    /// The state once playback has been stopped.
    pub open spec fn stopped(self) -> Transport {
        Transport { playing: false, busy: false, ..self.bumped() }
    }

    /// The state once the application is quitting.
    pub open spec fn quitting(self) -> Transport {
        Transport { playing: false, ..self.bumped() }
    }

    /// The state once a track has been asked for.
    pub open spec fn requested(self) -> Transport {
        Transport { busy: true, ..self.bumped() }
    }

    /// The state once a download has come to something. A superseded one changes
    /// nothing.
    pub open spec fn finished(self, generation: u64, playing: bool) -> Transport {
        if self.awaits(generation) {
            Transport { busy: false, playing, ..self }
        } else {
            self
        }
    }

    /// The state once the catalogue has arrived.
    pub open spec fn catalogued(self, releases: Vec<ListItem>) -> Transport {
        Transport { releases, ..self }
    }

    /// The state once a release has been loaded.
    pub open spec fn loaded(self, index: usize, release: Release) -> Transport {
        Transport {
            release: Some(release),
            release_index: index,
            track_index: 0,
            ..self.stopped()
        }
    }

    /// Nothing loaded, nothing playing and nothing asked for yet.
    pub open spec fn fresh(self) -> bool {
        &&& self.place == 0
        &&& self.release_index == 0
        &&& self.volume == number(ONE)
        &&& self.releases@ == Seq::<ListItem>::empty()
        &&& self.release is None
        &&& self.track_index == 0
        &&& !self.playing
        &&& self.generation == 0
        &&& !self.busy
    }

    /// The state with nothing loaded and nothing playing.
    pub fn new() -> (r: Transport)
        ensures
            r.fresh(),
    {
        Transport {
            place: 0,
            release_index: 0,
            volume: Scalar { bits: ONE },
            releases: Vec::new(),
            release: None,
            track_index: 0,
            playing: false,
            generation: 0,
            busy: false,
        }
    }

    /// The current track.
    pub fn current_track(&self) -> (r: Option<&Track>)
        ensures
            match r {
                Some(track) => self.track() == Some(*track),
                None => self.track() is None,
            },
    {
        match &self.release {
            Some(release) => if self.track_index < release.tracklist.len() {
                Some(&release.tracklist[self.track_index])
            } else {
                None
            },
            None => None,
        }
    }

    /// What the title line says.
    pub fn current_track_title(&self) -> (r: String)
        ensures
            r@ == self.title(),
    {
        match (&self.release, self.current_track()) {
            (Some(release), Some(track)) => {
                let mut title = track.title.as_str().to_owned();
                title.append(" / ");
                title.append(release.artists().as_str());
                title
            },
            _ => NO_TRACK.to_owned(),
        }
    }

    /// Chooses one of the places to fly to. One that does not exist is not
    /// chosen.
    pub fn fly_to_place(&mut self, index: usize) -> (r: Option<Place>)
        ensures
            r is Some <==> index < PLACE_COUNT,
            r matches Some(place) ==> place_at(index as int) == Some(place.value()),
            *final(self) == if index < PLACE_COUNT {
                Transport { place: index, ..*old(self) }
            } else {
                *old(self)
            },
    {
        let chosen = place(index);
        if chosen.is_some() {
            self.place = index;
        }
        chosen
    }

    /// Steps through the places.
    pub fn step_place(&mut self, step: Step) -> (r: Option<Place>)
        ensures
            final(self).place == step.leads(old(self).place as int, PLACE_COUNT as int),
            *final(self) == (Transport { place: final(self).place, ..*old(self) }),
            r matches Some(place) && place_at(final(self).place as int) == Some(place.value()),
    {
        let next: usize = step.from(self.place, PLACE_COUNT);
        self.fly_to_place(next)
    }

    /// The identifier of the release to fetch when one is chosen. Nothing is
    /// fetched for an index past the catalogue, or for the release that is
    /// loaded already.
    pub fn select_release(&self, index: usize) -> (r: Option<String>)
        ensures
            match r {
                Some(id) => self.fetch_for(index as int) == Some(id@),
                None => self.fetch_for(index as int) is None,
            },
    {
        if index >= self.releases.len() {
            return None;
        }
        let id = self.releases[index].id.clone();
        if let Some(release) = &self.release {
            if release.id == id {
                return None;
            }
        }
        Some(id)
    }

    /// Steps through the catalogue: where to, and what to fetch for it. An
    /// empty catalogue has nowhere to step to.
    pub fn step_release(&self, step: Step) -> (r: Option<(usize, Option<String>)>)
        ensures
            match r {
                Some((index, id)) => {
                    &&& self.releases@.len() > 0
                    &&& index == step.leads(self.release_index as int, self.releases@.len() as int)
                    &&& match id {
                        Some(id) => self.fetch_for(index as int) == Some(id@),
                        None => self.fetch_for(index as int) is None,
                    }
                },
                None => self.releases@.len() == 0,
            },
    {
        if self.releases.len() == 0 {
            return None;
        }
        let next: usize = step.from(self.release_index, self.releases.len());
        Some((next, self.select_release(next)))
    }

    /// Takes the catalogue in. The list already shows its first entry, so that
    /// one is to be loaded: returns what to fetch for it.
    pub fn catalogue_loaded(&mut self, releases: Vec<ListItem>) -> (r: Option<String>)
        ensures
            *final(self) == old(self).catalogued(releases),
            match r {
                Some(id) => final(self).fetch_for(0) == Some(id@),
                None => final(self).fetch_for(0) is None,
            },
    {
        self.releases = releases;
        self.select_release(0)
    }

    /// A release has been loaded: whatever played stops, whatever was being
    /// fetched is nobody's track, and the first track is up.
    pub fn release_loaded(&mut self, index: usize, release: Release)
        requires
            old(self).generation < u64::MAX,
        ensures
            *final(self) == old(self).loaded(index, release),
            !final(self).playing,
            !final(self).busy,
    {
        self.stop();
        self.release = Some(release);
        self.release_index = index;
        self.track_index = 0;
    }

    /// Asks for the current track, if there is one. Says what to fetch and
    /// which request it is.
    pub fn start(&mut self) -> (r: Option<Fetch>)
        requires
            old(self).generation < u64::MAX,
        ensures
            match r {
                Some(fetch) => {
                    &&& old(self).track() matches Some(track) && fetch.url@ == absolute(track.url@)
                    &&& fetch.generation == old(self).generation + 1
                    &&& *final(self) == old(self).requested()
                },
                None => old(self).track() is None && *final(self) == *old(self),
            },
    {
        let url = match self.current_track() {
            Some(track) => absolute_url(track.url.as_str()),
            None => return None,
        };
        self.generation = self.generation + 1;
        self.busy = true;
        Some(Fetch { url, generation: self.generation })
    }

    /// Whether a download is still wanted. One that was superseded while
    /// downloading is not: the newer request owns the busy flag and the window.
    pub fn accepts(&self, generation: u64) -> (r: bool)
        ensures
            r == self.awaits(generation),
    {
        self.generation == generation
    }

    /// Takes in what came of a download, and says what the window is told. A
    /// superseded one changes nothing and is not told of.
    pub fn finish(&mut self, generation: u64, outcome: Outcome) -> (r: Option<Notice>)
        ensures
            r is Some <==> old(self).awaits(generation),
            r matches Some(notice) ==> {
                &&& notice.playing == (outcome is Playing)
                &&& match notice.failure {
                    Some(text) => failure_text(outcome) == Some(text@),
                    None => failure_text(outcome) is None,
                }
            },
            *final(self) == old(self).finished(generation, outcome is Playing),
    {
        if !self.accepts(generation) {
            return None;
        }
        self.busy = false;
        let failure = match outcome {
            Outcome::Playing => None,
            Outcome::Unplayable(error) => {
                let mut text = "Could not play this track: ".to_owned();
                text.append(error.as_str());
                Some(text)
            },
            Outcome::Unreachable(error) => {
                let mut text = "Could not stream this track: ".to_owned();
                text.append(error.as_str());
                Some(text)
            },
        };
        self.playing = failure.is_none();
        Some(Notice { playing: self.playing, failure })
    }

    /// Stops playback, and with it any download still in flight.
    pub fn stop(&mut self)
        requires
            old(self).generation < u64::MAX,
        ensures
            *final(self) == old(self).stopped(),
            !final(self).playing,
            !final(self).busy,
    {
        self.playing = false;
        self.busy = false;
        self.generation = self.generation + 1;
    }

    /// Gets ready to quit: any download still in flight is now nobody's track.
    pub fn quit(&mut self)
        requires
            old(self).generation < u64::MAX,
        ensures
            *final(self) == old(self).quitting(),
    {
        self.playing = false;
        self.generation = self.generation + 1;
    }

    /// Steps through the tracks of the release, and says what that comes to: a
    /// track that was playing gives way to the new one. There is nothing to say
    /// where there are no tracks to step through.
    pub fn step_track(&mut self, step: Step) -> (r: Option<Task>)
        ensures
            match old(self).release {
                Some(release) => if release.tracklist@.len() == 0 {
                    r is None && *final(self) == *old(self)
                } else {
                    &&& r == Some(
                        if old(self).playing {
                            Task::Restart
                        } else {
                            Task::Nothing
                        },
                    )
                    &&& final(self).track_index == step.leads(
                        old(self).track_index as int,
                        release.tracklist@.len() as int,
                    )
                    &&& *final(self) == (Transport {
                        track_index: final(self).track_index,
                        ..*old(self)
                    })
                },
                None => r is None && *final(self) == *old(self),
            },
    {
        let count: usize = match &self.release {
            Some(release) => release.tracklist.len(),
            None => return None,
        };
        if count == 0 {
            return None;
        }
        self.track_index = step.from(self.track_index, count);
        if self.playing {
            Some(Task::Restart)
        } else {
            Some(Task::Nothing)
        }
    }

    /// What the play button comes to.
    pub fn toggle_play(&self) -> (r: Task)
        ensures
            r == if self.playing {
                Task::Stop
            } else {
                Task::Start
            },
    {
        if self.playing {
            Task::Stop
        } else {
            Task::Start
        }
    }

    /// What a gamepad action comes to. Play only starts what is not playing,
    /// and stop only stops what is.
    pub fn run_action(&self, action: Action) -> (r: Task)
        ensures
            r == match action {
                Action::Play => if self.playing {
                    Task::Nothing
                } else {
                    Task::Start
                },
                Action::Stop => if self.playing {
                    Task::Stop
                } else {
                    Task::Nothing
                },
                Action::PreviousPlace => Task::StepPlace(Step::Back),
                Action::NextPlace => Task::StepPlace(Step::Forward),
                Action::PreviousTrack => Task::StepTrack(Step::Back),
                Action::NextTrack => Task::StepTrack(Step::Forward),
                Action::PreviousRelease => Task::StepRelease(Step::Back),
                Action::NextRelease => Task::StepRelease(Step::Forward),
                Action::Drop => Task::Drop,
                Action::Orbit => Task::Orbit,
            },
    {
        match action {
            Action::Play => if self.playing {
                Task::Nothing
            } else {
                Task::Start
            },
            Action::Stop => if self.playing {
                Task::Stop
            } else {
                Task::Nothing
            },
            Action::PreviousPlace => Task::StepPlace(Step::Back),
            Action::NextPlace => Task::StepPlace(Step::Forward),
            Action::PreviousTrack => Task::StepTrack(Step::Back),
            Action::NextTrack => Task::StepTrack(Step::Forward),
            Action::PreviousRelease => Task::StepRelease(Step::Back),
            Action::NextRelease => Task::StepRelease(Step::Forward),
            Action::Drop => Task::Drop,
            Action::Orbit => Task::Orbit,
        }
    }

    /// The page of the release that is loaded, for a browser.
    pub fn open_release(&self) -> (r: Option<String>)
        ensures
            match self.release {
                Some(release) => r matches Some(link) && link@ == RELEASE_LINK_BASE@ + release.id@,
                None => r is None,
            },
    {
        match &self.release {
            Some(release) => Some(release_link(release.id.as_str())),
            None => None,
        }
    }

    /// Sets the volume.
    pub fn set_volume(&mut self, volume: Scalar)
        ensures
            *final(self) == (Transport { volume, ..*old(self) }),
    {
        self.volume = volume;
    }

    /// Drives the volume from the triggers. `pull` is how hard, and `sum` what
    /// the volume comes to before it is held between silence and full. Returns
    /// the new volume if it changed.
    pub fn drive_volume(&mut self, pull: Scalar, sum: Scalar) -> (r: Option<Scalar>)
        ensures
            ({
                let volume = sum.held(number(ZERO), number(ONE));
                if pull.equals(number(ZERO)) || volume.equals(old(self).volume) {
                    r is None && *final(self) == *old(self)
                } else {
                    r == Some(volume) && *final(self) == (Transport { volume, ..*old(self) })
                }
            }),
    {
        if pull.is_zero() {
            return None;
        }
        let volume = sum.clamp(Scalar { bits: ZERO }, Scalar { bits: ONE });
        if volume.same(self.volume) {
            return None;
        }
        self.volume = volume;
        Some(volume)
    }

    /// Whether the track has played to its end, given how long ago it started
    /// and whether the player's queue has run dry.
    pub fn ended(&self, since_start: u128, finished: bool) -> (r: bool)
        ensures
            r == track_ended(*self, since_start as int, finished),
    {
        self.playing && !self.busy && since_start > END_OF_TRACK_GRACE_MS as u128
            * NANOS_PER_MS as u128 && finished
    }
}

/// What can happen to the transport between asking for a track and its arrival.
pub enum Change {
    Stop,
    Quit,
    Start,
    /// The catalogue arrives.
    Catalogue(Vec<ListItem>),
    Load(usize, Release),
    StepTrack(usize),
    FlyToPlace(usize),
    SetVolume(Scalar),
    /// Another download comes to something.
    Finish(u64, bool),
}

/// The transport once something has happened to it. Starting with no track up
/// changes nothing.
pub open spec fn changed(transport: Transport, change: Change) -> Transport {
    match change {
        Change::Stop => transport.stopped(),
        Change::Quit => transport.quitting(),
        Change::Start => if transport.track() is Some {
            transport.requested()
        } else {
            transport
        },
        Change::Catalogue(releases) => transport.catalogued(releases),
        Change::Load(index, release) => transport.loaded(index, release),
        Change::StepTrack(index) => Transport { track_index: index, ..transport },
        Change::FlyToPlace(index) => Transport { place: index, ..transport },
        Change::SetVolume(volume) => Transport { volume, ..transport },
        Change::Finish(generation, playing) => transport.finished(generation, playing),
    }
}

/// The transport once a run of things has happened to it, in order.
pub open spec fn changed_by(transport: Transport, changes: Seq<Change>) -> Transport
    decreases changes.len(),
{
    if changes.len() == 0 {
        transport
    } else {
        changed(changed_by(transport, changes.drop_last()), changes.last())
    }
}

/// Whether something supersedes a download that is on its way.
pub open spec fn supersedes(change: Change) -> bool {
    change is Stop || change is Quit || change is Load
}

/// The generation never runs backwards.
proof fn generations_only_rise(transport: Transport, changes: Seq<Change>)
    requires
        transport.generation + changes.len() <= u64::MAX,
    ensures
        transport.generation <= changed_by(transport, changes).generation <= transport.generation
            + changes.len(),
    decreases changes.len(),
{
    if changes.len() > 0 {
        generations_only_rise(transport, changes.drop_last());
    }
}

/// A download that has been superseded is never accepted: once playback has
/// been stopped, another track asked for, another release loaded or the
/// application told to quit, no later turn of events makes the transport wait
/// for it again, and when it arrives, opened or failed, it changes nothing.
pub proof fn a_superseded_download_is_dropped(
    transport: Transport,
    change: Change,
    changes: Seq<Change>,
    generation: u64,
)
    requires
        generation <= transport.generation,
        supersedes(change) || (change is Start && transport.track() is Some),
        transport.generation + 1 + changes.len() <= u64::MAX,
    ensures
        ({
            let later = changed_by(changed(transport, change), changes);
            &&& !later.awaits(generation)
            &&& forall|playing: bool| #[trigger] later.finished(generation, playing) == later
        }),
{
    generations_only_rise(changed(transport, change), changes);
}

/// A download that nothing supersedes is accepted when it arrives, whatever
/// else happens meanwhile.
pub proof fn an_awaited_download_is_accepted(transport: Transport, changes: Seq<Change>)
    requires
        forall|i: int|
            0 <= i < changes.len() ==> !supersedes(#[trigger] changes[i]) && !(changes[i] is Start),
    ensures
        changed_by(transport, changes).awaits(transport.generation),
    decreases changes.len(),
{
    if changes.len() > 0 {
        let before = changes.drop_last();
        assert forall|i: int| 0 <= i < before.len() implies !supersedes(#[trigger] before[i]) && !(
        before[i] is Start) by {
            assert(before[i] == changes[i]);
        }
        an_awaited_download_is_accepted(transport, before);
        assert(!supersedes(changes[changes.len() - 1]));
    }
}

/// A release that has just been loaded is not fetched again.
pub proof fn a_loaded_release_is_not_fetched_again(
    transport: Transport,
    index: usize,
    release: Release,
)
    requires
        index < transport.releases@.len(),
        release.id@ == transport.releases@[index as int].id@,
    ensures
        transport.loaded(index, release).fetch_for(index as int) is None,
        transport.loaded(index, release).track() is Some <==> release.tracklist@.len() > 0,
{
}

/// Whether a span of nanoseconds is shorter than a number of milliseconds.
pub open spec fn within(span: int, ms: int) -> bool {
    span < ms * NANOS_PER_MS
}

/// Whether a span of nanoseconds is shorter than a number of milliseconds.
fn is_within(span: u128, ms: u64) -> (r: bool)
    ensures
        r == within(span as int, ms as int),
{
    assert(ms * NANOS_PER_MS <= u64::MAX * NANOS_PER_MS) by (nonlinear_arith)
        requires
            ms <= u64::MAX,
    ;
    span < ms as u128 * NANOS_PER_MS as u128
}

/// How long ago something was. Something that has not happened yet was just
/// now.
pub open spec fn span_since(moment: u128, now: u128) -> int {
    if now <= moment {
        0
    } else {
        now - moment
    }
}

/// How long ago something was.
pub fn since(moment: u128, now: u128) -> (r: u128)
    ensures
        r == span_since(moment, now),
{
    if now <= moment {
        0
    } else {
        now - moment
    }
}

/// Whether the skyline stays frozen: a fly-to is in progress, or one landed
/// recently enough that its tiles may still be arriving.
pub open spec fn gives_way(flying: bool, since_landing: Option<int>, hold_ms: u64) -> bool {
    flying || (since_landing matches Some(span) && within(span, hold_ms as int))
}

/// Whether the band animation should give way.
pub fn animation_gives_way(flying: bool, since_landing: Option<u128>, hold_ms: u64) -> (r: bool)
    ensures
        r == gives_way(
            flying,
            match since_landing {
                Some(span) => Some(span as int),
                None => None,
            },
            hold_ms,
        ),
{
    if flying {
        return true;
    }
    match since_landing {
        Some(span) => is_within(span, hold_ms),
        None => false,
    }
}

/// How long the skyline stays frozen after a fly-to lands, in milliseconds,
/// given what the environment asks for. Nothing that is not a number counts.
pub fn hold_after_flight(value: Option<&str>) -> (r: u64)
    ensures
        r == match value {
            Some(text) => match bounded_value(trimmed(text@), u64::MAX as nat) {
                Some(ms) => ms,
                None => HOLD_AFTER_FLIGHT_MS as nat,
            },
            None => HOLD_AFTER_FLIGHT_MS as nat,
        },
{
    if let Some(text) = value {
        if let Some(ms) = read_number(trim(text).as_str(), u64::MAX) {
            return ms;
        }
    }
    HOLD_AFTER_FLIGHT_MS
}

/// The effects that run, and the hold after a flight.
#[derive(Clone, Copy, Debug)]
pub struct Effects {
    /// When the last fly-to landed, so the skyline can give way while the new
    /// location loads.
    pub flight_landed: Option<u128>,
    /// When the current drop started, if one is running.
    pub drop_started: Option<u128>,
    /// When the current orbit started, if one is running.
    pub orbit_started: Option<u128>,
}

/// How far into an effect of this length it is, unless it has finished.
pub open spec fn running(started: Option<u128>, now: u128, length_ms: u64) -> Option<int> {
    match started {
        Some(moment) => if within(span_since(moment, now), length_ms as int) {
            Some(span_since(moment, now))
        } else {
            None
        },
        None => None,
    }
}

/// How far into an effect of this length it is, unless it has finished.
fn run_for(started: Option<u128>, now: u128, length_ms: u64) -> (r: Option<u128>)
    ensures
        match r {
            Some(span) => running(started, now, length_ms) == Some(span as int),
            None => running(started, now, length_ms) is None,
        },
{
    match started {
        Some(moment) => {
            let span: u128 = since(moment, now);
            if is_within(span, length_ms) {
                Some(span)
            } else {
                None
            }
        },
        None => None,
    }
}

impl Effects {
    /// Nothing running.
    pub fn new() -> (r: Effects)
        ensures
            r.flight_landed is None,
            r.drop_started is None,
            r.orbit_started is None,
    {
        Effects { flight_landed: None, drop_started: None, orbit_started: None }
    }

    /// Fires a drop: the camera recoils and whips round while the skyline
    /// shoots up. One that is running starts over.
    pub fn fire_drop(&mut self, now: u128)
        ensures
            *final(self) == (Effects { drop_started: Some(now), ..*old(self) }),
    {
        self.drop_started = Some(now);
    }

    /// Fires an orbit: a full turn around where the camera stands. One that is
    /// running starts over.
    pub fn fire_orbit(&mut self, now: u128)
        ensures
            *final(self) == (Effects { orbit_started: Some(now), ..*old(self) }),
    {
        self.orbit_started = Some(now);
    }

    /// How far into the drop it is, in nanoseconds. One that has finished is
    /// forgotten.
    pub fn drop_envelope(&mut self, now: u128) -> (r: Option<u128>)
        ensures
            match r {
                Some(span) => running(old(self).drop_started, now, DROP_LENGTH_MS) == Some(
                    span as int,
                ),
                None => running(old(self).drop_started, now, DROP_LENGTH_MS) is None,
            },
            *final(self) == if r is Some {
                *old(self)
            } else {
                Effects { drop_started: None, ..*old(self) }
            },
    {
        let span = run_for(self.drop_started, now, DROP_LENGTH_MS);
        if span.is_none() {
            self.drop_started = None;
        }
        span
    }

    /// How far into the orbit it is, in nanoseconds. One that has finished is
    /// forgotten.
    pub fn orbit_envelope(&mut self, now: u128) -> (r: Option<u128>)
        ensures
            match r {
                Some(span) => running(old(self).orbit_started, now, ORBIT_LENGTH_MS) == Some(
                    span as int,
                ),
                None => running(old(self).orbit_started, now, ORBIT_LENGTH_MS) is None,
            },
            *final(self) == if r is Some {
                *old(self)
            } else {
                Effects { orbit_started: None, ..*old(self) }
            },
    {
        let span = run_for(self.orbit_started, now, ORBIT_LENGTH_MS);
        if span.is_none() {
            self.orbit_started = None;
        }
        span
    }

    /// Takes in whether a fly-to is in the air, and says whether the skyline
    /// stays frozen.
    pub fn flight(&mut self, flying: bool, now: u128, hold_ms: u64) -> (r: bool)
        ensures
            *final(self) == if flying {
                Effects { flight_landed: Some(now), ..*old(self) }
            } else {
                *old(self)
            },
            r == gives_way(
                flying,
                match old(self).flight_landed {
                    Some(moment) => Some(span_since(moment, now)),
                    None => None,
                },
                hold_ms,
            ),
    {
        if flying {
            self.flight_landed = Some(now);
        }
        let since_landing = match self.flight_landed {
            Some(moment) => Some(since(moment, now)),
            None => None,
        };
        animation_gives_way(flying, since_landing, hold_ms)
    }
}

/// What one tick of the frame loop has to show.
#[derive(Clone, Copy, Debug)]
pub struct Tick {
    /// How far into the drop it is, in nanoseconds.
    pub drop: Option<u128>,
    /// How far into the orbit it is, in nanoseconds.
    pub orbit: Option<u128>,
    /// Whether the bearing spins and the skyline follows the music.
    pub animates: bool,
}

impl Effects {
    /// One tick of the frame loop. Both effects run whether or not a track is
    /// playing; the animation needs a track, and gives way to a fly-to.
    pub fn tick(&mut self, now: u128, flying: bool, playing: bool, hold_ms: u64) -> (r: Tick)
        ensures
            match r.drop {
                Some(span) => running(old(self).drop_started, now, DROP_LENGTH_MS) == Some(
                    span as int,
                ),
                None => running(old(self).drop_started, now, DROP_LENGTH_MS) is None,
            },
            match r.orbit {
                Some(span) => running(old(self).orbit_started, now, ORBIT_LENGTH_MS) == Some(
                    span as int,
                ),
                None => running(old(self).orbit_started, now, ORBIT_LENGTH_MS) is None,
            },
            r.animates == (playing && !gives_way(
                flying,
                match old(self).flight_landed {
                    Some(moment) => Some(span_since(moment, now)),
                    None => None,
                },
                hold_ms,
            )),
            *final(self) == (Effects {
                flight_landed: if flying {
                    Some(now)
                } else {
                    old(self).flight_landed
                },
                drop_started: if r.drop is Some {
                    old(self).drop_started
                } else {
                    None
                },
                orbit_started: if r.orbit is Some {
                    old(self).orbit_started
                } else {
                    None
                },
            }),
    {
        let loading = self.flight(flying, now, hold_ms);
        let drop = self.drop_envelope(now);
        let orbit = self.orbit_envelope(now);
        Tick { drop, orbit, animates: playing && !loading }
    }
}

/// Without a fly-to nothing ever holds the skyline, and after one the hold runs
/// out: a skyline that is frozen with nothing in the air was flown to less than
/// the hold ago.
pub proof fn the_skyline_only_waits_for_a_flight(landed: u128, now: u128, hold_ms: u64)
    requires
        landed <= now,
    ensures
        !gives_way(false, None, hold_ms),
        gives_way(true, None, hold_ms),
        gives_way(true, Some(span_since(landed, now)), hold_ms),
        gives_way(false, Some(span_since(landed, now)), hold_ms) <==> now - landed < hold_ms
            * NANOS_PER_MS,
{
}

/// Frames counted over a window of time.
#[derive(Clone, Copy, Debug, PartialEq, Eq, Structural)]
pub struct FrameRate {
    /// Frames shown since the window began.
    pub frames: u32,
    /// How many frames the render thread had finished at the last report.
    pub rendered_shown: u64,
    /// When the window began.
    pub window: u128,
    /// When the status line was last refreshed.
    pub status_shown: u128,
}

/// What a window of frames came to.
#[derive(Clone, Copy, Debug, PartialEq, Eq, Structural)]
pub struct Count {
    /// Frames shown.
    pub frames: u32,
    /// Frames the render thread finished.
    pub rendered: u64,
    /// How long the window was.
    pub span: u128,
}

impl FrameRate {
    /// Nothing counted yet.
    pub fn new(now: u128) -> (r: FrameRate)
        ensures
            r == (FrameRate { frames: 0, rendered_shown: 0, window: now, status_shown: now }),
    {
        FrameRate { frames: 0, rendered_shown: 0, window: now, status_shown: now }
    }

    /// A frame was shown.
    pub fn shown(&mut self)
        requires
            old(self).frames < u32::MAX,
        ensures
            *final(self) == (FrameRate { frames: (old(self).frames + 1) as u32, ..*old(self) }),
    {
        self.frames = self.frames + 1;
    }

    /// Closes the window once it is long enough, and says what it came to.
    /// `rendered` is how many frames the render thread has finished so far; the
    /// difference is only taken when the rates are reported.
    pub fn close_window(&mut self, now: u128, rendered: u64, reported: bool) -> (r: Option<Count>)
        requires
            old(self).rendered_shown <= rendered,
        ensures
            ({
                let span = span_since(old(self).window, now);
                if within(span, RATE_WINDOW_MS as int) {
                    r is None && *final(self) == *old(self)
                } else {
                    &&& r matches Some(count) && count.frames == old(self).frames && count.rendered
                        == rendered - old(self).rendered_shown && count.span == span
                    &&& *final(self) == (FrameRate {
                        frames: 0,
                        rendered_shown: if reported {
                            rendered
                        } else {
                            old(self).rendered_shown
                        },
                        window: now,
                        ..*old(self)
                    })
                }
            }),
    {
        let span: u128 = since(self.window, now);
        if is_within(span, RATE_WINDOW_MS) {
            return None;
        }
        let count = Count {
            frames: self.frames,
            rendered: rendered - self.rendered_shown,
            span,
        };
        if reported {
            self.rendered_shown = rendered;
        }
        self.frames = 0;
        self.window = now;
        Some(count)
    }

    /// Whether the status line is due. It is refreshed on a timer rather than
    /// every tick: it is only read by a human.
    pub fn status_due(&mut self, now: u128) -> (r: bool)
        ensures
            r == !within(span_since(old(self).status_shown, now), STATUS_INTERVAL_MS as int),
            *final(self) == if r {
                FrameRate { status_shown: now, ..*old(self) }
            } else {
                *old(self)
            },
    {
        if is_within(since(self.status_shown, now), STATUS_INTERVAL_MS) {
            return false;
        }
        self.status_shown = now;
        true
    }
}

/// Everything the frame loop keeps between ticks.
#[derive(Debug)]
pub struct Deck {
    pub transport: Transport,
    pub effects: Effects,
    pub rate: FrameRate,
    /// When the track that plays started.
    pub track_started: u128,
    pub last_tick: u128,
}

/// What the end of a tick comes to.
#[derive(Clone, Copy, Debug, PartialEq, Eq, Structural)]
pub struct Wrap {
    /// What the window of frames came to, if it closed.
    pub count: Option<Count>,
    /// Whether the status line is due.
    pub status: bool,
    /// Whether the track has played to its end. It still counts as playing, so
    /// stepping to the next one starts it.
    pub ended: bool,
}

/// Whether a transport's track has played to its end.
pub open spec fn track_ended(transport: Transport, since_start: int, finished: bool) -> bool {
    transport.playing && !transport.busy && since_start > END_OF_TRACK_GRACE_MS * NANOS_PER_MS
        && finished
}

impl Deck {
    /// Nothing loaded, nothing running.
    pub fn new(now: u128) -> (r: Deck)
        ensures
            r.transport.fresh(),
            r.effects == (Effects {
                flight_landed: None,
                drop_started: None,
                orbit_started: None,
            }),
            r.rate == (FrameRate { frames: 0, rendered_shown: 0, window: now, status_shown: now }),
            r.track_started == now,
            r.last_tick == now,
    {
        Deck {
            transport: Transport::new(),
            effects: Effects::new(),
            rate: FrameRate::new(now),
            track_started: now,
            last_tick: now,
        }
    }

    /// Begins a tick, and says how long the last one was.
    pub fn begin_tick(&mut self, now: u128) -> (r: u128)
        ensures
            r == span_since(old(self).last_tick, now),
            *final(self) == (Deck { last_tick: now, ..*old(self) }),
    {
        let span: u128 = since(self.last_tick, now);
        self.last_tick = now;
        span
    }

    /// What the tick has to show, once the sticks have been taken in. See
    /// [`Effects::tick`].
    pub fn tick(&mut self, now: u128, flying: bool, hold_ms: u64) -> (r: Tick)
        ensures
            match r.drop {
                Some(span) => running(old(self).effects.drop_started, now, DROP_LENGTH_MS) == Some(
                    span as int,
                ),
                None => running(old(self).effects.drop_started, now, DROP_LENGTH_MS) is None,
            },
            match r.orbit {
                Some(span) => running(old(self).effects.orbit_started, now, ORBIT_LENGTH_MS)
                    == Some(span as int),
                None => running(old(self).effects.orbit_started, now, ORBIT_LENGTH_MS) is None,
            },
            r.animates == (old(self).transport.playing && !gives_way(
                flying,
                match old(self).effects.flight_landed {
                    Some(moment) => Some(span_since(moment, now)),
                    None => None,
                },
                hold_ms,
            )),
            *final(self) == (Deck {
                effects: Effects {
                    flight_landed: if flying {
                        Some(now)
                    } else {
                        old(self).effects.flight_landed
                    },
                    drop_started: if r.drop is Some {
                        old(self).effects.drop_started
                    } else {
                        None
                    },
                    orbit_started: if r.orbit is Some {
                        old(self).effects.orbit_started
                    } else {
                        None
                    },
                },
                ..*old(self)
            }),
    {
        self.effects.tick(now, flying, self.transport.playing, hold_ms)
    }

    /// Takes in what came of a download. See [`Transport::finish`]. The clock of
    /// a track that plays starts now.
    pub fn finish(&mut self, generation: u64, outcome: Outcome, now: u128) -> (r: Option<Notice>)
        ensures
            r is Some <==> old(self).transport.awaits(generation),
            r matches Some(notice) ==> {
                &&& notice.playing == (outcome is Playing)
                &&& match notice.failure {
                    Some(text) => failure_text(outcome) == Some(text@),
                    None => failure_text(outcome) is None,
                }
            },
            *final(self) == if old(self).transport.awaits(generation) {
                Deck {
                    transport: Transport {
                        busy: false,
                        playing: outcome is Playing,
                        ..old(self).transport
                    },
                    track_started: if outcome is Playing {
                        now
                    } else {
                        old(self).track_started
                    },
                    ..*old(self)
                }
            } else {
                *old(self)
            },
    {
        let notice = self.transport.finish(generation, outcome);
        if let Some(told) = &notice {
            if told.playing {
                self.track_started = now;
            }
        }
        notice
    }

    /// Ends a tick. `shown` is whether a frame was shown, `rendered` how many
    /// the render thread has finished so far, `reported` whether the rates are
    /// reported, and `finished` whether the player's queue has run dry.
    pub fn end_tick(
        &mut self,
        now: u128,
        shown: bool,
        rendered: u64,
        reported: bool,
        finished: bool,
    ) -> (r: Wrap)
        requires
            old(self).rate.frames < u32::MAX,
            old(self).rate.rendered_shown <= rendered,
        ensures
            ({
                let frames = old(self).rate.frames + if shown {
                    1int
                } else {
                    0
                };
                let span = span_since(old(self).rate.window, now);
                let closes = !within(span, RATE_WINDOW_MS as int);
                let due = !within(
                    span_since(old(self).rate.status_shown, now),
                    STATUS_INTERVAL_MS as int,
                );
                &&& r.count is Some <==> closes
                &&& r.count matches Some(count) ==> count.frames == frames && count.rendered
                    == rendered - old(self).rate.rendered_shown && count.span == span
                &&& r.status == due
                &&& r.ended == track_ended(
                    old(self).transport,
                    span_since(old(self).track_started, now),
                    finished,
                )
                &&& *final(self) == (Deck {
                    rate: FrameRate {
                        frames: if closes {
                            0
                        } else {
                            frames as u32
                        },
                        rendered_shown: if closes && reported {
                            rendered
                        } else {
                            old(self).rate.rendered_shown
                        },
                        window: if closes {
                            now
                        } else {
                            old(self).rate.window
                        },
                        status_shown: if due {
                            now
                        } else {
                            old(self).rate.status_shown
                        },
                    },
                    ..*old(self)
                })
            }),
    {
        if shown {
            self.rate.shown();
        }
        let count = self.rate.close_window(now, rendered, reported);
        let status = self.rate.status_due(now);
        let ended = self.transport.ended(since(self.track_started, now), finished);
        Wrap { count, status, ended }
    }
}

/// A track that has just started is not taken to have ended, even though its
/// queue is still empty; and a track that has ended is one that plays.
pub proof fn a_fresh_track_has_not_ended(
    transport: Transport,
    started: u128,
    now: u128,
    finished: bool,
)
    ensures
        now <= started + END_OF_TRACK_GRACE_MS * NANOS_PER_MS ==> !track_ended(
            transport,
            span_since(started, now),
            finished,
        ),
        track_ended(transport, span_since(started, now), finished) ==> transport.playing,
{
}

/// What the status line says: where the camera is, how many frames a second
/// there are while a track plays, and the gamepad, whose name is the only
/// feedback that it was picked up at all.
pub fn status_line(lat: &str, lon: &str, zoom: &str, fps: Option<&str>, pad: Option<&str>) -> (r:
    String)
    ensures
        r@ == lat@ + ", "@ + lon@ + " · z"@ + zoom@ + match fps {
            Some(fps) => " · "@ + fps@ + " fps"@,
            None => Seq::<char>::empty(),
        } + match pad {
            Some(name) => " · 🎮 "@ + name@,
            None => " · drag to pan, scroll to zoom"@,
        },
{
    let mut line = lat.to_owned();
    line.append(", ");
    line.append(lon);
    line.append(" · z");
    line.append(zoom);
    if let Some(fps) = fps {
        line.append(" · ");
        line.append(fps);
        line.append(" fps");
    }
    match pad {
        Some(name) => {
            line.append(" · 🎮 ");
            line.append(name);
        },
        None => {
            line.append(" · drag to pan, scroll to zoom");
        },
    }
    proof {
        assert(line@ =~= lat@ + ", "@ + lon@ + " · z"@ + zoom@ + match fps {
            Some(fps) => " · "@ + fps@ + " fps"@,
            None => Seq::<char>::empty(),
        } + match pad {
            Some(name) => " · 🎮 "@ + name@,
            None => " · drag to pan, scroll to zoom"@,
        });
    }
    line
}

/// After a stop nothing plays and nothing is being fetched, so playback can be
/// started again; everything but the request that counts is as it was.
pub proof fn nothing_plays_after_a_stop(transport: Transport)
    requires
        transport.generation < u64::MAX,
    ensures
        ({
            let later = transport.stopped();
            &&& !later.playing
            &&& !later.busy
            &&& later.generation == transport.generation + 1
            &&& later == (Transport {
                playing: false,
                busy: false,
                generation: later.generation,
                ..transport
            })
        }),
{
}

/// A release that is loaded takes the place of the one before it, with its first
/// track up. Nothing plays and nothing is being fetched then; the place, the
/// volume and the catalogue are as they were.
pub proof fn a_loaded_release_waits_to_be_played(
    transport: Transport,
    index: usize,
    release: Release,
)
    requires
        transport.generation < u64::MAX,
    ensures
        ({
            let later = transport.loaded(index, release);
            &&& later.release == Some(release)
            &&& later.release_index == index
            &&& later.track_index == 0
            &&& !later.playing
            &&& !later.busy
            &&& later.generation == transport.generation + 1
            &&& later.place == transport.place
            &&& later.volume == transport.volume
            &&& later.releases == transport.releases
            &&& release.tracklist@.len() > 0 ==> later.track() == Some(release.tracklist@[0])
        }),
{
}

/// Quitting stops what plays and disowns what is being fetched, and asking for a
/// track makes a new request and is busy until it comes to something. Neither
/// changes anything else.
pub proof fn requests_are_counted(transport: Transport)
    requires
        transport.generation < u64::MAX,
    ensures
        transport.quitting() == (Transport {
            playing: false,
            generation: transport.quitting().generation,
            ..transport
        }),
        transport.quitting().generation == transport.generation + 1,
        transport.requested() == (Transport {
            busy: true,
            generation: transport.requested().generation,
            ..transport
        }),
        transport.requested().generation == transport.generation + 1,
        transport.bumped() == (Transport {
            generation: transport.bumped().generation,
            ..transport
        }),
        transport.bumped().generation == transport.generation + 1,
{
}

/// A download that was asked for last ends the wait: nothing is busy then, and
/// something plays exactly when it does. Any other download is none of its
/// business.
pub proof fn only_the_last_request_counts(transport: Transport, generation: u64, playing: bool)
    ensures
        transport.awaits(generation) <==> transport.generation == generation,
        transport.generation == generation ==> {
            let later = transport.finished(generation, playing);
            &&& !later.busy
            &&& later.playing == playing
            &&& later == (Transport { busy: false, playing: later.playing, ..transport })
        },
        transport.generation != generation ==> transport.finished(generation, playing)
            == transport,
{
}

/// The catalogue takes the place of the one before it, and nothing else changes.
pub proof fn a_catalogue_is_only_a_list(transport: Transport, releases: Vec<ListItem>)
    ensures
        transport.catalogued(releases).releases == releases,
        transport.catalogued(releases) == (Transport {
            releases: transport.catalogued(releases).releases,
            ..transport
        }),
{
}

/// The track that is up is the one of the release that stands at the index, and
/// there is none past the end or without a release. The title names it and the
/// artists, and says that there is none otherwise.
pub proof fn the_title_names_the_track(transport: Transport)
    ensures
        transport.track() is Some <==> transport.release is Some && transport.track_index
            < transport.release->0.tracklist@.len(),
        transport.track() matches Some(track) ==> {
            let release = transport.release->0;
            &&& track == release.tracklist@[transport.track_index as int]
            &&& transport.title() == track.title@ + seq![' ', '/', ' '] + trimmed_end(
                release.artist1@ + seq![' '] + release.artist2@,
            )
        },
        transport.track() is None ==> transport.title() == NO_TRACK@,
{
    reveal_strlit(" / ");
    reveal_strlit(" ");
    assert(" / "@ =~= seq![' ', '/', ' ']);
    assert(" "@ =~= seq![' ']);
}

/// A release is fetched when it is chosen from the catalogue and is not the one
/// that is loaded, which goes by its identifier, and by that identifier.
pub proof fn only_another_release_is_fetched(transport: Transport, index: int)
    ensures
        transport.fetch_for(index) is Some <==> 0 <= index < transport.releases@.len() && !(
        transport.release is Some && transport.release->0.id@ == transport.releases@[index].id@),
        transport.fetch_for(index) matches Some(id) ==> id == transport.releases@[index].id@,
{
}

/// A transport starts with nothing loaded and nothing going on, at full volume.
pub proof fn a_fresh_transport_is_silent(transport: Transport)
    requires
        transport.fresh(),
    ensures
        transport.release is None,
        transport.releases@.len() == 0,
        transport.track() is None,
        !transport.playing,
        !transport.busy,
        transport.generation == 0,
        transport.place == 0,
        transport.release_index == 0,
        transport.track_index == 0,
        transport.volume.bits == 0x3ff0_0000_0000_0000,
{
}

/// A failure is told with its reason, and says whether the track could not be
/// played or not be had. A track that plays is none.
pub proof fn a_failure_gives_its_reason(outcome: Outcome, reason: String)
    ensures
        failure_text(outcome) is None <==> outcome is Playing,
        failure_text(Outcome::Unplayable(reason)) == Some(
            "Could not play this track: "@ + reason@,
        ),
        failure_text(Outcome::Unreachable(reason)) == Some(
            "Could not stream this track: "@ + reason@,
        ),
{
}

/// A step forward leads to the next entry and a step back to the one before,
/// round the ends of the list.
pub proof fn steps_lead_to_the_neighbours(current: int, count: int)
    requires
        0 <= current < count,
    ensures
        current + 1 < count ==> Step::Forward.leads(current, count) == current + 1,
        current + 1 == count ==> Step::Forward.leads(current, count) == 0,
        current > 0 ==> Step::Back.leads(current, count) == current - 1,
        current == 0 ==> Step::Back.leads(current, count) == count - 1,
{
    steps_undo_each_other(current, count);
    if current + 1 < count {
        vstd::arithmetic::div_mod::lemma_small_mod((current + 1) as nat, count as nat);
    } else {
        assert((current + 1) % count == 0) by (nonlinear_arith)
            requires
                current + 1 == count,
                count > 0,
        ;
    }
    if current > 0 {
        vstd::arithmetic::div_mod::lemma_small_mod((current - 1) as nat, count as nat);
    } else {
        assert((0 - 1) % count == count - 1) by (nonlinear_arith)
            requires
                count > 0,
        ;
    }
}

/// Time runs forwards: what happened a span ago happened that much before now,
/// and what has not happened yet counts as just now. A span is within a number
/// of milliseconds while it is shorter than as many millions of nanoseconds.
pub proof fn spans_are_measured(moment: u128, now: u128, ms: u64)
    ensures
        moment <= now ==> moment + span_since(moment, now) == now,
        now <= moment ==> span_since(moment, now) == 0,
        within(span_since(moment, now), ms as int) <==> span_since(moment, now) < ms * 1_000_000,
{
}

/// An effect runs from when it was fired until its length is over, and how far
/// into it it is, is how long ago that was.
pub proof fn an_effect_runs_its_length(started: Option<u128>, now: u128, length_ms: u64)
    ensures
        started is None ==> running(started, now, length_ms) is None,
        started matches Some(moment) ==> {
            &&& moment <= now ==> (running(started, now, length_ms) is Some <==> now - moment
                < length_ms * 1_000_000)
            &&& moment <= now ==> (running(started, now, length_ms) matches Some(span) ==> span
                == now - moment)
            &&& now < moment && length_ms > 0 ==> running(started, now, length_ms) == Some(0int)
        },
{
    if length_ms > 0 {
        assert(length_ms * 1_000_000 > 0) by (nonlinear_arith)
            requires
                length_ms > 0,
        ;
    }
}

/// The skyline gives way while a fly-to is in the air and until the hold after
/// its landing is over, and at no other time.
pub proof fn the_skyline_gives_way_to_a_flight(
    flying: bool,
    since_landing: Option<int>,
    hold_ms: u64,
)
    ensures
        flying ==> gives_way(flying, since_landing, hold_ms),
        !flying && since_landing is None ==> !gives_way(flying, since_landing, hold_ms),
        !flying ==> (since_landing matches Some(span) ==> (gives_way(
            flying,
            since_landing,
            hold_ms,
        ) <==> span < hold_ms * 1_000_000)),
{
}

/// A track has ended when it plays, nothing else is being fetched, its queue has
/// run dry and three quarters of a second have passed, and only then.
pub proof fn a_track_ends_when_its_queue_runs_dry(
    transport: Transport,
    since_start: int,
    finished: bool,
)
    ensures
        track_ended(transport, since_start, finished) <==> {
            &&& transport.playing
            &&& !transport.busy
            &&& finished
            &&& since_start > 750_000_000
        },
{
}

/// Every place is on the map, no two are the same, and each is in the country it
/// is named after: the first eight in Japan, and then one each in Italy, in
/// Kosovo, in Kenya south of the equator, and in the Philippines.
pub proof fn the_places_are_where_they_are_said_to_be(index: int, other: int)
    ensures
        place_at(index) is Some <==> 0 <= index < 12,
        place_at(index) matches Some((_, lat, lon)) ==> {
            &&& index < 8 ==> 330000000 < lat < 431000000 && 1300000000 < lon < 1414000000
            &&& index == 8 ==> 437000000 < lat < 438000000 && 112000000 < lon < 113000000
            &&& index == 9 ==> 426000000 < lat < 427000000 && 211000000 < lon < 212000000
            &&& index == 10 ==> -13000000 < lat < -12000000 && 368000000 < lon < 369000000
            &&& index == 11 ==> 146000000 < lat < 147000000 && 1210000000 < lon < 1211000000
        },
        place_at(index) is Some && place_at(other) is Some && index != other ==> {
            &&& (place_at(index)->0).1 != (place_at(other)->0).1
            &&& (place_at(index)->0).2 != (place_at(other)->0).2
        },
{
}

/// The places in Japan, from Tokyo to Shimane, each to the ten-millionth of a
/// degree.
pub open spec fn places_of_japan() -> Seq<(int, int)> {
    seq![
        (356806550, 1397671650),
        (347034131, 1354975879),
        (430686800, 1413507900),
        (343943770, 1324554860),
        (335898988, 1304017509),
        (382601280, 1408835180),
        (349850340, 1357595350),
        (354639680, 1330640080),
    ]
}

/// The other places, from Firenze to Manila.
pub open spec fn places_abroad() -> Seq<(int, int)> {
    seq![
        (437774240, 112486620),
        (426638950, 211635690),
        (-12798030, 368166470),
        (146568750, 1210670190),
    ]
}

/// The list of places is those of Japan and then the others, in order, each
/// under its name.
pub proof fn the_places_are_listed_in_order(index: int)
    requires
        0 <= index < 12,
    ensures
        place_at(index) is Some,
        index < 8 ==> (place_at(index)->0).1 == places_of_japan()[index].0 && (place_at(index)->0).2
            == places_of_japan()[index].1,
        index >= 8 ==> (place_at(index)->0).1 == places_abroad()[index - 8].0 && (place_at(index)->0).2
            == places_abroad()[index - 8].1,
        (place_at(index)->0).0 == seq![
            "Tokyo / Japan"@,
            "Osaka / Japan"@,
            "Sapporo / Japan"@,
            "Hiroshima / Japan"@,
            "Fukuoka / Japan"@,
            "Sendai / Japan"@,
            "Kyoto / Japan"@,
            "Shimane / Japan"@,
            "Firenze / Italy"@,
            "Prishtina / Kosovo"@,
            "Nairobi / Kenya"@,
            "Manila / Philippines"@,
        ][index],
{
}

/// A place is its name and where it is, latitude first.
pub proof fn a_place_is_seen_as_it_is(place: Place)
    ensures
        place.value().0 == place.name@,
        place.value().1 == place.lat,
        place.value().2 == place.lon,
{
}

/// A drop lasts 2.2 seconds from when it is fired and an orbit three, the status
/// line is due every fifth of a second and the rates every second, and the
/// skyline is held for two and a half seconds where nobody says otherwise.
pub proof fn effects_last_as_long_as_they_should(moment: u128, now: u128)
    requires
        moment <= now,
    ensures
        running(Some(moment), now, DROP_LENGTH_MS) is Some <==> now - moment < 2_200_000_000,
        running(Some(moment), now, ORBIT_LENGTH_MS) is Some <==> now - moment < 3_000_000_000,
        within(span_since(moment, now), STATUS_INTERVAL_MS as int) <==> now - moment < 200_000_000,
        within(span_since(moment, now), RATE_WINDOW_MS as int) <==> now - moment < 1_000_000_000,
        gives_way(false, Some(span_since(moment, now)), HOLD_AFTER_FLIGHT_MS) <==> now - moment
            < 2_500_000_000,
{
}

} // verus!
