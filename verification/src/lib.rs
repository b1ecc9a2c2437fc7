//! The rules of the OpenStreetMap Sound Demo: a map whose buildings rise and
//! fall with the music.
//!
//! Pick a release from a catalogue, press play, and the buildings around you
//! follow the sound. What the application decides is here, with its contracts:
//! reading the catalogue ([`otherman`], [`url`]), playing a track while it still
//! arrives ([`stream`]), the window of sound the bands are read from
//! ([`audio`]), the gamepad ([`gamepad`]), the map's camera and what the render
//! thread does next ([`map`]), and the transport ([`app`]). The window, the
//! devices, the network and all arithmetic on floating-point numbers are the
//! caller's, which hands in what came of them.
use vstd::prelude::*;

pub mod app;
pub mod audio;
pub mod gamepad;
pub mod json;
pub mod locate;
pub mod map;
pub mod otherman;
pub mod scalar;
pub mod stream;
pub mod text;
pub mod url;

verus! {

} // verus!
