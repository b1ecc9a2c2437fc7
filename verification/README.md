# OSM Sound Demo

The "dancing buildings" OpenStreetMap visualiser: pick a release from the
Otherman Records catalogue, press play, and the buildings around you rise and
fall with the music.

The application's rules are a library verified with
[Verus](https://github.com/verus-lang/verus), under `src/`. Every function there
carries a contract, and the properties that span functions are public proof
functions beside them.

| Module | What it decides |
| --- | --- |
| `otherman`, `url`, `json` | which pages of the catalogue are asked for, in which order their releases stand, and how a track's address is made requestable |
| `stream` | reading a track while it is still arriving: what a read, a wait and a seek come to, and when the download stops |
| `audio` | the ring of recent frames, counting channels into frames, and which bins of the transform make up a band |
| `gamepad` | what buttons, sticks and triggers mean |
| `locate` | where this machine is, from the environment or from a service |
| `map::camera`, `map::handle` | the camera, the pointer, and what the UI thread tells the render thread |
| `map::engine`, `map::style`, `map::graphics` | what the render thread does next, the building layers and the light, and getting at a graphics device |
| `app` | places, releases, tracks, superseded downloads, effects, and the status line |
| `scalar`, `text` | comparing doubles by their bit patterns, and the little text handling there is |

Doubles are carried as bit patterns: the library compares and clamps them, and
leaves adding and multiplying to its caller.

`app/` is the application round the library: the Slint window, rodio playback,
gilrs input, the HTTP requests, and MapLibre Native on a thread of its own. It
draws through Metal on Apple's platforms and through EGL elsewhere; build with
`--cfg render_backend="vulkan"` for Vulkan, and with the matching feature of
`maplibre-native-ffi`.

`tests/` exercises the library on concrete values.

## Environment

| Variable | Effect |
| --- | --- |
| `MAPLIBRE_STYLE_URL` | The style to open with |
| `MAPLIBRE_FLY_MS` | Fly-to duration in milliseconds |
| `OSM_SOUND_DEMO_WINDOWED` | Open in a window rather than full screen |
| `OSM_SOUND_DEMO_HOME` | `lat,lon` for Locate Me, answering without the network |
| `OSM_SOUND_DEMO_BAND_HOLD_MS` | How long the skyline stays frozen after a fly-to lands |
| `OSM_SOUND_DEMO_FPS` | Print frame rates every second |
| `OSM_SOUND_DEMO_RENDER_SCALE` | Render the map at this fraction of its size on screen |
