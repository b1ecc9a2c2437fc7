[package]
name = "osm-sound-demo"
version = "0.1.0"
edition = "2021"
publish = false

[dependencies]
ash = "0.38"
gilrs = "0.11"
glutin_egl_sys = "0.7"
libloading = "0.8"
maplibre-native-ffi = "*"
objc2 = "0.6"
objc2-metal = { version = "0.3", default-features = false, features = ["std", "MTLDevice"] }
rodio = { version = "0.22", default-features = false, features = ["playback", "symphonia-mp3"] }
rustfft = "6"
serde = { version = "1", features = ["derive"] }
serde_json = "1"
ureq = { version = "3", features = ["json"] }
