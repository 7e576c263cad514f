[package]
name = "carechords"
version = "0.1.0"
edition = "2021"
publish = false

[dependencies]
anyhow = "=1.0.104"
async-stream = "0.3"
clap = { version = "4", default-features = false, features = ["std", "derive", "help"] }
config = { version = "0.14", default-features = false, features = ["toml"] }
dbus = "0.9"
dbus-tokio = "0.7"
futures-util = "0.3"
gstreamer = "0.23"
gstreamer-app = "0.23"
gstreamer-rtsp = "0.23"
gstreamer-rtsp-server = "0.23"
hex = "=0.4.3"
librespot-core = "=0.4.2"
librespot-discovery = "=0.4.2"
librespot-metadata = "=0.4.2"
librespot-playback = { version = "=0.4.2", default-features = false }
log = "=0.4.34"
serde = { version = "=1.0.229", features = ["derive"] }
serde_json = "=1.0.154"
sha1 = "=0.10.7"
simple_logger = { version = "5", default-features = false, features = ["colors"] }
tokio = { version = "1", features = ["rt-multi-thread", "macros", "sync", "time", "signal"] }
warp = { version = "0.3", default-features = false }
