[package]
name = "resonant"
version = "0.1.0"
edition = "2021"
publish = false

[dependencies]
anyhow = "=1.0.104"
blake3 = { version = "=1.8.7", features = ["serde"] }
directories = "=6.0.0"
fern = { version = "=0.7.1", features = ["colored"] }
futures-time = "=3.1.0"
humantime = "=2.4.0"
iced = { version = "=0.14.0", default-features = false, features = ["canvas", "svg", "tiny-skia", "x11", "thread-pool"] }
kira = { version = "=0.12.6", default-features = false, features = ["cpal", "mp3", "ogg", "vorbis", "flac", "wav", "pcm"] }
log = "=0.4.35"
num-traits = "=0.2.19"
ordermap = { version = "=0.5.12", features = ["serde"] }
rfd = { version = "=0.17.2", default-features = false, features = ["xdg-portal"] }
rmp-serde = "=1.3.1"
serde = { version = "=1.0.229", features = ["derive"] }
ulid = { version = "=1.2.1", features = ["serde"] }
