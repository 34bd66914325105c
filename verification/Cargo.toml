[package]
name = "euphonica"
version = "0.1.0"
edition = "2021"
publish = false

[dependencies]
ashpd = { version = "=0.13.13", default-features = false, features = ["tokio", "file_chooser"] }
async-channel = "=2.5.0"
asyncified = "=0.7.0"
chrono = { version = "=0.4.45", default-features = false, features = ["std", "alloc", "clock"] }
futures = "0.3"
gtk4 = "=0.11.5"
hsl = "=0.1.1"
image = { version = "=0.25.10", default-features = false, features = ["png", "jpeg"] }
itertools = "=0.14.0"
libadwaita = "=0.9.2"
musicbrainz_rs = { version = "=0.12.0", default-features = false, features = ["blocking"] }
pipewire = "=0.10.1"
quick-xml = "=0.42.0"
reqwest = { version = "=0.12.28", default-features = false, features = ["blocking"] }
ringbuffer = "=0.16.0"
rustc-hash = "=2.1.3"
serde = { version = "1", features = ["derive"] }
serde_json = "=1.0.154"
time = { version = "=0.3.55", features = ["formatting", "macros"] }
tokio = { version = "1", features = ["rt-multi-thread"] }
urlencoding = "=2.1.3"
