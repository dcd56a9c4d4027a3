[package]
name = "rusant"
version = "0.1.0"
edition = "2021"
publish = false

[dependencies]
sodiumoxide = "0.2"
glib = "0.16"
gio = "0.16"
gtk4 = "0.5"
libadwaita = "0.2"
gstreamer = "0.19"
gst-plugin-gtk4 = "0.9"
gtk-macros = "0.3"
log = "0.4"
pretty_env_logger = "0.4"
config = "0.13"
open = "3"
serde = { version = "1", features = ["derive"] }
serde_json = "1"
anyhow = "1"
once_cell = "1"

[dev-dependencies]
hex = "0.4"
