[package]
name = "aa_proxy"
version = "0.1.0"
edition = "2021"
publish = false

[dependencies]
backon = "=1.6.0"
bluer = { version = "=0.17.4", features = ["bluetoothd", "l2cap", "rfcomm"] }
clap = { version = "=4.6.7", features = ["derive"] }
config = { version = "=0.15.27", default-features = false, features = ["toml"] }
# Not called here: bluer talks to the system bus through it, and this feature builds
# libdbus along with it, so that none has to be installed.
dbus = { version = "=0.9.12", features = ["vendored"] }
futures = "=0.3.34"
hex = "=0.4.3"
humantime = "=2.4.0"
indexmap = { version = "=2.14.2", features = ["serde"] }
mac_address = "=1.2.1"
netif = "=0.1.6"
protobuf = "=3.7.2"
serde = { version = "=1.0.229", features = ["derive"] }
serde_json = "=1.0.154"
simplelog = { version = "=0.12.2", features = ["ansi_term", "paris"] }
time = { version = "=0.3.55", features = ["macros"] }
tokio = { version = "=1.54.1", features = ["full"] }
toml_edit = "=0.22.27"
wpactrl = "=0.5.1"
zbus = "=5.19.0"
