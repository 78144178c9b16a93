//! The decisions of a wireless Android Auto proxy, as verified functions.

pub mod address;
pub mod bluetooth;
pub mod clock;
pub mod config;
pub mod config_keys;
pub mod config_schema;
pub mod config_values;
pub mod frame;
pub mod handshake;
pub mod iface_course;
pub mod inspect;
pub mod join_course;
pub mod known_devices;
pub mod main_loop;
pub mod messages;
pub mod mitm_course;
pub mod mitm_session;
pub mod net_text;
pub mod pairing;
pub mod prebootstrap;
pub mod profiles;
pub mod rendezvous;
pub mod route;
pub mod sdp;
pub mod startup;
pub mod task;
pub mod text;
pub mod wifi_iface;
pub mod wifi_join;
pub mod wifi_text;
pub mod wire;
