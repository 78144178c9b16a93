//! The settings of the proxy, their defaults, and the file that keeps them.

use crate::bluetooth::IDENTITY_NAME;
use crate::config_keys;
use crate::pairing;
use crate::text;
use toml_edit::DocumentMut;
use vstd::prelude::*;

verus! {

pub const BASE_CONFIG_DIR: &'static str = "/etc/aa-proxy-rs";

pub const KNOWN_DEVICES_FILE: &'static str = "/etc/aa-proxy-rs/known_devices";

pub const DEFAULT_WASM_HOOKS_DIR: &'static str = "/data/wasm-hooks";

pub const DEFAULT_CRASH_DIR: &'static str = "/data/aa-proxy-rs/crashes";

pub const DEFAULT_SDR_UI_OVERRIDE_FILE: &'static str = "/etc/aa-proxy-rs/sdr-ui-overrides.toml";

pub const DEFAULT_INJECT_DISPLAYS_FILE: &'static str = "/etc/aa-proxy-rs/inject-displays.toml";

pub const DEFAULT_MAP_ALBUM_ART_FILE: &'static str = "/data/aa-proxy-rs/map-album-art.png";

/// What the user has asked for.
#[derive(Debug, Clone, Copy, PartialEq, Eq, Structural)]
pub enum Action {
    Reconnect,
    Reboot,
    Stop,
}

/// The network that the phone is told of.
pub struct WifiConfig<T = String> {
    pub ip_addr: T,
    pub port: i32,
    pub ssid: T,
    pub bssid: T,
    pub wpa_key: T,
}

impl View for WifiConfig<String> {
    type V = WifiConfig<Seq<char>>;

    open spec fn view(&self) -> WifiConfig<Seq<char>> {
        WifiConfig {
            ip_addr: self.ip_addr@,
            port: self.port,
            ssid: self.ssid@,
            bssid: self.bssid@,
            wpa_key: self.wpa_key@,
        }
    }
}

// ---------------------------------------------------------------------
// Values that may be left out

/// A value as a file has it. Of a number with a fraction, its text.
pub enum Repr<T> {
    Str(T),
    Int(i64),
    Float(T),
}

impl View for Repr<String> {
    type V = Repr<Seq<char>>;

    open spec fn view(&self) -> Repr<Seq<char>> {
        match *self {
            Repr::Str(s) => Repr::Str(s@),
            Repr::Int(i) => Repr::Int(i),
            Repr::Float(s) => Repr::Float(s@),
        }
    }
}

/// The text that stands for a value, if one is given: white space is none.
pub open spec fn given_text(v: Option<Repr<Seq<char>>>) -> Option<Seq<char>> {
    match v {
        None => None,
        Some(Repr::Str(s)) => if text::trimmed(s).len() == 0 {
            None
        } else {
            Some(text::trimmed(s))
        },
        Some(Repr::Int(i)) => Some(pairing::signed_text(i as int)),
        Some(Repr::Float(s)) => Some(s),
    }
}

pub fn empty_string_as_none(v: Option<Repr<String>>) -> (r: Option<String>)
    ensures
        r.deep_view() == given_text(
            match v {
                Some(x) => Some(x@),
                None => None,
            },
        ),
{
    match v {
        None => None,
        Some(Repr::Str(s)) => {
            let t = text::trim(s.as_str());
            if t.is_empty() {
                None
            } else {
                Some(t.to_owned())
            }
        },
        Some(Repr::Int(i)) => Some(pairing::show_signed(i)),
        Some(Repr::Float(s)) => Some(s),
    }
}

// ---------------------------------------------------------------------
// Choices

/// Which audio is taken over to the call channel.
#[derive(Debug, Clone, Copy, PartialEq, Eq, Structural)]
pub enum BtScoMediaBridgeAudioType {
    Guidance,
    Media,
    Auto,
}

impl Default for BtScoMediaBridgeAudioType {
    fn default() -> (r: Self)
        ensures
            r == BtScoMediaBridgeAudioType::Guidance,
    {
        BtScoMediaBridgeAudioType::Guidance
    }
}

impl BtScoMediaBridgeAudioType {
    /// The word for it in the configuration.
    pub open spec fn label(self) -> Seq<char> {
        match self {
            BtScoMediaBridgeAudioType::Guidance => "guidance"@,
            BtScoMediaBridgeAudioType::Media => "media"@,
            BtScoMediaBridgeAudioType::Auto => "auto"@,
        }
    }

    pub fn as_str(self) -> (r: &'static str)
        ensures
            r@ == self.label(),
    {
        match self {
            BtScoMediaBridgeAudioType::Guidance => "guidance",
            BtScoMediaBridgeAudioType::Media => "media",
            BtScoMediaBridgeAudioType::Auto => "auto",
        }
    }
}

/// How loud audio is limited.
#[derive(Debug, Clone, Copy, PartialEq, Eq, Structural)]
pub enum BtScoMediaBridgeLimiter {
    Off,
    Hard,
    Soft,
}

impl Default for BtScoMediaBridgeLimiter {
    fn default() -> (r: Self)
        ensures
            r == BtScoMediaBridgeLimiter::Off,
    {
        BtScoMediaBridgeLimiter::Off
    }
}

impl BtScoMediaBridgeLimiter {
    /// The word for it in the configuration.
    pub open spec fn label(self) -> Seq<char> {
        match self {
            BtScoMediaBridgeLimiter::Off => "off"@,
            BtScoMediaBridgeLimiter::Hard => "hard"@,
            BtScoMediaBridgeLimiter::Soft => "soft"@,
        }
    }

    pub fn as_str(self) -> (r: &'static str)
        ensures
            r@ == self.label(),
    {
        match self {
            BtScoMediaBridgeLimiter::Off => "off",
            BtScoMediaBridgeLimiter::Hard => "hard",
            BtScoMediaBridgeLimiter::Soft => "soft",
        }
    }
}

impl BtScoMediaBridgeLimiter {
    /// A number that stands for none is off.
    pub open spec fn of_number(value: u8) -> Self {
        if value == 1 {
            BtScoMediaBridgeLimiter::Hard
        } else if value == 2 {
            BtScoMediaBridgeLimiter::Soft
        } else {
            BtScoMediaBridgeLimiter::Off
        }
    }

    pub open spec fn number(self) -> u8 {
        match self {
            BtScoMediaBridgeLimiter::Off => 0,
            BtScoMediaBridgeLimiter::Hard => 1,
            BtScoMediaBridgeLimiter::Soft => 2,
        }
    }

    pub fn from_u8(value: u8) -> (r: Self)
        ensures
            r == BtScoMediaBridgeLimiter::of_number(value),
    {
        match value {
            1 => BtScoMediaBridgeLimiter::Hard,
            2 => BtScoMediaBridgeLimiter::Soft,
            _ => BtScoMediaBridgeLimiter::Off,
        }
    }

    pub fn as_u8(self) -> (r: u8)
        ensures
            r == self.number(),
    {
        match self {
            BtScoMediaBridgeLimiter::Off => 0,
            BtScoMediaBridgeLimiter::Hard => 1,
            BtScoMediaBridgeLimiter::Soft => 2,
        }
    }
}

/// A limiter is found again by its number.
pub proof fn law_limiter_number_round_trip(limiter: BtScoMediaBridgeLimiter)
    ensures
        BtScoMediaBridgeLimiter::of_number(limiter.number()) == limiter,
{
}

/// How audio is brought to the rate of the call channel.
#[derive(Debug, Clone, Copy, PartialEq, Eq, Structural)]
pub enum BtScoMediaBridgeResampler {
    Repeat,
    Linear,
}

impl Default for BtScoMediaBridgeResampler {
    fn default() -> (r: Self)
        ensures
            r == BtScoMediaBridgeResampler::Repeat,
    {
        BtScoMediaBridgeResampler::Repeat
    }
}

impl BtScoMediaBridgeResampler {
    /// The word for it in the configuration.
    pub open spec fn label(self) -> Seq<char> {
        match self {
            BtScoMediaBridgeResampler::Repeat => "repeat"@,
            BtScoMediaBridgeResampler::Linear => "linear"@,
        }
    }

    pub fn as_str(self) -> (r: &'static str)
        ensures
            r@ == self.label(),
    {
        match self {
            BtScoMediaBridgeResampler::Repeat => "repeat",
            BtScoMediaBridgeResampler::Linear => "linear",
        }
    }
}

/// How the microphone is kept from hearing the speakers.
#[derive(Debug, Clone, Copy, PartialEq, Eq, Structural)]
pub enum BtScoMicEchoControl {
    Off,
    Ducking,
}

impl Default for BtScoMicEchoControl {
    fn default() -> (r: Self)
        ensures
            r == BtScoMicEchoControl::Off,
    {
        BtScoMicEchoControl::Off
    }
}

impl BtScoMicEchoControl {
    /// The word for it in the configuration.
    pub open spec fn label(self) -> Seq<char> {
        match self {
            BtScoMicEchoControl::Off => "off"@,
            BtScoMicEchoControl::Ducking => "ducking"@,
        }
    }

    pub fn as_str(self) -> (r: &'static str)
        ensures
            r@ == self.label(),
    {
        match self {
            BtScoMicEchoControl::Off => "off",
            BtScoMicEchoControl::Ducking => "ducking",
        }
    }
}

// ---------------------------------------------------------------------
// What the Wi-Fi device can do

/// Whether a line of the device's description holds a pattern.
pub open spec fn some_line_holds(iw: Seq<char>, pattern: Seq<char>) -> bool {
    exists|i: int|
        0 <= i < text::lines_of(iw).len() && text::holds(
            #[trigger] text::lines_of(iw)[i],
            pattern,
        )
}

pub fn filter_iw_list_cached(iw_output: &str, pattern: &str) -> (r: bool)
    ensures
        r == some_line_holds(iw_output@, pattern@),
{
    let lines = text::lines(iw_output);
    for i in 0..lines.len()
        invariant
            lines.deep_view() == text::lines_of(iw_output@),
            forall|j: int|
                0 <= j < i ==> !text::holds(#[trigger] text::lines_of(iw_output@)[j], pattern@),
    {
        assert(lines.deep_view()[i as int] == lines@[i as int]@);
        if text::contains(lines[i].as_str(), pattern) {
            return true;
        }
    }
    false
}

pub open spec fn supports_5ghz(iw: Seq<char>) -> bool {
    some_line_holds(iw, "5180.0 MHz"@)
}

pub fn supports_5ghz_wifi_cached(iw_output: &str) -> (r: bool)
    ensures
        r == supports_5ghz(iw_output@),
{
    filter_iw_list_cached(iw_output, "5180.0 MHz")
}

/// The newest generation of Wi-Fi that the device knows, as far as its
/// description shows.
pub open spec fn latest_wifi_version(iw: Seq<char>) -> Option<u16> {
    if some_line_holds(iw, "HE PHY Capabilities"@) {
        Some(6)
    } else if some_line_holds(iw, "VHT Capabilities"@) {
        Some(5)
    } else if some_line_holds(iw, " HT Capabilities"@) || some_line_holds(iw, "HT20"@)
        || some_line_holds(iw, "HT TX/RX MCS"@) {
        Some(4)
    } else if some_line_holds(iw, "54.0 Mbps"@) {
        Some(3)
    } else if supports_5ghz(iw) {
        Some(2)
    } else if some_line_holds(iw, "11.0 Mbps"@) {
        Some(1)
    } else {
        None
    }
}

/// A device whose description shows all that another's does is not taken for an
/// older one.
pub proof fn law_more_capabilities_never_lower_the_version(less: Seq<char>, more: Seq<char>)
    requires
        forall|pattern: Seq<char>| #[trigger]
            some_line_holds(less, pattern) ==> some_line_holds(more, pattern),
    ensures
        latest_wifi_version(less) matches Some(v) ==> (latest_wifi_version(more) matches Some(w)
            && w >= v),
{
}

pub fn get_latest_wifi_version_from(iw_output: &str) -> (r: Result<u16, String>)
    ensures
        match r {
            Ok(v) => latest_wifi_version(iw_output@) == Some(v),
            Err(e) => latest_wifi_version(iw_output@) is None && e@
                == "Device does not support anything newer than 802.11-1997?!?!"@,
        },
{
    if filter_iw_list_cached(iw_output, "HE PHY Capabilities") {
        Ok(6)
    } else if filter_iw_list_cached(iw_output, "VHT Capabilities") {
        Ok(5)
    } else if filter_iw_list_cached(iw_output, " HT Capabilities") || filter_iw_list_cached(
        iw_output,
        "HT20",
    ) || filter_iw_list_cached(iw_output, "HT TX/RX MCS") {
        Ok(4)
    } else if filter_iw_list_cached(iw_output, "54.0 Mbps") {
        Ok(3)
    } else if supports_5ghz_wifi_cached(iw_output) {
        Ok(2)
    } else if filter_iw_list_cached(iw_output, "11.0 Mbps") {
        Ok(1)
    } else {
        Err("Device does not support anything newer than 802.11-1997?!?!".to_owned())
    }
}

// ---------------------------------------------------------------------
// The settings

/// The settings. Paths, lists and other values that are kept as one text stand
/// here as that text.
pub struct AppConfig<T = String> {
    pub advertise: bool,
    pub enable_companion_bt: bool,
    pub companion_bt_auth_required: bool,
    pub companion_bt_auth_token: T,
    pub dongle_mode: bool,
    pub preload_kernel_modules: T,
    pub kernel_module_path: T,
    pub bt_wireless_proxy: bool,
    pub bt_wireless_proxy_mode: T,
    pub bt_wireless_proxy_hu_mac: T,
    pub bt_wireless_proxy_pairing_window_secs: u64,
    pub bt_wireless_proxy_phone_like_pairing: bool,
    pub bt_wireless_proxy_phone_like_pairing_alias: T,
    pub bt_wireless_proxy_phone_like_pairing_class: T,
    pub bt_wireless_proxy_phone_like_sdp_profiles: bool,
    pub bt_wireless_proxy_phone_like_sdp_profile_set: T,
    pub bt_wireless_proxy_rendezvous_mode: T,
    pub bt_wireless_proxy_hu_first_wait_phone_secs: u64,
    pub bt_wireless_proxy_hu_channel: Option<u8>,
    pub bt_wireless_proxy_tcp_probe: bool,
    pub bt_wireless_proxy_car_wifi_base_iface: T,
    pub bt_wireless_proxy_car_wifi_join_cmd: T,
    pub bt_wireless_proxy_car_wifi_auto_join: bool,
    pub bt_wireless_proxy_wifi_join_control: T,
    pub bt_wireless_proxy_wpactrl_socket_timeout_secs: u64,
    pub bt_wireless_proxy_wifi_association_timeout_secs: u64,
    pub bt_wireless_proxy_dhcp_timeout_secs: u64,
    pub bt_wireless_proxy_car_wifi_keep_ap: bool,
    pub bt_wireless_proxy_car_wifi_sta_iface: T,
    pub bt_wireless_proxy_car_wifi_sta_phy: T,
    pub bt_wireless_proxy_car_wifi_ap_iface: T,
    pub bt_wireless_proxy_phone_wifi_mode: T,
    pub bt_wireless_proxy_rewrite_ip: T,
    pub bt_wireless_proxy_listen_port: u16,
    pub bt_wireless_proxy_use_version_projection_fallback: bool,
    pub bt_wireless_proxy_wpp_keepalive: bool,
    pub bt_wireless_proxy_wpp_keepalive_interval_ms: u64,
    pub debug: bool,
    pub pkt_debug: bool,
    pub hexdump_level: T,
    pub disable_console_debug: bool,
    pub pkt_debug_filter_enabled: bool,
    pub pkt_debug_filter_proxy: T,
    pub pkt_debug_filter_stages: T,
    pub pkt_debug_filter_service_kinds: T,
    pub pkt_debug_filter_channels: T,
    pub pkt_debug_filter_exclude_channels: T,
    pub pkt_debug_filter_message_ids: T,
    pub pkt_debug_filter_exclude_message_ids: T,
    pub pkt_debug_filter_pretty_proto: bool,
    pub pkt_debug_filter_max_payload_bytes: usize,
    pub pkt_debug_full_frame_enabled: bool,
    pub legacy: bool,
    pub usb_gadget_require_accessory_start: bool,
    pub usb_gadget_rearm_on_disconnect: bool,
    pub usb_gadget_rearm_cooldown_ms: u64,
    pub quick_reconnect: bool,
    pub bt_poweroff: bool,
    pub connect: T,
    pub logfile: T,
    pub crash_handler_enabled: bool,
    pub crash_dir: T,
    pub sdr_ui_override_enabled: bool,
    pub sdr_ui_override_autocreate_profiles: bool,
    pub sdr_ui_override_file: T,
    pub inject_displays_file: T,
    pub stats_interval: u16,
    pub udc: Option<T>,
    pub iface: T,
    pub wlan_subnet: T,
    pub btalias: Option<T>,
    pub timeout_secs: u16,
    pub webserver: Option<T>,
    pub bt_timeout_secs: u16,
    pub mitm: bool,
    pub dpi: u16,
    pub audio_max_unacked: u8,
    pub add_vendor_channel: bool,
    pub remove_tap_restriction: bool,
    pub video_in_motion: bool,
    pub disable_media_sink: bool,
    pub disable_tts_sink: bool,
    pub developer_mode: bool,
    pub wired: Option<T>,
    pub dhu: bool,
    pub aa_server_tcp_addr: T,
    pub ev: bool,
    pub odometer: bool,
    pub tire_pressure: bool,
    pub remove_bluetooth: bool,
    pub bt_real_hu_passthrough_enabled: bool,
    pub bt_real_hu_passthrough_address: T,
    pub bt_a2dp_sink_enabled: bool,
    pub remove_wifi: bool,
    pub inject_display_types: T,
    pub inject_add_input_sources: bool,
    pub inject_cluster_display_id: u16,
    pub inject_cluster_width_margin: u16,
    pub inject_cluster_height_margin: u16,
    pub inject_cluster_density: u16,
    pub inject_cluster_viewing_distance: u16,
    pub inject_cluster_codec_resolution: T,
    pub inject_cluster_touch_width: u16,
    pub inject_cluster_touch_height: u16,
    pub inject_aux_display_id: u16,
    pub inject_aux_width_margin: u16,
    pub inject_aux_height_margin: u16,
    pub inject_aux_density: u16,
    pub inject_aux_viewing_distance: u16,
    pub inject_aux_touch_width: u16,
    pub inject_aux_touch_height: u16,
    pub inject_force_focus_without_tap: bool,
    pub change_usb_order: bool,
    pub stop_on_disconnect: bool,
    pub waze_lht_workaround: bool,
    pub ev_battery_logger: Option<T>,
    pub ev_connector_types: T,
    pub enable_ssh: bool,
    pub usb_serial_console: bool,
    pub wifi_version: u16,
    pub band: T,
    pub country_code: T,
    pub channel: u8,
    pub ssid: T,
    pub wpa_passphrase: T,
    pub eth_mode: T,
    pub startup_delay: u8,
    pub protocol_version_override_enabled: bool,
    pub protocol_version_override_major: u16,
    pub protocol_version_override_minor: u16,
    pub external_antenna: bool,
    pub media_dump_base_port: Option<u16>,
    pub media_wait_for_live_idr: bool,
    pub map_album_art_enabled: bool,
    pub map_album_art_source: T,
    pub map_album_art_file: T,
    pub map_album_art_max_bytes: usize,
    pub map_album_art_chunk_bytes: usize,
    pub map_album_art_video_display_id: T,
    pub map_album_art_capture_interval_ms: u64,
    pub map_album_art_output_size_px: u32,
    pub map_album_art_crop_enabled: bool,
    pub map_album_art_crop_mode: T,
    pub map_album_art_crop_x: u32,
    pub map_album_art_crop_y: u32,
    pub map_album_art_crop_w: u32,
    pub map_album_art_crop_h: u32,
    pub map_album_art_duration_tick_enabled: bool,
    pub map_album_art_ev_text_mode: T,
    pub map_album_art_ev_prefix_max_age_ms: u64,
    pub vehicle_energy_forecast_keep_last_on_null: bool,
    pub collect_speed: bool,
    pub disable_driving_status: bool,
    pub hu_button_handler: Option<T>,
    pub bt_sco: bool,
    pub bt_sco_keep_bluetooth_alive: bool,
    pub bt_sco_media_bridge: bool,
    pub bt_sco_media_bridge_audio_type: BtScoMediaBridgeAudioType,
    pub bt_sco_media_bridge_gain_percent: u32,
    pub bt_sco_media_bridge_limiter: BtScoMediaBridgeLimiter,
    pub bt_sco_media_bridge_resampler: BtScoMediaBridgeResampler,
    pub bt_sco_media_bridge_ring_capacity: usize,
    pub bt_sco_media_bridge_start_existing: bool,
    pub bt_sco_media_bridge_start_on_first_audio: bool,
    pub bt_sco_media_bridge_audio_peak_threshold: u32,
    pub bt_sco_media_bridge_start_timeout_ms: u32,
    pub bt_sco_media_bridge_stop_existing_on_disconnect: bool,
    pub bt_sco_media_bridge_fixed_cadence: bool,
    pub bt_sco_media_bridge_cadence_ms: u32,
    pub bt_sco_media_bridge_jitter_buffer_ms: u32,
    pub bt_sco_mic_bridge: bool,
    pub bt_sco_mic_request: bool,
    pub bt_sco_mic_uplink_ring_capacity: usize,
    pub bt_sco_mic_echo_control: BtScoMicEchoControl,
    pub bt_sco_mic_gain_percent: u32,
    pub bt_sco_mic_duck_threshold: i16,
    pub bt_sco_mic_duck_percent: u32,
    pub bt_sco_mic_duck_hold_ms: u32,
    pub wasm_hooks_dir: T,
    pub wasm_script_memory_limit_mb: u32,
    pub wasm_script_instance_limit: u32,
    pub wasm_script_memory_count_limit: u32,
    pub wasm_script_table_limit: u32,
    pub wasm_script_table_elements_limit: u32,
    pub wasm_script_packet_epoch_deadline: u64,
    pub wasm_script_lifecycle_epoch_deadline: u64,
    pub action_requested: Option<Action>,
    pub runtime_mitm_failed: bool,
}

pub type ConfigModel = AppConfig<Seq<char>>;

impl View for AppConfig<String> {
    type V = AppConfig<Seq<char>>;

    open spec fn view(&self) -> AppConfig<Seq<char>> {
        AppConfig {
            advertise: self.advertise,
            enable_companion_bt: self.enable_companion_bt,
            companion_bt_auth_required: self.companion_bt_auth_required,
            companion_bt_auth_token: self.companion_bt_auth_token@,
            dongle_mode: self.dongle_mode,
            preload_kernel_modules: self.preload_kernel_modules@,
            kernel_module_path: self.kernel_module_path@,
            bt_wireless_proxy: self.bt_wireless_proxy,
            bt_wireless_proxy_mode: self.bt_wireless_proxy_mode@,
            bt_wireless_proxy_hu_mac: self.bt_wireless_proxy_hu_mac@,
            bt_wireless_proxy_pairing_window_secs: self.bt_wireless_proxy_pairing_window_secs,
            bt_wireless_proxy_phone_like_pairing: self.bt_wireless_proxy_phone_like_pairing,
            bt_wireless_proxy_phone_like_pairing_alias: self.bt_wireless_proxy_phone_like_pairing_alias@,
            bt_wireless_proxy_phone_like_pairing_class: self.bt_wireless_proxy_phone_like_pairing_class@,
            bt_wireless_proxy_phone_like_sdp_profiles: self.bt_wireless_proxy_phone_like_sdp_profiles,
            bt_wireless_proxy_phone_like_sdp_profile_set: self.bt_wireless_proxy_phone_like_sdp_profile_set@,
            bt_wireless_proxy_rendezvous_mode: self.bt_wireless_proxy_rendezvous_mode@,
            bt_wireless_proxy_hu_first_wait_phone_secs: self.bt_wireless_proxy_hu_first_wait_phone_secs,
            bt_wireless_proxy_hu_channel: self.bt_wireless_proxy_hu_channel,
            bt_wireless_proxy_tcp_probe: self.bt_wireless_proxy_tcp_probe,
            bt_wireless_proxy_car_wifi_base_iface: self.bt_wireless_proxy_car_wifi_base_iface@,
            bt_wireless_proxy_car_wifi_join_cmd: self.bt_wireless_proxy_car_wifi_join_cmd@,
            bt_wireless_proxy_car_wifi_auto_join: self.bt_wireless_proxy_car_wifi_auto_join,
            bt_wireless_proxy_wifi_join_control: self.bt_wireless_proxy_wifi_join_control@,
            bt_wireless_proxy_wpactrl_socket_timeout_secs: self.bt_wireless_proxy_wpactrl_socket_timeout_secs,
            bt_wireless_proxy_wifi_association_timeout_secs: self.bt_wireless_proxy_wifi_association_timeout_secs,
            bt_wireless_proxy_dhcp_timeout_secs: self.bt_wireless_proxy_dhcp_timeout_secs,
            bt_wireless_proxy_car_wifi_keep_ap: self.bt_wireless_proxy_car_wifi_keep_ap,
            bt_wireless_proxy_car_wifi_sta_iface: self.bt_wireless_proxy_car_wifi_sta_iface@,
            bt_wireless_proxy_car_wifi_sta_phy: self.bt_wireless_proxy_car_wifi_sta_phy@,
            bt_wireless_proxy_car_wifi_ap_iface: self.bt_wireless_proxy_car_wifi_ap_iface@,
            bt_wireless_proxy_phone_wifi_mode: self.bt_wireless_proxy_phone_wifi_mode@,
            bt_wireless_proxy_rewrite_ip: self.bt_wireless_proxy_rewrite_ip@,
            bt_wireless_proxy_listen_port: self.bt_wireless_proxy_listen_port,
            bt_wireless_proxy_use_version_projection_fallback: self.bt_wireless_proxy_use_version_projection_fallback,
            bt_wireless_proxy_wpp_keepalive: self.bt_wireless_proxy_wpp_keepalive,
            bt_wireless_proxy_wpp_keepalive_interval_ms: self.bt_wireless_proxy_wpp_keepalive_interval_ms,
            debug: self.debug,
            pkt_debug: self.pkt_debug,
            hexdump_level: self.hexdump_level@,
            disable_console_debug: self.disable_console_debug,
            pkt_debug_filter_enabled: self.pkt_debug_filter_enabled,
            pkt_debug_filter_proxy: self.pkt_debug_filter_proxy@,
            pkt_debug_filter_stages: self.pkt_debug_filter_stages@,
            pkt_debug_filter_service_kinds: self.pkt_debug_filter_service_kinds@,
            pkt_debug_filter_channels: self.pkt_debug_filter_channels@,
            pkt_debug_filter_exclude_channels: self.pkt_debug_filter_exclude_channels@,
            pkt_debug_filter_message_ids: self.pkt_debug_filter_message_ids@,
            pkt_debug_filter_exclude_message_ids: self.pkt_debug_filter_exclude_message_ids@,
            pkt_debug_filter_pretty_proto: self.pkt_debug_filter_pretty_proto,
            pkt_debug_filter_max_payload_bytes: self.pkt_debug_filter_max_payload_bytes,
            pkt_debug_full_frame_enabled: self.pkt_debug_full_frame_enabled,
            legacy: self.legacy,
            usb_gadget_require_accessory_start: self.usb_gadget_require_accessory_start,
            usb_gadget_rearm_on_disconnect: self.usb_gadget_rearm_on_disconnect,
            usb_gadget_rearm_cooldown_ms: self.usb_gadget_rearm_cooldown_ms,
            quick_reconnect: self.quick_reconnect,
            bt_poweroff: self.bt_poweroff,
            connect: self.connect@,
            logfile: self.logfile@,
            crash_handler_enabled: self.crash_handler_enabled,
            crash_dir: self.crash_dir@,
            sdr_ui_override_enabled: self.sdr_ui_override_enabled,
            sdr_ui_override_autocreate_profiles: self.sdr_ui_override_autocreate_profiles,
            sdr_ui_override_file: self.sdr_ui_override_file@,
            inject_displays_file: self.inject_displays_file@,
            stats_interval: self.stats_interval,
            udc: self.udc.deep_view(),
            iface: self.iface@,
            wlan_subnet: self.wlan_subnet@,
            btalias: self.btalias.deep_view(),
            timeout_secs: self.timeout_secs,
            webserver: self.webserver.deep_view(),
            bt_timeout_secs: self.bt_timeout_secs,
            mitm: self.mitm,
            dpi: self.dpi,
            audio_max_unacked: self.audio_max_unacked,
            add_vendor_channel: self.add_vendor_channel,
            remove_tap_restriction: self.remove_tap_restriction,
            video_in_motion: self.video_in_motion,
            disable_media_sink: self.disable_media_sink,
            disable_tts_sink: self.disable_tts_sink,
            developer_mode: self.developer_mode,
            wired: self.wired.deep_view(),
            dhu: self.dhu,
            aa_server_tcp_addr: self.aa_server_tcp_addr@,
            ev: self.ev,
            odometer: self.odometer,
            tire_pressure: self.tire_pressure,
            remove_bluetooth: self.remove_bluetooth,
            bt_real_hu_passthrough_enabled: self.bt_real_hu_passthrough_enabled,
            bt_real_hu_passthrough_address: self.bt_real_hu_passthrough_address@,
            bt_a2dp_sink_enabled: self.bt_a2dp_sink_enabled,
            remove_wifi: self.remove_wifi,
            inject_display_types: self.inject_display_types@,
            inject_add_input_sources: self.inject_add_input_sources,
            inject_cluster_display_id: self.inject_cluster_display_id,
            inject_cluster_width_margin: self.inject_cluster_width_margin,
            inject_cluster_height_margin: self.inject_cluster_height_margin,
            inject_cluster_density: self.inject_cluster_density,
            inject_cluster_viewing_distance: self.inject_cluster_viewing_distance,
            inject_cluster_codec_resolution: self.inject_cluster_codec_resolution@,
            inject_cluster_touch_width: self.inject_cluster_touch_width,
            inject_cluster_touch_height: self.inject_cluster_touch_height,
            inject_aux_display_id: self.inject_aux_display_id,
            inject_aux_width_margin: self.inject_aux_width_margin,
            inject_aux_height_margin: self.inject_aux_height_margin,
            inject_aux_density: self.inject_aux_density,
            inject_aux_viewing_distance: self.inject_aux_viewing_distance,
            inject_aux_touch_width: self.inject_aux_touch_width,
            inject_aux_touch_height: self.inject_aux_touch_height,
            inject_force_focus_without_tap: self.inject_force_focus_without_tap,
            change_usb_order: self.change_usb_order,
            stop_on_disconnect: self.stop_on_disconnect,
            waze_lht_workaround: self.waze_lht_workaround,
            ev_battery_logger: self.ev_battery_logger.deep_view(),
            ev_connector_types: self.ev_connector_types@,
            enable_ssh: self.enable_ssh,
            usb_serial_console: self.usb_serial_console,
            wifi_version: self.wifi_version,
            band: self.band@,
            country_code: self.country_code@,
            channel: self.channel,
            ssid: self.ssid@,
            wpa_passphrase: self.wpa_passphrase@,
            eth_mode: self.eth_mode@,
            startup_delay: self.startup_delay,
            protocol_version_override_enabled: self.protocol_version_override_enabled,
            protocol_version_override_major: self.protocol_version_override_major,
            protocol_version_override_minor: self.protocol_version_override_minor,
            external_antenna: self.external_antenna,
            media_dump_base_port: self.media_dump_base_port,
            media_wait_for_live_idr: self.media_wait_for_live_idr,
            map_album_art_enabled: self.map_album_art_enabled,
            map_album_art_source: self.map_album_art_source@,
            map_album_art_file: self.map_album_art_file@,
            map_album_art_max_bytes: self.map_album_art_max_bytes,
            map_album_art_chunk_bytes: self.map_album_art_chunk_bytes,
            map_album_art_video_display_id: self.map_album_art_video_display_id@,
            map_album_art_capture_interval_ms: self.map_album_art_capture_interval_ms,
            map_album_art_output_size_px: self.map_album_art_output_size_px,
            map_album_art_crop_enabled: self.map_album_art_crop_enabled,
            map_album_art_crop_mode: self.map_album_art_crop_mode@,
            map_album_art_crop_x: self.map_album_art_crop_x,
            map_album_art_crop_y: self.map_album_art_crop_y,
            map_album_art_crop_w: self.map_album_art_crop_w,
            map_album_art_crop_h: self.map_album_art_crop_h,
            map_album_art_duration_tick_enabled: self.map_album_art_duration_tick_enabled,
            map_album_art_ev_text_mode: self.map_album_art_ev_text_mode@,
            map_album_art_ev_prefix_max_age_ms: self.map_album_art_ev_prefix_max_age_ms,
            vehicle_energy_forecast_keep_last_on_null: self.vehicle_energy_forecast_keep_last_on_null,
            collect_speed: self.collect_speed,
            disable_driving_status: self.disable_driving_status,
            hu_button_handler: self.hu_button_handler.deep_view(),
            bt_sco: self.bt_sco,
            bt_sco_keep_bluetooth_alive: self.bt_sco_keep_bluetooth_alive,
            bt_sco_media_bridge: self.bt_sco_media_bridge,
            bt_sco_media_bridge_audio_type: self.bt_sco_media_bridge_audio_type,
            bt_sco_media_bridge_gain_percent: self.bt_sco_media_bridge_gain_percent,
            bt_sco_media_bridge_limiter: self.bt_sco_media_bridge_limiter,
            bt_sco_media_bridge_resampler: self.bt_sco_media_bridge_resampler,
            bt_sco_media_bridge_ring_capacity: self.bt_sco_media_bridge_ring_capacity,
            bt_sco_media_bridge_start_existing: self.bt_sco_media_bridge_start_existing,
            bt_sco_media_bridge_start_on_first_audio: self.bt_sco_media_bridge_start_on_first_audio,
            bt_sco_media_bridge_audio_peak_threshold: self.bt_sco_media_bridge_audio_peak_threshold,
            bt_sco_media_bridge_start_timeout_ms: self.bt_sco_media_bridge_start_timeout_ms,
            bt_sco_media_bridge_stop_existing_on_disconnect: self.bt_sco_media_bridge_stop_existing_on_disconnect,
            bt_sco_media_bridge_fixed_cadence: self.bt_sco_media_bridge_fixed_cadence,
            bt_sco_media_bridge_cadence_ms: self.bt_sco_media_bridge_cadence_ms,
            bt_sco_media_bridge_jitter_buffer_ms: self.bt_sco_media_bridge_jitter_buffer_ms,
            bt_sco_mic_bridge: self.bt_sco_mic_bridge,
            bt_sco_mic_request: self.bt_sco_mic_request,
            bt_sco_mic_uplink_ring_capacity: self.bt_sco_mic_uplink_ring_capacity,
            bt_sco_mic_echo_control: self.bt_sco_mic_echo_control,
            bt_sco_mic_gain_percent: self.bt_sco_mic_gain_percent,
            bt_sco_mic_duck_threshold: self.bt_sco_mic_duck_threshold,
            bt_sco_mic_duck_percent: self.bt_sco_mic_duck_percent,
            bt_sco_mic_duck_hold_ms: self.bt_sco_mic_duck_hold_ms,
            wasm_hooks_dir: self.wasm_hooks_dir@,
            wasm_script_memory_limit_mb: self.wasm_script_memory_limit_mb,
            wasm_script_instance_limit: self.wasm_script_instance_limit,
            wasm_script_memory_count_limit: self.wasm_script_memory_count_limit,
            wasm_script_table_limit: self.wasm_script_table_limit,
            wasm_script_table_elements_limit: self.wasm_script_table_elements_limit,
            wasm_script_packet_epoch_deadline: self.wasm_script_packet_epoch_deadline,
            wasm_script_lifecycle_epoch_deadline: self.wasm_script_lifecycle_epoch_deadline,
            action_requested: self.action_requested,
            runtime_mitm_failed: self.runtime_mitm_failed,
        }
    }
}

/// The defaults of settings that are defined elsewhere.
pub struct GivenDefaults<T = String> {
    pub connect: T,
    pub inject_display_types: T,
    pub inject_cluster_codec_resolution: T,
    pub ev_connector_types: T,
}

impl View for GivenDefaults<String> {
    type V = GivenDefaults<Seq<char>>;

    open spec fn view(&self) -> GivenDefaults<Seq<char>> {
        GivenDefaults {
            connect: self.connect@,
            inject_display_types: self.inject_display_types@,
            inject_cluster_codec_resolution: self.inject_cluster_codec_resolution@,
            ev_connector_types: self.ev_connector_types@,
        }
    }
}

/// The settings of a proxy that nobody has set up. The generation, the band and
/// the channel of the network are the best that the device offers.
pub open spec fn default_config(iw: Seq<char>, given: GivenDefaults<Seq<char>>) -> ConfigModel {
    AppConfig {
        advertise: true,
        enable_companion_bt: true,
        companion_bt_auth_required: true,
        companion_bt_auth_token: Seq::empty(),
        dongle_mode: false,
        preload_kernel_modules: Seq::empty(),
        kernel_module_path: "/data/aa-proxy-rs/firmware"@,
        bt_wireless_proxy: false,
        bt_wireless_proxy_mode: "car-wifi-mitm"@,
        bt_wireless_proxy_hu_mac: Seq::empty(),
        bt_wireless_proxy_pairing_window_secs: 120,
        bt_wireless_proxy_phone_like_pairing: false,
        bt_wireless_proxy_phone_like_pairing_alias: "AndroidAuto"@,
        bt_wireless_proxy_phone_like_pairing_class: "0x00020C"@,
        bt_wireless_proxy_phone_like_sdp_profiles: false,
        bt_wireless_proxy_phone_like_sdp_profile_set: "minimal"@,
        bt_wireless_proxy_rendezvous_mode: "auto"@,
        bt_wireless_proxy_hu_first_wait_phone_secs: 30,
        bt_wireless_proxy_hu_channel: None,
        bt_wireless_proxy_tcp_probe: true,
        bt_wireless_proxy_car_wifi_base_iface: "wlan0"@,
        bt_wireless_proxy_car_wifi_join_cmd: Seq::empty(),
        bt_wireless_proxy_car_wifi_auto_join: false,
        bt_wireless_proxy_wifi_join_control: "auto"@,
        bt_wireless_proxy_wpactrl_socket_timeout_secs: 12,
        bt_wireless_proxy_wifi_association_timeout_secs: 30,
        bt_wireless_proxy_dhcp_timeout_secs: 30,
        bt_wireless_proxy_car_wifi_keep_ap: false,
        bt_wireless_proxy_car_wifi_sta_iface: Seq::empty(),
        bt_wireless_proxy_car_wifi_sta_phy: Seq::empty(),
        bt_wireless_proxy_car_wifi_ap_iface: Seq::empty(),
        bt_wireless_proxy_phone_wifi_mode: "car_ap"@,
        bt_wireless_proxy_rewrite_ip: Seq::empty(),
        bt_wireless_proxy_listen_port: 5288,
        bt_wireless_proxy_use_version_projection_fallback: true,
        bt_wireless_proxy_wpp_keepalive: false,
        bt_wireless_proxy_wpp_keepalive_interval_ms: 2000,
        debug: false,
        pkt_debug: false,
        hexdump_level: "Disabled"@,
        disable_console_debug: false,
        pkt_debug_filter_enabled: false,
        pkt_debug_filter_proxy: "both"@,
        pkt_debug_filter_stages: Seq::empty(),
        pkt_debug_filter_service_kinds: Seq::empty(),
        pkt_debug_filter_channels: Seq::empty(),
        pkt_debug_filter_exclude_channels: Seq::empty(),
        pkt_debug_filter_message_ids: Seq::empty(),
        pkt_debug_filter_exclude_message_ids: Seq::empty(),
        pkt_debug_filter_pretty_proto: true,
        pkt_debug_filter_max_payload_bytes: 2048,
        pkt_debug_full_frame_enabled: false,
        legacy: true,
        usb_gadget_require_accessory_start: false,
        usb_gadget_rearm_on_disconnect: false,
        usb_gadget_rearm_cooldown_ms: 1500,
        quick_reconnect: false,
        bt_poweroff: false,
        connect: given.connect,
        logfile: "/var/log/aa-proxy-rs.log"@,
        crash_handler_enabled: true,
        crash_dir: "/data/aa-proxy-rs/crashes"@,
        sdr_ui_override_enabled: true,
        sdr_ui_override_autocreate_profiles: true,
        sdr_ui_override_file: "/etc/aa-proxy-rs/sdr-ui-overrides.toml"@,
        inject_displays_file: "/etc/aa-proxy-rs/inject-displays.toml"@,
        stats_interval: 0,
        udc: None,
        iface: "wlan0"@,
        wlan_subnet: "10.0.0"@,
        btalias: None,
        timeout_secs: 10,
        webserver: Some("0.0.0.0:80"@),
        bt_timeout_secs: 120,
        mitm: false,
        dpi: 0,
        audio_max_unacked: 0,
        add_vendor_channel: true,
        remove_tap_restriction: false,
        video_in_motion: false,
        disable_media_sink: false,
        disable_tts_sink: false,
        developer_mode: false,
        wired: None,
        dhu: false,
        aa_server_tcp_addr: Seq::empty(),
        ev: false,
        odometer: false,
        tire_pressure: false,
        remove_bluetooth: false,
        bt_real_hu_passthrough_enabled: false,
        bt_real_hu_passthrough_address: Seq::empty(),
        bt_a2dp_sink_enabled: false,
        remove_wifi: false,
        inject_display_types: given.inject_display_types,
        inject_add_input_sources: false,
        inject_cluster_display_id: 1,
        inject_cluster_width_margin: 270,
        inject_cluster_height_margin: 344,
        inject_cluster_density: 180,
        inject_cluster_viewing_distance: 100,
        inject_cluster_codec_resolution: given.inject_cluster_codec_resolution,
        inject_cluster_touch_width: 1280,
        inject_cluster_touch_height: 720,
        inject_aux_display_id: 2,
        inject_aux_width_margin: 0,
        inject_aux_height_margin: 0,
        inject_aux_density: 160,
        inject_aux_viewing_distance: 300,
        inject_aux_touch_width: 1280,
        inject_aux_touch_height: 720,
        inject_force_focus_without_tap: false,
        change_usb_order: false,
        stop_on_disconnect: false,
        waze_lht_workaround: false,
        ev_battery_logger: None,
        ev_connector_types: given.ev_connector_types,
        enable_ssh: true,
        usb_serial_console: false,
        wifi_version: (match latest_wifi_version(iw) {
            Some(v) => v,
            None => 1,
        }),
        band: (if supports_5ghz(iw) {
            "5"@
        } else {
            "2.4"@
        }),
        country_code: "US"@,
        channel: (if supports_5ghz(iw) {
            36
        } else {
            6
        }),
        ssid: "aa-proxy"@,
        wpa_passphrase: "aa-proxy"@,
        eth_mode: Seq::empty(),
        startup_delay: 0,
        protocol_version_override_enabled: false,
        protocol_version_override_major: 5,
        protocol_version_override_minor: 1,
        external_antenna: false,
        media_dump_base_port: None,
        media_wait_for_live_idr: true,
        map_album_art_enabled: false,
        map_album_art_source: "file"@,
        map_album_art_file: "/data/aa-proxy-rs/map-album-art.png"@,
        map_album_art_max_bytes: 0,
        map_album_art_chunk_bytes: 16_120,
        map_album_art_video_display_id: "aux-1"@,
        map_album_art_capture_interval_ms: 2_000,
        map_album_art_output_size_px: 256,
        map_album_art_crop_enabled: true,
        map_album_art_crop_mode: "percent"@,
        map_album_art_crop_x: 30,
        map_album_art_crop_y: 20,
        map_album_art_crop_w: 40,
        map_album_art_crop_h: 40,
        map_album_art_duration_tick_enabled: false,
        map_album_art_ev_text_mode: "album_art"@,
        map_album_art_ev_prefix_max_age_ms: 0,
        vehicle_energy_forecast_keep_last_on_null: true,
        collect_speed: false,
        disable_driving_status: false,
        hu_button_handler: None,
        bt_sco: false,
        bt_sco_keep_bluetooth_alive: true,
        bt_sco_media_bridge: false,
        bt_sco_media_bridge_audio_type: BtScoMediaBridgeAudioType::Media,
        bt_sco_media_bridge_gain_percent: 300,
        bt_sco_media_bridge_limiter: BtScoMediaBridgeLimiter::Off,
        bt_sco_media_bridge_resampler: BtScoMediaBridgeResampler::Repeat,
        bt_sco_media_bridge_ring_capacity: 128,
        bt_sco_media_bridge_start_existing: true,
        bt_sco_media_bridge_start_on_first_audio: true,
        bt_sco_media_bridge_audio_peak_threshold: 256,
        bt_sco_media_bridge_start_timeout_ms: 5000,
        bt_sco_media_bridge_stop_existing_on_disconnect: true,
        bt_sco_media_bridge_fixed_cadence: false,
        bt_sco_media_bridge_cadence_ms: 22,
        bt_sco_media_bridge_jitter_buffer_ms: 60,
        bt_sco_mic_bridge: false,
        bt_sco_mic_request: true,
        bt_sco_mic_uplink_ring_capacity: 256,
        bt_sco_mic_echo_control: BtScoMicEchoControl::Ducking,
        bt_sco_mic_gain_percent: 100,
        bt_sco_mic_duck_threshold: 700,
        bt_sco_mic_duck_percent: 35,
        bt_sco_mic_duck_hold_ms: 180,
        wasm_hooks_dir: "/data/wasm-hooks"@,
        wasm_script_memory_limit_mb: 5,
        wasm_script_instance_limit: 16,
        wasm_script_memory_count_limit: 4,
        wasm_script_table_limit: 8,
        wasm_script_table_elements_limit: 512,
        wasm_script_packet_epoch_deadline: 100,
        wasm_script_lifecycle_epoch_deadline: 1000,
        action_requested: None,
        runtime_mitm_failed: false,
    }
}

pub fn webserver_default_bind() -> (r: Option<String>)
    ensures
        r.deep_view() == Some("0.0.0.0:80"@),
{
    Some("0.0.0.0:80".to_owned())
}

// ---------------------------------------------------------------------
// The file

/// A value of the file that is no list and no table.
pub enum Scalar<T> {
    Bool(bool),
    Int(i64),
    Text(T),
}

/// A key of the file and its value.
pub struct Setting<T> {
    pub key: T,
    pub value: Scalar<T>,
}

pub type SettingModel = Setting<Seq<char>>;

impl DeepView for Setting<String> {
    type V = Setting<Seq<char>>;

    open spec fn deep_view(&self) -> Setting<Seq<char>> {
        Setting {
            key: self.key@,
            value: match self.value {
                Scalar::Bool(b) => Scalar::Bool(b),
                Scalar::Int(i) => Scalar::Int(i),
                Scalar::Text(t) => Scalar::Text(t@),
            },
        }
    }
}

pub open spec fn bool_setting(key: Seq<char>, b: bool) -> SettingModel {
    Setting { key, value: Scalar::Bool(b) }
}

pub open spec fn int_setting(key: Seq<char>, i: i64) -> SettingModel {
    Setting { key, value: Scalar::Int(i) }
}

pub open spec fn text_setting(key: Seq<char>, t: Seq<char>) -> SettingModel {
    Setting { key, value: Scalar::Text(t) }
}

/// A text that is only written where there is one.
pub open spec fn with_text(list: Seq<SettingModel>, key: Seq<char>, t: Option<Seq<char>>) -> Seq<
    SettingModel,
> {
    match t {
        Some(v) => list.push(text_setting(key, v)),
        None => list,
    }
}

/// A port that is only written where there is one.
pub open spec fn with_port(list: Seq<SettingModel>, key: Seq<char>, p: Option<u16>) -> Seq<
    SettingModel,
> {
    match p {
        Some(v) => list.push(int_setting(key, v as i64)),
        None => list,
    }
}

fn push_bool(list: &mut Vec<Setting<String>>, key: &str, b: bool)
    ensures
        final(list).deep_view() == old(list).deep_view().push(bool_setting(key@, b)),
{
    let ghost before = list.deep_view();
    list.push(Setting { key: key.to_owned(), value: Scalar::Bool(b) });
    assert(list.deep_view() =~= before.push(bool_setting(key@, b)));
}

fn push_int(list: &mut Vec<Setting<String>>, key: &str, i: i64)
    ensures
        final(list).deep_view() == old(list).deep_view().push(int_setting(key@, i)),
{
    let ghost before = list.deep_view();
    list.push(Setting { key: key.to_owned(), value: Scalar::Int(i) });
    assert(list.deep_view() =~= before.push(int_setting(key@, i)));
}

fn push_setting_text(list: &mut Vec<Setting<String>>, key: &str, t: &str)
    ensures
        final(list).deep_view() == old(list).deep_view().push(text_setting(key@, t@)),
{
    let ghost before = list.deep_view();
    list.push(Setting { key: key.to_owned(), value: Scalar::Text(t.to_owned()) });
    assert(list.deep_view() =~= before.push(text_setting(key@, t@)));
}

fn push_opt_text(list: &mut Vec<Setting<String>>, key: &str, t: &Option<String>)
    ensures
        final(list).deep_view() == with_text(old(list).deep_view(), key@, t.deep_view()),
{
    if let Some(v) = t {
        push_setting_text(list, key, v.as_str());
    }
}

fn push_opt_port(list: &mut Vec<Setting<String>>, key: &str, p: Option<u16>)
    ensures
        final(list).deep_view() == with_port(old(list).deep_view(), key@, p),
{
    if let Some(v) = p {
        push_int(list, key, v as i64);
    }
}

pub open spec fn or_empty(t: Option<Seq<char>>) -> Seq<char> {
    match t {
        Some(v) => v,
        None => ""@,
    }
}

fn text_or_empty(t: &Option<String>) -> (r: &str)
    ensures
        r@ == or_empty(t.deep_view()),
{
    match t {
        Some(v) => v.as_str(),
        None => "",
    }
}

/// A number as the file keeps it: one that is too large comes out negative.
pub open spec fn wrapped(n: int) -> i64 {
    if n <= i64::MAX {
        n as i64
    } else {
        (n - 0x1_0000_0000_0000_0000) as i64
    }
}

fn wrap(n: u64) -> (r: i64)
    ensures
        r == wrapped(n as int),
{
    if n <= 0x7fff_ffff_ffff_ffff {
        n as i64
    } else {
        -1 - ((0xffff_ffff_ffff_ffff - n) as i64)
    }
}

pub open spec fn with_part1(list: Seq<SettingModel>, c: ConfigModel) -> Seq<SettingModel> {
    list
        .push(bool_setting("advertise"@, c.advertise))
        .push(bool_setting("enable_companion_bt"@, c.enable_companion_bt))
        .push(bool_setting("companion_bt_auth_required"@, c.companion_bt_auth_required))
        .push(text_setting("companion_bt_auth_token"@, c.companion_bt_auth_token))
        .push(bool_setting("dongle_mode"@, c.dongle_mode))
        .push(text_setting("preload_kernel_modules"@, c.preload_kernel_modules))
        .push(text_setting("kernel_module_path"@, c.kernel_module_path))
        .push(bool_setting("bt_wireless_proxy"@, c.bt_wireless_proxy))
        .push(text_setting("bt_wireless_proxy_mode"@, c.bt_wireless_proxy_mode))
        .push(text_setting("bt_wireless_proxy_hu_mac"@, c.bt_wireless_proxy_hu_mac))
        .push(int_setting("bt_wireless_proxy_pairing_window_secs"@, wrapped(c.bt_wireless_proxy_pairing_window_secs as int)))
        .push(bool_setting("bt_wireless_proxy_phone_like_pairing"@, c.bt_wireless_proxy_phone_like_pairing))
        .push(text_setting("bt_wireless_proxy_phone_like_pairing_alias"@, c.bt_wireless_proxy_phone_like_pairing_alias))
        .push(text_setting("bt_wireless_proxy_phone_like_pairing_class"@, c.bt_wireless_proxy_phone_like_pairing_class))
}

pub open spec fn with_part2(list: Seq<SettingModel>, c: ConfigModel) -> Seq<SettingModel> {
    list
        .push(bool_setting("bt_wireless_proxy_phone_like_sdp_profiles"@, c.bt_wireless_proxy_phone_like_sdp_profiles))
        .push(text_setting("bt_wireless_proxy_phone_like_sdp_profile_set"@, c.bt_wireless_proxy_phone_like_sdp_profile_set))
        .push(text_setting("bt_wireless_proxy_rendezvous_mode"@, c.bt_wireless_proxy_rendezvous_mode))
        .push(int_setting("bt_wireless_proxy_hu_first_wait_phone_secs"@, wrapped(c.bt_wireless_proxy_hu_first_wait_phone_secs as int)))
        .push(int_setting("bt_wireless_proxy_hu_channel"@, (match c.bt_wireless_proxy_hu_channel { Some(x) => x as i64, None => 0 })))
        .push(bool_setting("bt_wireless_proxy_tcp_probe"@, c.bt_wireless_proxy_tcp_probe))
        .push(text_setting("bt_wireless_proxy_car_wifi_base_iface"@, c.bt_wireless_proxy_car_wifi_base_iface))
        .push(text_setting("bt_wireless_proxy_car_wifi_join_cmd"@, c.bt_wireless_proxy_car_wifi_join_cmd))
        .push(bool_setting("bt_wireless_proxy_car_wifi_auto_join"@, c.bt_wireless_proxy_car_wifi_auto_join))
        .push(text_setting("bt_wireless_proxy_wifi_join_control"@, c.bt_wireless_proxy_wifi_join_control))
        .push(int_setting("bt_wireless_proxy_wpactrl_socket_timeout_secs"@, wrapped(c.bt_wireless_proxy_wpactrl_socket_timeout_secs as int)))
        .push(int_setting("bt_wireless_proxy_wifi_association_timeout_secs"@, wrapped(c.bt_wireless_proxy_wifi_association_timeout_secs as int)))
        .push(int_setting("bt_wireless_proxy_dhcp_timeout_secs"@, wrapped(c.bt_wireless_proxy_dhcp_timeout_secs as int)))
        .push(bool_setting("bt_wireless_proxy_car_wifi_keep_ap"@, c.bt_wireless_proxy_car_wifi_keep_ap))
}

pub open spec fn with_part3(list: Seq<SettingModel>, c: ConfigModel) -> Seq<SettingModel> {
    list
        .push(text_setting("bt_wireless_proxy_car_wifi_sta_iface"@, c.bt_wireless_proxy_car_wifi_sta_iface))
        .push(text_setting("bt_wireless_proxy_car_wifi_sta_phy"@, c.bt_wireless_proxy_car_wifi_sta_phy))
        .push(text_setting("bt_wireless_proxy_car_wifi_ap_iface"@, c.bt_wireless_proxy_car_wifi_ap_iface))
        .push(text_setting("bt_wireless_proxy_phone_wifi_mode"@, c.bt_wireless_proxy_phone_wifi_mode))
        .push(text_setting("bt_wireless_proxy_rewrite_ip"@, c.bt_wireless_proxy_rewrite_ip))
        .push(int_setting("bt_wireless_proxy_listen_port"@, c.bt_wireless_proxy_listen_port as i64))
        .push(bool_setting("bt_wireless_proxy_use_version_projection_fallback"@, c.bt_wireless_proxy_use_version_projection_fallback))
        .push(bool_setting("bt_wireless_proxy_wpp_keepalive"@, c.bt_wireless_proxy_wpp_keepalive))
        .push(int_setting("bt_wireless_proxy_wpp_keepalive_interval_ms"@, wrapped(c.bt_wireless_proxy_wpp_keepalive_interval_ms as int)))
        .push(bool_setting("debug"@, c.debug))
        .push(bool_setting("pkt_debug"@, c.pkt_debug))
        .push(text_setting("hexdump_level"@, c.hexdump_level))
        .push(bool_setting("disable_console_debug"@, c.disable_console_debug))
        .push(bool_setting("pkt_debug_filter_enabled"@, c.pkt_debug_filter_enabled))
}

pub open spec fn with_part4(list: Seq<SettingModel>, c: ConfigModel) -> Seq<SettingModel> {
    list
        .push(text_setting("pkt_debug_filter_proxy"@, c.pkt_debug_filter_proxy))
        .push(text_setting("pkt_debug_filter_stages"@, c.pkt_debug_filter_stages))
        .push(text_setting("pkt_debug_filter_service_kinds"@, c.pkt_debug_filter_service_kinds))
        .push(text_setting("pkt_debug_filter_channels"@, c.pkt_debug_filter_channels))
        .push(text_setting("pkt_debug_filter_exclude_channels"@, c.pkt_debug_filter_exclude_channels))
        .push(text_setting("pkt_debug_filter_message_ids"@, c.pkt_debug_filter_message_ids))
        .push(text_setting("pkt_debug_filter_exclude_message_ids"@, c.pkt_debug_filter_exclude_message_ids))
        .push(bool_setting("pkt_debug_filter_pretty_proto"@, c.pkt_debug_filter_pretty_proto))
        .push(int_setting("pkt_debug_filter_max_payload_bytes"@, wrapped(c.pkt_debug_filter_max_payload_bytes as int)))
        .push(bool_setting("pkt_debug_full_frame_enabled"@, c.pkt_debug_full_frame_enabled))
        .push(bool_setting("legacy"@, c.legacy))
        .push(bool_setting("usb_gadget_require_accessory_start"@, c.usb_gadget_require_accessory_start))
        .push(bool_setting("usb_gadget_rearm_on_disconnect"@, c.usb_gadget_rearm_on_disconnect))
        .push(int_setting("usb_gadget_rearm_cooldown_ms"@, wrapped(c.usb_gadget_rearm_cooldown_ms as int)))
}

pub open spec fn with_part5(list: Seq<SettingModel>, c: ConfigModel) -> Seq<SettingModel> {
    list
        .push(bool_setting("quick_reconnect"@, c.quick_reconnect))
        .push(bool_setting("bt_poweroff"@, c.bt_poweroff))
        .push(text_setting("connect"@, c.connect))
        .push(text_setting("logfile"@, c.logfile))
        .push(bool_setting("crash_handler_enabled"@, c.crash_handler_enabled))
        .push(text_setting("crash_dir"@, c.crash_dir))
        .push(bool_setting("sdr_ui_override_enabled"@, c.sdr_ui_override_enabled))
        .push(bool_setting("sdr_ui_override_autocreate_profiles"@, c.sdr_ui_override_autocreate_profiles))
        .push(text_setting("sdr_ui_override_file"@, c.sdr_ui_override_file))
        .push(text_setting("inject_displays_file"@, c.inject_displays_file))
        .push(int_setting("stats_interval"@, c.stats_interval as i64))
}

pub open spec fn with_part6(list: Seq<SettingModel>, c: ConfigModel) -> Seq<SettingModel> {
    list
        .push(text_setting("iface"@, c.iface))
}

pub open spec fn with_part7(list: Seq<SettingModel>, c: ConfigModel) -> Seq<SettingModel> {
    list
        .push(int_setting("timeout_secs"@, c.timeout_secs as i64))
}

pub open spec fn with_part8(list: Seq<SettingModel>, c: ConfigModel) -> Seq<SettingModel> {
    list
        .push(int_setting("bt_timeout_secs"@, c.bt_timeout_secs as i64))
        .push(bool_setting("mitm"@, c.mitm))
        .push(int_setting("dpi"@, c.dpi as i64))
        .push(int_setting("audio_max_unacked"@, c.audio_max_unacked as i64))
        .push(bool_setting("add_vendor_channel"@, c.add_vendor_channel))
        .push(bool_setting("remove_tap_restriction"@, c.remove_tap_restriction))
        .push(bool_setting("video_in_motion"@, c.video_in_motion))
        .push(bool_setting("disable_media_sink"@, c.disable_media_sink))
        .push(bool_setting("disable_tts_sink"@, c.disable_tts_sink))
        .push(bool_setting("developer_mode"@, c.developer_mode))
        .push(text_setting("wired"@, or_empty(c.wired)))
        .push(bool_setting("dhu"@, c.dhu))
        .push(text_setting("aa_server_tcp_addr"@, c.aa_server_tcp_addr))
        .push(bool_setting("ev"@, c.ev))
}

pub open spec fn with_part9(list: Seq<SettingModel>, c: ConfigModel) -> Seq<SettingModel> {
    list
        .push(bool_setting("odometer"@, c.odometer))
        .push(bool_setting("tire_pressure"@, c.tire_pressure))
        .push(bool_setting("remove_bluetooth"@, c.remove_bluetooth))
        .push(bool_setting("bt_real_hu_passthrough_enabled"@, c.bt_real_hu_passthrough_enabled))
        .push(text_setting("bt_real_hu_passthrough_address"@, c.bt_real_hu_passthrough_address))
        .push(bool_setting("bt_a2dp_sink_enabled"@, c.bt_a2dp_sink_enabled))
        .push(bool_setting("remove_wifi"@, c.remove_wifi))
        .push(text_setting("inject_display_types"@, c.inject_display_types))
        .push(bool_setting("inject_add_input_sources"@, c.inject_add_input_sources))
        .push(int_setting("inject_cluster_display_id"@, c.inject_cluster_display_id as i64))
        .push(int_setting("inject_cluster_width_margin"@, c.inject_cluster_width_margin as i64))
        .push(int_setting("inject_cluster_height_margin"@, c.inject_cluster_height_margin as i64))
        .push(int_setting("inject_cluster_density"@, c.inject_cluster_density as i64))
        .push(int_setting("inject_cluster_viewing_distance"@, c.inject_cluster_viewing_distance as i64))
}

pub open spec fn with_part10(list: Seq<SettingModel>, c: ConfigModel) -> Seq<SettingModel> {
    list
        .push(text_setting("inject_cluster_codec_resolution"@, c.inject_cluster_codec_resolution))
        .push(int_setting("inject_cluster_touch_width"@, c.inject_cluster_touch_width as i64))
        .push(int_setting("inject_cluster_touch_height"@, c.inject_cluster_touch_height as i64))
        .push(int_setting("inject_aux_display_id"@, c.inject_aux_display_id as i64))
        .push(int_setting("inject_aux_width_margin"@, c.inject_aux_width_margin as i64))
        .push(int_setting("inject_aux_height_margin"@, c.inject_aux_height_margin as i64))
        .push(int_setting("inject_aux_density"@, c.inject_aux_density as i64))
        .push(int_setting("inject_aux_viewing_distance"@, c.inject_aux_viewing_distance as i64))
        .push(int_setting("inject_aux_touch_width"@, c.inject_aux_touch_width as i64))
        .push(int_setting("inject_aux_touch_height"@, c.inject_aux_touch_height as i64))
        .push(bool_setting("inject_force_focus_without_tap"@, c.inject_force_focus_without_tap))
        .push(bool_setting("change_usb_order"@, c.change_usb_order))
        .push(bool_setting("stop_on_disconnect"@, c.stop_on_disconnect))
        .push(bool_setting("waze_lht_workaround"@, c.waze_lht_workaround))
}

pub open spec fn with_part11(list: Seq<SettingModel>, c: ConfigModel) -> Seq<SettingModel> {
    list
        .push(text_setting("ev_connector_types"@, c.ev_connector_types))
        .push(bool_setting("enable_ssh"@, c.enable_ssh))
        .push(bool_setting("usb_serial_console"@, c.usb_serial_console))
        .push(int_setting("wifi_version"@, c.wifi_version as i64))
        .push(text_setting("band"@, c.band))
        .push(text_setting("country_code"@, c.country_code))
        .push(int_setting("channel"@, c.channel as i64))
        .push(text_setting("ssid"@, c.ssid))
        .push(text_setting("wpa_passphrase"@, c.wpa_passphrase))
        .push(text_setting("eth_mode"@, c.eth_mode))
        .push(int_setting("startup_delay"@, c.startup_delay as i64))
        .push(bool_setting("protocol_version_override_enabled"@, c.protocol_version_override_enabled))
        .push(int_setting("protocol_version_override_major"@, c.protocol_version_override_major as i64))
        .push(int_setting("protocol_version_override_minor"@, c.protocol_version_override_minor as i64))
}

pub open spec fn with_part12(list: Seq<SettingModel>, c: ConfigModel) -> Seq<SettingModel> {
    list
        .push(bool_setting("external_antenna"@, c.external_antenna))
}

pub open spec fn with_part13(list: Seq<SettingModel>, c: ConfigModel) -> Seq<SettingModel> {
    list
        .push(bool_setting("media_wait_for_live_idr"@, c.media_wait_for_live_idr))
        .push(bool_setting("map_album_art_enabled"@, c.map_album_art_enabled))
        .push(text_setting("map_album_art_source"@, c.map_album_art_source))
        .push(text_setting("map_album_art_file"@, c.map_album_art_file))
        .push(int_setting("map_album_art_max_bytes"@, wrapped(c.map_album_art_max_bytes as int)))
        .push(int_setting("map_album_art_chunk_bytes"@, wrapped(c.map_album_art_chunk_bytes as int)))
        .push(text_setting("map_album_art_video_display_id"@, c.map_album_art_video_display_id))
        .push(int_setting("map_album_art_capture_interval_ms"@, wrapped(c.map_album_art_capture_interval_ms as int)))
        .push(int_setting("map_album_art_output_size_px"@, c.map_album_art_output_size_px as i64))
        .push(bool_setting("map_album_art_crop_enabled"@, c.map_album_art_crop_enabled))
        .push(text_setting("map_album_art_crop_mode"@, c.map_album_art_crop_mode))
        .push(int_setting("map_album_art_crop_x"@, c.map_album_art_crop_x as i64))
        .push(int_setting("map_album_art_crop_y"@, c.map_album_art_crop_y as i64))
        .push(int_setting("map_album_art_crop_w"@, c.map_album_art_crop_w as i64))
}

pub open spec fn with_part14(list: Seq<SettingModel>, c: ConfigModel) -> Seq<SettingModel> {
    list
        .push(int_setting("map_album_art_crop_h"@, c.map_album_art_crop_h as i64))
        .push(bool_setting("map_album_art_duration_tick_enabled"@, c.map_album_art_duration_tick_enabled))
        .push(text_setting("map_album_art_ev_text_mode"@, c.map_album_art_ev_text_mode))
        .push(int_setting("map_album_art_ev_prefix_max_age_ms"@, wrapped(c.map_album_art_ev_prefix_max_age_ms as int)))
        .push(bool_setting("vehicle_energy_forecast_keep_last_on_null"@, c.vehicle_energy_forecast_keep_last_on_null))
        .push(bool_setting("collect_speed"@, c.collect_speed))
        .push(bool_setting("disable_driving_status"@, c.disable_driving_status))
}

pub open spec fn with_part15(list: Seq<SettingModel>, c: ConfigModel) -> Seq<SettingModel> {
    list
        .push(bool_setting("bt_sco"@, c.bt_sco))
        .push(bool_setting("bt_sco_keep_bluetooth_alive"@, c.bt_sco_keep_bluetooth_alive))
        .push(bool_setting("bt_sco_media_bridge"@, c.bt_sco_media_bridge))
        .push(text_setting("bt_sco_media_bridge_audio_type"@, c.bt_sco_media_bridge_audio_type.label()))
        .push(int_setting("bt_sco_media_bridge_gain_percent"@, c.bt_sco_media_bridge_gain_percent as i64))
        .push(text_setting("bt_sco_media_bridge_limiter"@, c.bt_sco_media_bridge_limiter.label()))
        .push(text_setting("bt_sco_media_bridge_resampler"@, c.bt_sco_media_bridge_resampler.label()))
        .push(int_setting("bt_sco_media_bridge_ring_capacity"@, wrapped(c.bt_sco_media_bridge_ring_capacity as int)))
        .push(bool_setting("bt_sco_media_bridge_start_existing"@, c.bt_sco_media_bridge_start_existing))
        .push(bool_setting("bt_sco_media_bridge_start_on_first_audio"@, c.bt_sco_media_bridge_start_on_first_audio))
        .push(int_setting("bt_sco_media_bridge_audio_peak_threshold"@, c.bt_sco_media_bridge_audio_peak_threshold as i64))
        .push(int_setting("bt_sco_media_bridge_start_timeout_ms"@, c.bt_sco_media_bridge_start_timeout_ms as i64))
        .push(bool_setting("bt_sco_media_bridge_stop_existing_on_disconnect"@, c.bt_sco_media_bridge_stop_existing_on_disconnect))
        .push(bool_setting("bt_sco_media_bridge_fixed_cadence"@, c.bt_sco_media_bridge_fixed_cadence))
}

pub open spec fn with_part16(list: Seq<SettingModel>, c: ConfigModel) -> Seq<SettingModel> {
    list
        .push(int_setting("bt_sco_media_bridge_cadence_ms"@, c.bt_sco_media_bridge_cadence_ms as i64))
        .push(int_setting("bt_sco_media_bridge_jitter_buffer_ms"@, c.bt_sco_media_bridge_jitter_buffer_ms as i64))
        .push(bool_setting("bt_sco_mic_bridge"@, c.bt_sco_mic_bridge))
        .push(bool_setting("bt_sco_mic_request"@, c.bt_sco_mic_request))
        .push(int_setting("bt_sco_mic_uplink_ring_capacity"@, wrapped(c.bt_sco_mic_uplink_ring_capacity as int)))
        .push(text_setting("bt_sco_mic_echo_control"@, c.bt_sco_mic_echo_control.label()))
        .push(int_setting("bt_sco_mic_gain_percent"@, c.bt_sco_mic_gain_percent as i64))
        .push(int_setting("bt_sco_mic_duck_threshold"@, c.bt_sco_mic_duck_threshold as i64))
        .push(int_setting("bt_sco_mic_duck_percent"@, c.bt_sco_mic_duck_percent as i64))
        .push(int_setting("bt_sco_mic_duck_hold_ms"@, c.bt_sco_mic_duck_hold_ms as i64))
        .push(text_setting("wasm_hooks_dir"@, c.wasm_hooks_dir))
        .push(int_setting("wasm_script_memory_limit_mb"@, c.wasm_script_memory_limit_mb as i64))
        .push(int_setting("wasm_script_instance_limit"@, c.wasm_script_instance_limit as i64))
        .push(int_setting("wasm_script_memory_count_limit"@, c.wasm_script_memory_count_limit as i64))
}

pub open spec fn with_part17(list: Seq<SettingModel>, c: ConfigModel) -> Seq<SettingModel> {
    list
        .push(int_setting("wasm_script_table_limit"@, c.wasm_script_table_limit as i64))
        .push(int_setting("wasm_script_table_elements_limit"@, c.wasm_script_table_elements_limit as i64))
        .push(int_setting("wasm_script_packet_epoch_deadline"@, wrapped(c.wasm_script_packet_epoch_deadline as int)))
        .push(int_setting("wasm_script_lifecycle_epoch_deadline"@, wrapped(c.wasm_script_lifecycle_epoch_deadline as int)))
}

/// What is written of the settings, in its order.
#[verifier::opaque]
pub open spec fn settings_of(c: ConfigModel) -> Seq<SettingModel> {
    let list = Seq::<SettingModel>::empty();
    let list = with_part1(list, c);
    let list = with_part2(list, c);
    let list = with_part3(list, c);
    let list = with_part4(list, c);
    let list = with_part5(list, c);
    let list = with_text(list, "udc"@, c.udc);
    let list = with_part6(list, c);
    let list = with_text(list, "btalias"@, c.btalias);
    let list = with_part7(list, c);
    let list = with_text(list, "webserver"@, c.webserver);
    let list = with_part8(list, c);
    let list = with_part9(list, c);
    let list = with_part10(list, c);
    let list = with_text(list, "ev_battery_logger"@, c.ev_battery_logger);
    let list = with_part11(list, c);
    let list = with_part12(list, c);
    let list = with_port(list, "media_dump_base_port"@, c.media_dump_base_port);
    let list = with_part13(list, c);
    let list = with_part14(list, c);
    let list = with_text(list, "hu_button_handler"@, c.hu_button_handler);
    let list = with_part15(list, c);
    let list = with_part16(list, c);
    let list = with_part17(list, c);
    list
}

/// The values of a file when settings have been written to it: a later one
/// replaces an earlier one of the same key.
pub open spec fn written(values: Map<Seq<char>, Entry>, list: Seq<SettingModel>) -> Map<
    Seq<char>,
    Entry,
>
    decreases list.len(),
{
    if list.len() == 0 {
        values
    } else {
        written(values, list.drop_last()).insert(list.last().key, entry_of(list.last().value))
    }
}

pub open spec fn is_setting_key(list: Seq<SettingModel>, key: Seq<char>) -> bool {
    exists|j: int| 0 <= j < list.len() && (#[trigger] list[j]).key == key
}

/// Whether every setting has its value in a file, and all else in it is as it was.
pub open spec fn is_saved(
    before: Map<Seq<char>, Entry>,
    after: Map<Seq<char>, Entry>,
    list: Seq<SettingModel>,
) -> bool {
    &&& forall|i: int|
        0 <= i < list.len() ==> after.contains_key((#[trigger] list[i]).key) && after[list[i].key]
            == entry_of(list[i].value)
    &&& forall|key: Seq<char>|
        !is_setting_key(list, key) ==> (#[trigger] after.contains_key(key)) == before.contains_key(
            key,
        ) && (before.contains_key(key) ==> after[key] == before[key])
}

/// Whether a file has under a key what it had; where it had nothing, it has nothing.
pub open spec fn is_kept(
    before: Map<Seq<char>, Entry>,
    after: Map<Seq<char>, Entry>,
    key: Seq<char>,
) -> bool {
    after.contains_key(key) == before.contains_key(key) && (before.contains_key(key) ==> after[key]
        == before[key])
}

/// Whether what is not set is as it was in a file, and the network of the access
/// point, which is never written.
pub open spec fn keeps_unset(
    c: ConfigModel,
    before: Map<Seq<char>, Entry>,
    after: Map<Seq<char>, Entry>,
) -> bool {
    &&& is_kept(before, after, "wlan_subnet"@)
    &&& c.udc is None ==> is_kept(before, after, "udc"@)
    &&& c.btalias is None ==> is_kept(before, after, "btalias"@)
    &&& c.webserver is None ==> is_kept(before, after, "webserver"@)
    &&& c.ev_battery_logger is None ==> is_kept(before, after, "ev_battery_logger"@)
    &&& c.media_dump_base_port is None ==> is_kept(before, after, "media_dump_base_port"@)
    &&& c.hu_button_handler is None ==> is_kept(before, after, "hu_button_handler"@)
}

/// How many of a character stand at the end of a text.
pub open spec fn run_at_end(s: Seq<char>, c: char) -> nat
    decreases s.len(),
{
    if s.len() > 0 && s.last() == c {
        1 + run_at_end(s.drop_last(), c)
    } else {
        0
    }
}

/// Whether nowhere in a text more than 255 quotes of one sort follow each other.
pub open spec fn quotes_fit(s: Seq<char>) -> bool {
    forall|k: int|
        0 <= k <= s.len() ==> run_at_end(#[trigger] s.take(k), '\'') <= 255 && run_at_end(
            s.take(k),
            '"',
        ) <= 255
}

pub fn check_quotes(s: &str) -> (r: bool)
    ensures
        r == quotes_fit(s@),
{
    let chars = text::chars_of(s);
    let mut single: u64 = 0;
    let mut double: u64 = 0;
    assert(s@.take(0).len() == 0);
    for i in 0..chars.len()
        invariant
            chars@ == s@,
            single <= 255,
            double <= 255,
            single == run_at_end(s@.take(i as int), '\''),
            double == run_at_end(s@.take(i as int), '"'),
            forall|k: int|
                0 <= k <= i ==> run_at_end(#[trigger] s@.take(k), '\'') <= 255 && run_at_end(
                    s@.take(k),
                    '"',
                ) <= 255,
    {
        assert(s@.take(i as int + 1).drop_last() =~= s@.take(i as int));
        assert(s@.take(i as int + 1).last() == s@[i as int]);
        single = if chars[i] == '\'' {
            single + 1
        } else {
            0
        };
        double = if chars[i] == '"' {
            double + 1
        } else {
            0
        };
        if single > 255 || double > 255 {
            assert(0 <= i + 1 <= s@.len());
            return false;
        }
    }
    true
}

#[verifier::external_type_specification]
#[verifier::external_body]
pub struct ExDocumentMut(DocumentMut);

/// What a document has under one of its own keys. All but a boolean, an integer or a
/// text (a number with a fraction, a date, an array, a table with what is in it) is
/// told by a text that stands for it.
pub enum Entry {
    Bool(bool),
    Int(i64),
    Text(Seq<char>),
    Other(Seq<char>),
}

pub open spec fn entry_of(value: Scalar<Seq<char>>) -> Entry {
    match value {
        Scalar::Bool(b) => Entry::Bool(b),
        Scalar::Int(i) => Entry::Int(i),
        Scalar::Text(t) => Entry::Text(t),
    }
}

/// What a document has under its own keys.
pub uninterp spec fn document_values(document: DocumentMut) -> Map<Seq<char>, Entry>;

/// The values of the document that a text is, if it is one.
pub uninterp spec fn values_in_text(raw: Seq<char>) -> Option<Map<Seq<char>, Entry>>;

/// `toml_edit::DocumentMut::from_str`: reads a document. Of the result it is
/// claimed that it depends on the text alone.
#[verifier::external_body]
fn parse_document(raw: &str) -> (r: Option<DocumentMut>)
    ensures
        match r {
            Some(d) => values_in_text(raw@) == Some(document_values(d)),
            None => values_in_text(raw@) is None,
        },
{
    raw.parse::<DocumentMut>().ok()
}

pub open spec fn no_values() -> Map<Seq<char>, Entry> {
    Map::empty()
}

/// `toml_edit::DocumentMut::new`: a document without keys.
#[verifier::external_body]
fn new_document() -> (r: DocumentMut)
    ensures
        document_values(r) == no_values(),
{
    DocumentMut::new()
}

/// `toml_edit::DocumentMut::index_mut` and `toml_edit::value` with a boolean:
/// the key gets the value, whatever it had; the other keys keep theirs.
#[verifier::external_body]
fn set_bool(document: &mut DocumentMut, key: &str, b: bool)
    ensures
        document_values(*final(document)) == document_values(*old(document)).insert(
            key@,
            Entry::Bool(b),
        ),
{
    document[key] = toml_edit::value(b);
}

/// `toml_edit::DocumentMut::index_mut` and `toml_edit::value` with an integer:
/// the key gets the value, whatever it had; the other keys keep theirs.
#[verifier::external_body]
fn set_int(document: &mut DocumentMut, key: &str, i: i64)
    ensures
        document_values(*final(document)) == document_values(*old(document)).insert(
            key@,
            Entry::Int(i),
        ),
{
    document[key] = toml_edit::value(i);
}

/// `toml_edit::DocumentMut::index_mut` and `toml_edit::value` with a text: the
/// key gets the value, whatever it had; the other keys keep theirs. The crate
/// counts quotes that follow each other in eight bits when it writes the text,
/// so there may be no more of them.
#[verifier::external_body]
fn set_text(document: &mut DocumentMut, key: &str, t: &str)
    requires
        quotes_fit(t@),
    ensures
        document_values(*final(document)) == document_values(*old(document)).insert(
            key@,
            Entry::Text(t@),
        ),
{
    document[key] = toml_edit::value(t);
}

/// `toml_edit::DocumentMut::to_string`: writes a document that was read or begun
/// here and has been given values. Read again, it has the same under each key. How
/// it is laid out, and where its comments stand, is not said.
#[verifier::external_body]
fn document_text(document: &DocumentMut) -> (r: String)
    ensures
        values_in_text(r@) == Some(document_values(*document)),
{
    document.to_string()
}

fn write_settings(document: &mut DocumentMut, list: &Vec<Setting<String>>)
    requires
        forall|i: int|
            0 <= i < list@.len() ==> (#[trigger] list.deep_view()[i].value matches Scalar::Text(t)
                ==> quotes_fit(t)),
    ensures
        document_values(*final(document)) == written(
            document_values(*old(document)),
            list.deep_view(),
        ),
{
    let ghost before = document_values(*document);
    let ghost all = list.deep_view();
    assert(all.take(0) =~= Seq::<SettingModel>::empty());
    for i in 0..list.len()
        invariant
            all == list.deep_view(),
            forall|k: int|
                0 <= k < list@.len() ==> (#[trigger] list.deep_view()[k].value matches Scalar::Text(
                    t,
                ) ==> quotes_fit(t)),
            document_values(*document) == written(before, all.take(i as int)),
    {
        assert(all[i as int] == list@[i as int].deep_view());
        assert(all.take(i as int + 1).drop_last() =~= all.take(i as int));
        match &list[i].value {
            Scalar::Bool(b) => set_bool(document, list[i].key.as_str(), *b),
            Scalar::Int(n) => set_int(document, list[i].key.as_str(), *n),
            Scalar::Text(t) => {
                assert(list.deep_view()[i as int].value == Scalar::Text(t@));
                set_text(document, list[i].key.as_str(), t.as_str())
            },
        }
    }
    assert(all.take(all.len() as int) =~= all);
}

/// The values of a file; a text that is no document has none.
pub open spec fn values_or_none(raw: Seq<char>) -> Map<Seq<char>, Entry> {
    match values_in_text(raw) {
        Some(m) => m,
        None => no_values(),
    }
}

/// Whether each text among the settings can be written.
pub open spec fn can_be_saved(c: ConfigModel) -> bool {
    forall|i: int|
        0 <= i < settings_of(c).len() ==> (#[trigger] settings_of(c)[i].value matches Scalar::Text(t)
            ==> quotes_fit(t))
}

impl AppConfig<String> {
    fn push_part1(&self, list: &mut Vec<Setting<String>>)
        ensures
            final(list).deep_view() == with_part1(old(list).deep_view(), self@),
    {
        push_bool(list, "advertise", self.advertise);
        push_bool(list, "enable_companion_bt", self.enable_companion_bt);
        push_bool(list, "companion_bt_auth_required", self.companion_bt_auth_required);
        push_setting_text(list, "companion_bt_auth_token", self.companion_bt_auth_token.as_str());
        push_bool(list, "dongle_mode", self.dongle_mode);
        push_setting_text(list, "preload_kernel_modules", self.preload_kernel_modules.as_str());
        push_setting_text(list, "kernel_module_path", self.kernel_module_path.as_str());
        push_bool(list, "bt_wireless_proxy", self.bt_wireless_proxy);
        push_setting_text(list, "bt_wireless_proxy_mode", self.bt_wireless_proxy_mode.as_str());
        push_setting_text(list, "bt_wireless_proxy_hu_mac", self.bt_wireless_proxy_hu_mac.as_str());
        push_int(list, "bt_wireless_proxy_pairing_window_secs", wrap(self.bt_wireless_proxy_pairing_window_secs as u64));
        push_bool(list, "bt_wireless_proxy_phone_like_pairing", self.bt_wireless_proxy_phone_like_pairing);
        push_setting_text(list, "bt_wireless_proxy_phone_like_pairing_alias", self.bt_wireless_proxy_phone_like_pairing_alias.as_str());
        push_setting_text(list, "bt_wireless_proxy_phone_like_pairing_class", self.bt_wireless_proxy_phone_like_pairing_class.as_str());
    }

    fn push_part2(&self, list: &mut Vec<Setting<String>>)
        ensures
            final(list).deep_view() == with_part2(old(list).deep_view(), self@),
    {
        push_bool(list, "bt_wireless_proxy_phone_like_sdp_profiles", self.bt_wireless_proxy_phone_like_sdp_profiles);
        push_setting_text(list, "bt_wireless_proxy_phone_like_sdp_profile_set", self.bt_wireless_proxy_phone_like_sdp_profile_set.as_str());
        push_setting_text(list, "bt_wireless_proxy_rendezvous_mode", self.bt_wireless_proxy_rendezvous_mode.as_str());
        push_int(list, "bt_wireless_proxy_hu_first_wait_phone_secs", wrap(self.bt_wireless_proxy_hu_first_wait_phone_secs as u64));
        push_int(
            list,
            "bt_wireless_proxy_hu_channel",
            match self.bt_wireless_proxy_hu_channel {
                Some(x) => x as i64,
                None => 0,
            },
        );
        push_bool(list, "bt_wireless_proxy_tcp_probe", self.bt_wireless_proxy_tcp_probe);
        push_setting_text(list, "bt_wireless_proxy_car_wifi_base_iface", self.bt_wireless_proxy_car_wifi_base_iface.as_str());
        push_setting_text(list, "bt_wireless_proxy_car_wifi_join_cmd", self.bt_wireless_proxy_car_wifi_join_cmd.as_str());
        push_bool(list, "bt_wireless_proxy_car_wifi_auto_join", self.bt_wireless_proxy_car_wifi_auto_join);
        push_setting_text(list, "bt_wireless_proxy_wifi_join_control", self.bt_wireless_proxy_wifi_join_control.as_str());
        push_int(list, "bt_wireless_proxy_wpactrl_socket_timeout_secs", wrap(self.bt_wireless_proxy_wpactrl_socket_timeout_secs as u64));
        push_int(list, "bt_wireless_proxy_wifi_association_timeout_secs", wrap(self.bt_wireless_proxy_wifi_association_timeout_secs as u64));
        push_int(list, "bt_wireless_proxy_dhcp_timeout_secs", wrap(self.bt_wireless_proxy_dhcp_timeout_secs as u64));
        push_bool(list, "bt_wireless_proxy_car_wifi_keep_ap", self.bt_wireless_proxy_car_wifi_keep_ap);
    }

    fn push_part3(&self, list: &mut Vec<Setting<String>>)
        ensures
            final(list).deep_view() == with_part3(old(list).deep_view(), self@),
    {
        push_setting_text(list, "bt_wireless_proxy_car_wifi_sta_iface", self.bt_wireless_proxy_car_wifi_sta_iface.as_str());
        push_setting_text(list, "bt_wireless_proxy_car_wifi_sta_phy", self.bt_wireless_proxy_car_wifi_sta_phy.as_str());
        push_setting_text(list, "bt_wireless_proxy_car_wifi_ap_iface", self.bt_wireless_proxy_car_wifi_ap_iface.as_str());
        push_setting_text(list, "bt_wireless_proxy_phone_wifi_mode", self.bt_wireless_proxy_phone_wifi_mode.as_str());
        push_setting_text(list, "bt_wireless_proxy_rewrite_ip", self.bt_wireless_proxy_rewrite_ip.as_str());
        push_int(list, "bt_wireless_proxy_listen_port", self.bt_wireless_proxy_listen_port as i64);
        push_bool(list, "bt_wireless_proxy_use_version_projection_fallback", self.bt_wireless_proxy_use_version_projection_fallback);
        push_bool(list, "bt_wireless_proxy_wpp_keepalive", self.bt_wireless_proxy_wpp_keepalive);
        push_int(list, "bt_wireless_proxy_wpp_keepalive_interval_ms", wrap(self.bt_wireless_proxy_wpp_keepalive_interval_ms as u64));
        push_bool(list, "debug", self.debug);
        push_bool(list, "pkt_debug", self.pkt_debug);
        push_setting_text(list, "hexdump_level", self.hexdump_level.as_str());
        push_bool(list, "disable_console_debug", self.disable_console_debug);
        push_bool(list, "pkt_debug_filter_enabled", self.pkt_debug_filter_enabled);
    }

    fn push_part4(&self, list: &mut Vec<Setting<String>>)
        ensures
            final(list).deep_view() == with_part4(old(list).deep_view(), self@),
    {
        push_setting_text(list, "pkt_debug_filter_proxy", self.pkt_debug_filter_proxy.as_str());
        push_setting_text(list, "pkt_debug_filter_stages", self.pkt_debug_filter_stages.as_str());
        push_setting_text(list, "pkt_debug_filter_service_kinds", self.pkt_debug_filter_service_kinds.as_str());
        push_setting_text(list, "pkt_debug_filter_channels", self.pkt_debug_filter_channels.as_str());
        push_setting_text(list, "pkt_debug_filter_exclude_channels", self.pkt_debug_filter_exclude_channels.as_str());
        push_setting_text(list, "pkt_debug_filter_message_ids", self.pkt_debug_filter_message_ids.as_str());
        push_setting_text(list, "pkt_debug_filter_exclude_message_ids", self.pkt_debug_filter_exclude_message_ids.as_str());
        push_bool(list, "pkt_debug_filter_pretty_proto", self.pkt_debug_filter_pretty_proto);
        push_int(list, "pkt_debug_filter_max_payload_bytes", wrap(self.pkt_debug_filter_max_payload_bytes as u64));
        push_bool(list, "pkt_debug_full_frame_enabled", self.pkt_debug_full_frame_enabled);
        push_bool(list, "legacy", self.legacy);
        push_bool(list, "usb_gadget_require_accessory_start", self.usb_gadget_require_accessory_start);
        push_bool(list, "usb_gadget_rearm_on_disconnect", self.usb_gadget_rearm_on_disconnect);
        push_int(list, "usb_gadget_rearm_cooldown_ms", wrap(self.usb_gadget_rearm_cooldown_ms as u64));
    }

    fn push_part5(&self, list: &mut Vec<Setting<String>>)
        ensures
            final(list).deep_view() == with_part5(old(list).deep_view(), self@),
    {
        push_bool(list, "quick_reconnect", self.quick_reconnect);
        push_bool(list, "bt_poweroff", self.bt_poweroff);
        push_setting_text(list, "connect", self.connect.as_str());
        push_setting_text(list, "logfile", self.logfile.as_str());
        push_bool(list, "crash_handler_enabled", self.crash_handler_enabled);
        push_setting_text(list, "crash_dir", self.crash_dir.as_str());
        push_bool(list, "sdr_ui_override_enabled", self.sdr_ui_override_enabled);
        push_bool(list, "sdr_ui_override_autocreate_profiles", self.sdr_ui_override_autocreate_profiles);
        push_setting_text(list, "sdr_ui_override_file", self.sdr_ui_override_file.as_str());
        push_setting_text(list, "inject_displays_file", self.inject_displays_file.as_str());
        push_int(list, "stats_interval", self.stats_interval as i64);
    }

    fn push_part6(&self, list: &mut Vec<Setting<String>>)
        ensures
            final(list).deep_view() == with_part6(old(list).deep_view(), self@),
    {
        push_setting_text(list, "iface", self.iface.as_str());
    }

    fn push_part7(&self, list: &mut Vec<Setting<String>>)
        ensures
            final(list).deep_view() == with_part7(old(list).deep_view(), self@),
    {
        push_int(list, "timeout_secs", self.timeout_secs as i64);
    }

    fn push_part8(&self, list: &mut Vec<Setting<String>>)
        ensures
            final(list).deep_view() == with_part8(old(list).deep_view(), self@),
    {
        push_int(list, "bt_timeout_secs", self.bt_timeout_secs as i64);
        push_bool(list, "mitm", self.mitm);
        push_int(list, "dpi", self.dpi as i64);
        push_int(list, "audio_max_unacked", self.audio_max_unacked as i64);
        push_bool(list, "add_vendor_channel", self.add_vendor_channel);
        push_bool(list, "remove_tap_restriction", self.remove_tap_restriction);
        push_bool(list, "video_in_motion", self.video_in_motion);
        push_bool(list, "disable_media_sink", self.disable_media_sink);
        push_bool(list, "disable_tts_sink", self.disable_tts_sink);
        push_bool(list, "developer_mode", self.developer_mode);
        push_setting_text(list, "wired", text_or_empty(&self.wired));
        push_bool(list, "dhu", self.dhu);
        push_setting_text(list, "aa_server_tcp_addr", self.aa_server_tcp_addr.as_str());
        push_bool(list, "ev", self.ev);
    }

    fn push_part9(&self, list: &mut Vec<Setting<String>>)
        ensures
            final(list).deep_view() == with_part9(old(list).deep_view(), self@),
    {
        push_bool(list, "odometer", self.odometer);
        push_bool(list, "tire_pressure", self.tire_pressure);
        push_bool(list, "remove_bluetooth", self.remove_bluetooth);
        push_bool(list, "bt_real_hu_passthrough_enabled", self.bt_real_hu_passthrough_enabled);
        push_setting_text(list, "bt_real_hu_passthrough_address", self.bt_real_hu_passthrough_address.as_str());
        push_bool(list, "bt_a2dp_sink_enabled", self.bt_a2dp_sink_enabled);
        push_bool(list, "remove_wifi", self.remove_wifi);
        push_setting_text(list, "inject_display_types", self.inject_display_types.as_str());
        push_bool(list, "inject_add_input_sources", self.inject_add_input_sources);
        push_int(list, "inject_cluster_display_id", self.inject_cluster_display_id as i64);
        push_int(list, "inject_cluster_width_margin", self.inject_cluster_width_margin as i64);
        push_int(list, "inject_cluster_height_margin", self.inject_cluster_height_margin as i64);
        push_int(list, "inject_cluster_density", self.inject_cluster_density as i64);
        push_int(list, "inject_cluster_viewing_distance", self.inject_cluster_viewing_distance as i64);
    }

    fn push_part10(&self, list: &mut Vec<Setting<String>>)
        ensures
            final(list).deep_view() == with_part10(old(list).deep_view(), self@),
    {
        push_setting_text(list, "inject_cluster_codec_resolution", self.inject_cluster_codec_resolution.as_str());
        push_int(list, "inject_cluster_touch_width", self.inject_cluster_touch_width as i64);
        push_int(list, "inject_cluster_touch_height", self.inject_cluster_touch_height as i64);
        push_int(list, "inject_aux_display_id", self.inject_aux_display_id as i64);
        push_int(list, "inject_aux_width_margin", self.inject_aux_width_margin as i64);
        push_int(list, "inject_aux_height_margin", self.inject_aux_height_margin as i64);
        push_int(list, "inject_aux_density", self.inject_aux_density as i64);
        push_int(list, "inject_aux_viewing_distance", self.inject_aux_viewing_distance as i64);
        push_int(list, "inject_aux_touch_width", self.inject_aux_touch_width as i64);
        push_int(list, "inject_aux_touch_height", self.inject_aux_touch_height as i64);
        push_bool(list, "inject_force_focus_without_tap", self.inject_force_focus_without_tap);
        push_bool(list, "change_usb_order", self.change_usb_order);
        push_bool(list, "stop_on_disconnect", self.stop_on_disconnect);
        push_bool(list, "waze_lht_workaround", self.waze_lht_workaround);
    }

    fn push_part11(&self, list: &mut Vec<Setting<String>>)
        ensures
            final(list).deep_view() == with_part11(old(list).deep_view(), self@),
    {
        push_setting_text(list, "ev_connector_types", self.ev_connector_types.as_str());
        push_bool(list, "enable_ssh", self.enable_ssh);
        push_bool(list, "usb_serial_console", self.usb_serial_console);
        push_int(list, "wifi_version", self.wifi_version as i64);
        push_setting_text(list, "band", self.band.as_str());
        push_setting_text(list, "country_code", self.country_code.as_str());
        push_int(list, "channel", self.channel as i64);
        push_setting_text(list, "ssid", self.ssid.as_str());
        push_setting_text(list, "wpa_passphrase", self.wpa_passphrase.as_str());
        push_setting_text(list, "eth_mode", self.eth_mode.as_str());
        push_int(list, "startup_delay", self.startup_delay as i64);
        push_bool(list, "protocol_version_override_enabled", self.protocol_version_override_enabled);
        push_int(list, "protocol_version_override_major", self.protocol_version_override_major as i64);
        push_int(list, "protocol_version_override_minor", self.protocol_version_override_minor as i64);
    }

    fn push_part12(&self, list: &mut Vec<Setting<String>>)
        ensures
            final(list).deep_view() == with_part12(old(list).deep_view(), self@),
    {
        push_bool(list, "external_antenna", self.external_antenna);
    }

    fn push_part13(&self, list: &mut Vec<Setting<String>>)
        ensures
            final(list).deep_view() == with_part13(old(list).deep_view(), self@),
    {
        push_bool(list, "media_wait_for_live_idr", self.media_wait_for_live_idr);
        push_bool(list, "map_album_art_enabled", self.map_album_art_enabled);
        push_setting_text(list, "map_album_art_source", self.map_album_art_source.as_str());
        push_setting_text(list, "map_album_art_file", self.map_album_art_file.as_str());
        push_int(list, "map_album_art_max_bytes", wrap(self.map_album_art_max_bytes as u64));
        push_int(list, "map_album_art_chunk_bytes", wrap(self.map_album_art_chunk_bytes as u64));
        push_setting_text(list, "map_album_art_video_display_id", self.map_album_art_video_display_id.as_str());
        push_int(list, "map_album_art_capture_interval_ms", wrap(self.map_album_art_capture_interval_ms as u64));
        push_int(list, "map_album_art_output_size_px", self.map_album_art_output_size_px as i64);
        push_bool(list, "map_album_art_crop_enabled", self.map_album_art_crop_enabled);
        push_setting_text(list, "map_album_art_crop_mode", self.map_album_art_crop_mode.as_str());
        push_int(list, "map_album_art_crop_x", self.map_album_art_crop_x as i64);
        push_int(list, "map_album_art_crop_y", self.map_album_art_crop_y as i64);
        push_int(list, "map_album_art_crop_w", self.map_album_art_crop_w as i64);
    }

    fn push_part14(&self, list: &mut Vec<Setting<String>>)
        ensures
            final(list).deep_view() == with_part14(old(list).deep_view(), self@),
    {
        push_int(list, "map_album_art_crop_h", self.map_album_art_crop_h as i64);
        push_bool(list, "map_album_art_duration_tick_enabled", self.map_album_art_duration_tick_enabled);
        push_setting_text(list, "map_album_art_ev_text_mode", self.map_album_art_ev_text_mode.as_str());
        push_int(list, "map_album_art_ev_prefix_max_age_ms", wrap(self.map_album_art_ev_prefix_max_age_ms as u64));
        push_bool(list, "vehicle_energy_forecast_keep_last_on_null", self.vehicle_energy_forecast_keep_last_on_null);
        push_bool(list, "collect_speed", self.collect_speed);
        push_bool(list, "disable_driving_status", self.disable_driving_status);
    }

    fn push_part15(&self, list: &mut Vec<Setting<String>>)
        ensures
            final(list).deep_view() == with_part15(old(list).deep_view(), self@),
    {
        push_bool(list, "bt_sco", self.bt_sco);
        push_bool(list, "bt_sco_keep_bluetooth_alive", self.bt_sco_keep_bluetooth_alive);
        push_bool(list, "bt_sco_media_bridge", self.bt_sco_media_bridge);
        push_setting_text(list, "bt_sco_media_bridge_audio_type", self.bt_sco_media_bridge_audio_type.as_str());
        push_int(list, "bt_sco_media_bridge_gain_percent", self.bt_sco_media_bridge_gain_percent as i64);
        push_setting_text(list, "bt_sco_media_bridge_limiter", self.bt_sco_media_bridge_limiter.as_str());
        push_setting_text(list, "bt_sco_media_bridge_resampler", self.bt_sco_media_bridge_resampler.as_str());
        push_int(list, "bt_sco_media_bridge_ring_capacity", wrap(self.bt_sco_media_bridge_ring_capacity as u64));
        push_bool(list, "bt_sco_media_bridge_start_existing", self.bt_sco_media_bridge_start_existing);
        push_bool(list, "bt_sco_media_bridge_start_on_first_audio", self.bt_sco_media_bridge_start_on_first_audio);
        push_int(list, "bt_sco_media_bridge_audio_peak_threshold", self.bt_sco_media_bridge_audio_peak_threshold as i64);
        push_int(list, "bt_sco_media_bridge_start_timeout_ms", self.bt_sco_media_bridge_start_timeout_ms as i64);
        push_bool(list, "bt_sco_media_bridge_stop_existing_on_disconnect", self.bt_sco_media_bridge_stop_existing_on_disconnect);
        push_bool(list, "bt_sco_media_bridge_fixed_cadence", self.bt_sco_media_bridge_fixed_cadence);
    }

    fn push_part16(&self, list: &mut Vec<Setting<String>>)
        ensures
            final(list).deep_view() == with_part16(old(list).deep_view(), self@),
    {
        push_int(list, "bt_sco_media_bridge_cadence_ms", self.bt_sco_media_bridge_cadence_ms as i64);
        push_int(list, "bt_sco_media_bridge_jitter_buffer_ms", self.bt_sco_media_bridge_jitter_buffer_ms as i64);
        push_bool(list, "bt_sco_mic_bridge", self.bt_sco_mic_bridge);
        push_bool(list, "bt_sco_mic_request", self.bt_sco_mic_request);
        push_int(list, "bt_sco_mic_uplink_ring_capacity", wrap(self.bt_sco_mic_uplink_ring_capacity as u64));
        push_setting_text(list, "bt_sco_mic_echo_control", self.bt_sco_mic_echo_control.as_str());
        push_int(list, "bt_sco_mic_gain_percent", self.bt_sco_mic_gain_percent as i64);
        push_int(list, "bt_sco_mic_duck_threshold", self.bt_sco_mic_duck_threshold as i64);
        push_int(list, "bt_sco_mic_duck_percent", self.bt_sco_mic_duck_percent as i64);
        push_int(list, "bt_sco_mic_duck_hold_ms", self.bt_sco_mic_duck_hold_ms as i64);
        push_setting_text(list, "wasm_hooks_dir", self.wasm_hooks_dir.as_str());
        push_int(list, "wasm_script_memory_limit_mb", self.wasm_script_memory_limit_mb as i64);
        push_int(list, "wasm_script_instance_limit", self.wasm_script_instance_limit as i64);
        push_int(list, "wasm_script_memory_count_limit", self.wasm_script_memory_count_limit as i64);
    }

    fn push_part17(&self, list: &mut Vec<Setting<String>>)
        ensures
            final(list).deep_view() == with_part17(old(list).deep_view(), self@),
    {
        push_int(list, "wasm_script_table_limit", self.wasm_script_table_limit as i64);
        push_int(list, "wasm_script_table_elements_limit", self.wasm_script_table_elements_limit as i64);
        push_int(list, "wasm_script_packet_epoch_deadline", wrap(self.wasm_script_packet_epoch_deadline as u64));
        push_int(list, "wasm_script_lifecycle_epoch_deadline", wrap(self.wasm_script_lifecycle_epoch_deadline as u64));
    }

    /// What is written of the settings.
    pub fn settings(&self) -> (r: Vec<Setting<String>>)
        ensures
            r.deep_view() == settings_of(self@),
    {
        let mut list: Vec<Setting<String>> = Vec::new();
        assert(list.deep_view() =~= Seq::<SettingModel>::empty());
        proof {
            reveal(settings_of);
        }
        self.push_part1(&mut list);
        self.push_part2(&mut list);
        self.push_part3(&mut list);
        self.push_part4(&mut list);
        self.push_part5(&mut list);
        push_opt_text(&mut list, "udc", &self.udc);
        self.push_part6(&mut list);
        push_opt_text(&mut list, "btalias", &self.btalias);
        self.push_part7(&mut list);
        push_opt_text(&mut list, "webserver", &self.webserver);
        self.push_part8(&mut list);
        self.push_part9(&mut list);
        self.push_part10(&mut list);
        push_opt_text(&mut list, "ev_battery_logger", &self.ev_battery_logger);
        self.push_part11(&mut list);
        self.push_part12(&mut list);
        push_opt_port(&mut list, "media_dump_base_port", self.media_dump_base_port);
        self.push_part13(&mut list);
        self.push_part14(&mut list);
        push_opt_text(&mut list, "hu_button_handler", &self.hu_button_handler);
        self.push_part15(&mut list);
        self.push_part16(&mut list);
        self.push_part17(&mut list);
        list
    }

    pub fn check_can_be_saved(&self) -> (r: bool)
        ensures
            r == can_be_saved(self@),
    {
        let list = self.settings();
        let ghost all = list.deep_view();
        for i in 0..list.len()
            invariant
                all == list.deep_view(),
                all == settings_of(self@),
                forall|k: int|
                    0 <= k < i ==> (#[trigger] all[k].value matches Scalar::Text(t) ==> quotes_fit(
                        t,
                    )),
        {
            assert(all[i as int] == list@[i as int].deep_view());
            if let Scalar::Text(t) = &list[i].value {
                if !check_quotes(t.as_str()) {
                    assert(!(settings_of(self@)[i as int].value matches Scalar::Text(t)
                        ==> quotes_fit(t)));
                    return false;
                }
            }
        }
        true
    }

    /// The contents of the file with the settings written to it. A file that
    /// cannot be read is begun anew.
    pub fn save(&self, raw: &str) -> (r: String)
        requires
            can_be_saved(self@),
        ensures
            values_in_text(r@) == Some(written(values_or_none(raw@), settings_of(self@))),
            is_saved(values_or_none(raw@), values_in_text(r@)->0, settings_of(self@)),
            keeps_unset(self@, values_or_none(raw@), values_in_text(r@)->0),
    {
        proof {
            config_keys::law_save_keeps_the_rest(values_or_none(raw@), self@);
        }
        let mut document = match parse_document(raw) {
            Some(d) => d,
            None => new_document(),
        };
        let list = self.settings();
        write_settings(&mut document, &list);
        document_text(&document)
    }

    /// The settings of a proxy that nobody has set up.
    pub fn default(iw_cache: &str, given: GivenDefaults<String>) -> (r: Self)
        ensures
            r@ == default_config(iw_cache@, given@),
    {
        let wifi_version: u16 = match get_latest_wifi_version_from(iw_cache) {
            Ok(v) => v,
            Err(_) => 1,
        };
        let fast = supports_5ghz_wifi_cached(iw_cache);
        let band = if fast {
            "5".to_owned()
        } else {
            "2.4".to_owned()
        };
        let channel: u8 = if fast {
            36
        } else {
            6
        };
        let r = AppConfig {
            advertise: true,
            enable_companion_bt: true,
            companion_bt_auth_required: true,
            companion_bt_auth_token: String::new(),
            dongle_mode: false,
            preload_kernel_modules: String::new(),
            kernel_module_path: "/data/aa-proxy-rs/firmware".to_owned(),
            bt_wireless_proxy: false,
            bt_wireless_proxy_mode: "car-wifi-mitm".to_owned(),
            bt_wireless_proxy_hu_mac: String::new(),
            bt_wireless_proxy_pairing_window_secs: 120,
            bt_wireless_proxy_phone_like_pairing: false,
            bt_wireless_proxy_phone_like_pairing_alias: "AndroidAuto".to_owned(),
            bt_wireless_proxy_phone_like_pairing_class: "0x00020C".to_owned(),
            bt_wireless_proxy_phone_like_sdp_profiles: false,
            bt_wireless_proxy_phone_like_sdp_profile_set: "minimal".to_owned(),
            bt_wireless_proxy_rendezvous_mode: "auto".to_owned(),
            bt_wireless_proxy_hu_first_wait_phone_secs: 30,
            bt_wireless_proxy_hu_channel: None,
            bt_wireless_proxy_tcp_probe: true,
            bt_wireless_proxy_car_wifi_base_iface: "wlan0".to_owned(),
            bt_wireless_proxy_car_wifi_join_cmd: String::new(),
            bt_wireless_proxy_car_wifi_auto_join: false,
            bt_wireless_proxy_wifi_join_control: "auto".to_owned(),
            bt_wireless_proxy_wpactrl_socket_timeout_secs: 12,
            bt_wireless_proxy_wifi_association_timeout_secs: 30,
            bt_wireless_proxy_dhcp_timeout_secs: 30,
            bt_wireless_proxy_car_wifi_keep_ap: false,
            bt_wireless_proxy_car_wifi_sta_iface: String::new(),
            bt_wireless_proxy_car_wifi_sta_phy: String::new(),
            bt_wireless_proxy_car_wifi_ap_iface: String::new(),
            bt_wireless_proxy_phone_wifi_mode: "car_ap".to_owned(),
            bt_wireless_proxy_rewrite_ip: String::new(),
            bt_wireless_proxy_listen_port: 5288,
            bt_wireless_proxy_use_version_projection_fallback: true,
            bt_wireless_proxy_wpp_keepalive: false,
            bt_wireless_proxy_wpp_keepalive_interval_ms: 2000,
            debug: false,
            pkt_debug: false,
            hexdump_level: "Disabled".to_owned(),
            disable_console_debug: false,
            pkt_debug_filter_enabled: false,
            pkt_debug_filter_proxy: "both".to_owned(),
            pkt_debug_filter_stages: String::new(),
            pkt_debug_filter_service_kinds: String::new(),
            pkt_debug_filter_channels: String::new(),
            pkt_debug_filter_exclude_channels: String::new(),
            pkt_debug_filter_message_ids: String::new(),
            pkt_debug_filter_exclude_message_ids: String::new(),
            pkt_debug_filter_pretty_proto: true,
            pkt_debug_filter_max_payload_bytes: 2048,
            pkt_debug_full_frame_enabled: false,
            legacy: true,
            usb_gadget_require_accessory_start: false,
            usb_gadget_rearm_on_disconnect: false,
            usb_gadget_rearm_cooldown_ms: 1500,
            quick_reconnect: false,
            bt_poweroff: false,
            connect: given.connect,
            logfile: "/var/log/aa-proxy-rs.log".to_owned(),
            crash_handler_enabled: true,
            crash_dir: DEFAULT_CRASH_DIR.to_owned(),
            sdr_ui_override_enabled: true,
            sdr_ui_override_autocreate_profiles: true,
            sdr_ui_override_file: DEFAULT_SDR_UI_OVERRIDE_FILE.to_owned(),
            inject_displays_file: DEFAULT_INJECT_DISPLAYS_FILE.to_owned(),
            stats_interval: 0,
            udc: None,
            iface: "wlan0".to_owned(),
            wlan_subnet: "10.0.0".to_owned(),
            btalias: None,
            timeout_secs: 10,
            webserver: webserver_default_bind(),
            bt_timeout_secs: 120,
            mitm: false,
            dpi: 0,
            audio_max_unacked: 0,
            add_vendor_channel: true,
            remove_tap_restriction: false,
            video_in_motion: false,
            disable_media_sink: false,
            disable_tts_sink: false,
            developer_mode: false,
            wired: None,
            dhu: false,
            aa_server_tcp_addr: String::new(),
            ev: false,
            odometer: false,
            tire_pressure: false,
            remove_bluetooth: false,
            bt_real_hu_passthrough_enabled: false,
            bt_real_hu_passthrough_address: String::new(),
            bt_a2dp_sink_enabled: false,
            remove_wifi: false,
            inject_display_types: given.inject_display_types,
            inject_add_input_sources: false,
            inject_cluster_display_id: 1,
            inject_cluster_width_margin: 270,
            inject_cluster_height_margin: 344,
            inject_cluster_density: 180,
            inject_cluster_viewing_distance: 100,
            inject_cluster_codec_resolution: given.inject_cluster_codec_resolution,
            inject_cluster_touch_width: 1280,
            inject_cluster_touch_height: 720,
            inject_aux_display_id: 2,
            inject_aux_width_margin: 0,
            inject_aux_height_margin: 0,
            inject_aux_density: 160,
            inject_aux_viewing_distance: 300,
            inject_aux_touch_width: 1280,
            inject_aux_touch_height: 720,
            inject_force_focus_without_tap: false,
            change_usb_order: false,
            stop_on_disconnect: false,
            waze_lht_workaround: false,
            ev_battery_logger: None,
            ev_connector_types: given.ev_connector_types,
            enable_ssh: true,
            usb_serial_console: false,
            wifi_version: wifi_version,
            band: band,
            country_code: "US".to_owned(),
            channel: channel,
            ssid: IDENTITY_NAME.to_owned(),
            wpa_passphrase: IDENTITY_NAME.to_owned(),
            eth_mode: String::new(),
            startup_delay: 0,
            protocol_version_override_enabled: false,
            protocol_version_override_major: 5,
            protocol_version_override_minor: 1,
            external_antenna: false,
            media_dump_base_port: None,
            media_wait_for_live_idr: true,
            map_album_art_enabled: false,
            map_album_art_source: "file".to_owned(),
            map_album_art_file: DEFAULT_MAP_ALBUM_ART_FILE.to_owned(),
            map_album_art_max_bytes: 0,
            map_album_art_chunk_bytes: 16_120,
            map_album_art_video_display_id: "aux-1".to_owned(),
            map_album_art_capture_interval_ms: 2_000,
            map_album_art_output_size_px: 256,
            map_album_art_crop_enabled: true,
            map_album_art_crop_mode: "percent".to_owned(),
            map_album_art_crop_x: 30,
            map_album_art_crop_y: 20,
            map_album_art_crop_w: 40,
            map_album_art_crop_h: 40,
            map_album_art_duration_tick_enabled: false,
            map_album_art_ev_text_mode: "album_art".to_owned(),
            map_album_art_ev_prefix_max_age_ms: 0,
            vehicle_energy_forecast_keep_last_on_null: true,
            collect_speed: false,
            disable_driving_status: false,
            hu_button_handler: None,
            bt_sco: false,
            bt_sco_keep_bluetooth_alive: true,
            bt_sco_media_bridge: false,
            bt_sco_media_bridge_audio_type: BtScoMediaBridgeAudioType::Media,
            bt_sco_media_bridge_gain_percent: 300,
            bt_sco_media_bridge_limiter: BtScoMediaBridgeLimiter::Off,
            bt_sco_media_bridge_resampler: BtScoMediaBridgeResampler::Repeat,
            bt_sco_media_bridge_ring_capacity: 128,
            bt_sco_media_bridge_start_existing: true,
            bt_sco_media_bridge_start_on_first_audio: true,
            bt_sco_media_bridge_audio_peak_threshold: 256,
            bt_sco_media_bridge_start_timeout_ms: 5000,
            bt_sco_media_bridge_stop_existing_on_disconnect: true,
            bt_sco_media_bridge_fixed_cadence: false,
            bt_sco_media_bridge_cadence_ms: 22,
            bt_sco_media_bridge_jitter_buffer_ms: 60,
            bt_sco_mic_bridge: false,
            bt_sco_mic_request: true,
            bt_sco_mic_uplink_ring_capacity: 256,
            bt_sco_mic_echo_control: BtScoMicEchoControl::Ducking,
            bt_sco_mic_gain_percent: 100,
            bt_sco_mic_duck_threshold: 700,
            bt_sco_mic_duck_percent: 35,
            bt_sco_mic_duck_hold_ms: 180,
            wasm_hooks_dir: DEFAULT_WASM_HOOKS_DIR.to_owned(),
            wasm_script_memory_limit_mb: 5,
            wasm_script_instance_limit: 16,
            wasm_script_memory_count_limit: 4,
            wasm_script_table_limit: 8,
            wasm_script_table_elements_limit: 512,
            wasm_script_packet_epoch_deadline: 100,
            wasm_script_lifecycle_epoch_deadline: 1000,
            action_requested: None,
            runtime_mitm_failed: false,
        };
        assert(r@.companion_bt_auth_token =~= Seq::<char>::empty());
        r
    }
}

// ---------------------------------------------------------------------
// Laws

/// A key has the value of the last setting that was written under it.
pub proof fn law_last_setting_wins(
    values: Map<Seq<char>, Entry>,
    list: Seq<SettingModel>,
    i: int,
)
    requires
        0 <= i < list.len(),
        forall|j: int| i < j < list.len() ==> (#[trigger] list[j]).key != list[i].key,
    ensures
        written(values, list).contains_key(list[i].key),
        written(values, list)[list[i].key] == entry_of(list[i].value),
    decreases list.len(),
{
    if i < list.len() - 1 {
        assert(list[list.len() - 1].key != list[i].key);
        law_last_setting_wins(values, list.drop_last(), i);
    }
}

/// What is no setting of the proxy stays in the file as it was.
pub proof fn law_save_keeps_other_keys(
    values: Map<Seq<char>, Entry>,
    list: Seq<SettingModel>,
    key: Seq<char>,
)
    requires
        forall|j: int| 0 <= j < list.len() ==> (#[trigger] list[j]).key != key,
    ensures
        written(values, list).contains_key(key) == values.contains_key(key),
        values.contains_key(key) ==> written(values, list)[key] == values[key],
    decreases list.len(),
{
    if list.len() > 0 {
        assert(list[list.len() - 1].key != key);
        law_save_keeps_other_keys(values, list.drop_last(), key);
    }
}

/// To save twice is to save once.
pub proof fn law_save_again_changes_nothing(
    values: Map<Seq<char>, Entry>,
    list: Seq<SettingModel>,
)
    ensures
        written(written(values, list), list) =~= written(values, list),
{
    let once = written(values, list);
    assert forall|key: Seq<char>| true implies #[trigger] written(once, list).contains_key(key)
        == once.contains_key(key) && (once.contains_key(key) ==> written(once, list)[key]
        == once[key]) by {
        lemma_written_again(values, once, list, key);
    }
}

/// Where a key is written, what the file had under it makes no difference.
proof fn lemma_written_again(
    a: Map<Seq<char>, Entry>,
    b: Map<Seq<char>, Entry>,
    list: Seq<SettingModel>,
    key: Seq<char>,
)
    ensures
        (exists|j: int| 0 <= j < list.len() && (#[trigger] list[j]).key == key) ==> {
            &&& written(a, list).contains_key(key)
            &&& written(b, list).contains_key(key)
            &&& written(a, list)[key] == written(b, list)[key]
        },
        (forall|j: int| 0 <= j < list.len() ==> (#[trigger] list[j]).key != key) ==> {
            &&& written(a, list).contains_key(key) == a.contains_key(key)
            &&& a.contains_key(key) ==> written(a, list)[key] == a[key]
            &&& written(b, list).contains_key(key) == b.contains_key(key)
            &&& b.contains_key(key) ==> written(b, list)[key] == b[key]
        },
    decreases list.len(),
{
    if list.len() > 0 {
        lemma_written_again(a, b, list.drop_last(), key);
        assert(list[list.len() - 1] == list.last());
        if list.last().key != key {
            assert forall|j: int| 0 <= j < list.len() && (#[trigger] list[j]).key == key implies 0
                <= j < list.drop_last().len() && list.drop_last()[j].key == key by {
            }
        }
    }
}

/// The words and the numbers for the choices.
pub proof fn law_choices_have_their_words(n: u8)
    ensures
        BtScoMediaBridgeAudioType::Guidance.label() == "guidance"@,
        BtScoMediaBridgeAudioType::Media.label() == "media"@,
        BtScoMediaBridgeAudioType::Auto.label() == "auto"@,
        BtScoMediaBridgeLimiter::Off.label() == "off"@,
        BtScoMediaBridgeLimiter::Hard.label() == "hard"@,
        BtScoMediaBridgeLimiter::Soft.label() == "soft"@,
        BtScoMediaBridgeResampler::Repeat.label() == "repeat"@,
        BtScoMediaBridgeResampler::Linear.label() == "linear"@,
        BtScoMicEchoControl::Off.label() == "off"@,
        BtScoMicEchoControl::Ducking.label() == "ducking"@,
        BtScoMediaBridgeLimiter::Off.number() == 0,
        BtScoMediaBridgeLimiter::Hard.number() == 1,
        BtScoMediaBridgeLimiter::Soft.number() == 2,
        BtScoMediaBridgeLimiter::of_number(n) == BtScoMediaBridgeLimiter::Hard <==> n == 1,
        BtScoMediaBridgeLimiter::of_number(n) == BtScoMediaBridgeLimiter::Soft <==> n == 2,
{
}

/// A value that is left out, or that is white space alone, is none; a text is
/// taken without the white space around it, a number by its digits.
pub proof fn law_white_space_is_no_value(s: Seq<char>, i: i64)
    ensures
        given_text(None) is None,
        given_text(Some(Repr::Str(s))) is None <==> text::trimmed(s).len() == 0,
        text::trimmed(s).len() > 0 ==> given_text(Some(Repr::Str(s))) == Some(text::trimmed(s)),
        given_text(Some(Repr::Float(s))) == Some(s),
        i >= 0 ==> given_text(Some(Repr::Int(i))) == Some(text::decimal(i as nat)),
        i < 0 ==> given_text(Some(Repr::Int(i))) == Some("-"@ + text::decimal((-i) as nat)),
{
}

/// The generation of Wi-Fi is the newest whose mark stands in a line of the
/// device's description.
pub proof fn law_newest_mark_counts(iw: Seq<char>)
    ensures
        ({
            let mark = |pattern: Seq<char>|
                exists|i: int|
                    0 <= i < text::lines_of(iw).len() && text::holds(
                        #[trigger] text::lines_of(iw)[i],
                        pattern,
                    );
            let six = mark("HE PHY Capabilities"@);
            let five = mark("VHT Capabilities"@);
            let four = mark(" HT Capabilities"@) || mark("HT20"@) || mark("HT TX/RX MCS"@);
            let three = mark("54.0 Mbps"@);
            let two = mark("5180.0 MHz"@);
            let one = mark("11.0 Mbps"@);
            let got = latest_wifi_version(iw);
            &&& got == Some(6u16) <==> six
            &&& got == Some(5u16) <==> !six && five
            &&& got == Some(4u16) <==> !six && !five && four
            &&& got == Some(3u16) <==> !six && !five && !four && three
            &&& got == Some(2u16) <==> !six && !five && !four && !three && two
            &&& got == Some(1u16) <==> !six && !five && !four && !three && !two && one
            &&& got is None <==> !six && !five && !four && !three && !two && !one
            &&& supports_5ghz(iw) <==> two
        }),
{
}

/// A number that fits is written as it is; a larger one keeps its bits.
pub proof fn law_numbers_are_written_as_they_are(n: u64)
    ensures
        n <= 0x7fff_ffff_ffff_ffff ==> wrapped(n as int) == n,
        n > 0x7fff_ffff_ffff_ffff ==> wrapped(n as int) == n - 0x1_0000_0000_0000_0000,
{
}

proof fn lemma_run_grows(s: Seq<char>, c: char, n: nat)
    requires
        n <= s.len(),
        forall|i: int| s.len() - n <= i < s.len() ==> #[trigger] s[i] == c,
    ensures
        run_at_end(s, c) >= n,
    decreases n,
{
    if n > 0 {
        assert(s[s.len() - 1] == c);
        assert forall|i: int|
            s.drop_last().len() - (n - 1) <= i < s.drop_last().len() implies #[trigger] s.drop_last()[i]
            == c by {
            assert(s[i] == c);
        }
        lemma_run_grows(s.drop_last(), c, (n - 1) as nat);
    }
}

proof fn lemma_run_is_there(s: Seq<char>, c: char)
    ensures
        run_at_end(s, c) <= s.len(),
        forall|i: int| s.len() - run_at_end(s, c) <= i < s.len() ==> #[trigger] s[i] == c,
    decreases s.len(),
{
    if s.len() > 0 && s.last() == c {
        lemma_run_is_there(s.drop_last(), c);
        assert forall|i: int| s.len() - run_at_end(s, c) <= i < s.len() implies #[trigger] s[i] == c by {
            if i < s.len() - 1 {
                assert(s.drop_last()[i] == c);
            }
        }
    }
}

/// A text can be written unless 256 quotes of one sort follow each other in it.
pub proof fn law_long_runs_of_quotes_do_not_fit(s: Seq<char>)
    ensures
        quotes_fit(s) <==> !(exists|from: int|
            0 <= from <= s.len() - 256 && ((forall|i: int|
                from <= i < from + 256 ==> #[trigger] s[i] == '\'') || (forall|i: int|
                from <= i < from + 256 ==> #[trigger] s[i] == '"')) && #[trigger] s.take(from).len()
                == from),
{
    if exists|from: int|
        0 <= from <= s.len() - 256 && ((forall|i: int|
            from <= i < from + 256 ==> #[trigger] s[i] == '\'') || (forall|i: int|
            from <= i < from + 256 ==> #[trigger] s[i] == '"')) && #[trigger] s.take(from).len()
            == from {
        let from = choose|from: int|
            0 <= from <= s.len() - 256 && ((forall|i: int|
                from <= i < from + 256 ==> #[trigger] s[i] == '\'') || (forall|i: int|
                from <= i < from + 256 ==> #[trigger] s[i] == '"')) && #[trigger] s.take(from).len()
                == from;
        let t = s.take(from + 256);
        let c = s[from];
        assert forall|i: int| t.len() - 256 <= i < t.len() implies #[trigger] t[i] == c by {
            assert(t[i] == s[i]);
        }
        lemma_run_grows(t, c, 256);
    }
    if !quotes_fit(s) {
        let k = choose|k: int|
            0 <= k <= s.len() && !(run_at_end(#[trigger] s.take(k), '\'') <= 255 && run_at_end(
                s.take(k),
                '"',
            ) <= 255);
        let t = s.take(k);
        let c = if run_at_end(t, '\'') > 255 {
            '\''
        } else {
            '"'
        };
        lemma_run_is_there(t, c);
        let from = k - 256;
        assert forall|i: int| from <= i < from + 256 implies #[trigger] s[i] == c by {
            assert(t[i] == c);
        }
        assert(s.take(from).len() == from);
    }
}

} // verus!
