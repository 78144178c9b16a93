//! A session in the car's Wi-Fi network: the proxy stands between the phone and
//! the head unit from the Bluetooth bootstrap on.

use crate::clock;
use crate::frame::ProxyMessageId;
use crate::messages;
use crate::messages::MAX_TEXT;
use crate::pairing;
use crate::prebootstrap;
use crate::rendezvous;
use crate::rendezvous::CarWifiRendezvousMode;
use crate::text;
use crate::wifi_iface;
use crate::wifi_text;
use crate::wifi_text::WifiInfo;
use crate::wire;
use vstd::prelude::*;

verus! {

/// The port on which the proxy takes the phone's connection where none is named.
pub const TCP_SERVER_PORT: i32 = 5288;

/// The port on which the proxy takes the head unit's connection.
pub const TCP_DHU_PORT: i32 = 5277;

/// The port on which the proxy takes the phone's connection.
pub open spec fn port_for_phone(listen_port: u16) -> u16 {
    if listen_port == 0 {
        TCP_SERVER_PORT as u16
    } else {
        listen_port
    }
}

pub fn phone_port(listen_port: u16) -> (r: u16)
    ensures
        r == port_for_phone(listen_port),
{
    if listen_port == 0 {
        TCP_SERVER_PORT as u16
    } else {
        listen_port
    }
}

/// How a session is to run.
pub struct CarWifiMitmProxyOptions<T = String> {
    pub hu_mac: T,
    pub hu_channel: Option<u8>,
    /// Which side is connected first.
    pub rendezvous_mode: T,
    /// The interface for the car's network where no other is named.
    pub iface: T,
    pub join_cmd: T,
    pub auto_join: bool,
    pub join_control: T,
    /// The access point stays up in the car's network; an interface beside it joins.
    pub keep_ap: bool,
    /// The interface that joins the car's network.
    pub sta_iface: T,
    pub sta_phy: T,
    /// The interface of the access point.
    pub ap_iface: T,
    /// Which network the phone joins: the car's or the proxy's.
    pub phone_wifi_mode: T,
    pub phone_ap_ssid: T,
    pub phone_ap_key: T,
    pub phone_ap_ip: T,
    pub phone_ap_channel: u8,
    pub rewrite_ip: T,
    /// Where the proxy takes the phone's connection.
    pub listen_port: u16,
    pub use_version_projection_fallback: bool,
    pub protocol_version_override_enabled: bool,
    pub protocol_version_override_major: u16,
    pub protocol_version_override_minor: u16,
    pub wpp_keepalive: bool,
    pub wpp_keepalive_interval_ms: u64,
    pub wpactrl_socket_timeout_ms: u64,
    pub wifi_association_timeout_ms: u64,
    pub dhcp_timeout_ms: u64,
    pub hu_first_wait_phone_timeout_ms: u64,
    pub bt_timeout_ms: u64,
    pub stopped: bool,
}

impl View for CarWifiMitmProxyOptions<String> {
    type V = CarWifiMitmProxyOptions<Seq<char>>;

    open spec fn view(&self) -> CarWifiMitmProxyOptions<Seq<char>> {
        CarWifiMitmProxyOptions {
            hu_mac: self.hu_mac@,
            hu_channel: self.hu_channel,
            rendezvous_mode: self.rendezvous_mode@,
            iface: self.iface@,
            join_cmd: self.join_cmd@,
            auto_join: self.auto_join,
            join_control: self.join_control@,
            keep_ap: self.keep_ap,
            sta_iface: self.sta_iface@,
            sta_phy: self.sta_phy@,
            ap_iface: self.ap_iface@,
            phone_wifi_mode: self.phone_wifi_mode@,
            phone_ap_ssid: self.phone_ap_ssid@,
            phone_ap_key: self.phone_ap_key@,
            phone_ap_ip: self.phone_ap_ip@,
            phone_ap_channel: self.phone_ap_channel,
            rewrite_ip: self.rewrite_ip@,
            listen_port: self.listen_port,
            use_version_projection_fallback: self.use_version_projection_fallback,
            protocol_version_override_enabled: self.protocol_version_override_enabled,
            protocol_version_override_major: self.protocol_version_override_major,
            protocol_version_override_minor: self.protocol_version_override_minor,
            wpp_keepalive: self.wpp_keepalive,
            wpp_keepalive_interval_ms: self.wpp_keepalive_interval_ms,
            wpactrl_socket_timeout_ms: self.wpactrl_socket_timeout_ms,
            wifi_association_timeout_ms: self.wifi_association_timeout_ms,
            dhcp_timeout_ms: self.dhcp_timeout_ms,
            hu_first_wait_phone_timeout_ms: self.hu_first_wait_phone_timeout_ms,
            bt_timeout_ms: self.bt_timeout_ms,
            stopped: self.stopped,
        }
    }
}

pub type OptionsModel = CarWifiMitmProxyOptions<Seq<char>>;

/// How the car's network is to be joined.
pub struct JoinRequest<T> {
    pub control: T,
    pub base_iface: T,
    pub sta_iface: T,
    pub sta_phy: T,
    pub ap_iface: T,
    /// Whether the access point stays up.
    pub keep_ap: bool,
}

impl View for JoinRequest<String> {
    type V = JoinRequest<Seq<char>>;

    open spec fn view(&self) -> JoinRequest<Seq<char>> {
        JoinRequest {
            control: self.control@,
            base_iface: self.base_iface@,
            sta_iface: self.sta_iface@,
            sta_phy: self.sta_phy@,
            ap_iface: self.ap_iface@,
            keep_ap: self.keep_ap,
        }
    }
}

/// What the session asks for next.
pub enum MitmAction<T, B> {
    /// Register the headset profile that wakes the phone.
    RegisterHsp,
    /// Connect the head unit and the phone, in this order or the other.
    Rendezvous { hu_first: bool },
    /// Hang up on the phones that were called.
    DisconnectPhones { reason: T },
    /// Run the exchange before the bootstrap; it gets this long.
    Exchange { ms: u64 },
    /// Read a start request.
    ParseStart { payload: B },
    /// Send a frame to the head unit.
    SendHu { id: u16, payload: B },
    /// Read a frame of the head unit.
    ReadHu,
    /// Read a Wi-Fi info.
    ParseInfo { payload: B },
    /// Ping the head unit from now on, this often.
    StartKeepalive { interval_ms: u64 },
    /// Find the interface for the car's network.
    ResolveExternal { configured: T, phone_ap: T },
    /// Take the phone's access point down.
    StopPhoneAp { iface: T },
    /// Join the car's network.
    Join { request: JoinRequest<T> },
    /// Stop any `wpa_supplicant`.
    StopSupplicant { reason: T },
    /// Let some time pass.
    Sleep { ms: u64 },
    /// Find the address of the proxy on the car's network.
    FindRewriteIp { target: T, iface: T, configured: T },
    /// On which channel is the interface?
    CurrentChannel { iface: T },
    /// Start the phone's access point on an interface of its own.
    StartExternalAp { iface: T, ip: T, wanted: u8, fallback: u32 },
    /// Make an interface for the phone's access point.
    EnsureAp { iface: T, beside: T },
    /// Start the phone's access point.
    StartAp { iface: T, ip: T, channel: u32 },
    /// Repair the route to the head unit.
    RepairRoute { target: T, iface: T, ssid: T, source: T },
    /// Read the hardware address of an interface.
    ReadMac { iface: T },
    /// Write a Wi-Fi info.
    EncodeInfo { info: WifiInfo<T> },
    /// Note how many phones have connected, and let the proxy take the next one.
    ArmPhoneTcp,
    /// Write a start request with another endpoint.
    EncodeStart { original: B, ip: T, port: u16 },
    /// Bring the phone back; it was lost by this error in this attempt.
    ReconnectPhone { attempt: u8, error: T },
    /// Make sure that the proxy takes the phone's connection.
    WakeTcp,
    /// Send a frame to the phone.
    SendPhone { id: u16, payload: B },
    /// Wait for a message of the phone; a cached Wi-Fi info may be sent again.
    AwaitPhone { expected: ProxyMessageId, cached: Option<B>, ms: u64 },
    /// Collect the phone's connection status meanwhile.
    CollectStatus,
    /// Wait until the phone has connected by TCP.
    AwaitBarrier { seq_before: u64, ms: u64 },
    /// Connect to the head unit by TCP.
    ConnectHu { address: T, ip: T, iface: T, ssid: T, source: T },
    /// Connect to the proxy's own head unit side.
    ConnectLocal { port: u16, ms: u64 },
    /// Ping the head unit no longer.
    StopKeepalive,
    /// Pass the phone's connection status on to the head unit meanwhile.
    ForwardStatus,
    /// Copy bytes both ways until one side ends.
    Bridge,
    /// The session is over.
    Done,
    /// The session has failed.
    Fail { error: T },
}

impl View for MitmAction<String, Vec<u8>> {
    type V = MitmAction<Seq<char>, Seq<u8>>;

    open spec fn view(&self) -> MitmAction<Seq<char>, Seq<u8>> {
        match *self {
            MitmAction::RegisterHsp => MitmAction::RegisterHsp,
            MitmAction::Rendezvous { hu_first } => MitmAction::Rendezvous { hu_first },
            MitmAction::DisconnectPhones { reason } => MitmAction::DisconnectPhones { reason: reason@ },
            MitmAction::Exchange { ms } => MitmAction::Exchange { ms },
            MitmAction::ParseStart { payload } => MitmAction::ParseStart { payload: payload@ },
            MitmAction::SendHu { id, payload } => MitmAction::SendHu { id, payload: payload@ },
            MitmAction::ReadHu => MitmAction::ReadHu,
            MitmAction::ParseInfo { payload } => MitmAction::ParseInfo { payload: payload@ },
            MitmAction::StartKeepalive { interval_ms } => MitmAction::StartKeepalive { interval_ms },
            MitmAction::ResolveExternal { configured, phone_ap } => MitmAction::ResolveExternal { configured: configured@, phone_ap: phone_ap@ },
            MitmAction::StopPhoneAp { iface } => MitmAction::StopPhoneAp { iface: iface@ },
            MitmAction::Join { request } => MitmAction::Join { request: request@ },
            MitmAction::StopSupplicant { reason } => MitmAction::StopSupplicant { reason: reason@ },
            MitmAction::Sleep { ms } => MitmAction::Sleep { ms },
            MitmAction::FindRewriteIp { target, iface, configured } => MitmAction::FindRewriteIp { target: target@, iface: iface@, configured: configured@ },
            MitmAction::CurrentChannel { iface } => MitmAction::CurrentChannel { iface: iface@ },
            MitmAction::StartExternalAp { iface, ip, wanted, fallback } => MitmAction::StartExternalAp { iface: iface@, ip: ip@, wanted, fallback },
            MitmAction::EnsureAp { iface, beside } => MitmAction::EnsureAp { iface: iface@, beside: beside@ },
            MitmAction::StartAp { iface, ip, channel } => MitmAction::StartAp { iface: iface@, ip: ip@, channel },
            MitmAction::RepairRoute { target, iface, ssid, source } => MitmAction::RepairRoute { target: target@, iface: iface@, ssid: ssid@, source: source@ },
            MitmAction::ReadMac { iface } => MitmAction::ReadMac { iface: iface@ },
            MitmAction::EncodeInfo { info } => MitmAction::EncodeInfo { info: info@ },
            MitmAction::ArmPhoneTcp => MitmAction::ArmPhoneTcp,
            MitmAction::EncodeStart { original, ip, port } => MitmAction::EncodeStart { original: original@, ip: ip@, port },
            MitmAction::ReconnectPhone { attempt, error } => MitmAction::ReconnectPhone { attempt, error: error@ },
            MitmAction::WakeTcp => MitmAction::WakeTcp,
            MitmAction::SendPhone { id, payload } => MitmAction::SendPhone { id, payload: payload@ },
            MitmAction::AwaitPhone { expected, cached, ms } => MitmAction::AwaitPhone { expected, cached: match cached {
                    Some(b) => Some(b@),
                    None => None,
                }, ms },
            MitmAction::CollectStatus => MitmAction::CollectStatus,
            MitmAction::AwaitBarrier { seq_before, ms } => MitmAction::AwaitBarrier { seq_before, ms },
            MitmAction::ConnectHu { address, ip, iface, ssid, source } => MitmAction::ConnectHu { address: address@, ip: ip@, iface: iface@, ssid: ssid@, source: source@ },
            MitmAction::ConnectLocal { port, ms } => MitmAction::ConnectLocal { port, ms },
            MitmAction::StopKeepalive => MitmAction::StopKeepalive,
            MitmAction::ForwardStatus => MitmAction::ForwardStatus,
            MitmAction::Bridge => MitmAction::Bridge,
            MitmAction::Done => MitmAction::Done,
            MitmAction::Fail { error } => MitmAction::Fail { error: error@ },
        }
    }
}

pub type ActionModel = MitmAction<Seq<char>, Seq<u8>>;

/// What came of an action.
pub enum MitmEvent<T, B> {
    Done,
    Failed(T),
    /// The phone never called.
    NoPhone(T),
    TimedOut,
    /// Something is connected: where it was reached, or by which interface.
    Connected(T),
    Endpoint { ip: T, port: i32 },
    Frame { id: u16, payload: B },
    Info(WifiInfo<T>),
    Text(Option<T>),
    Channel(Option<u32>),
    Bytes(B),
    Sequence(u64),
}

impl View for MitmEvent<String, Vec<u8>> {
    type V = MitmEvent<Seq<char>, Seq<u8>>;

    open spec fn view(&self) -> MitmEvent<Seq<char>, Seq<u8>> {
        match *self {
            MitmEvent::Done => MitmEvent::Done,
            MitmEvent::Failed(e) => MitmEvent::Failed(e@),
            MitmEvent::NoPhone(e) => MitmEvent::NoPhone(e@),
            MitmEvent::TimedOut => MitmEvent::TimedOut,
            MitmEvent::Connected(t) => MitmEvent::Connected(t@),
            MitmEvent::Endpoint { ip, port } => MitmEvent::Endpoint { ip: ip@, port },
            MitmEvent::Frame { id, payload } => MitmEvent::Frame { id, payload: payload@ },
            MitmEvent::Info(i) => MitmEvent::Info(i@),
            MitmEvent::Text(t) => MitmEvent::Text(t.deep_view()),
            MitmEvent::Channel(c) => MitmEvent::Channel(c),
            MitmEvent::Bytes(b) => MitmEvent::Bytes(b@),
            MitmEvent::Sequence(n) => MitmEvent::Sequence(n),
        }
    }
}

pub type EventModel = MitmEvent<Seq<char>, Seq<u8>>;

pub open spec fn event_error(e: EventModel) -> Option<Seq<char>> {
    match e {
        MitmEvent::Failed(t) => Some(t),
        MitmEvent::NoPhone(t) => Some(t),
        _ => None,
    }
}

/// The text that an event brought; none counts as an empty one.
pub open spec fn event_text(e: EventModel) -> Seq<char> {
    match e {
        MitmEvent::Text(Some(t)) => t,
        MitmEvent::Connected(t) => t,
        _ => Seq::empty(),
    }
}

pub open spec fn event_bytes(e: EventModel) -> Seq<u8> {
    match e {
        MitmEvent::Bytes(b) => b,
        MitmEvent::Frame { payload, .. } => payload,
        _ => Seq::empty(),
    }
}

pub open spec fn event_id(e: EventModel) -> u16 {
    match e {
        MitmEvent::Frame { id, .. } => id,
        _ => 0,
    }
}

pub open spec fn event_channel(e: EventModel) -> Option<u32> {
    match e {
        MitmEvent::Channel(c) => c,
        _ => None,
    }
}

pub open spec fn event_sequence(e: EventModel) -> u64 {
    match e {
        MitmEvent::Sequence(n) => n,
        _ => 0,
    }
}

impl MitmEvent<String, Vec<u8>> {
    fn failed(&self) -> (r: bool)
        ensures
            r == event_error(self@) is Some,
    {
        match self {
            MitmEvent::Failed(_) => true,
            MitmEvent::NoPhone(_) => true,
            _ => false,
        }
    }

    fn error(self) -> (r: String)
        requires
            event_error(self@) is Some,
        ensures
            event_error(self@) == Some(r@),
    {
        match self {
            MitmEvent::Failed(t) => t,
            MitmEvent::NoPhone(t) => t,
            _ => vstd::pervasive::unreached(),
        }
    }

    fn text(self) -> (r: String)
        ensures
            r@ == event_text(self@),
    {
        match self {
            MitmEvent::Text(Some(t)) => t,
            MitmEvent::Connected(t) => t,
            _ => String::new(),
        }
    }

    fn bytes(self) -> (r: Vec<u8>)
        ensures
            r@ == event_bytes(self@),
    {
        match self {
            MitmEvent::Bytes(b) => b,
            MitmEvent::Frame { payload, .. } => payload,
            _ => {
                let none: Vec<u8> = Vec::new();
                assert(none@ =~= Seq::<u8>::empty());
                none
            },
        }
    }

    fn id(&self) -> (r: u16)
        ensures
            r == event_id(self@),
    {
        match self {
            MitmEvent::Frame { id, .. } => *id,
            _ => 0,
        }
    }

    fn channel(&self) -> (r: Option<u32>)
        ensures
            r == event_channel(self@),
    {
        match self {
            MitmEvent::Channel(c) => *c,
            _ => None,
        }
    }

    fn sequence(&self) -> (r: u64)
        ensures
            r == event_sequence(self@),
    {
        match self {
            MitmEvent::Sequence(n) => *n,
            _ => 0,
        }
    }
}

// ---------------------------------------------------------------------
// Which interface does what

#[derive(Clone, Copy, PartialEq, Eq, Structural, Debug)]
pub enum PhoneWifiMode {
    /// The phone joins the car's network.
    CarAp,
    /// The phone joins the proxy's network, on the same radio.
    ProxyAp,
    /// The phone joins the proxy's network; another radio joins the car's.
    ExternalAp,
}

pub open spec fn phone_wifi_mode(configured: Seq<char>) -> PhoneWifiMode {
    let m = text::lower(text::trimmed(configured));
    if m == "external_ap"@ || m == "external-ap"@ || m == "externalap"@ || m
        == "external_proxy_ap"@ || m == "external-proxy-ap"@ {
        PhoneWifiMode::ExternalAp
    } else if m == "proxy_ap"@ || m == "proxy-ap"@ || m == "proxyap"@ || m == "ap_proxy"@ {
        PhoneWifiMode::ProxyAp
    } else {
        PhoneWifiMode::CarAp
    }
}

pub fn parse_phone_wifi_mode(configured: &str) -> (r: PhoneWifiMode)
    ensures
        r == phone_wifi_mode(configured@),
{
    let m = text::to_ascii_lowercase(text::trim(configured));
    let m = m.as_str();
    if text::same(m, "external_ap") || text::same(m, "external-ap") || text::same(m, "externalap")
        || text::same(m, "external_proxy_ap") || text::same(m, "external-proxy-ap") {
        PhoneWifiMode::ExternalAp
    } else if text::same(m, "proxy_ap") || text::same(m, "proxy-ap") || text::same(m, "proxyap")
        || text::same(m, "ap_proxy") {
        PhoneWifiMode::ProxyAp
    } else {
        PhoneWifiMode::CarAp
    }
}

/// A text, or `wlan0` if it is empty.
pub open spec fn or_wlan0(s: Seq<char>) -> Seq<char> {
    if s.len() == 0 {
        "wlan0"@
    } else {
        s
    }
}

fn default_wlan0(s: &str) -> (r: String)
    ensures
        r@ == or_wlan0(s@),
{
    if s.is_empty() {
        "wlan0".to_owned()
    } else {
        s.to_owned()
    }
}

/// The access point's interface on an own radio: the configured one, or the
/// base interface.
pub open spec fn external_phone_ap(o: OptionsModel) -> Seq<char> {
    if text::trimmed(o.ap_iface).len() > 0 {
        text::trimmed(o.ap_iface)
    } else {
        or_wlan0(text::trimmed(o.iface))
    }
}

/// The interface that carries the access point before the radio is shared. Of
/// two that look swapped, the one of the managed interface is taken.
pub open spec fn current_phone_ap(o: OptionsModel) -> Seq<char> {
    let base = text::trimmed(o.iface);
    let ap = if text::trimmed(o.ap_iface).len() > 0 {
        text::trimmed(o.ap_iface)
    } else if base.len() == 0 || text::begins(base, "sta"@) {
        "wlan0"@
    } else {
        base
    };
    let sta = if text::trimmed(o.sta_iface).len() > 0 {
        text::trimmed(o.sta_iface)
    } else {
        "sta0"@
    };
    if text::begins(ap, "sta"@) && text::begins(sta, "wlan"@) {
        sta
    } else {
        ap
    }
}

/// The interface that joins the car's network where the phone is in it too: the
/// configured one, or one beside the access point that stays up, or the base
/// interface.
pub open spec fn car_sta(o: OptionsModel) -> Seq<char> {
    if text::trimmed(o.sta_iface).len() > 0 {
        text::trimmed(o.sta_iface)
    } else if o.keep_ap {
        "sta0"@
    } else {
        or_wlan0(text::trimmed(o.iface))
    }
}

/// The access point that stays up in the car's network, if one does.
pub open spec fn kept_ap(o: OptionsModel) -> Seq<char> {
    if !o.keep_ap {
        Seq::empty()
    } else if text::trimmed(o.ap_iface).len() > 0 {
        text::trimmed(o.ap_iface)
    } else {
        text::trimmed(o.iface)
    }
}

/// The other of the two interfaces that share the radio.
pub open spec fn other_iface(iface: Seq<char>) -> Seq<char> {
    if iface == "ap0"@ {
        "wlan0"@
    } else {
        "ap0"@
    }
}

fn pick_other_iface(iface: &str) -> (r: String)
    ensures
        r@ == other_iface(iface@),
{
    if text::same(iface, "ap0") {
        "wlan0".to_owned()
    } else {
        "ap0".to_owned()
    }
}

impl CarWifiMitmProxyOptions<String> {
    fn external_phone_ap(&self) -> (r: String)
        ensures
            r@ == external_phone_ap(self@),
    {
        let ap = text::trim(self.ap_iface.as_str());
        if !ap.is_empty() {
            ap.to_owned()
        } else {
            default_wlan0(text::trim(self.iface.as_str()))
        }
    }

    fn car_sta(&self) -> (r: String)
        ensures
            r@ == car_sta(self@),
    {
        let sta = text::trim(self.sta_iface.as_str());
        if !sta.is_empty() {
            sta.to_owned()
        } else if self.keep_ap {
            "sta0".to_owned()
        } else {
            default_wlan0(text::trim(self.iface.as_str()))
        }
    }

    fn kept_ap(&self) -> (r: String)
        ensures
            r@ == kept_ap(self@),
    {
        let ap = text::trim(self.ap_iface.as_str());
        if !self.keep_ap {
            let none = String::new();
            assert(none@ =~= Seq::<char>::empty());
            none
        } else if !ap.is_empty() {
            ap.to_owned()
        } else {
            text::trim(self.iface.as_str()).to_owned()
        }
    }

    fn current_phone_ap(&self) -> (r: String)
        ensures
            r@ == current_phone_ap(self@),
    {
        let base = text::trim(self.iface.as_str());
        let configured_ap = text::trim(self.ap_iface.as_str());
        let ap = if !configured_ap.is_empty() {
            configured_ap
        } else if base.is_empty() || text::starts_with(base, "sta") {
            "wlan0"
        } else {
            base
        };
        let configured_sta = text::trim(self.sta_iface.as_str());
        let sta = if !configured_sta.is_empty() {
            configured_sta
        } else {
            "sta0"
        };
        if text::starts_with(ap, "sta") && text::starts_with(sta, "wlan") {
            sta.to_owned()
        } else {
            ap.to_owned()
        }
    }
}

/// The way to join: beside the proxy's own network only `wpa_supplicant` is
/// used, unless another way is named.
pub open spec fn effective_control(mode: PhoneWifiMode, configured: Seq<char>) -> Seq<char> {
    let c = text::lower(text::trimmed(configured));
    if mode != PhoneWifiMode::CarAp && (c == ""@ || c == "auto"@ || c == "wpactrl"@) {
        "wpa_supplicant"@
    } else {
        configured
    }
}

fn pick_control(mode: PhoneWifiMode, configured: &str) -> (r: String)
    ensures
        r@ == effective_control(mode, configured@),
{
    let c = text::to_ascii_lowercase(text::trim(configured));
    let c = c.as_str();
    if mode != PhoneWifiMode::CarAp && (text::same(c, "") || text::same(c, "auto") || text::same(
        c,
        "wpactrl",
    )) {
        "wpa_supplicant".to_owned()
    } else {
        configured.to_owned()
    }
}

// ---------------------------------------------------------------------
// The session

#[derive(Clone, Copy, PartialEq, Eq, Structural)]
pub enum MitmPhase {
    Begin,
    Hsp,
    Met,
    MetAgain,
    PhonesDropped,
    Exchanged,
    StartParsed,
    InfoAsked,
    InfoRead,
    InfoParsed,
    KeptAlive,
    ExternalFound,
    ApStopped,
    Joined,
    SupplicantStopped,
    JoinedAgain,
    Settled,
    IpFound,
    ApChannel,
    JoinChannel,
    ExternalApStarted,
    CarChannel,
    ApMade,
    ApStarted,
    ApSettled,
    RouteRepaired,
    MacRead,
    InfoEncoded,
    Armed,
    StartEncoded,
    PhoneBack(u8),
    Awake(u8),
    StartSent(u8),
    InfoRequested(u8),
    InfoSent(u8),
    StartAnswered(u8),
    Collecting,
    Barrier,
    HuAnswered,
    HuConnected,
    LocalConnected,
    KeepaliveStopped,
    Forwarding,
    Bridged,
    Ended,
}

/// How often the phone is taken through the bootstrap.
pub const MAX_PHONE_ATTEMPTS: u8 = 3;

pub struct MitmSession<T, B> {
    pub options: CarWifiMitmProxyOptions<T>,
    pub mode: PhoneWifiMode,
    pub phase: MitmPhase,
    /// Where the head unit was reached.
    pub hu_endpoint: T,
    pub hu_start_payload: B,
    pub hu_ip: T,
    pub hu_port: i32,
    pub hu_info_payload: B,
    pub hu_info: WifiInfo<T>,
    /// The interface of the phone's access point.
    pub ap_iface: T,
    /// The interface that joins the car's network.
    pub sta_iface: T,
    /// The interface that has joined it.
    pub join_iface: T,
    /// The channel of the car's network.
    pub channel: u32,
    /// The address of the proxy on the car's network.
    pub car_ip: T,
    /// The address under which the phone is to reach the proxy.
    pub phone_ip: T,
    pub phone_info_payload: B,
    pub phone_start_payload: B,
    /// How many phones had connected before this one.
    pub seq_before: u64,
    pub last_error: T,
    /// The phone's answer to the start request.
    pub answer_id: u16,
    pub answer_payload: B,
}

pub type CarWifiMitmSession = MitmSession<String, Vec<u8>>;

pub type SessionModel = MitmSession<Seq<char>, Seq<u8>>;

impl View for MitmSession<String, Vec<u8>> {
    type V = MitmSession<Seq<char>, Seq<u8>>;

    open spec fn view(&self) -> MitmSession<Seq<char>, Seq<u8>> {
        MitmSession {
            options: self.options@,
            mode: self.mode,
            phase: self.phase,
            hu_endpoint: self.hu_endpoint@,
            hu_start_payload: self.hu_start_payload@,
            hu_ip: self.hu_ip@,
            hu_port: self.hu_port,
            hu_info_payload: self.hu_info_payload@,
            hu_info: self.hu_info@,
            ap_iface: self.ap_iface@,
            sta_iface: self.sta_iface@,
            join_iface: self.join_iface@,
            channel: self.channel,
            car_ip: self.car_ip@,
            phone_ip: self.phone_ip@,
            phone_info_payload: self.phone_info_payload@,
            phone_start_payload: self.phone_start_payload@,
            seq_before: self.seq_before,
            last_error: self.last_error@,
            answer_id: self.answer_id,
            answer_payload: self.answer_payload@,
        }
    }
}

/// A session of which nothing has happened yet.
pub open spec fn fresh_session(options: OptionsModel) -> SessionModel {
    MitmSession {
        options,
        mode: phone_wifi_mode(options.phone_wifi_mode),
        phase: MitmPhase::Begin,
        hu_endpoint: Seq::empty(),
        hu_start_payload: Seq::empty(),
        hu_ip: Seq::empty(),
        hu_port: 0,
        hu_info_payload: Seq::empty(),
        hu_info: WifiInfo {
            ssid: Seq::empty(),
            key: Seq::empty(),
            bssid: Seq::empty(),
            is_open: false,
            security_name: Seq::empty(),
            dynamic: false,
        },
        ap_iface: Seq::empty(),
        sta_iface: Seq::empty(),
        join_iface: Seq::empty(),
        channel: 0,
        car_ip: Seq::empty(),
        phone_ip: Seq::empty(),
        phone_info_payload: Seq::empty(),
        phone_start_payload: Seq::empty(),
        seq_before: 0,
        last_error: Seq::empty(),
        answer_id: 0,
        answer_payload: Seq::empty(),
    }
}

pub open spec fn ms(s: SessionModel, phase: MitmPhase, action: ActionModel) -> (
    SessionModel,
    ActionModel,
) {
    (MitmSession { phase, ..s }, action)
}

pub open spec fn ms_fail(s: SessionModel, error: Seq<char>) -> (SessionModel, ActionModel) {
    ms(s, MitmPhase::Ended, MitmAction::Fail { error })
}

/// The session after an event that carries an error, or what follows otherwise.
pub open spec fn ms_or_fail(s: SessionModel, e: EventModel, next: (SessionModel, ActionModel)) -> (
    SessionModel,
    ActionModel,
) {
    match event_error(e) {
        Some(error) => ms_fail(s, error),
        None => next,
    }
}

pub open spec fn join_request(s: SessionModel) -> JoinRequest<Seq<char>> {
    JoinRequest {
        control: effective_control(s.mode, s.options.join_control),
        base_iface: if s.mode == PhoneWifiMode::CarAp {
            s.options.iface
        } else {
            s.sta_iface
        },
        sta_iface: s.sta_iface,
        sta_phy: s.options.sta_phy,
        ap_iface: s.ap_iface,
        keep_ap: s.mode == PhoneWifiMode::CarAp && s.options.keep_ap,
    }
}

pub open spec fn ms_join(s: SessionModel) -> (SessionModel, ActionModel) {
    ms(s, MitmPhase::Joined, MitmAction::Join { request: join_request(s) })
}

/// The interfaces are given their roles, and what stands in the way is removed.
pub open spec fn ms_layout(s: SessionModel) -> (SessionModel, ActionModel) {
    match s.mode {
        PhoneWifiMode::ExternalAp => ms(
            MitmSession { ap_iface: external_phone_ap(s.options), ..s },
            MitmPhase::ExternalFound,
            MitmAction::ResolveExternal {
                configured: s.options.sta_iface,
                phone_ap: external_phone_ap(s.options),
            },
        ),
        PhoneWifiMode::ProxyAp => ms(
            MitmSession {
                sta_iface: current_phone_ap(s.options),
                ap_iface: other_iface(current_phone_ap(s.options)),
                ..s
            },
            MitmPhase::ApStopped,
            MitmAction::StopPhoneAp { iface: current_phone_ap(s.options) },
        ),
        PhoneWifiMode::CarAp => ms_join(
            MitmSession { ap_iface: kept_ap(s.options), sta_iface: car_sta(s.options), ..s },
        ),
    }
}

pub open spec fn lost_before_association(error: Seq<char>) -> bool {
    text::holds(error, "disappeared before association"@)
}

/// The roles are swapped when the interface got lost.
pub open spec fn swapped(s: SessionModel) -> SessionModel {
    let sta = or_wlan0(s.ap_iface);
    MitmSession { sta_iface: sta, ap_iface: other_iface(sta), ..s }
}

pub open spec fn fallback_request(s: SessionModel) -> JoinRequest<Seq<char>> {
    JoinRequest {
        control: "wpa_supplicant"@,
        base_iface: s.sta_iface,
        sta_iface: s.sta_iface,
        sta_phy: Seq::empty(),
        ap_iface: Seq::empty(),
        keep_ap: false,
    }
}

pub open spec fn ms_joined(s: SessionModel, iface: Seq<char>) -> (SessionModel, ActionModel) {
    ms(
        MitmSession { join_iface: iface, ..s },
        MitmPhase::Settled,
        MitmAction::Sleep { ms: 500 },
    )
}

pub open spec fn ms_start_ap(s: SessionModel, channel: u32) -> (SessionModel, ActionModel) {
    ms(
        s,
        MitmPhase::ApStarted,
        MitmAction::StartAp {
            iface: s.ap_iface,
            ip: wifi_iface::ap_address(s.options.phone_ap_ip),
            channel,
        },
    )
}

pub open spec fn ms_start_external(s: SessionModel, fallback: u32) -> (SessionModel, ActionModel) {
    ms(
        s,
        MitmPhase::ExternalApStarted,
        MitmAction::StartExternalAp {
            iface: s.ap_iface,
            ip: wifi_iface::ap_address(s.options.phone_ap_ip),
            wanted: s.options.phone_ap_channel,
            fallback,
        },
    )
}

/// The proxy's own address is known. In the car's network the phone gets what the
/// head unit said; for a network of the proxy a channel is needed.
pub open spec fn ms_ip_found(s: SessionModel, ip: Seq<char>) -> (SessionModel, ActionModel) {
    match s.mode {
        PhoneWifiMode::CarAp => ms(
            MitmSession {
                car_ip: ip,
                phone_ip: ip,
                phone_info_payload: s.hu_info_payload,
                ..s
            },
            MitmPhase::Armed,
            MitmAction::ArmPhoneTcp,
        ),
        PhoneWifiMode::ExternalAp => ms(
            MitmSession { car_ip: ip, ..s },
            MitmPhase::ApChannel,
            MitmAction::CurrentChannel { iface: s.ap_iface },
        ),
        PhoneWifiMode::ProxyAp => ms(
            MitmSession { car_ip: ip, ..s },
            MitmPhase::CarChannel,
            MitmAction::CurrentChannel { iface: s.join_iface },
        ),
    }
}

/// The phone is told to reach the proxy at its address and port.
pub open spec fn ms_attempt(s: SessionModel, n: u8) -> (SessionModel, ActionModel) {
    if n > 1 {
        ms(
            s,
            MitmPhase::PhoneBack(n),
            MitmAction::ReconnectPhone { attempt: (n - 1) as u8, error: s.last_error },
        )
    } else {
        ms(s, MitmPhase::Awake(n), MitmAction::WakeTcp)
    }
}

/// How the phone is brought back: how long it is left alone, and how long it may take
/// to call.
pub fn phone_reconnect_plan(bt_timeout_ms: u64) -> (r: (u64, u64))
    ensures
        r.0 == 900,
        r.1 == clock::at_most(bt_timeout_ms, 45000),
{
    (900, clock::min_ms(bt_timeout_ms, 45000))
}

/// A step of the phone's bootstrap failed: another attempt follows if the phone
/// hung up and one is left.
pub open spec fn ms_retry(s: SessionModel, n: u8, what: Seq<char>, error: Seq<char>) -> (
    SessionModel,
    ActionModel,
) {
    if prebootstrap::is_dropped_connection(error) && n < MAX_PHONE_ATTEMPTS {
        ms_attempt(MitmSession { last_error: what + error, ..s }, (n + 1) as u8)
    } else {
        ms_fail(s, error)
    }
}

pub open spec fn endpoint_text(ip: Seq<char>, port: i32) -> Seq<char> {
    ip + ":"@ + pairing::signed_text(port as int)
}

/// Both sides are connected, the head unit at a given place.
pub open spec fn ms_met(s: SessionModel, hu_endpoint: Seq<char>) -> (SessionModel, ActionModel) {
    ms(
        MitmSession { hu_endpoint, ..s },
        MitmPhase::Exchanged,
        MitmAction::Exchange { ms: 10000 },
    )
}

/// The part of a session in which the two sides meet and the head unit says what
/// it wants.
pub open spec fn meet_step(s: SessionModel, e: EventModel) -> (SessionModel, ActionModel) {
    let o = s.options;
    match s.phase {
        MitmPhase::Begin => if text::trimmed(o.hu_mac).len() == 0 {
            ms_fail(s, "bt_wireless_proxy_hu_mac must be set for car-wifi-mitm mode"@)
        } else {
            ms(s, MitmPhase::Hsp, MitmAction::RegisterHsp)
        },
        MitmPhase::Hsp => ms(
            s,
            MitmPhase::Met,
            MitmAction::Rendezvous {
                hu_first: rendezvous::rendezvous_mode(o.rendezvous_mode)
                    != CarWifiRendezvousMode::PhoneFirst,
            },
        ),
        MitmPhase::Met => match event_error(e) {
            Some(error) => if rendezvous::rendezvous_mode(o.rendezvous_mode)
                == CarWifiRendezvousMode::Auto && e is NoPhone {
                ms(s, MitmPhase::MetAgain, MitmAction::Rendezvous { hu_first: false })
            } else if rendezvous::rendezvous_mode(o.rendezvous_mode)
                == CarWifiRendezvousMode::Auto {
                ms(
                    MitmSession { last_error: error, ..s },
                    MitmPhase::PhonesDropped,
                    MitmAction::DisconnectPhones { reason: "auto HU-first/hybrid failure"@ },
                )
            } else {
                ms_fail(s, error)
            },
            None => ms_met(s, event_text(e)),
        },
        MitmPhase::MetAgain => ms_or_fail(s, e, ms_met(s, event_text(e))),
        MitmPhase::PhonesDropped => ms_fail(
            s,
            "auto rendezvous HU-first/hybrid failed; resetting Bluetooth/Wi-Fi bootstrap to initial START state instead of passive/phone-first fallback: "@
                + s.last_error,
        ),
        MitmPhase::Exchanged => if e is TimedOut {
            ms_fail(
                s,
                "timed out waiting 10s for HU bootstrap frame after RFCOMM connect to "@
                    + s.hu_endpoint + "; closing connection and restarting car-wifi-mitm"@,
            )
        } else {
            ms_or_fail(
                s,
                e,
                ms(
                    MitmSession { hu_start_payload: event_bytes(e), ..s },
                    MitmPhase::StartParsed,
                    MitmAction::ParseStart { payload: event_bytes(e) },
                ),
            )
        },
        MitmPhase::StartParsed => match e {
            MitmEvent::Failed(error) => ms_fail(s, error),
            MitmEvent::NoPhone(error) => ms_fail(s, error),
            MitmEvent::Endpoint { ip, port } => if text::trimmed(ip).len() == 0 || port <= 0 {
                ms_fail(
                    s,
                    "HU WifiStartRequest had invalid endpoint ip="@ + ip + " port="@
                        + pairing::signed_text(port as int),
                )
            } else {
                ms(
                    MitmSession { hu_ip: ip, hu_port: port, ..s },
                    MitmPhase::InfoAsked,
                    MitmAction::SendHu {
                        id: ProxyMessageId::WifiInfoRequest.number(),
                        payload: Seq::empty(),
                    },
                )
            },
            _ => ms_fail(s, "HU WifiStartRequest had invalid endpoint ip= port=0"@),
        },
        MitmPhase::InfoAsked => ms_or_fail(
            s,
            e,
            ms(s, MitmPhase::InfoRead, MitmAction::ReadHu),
        ),
        MitmPhase::InfoRead => ms_or_fail(
            s,
            e,
            if event_id(e) != ProxyMessageId::WifiInfoResponse.number() {
                ms_fail(
                    s,
                    "expected HU WifiInfoResponse as second frame, got "@ + text::decimal(
                        event_id(e) as nat,
                    ) + " ("@ + ProxyMessageId::label(event_id(e)) + ")"@,
                )
            } else {
                ms(
                    MitmSession { hu_info_payload: event_bytes(e), ..s },
                    MitmPhase::InfoParsed,
                    MitmAction::ParseInfo { payload: event_bytes(e) },
                )
            },
        ),
        MitmPhase::InfoParsed => match e {
            MitmEvent::Info(info) => {
                let s1 = MitmSession { hu_info: info, ..s };
                if o.wpp_keepalive {
                    ms(
                        s1,
                        MitmPhase::KeptAlive,
                        MitmAction::StartKeepalive {
                            interval_ms: clock::at_least(o.wpp_keepalive_interval_ms, 250),
                        },
                    )
                } else {
                    ms_layout(s1)
                }
            },
            MitmEvent::Failed(error) => ms_fail(s, error),
            MitmEvent::NoPhone(error) => ms_fail(s, error),
            _ => ms_fail(s, Seq::empty()),
        },
        MitmPhase::KeptAlive => ms_layout(s),
        _ => (s, MitmAction::Done),
    }
}

/// The part in which the proxy joins the car's network and sets up the phone's.
pub open spec fn wifi_step(s: SessionModel, e: EventModel) -> (SessionModel, ActionModel) {
    let o = s.options;
    match s.phase {
        MitmPhase::ExternalFound => ms_or_fail(
            s,
            e,
            ms_join(MitmSession { sta_iface: event_text(e), ..s }),
        ),
        MitmPhase::ApStopped => ms_join(s),
        MitmPhase::Joined => match event_error(e) {
            Some(error) => if s.mode == PhoneWifiMode::ProxyAp && lost_before_association(error) {
                ms(
                    swapped(s),
                    MitmPhase::SupplicantStopped,
                    MitmAction::StopSupplicant {
                        reason: "stop stale wpa_supplicant before inverted proxy_ap fallback"@,
                    },
                )
            } else {
                ms_fail(s, error)
            },
            None => ms_joined(s, event_text(e)),
        },
        MitmPhase::SupplicantStopped => ms(
            s,
            MitmPhase::JoinedAgain,
            MitmAction::Join { request: fallback_request(s) },
        ),
        MitmPhase::JoinedAgain => ms_or_fail(s, e, ms_joined(s, event_text(e))),
        MitmPhase::Settled => ms(
            s,
            MitmPhase::IpFound,
            MitmAction::FindRewriteIp {
                target: s.hu_ip,
                iface: s.join_iface,
                configured: o.rewrite_ip,
            },
        ),
        MitmPhase::IpFound => ms_or_fail(s, e, ms_ip_found(s, event_text(e))),
        MitmPhase::ApChannel => match event_channel(e) {
            Some(channel) => ms_start_external(s, channel),
            None => ms(
                s,
                MitmPhase::JoinChannel,
                MitmAction::CurrentChannel { iface: s.join_iface },
            ),
        },
        MitmPhase::JoinChannel => ms_start_external(
            s,
            match event_channel(e) {
                Some(channel) => channel,
                None => 0,
            },
        ),
        MitmPhase::ExternalApStarted => ms_or_fail(
            s,
            e,
            ms(s, MitmPhase::ApSettled, MitmAction::Sleep { ms: 500 }),
        ),
        MitmPhase::CarChannel => match event_channel(e) {
            Some(channel) => ms(
                MitmSession { channel, ..s },
                MitmPhase::ApMade,
                MitmAction::EnsureAp { iface: s.ap_iface, beside: s.join_iface },
            ),
            None => ms_fail(
                s,
                "proxy_ap could not determine car STA channel from iface "@ + s.join_iface,
            ),
        },
        MitmPhase::ApMade => ms_or_fail(s, e, ms_start_ap(s, s.channel)),
        MitmPhase::ApStarted => ms_or_fail(
            s,
            e,
            ms(s, MitmPhase::ApSettled, MitmAction::Sleep { ms: 500 }),
        ),
        MitmPhase::ApSettled => ms(
            s,
            MitmPhase::RouteRepaired,
            MitmAction::RepairRoute {
                target: s.hu_ip,
                iface: s.join_iface,
                ssid: s.hu_info.ssid,
                source: s.car_ip,
            },
        ),
        MitmPhase::RouteRepaired => ms_or_fail(
            s,
            e,
            ms(
                MitmSession { car_ip: event_text(e), ..s },
                MitmPhase::MacRead,
                MitmAction::ReadMac { iface: s.ap_iface },
            ),
        ),
        MitmPhase::MacRead => ms(
            s,
            MitmPhase::InfoEncoded,
            MitmAction::EncodeInfo {
                info: wifi_text::phone_wifi_info(
                    o.phone_ap_ssid,
                    o.phone_ap_key,
                    text::lower(event_text(e)),
                ),
            },
        ),
        MitmPhase::InfoEncoded => ms_or_fail(
            s,
            e,
            ms(
                MitmSession {
                    phone_info_payload: event_bytes(e),
                    phone_ip: wifi_iface::ap_address(o.phone_ap_ip),
                    ..s
                },
                MitmPhase::Armed,
                MitmAction::ArmPhoneTcp,
            ),
        ),
        _ => (s, MitmAction::Done),
    }
}

/// The part in which the phone is led to the proxy and the proxy to the head unit.
pub open spec fn phone_step(s: SessionModel, e: EventModel) -> (SessionModel, ActionModel) {
    match s.phase {
        MitmPhase::Armed => ms(
            MitmSession { seq_before: event_sequence(e), ..s },
            MitmPhase::StartEncoded,
            MitmAction::EncodeStart {
                original: s.hu_start_payload,
                ip: s.phone_ip,
                port: port_for_phone(s.options.listen_port),
            },
        ),
        MitmPhase::StartEncoded => ms_or_fail(
            s,
            e,
            ms_attempt(MitmSession { phone_start_payload: event_bytes(e), ..s }, 1),
        ),
        MitmPhase::PhoneBack(n) => ms_or_fail(
            s,
            e,
            ms(s, MitmPhase::Awake(n), MitmAction::WakeTcp),
        ),
        MitmPhase::Awake(n) => ms(
            s,
            MitmPhase::StartSent(n),
            MitmAction::SendPhone {
                id: ProxyMessageId::WifiStartRequest.number(),
                payload: s.phone_start_payload,
            },
        ),
        MitmPhase::StartSent(n) => match event_error(e) {
            Some(error) => ms_retry(s, n, "send WifiStartRequest failed: "@, error),
            None => ms(
                s,
                MitmPhase::InfoRequested(n),
                MitmAction::AwaitPhone {
                    expected: ProxyMessageId::WifiInfoRequest,
                    cached: None,
                    ms: 30000,
                },
            ),
        },
        MitmPhase::InfoRequested(n) => match event_error(e) {
            Some(error) => ms_retry(s, n, "waiting for WifiInfoRequest failed: "@, error),
            None => ms(
                s,
                MitmPhase::InfoSent(n),
                MitmAction::SendPhone {
                    id: ProxyMessageId::WifiInfoResponse.number(),
                    payload: s.phone_info_payload,
                },
            ),
        },
        MitmPhase::InfoSent(n) => match event_error(e) {
            Some(error) => ms_retry(s, n, "send WifiInfoResponse failed: "@, error),
            None => ms(
                s,
                MitmPhase::StartAnswered(n),
                MitmAction::AwaitPhone {
                    expected: ProxyMessageId::WifiStartResponse,
                    cached: Some(s.phone_info_payload),
                    ms: 45000,
                },
            ),
        },
        MitmPhase::StartAnswered(n) => match event_error(e) {
            Some(error) => ms_retry(s, n, "waiting for WifiStartResponse failed: "@, error),
            None => ms(
                MitmSession { answer_id: event_id(e), answer_payload: event_bytes(e), ..s },
                MitmPhase::Collecting,
                MitmAction::CollectStatus,
            ),
        },
        MitmPhase::Collecting => ms(
            s,
            MitmPhase::Barrier,
            MitmAction::AwaitBarrier { seq_before: s.seq_before, ms: 75000 },
        ),
        MitmPhase::Barrier => ms_or_fail(
            s,
            e,
            ms(
                s,
                MitmPhase::HuAnswered,
                MitmAction::SendHu { id: s.answer_id, payload: s.answer_payload },
            ),
        ),
        MitmPhase::HuAnswered => ms_or_fail(
            s,
            e,
            ms(
                s,
                MitmPhase::HuConnected,
                MitmAction::ConnectHu {
                    address: endpoint_text(s.hu_ip, s.hu_port),
                    ip: s.hu_ip,
                    iface: s.join_iface,
                    ssid: s.hu_info.ssid,
                    source: s.car_ip,
                },
            ),
        ),
        MitmPhase::HuConnected => ms_or_fail(
            s,
            e,
            ms(
                s,
                MitmPhase::LocalConnected,
                MitmAction::ConnectLocal { port: TCP_DHU_PORT as u16, ms: 45000 },
            ),
        ),
        MitmPhase::LocalConnected => ms_or_fail(
            s,
            e,
            ms(s, MitmPhase::KeepaliveStopped, MitmAction::StopKeepalive),
        ),
        MitmPhase::KeepaliveStopped => ms(s, MitmPhase::Forwarding, MitmAction::ForwardStatus),
        MitmPhase::Forwarding => ms(s, MitmPhase::Bridged, MitmAction::Bridge),
        MitmPhase::Bridged => ms_or_fail(s, e, ms(s, MitmPhase::Ended, MitmAction::Done)),
        _ => (s, MitmAction::Done),
    }
}

#[derive(Clone, Copy, PartialEq, Eq, Structural)]
pub enum MitmPart {
    Meet,
    Wifi,
    Phone,
    Over,
}

pub open spec fn part_of(phase: MitmPhase) -> MitmPart {
    match phase {
        MitmPhase::Begin => MitmPart::Meet,
        MitmPhase::Hsp => MitmPart::Meet,
        MitmPhase::Met => MitmPart::Meet,
        MitmPhase::MetAgain => MitmPart::Meet,
        MitmPhase::PhonesDropped => MitmPart::Meet,
        MitmPhase::Exchanged => MitmPart::Meet,
        MitmPhase::StartParsed => MitmPart::Meet,
        MitmPhase::InfoAsked => MitmPart::Meet,
        MitmPhase::InfoRead => MitmPart::Meet,
        MitmPhase::InfoParsed => MitmPart::Meet,
        MitmPhase::KeptAlive => MitmPart::Meet,
        MitmPhase::ExternalFound => MitmPart::Wifi,
        MitmPhase::ApStopped => MitmPart::Wifi,
        MitmPhase::Joined => MitmPart::Wifi,
        MitmPhase::SupplicantStopped => MitmPart::Wifi,
        MitmPhase::JoinedAgain => MitmPart::Wifi,
        MitmPhase::Settled => MitmPart::Wifi,
        MitmPhase::IpFound => MitmPart::Wifi,
        MitmPhase::ApChannel => MitmPart::Wifi,
        MitmPhase::JoinChannel => MitmPart::Wifi,
        MitmPhase::ExternalApStarted => MitmPart::Wifi,
        MitmPhase::CarChannel => MitmPart::Wifi,
        MitmPhase::ApMade => MitmPart::Wifi,
        MitmPhase::ApStarted => MitmPart::Wifi,
        MitmPhase::ApSettled => MitmPart::Wifi,
        MitmPhase::RouteRepaired => MitmPart::Wifi,
        MitmPhase::MacRead => MitmPart::Wifi,
        MitmPhase::InfoEncoded => MitmPart::Wifi,
        MitmPhase::Ended => MitmPart::Over,
        _ => MitmPart::Phone,
    }
}

/// One step of the session.
pub open spec fn mitm_step(s: SessionModel, e: EventModel) -> (SessionModel, ActionModel) {
    match part_of(s.phase) {
        MitmPart::Meet => meet_step(s, e),
        MitmPart::Wifi => wifi_step(s, e),
        MitmPart::Phone => phone_step(s, e),
        MitmPart::Over => (s, MitmAction::Done),
    }
}

fn copy_bytes(b: &Vec<u8>) -> (r: Vec<u8>)
    ensures
        r@ == b@,
{
    vstd::slice::slice_to_vec(b)
}

fn no_bytes() -> (r: Vec<u8>)
    ensures
        r@ == Seq::<u8>::empty(),
{
    let none: Vec<u8> = Vec::new();
    assert(none@ =~= Seq::<u8>::empty());
    none
}

/// The frame that tells the head unit how the phone's connection went: what the
/// phone said, or a success if it said nothing.
pub fn connect_status_frame(collected: Option<(u16, Vec<u8>)>) -> (r: (u16, Vec<u8>))
    ensures
        match collected {
            Some(f) => r.0 == f.0 && r.1@ == f.1@,
            None => r.0 == ProxyMessageId::WifiConnectStatus.number() && r.1@ == wire::int32_field(
                1,
                0,
            ),
        },
{
    match collected {
        Some(f) => f,
        None => (
            ProxyMessageId::WifiConnectStatus.as_u16(),
            wire::wifi_connect_status_payload(0),
        ),
    }
}

impl MitmSession<String, Vec<u8>> {
    pub fn new(options: CarWifiMitmProxyOptions) -> (r: Self)
        ensures
            r@ == fresh_session(options@),
    {
        let mode = parse_phone_wifi_mode(options.phone_wifi_mode.as_str());
        let r = MitmSession {
            options,
            mode,
            phase: MitmPhase::Begin,
            hu_endpoint: String::new(),
            hu_start_payload: Vec::new(),
            hu_ip: String::new(),
            hu_port: 0,
            hu_info_payload: Vec::new(),
            hu_info: WifiInfo {
                ssid: String::new(),
                key: String::new(),
                bssid: String::new(),
                is_open: false,
                security_name: String::new(),
                dynamic: false,
            },
            ap_iface: String::new(),
            sta_iface: String::new(),
            join_iface: String::new(),
            channel: 0,
            car_ip: String::new(),
            phone_ip: String::new(),
            phone_info_payload: Vec::new(),
            phone_start_payload: Vec::new(),
            seq_before: 0,
            last_error: String::new(),
            answer_id: 0,
            answer_payload: Vec::new(),
        };
        proof {
            let fresh = fresh_session(options@);
            assert(r@.hu_endpoint =~= fresh.hu_endpoint);
            assert(r@.hu_start_payload =~= fresh.hu_start_payload);
            assert(r@.hu_info_payload =~= fresh.hu_info_payload);
        }
        r
    }

    fn fail(&mut self, error: String) -> (r: MitmAction<String, Vec<u8>>)
        ensures
            (final(self)@, r@) == ms_fail(old(self)@, error@),
    {
        self.phase = MitmPhase::Ended;
        MitmAction::Fail { error }
    }

    fn join(&mut self) -> (r: MitmAction<String, Vec<u8>>)
        ensures
            (final(self)@, r@) == ms_join(old(self)@),
    {
        self.phase = MitmPhase::Joined;
        let base_iface = if self.mode == PhoneWifiMode::CarAp {
            self.options.iface.clone()
        } else {
            self.sta_iface.clone()
        };
        MitmAction::Join {
            request: JoinRequest {
                control: pick_control(self.mode, self.options.join_control.as_str()),
                base_iface,
                sta_iface: self.sta_iface.clone(),
                sta_phy: self.options.sta_phy.clone(),
                ap_iface: self.ap_iface.clone(),
                keep_ap: self.mode == PhoneWifiMode::CarAp && self.options.keep_ap,
            },
        }
    }

    fn layout(&mut self) -> (r: MitmAction<String, Vec<u8>>)
        ensures
            (final(self)@, r@) == ms_layout(old(self)@),
    {
        match self.mode {
            PhoneWifiMode::ExternalAp => {
                let phone_ap = self.options.external_phone_ap();
                self.ap_iface = phone_ap.clone();
                self.phase = MitmPhase::ExternalFound;
                MitmAction::ResolveExternal {
                    configured: self.options.sta_iface.clone(),
                    phone_ap,
                }
            },
            PhoneWifiMode::ProxyAp => {
                let current = self.options.current_phone_ap();
                self.ap_iface = pick_other_iface(current.as_str());
                self.sta_iface = current.clone();
                self.phase = MitmPhase::ApStopped;
                MitmAction::StopPhoneAp { iface: current }
            },
            PhoneWifiMode::CarAp => {
                self.ap_iface = self.options.kept_ap();
                self.sta_iface = self.options.car_sta();
                self.join()
            },
        }
    }

    fn joined(&mut self, iface: String) -> (r: MitmAction<String, Vec<u8>>)
        ensures
            (final(self)@, r@) == ms_joined(old(self)@, iface@),
    {
        self.join_iface = iface;
        self.phase = MitmPhase::Settled;
        MitmAction::Sleep { ms: 500 }
    }

    fn ap_ip(&self) -> (r: String)
        ensures
            r@ == wifi_iface::ap_address(self@.options.phone_ap_ip),
    {
        let ip = text::trim(self.options.phone_ap_ip.as_str());
        if ip.is_empty() {
            "10.0.0.1".to_owned()
        } else {
            ip.to_owned()
        }
    }

    fn start_external(&mut self, fallback: u32) -> (r: MitmAction<String, Vec<u8>>)
        ensures
            (final(self)@, r@) == ms_start_external(old(self)@, fallback),
    {
        self.phase = MitmPhase::ExternalApStarted;
        MitmAction::StartExternalAp {
            iface: self.ap_iface.clone(),
            ip: self.ap_ip(),
            wanted: self.options.phone_ap_channel,
            fallback,
        }
    }

    fn attempt(&mut self, n: u8) -> (r: MitmAction<String, Vec<u8>>)
        requires
            n >= 1,
        ensures
            (final(self)@, r@) == ms_attempt(old(self)@, n),
    {
        if n > 1 {
            self.phase = MitmPhase::PhoneBack(n);
            MitmAction::ReconnectPhone { attempt: n - 1, error: self.last_error.clone() }
        } else {
            self.phase = MitmPhase::Awake(n);
            MitmAction::WakeTcp
        }
    }

    fn retry(&mut self, n: u8, what: &str, error: String) -> (r: MitmAction<String, Vec<u8>>)
        ensures
            (final(self)@, r@) == ms_retry(old(self)@, n, what@, error@),
    {
        if prebootstrap::is_retriable_phone_bootstrap_disconnect(error.as_str()) && n
            < MAX_PHONE_ATTEMPTS {
            self.last_error = text::cat2(what, error.as_str());
            self.attempt(n + 1)
        } else {
            self.fail(error)
        }
    }

    fn sleep(&mut self, phase: MitmPhase) -> (r: MitmAction<String, Vec<u8>>)
        ensures
            (final(self)@, r@) == ms(old(self)@, phase, MitmAction::Sleep { ms: 500 }),
    {
        self.phase = phase;
        MitmAction::Sleep { ms: 500 }
    }

    fn go(&mut self, phase: MitmPhase, action: MitmAction<String, Vec<u8>>) -> (r: MitmAction<
        String,
        Vec<u8>,
    >)
        ensures
            r == action,
            final(self)@ == (MitmSession { phase, ..old(self)@ }),
    {
        self.phase = phase;
        action
    }

    fn start_parsed(&mut self, e: MitmEvent<String, Vec<u8>>) -> (r: MitmAction<String, Vec<u8>>)
        requires
            old(self).phase == MitmPhase::StartParsed,
        ensures
            (final(self)@, r@) == meet_step(old(self)@, e@),
    {
        match e {
            MitmEvent::Failed(error) => self.fail(error),
            MitmEvent::NoPhone(error) => self.fail(error),
            MitmEvent::Endpoint { ip, port } => {
                if text::trim(ip.as_str()).is_empty() || port <= 0 {
                    let p = pairing::show_signed(port as i64);
                    self.fail(
                        text::cat4(
                            "HU WifiStartRequest had invalid endpoint ip=",
                            ip.as_str(),
                            " port=",
                            p.as_str(),
                        ),
                    )
                } else {
                    self.hu_ip = ip;
                    self.hu_port = port;
                    self.phase = MitmPhase::InfoAsked;
                    MitmAction::SendHu {
                        id: ProxyMessageId::WifiInfoRequest.as_u16(),
                        payload: no_bytes(),
                    }
                }
            },
            _ => self.fail("HU WifiStartRequest had invalid endpoint ip= port=0".to_owned()),
        }
    }

    fn info_read(&mut self, e: MitmEvent<String, Vec<u8>>) -> (r: MitmAction<String, Vec<u8>>)
        requires
            old(self).phase == MitmPhase::InfoRead,
        ensures
            (final(self)@, r@) == meet_step(old(self)@, e@),
    {
        if e.failed() {
            return self.fail(e.error());
        }
        let id: u16 = e.id();
        if id != ProxyMessageId::WifiInfoResponse.as_u16() {
            let n = text::decimal_text(id as u64);
            self.fail(
                text::cat5(
                    "expected HU WifiInfoResponse as second frame, got ",
                    n.as_str(),
                    " (",
                    ProxyMessageId::name(id),
                    ")",
                ),
            )
        } else {
            let payload = e.bytes();
            self.hu_info_payload = copy_bytes(&payload);
            self.phase = MitmPhase::InfoParsed;
            MitmAction::ParseInfo { payload }
        }
    }

    fn info_parsed(&mut self, e: MitmEvent<String, Vec<u8>>) -> (r: MitmAction<String, Vec<u8>>)
        requires
            old(self).phase == MitmPhase::InfoParsed,
        ensures
            (final(self)@, r@) == meet_step(old(self)@, e@),
    {
        match e {
            MitmEvent::Info(info) => {
                self.hu_info = info;
                if self.options.wpp_keepalive {
                    self.phase = MitmPhase::KeptAlive;
                    MitmAction::StartKeepalive {
                        interval_ms: clock::max_ms(self.options.wpp_keepalive_interval_ms, 250),
                    }
                } else {
                    self.layout()
                }
            },
            MitmEvent::Failed(error) => self.fail(error),
            MitmEvent::NoPhone(error) => self.fail(error),
            _ => self.fail(String::new()),
        }
    }

    fn ip_found(&mut self, e: MitmEvent<String, Vec<u8>>) -> (r: MitmAction<String, Vec<u8>>)
        requires
            old(self).phase == MitmPhase::IpFound,
        ensures
            (final(self)@, r@) == wifi_step(old(self)@, e@),
    {
        if e.failed() {
            return self.fail(e.error());
        }
        let ip = e.text();
        match self.mode {
            PhoneWifiMode::CarAp => {
                self.car_ip = ip.clone();
                self.phone_ip = ip;
                self.phone_info_payload = copy_bytes(&self.hu_info_payload);
                self.go(MitmPhase::Armed, MitmAction::ArmPhoneTcp)
            },
            PhoneWifiMode::ExternalAp => {
                self.car_ip = ip;
                let iface = self.ap_iface.clone();
                self.go(MitmPhase::ApChannel, MitmAction::CurrentChannel { iface })
            },
            PhoneWifiMode::ProxyAp => {
                self.car_ip = ip;
                let iface = self.join_iface.clone();
                self.go(MitmPhase::CarChannel, MitmAction::CurrentChannel { iface })
            },
        }
    }

    #[verifier::rlimit(40)]
    fn meet_step(&mut self, e: MitmEvent<String, Vec<u8>>) -> (r: MitmAction<String, Vec<u8>>)
        requires
            part_of(old(self).phase) == MitmPart::Meet,
        ensures
            (final(self)@, r@) == meet_step(old(self)@, e@),
    {
        match self.phase {
            MitmPhase::Begin => {
                if text::trim(self.options.hu_mac.as_str()).is_empty() {
                    self.fail(
                        "bt_wireless_proxy_hu_mac must be set for car-wifi-mitm mode".to_owned(),
                    )
                } else {
                    self.go(MitmPhase::Hsp, MitmAction::RegisterHsp)
                }
            },
            MitmPhase::Hsp => {
                let mode = CarWifiRendezvousMode::parse(self.options.rendezvous_mode.as_str());
                let hu_first = mode != CarWifiRendezvousMode::PhoneFirst;
                self.go(MitmPhase::Met, MitmAction::Rendezvous { hu_first })
            },
            MitmPhase::Met => {
                if e.failed() {
                    let mode = CarWifiRendezvousMode::parse(self.options.rendezvous_mode.as_str());
                    let no_phone = match &e {
                        MitmEvent::NoPhone(_) => true,
                        _ => false,
                    };
                    let error = e.error();
                    if mode == CarWifiRendezvousMode::Auto && no_phone {
                        self.go(MitmPhase::MetAgain, MitmAction::Rendezvous { hu_first: false })
                    } else if mode == CarWifiRendezvousMode::Auto {
                        self.last_error = error;
                        let reason = "auto HU-first/hybrid failure".to_owned();
                        self.go(MitmPhase::PhonesDropped, MitmAction::DisconnectPhones { reason })
                    } else {
                        self.fail(error)
                    }
                } else {
                    self.hu_endpoint = e.text();
                    self.go(MitmPhase::Exchanged, MitmAction::Exchange { ms: 10000 })
                }
            },
            MitmPhase::MetAgain => {
                if e.failed() {
                    self.fail(e.error())
                } else {
                    self.hu_endpoint = e.text();
                    self.go(MitmPhase::Exchanged, MitmAction::Exchange { ms: 10000 })
                }
            },
            MitmPhase::PhonesDropped => {
                let error = text::cat2(
                    "auto rendezvous HU-first/hybrid failed; resetting Bluetooth/Wi-Fi bootstrap to initial START state instead of passive/phone-first fallback: ",
                    self.last_error.as_str(),
                );
                self.fail(error)
            },
            MitmPhase::Exchanged => {
                let timed_out = match &e {
                    MitmEvent::TimedOut => true,
                    _ => false,
                };
                if timed_out {
                    let error = text::cat3(
                        "timed out waiting 10s for HU bootstrap frame after RFCOMM connect to ",
                        self.hu_endpoint.as_str(),
                        "; closing connection and restarting car-wifi-mitm",
                    );
                    self.fail(error)
                } else if e.failed() {
                    self.fail(e.error())
                } else {
                    let payload = e.bytes();
                    self.hu_start_payload = copy_bytes(&payload);
                    self.go(MitmPhase::StartParsed, MitmAction::ParseStart { payload })
                }
            },
            MitmPhase::StartParsed => self.start_parsed(e),
            MitmPhase::InfoAsked => {
                if e.failed() {
                    self.fail(e.error())
                } else {
                    self.go(MitmPhase::InfoRead, MitmAction::ReadHu)
                }
            },
            MitmPhase::InfoRead => self.info_read(e),
            MitmPhase::InfoParsed => self.info_parsed(e),
            MitmPhase::KeptAlive => self.layout(),
            _ => vstd::pervasive::unreached(),
        }
    }

    #[verifier::rlimit(40)]
    fn wifi_step(&mut self, e: MitmEvent<String, Vec<u8>>) -> (r: MitmAction<String, Vec<u8>>)
        requires
            part_of(old(self).phase) == MitmPart::Wifi,
        ensures
            (final(self)@, r@) == wifi_step(old(self)@, e@),
    {
        match self.phase {
            MitmPhase::ExternalFound => {
                if e.failed() {
                    self.fail(e.error())
                } else {
                    self.sta_iface = e.text();
                    self.join()
                }
            },
            MitmPhase::ApStopped => self.join(),
            MitmPhase::Joined => {
                if e.failed() {
                    let error = e.error();
                    if self.mode == PhoneWifiMode::ProxyAp && text::contains(
                        error.as_str(),
                        "disappeared before association",
                    ) {
                        let sta = default_wlan0(self.ap_iface.as_str());
                        self.ap_iface = pick_other_iface(sta.as_str());
                        self.sta_iface = sta;
                        let reason = "stop stale wpa_supplicant before inverted proxy_ap fallback".to_owned();
                        self.go(
                            MitmPhase::SupplicantStopped,
                            MitmAction::StopSupplicant { reason },
                        )
                    } else {
                        self.fail(error)
                    }
                } else {
                    let iface = e.text();
                    self.joined(iface)
                }
            },
            MitmPhase::SupplicantStopped => {
                let request = JoinRequest {
                    control: "wpa_supplicant".to_owned(),
                    base_iface: self.sta_iface.clone(),
                    sta_iface: self.sta_iface.clone(),
                    sta_phy: String::new(),
                    ap_iface: String::new(),
                    keep_ap: false,
                };
                self.go(MitmPhase::JoinedAgain, MitmAction::Join { request })
            },
            MitmPhase::JoinedAgain => {
                if e.failed() {
                    self.fail(e.error())
                } else {
                    let iface = e.text();
                    self.joined(iface)
                }
            },
            MitmPhase::Settled => {
                let target = self.hu_ip.clone();
                let iface = self.join_iface.clone();
                let configured = self.options.rewrite_ip.clone();
                self.go(
                    MitmPhase::IpFound,
                    MitmAction::FindRewriteIp { target, iface, configured },
                )
            },
            MitmPhase::IpFound => self.ip_found(e),
            MitmPhase::ApChannel => {
                match e.channel() {
                    Some(channel) => self.start_external(channel),
                    None => {
                        let iface = self.join_iface.clone();
                        self.go(MitmPhase::JoinChannel, MitmAction::CurrentChannel { iface })
                    },
                }
            },
            MitmPhase::JoinChannel => {
                let fallback: u32 = match e.channel() {
                    Some(channel) => channel,
                    None => 0,
                };
                self.start_external(fallback)
            },
            MitmPhase::ExternalApStarted => {
                if e.failed() {
                    self.fail(e.error())
                } else {
                    self.sleep(MitmPhase::ApSettled)
                }
            },
            MitmPhase::CarChannel => {
                match e.channel() {
                    Some(channel) => {
                        self.channel = channel;
                        let iface = self.ap_iface.clone();
                        let beside = self.join_iface.clone();
                        self.go(MitmPhase::ApMade, MitmAction::EnsureAp { iface, beside })
                    },
                    None => {
                        let error = text::cat2(
                            "proxy_ap could not determine car STA channel from iface ",
                            self.join_iface.as_str(),
                        );
                        self.fail(error)
                    },
                }
            },
            MitmPhase::ApMade => {
                if e.failed() {
                    self.fail(e.error())
                } else {
                    let channel: u32 = self.channel;
                    let iface = self.ap_iface.clone();
                    let ip = self.ap_ip();
                    self.go(MitmPhase::ApStarted, MitmAction::StartAp { iface, ip, channel })
                }
            },
            MitmPhase::ApStarted => {
                if e.failed() {
                    self.fail(e.error())
                } else {
                    self.sleep(MitmPhase::ApSettled)
                }
            },
            MitmPhase::ApSettled => {
                let target = self.hu_ip.clone();
                let iface = self.join_iface.clone();
                let ssid = self.hu_info.ssid.clone();
                let source = self.car_ip.clone();
                self.go(
                    MitmPhase::RouteRepaired,
                    MitmAction::RepairRoute { target, iface, ssid, source },
                )
            },
            MitmPhase::RouteRepaired => {
                if e.failed() {
                    self.fail(e.error())
                } else {
                    self.car_ip = e.text();
                    let iface = self.ap_iface.clone();
                    self.go(MitmPhase::MacRead, MitmAction::ReadMac { iface })
                }
            },
            MitmPhase::MacRead => {
                let mac = e.text();
                let bssid = text::to_ascii_lowercase(mac.as_str());
                let info = wifi_text::build_proxy_phone_wifi_info(
                    self.options.phone_ap_ssid.as_str(),
                    self.options.phone_ap_key.as_str(),
                    bssid.as_str(),
                );
                self.go(MitmPhase::InfoEncoded, MitmAction::EncodeInfo { info })
            },
            MitmPhase::InfoEncoded => {
                if e.failed() {
                    self.fail(e.error())
                } else {
                    self.phone_info_payload = e.bytes();
                    self.phone_ip = self.ap_ip();
                    self.go(MitmPhase::Armed, MitmAction::ArmPhoneTcp)
                }
            },
            _ => vstd::pervasive::unreached(),
        }
    }

    #[verifier::rlimit(40)]
    fn phone_step(&mut self, e: MitmEvent<String, Vec<u8>>) -> (r: MitmAction<String, Vec<u8>>)
        requires
            part_of(old(self).phase) == MitmPart::Phone,
        ensures
            (final(self)@, r@) == phone_step(old(self)@, e@),
    {
        match self.phase {
            MitmPhase::Armed => {
                self.seq_before = e.sequence();
                let original = copy_bytes(&self.hu_start_payload);
                let ip = self.phone_ip.clone();
                let port: u16 = phone_port(self.options.listen_port);
                self.go(MitmPhase::StartEncoded, MitmAction::EncodeStart { original, ip, port })
            },
            MitmPhase::StartEncoded => {
                if e.failed() {
                    self.fail(e.error())
                } else {
                    self.phone_start_payload = e.bytes();
                    self.attempt(1)
                }
            },
            MitmPhase::PhoneBack(n) => {
                if e.failed() {
                    self.fail(e.error())
                } else {
                    self.go(MitmPhase::Awake(n), MitmAction::WakeTcp)
                }
            },
            MitmPhase::Awake(n) => {
                let payload = copy_bytes(&self.phone_start_payload);
                self.go(
                    MitmPhase::StartSent(n),
                    MitmAction::SendPhone {
                        id: ProxyMessageId::WifiStartRequest.as_u16(),
                        payload,
                    },
                )
            },
            MitmPhase::StartSent(n) => {
                if e.failed() {
                    self.retry(n, "send WifiStartRequest failed: ", e.error())
                } else {
                    self.go(
                        MitmPhase::InfoRequested(n),
                        MitmAction::AwaitPhone {
                            expected: ProxyMessageId::WifiInfoRequest,
                            cached: None,
                            ms: 30000,
                        },
                    )
                }
            },
            MitmPhase::InfoRequested(n) => {
                if e.failed() {
                    self.retry(n, "waiting for WifiInfoRequest failed: ", e.error())
                } else {
                    let payload = copy_bytes(&self.phone_info_payload);
                    self.go(
                        MitmPhase::InfoSent(n),
                        MitmAction::SendPhone {
                            id: ProxyMessageId::WifiInfoResponse.as_u16(),
                            payload,
                        },
                    )
                }
            },
            MitmPhase::InfoSent(n) => {
                if e.failed() {
                    self.retry(n, "send WifiInfoResponse failed: ", e.error())
                } else {
                    let cached = copy_bytes(&self.phone_info_payload);
                    self.go(
                        MitmPhase::StartAnswered(n),
                        MitmAction::AwaitPhone {
                            expected: ProxyMessageId::WifiStartResponse,
                            cached: Some(cached),
                            ms: 45000,
                        },
                    )
                }
            },
            MitmPhase::StartAnswered(n) => {
                if e.failed() {
                    self.retry(n, "waiting for WifiStartResponse failed: ", e.error())
                } else {
                    self.answer_id = e.id();
                    self.answer_payload = e.bytes();
                    self.go(MitmPhase::Collecting, MitmAction::CollectStatus)
                }
            },
            MitmPhase::Collecting => {
                let seq_before: u64 = self.seq_before;
                self.go(MitmPhase::Barrier, MitmAction::AwaitBarrier { seq_before, ms: 75000 })
            },
            MitmPhase::Barrier => {
                if e.failed() {
                    self.fail(e.error())
                } else {
                    let id: u16 = self.answer_id;
                    let payload = copy_bytes(&self.answer_payload);
                    self.go(MitmPhase::HuAnswered, MitmAction::SendHu { id, payload })
                }
            },
            MitmPhase::HuAnswered => {
                if e.failed() {
                    self.fail(e.error())
                } else {
                    let port = pairing::show_signed(self.hu_port as i64);
                    let address = text::cat3(self.hu_ip.as_str(), ":", port.as_str());
                    let ip = self.hu_ip.clone();
                    let iface = self.join_iface.clone();
                    let ssid = self.hu_info.ssid.clone();
                    let source = self.car_ip.clone();
                    self.go(
                        MitmPhase::HuConnected,
                        MitmAction::ConnectHu { address, ip, iface, ssid, source },
                    )
                }
            },
            MitmPhase::HuConnected => {
                if e.failed() {
                    self.fail(e.error())
                } else {
                    self.go(
                        MitmPhase::LocalConnected,
                        MitmAction::ConnectLocal { port: TCP_DHU_PORT as u16, ms: 45000 },
                    )
                }
            },
            MitmPhase::LocalConnected => {
                if e.failed() {
                    self.fail(e.error())
                } else {
                    self.go(MitmPhase::KeepaliveStopped, MitmAction::StopKeepalive)
                }
            },
            MitmPhase::KeepaliveStopped => self.go(
                MitmPhase::Forwarding,
                MitmAction::ForwardStatus,
            ),
            MitmPhase::Forwarding => self.go(MitmPhase::Bridged, MitmAction::Bridge),
            MitmPhase::Bridged => {
                if e.failed() {
                    self.fail(e.error())
                } else {
                    self.go(MitmPhase::Ended, MitmAction::Done)
                }
            },
            _ => vstd::pervasive::unreached(),
        }
    }

    /// The part of the session that it is in.
    pub fn part(&self) -> (r: MitmPart)
        ensures
            r == part_of(self.phase),
    {
        match self.phase {
            MitmPhase::Begin => MitmPart::Meet,
            MitmPhase::Hsp => MitmPart::Meet,
            MitmPhase::Met => MitmPart::Meet,
            MitmPhase::MetAgain => MitmPart::Meet,
            MitmPhase::PhonesDropped => MitmPart::Meet,
            MitmPhase::Exchanged => MitmPart::Meet,
            MitmPhase::StartParsed => MitmPart::Meet,
            MitmPhase::InfoAsked => MitmPart::Meet,
            MitmPhase::InfoRead => MitmPart::Meet,
            MitmPhase::InfoParsed => MitmPart::Meet,
            MitmPhase::KeptAlive => MitmPart::Meet,
            MitmPhase::ExternalFound => MitmPart::Wifi,
            MitmPhase::ApStopped => MitmPart::Wifi,
            MitmPhase::Joined => MitmPart::Wifi,
            MitmPhase::SupplicantStopped => MitmPart::Wifi,
            MitmPhase::JoinedAgain => MitmPart::Wifi,
            MitmPhase::Settled => MitmPart::Wifi,
            MitmPhase::IpFound => MitmPart::Wifi,
            MitmPhase::ApChannel => MitmPart::Wifi,
            MitmPhase::JoinChannel => MitmPart::Wifi,
            MitmPhase::ExternalApStarted => MitmPart::Wifi,
            MitmPhase::CarChannel => MitmPart::Wifi,
            MitmPhase::ApMade => MitmPart::Wifi,
            MitmPhase::ApStarted => MitmPart::Wifi,
            MitmPhase::ApSettled => MitmPart::Wifi,
            MitmPhase::RouteRepaired => MitmPart::Wifi,
            MitmPhase::MacRead => MitmPart::Wifi,
            MitmPhase::InfoEncoded => MitmPart::Wifi,
            MitmPhase::Ended => MitmPart::Over,
            _ => MitmPart::Phone,
        }
    }

    /// Takes what came of the last action and tells the next one. The first call
    /// takes any event.
    pub fn step(&mut self, e: MitmEvent<String, Vec<u8>>) -> (r: MitmAction<String, Vec<u8>>)
        requires
            old(self).phase != MitmPhase::Ended,
        ensures
            (final(self)@, r@) == mitm_step(old(self)@, e@),
    {
        match self.part() {
            MitmPart::Meet => self.meet_step(e),
            MitmPart::Wifi => self.wifi_step(e),
            MitmPart::Phone => self.phone_step(e),
            MitmPart::Over => vstd::pervasive::unreached(),
        }
    }
}

// ---------------------------------------------------------------------
// Reading and writing messages

/// A message cannot be read, for a reason.
pub open spec fn cannot_read(error: Option<Seq<char>>) -> EventModel {
    MitmEvent::Failed(error->0)
}

pub open spec fn cannot_write() -> EventModel {
    MitmEvent::Failed("the message cannot be written"@)
}

/// Whether a request has another endpoint, which stands first and is read back, and
/// for the rest the fields of a given one.
pub open spec fn is_rewritten_request(
    original: Seq<u8>,
    written: Seq<u8>,
    ip: Seq<char>,
    port: i32,
) -> bool {
    &&& messages::fields_in_bytes(written) matches Some(g) && messages::is_rewritten(
        messages::fields_in_bytes(original)->0,
        g,
        ip,
        port,
    )
    &&& messages::endpoint_in(written) == Some((ip, port))
    &&& written.len() >= messages::start_bytes(ip, port).len()
    &&& written.take(messages::start_bytes(ip, port).len() as int) == messages::start_bytes(
        ip,
        port,
    )
}

/// What comes of an action that reads or writes a message: the endpoint or the
/// network in it, or its bytes.
pub open spec fn is_message_event(a: ActionModel, e: EventModel) -> bool {
    match a {
        MitmAction::ParseStart { payload } => e == match messages::endpoint_in(payload) {
            Some(p) => MitmEvent::Endpoint { ip: p.0, port: p.1 },
            None => cannot_read(messages::start_error(payload)),
        },
        MitmAction::ParseInfo { payload } => e == match messages::info_in(payload) {
            Some(info) => MitmEvent::Info(info),
            None => cannot_read(messages::info_error(payload)),
        },
        MitmAction::EncodeInfo { info } => if messages::info_fits(info) {
            e matches MitmEvent::Bytes(b) && b == messages::info_bytes(info) && messages::info_in(b)
                == Some(messages::described(info))
        } else {
            e == cannot_write()
        },
        MitmAction::EncodeStart { original, ip, port } => {
            if messages::endpoint_in(original) is None {
                e == cannot_read(messages::start_error(original))
            } else if wifi_iface::byte_len(ip) > MAX_TEXT {
                e == cannot_write()
            } else {
                e matches MitmEvent::Bytes(b) && is_rewritten_request(original, b, ip, port as i32)
            }
        },
        _ => false,
    }
}

pub open spec fn is_about_a_message(a: ActionModel) -> bool {
    a is ParseStart || a is ParseInfo || a is EncodeInfo || a is EncodeStart
}

/// Reads or writes the message that an action is about, if it is about one.
pub fn message_event(action: &MitmAction<String, Vec<u8>>) -> (r: Option<
    MitmEvent<String, Vec<u8>>,
>)
    ensures
        match r {
            Some(e) => is_about_a_message(action@) && is_message_event(action@, e@),
            None => !is_about_a_message(action@),
        },
{
    match action {
        MitmAction::ParseStart { payload } => Some(
            match messages::parse_start(payload.as_slice()) {
                Ok((ip, port)) => MitmEvent::Endpoint { ip, port },
                Err(error) => MitmEvent::Failed(error),
            },
        ),
        MitmAction::ParseInfo { payload } => Some(
            match messages::parse_info(payload.as_slice()) {
                Ok(info) => MitmEvent::Info(info),
                Err(error) => MitmEvent::Failed(error),
            },
        ),
        MitmAction::EncodeInfo { info } => {
            if info.ssid.as_str().as_bytes().len() <= MAX_TEXT
                && info.key.as_str().as_bytes().len() <= MAX_TEXT
                && info.bssid.as_str().as_bytes().len() <= MAX_TEXT {
                Some(MitmEvent::Bytes(messages::encode_info(info)))
            } else {
                Some(MitmEvent::Failed("the message cannot be written".to_owned()))
            }
        },
        MitmAction::EncodeStart { original, ip, port } => {
            match messages::rewrite_start(original.as_slice(), ip.as_str(), *port as i32) {
                Ok(b) => Some(MitmEvent::Bytes(b)),
                Err(messages::RewriteError::NotAMessage(error)) => Some(MitmEvent::Failed(error)),
                Err(messages::RewriteError::TooLarge) => Some(
                    MitmEvent::Failed("the message cannot be written".to_owned()),
                ),
            }
        },
        _ => None,
    }
}

// ---------------------------------------------------------------------
// Laws

/// The head unit is told that the bootstrap succeeded only once the phone has
/// connected: apart from asking for the network, a frame is sent to it only
/// when the barrier was passed, and its TCP side is called only behind that.
pub proof fn law_hu_is_told_behind_the_barrier(s: SessionModel, e: EventModel)
    requires
        s.phase != MitmPhase::Ended,
    ensures
        mitm_step(s, e).1 matches MitmAction::SendHu { id, payload } ==> {
            ||| s.phase == MitmPhase::StartParsed && id
                == ProxyMessageId::WifiInfoRequest.number() && payload.len() == 0
            ||| s.phase == MitmPhase::Barrier && event_error(e) is None && id == s.answer_id
                && payload == s.answer_payload
        },
        mitm_step(s, e).1 is ConnectHu ==> s.phase == MitmPhase::HuAnswered,
        mitm_step(s, e).0.phase == MitmPhase::HuAnswered ==> s.phase == MitmPhase::Barrier,
        mitm_step(s, e).1 is Bridge ==> s.phase == MitmPhase::Forwarding,
{
}

/// The request that the phone gets names the proxy: read again, it has the address
/// under which the phone is to reach the proxy, and the proxy's port. Nothing
/// changes it later.
pub proof fn law_phone_reads_the_proxys_endpoint(s: SessionModel, e: EventModel, written: EventModel)
    requires
        s.phase != MitmPhase::Ended,
    ensures
        s.phase == MitmPhase::Armed && is_message_event(mitm_step(s, e).1, written) && event_error(
            written,
        ) is None ==> messages::endpoint_in(
            mitm_step(mitm_step(s, e).0, written).0.phone_start_payload,
        ) == Some((s.phone_ip, port_for_phone(s.options.listen_port) as i32)),
        s.phase != MitmPhase::StartEncoded ==> mitm_step(s, e).0.phone_start_payload
            == s.phone_start_payload,
{
}

/// The head unit is pinged until both TCP sides are connected.
pub proof fn law_keepalive_lasts_until_the_bridge(s: SessionModel, e: EventModel)
    requires
        s.phase != MitmPhase::Ended,
    ensures
        mitm_step(s, e).1 is StopKeepalive ==> s.phase == MitmPhase::LocalConnected
            && event_error(e) is None,
        mitm_step(s, e).1 matches MitmAction::StartKeepalive { interval_ms } ==> s.phase
            == MitmPhase::InfoParsed && interval_ms >= 250,
{
}

/// Where one radio is shared, the phone's access point and the car's network never
/// get the same interface; nor do they when the roles are swapped.
pub proof fn law_shared_radio_has_two_interfaces(s: SessionModel)
    requires
        s.mode == PhoneWifiMode::ProxyAp,
    ensures
        ms_layout(s).0.sta_iface != ms_layout(s).0.ap_iface,
        swapped(s).sta_iface != swapped(s).ap_iface,
{
    reveal_strlit("ap0");
    reveal_strlit("wlan0");
    assert("ap0"@.len() != "wlan0"@.len());
}

/// In the car's network the proxy joins on the base interface and keeps no access
/// point, unless it is configured otherwise.
pub proof fn law_car_network_is_joined_on_the_base_interface(s: SessionModel)
    requires
        s.mode == PhoneWifiMode::CarAp,
        !s.options.keep_ap,
        text::trimmed(s.options.sta_iface).len() == 0,
    ensures
        ms_layout(s).1 matches MitmAction::Join { request } && request.sta_iface == or_wlan0(
            text::trimmed(s.options.iface),
        ) && request.ap_iface.len() == 0 && !request.keep_ap && request.control
            == s.options.join_control,
{
}

/// Where the access point is to stay up in the car's network, the proxy joins beside
/// it: on the configured interface or on `sta0`.
pub proof fn law_access_point_is_kept(s: SessionModel)
    requires
        s.mode == PhoneWifiMode::CarAp,
        s.options.keep_ap,
    ensures
        ms_layout(s).1 matches MitmAction::Join { request } && request.keep_ap && request.ap_iface
            == (if text::trimmed(s.options.ap_iface).len() > 0 {
            text::trimmed(s.options.ap_iface)
        } else {
            text::trimmed(s.options.iface)
        }) && request.sta_iface == (if text::trimmed(s.options.sta_iface).len() > 0 {
            text::trimmed(s.options.sta_iface)
        } else {
            "sta0"@
        }),
{
}

pub open spec fn rendezvous_action(hu_first: bool) -> ActionModel {
    MitmAction::Rendezvous { hu_first }
}

/// Where it is left to the proxy which side is connected first, it begins with the
/// head unit, and begins again with the phone if the phone never called. No other
/// session begins again, and none does so twice.
pub proof fn law_auto_falls_back_to_the_phone(s: SessionModel, e: EventModel)
    requires
        s.phase != MitmPhase::Ended,
    ensures
        ({
            let auto = rendezvous::rendezvous_mode(s.options.rendezvous_mode)
                == CarWifiRendezvousMode::Auto;
            let next = mitm_step(s, e);
            &&& s.phase == MitmPhase::Hsp && auto ==> next.1 == rendezvous_action(true)
            &&& s.phase == MitmPhase::Met && auto && e is NoPhone ==> next.1 == rendezvous_action(
                false,
            )
            &&& next.1 is Rendezvous && s.phase != MitmPhase::Hsp ==> s.phase == MitmPhase::Met
                && auto && e is NoPhone && next.0.phase == MitmPhase::MetAgain
        }),
{
}

pub open spec fn attempt_of(phase: MitmPhase) -> Option<u8> {
    match phase {
        MitmPhase::PhoneBack(n) => Some(n),
        MitmPhase::Awake(n) => Some(n),
        MitmPhase::StartSent(n) => Some(n),
        MitmPhase::InfoRequested(n) => Some(n),
        MitmPhase::InfoSent(n) => Some(n),
        MitmPhase::StartAnswered(n) => Some(n),
        _ => None,
    }
}

pub open spec fn attempts_ok(phase: MitmPhase) -> bool {
    attempt_of(phase) matches Some(n) ==> 1 <= n <= MAX_PHONE_ATTEMPTS
}

/// The phone is taken through the bootstrap three times at most, and once more
/// only when it hung up.
pub proof fn law_three_phone_attempts(s: SessionModel, e: EventModel)
    requires
        s.phase != MitmPhase::Ended,
        attempts_ok(s.phase),
    ensures
        attempts_ok(mitm_step(s, e).0.phase),
        mitm_step(s, e).1 is ReconnectPhone ==> event_error(e) is Some
            && prebootstrap::is_dropped_connection(event_error(e)->0),
        (attempt_of(s.phase) is Some && attempt_of(mitm_step(s, e).0.phase) is Some) ==> attempt_of(
            s.phase,
        )->0 <= attempt_of(mitm_step(s, e).0.phase)->0 <= attempt_of(s.phase)->0 + 1,
{
}

/// How many steps are left at most.
pub open spec fn steps_left(phase: MitmPhase) -> int {
    match phase {
        MitmPhase::Begin => 56,
        MitmPhase::Hsp => 55,
        MitmPhase::Met => 54,
        MitmPhase::MetAgain => 53,
        MitmPhase::PhonesDropped => 52,
        MitmPhase::Exchanged => 51,
        MitmPhase::StartParsed => 50,
        MitmPhase::InfoAsked => 49,
        MitmPhase::InfoRead => 48,
        MitmPhase::InfoParsed => 47,
        MitmPhase::KeptAlive => 46,
        MitmPhase::ExternalFound => 45,
        MitmPhase::ApStopped => 44,
        MitmPhase::Joined => 43,
        MitmPhase::SupplicantStopped => 42,
        MitmPhase::JoinedAgain => 41,
        MitmPhase::Settled => 40,
        MitmPhase::IpFound => 39,
        MitmPhase::ApChannel => 38,
        MitmPhase::JoinChannel => 37,
        MitmPhase::ExternalApStarted => 36,
        MitmPhase::CarChannel => 35,
        MitmPhase::ApMade => 34,
        MitmPhase::ApStarted => 33,
        MitmPhase::ApSettled => 32,
        MitmPhase::RouteRepaired => 31,
        MitmPhase::MacRead => 30,
        MitmPhase::InfoEncoded => 29,
        MitmPhase::Armed => 28,
        MitmPhase::StartEncoded => 27,
        MitmPhase::PhoneBack(n) => 14 + (MAX_PHONE_ATTEMPTS - n) * 6,
        MitmPhase::Awake(n) => 13 + (MAX_PHONE_ATTEMPTS - n) * 6,
        MitmPhase::StartSent(n) => 12 + (MAX_PHONE_ATTEMPTS - n) * 6,
        MitmPhase::InfoRequested(n) => 11 + (MAX_PHONE_ATTEMPTS - n) * 6,
        MitmPhase::InfoSent(n) => 10 + (MAX_PHONE_ATTEMPTS - n) * 6,
        MitmPhase::StartAnswered(n) => 9 + (MAX_PHONE_ATTEMPTS - n) * 6,
        MitmPhase::Collecting => 8,
        MitmPhase::Barrier => 7,
        MitmPhase::HuAnswered => 6,
        MitmPhase::HuConnected => 5,
        MitmPhase::LocalConnected => 4,
        MitmPhase::KeepaliveStopped => 3,
        MitmPhase::Forwarding => 2,
        MitmPhase::Bridged => 1,
        MitmPhase::Ended => 0,
    }
}

/// The step goes on, and ends the session when it says so.
pub open spec fn advances(s: SessionModel, step: (SessionModel, ActionModel)) -> bool {
    &&& 0 <= steps_left(step.0.phase) < steps_left(s.phase) <= 56
    &&& step.0.phase == MitmPhase::Ended <==> step.1 is Done || step.1 is Fail
}

#[verifier::rlimit(40)]
proof fn lemma_meet_advances(s: SessionModel, e: EventModel)
    requires
        part_of(s.phase) == MitmPart::Meet,
        attempts_ok(s.phase),
    ensures
        advances(s, meet_step(s, e)),
{
}

#[verifier::rlimit(40)]
proof fn lemma_wifi_advances(s: SessionModel, e: EventModel)
    requires
        part_of(s.phase) == MitmPart::Wifi,
        attempts_ok(s.phase),
    ensures
        advances(s, wifi_step(s, e)),
{
}

#[verifier::rlimit(40)]
proof fn lemma_phone_advances(s: SessionModel, e: EventModel)
    requires
        part_of(s.phase) == MitmPart::Phone,
        attempts_ok(s.phase),
    ensures
        advances(s, phone_step(s, e)),
{
}

/// A session ends: each step leaves fewer of them, 56 at the start.
pub proof fn law_session_ends(s: SessionModel, e: EventModel)
    requires
        s.phase != MitmPhase::Ended,
        attempts_ok(s.phase),
    ensures
        advances(s, mitm_step(s, e)),
{
    match part_of(s.phase) {
        MitmPart::Meet => lemma_meet_advances(s, e),
        MitmPart::Wifi => lemma_wifi_advances(s, e),
        MitmPart::Phone => lemma_phone_advances(s, e),
        MitmPart::Over => {},
    }
}

/// The phone is always led to the proxy, never to the head unit: the start
/// request that it gets names the proxy's port, and on the proxy's own network
/// the proxy's address.
pub proof fn law_phone_is_led_to_the_proxy(s: SessionModel, e: EventModel)
    requires
        s.phase != MitmPhase::Ended,
    ensures
        mitm_step(s, e).1 matches MitmAction::EncodeStart { original, ip, port } ==> {
            &&& port == port_for_phone(s.options.listen_port)
            &&& ip == s.phone_ip
            &&& original == s.hu_start_payload
        },
        mitm_step(s, e).0.phase == MitmPhase::Armed && s.mode != PhoneWifiMode::CarAp && s.phase
            != MitmPhase::IpFound ==> mitm_step(s, e).0.phone_ip == wifi_iface::ap_address(
            s.options.phone_ap_ip,
        ),
        mitm_step(s, e).1 matches MitmAction::SendPhone { id, payload } ==> {
            ||| id == ProxyMessageId::WifiStartRequest.number() && payload == s.phone_start_payload
            ||| id == ProxyMessageId::WifiInfoResponse.number() && payload == s.phone_info_payload
        },
{
}

} // verus!
