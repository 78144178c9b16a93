//! The Bluetooth side of the proxy: what is set up on the adapter, and the
//! sessions that it runs.

use crate::address;
use crate::address::BtAddress;
use crate::frame::ProxyMessageId;
use crate::handshake::Handshake;
use crate::handshake::HandshakePhase;
use crate::handshake::HandshakeSettings;
use crate::messages;
use crate::mitm_session;
use crate::mitm_session::CarWifiMitmProxyOptions;
use crate::mitm_session::CarWifiMitmSession;
use crate::pairing;
use crate::pairing::PairingIdentity;
use crate::pairing::PairingWindow;
use crate::pairing::SavedIdentity;
use crate::pairing::WindowPhase;
use crate::profiles;
use crate::profiles::PhoneLikeSdpProfileSpec;
use crate::rendezvous;
use crate::rendezvous::BluetoothAddressList;
use crate::rendezvous::Recovery;
use crate::text;
use crate::wire;
use vstd::prelude::*;
use vstd::string::StrSliceExecFns;
use vstd::utf8;

verus! {

pub const IDENTITY_NAME: &'static str = "aa-proxy";

// ---------------------------------------------------------------------
// The name of the adapter

pub open spec fn without_zeros(s: Seq<char>) -> Seq<char>
    decreases s.len(),
{
    if s.len() > 0 && s.last() == '\0' {
        without_zeros(s.drop_last())
    } else {
        s
    }
}

pub fn trim_zeros<'a>(s: &'a str) -> (r: &'a str)
    ensures
        r@ == without_zeros(s@),
{
    let chars = text::chars_of(s);
    let mut to: usize = chars.len();
    assert(s@.take(s@.len() as int) =~= s@);
    while to > 0 && chars[to - 1] == '\0'
        invariant
            to <= chars@.len(),
            chars@ == s@,
            without_zeros(s@) == without_zeros(s@.take(to as int)),
        decreases to,
    {
        assert(s@.take(to as int).drop_last() =~= s@.take(to - 1));
        to = to - 1;
    }
    assert(s@.subrange(0, to as int) =~= s@.take(to as int));
    s.substring_char(0, to)
}

/// The serial number in the contents of the kernel's file.
pub open spec fn serial_bytes(contents: Seq<char>) -> Seq<u8> {
    utf8::encode_utf8(text::trimmed(without_zeros(contents)))
}

/// Whether the serial number is too short, or its last six bytes are characters.
pub open spec fn serial_can_be_cut(contents: Seq<char>) -> bool {
    let bytes = serial_bytes(contents);
    bytes.len() < 6 || utf8::is_char_boundary(bytes, bytes.len() - 6)
}

pub fn can_cut_serial_number(contents: &str) -> (r: bool)
    ensures
        r == serial_can_be_cut(contents@),
{
    let serial = text::trim(trim_zeros(contents));
    let n: usize = serial.as_bytes().len();
    n < 6 || serial.is_char_boundary(n - 6)
}

/// The last six bytes of the serial number; nothing if it has fewer.
pub fn get_cpu_serial_number_suffix(contents: &str) -> (r: String)
    requires
        serial_can_be_cut(contents@),
    ensures
        serial_bytes(contents@).len() < 6 ==> r@.len() == 0,
        serial_bytes(contents@).len() >= 6 ==> utf8::encode_utf8(r@) == serial_bytes(
            contents@,
        ).skip(serial_bytes(contents@).len() - 6),
{
    let serial = text::trim(trim_zeros(contents));
    let n: usize = serial.as_bytes().len();
    if n < 6 {
        return String::new();
    }
    let (_, last) = serial.split_at(n - 6);
    assert(serial_bytes(contents@).skip(n - 6) =~= serial_bytes(contents@).subrange(
        n - 6,
        n as int,
    ));
    last.to_owned()
}

/// The name of the adapter: the configured one, or one with the end of the
/// serial number, where that could be read.
pub open spec fn alias_of(configured: Option<Seq<char>>, suffix: Option<Seq<char>>) -> Seq<char> {
    match configured {
        Some(alias) => alias,
        None => match suffix {
            Some(s) => "aa-proxy"@ + "-"@ + s,
            None => "aa-proxy"@,
        },
    }
}

// ---------------------------------------------------------------------
// The adapter

/// A setting of the adapter.
pub enum AdapterSetting<T> {
    Alias(T),
    Powered(bool),
    Pairable(bool),
    PairableTimeout(u32),
    Discoverable(bool),
    DiscoverableTimeout(u32),
    /// Take connections of phones for Android Auto, on this channel.
    ServeAaWireless(u8),
}

impl DeepView for AdapterSetting<String> {
    type V = AdapterSetting<Seq<char>>;

    open spec fn deep_view(&self) -> AdapterSetting<Seq<char>> {
        match *self {
            AdapterSetting::Alias(a) => AdapterSetting::Alias(a@),
            AdapterSetting::Powered(b) => AdapterSetting::Powered(b),
            AdapterSetting::Pairable(b) => AdapterSetting::Pairable(b),
            AdapterSetting::PairableTimeout(n) => AdapterSetting::PairableTimeout(n),
            AdapterSetting::Discoverable(b) => AdapterSetting::Discoverable(b),
            AdapterSetting::DiscoverableTimeout(n) => AdapterSetting::DiscoverableTimeout(n),
            AdapterSetting::ServeAaWireless(c) => AdapterSetting::ServeAaWireless(c),
        }
    }
}

/// The settings with which the adapter is taken into use, in their order.
pub open spec fn first_settings(alias: Seq<char>, advertise: bool, serve: bool) -> Seq<
    AdapterSetting<Seq<char>>,
> {
    let base = seq![
        AdapterSetting::Alias(alias),
        AdapterSetting::Powered(true),
        AdapterSetting::Pairable(true),
    ];
    let seen = if advertise {
        base.push(AdapterSetting::Discoverable(true)).push(AdapterSetting::DiscoverableTimeout(0))
    } else {
        base
    };
    if serve {
        seen.push(AdapterSetting::ServeAaWireless(8))
    } else {
        seen
    }
}

fn push_setting(list: &mut Vec<AdapterSetting<String>>, setting: AdapterSetting<String>)
    ensures
        final(list).deep_view() == old(list).deep_view().push(setting.deep_view()),
{
    let ghost before = list.deep_view();
    list.push(setting);
    assert(list.deep_view() =~= before.push(setting.deep_view()));
}

/// What the proxy knows of its Bluetooth side.
pub struct Bluetooth<T = String> {
    /// Phones are served for Android Auto.
    pub serves_aa: bool,
    pub has_hu_agent: bool,
    pub has_companion_agent: bool,
    /// The phone whose turn it is.
    pub current_index: usize,
    pub dongle_mode: bool,
    pub adapter_alias: T,
    pub identity: SavedIdentity<T>,
    pub phone_like_sdp_profiles_registered: bool,
}

impl View for Bluetooth<String> {
    type V = Bluetooth<Seq<char>>;

    open spec fn view(&self) -> Bluetooth<Seq<char>> {
        Bluetooth {
            serves_aa: self.serves_aa,
            has_hu_agent: self.has_hu_agent,
            has_companion_agent: self.has_companion_agent,
            current_index: self.current_index,
            dongle_mode: self.dongle_mode,
            adapter_alias: self.adapter_alias@,
            identity: self.identity@,
            phone_like_sdp_profiles_registered: self.phone_like_sdp_profiles_registered,
        }
    }
}

pub open spec fn first_state(alias: Seq<char>, dongle_mode: bool, serves_aa: bool) -> Bluetooth<
    Seq<char>,
> {
    Bluetooth {
        serves_aa,
        has_hu_agent: false,
        has_companion_agent: false,
        current_index: 0,
        dongle_mode,
        adapter_alias: alias,
        identity: SavedIdentity { alias: None, class: None, class_iface: None },
        phone_like_sdp_profiles_registered: false,
    }
}

/// The state at the start, and the settings of the adapter that it stands for.
/// The suffix is the end of the serial number, if that could be read.
pub fn init(
    btalias: Option<String>,
    suffix: Option<String>,
    advertise: bool,
    dongle_mode: bool,
    register_aa_wireless_profile: bool,
) -> (r: (Bluetooth, Vec<AdapterSetting<String>>))
    ensures
        ({
            let alias = alias_of(btalias.deep_view(), suffix.deep_view());
            &&& r.0@ == first_state(alias, dongle_mode, register_aa_wireless_profile)
            &&& r.1.deep_view() == first_settings(alias, advertise, register_aa_wireless_profile)
        }),
{
    let alias = match btalias {
        Some(alias) => alias,
        None => match suffix {
            Some(s) => text::cat3(IDENTITY_NAME, "-", s.as_str()),
            None => IDENTITY_NAME.to_owned(),
        },
    };
    let mut settings: Vec<AdapterSetting<String>> = Vec::new();
    push_setting(&mut settings, AdapterSetting::Alias(alias.clone()));
    push_setting(&mut settings, AdapterSetting::Powered(true));
    push_setting(&mut settings, AdapterSetting::Pairable(true));
    assert(settings.deep_view() =~= seq![
        AdapterSetting::Alias(alias@),
        AdapterSetting::Powered(true),
        AdapterSetting::Pairable(true),
    ]);
    if advertise {
        push_setting(&mut settings, AdapterSetting::Discoverable(true));
        push_setting(&mut settings, AdapterSetting::DiscoverableTimeout(0));
    }
    if register_aa_wireless_profile {
        push_setting(&mut settings, AdapterSetting::ServeAaWireless(8));
    }
    let state = Bluetooth {
        serves_aa: register_aa_wireless_profile,
        has_hu_agent: false,
        has_companion_agent: false,
        current_index: 0,
        dongle_mode,
        adapter_alias: alias,
        identity: PairingIdentity::new(),
        phone_like_sdp_profiles_registered: false,
    };
    (state, settings)
}

/// Whether the audio sink is announced: not by a dongle.
pub fn spawn_a2dp_sink_registration(dongle_mode: bool) -> (r: bool)
    ensures
        r == !dongle_mode,
{
    !dongle_mode
}

// ---------------------------------------------------------------------
// Calling phones

/// How phones are called.
pub enum PhoneTrigger {
    /// Not at all; they may still call.
    Wait,
    /// In turns, beginning with the one at this index, until one is reached.
    Call { addresses: Vec<BtAddress>, start: usize },
    /// Each once, and only those that are known as Android Auto devices.
    Dongle { addresses: Vec<BtAddress> },
}

/// A step of starting the companion's side.
#[derive(Clone, Copy, PartialEq, Eq, Structural, Debug)]
pub enum CompanionTask {
    RegisterAgent,
    /// Make the adapter pairable and discoverable with no end.
    OpenAdapter,
    RegisterProfile,
    RegisterSerialProfile,
}

pub open spec fn companion_tasks(has_agent: bool) -> Seq<CompanionTask> {
    let rest = seq![
        CompanionTask::OpenAdapter,
        CompanionTask::RegisterProfile,
        CompanionTask::RegisterSerialProfile,
    ];
    if has_agent {
        rest
    } else {
        seq![CompanionTask::RegisterAgent] + rest
    }
}

impl Bluetooth<String> {
    /// The settings that open or close the adapter, in their order.
    pub fn set_adapter_pairable_discoverable(
        &self,
        pairable: bool,
        discoverable: bool,
        timeout_secs: u32,
    ) -> (r: Vec<AdapterSetting<String>>)
        ensures
            r.deep_view() == seq![
                AdapterSetting::<Seq<char>>::PairableTimeout(timeout_secs),
                AdapterSetting::DiscoverableTimeout(timeout_secs),
                AdapterSetting::Pairable(pairable),
                AdapterSetting::Discoverable(discoverable),
            ],
    {
        let mut list: Vec<AdapterSetting<String>> = Vec::new();
        push_setting(&mut list, AdapterSetting::PairableTimeout(timeout_secs));
        push_setting(&mut list, AdapterSetting::DiscoverableTimeout(timeout_secs));
        push_setting(&mut list, AdapterSetting::Pairable(pairable));
        push_setting(&mut list, AdapterSetting::Discoverable(discoverable));
        assert(list.deep_view() =~= seq![
            AdapterSetting::<Seq<char>>::PairableTimeout(timeout_secs),
            AdapterSetting::DiscoverableTimeout(timeout_secs),
            AdapterSetting::Pairable(pairable),
            AdapterSetting::Discoverable(discoverable),
        ]);
        list
    }

    /// The services to announce, if there are any to announce now.
    pub fn register_phone_like_sdp_profiles(&self, enabled: bool, profile_set: &str) -> (r: Option<
        Vec<PhoneLikeSdpProfileSpec>,
    >)
        ensures
            match r {
                Some(list) => enabled && !self@.phone_like_sdp_profiles_registered
                    && list.deep_view() == profiles::profiles_of(profile_set@),
                None => !enabled || self@.phone_like_sdp_profiles_registered,
            },
    {
        if !enabled || self.phone_like_sdp_profiles_registered {
            None
        } else {
            Some(profiles::phone_like_sdp_profile_specs(profile_set))
        }
    }

    /// Notes how many of them were announced.
    pub fn note_phone_like_sdp_profiles(&mut self, registered: usize)
        ensures
            final(self)@ == (Bluetooth {
                phone_like_sdp_profiles_registered: registered > 0,
                ..old(self)@
            }),
    {
        self.phone_like_sdp_profiles_registered = registered > 0;
    }

    /// The window in which the head unit may pair; none if its name is no
    /// address.
    pub fn ensure_hu_pairing_agent(
        &self,
        hu_mac: &str,
        pairing_window_secs: u64,
        phone_like: bool,
    ) -> (r: Option<PairingWindow>)
        ensures
            ({
                let mac = text::trimmed(hu_mac@);
                match r {
                    Some(w) => {
                        &&& w.hu == (if mac.len() == 0 {
                            None
                        } else {
                            address::named_address(mac)
                        })
                        &&& mac.len() == 0 || address::named_address(mac) is Some
                        &&& w.window_secs == pairing::window_length(pairing_window_secs)
                        &&& w.phone_like == phone_like
                        &&& w.has_agent == self@.has_hu_agent
                        &&& w.has_companion == self@.has_companion_agent
                        &&& !w.discovering
                        &&& w.phase == WindowPhase::Begin
                    },
                    None => mac.len() > 0 && address::named_address(mac) is None,
                }
            }),
    {
        PairingWindow::new(
            hu_mac,
            pairing_window_secs,
            phone_like,
            self.has_hu_agent,
            self.has_companion_agent,
        )
    }

    /// What the companion's side needs, in its order; each may fail on its own.
    pub fn start_companion_bt(&self, enable_companion_bt: bool) -> (r: Vec<CompanionTask>)
        ensures
            r@ == (if enable_companion_bt {
                companion_tasks(self@.has_companion_agent)
            } else {
                Seq::empty()
            }),
    {
        let mut tasks: Vec<CompanionTask> = Vec::new();
        if !enable_companion_bt {
            assert(tasks@ =~= Seq::<CompanionTask>::empty());
            return tasks;
        }
        if !self.has_companion_agent {
            tasks.push(CompanionTask::RegisterAgent);
        }
        tasks.push(CompanionTask::OpenAdapter);
        tasks.push(CompanionTask::RegisterProfile);
        tasks.push(CompanionTask::RegisterSerialProfile);
        assert(tasks@ =~= companion_tasks(self@.has_companion_agent));
        tasks
    }

    /// Whom to call so that a phone opens its connection.
    pub fn trigger_phone_aa_connection(
        &self,
        connect: &BluetoothAddressList,
        stopped: bool,
        known: &Vec<BtAddress>,
    ) -> (r: PhoneTrigger)
        ensures
            ({
                let phones = rendezvous::phones_to_call(*connect, known@);
                match r {
                    PhoneTrigger::Wait => stopped || phones.len() == 0,
                    PhoneTrigger::Call { addresses, start } => !stopped && phones.len() > 0
                        && !self@.dongle_mode && addresses@ == phones && start
                        == self@.current_index,
                    PhoneTrigger::Dongle { addresses } => !stopped && phones.len() > 0
                        && self@.dongle_mode && addresses@ == phones,
                }
            }),
    {
        if stopped {
            return PhoneTrigger::Wait;
        }
        let addresses = connect.addresses(known);
        if addresses.len() == 0 {
            PhoneTrigger::Wait
        } else if self.dongle_mode {
            PhoneTrigger::Dongle { addresses }
        } else {
            PhoneTrigger::Call { addresses, start: self.current_index }
        }
    }

    /// Notes that the phone at an index was reached: the next one is next.
    pub fn note_phone_reached(&mut self, reached: usize, n: usize)
        requires
            reached < n,
        ensures
            final(self)@ == (Bluetooth {
                current_index: ((reached + 1) % n as int) as usize,
                ..old(self)@
            }),
    {
        self.current_index = rendezvous::next_index(reached, n);
    }

    /// A session that passes the frames of both sides on.
    pub fn aa_wireless_bridge_proxy(&self, hu_mac: String, hu_channel: Option<u8>) -> (r:
        BridgeSession)
        ensures
            r@ == (Bridge { hu_mac: hu_mac@, hu_channel, phase: BridgePhase::Begin }),
    {
        Bridge { hu_mac, hu_channel, phase: BridgePhase::Begin }
    }

    /// Whom to hang up on after an error, and how long to wait.
    pub fn recover_after_car_wifi_mitm_error(
        &self,
        connect: &BluetoothAddressList,
        known: &Vec<BtAddress>,
        hu_mac: &str,
        reason: &str,
    ) -> (r: Recovery)
        ensures
            r.phones@ == rendezvous::phones_to_call(*connect, known@),
            r.hu == address::named_address(text::trimmed(hu_mac@)),
            r.reason@ == rendezvous::recovery_reason(reason@),
            r.cooldown_ms == rendezvous::cooldown_ms(rendezvous::recovery_reason(reason@)),
    {
        rendezvous::plan_recovery(connect, known, hu_mac, reason)
    }

    /// A session in the car's network.
    pub fn aa_wireless_car_wifi_mitm_proxy(&self, options: CarWifiMitmProxyOptions) -> (r:
        CarWifiMitmSession)
        ensures
            r@ == mitm_session::fresh_session(options@),
    {
        CarWifiMitmSession::new(options)
    }

    /// A session that only asks the head unit what it offers.
    pub fn aa_wireless_probe_proxy(
        &self,
        hu_mac: String,
        hu_channel: Option<u8>,
        tcp_probe: bool,
    ) -> (r: ProbeSession)
        ensures
            r@ == (Probe {
                hu_mac: hu_mac@,
                hu_channel,
                tcp_probe,
                target_ip: Seq::<char>::empty(),
                target_port: 0,
                phase: ProbePhase::Begin,
            }),
    {
        let target_ip = String::new();
        assert(target_ip@ =~= Seq::<char>::empty());
        Probe {
            hu_mac,
            hu_channel,
            tcp_probe,
            target_ip,
            target_port: 0,
            phase: ProbePhase::Begin,
        }
    }

    /// A session that tells the phone how to reach the proxy.
    pub fn aa_handshake(
        &self,
        connect: &BluetoothAddressList,
        bt_poweroff: bool,
        stopped: bool,
        quick_reconnect: bool,
        keep_for_calls: bool,
    ) -> (r: Handshake)
        ensures
            r.phase == HandshakePhase::Begin,
            r.settings == (HandshakeSettings {
                bt_poweroff,
                dongle_mode: self@.dongle_mode,
                wildcard: connect.wildcard(),
                stopped,
                quick_reconnect,
                keep_for_calls,
            }),
    {
        Handshake::new(
            HandshakeSettings {
                bt_poweroff,
                dongle_mode: self.dongle_mode,
                wildcard: connect.is_wildcard(),
                stopped,
                quick_reconnect,
                keep_for_calls,
            },
        )
    }
}

// ---------------------------------------------------------------------
// Passing frames on

#[derive(Clone, Copy, PartialEq, Eq, Structural)]
pub enum BridgePhase {
    Begin,
    PhoneHere,
    HuHere,
    Relayed,
    Ended,
}

pub struct Bridge<T> {
    pub hu_mac: T,
    pub hu_channel: Option<u8>,
    pub phase: BridgePhase,
}

pub type BridgeSession = Bridge<String>;

impl View for Bridge<String> {
    type V = Bridge<Seq<char>>;

    open spec fn view(&self) -> Bridge<Seq<char>> {
        Bridge { hu_mac: self.hu_mac@, hu_channel: self.hu_channel, phase: self.phase }
    }
}

pub enum BridgeAction<T> {
    AwaitPhone,
    ConnectHu { mac: T, channel: Option<u8> },
    /// Pass bytes on both ways until one way ends.
    Relay,
    Done,
    Fail(T),
}

impl View for BridgeAction<String> {
    type V = BridgeAction<Seq<char>>;

    open spec fn view(&self) -> BridgeAction<Seq<char>> {
        match *self {
            BridgeAction::AwaitPhone => BridgeAction::AwaitPhone,
            BridgeAction::ConnectHu { mac, channel } => BridgeAction::ConnectHu {
                mac: mac@,
                channel,
            },
            BridgeAction::Relay => BridgeAction::Relay,
            BridgeAction::Done => BridgeAction::Done,
            BridgeAction::Fail(e) => BridgeAction::Fail(e@),
        }
    }
}

pub open spec fn br(b: Bridge<Seq<char>>, phase: BridgePhase, action: BridgeAction<Seq<char>>) -> (
    Bridge<Seq<char>>,
    BridgeAction<Seq<char>>,
) {
    (Bridge { phase, ..b }, action)
}

/// One step, with the error of the last action if it failed. How the relay ends
/// makes no difference.
pub open spec fn bridge_step(b: Bridge<Seq<char>>, failed: Option<Seq<char>>) -> (
    Bridge<Seq<char>>,
    BridgeAction<Seq<char>>,
) {
    match b.phase {
        BridgePhase::Begin => if text::trimmed(b.hu_mac).len() == 0 {
            br(
                b,
                BridgePhase::Ended,
                BridgeAction::Fail("bt_wireless_proxy_hu_mac must be set for bridge mode"@),
            )
        } else {
            br(b, BridgePhase::PhoneHere, BridgeAction::AwaitPhone)
        },
        BridgePhase::PhoneHere => match failed {
            Some(e) => br(b, BridgePhase::Ended, BridgeAction::Fail(e)),
            None => br(
                b,
                BridgePhase::HuHere,
                BridgeAction::ConnectHu {
                    mac: text::trimmed(b.hu_mac),
                    channel: b.hu_channel,
                },
            ),
        },
        BridgePhase::HuHere => match failed {
            Some(e) => br(b, BridgePhase::Ended, BridgeAction::Fail(e)),
            None => br(b, BridgePhase::Relayed, BridgeAction::Relay),
        },
        BridgePhase::Relayed => br(b, BridgePhase::Ended, BridgeAction::Done),
        BridgePhase::Ended => (b, BridgeAction::Done),
    }
}

impl Bridge<String> {
    pub fn step(&mut self, failed: Option<String>) -> (r: BridgeAction<String>)
        requires
            old(self).phase != BridgePhase::Ended,
        ensures
            (final(self)@, r@) == bridge_step(old(self)@, failed.deep_view()),
    {
        match self.phase {
            BridgePhase::Begin => {
                if text::trim(self.hu_mac.as_str()).is_empty() {
                    self.phase = BridgePhase::Ended;
                    BridgeAction::Fail(
                        "bt_wireless_proxy_hu_mac must be set for bridge mode".to_owned(),
                    )
                } else {
                    self.phase = BridgePhase::PhoneHere;
                    BridgeAction::AwaitPhone
                }
            },
            BridgePhase::PhoneHere => match failed {
                Some(e) => {
                    self.phase = BridgePhase::Ended;
                    BridgeAction::Fail(e)
                },
                None => {
                    self.phase = BridgePhase::HuHere;
                    BridgeAction::ConnectHu {
                        mac: text::trim(self.hu_mac.as_str()).to_owned(),
                        channel: self.hu_channel,
                    }
                },
            },
            BridgePhase::HuHere => match failed {
                Some(e) => {
                    self.phase = BridgePhase::Ended;
                    BridgeAction::Fail(e)
                },
                None => {
                    self.phase = BridgePhase::Relayed;
                    BridgeAction::Relay
                },
            },
            BridgePhase::Relayed => {
                self.phase = BridgePhase::Ended;
                BridgeAction::Done
            },
            BridgePhase::Ended => vstd::pervasive::unreached(),
        }
    }
}

// ---------------------------------------------------------------------
// Asking the head unit

#[derive(Clone, Copy, PartialEq, Eq, Structural)]
pub enum ProbePhase {
    Begin,
    HuHere,
    FirstFrame,
    InfoAsked,
    SecondFrame,
    StartAnswered,
    Probed,
    StatusSent,
    Idle,
    Ended,
}

pub struct Probe<T> {
    pub hu_mac: T,
    pub hu_channel: Option<u8>,
    pub tcp_probe: bool,
    pub target_ip: T,
    pub target_port: i32,
    pub phase: ProbePhase,
}

pub type ProbeSession = Probe<String>;

impl View for Probe<String> {
    type V = Probe<Seq<char>>;

    open spec fn view(&self) -> Probe<Seq<char>> {
        Probe {
            hu_mac: self.hu_mac@,
            hu_channel: self.hu_channel,
            tcp_probe: self.tcp_probe,
            target_ip: self.target_ip@,
            target_port: self.target_port,
            phase: self.phase,
        }
    }
}

pub enum ProbeAction<T, B> {
    ConnectHu { mac: T, channel: Option<u8> },
    ReadHu,
    SendHu { id: u16, payload: B },
    /// Try to connect by TCP; whether that works makes no difference.
    TryTcp { address: T, ms: u64 },
    /// Read a frame that comes in this time.
    ReadHuWithin(u64),
    Done,
    Fail(T),
}

impl View for ProbeAction<String, Vec<u8>> {
    type V = ProbeAction<Seq<char>, Seq<u8>>;

    open spec fn view(&self) -> ProbeAction<Seq<char>, Seq<u8>> {
        match *self {
            ProbeAction::ConnectHu { mac, channel } => ProbeAction::ConnectHu { mac: mac@, channel },
            ProbeAction::ReadHu => ProbeAction::ReadHu,
            ProbeAction::SendHu { id, payload } => ProbeAction::SendHu { id, payload: payload@ },
            ProbeAction::TryTcp { address, ms } => ProbeAction::TryTcp { address: address@, ms },
            ProbeAction::ReadHuWithin(ms) => ProbeAction::ReadHuWithin(ms),
            ProbeAction::Done => ProbeAction::Done,
            ProbeAction::Fail(e) => ProbeAction::Fail(e@),
        }
    }
}

pub enum ProbeEvent<T, B> {
    Done,
    Failed(T),
    Frame { id: u16, payload: B },
}

impl View for ProbeEvent<String, Vec<u8>> {
    type V = ProbeEvent<Seq<char>, Seq<u8>>;

    open spec fn view(&self) -> ProbeEvent<Seq<char>, Seq<u8>> {
        match *self {
            ProbeEvent::Done => ProbeEvent::Done,
            ProbeEvent::Failed(e) => ProbeEvent::Failed(e@),
            ProbeEvent::Frame { id, payload } => ProbeEvent::Frame { id, payload: payload@ },
        }
    }
}

pub type ProbeModel = Probe<Seq<char>>;

pub type ProbeActionModel = ProbeAction<Seq<char>, Seq<u8>>;

pub type ProbeEventModel = ProbeEvent<Seq<char>, Seq<u8>>;

pub open spec fn pr(p: ProbeModel, phase: ProbePhase, action: ProbeActionModel) -> (
    ProbeModel,
    ProbeActionModel,
) {
    (Probe { phase, ..p }, action)
}

pub open spec fn pr_or_fail(
    p: ProbeModel,
    e: ProbeEventModel,
    next: (ProbeModel, ProbeActionModel),
) -> (ProbeModel, ProbeActionModel) {
    match e {
        ProbeEvent::Failed(error) => pr(p, ProbePhase::Ended, ProbeAction::Fail(error)),
        _ => next,
    }
}

pub open spec fn pr_ask(p: ProbeModel) -> (ProbeModel, ProbeActionModel) {
    pr(
        p,
        ProbePhase::InfoAsked,
        ProbeAction::SendHu {
            id: ProxyMessageId::WifiInfoRequest.number(),
            payload: Seq::empty(),
        },
    )
}

/// The endpoint that a request names is noted; one that cannot be read names none.
pub open spec fn with_target(p: ProbeModel, request: Seq<u8>) -> ProbeModel {
    match messages::endpoint_in(request) {
        Some(target) => Probe { target_ip: target.0, target_port: target.1, ..p },
        None => p,
    }
}

pub open spec fn pr_status(p: ProbeModel) -> (ProbeModel, ProbeActionModel) {
    pr(
        p,
        ProbePhase::StatusSent,
        ProbeAction::SendHu {
            id: ProxyMessageId::WifiConnectStatus.number(),
            payload: wire::int32_field(1, 0),
        },
    )
}

/// One step of a probe. The head unit is told that all went well whatever it
/// sent; it is heard until it falls silent.
pub open spec fn probe_step(p: ProbeModel, e: ProbeEventModel) -> (ProbeModel, ProbeActionModel) {
    match p.phase {
        ProbePhase::Begin => if text::trimmed(p.hu_mac).len() == 0 {
            pr(
                p,
                ProbePhase::Ended,
                ProbeAction::Fail("bt_wireless_proxy_hu_mac must be set for probe mode"@),
            )
        } else {
            pr(
                p,
                ProbePhase::HuHere,
                ProbeAction::ConnectHu { mac: text::trimmed(p.hu_mac), channel: p.hu_channel },
            )
        },
        ProbePhase::HuHere => pr_or_fail(p, e, pr(p, ProbePhase::FirstFrame, ProbeAction::ReadHu)),
        ProbePhase::FirstFrame => match e {
            ProbeEvent::Failed(error) => pr(p, ProbePhase::Ended, ProbeAction::Fail(error)),
            ProbeEvent::Frame { id, payload } => if id
                == ProxyMessageId::WifiStartRequest.number() {
                pr_ask(with_target(p, payload))
            } else {
                pr_ask(p)
            },
            _ => pr_ask(p),
        },
        ProbePhase::InfoAsked => pr_or_fail(
            p,
            e,
            pr(p, ProbePhase::SecondFrame, ProbeAction::ReadHu),
        ),
        ProbePhase::SecondFrame => pr_or_fail(
            p,
            e,
            pr(
                p,
                ProbePhase::StartAnswered,
                ProbeAction::SendHu {
                    id: ProxyMessageId::WifiStartResponse.number(),
                    payload: wire::int32_field(3, 0),
                },
            ),
        ),
        ProbePhase::StartAnswered => pr_or_fail(
            p,
            e,
            if p.tcp_probe && p.target_ip.len() > 0 && p.target_port > 0 {
                pr(
                    p,
                    ProbePhase::Probed,
                    ProbeAction::TryTcp {
                        address: mitm_session::endpoint_text(p.target_ip, p.target_port),
                        ms: 5000,
                    },
                )
            } else {
                pr_status(p)
            },
        ),
        ProbePhase::Probed => pr_status(p),
        ProbePhase::StatusSent => pr_or_fail(
            p,
            e,
            pr(p, ProbePhase::Idle, ProbeAction::ReadHuWithin(30000)),
        ),
        ProbePhase::Idle => match e {
            ProbeEvent::Failed(_) => pr(p, ProbePhase::Ended, ProbeAction::Done),
            _ => pr(p, ProbePhase::Idle, ProbeAction::ReadHuWithin(30000)),
        },
        ProbePhase::Ended => (p, ProbeAction::Done),
    }
}

impl Probe<String> {
    fn go(&mut self, phase: ProbePhase, action: ProbeAction<String, Vec<u8>>) -> (r: ProbeAction<
        String,
        Vec<u8>,
    >)
        ensures
            (final(self)@, r@) == pr(old(self)@, phase, action@),
    {
        self.phase = phase;
        action
    }

    fn fail(&mut self, error: String) -> (r: ProbeAction<String, Vec<u8>>)
        ensures
            (final(self)@, r@) == pr(old(self)@, ProbePhase::Ended, ProbeAction::Fail(error@)),
    {
        self.phase = ProbePhase::Ended;
        ProbeAction::Fail(error)
    }

    fn ask(&mut self) -> (r: ProbeAction<String, Vec<u8>>)
        ensures
            (final(self)@, r@) == pr_ask(old(self)@),
    {
        let payload: Vec<u8> = Vec::new();
        assert(payload@ =~= Seq::<u8>::empty());
        self.phase = ProbePhase::InfoAsked;
        ProbeAction::SendHu { id: ProxyMessageId::WifiInfoRequest.as_u16(), payload }
    }

    fn status(&mut self) -> (r: ProbeAction<String, Vec<u8>>)
        ensures
            (final(self)@, r@) == pr_status(old(self)@),
    {
        self.phase = ProbePhase::StatusSent;
        ProbeAction::SendHu {
            id: ProxyMessageId::WifiConnectStatus.as_u16(),
            payload: wire::wifi_connect_status_payload(0),
        }
    }

    pub fn step(&mut self, e: ProbeEvent<String, Vec<u8>>) -> (r: ProbeAction<String, Vec<u8>>)
        requires
            old(self).phase != ProbePhase::Ended,
        ensures
            (final(self)@, r@) == probe_step(old(self)@, e@),
    {
        match self.phase {
            ProbePhase::Begin => {
                let mac = text::trim(self.hu_mac.as_str());
                if mac.is_empty() {
                    self.fail("bt_wireless_proxy_hu_mac must be set for probe mode".to_owned())
                } else {
                    let mac = mac.to_owned();
                    let channel = self.hu_channel;
                    self.go(ProbePhase::HuHere, ProbeAction::ConnectHu { mac, channel })
                }
            },
            ProbePhase::HuHere => match e {
                ProbeEvent::Failed(error) => self.fail(error),
                _ => self.go(ProbePhase::FirstFrame, ProbeAction::ReadHu),
            },
            ProbePhase::FirstFrame => match e {
                ProbeEvent::Failed(error) => self.fail(error),
                ProbeEvent::Frame { id, payload } => {
                    if id == ProxyMessageId::WifiStartRequest.as_u16() {
                        if let Ok((ip, port)) = messages::parse_start(payload.as_slice()) {
                            self.target_ip = ip;
                            self.target_port = port;
                        }
                        self.ask()
                    } else {
                        self.ask()
                    }
                },
                _ => self.ask(),
            },
            ProbePhase::InfoAsked => match e {
                ProbeEvent::Failed(error) => self.fail(error),
                _ => self.go(ProbePhase::SecondFrame, ProbeAction::ReadHu),
            },
            ProbePhase::SecondFrame => match e {
                ProbeEvent::Failed(error) => self.fail(error),
                _ => self.go(
                    ProbePhase::StartAnswered,
                    ProbeAction::SendHu {
                        id: ProxyMessageId::WifiStartResponse.as_u16(),
                        payload: wire::wifi_start_response_status_payload(0),
                    },
                ),
            },
            ProbePhase::StartAnswered => match e {
                ProbeEvent::Failed(error) => self.fail(error),
                _ => {
                    if self.tcp_probe && !self.target_ip.as_str().is_empty() && self.target_port
                        > 0 {
                        let port = pairing::show_signed(self.target_port as i64);
                        let address = text::cat3(self.target_ip.as_str(), ":", port.as_str());
                        self.go(ProbePhase::Probed, ProbeAction::TryTcp { address, ms: 5000 })
                    } else {
                        self.status()
                    }
                },
            },
            ProbePhase::Probed => self.status(),
            ProbePhase::StatusSent => match e {
                ProbeEvent::Failed(error) => self.fail(error),
                _ => self.go(ProbePhase::Idle, ProbeAction::ReadHuWithin(30000)),
            },
            ProbePhase::Idle => match e {
                ProbeEvent::Failed(_) => self.go(ProbePhase::Ended, ProbeAction::Done),
                _ => self.go(ProbePhase::Idle, ProbeAction::ReadHuWithin(30000)),
            },
            ProbePhase::Ended => vstd::pervasive::unreached(),
        }
    }
}

// ---------------------------------------------------------------------
// Laws

/// A probe connects by TCP only where it was asked to and the head unit has
/// named an endpoint, and sends the head unit nothing but the three messages of
/// a bootstrap.
pub proof fn law_probe_keeps_to_the_bootstrap(p: ProbeModel, e: ProbeEventModel)
    requires
        p.phase != ProbePhase::Ended,
    ensures
        probe_step(p, e).1 is TryTcp ==> p.tcp_probe && p.target_ip.len() > 0 && p.target_port > 0,
        probe_step(p, e).1 matches ProbeAction::SendHu { id, payload } ==> {
            ||| id == ProxyMessageId::WifiInfoRequest.number() && payload.len() == 0
            ||| id == ProxyMessageId::WifiStartResponse.number() && payload
                == wire::int32_field(3, 0)
            ||| id == ProxyMessageId::WifiConnectStatus.number() && payload == wire::int32_field(
                1,
                0,
            )
        },
{
}

/// The adapter has the configured name, or one that tells it from others of its kind.
pub proof fn law_adapter_has_its_name(name: Seq<char>, suffix: Seq<char>)
    ensures
        alias_of(Some(name), Some(suffix)) == name,
        alias_of(Some(name), None) == name,
        alias_of(None, Some(suffix)) == "aa-proxy-"@ + suffix,
        alias_of(None, None) == "aa-proxy"@,
{
    reveal_strlit("aa-proxy");
    reveal_strlit("-");
    reveal_strlit("aa-proxy-");
    assert("aa-proxy"@ + "-"@ + suffix =~= "aa-proxy-"@ + suffix);
}

/// Zeros are taken away at the end of a text, all of them, and nothing else.
pub proof fn law_zeros_are_taken_away(s: Seq<char>, n: nat)
    requires
        s.len() == 0 || s.last() != '\0',
    ensures
        without_zeros(s + Seq::new(n, |i: int| '\0')) == s,
    decreases n,
{
    let t = s + Seq::new(n, |i: int| '\0');
    if n > 0 {
        law_zeros_are_taken_away(s, (n - 1) as nat);
        assert(t.drop_last() =~= s + Seq::new((n - 1) as nat, |i: int| '\0'));
        assert(t.last() == '\0');
    } else {
        assert(t =~= s);
    }
}

/// The adapter gets its name, is switched on and may be paired with; it can be seen, with
/// no end, exactly if it is to be; and phones are served on the eighth channel exactly if
/// they are to be.
pub proof fn law_adapter_is_taken_into_use(alias: Seq<char>, advertise: bool, serve: bool)
    ensures
        ({
            let s = first_settings(alias, advertise, serve);
            let n = if advertise {
                5int
            } else {
                3int
            };
            &&& s[0] == AdapterSetting::<Seq<char>>::Alias(alias)
            &&& s[1] == AdapterSetting::<Seq<char>>::Powered(true)
            &&& s[2] == AdapterSetting::<Seq<char>>::Pairable(true)
            &&& advertise ==> s[3] == AdapterSetting::<Seq<char>>::Discoverable(true) && s[4]
                == AdapterSetting::<Seq<char>>::DiscoverableTimeout(0)
            &&& serve ==> s.len() == n + 1 && s[n] == AdapterSetting::<Seq<char>>::ServeAaWireless(
                8,
            )
            &&& !serve ==> s.len() == n
        }),
{
}

/// At the start nobody answers, nobody was called, and nothing is to be undone.
pub proof fn law_bluetooth_starts_afresh(alias: Seq<char>, dongle_mode: bool, serves_aa: bool)
    ensures
        ({
            let b = first_state(alias, dongle_mode, serves_aa);
            &&& b.serves_aa == serves_aa && b.dongle_mode == dongle_mode && b.adapter_alias == alias
            &&& !b.has_hu_agent && !b.has_companion_agent && b.current_index == 0
            &&& b.identity.alias is None && b.identity.class is None && b.identity.class_iface
                is None
            &&& !b.phone_like_sdp_profiles_registered
        }),
{
}

/// The companion's side needs somebody who answers, unless somebody does, before the
/// adapter is opened, and its profiles behind that.
pub proof fn law_companion_is_started(has_agent: bool)
    ensures
        ({
            let t = companion_tasks(has_agent);
            let n = if has_agent {
                0int
            } else {
                1int
            };
            &&& t.len() == n + 3
            &&& !has_agent ==> t[0] == CompanionTask::RegisterAgent
            &&& t[n] == CompanionTask::OpenAdapter
            &&& t[n + 1] == CompanionTask::RegisterProfile
            &&& t[n + 2] == CompanionTask::RegisterSerialProfile
        }),
{
}

/// A bridge waits for the phone, calls the head unit at its address and channel, passes
/// on between the two, and is done however that ends; without phone, head unit or the
/// head unit's name it fails.
pub proof fn law_bridge_takes_its_course(
    failed: Seq<Option<Seq<char>>>,
    states: Seq<Bridge<Seq<char>>>,
    actions: Seq<BridgeAction<Seq<char>>>,
)
    requires
        states.len() == 5 && actions.len() == 4 && failed.len() == 4,
        forall|k: int|
            0 <= k < 4 ==> (states[k + 1], #[trigger] actions[k]) == bridge_step(
                states[k],
                failed[k],
            ),
        states[0].phase == BridgePhase::Begin,
    ensures
        text::trimmed(states[0].hu_mac).len() == 0 ==> actions[0] is Fail,
        text::trimmed(states[0].hu_mac).len() > 0 ==> {
            &&& actions[0] is AwaitPhone
            &&& failed[1] matches Some(e) ==> actions[1] == BridgeAction::<Seq<char>>::Fail(e)
            &&& failed[1] is None ==> {
                &&& actions[1] == (BridgeAction::<Seq<char>>::ConnectHu {
                    mac: text::trimmed(states[0].hu_mac),
                    channel: states[0].hu_channel,
                })
                &&& failed[2] matches Some(e) ==> actions[2] == BridgeAction::<Seq<char>>::Fail(e)
                &&& failed[2] is None ==> actions[2] is Relay && actions[3] is Done
            }
        },
{
    assert(actions[0] == bridge_step(states[0], failed[0]).1);
    assert(actions[1] == bridge_step(states[1], failed[1]).1);
    assert(actions[2] == bridge_step(states[2], failed[2]).1);
    assert(actions[3] == bridge_step(states[3], failed[3]).1);
}

proof fn lemma_success_bytes()
    ensures
        wire::int32_field(3, 0) == seq![0x18u8, 0u8],
        wire::int32_field(1, 0) == seq![8u8, 0u8],
{
    reveal_with_fuel(wire::varint_bytes, 2);
    assert(wire::int32_field(3, 0) =~= seq![0x18u8, 0u8]);
    assert(wire::int32_field(1, 0) =~= seq![8u8, 0u8]);
}

/// A probe calls the head unit, reads its request, asks for its network, tells it that the
/// start went well, tries its endpoint where that is wanted and known, tells it that the
/// connection went well, and hears it out.
#[verifier::rlimit(40)]
pub proof fn law_probe_takes_its_course(
    events: Seq<ProbeEventModel>,
    states: Seq<ProbeModel>,
    actions: Seq<ProbeActionModel>,
    request: Seq<u8>,
    ip: Seq<char>,
    port: i32,
)
    requires
        states.len() == 9 && actions.len() == 8 && events.len() == 8,
        forall|k: int|
            0 <= k < 8 ==> (states[k + 1], #[trigger] actions[k]) == probe_step(
                states[k],
                events[k],
            ),
        states[0].phase == ProbePhase::Begin,
        text::trimmed(states[0].hu_mac).len() > 0,
        forall|k: int| 0 < k < 8 ==> !(#[trigger] events[k] is Failed),
        events[2] == (ProbeEventModel::Frame { id: 1, payload: request }),
        messages::endpoint_in(request) == Some((ip, port)),
    ensures
        ({
            let p = states[0];
            let tries = p.tcp_probe && ip.len() > 0 && port > 0;
            let n = if tries {
                6int
            } else {
                5int
            };
            &&& actions[0] == (ProbeActionModel::ConnectHu {
                mac: text::trimmed(p.hu_mac),
                channel: p.hu_channel,
            })
            &&& actions[1] is ReadHu
            &&& actions[2] == (ProbeActionModel::SendHu { id: 2, payload: Seq::empty() })
            &&& actions[3] is ReadHu
            &&& actions[4] == (ProbeActionModel::SendHu { id: 7, payload: seq![0x18u8, 0u8] })
            &&& tries ==> actions[5] == (ProbeActionModel::TryTcp {
                address: ip + ":"@ + text::decimal(port as nat),
                ms: 5000,
            })
            &&& actions[n] == (ProbeActionModel::SendHu { id: 6, payload: seq![8u8, 0u8] })
            &&& actions[n + 1] == ProbeActionModel::ReadHuWithin(30000)
        }),
{
    lemma_success_bytes();
    assert(actions[0] == probe_step(states[0], events[0]).1);
    assert(actions[1] == probe_step(states[1], events[1]).1);
    assert(actions[2] == probe_step(states[2], events[2]).1);
    assert(actions[3] == probe_step(states[3], events[3]).1);
    assert(actions[4] == probe_step(states[4], events[4]).1);
    assert(actions[5] == probe_step(states[5], events[5]).1);
    assert(actions[6] == probe_step(states[6], events[6]).1);
    assert(actions[7] == probe_step(states[7], events[7]).1);
}

/// A probe goes on hearing the head unit until nothing comes any more; before that an
/// error ends it and is told. A request that cannot be read, and another message, name no
/// endpoint.
pub proof fn law_probe_ends(p: ProbeModel, e: ProbeEventModel, error: Seq<char>)
    ensures
        p.phase == ProbePhase::Idle && e is Failed ==> probe_step(p, e).1 is Done,
        p.phase == ProbePhase::Idle && !(e is Failed) ==> probe_step(p, e) == (
            p,
            ProbeActionModel::ReadHuWithin(30000),
        ),
        p.phase == ProbePhase::HuHere || p.phase == ProbePhase::FirstFrame || p.phase
            == ProbePhase::InfoAsked || p.phase == ProbePhase::SecondFrame || p.phase
            == ProbePhase::StartAnswered || p.phase == ProbePhase::StatusSent ==> probe_step(
            p,
            ProbeEvent::Failed(error),
        ).1 == ProbeActionModel::Fail(error),
        p.phase == ProbePhase::FirstFrame && (e matches ProbeEvent::Frame { id, payload } && (id
            != 1 || messages::endpoint_in(payload) is None)) ==> probe_step(p, e).0.target_ip
            == p.target_ip && probe_step(p, e).0.target_port == p.target_port,
        p.phase == ProbePhase::Begin && text::trimmed(p.hu_mac).len() == 0 ==> probe_step(p, e).1
            is Fail,
{
}

/// A serial number of fewer than six bytes is taken whole; of a longer one the
/// last six bytes must be characters.
pub proof fn law_serial_number_is_cut_between_characters(contents: Seq<char>)
    ensures
        serial_can_be_cut(contents) <==> serial_bytes(contents).len() < 6
            || utf8::is_char_boundary(serial_bytes(contents), serial_bytes(contents).len() - 6),
        serial_bytes(contents) == utf8::encode_utf8(text::trimmed(without_zeros(contents))),
{
}

} // verus!
