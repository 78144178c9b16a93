//! The course of the proxy: what is started once, and the loop that connects
//! phone and head unit again and again.

use crate::bluetooth;
use crate::config::Action;
use crate::config::AppConfig;
use crate::startup;
use crate::startup::ProxyMode;
use crate::text;
use vstd::prelude::*;

verus! {

/// What the course depends on.
#[derive(Clone, Copy, PartialEq, Eq, Structural)]
pub struct LoopSettings {
    pub bt_sco: bool,
    pub a2dp_sink: bool,
    pub dongle_mode: bool,
    /// A web interface is served.
    pub webserver: bool,
    /// The phone is reached by TCP, without Bluetooth.
    pub direct_tcp: bool,
    pub dhu: bool,
    pub legacy: bool,
    pub bt_wireless_proxy: bool,
    pub proxy_mode: ProxyMode,
    /// A head unit to pair with is named.
    pub names_hu: bool,
    pub enable_companion_bt: bool,
    pub change_usb_order: bool,
    pub require_accessory_start: bool,
    pub quick_reconnect: bool,
    /// The user has stopped the session.
    pub stopped: bool,
    pub rearm_usb: bool,
    pub rearm_cooldown_ms: u64,
}

pub open spec fn settings_for(c: AppConfig) -> LoopSettings {
    LoopSettings {
        bt_sco: c.bt_sco,
        a2dp_sink: c.bt_a2dp_sink_enabled,
        dongle_mode: c.dongle_mode,
        webserver: c.webserver is Some,
        direct_tcp: text::trimmed(c.aa_server_tcp_addr@).len() > 0,
        dhu: c.dhu,
        legacy: c.legacy,
        bt_wireless_proxy: c.bt_wireless_proxy,
        proxy_mode: startup::proxy_mode(c.bt_wireless_proxy_mode@),
        names_hu: text::trimmed(c.bt_wireless_proxy_hu_mac@).len() > 0,
        enable_companion_bt: c.enable_companion_bt,
        change_usb_order: c.change_usb_order,
        require_accessory_start: c.usb_gadget_require_accessory_start,
        quick_reconnect: c.quick_reconnect,
        stopped: c.action_requested == Some(Action::Stop),
        rearm_usb: c.usb_gadget_rearm_on_disconnect,
        rearm_cooldown_ms: c.usb_gadget_rearm_cooldown_ms,
    }
}

impl LoopSettings {
    pub fn of(cfg: &AppConfig) -> (r: Self)
        ensures
            r == settings_for(*cfg),
    {
        let webserver = cfg.webserver.is_some();
        let direct_tcp = !text::trim(cfg.aa_server_tcp_addr.as_str()).is_empty();
        let proxy_mode = startup::parse_proxy_mode(cfg.bt_wireless_proxy_mode.as_str());
        let names_hu = !text::trim(cfg.bt_wireless_proxy_hu_mac.as_str()).is_empty();
        let stopped = startup::is_stop(&cfg.action_requested);
        LoopSettings {
            bt_sco: cfg.bt_sco,
            a2dp_sink: cfg.bt_a2dp_sink_enabled,
            dongle_mode: cfg.dongle_mode,
            webserver,
            direct_tcp,
            dhu: cfg.dhu,
            legacy: cfg.legacy,
            bt_wireless_proxy: cfg.bt_wireless_proxy,
            proxy_mode,
            names_hu,
            enable_companion_bt: cfg.enable_companion_bt,
            change_usb_order: cfg.change_usb_order,
            require_accessory_start: cfg.usb_gadget_require_accessory_start,
            quick_reconnect: cfg.quick_reconnect,
            stopped,
            rearm_usb: cfg.usb_gadget_rearm_on_disconnect,
            rearm_cooldown_ms: cfg.usb_gadget_rearm_cooldown_ms,
        }
    }
}

#[derive(Clone, Copy, PartialEq, Eq, Structural)]
pub enum LoopPhase {
    Begin,
    ScoStarted,
    SinkAnnounced,
    WebStarted,
    WifiKnown,
    UeventsHeard,
    GadgetMade,
    ButtonsHeard,
    ActionsWatched,
    BluetoothMade,
    BluetoothPause,
    ProfilesRegistered,
    CompanionStarted,
    HuPaired,
    PairingPause,
    /// The round has begun.
    Idle,
    UsbReady,
    UsbFirst,
    ProxyRan,
    LinksSeen,
    HandshakeDone,
    UsbLast,
    Shown,
    Restarted,
    Rearmed,
    LinksAtEnd,
    /// The next round begins.
    Pause,
    Ended,
}

/// What is asked for next.
pub enum LoopAction<T> {
    StartSco,
    AnnounceSink,
    StartWeb,
    InitWifi,
    StartUevents,
    MakeGadget,
    StartButtons,
    WatchActions,
    InitBluetooth { serve_aa: bool },
    RegisterProfiles,
    StartCompanion { enabled: bool },
    EnsurePairing,
    Sleep { ms: u64 },
    ShowIdle,
    InitUsb,
    EnableUsb { require_accessory_start: bool },
    RunProxy { mode: ProxyMode },
    /// Clean up behind a session in the car's network.
    Recover { error: T },
    /// Say whether USB and the phone's profile are connected.
    SeeLinks,
    Handshake,
    ShowConnected,
    /// Wait for the end of the session, and read the settings anew.
    AwaitRestart,
    RearmUsb { cooldown_ms: u64 },
    Done,
}

impl View for LoopAction<String> {
    type V = LoopAction<Seq<char>>;

    open spec fn view(&self) -> LoopAction<Seq<char>> {
        match *self {
            LoopAction::StartSco => LoopAction::StartSco,
            LoopAction::AnnounceSink => LoopAction::AnnounceSink,
            LoopAction::StartWeb => LoopAction::StartWeb,
            LoopAction::InitWifi => LoopAction::InitWifi,
            LoopAction::StartUevents => LoopAction::StartUevents,
            LoopAction::MakeGadget => LoopAction::MakeGadget,
            LoopAction::StartButtons => LoopAction::StartButtons,
            LoopAction::WatchActions => LoopAction::WatchActions,
            LoopAction::InitBluetooth { serve_aa } => LoopAction::InitBluetooth { serve_aa },
            LoopAction::RegisterProfiles => LoopAction::RegisterProfiles,
            LoopAction::StartCompanion { enabled } => LoopAction::StartCompanion { enabled },
            LoopAction::EnsurePairing => LoopAction::EnsurePairing,
            LoopAction::Sleep { ms } => LoopAction::Sleep { ms },
            LoopAction::ShowIdle => LoopAction::ShowIdle,
            LoopAction::InitUsb => LoopAction::InitUsb,
            LoopAction::EnableUsb { require_accessory_start } => LoopAction::EnableUsb {
                require_accessory_start,
            },
            LoopAction::RunProxy { mode } => LoopAction::RunProxy { mode },
            LoopAction::Recover { error } => LoopAction::Recover { error: error@ },
            LoopAction::SeeLinks => LoopAction::SeeLinks,
            LoopAction::Handshake => LoopAction::Handshake,
            LoopAction::ShowConnected => LoopAction::ShowConnected,
            LoopAction::AwaitRestart => LoopAction::AwaitRestart,
            LoopAction::RearmUsb { cooldown_ms } => LoopAction::RearmUsb { cooldown_ms },
            LoopAction::Done => LoopAction::Done,
        }
    }
}

/// What came of an action.
pub enum LoopEvent<T> {
    Done,
    Failed(T),
    Links { usb: bool, profile: bool },
    Settings(LoopSettings),
}

impl View for LoopEvent<String> {
    type V = LoopEvent<Seq<char>>;

    open spec fn view(&self) -> LoopEvent<Seq<char>> {
        match *self {
            LoopEvent::Done => LoopEvent::Done,
            LoopEvent::Failed(e) => LoopEvent::Failed(e@),
            LoopEvent::Links { usb, profile } => LoopEvent::Links { usb, profile },
            LoopEvent::Settings(s) => LoopEvent::Settings(s),
        }
    }
}

#[derive(Clone, Copy, PartialEq, Eq, Structural)]
pub struct MainLoop {
    pub settings: LoopSettings,
    /// Only the web interface is served.
    pub web_only: bool,
    pub has_button: bool,
    pub has_wifi: bool,
    pub has_bluetooth: bool,
    pub phase: LoopPhase,
}

pub type LoopActionModel = LoopAction<Seq<char>>;

pub type LoopEventModel = LoopEvent<Seq<char>>;

pub open spec fn lp(l: MainLoop, phase: LoopPhase, action: LoopActionModel) -> (
    MainLoop,
    LoopActionModel,
) {
    (MainLoop { phase, ..l }, action)
}

pub open spec fn failed(e: LoopEventModel) -> bool {
    e is Failed
}

// What is started once, in its order.

pub open spec fn lp_sco(l: MainLoop) -> (MainLoop, LoopActionModel) {
    if l.settings.bt_sco && !l.web_only {
        lp(l, LoopPhase::ScoStarted, LoopAction::StartSco)
    } else {
        lp_sink(l)
    }
}

pub open spec fn lp_sink(l: MainLoop) -> (MainLoop, LoopActionModel) {
    if l.settings.a2dp_sink && !l.web_only && !l.settings.dongle_mode {
        lp(l, LoopPhase::SinkAnnounced, LoopAction::AnnounceSink)
    } else {
        lp_web(l)
    }
}

pub open spec fn lp_web(l: MainLoop) -> (MainLoop, LoopActionModel) {
    if l.settings.webserver {
        lp(l, LoopPhase::WebStarted, LoopAction::StartWeb)
    } else {
        lp_wifi(l)
    }
}

pub open spec fn lp_wifi(l: MainLoop) -> (MainLoop, LoopActionModel) {
    if l.web_only {
        lp(l, LoopPhase::Ended, LoopAction::Done)
    } else {
        lp(l, LoopPhase::WifiKnown, LoopAction::InitWifi)
    }
}

pub open spec fn lp_gadget(l: MainLoop) -> (MainLoop, LoopActionModel) {
    lp(l, LoopPhase::GadgetMade, LoopAction::MakeGadget)
}

pub open spec fn lp_usb(l: MainLoop) -> (MainLoop, LoopActionModel) {
    if l.settings.dhu {
        lp_buttons(l)
    } else if l.settings.legacy {
        lp(l, LoopPhase::UeventsHeard, LoopAction::StartUevents)
    } else {
        lp_gadget(l)
    }
}

pub open spec fn lp_buttons(l: MainLoop) -> (MainLoop, LoopActionModel) {
    if l.has_button {
        lp(l, LoopPhase::ButtonsHeard, LoopAction::StartButtons)
    } else {
        lp(l, LoopPhase::ActionsWatched, LoopAction::WatchActions)
    }
}

/// A probe calls the head unit itself, so phones are not served meanwhile.
pub open spec fn serves_aa(s: LoopSettings) -> bool {
    !(s.bt_wireless_proxy && s.proxy_mode == ProxyMode::Probe)
}

pub open spec fn lp_bluetooth(l: MainLoop) -> (MainLoop, LoopActionModel) {
    if l.settings.direct_tcp {
        lp_round(l)
    } else {
        lp(
            l,
            LoopPhase::BluetoothMade,
            LoopAction::InitBluetooth { serve_aa: serves_aa(l.settings) },
        )
    }
}

pub open spec fn lp_companion(l: MainLoop) -> (MainLoop, LoopActionModel) {
    lp(
        l,
        LoopPhase::CompanionStarted,
        LoopAction::StartCompanion { enabled: l.settings.enable_companion_bt },
    )
}

pub open spec fn lp_pairing(l: MainLoop) -> (MainLoop, LoopActionModel) {
    if l.settings.bt_wireless_proxy && l.settings.names_hu {
        lp(l, LoopPhase::HuPaired, LoopAction::EnsurePairing)
    } else {
        lp_round(l)
    }
}

// The round.

pub open spec fn lp_round(l: MainLoop) -> (MainLoop, LoopActionModel) {
    lp(l, LoopPhase::Idle, LoopAction::ShowIdle)
}

pub open spec fn lp_again(l: MainLoop, ms: u64) -> (MainLoop, LoopActionModel) {
    lp(l, LoopPhase::Pause, LoopAction::Sleep { ms })
}

pub open spec fn lp_enable_usb(l: MainLoop, phase: LoopPhase) -> (MainLoop, LoopActionModel) {
    lp(
        l,
        phase,
        LoopAction::EnableUsb { require_accessory_start: l.settings.require_accessory_start },
    )
}

/// The phone is brought in: not at all, by a session of the proxy, or by a
/// handshake.
pub open spec fn lp_phone(l: MainLoop) -> (MainLoop, LoopActionModel) {
    let s = l.settings;
    if s.direct_tcp {
        lp_usb_last(l)
    } else if s.bt_wireless_proxy {
        if l.has_bluetooth {
            lp(l, LoopPhase::ProxyRan, LoopAction::RunProxy { mode: s.proxy_mode })
        } else {
            lp_again(l, 1000)
        }
    } else if l.has_wifi {
        lp(l, LoopPhase::LinksSeen, LoopAction::SeeLinks)
    } else {
        lp_usb_last(l)
    }
}

/// Whether a handshake is due: nothing is connected, or the user has stopped
/// what was.
pub open spec fn handshake_due(s: LoopSettings, usb: bool, profile: bool) -> bool {
    !usb && (!(s.quick_reconnect && profile) || s.stopped)
}

pub open spec fn lp_usb_last(l: MainLoop) -> (MainLoop, LoopActionModel) {
    if l.settings.change_usb_order {
        lp(l, LoopPhase::Shown, LoopAction::ShowConnected)
    } else {
        lp_enable_usb(l, LoopPhase::UsbLast)
    }
}

/// One step.
pub open spec fn loop_step(l: MainLoop, e: LoopEventModel) -> (MainLoop, LoopActionModel) {
    let s = l.settings;
    match l.phase {
        LoopPhase::Begin => lp_sco(l),
        LoopPhase::ScoStarted => lp_sink(l),
        LoopPhase::SinkAnnounced => lp_web(l),
        LoopPhase::WebStarted => lp_wifi(l),
        LoopPhase::WifiKnown => lp_usb(MainLoop { has_wifi: !failed(e), ..l }),
        LoopPhase::UeventsHeard => lp_gadget(l),
        LoopPhase::GadgetMade => lp_buttons(l),
        LoopPhase::ButtonsHeard => lp(l, LoopPhase::ActionsWatched, LoopAction::WatchActions),
        LoopPhase::ActionsWatched => lp_bluetooth(l),
        LoopPhase::BluetoothMade => if failed(e) {
            lp(l, LoopPhase::BluetoothPause, LoopAction::Sleep { ms: 1000 })
        } else {
            let l1 = MainLoop { has_bluetooth: true, ..l };
            if s.bt_wireless_proxy {
                lp(l1, LoopPhase::ProfilesRegistered, LoopAction::RegisterProfiles)
            } else {
                lp_companion(l1)
            }
        },
        LoopPhase::BluetoothPause => lp_bluetooth(l),
        LoopPhase::ProfilesRegistered => lp_companion(l),
        LoopPhase::CompanionStarted => lp_pairing(l),
        LoopPhase::HuPaired => if failed(e) {
            lp(l, LoopPhase::PairingPause, LoopAction::Sleep { ms: 1000 })
        } else {
            lp_round(l)
        },
        LoopPhase::PairingPause => lp_pairing(l),
        LoopPhase::Idle => lp(l, LoopPhase::UsbReady, LoopAction::InitUsb),
        LoopPhase::UsbReady => if s.change_usb_order {
            lp_enable_usb(l, LoopPhase::UsbFirst)
        } else {
            lp_phone(l)
        },
        LoopPhase::UsbFirst => if failed(e) {
            lp_again(l, 500)
        } else {
            lp_phone(l)
        },
        LoopPhase::ProxyRan => match e {
            LoopEvent::Failed(error) => if s.proxy_mode == ProxyMode::CarWifiMitm {
                lp(l, LoopPhase::Pause, LoopAction::Recover { error })
            } else {
                lp_again(l, 1000)
            },
            _ => lp_usb_last(l),
        },
        LoopPhase::LinksSeen => match e {
            LoopEvent::Links { usb, profile } => if handshake_due(s, usb, profile) {
                if l.has_bluetooth {
                    lp(l, LoopPhase::HandshakeDone, LoopAction::Handshake)
                } else {
                    lp_again(l, 1000)
                }
            } else {
                lp_usb_last(l)
            },
            _ => lp_usb_last(l),
        },
        LoopPhase::HandshakeDone => if failed(e) {
            lp_again(l, 200)
        } else {
            lp_usb_last(l)
        },
        LoopPhase::UsbLast => if failed(e) {
            lp_again(l, 500)
        } else {
            lp(l, LoopPhase::Shown, LoopAction::ShowConnected)
        },
        LoopPhase::Shown => lp(l, LoopPhase::Restarted, LoopAction::AwaitRestart),
        LoopPhase::Restarted => match e {
            LoopEvent::Settings(fresh) => {
                let l1 = MainLoop { settings: fresh, ..l };
                if fresh.rearm_usb {
                    lp(
                        l1,
                        LoopPhase::Rearmed,
                        LoopAction::RearmUsb { cooldown_ms: fresh.rearm_cooldown_ms },
                    )
                } else {
                    lp(l1, LoopPhase::LinksAtEnd, LoopAction::SeeLinks)
                }
            },
            _ => lp_round(l),
        },
        LoopPhase::Rearmed => lp(l, LoopPhase::LinksAtEnd, LoopAction::SeeLinks),
        LoopPhase::LinksAtEnd => match e {
            LoopEvent::Links { usb, profile } => if !(s.quick_reconnect && profile)
                && !s.rearm_usb {
                lp_again(l, 200)
            } else {
                lp_round(l)
            },
            _ => lp_round(l),
        },
        LoopPhase::Pause => lp_round(l),
        LoopPhase::Ended => (l, LoopAction::Done),
    }
}

impl MainLoop {
    pub fn new(settings: LoopSettings, web_only: bool, has_button: bool) -> (r: Self)
        ensures
            r == (MainLoop {
                settings,
                web_only,
                has_button,
                has_wifi: false,
                has_bluetooth: false,
                phase: LoopPhase::Begin,
            }),
    {
        MainLoop {
            settings,
            web_only,
            has_button,
            has_wifi: false,
            has_bluetooth: false,
            phase: LoopPhase::Begin,
        }
    }

    fn go(&mut self, phase: LoopPhase, action: LoopAction<String>) -> (r: LoopAction<String>)
        ensures
            (*final(self), r@) == lp(*old(self), phase, action@),
    {
        self.phase = phase;
        action
    }

    fn again(&mut self, ms: u64) -> (r: LoopAction<String>)
        ensures
            (*final(self), r@) == lp_again(*old(self), ms),
    {
        self.phase = LoopPhase::Pause;
        LoopAction::Sleep { ms }
    }

    fn round(&mut self) -> (r: LoopAction<String>)
        ensures
            (*final(self), r@) == lp_round(*old(self)),
    {
        self.phase = LoopPhase::Idle;
        LoopAction::ShowIdle
    }

    fn sco(&mut self) -> (r: LoopAction<String>)
        ensures
            (*final(self), r@) == lp_sco(*old(self)),
    {
        if self.settings.bt_sco && !self.web_only {
            self.go(LoopPhase::ScoStarted, LoopAction::StartSco)
        } else {
            self.sink()
        }
    }

    fn sink(&mut self) -> (r: LoopAction<String>)
        ensures
            (*final(self), r@) == lp_sink(*old(self)),
    {
        if self.settings.a2dp_sink && !self.web_only && bluetooth::spawn_a2dp_sink_registration(
            self.settings.dongle_mode,
        ) {
            self.go(LoopPhase::SinkAnnounced, LoopAction::AnnounceSink)
        } else {
            self.web()
        }
    }

    fn web(&mut self) -> (r: LoopAction<String>)
        ensures
            (*final(self), r@) == lp_web(*old(self)),
    {
        if self.settings.webserver {
            self.go(LoopPhase::WebStarted, LoopAction::StartWeb)
        } else {
            self.wifi()
        }
    }

    fn wifi(&mut self) -> (r: LoopAction<String>)
        ensures
            (*final(self), r@) == lp_wifi(*old(self)),
    {
        if self.web_only {
            self.go(LoopPhase::Ended, LoopAction::Done)
        } else {
            self.go(LoopPhase::WifiKnown, LoopAction::InitWifi)
        }
    }

    fn gadget(&mut self) -> (r: LoopAction<String>)
        ensures
            (*final(self), r@) == lp_gadget(*old(self)),
    {
        self.go(LoopPhase::GadgetMade, LoopAction::MakeGadget)
    }

    fn usb(&mut self) -> (r: LoopAction<String>)
        ensures
            (*final(self), r@) == lp_usb(*old(self)),
    {
        if self.settings.dhu {
            self.buttons()
        } else if self.settings.legacy {
            self.go(LoopPhase::UeventsHeard, LoopAction::StartUevents)
        } else {
            self.gadget()
        }
    }

    fn buttons(&mut self) -> (r: LoopAction<String>)
        ensures
            (*final(self), r@) == lp_buttons(*old(self)),
    {
        if self.has_button {
            self.go(LoopPhase::ButtonsHeard, LoopAction::StartButtons)
        } else {
            self.go(LoopPhase::ActionsWatched, LoopAction::WatchActions)
        }
    }

    fn bluetooth(&mut self) -> (r: LoopAction<String>)
        ensures
            (*final(self), r@) == lp_bluetooth(*old(self)),
    {
        if self.settings.direct_tcp {
            self.round()
        } else {
            let serve_aa = !(self.settings.bt_wireless_proxy && self.settings.proxy_mode
                == ProxyMode::Probe);
            self.go(LoopPhase::BluetoothMade, LoopAction::InitBluetooth { serve_aa })
        }
    }

    fn companion(&mut self) -> (r: LoopAction<String>)
        ensures
            (*final(self), r@) == lp_companion(*old(self)),
    {
        let enabled = self.settings.enable_companion_bt;
        self.go(LoopPhase::CompanionStarted, LoopAction::StartCompanion { enabled })
    }

    fn pairing(&mut self) -> (r: LoopAction<String>)
        ensures
            (*final(self), r@) == lp_pairing(*old(self)),
    {
        if self.settings.bt_wireless_proxy && self.settings.names_hu {
            self.go(LoopPhase::HuPaired, LoopAction::EnsurePairing)
        } else {
            self.round()
        }
    }

    fn enable_usb(&mut self, phase: LoopPhase) -> (r: LoopAction<String>)
        ensures
            (*final(self), r@) == lp_enable_usb(*old(self), phase),
    {
        let require_accessory_start = self.settings.require_accessory_start;
        self.go(phase, LoopAction::EnableUsb { require_accessory_start })
    }

    fn usb_last(&mut self) -> (r: LoopAction<String>)
        ensures
            (*final(self), r@) == lp_usb_last(*old(self)),
    {
        if self.settings.change_usb_order {
            self.go(LoopPhase::Shown, LoopAction::ShowConnected)
        } else {
            self.enable_usb(LoopPhase::UsbLast)
        }
    }

    fn phone(&mut self) -> (r: LoopAction<String>)
        ensures
            (*final(self), r@) == lp_phone(*old(self)),
    {
        if self.settings.direct_tcp {
            self.usb_last()
        } else if self.settings.bt_wireless_proxy {
            if self.has_bluetooth {
                let mode = self.settings.proxy_mode;
                self.go(LoopPhase::ProxyRan, LoopAction::RunProxy { mode })
            } else {
                self.again(1000)
            }
        } else if self.has_wifi {
            self.go(LoopPhase::LinksSeen, LoopAction::SeeLinks)
        } else {
            self.usb_last()
        }
    }

    fn restarted(&mut self, fresh: LoopSettings) -> (r: LoopAction<String>)
        requires
            old(self).phase == LoopPhase::Restarted,
        ensures
            (*final(self), r@) == loop_step(*old(self), LoopEvent::Settings(fresh)),
    {
        let rearm = fresh.rearm_usb;
        let cooldown_ms: u64 = fresh.rearm_cooldown_ms;
        self.settings = fresh;
        if rearm {
            self.go(LoopPhase::Rearmed, LoopAction::RearmUsb { cooldown_ms })
        } else {
            self.go(LoopPhase::LinksAtEnd, LoopAction::SeeLinks)
        }
    }

    /// Takes what came of the last action and tells the next one. The first call
    /// takes any event.
    #[verifier::rlimit(40)]
    pub fn step(&mut self, e: LoopEvent<String>) -> (r: LoopAction<String>)
        requires
            old(self).phase != LoopPhase::Ended,
        ensures
            (*final(self), r@) == loop_step(*old(self), e@),
    {
        let failed = match &e {
            LoopEvent::Failed(_) => true,
            _ => false,
        };
        match self.phase {
            LoopPhase::Begin => self.sco(),
            LoopPhase::ScoStarted => self.sink(),
            LoopPhase::SinkAnnounced => self.web(),
            LoopPhase::WebStarted => self.wifi(),
            LoopPhase::WifiKnown => {
                self.has_wifi = !failed;
                self.usb()
            },
            LoopPhase::UeventsHeard => self.gadget(),
            LoopPhase::GadgetMade => self.buttons(),
            LoopPhase::ButtonsHeard => self.go(
                LoopPhase::ActionsWatched,
                LoopAction::WatchActions,
            ),
            LoopPhase::ActionsWatched => self.bluetooth(),
            LoopPhase::BluetoothMade => {
                if failed {
                    self.go(LoopPhase::BluetoothPause, LoopAction::Sleep { ms: 1000 })
                } else {
                    self.has_bluetooth = true;
                    if self.settings.bt_wireless_proxy {
                        self.go(LoopPhase::ProfilesRegistered, LoopAction::RegisterProfiles)
                    } else {
                        self.companion()
                    }
                }
            },
            LoopPhase::BluetoothPause => self.bluetooth(),
            LoopPhase::ProfilesRegistered => self.companion(),
            LoopPhase::CompanionStarted => self.pairing(),
            LoopPhase::HuPaired => {
                if failed {
                    self.go(LoopPhase::PairingPause, LoopAction::Sleep { ms: 1000 })
                } else {
                    self.round()
                }
            },
            LoopPhase::PairingPause => self.pairing(),
            LoopPhase::Idle => self.go(LoopPhase::UsbReady, LoopAction::InitUsb),
            LoopPhase::UsbReady => {
                if self.settings.change_usb_order {
                    self.enable_usb(LoopPhase::UsbFirst)
                } else {
                    self.phone()
                }
            },
            LoopPhase::UsbFirst => {
                if failed {
                    self.again(500)
                } else {
                    self.phone()
                }
            },
            LoopPhase::ProxyRan => match e {
                LoopEvent::Failed(error) => {
                    if self.settings.proxy_mode == ProxyMode::CarWifiMitm {
                        self.go(LoopPhase::Pause, LoopAction::Recover { error })
                    } else {
                        self.again(1000)
                    }
                },
                _ => self.usb_last(),
            },
            LoopPhase::LinksSeen => match e {
                LoopEvent::Links { usb, profile } => {
                    if !usb && (!(self.settings.quick_reconnect && profile)
                        || self.settings.stopped) {
                        if self.has_bluetooth {
                            self.go(LoopPhase::HandshakeDone, LoopAction::Handshake)
                        } else {
                            self.again(1000)
                        }
                    } else {
                        self.usb_last()
                    }
                },
                _ => self.usb_last(),
            },
            LoopPhase::HandshakeDone => {
                if failed {
                    self.again(200)
                } else {
                    self.usb_last()
                }
            },
            LoopPhase::UsbLast => {
                if failed {
                    self.again(500)
                } else {
                    self.go(LoopPhase::Shown, LoopAction::ShowConnected)
                }
            },
            LoopPhase::Shown => self.go(LoopPhase::Restarted, LoopAction::AwaitRestart),
            LoopPhase::Restarted => match e {
                LoopEvent::Settings(fresh) => self.restarted(fresh),
                _ => self.round(),
            },
            LoopPhase::Rearmed => self.go(LoopPhase::LinksAtEnd, LoopAction::SeeLinks),
            LoopPhase::LinksAtEnd => match e {
                LoopEvent::Links { usb, profile } => {
                    if !(self.settings.quick_reconnect && profile) && !self.settings.rearm_usb {
                        self.again(200)
                    } else {
                        self.round()
                    }
                },
                _ => self.round(),
            },
            LoopPhase::Pause => self.round(),
            LoopPhase::Ended => vstd::pervasive::unreached(),
        }
    }
}

// ---------------------------------------------------------------------
// Laws

/// The course ends only where nothing but the web interface is served.
pub proof fn law_proxy_goes_on(l: MainLoop, e: LoopEventModel)
    requires
        l.phase != LoopPhase::Ended,
    ensures
        loop_step(l, e).0.phase == LoopPhase::Ended ==> l.web_only,
        loop_step(l, e).0.phase == LoopPhase::Ended <==> loop_step(l, e).1 is Done,
        loop_step(l, e).0.web_only == l.web_only,
{
}

/// Whether a phase comes before anything but the web interface is touched.
pub open spec fn is_first_part(phase: LoopPhase) -> bool {
    phase == LoopPhase::Begin || phase == LoopPhase::ScoStarted || phase
        == LoopPhase::SinkAnnounced || phase == LoopPhase::WebStarted || phase == LoopPhase::Ended
}

/// Where only the web interface is served, nothing else is started.
pub proof fn law_web_only_starts_nothing_else(l: MainLoop, e: LoopEventModel)
    requires
        l.web_only,
        is_first_part(l.phase),
        l.phase != LoopPhase::Ended,
    ensures
        is_first_part(loop_step(l, e).0.phase),
        loop_step(l, e).1 is StartWeb || loop_step(l, e).1 is Done,
{
}

/// No phone and no head unit is called before Bluetooth was set up, nor where
/// the phone is reached by TCP.
pub proof fn law_bluetooth_comes_first(l: MainLoop, e: LoopEventModel)
    requires
        l.phase != LoopPhase::Ended,
    ensures
        loop_step(l, e).1 is RunProxy ==> l.has_bluetooth && l.settings.bt_wireless_proxy
            && !l.settings.direct_tcp,
        loop_step(l, e).1 is Handshake ==> l.has_bluetooth,
        loop_step(l, e).0.has_bluetooth != l.has_bluetooth ==> l.phase == LoopPhase::BluetoothMade
            && !failed(e),
{
}

/// Behind a session that failed there is a pause or a clean-up before the next
/// round.
pub proof fn law_failure_is_followed_by_a_pause(l: MainLoop, error: Seq<char>)
    requires
        l.phase == LoopPhase::ProxyRan || l.phase == LoopPhase::HandshakeDone || l.phase
            == LoopPhase::UsbFirst || l.phase == LoopPhase::UsbLast,
    ensures
        loop_step(l, LoopEvent::Failed(error)).0.phase == LoopPhase::Pause,
        loop_step(l, LoopEvent::Failed(error)).1 is Sleep || loop_step(
            l,
            LoopEvent::Failed(error),
        ).1 == (LoopAction::Recover { error }),
{
}

// ---------------------------------------------------------------------
// Whole courses

/// Whether these are a stretch of the course: the events that came, the states between
/// them, and what each of them made the course ask for.
pub open spec fn is_loop_stretch(
    events: Seq<LoopEventModel>,
    states: Seq<MainLoop>,
    actions: Seq<LoopActionModel>,
) -> bool {
    &&& states.len() == events.len() + 1 && actions.len() == events.len()
    &&& forall|k: int|
        0 <= k < events.len() ==> (states[k + 1], #[trigger] actions[k]) == loop_step(
            states[k],
            events[k],
        )
}

pub open spec fn asked_if(wanted: bool, actions: Seq<LoopActionModel>) -> Seq<LoopActionModel> {
    if wanted {
        actions
    } else {
        Seq::empty()
    }
}

/// What is started behind the watch for the user's requests: nothing of Bluetooth where
/// the phone is reached by TCP; else the adapter, which serves phones unless the head
/// unit is only probed, the profiles of a proxy, the companion, and the pairing with a
/// head unit that is named.
pub open spec fn bluetooth_course(s: LoopSettings) -> Seq<LoopActionModel> {
    if s.direct_tcp {
        Seq::empty()
    } else {
        seq![
            LoopActionModel::InitBluetooth {
                serve_aa: !s.bt_wireless_proxy || s.proxy_mode != ProxyMode::Probe,
            },
        ] + (asked_if(s.bt_wireless_proxy, seq![LoopActionModel::RegisterProfiles]) + (seq![
            LoopActionModel::StartCompanion { enabled: s.enable_companion_bt },
        ] + asked_if(s.bt_wireless_proxy && s.names_hu, seq![LoopActionModel::EnsurePairing])))
    }
}

/// What is started for USB: nothing where a desktop head unit is used.
pub open spec fn usb_course(s: LoopSettings) -> Seq<LoopActionModel> {
    if s.dhu {
        Seq::empty()
    } else {
        asked_if(s.legacy, seq![LoopActionModel::StartUevents]) + seq![LoopActionModel::MakeGadget]
    }
}

/// What is started once, in its order, before the first round.
pub open spec fn start_course(s: LoopSettings, has_button: bool) -> Seq<LoopActionModel> {
    asked_if(s.bt_sco, seq![LoopActionModel::StartSco]) + (asked_if(
        s.a2dp_sink && !s.dongle_mode,
        seq![LoopActionModel::AnnounceSink],
    ) + (asked_if(s.webserver, seq![LoopActionModel::StartWeb]) + (seq![LoopActionModel::InitWifi]
        + (usb_course(s) + (asked_if(has_button, seq![LoopActionModel::StartButtons]) + (seq![
        LoopActionModel::WatchActions,
    ] + (bluetooth_course(s) + seq![LoopActionModel::ShowIdle])))))))
}

spec fn behind_watch(s: LoopSettings) -> Seq<LoopActionModel> {
    bluetooth_course(s) + seq![LoopActionModel::ShowIdle]
}

spec fn behind_usb(s: LoopSettings, has_button: bool) -> Seq<LoopActionModel> {
    asked_if(has_button, seq![LoopActionModel::StartButtons]) + (seq![LoopActionModel::WatchActions]
        + behind_watch(s))
}

/// What is left to be started in a phase.
#[verifier::opaque]
spec fn start_from(l: MainLoop) -> Seq<LoopActionModel> {
    let s = l.settings;
    let wifi = seq![LoopActionModel::InitWifi] + (usb_course(s) + behind_usb(s, l.has_button));
    let web = asked_if(s.webserver, seq![LoopActionModel::StartWeb]) + wifi;
    let sink = asked_if(s.a2dp_sink && !s.dongle_mode, seq![LoopActionModel::AnnounceSink]) + web;
    let pairing = asked_if(s.bt_wireless_proxy && s.names_hu, seq![LoopActionModel::EnsurePairing])
        + seq![LoopActionModel::ShowIdle];
    let companion = seq![
        LoopActionModel::StartCompanion { enabled: s.enable_companion_bt },
    ] + pairing;
    match l.phase {
        LoopPhase::Begin => start_course(s, l.has_button),
        LoopPhase::ScoStarted => sink,
        LoopPhase::SinkAnnounced => web,
        LoopPhase::WebStarted => wifi,
        LoopPhase::WifiKnown => usb_course(s) + behind_usb(s, l.has_button),
        LoopPhase::UeventsHeard => seq![LoopActionModel::MakeGadget] + behind_usb(s, l.has_button),
        LoopPhase::GadgetMade => behind_usb(s, l.has_button),
        LoopPhase::ButtonsHeard => seq![LoopActionModel::WatchActions] + behind_watch(s),
        LoopPhase::ActionsWatched => behind_watch(s),
        LoopPhase::BluetoothMade => asked_if(
            s.bt_wireless_proxy,
            seq![LoopActionModel::RegisterProfiles],
        ) + companion,
        LoopPhase::ProfilesRegistered => companion,
        LoopPhase::CompanionStarted => pairing,
        LoopPhase::HuPaired => seq![LoopActionModel::ShowIdle],
        _ => Seq::empty(),
    }
}

spec fn is_starting(phase: LoopPhase) -> bool {
    phase == LoopPhase::Begin || phase == LoopPhase::ScoStarted || phase == LoopPhase::SinkAnnounced
        || phase == LoopPhase::WebStarted || phase == LoopPhase::WifiKnown || phase
        == LoopPhase::UeventsHeard || phase == LoopPhase::GadgetMade || phase
        == LoopPhase::ButtonsHeard || phase == LoopPhase::ActionsWatched || phase
        == LoopPhase::BluetoothMade || phase == LoopPhase::ProfilesRegistered || phase
        == LoopPhase::CompanionStarted || phase == LoopPhase::HuPaired
}

spec fn must_not_fail(phase: LoopPhase) -> bool {
    phase == LoopPhase::BluetoothMade || phase == LoopPhase::HuPaired
}

pub open spec fn is_needed(a: LoopActionModel) -> bool {
    a is InitBluetooth || a is EnsurePairing
}

proof fn lemma_asked(wanted: bool, a: LoopActionModel, rest: Seq<LoopActionModel>)
    ensures
        wanted ==> (asked_if(wanted, seq![a]) + rest).len() > 0 && (asked_if(wanted, seq![a])
            + rest)[0] == a && (asked_if(wanted, seq![a]) + rest).skip(1) == rest,
        !wanted ==> asked_if(wanted, seq![a]) + rest == rest,
{
    if wanted {
        assert((asked_if(wanted, seq![a]) + rest).skip(1) =~= rest);
    } else {
        assert(asked_if(wanted, seq![a]) + rest =~= rest);
    }
}

spec fn goes_on(l: MainLoop, e: LoopEventModel) -> bool {
    let left = start_from(l);
    let (next, action) = loop_step(l, e);
    &&& left.len() > 0
    &&& action == left[0]
    &&& start_from(next) =~= left.skip(1)
    &&& left.len() > 1 ==> is_starting(next.phase)
    &&& left.len() == 1 ==> next.phase == LoopPhase::Idle
    &&& must_not_fail(next.phase) <==> is_needed(left[0])
    &&& next.settings == l.settings && next.has_button == l.has_button && !next.web_only
}

#[verifier::rlimit(60)]
proof fn lemma_begin_goes_on(l: MainLoop, e: LoopEventModel)
    requires
        l.phase == LoopPhase::Begin,
        !l.web_only,
        must_not_fail(l.phase) ==> !failed(e),
    ensures
        goes_on(l, e),
{
    reveal(start_from);
    let web = asked_if(l.settings.webserver, seq![LoopActionModel::StartWeb]);
    assert(web.len() <= 1);
}

#[verifier::rlimit(60)]
proof fn lemma_sound_goes_on(l: MainLoop, e: LoopEventModel)
    requires
        l.phase == LoopPhase::ScoStarted,
        !l.web_only,
        must_not_fail(l.phase) ==> !failed(e),
    ensures
        goes_on(l, e),
{
    reveal(start_from);
    let s = l.settings;
    let wifi = seq![LoopActionModel::InitWifi] + (usb_course(s) + behind_usb(s, l.has_button));
    let web = asked_if(s.webserver, seq![LoopActionModel::StartWeb]) + wifi;
    lemma_asked(s.a2dp_sink && !s.dongle_mode, LoopActionModel::AnnounceSink, web);
    lemma_asked(s.webserver, LoopActionModel::StartWeb, wifi);
    lemma_asked(true, LoopActionModel::InitWifi, usb_course(s) + behind_usb(s, l.has_button));
}

#[verifier::rlimit(60)]
proof fn lemma_web_goes_on(l: MainLoop, e: LoopEventModel)
    requires
        l.phase == LoopPhase::SinkAnnounced || l.phase == LoopPhase::WebStarted,
        !l.web_only,
        must_not_fail(l.phase) ==> !failed(e),
    ensures
        goes_on(l, e),
{
    reveal(start_from);
}

#[verifier::rlimit(60)]
proof fn lemma_usb_goes_on(l: MainLoop, e: LoopEventModel)
    requires
        l.phase == LoopPhase::WifiKnown,
        !l.web_only,
        must_not_fail(l.phase) ==> !failed(e),
    ensures
        goes_on(l, e),
{
    reveal(start_from);
}

#[verifier::rlimit(60)]
proof fn lemma_gadget_goes_on(l: MainLoop, e: LoopEventModel)
    requires
        l.phase == LoopPhase::UeventsHeard || l.phase == LoopPhase::GadgetMade,
        !l.web_only,
        must_not_fail(l.phase) ==> !failed(e),
    ensures
        goes_on(l, e),
{
    reveal(start_from);
}

#[verifier::rlimit(60)]
proof fn lemma_buttons_goes_on(l: MainLoop, e: LoopEventModel)
    requires
        l.phase == LoopPhase::ButtonsHeard || l.phase == LoopPhase::ActionsWatched,
        !l.web_only,
        must_not_fail(l.phase) ==> !failed(e),
    ensures
        goes_on(l, e),
{
    reveal(start_from);
}

#[verifier::rlimit(60)]
proof fn lemma_bluetooth_goes_on(l: MainLoop, e: LoopEventModel)
    requires
        l.phase == LoopPhase::BluetoothMade || l.phase == LoopPhase::ProfilesRegistered,
        !l.web_only,
        must_not_fail(l.phase) ==> !failed(e),
    ensures
        goes_on(l, e),
{
    reveal(start_from);
}

#[verifier::rlimit(60)]
proof fn lemma_pairing_goes_on(l: MainLoop, e: LoopEventModel)
    requires
        l.phase == LoopPhase::CompanionStarted || l.phase == LoopPhase::HuPaired,
        !l.web_only,
        must_not_fail(l.phase) ==> !failed(e),
    ensures
        goes_on(l, e),
{
    reveal(start_from);
}

proof fn lemma_start_goes_on(l: MainLoop, e: LoopEventModel)
    requires
        is_starting(l.phase),
        !l.web_only,
        must_not_fail(l.phase) ==> !failed(e),
    ensures
        goes_on(l, e),
{
    match l.phase {
        LoopPhase::Begin => lemma_begin_goes_on(l, e),
        LoopPhase::ScoStarted => lemma_sound_goes_on(l, e),
        LoopPhase::SinkAnnounced => lemma_web_goes_on(l, e),
        LoopPhase::WebStarted => lemma_web_goes_on(l, e),
        LoopPhase::WifiKnown => lemma_usb_goes_on(l, e),
        LoopPhase::UeventsHeard => lemma_gadget_goes_on(l, e),
        LoopPhase::GadgetMade => lemma_gadget_goes_on(l, e),
        LoopPhase::ButtonsHeard => lemma_buttons_goes_on(l, e),
        LoopPhase::ActionsWatched => lemma_buttons_goes_on(l, e),
        LoopPhase::BluetoothMade => lemma_bluetooth_goes_on(l, e),
        LoopPhase::ProfilesRegistered => lemma_bluetooth_goes_on(l, e),
        LoopPhase::CompanionStarted => lemma_pairing_goes_on(l, e),
        LoopPhase::HuPaired => lemma_pairing_goes_on(l, e),
        _ => {},
    }
}

#[verifier::spinoff_prover]
#[verifier::rlimit(100)]
proof fn lemma_start(
    s: LoopSettings,
    has_button: bool,
    events: Seq<LoopEventModel>,
    states: Seq<MainLoop>,
    actions: Seq<LoopActionModel>,
    k: int,
)
    requires
        is_loop_stretch(events, states, actions),
        states[0] == (MainLoop {
            settings: s,
            web_only: false,
            has_button,
            has_wifi: false,
            has_bluetooth: false,
            phase: LoopPhase::Begin,
        }),
        0 <= k <= events.len(),
        k <= start_course(s, has_button).len(),
        forall|i: int| 0 <= i < k - 1 && is_needed(#[trigger] actions[i]) ==> !failed(events[i + 1]),
    ensures
        states[k].settings == s && states[k].has_button == has_button && !states[k].web_only,
        start_from(states[k]) == start_course(s, has_button).skip(k),
        k < start_course(s, has_button).len() ==> is_starting(states[k].phase),
        k == start_course(s, has_button).len() ==> states[k].phase == LoopPhase::Idle,
        must_not_fail(states[k].phase) <==> k > 0 && is_needed(start_course(s, has_button)[k - 1]),
        forall|i: int| 0 <= i < k ==> #[trigger] actions[i] == start_course(s, has_button)[i],
    decreases k,
{
    let all = start_course(s, has_button);
    if k == 0 {
        assert(all.skip(0) =~= all);
        assert(start_from(states[0]) == all) by {
            reveal(start_from);
        }
    } else {
        lemma_start(s, has_button, events, states, actions, k - 1);
        if k - 1 > 0 {
            assert(actions[k - 2] == all[k - 2]);
        }
        assert(actions[k - 1] == loop_step(states[k - 1], events[k - 1]).1);
        lemma_start_goes_on(states[k - 1], events[k - 1]);
        assert(all.skip(k - 1).skip(1) =~= all.skip(k));
        assert(start_from(states[k - 1]) == all.skip(k - 1));
    }
}

/// What is configured is started, in a fixed order and each once, and only behind that
/// the first round begins. Nothing but the adapter and the pairing is needed for that.
pub proof fn law_start_takes_its_course(
    s: LoopSettings,
    has_button: bool,
    events: Seq<LoopEventModel>,
    states: Seq<MainLoop>,
    actions: Seq<LoopActionModel>,
    k: int,
)
    requires
        is_loop_stretch(events, states, actions),
        states[0] == (MainLoop {
            settings: s,
            web_only: false,
            has_button,
            has_wifi: false,
            has_bluetooth: false,
            phase: LoopPhase::Begin,
        }),
        0 <= k < events.len(),
        k < start_course(s, has_button).len(),
        forall|i: int| 0 <= i < k && is_needed(#[trigger] actions[i]) ==> !failed(events[i + 1]),
    ensures
        actions[k] == start_course(s, has_button)[k],
        k + 1 == start_course(s, has_button).len() ==> states[k + 1].phase == LoopPhase::Idle,
{
    lemma_start(s, has_button, events, states, actions, k + 1);
}

/// An adapter that cannot be set up, and a head unit that cannot be paired with, are
/// tried again after a second, for as long as it takes.
pub proof fn law_needed_things_are_tried_again(
    l: MainLoop,
    error: Seq<char>,
    e: LoopEventModel,
)
    requires
        !l.settings.direct_tcp,
        l.settings.bt_wireless_proxy && l.settings.names_hu,
        l.phase == LoopPhase::BluetoothMade || l.phase == LoopPhase::HuPaired,
    ensures
        ({
            let (next, action) = loop_step(l, LoopEvent::Failed(error));
            &&& action == (LoopActionModel::Sleep { ms: 1000 })
            &&& l.phase == LoopPhase::BluetoothMade ==> loop_step(next, e).1 is InitBluetooth
                && loop_step(next, e).0.phase == LoopPhase::BluetoothMade
            &&& l.phase == LoopPhase::HuPaired ==> loop_step(next, e).1 is EnsurePairing
                && loop_step(next, e).0.phase == LoopPhase::HuPaired
        }),
{
}

/// Where the phone is reached by TCP, a round only sets USB up and waits for the end of
/// the session.
pub proof fn law_round_by_tcp(
    events: Seq<LoopEventModel>,
    states: Seq<MainLoop>,
    actions: Seq<LoopActionModel>,
)
    requires
        is_loop_stretch(events, states, actions),
        events.len() == 4,
        states[0].phase == LoopPhase::Idle,
        states[0].settings.direct_tcp,
        !failed(events[2]),
    ensures
        actions[0] is InitUsb,
        actions[1] == (LoopActionModel::EnableUsb {
            require_accessory_start: states[0].settings.require_accessory_start,
        }),
        actions[2] is ShowConnected,
        actions[3] is AwaitRestart,
{
    assert(actions[0] == loop_step(states[0], events[0]).1);
    assert(actions[1] == loop_step(states[1], events[1]).1);
    assert(actions[2] == loop_step(states[2], events[2]).1);
    assert(actions[3] == loop_step(states[3], events[3]).1);
}

/// A proxy between phone and head unit runs in each round in its configured mode; USB
/// comes behind it, or before it where that is configured.
pub proof fn law_round_of_a_proxy(
    events: Seq<LoopEventModel>,
    states: Seq<MainLoop>,
    actions: Seq<LoopActionModel>,
)
    requires
        is_loop_stretch(events, states, actions),
        events.len() == 5,
        states[0].phase == LoopPhase::Idle,
        !states[0].settings.direct_tcp,
        states[0].settings.bt_wireless_proxy,
        states[0].has_bluetooth,
        !failed(events[2]) && !failed(events[3]),
    ensures
        ({
            let s = states[0].settings;
            let usb = LoopActionModel::EnableUsb {
                require_accessory_start: s.require_accessory_start,
            };
            let run = LoopActionModel::RunProxy { mode: s.proxy_mode };
            &&& actions[0] is InitUsb
            &&& s.change_usb_order ==> actions[1] == usb && actions[2] == run
            &&& !s.change_usb_order ==> actions[1] == run && actions[2] == usb
            &&& actions[3] is ShowConnected
            &&& actions[4] is AwaitRestart
        }),
{
    assert(actions[0] == loop_step(states[0], events[0]).1);
    assert(actions[1] == loop_step(states[1], events[1]).1);
    assert(actions[2] == loop_step(states[2], events[2]).1);
    assert(actions[3] == loop_step(states[3], events[3]).1);
    assert(actions[4] == loop_step(states[4], events[4]).1);
}

/// Otherwise the phone is brought in by a handshake, unless USB is connected, or the
/// phone's connection was kept and the user has not stopped it.
pub proof fn law_round_with_a_handshake(
    events: Seq<LoopEventModel>,
    states: Seq<MainLoop>,
    actions: Seq<LoopActionModel>,
    usb: bool,
    profile: bool,
)
    requires
        is_loop_stretch(events, states, actions),
        events.len() == 5,
        states[0].phase == LoopPhase::Idle,
        !states[0].settings.direct_tcp,
        !states[0].settings.bt_wireless_proxy,
        !states[0].settings.change_usb_order,
        states[0].has_bluetooth && states[0].has_wifi,
        events[2] == (LoopEventModel::Links { usb, profile }),
        !failed(events[3]) && !failed(events[4]),
    ensures
        ({
            let s = states[0].settings;
            let enable = LoopActionModel::EnableUsb {
                require_accessory_start: s.require_accessory_start,
            };
            &&& actions[0] is InitUsb
            &&& actions[1] is SeeLinks
            &&& if usb || (s.quick_reconnect && profile && !s.stopped) {
                actions[2] == enable && actions[3] is ShowConnected && actions[4] is AwaitRestart
            } else {
                actions[2] is Handshake && actions[3] == enable && actions[4] is ShowConnected
            }
        }),
{
    assert(actions[0] == loop_step(states[0], events[0]).1);
    assert(actions[1] == loop_step(states[1], events[1]).1);
    assert(actions[2] == loop_step(states[2], events[2]).1);
    assert(actions[3] == loop_step(states[3], events[3]).1);
    assert(actions[4] == loop_step(states[4], events[4]).1);
}

/// With USB first, the same handshake comes behind it.
pub proof fn law_round_with_usb_first(
    events: Seq<LoopEventModel>,
    states: Seq<MainLoop>,
    actions: Seq<LoopActionModel>,
    usb: bool,
    profile: bool,
)
    requires
        is_loop_stretch(events, states, actions),
        events.len() == 5,
        states[0].phase == LoopPhase::Idle,
        !states[0].settings.direct_tcp,
        !states[0].settings.bt_wireless_proxy,
        states[0].settings.change_usb_order,
        states[0].has_bluetooth && states[0].has_wifi,
        !failed(events[2]),
        events[3] == (LoopEventModel::Links { usb, profile }),
        !failed(events[4]),
    ensures
        ({
            let s = states[0].settings;
            &&& actions[0] is InitUsb
            &&& actions[1] == (LoopActionModel::EnableUsb {
                require_accessory_start: s.require_accessory_start,
            })
            &&& actions[2] is SeeLinks
            &&& if usb || (s.quick_reconnect && profile && !s.stopped) {
                actions[3] is ShowConnected && actions[4] is AwaitRestart
            } else {
                actions[3] is Handshake && actions[4] is ShowConnected
            }
        }),
{
    assert(actions[0] == loop_step(states[0], events[0]).1);
    assert(actions[1] == loop_step(states[1], events[1]).1);
    assert(actions[2] == loop_step(states[2], events[2]).1);
    assert(actions[3] == loop_step(states[3], events[3]).1);
    assert(actions[4] == loop_step(states[4], events[4]).1);
}

/// Behind a session the settings are those of now; USB is set up anew where that is
/// configured, and the next round begins after a short pause, or at once where USB was
/// set up anew or the phone's connection was kept.
pub proof fn law_round_ends(
    events: Seq<LoopEventModel>,
    states: Seq<MainLoop>,
    actions: Seq<LoopActionModel>,
    fresh: LoopSettings,
    usb: bool,
    profile: bool,
)
    requires
        is_loop_stretch(events, states, actions),
        events.len() == 3,
        states[0].phase == LoopPhase::Restarted,
        events[0] == LoopEventModel::Settings(fresh),
        fresh.rearm_usb ==> events[2] == (LoopEventModel::Links { usb, profile }),
        !fresh.rearm_usb ==> events[1] == (LoopEventModel::Links { usb, profile }),
    ensures
        states[1].settings == fresh,
        fresh.rearm_usb ==> {
            &&& actions[0] == (LoopActionModel::RearmUsb { cooldown_ms: fresh.rearm_cooldown_ms })
            &&& actions[1] is SeeLinks
            &&& actions[2] is ShowIdle
        },
        !fresh.rearm_usb ==> {
            &&& actions[0] is SeeLinks
            &&& fresh.quick_reconnect && profile ==> actions[1] is ShowIdle
            &&& !(fresh.quick_reconnect && profile) ==> actions[1] == (LoopActionModel::Sleep {
                ms: 200,
            }) && actions[2] is ShowIdle
        },
{
    assert(actions[0] == loop_step(states[0], events[0]).1);
    assert(actions[1] == loop_step(states[1], events[1]).1);
    assert(actions[2] == loop_step(states[2], events[2]).1);
}

/// How long the pause is behind what failed; a session in the car's network is cleaned
/// up behind. Then a new round begins.
pub proof fn law_pause_fits_the_failure(l: MainLoop, error: Seq<char>, e: LoopEventModel)
    ensures
        ({
            let (next, action) = loop_step(l, LoopEvent::Failed(error));
            &&& l.phase == LoopPhase::UsbFirst || l.phase == LoopPhase::UsbLast ==> action == (
            LoopActionModel::Sleep { ms: 500 })
            &&& l.phase == LoopPhase::HandshakeDone ==> action == (LoopActionModel::Sleep {
                ms: 200,
            })
            &&& l.phase == LoopPhase::ProxyRan && l.settings.proxy_mode == ProxyMode::CarWifiMitm
                ==> action == (LoopActionModel::Recover { error })
            &&& l.phase == LoopPhase::ProxyRan && l.settings.proxy_mode != ProxyMode::CarWifiMitm
                ==> action == (LoopActionModel::Sleep { ms: 1000 })
            &&& l.phase == LoopPhase::UsbFirst || l.phase == LoopPhase::UsbLast || l.phase
                == LoopPhase::HandshakeDone || l.phase == LoopPhase::ProxyRan ==> loop_step(
                next,
                e,
            ).1 is ShowIdle
        }),
{
}

/// The course depends on the settings that say so.
pub proof fn law_course_depends_on_the_settings(c: AppConfig)
    ensures
        ({
            let s = settings_for(c);
            &&& s.direct_tcp <==> text::trimmed(c.aa_server_tcp_addr@).len() > 0
            &&& s.names_hu <==> text::trimmed(c.bt_wireless_proxy_hu_mac@).len() > 0
            &&& s.webserver <==> c.webserver is Some
            &&& s.stopped <==> c.action_requested == Some(Action::Stop)
            &&& s.bt_sco == c.bt_sco && s.a2dp_sink == c.bt_a2dp_sink_enabled
            &&& s.dongle_mode == c.dongle_mode && s.dhu == c.dhu && s.legacy == c.legacy
            &&& s.bt_wireless_proxy == c.bt_wireless_proxy
            &&& s.enable_companion_bt == c.enable_companion_bt
            &&& s.change_usb_order == c.change_usb_order
            &&& s.require_accessory_start == c.usb_gadget_require_accessory_start
            &&& s.quick_reconnect == c.quick_reconnect
            &&& s.rearm_usb == c.usb_gadget_rearm_on_disconnect
            &&& s.rearm_cooldown_ms == c.usb_gadget_rearm_cooldown_ms
        }),
{
}

} // verus!
