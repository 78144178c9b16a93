//! Telling the phone how to reach the proxy over Wi-Fi.

use crate::config::WifiConfig;
use crate::frame::ProxyMessageId;
use crate::frame::HEADER_LEN;
use crate::messages;
use crate::messages::MAX_TEXT;
use crate::wifi_iface;
use crate::wifi_text::CarWifiInfo;
use crate::wifi_text::WifiInfo;
use crate::wire;
use vstd::prelude::*;

verus! {

// ---------------------------------------------------------------------
// The parameters

/// How many stages the exchange of parameters has.
pub const STAGES: u8 = 5;

/// One stage of the exchange: something is sent to the phone, or read from it.
#[derive(Clone, Copy, PartialEq, Eq, Structural)]
pub enum ParamsStage {
    /// Send the address and the port of the proxy.
    SendStart,
    /// Send the name and the key of the network.
    SendInfo,
    /// Read this message; another one is taken in its place.
    Read(ProxyMessageId),
}

pub open spec fn stage_at(stage: u8) -> Option<ParamsStage> {
    if stage == 1 {
        Some(ParamsStage::SendStart)
    } else if stage == 2 {
        Some(ParamsStage::Read(ProxyMessageId::WifiInfoRequest))
    } else if stage == 3 {
        Some(ParamsStage::SendInfo)
    } else if stage == 4 {
        Some(ParamsStage::Read(ProxyMessageId::WifiStartResponse))
    } else if stage == 5 {
        Some(ParamsStage::Read(ProxyMessageId::WifiConnectStatus))
    } else {
        None
    }
}

/// The stages in their order, counted from one.
pub fn send_params(stage: u8) -> (r: Option<ParamsStage>)
    ensures
        r == stage_at(stage),
        r is Some <==> 1 <= stage <= STAGES,
{
    if stage == 1 {
        Some(ParamsStage::SendStart)
    } else if stage == 2 {
        Some(ParamsStage::Read(ProxyMessageId::WifiInfoRequest))
    } else if stage == 3 {
        Some(ParamsStage::SendInfo)
    } else if stage == 4 {
        Some(ParamsStage::Read(ProxyMessageId::WifiStartResponse))
    } else if stage == 5 {
        Some(ParamsStage::Read(ProxyMessageId::WifiConnectStatus))
    } else {
        None
    }
}

/// The network as the phone is told of it: always a secured one, on an access
/// point that comes and goes.
pub open spec fn told_network(wifi: WifiConfig<Seq<char>>) -> WifiInfo<Seq<char>> {
    WifiInfo {
        ssid: wifi.ssid,
        key: wifi.wpa_key,
        bssid: wifi.bssid,
        is_open: false,
        security_name: "WPA2_PERSONAL"@,
        dynamic: true,
    }
}

pub fn wifi_params(wifi: &WifiConfig) -> (r: CarWifiInfo)
    ensures
        r@ == told_network(wifi@),
{
    WifiInfo {
        ssid: wifi.ssid.clone(),
        key: wifi.wpa_key.clone(),
        bssid: wifi.bssid.clone(),
        is_open: false,
        security_name: "WPA2_PERSONAL".to_owned(),
        dynamic: true,
    }
}

/// The message that a stage sends; none if the stage reads one, or if a text is
/// too long for a message.
pub open spec fn sent_message(stage: ParamsStage, wifi: WifiConfig<Seq<char>>) -> Option<
    (u16, Seq<u8>),
> {
    match stage {
        ParamsStage::SendStart => if wifi_iface::byte_len(wifi.ip_addr) <= MAX_TEXT {
            Some(
                (
                    ProxyMessageId::WifiStartRequest.number(),
                    messages::start_bytes(wifi.ip_addr, wifi.port),
                ),
            )
        } else {
            None
        },
        ParamsStage::SendInfo => if messages::info_fits(told_network(wifi)) {
            Some(
                (
                    ProxyMessageId::WifiInfoResponse.number(),
                    messages::info_bytes(told_network(wifi)),
                ),
            )
        } else {
            None
        },
        ParamsStage::Read(_) => None,
    }
}

pub fn send_message(stage: ParamsStage, wifi: &WifiConfig) -> (r: Option<(u16, Vec<u8>)>)
    ensures
        match r {
            Some(m) => sent_message(stage, wifi@) == Some((m.0, m.1@)),
            None => sent_message(stage, wifi@) is None,
        },
{
    match stage {
        ParamsStage::SendStart => {
            if wifi.ip_addr.as_str().as_bytes().len() <= MAX_TEXT {
                Some(
                    (
                        ProxyMessageId::WifiStartRequest.as_u16(),
                        messages::encode_start(wifi.ip_addr.as_str(), wifi.port),
                    ),
                )
            } else {
                None
            }
        },
        ParamsStage::SendInfo => {
            let info = wifi_params(wifi);
            if info.ssid.as_str().as_bytes().len() <= MAX_TEXT
                && info.key.as_str().as_bytes().len() <= MAX_TEXT
                && info.bssid.as_str().as_bytes().len() <= MAX_TEXT {
                Some((ProxyMessageId::WifiInfoResponse.as_u16(), messages::encode_info(&info)))
            } else {
                None
            }
        },
        ParamsStage::Read(_) => None,
    }
}

/// Whether a connection status says that the phone could not join the network.
pub open spec fn is_wifi_failure(expected: ProxyMessageId, payload: Seq<u8>) -> bool {
    expected == ProxyMessageId::WifiConnectStatus && payload.len() >= 2 && payload[1] != 0
}

/// Takes a message of the phone: how many bytes it took, or that the phone
/// could not join the network.
pub fn read_message(expected: ProxyMessageId, payload: &[u8]) -> (r: Result<usize, String>)
    requires
        payload@.len() <= 0xffff,
    ensures
        match r {
            Ok(n) => !is_wifi_failure(expected, payload@) && n == HEADER_LEN + payload@.len(),
            Err(e) => is_wifi_failure(expected, payload@) && e@
                == "phone cannot connect to our WiFi AP..."@,
        },
{
    if expected == ProxyMessageId::WifiConnectStatus && payload.len() >= 2 && payload[1] != 0 {
        return Err("phone cannot connect to our WiFi AP...".to_owned());
    }
    Ok(HEADER_LEN + payload.len())
}

// ---------------------------------------------------------------------
// The handshake

#[derive(Clone, Copy, PartialEq, Eq, Structural)]
pub struct HandshakeSettings {
    /// Bluetooth is off between handshakes.
    pub bt_poweroff: bool,
    pub dongle_mode: bool,
    /// Any known phone may connect.
    pub wildcard: bool,
    /// The user has stopped the last session.
    pub stopped: bool,
    /// Keep the connection for the next handshake.
    pub quick_reconnect: bool,
    /// Keep the connection for calls.
    pub keep_for_calls: bool,
}

#[derive(Clone, Copy, PartialEq, Eq, Structural)]
pub enum HandshakePhase {
    Begin,
    PoweredOn,
    HspSession,
    HspRegistered,
    Connected,
    Named,
    ParamsSent,
    Saved,
    StopCleared,
    Started,
    ShutDown,
    Device,
    HungUp,
    HspGone,
    PoweredOff,
    Last,
    Ended,
}

/// What is asked of the host.
#[derive(Clone, Copy, PartialEq, Eq, Structural)]
pub enum HandshakeTask {
    PowerOn,
    /// Open a session of its own for the headset profile.
    OpenHspSession,
    /// Register the headset profile; this may fail.
    RegisterHsp,
    /// Wait for the phone.
    ConnectPhone,
    /// Note which phone it is.
    NotePhone,
    SendParams,
    /// Add the phone to the known ones.
    SaveKnown,
    /// The user's stop no longer holds.
    ClearStop,
    /// Let the proxy take the phone's TCP connection.
    StartTcp,
    /// Keep the connection and repeat the handshake when told to.
    KeepForRestart,
    /// Keep the connection until the session ends.
    KeepForCalls,
    ShutDown,
    FindDevice,
    HangUp,
    UnregisterHsp,
    PowerOff,
}

#[derive(Clone, Copy, PartialEq, Eq, Structural)]
pub enum HandshakeStep {
    Do(HandshakeTask),
    Done,
    /// The task that was told last has failed, and the handshake with it.
    Fail,
}

#[derive(Clone, Copy, PartialEq, Eq, Structural)]
pub struct Handshake {
    pub settings: HandshakeSettings,
    pub phase: HandshakePhase,
}

pub open spec fn hs(h: Handshake, phase: HandshakePhase, task: HandshakeTask) -> (
    Handshake,
    HandshakeStep,
) {
    (Handshake { phase, ..h }, HandshakeStep::Do(task))
}

pub open spec fn hs_end(h: Handshake, step: HandshakeStep) -> (Handshake, HandshakeStep) {
    (Handshake { phase: HandshakePhase::Ended, ..h }, step)
}

pub open spec fn hs_profile(h: Handshake) -> (Handshake, HandshakeStep) {
    if h.settings.dongle_mode {
        hs(h, HandshakePhase::Connected, HandshakeTask::ConnectPhone)
    } else {
        hs(h, HandshakePhase::HspSession, HandshakeTask::OpenHspSession)
    }
}

pub open spec fn hs_stop(h: Handshake) -> (Handshake, HandshakeStep) {
    if h.settings.stopped {
        hs(h, HandshakePhase::StopCleared, HandshakeTask::ClearStop)
    } else {
        hs(h, HandshakePhase::Started, HandshakeTask::StartTcp)
    }
}

pub open spec fn hs_power(h: Handshake) -> (Handshake, HandshakeStep) {
    if h.settings.bt_poweroff {
        hs(h, HandshakePhase::PoweredOff, HandshakeTask::PowerOff)
    } else {
        hs_end(h, HandshakeStep::Done)
    }
}

/// One step of the handshake.
pub open spec fn handshake_step(h: Handshake, failed: bool) -> (Handshake, HandshakeStep) {
    let s = h.settings;
    match h.phase {
        HandshakePhase::Begin => if s.bt_poweroff {
            hs(h, HandshakePhase::PoweredOn, HandshakeTask::PowerOn)
        } else {
            hs_profile(h)
        },
        HandshakePhase::PoweredOn => hs_profile(h),
        HandshakePhase::HspSession => if failed {
            hs_end(h, HandshakeStep::Fail)
        } else {
            hs(h, HandshakePhase::HspRegistered, HandshakeTask::RegisterHsp)
        },
        HandshakePhase::HspRegistered => hs(
            h,
            HandshakePhase::Connected,
            HandshakeTask::ConnectPhone,
        ),
        HandshakePhase::Connected => if failed {
            hs_end(h, HandshakeStep::Fail)
        } else {
            hs(h, HandshakePhase::Named, HandshakeTask::NotePhone)
        },
        HandshakePhase::Named => hs(h, HandshakePhase::ParamsSent, HandshakeTask::SendParams),
        HandshakePhase::ParamsSent => if failed {
            hs_end(h, HandshakeStep::Fail)
        } else if s.wildcard {
            hs(h, HandshakePhase::Saved, HandshakeTask::SaveKnown)
        } else {
            hs_stop(h)
        },
        HandshakePhase::Saved => hs_stop(h),
        HandshakePhase::StopCleared => hs(h, HandshakePhase::Started, HandshakeTask::StartTcp),
        HandshakePhase::Started => if s.quick_reconnect {
            hs(h, HandshakePhase::Last, HandshakeTask::KeepForRestart)
        } else if s.keep_for_calls {
            hs(h, HandshakePhase::Last, HandshakeTask::KeepForCalls)
        } else {
            hs(h, HandshakePhase::ShutDown, HandshakeTask::ShutDown)
        },
        HandshakePhase::ShutDown => hs(h, HandshakePhase::Device, HandshakeTask::FindDevice),
        HandshakePhase::Device => if failed {
            hs_end(h, HandshakeStep::Fail)
        } else {
            hs(h, HandshakePhase::HungUp, HandshakeTask::HangUp)
        },
        HandshakePhase::HungUp => if s.dongle_mode {
            hs_power(h)
        } else {
            hs(h, HandshakePhase::HspGone, HandshakeTask::UnregisterHsp)
        },
        HandshakePhase::HspGone => hs_power(h),
        HandshakePhase::PoweredOff => hs_end(h, HandshakeStep::Done),
        HandshakePhase::Last => hs_end(h, HandshakeStep::Done),
        HandshakePhase::Ended => (h, HandshakeStep::Done),
    }
}

impl Handshake {
    pub fn new(settings: HandshakeSettings) -> (r: Self)
        ensures
            r == (Handshake { settings, phase: HandshakePhase::Begin }),
    {
        Handshake { settings, phase: HandshakePhase::Begin }
    }

    fn go(&mut self, phase: HandshakePhase, task: HandshakeTask) -> (r: HandshakeStep)
        ensures
            (*final(self), r) == hs(*old(self), phase, task),
    {
        self.phase = phase;
        HandshakeStep::Do(task)
    }

    fn end(&mut self, step: HandshakeStep) -> (r: HandshakeStep)
        ensures
            (*final(self), r) == hs_end(*old(self), step),
    {
        self.phase = HandshakePhase::Ended;
        step
    }

    fn profile(&mut self) -> (r: HandshakeStep)
        ensures
            (*final(self), r) == hs_profile(*old(self)),
    {
        if self.settings.dongle_mode {
            self.go(HandshakePhase::Connected, HandshakeTask::ConnectPhone)
        } else {
            self.go(HandshakePhase::HspSession, HandshakeTask::OpenHspSession)
        }
    }

    fn stop(&mut self) -> (r: HandshakeStep)
        ensures
            (*final(self), r) == hs_stop(*old(self)),
    {
        if self.settings.stopped {
            self.go(HandshakePhase::StopCleared, HandshakeTask::ClearStop)
        } else {
            self.go(HandshakePhase::Started, HandshakeTask::StartTcp)
        }
    }

    fn power(&mut self) -> (r: HandshakeStep)
        ensures
            (*final(self), r) == hs_power(*old(self)),
    {
        if self.settings.bt_poweroff {
            self.go(HandshakePhase::PoweredOff, HandshakeTask::PowerOff)
        } else {
            self.end(HandshakeStep::Done)
        }
    }

    /// Takes whether the last task failed and tells the next one.
    pub fn step(&mut self, failed: bool) -> (r: HandshakeStep)
        requires
            old(self).phase != HandshakePhase::Ended,
        ensures
            (*final(self), r) == handshake_step(*old(self), failed),
    {
        match self.phase {
            HandshakePhase::Begin => {
                if self.settings.bt_poweroff {
                    self.go(HandshakePhase::PoweredOn, HandshakeTask::PowerOn)
                } else {
                    self.profile()
                }
            },
            HandshakePhase::PoweredOn => self.profile(),
            HandshakePhase::HspSession => {
                if failed {
                    self.end(HandshakeStep::Fail)
                } else {
                    self.go(HandshakePhase::HspRegistered, HandshakeTask::RegisterHsp)
                }
            },
            HandshakePhase::HspRegistered => self.go(
                HandshakePhase::Connected,
                HandshakeTask::ConnectPhone,
            ),
            HandshakePhase::Connected => {
                if failed {
                    self.end(HandshakeStep::Fail)
                } else {
                    self.go(HandshakePhase::Named, HandshakeTask::NotePhone)
                }
            },
            HandshakePhase::Named => self.go(
                HandshakePhase::ParamsSent,
                HandshakeTask::SendParams,
            ),
            HandshakePhase::ParamsSent => {
                if failed {
                    self.end(HandshakeStep::Fail)
                } else if self.settings.wildcard {
                    self.go(HandshakePhase::Saved, HandshakeTask::SaveKnown)
                } else {
                    self.stop()
                }
            },
            HandshakePhase::Saved => self.stop(),
            HandshakePhase::StopCleared => self.go(
                HandshakePhase::Started,
                HandshakeTask::StartTcp,
            ),
            HandshakePhase::Started => {
                if self.settings.quick_reconnect {
                    self.go(HandshakePhase::Last, HandshakeTask::KeepForRestart)
                } else if self.settings.keep_for_calls {
                    self.go(HandshakePhase::Last, HandshakeTask::KeepForCalls)
                } else {
                    self.go(HandshakePhase::ShutDown, HandshakeTask::ShutDown)
                }
            },
            HandshakePhase::ShutDown => self.go(
                HandshakePhase::Device,
                HandshakeTask::FindDevice,
            ),
            HandshakePhase::Device => {
                if failed {
                    self.end(HandshakeStep::Fail)
                } else {
                    self.go(HandshakePhase::HungUp, HandshakeTask::HangUp)
                }
            },
            HandshakePhase::HungUp => {
                if self.settings.dongle_mode {
                    self.power()
                } else {
                    self.go(HandshakePhase::HspGone, HandshakeTask::UnregisterHsp)
                }
            },
            HandshakePhase::HspGone => self.power(),
            HandshakePhase::PoweredOff => self.end(HandshakeStep::Done),
            HandshakePhase::Last => self.end(HandshakeStep::Done),
            HandshakePhase::Ended => vstd::pervasive::unreached(),
        }
    }
}

/// The phone is added to the known ones, and the proxy takes its connection,
/// only when the parameters have reached it; it is added only where any known
/// phone may connect.
pub proof fn law_phone_is_known_after_its_parameters(h: Handshake, failed: bool)
    requires
        h.phase != HandshakePhase::Ended,
    ensures
        handshake_step(h, failed).1 == HandshakeStep::Do(HandshakeTask::SaveKnown)
            ==> h.phase == HandshakePhase::ParamsSent && !failed && h.settings.wildcard,
        handshake_step(h, failed).1 == HandshakeStep::Do(HandshakeTask::StartTcp) ==> {
            ||| h.phase == HandshakePhase::ParamsSent && !failed
            ||| h.phase == HandshakePhase::Saved
            ||| h.phase == HandshakePhase::StopCleared
        },
        handshake_step(h, failed).0.settings == h.settings,
{
}

/// A user's stop is cleared before the proxy is told to begin.
pub proof fn law_stop_is_cleared_before_tcp(h: Handshake, failed: bool)
    requires
        h.phase != HandshakePhase::Ended,
        h.settings.stopped,
        handshake_step(h, failed).1 == HandshakeStep::Do(HandshakeTask::StartTcp),
    ensures
        h.phase == HandshakePhase::StopCleared,
{
}

pub open spec fn handshake_rank(phase: HandshakePhase) -> int {
    match phase {
        HandshakePhase::Begin => 16,
        HandshakePhase::PoweredOn => 15,
        HandshakePhase::HspSession => 14,
        HandshakePhase::HspRegistered => 13,
        HandshakePhase::Connected => 12,
        HandshakePhase::Named => 11,
        HandshakePhase::ParamsSent => 10,
        HandshakePhase::Saved => 9,
        HandshakePhase::StopCleared => 8,
        HandshakePhase::Started => 7,
        HandshakePhase::ShutDown => 6,
        HandshakePhase::Device => 5,
        HandshakePhase::HungUp => 4,
        HandshakePhase::HspGone => 3,
        HandshakePhase::PoweredOff => 2,
        HandshakePhase::Last => 1,
        HandshakePhase::Ended => 0,
    }
}

/// A handshake ends after at most sixteen steps.
pub proof fn law_handshake_ends(h: Handshake, failed: bool)
    requires
        h.phase != HandshakePhase::Ended,
    ensures
        0 <= handshake_rank(handshake_step(h, failed).0.phase) < handshake_rank(h.phase) <= 16,
        handshake_step(h, failed).1 is Do <==> handshake_step(h, failed).0.phase
            != HandshakePhase::Ended,
{
}

// ---------------------------------------------------------------------
// A kept connection

/// What a kept connection does when it is told to restart.
#[derive(Clone, Copy, PartialEq, Eq, Structural)]
pub enum KeptStep {
    /// Drain and close the connection, hang up, and end.
    HangUp,
    /// Send the parameters once more.
    SendParams,
}

/// The user's stop ends a kept connection; anything else repeats the handshake.
pub fn on_restart(is_stop: bool) -> (r: KeptStep)
    ensures
        r == (if is_stop {
            KeptStep::HangUp
        } else {
            KeptStep::SendParams
        }),
{
    if is_stop {
        KeptStep::HangUp
    } else {
        KeptStep::SendParams
    }
}

// ---------------------------------------------------------------------
// Whole handshakes

/// Whether these are the states and the steps of a handshake from its begin on, where
/// `failed[k]` says whether the task failed that the step before the `k`-th told.
pub open spec fn is_handshake(
    s: HandshakeSettings,
    failed: Seq<bool>,
    states: Seq<Handshake>,
    steps: Seq<HandshakeStep>,
) -> bool {
    &&& failed.len() == steps.len() && states.len() == steps.len() + 1
    &&& states[0] == (Handshake { settings: s, phase: HandshakePhase::Begin })
    &&& forall|k: int|
        0 <= k < steps.len() ==> (#[trigger] states[k]).phase != HandshakePhase::Ended && (
        states[k + 1], steps[k]) == handshake_step(states[k], failed[k])
}

pub open spec fn told_if(wanted: bool, tasks: Seq<HandshakeTask>) -> Seq<HandshakeTask> {
    if wanted {
        tasks
    } else {
        Seq::empty()
    }
}

/// What becomes of the connection when the proxy has been started: it is kept, or the
/// phone is hung up on.
pub open spec fn course_behind_start(s: HandshakeSettings) -> Seq<HandshakeTask> {
    if s.quick_reconnect {
        seq![HandshakeTask::KeepForRestart]
    } else if s.keep_for_calls {
        seq![HandshakeTask::KeepForCalls]
    } else {
        seq![HandshakeTask::ShutDown, HandshakeTask::FindDevice, HandshakeTask::HangUp] + (told_if(
            !s.dongle_mode,
            seq![HandshakeTask::UnregisterHsp],
        ) + told_if(s.bt_poweroff, seq![HandshakeTask::PowerOff]))
    }
}

/// The tasks of a handshake in which nothing fails: the phone is waited for, told the
/// parameters and, where any known phone may call, remembered; a stop is cleared; the
/// proxy is started, once; and only behind that the connection is kept or closed.
pub open spec fn handshake_course(s: HandshakeSettings) -> Seq<HandshakeTask> {
    told_if(s.bt_poweroff, seq![HandshakeTask::PowerOn]) + (told_if(
        !s.dongle_mode,
        seq![HandshakeTask::OpenHspSession, HandshakeTask::RegisterHsp],
    ) + (seq![HandshakeTask::ConnectPhone, HandshakeTask::NotePhone, HandshakeTask::SendParams] + (
    told_if(s.wildcard, seq![HandshakeTask::SaveKnown]) + (told_if(
        s.stopped,
        seq![HandshakeTask::ClearStop],
    ) + (seq![HandshakeTask::StartTcp] + course_behind_start(s))))))
}

/// Whether a handshake cannot go on without a task.
pub open spec fn is_needed(task: HandshakeTask) -> bool {
    task == HandshakeTask::OpenHspSession || task == HandshakeTask::ConnectPhone || task
        == HandshakeTask::SendParams || task == HandshakeTask::FindDevice
}

/// What is left of the course in a phase.
spec fn course_from(s: HandshakeSettings, phase: HandshakePhase) -> Seq<HandshakeTask> {
    let power = told_if(s.bt_poweroff, seq![HandshakeTask::PowerOff]);
    let hung_up = told_if(!s.dongle_mode, seq![HandshakeTask::UnregisterHsp]) + power;
    let start = seq![HandshakeTask::StartTcp] + course_behind_start(s);
    let stop = told_if(s.stopped, seq![HandshakeTask::ClearStop]) + start;
    let params = told_if(s.wildcard, seq![HandshakeTask::SaveKnown]) + stop;
    let phone = seq![HandshakeTask::ConnectPhone, HandshakeTask::NotePhone, HandshakeTask::SendParams]
        + params;
    match phase {
        HandshakePhase::Begin => handshake_course(s),
        HandshakePhase::PoweredOn => told_if(
            !s.dongle_mode,
            seq![HandshakeTask::OpenHspSession, HandshakeTask::RegisterHsp],
        ) + phone,
        HandshakePhase::HspSession => seq![HandshakeTask::RegisterHsp] + phone,
        HandshakePhase::HspRegistered => phone,
        HandshakePhase::Connected => seq![HandshakeTask::NotePhone, HandshakeTask::SendParams]
            + params,
        HandshakePhase::Named => seq![HandshakeTask::SendParams] + params,
        HandshakePhase::ParamsSent => params,
        HandshakePhase::Saved => stop,
        HandshakePhase::StopCleared => start,
        HandshakePhase::Started => course_behind_start(s),
        HandshakePhase::ShutDown => seq![HandshakeTask::FindDevice, HandshakeTask::HangUp]
            + hung_up,
        HandshakePhase::Device => seq![HandshakeTask::HangUp] + hung_up,
        HandshakePhase::HungUp => hung_up,
        HandshakePhase::HspGone => power,
        _ => Seq::empty(),
    }
}

spec fn waits_for_needed(phase: HandshakePhase) -> bool {
    phase == HandshakePhase::HspSession || phase == HandshakePhase::Connected || phase
        == HandshakePhase::ParamsSent || phase == HandshakePhase::Device
}

#[verifier::rlimit(60)]
proof fn lemma_course_goes_on(h: Handshake, failed: bool)
    requires
        h.phase != HandshakePhase::Ended,
    ensures
        waits_for_needed(h.phase) && failed ==> handshake_step(h, failed).1 == HandshakeStep::Fail,
        !(waits_for_needed(h.phase) && failed) ==> ({
            let left = course_from(h.settings, h.phase);
            let (next, step) = handshake_step(h, failed);
            if left.len() == 0 {
                step == HandshakeStep::Done
            } else {
                &&& step == HandshakeStep::Do(left[0])
                &&& course_from(h.settings, next.phase) =~= left.skip(1)
                &&& waits_for_needed(next.phase) == is_needed(left[0])
                &&& next.settings == h.settings
                &&& next.phase != HandshakePhase::Ended
            }
        }),
{
}

proof fn lemma_course(
    s: HandshakeSettings,
    failed: Seq<bool>,
    states: Seq<Handshake>,
    steps: Seq<HandshakeStep>,
    k: int,
)
    requires
        is_handshake(s, failed, states, steps),
        0 <= k < steps.len(),
        forall|i: int|
            0 <= i < k && (#[trigger] steps[i] matches HandshakeStep::Do(t) && is_needed(t))
                ==> !failed[i + 1],
    ensures
        k <= handshake_course(s).len(),
        states[k].settings == s,
        course_from(s, states[k].phase) == handshake_course(s).skip(k),
        waits_for_needed(states[k].phase) == (k > 0 && is_needed(handshake_course(s)[k - 1])),
        k > 0 ==> steps[k - 1] == HandshakeStep::Do(handshake_course(s)[k - 1]),
    decreases k,
{
    let all = handshake_course(s);
    if k == 0 {
        assert(all.skip(0) =~= all);
    } else {
        lemma_course(s, failed, states, steps, k - 1);
        let h = states[k - 1];
        assert(states[k].phase != HandshakePhase::Ended);
        if k - 1 > 0 {
            assert(steps[k - 2] == HandshakeStep::Do(all[k - 2]));
        }
        lemma_course_goes_on(h, failed[k - 1]);
        law_handshake_ends(h, failed[k - 1]);
        assert(all.skip(k - 1).skip(1) =~= all.skip(k));
    }
}

/// Whatever is configured, a handshake in which no needed task fails tells the tasks
/// of its course, one behind the other and each once, and is done. That any other task
/// fails changes nothing.
pub proof fn law_handshake_takes_its_course(
    s: HandshakeSettings,
    failed: Seq<bool>,
    states: Seq<Handshake>,
    steps: Seq<HandshakeStep>,
    k: int,
)
    requires
        is_handshake(s, failed, states, steps),
        0 <= k < steps.len(),
        forall|i: int|
            0 <= i < k && (#[trigger] steps[i] matches HandshakeStep::Do(t) && is_needed(t))
                ==> !failed[i + 1],
    ensures
        k <= handshake_course(s).len(),
        steps[k] == (if k < handshake_course(s).len() {
            HandshakeStep::Do(handshake_course(s)[k])
        } else {
            HandshakeStep::Done
        }),
{
    lemma_course(s, failed, states, steps, k);
    let h = states[k];
    if k > 0 {
        assert(steps[k - 1] == HandshakeStep::Do(handshake_course(s)[k - 1]));
    }
    lemma_course_goes_on(h, failed[k]);
}

/// A handshake fails with the first needed task that fails.
pub proof fn law_handshake_fails_with_a_needed_task(
    s: HandshakeSettings,
    failed: Seq<bool>,
    states: Seq<Handshake>,
    steps: Seq<HandshakeStep>,
    k: int,
)
    requires
        is_handshake(s, failed, states, steps),
        0 < k < steps.len(),
        forall|i: int|
            0 <= i < k - 1 && (#[trigger] steps[i] matches HandshakeStep::Do(t) && is_needed(t))
                ==> !failed[i + 1],
        steps[k - 1] matches HandshakeStep::Do(t) && is_needed(t),
        failed[k],
    ensures
        steps[k] == HandshakeStep::Fail,
{
    law_handshake_takes_its_course(s, failed, states, steps, k - 1);
    lemma_course(s, failed, states, steps, k - 1);
    let h = states[k - 1];
    if k - 1 > 0 {
        assert(steps[k - 2] == HandshakeStep::Do(handshake_course(s)[k - 2]));
    }
    lemma_course_goes_on(h, failed[k - 1]);
    assert(states[k].phase != HandshakePhase::Ended);
    lemma_course_goes_on(states[k], failed[k]);
}

spec fn is_before_start(t: HandshakeTask) -> bool {
    t != HandshakeTask::StartTcp && t != HandshakeTask::KeepForRestart && t
        != HandshakeTask::KeepForCalls && t != HandshakeTask::ShutDown
}

spec fn all_before_start(tasks: Seq<HandshakeTask>) -> bool {
    forall|i: int| 0 <= i < tasks.len() ==> is_before_start(#[trigger] tasks[i])
}

proof fn lemma_before_start(a: Seq<HandshakeTask>, b: Seq<HandshakeTask>)
    requires
        all_before_start(a),
        all_before_start(b),
    ensures
        all_before_start(a + b),
{
    assert forall|i: int| 0 <= i < (a + b).len() implies is_before_start(#[trigger] (a + b)[i]) by {
        if i < a.len() {
            assert((a + b)[i] == a[i]);
        } else {
            assert((a + b)[i] == b[i - a.len()]);
        }
    }
}

/// What comes before the proxy is started.
spec fn course_before_start(s: HandshakeSettings) -> Seq<HandshakeTask> {
    told_if(s.bt_poweroff, seq![HandshakeTask::PowerOn]) + told_if(
        !s.dongle_mode,
        seq![HandshakeTask::OpenHspSession, HandshakeTask::RegisterHsp],
    ) + seq![HandshakeTask::ConnectPhone, HandshakeTask::NotePhone, HandshakeTask::SendParams]
        + told_if(s.wildcard, seq![HandshakeTask::SaveKnown]) + told_if(
        s.stopped,
        seq![HandshakeTask::ClearStop],
    )
}

proof fn lemma_course_before_start(s: HandshakeSettings)
    ensures
        all_before_start(course_before_start(s)),
        course_before_start(s).contains(HandshakeTask::SendParams),
{
    let a = told_if(s.bt_poweroff, seq![HandshakeTask::PowerOn]);
    let b = told_if(
        !s.dongle_mode,
        seq![HandshakeTask::OpenHspSession, HandshakeTask::RegisterHsp],
    );
    let phone = seq![
        HandshakeTask::ConnectPhone,
        HandshakeTask::NotePhone,
        HandshakeTask::SendParams,
    ];
    let c = told_if(s.wildcard, seq![HandshakeTask::SaveKnown]);
    let d = told_if(s.stopped, seq![HandshakeTask::ClearStop]);
    lemma_before_start(a, b);
    lemma_before_start(a + b, phone);
    lemma_before_start(a + b + phone, c);
    lemma_before_start(a + b + phone + c, d);
    assert(course_before_start(s)[(a + b).len() as int + 2] == phone[2]);
}

proof fn lemma_course_parts(s: HandshakeSettings)
    ensures
        handshake_course(s) == course_before_start(s) + (seq![HandshakeTask::StartTcp]
            + course_behind_start(s)),
{
    assert(handshake_course(s) =~= course_before_start(s) + (seq![HandshakeTask::StartTcp]
        + course_behind_start(s)));
}

proof fn lemma_start_is_told_once(s: HandshakeSettings) -> (at: int)
    ensures
        0 < at < handshake_course(s).len(),
        forall|i: int|
            0 <= i < handshake_course(s).len() ==> (#[trigger] handshake_course(s)[i]
                == HandshakeTask::StartTcp <==> i == at),
        exists|i: int|
            0 <= i < at && #[trigger] handshake_course(s)[i] == HandshakeTask::SendParams,
        forall|i: int|
            0 <= i < handshake_course(s).len() ==> ((#[trigger] handshake_course(s)[i]
                == HandshakeTask::KeepForRestart || handshake_course(s)[i]
                == HandshakeTask::KeepForCalls || handshake_course(s)[i]
                == HandshakeTask::ShutDown) ==> i > at),
{
    lemma_course_parts(s);
    lemma_course_before_start(s);
    let pre = course_before_start(s);
    let post = course_behind_start(s);
    let all = handshake_course(s);
    let at = pre.len() as int;
    let p = choose|i: int| 0 <= i < pre.len() && pre[i] == HandshakeTask::SendParams;
    assert(all[p] == pre[p]);
    assert forall|i: int| 0 <= i < all.len() implies (#[trigger] all[i] == HandshakeTask::StartTcp
        <==> i == at) && ((all[i] == HandshakeTask::KeepForRestart || all[i]
        == HandshakeTask::KeepForCalls || all[i] == HandshakeTask::ShutDown) ==> i > at) by {
        if i < at {
            assert(all[i] == pre[i]);
            assert(is_before_start(pre[i]));
        } else if i > at {
            assert(all[i] == post[i - at - 1]);
            lemma_behind_start(s, i - at - 1);
        }
    }
    at
}

proof fn lemma_behind_start(s: HandshakeSettings, i: int)
    requires
        0 <= i < course_behind_start(s).len(),
    ensures
        course_behind_start(s)[i] != HandshakeTask::StartTcp,
{
}

/// A handshake that is done has started the proxy exactly once, behind the parameters
/// and before the connection was kept or closed.
pub proof fn law_handshake_starts_the_proxy_once(
    s: HandshakeSettings,
    failed: Seq<bool>,
    states: Seq<Handshake>,
    steps: Seq<HandshakeStep>,
) -> (at: int)
    requires
        is_handshake(s, failed, states, steps),
        steps.len() > 0 && steps.last() == HandshakeStep::Done,
        forall|i: int|
            0 <= i < steps.len() - 1 && (#[trigger] steps[i] matches HandshakeStep::Do(t)
                && is_needed(t)) ==> !failed[i + 1],
    ensures
        0 < at < steps.len(),
        forall|i: int|
            0 <= i < steps.len() ==> (#[trigger] steps[i] == HandshakeStep::Do(
                HandshakeTask::StartTcp,
            ) <==> i == at),
        exists|i: int|
            0 <= i < at && #[trigger] steps[i] == HandshakeStep::Do(HandshakeTask::SendParams),
        forall|i: int|
            0 <= i < steps.len() && (#[trigger] steps[i] == HandshakeStep::Do(
                HandshakeTask::KeepForRestart,
            ) || steps[i] == HandshakeStep::Do(HandshakeTask::KeepForCalls) || steps[i]
                == HandshakeStep::Do(HandshakeTask::ShutDown)) ==> i > at,
{
    let at = lemma_start_is_told_once(s);
    let all = handshake_course(s);
    assert forall|i: int| 0 <= i < steps.len() implies #[trigger] steps[i] == (if i < all.len() {
        HandshakeStep::Do(all[i])
    } else {
        HandshakeStep::Done
    }) by {
        law_handshake_takes_its_course(s, failed, states, steps, i);
    }
    law_handshake_takes_its_course(s, failed, states, steps, steps.len() - 1);
    let p = choose|i: int| 0 <= i < at && #[trigger] all[i] == HandshakeTask::SendParams;
    assert(steps[p] == HandshakeStep::Do(HandshakeTask::SendParams));
    at
}

/// The parameters are sent in the order that phones expect: where the proxy is, then,
/// once the phone has asked for it, the network; then the phone's two answers are read.
pub proof fn law_parameters_are_asked_for(stage: u8)
    ensures
        stage_at(stage) is Some <==> 1 <= stage <= 5,
        stage_at(stage) == Some(ParamsStage::SendStart) <==> stage == 1,
        stage_at(stage) == Some(ParamsStage::Read(ProxyMessageId::WifiInfoRequest)) <==> stage == 2,
        stage_at(stage) == Some(ParamsStage::SendInfo) <==> stage == 3,
        stage_at(stage) == Some(ParamsStage::Read(ProxyMessageId::WifiStartResponse)) <==> stage
            == 4,
        stage_at(stage) == Some(ParamsStage::Read(ProxyMessageId::WifiConnectStatus)) <==> stage
            == 5,
{
}

/// The phone is told the proxy's address and port and the proxy's network, each in a
/// message of its own, unless a text is too long for one.
pub proof fn law_phone_is_told_its_network(wifi: WifiConfig<Seq<char>>)
    ensures
        sent_message(ParamsStage::SendStart, wifi) matches Some(m) ==> m.0 == 1 && m.1
            == messages::string_field(1, wifi.ip_addr) + wire::int32_field(2, wifi.port),
        sent_message(ParamsStage::SendInfo, wifi) matches Some(m) ==> m.0 == 3 && m.1
            == messages::string_field(1, wifi.ssid) + messages::string_field(2, wifi.wpa_key)
            + messages::string_field(3, wifi.bssid) + wire::int32_field(4, 8)
            + wire::int32_field(5, 1),
        wifi_iface::byte_len(wifi.ip_addr) <= MAX_TEXT ==> sent_message(
            ParamsStage::SendStart,
            wifi,
        ) is Some,
        wifi_iface::byte_len(wifi.ssid) <= MAX_TEXT && wifi_iface::byte_len(wifi.wpa_key)
            <= MAX_TEXT && wifi_iface::byte_len(wifi.bssid) <= MAX_TEXT ==> sent_message(
            ParamsStage::SendInfo,
            wifi,
        ) is Some,
        forall|id: ProxyMessageId| #[trigger] sent_message(ParamsStage::Read(id), wifi) is None,
{
}

/// A status is a failure exactly if it is a connection status whose value is not zero.
pub proof fn law_status_tells_of_failure(payload: Seq<u8>)
    ensures
        payload.len() >= 2 ==> (is_wifi_failure(ProxyMessageId::WifiConnectStatus, payload)
            <==> payload[1] != 0),
        payload.len() < 2 ==> !is_wifi_failure(ProxyMessageId::WifiConnectStatus, payload),
        !is_wifi_failure(ProxyMessageId::WifiInfoRequest, payload),
        !is_wifi_failure(ProxyMessageId::WifiStartResponse, payload),
{
}

} // verus!
