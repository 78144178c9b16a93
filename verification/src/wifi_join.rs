//! Joining the car's Wi-Fi network, step by step.

use crate::task;
use crate::task::Outcome;
use crate::task::OutcomeModel;
use crate::task::Step;
use crate::task::StepModel;
use crate::task::Task;
use crate::task::TaskOutcome;
use crate::task::WifiStep;
use crate::text;
use crate::wifi_text;
use crate::wifi_text::CarWifiInfo;
use crate::wifi_text::WifiInfo;
use vstd::prelude::*;
use vstd::string::StringExecFns;

verus! {

pub open spec fn stop_supplicant_command() -> Seq<char> {
    "pidof wpa_supplicant >/dev/null 2>&1 && killall wpa_supplicant 2>/dev/null || true"@
}

/// Stops any `wpa_supplicant` that runs; the label says why.
pub open spec fn stop_supplicant(label: Seq<char>) -> StepModel {
    Step::Do(Task::Shell { label, command: stop_supplicant_command(), secs: 5 })
}

pub fn stop_wpa_supplicant_for_wifi(reason: &str) -> (r: WifiStep)
    ensures
        r@ == stop_supplicant(reason@),
{
    Step::Do(
        task::shell(
            reason,
            "pidof wpa_supplicant >/dev/null 2>&1 && killall wpa_supplicant 2>/dev/null || true",
            5,
        ),
    )
}

// ---------------------------------------------------------------------
// Replies of the control socket

/// What a command on the control socket gave: replying `FAIL` is failing too.
pub open spec fn ctrl_reply(command: Seq<char>, o: OutcomeModel) -> Result<Seq<char>, Seq<char>> {
    match o {
        Outcome::Failed(e) => Err(
            "wpactrl command "@ + text::str_debug_text(command) + " failed: "@ + e,
        ),
        _ => {
            let reply = match task::found(o) {
                Some(t) => t,
                None => Seq::empty(),
            };
            if wifi_text::is_fail(text::trimmed(reply)) {
                Err("wpactrl command "@ + text::str_debug_text(command) + " returned FAIL"@)
            } else {
                Ok(reply)
            }
        },
    }
}

pub fn wpactrl_cmd(command: &str, o: TaskOutcome) -> (r: Result<String, String>)
    ensures
        match r {
            Ok(reply) => ctrl_reply(command@, o@) == Ok::<Seq<char>, Seq<char>>(reply@),
            Err(e) => ctrl_reply(command@, o@) == Err::<Seq<char>, Seq<char>>(e@),
        },
{
    match o {
        Outcome::Failed(e) => {
            let shown = text::debug_text(command);
            Err(text::cat4("wpactrl command ", shown.as_str(), " failed: ", e.as_str()))
        },
        _ => {
            let reply = match o.text() {
                Some(t) => t,
                None => String::new(),
            };
            if text::eq_ignore_ascii_case(text::trim(reply.as_str()), "FAIL") {
                let shown = text::debug_text(command);
                Err(text::cat3("wpactrl command ", shown.as_str(), " returned FAIL"))
            } else {
                Ok(reply)
            }
        },
    }
}

/// The network id in a reply: its last line.
pub open spec fn network_id(reply: Seq<char>) -> Seq<char> {
    let lines = text::lines_of(reply);
    text::trimmed(
        if lines.len() > 0 {
            lines.last()
        } else {
            reply
        },
    )
}

pub open spec fn is_network_id(id: Seq<char>) -> bool {
    id.len() > 0 && !wifi_text::is_fail(id)
}

pub fn read_network_id(reply: &str) -> (r: String)
    ensures
        r@ == network_id(reply@),
{
    let lines = text::lines(reply);
    if lines.len() > 0 {
        assert(lines.deep_view().last() == lines@[lines@.len() - 1]@);
        text::trim(lines[lines.len() - 1].as_str()).to_owned()
    } else {
        text::trim(reply).to_owned()
    }
}

fn check_network_id(id: &str) -> (r: bool)
    ensures
        r == is_network_id(id@),
{
    !id.is_empty() && !text::eq_ignore_ascii_case(id, "FAIL")
}

// ---------------------------------------------------------------------
// What is told to the supplicant about a network

/// A command of a plan; the plan goes on without those that are not required.
pub struct PlanStep<C> {
    pub command: C,
    pub required: bool,
}

impl DeepView for PlanStep<String> {
    type V = PlanStep<Seq<char>>;

    open spec fn deep_view(&self) -> PlanStep<Seq<char>> {
        PlanStep { command: self.command@, required: self.required }
    }
}

impl DeepView for PlanStep<Vec<String>> {
    type V = PlanStep<Seq<Seq<char>>>;

    open spec fn deep_view(&self) -> PlanStep<Seq<Seq<char>>> {
        PlanStep { command: self.command.deep_view(), required: self.required }
    }
}

pub open spec fn must<C>(command: C) -> PlanStep<C> {
    PlanStep { command, required: true }
}

pub open spec fn may<C>(command: C) -> PlanStep<C> {
    PlanStep { command, required: false }
}

pub open spec fn set_network(id: Seq<char>, key: Seq<char>, value: Seq<char>) -> Seq<char> {
    "SET_NETWORK "@ + id + key + value
}

/// The commands by which a new network is set up and chosen.
pub open spec fn ctrl_plan(id: Seq<char>, info: WifiInfo<Seq<char>>) -> Seq<PlanStep<Seq<char>>> {
    let bssid = text::trimmed(info.bssid);
    let ssid = seq![must(set_network(id, " ssid "@, wifi_text::wpa_quoted(info.ssid)))];
    let pinned = if bssid.len() > 0 {
        ssid.push(may(set_network(id, " bssid "@, bssid)))
    } else {
        ssid
    };
    let secured = if wifi_text::joins_open(info) {
        pinned.push(must(set_network(id, " key_mgmt "@, "NONE"@)))
    } else {
        pinned.push(must(set_network(id, " key_mgmt "@, "WPA-PSK"@))).push(
            must(set_network(id, " psk "@, wifi_text::wpa_quoted(info.key))),
        )
    };
    secured.push(must("ENABLE_NETWORK "@ + id)).push(must("SELECT_NETWORK "@ + id)).push(
        may("RECONNECT"@),
    )
}

fn push_step(plan: &mut Vec<PlanStep<String>>, command: String, required: bool)
    ensures
        final(plan).deep_view() == old(plan).deep_view().push(
            PlanStep { command: command@, required },
        ),
{
    let ghost before = plan.deep_view();
    plan.push(PlanStep { command, required });
    assert(plan.deep_view() =~= before.push(PlanStep { command: command@, required }));
}

pub fn wpactrl_plan(id: &str, info: &CarWifiInfo) -> (r: Vec<PlanStep<String>>)
    ensures
        r.deep_view() == ctrl_plan(id@, info@),
{
    let mut plan: Vec<PlanStep<String>> = Vec::new();
    let ssid = wifi_text::wpa_quote(info.ssid.as_str());
    push_step(&mut plan, text::cat4("SET_NETWORK ", id, " ssid ", ssid.as_str()), true);
    assert(plan.deep_view() =~= seq![
        must(set_network(id@, " ssid "@, wifi_text::wpa_quoted(info@.ssid))),
    ]);
    let bssid = text::trim(info.bssid.as_str());
    if !bssid.is_empty() {
        push_step(&mut plan, text::cat4("SET_NETWORK ", id, " bssid ", bssid), false);
    }
    if info.joins_as_open() {
        push_step(&mut plan, text::cat4("SET_NETWORK ", id, " key_mgmt ", "NONE"), true);
    } else {
        push_step(&mut plan, text::cat4("SET_NETWORK ", id, " key_mgmt ", "WPA-PSK"), true);
        let key = wifi_text::wpa_quote(info.key.as_str());
        push_step(&mut plan, text::cat4("SET_NETWORK ", id, " psk ", key.as_str()), true);
    }
    push_step(&mut plan, text::cat2("ENABLE_NETWORK ", id), true);
    push_step(&mut plan, text::cat2("SELECT_NETWORK ", id), true);
    push_step(&mut plan, "RECONNECT".to_owned(), false);
    plan
}

/// The same by `wpa_cli`, which takes each command as arguments.
pub open spec fn cli_plan(id: Seq<char>, info: WifiInfo<Seq<char>>) -> Seq<
    PlanStep<Seq<Seq<char>>>,
> {
    let bssid = text::trimmed(info.bssid);
    let ssid = seq![
        must(seq!["set_network"@, id, "ssid"@, wifi_text::wpa_quoted(info.ssid)]),
    ];
    let pinned = if bssid.len() > 0 {
        ssid.push(may(seq!["set_network"@, id, "bssid"@, bssid]))
    } else {
        ssid
    };
    let secured = if wifi_text::joins_open(info) {
        pinned.push(must(seq!["set_network"@, id, "key_mgmt"@, "NONE"@]))
    } else {
        pinned.push(must(seq!["set_network"@, id, "psk"@, wifi_text::wpa_quoted(info.key)]))
    };
    secured.push(must(seq!["enable_network"@, id])).push(must(seq!["select_network"@, id])).push(
        may(seq!["reassociate"@]),
    ).push(may(seq!["save_config"@]))
}

fn args1(a: &str) -> (r: Vec<String>)
    ensures
        r.deep_view() == seq![a@],
{
    let mut out: Vec<String> = Vec::new();
    text::push_text(&mut out, a);
    assert(out.deep_view() =~= seq![a@]);
    out
}

fn args2(a: &str, b: &str) -> (r: Vec<String>)
    ensures
        r.deep_view() == seq![a@, b@],
{
    let mut out = args1(a);
    text::push_text(&mut out, b);
    assert(out.deep_view() =~= seq![a@, b@]);
    out
}

fn args4(a: &str, b: &str, c: &str, d: &str) -> (r: Vec<String>)
    ensures
        r.deep_view() == seq![a@, b@, c@, d@],
{
    let mut out = args2(a, b);
    text::push_text(&mut out, c);
    text::push_text(&mut out, d);
    assert(out.deep_view() =~= seq![a@, b@, c@, d@]);
    out
}

fn push_args(plan: &mut Vec<PlanStep<Vec<String>>>, command: Vec<String>, required: bool)
    ensures
        final(plan).deep_view() == old(plan).deep_view().push(
            PlanStep { command: command.deep_view(), required },
        ),
{
    let ghost before = plan.deep_view();
    plan.push(PlanStep { command, required });
    assert(plan.deep_view() =~= before.push(PlanStep { command: command.deep_view(), required }));
}

pub fn wpa_cli_plan(id: &str, info: &CarWifiInfo) -> (r: Vec<PlanStep<Vec<String>>>)
    ensures
        r.deep_view() == cli_plan(id@, info@),
{
    let mut plan: Vec<PlanStep<Vec<String>>> = Vec::new();
    let ssid = wifi_text::wpa_quote(info.ssid.as_str());
    push_args(&mut plan, args4("set_network", id, "ssid", ssid.as_str()), true);
    assert(plan.deep_view() =~= seq![
        must(seq!["set_network"@, id@, "ssid"@, wifi_text::wpa_quoted(info@.ssid)]),
    ]);
    let bssid = text::trim(info.bssid.as_str());
    if !bssid.is_empty() {
        push_args(&mut plan, args4("set_network", id, "bssid", bssid), false);
    }
    if info.joins_as_open() {
        push_args(&mut plan, args4("set_network", id, "key_mgmt", "NONE"), true);
    } else {
        let key = wifi_text::wpa_quote(info.key.as_str());
        push_args(&mut plan, args4("set_network", id, "psk", key.as_str()), true);
    }
    push_args(&mut plan, args2("enable_network", id), true);
    push_args(&mut plan, args2("select_network", id), true);
    push_args(&mut plan, args1("reassociate"), false);
    push_args(&mut plan, args1("save_config"), false);
    plan
}

/// A secured network is never set up without its key.
pub proof fn law_plans_secure_what_is_secured(id: Seq<char>, info: WifiInfo<Seq<char>>)
    ensures
        ctrl_plan(id, info).contains(
            must(set_network(id, " psk "@, wifi_text::wpa_quoted(info.key))),
        ) || wifi_text::joins_open(info),
        cli_plan(id, info).contains(
            must(seq!["set_network"@, id, "psk"@, wifi_text::wpa_quoted(info.key)]),
        ) || wifi_text::joins_open(info),
{
    if !wifi_text::joins_open(info) {
        let n = if text::trimmed(info.bssid).len() > 0 {
            2int
        } else {
            1int
        };
        assert(ctrl_plan(id, info)[n + 1] == must(
            set_network(id, " psk "@, wifi_text::wpa_quoted(info.key)),
        ));
        assert(cli_plan(id, info)[n] == must(
            seq!["set_network"@, id, "psk"@, wifi_text::wpa_quoted(info.key)],
        ));
    }
}


// ---------------------------------------------------------------------
// Joining by `wpa_supplicant` alone

#[derive(Clone, Copy, PartialEq, Eq, Structural)]
pub enum LostIface {
    DuringWait(u32),
    BeforeDhcp,
    DuringDhcp,
}

/// What a join by `wpa_supplicant` waits for.
#[derive(Clone, Copy, PartialEq, Eq, Structural)]
pub enum SupplicantPhase {
    Begin,
    Available,
    Stopped,
    Written,
    Started,
    StoppedAgain,
    WrittenAgain,
    StartedAgain,
    Present(u32),
    Associated(u32),
    Linked(u32),
    Paused(u32),
    PresentBeforeDhcp,
    Leased,
    PresentAfterDhcp,
    Lost(LostIface),
    Ended,
}

/// How often the association is looked for before DHCP is tried anyway.
pub const ASSOCIATION_CHECKS: u32 = 20;

pub struct SupplicantJoin<T> {
    pub iface: T,
    pub info: WifiInfo<T>,
    pub phase: SupplicantPhase,
    pub first_error: T,
}

impl View for SupplicantJoin<String> {
    type V = SupplicantJoin<Seq<char>>;

    open spec fn view(&self) -> SupplicantJoin<Seq<char>> {
        SupplicantJoin {
            iface: self.iface@,
            info: self.info@,
            phase: self.phase,
            first_error: self.first_error@,
        }
    }
}

pub open spec fn lost_text(iface: Seq<char>, lost: LostIface) -> Seq<char> {
    match lost {
        LostIface::DuringWait(n) => "wpa_supplicant started but iface "@ + iface
            + " disappeared before association wait attempt "@ + text::decimal(n as nat),
        LostIface::BeforeDhcp => "wpa_supplicant started but iface "@ + iface
            + " disappeared before DHCP"@,
        LostIface::DuringDhcp => "iface "@ + iface + " disappeared while/after running DHCP"@,
    }
}

pub open spec fn pinned_conf(m: SupplicantJoin<Seq<char>>) -> Seq<char> {
    wifi_text::conf_path("/tmp/aa-proxy-car-wifi-"@, m.iface, ".conf"@)
}

pub open spec fn free_conf(m: SupplicantJoin<Seq<char>>) -> Seq<char> {
    wifi_text::conf_path("/tmp/aa-proxy-car-wifi-"@, m.iface, "-nobssid.conf"@)
}

pub open spec fn sj(m: SupplicantJoin<Seq<char>>, phase: SupplicantPhase, step: StepModel) -> (
    SupplicantJoin<Seq<char>>,
    StepModel,
) {
    (SupplicantJoin { phase, ..m }, step)
}

pub open spec fn sj_fail(m: SupplicantJoin<Seq<char>>, error: Seq<char>) -> (
    SupplicantJoin<Seq<char>>,
    StepModel,
) {
    sj(m, SupplicantPhase::Ended, Step::Fail(error))
}

pub open spec fn sj_present(m: SupplicantJoin<Seq<char>>, phase: SupplicantPhase) -> (
    SupplicantJoin<Seq<char>>,
    StepModel,
) {
    sj(m, phase, Step::Do(Task::IfaceExists { iface: m.iface }))
}

/// One step of the join: the network is pinned to its BSSID first, and tried
/// without it if the supplicant does not start; then the association is
/// waited for, and an address is asked for in any case.
pub open spec fn supplicant_step(m: SupplicantJoin<Seq<char>>, o: OutcomeModel) -> (
    SupplicantJoin<Seq<char>>,
    StepModel,
) {
    let ssid = text::trimmed(m.info.ssid);
    match m.phase {
        SupplicantPhase::Begin => if m.iface.len() == 0 {
            sj_fail(m, "wpa_supplicant auto join needs a non-empty interface"@)
        } else {
            sj(
                m,
                SupplicantPhase::Available,
                Step::Do(Task::CommandAvailable { binary: "wpa_supplicant"@ }),
            )
        },
        SupplicantPhase::Available => if task::is_yes(o) {
            sj(m, SupplicantPhase::Stopped, stop_supplicant("stop old iface wpa_supplicant"@))
        } else {
            sj_fail(m, "wpa_supplicant auto join needs wpa_supplicant binary"@)
        },
        SupplicantPhase::Stopped => sj(
            m,
            SupplicantPhase::Written,
            Step::Do(
                Task::WriteFile {
                    path: pinned_conf(m),
                    contents: wifi_text::supplicant_config(m.info, true),
                },
            ),
        ),
        SupplicantPhase::Written => match task::error_of(o) {
            Some(e) => sj_fail(m, e),
            None => sj(
                m,
                SupplicantPhase::Started,
                Step::Do(
                    Task::StartSupplicant {
                        iface: m.iface,
                        conf_path: pinned_conf(m),
                        ctrl: false,
                    },
                ),
            ),
        },
        SupplicantPhase::Started => match task::error_of(o) {
            Some(e) => if text::trimmed(m.info.bssid).len() == 0 {
                sj_fail(m, "wpa_supplicant: "@ + e)
            } else {
                sj(
                    SupplicantJoin { first_error: e, ..m },
                    SupplicantPhase::StoppedAgain,
                    stop_supplicant("stop failed bssid-pinned wpa_supplicant"@),
                )
            },
            None => sj_present(m, SupplicantPhase::Present(1)),
        },
        SupplicantPhase::StoppedAgain => sj(
            m,
            SupplicantPhase::WrittenAgain,
            Step::Do(
                Task::WriteFile {
                    path: free_conf(m),
                    contents: wifi_text::supplicant_config(m.info, false),
                },
            ),
        ),
        SupplicantPhase::WrittenAgain => match task::error_of(o) {
            Some(e) => sj_fail(m, e),
            None => sj(
                m,
                SupplicantPhase::StartedAgain,
                Step::Do(
                    Task::StartSupplicant { iface: m.iface, conf_path: free_conf(m), ctrl: false },
                ),
            ),
        },
        SupplicantPhase::StartedAgain => match task::error_of(o) {
            Some(e) => sj_fail(
                m,
                "wpa_supplicant failed with bssid pinned and without bssid; first="@
                    + m.first_error + " second="@ + e,
            ),
            None => sj_present(m, SupplicantPhase::Present(1)),
        },
        SupplicantPhase::Present(n) => if task::is_yes(o) {
            sj(
                m,
                SupplicantPhase::Associated(n),
                Step::Do(Task::CurrentSsid { iface: m.iface }),
            )
        } else {
            sj(
                m,
                SupplicantPhase::Lost(LostIface::DuringWait(n)),
                stop_supplicant(
                    "stop wpa_supplicant after iface disappeared during association wait"@,
                ),
            )
        },
        SupplicantPhase::Associated(n) => if ssid.len() == 0 || task::found(o) == Some(ssid) {
            sj_present(m, SupplicantPhase::PresentBeforeDhcp)
        } else {
            sj(m, SupplicantPhase::Linked(n), Step::Do(Task::LinkConnected { iface: m.iface }))
        },
        SupplicantPhase::Linked(n) => if task::is_yes(o) {
            sj_present(m, SupplicantPhase::PresentBeforeDhcp)
        } else {
            sj(m, SupplicantPhase::Paused(n), Step::Do(Task::Sleep { ms: 250 }))
        },
        SupplicantPhase::Paused(n) => if n < ASSOCIATION_CHECKS {
            sj_present(m, SupplicantPhase::Present((n + 1) as u32))
        } else {
            sj_present(m, SupplicantPhase::PresentBeforeDhcp)
        },
        SupplicantPhase::PresentBeforeDhcp => if task::is_yes(o) {
            sj(
                m,
                SupplicantPhase::Leased,
                Step::Do(
                    Task::Udhcpc { iface: m.iface, reason: "after wpa_supplicant start"@ },
                ),
            )
        } else {
            sj(
                m,
                SupplicantPhase::Lost(LostIface::BeforeDhcp),
                stop_supplicant("stop wpa_supplicant after iface disappeared before DHCP"@),
            )
        },
        SupplicantPhase::Leased => if task::is_yes(o) {
            sj(m, SupplicantPhase::Ended, Step::Succeed(m.iface))
        } else {
            sj_present(m, SupplicantPhase::PresentAfterDhcp)
        },
        SupplicantPhase::PresentAfterDhcp => if task::is_yes(o) {
            sj_fail(m, "udhcpc did not return success on iface "@ + m.iface)
        } else {
            sj(
                m,
                SupplicantPhase::Lost(LostIface::DuringDhcp),
                stop_supplicant("stop wpa_supplicant after iface disappeared during DHCP"@),
            )
        },
        SupplicantPhase::Lost(lost) => sj_fail(m, lost_text(m.iface, lost)),
        SupplicantPhase::Ended => (m, Step::Fail(Seq::empty())),
    }
}

fn exists_step(iface: &str) -> (r: WifiStep)
    ensures
        r@ == (Step::<Seq<char>, Seq<Seq<char>>>::Do(Task::IfaceExists { iface: iface@ })),
{
    Step::Do(task::iface_exists(iface))
}

impl SupplicantJoin<String> {
    pub fn new(iface: &str, info: CarWifiInfo) -> (r: Self)
        ensures
            r@ == (SupplicantJoin::<Seq<char>> {
                iface: text::trimmed(iface@),
                info: info@,
                phase: SupplicantPhase::Begin,
                first_error: Seq::empty(),
            }),
    {
        SupplicantJoin {
            iface: text::trim(iface).to_owned(),
            info,
            phase: SupplicantPhase::Begin,
            first_error: String::new(),
        }
    }

    /// Takes what came of the last task and tells the next one. The first call
    /// takes any outcome.
    pub fn step(&mut self, o: TaskOutcome) -> (r: WifiStep)
        requires
            old(self).phase != SupplicantPhase::Ended,
        ensures
            (final(self)@, r@) == supplicant_step(old(self)@, o@),
    {
        match self.phase {
            SupplicantPhase::Begin => {
                if self.iface.as_str().is_empty() {
                    self.phase = SupplicantPhase::Ended;
                    task::fail("wpa_supplicant auto join needs a non-empty interface")
                } else {
                    self.phase = SupplicantPhase::Available;
                    Step::Do(task::command_available("wpa_supplicant"))
                }
            },
            SupplicantPhase::Available => {
                if o.yes() {
                    self.phase = SupplicantPhase::Stopped;
                    stop_wpa_supplicant_for_wifi("stop old iface wpa_supplicant")
                } else {
                    self.phase = SupplicantPhase::Ended;
                    task::fail("wpa_supplicant auto join needs wpa_supplicant binary")
                }
            },
            SupplicantPhase::Stopped => {
                self.phase = SupplicantPhase::Written;
                let path = wifi_text::config_path(
                    "/tmp/aa-proxy-car-wifi-",
                    self.iface.as_str(),
                    ".conf",
                );
                let contents = wifi_text::wpa_supplicant_config(&self.info, true);
                Step::Do(task::write_file(path.as_str(), contents.as_str()))
            },
            SupplicantPhase::Written => {
                match o.error() {
                    Some(e) => {
                        self.phase = SupplicantPhase::Ended;
                        Step::Fail(e)
                    },
                    None => {
                        self.phase = SupplicantPhase::Started;
                        let path = wifi_text::config_path(
                            "/tmp/aa-proxy-car-wifi-",
                            self.iface.as_str(),
                            ".conf",
                        );
                        Step::Do(
                            task::start_supplicant(self.iface.as_str(), path.as_str(), false),
                        )
                    },
                }
            },
            SupplicantPhase::Started => {
                match o.error() {
                    Some(e) => {
                        if text::trim(self.info.bssid.as_str()).is_empty() {
                            self.phase = SupplicantPhase::Ended;
                            task::fail_with("wpa_supplicant: ", e.as_str())
                        } else {
                            self.first_error = e;
                            self.phase = SupplicantPhase::StoppedAgain;
                            stop_wpa_supplicant_for_wifi("stop failed bssid-pinned wpa_supplicant")
                        }
                    },
                    None => {
                        self.phase = SupplicantPhase::Present(1);
                        exists_step(self.iface.as_str())
                    },
                }
            },
            SupplicantPhase::StoppedAgain => {
                self.phase = SupplicantPhase::WrittenAgain;
                let path = wifi_text::config_path(
                    "/tmp/aa-proxy-car-wifi-",
                    self.iface.as_str(),
                    "-nobssid.conf",
                );
                let contents = wifi_text::wpa_supplicant_config(&self.info, false);
                Step::Do(task::write_file(path.as_str(), contents.as_str()))
            },
            SupplicantPhase::WrittenAgain => {
                match o.error() {
                    Some(e) => {
                        self.phase = SupplicantPhase::Ended;
                        Step::Fail(e)
                    },
                    None => {
                        self.phase = SupplicantPhase::StartedAgain;
                        let path = wifi_text::config_path(
                            "/tmp/aa-proxy-car-wifi-",
                            self.iface.as_str(),
                            "-nobssid.conf",
                        );
                        Step::Do(
                            task::start_supplicant(self.iface.as_str(), path.as_str(), false),
                        )
                    },
                }
            },
            SupplicantPhase::StartedAgain => {
                match o.error() {
                    Some(e) => {
                        self.phase = SupplicantPhase::Ended;
                        Step::Fail(
                            text::cat4(
                                "wpa_supplicant failed with bssid pinned and without bssid; first=",
                                self.first_error.as_str(),
                                " second=",
                                e.as_str(),
                            ),
                        )
                    },
                    None => {
                        self.phase = SupplicantPhase::Present(1);
                        exists_step(self.iface.as_str())
                    },
                }
            },
            SupplicantPhase::Present(n) => {
                if o.yes() {
                    self.phase = SupplicantPhase::Associated(n);
                    Step::Do(task::current_ssid(self.iface.as_str()))
                } else {
                    self.phase = SupplicantPhase::Lost(LostIface::DuringWait(n));
                    stop_wpa_supplicant_for_wifi(
                        "stop wpa_supplicant after iface disappeared during association wait",
                    )
                }
            },
            SupplicantPhase::Associated(n) => {
                let ssid = text::trim(self.info.ssid.as_str());
                let associated = ssid.is_empty() || (match o.text() {
                    Some(current) => text::same(current.as_str(), ssid),
                    None => false,
                });
                if associated {
                    self.phase = SupplicantPhase::PresentBeforeDhcp;
                    exists_step(self.iface.as_str())
                } else {
                    self.phase = SupplicantPhase::Linked(n);
                    Step::Do(task::link_connected(self.iface.as_str()))
                }
            },
            SupplicantPhase::Linked(n) => {
                if o.yes() {
                    self.phase = SupplicantPhase::PresentBeforeDhcp;
                    exists_step(self.iface.as_str())
                } else {
                    self.phase = SupplicantPhase::Paused(n);
                    Step::Do(task::sleep(250))
                }
            },
            SupplicantPhase::Paused(n) => {
                if n < ASSOCIATION_CHECKS {
                    self.phase = SupplicantPhase::Present(n + 1);
                } else {
                    self.phase = SupplicantPhase::PresentBeforeDhcp;
                }
                exists_step(self.iface.as_str())
            },
            SupplicantPhase::PresentBeforeDhcp => {
                if o.yes() {
                    self.phase = SupplicantPhase::Leased;
                    Step::Do(task::udhcpc(self.iface.as_str(), "after wpa_supplicant start"))
                } else {
                    self.phase = SupplicantPhase::Lost(LostIface::BeforeDhcp);
                    stop_wpa_supplicant_for_wifi(
                        "stop wpa_supplicant after iface disappeared before DHCP",
                    )
                }
            },
            SupplicantPhase::Leased => {
                if o.yes() {
                    self.phase = SupplicantPhase::Ended;
                    task::succeed(self.iface.as_str())
                } else {
                    self.phase = SupplicantPhase::PresentAfterDhcp;
                    exists_step(self.iface.as_str())
                }
            },
            SupplicantPhase::PresentAfterDhcp => {
                if o.yes() {
                    self.phase = SupplicantPhase::Ended;
                    task::fail_with(
                        "udhcpc did not return success on iface ",
                        self.iface.as_str(),
                    )
                } else {
                    self.phase = SupplicantPhase::Lost(LostIface::DuringDhcp);
                    stop_wpa_supplicant_for_wifi(
                        "stop wpa_supplicant after iface disappeared during DHCP",
                    )
                }
            },
            SupplicantPhase::Lost(lost) => {
                self.phase = SupplicantPhase::Ended;
                Step::Fail(lost_error(self.iface.as_str(), lost))
            },
            SupplicantPhase::Ended => vstd::pervasive::unreached(),
        }
    }
}

fn lost_error(iface: &str, lost: LostIface) -> (r: String)
    ensures
        r@ == lost_text(iface@, lost),
{
    match lost {
        LostIface::DuringWait(n) => {
            let attempt = text::decimal_text(n as u64);
            text::cat4(
                "wpa_supplicant started but iface ",
                iface,
                " disappeared before association wait attempt ",
                attempt.as_str(),
            )
        },
        LostIface::BeforeDhcp => text::cat3(
            "wpa_supplicant started but iface ",
            iface,
            " disappeared before DHCP",
        ),
        LostIface::DuringDhcp => text::cat3(
            "iface ",
            iface,
            " disappeared while/after running DHCP",
        ),
    }
}

/// How far a join by `wpa_supplicant` still is from its end, at most.
pub open spec fn supplicant_rank(phase: SupplicantPhase) -> int {
    match phase {
        SupplicantPhase::Begin => 100,
        SupplicantPhase::Available => 99,
        SupplicantPhase::Stopped => 98,
        SupplicantPhase::Written => 97,
        SupplicantPhase::Started => 96,
        SupplicantPhase::StoppedAgain => 95,
        SupplicantPhase::WrittenAgain => 94,
        SupplicantPhase::StartedAgain => 93,
        SupplicantPhase::Present(n) => 12 + 4 * (ASSOCIATION_CHECKS - n),
        SupplicantPhase::Associated(n) => 11 + 4 * (ASSOCIATION_CHECKS - n),
        SupplicantPhase::Linked(n) => 10 + 4 * (ASSOCIATION_CHECKS - n),
        SupplicantPhase::Paused(n) => 9 + 4 * (ASSOCIATION_CHECKS - n),
        SupplicantPhase::PresentBeforeDhcp => 5,
        SupplicantPhase::Leased => 4,
        SupplicantPhase::PresentAfterDhcp => 3,
        SupplicantPhase::Lost(_) => 2,
        SupplicantPhase::Ended => 0,
    }
}

pub open spec fn supplicant_wf(phase: SupplicantPhase) -> bool {
    match phase {
        SupplicantPhase::Present(n) => n <= ASSOCIATION_CHECKS,
        SupplicantPhase::Associated(n) => n <= ASSOCIATION_CHECKS,
        SupplicantPhase::Linked(n) => n <= ASSOCIATION_CHECKS,
        SupplicantPhase::Paused(n) => n <= ASSOCIATION_CHECKS,
        _ => true,
    }
}

/// A join by `wpa_supplicant` ends after at most a hundred steps, whatever the
/// outcomes are, and succeeds only with a lease.
pub proof fn law_supplicant_join_ends(m: SupplicantJoin<Seq<char>>, o: OutcomeModel)
    requires
        supplicant_wf(m.phase),
        m.phase != SupplicantPhase::Ended,
    ensures
        supplicant_wf(supplicant_step(m, o).0.phase),
        0 <= supplicant_rank(supplicant_step(m, o).0.phase) < supplicant_rank(m.phase) <= 100,
        supplicant_step(m, o).1 is Do <==> supplicant_step(m, o).0.phase != SupplicantPhase::Ended,
        supplicant_step(m, o).1 is Succeed ==> m.phase == SupplicantPhase::Leased && task::is_yes(o),
{
}

// ---------------------------------------------------------------------
// Joining by the control socket

#[derive(Clone, Copy, PartialEq, Eq, Structural)]
pub enum CtrlPhase {
    Begin,
    Available,
    Written,
    DirsMade,
    Stopped,
    Cleared,
    Started,
    Socket,
    Opened,
    Pinged,
    Disconnected,
    Removed,
    Added,
    Plan(usize),
    Leased,
    CleanedUp,
    SocketsRemoved,
    Ended,
}

pub struct CtrlJoin<T, P> {
    pub iface: T,
    pub info: WifiInfo<T>,
    pub phase: CtrlPhase,
    pub path: T,
    pub plan: P,
    pub error: T,
}

pub type WpactrlJoin = CtrlJoin<String, Vec<PlanStep<String>>>;

pub type CtrlModel = CtrlJoin<Seq<char>, Seq<PlanStep<Seq<char>>>>;

impl View for CtrlJoin<String, Vec<PlanStep<String>>> {
    type V = CtrlJoin<Seq<char>, Seq<PlanStep<Seq<char>>>>;

    open spec fn view(&self) -> CtrlJoin<Seq<char>, Seq<PlanStep<Seq<char>>>> {
        CtrlJoin {
            iface: self.iface@,
            info: self.info@,
            phase: self.phase,
            path: self.path@,
            plan: self.plan.deep_view(),
            error: self.error@,
        }
    }
}

pub open spec fn cj(m: CtrlModel, phase: CtrlPhase, step: StepModel) -> (CtrlModel, StepModel) {
    (CtrlJoin { phase, ..m }, step)
}

pub open spec fn cj_command(m: CtrlModel, phase: CtrlPhase, command: Seq<char>) -> (
    CtrlModel,
    StepModel,
) {
    cj(m, phase, Step::Do(Task::CtrlCommand { command }))
}

/// The supplicant is stopped and its sockets are removed before the join fails.
pub open spec fn cj_clean_up(m: CtrlModel, error: Seq<char>) -> (CtrlModel, StepModel) {
    (
        CtrlJoin { phase: CtrlPhase::CleanedUp, error, ..m },
        Step::Do(
            Task::Shell {
                label: "cleanup wpactrl wpa_supplicant"@,
                command: "killall wpa_supplicant 2>/dev/null || true"@,
                secs: 5,
            },
        ),
    )
}

pub open spec fn cj_plan(m: CtrlModel, i: int) -> (CtrlModel, StepModel) {
    if 0 <= i < m.plan.len() {
        cj_command(m, CtrlPhase::Plan(i as usize), m.plan[i].command)
    } else {
        cj(
            m,
            CtrlPhase::Leased,
            Step::Do(
                Task::Udhcpc { iface: m.iface, reason: "after wpactrl network selection"@ },
            ),
        )
    }
}

pub open spec fn ctrl_conf(m: CtrlModel) -> Seq<char> {
    wifi_text::conf_path("/tmp/aa-proxy-car-wifi-"@, m.iface, "-wpactrl.conf"@)
}

pub open spec fn is_pong(reply: Seq<char>) -> bool {
    text::lower(text::trimmed(reply)) == text::lower("PONG"@)
}

pub open spec fn or_empty(t: Option<Seq<char>>) -> Seq<char> {
    match t {
        Some(s) => s,
        None => Seq::empty(),
    }
}

/// One step of a join by the control socket: a fresh supplicant is started, its
/// socket is opened, and a new network is set up by commands.
pub open spec fn ctrl_step(m: CtrlModel, o: OutcomeModel) -> (CtrlModel, StepModel) {
    match m.phase {
        CtrlPhase::Begin => if m.iface.len() == 0 {
            cj(
                m,
                CtrlPhase::Ended,
                Step::Fail("wpactrl auto join needs a non-empty interface"@),
            )
        } else {
            cj(
                m,
                CtrlPhase::Available,
                Step::Do(Task::CommandAvailable { binary: "wpa_supplicant"@ }),
            )
        },
        CtrlPhase::Available => if task::is_yes(o) {
            cj(
                m,
                CtrlPhase::Written,
                Step::Do(
                    Task::WriteFile {
                        path: ctrl_conf(m),
                        contents: wifi_text::supplicant_config(m.info, false),
                    },
                ),
            )
        } else {
            cj(
                m,
                CtrlPhase::Ended,
                Step::Fail("wpactrl auto join needs wpa_supplicant binary"@),
            )
        },
        CtrlPhase::Written => match task::error_of(o) {
            Some(e) => cj(m, CtrlPhase::Ended, Step::Fail(e)),
            None => cj(m, CtrlPhase::DirsMade, Step::Do(Task::MakeCtrlDirs)),
        },
        CtrlPhase::DirsMade => cj(
            m,
            CtrlPhase::Stopped,
            stop_supplicant("stop old iface wpa_supplicant"@),
        ),
        CtrlPhase::Stopped => cj(
            m,
            CtrlPhase::Cleared,
            Step::Do(Task::RemoveCtrlSockets { iface: m.iface }),
        ),
        CtrlPhase::Cleared => cj(
            m,
            CtrlPhase::Started,
            Step::Do(
                Task::StartSupplicant { iface: m.iface, conf_path: ctrl_conf(m), ctrl: true },
            ),
        ),
        CtrlPhase::Started => match task::error_of(o) {
            Some(e) => cj(m, CtrlPhase::Ended, Step::Fail("wpa_supplicant for wpactrl: "@ + e)),
            None => cj(
                m,
                CtrlPhase::Socket,
                Step::Do(Task::AwaitCtrlSocket { iface: m.iface }),
            ),
        },
        CtrlPhase::Socket => match task::found(o) {
            Some(path) => cj(
                CtrlJoin { path, ..m },
                CtrlPhase::Opened,
                Step::Do(Task::OpenCtrl { path }),
            ),
            None => cj_clean_up(m, or_empty(task::error_of(o))),
        },
        CtrlPhase::Opened => match task::error_of(o) {
            Some(e) => cj_clean_up(m, "wpactrl open "@ + m.path + " failed: "@ + e),
            None => cj_command(m, CtrlPhase::Pinged, "PING"@),
        },
        CtrlPhase::Pinged => match ctrl_reply("PING"@, o) {
            Err(e) => cj_clean_up(m, e),
            Ok(reply) => if is_pong(reply) {
                cj_command(m, CtrlPhase::Disconnected, "DISCONNECT"@)
            } else {
                cj_clean_up(
                    m,
                    "wpactrl PING returned unexpected response: "@ + text::trimmed(reply),
                )
            },
        },
        CtrlPhase::Disconnected => cj_command(m, CtrlPhase::Removed, "REMOVE_NETWORK all"@),
        CtrlPhase::Removed => cj_command(m, CtrlPhase::Added, "ADD_NETWORK"@),
        CtrlPhase::Added => match ctrl_reply("ADD_NETWORK"@, o) {
            Err(e) => cj_clean_up(m, e),
            Ok(reply) => if is_network_id(network_id(reply)) {
                cj_plan(CtrlJoin { plan: ctrl_plan(network_id(reply), m.info), ..m }, 0)
            } else {
                cj_clean_up(
                    m,
                    "wpactrl ADD_NETWORK returned invalid network id: "@ + network_id(reply),
                )
            },
        },
        CtrlPhase::Plan(i) => match ctrl_reply(m.plan[i as int].command, o) {
            Err(e) => if m.plan[i as int].required {
                cj_clean_up(m, e)
            } else {
                cj_plan(m, i + 1)
            },
            Ok(_) => cj_plan(m, i + 1),
        },
        CtrlPhase::Leased => cj(m, CtrlPhase::Ended, Step::Succeed(m.iface)),
        CtrlPhase::CleanedUp => cj(
            m,
            CtrlPhase::SocketsRemoved,
            Step::Do(Task::RemoveCtrlSockets { iface: m.iface }),
        ),
        CtrlPhase::SocketsRemoved => cj(m, CtrlPhase::Ended, Step::Fail(m.error)),
        CtrlPhase::Ended => (m, Step::Fail(Seq::empty())),
    }
}

impl CtrlJoin<String, Vec<PlanStep<String>>> {
    pub open spec fn wf(self) -> bool {
        match self.phase {
            CtrlPhase::Plan(i) => i < self.plan@.len(),
            _ => true,
        }
    }

    pub fn new(iface: &str, info: CarWifiInfo) -> (r: Self)
        ensures
            r.wf(),
            r@ == (CtrlJoin::<Seq<char>, Seq<PlanStep<Seq<char>>>> {
                iface: text::trimmed(iface@),
                info: info@,
                phase: CtrlPhase::Begin,
                path: Seq::empty(),
                plan: Seq::empty(),
                error: Seq::empty(),
            }),
    {
        let m = CtrlJoin {
            iface: text::trim(iface).to_owned(),
            info,
            phase: CtrlPhase::Begin,
            path: String::new(),
            plan: Vec::new(),
            error: String::new(),
        };
        assert(m@.plan =~= Seq::<PlanStep<Seq<char>>>::empty());
        m
    }

    fn clean_up(&mut self, error: String) -> (r: WifiStep)
        ensures
            final(self).wf(),
            (final(self)@, r@) == cj_clean_up(old(self)@, error@),
    {
        self.phase = CtrlPhase::CleanedUp;
        self.error = error;
        Step::Do(
            task::shell(
                "cleanup wpactrl wpa_supplicant",
                "killall wpa_supplicant 2>/dev/null || true",
                5,
            ),
        )
    }

    fn plan_step(&mut self, i: usize) -> (r: WifiStep)
        ensures
            final(self).wf(),
            (final(self)@, r@) == cj_plan(old(self)@, i as int),
    {
        if i < self.plan.len() {
            self.phase = CtrlPhase::Plan(i);
            assert(self@.plan[i as int].command == self.plan@[i as int].command@);
            Step::Do(task::ctrl_command(self.plan[i].command.as_str()))
        } else {
            self.phase = CtrlPhase::Leased;
            Step::Do(task::udhcpc(self.iface.as_str(), "after wpactrl network selection"))
        }
    }

    fn end(&mut self, error: String) -> (r: WifiStep)
        ensures
            final(self).wf(),
            (final(self)@, r@) == cj(old(self)@, CtrlPhase::Ended, Step::Fail(error@)),
    {
        self.phase = CtrlPhase::Ended;
        Step::Fail(error)
    }

    /// Takes what came of the last task and tells the next one. The first call
    /// takes any outcome.
    pub fn step(&mut self, o: TaskOutcome) -> (r: WifiStep)
        requires
            old(self).wf(),
            old(self).phase != CtrlPhase::Ended,
        ensures
            final(self).wf(),
            (final(self)@, r@) == ctrl_step(old(self)@, o@),
    {
        match self.phase {
            CtrlPhase::Begin => {
                if self.iface.as_str().is_empty() {
                    self.end("wpactrl auto join needs a non-empty interface".to_owned())
                } else {
                    self.phase = CtrlPhase::Available;
                    Step::Do(task::command_available("wpa_supplicant"))
                }
            },
            CtrlPhase::Available => {
                if o.yes() {
                    self.phase = CtrlPhase::Written;
                    let path = wifi_text::config_path(
                        "/tmp/aa-proxy-car-wifi-",
                        self.iface.as_str(),
                        "-wpactrl.conf",
                    );
                    let contents = wifi_text::wpa_supplicant_config(&self.info, false);
                    Step::Do(task::write_file(path.as_str(), contents.as_str()))
                } else {
                    self.end("wpactrl auto join needs wpa_supplicant binary".to_owned())
                }
            },
            CtrlPhase::Written => {
                match o.error() {
                    Some(e) => self.end(e),
                    None => {
                        self.phase = CtrlPhase::DirsMade;
                        Step::Do(Task::MakeCtrlDirs)
                    },
                }
            },
            CtrlPhase::DirsMade => {
                self.phase = CtrlPhase::Stopped;
                stop_wpa_supplicant_for_wifi("stop old iface wpa_supplicant")
            },
            CtrlPhase::Stopped => {
                self.phase = CtrlPhase::Cleared;
                Step::Do(task::remove_ctrl_sockets(self.iface.as_str()))
            },
            CtrlPhase::Cleared => {
                self.phase = CtrlPhase::Started;
                let path = wifi_text::config_path(
                    "/tmp/aa-proxy-car-wifi-",
                    self.iface.as_str(),
                    "-wpactrl.conf",
                );
                Step::Do(task::start_supplicant(self.iface.as_str(), path.as_str(), true))
            },
            CtrlPhase::Started => {
                match o.error() {
                    Some(e) => self.end(text::cat2("wpa_supplicant for wpactrl: ", e.as_str())),
                    None => {
                        self.phase = CtrlPhase::Socket;
                        Step::Do(task::await_ctrl_socket(self.iface.as_str()))
                    },
                }
            },
            CtrlPhase::Socket => {
                match o {
                    Outcome::Found(Some(path)) => {
                        self.phase = CtrlPhase::Opened;
                        let step = Step::Do(task::open_ctrl(path.as_str()));
                        self.path = path;
                        step
                    },
                    _ => {
                        let e = match o.error() {
                            Some(e) => e,
                            None => String::new(),
                        };
                        self.clean_up(e)
                    },
                }
            },
            CtrlPhase::Opened => {
                match o.error() {
                    Some(e) => {
                        let error = text::cat4(
                            "wpactrl open ",
                            self.path.as_str(),
                            " failed: ",
                            e.as_str(),
                        );
                        self.clean_up(error)
                    },
                    None => {
                        self.phase = CtrlPhase::Pinged;
                        Step::Do(task::ctrl_command("PING"))
                    },
                }
            },
            CtrlPhase::Pinged => {
                match wpactrl_cmd("PING", o) {
                    Err(e) => self.clean_up(e),
                    Ok(reply) => {
                        let pong = text::trim(reply.as_str());
                        if text::eq_ignore_ascii_case(pong, "PONG") {
                            self.phase = CtrlPhase::Disconnected;
                            Step::Do(task::ctrl_command("DISCONNECT"))
                        } else {
                            let error = text::cat2(
                                "wpactrl PING returned unexpected response: ",
                                pong,
                            );
                            self.clean_up(error)
                        }
                    },
                }
            },
            CtrlPhase::Disconnected => {
                self.phase = CtrlPhase::Removed;
                Step::Do(task::ctrl_command("REMOVE_NETWORK all"))
            },
            CtrlPhase::Removed => {
                self.phase = CtrlPhase::Added;
                Step::Do(task::ctrl_command("ADD_NETWORK"))
            },
            CtrlPhase::Added => {
                match wpactrl_cmd("ADD_NETWORK", o) {
                    Err(e) => self.clean_up(e),
                    Ok(reply) => {
                        let id = read_network_id(reply.as_str());
                        if check_network_id(id.as_str()) {
                            self.plan = wpactrl_plan(id.as_str(), &self.info);
                            self.plan_step(0)
                        } else {
                            let error = text::cat2(
                                "wpactrl ADD_NETWORK returned invalid network id: ",
                                id.as_str(),
                            );
                            self.clean_up(error)
                        }
                    },
                }
            },
            CtrlPhase::Plan(i) => {
                let next: usize = if i < self.plan.len() {
                    i + 1
                } else {
                    i
                };
                assert(self@.plan[i as int].command == self.plan@[i as int].command@);
                match wpactrl_cmd(self.plan[i].command.as_str(), o) {
                    Err(e) => {
                        if self.plan[i].required {
                            self.clean_up(e)
                        } else {
                            self.plan_step(next)
                        }
                    },
                    Ok(_) => self.plan_step(next),
                }
            },
            CtrlPhase::Leased => {
                self.phase = CtrlPhase::Ended;
                task::succeed(self.iface.as_str())
            },
            CtrlPhase::CleanedUp => {
                self.phase = CtrlPhase::SocketsRemoved;
                Step::Do(task::remove_ctrl_sockets(self.iface.as_str()))
            },
            CtrlPhase::SocketsRemoved => {
                self.phase = CtrlPhase::Ended;
                task::fail(self.error.as_str())
            },
            CtrlPhase::Ended => vstd::pervasive::unreached(),
        }
    }
}

/// Once the supplicant has been started, a failing join stops it and removes
/// its sockets first.
pub proof fn law_ctrl_join_cleans_up(m: CtrlModel, o: OutcomeModel)
    ensures
        ctrl_step(m, o).1 is Fail ==> {
            ||| m.phase == CtrlPhase::Begin
            ||| m.phase == CtrlPhase::Available
            ||| m.phase == CtrlPhase::Written
            ||| m.phase == CtrlPhase::Started
            ||| m.phase == CtrlPhase::SocketsRemoved
            ||| m.phase == CtrlPhase::Ended
        },
        ctrl_step(m, o).0.phase == CtrlPhase::SocketsRemoved ==> m.phase == CtrlPhase::CleanedUp,
        ctrl_step(m, o).1 is Succeed ==> m.phase == CtrlPhase::Leased,
        ctrl_step(m, o).0.phase == CtrlPhase::Leased ==> m.phase is Plan || m.phase is Added,
{
}

// ---------------------------------------------------------------------
// Joining by `wpa_cli`

#[derive(Clone, Copy, PartialEq, Eq, Structural)]
pub enum CliPhase {
    Begin,
    Added,
    Plan(usize),
    Ended,
}

pub struct CliJoin<T, P> {
    pub iface: T,
    pub info: WifiInfo<T>,
    pub phase: CliPhase,
    pub plan: P,
}

pub type WpaCliJoin = CliJoin<String, Vec<PlanStep<Vec<String>>>>;

pub type CliModel = CliJoin<Seq<char>, Seq<PlanStep<Seq<Seq<char>>>>>;

impl View for CliJoin<String, Vec<PlanStep<Vec<String>>>> {
    type V = CliJoin<Seq<char>, Seq<PlanStep<Seq<Seq<char>>>>>;

    open spec fn view(&self) -> CliJoin<Seq<char>, Seq<PlanStep<Seq<Seq<char>>>>> {
        CliJoin {
            iface: self.iface@,
            info: self.info@,
            phase: self.phase,
            plan: self.plan.deep_view(),
        }
    }
}

pub open spec fn lj(m: CliModel, phase: CliPhase, step: StepModel) -> (CliModel, StepModel) {
    (CliJoin { phase, ..m }, step)
}

pub open spec fn lj_plan(m: CliModel, i: int) -> (CliModel, StepModel) {
    if 0 <= i < m.plan.len() {
        lj(
            m,
            CliPhase::Plan(i as usize),
            Step::Do(Task::WpaCli { iface: m.iface, args: m.plan[i].command }),
        )
    } else {
        lj(m, CliPhase::Ended, Step::Succeed(m.iface))
    }
}

/// One step of a join by `wpa_cli`. The first failure of a required command
/// ends it.
pub open spec fn cli_step(m: CliModel, o: OutcomeModel) -> (CliModel, StepModel) {
    match m.phase {
        CliPhase::Begin => if m.iface.len() == 0 {
            lj(m, CliPhase::Ended, Step::Fail("wpa_cli auto join needs cfg.iface to be set"@))
        } else {
            lj(
                m,
                CliPhase::Added,
                Step::Do(Task::WpaCli { iface: m.iface, args: seq!["add_network"@] }),
            )
        },
        CliPhase::Added => match task::error_of(o) {
            Some(e) => lj(m, CliPhase::Ended, Step::Fail(e)),
            None => {
                let id = network_id(or_empty(task::found(o)));
                if is_network_id(id) {
                    lj_plan(CliJoin { plan: cli_plan(id, m.info), ..m }, 0)
                } else {
                    lj(
                        m,
                        CliPhase::Ended,
                        Step::Fail("wpa_cli add_network returned invalid network id: "@ + id),
                    )
                }
            },
        },
        CliPhase::Plan(i) => match task::error_of(o) {
            Some(e) => if m.plan[i as int].required {
                lj(m, CliPhase::Ended, Step::Fail(e))
            } else {
                lj_plan(m, i + 1)
            },
            None => lj_plan(m, i + 1),
        },
        CliPhase::Ended => (m, Step::Fail(Seq::empty())),
    }
}

impl CliJoin<String, Vec<PlanStep<Vec<String>>>> {
    pub open spec fn wf(self) -> bool {
        match self.phase {
            CliPhase::Plan(i) => i < self.plan@.len(),
            _ => true,
        }
    }

    pub fn new(iface: &str, info: CarWifiInfo) -> (r: Self)
        ensures
            r.wf(),
            r@ == (CliJoin::<Seq<char>, Seq<PlanStep<Seq<Seq<char>>>>> {
                iface: text::trimmed(iface@),
                info: info@,
                phase: CliPhase::Begin,
                plan: Seq::empty(),
            }),
    {
        let m = CliJoin {
            iface: text::trim(iface).to_owned(),
            info,
            phase: CliPhase::Begin,
            plan: Vec::new(),
        };
        assert(m@.plan =~= Seq::<PlanStep<Seq<Seq<char>>>>::empty());
        m
    }

    fn plan_step(&mut self, i: usize) -> (r: WifiStep)
        ensures
            final(self).wf(),
            (final(self)@, r@) == lj_plan(old(self)@, i as int),
    {
        if i < self.plan.len() {
            self.phase = CliPhase::Plan(i);
            assert(self@.plan[i as int].command == self.plan@[i as int].command.deep_view());
            Step::Do(
                Task::WpaCli {
                    iface: self.iface.clone(),
                    args: text::copy_list(&self.plan[i].command),
                },
            )
        } else {
            self.phase = CliPhase::Ended;
            task::succeed(self.iface.as_str())
        }
    }

    /// Takes what came of the last task and tells the next one. The first call
    /// takes any outcome.
    pub fn step(&mut self, o: TaskOutcome) -> (r: WifiStep)
        requires
            old(self).wf(),
            old(self).phase != CliPhase::Ended,
        ensures
            final(self).wf(),
            (final(self)@, r@) == cli_step(old(self)@, o@),
    {
        match self.phase {
            CliPhase::Begin => {
                if self.iface.as_str().is_empty() {
                    self.phase = CliPhase::Ended;
                    task::fail("wpa_cli auto join needs cfg.iface to be set")
                } else {
                    self.phase = CliPhase::Added;
                    Step::Do(
                        Task::WpaCli { iface: self.iface.clone(), args: args1("add_network") },
                    )
                }
            },
            CliPhase::Added => {
                match o {
                    Outcome::Failed(e) => {
                        self.phase = CliPhase::Ended;
                        Step::Fail(e)
                    },
                    _ => {
                        let reply = match o.text() {
                            Some(t) => t,
                            None => String::new(),
                        };
                        let id = read_network_id(reply.as_str());
                        if check_network_id(id.as_str()) {
                            self.plan = wpa_cli_plan(id.as_str(), &self.info);
                            self.plan_step(0)
                        } else {
                            self.phase = CliPhase::Ended;
                            task::fail_with(
                                "wpa_cli add_network returned invalid network id: ",
                                id.as_str(),
                            )
                        }
                    },
                }
            },
            CliPhase::Plan(i) => {
                let next: usize = if i < self.plan.len() {
                    i + 1
                } else {
                    i
                };
                match o.error() {
                    Some(e) => {
                        if self.plan[i].required {
                            self.phase = CliPhase::Ended;
                            Step::Fail(e)
                        } else {
                            self.plan_step(next)
                        }
                    },
                    None => self.plan_step(next),
                }
            },
            CliPhase::Ended => vstd::pervasive::unreached(),
        }
    }
}


// ---------------------------------------------------------------------
// Joining the car's network, by whatever works

#[derive(Clone, Copy, PartialEq, Eq, Structural)]
pub enum JoinControl {
    Auto,
    Wpactrl,
    WpaSupplicant,
    WpaCli,
    Nmcli,
}

/// The configured way to join. What is not known is treated as `auto`.
pub open spec fn control_of(configured: Seq<char>) -> JoinControl {
    let c = text::lower(text::trimmed(configured));
    if c == "wpactrl"@ {
        JoinControl::Wpactrl
    } else if c == "wpa_supplicant"@ {
        JoinControl::WpaSupplicant
    } else if c == "wpa_cli"@ {
        JoinControl::WpaCli
    } else if c == "nmcli"@ {
        JoinControl::Nmcli
    } else {
        JoinControl::Auto
    }
}

pub fn parse_join_control(configured: &str) -> (r: JoinControl)
    ensures
        r == control_of(configured@),
{
    let c = text::to_ascii_lowercase(text::trim(configured));
    if text::same(c.as_str(), "wpactrl") {
        JoinControl::Wpactrl
    } else if text::same(c.as_str(), "wpa_supplicant") {
        JoinControl::WpaSupplicant
    } else if text::same(c.as_str(), "wpa_cli") {
        JoinControl::WpaCli
    } else if text::same(c.as_str(), "nmcli") {
        JoinControl::Nmcli
    } else {
        JoinControl::Auto
    }
}

/// The interface that is to join: the configured one, or else one of its own
/// beside the access point, or else the base interface.
pub open spec fn requested_iface(base: Seq<char>, keep_ap: bool, sta: Seq<char>) -> Seq<char> {
    if text::trimmed(sta).len() > 0 {
        text::trimmed(sta)
    } else if keep_ap {
        "sta0"@
    } else {
        text::trimmed(base)
    }
}

/// The interface beside which another one is made: that of the access point, or
/// else the base interface.
pub fn beside_iface(base_iface: &str, ap_iface: &str) -> (r: String)
    ensures
        r@ == (if text::trimmed(ap_iface@).len() == 0 {
            text::trimmed(base_iface@)
        } else {
            text::trimmed(ap_iface@)
        }),
{
    let ap = text::trim(ap_iface);
    if ap.is_empty() {
        text::trim(base_iface).to_owned()
    } else {
        ap.to_owned()
    }
}

/// How the car's network is to be joined.
pub struct JoinSettings<T> {
    pub template: T,
    pub auto_join: bool,
    pub control: JoinControl,
    pub keep_ap: bool,
    pub iface: T,
    pub ssid: T,
    pub info: WifiInfo<T>,
    pub association_ms: u64,
}

impl View for JoinSettings<String> {
    type V = JoinSettings<Seq<char>>;

    open spec fn view(&self) -> JoinSettings<Seq<char>> {
        JoinSettings {
            template: self.template@,
            auto_join: self.auto_join,
            control: self.control,
            keep_ap: self.keep_ap,
            iface: self.iface@,
            ssid: self.ssid@,
            info: self.info@,
            association_ms: self.association_ms,
        }
    }
}

/// The three ways that `auto` tries, in this order.
#[derive(Clone, Copy, PartialEq, Eq, Structural)]
pub enum AutoWay {
    Nmcli,
    WpaCli,
    WpaSupplicant,
}

/// What a join waits for.
#[derive(Clone, Copy, PartialEq, Eq, Structural)]
pub enum JoinPhase {
    Begin,
    ExistingSsid,
    ExistingReady,
    ExistingDhcp,
    ExistingReadyAgain,
    Custom,
    CustomReady,
    Prepared,
    CtrlJoined,
    CtrlReady,
    CtrlStopped,
    CtrlPaused,
    CtrlPrepared,
    FallbackPresent,
    FallbackJoined,
    FallbackReady,
    RetryStopped(u32),
    RetryPaused(u32),
    RetryPrepared(u32),
    RetryRested(u32),
    TryPresent(u32),
    TryJoined(u32),
    TryReady(u32),
    OnlyJoined,
    OnlyReady,
    AutoAvailable(AutoWay),
    AutoJoined(AutoWay),
    AutoReady(AutoWay),
    Ended,
}

pub struct CarJoin<T, L> {
    pub settings: JoinSettings<T>,
    pub phase: JoinPhase,
    pub last_error: T,
    pub errors: L,
}

pub type CarWifiJoin = CarJoin<String, Vec<String>>;

pub type CarJoinModel = CarJoin<Seq<char>, Seq<Seq<char>>>;

impl View for CarJoin<String, Vec<String>> {
    type V = CarJoin<Seq<char>, Seq<Seq<char>>>;

    open spec fn view(&self) -> CarJoin<Seq<char>, Seq<Seq<char>>> {
        CarJoin {
            settings: self.settings@,
            phase: self.phase,
            last_error: self.last_error@,
            errors: self.errors.deep_view(),
        }
    }
}

pub open spec fn go(m: CarJoinModel, phase: JoinPhase, task: Task<Seq<char>, Seq<Seq<char>>>) -> (
    CarJoinModel,
    StepModel,
) {
    (CarJoin { phase, ..m }, Step::Do(task))
}

pub open spec fn give_up(m: CarJoinModel, error: Seq<char>) -> (CarJoinModel, StepModel) {
    (CarJoin { phase: JoinPhase::Ended, ..m }, Step::Fail(error))
}

pub open spec fn joined(m: CarJoinModel) -> (CarJoinModel, StepModel) {
    (CarJoin { phase: JoinPhase::Ended, ..m }, Step::Succeed(m.settings.iface))
}

pub open spec fn await_ready(m: CarJoinModel, phase: JoinPhase, ms: u64) -> (
    CarJoinModel,
    StepModel,
) {
    go(m, phase, Task::AwaitReady { iface: m.settings.iface, ssid: m.settings.ssid, ms })
}

/// The configured command, or the built-in ways, once no association is in place.
pub open spec fn configured_join(m: CarJoinModel) -> (CarJoinModel, StepModel) {
    let s = m.settings;
    if text::trimmed(s.template).len() > 0 {
        go(
            m,
            JoinPhase::Custom,
            Task::Shell {
                label: "Wi-Fi join command"@,
                command: wifi_text::join_command(text::trimmed(s.template), s.iface, s.info),
                secs: 30,
            },
        )
    } else if !s.auto_join {
        joined(m)
    } else if s.keep_ap {
        go(m, JoinPhase::Prepared, Task::PrepareKeepAp { iface: s.iface })
    } else {
        go(m, JoinPhase::Prepared, Task::PrepareTakeover { iface: s.iface })
    }
}

pub open spec fn max_tries(keep_ap: bool) -> u32 {
    if keep_ap {
        3
    } else {
        1
    }
}

/// A try by `wpa_supplicant` did not work: the next one begins, on a fresh
/// interface, or the join fails.
pub open spec fn next_try(m: CarJoinModel, n: u32, error: Seq<char>) -> (CarJoinModel, StepModel) {
    let m1 = CarJoin { last_error: error, ..m };
    if n < max_tries(m.settings.keep_ap) {
        (
            CarJoin { phase: JoinPhase::RetryStopped((n + 1) as u32), ..m1 },
            stop_supplicant("stop stale wpa_supplicant before recreating STA iface for retry"@),
        )
    } else {
        give_up(m1, error)
    }
}

pub open spec fn way_name(way: AutoWay) -> Seq<char> {
    match way {
        AutoWay::Nmcli => "nmcli"@,
        AutoWay::WpaCli => "wpa_cli"@,
        AutoWay::WpaSupplicant => "wpa_supplicant"@,
    }
}

pub open spec fn way_task(way: AutoWay, iface: Seq<char>) -> Task<Seq<char>, Seq<Seq<char>>> {
    match way {
        AutoWay::Nmcli => Task::JoinNmcli { iface },
        AutoWay::WpaCli => Task::JoinWpaCli { iface },
        AutoWay::WpaSupplicant => Task::JoinSupplicant { iface },
    }
}

pub open spec fn try_way(m: CarJoinModel, way: AutoWay) -> (CarJoinModel, StepModel) {
    go(m, JoinPhase::AutoAvailable(way), Task::CommandAvailable { binary: way_name(way) })
}

/// One way did not work: the next one, or the end.
pub open spec fn next_way(m: CarJoinModel, way: AutoWay) -> (CarJoinModel, StepModel) {
    match way {
        AutoWay::Nmcli => try_way(m, AutoWay::WpaCli),
        AutoWay::WpaCli => try_way(m, AutoWay::WpaSupplicant),
        AutoWay::WpaSupplicant => give_up(
            m,
            if m.errors.len() == 0 {
                "auto Wi-Fi join requested but nmcli, wpa_cli, and wpa_supplicant were unavailable"@
            } else {
                "auto Wi-Fi join failed: "@ + text::joined(m.errors, "; "@)
            },
        ),
    }
}

pub open spec fn noted(m: CarJoinModel, error: Seq<char>) -> CarJoinModel {
    CarJoin { errors: m.errors.push(error), ..m }
}

pub open spec fn not_observed(who: Seq<char>) -> Seq<char> {
    who + " returned success but association/IPv4 was not observed"@
}

pub open spec fn only_name(control: JoinControl) -> Seq<char> {
    if control == JoinControl::WpaCli {
        "wpa_cli"@
    } else {
        "nmcli"@
    }
}

/// The interface is ready to be joined: by the configured way.
pub open spec fn begin_control(m: CarJoinModel) -> (CarJoinModel, StepModel) {
    let iface = m.settings.iface;
    match m.settings.control {
        JoinControl::Wpactrl => go(m, JoinPhase::CtrlJoined, Task::JoinWpactrl { iface }),
        JoinControl::WpaSupplicant => go(
            m,
            JoinPhase::TryPresent(1),
            Task::IfaceExists { iface },
        ),
        JoinControl::WpaCli => go(m, JoinPhase::OnlyJoined, Task::JoinWpaCli { iface }),
        JoinControl::Nmcli => go(m, JoinPhase::OnlyJoined, Task::JoinNmcli { iface }),
        JoinControl::Auto => try_way(m, AutoWay::Nmcli),
    }
}

/// One step of joining the car's network.
pub open spec fn join_step(m: CarJoinModel, o: OutcomeModel) -> (CarJoinModel, StepModel) {
    let s = m.settings;
    let iface = s.iface;
    let error = task::error_of(o);
    let yes = task::is_yes(o);
    match m.phase {
        JoinPhase::Begin => if s.ssid.len() == 0 {
            give_up(m, "HU WifiInfoResponse did not include an SSID; cannot auto-join Wi-Fi"@)
        } else if iface.len() == 0 {
            configured_join(m)
        } else {
            go(m, JoinPhase::ExistingSsid, Task::CurrentSsid { iface })
        },
        JoinPhase::ExistingSsid => if task::found(o) == Some(s.ssid) {
            await_ready(m, JoinPhase::ExistingReady, 2000)
        } else {
            configured_join(m)
        },
        JoinPhase::ExistingReady => if yes {
            joined(m)
        } else {
            go(
                m,
                JoinPhase::ExistingDhcp,
                Task::Udhcpc { iface, reason: "existing association has no IPv4"@ },
            )
        },
        JoinPhase::ExistingDhcp => await_ready(
            m,
            JoinPhase::ExistingReadyAgain,
            s.association_ms,
        ),
        JoinPhase::ExistingReadyAgain => if yes {
            joined(m)
        } else {
            configured_join(m)
        },
        JoinPhase::Custom => match error {
            Some(e) => give_up(m, e),
            None => if iface.len() == 0 {
                joined(m)
            } else {
                await_ready(m, JoinPhase::CustomReady, s.association_ms)
            },
        },
        JoinPhase::CustomReady => joined(m),
        JoinPhase::Prepared => match error {
            Some(e) => give_up(m, e),
            None => begin_control(m),
        },
        JoinPhase::CtrlJoined => match error {
            Some(_) => if s.keep_ap {
                (
                    CarJoin { phase: JoinPhase::CtrlStopped, ..m },
                    stop_supplicant(
                        "stop stale wpa_supplicant before recreating STA iface for fallback"@,
                    ),
                )
            } else {
                go(m, JoinPhase::FallbackPresent, Task::IfaceExists { iface })
            },
            None => await_ready(m, JoinPhase::CtrlReady, s.association_ms),
        },
        JoinPhase::CtrlReady => if yes {
            joined(m)
        } else {
            go(m, JoinPhase::FallbackPresent, Task::IfaceExists { iface })
        },
        JoinPhase::CtrlStopped => go(m, JoinPhase::CtrlPaused, Task::Sleep { ms: 1000 }),
        JoinPhase::CtrlPaused => go(m, JoinPhase::CtrlPrepared, Task::PrepareKeepAp { iface }),
        JoinPhase::CtrlPrepared => match error {
            Some(e) => give_up(m, e),
            None => go(m, JoinPhase::FallbackPresent, Task::IfaceExists { iface }),
        },
        JoinPhase::FallbackPresent => if yes {
            go(m, JoinPhase::FallbackJoined, Task::JoinSupplicant { iface })
        } else {
            give_up(
                m,
                "car Wi-Fi join iface "@ + iface
                    + " disappeared before direct wpa_supplicant fallback"@,
            )
        },
        JoinPhase::FallbackJoined => match error {
            Some(e) => give_up(m, "wpactrl fallback wpa_supplicant: "@ + e),
            None => await_ready(m, JoinPhase::FallbackReady, s.association_ms),
        },
        JoinPhase::FallbackReady => if yes {
            joined(m)
        } else {
            give_up(m, not_observed("wpactrl and direct wpa_supplicant fallback"@))
        },
        JoinPhase::RetryStopped(n) => go(m, JoinPhase::RetryPaused(n), Task::Sleep { ms: 1000 }),
        JoinPhase::RetryPaused(n) => go(
            m,
            JoinPhase::RetryPrepared(n),
            Task::PrepareKeepAp { iface },
        ),
        JoinPhase::RetryPrepared(n) => match error {
            Some(e) => (
                CarJoin {
                    phase: JoinPhase::RetryRested(n),
                    last_error: "prepare STA iface before retry failed: "@ + e,
                    ..m
                },
                Step::Do(Task::Sleep { ms: 1000 }),
            ),
            None => go(m, JoinPhase::TryPresent(n), Task::IfaceExists { iface }),
        },
        JoinPhase::RetryRested(n) => next_try(m, n, m.last_error),
        JoinPhase::TryPresent(n) => if yes {
            go(m, JoinPhase::TryJoined(n), Task::JoinSupplicant { iface })
        } else {
            next_try(
                m,
                n,
                "car Wi-Fi join iface "@ + iface + " disappeared before wpa_supplicant start"@,
            )
        },
        JoinPhase::TryJoined(n) => match error {
            Some(e) => next_try(m, n, "wpa_supplicant: "@ + e),
            None => await_ready(m, JoinPhase::TryReady(n), s.association_ms),
        },
        JoinPhase::TryReady(n) => if yes {
            joined(m)
        } else {
            next_try(m, n, not_observed("wpa_supplicant"@))
        },
        JoinPhase::OnlyJoined => match error {
            Some(e) => give_up(m, only_name(s.control) + ": "@ + e),
            None => await_ready(m, JoinPhase::OnlyReady, s.association_ms),
        },
        JoinPhase::OnlyReady => if yes {
            joined(m)
        } else {
            give_up(m, not_observed(only_name(s.control)))
        },
        JoinPhase::AutoAvailable(way) => if yes {
            go(m, JoinPhase::AutoJoined(way), way_task(way, iface))
        } else {
            next_way(m, way)
        },
        JoinPhase::AutoJoined(way) => match error {
            Some(e) => next_way(noted(m, way_name(way) + ": "@ + e), way),
            None => await_ready(m, JoinPhase::AutoReady(way), s.association_ms),
        },
        JoinPhase::AutoReady(way) => if yes {
            joined(m)
        } else {
            next_way(noted(m, not_observed(way_name(way))), way)
        },
        JoinPhase::Ended => (m, Step::Fail(Seq::empty())),
    }
}

fn name_of_way(way: AutoWay) -> (r: &'static str)
    ensures
        r@ == way_name(way),
{
    match way {
        AutoWay::Nmcli => "nmcli",
        AutoWay::WpaCli => "wpa_cli",
        AutoWay::WpaSupplicant => "wpa_supplicant",
    }
}

impl CarJoin<String, Vec<String>> {
    /// A join with what the configuration says of it.
    pub fn new(
        template: &str,
        auto_join: bool,
        join_control: &str,
        base_iface: &str,
        keep_ap: bool,
        sta_iface: &str,
        info: CarWifiInfo,
        association_ms: u64,
    ) -> (r: Self)
        ensures
            r@ == (CarJoin::<Seq<char>, Seq<Seq<char>>> {
                settings: JoinSettings {
                    template: template@,
                    auto_join,
                    control: control_of(join_control@),
                    keep_ap,
                    iface: requested_iface(base_iface@, keep_ap, sta_iface@),
                    ssid: text::trimmed(info@.ssid),
                    info: info@,
                    association_ms,
                },
                phase: JoinPhase::Begin,
                last_error: Seq::empty(),
                errors: Seq::empty(),
            }),
    {
        let sta = text::trim(sta_iface);
        let iface = if !sta.is_empty() {
            sta.to_owned()
        } else if keep_ap {
            "sta0".to_owned()
        } else {
            text::trim(base_iface).to_owned()
        };
        let ssid = text::trim(info.ssid.as_str()).to_owned();
        let m = CarJoin {
            settings: JoinSettings {
                template: template.to_owned(),
                auto_join,
                control: parse_join_control(join_control),
                keep_ap,
                iface,
                ssid,
                info,
                association_ms,
            },
            phase: JoinPhase::Begin,
            last_error: String::new(),
            errors: Vec::new(),
        };
        assert(m@.errors =~= Seq::<Seq<char>>::empty());
        m
    }

    fn give_up_with(&mut self, error: String) -> (r: WifiStep)
        ensures
            (final(self)@, r@) == give_up(old(self)@, error@),
    {
        self.phase = JoinPhase::Ended;
        Step::Fail(error)
    }

    fn end_joined(&mut self) -> (r: WifiStep)
        ensures
            (final(self)@, r@) == joined(old(self)@),
    {
        self.phase = JoinPhase::Ended;
        task::succeed(self.settings.iface.as_str())
    }

    fn ready_step(&mut self, phase: JoinPhase, ms: u64) -> (r: WifiStep)
        ensures
            (final(self)@, r@) == await_ready(old(self)@, phase, ms),
    {
        self.phase = phase;
        Step::Do(
            task::await_ready(self.settings.iface.as_str(), self.settings.ssid.as_str(), ms),
        )
    }

    fn present_step(&mut self, phase: JoinPhase) -> (r: WifiStep)
        ensures
            (final(self)@, r@) == go(
                old(self)@,
                phase,
                Task::IfaceExists { iface: old(self)@.settings.iface },
            ),
    {
        self.phase = phase;
        exists_step(self.settings.iface.as_str())
    }

    fn keep_ap_step(&mut self, phase: JoinPhase) -> (r: WifiStep)
        ensures
            (final(self)@, r@) == go(
                old(self)@,
                phase,
                Task::PrepareKeepAp { iface: old(self)@.settings.iface },
            ),
    {
        self.phase = phase;
        Step::Do(task::prepare_keep_ap(self.settings.iface.as_str()))
    }

    fn sleep_step(&mut self, phase: JoinPhase) -> (r: WifiStep)
        ensures
            (final(self)@, r@) == go(old(self)@, phase, Task::Sleep { ms: 1000 }),
    {
        self.phase = phase;
        Step::Do(task::sleep(1000))
    }

    fn configured_step(&mut self) -> (r: WifiStep)
        ensures
            (final(self)@, r@) == configured_join(old(self)@),
    {
        let template = text::trim(self.settings.template.as_str());
        if !template.is_empty() {
            let command = wifi_text::render_wifi_join_cmd(
                template,
                self.settings.iface.as_str(),
                &self.settings.info,
            );
            self.phase = JoinPhase::Custom;
            Step::Do(task::shell("Wi-Fi join command", command.as_str(), 30))
        } else if !self.settings.auto_join {
            self.end_joined()
        } else if self.settings.keep_ap {
            self.keep_ap_step(JoinPhase::Prepared)
        } else {
            self.phase = JoinPhase::Prepared;
            Step::Do(task::prepare_takeover(self.settings.iface.as_str()))
        }
    }

    fn retry_step(&mut self, n: u32, error: String) -> (r: WifiStep)
        ensures
            (final(self)@, r@) == next_try(old(self)@, n, error@),
    {
        let max: u32 = if self.settings.keep_ap {
            3
        } else {
            1
        };
        if n < max {
            self.last_error = error;
            self.phase = JoinPhase::RetryStopped(n + 1);
            stop_wpa_supplicant_for_wifi(
                "stop stale wpa_supplicant before recreating STA iface for retry",
            )
        } else {
            self.last_error = error.clone();
            self.give_up_with(error)
        }
    }

    fn way_step(&mut self, way: AutoWay) -> (r: WifiStep)
        ensures
            (final(self)@, r@) == try_way(old(self)@, way),
    {
        self.phase = JoinPhase::AutoAvailable(way);
        Step::Do(task::command_available(name_of_way(way)))
    }

    fn next_way_step(&mut self, way: AutoWay) -> (r: WifiStep)
        ensures
            (final(self)@, r@) == next_way(old(self)@, way),
    {
        match way {
            AutoWay::Nmcli => self.way_step(AutoWay::WpaCli),
            AutoWay::WpaCli => self.way_step(AutoWay::WpaSupplicant),
            AutoWay::WpaSupplicant => {
                if self.errors.len() == 0 {
                    self.give_up_with(
                        "auto Wi-Fi join requested but nmcli, wpa_cli, and wpa_supplicant were unavailable".to_owned(),
                    )
                } else {
                    let all = text::join(&self.errors, "; ");
                    self.give_up_with(text::cat2("auto Wi-Fi join failed: ", all.as_str()))
                }
            },
        }
    }

    fn control_step(&mut self) -> (r: WifiStep)
        ensures
            (final(self)@, r@) == begin_control(old(self)@),
    {
        match self.settings.control {
            JoinControl::Wpactrl => {
                self.phase = JoinPhase::CtrlJoined;
                Step::Do(task::join_wpactrl(self.settings.iface.as_str()))
            },
            JoinControl::WpaSupplicant => self.present_step(JoinPhase::TryPresent(1)),
            JoinControl::WpaCli => {
                self.phase = JoinPhase::OnlyJoined;
                Step::Do(task::join_wpa_cli(self.settings.iface.as_str()))
            },
            JoinControl::Nmcli => {
                self.phase = JoinPhase::OnlyJoined;
                Step::Do(task::join_nmcli(self.settings.iface.as_str()))
            },
            JoinControl::Auto => self.way_step(AutoWay::Nmcli),
        }
    }

    fn only(&self) -> (r: &'static str)
        ensures
            r@ == only_name(self@.settings.control),
    {
        if self.settings.control == JoinControl::WpaCli {
            "wpa_cli"
        } else {
            "nmcli"
        }
    }

    /// Takes what came of the last task and tells the next one. The first call
    /// takes any outcome. The join ends with the interface that carries it.
    pub fn step(&mut self, o: TaskOutcome) -> (r: WifiStep)
        requires
            old(self).phase != JoinPhase::Ended,
        ensures
            (final(self)@, r@) == join_step(old(self)@, o@),
    {
        let yes = o.yes();
        match self.phase {
            JoinPhase::Begin => {
                if self.settings.ssid.as_str().is_empty() {
                    self.give_up_with(
                        "HU WifiInfoResponse did not include an SSID; cannot auto-join Wi-Fi".to_owned(),
                    )
                } else if self.settings.iface.as_str().is_empty() {
                    self.configured_step()
                } else {
                    self.phase = JoinPhase::ExistingSsid;
                    Step::Do(task::current_ssid(self.settings.iface.as_str()))
                }
            },
            JoinPhase::ExistingSsid => {
                let same = match o.text() {
                    Some(current) => text::same(current.as_str(), self.settings.ssid.as_str()),
                    None => false,
                };
                if same {
                    self.ready_step(JoinPhase::ExistingReady, 2000)
                } else {
                    self.configured_step()
                }
            },
            JoinPhase::ExistingReady => {
                if yes {
                    self.end_joined()
                } else {
                    self.phase = JoinPhase::ExistingDhcp;
                    Step::Do(
                        task::udhcpc(
                            self.settings.iface.as_str(),
                            "existing association has no IPv4",
                        ),
                    )
                }
            },
            JoinPhase::ExistingDhcp => {
                let ms: u64 = self.settings.association_ms;
                self.ready_step(JoinPhase::ExistingReadyAgain, ms)
            },
            JoinPhase::ExistingReadyAgain => {
                if yes {
                    self.end_joined()
                } else {
                    self.configured_step()
                }
            },
            JoinPhase::Custom => {
                match o.error() {
                    Some(e) => self.give_up_with(e),
                    None => {
                        if self.settings.iface.as_str().is_empty() {
                            self.end_joined()
                        } else {
                            let ms: u64 = self.settings.association_ms;
                            self.ready_step(JoinPhase::CustomReady, ms)
                        }
                    },
                }
            },
            JoinPhase::CustomReady => self.end_joined(),
            JoinPhase::Prepared => {
                match o.error() {
                    Some(e) => self.give_up_with(e),
                    None => self.control_step(),
                }
            },
            JoinPhase::CtrlJoined => {
                match o.error() {
                    Some(_) => {
                        if self.settings.keep_ap {
                            self.phase = JoinPhase::CtrlStopped;
                            stop_wpa_supplicant_for_wifi(
                                "stop stale wpa_supplicant before recreating STA iface for fallback",
                            )
                        } else {
                            self.present_step(JoinPhase::FallbackPresent)
                        }
                    },
                    None => {
                        let ms: u64 = self.settings.association_ms;
                        self.ready_step(JoinPhase::CtrlReady, ms)
                    },
                }
            },
            JoinPhase::CtrlReady => {
                if yes {
                    self.end_joined()
                } else {
                    self.present_step(JoinPhase::FallbackPresent)
                }
            },
            JoinPhase::CtrlStopped => self.sleep_step(JoinPhase::CtrlPaused),
            JoinPhase::CtrlPaused => self.keep_ap_step(JoinPhase::CtrlPrepared),
            JoinPhase::CtrlPrepared => {
                match o.error() {
                    Some(e) => self.give_up_with(e),
                    None => self.present_step(JoinPhase::FallbackPresent),
                }
            },
            JoinPhase::FallbackPresent => {
                if yes {
                    self.phase = JoinPhase::FallbackJoined;
                    Step::Do(task::join_supplicant(self.settings.iface.as_str()))
                } else {
                    let error = text::cat3(
                        "car Wi-Fi join iface ",
                        self.settings.iface.as_str(),
                        " disappeared before direct wpa_supplicant fallback",
                    );
                    self.give_up_with(error)
                }
            },
            JoinPhase::FallbackJoined => {
                match o.error() {
                    Some(e) => self.give_up_with(
                        text::cat2("wpactrl fallback wpa_supplicant: ", e.as_str()),
                    ),
                    None => {
                        let ms: u64 = self.settings.association_ms;
                        self.ready_step(JoinPhase::FallbackReady, ms)
                    },
                }
            },
            JoinPhase::FallbackReady => {
                if yes {
                    self.end_joined()
                } else {
                    self.give_up_with(
                        text::cat2(
                            "wpactrl and direct wpa_supplicant fallback",
                            " returned success but association/IPv4 was not observed",
                        ),
                    )
                }
            },
            JoinPhase::RetryStopped(n) => self.sleep_step(JoinPhase::RetryPaused(n)),
            JoinPhase::RetryPaused(n) => self.keep_ap_step(JoinPhase::RetryPrepared(n)),
            JoinPhase::RetryPrepared(n) => {
                match o.error() {
                    Some(e) => {
                        self.last_error = text::cat2(
                            "prepare STA iface before retry failed: ",
                            e.as_str(),
                        );
                        self.sleep_step(JoinPhase::RetryRested(n))
                    },
                    None => self.present_step(JoinPhase::TryPresent(n)),
                }
            },
            JoinPhase::RetryRested(n) => {
                let error = self.last_error.clone();
                self.retry_step(n, error)
            },
            JoinPhase::TryPresent(n) => {
                if yes {
                    self.phase = JoinPhase::TryJoined(n);
                    Step::Do(task::join_supplicant(self.settings.iface.as_str()))
                } else {
                    let error = text::cat3(
                        "car Wi-Fi join iface ",
                        self.settings.iface.as_str(),
                        " disappeared before wpa_supplicant start",
                    );
                    self.retry_step(n, error)
                }
            },
            JoinPhase::TryJoined(n) => {
                match o.error() {
                    Some(e) => self.retry_step(n, text::cat2("wpa_supplicant: ", e.as_str())),
                    None => {
                        let ms: u64 = self.settings.association_ms;
                        self.ready_step(JoinPhase::TryReady(n), ms)
                    },
                }
            },
            JoinPhase::TryReady(n) => {
                if yes {
                    self.end_joined()
                } else {
                    self.retry_step(
                        n,
                        text::cat2(
                            "wpa_supplicant",
                            " returned success but association/IPv4 was not observed",
                        ),
                    )
                }
            },
            JoinPhase::OnlyJoined => {
                match o.error() {
                    Some(e) => {
                        let error = text::cat3(self.only(), ": ", e.as_str());
                        self.give_up_with(error)
                    },
                    None => {
                        let ms: u64 = self.settings.association_ms;
                        self.ready_step(JoinPhase::OnlyReady, ms)
                    },
                }
            },
            JoinPhase::OnlyReady => {
                if yes {
                    self.end_joined()
                } else {
                    let error = text::cat2(
                        self.only(),
                        " returned success but association/IPv4 was not observed",
                    );
                    self.give_up_with(error)
                }
            },
            JoinPhase::AutoAvailable(way) => {
                if yes {
                    self.phase = JoinPhase::AutoJoined(way);
                    let iface = self.settings.iface.as_str();
                    match way {
                        AutoWay::Nmcli => Step::Do(task::join_nmcli(iface)),
                        AutoWay::WpaCli => Step::Do(task::join_wpa_cli(iface)),
                        AutoWay::WpaSupplicant => Step::Do(task::join_supplicant(iface)),
                    }
                } else {
                    self.next_way_step(way)
                }
            },
            JoinPhase::AutoJoined(way) => {
                match o.error() {
                    Some(e) => {
                        let error = text::cat3(name_of_way(way), ": ", e.as_str());
                        text::push_text(&mut self.errors, error.as_str());
                        self.next_way_step(way)
                    },
                    None => {
                        let ms: u64 = self.settings.association_ms;
                        self.ready_step(JoinPhase::AutoReady(way), ms)
                    },
                }
            },
            JoinPhase::AutoReady(way) => {
                if yes {
                    self.end_joined()
                } else {
                    let error = text::cat2(
                        name_of_way(way),
                        " returned success but association/IPv4 was not observed",
                    );
                    text::push_text(&mut self.errors, error.as_str());
                    self.next_way_step(way)
                }
            },
            JoinPhase::Ended => vstd::pervasive::unreached(),
        }
    }
}

/// How many steps a join takes at most from a phase on.
pub open spec fn join_rank(phase: JoinPhase) -> int {
    match phase {
        JoinPhase::Begin => 60,
        JoinPhase::ExistingSsid => 59,
        JoinPhase::ExistingReady => 58,
        JoinPhase::ExistingDhcp => 57,
        JoinPhase::ExistingReadyAgain => 56,
        JoinPhase::Custom => 55,
        JoinPhase::CustomReady => 54,
        JoinPhase::Prepared => 53,
        JoinPhase::CtrlJoined => 20,
        JoinPhase::CtrlReady => 19,
        JoinPhase::CtrlStopped => 18,
        JoinPhase::CtrlPaused => 17,
        JoinPhase::CtrlPrepared => 16,
        JoinPhase::FallbackPresent => 15,
        JoinPhase::FallbackJoined => 14,
        JoinPhase::FallbackReady => 13,
        JoinPhase::RetryStopped(n) => 10 * (3 - n) + 10,
        JoinPhase::RetryPaused(n) => 10 * (3 - n) + 9,
        JoinPhase::RetryPrepared(n) => 10 * (3 - n) + 8,
        JoinPhase::RetryRested(n) => 10 * (3 - n) + 7,
        JoinPhase::TryPresent(n) => 10 * (3 - n) + 6,
        JoinPhase::TryJoined(n) => 10 * (3 - n) + 5,
        JoinPhase::TryReady(n) => 10 * (3 - n) + 4,
        JoinPhase::OnlyJoined => 2,
        JoinPhase::OnlyReady => 1,
        JoinPhase::AutoAvailable(way) => way_rank(way) + 3,
        JoinPhase::AutoJoined(way) => way_rank(way) + 2,
        JoinPhase::AutoReady(way) => way_rank(way) + 1,
        JoinPhase::Ended => 0,
    }
}

pub open spec fn way_rank(way: AutoWay) -> int {
    match way {
        AutoWay::Nmcli => 6,
        AutoWay::WpaCli => 3,
        AutoWay::WpaSupplicant => 0,
    }
}

/// No more than three tries are under way.
pub open spec fn join_wf(phase: JoinPhase) -> bool {
    match phase {
        JoinPhase::RetryStopped(n) => 1 <= n <= 3,
        JoinPhase::RetryPaused(n) => 1 <= n <= 3,
        JoinPhase::RetryPrepared(n) => 1 <= n <= 3,
        JoinPhase::RetryRested(n) => 1 <= n <= 3,
        JoinPhase::TryPresent(n) => 1 <= n <= 3,
        JoinPhase::TryJoined(n) => 1 <= n <= 3,
        JoinPhase::TryReady(n) => 1 <= n <= 3,
        _ => true,
    }
}

/// What holds of every step: it comes nearer to the end, and keeps the settings.
pub open spec fn nearer(m: CarJoinModel, next: (CarJoinModel, StepModel), rank: int) -> bool {
    &&& join_wf(next.0.phase)
    &&& 0 <= join_rank(next.0.phase) < rank
    &&& next.1 is Do <==> next.0.phase != JoinPhase::Ended
    &&& next.0.settings == m.settings
    &&& next.1 matches Step::Succeed(iface) ==> iface == m.settings.iface
}

proof fn lemma_configured_join(m: CarJoinModel)
    ensures
        nearer(m, configured_join(m), 56),
{
}

proof fn lemma_begin_control(m: CarJoinModel)
    ensures
        nearer(m, begin_control(m), 53),
{
}

proof fn lemma_next_try(m: CarJoinModel, n: u32, error: Seq<char>)
    requires
        1 <= n <= 3,
    ensures
        nearer(m, next_try(m, n, error), 10 * (3 - n) + 4),
{
}

proof fn lemma_next_way(m: CarJoinModel, way: AutoWay)
    ensures
        nearer(m, next_way(m, way), way_rank(way) + 1),
{
}

/// A join ends after at most sixty steps, whatever the outcomes are, and always
/// with the interface that was asked for.
pub proof fn law_car_join_ends(m: CarJoinModel, o: OutcomeModel)
    requires
        join_wf(m.phase),
        m.phase != JoinPhase::Ended,
    ensures
        nearer(m, join_step(m, o), join_rank(m.phase)),
        join_rank(m.phase) <= 60,
{
    lemma_configured_join(m);
    lemma_begin_control(m);
    let s = m.settings;
    match m.phase {
        JoinPhase::RetryRested(n) => {
            lemma_next_try(m, n, m.last_error);
        },
        JoinPhase::TryPresent(n) => {
            lemma_next_try(
                m,
                n,
                "car Wi-Fi join iface "@ + s.iface + " disappeared before wpa_supplicant start"@,
            );
        },
        JoinPhase::TryJoined(n) => {
            if let Some(e) = task::error_of(o) {
                lemma_next_try(m, n, "wpa_supplicant: "@ + e);
            }
        },
        JoinPhase::TryReady(n) => {
            lemma_next_try(m, n, not_observed("wpa_supplicant"@));
        },
        JoinPhase::AutoAvailable(way) => {
            lemma_next_way(m, way);
        },
        JoinPhase::AutoJoined(way) => {
            if let Some(e) = task::error_of(o) {
                lemma_next_way(noted(m, way_name(way) + ": "@ + e), way);
            }
        },
        JoinPhase::AutoReady(way) => {
            lemma_next_way(noted(m, not_observed(way_name(way))), way);
        },
        _ => {},
    }
}

/// A built-in way counts only when the network was seen to work: a join
/// succeeds on an observation, on the configured command, or where there is
/// nothing to do.
pub proof fn law_car_join_succeeds_on_observation(m: CarJoinModel, o: OutcomeModel)
    requires
        m.phase != JoinPhase::Ended,
        join_step(m, o).1 is Succeed,
    ensures
        task::is_yes(o) || m.phase == JoinPhase::Custom || m.phase == JoinPhase::CustomReady || (
        text::trimmed(m.settings.template).len() == 0 && !m.settings.auto_join),
{
}

// ---------------------------------------------------------------------
// What the plans say

/// A text in quotes as the supplicant takes it.
pub open spec fn in_quotes(s: Seq<char>) -> Seq<char> {
    seq!['"'] + wifi_text::escaped(s) + seq!['"']
}

proof fn lemma_in_quotes(s: Seq<char>)
    ensures
        wifi_text::wpa_quoted(s) == in_quotes(s),
{
    reveal_strlit("\"");
    assert("\""@ =~= seq!['"']);
    wifi_text::law_wpa_quote_escapes_each_character(s);
}

/// Told on the control socket, a plan first names the network by its name, and by
/// nothing else; where the access point is known it is asked for, which may fail; a
/// network is joined without a key exactly if it has none or is open, and else by its
/// key; and only behind all of that it is enabled, chosen and connected to.
pub proof fn law_ctrl_plan_sets_up_the_network(id: Seq<char>, info: WifiInfo<Seq<char>>)
    ensures
        ({
            let p = ctrl_plan(id, info);
            let n = p.len() as int;
            let set = "SET_NETWORK "@ + id;
            let pins = text::trimmed(info.bssid).len() > 0;
            let open = info.key.len() == 0 || info.is_open;
            let k = if pins {
                2int
            } else {
                1int
            };
            &&& n == k + 3 + (if open {
                1int
            } else {
                2int
            })
            &&& p[0].required && p[0].command == set + " ssid "@ + in_quotes(info.ssid)
            &&& pins ==> !p[1].required && p[1].command == set + " bssid "@ + text::trimmed(
                info.bssid,
            )
            &&& p[k].required
            &&& open ==> p[k].command == set + " key_mgmt "@ + "NONE"@
            &&& !open ==> p[k].command == set + " key_mgmt "@ + "WPA-PSK"@ && p[k + 1].required
                && p[k + 1].command == set + " psk "@ + in_quotes(info.key)
            &&& p[n - 3].required && p[n - 3].command == "ENABLE_NETWORK "@ + id
            &&& p[n - 2].required && p[n - 2].command == "SELECT_NETWORK "@ + id
            &&& !p[n - 1].required && p[n - 1].command == "RECONNECT"@
        }),
{
    lemma_in_quotes(info.ssid);
    lemma_in_quotes(info.key);
}

/// The same of a plan for `wpa_cli`, which leaves the kind of key to the supplicant and
/// keeps the configuration.
pub proof fn law_cli_plan_sets_up_the_network(id: Seq<char>, info: WifiInfo<Seq<char>>)
    ensures
        ({
            let p = cli_plan(id, info);
            let n = p.len() as int;
            let pins = text::trimmed(info.bssid).len() > 0;
            let open = info.key.len() == 0 || info.is_open;
            let k = if pins {
                2int
            } else {
                1int
            };
            &&& n == k + 5
            &&& p[0].required && p[0].command == seq![
                "set_network"@,
                id,
                "ssid"@,
                in_quotes(info.ssid),
            ]
            &&& pins ==> !p[1].required && p[1].command == seq![
                "set_network"@,
                id,
                "bssid"@,
                text::trimmed(info.bssid),
            ]
            &&& p[k].required
            &&& open ==> p[k].command == seq!["set_network"@, id, "key_mgmt"@, "NONE"@]
            &&& !open ==> p[k].command == seq!["set_network"@, id, "psk"@, in_quotes(info.key)]
            &&& p[k + 1].required && p[k + 1].command == seq!["enable_network"@, id]
            &&& p[k + 2].required && p[k + 2].command == seq!["select_network"@, id]
            &&& !p[k + 3].required && p[k + 3].command == seq!["reassociate"@]
            &&& !p[k + 4].required && p[k + 4].command == seq!["save_config"@]
        }),
{
    lemma_in_quotes(info.ssid);
    lemma_in_quotes(info.key);
}

/// The id of a new network is the last line of the reply, without the blanks around it;
/// an empty one, or a failure however it is written, is none.
pub proof fn law_network_id_is_the_last_line(reply: Seq<char>)
    ensures
        text::lines_of(reply).len() > 0 ==> network_id(reply) == text::trimmed(
            text::lines_of(reply).last(),
        ),
        text::lines_of(reply).len() == 0 ==> network_id(reply) == text::trimmed(reply),
        is_network_id(reply) ==> reply.len() > 0 && text::lower(reply) != "fail"@,
        reply.len() > 0 && text::lower(reply) != "fail"@ ==> is_network_id(reply),
{
    lemma_fail_word();
}

proof fn lemma_fail_word()
    ensures
        text::lower("FAIL"@) == "fail"@,
{
    reveal_strlit("FAIL");
    reveal_strlit("fail");
    assert(text::lower("FAIL"@) =~= "fail"@);
}

} // verus!
