//! What the network logic asks of the machine it runs on, and what it is told.

use vstd::prelude::*;

verus! {

/// One thing to do or to find out.
pub enum Task<T, L> {
    /// Run a shell command; it gets this many seconds.
    Shell { label: T, command: T, secs: u64 },
    /// Let some time pass.
    Sleep { ms: u64 },
    /// Is there such a network interface?
    IfaceExists { iface: T },
    /// Does the interface turn up within this time?
    AwaitIface { iface: T, ms: u64 },
    /// Can such a program be run?
    CommandAvailable { binary: T },
    /// Which network is the interface associated to?
    CurrentSsid { iface: T },
    /// Does the interface report a link?
    LinkConnected { iface: T },
    /// Which IPv4 address does the interface have?
    IfaceIpv4 { iface: T },
    /// Ask for an address by DHCP; is there one?
    Udhcpc { iface: T, reason: T },
    /// Is the interface associated to the network, with an address, within this time?
    AwaitReady { iface: T, ssid: T, ms: u64 },
    /// Write a file.
    WriteFile { path: T, contents: T },
    /// Start `wpa_supplicant`, with a control socket or without.
    StartSupplicant { iface: T, conf_path: T, ctrl: bool },
    /// Make the directories of the control sockets.
    MakeCtrlDirs,
    /// Remove what is left of the interface's control sockets.
    RemoveCtrlSockets { iface: T },
    /// Wait for the control socket and tell where it is.
    AwaitCtrlSocket { iface: T },
    /// Open a control socket.
    OpenCtrl { path: T },
    /// Send a command to the control socket and tell the reply.
    CtrlCommand { command: T },
    /// Run `wpa_cli` on the interface and tell what it printed.
    WpaCli { iface: T, args: L },
    /// Make a managed interface beside the access point.
    PrepareKeepAp { iface: T },
    /// Take an interface over for the car's network.
    PrepareTakeover { iface: T },
    /// Join by the control socket of `wpa_supplicant`.
    JoinWpactrl { iface: T },
    /// Join by `wpa_supplicant` alone.
    JoinSupplicant { iface: T },
    /// Join by `wpa_cli`.
    JoinWpaCli { iface: T },
    /// Join by `nmcli`.
    JoinNmcli { iface: T },
    /// Which radios could carry another interface?
    PhyCandidates { iface: T, configured: T },
    /// Which role does the interface have?
    IfaceType { iface: T },
    /// Does the interface take on the role within this time?
    AwaitIfaceType { iface: T, role: T, ms: u64 },
    /// On which channel is the interface?
    CurrentChannel { iface: T },
    /// Start the access point for the phone.
    StartPhoneAp { iface: T, channel: u64 },
    /// What does the kernel say of the route to an address?
    RouteTo { target: T },
    /// What does the kernel say of the interface's addresses?
    AddressesOf { iface: T },
    /// Install a route to one host.
    InstallRoute { target: T, iface: T, source: T },
    /// Repair the route to the head unit.
    RepairRoute,
    /// Reach out to the head unit once, so that its neighbours are known.
    WarmRoute,
    /// Connect to the head unit by TCP.
    ConnectHu { secs: u64 },
    /// Which wireless interfaces hang on the USB bus?
    UsbIfaces { exclude: T },
}

pub type WifiTask = Task<String, Vec<String>>;

pub type TaskModel = Task<Seq<char>, Seq<Seq<char>>>;

impl View for Task<String, Vec<String>> {
    type V = Task<Seq<char>, Seq<Seq<char>>>;

    open spec fn view(&self) -> Task<Seq<char>, Seq<Seq<char>>> {
        match *self {
            Task::Shell { label, command, secs } => Task::Shell { label: label@, command: command@, secs },
            Task::Sleep { ms } => Task::Sleep { ms },
            Task::IfaceExists { iface } => Task::IfaceExists { iface: iface@ },
            Task::AwaitIface { iface, ms } => Task::AwaitIface { iface: iface@, ms },
            Task::CommandAvailable { binary } => Task::CommandAvailable { binary: binary@ },
            Task::CurrentSsid { iface } => Task::CurrentSsid { iface: iface@ },
            Task::LinkConnected { iface } => Task::LinkConnected { iface: iface@ },
            Task::IfaceIpv4 { iface } => Task::IfaceIpv4 { iface: iface@ },
            Task::Udhcpc { iface, reason } => Task::Udhcpc { iface: iface@, reason: reason@ },
            Task::AwaitReady { iface, ssid, ms } => Task::AwaitReady { iface: iface@, ssid: ssid@, ms },
            Task::WriteFile { path, contents } => Task::WriteFile { path: path@, contents: contents@ },
            Task::StartSupplicant { iface, conf_path, ctrl } => Task::StartSupplicant { iface: iface@, conf_path: conf_path@, ctrl },
            Task::MakeCtrlDirs => Task::MakeCtrlDirs,
            Task::RemoveCtrlSockets { iface } => Task::RemoveCtrlSockets { iface: iface@ },
            Task::AwaitCtrlSocket { iface } => Task::AwaitCtrlSocket { iface: iface@ },
            Task::OpenCtrl { path } => Task::OpenCtrl { path: path@ },
            Task::CtrlCommand { command } => Task::CtrlCommand { command: command@ },
            Task::WpaCli { iface, args } => Task::WpaCli { iface: iface@, args: args.deep_view() },
            Task::PrepareKeepAp { iface } => Task::PrepareKeepAp { iface: iface@ },
            Task::PrepareTakeover { iface } => Task::PrepareTakeover { iface: iface@ },
            Task::JoinWpactrl { iface } => Task::JoinWpactrl { iface: iface@ },
            Task::JoinSupplicant { iface } => Task::JoinSupplicant { iface: iface@ },
            Task::JoinWpaCli { iface } => Task::JoinWpaCli { iface: iface@ },
            Task::JoinNmcli { iface } => Task::JoinNmcli { iface: iface@ },
            Task::PhyCandidates { iface, configured } => Task::PhyCandidates { iface: iface@, configured: configured@ },
            Task::IfaceType { iface } => Task::IfaceType { iface: iface@ },
            Task::AwaitIfaceType { iface, role, ms } => Task::AwaitIfaceType { iface: iface@, role: role@, ms },
            Task::CurrentChannel { iface } => Task::CurrentChannel { iface: iface@ },
            Task::StartPhoneAp { iface, channel } => Task::StartPhoneAp { iface: iface@, channel },
            Task::RouteTo { target } => Task::RouteTo { target: target@ },
            Task::AddressesOf { iface } => Task::AddressesOf { iface: iface@ },
            Task::InstallRoute { target, iface, source } => Task::InstallRoute { target: target@, iface: iface@, source: source@ },
            Task::RepairRoute => Task::RepairRoute,
            Task::WarmRoute => Task::WarmRoute,
            Task::ConnectHu { secs } => Task::ConnectHu { secs },
            Task::UsbIfaces { exclude } => Task::UsbIfaces { exclude: exclude@ },
        }
    }
}

/// What came of a task.
pub enum Outcome<T, L> {
    Done,
    Failed(T),
    Answer(bool),
    Found(Option<T>),
    Channel(Option<u32>),
    List(L),
}

pub type TaskOutcome = Outcome<String, Vec<String>>;

pub type OutcomeModel = Outcome<Seq<char>, Seq<Seq<char>>>;

impl View for Outcome<String, Vec<String>> {
    type V = Outcome<Seq<char>, Seq<Seq<char>>>;

    open spec fn view(&self) -> Outcome<Seq<char>, Seq<Seq<char>>> {
        match *self {
            Outcome::Done => Outcome::Done,
            Outcome::Failed(e) => Outcome::Failed(e@),
            Outcome::Answer(b) => Outcome::Answer(b),
            Outcome::Found(t) => Outcome::Found(t.deep_view()),
            Outcome::Channel(c) => Outcome::Channel(c),
            Outcome::List(l) => Outcome::List(l.deep_view()),
        }
    }
}

/// The error of a task that failed. Any other outcome counts as done.
pub open spec fn error_of(o: OutcomeModel) -> Option<Seq<char>> {
    match o {
        Outcome::Failed(e) => Some(e),
        _ => None,
    }
}

/// Only the answer yes counts as yes.
pub open spec fn is_yes(o: OutcomeModel) -> bool {
    o == Outcome::<Seq<char>, Seq<Seq<char>>>::Answer(true)
}

/// The text that was found, if one was.
pub open spec fn found(o: OutcomeModel) -> Option<Seq<char>> {
    match o {
        Outcome::Found(t) => t,
        _ => None,
    }
}

pub open spec fn channel_found(o: OutcomeModel) -> Option<u32> {
    match o {
        Outcome::Channel(c) => c,
        _ => None,
    }
}

pub open spec fn listed(o: OutcomeModel) -> Seq<Seq<char>> {
    match o {
        Outcome::List(l) => l,
        _ => Seq::empty(),
    }
}

impl Outcome<String, Vec<String>> {
    pub fn error(self) -> (r: Option<String>)
        ensures
            r.deep_view() == error_of(self@),
    {
        match self {
            Outcome::Failed(e) => Some(e),
            _ => None,
        }
    }

    pub fn yes(&self) -> (r: bool)
        ensures
            r == is_yes(self@),
    {
        match self {
            Outcome::Answer(b) => *b,
            _ => false,
        }
    }

    pub fn text(self) -> (r: Option<String>)
        ensures
            r.deep_view() == found(self@),
    {
        match self {
            Outcome::Found(t) => t,
            _ => None,
        }
    }

    pub fn channel(&self) -> (r: Option<u32>)
        ensures
            r == channel_found(self@),
    {
        match self {
            Outcome::Channel(c) => *c,
            _ => None,
        }
    }

    pub fn list(self) -> (r: Vec<String>)
        ensures
            r.deep_view() == listed(self@),
    {
        match self {
            Outcome::List(l) => l,
            _ => {
                let none: Vec<String> = Vec::new();
                assert(none.deep_view() =~= Seq::<Seq<char>>::empty());
                none
            },
        }
    }
}

/// The next task of a flow, or its end.
pub enum Step<T, L> {
    Do(Task<T, L>),
    Succeed(T),
    Fail(T),
}

pub type WifiStep = Step<String, Vec<String>>;

pub type StepModel = Step<Seq<char>, Seq<Seq<char>>>;

impl View for Step<String, Vec<String>> {
    type V = Step<Seq<char>, Seq<Seq<char>>>;

    open spec fn view(&self) -> Step<Seq<char>, Seq<Seq<char>>> {
        match *self {
            Step::Do(task) => Step::Do(task@),
            Step::Succeed(value) => Step::Succeed(value@),
            Step::Fail(error) => Step::Fail(error@),
        }
    }
}

pub fn fail(error: &str) -> (r: WifiStep)
    ensures
        r@ == (Step::<Seq<char>, Seq<Seq<char>>>::Fail(error@)),
{
    Step::Fail(error.to_owned())
}

pub fn succeed(value: &str) -> (r: WifiStep)
    ensures
        r@ == (Step::<Seq<char>, Seq<Seq<char>>>::Succeed(value@)),
{
    Step::Succeed(value.to_owned())
}

/// Fails with a text in front of an error.
pub fn fail_with(what: &str, error: &str) -> (r: WifiStep)
    ensures
        r@ == (Step::<Seq<char>, Seq<Seq<char>>>::Fail(what@ + error@)),
{
    let mut e = what.to_owned();
    vstd::string::StringExecFns::append(&mut e, error);
    Step::Fail(e)
}

pub fn shell(label: &str, command: &str, secs: u64) -> (r: WifiTask)
    ensures
        r@ == (Task::<Seq<char>, Seq<Seq<char>>>::Shell { label: label@, command: command@, secs }),
{
    Task::Shell { label: label.to_owned(), command: command.to_owned(), secs }
}

pub fn sleep(ms: u64) -> (r: WifiTask)
    ensures
        r@ == (Task::<Seq<char>, Seq<Seq<char>>>::Sleep { ms }),
{
    Task::Sleep { ms }
}

pub fn iface_exists(iface: &str) -> (r: WifiTask)
    ensures
        r@ == (Task::<Seq<char>, Seq<Seq<char>>>::IfaceExists { iface: iface@ }),
{
    Task::IfaceExists { iface: iface.to_owned() }
}

pub fn await_iface(iface: &str, ms: u64) -> (r: WifiTask)
    ensures
        r@ == (Task::<Seq<char>, Seq<Seq<char>>>::AwaitIface { iface: iface@, ms }),
{
    Task::AwaitIface { iface: iface.to_owned(), ms }
}

pub fn command_available(binary: &str) -> (r: WifiTask)
    ensures
        r@ == (Task::<Seq<char>, Seq<Seq<char>>>::CommandAvailable { binary: binary@ }),
{
    Task::CommandAvailable { binary: binary.to_owned() }
}

pub fn current_ssid(iface: &str) -> (r: WifiTask)
    ensures
        r@ == (Task::<Seq<char>, Seq<Seq<char>>>::CurrentSsid { iface: iface@ }),
{
    Task::CurrentSsid { iface: iface.to_owned() }
}

pub fn link_connected(iface: &str) -> (r: WifiTask)
    ensures
        r@ == (Task::<Seq<char>, Seq<Seq<char>>>::LinkConnected { iface: iface@ }),
{
    Task::LinkConnected { iface: iface.to_owned() }
}

pub fn iface_ipv4(iface: &str) -> (r: WifiTask)
    ensures
        r@ == (Task::<Seq<char>, Seq<Seq<char>>>::IfaceIpv4 { iface: iface@ }),
{
    Task::IfaceIpv4 { iface: iface.to_owned() }
}

pub fn udhcpc(iface: &str, reason: &str) -> (r: WifiTask)
    ensures
        r@ == (Task::<Seq<char>, Seq<Seq<char>>>::Udhcpc { iface: iface@, reason: reason@ }),
{
    Task::Udhcpc { iface: iface.to_owned(), reason: reason.to_owned() }
}

pub fn await_ready(iface: &str, ssid: &str, ms: u64) -> (r: WifiTask)
    ensures
        r@ == (Task::<Seq<char>, Seq<Seq<char>>>::AwaitReady { iface: iface@, ssid: ssid@, ms }),
{
    Task::AwaitReady { iface: iface.to_owned(), ssid: ssid.to_owned(), ms }
}

pub fn write_file(path: &str, contents: &str) -> (r: WifiTask)
    ensures
        r@ == (Task::<Seq<char>, Seq<Seq<char>>>::WriteFile { path: path@, contents: contents@ }),
{
    Task::WriteFile { path: path.to_owned(), contents: contents.to_owned() }
}

pub fn start_supplicant(iface: &str, conf_path: &str, ctrl: bool) -> (r: WifiTask)
    ensures
        r@ == (Task::<Seq<char>, Seq<Seq<char>>>::StartSupplicant { iface: iface@, conf_path: conf_path@, ctrl }),
{
    Task::StartSupplicant { iface: iface.to_owned(), conf_path: conf_path.to_owned(), ctrl }
}

pub fn remove_ctrl_sockets(iface: &str) -> (r: WifiTask)
    ensures
        r@ == (Task::<Seq<char>, Seq<Seq<char>>>::RemoveCtrlSockets { iface: iface@ }),
{
    Task::RemoveCtrlSockets { iface: iface.to_owned() }
}

pub fn await_ctrl_socket(iface: &str) -> (r: WifiTask)
    ensures
        r@ == (Task::<Seq<char>, Seq<Seq<char>>>::AwaitCtrlSocket { iface: iface@ }),
{
    Task::AwaitCtrlSocket { iface: iface.to_owned() }
}

pub fn open_ctrl(path: &str) -> (r: WifiTask)
    ensures
        r@ == (Task::<Seq<char>, Seq<Seq<char>>>::OpenCtrl { path: path@ }),
{
    Task::OpenCtrl { path: path.to_owned() }
}

pub fn ctrl_command(command: &str) -> (r: WifiTask)
    ensures
        r@ == (Task::<Seq<char>, Seq<Seq<char>>>::CtrlCommand { command: command@ }),
{
    Task::CtrlCommand { command: command.to_owned() }
}

pub fn prepare_keep_ap(iface: &str) -> (r: WifiTask)
    ensures
        r@ == (Task::<Seq<char>, Seq<Seq<char>>>::PrepareKeepAp { iface: iface@ }),
{
    Task::PrepareKeepAp { iface: iface.to_owned() }
}

pub fn prepare_takeover(iface: &str) -> (r: WifiTask)
    ensures
        r@ == (Task::<Seq<char>, Seq<Seq<char>>>::PrepareTakeover { iface: iface@ }),
{
    Task::PrepareTakeover { iface: iface.to_owned() }
}

pub fn join_wpactrl(iface: &str) -> (r: WifiTask)
    ensures
        r@ == (Task::<Seq<char>, Seq<Seq<char>>>::JoinWpactrl { iface: iface@ }),
{
    Task::JoinWpactrl { iface: iface.to_owned() }
}

pub fn join_supplicant(iface: &str) -> (r: WifiTask)
    ensures
        r@ == (Task::<Seq<char>, Seq<Seq<char>>>::JoinSupplicant { iface: iface@ }),
{
    Task::JoinSupplicant { iface: iface.to_owned() }
}

pub fn join_wpa_cli(iface: &str) -> (r: WifiTask)
    ensures
        r@ == (Task::<Seq<char>, Seq<Seq<char>>>::JoinWpaCli { iface: iface@ }),
{
    Task::JoinWpaCli { iface: iface.to_owned() }
}

pub fn join_nmcli(iface: &str) -> (r: WifiTask)
    ensures
        r@ == (Task::<Seq<char>, Seq<Seq<char>>>::JoinNmcli { iface: iface@ }),
{
    Task::JoinNmcli { iface: iface.to_owned() }
}

pub fn phy_candidates(iface: &str, configured: &str) -> (r: WifiTask)
    ensures
        r@ == (Task::<Seq<char>, Seq<Seq<char>>>::PhyCandidates { iface: iface@, configured: configured@ }),
{
    Task::PhyCandidates { iface: iface.to_owned(), configured: configured.to_owned() }
}

pub fn iface_type(iface: &str) -> (r: WifiTask)
    ensures
        r@ == (Task::<Seq<char>, Seq<Seq<char>>>::IfaceType { iface: iface@ }),
{
    Task::IfaceType { iface: iface.to_owned() }
}

pub fn await_iface_type(iface: &str, role: &str, ms: u64) -> (r: WifiTask)
    ensures
        r@ == (Task::<Seq<char>, Seq<Seq<char>>>::AwaitIfaceType { iface: iface@, role: role@, ms }),
{
    Task::AwaitIfaceType { iface: iface.to_owned(), role: role.to_owned(), ms }
}

pub fn current_channel(iface: &str) -> (r: WifiTask)
    ensures
        r@ == (Task::<Seq<char>, Seq<Seq<char>>>::CurrentChannel { iface: iface@ }),
{
    Task::CurrentChannel { iface: iface.to_owned() }
}

pub fn start_phone_ap(iface: &str, channel: u64) -> (r: WifiTask)
    ensures
        r@ == (Task::<Seq<char>, Seq<Seq<char>>>::StartPhoneAp { iface: iface@, channel }),
{
    Task::StartPhoneAp { iface: iface.to_owned(), channel }
}

pub fn route_to(target: &str) -> (r: WifiTask)
    ensures
        r@ == (Task::<Seq<char>, Seq<Seq<char>>>::RouteTo { target: target@ }),
{
    Task::RouteTo { target: target.to_owned() }
}

pub fn addresses_of(iface: &str) -> (r: WifiTask)
    ensures
        r@ == (Task::<Seq<char>, Seq<Seq<char>>>::AddressesOf { iface: iface@ }),
{
    Task::AddressesOf { iface: iface.to_owned() }
}

pub fn install_route(target: &str, iface: &str, source: &str) -> (r: WifiTask)
    ensures
        r@ == (Task::<Seq<char>, Seq<Seq<char>>>::InstallRoute { target: target@, iface: iface@, source: source@ }),
{
    Task::InstallRoute { target: target.to_owned(), iface: iface.to_owned(), source: source.to_owned() }
}

pub fn connect_hu(secs: u64) -> (r: WifiTask)
    ensures
        r@ == (Task::<Seq<char>, Seq<Seq<char>>>::ConnectHu { secs }),
{
    Task::ConnectHu { secs }
}

pub fn usb_ifaces(exclude: &str) -> (r: WifiTask)
    ensures
        r@ == (Task::<Seq<char>, Seq<Seq<char>>>::UsbIfaces { exclude: exclude@ }),
{
    Task::UsbIfaces { exclude: exclude.to_owned() }
}

} // verus!
