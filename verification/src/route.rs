//! Routes to the head unit, and the address under which it can reach the proxy.

use crate::net_text;
use crate::task;
use crate::task::OutcomeModel;
use crate::task::Step;
use crate::task::StepModel;
use crate::task::Task;
use crate::task::TaskOutcome;
use crate::task::WifiStep;
use crate::text;
use crate::wifi_text;
use crate::wifi_text::shell_quote;
use vstd::prelude::*;

verus! {

// ---------------------------------------------------------------------
// Networks

/// Whether two addresses look like addresses of one local network. What is no
/// IPv4 address is given the benefit of the doubt.
pub open spec fn same_lan(src: Seq<char>, target: Seq<char>) -> bool {
    let s = net_text::ipv4_octets(src);
    let t = net_text::ipv4_octets(target);
    if !net_text::is_ipv4(src) || !net_text::is_ipv4(target) {
        true
    } else if s[0] == 10 || t[0] == 10 {
        s[0] == t[0]
    } else if s[0] == 192 || t[0] == 192 {
        s[0] == t[0] && s[1] == t[1] && s[2] == t[2]
    } else {
        s[0] == t[0] && s[1] == t[1]
    }
}

pub fn ipv4_likely_same_lan(src_ip: &str, target_ip: &str) -> (r: bool)
    ensures
        r == same_lan(src_ip@, target_ip@),
{
    match (net_text::parse_ipv4(src_ip), net_text::parse_ipv4(target_ip)) {
        (Some(s), Some(t)) => {
            assert(s@ == net_text::ipv4_octets(src_ip@));
            assert(t@ == net_text::ipv4_octets(target_ip@));
            if s[0] == 10 || t[0] == 10 {
                return s[0] == t[0];
            }
            if s[0] == 192 || t[0] == 192 {
                return s[0] == t[0] && s[1] == t[1] && s[2] == t[2];
            }
            s[0] == t[0] && s[1] == t[1]
        },
        _ => true,
    }
}

/// Being on one network does not depend on the order of the addresses, and
/// every address is on the network of itself.
pub proof fn law_same_lan_is_symmetric(a: Seq<char>, b: Seq<char>)
    ensures
        same_lan(a, b) == same_lan(b, a),
        same_lan(a, a),
{
}

// ---------------------------------------------------------------------
// One route

pub open spec fn route_args_error(target: Seq<char>, iface: Seq<char>, src: Seq<char>) -> Seq<char> {
    "cannot install car-side host route with target_ip="@ + text::str_debug_text(target)
        + " iface="@ + text::str_debug_text(iface) + " src_ip="@ + text::str_debug_text(src)
}

pub open spec fn route_source_error(target: Seq<char>, iface: Seq<char>, src: Seq<char>) -> Seq<
    char,
> {
    "cannot install IPv4 car-side route to "@ + target + " via "@ + iface + " because source "@
        + src + " is not IPv4"@
}

pub open spec fn route_command(target: Seq<char>, iface: Seq<char>, src: Seq<char>) -> Seq<char> {
    "ip -4 route replace "@ + wifi_text::quoted(target) + "/32 dev "@ + wifi_text::quoted(iface)
        + " src "@ + wifi_text::quoted(src)
}

/// The command that installs a route to one host. A host that has no IPv4
/// address needs none.
pub fn install_ipv4_host_route(target_ip: &str, iface: &str, src_ip: &str) -> (r: Result<
    Option<String>,
    String,
>)
    ensures
        ({
            let t = text::trimmed(target_ip@);
            let i = text::trimmed(iface@);
            let s = text::trimmed(src_ip@);
            let incomplete = t.len() == 0 || i.len() == 0 || s.len() == 0;
            match r {
                Ok(None) => !incomplete && !net_text::is_ipv4(t),
                Ok(Some(command)) => !incomplete && net_text::is_ipv4(t) && net_text::is_ipv4(s)
                    && command@ == route_command(t, i, s),
                Err(e) => if incomplete {
                    e@ == route_args_error(t, i, s)
                } else {
                    net_text::is_ipv4(t) && !net_text::is_ipv4(s) && e@ == route_source_error(
                        t,
                        i,
                        s,
                    )
                },
            }
        }),
{
    let target = text::trim(target_ip);
    let iface = text::trim(iface);
    let src = text::trim(src_ip);
    if target.is_empty() || iface.is_empty() || src.is_empty() {
        let a = text::debug_text(target);
        let b = text::debug_text(iface);
        let c = text::debug_text(src);
        return Err(
            text::cat6(
                "cannot install car-side host route with target_ip=",
                a.as_str(),
                " iface=",
                b.as_str(),
                " src_ip=",
                c.as_str(),
            ),
        );
    }
    if net_text::parse_ipv4(target).is_none() {
        return Ok(None);
    }
    if net_text::parse_ipv4(src).is_none() {
        return Err(
            text::cat7(
                "cannot install IPv4 car-side route to ",
                target,
                " via ",
                iface,
                " because source ",
                src,
                " is not IPv4",
            ),
        );
    }
    let t = shell_quote(target);
    let i = shell_quote(iface);
    let s = shell_quote(src);
    Ok(
        Some(
            text::cat6(
                "ip -4 route replace ",
                t.as_str(),
                "/32 dev ",
                i.as_str(),
                " src ",
                s.as_str(),
            ),
        ),
    )
}

/// The command that reaches out to the head unit once. Whether it answers does
/// not matter.
pub fn warm_car_side_route_for_hu(target_ip: &str, iface: &str) -> (r: Option<String>)
    ensures
        r.deep_view() == (if text::trimmed(target_ip@).len() == 0 || text::trimmed(iface@).len()
            == 0 {
            None
        } else {
            Some(
                "ping -c 1 -W 1 -I "@ + wifi_text::quoted(text::trimmed(iface@)) + " "@
                    + wifi_text::quoted(text::trimmed(target_ip@)) + " >/dev/null 2>&1 || true"@,
            )
        }),
{
    let target = text::trim(target_ip);
    let iface = text::trim(iface);
    if target.is_empty() || iface.is_empty() {
        return None;
    }
    let i = shell_quote(iface);
    let t = shell_quote(target);
    Some(
        text::cat5(
            "ping -c 1 -W 1 -I ",
            i.as_str(),
            " ",
            t.as_str(),
            " >/dev/null 2>&1 || true",
        ),
    )
}

// ---------------------------------------------------------------------
// Repairing the route once the phone's access point is up

#[derive(Clone, Copy, PartialEq, Eq, Structural)]
pub enum RepairPhase {
    Begin,
    Ssid,
    Address,
    Leased,
    Ready,
    AddressAgain,
    Installed,
    Ended,
}

pub struct RouteRepair<T> {
    pub target: T,
    pub iface: T,
    pub ssid: T,
    pub expected_src: T,
    pub current_ssid: Option<T>,
    pub src: T,
    pub phase: RepairPhase,
}

impl View for RouteRepair<String> {
    type V = RouteRepair<Seq<char>>;

    open spec fn view(&self) -> RouteRepair<Seq<char>> {
        RouteRepair {
            target: self.target@,
            iface: self.iface@,
            ssid: self.ssid@,
            expected_src: self.expected_src@,
            current_ssid: self.current_ssid.deep_view(),
            src: self.src@,
            phase: self.phase,
        }
    }
}

pub open spec fn rr(m: RouteRepair<Seq<char>>, phase: RepairPhase, step: StepModel) -> (
    RouteRepair<Seq<char>>,
    StepModel,
) {
    (RouteRepair { phase, ..m }, step)
}

/// Whether the interface is on the network it should be on.
pub open spec fn is_associated(current: Option<Seq<char>>, expected: Seq<char>) -> bool {
    if text::trimmed(expected).len() == 0 {
        current is Some
    } else {
        current == Some(text::trimmed(expected))
    }
}

/// The route is installed from the address that the interface has, or else from
/// the one that it had, if the head unit looks reachable from there.
pub open spec fn rr_install(m: RouteRepair<Seq<char>>, current: Option<Seq<char>>) -> (
    RouteRepair<Seq<char>>,
    StepModel,
) {
    let src = match current {
        Some(ip) => ip,
        None => text::trimmed(m.expected_src),
    };
    let target = text::trimmed(m.target);
    if text::trimmed(src).len() == 0 {
        rr(
            m,
            RepairPhase::Ended,
            Step::Fail(
                "proxy_ap car STA "@ + m.iface
                    + " has no IPv4 after phone AP start; cannot route to HU "@ + target,
            ),
        )
    } else if !same_lan(src, target) {
        rr(
            m,
            RepairPhase::Ended,
            Step::Fail(
                "proxy_ap car STA "@ + m.iface + " IPv4 "@ + src
                    + " does not look reachable for HU "@ + target
                    + "; refusing to continue"@,
            ),
        )
    } else {
        (
            RouteRepair { phase: RepairPhase::Installed, src, ..m },
            Step::Do(Task::InstallRoute { target: m.target, iface: m.iface, source: src }),
        )
    }
}

pub open spec fn repair_step(m: RouteRepair<Seq<char>>, o: OutcomeModel) -> (
    RouteRepair<Seq<char>>,
    StepModel,
) {
    let ready = Step::Do(Task::AwaitReady { iface: m.iface, ssid: m.ssid, ms: 5000 });
    match m.phase {
        RepairPhase::Begin => if m.iface.len() == 0 {
            rr(
                m,
                RepairPhase::Ended,
                Step::Fail("cannot repair car-side route: join iface is empty"@),
            )
        } else {
            rr(m, RepairPhase::Ssid, Step::Do(Task::CurrentSsid { iface: m.iface }))
        },
        RepairPhase::Ssid => rr(
            RouteRepair { current_ssid: task::found(o), ..m },
            RepairPhase::Address,
            Step::Do(Task::IfaceIpv4 { iface: m.iface }),
        ),
        RepairPhase::Address => if is_associated(m.current_ssid, m.ssid) && task::found(
            o,
        ) is Some {
            rr_install(m, task::found(o))
        } else if m.current_ssid is Some && task::found(o) is None {
            rr(
                m,
                RepairPhase::Leased,
                Step::Do(
                    Task::Udhcpc {
                        iface: m.iface,
                        reason: "proxy_ap phone AP start left car STA without IPv4"@,
                    },
                ),
            )
        } else {
            rr(m, RepairPhase::Ready, ready)
        },
        RepairPhase::Leased => rr(m, RepairPhase::Ready, ready),
        RepairPhase::Ready => rr(
            m,
            RepairPhase::AddressAgain,
            Step::Do(Task::IfaceIpv4 { iface: m.iface }),
        ),
        RepairPhase::AddressAgain => rr_install(m, task::found(o)),
        RepairPhase::Installed => match task::error_of(o) {
            Some(e) => rr(m, RepairPhase::Ended, Step::Fail(e)),
            None => rr(m, RepairPhase::Ended, Step::Succeed(m.src)),
        },
        RepairPhase::Ended => (m, Step::Fail(Seq::empty())),
    }
}

impl RouteRepair<String> {
    pub fn new(target_ip: &str, iface: &str, expected_ssid: &str, expected_src_ip: &str) -> (r: Self)
        ensures
            r@ == (RouteRepair::<Seq<char>> {
                target: target_ip@,
                iface: text::trimmed(iface@),
                ssid: expected_ssid@,
                expected_src: expected_src_ip@,
                current_ssid: None,
                src: Seq::empty(),
                phase: RepairPhase::Begin,
            }),
    {
        RouteRepair {
            target: target_ip.to_owned(),
            iface: text::trim(iface).to_owned(),
            ssid: expected_ssid.to_owned(),
            expected_src: expected_src_ip.to_owned(),
            current_ssid: None,
            src: String::new(),
            phase: RepairPhase::Begin,
        }
    }

    fn install(&mut self, current: Option<String>) -> (r: WifiStep)
        ensures
            (final(self)@, r@) == rr_install(old(self)@, current.deep_view()),
    {
        let src = match current {
            Some(ip) => ip,
            None => text::trim(self.expected_src.as_str()).to_owned(),
        };
        let target = text::trim(self.target.as_str());
        if text::trim(src.as_str()).is_empty() {
            self.phase = RepairPhase::Ended;
            Step::Fail(
                text::cat4(
                    "proxy_ap car STA ",
                    self.iface.as_str(),
                    " has no IPv4 after phone AP start; cannot route to HU ",
                    target,
                ),
            )
        } else if !ipv4_likely_same_lan(src.as_str(), target) {
            self.phase = RepairPhase::Ended;
            Step::Fail(
                text::cat7(
                    "proxy_ap car STA ",
                    self.iface.as_str(),
                    " IPv4 ",
                    src.as_str(),
                    " does not look reachable for HU ",
                    target,
                    "; refusing to continue",
                ),
            )
        } else {
            self.phase = RepairPhase::Installed;
            let step = Step::Do(
                task::install_route(self.target.as_str(), self.iface.as_str(), src.as_str()),
            );
            self.src = src;
            step
        }
    }

    fn ready(&mut self) -> (r: WifiStep)
        ensures
            (final(self)@, r@) == rr(
                old(self)@,
                RepairPhase::Ready,
                Step::Do(
                    Task::AwaitReady { iface: old(self)@.iface, ssid: old(self)@.ssid, ms: 5000 },
                ),
            ),
    {
        self.phase = RepairPhase::Ready;
        Step::Do(task::await_ready(self.iface.as_str(), self.ssid.as_str(), 5000))
    }

    fn associated(&self) -> (r: bool)
        ensures
            r == is_associated(self@.current_ssid, self@.ssid),
    {
        let expected = text::trim(self.ssid.as_str());
        match &self.current_ssid {
            Some(current) => expected.is_empty() || text::same(current.as_str(), expected),
            None => false,
        }
    }

    pub fn step(&mut self, o: TaskOutcome) -> (r: WifiStep)
        requires
            old(self).phase != RepairPhase::Ended,
        ensures
            (final(self)@, r@) == repair_step(old(self)@, o@),
    {
        match self.phase {
            RepairPhase::Begin => {
                if self.iface.as_str().is_empty() {
                    self.phase = RepairPhase::Ended;
                    task::fail("cannot repair car-side route: join iface is empty")
                } else {
                    self.phase = RepairPhase::Ssid;
                    Step::Do(task::current_ssid(self.iface.as_str()))
                }
            },
            RepairPhase::Ssid => {
                self.current_ssid = o.text();
                self.phase = RepairPhase::Address;
                Step::Do(task::iface_ipv4(self.iface.as_str()))
            },
            RepairPhase::Address => {
                let ip = o.text();
                if self.associated() && ip.is_some() {
                    self.install(ip)
                } else if self.current_ssid.is_some() && ip.is_none() {
                    self.phase = RepairPhase::Leased;
                    Step::Do(
                        task::udhcpc(
                            self.iface.as_str(),
                            "proxy_ap phone AP start left car STA without IPv4",
                        ),
                    )
                } else {
                    self.ready()
                }
            },
            RepairPhase::Leased => self.ready(),
            RepairPhase::Ready => {
                self.phase = RepairPhase::AddressAgain;
                Step::Do(task::iface_ipv4(self.iface.as_str()))
            },
            RepairPhase::AddressAgain => {
                let ip = o.text();
                self.install(ip)
            },
            RepairPhase::Installed => {
                self.phase = RepairPhase::Ended;
                match o.error() {
                    Some(e) => Step::Fail(e),
                    None => task::succeed(self.src.as_str()),
                }
            },
            RepairPhase::Ended => vstd::pervasive::unreached(),
        }
    }
}

/// A route is only ever installed from an address that looks to be on the head
/// unit's network.
pub proof fn law_routes_stay_on_the_lan(m: RouteRepair<Seq<char>>, o: OutcomeModel)
    ensures
        repair_step(m, o).1 matches Step::Do(Task::InstallRoute { target, iface, source }) ==> {
            &&& same_lan(source, text::trimmed(target))
            &&& text::trimmed(source).len() > 0
            &&& target == m.target
            &&& iface == m.iface
        },
{
}

// ---------------------------------------------------------------------
// Connecting to the head unit

#[derive(Clone, Copy, PartialEq, Eq, Structural)]
pub enum ConnectPhase {
    Begin,
    Delayed(u64),
    Repaired(u64),
    Warmed(u64),
    Connected(u64),
    Ended,
}

/// How often the head unit is called.
pub const CONNECT_ATTEMPTS: u64 = 5;

pub struct HuConnect<T> {
    pub address: T,
    pub last_error: T,
    pub phase: ConnectPhase,
}

impl View for HuConnect<String> {
    type V = HuConnect<Seq<char>>;

    open spec fn view(&self) -> HuConnect<Seq<char>> {
        HuConnect { address: self.address@, last_error: self.last_error@, phase: self.phase }
    }
}

pub open spec fn hc(m: HuConnect<Seq<char>>, phase: ConnectPhase, step: StepModel) -> (
    HuConnect<Seq<char>>,
    StepModel,
) {
    (HuConnect { phase, ..m }, step)
}

/// One step of calling the head unit. Before each call the route is repaired
/// and tried out; neither need succeed. The pauses grow.
pub open spec fn connect_step(m: HuConnect<Seq<char>>, o: OutcomeModel) -> (
    HuConnect<Seq<char>>,
    StepModel,
) {
    match m.phase {
        ConnectPhase::Begin => hc(m, ConnectPhase::Repaired(1), Step::Do(Task::RepairRoute)),
        ConnectPhase::Delayed(n) => hc(m, ConnectPhase::Repaired(n), Step::Do(Task::RepairRoute)),
        ConnectPhase::Repaired(n) => hc(m, ConnectPhase::Warmed(n), Step::Do(Task::WarmRoute)),
        ConnectPhase::Warmed(n) => hc(
            m,
            ConnectPhase::Connected(n),
            Step::Do(Task::ConnectHu { secs: 5 }),
        ),
        ConnectPhase::Connected(n) => match task::error_of(o) {
            None => hc(m, ConnectPhase::Ended, Step::Succeed(m.address)),
            Some(e) => if n < CONNECT_ATTEMPTS {
                (
                    HuConnect {
                        phase: ConnectPhase::Delayed((n + 1) as u64),
                        last_error: e,
                        ..m
                    },
                    Step::Do(Task::Sleep { ms: (750 * (n + 1)) as u64 }),
                )
            } else {
                (
                    HuConnect { phase: ConnectPhase::Ended, last_error: e, ..m },
                    Step::Fail(
                        "real HU TCP "@ + m.address + " failed after 5 attempts; last error: "@
                            + e,
                    ),
                )
            },
        },
        ConnectPhase::Ended => (m, Step::Fail(Seq::empty())),
    }
}

impl HuConnect<String> {
    pub fn new(hu_tcp_addr: &str) -> (r: Self)
        ensures
            r@ == (HuConnect::<Seq<char>> {
                address: hu_tcp_addr@,
                last_error: Seq::empty(),
                phase: ConnectPhase::Begin,
            }),
    {
        HuConnect {
            address: hu_tcp_addr.to_owned(),
            last_error: String::new(),
            phase: ConnectPhase::Begin,
        }
    }

    pub fn step(&mut self, o: TaskOutcome) -> (r: WifiStep)
        requires
            old(self).phase != ConnectPhase::Ended,
        ensures
            (final(self)@, r@) == connect_step(old(self)@, o@),
    {
        match self.phase {
            ConnectPhase::Begin => {
                self.phase = ConnectPhase::Repaired(1);
                Step::Do(Task::RepairRoute)
            },
            ConnectPhase::Delayed(n) => {
                self.phase = ConnectPhase::Repaired(n);
                Step::Do(Task::RepairRoute)
            },
            ConnectPhase::Repaired(n) => {
                self.phase = ConnectPhase::Warmed(n);
                Step::Do(Task::WarmRoute)
            },
            ConnectPhase::Warmed(n) => {
                self.phase = ConnectPhase::Connected(n);
                Step::Do(task::connect_hu(5))
            },
            ConnectPhase::Connected(n) => {
                match o.error() {
                    None => {
                        self.phase = ConnectPhase::Ended;
                        task::succeed(self.address.as_str())
                    },
                    Some(e) => {
                        if n < CONNECT_ATTEMPTS {
                            self.phase = ConnectPhase::Delayed(n + 1);
                            self.last_error = e;
                            Step::Do(task::sleep(750 * (n + 1)))
                        } else {
                            self.phase = ConnectPhase::Ended;
                            let error = text::cat4(
                                "real HU TCP ",
                                self.address.as_str(),
                                " failed after 5 attempts; last error: ",
                                e.as_str(),
                            );
                            self.last_error = e;
                            Step::Fail(error)
                        }
                    },
                }
            },
            ConnectPhase::Ended => vstd::pervasive::unreached(),
        }
    }
}

/// The number of the call that a phase belongs to.
pub open spec fn connect_attempt(phase: ConnectPhase) -> u64 {
    match phase {
        ConnectPhase::Begin => 1,
        ConnectPhase::Delayed(n) => n,
        ConnectPhase::Repaired(n) => n,
        ConnectPhase::Warmed(n) => n,
        ConnectPhase::Connected(n) => n,
        ConnectPhase::Ended => CONNECT_ATTEMPTS,
    }
}

/// The head unit is called at most five times, and never before the route was
/// looked after.
pub proof fn law_hu_is_called_five_times_at_most(m: HuConnect<Seq<char>>, o: OutcomeModel)
    requires
        1 <= connect_attempt(m.phase) <= CONNECT_ATTEMPTS,
        m.phase != ConnectPhase::Ended,
    ensures
        connect_attempt(m.phase) <= connect_attempt(connect_step(m, o).0.phase)
            <= CONNECT_ATTEMPTS,
        connect_step(m, o).1 matches Step::Do(Task::ConnectHu { secs }) ==> m.phase is Warmed,
        m.phase is Connected && connect_step(m, o).1 is Do ==> connect_attempt(
            connect_step(m, o).0.phase,
        ) == connect_attempt(m.phase) + 1,
{
}

// ---------------------------------------------------------------------
// The address of the proxy on the car's network

/// The first word behind `key`, from `i` on, that looks to be on the network of
/// the target. Addresses may be followed by a slash; no target, no test.
pub open spec fn usable_word(
    words: Seq<Seq<char>>,
    key: Seq<char>,
    cut: bool,
    target: Seq<char>,
    i: int,
) -> Option<Seq<char>>
    decreases words.len() - i,
{
    if !(0 <= i && i + 1 < words.len()) {
        None
    } else {
        let word = if cut {
            wifi_text::before_slash(words[i + 1])
        } else {
            words[i + 1]
        };
        if words[i] == key && (target.len() == 0 || same_lan(word, target)) {
            Some(word)
        } else {
            usable_word(words, key, cut, target, i + 1)
        }
    }
}

fn find_usable(out: &str, key: &str, cut: bool, target: &str) -> (r: Option<String>)
    ensures
        r.deep_view() == usable_word(text::words(out@), key@, cut, target@, 0),
{
    let tokens = text::split_whitespace(out);
    let ghost w = text::words(out@);
    let n: usize = tokens.len();
    let mut i: usize = 0;
    while n - i > 1
        invariant
            n == tokens@.len(),
            i <= n,
            w == text::words(out@),
            w == tokens.deep_view(),
            usable_word(w, key@, cut, target@, 0) == usable_word(w, key@, cut, target@, i as int),
        decreases n - i,
    {
        assert(w[i as int] == tokens@[i as int]@);
        assert(w[i + 1] == tokens@[i + 1]@);
        if text::same(tokens[i].as_str(), key) {
            let word = if cut {
                wifi_text::cut_slash(tokens[i + 1].as_str())
            } else {
                tokens[i + 1].clone()
            };
            if target.is_empty() || ipv4_likely_same_lan(word.as_str(), target) {
                return Some(word);
            }
        }
        i = i + 1;
    }
    None
}

/// The source address in the output of `ip -4 route get`.
pub open spec fn route_source(out: Option<Seq<char>>, target: Seq<char>) -> Option<Seq<char>> {
    match out {
        Some(text) => usable_word(text::words(text), "src"@, false, target, 0),
        None => None,
    }
}

/// The address in the output of `ip -4 addr show`.
pub open spec fn shown_source(out: Option<Seq<char>>, target: Seq<char>) -> Option<Seq<char>> {
    match out {
        Some(text) => usable_word(text::words(text), "inet"@, true, target, 0),
        None => None,
    }
}

#[derive(Clone, Copy, PartialEq, Eq, Structural)]
pub enum RewritePhase {
    Begin,
    Route,
    Shown,
    Leased,
    RouteAgain,
    AddressAgain,
    Ended,
}

pub struct RewriteIp<T> {
    pub target: T,
    pub iface: T,
    pub configured: T,
    pub phase: RewritePhase,
}

impl View for RewriteIp<String> {
    type V = RewriteIp<Seq<char>>;

    open spec fn view(&self) -> RewriteIp<Seq<char>> {
        RewriteIp {
            target: self.target@,
            iface: self.iface@,
            configured: self.configured@,
            phase: self.phase,
        }
    }
}

pub open spec fn ri(m: RewriteIp<Seq<char>>, phase: RewritePhase, step: StepModel) -> (
    RewriteIp<Seq<char>>,
    StepModel,
) {
    (RewriteIp { phase, ..m }, step)
}

pub open spec fn ri_none(m: RewriteIp<Seq<char>>) -> (RewriteIp<Seq<char>>, StepModel) {
    ri(
        m,
        RewritePhase::Ended,
        Step::Fail("could not discover local rewrite IP; set bt_wireless_proxy_rewrite_ip"@),
    )
}

pub open spec fn ri_lease(m: RewriteIp<Seq<char>>) -> (RewriteIp<Seq<char>>, StepModel) {
    if m.iface.len() > 0 && m.target.len() > 0 {
        ri(
            m,
            RewritePhase::Leased,
            Step::Do(
                Task::Udhcpc {
                    iface: m.iface,
                    reason: "rewrite IP discovery had no suitable source address"@,
                },
            ),
        )
    } else {
        ri_none(m)
    }
}

pub open spec fn ri_shown(m: RewriteIp<Seq<char>>) -> (RewriteIp<Seq<char>>, StepModel) {
    if m.iface.len() > 0 {
        ri(m, RewritePhase::Shown, Step::Do(Task::AddressesOf { iface: m.iface }))
    } else {
        ri_lease(m)
    }
}

pub open spec fn ri_found(m: RewriteIp<Seq<char>>, ip: Seq<char>) -> (
    RewriteIp<Seq<char>>,
    StepModel,
) {
    ri(m, RewritePhase::Ended, Step::Succeed(ip))
}

/// One step of finding the address: the configured one; the source of the route
/// to the head unit; an address of the interface; and once more behind DHCP.
pub open spec fn rewrite_step(m: RewriteIp<Seq<char>>, o: OutcomeModel) -> (
    RewriteIp<Seq<char>>,
    StepModel,
) {
    match m.phase {
        RewritePhase::Begin => if m.configured.len() > 0 {
            ri_found(m, m.configured)
        } else if m.target.len() > 0 {
            ri(m, RewritePhase::Route, Step::Do(Task::RouteTo { target: m.target }))
        } else {
            ri_shown(m)
        },
        RewritePhase::Route => match route_source(task::found(o), m.target) {
            Some(ip) => ri_found(m, ip),
            None => ri_shown(m),
        },
        RewritePhase::Shown => match shown_source(task::found(o), m.target) {
            Some(ip) => ri_found(m, ip),
            None => ri_lease(m),
        },
        RewritePhase::Leased => ri(
            m,
            RewritePhase::RouteAgain,
            Step::Do(Task::RouteTo { target: m.target }),
        ),
        RewritePhase::RouteAgain => match route_source(task::found(o), m.target) {
            Some(ip) => ri_found(m, ip),
            None => ri(
                m,
                RewritePhase::AddressAgain,
                Step::Do(Task::IfaceIpv4 { iface: m.iface }),
            ),
        },
        RewritePhase::AddressAgain => match task::found(o) {
            Some(ip) => if same_lan(ip, m.target) {
                ri_found(m, ip)
            } else {
                ri_none(m)
            },
            None => ri_none(m),
        },
        RewritePhase::Ended => (m, Step::Fail(Seq::empty())),
    }
}

impl RewriteIp<String> {
    pub fn new(target_ip: &str, iface: &str, override_ip: &str) -> (r: Self)
        ensures
            r@ == (RewriteIp::<Seq<char>> {
                target: text::trimmed(target_ip@),
                iface: text::trimmed(iface@),
                configured: text::trimmed(override_ip@),
                phase: RewritePhase::Begin,
            }),
    {
        RewriteIp {
            target: text::trim(target_ip).to_owned(),
            iface: text::trim(iface).to_owned(),
            configured: text::trim(override_ip).to_owned(),
            phase: RewritePhase::Begin,
        }
    }

    fn found(&mut self, ip: String) -> (r: WifiStep)
        ensures
            (final(self)@, r@) == ri_found(old(self)@, ip@),
    {
        self.phase = RewritePhase::Ended;
        Step::Succeed(ip)
    }

    fn none(&mut self) -> (r: WifiStep)
        ensures
            (final(self)@, r@) == ri_none(old(self)@),
    {
        self.phase = RewritePhase::Ended;
        task::fail("could not discover local rewrite IP; set bt_wireless_proxy_rewrite_ip")
    }

    fn lease(&mut self) -> (r: WifiStep)
        ensures
            (final(self)@, r@) == ri_lease(old(self)@),
    {
        if !self.iface.as_str().is_empty() && !self.target.as_str().is_empty() {
            self.phase = RewritePhase::Leased;
            Step::Do(
                task::udhcpc(
                    self.iface.as_str(),
                    "rewrite IP discovery had no suitable source address",
                ),
            )
        } else {
            self.none()
        }
    }

    fn shown(&mut self) -> (r: WifiStep)
        ensures
            (final(self)@, r@) == ri_shown(old(self)@),
    {
        if !self.iface.as_str().is_empty() {
            self.phase = RewritePhase::Shown;
            Step::Do(task::addresses_of(self.iface.as_str()))
        } else {
            self.lease()
        }
    }

    pub fn step(&mut self, o: TaskOutcome) -> (r: WifiStep)
        requires
            old(self).phase != RewritePhase::Ended,
        ensures
            (final(self)@, r@) == rewrite_step(old(self)@, o@),
    {
        match self.phase {
            RewritePhase::Begin => {
                if !self.configured.as_str().is_empty() {
                    let ip = self.configured.clone();
                    self.found(ip)
                } else if !self.target.as_str().is_empty() {
                    self.phase = RewritePhase::Route;
                    Step::Do(task::route_to(self.target.as_str()))
                } else {
                    self.shown()
                }
            },
            RewritePhase::Route => {
                let ip = match o.text() {
                    Some(out) => find_usable(out.as_str(), "src", false, self.target.as_str()),
                    None => None,
                };
                match ip {
                    Some(ip) => self.found(ip),
                    None => self.shown(),
                }
            },
            RewritePhase::Shown => {
                let ip = match o.text() {
                    Some(out) => find_usable(out.as_str(), "inet", true, self.target.as_str()),
                    None => None,
                };
                match ip {
                    Some(ip) => self.found(ip),
                    None => self.lease(),
                }
            },
            RewritePhase::Leased => {
                self.phase = RewritePhase::RouteAgain;
                Step::Do(task::route_to(self.target.as_str()))
            },
            RewritePhase::RouteAgain => {
                let ip = match o.text() {
                    Some(out) => find_usable(out.as_str(), "src", false, self.target.as_str()),
                    None => None,
                };
                match ip {
                    Some(ip) => self.found(ip),
                    None => {
                        self.phase = RewritePhase::AddressAgain;
                        Step::Do(task::iface_ipv4(self.iface.as_str()))
                    },
                }
            },
            RewritePhase::AddressAgain => {
                match o.text() {
                    Some(ip) => {
                        if ipv4_likely_same_lan(ip.as_str(), self.target.as_str()) {
                            self.found(ip)
                        } else {
                            self.none()
                        }
                    },
                    None => self.none(),
                }
            },
            RewritePhase::Ended => vstd::pervasive::unreached(),
        }
    }
}

proof fn lemma_usable_word(
    words: Seq<Seq<char>>,
    key: Seq<char>,
    cut: bool,
    target: Seq<char>,
    i: int,
)
    ensures
        usable_word(words, key, cut, target, i) matches Some(ip) ==> target.len() == 0 || same_lan(
            ip,
            target,
        ),
    decreases words.len() - i,
{
    if 0 <= i && i + 1 < words.len() {
        lemma_usable_word(words, key, cut, target, i + 1);
    }
}

/// An address that was not configured is only ever one from which the head unit
/// looks reachable, where it is known.
pub proof fn law_found_address_is_on_the_lan(m: RewriteIp<Seq<char>>, o: OutcomeModel)
    requires
        m.phase != RewritePhase::Ended,
        m.configured.len() == 0,
    ensures
        rewrite_step(m, o).1 matches Step::Succeed(ip) ==> m.target.len() == 0 || same_lan(
            ip,
            m.target,
        ),
{
    match task::found(o) {
        Some(out) => {
            lemma_usable_word(text::words(out), "src"@, false, m.target, 0);
            lemma_usable_word(text::words(out), "inet"@, true, m.target, 0);
        },
        None => {},
    }
}

// ---------------------------------------------------------------------
// Whole courses

/// Two IPv4 addresses are taken for one network by as many numbers as such networks
/// share: one where either begins with 10, three where either begins with 192, and else
/// two.
pub proof fn law_networks_are_told_by_their_first_numbers(a: Seq<char>, b: Seq<char>)
    requires
        net_text::is_ipv4(a) && net_text::is_ipv4(b),
    ensures
        ({
            let s = net_text::ipv4_octets(a);
            let t = net_text::ipv4_octets(b);
            let n = if s[0] == 10 || t[0] == 10 {
                1int
            } else if s[0] == 192 || t[0] == 192 {
                3int
            } else {
                2int
            };
            same_lan(a, b) <==> forall|i: int| 0 <= i < n ==> #[trigger] s[i] == t[i]
        }),
{
    let s = net_text::ipv4_octets(a);
    let t = net_text::ipv4_octets(b);
    if forall|i: int| 0 <= i < 1 ==> #[trigger] s[i] == t[i] {
        assert(s[0] == t[0]);
    }
    if forall|i: int| 0 <= i < 2 ==> #[trigger] s[i] == t[i] {
        assert(s[0] == t[0] && s[1] == t[1]);
    }
    if forall|i: int| 0 <= i < 3 ==> #[trigger] s[i] == t[i] {
        assert(s[0] == t[0] && s[1] == t[1] && s[2] == t[2]);
    }
}

/// What is no IPv4 address may be anywhere.
pub proof fn law_other_addresses_may_be_anywhere(a: Seq<char>, b: Seq<char>)
    requires
        !net_text::is_ipv4(a) || !net_text::is_ipv4(b),
    ensures
        same_lan(a, b),
{
}

/// The command for a route: to that host alone, by that interface and from that address,
/// each read by the shell as it is.
pub proof fn law_route_names_its_host(target: Seq<char>, iface: Seq<char>, src: Seq<char>)
    ensures
        route_command(target, iface, src) == "ip -4 route replace "@ + wifi_text::quoted(target)
            + "/32 dev "@ + wifi_text::quoted(iface) + " src "@ + wifi_text::quoted(src),
{
}

pub open spec fn is_rewrite_stretch(
    outcomes: Seq<OutcomeModel>,
    states: Seq<RewriteIp<Seq<char>>>,
    steps: Seq<StepModel>,
) -> bool {
    &&& states.len() == outcomes.len() + 1 && steps.len() == outcomes.len()
    &&& forall|k: int|
        0 <= k < outcomes.len() ==> (states[k + 1], #[trigger] steps[k]) == rewrite_step(
            states[k],
            outcomes[k],
        )
}

/// A configured address is taken as it is, and nothing is asked.
pub proof fn law_configured_address_is_taken(m: RewriteIp<Seq<char>>, o: OutcomeModel)
    requires
        m.phase == RewritePhase::Begin,
        m.configured.len() > 0,
    ensures
        rewrite_step(m, o).1 == StepModel::Succeed(m.configured),
{
}

/// Else the kernel is asked for the route to the head unit, then for the interface's
/// addresses; then an address is asked for and both are looked at again. The first
/// address that will do is the answer, and where none does there is none.
pub proof fn law_address_is_looked_for(
    outcomes: Seq<OutcomeModel>,
    states: Seq<RewriteIp<Seq<char>>>,
    steps: Seq<StepModel>,
)
    requires
        is_rewrite_stretch(outcomes, states, steps),
        outcomes.len() == 6,
        states[0].phase == RewritePhase::Begin,
        states[0].configured.len() == 0,
        states[0].target.len() > 0 && states[0].iface.len() > 0,
    ensures
        ({
            let target = states[0].target;
            let iface = states[0].iface;
            let by_route = route_source(task::found(outcomes[1]), target);
            let by_iface = shown_source(task::found(outcomes[2]), target);
            let by_route_again = route_source(task::found(outcomes[4]), target);
            &&& steps[0] == StepModel::Do(Task::RouteTo { target })
            &&& by_route matches Some(ip) ==> steps[1] == StepModel::Succeed(ip)
            &&& by_route is None ==> {
                &&& steps[1] == StepModel::Do(Task::AddressesOf { iface })
                &&& by_iface matches Some(ip) ==> steps[2] == StepModel::Succeed(ip)
                &&& by_iface is None ==> {
                    &&& steps[2] matches Step::Do(Task::Udhcpc { iface: i, .. }) && i == iface
                    &&& steps[3] == StepModel::Do(Task::RouteTo { target })
                    &&& by_route_again matches Some(ip) ==> steps[4] == StepModel::Succeed(ip)
                    &&& by_route_again is None ==> {
                        &&& steps[4] == StepModel::Do(Task::IfaceIpv4 { iface })
                        &&& task::found(outcomes[5]) is Some && same_lan(
                            task::found(outcomes[5])->0,
                            target,
                        ) ==> steps[5] == StepModel::Succeed(task::found(outcomes[5])->0)
                        &&& (task::found(outcomes[5]) is None || !same_lan(
                            task::found(outcomes[5])->0,
                            target,
                        )) ==> steps[5] is Fail
                    }
                }
            }
        }),
{
    assert(steps[0] == rewrite_step(states[0], outcomes[0]).1);
    assert(steps[1] == rewrite_step(states[1], outcomes[1]).1);
    assert(steps[2] == rewrite_step(states[2], outcomes[2]).1);
    assert(steps[3] == rewrite_step(states[3], outcomes[3]).1);
    assert(steps[4] == rewrite_step(states[4], outcomes[4]).1);
    assert(steps[5] == rewrite_step(states[5], outcomes[5]).1);
}

/// The address stands behind `src` in a route and behind `inet` among an interface's
/// addresses, there without the length of its network; the first one counts that looks
/// to be on the head unit's network.
pub proof fn law_first_fitting_address_counts(
    words: Seq<Seq<char>>,
    key: Seq<char>,
    cut: bool,
    target: Seq<char>,
    i: int,
    k: int,
)
    requires
        0 <= i <= k && k + 1 < words.len(),
        words[k] == key,
        target.len() == 0 || same_lan(
            if cut {
                wifi_text::before_slash(words[k + 1])
            } else {
                words[k + 1]
            },
            target,
        ),
        forall|j: int|
            i <= j < k ==> #[trigger] words[j] != key || (target.len() > 0 && !same_lan(
                if cut {
                    wifi_text::before_slash(words[j + 1])
                } else {
                    words[j + 1]
                },
                target,
            )),
    ensures
        usable_word(words, key, cut, target, i) == Some(
            if cut {
                wifi_text::before_slash(words[k + 1])
            } else {
                words[k + 1]
            },
        ),
    decreases k - i,
{
    if i < k {
        assert(words[i] != key || (target.len() > 0 && !same_lan(
            if cut {
                wifi_text::before_slash(words[i + 1])
            } else {
                words[i + 1]
            },
            target,
        )));
        law_first_fitting_address_counts(words, key, cut, target, i + 1, k);
    }
}

pub proof fn law_addresses_stand_behind_their_words(out: Seq<char>, target: Seq<char>)
    ensures
        route_source(Some(out), target) == usable_word(text::words(out), "src"@, false, target, 0),
        shown_source(Some(out), target) == usable_word(text::words(out), "inet"@, true, target, 0),
        route_source(None, target) is None,
        shown_source(None, target) is None,
{
}

pub open spec fn is_repair_stretch(
    outcomes: Seq<OutcomeModel>,
    states: Seq<RouteRepair<Seq<char>>>,
    steps: Seq<StepModel>,
) -> bool {
    &&& states.len() == outcomes.len() + 1 && steps.len() == outcomes.len()
    &&& forall|k: int|
        0 <= k < outcomes.len() ==> (states[k + 1], #[trigger] steps[k]) == repair_step(
            states[k],
            outcomes[k],
        )
}

/// An interface that is in the car's network with an address gets the route to the head
/// unit from that address, and the address is told.
pub proof fn law_route_is_installed_at_once(
    outcomes: Seq<OutcomeModel>,
    states: Seq<RouteRepair<Seq<char>>>,
    steps: Seq<StepModel>,
    ssid: Seq<char>,
    ip: Seq<char>,
)
    requires
        is_repair_stretch(outcomes, states, steps),
        outcomes.len() == 4,
        states[0].phase == RepairPhase::Begin,
        states[0].iface.len() > 0,
        outcomes[1] == task::Outcome::<Seq<char>, Seq<Seq<char>>>::Found(Some(ssid)),
        text::trimmed(states[0].ssid).len() == 0 || ssid == text::trimmed(states[0].ssid),
        outcomes[2] == task::Outcome::<Seq<char>, Seq<Seq<char>>>::Found(Some(ip)),
        text::trimmed(ip).len() > 0,
    ensures
        ({
            let iface = states[0].iface;
            &&& steps[0] == StepModel::Do(Task::CurrentSsid { iface })
            &&& steps[1] == StepModel::Do(Task::IfaceIpv4 { iface })
            &&& !same_lan(ip, text::trimmed(states[0].target)) ==> steps[2] is Fail
            &&& same_lan(ip, text::trimmed(states[0].target)) ==> {
                &&& steps[2] == StepModel::Do(
                    Task::InstallRoute { target: states[0].target, iface, source: ip },
                )
                &&& task::error_of(outcomes[3]) is None ==> steps[3] == StepModel::Succeed(ip)
                &&& task::error_of(outcomes[3]) matches Some(e) ==> steps[3] == StepModel::Fail(e)
            }
        }),
{
    assert(steps[0] == repair_step(states[0], outcomes[0]).1);
    assert(steps[1] == repair_step(states[1], outcomes[1]).1);
    assert(steps[2] == repair_step(states[2], outcomes[2]).1);
    assert(steps[3] == repair_step(states[3], outcomes[3]).1);
}

/// An interface without an address asks for one and is waited for; then the route is
/// installed from the address that it has, or from the one that it had.
pub proof fn law_route_is_installed_behind_a_lease(
    outcomes: Seq<OutcomeModel>,
    states: Seq<RouteRepair<Seq<char>>>,
    steps: Seq<StepModel>,
)
    requires
        is_repair_stretch(outcomes, states, steps),
        outcomes.len() == 4,
        states[0].phase == RepairPhase::Address,
        states[0].current_ssid is Some,
        task::found(outcomes[0]) is None,
    ensures
        ({
            let m = states[0];
            let src = match task::found(outcomes[3]) {
                Some(ip) => ip,
                None => text::trimmed(m.expected_src),
            };
            &&& steps[0] matches Step::Do(Task::Udhcpc { iface, .. }) && iface == m.iface
            &&& steps[1] == StepModel::Do(
                Task::AwaitReady { iface: m.iface, ssid: m.ssid, ms: 5000 },
            )
            &&& steps[2] == StepModel::Do(Task::IfaceIpv4 { iface: m.iface })
            &&& text::trimmed(src).len() == 0 ==> steps[3] is Fail
            &&& text::trimmed(src).len() > 0 && same_lan(src, text::trimmed(m.target))
                ==> steps[3] == StepModel::Do(
                Task::InstallRoute { target: m.target, iface: m.iface, source: src },
            )
            &&& text::trimmed(src).len() > 0 && !same_lan(src, text::trimmed(m.target))
                ==> steps[3] is Fail
        }),
{
    assert(steps[0] == repair_step(states[0], outcomes[0]).1);
    assert(steps[1] == repair_step(states[1], outcomes[1]).1);
    assert(steps[2] == repair_step(states[2], outcomes[2]).1);
    assert(steps[3] == repair_step(states[3], outcomes[3]).1);
}

/// An interface in another network, or in none, is waited for without a request.
pub proof fn law_lost_network_is_waited_for(m: RouteRepair<Seq<char>>, o: OutcomeModel)
    requires
        m.phase == RepairPhase::Address,
        m.current_ssid is None || (task::found(o) is Some && text::trimmed(m.ssid).len() > 0
            && m.current_ssid != Some(text::trimmed(m.ssid))),
    ensures
        repair_step(m, o).1 == StepModel::Do(
            Task::AwaitReady { iface: m.iface, ssid: m.ssid, ms: 5000 },
        ),
{
}

pub open spec fn is_connect_stretch(
    outcomes: Seq<OutcomeModel>,
    states: Seq<HuConnect<Seq<char>>>,
    steps: Seq<StepModel>,
) -> bool {
    &&& states.len() == outcomes.len() + 1 && steps.len() == outcomes.len()
    &&& forall|k: int|
        0 <= k < outcomes.len() ==> (states[k + 1], #[trigger] steps[k]) == connect_step(
            states[k],
            outcomes[k],
        )
}

/// Before each call of the head unit the route is mended and tried out, whatever comes of
/// that; a call that is answered ends it, and behind one that is not there is a pause
/// that grows by three quarters of a second, until the fifth call fails too.
pub proof fn law_head_unit_is_called(
    outcomes: Seq<OutcomeModel>,
    states: Seq<HuConnect<Seq<char>>>,
    steps: Seq<StepModel>,
    n: u64,
)
    requires
        is_connect_stretch(outcomes, states, steps),
        outcomes.len() == 4,
        1 <= n <= 5,
        states[0].phase == ConnectPhase::Begin && n == 1 || states[0].phase
            == ConnectPhase::Delayed(n),
    ensures
        steps[0] == StepModel::Do(Task::RepairRoute),
        steps[1] == StepModel::Do(Task::WarmRoute),
        steps[2] == StepModel::Do(Task::ConnectHu { secs: 5 }),
        task::error_of(outcomes[3]) is None ==> steps[3] == StepModel::Succeed(states[0].address),
        task::error_of(outcomes[3]) is Some && n < 5 ==> steps[3] == StepModel::Do(
            Task::Sleep { ms: (750 * (n + 1)) as u64 },
        ) && states[4].phase == ConnectPhase::Delayed((n + 1) as u64) && states[4].address
            == states[0].address,
        task::error_of(outcomes[3]) is Some && n == 5 ==> (steps[3] matches Step::Fail(t)
            && text::holds(t, task::error_of(outcomes[3])->0)),
{
    assert(steps[0] == connect_step(states[0], outcomes[0]).1);
    assert(steps[1] == connect_step(states[1], outcomes[1]).1);
    assert(steps[2] == connect_step(states[2], outcomes[2]).1);
    assert(steps[3] == connect_step(states[3], outcomes[3]).1);
    if let Some(e) = task::error_of(outcomes[3]) {
        let head = "real HU TCP "@ + states[0].address + " failed after 5 attempts; last error: "@;
        text::lemma_holds_within(head, e, Seq::empty());
        assert(head + e + Seq::<char>::empty() =~= head + e);
    }
}

/// Where no address was found, an address is asked for on the interface if the
/// head unit is known; without an interface or a head unit it is given up.
pub proof fn law_address_is_leased_or_given_up(m: RewriteIp<Seq<char>>)
    ensures
        m.iface.len() > 0 && m.target.len() > 0 ==> ri_lease(m).1 == Step::<
            Seq<char>,
            Seq<Seq<char>>,
        >::Do(
            Task::Udhcpc {
                iface: m.iface,
                reason: "rewrite IP discovery had no suitable source address"@,
            },
        ) && ri_lease(m).0.phase == RewritePhase::Leased,
        m.iface.len() == 0 || m.target.len() == 0 ==> ri_lease(m).1 == Step::<
            Seq<char>,
            Seq<Seq<char>>,
        >::Fail("could not discover local rewrite IP; set bt_wireless_proxy_rewrite_ip"@)
            && ri_lease(m).0.phase == RewritePhase::Ended,
        m.iface.len() > 0 ==> ri_shown(m).1 == Step::<Seq<char>, Seq<Seq<char>>>::Do(
            Task::AddressesOf { iface: m.iface },
        ),
        m.iface.len() == 0 ==> ri_shown(m).1 is Fail,
{
}

/// A route that cannot be installed is told with what it was to be made of.
pub proof fn law_route_errors_name_the_route(target: Seq<char>, iface: Seq<char>, src: Seq<char>)
    ensures
        text::holds(route_source_error(target, iface, src), target),
        text::holds(route_source_error(target, iface, src), iface),
        text::holds(route_source_error(target, iface, src), src),
        text::holds(route_args_error(target, iface, src), text::str_debug_text(target)),
        text::holds(route_args_error(target, iface, src), text::str_debug_text(iface)),
        text::holds(route_args_error(target, iface, src), text::str_debug_text(src)),
{
    let e = route_source_error(target, iface, src);
    let none = Seq::<char>::empty();
    let a = "cannot install IPv4 car-side route to "@;
    text::lemma_holds_within(
        a,
        target,
        " via "@ + iface + " because source "@ + src + " is not IPv4"@,
    );
    assert(e =~= a + target + (" via "@ + iface + " because source "@ + src + " is not IPv4"@));
    text::lemma_holds_within(
        a + target + " via "@,
        iface,
        " because source "@ + src + " is not IPv4"@,
    );
    assert(e =~= a + target + " via "@ + iface + (" because source "@ + src + " is not IPv4"@));
    text::lemma_holds_within(
        a + target + " via "@ + iface + " because source "@,
        src,
        " is not IPv4"@,
    );
    let e = route_args_error(target, iface, src);
    let b = "cannot install car-side host route with target_ip="@;
    let (t, i, s) = (
        text::str_debug_text(target),
        text::str_debug_text(iface),
        text::str_debug_text(src),
    );
    text::lemma_holds_within(b, t, " iface="@ + i + " src_ip="@ + s);
    assert(e =~= b + t + (" iface="@ + i + " src_ip="@ + s));
    text::lemma_holds_within(b + t + " iface="@, i, " src_ip="@ + s);
    assert(e =~= b + t + " iface="@ + i + (" src_ip="@ + s));
    text::lemma_holds_within(b + t + " iface="@ + i + " src_ip="@, s, none);
    assert(e =~= b + t + " iface="@ + i + " src_ip="@ + s + none);
}

} // verus!
