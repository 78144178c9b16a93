//! Making, finding and taking over the interfaces that the proxy needs, and the
//! access point that it offers to the phone.

use crate::task;
use crate::task::OutcomeModel;
use crate::task::Step;
use crate::task::StepModel;
use crate::task::Task;
use crate::task::TaskOutcome;
use crate::task::WifiStep;
use crate::text;
use crate::wifi_text;
use crate::wifi_text::shell_quote;
use vstd::prelude::*;
use vstd::string::StringExecFns;

verus! {

// ---------------------------------------------------------------------
// Wireless interfaces on the USB bus

/// Whether a device path leads over the USB bus.
pub open spec fn is_usb_path(path: Seq<char>) -> bool {
    text::holds(path, "/usb"@)
}

pub fn iface_device_path_looks_usb(path: &str) -> (r: bool)
    ensures
        r == is_usb_path(path@),
{
    text::contains(path, "/usb")
}

/// An interface that was seen: whether its device path leads over the USB bus,
/// and whether the kernel lists it.
pub struct SeenIface {
    pub name: String,
    pub on_usb: bool,
    pub listed: bool,
}

/// A wireless interface other than the excluded one is a candidate.
pub open spec fn is_candidate(name: Seq<char>, exclude: Seq<char>, listed: bool) -> bool {
    let iface = text::trimmed(name);
    iface.len() > 0 && iface != exclude && text::begins(iface, "wl"@) && listed
}

pub open spec fn with_candidate(
    out: Seq<Seq<char>>,
    name: Seq<char>,
    exclude: Seq<char>,
    listed: bool,
) -> Seq<Seq<char>> {
    if is_candidate(name, exclude, listed) {
        text::pushed_once(out, text::trimmed(name))
    } else {
        out
    }
}

pub fn push_unique_usb_wlan_candidate(
    out: &mut Vec<String>,
    iface: &str,
    exclude_iface: &str,
    listed: bool,
)
    ensures
        final(out).deep_view() == with_candidate(
            old(out).deep_view(),
            iface@,
            exclude_iface@,
            listed,
        ),
{
    let iface = text::trim(iface);
    if iface.is_empty() || text::same(iface, exclude_iface) || !text::starts_with(iface, "wl")
        || !listed {
        return ;
    }
    text::push_once(out, iface);
}

pub open spec fn candidates_of(seen: Seq<SeenIface>, exclude: Seq<char>, n: int) -> Seq<Seq<char>>
    decreases n,
{
    if n <= 0 || n > seen.len() {
        Seq::empty()
    } else {
        let before = candidates_of(seen, exclude, n - 1);
        let s = seen[n - 1];
        if s.on_usb {
            with_candidate(before, s.name@, exclude, s.listed)
        } else {
            before
        }
    }
}

/// Texts in the order of their characters.
pub open spec fn text_le(a: Seq<char>, b: Seq<char>) -> bool
    decreases a.len(),
{
    if a.len() == 0 {
        true
    } else if b.len() == 0 {
        false
    } else if a[0] != b[0] {
        a[0] < b[0]
    } else {
        text_le(a.subrange(1, a.len() as int), b.subrange(1, b.len() as int))
    }
}

pub open spec fn is_sorted(list: Seq<Seq<char>>) -> bool {
    forall|i: int, j: int|
        0 <= i < j < list.len() ==> text_le(#[trigger] list[i], #[trigger] list[j])
}

proof fn lemma_le_total(a: Seq<char>, b: Seq<char>)
    ensures
        text_le(a, b) || text_le(b, a),
    decreases a.len(),
{
    if a.len() > 0 && b.len() > 0 && a[0] == b[0] {
        lemma_le_total(a.subrange(1, a.len() as int), b.subrange(1, b.len() as int));
    }
}

proof fn lemma_le_transitive(a: Seq<char>, b: Seq<char>, c: Seq<char>)
    requires
        text_le(a, b),
        text_le(b, c),
    ensures
        text_le(a, c),
    decreases a.len(),
{
    if a.len() > 0 && b.len() > 0 && c.len() > 0 && a[0] == b[0] && b[0] == c[0] {
        lemma_le_transitive(
            a.subrange(1, a.len() as int),
            b.subrange(1, b.len() as int),
            c.subrange(1, c.len() as int),
        );
    }
}

fn text_before(a: &str, b: &str) -> (r: bool)
    ensures
        r == text_le(a@, b@),
{
    let x = text::chars_of(a);
    let y = text::chars_of(b);
    let mut i: usize = 0;
    assert(a@.subrange(0, a@.len() as int) =~= a@);
    assert(b@.subrange(0, b@.len() as int) =~= b@);
    while i < x.len() && i < y.len()
        invariant
            x@ == a@,
            y@ == b@,
            i <= x@.len(),
            i <= y@.len(),
            text_le(a@, b@) == text_le(
                a@.subrange(i as int, a@.len() as int),
                b@.subrange(i as int, b@.len() as int),
            ),
        decreases x@.len() - i,
    {
        let ghost p = a@.subrange(i as int, a@.len() as int);
        let ghost q = b@.subrange(i as int, b@.len() as int);
        if x[i] != y[i] {
            assert(p[0] != q[0]);
            return x[i] < y[i];
        }
        assert(p.subrange(1, p.len() as int) =~= a@.subrange(i + 1, a@.len() as int));
        assert(q.subrange(1, q.len() as int) =~= b@.subrange(i + 1, b@.len() as int));
        i = i + 1;
    }
    i == x.len()
}

/// Puts the texts of a list in order.
pub fn sort_texts(list: Vec<String>) -> (r: Vec<String>)
    ensures
        is_sorted(r.deep_view()),
        r.deep_view().to_multiset() == list.deep_view().to_multiset(),
{
    let mut out: Vec<String> = Vec::new();
    let ghost l = list.deep_view();
    assert(l.take(0) =~= Seq::<Seq<char>>::empty());
    assert(out.deep_view() =~= Seq::<Seq<char>>::empty());
    for i in 0..list.len()
        invariant
            l == list.deep_view(),
            is_sorted(out.deep_view()),
            out.deep_view().to_multiset() == l.take(i as int).to_multiset(),
    {
        let ghost before = out.deep_view();
        let x = list[i].clone();
        let mut k: usize = out.len();
        while k > 0 && !text_before(out[k - 1].as_str(), x.as_str())
            invariant
                k <= out@.len(),
                before == out.deep_view(),
                is_sorted(before),
                forall|j: int| k <= j < before.len() ==> text_le(x@, #[trigger] before[j]),
            decreases k,
        {
            proof {
                assert(before[k - 1] == out@[k - 1]@);
                lemma_le_total(before[k - 1], x@);
            }
            k = k - 1;
        }
        proof {
            if k > 0 {
                assert(before[k - 1] == out@[k - 1]@);
                assert forall|j: int| 0 <= j < k implies text_le(#[trigger] before[j], x@) by {
                    if j < k - 1 {
                        assert(text_le(before[j], before[k - 1]));
                        lemma_le_transitive(before[j], before[k - 1], x@);
                    }
                }
            }
        }
        out.insert(k, x);
        let ghost after = out.deep_view();
        assert(after =~= before.insert(k as int, x@));
        proof {
            assert forall|a: int, b: int| 0 <= a < b < after.len() implies text_le(
                #[trigger] after[a],
                #[trigger] after[b],
            ) by {
                if a < k && b < k {
                    assert(text_le(before[a], before[b]));
                } else if a < k && b == k {
                    assert(text_le(before[a], x@));
                } else if a < k {
                    assert(text_le(before[a], before[b - 1]));
                } else if a == k {
                    assert(text_le(x@, before[b - 1]));
                } else {
                    assert(text_le(before[a - 1], before[b - 1]));
                }
            }
            assert(l.take(i as int + 1) =~= l.take(i as int).push(list@[i as int]@));
            vstd::seq_lib::to_multiset_insert(before, k as int, x@);
            vstd::seq_lib::to_multiset_build(l.take(i as int), x@);
        }
    }
    assert(l.take(l.len() as int) =~= l);
    out
}

/// The candidates among the interfaces that were seen, each once, in order.
pub fn usb_wlan_candidates(seen: &Vec<SeenIface>, exclude_iface: &str) -> (r: Vec<String>)
    ensures
        is_sorted(r.deep_view()),
        r.deep_view().to_multiset() == candidates_of(
            seen@,
            text::trimmed(exclude_iface@),
            seen@.len() as int,
        ).to_multiset(),
{
    let exclude = text::trim(exclude_iface);
    let mut out: Vec<String> = Vec::new();
    assert(out.deep_view() =~= Seq::<Seq<char>>::empty());
    for i in 0..seen.len()
        invariant
            exclude@ == text::trimmed(exclude_iface@),
            out.deep_view() == candidates_of(seen@, exclude@, i as int),
    {
        if seen[i].on_usb {
            push_unique_usb_wlan_candidate(
                &mut out,
                seen[i].name.as_str(),
                exclude,
                seen[i].listed,
            );
        }
    }
    sort_texts(out)
}

// ---------------------------------------------------------------------
// The interface for the car's network beside an access point of its own

#[derive(Clone, Copy, PartialEq, Eq, Structural)]
pub enum ExternalPhase {
    Begin,
    Configured,
    Scanned,
    Fallback,
    Paused,
    Ended,
}

/// How long an interface may take to turn up.
pub const EXTERNAL_IFACE_MS: u64 = 8000;

pub struct ExternalIface<T> {
    pub configured: T,
    pub phone_ap: T,
    pub phase: ExternalPhase,
}

impl View for ExternalIface<String> {
    type V = ExternalIface<Seq<char>>;

    open spec fn view(&self) -> ExternalIface<Seq<char>> {
        ExternalIface {
            configured: self.configured@,
            phone_ap: self.phone_ap@,
            phase: self.phase,
        }
    }
}

pub open spec fn ex(m: ExternalIface<Seq<char>>, phase: ExternalPhase, step: StepModel) -> (
    ExternalIface<Seq<char>>,
    StepModel,
) {
    (ExternalIface { phase, ..m }, step)
}

pub open spec fn ex_scan(m: ExternalIface<Seq<char>>) -> (ExternalIface<Seq<char>>, StepModel) {
    ex(m, ExternalPhase::Scanned, Step::Do(Task::UsbIfaces { exclude: m.phone_ap }))
}

/// Nothing was found in this round: another one, unless the time is up.
pub open spec fn ex_wait(m: ExternalIface<Seq<char>>, elapsed_ms: u64) -> (
    ExternalIface<Seq<char>>,
    StepModel,
) {
    if elapsed_ms >= EXTERNAL_IFACE_MS {
        ex(
            m,
            ExternalPhase::Ended,
            Step::Fail(
                "external_ap could not find a stable USB/external Wi-Fi STA interface visible to ip link; set bt_wireless_proxy_car_wifi_sta_iface to the actual iface name, or check dongle/firmware/modprobe"@,
            ),
        )
    } else {
        ex(m, ExternalPhase::Paused, Step::Do(Task::Sleep { ms: 250 }))
    }
}

/// One step of finding the interface: the configured one and no other, or else
/// the first on the USB bus, or else `wlan1`.
pub open spec fn external_step(m: ExternalIface<Seq<char>>, o: OutcomeModel, elapsed_ms: u64) -> (
    ExternalIface<Seq<char>>,
    StepModel,
) {
    match m.phase {
        ExternalPhase::Begin => if m.configured.len() > 0 {
            ex(
                m,
                ExternalPhase::Configured,
                Step::Do(Task::AwaitIface { iface: m.configured, ms: EXTERNAL_IFACE_MS }),
            )
        } else {
            ex_scan(m)
        },
        ExternalPhase::Configured => if task::is_yes(o) {
            ex(m, ExternalPhase::Ended, Step::Succeed(m.configured))
        } else {
            ex(
                m,
                ExternalPhase::Ended,
                Step::Fail(
                    "external_ap configured car STA iface "@ + m.configured
                        + " did not appear after module preload"@,
                ),
            )
        },
        ExternalPhase::Scanned => if task::listed(o).len() > 0 {
            ex(m, ExternalPhase::Ended, Step::Succeed(task::listed(o)[0]))
        } else if m.phone_ap != "wlan1"@ {
            ex(
                m,
                ExternalPhase::Fallback,
                Step::Do(Task::AwaitIface { iface: "wlan1"@, ms: 600 }),
            )
        } else {
            ex_wait(m, elapsed_ms)
        },
        ExternalPhase::Fallback => if task::is_yes(o) {
            ex(m, ExternalPhase::Ended, Step::Succeed("wlan1"@))
        } else {
            ex_wait(m, elapsed_ms)
        },
        ExternalPhase::Paused => ex_scan(m),
        ExternalPhase::Ended => (m, Step::Fail(Seq::empty())),
    }
}

impl ExternalIface<String> {
    pub fn new(configured_sta_iface: &str, phone_ap_iface: &str) -> (r: Self)
        ensures
            r@ == (ExternalIface::<Seq<char>> {
                configured: text::trimmed(configured_sta_iface@),
                phone_ap: text::trimmed(phone_ap_iface@),
                phase: ExternalPhase::Begin,
            }),
    {
        ExternalIface {
            configured: text::trim(configured_sta_iface).to_owned(),
            phone_ap: text::trim(phone_ap_iface).to_owned(),
            phase: ExternalPhase::Begin,
        }
    }

    fn scan(&mut self) -> (r: WifiStep)
        ensures
            (final(self)@, r@) == ex_scan(old(self)@),
    {
        self.phase = ExternalPhase::Scanned;
        Step::Do(task::usb_ifaces(self.phone_ap.as_str()))
    }

    fn wait(&mut self, elapsed_ms: u64) -> (r: WifiStep)
        ensures
            (final(self)@, r@) == ex_wait(old(self)@, elapsed_ms),
    {
        if elapsed_ms >= EXTERNAL_IFACE_MS {
            self.phase = ExternalPhase::Ended;
            task::fail(
                "external_ap could not find a stable USB/external Wi-Fi STA interface visible to ip link; set bt_wireless_proxy_car_wifi_sta_iface to the actual iface name, or check dongle/firmware/modprobe",
            )
        } else {
            self.phase = ExternalPhase::Paused;
            Step::Do(task::sleep(250))
        }
    }

    /// Takes what came of the last task, and how long the search has taken.
    pub fn step(&mut self, o: TaskOutcome, elapsed_ms: u64) -> (r: WifiStep)
        requires
            old(self).phase != ExternalPhase::Ended,
        ensures
            (final(self)@, r@) == external_step(old(self)@, o@, elapsed_ms),
    {
        match self.phase {
            ExternalPhase::Begin => {
                if !self.configured.as_str().is_empty() {
                    self.phase = ExternalPhase::Configured;
                    Step::Do(task::await_iface(self.configured.as_str(), EXTERNAL_IFACE_MS))
                } else {
                    self.scan()
                }
            },
            ExternalPhase::Configured => {
                self.phase = ExternalPhase::Ended;
                if o.yes() {
                    task::succeed(self.configured.as_str())
                } else {
                    Step::Fail(
                        text::cat3(
                            "external_ap configured car STA iface ",
                            self.configured.as_str(),
                            " did not appear after module preload",
                        ),
                    )
                }
            },
            ExternalPhase::Scanned => {
                let found = o.list();
                if found.len() > 0 {
                    self.phase = ExternalPhase::Ended;
                    assert(found.deep_view()[0] == found@[0]@);
                    task::succeed(found[0].as_str())
                } else if !text::same(self.phone_ap.as_str(), "wlan1") {
                    self.phase = ExternalPhase::Fallback;
                    Step::Do(task::await_iface("wlan1", 600))
                } else {
                    self.wait(elapsed_ms)
                }
            },
            ExternalPhase::Fallback => {
                if o.yes() {
                    self.phase = ExternalPhase::Ended;
                    task::succeed("wlan1")
                } else {
                    self.wait(elapsed_ms)
                }
            },
            ExternalPhase::Paused => self.scan(),
            ExternalPhase::Ended => vstd::pervasive::unreached(),
        }
    }
}

// ---------------------------------------------------------------------
// Taking an interface over

#[derive(Clone, Copy, PartialEq, Eq, Structural)]
pub enum TakeoverPhase {
    Begin,
    Present,
    ApStopped,
    SupplicantStopped,
    Switched,
    Ended,
}

pub struct Takeover<T> {
    pub iface: T,
    pub phase: TakeoverPhase,
}

impl View for Takeover<String> {
    type V = Takeover<Seq<char>>;

    open spec fn view(&self) -> Takeover<Seq<char>> {
        Takeover { iface: self.iface@, phase: self.phase }
    }
}

pub open spec fn switch_to_managed(iface: Seq<char>) -> Seq<char> {
    let i = wifi_text::quoted(iface);
    "ip link set "@ + i + " down && ip addr flush dev "@ + i + " && iw dev "@ + i
        + " set type managed && ip link set "@ + i + " up"@
}

fn switch_command(iface: &str) -> (r: String)
    ensures
        r@ == switch_to_managed(iface@),
{
    let i = shell_quote(iface);
    let mut out = text::cat5(
        "ip link set ",
        i.as_str(),
        " down && ip addr flush dev ",
        i.as_str(),
        " && iw dev ",
    );
    out.append(i.as_str());
    out.append(" set type managed && ip link set ");
    out.append(i.as_str());
    out.append(" up");
    out
}

pub open spec fn takeover_absent(iface: Seq<char>) -> Seq<char> {
    "car Wi-Fi takeover STA iface "@ + iface
        + " is not visible to ip link; check actual USB Wi-Fi iface name with `ip link`/`iw dev` or set bt_wireless_proxy_car_wifi_sta_iface"@
}

pub open spec fn tk(m: Takeover<Seq<char>>, phase: TakeoverPhase, step: StepModel) -> (
    Takeover<Seq<char>>,
    StepModel,
) {
    (Takeover { phase, ..m }, step)
}

pub open spec fn shell_step(label: Seq<char>, command: Seq<char>, secs: u64) -> StepModel {
    Step::Do(Task::Shell { label, command, secs })
}

/// One step of taking an interface over: what uses it is stopped, then it is
/// made a managed one.
pub open spec fn takeover_step(m: Takeover<Seq<char>>, o: OutcomeModel) -> (
    Takeover<Seq<char>>,
    StepModel,
) {
    match m.phase {
        TakeoverPhase::Begin => if m.iface.len() == 0 {
            tk(
                m,
                TakeoverPhase::Ended,
                Step::Fail("car Wi-Fi takeover needs a non-empty STA interface"@),
            )
        } else {
            tk(
                m,
                TakeoverPhase::Present,
                Step::Do(Task::AwaitIface { iface: m.iface, ms: 3000 }),
            )
        },
        TakeoverPhase::Present => if task::is_yes(o) {
            tk(
                m,
                TakeoverPhase::ApStopped,
                shell_step(
                    "stop AP helpers"@,
                    "killall hostapd dnsmasq udhcpd 2>/dev/null || true"@,
                    5,
                ),
            )
        } else {
            tk(m, TakeoverPhase::Ended, Step::Fail(takeover_absent(m.iface)))
        },
        TakeoverPhase::ApStopped => tk(
            m,
            TakeoverPhase::SupplicantStopped,
            shell_step(
                "stop old wpa_supplicant"@,
                "killall wpa_supplicant 2>/dev/null || true"@,
                5,
            ),
        ),
        TakeoverPhase::SupplicantStopped => tk(
            m,
            TakeoverPhase::Switched,
            shell_step("switch iface to managed"@, switch_to_managed(m.iface), 10),
        ),
        TakeoverPhase::Switched => match task::error_of(o) {
            Some(e) => tk(m, TakeoverPhase::Ended, Step::Fail(e)),
            None => tk(m, TakeoverPhase::Ended, Step::Succeed(m.iface)),
        },
        TakeoverPhase::Ended => (m, Step::Fail(Seq::empty())),
    }
}

impl Takeover<String> {
    pub fn new(iface: &str) -> (r: Self)
        ensures
            r@ == (Takeover::<Seq<char>> {
                iface: text::trimmed(iface@),
                phase: TakeoverPhase::Begin,
            }),
    {
        Takeover { iface: text::trim(iface).to_owned(), phase: TakeoverPhase::Begin }
    }

    pub fn step(&mut self, o: TaskOutcome) -> (r: WifiStep)
        requires
            old(self).phase != TakeoverPhase::Ended,
        ensures
            (final(self)@, r@) == takeover_step(old(self)@, o@),
    {
        match self.phase {
            TakeoverPhase::Begin => {
                if self.iface.as_str().is_empty() {
                    self.phase = TakeoverPhase::Ended;
                    task::fail("car Wi-Fi takeover needs a non-empty STA interface")
                } else {
                    self.phase = TakeoverPhase::Present;
                    Step::Do(task::await_iface(self.iface.as_str(), 3000))
                }
            },
            TakeoverPhase::Present => {
                if o.yes() {
                    self.phase = TakeoverPhase::ApStopped;
                    Step::Do(
                        task::shell(
                            "stop AP helpers",
                            "killall hostapd dnsmasq udhcpd 2>/dev/null || true",
                            5,
                        ),
                    )
                } else {
                    self.phase = TakeoverPhase::Ended;
                    Step::Fail(
                        text::cat3(
                            "car Wi-Fi takeover STA iface ",
                            self.iface.as_str(),
                            " is not visible to ip link; check actual USB Wi-Fi iface name with `ip link`/`iw dev` or set bt_wireless_proxy_car_wifi_sta_iface",
                        ),
                    )
                }
            },
            TakeoverPhase::ApStopped => {
                self.phase = TakeoverPhase::SupplicantStopped;
                Step::Do(
                    task::shell(
                        "stop old wpa_supplicant",
                        "killall wpa_supplicant 2>/dev/null || true",
                        5,
                    ),
                )
            },
            TakeoverPhase::SupplicantStopped => {
                self.phase = TakeoverPhase::Switched;
                let command = switch_command(self.iface.as_str());
                Step::Do(task::shell("switch iface to managed", command.as_str(), 10))
            },
            TakeoverPhase::Switched => {
                self.phase = TakeoverPhase::Ended;
                match o.error() {
                    Some(e) => Step::Fail(e),
                    None => task::succeed(self.iface.as_str()),
                }
            },
            TakeoverPhase::Ended => vstd::pervasive::unreached(),
        }
    }
}

// ---------------------------------------------------------------------
// Making an interface on one of several radios

/// What the new interface is for.
#[derive(Clone, Copy, PartialEq, Eq, Structural)]
pub enum NewIface {
    /// A managed interface for the car's network, beside the access point.
    CarSta,
    /// An access point for the phone, beside the car's network.
    PhoneAp,
}

#[derive(Clone, Copy, PartialEq, Eq, Structural)]
pub enum MakePhase {
    Begin,
    Present,
    BroughtUp,
    Candidates,
    Deleted { phy: usize, attempt: u64 },
    Settled { phy: usize, attempt: u64 },
    Created { phy: usize, attempt: u64 },
    Appeared { phy: usize, attempt: u64, check: u64 },
    Waited { phy: usize, attempt: u64, check: u64 },
    Rested { phy: usize, attempt: u64 },
    Ended,
}

pub struct MakeIface<T, L> {
    pub what: NewIface,
    /// The new interface.
    pub iface: T,
    /// The interface beside which it is made.
    pub beside: T,
    /// The configured radio, if any.
    pub phy: T,
    /// Whether an interface that is there already is made anew.
    pub recreate: bool,
    pub phase: MakePhase,
    pub phys: L,
    pub last_error: T,
}

pub type IfaceMaker = MakeIface<String, Vec<String>>;

pub type MakeModel = MakeIface<Seq<char>, Seq<Seq<char>>>;

impl View for MakeIface<String, Vec<String>> {
    type V = MakeIface<Seq<char>, Seq<Seq<char>>>;

    open spec fn view(&self) -> MakeIface<Seq<char>, Seq<Seq<char>>> {
        MakeIface {
            what: self.what,
            iface: self.iface@,
            beside: self.beside@,
            phy: self.phy@,
            recreate: self.recreate,
            phase: self.phase,
            phys: self.phys.deep_view(),
            last_error: self.last_error@,
        }
    }
}

pub open spec fn mk(m: MakeModel, phase: MakePhase, step: StepModel) -> (MakeModel, StepModel) {
    (MakeIface { phase, ..m }, step)
}

pub open spec fn mk_fail(m: MakeModel, error: Seq<char>) -> (MakeModel, StepModel) {
    mk(m, MakePhase::Ended, Step::Fail(error))
}

pub open spec fn is_car(m: MakeModel) -> bool {
    m.what == NewIface::CarSta
}

pub open spec fn no_name_error(what: NewIface) -> Seq<char> {
    match what {
        NewIface::CarSta => "car Wi-Fi keep_ap mode needs bt_wireless_proxy_car_wifi_sta_iface"@,
        NewIface::PhoneAp => "proxy_ap virtual AP creation needs a non-empty AP interface"@,
    }
}

pub open spec fn no_phy_error(m: MakeModel) -> Seq<char> {
    match m.what {
        NewIface::CarSta => "car Wi-Fi keep_ap mode could not resolve a PHY from AP iface "@
            + m.beside + "; set bt_wireless_proxy_car_wifi_sta_phy, e.g. phy1"@,
        NewIface::PhoneAp => "proxy_ap could not resolve PHY from car STA iface "@ + m.beside
            + " to create phone AP iface "@ + m.iface,
    }
}

pub open spec fn not_made_error(m: MakeModel) -> Seq<char> {
    (match m.what {
        NewIface::CarSta => "car Wi-Fi keep_ap mode could not create STA iface "@,
        NewIface::PhoneAp => "proxy_ap could not create phone AP iface "@,
    }) + m.iface + "; tried PHY candidates "@ + text::list_debug(m.phys) + "; last error: "@
        + m.last_error
}

pub open spec fn delete_command(iface: Seq<char>) -> Seq<char> {
    "iw dev "@ + wifi_text::quoted(iface) + " del 2>/dev/null || true"@
}

pub open spec fn create_command(what: NewIface, phy: Seq<char>, iface: Seq<char>) -> Seq<char> {
    let i = wifi_text::quoted(iface);
    "iw phy "@ + wifi_text::quoted(phy) + " interface add "@ + i + (match what {
        NewIface::CarSta => " type managed && ip link set "@,
        NewIface::PhoneAp => " type __ap && ip link set "@,
    }) + i + " up"@
}

/// How often one radio is tried.
pub open spec fn attempts_per_phy(what: NewIface) -> u64 {
    match what {
        NewIface::CarSta => 1,
        NewIface::PhoneAp => 3,
    }
}

/// A fresh attempt begins by deleting what is left of an earlier one.
pub open spec fn mk_attempt(m: MakeModel, phy: int, attempt: u64) -> (MakeModel, StepModel) {
    if 0 <= phy < m.phys.len() {
        mk(
            m,
            MakePhase::Deleted { phy: phy as usize, attempt },
            shell_step(
                match m.what {
                    NewIface::CarSta => "delete stale STA iface"@,
                    NewIface::PhoneAp => "delete stale phone AP iface"@,
                },
                delete_command(m.iface),
                5,
            ),
        )
    } else {
        mk_fail(m, not_made_error(m))
    }
}

/// An attempt on a radio is over without success.
pub open spec fn mk_next(m: MakeModel, phy: usize, attempt: u64) -> (MakeModel, StepModel) {
    if attempt < attempts_per_phy(m.what) {
        mk_attempt(m, phy as int, (attempt + 1) as u64)
    } else {
        mk_attempt(m, phy + 1, 1)
    }
}

pub open spec fn never_appeared(m: MakeModel, phy: usize) -> Seq<char> {
    (match m.what {
        NewIface::CarSta => "created STA iface "@,
        NewIface::PhoneAp => "created phone AP iface "@,
    }) + m.iface + " on "@ + m.phys[phy as int] + ", but the interface did not appear"@
}

pub open spec fn not_created(m: MakeModel, phy: usize, attempt: u64, e: Seq<char>) -> Seq<char> {
    match m.what {
        NewIface::CarSta => "create STA iface on "@ + m.phys[phy as int] + " failed: "@ + e,
        NewIface::PhoneAp => "create phone AP iface "@ + m.iface + " on "@ + m.phys[phy as int]
            + " failed attempt "@ + text::decimal(attempt as nat) + "/3: "@ + e,
    }
}

/// How long to wait between deleting and creating.
pub open spec fn settle_ms(what: NewIface, attempt: u64) -> u64 {
    match what {
        NewIface::CarSta => 400,
        NewIface::PhoneAp => (300 * attempt) as u64,
    }
}

/// One step of making an interface: for each radio, an old one is deleted, a
/// new one is created, and it is made sure that it turns up.
pub open spec fn make_step(m: MakeModel, o: OutcomeModel) -> (MakeModel, StepModel) {
    let exists_task = Step::Do(Task::IfaceExists { iface: m.iface });
    match m.phase {
        MakePhase::Begin => if m.iface.len() == 0 {
            mk_fail(m, no_name_error(m.what))
        } else {
            mk(m, MakePhase::Present, exists_task)
        },
        MakePhase::Present => if task::is_yes(o) && !m.recreate {
            if is_car(m) {
                mk(
                    m,
                    MakePhase::BroughtUp,
                    shell_step(
                        "bring STA iface up"@,
                        "ip link set "@ + wifi_text::quoted(m.iface) + " up"@,
                        5,
                    ),
                )
            } else {
                mk(m, MakePhase::Ended, Step::Succeed(m.iface))
            }
        } else if !is_car(m) && m.beside.len() == 0 {
            mk_fail(
                m,
                "proxy_ap cannot create phone AP iface "@ + m.iface
                    + " because car STA iface is empty"@,
            )
        } else {
            mk(
                m,
                MakePhase::Candidates,
                Step::Do(Task::PhyCandidates { iface: m.beside, configured: m.phy }),
            )
        },
        MakePhase::BroughtUp => mk(m, MakePhase::Ended, Step::Succeed(m.iface)),
        MakePhase::Candidates => if task::listed(o).len() == 0 {
            mk_fail(m, no_phy_error(m))
        } else {
            mk_attempt(MakeIface { phys: task::listed(o), ..m }, 0, 1)
        },
        MakePhase::Deleted { phy, attempt } => mk(
            m,
            MakePhase::Settled { phy, attempt },
            Step::Do(Task::Sleep { ms: settle_ms(m.what, attempt) }),
        ),
        MakePhase::Settled { phy, attempt } => mk(
            m,
            MakePhase::Created { phy, attempt },
            shell_step(
                match m.what {
                    NewIface::CarSta => "create STA iface"@,
                    NewIface::PhoneAp => "create phone AP iface"@,
                },
                create_command(m.what, m.phys[phy as int], m.iface),
                10,
            ),
        ),
        MakePhase::Created { phy, attempt } => match task::error_of(o) {
            Some(e) => (
                MakeIface {
                    phase: MakePhase::Rested { phy, attempt },
                    last_error: not_created(m, phy, attempt, e),
                    ..m
                },
                Step::Do(
                    Task::Sleep {
                        ms: if is_car(m) {
                            700
                        } else {
                            (700 * attempt) as u64
                        },
                    },
                ),
            ),
            None => mk(m, MakePhase::Appeared { phy, attempt, check: 1 }, exists_task),
        },
        MakePhase::Appeared { phy, attempt, check } => if task::is_yes(o) {
            mk(m, MakePhase::Ended, Step::Succeed(m.iface))
        } else {
            mk(
                m,
                MakePhase::Waited { phy, attempt, check },
                Step::Do(Task::Sleep { ms: (200 * check) as u64 }),
            )
        },
        MakePhase::Waited { phy, attempt, check } => if check < 5 {
            mk(m, MakePhase::Appeared { phy, attempt, check: (check + 1) as u64 }, exists_task)
        } else {
            let m1 = MakeIface { last_error: never_appeared(m, phy), ..m };
            if is_car(m) {
                mk(m1, MakePhase::Rested { phy, attempt }, Step::Do(Task::Sleep { ms: 700 }))
            } else {
                mk_next(m1, phy, attempt)
            }
        },
        MakePhase::Rested { phy, attempt } => mk_next(m, phy, attempt),
        MakePhase::Ended => (m, Step::Fail(Seq::empty())),
    }
}

impl<T, L> MakeIface<T, L> {
    /// The attempts and checks stay within their numbers.
    pub open spec fn counts_ok(self, phys: nat) -> bool {
        match self.phase {
            MakePhase::Deleted { phy, attempt } => phy < phys && 1 <= attempt <= 3,
            MakePhase::Settled { phy, attempt } => phy < phys && 1 <= attempt <= 3,
            MakePhase::Created { phy, attempt } => phy < phys && 1 <= attempt <= 3,
            MakePhase::Appeared { phy, attempt, check } => phy < phys && 1 <= attempt <= 3 && 1
                <= check <= 5,
            MakePhase::Waited { phy, attempt, check } => phy < phys && 1 <= attempt <= 3 && 1
                <= check <= 5,
            MakePhase::Rested { phy, attempt } => phy < phys && 1 <= attempt <= 3,
            _ => true,
        }
    }
}

impl MakeIface<String, Vec<String>> {
    pub open spec fn wf(self) -> bool {
        self.counts_ok(self.phys@.len())
    }

    /// Makes a managed interface for the car's network beside the access point.
    pub fn prepare_sta_iface_keep_ap(
        sta_iface: &str,
        ap_iface: &str,
        sta_phy: &str,
        force_recreate: bool,
    ) -> (r: Self)
        ensures
            r.wf(),
            r@ == (MakeIface::<Seq<char>, Seq<Seq<char>>> {
                what: NewIface::CarSta,
                iface: text::trimmed(sta_iface@),
                beside: ap_iface@,
                phy: sta_phy@,
                recreate: force_recreate,
                phase: MakePhase::Begin,
                phys: Seq::empty(),
                last_error: Seq::empty(),
            }),
    {
        let m = MakeIface {
            what: NewIface::CarSta,
            iface: text::trim(sta_iface).to_owned(),
            beside: ap_iface.to_owned(),
            phy: sta_phy.to_owned(),
            recreate: force_recreate,
            phase: MakePhase::Begin,
            phys: Vec::new(),
            last_error: String::new(),
        };
        assert(m@.phys =~= Seq::<Seq<char>>::empty());
        m
    }

    /// Makes an access point for the phone beside the car's network, unless it
    /// is there already.
    pub fn ensure_proxy_phone_ap_iface(ap_iface: &str, car_sta_iface: &str) -> (r: Self)
        ensures
            r.wf(),
            r@ == (MakeIface::<Seq<char>, Seq<Seq<char>>> {
                what: NewIface::PhoneAp,
                iface: text::trimmed(ap_iface@),
                beside: text::trimmed(car_sta_iface@),
                phy: Seq::empty(),
                recreate: false,
                phase: MakePhase::Begin,
                phys: Seq::empty(),
                last_error: Seq::empty(),
            }),
    {
        let m = MakeIface {
            what: NewIface::PhoneAp,
            iface: text::trim(ap_iface).to_owned(),
            beside: text::trim(car_sta_iface).to_owned(),
            phy: String::new(),
            recreate: false,
            phase: MakePhase::Begin,
            phys: Vec::new(),
            last_error: String::new(),
        };
        assert(m@.phys =~= Seq::<Seq<char>>::empty());
        m
    }

    fn fail_with(&mut self, error: String) -> (r: WifiStep)
        ensures
            final(self).wf(),
            (final(self)@, r@) == mk_fail(old(self)@, error@),
    {
        self.phase = MakePhase::Ended;
        Step::Fail(error)
    }

    fn name_error(&self) -> (r: String)
        ensures
            r@ == no_name_error(self.what),
    {
        match self.what {
            NewIface::CarSta => "car Wi-Fi keep_ap mode needs bt_wireless_proxy_car_wifi_sta_iface".to_owned(),
            NewIface::PhoneAp => "proxy_ap virtual AP creation needs a non-empty AP interface".to_owned(),
        }
    }

    fn phy_error(&self) -> (r: String)
        ensures
            r@ == no_phy_error(self@),
    {
        match self.what {
            NewIface::CarSta => text::cat3(
                "car Wi-Fi keep_ap mode could not resolve a PHY from AP iface ",
                self.beside.as_str(),
                "; set bt_wireless_proxy_car_wifi_sta_phy, e.g. phy1",
            ),
            NewIface::PhoneAp => text::cat4(
                "proxy_ap could not resolve PHY from car STA iface ",
                self.beside.as_str(),
                " to create phone AP iface ",
                self.iface.as_str(),
            ),
        }
    }

    fn final_error(&self) -> (r: String)
        ensures
            r@ == not_made_error(self@),
    {
        let head = match self.what {
            NewIface::CarSta => "car Wi-Fi keep_ap mode could not create STA iface ",
            NewIface::PhoneAp => "proxy_ap could not create phone AP iface ",
        };
        let tried = text::debug_list(&self.phys);
        text::cat6(
            head,
            self.iface.as_str(),
            "; tried PHY candidates ",
            tried.as_str(),
            "; last error: ",
            self.last_error.as_str(),
        )
    }

    fn attempt_step(&mut self, phy: usize, attempt: u64) -> (r: WifiStep)
        requires
            1 <= attempt <= 3,
        ensures
            final(self).wf(),
            (final(self)@, r@) == mk_attempt(old(self)@, phy as int, attempt),
    {
        if phy < self.phys.len() {
            self.phase = MakePhase::Deleted { phy, attempt };
            let label = match self.what {
                NewIface::CarSta => "delete stale STA iface",
                NewIface::PhoneAp => "delete stale phone AP iface",
            };
            let i = shell_quote(self.iface.as_str());
            let command = text::cat3("iw dev ", i.as_str(), " del 2>/dev/null || true");
            Step::Do(task::shell(label, command.as_str(), 5))
        } else {
            let error = self.final_error();
            self.fail_with(error)
        }
    }

    fn next_attempt(&mut self, phy: usize, attempt: u64) -> (r: WifiStep)
        requires
            phy < old(self).phys@.len(),
            1 <= attempt <= 3,
        ensures
            final(self).wf(),
            (final(self)@, r@) == mk_next(old(self)@, phy, attempt),
    {
        let max: u64 = match self.what {
            NewIface::CarSta => 1,
            NewIface::PhoneAp => 3,
        };
        let n: usize = self.phys.len();
        if attempt < max {
            self.attempt_step(phy, attempt + 1)
        } else {
            self.attempt_step(phy + 1, 1)
        }
    }

    fn present_step(&mut self, phase: MakePhase) -> (r: WifiStep)
        ensures
            final(self).phys@ == old(self).phys@,
            (final(self)@, r@) == mk(
                old(self)@,
                phase,
                Step::Do(Task::IfaceExists { iface: old(self)@.iface }),
            ),
    {
        self.phase = phase;
        Step::Do(task::iface_exists(self.iface.as_str()))
    }

    fn succeed_step(&mut self) -> (r: WifiStep)
        ensures
            final(self).wf(),
            (final(self)@, r@) == mk(old(self)@, MakePhase::Ended, Step::Succeed(old(self)@.iface)),
    {
        self.phase = MakePhase::Ended;
        task::succeed(self.iface.as_str())
    }

    pub fn step(&mut self, o: TaskOutcome) -> (r: WifiStep)
        requires
            old(self).wf(),
            old(self).phase != MakePhase::Ended,
        ensures
            final(self).wf(),
            (final(self)@, r@) == make_step(old(self)@, o@),
    {
        let car = self.what == NewIface::CarSta;
        match self.phase {
            MakePhase::Begin => {
                if self.iface.as_str().is_empty() {
                    let error = self.name_error();
                    self.fail_with(error)
                } else {
                    self.present_step(MakePhase::Present)
                }
            },
            MakePhase::Present => {
                if o.yes() && !self.recreate {
                    if car {
                        self.phase = MakePhase::BroughtUp;
                        let i = shell_quote(self.iface.as_str());
                        let command = text::cat3("ip link set ", i.as_str(), " up");
                        Step::Do(task::shell("bring STA iface up", command.as_str(), 5))
                    } else {
                        self.succeed_step()
                    }
                } else if !car && self.beside.as_str().is_empty() {
                    let error = text::cat3(
                        "proxy_ap cannot create phone AP iface ",
                        self.iface.as_str(),
                        " because car STA iface is empty",
                    );
                    self.fail_with(error)
                } else {
                    self.phase = MakePhase::Candidates;
                    Step::Do(task::phy_candidates(self.beside.as_str(), self.phy.as_str()))
                }
            },
            MakePhase::BroughtUp => self.succeed_step(),
            MakePhase::Candidates => {
                let phys = o.list();
                if phys.len() == 0 {
                    let error = self.phy_error();
                    self.fail_with(error)
                } else {
                    self.phys = phys;
                    self.attempt_step(0, 1)
                }
            },
            MakePhase::Deleted { phy, attempt } => {
                self.phase = MakePhase::Settled { phy, attempt };
                if car {
                    Step::Do(task::sleep(400))
                } else {
                    Step::Do(task::sleep(300 * attempt))
                }
            },
            MakePhase::Settled { phy, attempt } => {
                self.phase = MakePhase::Created { phy, attempt };
                assert(self@.phys[phy as int] == self.phys@[phy as int]@);
                let p = shell_quote(self.phys[phy].as_str());
                let i = shell_quote(self.iface.as_str());
                let (label, kind) = match self.what {
                    NewIface::CarSta => ("create STA iface", " type managed && ip link set "),
                    NewIface::PhoneAp => ("create phone AP iface", " type __ap && ip link set "),
                };
                let command = text::cat7(
                    "iw phy ",
                    p.as_str(),
                    " interface add ",
                    i.as_str(),
                    kind,
                    i.as_str(),
                    " up",
                );
                Step::Do(task::shell(label, command.as_str(), 10))
            },
            MakePhase::Created { phy, attempt } => {
                match o.error() {
                    Some(e) => {
                        assert(self@.phys[phy as int] == self.phys@[phy as int]@);
                        let n = text::decimal_text(attempt);
                        let error = match self.what {
                            NewIface::CarSta => text::cat4(
                                "create STA iface on ",
                                self.phys[phy].as_str(),
                                " failed: ",
                                e.as_str(),
                            ),
                            NewIface::PhoneAp => {
                                let mut s = text::cat5(
                                    "create phone AP iface ",
                                    self.iface.as_str(),
                                    " on ",
                                    self.phys[phy].as_str(),
                                    " failed attempt ",
                                );
                                s.append(n.as_str());
                                s.append("/3: ");
                                s.append(e.as_str());
                                s
                            },
                        };
                        self.last_error = error;
                        self.phase = MakePhase::Rested { phy, attempt };
                        if car {
                            Step::Do(task::sleep(700))
                        } else {
                            Step::Do(task::sleep(700 * attempt))
                        }
                    },
                    None => self.present_step(MakePhase::Appeared { phy, attempt, check: 1 }),
                }
            },
            MakePhase::Appeared { phy, attempt, check } => {
                if o.yes() {
                    self.succeed_step()
                } else {
                    self.phase = MakePhase::Waited { phy, attempt, check };
                    Step::Do(task::sleep(200 * check))
                }
            },
            MakePhase::Waited { phy, attempt, check } => {
                if check < 5 {
                    self.present_step(MakePhase::Appeared { phy, attempt, check: check + 1 })
                } else {
                    assert(self@.phys[phy as int] == self.phys@[phy as int]@);
                    let head = match self.what {
                        NewIface::CarSta => "created STA iface ",
                        NewIface::PhoneAp => "created phone AP iface ",
                    };
                    self.last_error = text::cat5(
                        head,
                        self.iface.as_str(),
                        " on ",
                        self.phys[phy].as_str(),
                        ", but the interface did not appear",
                    );
                    if car {
                        self.phase = MakePhase::Rested { phy, attempt };
                        Step::Do(task::sleep(700))
                    } else {
                        self.next_attempt(phy, attempt)
                    }
                }
            },
            MakePhase::Rested { phy, attempt } => self.next_attempt(phy, attempt),
            MakePhase::Ended => vstd::pervasive::unreached(),
        }
    }
}

/// An interface is reported made only when it was seen, or when it was there
/// already and was not to be made anew.
pub proof fn law_made_iface_was_seen(m: MakeModel, o: OutcomeModel)
    requires
        m.phase != MakePhase::Ended,
        make_step(m, o).1 is Succeed,
    ensures
        make_step(m, o).1 == (Step::<Seq<char>, Seq<Seq<char>>>::Succeed(m.iface)),
        (m.phase is Appeared && task::is_yes(o)) || (m.phase == MakePhase::Present && task::is_yes(o)
            && !m.recreate) || m.phase == MakePhase::BroughtUp,
{
}


// ---------------------------------------------------------------------
// The access point for the phone

/// What is done, in this order, before the radio is given to the car's network.
pub open spec fn stop_phone_ap_steps(ap_iface: Seq<char>) -> Seq<StepModel> {
    seq![
        shell_step(
            "stop phone-facing AP helpers"@,
            "killall hostapd 2>/dev/null || true; killall dnsmasq 2>/dev/null || true"@,
            5,
        ),
        shell_step(
            "bring phone-facing AP iface down before STA join"@,
            "ip link set "@ + wifi_text::quoted(ap_iface) + " down 2>/dev/null || true"@,
            5,
        ),
        Step::Do(Task::Sleep { ms: 500 }),
    ]
}

/// The `i`-th thing to do, as far as there is one. Failures do not matter.
pub fn stop_phone_ap_for_proxy_ap(ap_iface: &str, i: usize) -> (r: Option<WifiStep>)
    ensures
        match r {
            Some(step) => i < 3 && step@ == stop_phone_ap_steps(ap_iface@)[i as int],
            None => i >= 3,
        },
{
    if i == 0 {
        Some(
            Step::Do(
                task::shell(
                    "stop phone-facing AP helpers",
                    "killall hostapd 2>/dev/null || true; killall dnsmasq 2>/dev/null || true",
                    5,
                ),
            ),
        )
    } else if i == 1 {
        let q = shell_quote(ap_iface);
        let command = text::cat3("ip link set ", q.as_str(), " down 2>/dev/null || true");
        Some(
            Step::Do(
                task::shell(
                    "bring phone-facing AP iface down before STA join",
                    command.as_str(),
                    5,
                ),
            ),
        )
    } else if i == 2 {
        Some(Step::Do(task::sleep(500)))
    } else {
        None
    }
}

/// The part of a text before the last `c`.
pub open spec fn before_last(s: Seq<char>, c: char) -> Option<Seq<char>>
    decreases s.len(),
{
    if s.len() == 0 {
        None
    } else if s.last() == c {
        Some(s.drop_last())
    } else {
        before_last(s.drop_last(), c)
    }
}

fn cut_last<'a>(s: &'a str, c: char) -> (r: Option<&'a str>)
    ensures
        match r {
            Some(head) => before_last(s@, c) == Some(head@),
            None => before_last(s@, c) is None,
        },
{
    let chars = text::chars_of(s);
    let mut n: usize = chars.len();
    assert(s@.take(n as int) =~= s@);
    while n > 0
        invariant
            n <= chars@.len(),
            chars@ == s@,
            before_last(s@, c) == before_last(s@.take(n as int), c),
        decreases n,
    {
        assert(s@.take(n as int).drop_last() =~= s@.take(n - 1));
        if chars[n - 1] == c {
            assert(s@.take(n - 1) =~= s@.subrange(0, n - 1));
            return Some(vstd::string::StrSliceExecFns::substring_char(s, 0, n - 1));
        }
        n = n - 1;
    }
    None
}

pub struct PhoneAp<T> {
    pub hostapd_path: T,
    pub hostapd_conf: T,
    pub dnsmasq_path: T,
    pub dnsmasq_conf: T,
    pub command: T,
}

pub type PhoneApPlan = PhoneAp<String>;

impl View for PhoneAp<String> {
    type V = PhoneAp<Seq<char>>;

    open spec fn view(&self) -> PhoneAp<Seq<char>> {
        PhoneAp {
            hostapd_path: self.hostapd_path@,
            hostapd_conf: self.hostapd_conf@,
            dnsmasq_path: self.dnsmasq_path@,
            dnsmasq_conf: self.dnsmasq_conf@,
            command: self.command@,
        }
    }
}

pub open spec fn hostapd_conf(iface: Seq<char>, ssid: Seq<char>, key: Seq<char>, channel: u32) -> Seq<
    char,
> {
    "interface="@ + iface + "\ndriver=nl80211\nssid="@ + ssid + "\nhw_mode="@ + wifi_text::hw_mode(
        channel,
    ) + "\nchannel="@ + text::decimal(channel as nat)
        + "\nieee80211n=1\nwmm_enabled=1\nauth_algs=1\nignore_broadcast_ssid=0\n"@ + (
    if key.len() == 0 {
        "wpa=0\n"@
    } else {
        "wpa=2\nwpa_key_mgmt=WPA-PSK\nwpa_pairwise=CCMP\nrsn_pairwise=CCMP\nwpa_passphrase="@ + key
            + "\n"@
    })
}

fn build_hostapd_conf(iface: &str, ssid: &str, key: &str, channel: u32) -> (r: String)
    ensures
        r@ == hostapd_conf(iface@, ssid@, key@, channel),
{
    let mut out = text::cat5(
        "interface=",
        iface,
        "\ndriver=nl80211\nssid=",
        ssid,
        "\nhw_mode=",
    );
    out.append(wifi_text::hostapd_hw_mode_for_channel(channel));
    out.append("\nchannel=");
    let n = text::decimal_text(channel as u64);
    out.append(n.as_str());
    out.append("\nieee80211n=1\nwmm_enabled=1\nauth_algs=1\nignore_broadcast_ssid=0\n");
    if key.is_empty() {
        out.append("wpa=0\n");
    } else {
        let tail = text::cat3(
            "wpa=2\nwpa_key_mgmt=WPA-PSK\nwpa_pairwise=CCMP\nrsn_pairwise=CCMP\nwpa_passphrase=",
            key,
            "\n",
        );
        out.append(tail.as_str());
    }
    out
}

/// The addresses that are handed out: in the network of the access point.
pub open spec fn dhcp_range(ip: Seq<char>) -> Seq<char> {
    if text::begins(ip, "10.0.0."@) {
        "10.0.0.50,10.0.0.150,255.255.255.0,12h"@
    } else {
        match before_last(ip, '.') {
            Some(prefix) => prefix + ".50,"@ + prefix + ".150,255.255.255.0,12h"@,
            None => "10.0.0.50,10.0.0.150,255.255.255.0,12h"@,
        }
    }
}

fn build_dhcp_range(ip: &str) -> (r: String)
    ensures
        r@ == dhcp_range(ip@),
{
    if text::starts_with(ip, "10.0.0.") {
        "10.0.0.50,10.0.0.150,255.255.255.0,12h".to_owned()
    } else {
        match cut_last(ip, '.') {
            Some(prefix) => text::cat4(prefix, ".50,", prefix, ".150,255.255.255.0,12h"),
            None => "10.0.0.50,10.0.0.150,255.255.255.0,12h".to_owned(),
        }
    }
}

pub open spec fn dnsmasq_conf(iface: Seq<char>, ip: Seq<char>) -> Seq<char> {
    "interface="@ + iface + "\nbind-interfaces\ndhcp-range="@ + dhcp_range(ip)
        + "\ndhcp-option=3,"@ + ip + "\ndhcp-option=6,"@ + ip + "\nlog-dhcp\n"@
}

pub open spec fn start_ap_command(
    iface: Seq<char>,
    ip: Seq<char>,
    hostapd: Seq<char>,
    dnsmasq: Seq<char>,
) -> Seq<char> {
    let i = wifi_text::quoted(iface);
    "killall hostapd 2>/dev/null || true; killall dnsmasq 2>/dev/null || true; ip link set "@ + i
        + " down 2>/dev/null || true; ip addr flush dev "@ + i
        + " 2>/dev/null || true; ip addr add "@ + wifi_text::quoted(ip) + "/24 dev "@ + i
        + "; ip link set "@ + i + " up; hostapd -B "@ + wifi_text::quoted(hostapd)
        + "; dnsmasq -C "@ + wifi_text::quoted(dnsmasq)
}

fn build_start_ap_command(iface: &str, ip: &str, hostapd: &str, dnsmasq: &str) -> (r: String)
    ensures
        r@ == start_ap_command(iface@, ip@, hostapd@, dnsmasq@),
{
    let i = shell_quote(iface);
    let address = shell_quote(ip);
    let h = shell_quote(hostapd);
    let d = shell_quote(dnsmasq);
    let mut out = text::cat5(
        "killall hostapd 2>/dev/null || true; killall dnsmasq 2>/dev/null || true; ip link set ",
        i.as_str(),
        " down 2>/dev/null || true; ip addr flush dev ",
        i.as_str(),
        " 2>/dev/null || true; ip addr add ",
    );
    out.append(address.as_str());
    out.append("/24 dev ");
    out.append(i.as_str());
    out.append("; ip link set ");
    out.append(i.as_str());
    out.append(" up; hostapd -B ");
    out.append(h.as_str());
    out.append("; dnsmasq -C ");
    out.append(d.as_str());
    out
}

/// The address of the access point.
pub open spec fn ap_address(ip: Seq<char>) -> Seq<char> {
    if text::trimmed(ip).len() == 0 {
        "10.0.0.1"@
    } else {
        text::trimmed(ip)
    }
}

/// How many bytes a text takes in UTF-8.
pub open spec fn byte_len(s: Seq<char>) -> nat {
    vstd::utf8::encode_utf8(s).len()
}

/// Why an access point cannot be started, if it cannot.
pub open spec fn phone_ap_error(iface: Seq<char>, ssid: Seq<char>, key: Seq<char>) -> Option<
    Seq<char>,
> {
    if text::trimmed(iface).len() == 0 {
        Some("proxy_ap needs a non-empty AP interface"@)
    } else if text::trimmed(ssid).len() == 0 {
        Some("proxy_ap needs a non-empty phone AP SSID"@)
    } else if text::trimmed(key).len() > 0 && byte_len(text::trimmed(key)) < 8 {
        Some("proxy_ap phone AP WPA2 key must be empty/open or at least 8 characters"@)
    } else {
        None
    }
}

pub open spec fn phone_ap_plan(
    iface: Seq<char>,
    ssid: Seq<char>,
    key: Seq<char>,
    ip: Seq<char>,
    channel: u32,
) -> PhoneAp<Seq<char>> {
    let i = text::trimmed(iface);
    let hostapd = wifi_text::conf_path("/tmp/aa-proxy-phone-ap-"@, i, ".conf"@);
    let dnsmasq = wifi_text::conf_path("/tmp/aa-proxy-phone-ap-"@, i, "-dnsmasq.conf"@);
    PhoneAp {
        hostapd_path: hostapd,
        hostapd_conf: hostapd_conf(i, text::trimmed(ssid), text::trimmed(key), channel),
        dnsmasq_path: dnsmasq,
        dnsmasq_conf: dnsmasq_conf(i, ap_address(ip)),
        command: start_ap_command(i, ap_address(ip), hostapd, dnsmasq),
    }
}

/// The files and the command that bring the phone's access point up.
pub fn start_proxy_phone_ap(ap_iface: &str, ssid: &str, key: &str, ip: &str, channel: u32) -> (r:
    Result<PhoneApPlan, String>)
    ensures
        match r {
            Ok(plan) => phone_ap_error(ap_iface@, ssid@, key@) is None && plan@ == phone_ap_plan(
                ap_iface@,
                ssid@,
                key@,
                ip@,
                channel,
            ),
            Err(e) => phone_ap_error(ap_iface@, ssid@, key@) == Some(e@),
        },
{
    let iface = text::trim(ap_iface);
    if iface.is_empty() {
        return Err("proxy_ap needs a non-empty AP interface".to_owned());
    }
    let ssid = text::trim(ssid);
    if ssid.is_empty() {
        return Err("proxy_ap needs a non-empty phone AP SSID".to_owned());
    }
    let key = text::trim(key);
    if !key.is_empty() && key.as_bytes().len() < 8 {
        return Err(
            "proxy_ap phone AP WPA2 key must be empty/open or at least 8 characters".to_owned(),
        );
    }
    let given = text::trim(ip);
    let address = if given.is_empty() {
        "10.0.0.1"
    } else {
        given
    };
    let hostapd_path = wifi_text::config_path("/tmp/aa-proxy-phone-ap-", iface, ".conf");
    let dnsmasq_path = wifi_text::config_path("/tmp/aa-proxy-phone-ap-", iface, "-dnsmasq.conf");
    let conf = build_hostapd_conf(iface, ssid, key, channel);
    let range = build_dhcp_range(address);
    let mut dns = text::cat5(
        "interface=",
        iface,
        "\nbind-interfaces\ndhcp-range=",
        range.as_str(),
        "\ndhcp-option=3,",
    );
    dns.append(address);
    dns.append("\ndhcp-option=6,");
    dns.append(address);
    dns.append("\nlog-dhcp\n");
    let command = build_start_ap_command(
        iface,
        address,
        hostapd_path.as_str(),
        dnsmasq_path.as_str(),
    );
    Ok(
        PhoneAp {
            hostapd_path,
            hostapd_conf: conf,
            dnsmasq_path,
            dnsmasq_conf: dns,
            command,
        },
    )
}

/// The address of an interface as the kernel shows it in a file.
pub open spec fn mac_in_file(contents: Seq<char>) -> Option<Seq<char>> {
    if text::trimmed(contents).len() > 0 {
        Some(text::trimmed(contents))
    } else {
        None
    }
}

pub fn iface_mac_address(contents: &str) -> (r: Option<String>)
    ensures
        r.deep_view() == mac_in_file(contents@),
{
    let mac = text::trim(contents);
    if mac.is_empty() {
        None
    } else {
        Some(mac.to_owned())
    }
}

// ---------------------------------------------------------------------
// An access point on an interface of its own

#[derive(Clone, Copy, PartialEq, Eq, Structural)]
pub enum ExternalApPhase {
    Begin,
    Present,
    Channel,
    Started,
    InApMode,
    ActualType,
    Address,
    Repaired,
    Ended,
}

pub struct ExternalAp<T> {
    pub iface: T,
    pub ip: T,
    pub configured_channel: u8,
    pub fallback_channel: u32,
    pub channel: u32,
    pub phase: ExternalApPhase,
}

impl View for ExternalAp<String> {
    type V = ExternalAp<Seq<char>>;

    open spec fn view(&self) -> ExternalAp<Seq<char>> {
        ExternalAp {
            iface: self.iface@,
            ip: self.ip@,
            configured_channel: self.configured_channel,
            fallback_channel: self.fallback_channel,
            channel: self.channel,
            phase: self.phase,
        }
    }
}

pub open spec fn xa(m: ExternalAp<Seq<char>>, phase: ExternalApPhase, step: StepModel) -> (
    ExternalAp<Seq<char>>,
    StepModel,
) {
    (ExternalAp { phase, ..m }, step)
}

pub open spec fn xa_start(m: ExternalAp<Seq<char>>, channel: u32) -> (
    ExternalAp<Seq<char>>,
    StepModel,
) {
    (
        ExternalAp { phase: ExternalApPhase::Started, channel, ..m },
        Step::Do(Task::StartPhoneAp { iface: m.iface, channel: channel as u64 }),
    )
}

/// The channel when none is configured: the one that the interface is on, or
/// the fallback, or 36.
pub open spec fn unconfigured_channel(current: Option<u32>, fallback: u32) -> u32 {
    match current {
        Some(channel) => channel,
        None => if fallback > 0 {
            fallback
        } else {
            36
        },
    }
}

pub open spec fn repair_address_command(ip: Seq<char>, iface: Seq<char>) -> Seq<char> {
    let i = wifi_text::quoted(iface);
    "ip addr add "@ + wifi_text::quoted(ip) + "/24 dev "@ + i
        + " 2>/dev/null || true; ip link set "@ + i + " up"@
}

/// One step of starting the access point: it counts as started when the
/// interface is seen in its role, with its address.
pub open spec fn external_ap_step(m: ExternalAp<Seq<char>>, o: OutcomeModel) -> (
    ExternalAp<Seq<char>>,
    StepModel,
) {
    match m.phase {
        ExternalApPhase::Begin => if m.iface.len() == 0 {
            xa(
                m,
                ExternalApPhase::Ended,
                Step::Fail("external_ap needs a non-empty phone AP interface"@),
            )
        } else {
            xa(m, ExternalApPhase::Present, Step::Do(Task::IfaceExists { iface: m.iface }))
        },
        ExternalApPhase::Present => if !task::is_yes(o) {
            xa(
                m,
                ExternalApPhase::Ended,
                Step::Fail(
                    "external_ap phone AP iface "@ + m.iface
                        + " does not exist; set bt_wireless_proxy_car_wifi_base_iface or bt_wireless_proxy_car_wifi_ap_iface"@,
                ),
            )
        } else if m.configured_channel > 0 {
            xa_start(m, m.configured_channel as u32)
        } else {
            xa(m, ExternalApPhase::Channel, Step::Do(Task::CurrentChannel { iface: m.iface }))
        },
        ExternalApPhase::Channel => xa_start(
            m,
            unconfigured_channel(task::channel_found(o), m.fallback_channel),
        ),
        ExternalApPhase::Started => match task::error_of(o) {
            Some(e) => xa(m, ExternalApPhase::Ended, Step::Fail(e)),
            None => xa(
                m,
                ExternalApPhase::InApMode,
                Step::Do(Task::AwaitIfaceType { iface: m.iface, role: "AP"@, ms: 5000 }),
            ),
        },
        ExternalApPhase::InApMode => if task::is_yes(o) {
            xa(m, ExternalApPhase::Address, Step::Do(Task::IfaceIpv4 { iface: m.iface }))
        } else {
            xa(m, ExternalApPhase::ActualType, Step::Do(Task::IfaceType { iface: m.iface }))
        },
        ExternalApPhase::ActualType => xa(
            m,
            ExternalApPhase::Ended,
            Step::Fail(
                "external_ap phone AP iface "@ + m.iface
                    + " did not enter AP mode after hostapd start; current iw type is "@ + (
                match task::found(o) {
                    Some(t) => t,
                    None => "<unknown>"@,
                }),
            ),
        ),
        ExternalApPhase::Address => if task::found(o) == Some(m.ip) {
            xa(m, ExternalApPhase::Ended, Step::Succeed(m.iface))
        } else {
            xa(
                m,
                ExternalApPhase::Repaired,
                shell_step(
                    "repair external_ap phone AP IPv4"@,
                    repair_address_command(m.ip, m.iface),
                    5,
                ),
            )
        },
        ExternalApPhase::Repaired => match task::error_of(o) {
            Some(e) => xa(m, ExternalApPhase::Ended, Step::Fail(e)),
            None => xa(m, ExternalApPhase::Ended, Step::Succeed(m.iface)),
        },
        ExternalApPhase::Ended => (m, Step::Fail(Seq::empty())),
    }
}

impl ExternalAp<String> {
    pub fn new(ap_iface: &str, ip: &str, configured_channel: u8, fallback_channel: u32) -> (r: Self)
        ensures
            r@ == (ExternalAp::<Seq<char>> {
                iface: text::trimmed(ap_iface@),
                ip: text::trimmed(ip@),
                configured_channel,
                fallback_channel,
                channel: 0,
                phase: ExternalApPhase::Begin,
            }),
    {
        ExternalAp {
            iface: text::trim(ap_iface).to_owned(),
            ip: text::trim(ip).to_owned(),
            configured_channel,
            fallback_channel,
            channel: 0,
            phase: ExternalApPhase::Begin,
        }
    }

    fn start(&mut self, channel: u32) -> (r: WifiStep)
        ensures
            (final(self)@, r@) == xa_start(old(self)@, channel),
    {
        self.channel = channel;
        self.phase = ExternalApPhase::Started;
        Step::Do(task::start_phone_ap(self.iface.as_str(), channel as u64))
    }

    fn end(&mut self, error: String) -> (r: WifiStep)
        ensures
            (final(self)@, r@) == xa(old(self)@, ExternalApPhase::Ended, Step::Fail(error@)),
    {
        self.phase = ExternalApPhase::Ended;
        Step::Fail(error)
    }

    pub fn step(&mut self, o: TaskOutcome) -> (r: WifiStep)
        requires
            old(self).phase != ExternalApPhase::Ended,
        ensures
            (final(self)@, r@) == external_ap_step(old(self)@, o@),
    {
        match self.phase {
            ExternalApPhase::Begin => {
                if self.iface.as_str().is_empty() {
                    self.end("external_ap needs a non-empty phone AP interface".to_owned())
                } else {
                    self.phase = ExternalApPhase::Present;
                    Step::Do(task::iface_exists(self.iface.as_str()))
                }
            },
            ExternalApPhase::Present => {
                if !o.yes() {
                    let error = text::cat3(
                        "external_ap phone AP iface ",
                        self.iface.as_str(),
                        " does not exist; set bt_wireless_proxy_car_wifi_base_iface or bt_wireless_proxy_car_wifi_ap_iface",
                    );
                    self.end(error)
                } else if self.configured_channel > 0 {
                    let channel: u32 = self.configured_channel as u32;
                    self.start(channel)
                } else {
                    self.phase = ExternalApPhase::Channel;
                    Step::Do(task::current_channel(self.iface.as_str()))
                }
            },
            ExternalApPhase::Channel => {
                let channel: u32 = match o.channel() {
                    Some(channel) => channel,
                    None => {
                        if self.fallback_channel > 0 {
                            self.fallback_channel
                        } else {
                            36
                        }
                    },
                };
                self.start(channel)
            },
            ExternalApPhase::Started => {
                match o.error() {
                    Some(e) => self.end(e),
                    None => {
                        self.phase = ExternalApPhase::InApMode;
                        Step::Do(task::await_iface_type(self.iface.as_str(), "AP", 5000))
                    },
                }
            },
            ExternalApPhase::InApMode => {
                if o.yes() {
                    self.phase = ExternalApPhase::Address;
                    Step::Do(task::iface_ipv4(self.iface.as_str()))
                } else {
                    self.phase = ExternalApPhase::ActualType;
                    Step::Do(task::iface_type(self.iface.as_str()))
                }
            },
            ExternalApPhase::ActualType => {
                let actual = match o.text() {
                    Some(t) => t,
                    None => "<unknown>".to_owned(),
                };
                let error = text::cat4(
                    "external_ap phone AP iface ",
                    self.iface.as_str(),
                    " did not enter AP mode after hostapd start; current iw type is ",
                    actual.as_str(),
                );
                self.end(error)
            },
            ExternalApPhase::Address => {
                let right = match o.text() {
                    Some(ip) => text::same(ip.as_str(), self.ip.as_str()),
                    None => false,
                };
                if right {
                    self.phase = ExternalApPhase::Ended;
                    task::succeed(self.iface.as_str())
                } else {
                    self.phase = ExternalApPhase::Repaired;
                    let i = shell_quote(self.iface.as_str());
                    let address = shell_quote(self.ip.as_str());
                    let command = text::cat7(
                        "ip addr add ",
                        address.as_str(),
                        "/24 dev ",
                        i.as_str(),
                        " 2>/dev/null || true; ip link set ",
                        i.as_str(),
                        " up",
                    );
                    Step::Do(
                        task::shell("repair external_ap phone AP IPv4", command.as_str(), 5),
                    )
                }
            },
            ExternalApPhase::Repaired => {
                match o.error() {
                    Some(e) => self.end(e),
                    None => {
                        self.phase = ExternalApPhase::Ended;
                        task::succeed(self.iface.as_str())
                    },
                }
            },
            ExternalApPhase::Ended => vstd::pervasive::unreached(),
        }
    }
}

} // verus!
