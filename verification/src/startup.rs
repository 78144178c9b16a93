//! What is prepared before the proxy runs: kernel modules, interfaces, and the
//! files of other services.

use crate::bluetooth;

use crate::config::Action;
use crate::config::AppConfig;
use crate::config::ConfigModel;
use crate::config::WifiConfig;
use crate::clock;
use crate::mitm_session;
use crate::mitm_session::CarWifiMitmProxyOptions;
use crate::mitm_session::OptionsModel;
use crate::mitm_session::PhoneWifiMode;
use crate::mitm_session::TCP_SERVER_PORT;
use crate::text;
use vstd::prelude::*;

verus! {

pub const DEFAULT_KERNEL_MODULE_PATH: &'static str = "/data/aa-proxy-rs/firmware";

// ---------------------------------------------------------------------
// Kernel modules

/// The directory in which the kernel is to look for firmware.
pub open spec fn firmware_path(configured: Seq<char>) -> Seq<char> {
    if text::trimmed(configured).len() == 0 {
        "/data/aa-proxy-rs/firmware"@
    } else {
        text::trimmed(configured)
    }
}

pub fn kernel_module_path(configured: &str) -> (r: String)
    ensures
        r@ == firmware_path(configured@),
{
    let path = text::trim(configured);
    if path.is_empty() {
        DEFAULT_KERNEL_MODULE_PATH.to_owned()
    } else {
        path.to_owned()
    }
}

/// What was found of the directory and of the kernel's parameter.
#[derive(Clone, Copy)]
pub struct FirmwareFacts {
    pub is_dir: bool,
    pub has_files: bool,
    pub has_parameter: bool,
}

/// The path to write to the kernel's parameter, if it is to be changed: the
/// directory has files, and the parameter names another one.
pub fn configure_kernel_module_path_for_config(
    configured: &str,
    facts: FirmwareFacts,
    current: &str,
) -> (r: Option<String>)
    ensures
        ({
            let change = facts.is_dir && facts.has_files && facts.has_parameter && text::trimmed(
                current@,
            ) != firmware_path(configured@);
            match r {
                Some(path) => change && path@ == firmware_path(configured@),
                None => !change,
            }
        }),
{
    let path = kernel_module_path(configured);
    if facts.is_dir && facts.has_files && facts.has_parameter && !text::same(
        text::trim(current),
        path.as_str(),
    ) {
        Some(path)
    } else {
        None
    }
}

pub open spec fn is_module_char(c: char) -> bool {
    ('a' <= c && c <= 'z') || ('A' <= c && c <= 'Z') || ('0' <= c && c <= '9') || c == '_' || c
        == '-'
}

/// Whether a name can be handed to the module loader.
pub open spec fn is_safe_module(name: Seq<char>) -> bool {
    name.len() > 0 && forall|i: int| 0 <= i < name.len() ==> is_module_char(#[trigger] name[i])
}

pub fn is_kernel_module_name_safe(module: &str) -> (r: bool)
    ensures
        r == is_safe_module(module@),
{
    let chars = text::chars_of(module);
    if chars.len() == 0 {
        return false;
    }
    for i in 0..chars.len()
        invariant
            chars@ == module@,
            forall|j: int| 0 <= j < i ==> is_module_char(#[trigger] module@[j]),
    {
        let c: char = chars[i];
        let ok = ('a' <= c && c <= 'z') || ('A' <= c && c <= 'Z') || ('0' <= c && c <= '9') || c
            == '_' || c == '-';
        if !ok {
            assert(!is_module_char(module@[i as int]));
            return false;
        }
    }
    true
}

/// The modules among the first `n` entries, each once, without the empty ones.
pub open spec fn modules_of(entries: Seq<Seq<char>>, n: int) -> Seq<Seq<char>>
    decreases n,
{
    if n <= 0 {
        Seq::empty()
    } else {
        let before = modules_of(entries, n - 1);
        let m = text::trimmed(entries[n - 1]);
        if m.len() == 0 {
            before
        } else {
            text::pushed_once(before, m)
        }
    }
}

/// The modules that a setting names, between commas.
pub open spec fn named_modules(value: Seq<char>) -> Seq<Seq<char>> {
    modules_of(text::pieces(value, ','), text::pieces(value, ',').len() as int)
}

pub fn parse_preload_kernel_modules(value: &str) -> (r: Vec<String>)
    ensures
        r.deep_view() == named_modules(value@),
{
    let entries = text::split(value, ',');
    let mut modules: Vec<String> = Vec::new();
    assert(modules.deep_view() =~= Seq::<Seq<char>>::empty());
    for i in 0..entries.len()
        invariant
            entries.deep_view() == text::pieces(value@, ','),
            modules.deep_view() == modules_of(text::pieces(value@, ','), i as int),
    {
        assert(entries.deep_view()[i as int] == entries@[i as int]@);
        let m = text::trim(entries[i].as_str());
        if !m.is_empty() {
            text::push_once(&mut modules, m);
        }
    }
    modules
}

/// The modules that are loaded: those with a safe name, in their order.
pub open spec fn loaded_modules(named: Seq<Seq<char>>, n: int) -> Seq<Seq<char>>
    decreases n,
{
    if n <= 0 {
        Seq::empty()
    } else if is_safe_module(named[n - 1]) {
        loaded_modules(named, n - 1).push(named[n - 1])
    } else {
        loaded_modules(named, n - 1)
    }
}

pub fn preload_kernel_modules_for_config(setting: &str) -> (r: Vec<String>)
    ensures
        r.deep_view() == loaded_modules(named_modules(setting@), named_modules(setting@).len() as int),
{
    let modules = parse_preload_kernel_modules(setting);
    let mut out: Vec<String> = Vec::new();
    assert(out.deep_view() =~= Seq::<Seq<char>>::empty());
    for i in 0..modules.len()
        invariant
            modules.deep_view() == named_modules(setting@),
            out.deep_view() == loaded_modules(named_modules(setting@), i as int),
    {
        assert(modules.deep_view()[i as int] == modules@[i as int]@);
        if is_kernel_module_name_safe(modules[i].as_str()) {
            text::push_text(&mut out, modules[i].as_str());
        }
    }
    out
}

/// No module is named twice, none has an empty name, and each that is named in
/// the setting is there.
pub proof fn law_modules_are_distinct(entries: Seq<Seq<char>>, n: int)
    requires
        0 <= n <= entries.len(),
    ensures
        modules_of(entries, n).no_duplicates(),
        forall|i: int| 0 <= i < modules_of(entries, n).len() ==> (#[trigger] modules_of(entries, n)[i]).len() > 0,
        forall|i: int|
            0 <= i < n && text::trimmed(entries[i]).len() > 0 ==> modules_of(entries, n).contains(
                text::trimmed(#[trigger] entries[i]),
            ),
    decreases n,
{
    if n > 0 {
        law_modules_are_distinct(entries, n - 1);
        let before = modules_of(entries, n - 1);
        let after = modules_of(entries, n);
        let m = text::trimmed(entries[n - 1]);
        if m.len() > 0 && !before.contains(m) {
            assert(after == before.push(m));
            assert(after[before.len() as int] == m);
        }
        assert forall|i: int| 0 <= i < n && text::trimmed(entries[i]).len() > 0 implies after.contains(
            text::trimmed(#[trigger] entries[i]),
        ) by {
            if i < n - 1 {
                let k = choose|k: int| 0 <= k < before.len() && before[k] == text::trimmed(entries[i]);
                assert(after[k] == before[k]);
            } else if before.contains(m) {
                assert(after == before);
            }
        }
    }
}

/// What is loaded has a safe name and was named.
pub proof fn law_loaded_modules_are_safe(named: Seq<Seq<char>>, n: int)
    requires
        0 <= n <= named.len(),
    ensures
        forall|i: int|
            0 <= i < loaded_modules(named, n).len() ==> is_safe_module(
                #[trigger] loaded_modules(named, n)[i],
            ) && named.contains(loaded_modules(named, n)[i]),
    decreases n,
{
    if n > 0 {
        law_loaded_modules_are_safe(named, n - 1);
        assert(named.contains(named[n - 1]));
        let before = loaded_modules(named, n - 1);
        let after = loaded_modules(named, n);
        assert forall|i: int| 0 <= i < after.len() implies is_safe_module(#[trigger] after[i])
            && named.contains(after[i]) by {
            if i < before.len() {
                assert(after[i] == before[i]);
            } else {
                assert(after[i] == named[n - 1]);
            }
        }
    }
}

// ---------------------------------------------------------------------
// Modes

pub fn is_external_ap_phone_wifi_mode(value: &str) -> (r: bool)
    ensures
        r == (mitm_session::phone_wifi_mode(value@) == PhoneWifiMode::ExternalAp),
{
    mitm_session::parse_phone_wifi_mode(value) == PhoneWifiMode::ExternalAp
}

/// The way in which the proxy stands between phone and head unit.
#[derive(Clone, Copy, PartialEq, Eq, Structural, Debug)]
pub enum ProxyMode {
    Probe,
    CarWifiMitm,
    Bridge,
}

/// A word that is not known means the bridge.
pub open spec fn proxy_mode(configured: Seq<char>) -> ProxyMode {
    let m = text::lower(text::trimmed(configured));
    if m == "probe"@ {
        ProxyMode::Probe
    } else if m == "car-wifi-mitm"@ || m == "wifi-mitm"@ {
        ProxyMode::CarWifiMitm
    } else {
        ProxyMode::Bridge
    }
}

pub fn parse_proxy_mode(configured: &str) -> (r: ProxyMode)
    ensures
        r == proxy_mode(configured@),
{
    let m = text::to_ascii_lowercase(text::trim(configured));
    if text::same(m.as_str(), "probe") {
        ProxyMode::Probe
    } else if text::same(m.as_str(), "car-wifi-mitm") || text::same(m.as_str(), "wifi-mitm") {
        ProxyMode::CarWifiMitm
    } else {
        ProxyMode::Bridge
    }
}

pub open spec fn is_car_wifi_mitm(configured: Seq<char>) -> bool {
    let m = text::lower(text::trimmed(configured));
    m == "car-wifi-mitm"@ || m == "wifi-mitm"@
}

pub fn is_bt_wireless_proxy_car_wifi_mitm_mode(value: &str) -> (r: bool)
    ensures
        r == is_car_wifi_mitm(value@),
{
    let m = text::to_ascii_lowercase(text::trim(value));
    text::same(m.as_str(), "car-wifi-mitm") || text::same(m.as_str(), "wifi-mitm")
}

/// Whether the phone gets a network on a radio of its own.
pub open spec fn external_ap_enabled(c: ConfigModel) -> bool {
    c.bt_wireless_proxy && is_car_wifi_mitm(c.bt_wireless_proxy_mode)
        && mitm_session::phone_wifi_mode(c.bt_wireless_proxy_phone_wifi_mode)
        == PhoneWifiMode::ExternalAp
}

pub fn bt_wireless_proxy_external_ap_enabled(cfg: &AppConfig) -> (r: bool)
    ensures
        r == external_ap_enabled(cfg@),
{
    cfg.bt_wireless_proxy && is_bt_wireless_proxy_car_wifi_mitm_mode(
        cfg.bt_wireless_proxy_mode.as_str(),
    ) && is_external_ap_phone_wifi_mode(cfg.bt_wireless_proxy_phone_wifi_mode.as_str())
}

/// Firmware is needed by modules, and by another radio.
pub fn should_prepare_kernel_firmware_path(cfg: &AppConfig) -> (r: bool)
    ensures
        r == (named_modules(cfg@.preload_kernel_modules).len() > 0 || external_ap_enabled(cfg@)),
{
    let modules = parse_preload_kernel_modules(cfg.preload_kernel_modules.as_str());
    assert(modules.deep_view().len() == modules@.len());
    modules.len() > 0 || bt_wireless_proxy_external_ap_enabled(cfg)
}

// ---------------------------------------------------------------------
// The interface of the second radio

pub open spec fn phone_ap_iface(c: ConfigModel) -> Seq<char> {
    if text::trimmed(c.bt_wireless_proxy_car_wifi_ap_iface).len() > 0 {
        text::trimmed(c.bt_wireless_proxy_car_wifi_ap_iface)
    } else if text::trimmed(c.bt_wireless_proxy_car_wifi_base_iface).len() > 0 {
        text::trimmed(c.bt_wireless_proxy_car_wifi_base_iface)
    } else {
        mitm_session::or_wlan0(text::trimmed(c.iface))
    }
}

pub fn external_ap_phone_ap_iface_for_config(cfg: &AppConfig) -> (r: String)
    ensures
        r@ == phone_ap_iface(cfg@),
{
    let ap = text::trim(cfg.bt_wireless_proxy_car_wifi_ap_iface.as_str());
    if !ap.is_empty() {
        return ap.to_owned();
    }
    let base = text::trim(cfg.bt_wireless_proxy_car_wifi_base_iface.as_str());
    if !base.is_empty() {
        return base.to_owned();
    }
    let iface = text::trim(cfg.iface.as_str());
    if iface.is_empty() {
        "wlan0".to_owned()
    } else {
        iface.to_owned()
    }
}

/// The configured interface, or the first one that was found.
pub open spec fn startup_sta(configured: Seq<char>, found: Seq<Seq<char>>) -> Option<Seq<char>> {
    if text::trimmed(configured).len() > 0 {
        Some(text::trimmed(configured))
    } else if found.len() > 0 {
        Some(found[0])
    } else {
        None
    }
}

pub fn external_ap_startup_sta_iface(configured: &str, found: &Vec<String>) -> (r: Option<String>)
    ensures
        r.deep_view() == startup_sta(configured@, found.deep_view()),
{
    let sta = text::trim(configured);
    if !sta.is_empty() {
        Some(sta.to_owned())
    } else if found.len() > 0 {
        assert(found.deep_view()[0] == found@[0]@);
        Some(found[0].clone())
    } else {
        None
    }
}

/// How often the interface is looked for.
pub const BRING_UP_ATTEMPTS: u32 = 40;

#[derive(Clone, Copy, PartialEq, Eq, Structural)]
pub enum BringUpPhase {
    Begin,
    Looked,
    Checked,
    SetUp,
    Paused,
    Ended,
}

/// Bringing the second radio's interface up.
pub struct BringUp<T> {
    pub configured: T,
    pub iface: T,
    pub attempt: u32,
    pub phase: BringUpPhase,
}

pub type IfaceBringUp = BringUp<String>;

impl View for BringUp<String> {
    type V = BringUp<Seq<char>>;

    open spec fn view(&self) -> BringUp<Seq<char>> {
        BringUp {
            configured: self.configured@,
            iface: self.iface@,
            attempt: self.attempt,
            phase: self.phase,
        }
    }
}

/// What is asked for next.
pub enum BringUpAction<T> {
    /// List the wireless interfaces on the USB bus.
    FindIfaces,
    IfaceExists(T),
    /// Set the interface up.
    LinkUp(T),
    Sleep(u64),
    /// It is over; the interface is up or not.
    End { up: bool },
}

impl View for BringUpAction<String> {
    type V = BringUpAction<Seq<char>>;

    open spec fn view(&self) -> BringUpAction<Seq<char>> {
        match *self {
            BringUpAction::FindIfaces => BringUpAction::FindIfaces,
            BringUpAction::IfaceExists(t) => BringUpAction::IfaceExists(t@),
            BringUpAction::LinkUp(t) => BringUpAction::LinkUp(t@),
            BringUpAction::Sleep(ms) => BringUpAction::Sleep(ms),
            BringUpAction::End { up } => BringUpAction::End { up },
        }
    }
}

/// What came of it.
pub enum BringUpEvent<L> {
    Done,
    /// The program could not be run.
    NotRun,
    Answer(bool),
    Ifaces(L),
}

impl View for BringUpEvent<Vec<String>> {
    type V = BringUpEvent<Seq<Seq<char>>>;

    open spec fn view(&self) -> BringUpEvent<Seq<Seq<char>>> {
        match *self {
            BringUpEvent::Done => BringUpEvent::Done,
            BringUpEvent::NotRun => BringUpEvent::NotRun,
            BringUpEvent::Answer(b) => BringUpEvent::Answer(b),
            BringUpEvent::Ifaces(l) => BringUpEvent::Ifaces(l.deep_view()),
        }
    }
}

pub type BringUpModel = BringUp<Seq<char>>;

pub type BringUpActionModel = BringUpAction<Seq<char>>;

pub open spec fn bu(m: BringUpModel, phase: BringUpPhase, action: BringUpActionModel) -> (
    BringUpModel,
    BringUpActionModel,
) {
    (BringUp { phase, ..m }, action)
}

/// Another attempt, if one is left.
pub open spec fn bu_attempt(m: BringUpModel) -> (BringUpModel, BringUpActionModel) {
    if m.attempt >= BRING_UP_ATTEMPTS {
        bu(m, BringUpPhase::Ended, BringUpAction::End { up: false })
    } else {
        let m1 = BringUp { attempt: (m.attempt + 1) as u32, ..m };
        if text::trimmed(m.configured).len() > 0 {
            bu(
                BringUp { iface: text::trimmed(m.configured), ..m1 },
                BringUpPhase::Checked,
                BringUpAction::IfaceExists(text::trimmed(m.configured)),
            )
        } else {
            bu(m1, BringUpPhase::Looked, BringUpAction::FindIfaces)
        }
    }
}

pub open spec fn bu_pause(m: BringUpModel) -> (BringUpModel, BringUpActionModel) {
    bu(m, BringUpPhase::Paused, BringUpAction::Sleep(250))
}

pub open spec fn bring_up_step(m: BringUpModel, e: BringUpEvent<Seq<Seq<char>>>) -> (
    BringUpModel,
    BringUpActionModel,
) {
    match m.phase {
        BringUpPhase::Begin => bu_attempt(m),
        BringUpPhase::Paused => bu_attempt(m),
        BringUpPhase::Looked => match e {
            BringUpEvent::Ifaces(list) => match startup_sta(m.configured, list) {
                Some(iface) => bu(
                    BringUp { iface, ..m },
                    BringUpPhase::SetUp,
                    BringUpAction::LinkUp(iface),
                ),
                None => bu_pause(m),
            },
            _ => bu_pause(m),
        },
        BringUpPhase::Checked => if e == BringUpEvent::<Seq<Seq<char>>>::Answer(true) {
            bu(m, BringUpPhase::SetUp, BringUpAction::LinkUp(m.iface))
        } else {
            bu_pause(m)
        },
        BringUpPhase::SetUp => match e {
            BringUpEvent::Answer(true) => bu(
                m,
                BringUpPhase::Ended,
                BringUpAction::End { up: true },
            ),
            BringUpEvent::NotRun => bu(m, BringUpPhase::Ended, BringUpAction::End { up: false }),
            _ => bu_pause(m),
        },
        BringUpPhase::Ended => (m, BringUpAction::End { up: false }),
    }
}

impl BringUp<String> {
    /// None if the phone has no network on a radio of its own.
    pub fn bring_external_ap_sta_iface_up_for_config(cfg: &AppConfig) -> (r: Option<Self>)
        ensures
            match r {
                Some(m) => external_ap_enabled(cfg@) && m@.configured
                    == cfg@.bt_wireless_proxy_car_wifi_sta_iface && m@.attempt == 0 && m@.phase
                    == BringUpPhase::Begin,
                None => !external_ap_enabled(cfg@),
            },
    {
        if !bt_wireless_proxy_external_ap_enabled(cfg) {
            return None;
        }
        Some(
            BringUp {
                configured: cfg.bt_wireless_proxy_car_wifi_sta_iface.clone(),
                iface: String::new(),
                attempt: 0,
                phase: BringUpPhase::Begin,
            },
        )
    }

    fn go(&mut self, phase: BringUpPhase, action: BringUpAction<String>) -> (r: BringUpAction<
        String,
    >)
        ensures
            (final(self)@, r@) == bu(old(self)@, phase, action@),
    {
        self.phase = phase;
        action
    }

    fn pause(&mut self) -> (r: BringUpAction<String>)
        ensures
            (final(self)@, r@) == bu_pause(old(self)@),
    {
        self.phase = BringUpPhase::Paused;
        BringUpAction::Sleep(250)
    }

    fn another(&mut self) -> (r: BringUpAction<String>)
        ensures
            (final(self)@, r@) == bu_attempt(old(self)@),
    {
        if self.attempt >= BRING_UP_ATTEMPTS {
            return self.go(BringUpPhase::Ended, BringUpAction::End { up: false });
        }
        self.attempt = self.attempt + 1;
        let configured = text::trim(self.configured.as_str()).to_owned();
        if !configured.as_str().is_empty() {
            self.iface = configured.clone();
            self.go(BringUpPhase::Checked, BringUpAction::IfaceExists(configured))
        } else {
            self.go(BringUpPhase::Looked, BringUpAction::FindIfaces)
        }
    }

    pub fn step(&mut self, e: BringUpEvent<Vec<String>>) -> (r: BringUpAction<String>)
        requires
            old(self).phase != BringUpPhase::Ended,
        ensures
            (final(self)@, r@) == bring_up_step(old(self)@, e@),
    {
        match self.phase {
            BringUpPhase::Begin => self.another(),
            BringUpPhase::Paused => self.another(),
            BringUpPhase::Looked => match e {
                BringUpEvent::Ifaces(list) => match external_ap_startup_sta_iface(
                    self.configured.as_str(),
                    &list,
                ) {
                    Some(iface) => {
                        self.iface = iface.clone();
                        self.go(BringUpPhase::SetUp, BringUpAction::LinkUp(iface))
                    },
                    None => self.pause(),
                },
                _ => self.pause(),
            },
            BringUpPhase::Checked => match e {
                BringUpEvent::Answer(true) => {
                    let iface = self.iface.clone();
                    self.go(BringUpPhase::SetUp, BringUpAction::LinkUp(iface))
                },
                _ => self.pause(),
            },
            BringUpPhase::SetUp => match e {
                BringUpEvent::Answer(true) => self.go(
                    BringUpPhase::Ended,
                    BringUpAction::End { up: true },
                ),
                BringUpEvent::NotRun => self.go(
                    BringUpPhase::Ended,
                    BringUpAction::End { up: false },
                ),
                _ => self.pause(),
            },
            BringUpPhase::Ended => vstd::pervasive::unreached(),
        }
    }
}

pub open spec fn bring_up_phase_rank(phase: BringUpPhase) -> int {
    match phase {
        BringUpPhase::Begin => 4,
        BringUpPhase::Looked => 3,
        BringUpPhase::Checked => 3,
        BringUpPhase::SetUp => 2,
        BringUpPhase::Paused => 1,
        BringUpPhase::Ended => 0,
    }
}

pub open spec fn bring_up_rank(m: BringUpModel) -> int {
    (BRING_UP_ATTEMPTS - m.attempt) * 4 + bring_up_phase_rank(m.phase)
}

/// The interface is looked for forty times at most, and is said to be up only
/// when it was set up.
pub proof fn law_bring_up_ends(m: BringUpModel, e: BringUpEvent<Seq<Seq<char>>>)
    requires
        m.phase != BringUpPhase::Ended,
        m.attempt <= BRING_UP_ATTEMPTS,
    ensures
        bring_up_step(m, e).0.attempt <= BRING_UP_ATTEMPTS,
        0 <= bring_up_rank(bring_up_step(m, e).0) < bring_up_rank(m),
        bring_up_step(m, e).1 == (BringUpAction::<Seq<char>>::End { up: true }) ==> m.phase
            == BringUpPhase::SetUp && e == BringUpEvent::<Seq<Seq<char>>>::Answer(true),
{
}

// ---------------------------------------------------------------------
// The network that the phone is told of

/// An address of an interface that is up.
pub struct UpAddress {
    pub name: String,
    /// Only addresses of the newer kind have a scope.
    pub has_scope: bool,
    pub address: String,
}

/// The first address without a scope of an interface.
pub open spec fn address_of(list: Seq<UpAddress>, iface: Seq<char>, n: int) -> Option<Seq<char>>
    decreases list.len() - n,
{
    if n < 0 || n >= list.len() {
        None
    } else if list[n].name@ == iface && !list[n].has_scope {
        Some(list[n].address@)
    } else {
        address_of(list, iface, n + 1)
    }
}

pub open spec fn own_address(c: ConfigModel, list: Seq<UpAddress>) -> Seq<char> {
    match address_of(list, c.iface, 0) {
        Some(a) => a,
        None => c.wlan_subnet + ".1"@,
    }
}

pub fn init_wifi_config(cfg: &AppConfig, up: &Vec<UpAddress>, mac: Option<String>) -> (r: Result<
    WifiConfig,
    String,
>)
    ensures
        match r {
            Ok(w) => mac is Some && w@ == (WifiConfig {
                ip_addr: own_address(cfg@, up@),
                port: TCP_SERVER_PORT,
                ssid: cfg@.ssid,
                bssid: mac->0@,
                wpa_key: cfg@.wpa_passphrase,
            }),
            Err(e) => mac is None && e@ == "No MAC address found"@,
        },
{
    let mut found: Option<usize> = None;
    let mut i: usize = 0;
    while i < up.len() && found.is_none()
        invariant
            i <= up@.len(),
            match found {
                Some(k) => k < up@.len() && address_of(up@, cfg@.iface, 0) == Some(up@[k as int].address@),
                None => address_of(up@, cfg@.iface, 0) == address_of(up@, cfg@.iface, i as int),
            },
        decreases up@.len() - i + (if found is None { 1int } else { 0int }),
    {
        if text::same(up[i].name.as_str(), cfg.iface.as_str()) && !up[i].has_scope {
            found = Some(i);
        } else {
            i = i + 1;
        }
    }
    let ip_addr = match found {
        Some(k) => up[k].address.clone(),
        None => text::cat2(cfg.wlan_subnet.as_str(), ".1"),
    };
    match mac {
        Some(bssid) => Ok(
            WifiConfig {
                ip_addr,
                port: TCP_SERVER_PORT,
                ssid: cfg.ssid.clone(),
                bssid,
                wpa_key: cfg.wpa_passphrase.clone(),
            },
        ),
        None => Err("No MAC address found".to_owned()),
    }
}

// ---------------------------------------------------------------------
// Requests of the user

/// What is done about a request, and what is left of it: a reboot is done, the
/// others are left to those that wait for them.
pub fn action_handler(requested: Option<Action>) -> (r: (Option<Action>, bool))
    ensures
        r.1 == (requested == Some(Action::Reboot)),
        r.0 == (if requested == Some(Action::Reboot) {
            None
        } else {
            requested
        }),
{
    match requested {
        Some(Action::Reboot) => (None, true),
        other => (other, false),
    }
}

/// What the way out waits for.
#[derive(Clone, Copy, PartialEq, Eq, Structural, Debug)]
pub enum ExitStep {
    Exit,
    /// Look again after this time.
    Wait(u64),
}

/// The process ends when the session has been torn down, and after three seconds
/// in any case.
pub fn clean_disconnect_and_exit(session_active: bool, elapsed_ms: u64) -> (r: ExitStep)
    ensures
        r == (if !session_active || elapsed_ms >= 3000 {
            ExitStep::Exit
        } else {
            ExitStep::Wait(50)
        }),
{
    if !session_active || elapsed_ms >= 3000 {
        ExitStep::Exit
    } else {
        ExitStep::Wait(50)
    }
}

/// The address at which only the web interface is served. An own one comes before
/// the configured one; without both there is nothing to serve.
pub fn web_only_bind(own: Option<String>, configured: Option<String>) -> (r: Option<String>)
    ensures
        r.deep_view() == (match own.deep_view() {
            Some(a) => Some(a),
            None => configured.deep_view(),
        }),
{
    match own {
        Some(a) => Some(a),
        None => configured,
    }
}

/// Whether the device has lights and a button.
pub fn has_leds_and_button(model: &str) -> (r: bool)
    ensures
        r == text::begins(model@, "AAWireless"@),
{
    text::starts_with(model, "AAWireless")
}

#[derive(Clone, Copy, PartialEq, Eq, Structural, Debug)]
pub enum LogLevel {
    Info,
    Debug,
}

/// How much is logged to the console and to the file.
pub fn logging_init(debug: bool, disable_console_debug: bool) -> (r: (LogLevel, LogLevel))
    ensures
        r.0 == (if debug && !disable_console_debug {
            LogLevel::Debug
        } else {
            LogLevel::Info
        }),
        r.1 == (if debug {
            LogLevel::Debug
        } else {
            LogLevel::Info
        }),
{
    let requested = if debug {
        LogLevel::Debug
    } else {
        LogLevel::Info
    };
    if disable_console_debug {
        (LogLevel::Info, requested)
    } else {
        (requested, requested)
    }
}

// ---------------------------------------------------------------------
// Files of other services

/// The serial number in the contents of the kernel's file.
pub fn get_serial_number(contents: &str) -> (r: String)
    ensures
        r@ == text::trimmed(bluetooth::without_zeros(contents@)),
{
    text::trim(bluetooth::trim_zeros(contents)).to_owned()
}

/// A word of a template and what takes its place.
pub struct TemplateVar {
    pub key: String,
    pub value: String,
}

pub open spec fn placeholder(key: Seq<char>) -> Seq<char> {
    "{{"@ + key + "}}"@
}

/// The template with the first `n` words replaced, one word behind the other.
pub open spec fn rendered(template: Seq<char>, vars: Seq<(Seq<char>, Seq<char>)>, n: int) -> Seq<char>
    decreases n,
{
    if n <= 0 {
        template
    } else {
        text::replaced(
            rendered(template, vars, n - 1),
            placeholder(vars[n - 1].0),
            vars[n - 1].1,
        )
    }
}

impl DeepView for TemplateVar {
    type V = (Seq<char>, Seq<char>);

    open spec fn deep_view(&self) -> (Seq<char>, Seq<char>) {
        (self.key@, self.value@)
    }
}

pub fn render_template(template: &str, vars: &Vec<TemplateVar>) -> (r: String)
    ensures
        r@ == rendered(template@, vars.deep_view(), vars.deep_view().len() as int),
{
    let mut output = template.to_owned();
    for i in 0..vars.len()
        invariant
            output@ == rendered(template@, vars.deep_view(), i as int),
    {
        assert(vars.deep_view()[i as int] == vars@[i as int].deep_view());
        let p = text::cat3("{{", vars[i].key.as_str(), "}}");
        proof {
            reveal_strlit("{{");
        }
        output = text::replace(output.as_str(), p.as_str(), vars[i].value.as_str());
    }
    output
}

fn push_var(vars: &mut Vec<TemplateVar>, key: &str, value: &str)
    ensures
        final(vars).deep_view() == old(vars).deep_view().push((key@, value@)),
{
    let ghost before = vars.deep_view();
    vars.push(TemplateVar { key: key.to_owned(), value: value.to_owned() });
    assert(vars.deep_view() =~= before.push((key@, value@)));
}

pub open spec fn switch(on: bool) -> Seq<char> {
    if on {
        "1"@
    } else {
        "0"@
    }
}

fn switch_text(on: bool) -> (r: &'static str)
    ensures
        r@ == switch(on),
{
    if on {
        "1"
    } else {
        "0"
    }
}

/// The words for the access point: each generation of Wi-Fi switches its own
/// mode and those before it on.
pub open spec fn hostapd_vars(c: ConfigModel) -> Seq<(Seq<char>, Seq<char>)> {
    Seq::empty().push(
        (
            "HW_MODE"@,
            if c.band == "5"@ || c.band == "6"@ {
                "a"@
            } else {
                "g"@
            },
        ),
    ).push(("BE_MODE"@, switch(c.wifi_version >= 7))).push(
        ("AX_MODE"@, switch(c.wifi_version >= 6)),
    ).push(("AC_MODE"@, switch(c.wifi_version >= 5))).push(
        ("N_MODE"@, switch(c.wifi_version >= 4)),
    ).push(("COUNTRY_CODE"@, c.country_code)).push(
        ("CHANNEL"@, text::decimal(c.channel as nat)),
    ).push(("SSID"@, c.ssid)).push(("WPA_PASSPHRASE"@, c.wpa_passphrase))
}

/// The configuration of the access point.
pub fn generate_hostapd_conf(cfg: &AppConfig, template: &str) -> (r: String)
    ensures
        r@ == rendered(template@, hostapd_vars(cfg@), hostapd_vars(cfg@).len() as int),
{
    let mut vars: Vec<TemplateVar> = Vec::new();
    assert(vars.deep_view() =~= Seq::<(Seq<char>, Seq<char>)>::empty());
    let mode = if text::same(cfg.band.as_str(), "5") || text::same(cfg.band.as_str(), "6") {
        "a"
    } else {
        "g"
    };
    push_var(&mut vars, "HW_MODE", mode);
    push_var(&mut vars, "BE_MODE", switch_text(cfg.wifi_version >= 7));
    push_var(&mut vars, "AX_MODE", switch_text(cfg.wifi_version >= 6));
    push_var(&mut vars, "AC_MODE", switch_text(cfg.wifi_version >= 5));
    push_var(&mut vars, "N_MODE", switch_text(cfg.wifi_version >= 4));
    push_var(&mut vars, "COUNTRY_CODE", cfg.country_code.as_str());
    let channel = text::decimal_text(cfg.channel as u64);
    push_var(&mut vars, "CHANNEL", channel.as_str());
    push_var(&mut vars, "SSID", cfg.ssid.as_str());
    push_var(&mut vars, "WPA_PASSPHRASE", cfg.wpa_passphrase.as_str());
    render_template(template, &vars)
}

pub open spec fn network_vars(c: ConfigModel) -> Seq<(Seq<char>, Seq<char>)> {
    Seq::empty().push(("WLAN_SUBNET"@, c.wlan_subnet))
}

/// The configuration of the network's addresses.
pub fn generate_network_conf(cfg: &AppConfig, template: &str) -> (r: String)
    ensures
        r@ == rendered(template@, network_vars(cfg@), network_vars(cfg@).len() as int),
{
    let mut vars: Vec<TemplateVar> = Vec::new();
    assert(vars.deep_view() =~= Seq::<(Seq<char>, Seq<char>)>::empty());
    push_var(&mut vars, "WLAN_SUBNET", cfg.wlan_subnet.as_str());
    render_template(template, &vars)
}

pub open spec fn usb_vars(
    model: Option<Seq<char>>,
    serial: Option<Seq<char>>,
    firmware: Seq<char>,
) -> Seq<(Seq<char>, Seq<char>)> {
    Seq::empty().push(
        (
            "MODEL"@,
            match model {
                Some(m) => " ("@ + m + ")"@,
                None => ""@,
            },
        ),
    ).push(
        (
            "SERIAL"@,
            match serial {
                Some(s) => s,
                None => "0123456"@,
            },
        ),
    ).push(("FIRMWARE_VER"@, firmware))
}

/// The names by which the device shows itself on the USB bus.
pub fn generate_usb_strings(
    template: &str,
    model: Option<String>,
    serial: Option<String>,
    firmware: &str,
) -> (r: String)
    ensures
        r@ == rendered(
            template@,
            usb_vars(model.deep_view(), serial.deep_view(), firmware@),
            usb_vars(model.deep_view(), serial.deep_view(), firmware@).len() as int,
        ),
{
    let mut vars: Vec<TemplateVar> = Vec::new();
    assert(vars.deep_view() =~= Seq::<(Seq<char>, Seq<char>)>::empty());
    let model = match model {
        Some(m) => text::cat3(" (", m.as_str(), ")"),
        None => "".to_owned(),
    };
    let serial = match serial {
        Some(s) => s,
        None => "0123456".to_owned(),
    };
    push_var(&mut vars, "MODEL", model.as_str());
    push_var(&mut vars, "SERIAL", serial.as_str());
    push_var(&mut vars, "FIRMWARE_VER", firmware);
    render_template(template, &vars)
}

// ---------------------------------------------------------------------
// The options of a session in the car's network

/// Seconds in milliseconds, as far as they can be counted.
pub open spec fn ms_of_secs(secs: u64) -> u64 {
    if secs > 18_446_744_073_709_551 {
        0xffff_ffff_ffff_ffff
    } else {
        (secs * 1000) as u64
    }
}

fn secs_to_ms(secs: u64) -> (r: u64)
    ensures
        r == ms_of_secs(secs),
{
    if secs > 18_446_744_073_709_551 {
        0xffff_ffff_ffff_ffff
    } else {
        secs * 1000
    }
}

/// A time of a second at least.
pub open spec fn span_of(secs: u64) -> u64 {
    ms_of_secs(clock::at_least(secs, 1))
}

fn span(secs: u64) -> (r: u64)
    ensures
        r == span_of(secs),
{
    secs_to_ms(clock::max_ms(secs, 1))
}

pub open spec fn session_options(c: ConfigModel) -> OptionsModel {
    CarWifiMitmProxyOptions {
        hu_mac: c.bt_wireless_proxy_hu_mac,
        hu_channel: c.bt_wireless_proxy_hu_channel,
        rendezvous_mode: c.bt_wireless_proxy_rendezvous_mode,
        iface: if text::trimmed(c.bt_wireless_proxy_car_wifi_base_iface).len() == 0 {
            c.iface
        } else {
            c.bt_wireless_proxy_car_wifi_base_iface
        },
        join_cmd: c.bt_wireless_proxy_car_wifi_join_cmd,
        auto_join: c.bt_wireless_proxy_car_wifi_auto_join,
        join_control: c.bt_wireless_proxy_wifi_join_control,
        keep_ap: c.bt_wireless_proxy_car_wifi_keep_ap,
        sta_iface: c.bt_wireless_proxy_car_wifi_sta_iface,
        sta_phy: c.bt_wireless_proxy_car_wifi_sta_phy,
        ap_iface: c.bt_wireless_proxy_car_wifi_ap_iface,
        phone_wifi_mode: c.bt_wireless_proxy_phone_wifi_mode,
        phone_ap_ssid: c.ssid,
        phone_ap_key: c.wpa_passphrase,
        phone_ap_ip: c.wlan_subnet + ".1"@,
        phone_ap_channel: c.channel,
        rewrite_ip: c.bt_wireless_proxy_rewrite_ip,
        listen_port: c.bt_wireless_proxy_listen_port,
        use_version_projection_fallback: c.bt_wireless_proxy_use_version_projection_fallback,
        protocol_version_override_enabled: c.protocol_version_override_enabled,
        protocol_version_override_major: c.protocol_version_override_major,
        protocol_version_override_minor: c.protocol_version_override_minor,
        wpp_keepalive: c.bt_wireless_proxy_wpp_keepalive,
        wpp_keepalive_interval_ms: clock::at_least(
            c.bt_wireless_proxy_wpp_keepalive_interval_ms,
            250,
        ),
        wpactrl_socket_timeout_ms: span_of(c.bt_wireless_proxy_wpactrl_socket_timeout_secs),
        wifi_association_timeout_ms: span_of(c.bt_wireless_proxy_wifi_association_timeout_secs),
        dhcp_timeout_ms: span_of(c.bt_wireless_proxy_dhcp_timeout_secs),
        hu_first_wait_phone_timeout_ms: span_of(c.bt_wireless_proxy_hu_first_wait_phone_secs),
        bt_timeout_ms: ms_of_secs(c.bt_timeout_secs as u64),
        stopped: c.action_requested == Some(Action::Stop),
    }
}

pub fn is_stop(requested: &Option<Action>) -> (r: bool)
    ensures
        r == (*requested == Some(Action::Stop)),
{
    match requested {
        Some(Action::Stop) => true,
        _ => false,
    }
}

pub fn car_wifi_mitm_options(cfg: &AppConfig) -> (r: CarWifiMitmProxyOptions)
    ensures
        r@ == session_options(cfg@),
{
    let iface = if text::trim(cfg.bt_wireless_proxy_car_wifi_base_iface.as_str()).is_empty() {
        cfg.iface.clone()
    } else {
        cfg.bt_wireless_proxy_car_wifi_base_iface.clone()
    };
    CarWifiMitmProxyOptions {
        hu_mac: cfg.bt_wireless_proxy_hu_mac.clone(),
        hu_channel: cfg.bt_wireless_proxy_hu_channel,
        rendezvous_mode: cfg.bt_wireless_proxy_rendezvous_mode.clone(),
        iface,
        join_cmd: cfg.bt_wireless_proxy_car_wifi_join_cmd.clone(),
        auto_join: cfg.bt_wireless_proxy_car_wifi_auto_join,
        join_control: cfg.bt_wireless_proxy_wifi_join_control.clone(),
        keep_ap: cfg.bt_wireless_proxy_car_wifi_keep_ap,
        sta_iface: cfg.bt_wireless_proxy_car_wifi_sta_iface.clone(),
        sta_phy: cfg.bt_wireless_proxy_car_wifi_sta_phy.clone(),
        ap_iface: cfg.bt_wireless_proxy_car_wifi_ap_iface.clone(),
        phone_wifi_mode: cfg.bt_wireless_proxy_phone_wifi_mode.clone(),
        phone_ap_ssid: cfg.ssid.clone(),
        phone_ap_key: cfg.wpa_passphrase.clone(),
        phone_ap_ip: text::cat2(cfg.wlan_subnet.as_str(), ".1"),
        phone_ap_channel: cfg.channel,
        rewrite_ip: cfg.bt_wireless_proxy_rewrite_ip.clone(),
        listen_port: cfg.bt_wireless_proxy_listen_port,
        use_version_projection_fallback: cfg.bt_wireless_proxy_use_version_projection_fallback,
        protocol_version_override_enabled: cfg.protocol_version_override_enabled,
        protocol_version_override_major: cfg.protocol_version_override_major,
        protocol_version_override_minor: cfg.protocol_version_override_minor,
        wpp_keepalive: cfg.bt_wireless_proxy_wpp_keepalive,
        wpp_keepalive_interval_ms: clock::max_ms(
            cfg.bt_wireless_proxy_wpp_keepalive_interval_ms,
            250,
        ),
        wpactrl_socket_timeout_ms: span(cfg.bt_wireless_proxy_wpactrl_socket_timeout_secs),
        wifi_association_timeout_ms: span(cfg.bt_wireless_proxy_wifi_association_timeout_secs),
        dhcp_timeout_ms: span(cfg.bt_wireless_proxy_dhcp_timeout_secs),
        hu_first_wait_phone_timeout_ms: span(cfg.bt_wireless_proxy_hu_first_wait_phone_secs),
        bt_timeout_ms: secs_to_ms(cfg.bt_timeout_secs as u64),
        stopped: is_stop(&cfg.action_requested),
    }
}

// ---------------------------------------------------------------------
// What the templates become

/// Whether a text has no brace.
pub open spec fn is_plain(s: Seq<char>) -> bool {
    forall|i: int| 0 <= i < s.len() ==> #[trigger] s[i] != '{'
}

proof fn lemma_placeholder(key: Seq<char>)
    requires
        is_plain(key),
    ensures
        placeholder(key).len() == key.len() + 4,
        placeholder(key)[0] == '{',
        placeholder(key)[1] == '{',
        forall|i: int| 2 <= i < placeholder(key).len() ==> #[trigger] placeholder(key)[i] != '{',
        placeholder(key).subrange(2, 2 + key.len() as int) == key,
{
    reveal_strlit("{{");
    reveal_strlit("}}");
    assert(placeholder(key).subrange(2, 2 + key.len() as int) =~= key);
}

/// A text without braces holds no placeholder.
proof fn lemma_plain_stays(s: Seq<char>, key: Seq<char>, with: Seq<char>)
    requires
        is_plain(s),
        is_plain(key),
    ensures
        text::replaced(s, placeholder(key), with) == s,
    decreases s.len(),
{
    lemma_placeholder(key);
    let pat = placeholder(key);
    if s.len() > 0 {
        if text::begins(s, pat) {
            assert(s.subrange(0, pat.len() as int)[0] == pat[0]);
        }
        let tail = s.subrange(1, s.len() as int);
        lemma_plain_stays(tail, key, with);
        assert(seq![s[0]] + tail =~= s);
    }
}

/// A placeholder among text without braces is replaced if it is the one that is looked
/// for, and stays if it is another one.
proof fn lemma_one_placeholder(
    a: Seq<char>,
    here: Seq<char>,
    b: Seq<char>,
    key: Seq<char>,
    with: Seq<char>,
)
    requires
        is_plain(a),
        is_plain(b),
        is_plain(here),
        is_plain(key),
        forall|i: int| 0 <= i < here.len() ==> #[trigger] here[i] != '}',
        forall|i: int| 0 <= i < key.len() ==> #[trigger] key[i] != '}',
    ensures
        text::replaced(a + placeholder(here) + b, placeholder(key), with) == (if here == key {
            a + with + b
        } else {
            a + placeholder(here) + b
        }),
    decreases a.len(),
{
    lemma_placeholder(here);
    lemma_placeholder(key);
    reveal_strlit("}}");
    let pat = placeholder(key);
    let mid = placeholder(here);
    let s = a + mid + b;
    if a.len() > 0 {
        if text::begins(s, pat) {
            assert(s.subrange(0, pat.len() as int)[0] == pat[0]);
        }
        let tail = a.subrange(1, a.len() as int);
        assert(s.subrange(1, s.len() as int) =~= tail + mid + b);
        lemma_one_placeholder(tail, here, b, key, with);
        assert(seq![a[0]] + (tail + with + b) =~= a + with + b);
        assert(seq![a[0]] + (tail + mid + b) =~= s);
    } else {
        assert(s =~= mid + b);
        if here == key {
            assert(s.subrange(0, pat.len() as int) =~= pat);
            assert(s.subrange(pat.len() as int, s.len() as int) =~= b);
            lemma_plain_stays(b, key, with);
            assert(a + with + b =~= with + b);
        } else {
            if text::begins(s, pat) {
                let head = s.subrange(0, pat.len() as int);
                lemma_same_key(here, b, key);
            }
            let s1 = s.subrange(1, s.len() as int);
            let s2 = s1.subrange(1, s1.len() as int);
            if text::begins(s1, pat) {
                assert(s1.subrange(0, pat.len() as int)[1] == pat[1]);
                assert(s1[1] == mid[2]);
            }
            assert forall|i: int| 0 <= i < s2.len() implies #[trigger] s2[i] != '{' by {
                if i + 2 < mid.len() {
                    assert(s2[i] == mid[i + 2]);
                } else {
                    assert(s2[i] == b[i + 2 - mid.len()]);
                }
            }
            lemma_plain_stays(s2, key, with);
            assert(text::replaced(s1, pat, with) =~= seq!['{'] + s2);
            assert(text::replaced(s, pat, with) =~= seq!['{'] + (seq!['{'] + s2));
            assert(seq!['{'] + (seq!['{'] + s2) =~= s);
        }
    }
}

/// Two placeholders that begin alike are the same.
proof fn lemma_same_key(here: Seq<char>, b: Seq<char>, key: Seq<char>)
    requires
        is_plain(here),
        is_plain(key),
        forall|i: int| 0 <= i < here.len() ==> #[trigger] here[i] != '}',
        forall|i: int| 0 <= i < key.len() ==> #[trigger] key[i] != '}',
        text::begins(placeholder(here) + b, placeholder(key)),
    ensures
        here == key,
{
    lemma_placeholder(here);
    lemma_placeholder(key);
    reveal_strlit("{{");
    reveal_strlit("}}");
    let s = placeholder(here) + b;
    let pat = placeholder(key);
    let head = s.subrange(0, pat.len() as int);
    assert(head == pat);
    if here.len() > key.len() {
        assert(head[2 + key.len() as int] == '}');
        assert(s[2 + key.len() as int] == here[key.len() as int]);
    } else if here.len() < key.len() {
        assert(s[2 + here.len() as int] == '}');
        assert(pat[2 + here.len() as int] == key[here.len() as int]);
    } else {
        assert forall|i: int| 0 <= i < key.len() implies here[i] == key[i] by {
            assert(head[2 + i] == s[2 + i]);
            assert(s[2 + i] == here[i]);
            assert(pat[2 + i] == key[i]);
        }
        assert(here =~= key);
    }
}

/// Whether a list of words is one in which each has its own plain key.
pub open spec fn are_words(vars: Seq<(Seq<char>, Seq<char>)>) -> bool {
    &&& forall|i: int| 0 <= i < vars.len() ==> is_plain((#[trigger] vars[i]).0)
    &&& forall|i: int, j: int|
        0 <= i < vars.len() && 0 <= j < vars[i].0.len() ==> #[trigger] vars[i].0[j] != '}'
    &&& forall|i: int, j: int|
        0 <= i < j < vars.len() ==> (#[trigger] vars[i]).0 != (#[trigger] vars[j]).0
}

proof fn lemma_word_is_put_in(
    vars: Seq<(Seq<char>, Seq<char>)>,
    k: int,
    a: Seq<char>,
    b: Seq<char>,
    n: int,
)
    requires
        are_words(vars),
        0 <= k < vars.len(),
        0 <= n <= vars.len(),
        is_plain(a),
        is_plain(b),
        is_plain(vars[k].1),
    ensures
        rendered(a + placeholder(vars[k].0) + b, vars, n) == (if n <= k {
            a + placeholder(vars[k].0) + b
        } else {
            a + vars[k].1 + b
        }),
    decreases n,
{
    if n > 0 {
        lemma_word_is_put_in(vars, k, a, b, n - 1);
        let key = vars[n - 1].0;
        if n - 1 <= k {
            lemma_one_placeholder(a, vars[k].0, b, key, vars[n - 1].1);
        } else {
            let s = a + vars[k].1 + b;
            assert forall|i: int| 0 <= i < s.len() implies #[trigger] s[i] != '{' by {
                if i < a.len() {
                    assert(s[i] == a[i]);
                } else if i < a.len() + vars[k].1.len() {
                    assert(s[i] == vars[k].1[i - a.len()]);
                } else {
                    assert(s[i] == b[i - a.len() - vars[k].1.len()]);
                }
            }
            lemma_plain_stays(s, key, vars[n - 1].1);
        }
    }
}

/// A template without placeholders stays as it is.
proof fn lemma_plain_template_stays(vars: Seq<(Seq<char>, Seq<char>)>, s: Seq<char>, n: int)
    requires
        are_words(vars),
        0 <= n <= vars.len(),
        is_plain(s),
    ensures
        rendered(s, vars, n) == s,
    decreases n,
{
    if n > 0 {
        lemma_plain_template_stays(vars, s, n - 1);
        lemma_plain_stays(s, vars[n - 1].0, vars[n - 1].1);
    }
}

/// The configuration of the access point that a template becomes.
pub open spec fn hostapd_conf(c: ConfigModel, template: Seq<char>) -> Seq<char> {
    rendered(template, hostapd_vars(c), hostapd_vars(c).len() as int)
}

#[verifier::rlimit(40)]
proof fn lemma_hostapd_words(c: ConfigModel)
    ensures
        are_words(hostapd_vars(c)),
        hostapd_vars(c).len() == 9,
        hostapd_vars(c)[0].0 == "HW_MODE"@,
        hostapd_vars(c)[1].0 == "BE_MODE"@,
        hostapd_vars(c)[2].0 == "AX_MODE"@,
        hostapd_vars(c)[3].0 == "AC_MODE"@,
        hostapd_vars(c)[4].0 == "N_MODE"@,
        hostapd_vars(c)[5].0 == "COUNTRY_CODE"@,
        hostapd_vars(c)[6].0 == "CHANNEL"@,
        hostapd_vars(c)[7].0 == "SSID"@,
        hostapd_vars(c)[8].0 == "WPA_PASSPHRASE"@,
{
    reveal_strlit("HW_MODE");
    reveal_strlit("BE_MODE");
    reveal_strlit("AX_MODE");
    reveal_strlit("AC_MODE");
    reveal_strlit("N_MODE");
    reveal_strlit("COUNTRY_CODE");
    reveal_strlit("CHANNEL");
    reveal_strlit("SSID");
    reveal_strlit("WPA_PASSPHRASE");
    let vars = hostapd_vars(c);
    assert(key_mark("HW_MODE"@) == 477271);
    assert(key_mark("BE_MODE"@) == 475717);
    assert(key_mark("AX_MODE"@) == 475480);
    assert(key_mark("AC_MODE"@) == 475459);
    assert(key_mark("N_MODE"@) == 413279);
    assert(key_mark("COUNTRY_CODE"@) == 803663);
    assert(key_mark("CHANNEL"@) == 475976);
    assert(key_mark("SSID"@) == 283475);
    assert(key_mark("WPA_PASSPHRASE"@) == 939856);
    assert(vars[0].0 == "HW_MODE"@);
    assert(vars[1].0 == "BE_MODE"@);
    assert(vars[2].0 == "AX_MODE"@);
    assert(vars[3].0 == "AC_MODE"@);
    assert(vars[4].0 == "N_MODE"@);
    assert(vars[5].0 == "COUNTRY_CODE"@);
    assert(vars[6].0 == "CHANNEL"@);
    assert(vars[7].0 == "SSID"@);
    assert(vars[8].0 == "WPA_PASSPHRASE"@);
    assert forall|i: int| 0 <= i < vars.len() implies is_plain((#[trigger] vars[i]).0) by {
        assert(0 <= i <= 8);
    }
    assert forall|i: int, j: int| 0 <= i < vars.len() && 0 <= j < vars[i].0.len() implies
        #[trigger] vars[i].0[j] != '}' by {
        assert(0 <= i <= 8);
    }
    assert forall|i: int, j: int| 0 <= i < j < vars.len() implies (#[trigger] vars[i]).0 != (
    #[trigger] vars[j]).0 by {
        assert(key_mark(vars[i].0) != key_mark(vars[j].0));
    }
}

/// A number for a key, from its length and its first characters.
spec fn key_mark(key: Seq<char>) -> int {
    key.len() * 65536 + key[0] as int * 256 + key[1] as int
}

proof fn lemma_digits_are_plain(n: nat)
    ensures
        is_plain(text::decimal(n)),
    decreases n,
{
    reveal_with_fuel(text::numeral, 2);
    if n >= 10 {
        lemma_digits_are_plain(n / 10);
        let head = text::decimal(n / 10);
        assert forall|i: int| 0 <= i < text::decimal(n).len() implies #[trigger] text::decimal(n)[i]
            != '{' by {
            if i < head.len() {
                assert(text::decimal(n)[i] == head[i]);
            }
        }
    }
}

/// Each placeholder in the access point's template becomes what the settings say: the
/// radio works in the mode of its band, each generation of Wi-Fi switches its own mode
/// and those before it on, and the country, the channel, the name and the key are the
/// configured ones.
#[verifier::rlimit(40)]
pub proof fn law_access_point_is_configured(c: ConfigModel, a: Seq<char>, b: Seq<char>)
    requires
        is_plain(a),
        is_plain(b),
    ensures
        c.band == "5"@ || c.band == "6"@ ==> hostapd_conf(c, a + "{{HW_MODE}}"@ + b) == a + "a"@
            + b,
        c.band != "5"@ && c.band != "6"@ ==> hostapd_conf(c, a + "{{HW_MODE}}"@ + b) == a + "g"@
            + b,
        hostapd_conf(c, a + "{{BE_MODE}}"@ + b) == a + (if c.wifi_version >= 7 {
            "1"@
        } else {
            "0"@
        }) + b,
        hostapd_conf(c, a + "{{AX_MODE}}"@ + b) == a + (if c.wifi_version >= 6 {
            "1"@
        } else {
            "0"@
        }) + b,
        hostapd_conf(c, a + "{{AC_MODE}}"@ + b) == a + (if c.wifi_version >= 5 {
            "1"@
        } else {
            "0"@
        }) + b,
        hostapd_conf(c, a + "{{N_MODE}}"@ + b) == a + (if c.wifi_version >= 4 {
            "1"@
        } else {
            "0"@
        }) + b,
        is_plain(c.country_code) ==> hostapd_conf(c, a + "{{COUNTRY_CODE}}"@ + b) == a
            + c.country_code + b,
        hostapd_conf(c, a + "{{CHANNEL}}"@ + b) == a + text::decimal(c.channel as nat) + b,
        is_plain(c.ssid) ==> hostapd_conf(c, a + "{{SSID}}"@ + b) == a + c.ssid + b,
        is_plain(c.wpa_passphrase) ==> hostapd_conf(c, a + "{{WPA_PASSPHRASE}}"@ + b) == a
            + c.wpa_passphrase + b,
        hostapd_conf(c, a) == a,
{
    let vars = hostapd_vars(c);
    lemma_hostapd_words(c);
    lemma_placeholder_texts();
    lemma_one_letter_words();
    lemma_digits_are_plain(c.channel as nat);
    lemma_word_is_put_in(vars, 0, a, b, 9);
    lemma_word_is_put_in(vars, 1, a, b, 9);
    lemma_word_is_put_in(vars, 2, a, b, 9);
    lemma_word_is_put_in(vars, 3, a, b, 9);
    lemma_word_is_put_in(vars, 4, a, b, 9);
    if is_plain(c.country_code) {
        lemma_word_is_put_in(vars, 5, a, b, 9);
    }
    lemma_word_is_put_in(vars, 6, a, b, 9);
    if is_plain(c.ssid) {
        lemma_word_is_put_in(vars, 7, a, b, 9);
    }
    if is_plain(c.wpa_passphrase) {
        lemma_word_is_put_in(vars, 8, a, b, 9);
    }
    lemma_plain_template_stays(vars, a, 9);
}

proof fn lemma_one_letter_words()
    ensures
        is_plain("a"@),
        is_plain("g"@),
        is_plain("0"@),
        is_plain("1"@),
{
    reveal_strlit("a");
    reveal_strlit("g");
    reveal_strlit("0");
    reveal_strlit("1");
}

proof fn lemma_placeholder_texts()
    ensures
        placeholder("HW_MODE"@) == "{{HW_MODE}}"@,
        placeholder("BE_MODE"@) == "{{BE_MODE}}"@,
        placeholder("AX_MODE"@) == "{{AX_MODE}}"@,
        placeholder("AC_MODE"@) == "{{AC_MODE}}"@,
        placeholder("N_MODE"@) == "{{N_MODE}}"@,
        placeholder("COUNTRY_CODE"@) == "{{COUNTRY_CODE}}"@,
        placeholder("CHANNEL"@) == "{{CHANNEL}}"@,
        placeholder("SSID"@) == "{{SSID}}"@,
        placeholder("WPA_PASSPHRASE"@) == "{{WPA_PASSPHRASE}}"@,
        placeholder("WLAN_SUBNET"@) == "{{WLAN_SUBNET}}"@,
        placeholder("MODEL"@) == "{{MODEL}}"@,
        placeholder("SERIAL"@) == "{{SERIAL}}"@,
        placeholder("FIRMWARE_VER"@) == "{{FIRMWARE_VER}}"@,
{
    reveal_strlit("{{");
    reveal_strlit("}}");
    reveal_strlit("HW_MODE");
    reveal_strlit("{{HW_MODE}}");
    assert(placeholder("HW_MODE"@) =~= "{{HW_MODE}}"@);
    reveal_strlit("BE_MODE");
    reveal_strlit("{{BE_MODE}}");
    assert(placeholder("BE_MODE"@) =~= "{{BE_MODE}}"@);
    reveal_strlit("AX_MODE");
    reveal_strlit("{{AX_MODE}}");
    assert(placeholder("AX_MODE"@) =~= "{{AX_MODE}}"@);
    reveal_strlit("AC_MODE");
    reveal_strlit("{{AC_MODE}}");
    assert(placeholder("AC_MODE"@) =~= "{{AC_MODE}}"@);
    reveal_strlit("N_MODE");
    reveal_strlit("{{N_MODE}}");
    assert(placeholder("N_MODE"@) =~= "{{N_MODE}}"@);
    reveal_strlit("COUNTRY_CODE");
    reveal_strlit("{{COUNTRY_CODE}}");
    assert(placeholder("COUNTRY_CODE"@) =~= "{{COUNTRY_CODE}}"@);
    reveal_strlit("CHANNEL");
    reveal_strlit("{{CHANNEL}}");
    assert(placeholder("CHANNEL"@) =~= "{{CHANNEL}}"@);
    reveal_strlit("SSID");
    reveal_strlit("{{SSID}}");
    assert(placeholder("SSID"@) =~= "{{SSID}}"@);
    reveal_strlit("WPA_PASSPHRASE");
    reveal_strlit("{{WPA_PASSPHRASE}}");
    assert(placeholder("WPA_PASSPHRASE"@) =~= "{{WPA_PASSPHRASE}}"@);
    reveal_strlit("WLAN_SUBNET");
    reveal_strlit("{{WLAN_SUBNET}}");
    assert(placeholder("WLAN_SUBNET"@) =~= "{{WLAN_SUBNET}}"@);
    reveal_strlit("MODEL");
    reveal_strlit("{{MODEL}}");
    assert(placeholder("MODEL"@) =~= "{{MODEL}}"@);
    reveal_strlit("SERIAL");
    reveal_strlit("{{SERIAL}}");
    assert(placeholder("SERIAL"@) =~= "{{SERIAL}}"@);
    reveal_strlit("FIRMWARE_VER");
    reveal_strlit("{{FIRMWARE_VER}}");
    assert(placeholder("FIRMWARE_VER"@) =~= "{{FIRMWARE_VER}}"@);
}

/// The placeholder in the network's template becomes the configured subnet, and nothing
/// else changes.
pub proof fn law_network_is_configured(c: ConfigModel, a: Seq<char>, b: Seq<char>)
    requires
        is_plain(a),
        is_plain(b),
        is_plain(c.wlan_subnet),
    ensures
        rendered(a + "{{WLAN_SUBNET}}"@ + b, network_vars(c), network_vars(c).len() as int) == a
            + c.wlan_subnet + b,
        rendered(a, network_vars(c), network_vars(c).len() as int) == a,
{
    reveal_strlit("WLAN_SUBNET");
    lemma_placeholder_texts();
    lemma_word_is_put_in(network_vars(c), 0, a, b, 1);
    lemma_plain_template_stays(network_vars(c), a, 1);
}

/// On the USB bus the device shows its model in brackets, or none, its serial number,
/// or a made-up one, and its firmware.
pub proof fn law_usb_names_are_those_of_the_device(
    model: Option<Seq<char>>,
    serial: Option<Seq<char>>,
    firmware: Seq<char>,
    a: Seq<char>,
    b: Seq<char>,
)
    requires
        is_plain(a),
        is_plain(b),
        is_plain(firmware),
        model matches Some(m) ==> is_plain(m),
        serial matches Some(s) ==> is_plain(s),
    ensures
        ({
            let vars = usb_vars(model, serial, firmware);
            let n = vars.len() as int;
            &&& model matches Some(m) ==> rendered(a + "{{MODEL}}"@ + b, vars, n) == a + (" ("@ + m
                + ")"@) + b
            &&& model is None ==> rendered(a + "{{MODEL}}"@ + b, vars, n) == a + b
            &&& serial matches Some(s) ==> rendered(a + "{{SERIAL}}"@ + b, vars, n) == a + s + b
            &&& serial is None ==> rendered(a + "{{SERIAL}}"@ + b, vars, n) == a + "0123456"@ + b
            &&& rendered(a + "{{FIRMWARE_VER}}"@ + b, vars, n) == a + firmware + b
            &&& rendered(a, vars, n) == a
        }),
{
    let vars = usb_vars(model, serial, firmware);
    reveal_strlit("MODEL");
    reveal_strlit("SERIAL");
    reveal_strlit("FIRMWARE_VER");
    reveal_strlit("");
    reveal_strlit("0123456");
    reveal_strlit(" (");
    reveal_strlit(")");
    lemma_placeholder_texts();
    assert("MODEL"@.len() != "SERIAL"@.len());
    if let Some(m) = model {
        let v = " ("@ + m + ")"@;
        assert forall|i: int| 0 <= i < v.len() implies #[trigger] v[i] != '{' by {
            if 2 <= i < 2 + m.len() {
                assert(v[i] == m[i - 2]);
            }
        }
    }
    lemma_word_is_put_in(vars, 0, a, b, 3);
    lemma_word_is_put_in(vars, 1, a, b, 3);
    lemma_word_is_put_in(vars, 2, a, b, 3);
    lemma_plain_template_stays(vars, a, 3);
    assert(a + ""@ + b =~= a + b);
}

// ---------------------------------------------------------------------
// What is decided at the start

/// Firmware is looked for where the setting says, and in the usual directory
/// where it says nothing.
pub proof fn law_firmware_has_its_place(configured: Seq<char>)
    ensures
        text::trimmed(configured).len() == 0 ==> firmware_path(configured)
            == "/data/aa-proxy-rs/firmware"@,
        text::trimmed(configured).len() > 0 ==> firmware_path(configured) == text::trimmed(
            configured,
        ),
{
}

/// A module's name is safe where it is made of letters, digits, underscores and
/// hyphens, and of at least one of them.
pub proof fn law_safe_names_are_plain(name: Seq<char>)
    ensures
        is_safe_module(name) <==> name.len() > 0 && forall|i: int|
            0 <= i < name.len() ==> 'a' <= #[trigger] name[i] <= 'z' || 'A' <= name[i] <= 'Z' || '0'
                <= name[i] <= '9' || name[i] == '_' || name[i] == '-',
{
    assert(forall|i: int|
        0 <= i < name.len() ==> is_module_char(#[trigger] name[i]) == ('a' <= name[i] <= 'z' || 'A'
            <= name[i] <= 'Z' || '0' <= name[i] <= '9' || name[i] == '_' || name[i] == '-'));
}

proof fn lemma_modules_agree(a: Seq<Seq<char>>, b: Seq<Seq<char>>, n: int)
    requires
        0 <= n <= a.len(),
        n <= b.len(),
        forall|i: int| 0 <= i < n ==> a[i] == b[i],
    ensures
        modules_of(a, n) == modules_of(b, n),
    decreases n,
{
    if n > 0 {
        lemma_modules_agree(a, b, n - 1);
    }
}

/// A name behind one comma more is a module more, behind the others, unless it
/// is empty or was named before; white space around it does not count.
pub proof fn law_each_comma_names_a_module(value: Seq<char>, more: Seq<char>)
    requires
        forall|i: int| 0 <= i < more.len() ==> #[trigger] more[i] != ',',
    ensures
        ({
            let was = named_modules(value);
            let now = named_modules(value + seq![','] + more);
            let m = text::trimmed(more);
            &&& m.len() == 0 || was.contains(m) ==> now == was
            &&& m.len() > 0 && !was.contains(m) ==> now == was.push(m)
        }),
{
    let a = text::pieces(value, ',');
    let b = text::pieces(value + seq![','] + more, ',');
    text::law_last_piece(value, ',', more);
    assert(b == a.push(more));
    lemma_modules_agree(a, b, a.len() as int);
    text::law_list_gets_each_once(named_modules(value), text::trimmed(more));
}

/// A setting without a comma names one module, or none.
pub proof fn law_one_name_is_one_module(value: Seq<char>)
    requires
        forall|i: int| 0 <= i < value.len() ==> #[trigger] value[i] != ',',
    ensures
        text::trimmed(value).len() == 0 ==> named_modules(value).len() == 0,
        text::trimmed(value).len() > 0 ==> named_modules(value) == seq![text::trimmed(value)],
{
    text::law_first_piece(value, ',', Seq::empty());
    reveal_with_fuel(modules_of, 2);
    text::law_list_gets_each_once(Seq::empty(), text::trimmed(value));
    assert(Seq::<Seq<char>>::empty().push(text::trimmed(value)) =~= seq![text::trimmed(value)]);
}

/// Of the modules that are named, one more with a safe name is loaded behind the
/// others, and one without is not.
pub proof fn law_each_safe_module_is_loaded(named: Seq<Seq<char>>, name: Seq<char>)
    ensures
        ({
            let was = loaded_modules(named, named.len() as int);
            let now = loaded_modules(named.push(name), named.len() as int + 1);
            &&& is_safe_module(name) ==> now == was.push(name)
            &&& !is_safe_module(name) ==> now == was
        }),
        loaded_modules(Seq::empty(), 0).len() == 0,
{
    lemma_loaded_agree(named, named.push(name), named.len() as int);
}

proof fn lemma_loaded_agree(a: Seq<Seq<char>>, b: Seq<Seq<char>>, n: int)
    requires
        0 <= n <= a.len(),
        n <= b.len(),
        forall|i: int| 0 <= i < n ==> a[i] == b[i],
    ensures
        loaded_modules(a, n) == loaded_modules(b, n),
    decreases n,
{
    if n > 0 {
        lemma_loaded_agree(a, b, n - 1);
    }
}

/// The words for the ways of standing between phone and head unit, in any
/// letters and with any white space around them.
pub proof fn law_proxy_modes_are_named(configured: Seq<char>)
    ensures
        ({
            let word = text::lower(text::trimmed(configured));
            &&& proxy_mode(configured) == ProxyMode::Probe <==> word == "probe"@
            &&& proxy_mode(configured) == ProxyMode::CarWifiMitm <==> word == "car-wifi-mitm"@
                || word == "wifi-mitm"@
            &&& is_car_wifi_mitm(configured) <==> word == "car-wifi-mitm"@ || word
                == "wifi-mitm"@
        }),
{
    reveal_strlit("probe");
    reveal_strlit("car-wifi-mitm");
    reveal_strlit("wifi-mitm");
    assert("probe"@.len() == 5 && "car-wifi-mitm"@.len() == 13 && "wifi-mitm"@.len() == 9);
}

/// The phone gets a network on a radio of its own where the proxy is switched
/// on, takes the car's network, and is told to have an access point elsewhere.
pub proof fn law_own_radio_needs_three_settings(c: ConfigModel)
    ensures
        external_ap_enabled(c) <==> c.bt_wireless_proxy && (text::lower(
            text::trimmed(c.bt_wireless_proxy_mode),
        ) == "car-wifi-mitm"@ || text::lower(text::trimmed(c.bt_wireless_proxy_mode))
            == "wifi-mitm"@) && mitm_session::phone_wifi_mode(c.bt_wireless_proxy_phone_wifi_mode)
            == PhoneWifiMode::ExternalAp,
{
}

/// The phone's access point is on the interface that is set for it, else on the
/// base interface, else on the general one, else on `wlan0`.
pub proof fn law_first_interface_that_is_set_counts(c: ConfigModel)
    ensures
        ({
            let ap = text::trimmed(c.bt_wireless_proxy_car_wifi_ap_iface);
            let base = text::trimmed(c.bt_wireless_proxy_car_wifi_base_iface);
            let general = text::trimmed(c.iface);
            let got = phone_ap_iface(c);
            &&& ap.len() > 0 ==> got == ap
            &&& ap.len() == 0 && base.len() > 0 ==> got == base
            &&& ap.len() == 0 && base.len() == 0 && general.len() > 0 ==> got == general
            &&& ap.len() == 0 && base.len() == 0 && general.len() == 0 ==> got == "wlan0"@
        }),
{
}

/// The second radio is the one that is set, else the first that was found.
pub proof fn law_set_radio_comes_before_found(configured: Seq<char>, found: Seq<Seq<char>>)
    ensures
        text::trimmed(configured).len() > 0 ==> startup_sta(configured, found) == Some(
            text::trimmed(configured),
        ),
        text::trimmed(configured).len() == 0 && found.len() > 0 ==> startup_sta(configured, found)
            == Some(found[0]),
        text::trimmed(configured).len() == 0 && found.len() == 0 ==> startup_sta(
            configured,
            found,
        ) is None,
{
}

/// An interface that is set is looked for, and set up when it is there; then it
/// is over.
pub proof fn law_set_radio_is_brought_up(
    events: Seq<BringUpEvent<Seq<Seq<char>>>>,
    states: Seq<BringUpModel>,
    actions: Seq<BringUpActionModel>,
    iface: Seq<char>,
)
    requires
        states.len() == 4,
        events.len() == 3,
        actions.len() == 3,
        forall|k: int|
            0 <= k < 3 ==> (states[k + 1], #[trigger] actions[k]) == bring_up_step(
                states[k],
                events[k],
            ),
        states[0].phase == BringUpPhase::Begin || states[0].phase == BringUpPhase::Paused,
        states[0].attempt < 40,
        iface == text::trimmed(states[0].configured),
        iface.len() > 0,
        events[1] == BringUpEvent::<Seq<Seq<char>>>::Answer(true),
        events[2] == BringUpEvent::<Seq<Seq<char>>>::Answer(true),
    ensures
        actions[0] == BringUpActionModel::IfaceExists(iface),
        actions[1] == BringUpActionModel::LinkUp(iface),
        actions[2] == (BringUpActionModel::End { up: true }),
        states[1].attempt == states[0].attempt + 1,
{
    assert(actions[0] == bring_up_step(states[0], events[0]).1);
    assert(actions[1] == bring_up_step(states[1], events[1]).1);
    assert(actions[2] == bring_up_step(states[2], events[2]).1);
}

/// Where none is set, interfaces are looked for, and the first of them is set
/// up; then it is over.
pub proof fn law_found_radio_is_brought_up(
    events: Seq<BringUpEvent<Seq<Seq<char>>>>,
    states: Seq<BringUpModel>,
    actions: Seq<BringUpActionModel>,
    found: Seq<Seq<char>>,
)
    requires
        states.len() == 4,
        events.len() == 3,
        actions.len() == 3,
        forall|k: int|
            0 <= k < 3 ==> (states[k + 1], #[trigger] actions[k]) == bring_up_step(
                states[k],
                events[k],
            ),
        states[0].phase == BringUpPhase::Begin || states[0].phase == BringUpPhase::Paused,
        states[0].attempt < 40,
        text::trimmed(states[0].configured).len() == 0,
        found.len() > 0,
        events[1] == BringUpEvent::<Seq<Seq<char>>>::Ifaces(found),
        events[2] == BringUpEvent::<Seq<Seq<char>>>::Answer(true),
    ensures
        actions[0] == BringUpActionModel::FindIfaces,
        actions[1] == BringUpActionModel::LinkUp(found[0]),
        actions[2] == (BringUpActionModel::End { up: true }),
        states[1].attempt == states[0].attempt + 1,
{
    assert(actions[0] == bring_up_step(states[0], events[0]).1);
    assert(actions[1] == bring_up_step(states[1], events[1]).1);
    assert(actions[2] == bring_up_step(states[2], events[2]).1);
}

/// An interface that is not there, or that cannot be set up, is looked for again
/// after a quarter of a second, as long as one of the forty attempts is left.
pub proof fn law_missing_radio_is_looked_for_again(
    events: Seq<BringUpEvent<Seq<Seq<char>>>>,
    states: Seq<BringUpModel>,
    actions: Seq<BringUpActionModel>,
)
    requires
        states.len() == 3,
        events.len() == 2,
        actions.len() == 2,
        forall|k: int|
            0 <= k < 2 ==> (states[k + 1], #[trigger] actions[k]) == bring_up_step(
                states[k],
                events[k],
            ),
        (states[0].phase == BringUpPhase::Checked && events[0] == BringUpEvent::<Seq<Seq<char>>>::Answer(false))
            || (states[0].phase == BringUpPhase::Looked && events[0] == BringUpEvent::<Seq<Seq<char>>>::Ifaces(Seq::empty())
            && text::trimmed(states[0].configured).len() == 0) || (states[0].phase
            == BringUpPhase::SetUp && events[0] == BringUpEvent::<Seq<Seq<char>>>::Answer(false)),
    ensures
        actions[0] == BringUpActionModel::Sleep(250),
        states[0].attempt >= 40 ==> actions[1] == (BringUpActionModel::End { up: false }),
        states[0].attempt < 40 && text::trimmed(states[0].configured).len() == 0 ==> actions[1]
            == BringUpActionModel::FindIfaces,
        states[0].attempt < 40 && text::trimmed(states[0].configured).len() > 0 ==> actions[1]
            == BringUpActionModel::IfaceExists(text::trimmed(states[0].configured)),
{
    assert(actions[0] == bring_up_step(states[0], events[0]).1);
    assert(actions[1] == bring_up_step(states[1], events[1]).1);
}

/// Without the program that sets interfaces up it is over at once.
pub proof fn law_radio_is_given_up_without_its_program(
    events: Seq<BringUpEvent<Seq<Seq<char>>>>,
    states: Seq<BringUpModel>,
    actions: Seq<BringUpActionModel>,
)
    requires
        states.len() == 2,
        events.len() == 1,
        actions.len() == 1,
        forall|k: int|
            0 <= k < 1 ==> (states[k + 1], #[trigger] actions[k]) == bring_up_step(
                states[k],
                events[k],
            ),
        states[0].phase == BringUpPhase::SetUp,
        events[0] == BringUpEvent::<Seq<Seq<char>>>::NotRun,
    ensures
        actions[0] == (BringUpActionModel::End { up: false }),
{
    assert(actions[0] == bring_up_step(states[0], events[0]).1);
}

/// The first address without a scope of the interface is taken, and without one
/// the first of the network that is set.
pub proof fn law_first_address_counts(c: ConfigModel, list: Seq<UpAddress>, i: int)
    ensures
        0 <= i < list.len() && list[i].name@ == c.iface && !list[i].has_scope && (forall|j: int|
            0 <= j < i ==> (#[trigger] list[j]).name@ != c.iface || list[j].has_scope)
            ==> own_address(c, list) == list[i].address@,
        (forall|j: int|
            0 <= j < list.len() ==> (#[trigger] list[j]).name@ != c.iface || list[j].has_scope)
            ==> own_address(c, list) == c.wlan_subnet + ".1"@,
{
    if 0 <= i < list.len() && list[i].name@ == c.iface && !list[i].has_scope && (forall|j: int|
        0 <= j < i ==> (#[trigger] list[j]).name@ != c.iface || list[j].has_scope) {
        lemma_address_at(list, c.iface, 0, i);
    }
    if forall|j: int|
        0 <= j < list.len() ==> (#[trigger] list[j]).name@ != c.iface || list[j].has_scope {
        lemma_no_address(list, c.iface, 0);
    }
}

proof fn lemma_address_at(list: Seq<UpAddress>, iface: Seq<char>, n: int, i: int)
    requires
        0 <= n <= i < list.len(),
        list[i].name@ == iface && !list[i].has_scope,
        forall|j: int| n <= j < i ==> (#[trigger] list[j]).name@ != iface || list[j].has_scope,
    ensures
        address_of(list, iface, n) == Some(list[i].address@),
    decreases i - n,
{
    if n < i {
        assert(list[n].name@ != iface || list[n].has_scope);
        lemma_address_at(list, iface, n + 1, i);
    }
}

proof fn lemma_no_address(list: Seq<UpAddress>, iface: Seq<char>, n: int)
    requires
        0 <= n,
        forall|j: int|
            n <= j < list.len() ==> (#[trigger] list[j]).name@ != iface || list[j].has_scope,
    ensures
        address_of(list, iface, n) is None,
    decreases list.len() - n,
{
    if n < list.len() {
        assert(list[n].name@ != iface || list[n].has_scope);
        lemma_no_address(list, iface, n + 1);
    }
}

/// A second has a thousand milliseconds, as far as they can be counted; a span
/// is a second at least. The proxy listens on port 5288.
pub proof fn law_seconds_have_a_thousand_parts(secs: u64)
    ensures
        secs * 1000 <= 0xffff_ffff_ffff_ffff ==> ms_of_secs(secs) == secs * 1000,
        secs * 1000 > 0xffff_ffff_ffff_ffff ==> ms_of_secs(secs) == 0xffff_ffff_ffff_ffff,
        secs >= 1 ==> span_of(secs) == ms_of_secs(secs),
        secs == 0 ==> span_of(secs) == 1000,
        TCP_SERVER_PORT == 5288,
{
}

/// A session is run with the settings as they are.
pub proof fn law_session_follows_the_settings(c: ConfigModel)
    ensures
        ({
            let o = session_options(c);
            &&& o.hu_mac == c.bt_wireless_proxy_hu_mac
            &&& o.hu_channel == c.bt_wireless_proxy_hu_channel
            &&& o.rendezvous_mode == c.bt_wireless_proxy_rendezvous_mode
            &&& o.join_cmd == c.bt_wireless_proxy_car_wifi_join_cmd
            &&& o.auto_join == c.bt_wireless_proxy_car_wifi_auto_join
            &&& o.join_control == c.bt_wireless_proxy_wifi_join_control
            &&& o.keep_ap == c.bt_wireless_proxy_car_wifi_keep_ap
            &&& o.sta_iface == c.bt_wireless_proxy_car_wifi_sta_iface
            &&& o.sta_phy == c.bt_wireless_proxy_car_wifi_sta_phy
            &&& o.ap_iface == c.bt_wireless_proxy_car_wifi_ap_iface
            &&& o.phone_wifi_mode == c.bt_wireless_proxy_phone_wifi_mode
            &&& o.phone_ap_ssid == c.ssid
            &&& o.phone_ap_key == c.wpa_passphrase
            &&& o.phone_ap_channel == c.channel
            &&& o.rewrite_ip == c.bt_wireless_proxy_rewrite_ip
            &&& o.listen_port == c.bt_wireless_proxy_listen_port
            &&& o.use_version_projection_fallback == c.bt_wireless_proxy_use_version_projection_fallback
            &&& o.protocol_version_override_enabled == c.protocol_version_override_enabled
            &&& o.protocol_version_override_major == c.protocol_version_override_major
            &&& o.protocol_version_override_minor == c.protocol_version_override_minor
            &&& o.wpp_keepalive == c.bt_wireless_proxy_wpp_keepalive
            &&& o.phone_ap_ip == c.wlan_subnet + ".1"@
            &&& o.stopped <==> c.action_requested == Some(Action::Stop)
            &&& text::trimmed(c.bt_wireless_proxy_car_wifi_base_iface).len() == 0 ==> o.iface
                == c.iface
            &&& text::trimmed(c.bt_wireless_proxy_car_wifi_base_iface).len() > 0 ==> o.iface
                == c.bt_wireless_proxy_car_wifi_base_iface
        }),
{
}

/// The times of a session are those of the settings, in milliseconds: a quarter
/// of a second at least for the keepalive, as it is for the Bluetooth timeout,
/// and a second at least for all else.
pub proof fn law_session_takes_its_time(c: ConfigModel)
    ensures
        ({
            let o = session_options(c);
            let ms = |secs: u64|
                if secs == 0 {
                    1000int
                } else {
                    secs * 1000
                };
            let top = 0xffff_ffff_ffff_ffffint;
            &&& c.bt_wireless_proxy_wpp_keepalive_interval_ms >= 250 ==> o.wpp_keepalive_interval_ms
                == c.bt_wireless_proxy_wpp_keepalive_interval_ms
            &&& c.bt_wireless_proxy_wpp_keepalive_interval_ms < 250 ==> o.wpp_keepalive_interval_ms
                == 250
            &&& ms(c.bt_wireless_proxy_wpactrl_socket_timeout_secs) <= top
                ==> o.wpactrl_socket_timeout_ms == ms(
                c.bt_wireless_proxy_wpactrl_socket_timeout_secs,
            )
            &&& ms(c.bt_wireless_proxy_wifi_association_timeout_secs) <= top
                ==> o.wifi_association_timeout_ms == ms(
                c.bt_wireless_proxy_wifi_association_timeout_secs,
            )
            &&& ms(c.bt_wireless_proxy_dhcp_timeout_secs) <= top ==> o.dhcp_timeout_ms == ms(
                c.bt_wireless_proxy_dhcp_timeout_secs,
            )
            &&& ms(c.bt_wireless_proxy_hu_first_wait_phone_secs) <= top
                ==> o.hu_first_wait_phone_timeout_ms == ms(
                c.bt_wireless_proxy_hu_first_wait_phone_secs,
            )
            &&& o.bt_timeout_ms == c.bt_timeout_secs * 1000
        }),
{
}

} // verus!
