//! Whole courses of setting interfaces up: what is done, in which order, and with what.

use crate::task;
use crate::task::Outcome;
use crate::task::OutcomeModel;
use crate::task::Step;
use crate::task::StepModel;
use crate::task::Task;
use crate::text;
use crate::wifi_iface;
use crate::wifi_iface::ExternalAp;
use crate::wifi_iface::ExternalApPhase;
use crate::wifi_iface::ExternalIface;
use crate::wifi_iface::ExternalPhase;
use crate::wifi_iface::MakeModel;
use crate::wifi_iface::MakePhase;
use crate::wifi_iface::NewIface;
use crate::wifi_iface::SeenIface;
use crate::wifi_iface::Takeover;
use crate::wifi_iface::TakeoverPhase;
use crate::wifi_text;
use vstd::prelude::*;

verus! {

pub open spec fn yes() -> OutcomeModel {
    Outcome::Answer(true)
}

/// A device hangs on the USB bus if its path says so.
pub proof fn law_usb_devices_are_told_by_their_path(a: Seq<char>, b: Seq<char>)
    ensures
        wifi_iface::is_usb_path(a + "/usb"@ + b),
        !text::holds(a, "/usb"@) ==> !wifi_iface::is_usb_path(a),
{
    text::lemma_holds_within(a, "/usb"@, b);
}

/// The candidates for the car's network are the wireless interfaces on the USB bus that
/// the kernel lists, other than the phone's access point, and each once.
pub proof fn law_candidates_are_wireless_and_on_usb(
    seen: Seq<SeenIface>,
    exclude: Seq<char>,
    n: int,
    name: Seq<char>,
)
    requires
        0 <= n <= seen.len(),
    ensures
        wifi_iface::candidates_of(seen, exclude, n).no_duplicates(),
        wifi_iface::candidates_of(seen, exclude, n).contains(name) <==> exists|i: int|
            0 <= i < n && (#[trigger] seen[i]).on_usb && seen[i].listed && text::trimmed(
                seen[i].name@,
            ) == name && name.len() > 0 && name != exclude && text::begins(name, "wl"@),
    decreases n,
{
    if n > 0 {
        law_candidates_are_wireless_and_on_usb(seen, exclude, n - 1, name);
        let before = wifi_iface::candidates_of(seen, exclude, n - 1);
        let after = wifi_iface::candidates_of(seen, exclude, n);
        let s = seen[n - 1];
        let x = text::trimmed(s.name@);
        if s.on_usb && wifi_iface::is_candidate(s.name@, exclude, s.listed) && !before.contains(
            x,
        ) {
            assert(after == before.push(x));
            assert forall|i: int, j: int|
                0 <= i < after.len() && 0 <= j < after.len() && i != j implies after[i]
                != after[j] by {
                if i < before.len() && j < before.len() {
                    assert(before[i] != before[j]);
                } else if i < before.len() {
                    assert(before.contains(before[i]));
                } else {
                    assert(before.contains(before[j]));
                }
            }
            if after.contains(name) && name != x {
                let i = choose|i: int| 0 <= i < after.len() && after[i] == name;
                assert(before[i] == name);
            }
            if before.contains(name) {
                let i = choose|i: int| 0 <= i < before.len() && before[i] == name;
                assert(after[i] == name);
            }
            assert(after[before.len() as int] == x);
        } else {
            assert(after == before);
        }
        if exists|i: int|
            0 <= i < n && (#[trigger] seen[i]).on_usb && seen[i].listed && text::trimmed(
                seen[i].name@,
            ) == name && name.len() > 0 && name != exclude && text::begins(name, "wl"@) {
            let i = choose|i: int|
                0 <= i < n && (#[trigger] seen[i]).on_usb && seen[i].listed && text::trimmed(
                    seen[i].name@,
                ) == name && name.len() > 0 && name != exclude && text::begins(name, "wl"@);
            if i == n - 1 {
                assert(x == name);
                assert(after.contains(name));
            }
        }
        if after.contains(name) && !before.contains(name) {
            assert(name == x);
            assert(seen[n - 1].on_usb);
        }
    }
}

/// The interface for the car's network on a second radio: the configured one, if it
/// turns up, and no other; else the first on the USB bus; else `wlan1`, unless that
/// carries the access point. It is looked for again until the time is over.
pub proof fn law_second_radio_is_found(m: ExternalIface<Seq<char>>, o: OutcomeModel, elapsed_ms: u64)
    ensures
        ({
            let (next, step) = wifi_iface::external_step(m, o, elapsed_ms);
            let found = task::listed(o);
            let again = if elapsed_ms >= 8000 {
                step is Fail
            } else {
                step == StepModel::Do(Task::Sleep { ms: 250 }) && next.phase
                    == ExternalPhase::Paused
            };
            &&& m.phase == ExternalPhase::Begin && m.configured.len() > 0 ==> step
                == StepModel::Do(Task::AwaitIface { iface: m.configured, ms: 8000 }) && next.phase
                == ExternalPhase::Configured
            &&& m.phase == ExternalPhase::Begin && m.configured.len() == 0 || m.phase
                == ExternalPhase::Paused ==> step == StepModel::Do(
                Task::UsbIfaces { exclude: m.phone_ap },
            ) && next.phase == ExternalPhase::Scanned
            &&& m.phase == ExternalPhase::Configured && o == yes() ==> step == StepModel::Succeed(
                m.configured,
            )
            &&& m.phase == ExternalPhase::Configured && o != yes() ==> step is Fail
            &&& m.phase == ExternalPhase::Scanned && found.len() > 0 ==> step
                == StepModel::Succeed(found[0])
            &&& m.phase == ExternalPhase::Scanned && found.len() == 0 && m.phone_ap != "wlan1"@
                ==> step == StepModel::Do(Task::AwaitIface { iface: "wlan1"@, ms: 600 })
                && next.phase == ExternalPhase::Fallback
            &&& m.phase == ExternalPhase::Scanned && found.len() == 0 && m.phone_ap == "wlan1"@
                ==> again
            &&& m.phase == ExternalPhase::Fallback && o == yes() ==> step == StepModel::Succeed(
                "wlan1"@,
            )
            &&& m.phase == ExternalPhase::Fallback && o != yes() ==> again
        }),
{
}

pub open spec fn is_takeover_stretch(
    outcomes: Seq<OutcomeModel>,
    states: Seq<Takeover<Seq<char>>>,
    steps: Seq<StepModel>,
) -> bool {
    &&& states.len() == outcomes.len() + 1 && steps.len() == outcomes.len()
    &&& forall|k: int|
        0 <= k < outcomes.len() ==> (states[k + 1], #[trigger] steps[k]) == wifi_iface::takeover_step(
            states[k],
            outcomes[k],
        )
}

/// An interface is taken over when it is there: the access point and the supplicant are
/// stopped, and it is set down, emptied, made a managed one and set up again, in this
/// order.
pub proof fn law_interface_is_taken_over(
    outcomes: Seq<OutcomeModel>,
    states: Seq<Takeover<Seq<char>>>,
    steps: Seq<StepModel>,
)
    requires
        is_takeover_stretch(outcomes, states, steps),
        outcomes.len() == 5,
        states[0].phase == TakeoverPhase::Begin,
        states[0].iface.len() > 0,
        outcomes[1] == yes(),
    ensures
        ({
            let iface = states[0].iface;
            let i = wifi_text::quoted(iface);
            &&& steps[0] == StepModel::Do(Task::AwaitIface { iface, ms: 3000 })
            &&& steps[1] matches Step::Do(Task::Shell { command, .. }) && command
                == "killall hostapd dnsmasq udhcpd 2>/dev/null || true"@
            &&& steps[2] matches Step::Do(Task::Shell { command, .. }) && command
                == "killall wpa_supplicant 2>/dev/null || true"@
            &&& steps[3] matches Step::Do(Task::Shell { command, .. }) && command
                == "ip link set "@ + i + " down && ip addr flush dev "@ + i + " && iw dev "@ + i
                + " set type managed && ip link set "@ + i + " up"@
            &&& task::error_of(outcomes[4]) is None ==> steps[4] == StepModel::Succeed(iface)
            &&& task::error_of(outcomes[4]) matches Some(e) ==> steps[4] == StepModel::Fail(e)
        }),
{
    assert(steps[0] == wifi_iface::takeover_step(states[0], outcomes[0]).1);
    assert(steps[1] == wifi_iface::takeover_step(states[1], outcomes[1]).1);
    assert(steps[2] == wifi_iface::takeover_step(states[2], outcomes[2]).1);
    assert(steps[3] == wifi_iface::takeover_step(states[3], outcomes[3]).1);
    assert(steps[4] == wifi_iface::takeover_step(states[4], outcomes[4]).1);
}

/// An interface that is not there, or has no name, is not taken over.
pub proof fn law_missing_interface_is_not_taken_over(m: Takeover<Seq<char>>, o: OutcomeModel)
    ensures
        m.phase == TakeoverPhase::Begin && m.iface.len() == 0 ==> wifi_iface::takeover_step(m, o).1
            is Fail,
        m.phase == TakeoverPhase::Present && o != yes() ==> wifi_iface::takeover_step(m, o).1
            is Fail,
{
}

pub open spec fn is_make_stretch(
    outcomes: Seq<OutcomeModel>,
    states: Seq<MakeModel>,
    steps: Seq<StepModel>,
) -> bool {
    &&& states.len() == outcomes.len() + 1 && steps.len() == outcomes.len()
    &&& forall|k: int|
        0 <= k < outcomes.len() ==> (states[k + 1], #[trigger] steps[k]) == wifi_iface::make_step(
            states[k],
            outcomes[k],
        )
}

/// An interface that is there is used as it is, unless it is to be made anew; else the
/// radios that could carry it are asked for, by the interface beside which it is made.
pub proof fn law_interface_is_made_if_needed(
    outcomes: Seq<OutcomeModel>,
    states: Seq<MakeModel>,
    steps: Seq<StepModel>,
)
    requires
        is_make_stretch(outcomes, states, steps),
        outcomes.len() == 3,
        states[0].phase == MakePhase::Begin,
        states[0].iface.len() > 0,
        states[0].beside.len() > 0 || states[0].what == NewIface::CarSta,
    ensures
        ({
            let m = states[0];
            &&& steps[0] == StepModel::Do(Task::IfaceExists { iface: m.iface })
            &&& outcomes[1] == yes() && !m.recreate && m.what == NewIface::PhoneAp ==> steps[1]
                == StepModel::Succeed(m.iface)
            &&& outcomes[1] == yes() && !m.recreate && m.what == NewIface::CarSta ==> (steps[1]
                matches Step::Do(Task::Shell { command, .. }) && command == "ip link set "@
                + wifi_text::quoted(m.iface) + " up"@) && steps[2] == StepModel::Succeed(m.iface)
            &&& outcomes[1] != yes() || m.recreate ==> steps[1] == StepModel::Do(
                Task::PhyCandidates { iface: m.beside, configured: m.phy },
            )
            &&& (outcomes[1] != yes() || m.recreate) && task::listed(outcomes[2]).len() == 0
                ==> steps[2] is Fail
        }),
{
    assert(steps[0] == wifi_iface::make_step(states[0], outcomes[0]).1);
    assert(steps[1] == wifi_iface::make_step(states[1], outcomes[1]).1);
    assert(steps[2] == wifi_iface::make_step(states[2], outcomes[2]).1);
}

/// On a radio an old interface is deleted, and after a while the new one is created in
/// its role; it is made when it is seen.
pub proof fn law_interface_is_created(
    outcomes: Seq<OutcomeModel>,
    states: Seq<MakeModel>,
    steps: Seq<StepModel>,
    phy: usize,
    attempt: u64,
)
    requires
        is_make_stretch(outcomes, states, steps),
        outcomes.len() == 4,
        1 <= attempt <= 3,
        states[0].phase == (MakePhase::Deleted { phy, attempt }),
        phy < states[0].phys.len(),
        !(outcomes[2] is Failed),
        outcomes[3] == yes(),
    ensures
        ({
            let m = states[0];
            let i = wifi_text::quoted(m.iface);
            let p = wifi_text::quoted(m.phys[phy as int]);
            &&& m.what == NewIface::CarSta ==> steps[0] == StepModel::Do(Task::Sleep { ms: 400 })
                && (steps[1] matches Step::Do(Task::Shell { command, .. }) && command == "iw phy "@
                + p + " interface add "@ + i + " type managed && ip link set "@ + i + " up"@)
            &&& m.what == NewIface::PhoneAp ==> steps[0] == StepModel::Do(
                Task::Sleep { ms: (300 * attempt) as u64 },
            ) && (steps[1] matches Step::Do(Task::Shell { command, .. }) && command == "iw phy "@
                + p + " interface add "@ + i + " type __ap && ip link set "@ + i + " up"@)
            &&& steps[2] == StepModel::Do(Task::IfaceExists { iface: m.iface })
            &&& steps[3] == StepModel::Succeed(m.iface)
        }),
{
    assert(steps[0] == wifi_iface::make_step(states[0], outcomes[0]).1);
    assert(steps[1] == wifi_iface::make_step(states[1], outcomes[1]).1);
    assert(steps[2] == wifi_iface::make_step(states[2], outcomes[2]).1);
    assert(steps[3] == wifi_iface::make_step(states[3], outcomes[3]).1);
}

/// An interface that does not turn up is looked for five times; then, and when it cannot
/// be created, the next attempt follows: one on each radio for the car's network, three
/// for the phone's access point. Each begins by deleting what is left.
pub proof fn law_other_radios_are_tried(m: MakeModel, o: OutcomeModel, phy: usize, attempt: u64)
    requires
        1 <= attempt <= 3,
        phy < m.phys.len(),
        m.phase == (MakePhase::Rested { phy, attempt }),
    ensures
        ({
            let (next, step) = wifi_iface::make_step(m, o);
            let tries = if m.what == NewIface::CarSta {
                1u64
            } else {
                3u64
            };
            let gone = "iw dev "@ + wifi_text::quoted(m.iface) + " del 2>/dev/null || true"@;
            if attempt < tries {
                (step matches Step::Do(Task::Shell { command, .. }) && command == gone)
                    && next.phase == (MakePhase::Deleted { phy, attempt: (attempt + 1) as u64 })
            } else if phy + 1 < m.phys.len() && m.phys.len() <= usize::MAX {
                (step matches Step::Do(Task::Shell { command, .. }) && command == gone)
                    && next.phase == (MakePhase::Deleted { phy: (phy + 1) as usize, attempt: 1 })
            } else {
                phy + 1 >= m.phys.len() ==> step is Fail
            }
        }),
{
}

pub proof fn law_new_interface_is_looked_for(
    m: MakeModel,
    o: OutcomeModel,
    phy: usize,
    attempt: u64,
    check: u64,
)
    requires
        1 <= attempt <= 3,
        1 <= check <= 5,
        phy < m.phys.len() <= usize::MAX,
    ensures
        ({
            let (next, step) = wifi_iface::make_step(m, o);
            &&& m.phase == (MakePhase::Appeared { phy, attempt, check }) && o != yes() ==> step
                == StepModel::Do(Task::Sleep { ms: (200 * check) as u64 }) && next.phase == (
            MakePhase::Waited { phy, attempt, check })
            &&& m.phase == (MakePhase::Waited { phy, attempt, check }) && check < 5 ==> step
                == StepModel::Do(Task::IfaceExists { iface: m.iface }) && next.phase == (
            MakePhase::Appeared { phy, attempt, check: (check + 1) as u64 })
            &&& m.phase == (MakePhase::Waited { phy, attempt, check }) && check == 5 && m.what
                == NewIface::CarSta ==> step == StepModel::Do(Task::Sleep { ms: 700 })
                && next.phase == (MakePhase::Rested { phy, attempt })
            &&& m.phase == (MakePhase::Created { phy, attempt }) && o is Failed ==> step is Do
                && next.phase == (MakePhase::Rested { phy, attempt })
            &&& m.phase == MakePhase::Candidates && task::listed(o).len() > 0 ==> next.phase == (
            MakePhase::Deleted { phy: 0, attempt: 1 }) && next.phys == task::listed(o) && (step
                matches Step::Do(Task::Shell { command, .. }) && command == "iw dev "@
                + wifi_text::quoted(m.iface) + " del 2>/dev/null || true"@)
        }),
{
}

/// The phone's access point is taken down: its helpers are stopped, and then its
/// interface is set down.
pub proof fn law_access_point_is_taken_down(iface: Seq<char>)
    ensures
        ({
            let s = wifi_iface::stop_phone_ap_steps(iface);
            &&& s.len() == 3
            &&& s[0] matches Step::Do(Task::Shell { command, .. }) && command
                == "killall hostapd 2>/dev/null || true; killall dnsmasq 2>/dev/null || true"@
            &&& s[1] matches Step::Do(Task::Shell { command, .. }) && command == "ip link set "@
                + wifi_text::quoted(iface) + " down 2>/dev/null || true"@
            &&& s[2] == StepModel::Do(Task::Sleep { ms: 500 })
        }),
{
}

/// The part before the last of a character, where it stands.
proof fn lemma_before_last(a: Seq<char>, c: char, b: Seq<char>)
    requires
        forall|i: int| 0 <= i < b.len() ==> #[trigger] b[i] != c,
    ensures
        wifi_iface::before_last(a + seq![c] + b, c) == Some(a),
    decreases b.len(),
{
    let s = a + seq![c] + b;
    if b.len() == 0 {
        assert(s.drop_last() =~= a);
    } else {
        assert(s.last() == b[b.len() - 1]);
        assert(s.drop_last() =~= a + seq![c] + b.drop_last());
        lemma_before_last(a, c, b.drop_last());
    }
}

/// The addresses that are handed out lie in the access point's own network, from its
/// fiftieth to its hundred and fiftieth.
pub proof fn law_addresses_lie_in_the_network(net: Seq<char>, host: Seq<char>)
    requires
        forall|i: int| 0 <= i < host.len() ==> #[trigger] host[i] != '.',
    ensures
        !text::begins(net + seq!['.'] + host, "10.0.0."@) ==> wifi_iface::dhcp_range(
            net + seq!['.'] + host,
        ) == net + ".50,"@ + net + ".150,255.255.255.0,12h"@,
        text::begins(net + seq!['.'] + host, "10.0.0."@) ==> wifi_iface::dhcp_range(
            net + seq!['.'] + host,
        ) == "10.0.0.50,10.0.0.150,255.255.255.0,12h"@,
{
    lemma_before_last(net, '.', host);
}

/// The phone's access point is configured for its interface, with its name, on its
/// channel and in that channel's mode, with its key or open where it has none; its
/// clients get addresses of its network and are sent to it for the rest.
pub proof fn law_access_point_is_set_up(
    iface: Seq<char>,
    ssid: Seq<char>,
    key: Seq<char>,
    ip: Seq<char>,
    channel: u32,
)
    ensures
        ({
            let p = wifi_iface::phone_ap_plan(iface, ssid, key, ip, channel);
            let i = text::trimmed(iface);
            let name = text::trimmed(ssid);
            let k = text::trimmed(key);
            let address = if text::trimmed(ip).len() == 0 {
                "10.0.0.1"@
            } else {
                text::trimmed(ip)
            };
            let mode = if channel <= 14 {
                "g"@
            } else {
                "a"@
            };
            let q = wifi_text::quoted(i);
            let safe = text::replaced(i, "/"@, "_"@);
            let common = "interface="@ + i + "\ndriver=nl80211\nssid="@ + name + "\nhw_mode="@
                + mode + "\nchannel="@ + text::decimal(channel as nat)
                + "\nieee80211n=1\nwmm_enabled=1\nauth_algs=1\nignore_broadcast_ssid=0\n"@;
            &&& k.len() == 0 ==> p.hostapd_conf == common + "wpa=0\n"@
            &&& k.len() > 0 ==> p.hostapd_conf == common + (
            "wpa=2\nwpa_key_mgmt=WPA-PSK\nwpa_pairwise=CCMP\nrsn_pairwise=CCMP\nwpa_passphrase="@
                + k + "\n"@)
            &&& p.dnsmasq_conf == "interface="@ + i + "\nbind-interfaces\ndhcp-range="@
                + wifi_iface::dhcp_range(address) + "\ndhcp-option=3,"@ + address
                + "\ndhcp-option=6,"@ + address + "\nlog-dhcp\n"@
            &&& p.hostapd_path == "/tmp/aa-proxy-phone-ap-"@ + safe + ".conf"@
            &&& p.dnsmasq_path == "/tmp/aa-proxy-phone-ap-"@ + safe + "-dnsmasq.conf"@
            &&& p.command
                == "killall hostapd 2>/dev/null || true; killall dnsmasq 2>/dev/null || true; ip link set "@
                + q + " down 2>/dev/null || true; ip addr flush dev "@ + q
                + " 2>/dev/null || true; ip addr add "@ + wifi_text::quoted(address) + "/24 dev "@
                + q + "; ip link set "@ + q + " up; hostapd -B "@ + wifi_text::quoted(
                p.hostapd_path,
            ) + "; dnsmasq -C "@ + wifi_text::quoted(p.dnsmasq_path)
        }),
{
}

/// An access point needs an interface and a name, and a key of eight bytes if it has one.
pub proof fn law_access_point_needs_a_name(iface: Seq<char>, ssid: Seq<char>, key: Seq<char>)
    ensures
        wifi_iface::phone_ap_error(iface, ssid, key) is None <==> text::trimmed(iface).len() > 0
            && text::trimmed(ssid).len() > 0 && (text::trimmed(key).len() == 0
            || wifi_iface::byte_len(text::trimmed(key)) >= 8),
        text::trimmed(iface).len() > 0 <==> wifi_iface::mac_in_file(iface) is Some,
        wifi_iface::mac_in_file(iface) matches Some(mac) ==> mac == text::trimmed(iface),
{
}

pub open spec fn is_external_ap_stretch(
    outcomes: Seq<OutcomeModel>,
    states: Seq<ExternalAp<Seq<char>>>,
    steps: Seq<StepModel>,
) -> bool {
    &&& states.len() == outcomes.len() + 1 && steps.len() == outcomes.len()
    &&& forall|k: int|
        0 <= k < outcomes.len() ==> (states[k + 1], #[trigger] steps[k]) == wifi_iface::external_ap_step(
            states[k],
            outcomes[k],
        )
}

/// An access point on its own radio is started on the configured channel, or else on its
/// present one, the fallback or 36; it is up when its interface works as one, and it gets
/// its address if it has another.
pub proof fn law_external_access_point_is_started(
    outcomes: Seq<OutcomeModel>,
    states: Seq<ExternalAp<Seq<char>>>,
    steps: Seq<StepModel>,
    now: Option<u32>,
)
    requires
        is_external_ap_stretch(outcomes, states, steps),
        outcomes.len() == 3,
        states[0].phase == ExternalApPhase::Begin,
        states[0].iface.len() > 0,
        outcomes[1] == yes(),
        outcomes[2] == Outcome::<Seq<char>, Seq<Seq<char>>>::Channel(now),
    ensures
        ({
            let m = states[0];
            let channel = match now {
                Some(c) => c,
                None => if m.fallback_channel > 0 {
                    m.fallback_channel
                } else {
                    36
                },
            };
            &&& steps[0] == StepModel::Do(Task::IfaceExists { iface: m.iface })
            &&& m.configured_channel > 0 ==> steps[1] == StepModel::Do(
                Task::StartPhoneAp { iface: m.iface, channel: m.configured_channel as u64 },
            )
            &&& m.configured_channel == 0 ==> steps[1] == StepModel::Do(
                Task::CurrentChannel { iface: m.iface },
            ) && steps[2] == StepModel::Do(
                Task::StartPhoneAp { iface: m.iface, channel: channel as u64 },
            )
        }),
{
    assert(steps[0] == wifi_iface::external_ap_step(states[0], outcomes[0]).1);
    assert(steps[1] == wifi_iface::external_ap_step(states[1], outcomes[1]).1);
    assert(steps[2] == wifi_iface::external_ap_step(states[2], outcomes[2]).1);
}

pub proof fn law_external_access_point_is_seen_to_work(
    outcomes: Seq<OutcomeModel>,
    states: Seq<ExternalAp<Seq<char>>>,
    steps: Seq<StepModel>,
)
    requires
        is_external_ap_stretch(outcomes, states, steps),
        outcomes.len() == 4,
        states[0].phase == ExternalApPhase::Started,
        !(outcomes[0] is Failed),
        outcomes[1] == yes(),
    ensures
        ({
            let m = states[0];
            let i = wifi_text::quoted(m.iface);
            &&& steps[0] == StepModel::Do(
                Task::AwaitIfaceType { iface: m.iface, role: "AP"@, ms: 5000 },
            )
            &&& steps[1] == StepModel::Do(Task::IfaceIpv4 { iface: m.iface })
            &&& task::found(outcomes[2]) == Some(m.ip) ==> steps[2] == StepModel::Succeed(m.iface)
            &&& task::found(outcomes[2]) != Some(m.ip) ==> {
                &&& steps[2] matches Step::Do(Task::Shell { command, .. }) && command
                    == "ip addr add "@ + wifi_text::quoted(m.ip) + "/24 dev "@ + i
                    + " 2>/dev/null || true; ip link set "@ + i + " up"@
                &&& task::error_of(outcomes[3]) is None ==> steps[3] == StepModel::Succeed(m.iface)
                &&& task::error_of(outcomes[3]) matches Some(e) ==> steps[3] == StepModel::Fail(e)
            }
        }),
{
    assert(steps[0] == wifi_iface::external_ap_step(states[0], outcomes[0]).1);
    assert(steps[1] == wifi_iface::external_ap_step(states[1], outcomes[1]).1);
    assert(steps[2] == wifi_iface::external_ap_step(states[2], outcomes[2]).1);
    assert(steps[3] == wifi_iface::external_ap_step(states[3], outcomes[3]).1);
}

/// An access point whose interface is not there, cannot be started or does not work as
/// one fails.
pub proof fn law_external_access_point_fails(m: ExternalAp<Seq<char>>, o: OutcomeModel, o1: OutcomeModel)
    ensures
        ({
            let (next, step) = wifi_iface::external_ap_step(m, o);
            &&& m.phase == ExternalApPhase::Begin && m.iface.len() == 0 ==> step is Fail
            &&& m.phase == ExternalApPhase::Present && o != yes() ==> step is Fail
            &&& m.phase == ExternalApPhase::Started && o is Failed ==> step == StepModel::Fail(
                o->Failed_0,
            )
            &&& m.phase == ExternalApPhase::InApMode && o != yes() ==> step == StepModel::Do(
                Task::IfaceType { iface: m.iface },
            ) && wifi_iface::external_ap_step(next, o1).1 is Fail
        }),
{
}

} // verus!
