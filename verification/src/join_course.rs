//! Whole joins of the car's network: what is done, in which order, and with what.

use crate::mitm_session;
use crate::task::Outcome;
use crate::task::OutcomeModel;
use crate::task::Step;
use crate::task::StepModel;
use crate::task::Task;
use crate::text;
use crate::wifi_join;
use crate::wifi_join::AutoWay;
use crate::wifi_join::CarJoinModel;
use crate::wifi_join::CliModel;
use crate::wifi_join::CliPhase;
use crate::wifi_join::CtrlModel;
use crate::wifi_join::CtrlPhase;
use crate::wifi_join::JoinControl;
use crate::wifi_join::JoinPhase;
use crate::wifi_join::SupplicantJoin;
use crate::wifi_join::SupplicantPhase;
use crate::wifi_text;
use vstd::prelude::*;

verus! {

pub type SupplicantModel = SupplicantJoin<Seq<char>>;

pub open spec fn yes() -> OutcomeModel {
    Outcome::Answer(true)
}

pub open spec fn failed(error: Seq<char>) -> OutcomeModel {
    Outcome::Failed(error)
}

// ---------------------------------------------------------------------
// By the supplicant alone

/// Whether these are a stretch of a join by the supplicant: what came of each task, the
/// states between them, and the steps that follow.
pub open spec fn is_supplicant_stretch(
    outcomes: Seq<OutcomeModel>,
    states: Seq<SupplicantModel>,
    steps: Seq<StepModel>,
) -> bool {
    &&& states.len() == outcomes.len() + 1 && steps.len() == outcomes.len()
    &&& forall|k: int|
        0 <= k < outcomes.len() ==> (states[k + 1], #[trigger] steps[k])
            == wifi_join::supplicant_step(states[k], outcomes[k])
}

/// A join in which all goes well: an old supplicant is stopped, the network is written
/// down with its access point, the supplicant is started on what was written, and an
/// address is asked for once the interface is in the network.
pub proof fn law_supplicant_joins_what_was_written(
    outcomes: Seq<OutcomeModel>,
    states: Seq<SupplicantModel>,
    steps: Seq<StepModel>,
)
    requires
        is_supplicant_stretch(outcomes, states, steps),
        outcomes.len() == 9,
        states[0].phase == SupplicantPhase::Begin,
        states[0].iface.len() > 0,
        outcomes[1] == yes(),
        !(outcomes[3] is Failed) && !(outcomes[4] is Failed),
        outcomes[5] == yes(),
        outcomes[6] == Outcome::<Seq<char>, Seq<Seq<char>>>::Found(
            Some(text::trimmed(states[0].info.ssid)),
        ),
        outcomes[7] == yes(),
        outcomes[8] == yes(),
    ensures
        ({
            let iface = states[0].iface;
            let path = "/tmp/aa-proxy-car-wifi-"@ + text::replaced(iface, "/"@, "_"@) + ".conf"@;
            &&& steps[0] == StepModel::Do(Task::CommandAvailable { binary: "wpa_supplicant"@ })
            &&& steps[1] matches Step::Do(Task::Shell { command, .. }) && command
                == "pidof wpa_supplicant >/dev/null 2>&1 && killall wpa_supplicant 2>/dev/null || true"@
            &&& steps[2] == StepModel::Do(
                Task::WriteFile {
                    path,
                    contents: wifi_text::supplicant_config(states[0].info, true),
                },
            )
            &&& steps[3] == StepModel::Do(
                Task::StartSupplicant { iface, conf_path: path, ctrl: false },
            )
            &&& steps[4] == StepModel::Do(Task::IfaceExists { iface })
            &&& steps[5] == StepModel::Do(Task::CurrentSsid { iface })
            &&& steps[6] == StepModel::Do(Task::IfaceExists { iface })
            &&& steps[7] matches Step::Do(Task::Udhcpc { iface: i, .. }) && i == iface
            &&& steps[8] == StepModel::Succeed(iface)
        }),
{
    assert(steps[0] == wifi_join::supplicant_step(states[0], outcomes[0]).1);
    assert(steps[1] == wifi_join::supplicant_step(states[1], outcomes[1]).1);
    assert(steps[2] == wifi_join::supplicant_step(states[2], outcomes[2]).1);
    assert(steps[3] == wifi_join::supplicant_step(states[3], outcomes[3]).1);
    assert(steps[4] == wifi_join::supplicant_step(states[4], outcomes[4]).1);
    assert(steps[5] == wifi_join::supplicant_step(states[5], outcomes[5]).1);
    assert(steps[6] == wifi_join::supplicant_step(states[6], outcomes[6]).1);
    assert(steps[7] == wifi_join::supplicant_step(states[7], outcomes[7]).1);
    assert(steps[8] == wifi_join::supplicant_step(states[8], outcomes[8]).1);
}

/// A supplicant that does not start with the access point that was asked for is started
/// without it, from another file; where none was asked for, or that fails too, the join
/// fails and tells why.
pub proof fn law_supplicant_is_tried_without_the_access_point(
    outcomes: Seq<OutcomeModel>,
    states: Seq<SupplicantModel>,
    steps: Seq<StepModel>,
    first: Seq<char>,
    second: Seq<char>,
)
    requires
        is_supplicant_stretch(outcomes, states, steps),
        outcomes.len() == 4,
        states[0].phase == SupplicantPhase::Started,
        outcomes[0] == failed(first),
        !(outcomes[2] is Failed),
        outcomes[3] == failed(second),
    ensures
        ({
            let iface = states[0].iface;
            let path = "/tmp/aa-proxy-car-wifi-"@ + text::replaced(iface, "/"@, "_"@)
                + "-nobssid.conf"@;
            if text::trimmed(states[0].info.bssid).len() == 0 {
                steps[0] == StepModel::Fail("wpa_supplicant: "@ + first)
            } else {
                &&& steps[0] is Do
                &&& steps[1] == StepModel::Do(
                    Task::WriteFile {
                        path,
                        contents: wifi_text::supplicant_config(states[0].info, false),
                    },
                )
                &&& steps[2] == StepModel::Do(
                    Task::StartSupplicant { iface, conf_path: path, ctrl: false },
                )
                &&& steps[3] matches Step::Fail(error) && text::holds(error, first)
                    && text::holds(error, second)
            }
        }),
{
    assert(steps[0] == wifi_join::supplicant_step(states[0], outcomes[0]).1);
    assert(steps[1] == wifi_join::supplicant_step(states[1], outcomes[1]).1);
    assert(steps[2] == wifi_join::supplicant_step(states[2], outcomes[2]).1);
    assert(steps[3] == wifi_join::supplicant_step(states[3], outcomes[3]).1);
    let head = "wpa_supplicant failed with bssid pinned and without bssid; first="@;
    text::lemma_holds_within(head, first, " second="@ + second);
    assert(head + first + (" second="@ + second) =~= head + first + " second="@ + second);
    text::lemma_holds_within(head + first + " second="@, second, Seq::empty());
    assert(head + first + " second="@ + second + Seq::<char>::empty() =~= head + first
        + " second="@ + second);
}

/// As long as the interface is not in the network it is looked at again, a quarter of a
/// second later and twenty times in all; then an address is asked for all the same.
pub proof fn law_association_is_waited_for(
    outcomes: Seq<OutcomeModel>,
    states: Seq<SupplicantModel>,
    steps: Seq<StepModel>,
    n: u32,
)
    requires
        is_supplicant_stretch(outcomes, states, steps),
        outcomes.len() == 5,
        1 <= n <= 20,
        states[0].phase == SupplicantPhase::Present(n),
        text::trimmed(states[0].info.ssid).len() > 0,
        outcomes[0] == yes(),
        outcomes[1] != Outcome::<Seq<char>, Seq<Seq<char>>>::Found(
            Some(text::trimmed(states[0].info.ssid)),
        ),
        outcomes[2] != yes(),
        outcomes[4] == yes(),
    ensures
        ({
            let iface = states[0].iface;
            &&& steps[0] == StepModel::Do(Task::CurrentSsid { iface })
            &&& steps[1] == StepModel::Do(Task::LinkConnected { iface })
            &&& steps[2] == StepModel::Do(Task::Sleep { ms: 250 })
            &&& steps[3] == StepModel::Do(Task::IfaceExists { iface })
            &&& n < 20 ==> states[4].phase == SupplicantPhase::Present((n + 1) as u32)
            &&& n == 20 ==> (steps[4] matches Step::Do(Task::Udhcpc { iface: i, .. }) && i
                == iface)
        }),
{
    assert(steps[0] == wifi_join::supplicant_step(states[0], outcomes[0]).1);
    assert(steps[1] == wifi_join::supplicant_step(states[1], outcomes[1]).1);
    assert(steps[2] == wifi_join::supplicant_step(states[2], outcomes[2]).1);
    assert(steps[3] == wifi_join::supplicant_step(states[3], outcomes[3]).1);
    assert(steps[4] == wifi_join::supplicant_step(states[4], outcomes[4]).1);
}

/// An interface that is gone ends the join: the supplicant is stopped first. Lost while
/// the network was waited for, it is told in words that a session knows.
pub proof fn law_lost_interface_is_told(
    outcomes: Seq<OutcomeModel>,
    states: Seq<SupplicantModel>,
    steps: Seq<StepModel>,
)
    requires
        is_supplicant_stretch(outcomes, states, steps),
        outcomes.len() == 2,
        states[0].phase is Present || states[0].phase == SupplicantPhase::PresentBeforeDhcp
            || states[0].phase == SupplicantPhase::PresentAfterDhcp,
        outcomes[0] != yes(),
    ensures
        steps[0] matches Step::Do(Task::Shell { command, .. }) && command
            == "pidof wpa_supplicant >/dev/null 2>&1 && killall wpa_supplicant 2>/dev/null || true"@,
        steps[1] matches Step::Fail(error) && text::holds(error, states[0].iface) && (
        states[0].phase is Present ==> mitm_session::lost_before_association(error)),
{
    let iface = states[0].iface;
    let word = " disappeared before association wait attempt "@;
    reveal_strlit(" disappeared before association wait attempt ");
    reveal_strlit("disappeared before association");
    match states[0].phase {
        SupplicantPhase::Present(n) => {
            let head = "wpa_supplicant started but iface "@;
            let count = text::decimal(n as nat);
            text::lemma_holds_within(head, iface, word + count);
            assert(head + iface + (word + count) =~= head + iface + word + count);
            let pat = "disappeared before association"@;
            let tail = " wait attempt "@;
            reveal_strlit(" wait attempt ");
            assert(word =~= seq![' '] + pat + tail);
            text::lemma_holds_within(head + iface + seq![' '], pat, tail + count);
            assert(head + iface + seq![' '] + pat + (tail + count) =~= head + iface + word + count);
        },
        SupplicantPhase::PresentBeforeDhcp => {
            text::lemma_holds_within(
                "wpa_supplicant started but iface "@,
                iface,
                " disappeared before DHCP"@,
            );
        },
        _ => {
            text::lemma_holds_within(
                "iface "@,
                iface,
                " disappeared while/after running DHCP"@,
            );
        },
    }
    assert(steps[0] == wifi_join::supplicant_step(states[0], outcomes[0]).1);
    assert(steps[1] == wifi_join::supplicant_step(states[1], outcomes[1]).1);
}

/// A network without a lease is not joined.
pub proof fn law_no_lease_no_join(m: SupplicantModel, o: OutcomeModel, still: OutcomeModel)
    requires
        m.phase == SupplicantPhase::Leased,
        o != yes(),
        still == yes(),
    ensures
        ({
            let (next, step) = wifi_join::supplicant_step(m, o);
            &&& step == StepModel::Do(Task::IfaceExists { iface: m.iface })
            &&& wifi_join::supplicant_step(next, still).1 is Fail
        }),
{
}

// ---------------------------------------------------------------------
// By the control socket

pub open spec fn is_ctrl_stretch(
    outcomes: Seq<OutcomeModel>,
    states: Seq<CtrlModel>,
    steps: Seq<StepModel>,
) -> bool {
    &&& states.len() == outcomes.len() + 1 && steps.len() == outcomes.len()
    &&& forall|k: int|
        0 <= k < outcomes.len() ==> (states[k + 1], #[trigger] steps[k]) == wifi_join::ctrl_step(
            states[k],
            outcomes[k],
        )
}

pub open spec fn replied(reply: Seq<char>) -> OutcomeModel {
    Outcome::Found(Some(reply))
}

/// Whether a reply is not that something failed.
pub open spec fn is_fine(reply: Seq<char>) -> bool {
    text::lower(text::trimmed(reply)) != "fail"@
}

proof fn lemma_is_fine(reply: Seq<char>)
    ensures
        is_fine(reply) == !wifi_text::is_fail(text::trimmed(reply)),
{
    reveal_strlit("FAIL");
    reveal_strlit("fail");
    assert(text::lower("FAIL"@) =~= "fail"@);
}

/// A supplicant with a control socket is started afresh on the network's configuration,
/// its socket is opened where it was found, and when it answers a ping all its networks
/// are removed and a new one is asked for.
#[verifier::rlimit(40)]
pub proof fn law_control_socket_is_opened(
    outcomes: Seq<OutcomeModel>,
    states: Seq<CtrlModel>,
    steps: Seq<StepModel>,
    socket: Seq<char>,
    pong: Seq<char>,
)
    requires
        is_ctrl_stretch(outcomes, states, steps),
        outcomes.len() == 12,
        states[0].phase == CtrlPhase::Begin,
        states[0].iface.len() > 0,
        outcomes[1] == yes(),
        !(outcomes[2] is Failed) && !(outcomes[6] is Failed) && !(outcomes[8] is Failed),
        outcomes[7] == replied(socket),
        outcomes[9] == replied(pong),
        text::lower(text::trimmed(pong)) == "pong"@,
    ensures
        ({
            let iface = states[0].iface;
            let path = "/tmp/aa-proxy-car-wifi-"@ + text::replaced(iface, "/"@, "_"@)
                + "-wpactrl.conf"@;
            &&& steps[0] == StepModel::Do(Task::CommandAvailable { binary: "wpa_supplicant"@ })
            &&& steps[1] == StepModel::Do(
                Task::WriteFile {
                    path,
                    contents: wifi_text::supplicant_config(states[0].info, false),
                },
            )
            &&& steps[2] == StepModel::Do(Task::MakeCtrlDirs)
            &&& steps[3] matches Step::Do(Task::Shell { command, .. }) && command
                == "pidof wpa_supplicant >/dev/null 2>&1 && killall wpa_supplicant 2>/dev/null || true"@
            &&& steps[4] == StepModel::Do(Task::RemoveCtrlSockets { iface })
            &&& steps[5] == StepModel::Do(
                Task::StartSupplicant { iface, conf_path: path, ctrl: true },
            )
            &&& steps[6] == StepModel::Do(Task::AwaitCtrlSocket { iface })
            &&& steps[7] == StepModel::Do(Task::OpenCtrl { path: socket })
            &&& steps[8] == StepModel::Do(Task::CtrlCommand { command: "PING"@ })
            &&& steps[9] == StepModel::Do(Task::CtrlCommand { command: "DISCONNECT"@ })
            &&& steps[10] == StepModel::Do(Task::CtrlCommand { command: "REMOVE_NETWORK all"@ })
            &&& steps[11] == StepModel::Do(Task::CtrlCommand { command: "ADD_NETWORK"@ })
            &&& states[12].phase == CtrlPhase::Added
            &&& states[12].iface == iface && states[12].info == states[0].info
        }),
{
    reveal_strlit("PONG");
    reveal_strlit("pong");
    reveal_strlit("FAIL");
    assert(text::lower("PONG"@) =~= "pong"@);
    assert(text::lower("FAIL"@).len() == 4);
    assert(text::lower("FAIL"@)[0] == 'f');
    assert("pong"@[0] == 'p');
    assert(steps[0] == wifi_join::ctrl_step(states[0], outcomes[0]).1);
    assert(steps[1] == wifi_join::ctrl_step(states[1], outcomes[1]).1);
    assert(steps[2] == wifi_join::ctrl_step(states[2], outcomes[2]).1);
    assert(steps[3] == wifi_join::ctrl_step(states[3], outcomes[3]).1);
    assert(steps[4] == wifi_join::ctrl_step(states[4], outcomes[4]).1);
    assert(steps[5] == wifi_join::ctrl_step(states[5], outcomes[5]).1);
    assert(steps[6] == wifi_join::ctrl_step(states[6], outcomes[6]).1);
    assert(steps[7] == wifi_join::ctrl_step(states[7], outcomes[7]).1);
    assert(steps[8] == wifi_join::ctrl_step(states[8], outcomes[8]).1);
    assert(steps[9] == wifi_join::ctrl_step(states[9], outcomes[9]).1);
    assert(steps[10] == wifi_join::ctrl_step(states[10], outcomes[10]).1);
    assert(steps[11] == wifi_join::ctrl_step(states[11], outcomes[11]).1);
}

/// The new network gets the commands of its plan, one behind the other; a command that
/// fails ends the join if the plan needs it, and makes no difference if not. Behind the
/// last one an address is asked for, and the network is joined whatever comes of that.
pub proof fn law_plan_is_followed(m: CtrlModel, o: OutcomeModel, reply: Seq<char>, i: int)
    requires
        m.phase == CtrlPhase::Added && i == -1 && o == replied(reply) && is_fine(reply)
            && wifi_join::is_network_id(wifi_join::network_id(reply)) || (m.phase
            == CtrlPhase::Plan(i as usize) && 0 <= i < m.plan.len() <= usize::MAX && (o == replied(
            reply,
        ) && is_fine(reply) || !m.plan[i].required)),
    ensures
        ({
            let plan = if i == -1 {
                wifi_join::ctrl_plan(wifi_join::network_id(reply), m.info)
            } else {
                m.plan
            };
            let (next, step) = wifi_join::ctrl_step(m, o);
            &&& next.plan == plan
            &&& i + 1 < plan.len() ==> step == StepModel::Do(
                Task::CtrlCommand { command: plan[i + 1].command },
            ) && next.phase == CtrlPhase::Plan((i + 1) as usize)
            &&& i + 1 >= plan.len() ==> (step matches Step::Do(Task::Udhcpc { iface, .. })
                && iface == m.iface) && next.phase == CtrlPhase::Leased
        }),
{
    lemma_is_fine(reply);
}

/// What ends a join by the control socket: no supplicant, no socket, no pong, no network
/// id, and a needed command that fails. Where a supplicant runs by then it is stopped and
/// its sockets are removed before the failure is told.
pub proof fn law_failing_control_is_cleaned_up(
    m: CtrlModel,
    o: OutcomeModel,
    o1: OutcomeModel,
    o2: OutcomeModel,
    error: Seq<char>,
    reply: Seq<char>,
)
    requires
        m.phase == CtrlPhase::Socket && o == failed(error) || m.phase == CtrlPhase::Opened && o
            == failed(error) || m.phase == CtrlPhase::Pinged && (o == failed(error) || (o
            == replied(reply) && text::lower(text::trimmed(reply)) != "pong"@)) || m.phase
            == CtrlPhase::Added && (o == failed(error) || (o == replied(reply) && (!is_fine(reply)
            || !wifi_join::is_network_id(wifi_join::network_id(reply))))) || (m.phase matches
            CtrlPhase::Plan(i) && i < m.plan.len() && m.plan[i as int].required && (o == failed(
            error,
        ) || (o == replied(reply) && !is_fine(reply)))),
    ensures
        ({
            let (s1, t1) = wifi_join::ctrl_step(m, o);
            let (s2, t2) = wifi_join::ctrl_step(s1, o1);
            &&& t1 matches Step::Do(Task::Shell { command, .. }) && command
                == "killall wpa_supplicant 2>/dev/null || true"@
            &&& t2 == StepModel::Do(Task::RemoveCtrlSockets { iface: m.iface })
            &&& wifi_join::ctrl_step(s2, o2).1 is Fail
        }),
{
    lemma_is_fine(reply);
    reveal_strlit("PONG");
    reveal_strlit("pong");
    assert(text::lower("PONG"@) =~= "pong"@);
}

/// Once a network is chosen the join succeeds with the interface.
pub proof fn law_chosen_network_is_joined(m: CtrlModel, o: OutcomeModel)
    requires
        m.phase == CtrlPhase::Leased,
    ensures
        wifi_join::ctrl_step(m, o).1 == StepModel::Succeed(m.iface),
{
}

// ---------------------------------------------------------------------
// By `wpa_cli`

/// A new network is asked for, gets the commands of its plan one behind the other, and
/// is joined behind the last; the first needed command that fails ends the join.
pub proof fn law_cli_follows_its_plan(m: CliModel, o: OutcomeModel, reply: Seq<char>, i: int)
    requires
        m.phase == CliPhase::Added && i == -1 && o == replied(reply) || (m.phase == CliPhase::Plan(
            i as usize,
        ) && 0 <= i < m.plan.len() <= usize::MAX),
    ensures
        ({
            let id = wifi_join::network_id(reply);
            let plan = if i == -1 {
                wifi_join::cli_plan(id, m.info)
            } else {
                m.plan
            };
            let (next, step) = wifi_join::cli_step(m, o);
            if i == -1 && !wifi_join::is_network_id(id) {
                step is Fail
            } else if i >= 0 && o is Failed && plan[i].required {
                step == StepModel::Fail(o->Failed_0)
            } else if i + 1 < plan.len() {
                next.plan == plan && next.phase == CliPhase::Plan((i + 1) as usize) && step
                    == StepModel::Do(
                    Task::WpaCli { iface: m.iface, args: plan[i + 1].command },
                )
            } else {
                step == StepModel::Succeed(m.iface)
            }
        }),
{
}

pub proof fn law_cli_asks_for_a_network(m: CliModel, o: OutcomeModel)
    requires
        m.phase == CliPhase::Begin,
        m.iface.len() > 0,
    ensures
        wifi_join::cli_step(m, o).1 == StepModel::Do(
            Task::WpaCli { iface: m.iface, args: seq!["add_network"@] },
        ),
        wifi_join::cli_step(m, o).0.phase == CliPhase::Added,
{
}

// ---------------------------------------------------------------------
// By whatever works

pub open spec fn is_join_stretch(
    outcomes: Seq<OutcomeModel>,
    states: Seq<CarJoinModel>,
    steps: Seq<StepModel>,
) -> bool {
    &&& states.len() == outcomes.len() + 1 && steps.len() == outcomes.len()
    &&& forall|k: int|
        0 <= k < outcomes.len() ==> (states[k + 1], #[trigger] steps[k]) == wifi_join::join_step(
            states[k],
            outcomes[k],
        )
}

/// An interface that is in the car's network already, with an address, is left alone;
/// without an address it gets some time and a request for one.
pub proof fn law_existing_network_is_used(
    outcomes: Seq<OutcomeModel>,
    states: Seq<CarJoinModel>,
    steps: Seq<StepModel>,
)
    requires
        is_join_stretch(outcomes, states, steps),
        outcomes.len() == 5,
        states[0].phase == JoinPhase::Begin,
        states[0].settings.ssid.len() > 0 && states[0].settings.iface.len() > 0,
        outcomes[1] == replied(states[0].settings.ssid),
        outcomes[4] == yes(),
    ensures
        ({
            let s = states[0].settings;
            let iface = s.iface;
            &&& steps[0] == StepModel::Do(Task::CurrentSsid { iface })
            &&& steps[1] == StepModel::Do(Task::AwaitReady { iface, ssid: s.ssid, ms: 2000 })
            &&& outcomes[2] == yes() ==> steps[2] == StepModel::Succeed(iface)
            &&& outcomes[2] != yes() ==> {
                &&& steps[2] matches Step::Do(Task::Udhcpc { iface: i, .. }) && i == iface
                &&& steps[3] == StepModel::Do(
                    Task::AwaitReady { iface, ssid: s.ssid, ms: s.association_ms },
                )
                &&& steps[4] == StepModel::Succeed(iface)
            }
        }),
{
    assert(steps[0] == wifi_join::join_step(states[0], outcomes[0]).1);
    assert(steps[1] == wifi_join::join_step(states[1], outcomes[1]).1);
    assert(steps[2] == wifi_join::join_step(states[2], outcomes[2]).1);
    assert(steps[3] == wifi_join::join_step(states[3], outcomes[3]).1);
    assert(steps[4] == wifi_join::join_step(states[4], outcomes[4]).1);
}

/// An interface that is in another network, or in none, joins: by the configured command
/// where there is one, not at all where that is configured, and else by a built-in way,
/// for which the interface is made ready beside the access point or taken over.
pub proof fn law_join_goes_as_configured(
    outcomes: Seq<OutcomeModel>,
    states: Seq<CarJoinModel>,
    steps: Seq<StepModel>,
)
    requires
        is_join_stretch(outcomes, states, steps),
        outcomes.len() == 4,
        states[0].phase == JoinPhase::Begin,
        states[0].settings.ssid.len() > 0 && states[0].settings.iface.len() > 0,
        outcomes[1] != replied(states[0].settings.ssid),
        !(outcomes[2] is Failed),
    ensures
        ({
            let s = states[0].settings;
            let iface = s.iface;
            let template = text::trimmed(s.template);
            if template.len() > 0 {
                &&& steps[1] matches Step::Do(Task::Shell { command, secs, .. }) && command
                    == wifi_text::join_command(template, iface, s.info) && secs == 30
                &&& steps[2] == StepModel::Do(
                    Task::AwaitReady { iface, ssid: s.ssid, ms: s.association_ms },
                )
                &&& steps[3] == StepModel::Succeed(iface)
            } else if !s.auto_join {
                steps[1] == StepModel::Succeed(iface)
            } else {
                &&& s.keep_ap ==> steps[1] == StepModel::Do(Task::PrepareKeepAp { iface })
                &&& !s.keep_ap ==> steps[1] == StepModel::Do(Task::PrepareTakeover { iface })
                &&& steps[2] == StepModel::Do(
                    match s.control {
                        JoinControl::Wpactrl => Task::JoinWpactrl { iface },
                        JoinControl::WpaSupplicant => Task::IfaceExists { iface },
                        JoinControl::WpaCli => Task::JoinWpaCli { iface },
                        JoinControl::Nmcli => Task::JoinNmcli { iface },
                        JoinControl::Auto => Task::CommandAvailable { binary: "nmcli"@ },
                    },
                )
            }
        }),
{
    assert(steps[0] == wifi_join::join_step(states[0], outcomes[0]).1);
    assert(steps[1] == wifi_join::join_step(states[1], outcomes[1]).1);
    assert(steps[2] == wifi_join::join_step(states[2], outcomes[2]).1);
    assert(steps[3] == wifi_join::join_step(states[3], outcomes[3]).1);
}

/// Without a name there is no network to join; a command that fails, and an interface
/// that cannot be made ready, end the join and are told.
pub proof fn law_join_fails_early(m: CarJoinModel, o: OutcomeModel, error: Seq<char>)
    ensures
        m.phase == JoinPhase::Begin && m.settings.ssid.len() == 0 ==> wifi_join::join_step(m, o).1
            is Fail,
        (m.phase == JoinPhase::Custom || m.phase == JoinPhase::Prepared || m.phase
            == JoinPhase::CtrlPrepared) && o == failed(error) ==> wifi_join::join_step(m, o).1
            == StepModel::Fail(error),
{
}

/// One way alone: the interface joins by it and must be seen in the network.
pub proof fn law_only_way_is_taken(
    outcomes: Seq<OutcomeModel>,
    states: Seq<CarJoinModel>,
    steps: Seq<StepModel>,
)
    requires
        is_join_stretch(outcomes, states, steps),
        outcomes.len() == 2,
        states[0].phase == JoinPhase::OnlyJoined,
    ensures
        ({
            let s = states[0].settings;
            &&& outcomes[0] is Failed ==> steps[0] is Fail
            &&& !(outcomes[0] is Failed) ==> {
                &&& steps[0] == StepModel::Do(
                    Task::AwaitReady { iface: s.iface, ssid: s.ssid, ms: s.association_ms },
                )
                &&& outcomes[1] == yes() ==> steps[1] == StepModel::Succeed(s.iface)
                &&& outcomes[1] != yes() ==> steps[1] is Fail
            }
        }),
{
    assert(steps[0] == wifi_join::join_step(states[0], outcomes[0]).1);
    assert(steps[1] == wifi_join::join_step(states[1], outcomes[1]).1);
}

/// The control socket comes first, and behind it, if the network is not seen, the
/// supplicant alone; the interface is made anew for that where the access point stays.
pub proof fn law_supplicant_stands_in_for_the_socket(
    outcomes: Seq<OutcomeModel>,
    states: Seq<CarJoinModel>,
    steps: Seq<StepModel>,
)
    requires
        is_join_stretch(outcomes, states, steps),
        outcomes.len() == 3,
        states[0].phase == JoinPhase::CtrlReady || (states[0].phase == JoinPhase::CtrlJoined
            && outcomes[0] is Failed && !states[0].settings.keep_ap) || (states[0].phase
            == JoinPhase::CtrlPrepared && !(outcomes[0] is Failed)),
        outcomes[0] != yes() || states[0].phase == JoinPhase::CtrlPrepared,
    ensures
        ({
            let iface = states[0].settings.iface;
            &&& steps[0] == StepModel::Do(Task::IfaceExists { iface })
            &&& outcomes[1] == yes() ==> steps[1] == StepModel::Do(Task::JoinSupplicant { iface })
            &&& outcomes[1] != yes() ==> steps[1] is Fail
            &&& outcomes[1] == yes() && outcomes[2] is Failed ==> steps[2] is Fail
            &&& outcomes[1] == yes() && !(outcomes[2] is Failed) ==> (steps[2] matches Step::Do(
                Task::AwaitReady { iface: i, .. },
            ) && i == iface)
        }),
{
    assert(steps[0] == wifi_join::join_step(states[0], outcomes[0]).1);
    assert(steps[1] == wifi_join::join_step(states[1], outcomes[1]).1);
    assert(steps[2] == wifi_join::join_step(states[2], outcomes[2]).1);
}

pub proof fn law_interface_is_made_anew_for_the_stand_in(
    outcomes: Seq<OutcomeModel>,
    states: Seq<CarJoinModel>,
    steps: Seq<StepModel>,
)
    requires
        is_join_stretch(outcomes, states, steps),
        outcomes.len() == 3,
        states[0].phase == JoinPhase::CtrlJoined,
        states[0].settings.keep_ap,
        outcomes[0] is Failed,
    ensures
        steps[0] is Do && steps[0]->Do_0 is Shell,
        steps[1] == StepModel::Do(Task::Sleep { ms: 1000 }),
        steps[2] == StepModel::Do(Task::PrepareKeepAp { iface: states[0].settings.iface }),
        states[3].phase == JoinPhase::CtrlPrepared,
{
    assert(steps[0] == wifi_join::join_step(states[0], outcomes[0]).1);
    assert(steps[1] == wifi_join::join_step(states[1], outcomes[1]).1);
    assert(steps[2] == wifi_join::join_step(states[2], outcomes[2]).1);
}

/// By the supplicant alone there is one try, and three where the access point stays: for
/// each further one the supplicant is stopped and the interface is made anew. The last
/// error is told.
pub proof fn law_supplicant_is_tried_again(
    outcomes: Seq<OutcomeModel>,
    states: Seq<CarJoinModel>,
    steps: Seq<StepModel>,
    n: u32,
)
    requires
        is_join_stretch(outcomes, states, steps),
        outcomes.len() == 4,
        1 <= n <= 3,
        states[0].phase == JoinPhase::TryPresent(n) && outcomes[0] != yes() || states[0].phase
            == JoinPhase::TryJoined(n) && outcomes[0] is Failed || states[0].phase
            == JoinPhase::TryReady(n) && outcomes[0] != yes(),
        !(outcomes[3] is Failed),
    ensures
        ({
            let s = states[0].settings;
            if s.keep_ap && n < 3 {
                &&& steps[0] is Do && steps[0]->Do_0 is Shell
                &&& steps[1] == StepModel::Do(Task::Sleep { ms: 1000 })
                &&& steps[2] == StepModel::Do(Task::PrepareKeepAp { iface: s.iface })
                &&& steps[3] == StepModel::Do(Task::IfaceExists { iface: s.iface })
                &&& states[4].phase == JoinPhase::TryPresent((n + 1) as u32)
            } else {
                steps[0] is Fail
            }
        }),
{
    assert(steps[0] == wifi_join::join_step(states[0], outcomes[0]).1);
    assert(steps[1] == wifi_join::join_step(states[1], outcomes[1]).1);
    assert(steps[2] == wifi_join::join_step(states[2], outcomes[2]).1);
    assert(steps[3] == wifi_join::join_step(states[3], outcomes[3]).1);
}

pub proof fn law_a_try_that_is_seen_to_work_is_the_last(m: CarJoinModel, o: OutcomeModel, n: u32)
    ensures
        ({
            let s = m.settings;
            let step = wifi_join::join_step(m, o).1;
            &&& m.phase == JoinPhase::TryPresent(n) && o == yes() ==> step == StepModel::Do(
                Task::JoinSupplicant { iface: s.iface },
            )
            &&& m.phase == JoinPhase::TryJoined(n) && !(o is Failed) ==> step == StepModel::Do(
                Task::AwaitReady { iface: s.iface, ssid: s.ssid, ms: s.association_ms },
            )
            &&& m.phase == JoinPhase::CtrlJoined && !(o is Failed) ==> step == StepModel::Do(
                Task::AwaitReady { iface: s.iface, ssid: s.ssid, ms: s.association_ms },
            )
            &&& (m.phase == JoinPhase::TryReady(n) || m.phase == JoinPhase::CtrlReady || m.phase
                == JoinPhase::FallbackReady) && o == yes() ==> step == StepModel::Succeed(s.iface)
            &&& m.phase == JoinPhase::FallbackReady && o != yes() ==> step is Fail
        }),
{
}

/// Left to itself the proxy tries `nmcli`, then `wpa_cli`, then the supplicant alone: a
/// way that is not there, fails, or is not seen to work gives way to the next.
pub proof fn law_ways_are_tried_in_turn(m: CarJoinModel, o: OutcomeModel, way: AutoWay)
    requires
        m.phase == JoinPhase::AutoAvailable(way) || m.phase == JoinPhase::AutoJoined(way) || m.phase
            == JoinPhase::AutoReady(way),
    ensures
        ({
            let s = m.settings;
            let (next, step) = wifi_join::join_step(m, o);
            let works = if m.phase == JoinPhase::AutoJoined(way) {
                !(o is Failed)
            } else {
                o == yes()
            };
            if works && m.phase == JoinPhase::AutoAvailable(way) {
                next.phase == JoinPhase::AutoJoined(way) && step == StepModel::Do(
                    match way {
                        AutoWay::Nmcli => Task::JoinNmcli { iface: s.iface },
                        AutoWay::WpaCli => Task::JoinWpaCli { iface: s.iface },
                        AutoWay::WpaSupplicant => Task::JoinSupplicant { iface: s.iface },
                    },
                )
            } else if works && m.phase == JoinPhase::AutoJoined(way) {
                next.phase == JoinPhase::AutoReady(way) && step == StepModel::Do(
                    Task::AwaitReady { iface: s.iface, ssid: s.ssid, ms: s.association_ms },
                )
            } else if works {
                step == StepModel::Succeed(s.iface)
            } else if way == AutoWay::Nmcli {
                next.phase == JoinPhase::AutoAvailable(AutoWay::WpaCli) && step == StepModel::Do(
                    Task::CommandAvailable { binary: "wpa_cli"@ },
                )
            } else if way == AutoWay::WpaCli {
                next.phase == JoinPhase::AutoAvailable(AutoWay::WpaSupplicant) && step
                    == StepModel::Do(Task::CommandAvailable { binary: "wpa_supplicant"@ })
            } else {
                step is Fail
            }
        }),
{
}

/// The words for the ways to join; any other word leaves it to the proxy.
pub proof fn law_ways_are_named(word: Seq<char>)
    ensures
        ({
            let c = text::lower(text::trimmed(word));
            let control = wifi_join::control_of(word);
            &&& c == "wpactrl"@ ==> control == JoinControl::Wpactrl
            &&& c == "wpa_supplicant"@ ==> control == JoinControl::WpaSupplicant
            &&& c == "wpa_cli"@ ==> control == JoinControl::WpaCli
            &&& c == "nmcli"@ ==> control == JoinControl::Nmcli
            &&& c != "wpactrl"@ && c != "wpa_supplicant"@ && c != "wpa_cli"@ && c != "nmcli"@
                ==> control == JoinControl::Auto
        }),
{
    reveal_strlit("wpactrl");
    reveal_strlit("wpa_supplicant");
    reveal_strlit("wpa_cli");
    reveal_strlit("nmcli");
    assert("wpactrl"@[3] == 'c');
    assert("wpa_cli"@[3] == '_');
    assert("wpactrl"@ != "wpa_cli"@);
    assert("wpactrl"@.len() == 7 && "wpa_supplicant"@.len() == 14 && "nmcli"@.len() == 5);
}

/// The interface that joins: the configured one, or else one of its own where the access
/// point stays, or else the base interface.
pub proof fn law_joining_interface(base: Seq<char>, keep_ap: bool, sta: Seq<char>)
    ensures
        ({
            let iface = wifi_join::requested_iface(base, keep_ap, sta);
            &&& text::trimmed(sta).len() > 0 ==> iface == text::trimmed(sta)
            &&& text::trimmed(sta).len() == 0 && keep_ap ==> iface == "sta0"@
            &&& text::trimmed(sta).len() == 0 && !keep_ap ==> iface == text::trimmed(base)
        }),
{
}

} // verus!
