//! Whole sessions in the car's network: what is asked for, in which order, and what of
//! it comes from where.

use crate::messages;
use crate::mitm_session;
use crate::mitm_session::ActionModel;
use crate::mitm_session::EventModel;
use crate::mitm_session::JoinRequest;
use crate::mitm_session::MitmAction;
use crate::mitm_session::MitmEvent;
use crate::mitm_session::MitmPhase;
use crate::mitm_session::MitmSession;
use crate::mitm_session::OptionsModel;
use crate::mitm_session::PhoneWifiMode;
use crate::mitm_session::SessionModel;
use crate::frame::ProxyMessageId;
use crate::prebootstrap;
use crate::rendezvous;
use crate::rendezvous::CarWifiRendezvousMode;
use crate::text;
use crate::wifi_text::WifiInfo;
use vstd::prelude::*;

verus! {

/// Whether these are a stretch of a session: the events that came, the states between
/// them, and what each of them made the session ask for.
pub open spec fn is_stretch(
    events: Seq<EventModel>,
    states: Seq<SessionModel>,
    actions: Seq<ActionModel>,
) -> bool {
    &&& states.len() == events.len() + 1 && actions.len() == events.len()
    &&& forall|k: int|
        0 <= k < events.len() ==> (states[k + 1], #[trigger] actions[k])
            == mitm_session::mitm_step(states[k], events[k])
}

/// Whether no event of a stretch but the first tells of an error. The first one may be
/// of any sort: what was asked for before does not matter.
pub open spec fn goes_well(events: Seq<EventModel>) -> bool {
    forall|k: int|
        0 < k < events.len() ==> !(#[trigger] events[k] is Failed) && !(events[k] is NoPhone)
}

/// The head unit is connected as configured, the exchange before the bootstrap is run,
/// and what the head unit says of itself and of its network is read and kept as it came.
pub proof fn law_session_hears_the_head_unit(
    o: OptionsModel,
    events: Seq<EventModel>,
    states: Seq<SessionModel>,
    actions: Seq<ActionModel>,
    hu: Seq<char>,
    start: Seq<u8>,
    ip: Seq<char>,
    port: i32,
    told: Seq<u8>,
    info: WifiInfo<Seq<char>>,
)
    requires
        is_stretch(events, states, actions),
        events.len() == 8,
        states[0] == mitm_session::fresh_session(o),
        text::trimmed(o.hu_mac).len() > 0,
        goes_well(events),
        events[2] == MitmEvent::<Seq<char>, Seq<u8>>::Connected(hu),
        events[3] == MitmEvent::<Seq<char>, Seq<u8>>::Bytes(start),
        events[4] == (MitmEvent::<Seq<char>, Seq<u8>>::Endpoint { ip, port }),
        text::trimmed(ip).len() > 0 && port > 0,
        events[6] == (MitmEvent::<Seq<char>, Seq<u8>>::Frame { id: 3, payload: told }),
        events[7] == MitmEvent::<Seq<char>, Seq<u8>>::Info(info),
    ensures
        actions[0] is RegisterHsp,
        actions[1] == (ActionModel::Rendezvous {
            hu_first: rendezvous::rendezvous_mode(o.rendezvous_mode)
                != CarWifiRendezvousMode::PhoneFirst,
        }),
        actions[2] == (ActionModel::Exchange { ms: 10000 }),
        actions[3] == (ActionModel::ParseStart { payload: start }),
        actions[4] == (ActionModel::SendHu { id: 2, payload: Seq::empty() }),
        actions[5] is ReadHu,
        actions[6] == (ActionModel::ParseInfo { payload: told }),
        o.wpp_keepalive ==> states[8].phase == MitmPhase::KeptAlive && actions[7] == (
        ActionModel::StartKeepalive {
            interval_ms: if o.wpp_keepalive_interval_ms < 250 {
                250
            } else {
                o.wpp_keepalive_interval_ms
            },
        }),
        !o.wpp_keepalive ==> actions[7] is Join || actions[7] is StopPhoneAp || actions[7]
            is ResolveExternal,
        states[8].options == o,
        states[8].mode == mitm_session::phone_wifi_mode(o.phone_wifi_mode),
        states[8].hu_endpoint == hu,
        states[8].hu_start_payload == start,
        states[8].hu_ip == ip,
        states[8].hu_port == port,
        states[8].hu_info_payload == told,
        states[8].hu_info == info,
{
    assert(actions[0] == mitm_session::mitm_step(states[0], events[0]).1);
    assert(actions[1] == mitm_session::mitm_step(states[1], events[1]).1);
    assert(actions[2] == mitm_session::mitm_step(states[2], events[2]).1);
    assert(actions[3] == mitm_session::mitm_step(states[3], events[3]).1);
    assert(actions[4] == mitm_session::mitm_step(states[4], events[4]).1);
    assert(actions[5] == mitm_session::mitm_step(states[5], events[5]).1);
    assert(actions[6] == mitm_session::mitm_step(states[6], events[6]).1);
    assert(actions[7] == mitm_session::mitm_step(states[7], events[7]).1);
}

/// Pinging the head unit makes no difference to the rest of the session.
pub proof fn law_keepalive_changes_nothing_else(s: SessionModel, info: WifiInfo<Seq<char>>, e: EventModel)
    requires
        s.phase == MitmPhase::InfoParsed,
        !s.options.wpp_keepalive,
    ensures
        mitm_session::mitm_step(s, MitmEvent::Info(info)) == mitm_session::mitm_step(
            MitmSession { hu_info: info, phase: MitmPhase::KeptAlive, ..s },
            e,
        ),
{
}

/// Whether a session has kept what the head unit said and what is configured.
pub open spec fn keeps_the_head_unit(a: SessionModel, b: SessionModel) -> bool {
    &&& b.options == a.options && b.mode == a.mode
    &&& b.hu_start_payload == a.hu_start_payload
    &&& b.hu_ip == a.hu_ip && b.hu_port == a.hu_port
    &&& b.hu_info_payload == a.hu_info_payload && b.hu_info == a.hu_info
}

/// In the car's network: the proxy joins it, finds its own address there, and the phone
/// is to get the car's network as the head unit described it, and the proxy's address
/// in it.
pub proof fn law_phone_joins_the_car(
    events: Seq<EventModel>,
    states: Seq<SessionModel>,
    actions: Seq<ActionModel>,
    iface: Seq<char>,
    ip: Seq<char>,
)
    requires
        is_stretch(events, states, actions),
        events.len() == 4,
        states[0].phase == MitmPhase::KeptAlive,
        states[0].mode == PhoneWifiMode::CarAp,
        goes_well(events),
        events[1] == MitmEvent::<Seq<char>, Seq<u8>>::Connected(iface),
        events[3] == MitmEvent::<Seq<char>, Seq<u8>>::Text(Some(ip)),
    ensures
        ({
            let o = states[0].options;
            &&& actions[0] matches MitmAction::Join { request } && request.control
                == o.join_control && request.base_iface == o.iface && request.sta_phy == o.sta_phy
            &&& actions[1] == (ActionModel::Sleep { ms: 500 })
            &&& actions[2] == (ActionModel::FindRewriteIp {
                target: states[0].hu_ip,
                iface,
                configured: o.rewrite_ip,
            })
            &&& actions[3] is ArmPhoneTcp
            &&& states[4].phase == MitmPhase::Armed
            &&& keeps_the_head_unit(states[0], states[4])
            &&& states[4].join_iface == iface
            &&& states[4].car_ip == ip
            &&& states[4].phone_ip == ip
            &&& states[4].phone_info_payload == states[0].hu_info_payload
        }),
{
    assert(actions[0] == mitm_session::mitm_step(states[0], events[0]).1);
    assert(actions[1] == mitm_session::mitm_step(states[1], events[1]).1);
    assert(actions[2] == mitm_session::mitm_step(states[2], events[2]).1);
    assert(actions[3] == mitm_session::mitm_step(states[3], events[3]).1);
}

/// The address of the phone's access point.
pub open spec fn access_point_address(o: OptionsModel) -> Seq<char> {
    if text::trimmed(o.phone_ap_ip).len() == 0 {
        "10.0.0.1"@
    } else {
        text::trimmed(o.phone_ap_ip)
    }
}

/// Whether a request is for the car's network by an interface, beside the phone's
/// access point: no other way than the supplicant is taken on the proxy's account.
pub open spec fn joins_beside(
    request: JoinRequest<Seq<char>>,
    o: OptionsModel,
    sta: Seq<char>,
    ap: Seq<char>,
) -> bool {
    let c = text::lower(text::trimmed(o.join_control));
    &&& request.sta_iface == sta && request.base_iface == sta && request.ap_iface == ap
    &&& request.sta_phy == o.sta_phy && !request.keep_ap
    &&& c == ""@ || c == "auto"@ || c == "wpactrl"@ ==> request.control == "wpa_supplicant"@
    &&& c != ""@ && c != "auto"@ && c != "wpactrl"@ ==> request.control == o.join_control
}

/// Whether a description of a network is that of the phone's access point.
pub open spec fn is_access_point(info: WifiInfo<Seq<char>>, o: OptionsModel, mac: Seq<char>) -> bool {
    &&& info.ssid == o.phone_ap_ssid
    &&& info.key == o.phone_ap_key
    &&& info.bssid == text::trimmed(text::lower(mac))
    &&& info.is_open == (text::trimmed(o.phone_ap_key).len() == 0)
    &&& !info.dynamic
}

/// Once the phone's access point has been started, the way to the head unit is mended,
/// the access point is described by its own name, key and hardware address, and the
/// phone is to get that description and the access point's address: read again, what
/// the phone is sent names the access point, not the car's network.
pub proof fn law_phone_joins_the_access_point(
    events: Seq<EventModel>,
    states: Seq<SessionModel>,
    actions: Seq<ActionModel>,
    source: Seq<char>,
    mac: Seq<char>,
    written: Seq<u8>,
)
    requires
        is_stretch(events, states, actions),
        events.len() == 4,
        states[0].phase == MitmPhase::ApSettled,
        goes_well(events),
        events[1] == MitmEvent::<Seq<char>, Seq<u8>>::Text(Some(source)),
        events[2] == MitmEvent::<Seq<char>, Seq<u8>>::Text(Some(mac)),
        events[3] == MitmEvent::<Seq<char>, Seq<u8>>::Bytes(written),
    ensures
        ({
            let s = states[0];
            &&& actions[0] == (ActionModel::RepairRoute {
                target: s.hu_ip,
                iface: s.join_iface,
                ssid: s.hu_info.ssid,
                source: s.car_ip,
            })
            &&& actions[1] == (ActionModel::ReadMac { iface: s.ap_iface })
            &&& actions[2] matches MitmAction::EncodeInfo { info } && is_access_point(
                info,
                s.options,
                mac,
            )
            &&& actions[3] is ArmPhoneTcp
            &&& states[4].phase == MitmPhase::Armed
            &&& keeps_the_head_unit(s, states[4])
            &&& states[4].join_iface == s.join_iface
            &&& states[4].car_ip == source
            &&& states[4].phone_ip == access_point_address(s.options)
            &&& states[4].phone_info_payload == written
            &&& mitm_session::is_message_event(actions[2], events[3]) ==> (messages::info_in(
                states[4].phone_info_payload,
            ) matches Some(read) && is_access_point(read, s.options, mac))
        }),
{
    assert(actions[0] == mitm_session::mitm_step(states[0], events[0]).1);
    assert(actions[1] == mitm_session::mitm_step(states[1], events[1]).1);
    assert(actions[2] == mitm_session::mitm_step(states[2], events[2]).1);
    assert(actions[3] == mitm_session::mitm_step(states[3], events[3]).1);
}

/// With one radio the access point is taken down, the car's network is joined by the
/// interface that carried it, and the access point is started on the other interface,
/// on the channel of the car's network.
pub proof fn law_one_radio_is_shared(
    events: Seq<EventModel>,
    states: Seq<SessionModel>,
    actions: Seq<ActionModel>,
    iface: Seq<char>,
    ip: Seq<char>,
    channel: u32,
)
    requires
        is_stretch(events, states, actions),
        events.len() == 8,
        states[0].phase == MitmPhase::KeptAlive,
        states[0].mode == PhoneWifiMode::ProxyAp,
        goes_well(events),
        events[2] == MitmEvent::<Seq<char>, Seq<u8>>::Connected(iface),
        events[4] == MitmEvent::<Seq<char>, Seq<u8>>::Text(Some(ip)),
        events[5] == MitmEvent::<Seq<char>, Seq<u8>>::Channel(Some(channel)),
    ensures
        ({
            let s = states[0];
            let o = s.options;
            &&& actions[0] matches MitmAction::StopPhoneAp { iface: sta } && {
                let ap = if sta == "ap0"@ {
                    "wlan0"@
                } else {
                    "ap0"@
                };
                &&& actions[1] matches MitmAction::Join { request } && joins_beside(
                    request,
                    o,
                    sta,
                    ap,
                )
                &&& actions[5] == (ActionModel::EnsureAp { iface: ap, beside: iface })
                &&& actions[6] == (ActionModel::StartAp {
                    iface: ap,
                    ip: access_point_address(o),
                    channel,
                })
                &&& states[8].ap_iface == ap
            }
            &&& actions[2] == (ActionModel::Sleep { ms: 500 })
            &&& actions[3] == (ActionModel::FindRewriteIp {
                target: s.hu_ip,
                iface,
                configured: o.rewrite_ip,
            })
            &&& actions[4] == (ActionModel::CurrentChannel { iface })
            &&& actions[7] == (ActionModel::Sleep { ms: 500 })
            &&& states[8].phase == MitmPhase::ApSettled
            &&& keeps_the_head_unit(s, states[8])
            &&& states[8].join_iface == iface
            &&& states[8].car_ip == ip
        }),
{
    assert(actions[0] == mitm_session::mitm_step(states[0], events[0]).1);
    assert(actions[1] == mitm_session::mitm_step(states[1], events[1]).1);
    assert(actions[2] == mitm_session::mitm_step(states[2], events[2]).1);
    assert(actions[3] == mitm_session::mitm_step(states[3], events[3]).1);
    assert(actions[4] == mitm_session::mitm_step(states[4], events[4]).1);
    assert(actions[5] == mitm_session::mitm_step(states[5], events[5]).1);
    assert(actions[6] == mitm_session::mitm_step(states[6], events[6]).1);
    assert(actions[7] == mitm_session::mitm_step(states[7], events[7]).1);
}

/// The interface that carries the access point before one radio is shared: the
/// configured one, or the base interface; of two that look swapped, the managed one.
pub proof fn law_current_access_point(s: SessionModel, e: EventModel)
    requires
        s.phase == MitmPhase::KeptAlive,
        s.mode == PhoneWifiMode::ProxyAp,
    ensures
        mitm_session::mitm_step(s, e).1 matches MitmAction::StopPhoneAp { iface } && ({
            let ap = text::trimmed(s.options.ap_iface);
            let base = text::trimmed(s.options.iface);
            let sta = text::trimmed(s.options.sta_iface);
            &&& ap.len() > 0 && !text::begins(ap, "sta"@) ==> iface == ap
            &&& ap.len() > 0 && text::begins(ap, "sta"@) && text::begins(sta, "wlan"@) ==> iface
                == sta
            &&& ap.len() > 0 && text::begins(ap, "sta"@) && sta.len() > 0 && !text::begins(
                sta,
                "wlan"@,
            ) ==> iface == ap
            &&& ap.len() == 0 && base.len() > 0 && !text::begins(base, "sta"@) ==> iface == base
            &&& ap.len() == 0 && (base.len() == 0 || text::begins(base, "sta"@)) ==> iface
                == "wlan0"@
        }),
{
    reveal_strlit("sta");
    reveal_strlit("wlan");
    reveal_strlit("wlan0");
    let w = "wlan0"@;
    if text::begins(w, "sta"@) {
        assert(w.subrange(0, 3)[0] == "sta"@[0]);
    }
    let sta = text::trimmed(s.options.sta_iface);
    if text::begins(sta, "wlan"@) {
        assert(sta.len() > 0);
    }
}

/// With a radio of its own the access point stays where it is, another interface is
/// found for the car's network, and the access point works on the configured channel;
/// its present one, or the car's, is told in case that does not go.
pub proof fn law_second_radio_joins_the_car(
    events: Seq<EventModel>,
    states: Seq<SessionModel>,
    actions: Seq<ActionModel>,
    sta: Seq<char>,
    iface: Seq<char>,
    ip: Seq<char>,
    channel: u32,
)
    requires
        is_stretch(events, states, actions),
        events.len() == 7,
        states[0].phase == MitmPhase::KeptAlive,
        states[0].mode == PhoneWifiMode::ExternalAp,
        goes_well(events),
        events[1] == MitmEvent::<Seq<char>, Seq<u8>>::Text(Some(sta)),
        events[2] == MitmEvent::<Seq<char>, Seq<u8>>::Connected(iface),
        events[4] == MitmEvent::<Seq<char>, Seq<u8>>::Text(Some(ip)),
        events[5] == MitmEvent::<Seq<char>, Seq<u8>>::Channel(Some(channel)),
    ensures
        ({
            let s = states[0];
            let o = s.options;
            let ap = if text::trimmed(o.ap_iface).len() > 0 {
                text::trimmed(o.ap_iface)
            } else if text::trimmed(o.iface).len() > 0 {
                text::trimmed(o.iface)
            } else {
                "wlan0"@
            };
            &&& actions[0] == (ActionModel::ResolveExternal {
                configured: o.sta_iface,
                phone_ap: ap,
            })
            &&& actions[1] matches MitmAction::Join { request } && joins_beside(
                request,
                o,
                sta,
                ap,
            )
            &&& actions[2] == (ActionModel::Sleep { ms: 500 })
            &&& actions[3] == (ActionModel::FindRewriteIp {
                target: s.hu_ip,
                iface,
                configured: o.rewrite_ip,
            })
            &&& actions[4] == (ActionModel::CurrentChannel { iface: ap })
            &&& actions[5] == (ActionModel::StartExternalAp {
                iface: ap,
                ip: access_point_address(o),
                wanted: o.phone_ap_channel,
                fallback: channel,
            })
            &&& actions[6] == (ActionModel::Sleep { ms: 500 })
            &&& states[7].phase == MitmPhase::ApSettled
            &&& states[7].ap_iface == ap
            &&& keeps_the_head_unit(s, states[7])
            &&& states[7].join_iface == iface
            &&& states[7].car_ip == ip
        }),
{
    assert(actions[0] == mitm_session::mitm_step(states[0], events[0]).1);
    assert(actions[1] == mitm_session::mitm_step(states[1], events[1]).1);
    assert(actions[2] == mitm_session::mitm_step(states[2], events[2]).1);
    assert(actions[3] == mitm_session::mitm_step(states[3], events[3]).1);
    assert(actions[4] == mitm_session::mitm_step(states[4], events[4]).1);
    assert(actions[5] == mitm_session::mitm_step(states[5], events[5]).1);
    assert(actions[6] == mitm_session::mitm_step(states[6], events[6]).1);
}

/// Where the access point's channel is not known, that of the car's network is asked
/// for; where neither is, none is told.
pub proof fn law_unknown_channel_is_asked_for(s: SessionModel, e: EventModel, found: Option<u32>)
    requires
        s.phase == MitmPhase::ApChannel,
        e == MitmEvent::<Seq<char>, Seq<u8>>::Channel(None),
    ensures
        ({
            let (next, action) = mitm_session::mitm_step(s, e);
            &&& action == (ActionModel::CurrentChannel { iface: s.join_iface })
            &&& mitm_session::mitm_step(next, MitmEvent::Channel(found)).1 == (
            ActionModel::StartExternalAp {
                iface: s.ap_iface,
                ip: access_point_address(s.options),
                wanted: s.options.phone_ap_channel,
                fallback: match found {
                    Some(c) => c,
                    None => 0,
                },
            })
        }),
{
}

/// An interface that got lost on a shared radio is replaced by the other one, once; any
/// other failure to join is final.
pub proof fn law_lost_interface_is_replaced(
    s: SessionModel,
    error: Seq<char>,
    e: EventModel,
    again: EventModel,
)
    requires
        s.phase == MitmPhase::Joined,
        again is Failed || again is NoPhone,
    ensures
        ({
            let (next, action) = mitm_session::mitm_step(s, MitmEvent::Failed(error));
            let sta = if s.ap_iface.len() == 0 {
                "wlan0"@
            } else {
                s.ap_iface
            };
            if s.mode == PhoneWifiMode::ProxyAp && text::holds(
                error,
                "disappeared before association"@,
            ) {
                let (joining, join) = mitm_session::mitm_step(next, e);
                &&& action is StopSupplicant
                &&& join == (ActionModel::Join {
                    request: JoinRequest {
                        control: "wpa_supplicant"@,
                        base_iface: sta,
                        sta_iface: sta,
                        sta_phy: Seq::empty(),
                        ap_iface: Seq::empty(),
                        keep_ap: false,
                    },
                })
                &&& joining.ap_iface != sta
                &&& mitm_session::mitm_step(joining, again).1 is Fail
            } else {
                action == (ActionModel::Fail { error })
            }
        }),
{
    reveal_strlit("ap0");
    reveal_strlit("wlan0");
    assert("ap0"@.len() != "wlan0"@.len());
}

/// The phone is led through the bootstrap: it gets the request that names the proxy and,
/// once it has asked, the description of its network, and both again on request; when it
/// has answered and has connected to the proxy, and not before, the head unit gets the
/// phone's own answer, is called at the place that it named, and the two are joined.
#[verifier::rlimit(40)]
pub proof fn law_phone_is_led_through_the_bootstrap(
    events: Seq<EventModel>,
    states: Seq<SessionModel>,
    actions: Seq<ActionModel>,
    seq: u64,
    request: Seq<u8>,
    id: u16,
    answer: Seq<u8>,
)
    requires
        is_stretch(events, states, actions),
        events.len() == 15,
        states[0].phase == MitmPhase::Armed,
        goes_well(events),
        events[0] == MitmEvent::<Seq<char>, Seq<u8>>::Sequence(seq),
        events[1] == MitmEvent::<Seq<char>, Seq<u8>>::Bytes(request),
        events[6] == (MitmEvent::<Seq<char>, Seq<u8>>::Frame { id, payload: answer }),
    ensures
        ({
            let s = states[0];
            &&& actions[0] == (ActionModel::EncodeStart {
                original: s.hu_start_payload,
                ip: s.phone_ip,
                port: if s.options.listen_port == 0 {
                    5288
                } else {
                    s.options.listen_port
                },
            })
            &&& actions[1] is WakeTcp
            &&& actions[2] == (ActionModel::SendPhone { id: 1, payload: request })
            &&& actions[3] == (ActionModel::AwaitPhone {
                expected: ProxyMessageId::WifiInfoRequest,
                cached: None,
                ms: 30000,
            })
            &&& actions[4] == (ActionModel::SendPhone { id: 3, payload: s.phone_info_payload })
            &&& actions[5] == (ActionModel::AwaitPhone {
                expected: ProxyMessageId::WifiStartResponse,
                cached: Some(s.phone_info_payload),
                ms: 45000,
            })
            &&& actions[6] is CollectStatus
            &&& actions[7] == (ActionModel::AwaitBarrier { seq_before: seq, ms: 75000 })
            &&& actions[8] == (ActionModel::SendHu { id, payload: answer })
            &&& actions[9] matches MitmAction::ConnectHu { address, ip, iface, ssid, source } && ip
                == s.hu_ip && iface == s.join_iface && ssid == s.hu_info.ssid && source == s.car_ip
                && (s.hu_port >= 0 ==> address == s.hu_ip + ":"@ + text::decimal(
                s.hu_port as nat,
            ))
            &&& actions[10] == (ActionModel::ConnectLocal { port: 5277, ms: 45000 })
            &&& actions[11] is StopKeepalive
            &&& actions[12] is ForwardStatus
            &&& actions[13] is Bridge
            &&& actions[14] is Done
        }),
{
    assert(actions[0] == mitm_session::mitm_step(states[0], events[0]).1);
    assert(actions[1] == mitm_session::mitm_step(states[1], events[1]).1);
    assert(actions[2] == mitm_session::mitm_step(states[2], events[2]).1);
    assert(actions[3] == mitm_session::mitm_step(states[3], events[3]).1);
    assert(actions[4] == mitm_session::mitm_step(states[4], events[4]).1);
    assert(actions[5] == mitm_session::mitm_step(states[5], events[5]).1);
    assert(actions[6] == mitm_session::mitm_step(states[6], events[6]).1);
    assert(actions[7] == mitm_session::mitm_step(states[7], events[7]).1);
    assert(actions[8] == mitm_session::mitm_step(states[8], events[8]).1);
    assert(actions[9] == mitm_session::mitm_step(states[9], events[9]).1);
    assert(actions[10] == mitm_session::mitm_step(states[10], events[10]).1);
    assert(actions[11] == mitm_session::mitm_step(states[11], events[11]).1);
    assert(actions[12] == mitm_session::mitm_step(states[12], events[12]).1);
    assert(actions[13] == mitm_session::mitm_step(states[13], events[13]).1);
    assert(actions[14] == mitm_session::mitm_step(states[14], events[14]).1);
}

/// What the phone is sent does not change while it is led through the bootstrap, however
/// often it is tried.
pub proof fn law_phone_is_told_the_same(s: SessionModel, e: EventModel)
    requires
        mitm_session::part_of(s.phase) == mitm_session::MitmPart::Phone,
        s.phase != MitmPhase::StartEncoded,
    ensures
        mitm_session::mitm_step(s, e).0.phone_info_payload == s.phone_info_payload,
        mitm_session::mitm_step(s, e).0.phone_start_payload == s.phone_start_payload,
        keeps_the_head_unit(s, mitm_session::mitm_step(s, e).0),
{
}

/// A phone that hangs up during the bootstrap is brought back and sent the request
/// again, twice at most; any other error is final.
pub proof fn law_phone_that_hangs_up_is_brought_back(
    s: SessionModel,
    n: u8,
    error: Seq<char>,
    e1: EventModel,
    e2: EventModel,
)
    requires
        1 <= n <= 3,
        s.phase == MitmPhase::StartSent(n) || s.phase == MitmPhase::InfoRequested(n) || s.phase
            == MitmPhase::InfoSent(n) || s.phase == MitmPhase::StartAnswered(n),
        !(e1 is Failed) && !(e1 is NoPhone),
    ensures
        ({
            let (lost, action) = mitm_session::mitm_step(s, MitmEvent::Failed(error));
            if prebootstrap::is_dropped_connection(error) && n < 3 {
                let (back, wake) = mitm_session::mitm_step(lost, e1);
                &&& action matches MitmAction::ReconnectPhone { attempt, .. } && attempt == n
                &&& wake is WakeTcp
                &&& mitm_session::mitm_step(back, e2).1 == (ActionModel::SendPhone {
                    id: 1,
                    payload: s.phone_start_payload,
                })
            } else {
                action == (ActionModel::Fail { error })
            }
        }),
{
}

/// An error of what the session cannot do without ends it, and is told.
pub proof fn law_errors_end_the_session(s: SessionModel, error: Seq<char>)
    requires
        s.phase == MitmPhase::MetAgain || s.phase == MitmPhase::Exchanged || s.phase
            == MitmPhase::StartParsed || s.phase == MitmPhase::InfoAsked || s.phase
            == MitmPhase::InfoRead || s.phase == MitmPhase::InfoParsed || s.phase
            == MitmPhase::ExternalFound || s.phase == MitmPhase::JoinedAgain || s.phase
            == MitmPhase::IpFound || s.phase == MitmPhase::ExternalApStarted || s.phase
            == MitmPhase::ApMade || s.phase == MitmPhase::ApStarted || s.phase
            == MitmPhase::RouteRepaired || s.phase == MitmPhase::InfoEncoded || s.phase
            == MitmPhase::StartEncoded || s.phase == MitmPhase::Barrier || s.phase
            == MitmPhase::HuAnswered || s.phase == MitmPhase::HuConnected || s.phase
            == MitmPhase::LocalConnected || s.phase == MitmPhase::Bridged || s.phase
            is PhoneBack,
    ensures
        mitm_session::mitm_step(s, MitmEvent::Failed(error)) == (
            MitmSession { phase: MitmPhase::Ended, ..s },
            ActionModel::Fail { error },
        ),
{
}

/// What the session can do without does not end it, whatever comes of it.
pub proof fn law_session_goes_on_without(s: SessionModel, e: EventModel)
    requires
        s.phase == MitmPhase::Hsp || s.phase == MitmPhase::KeptAlive || s.phase
            == MitmPhase::ApStopped || s.phase == MitmPhase::SupplicantStopped || s.phase
            == MitmPhase::Settled || s.phase == MitmPhase::ApChannel || s.phase
            == MitmPhase::JoinChannel || s.phase == MitmPhase::ApSettled || s.phase
            == MitmPhase::MacRead || s.phase == MitmPhase::Armed || s.phase
            == MitmPhase::Collecting || s.phase == MitmPhase::KeepaliveStopped || s.phase
            == MitmPhase::Forwarding || s.phase is Awake,
    ensures
        !(mitm_session::mitm_step(s, e).1 is Fail),
        mitm_session::mitm_step(s, e).0.phase != MitmPhase::Ended,
{
}

/// What the head unit says is checked: a place that cannot be called, another message
/// than its network, silence, and a car whose channel is not known end the session.
pub proof fn law_session_checks_the_head_unit(
    s: SessionModel,
    ip: Seq<char>,
    port: i32,
    id: u16,
    payload: Seq<u8>,
)
    ensures
        s.phase == MitmPhase::StartParsed && (text::trimmed(ip).len() == 0 || port <= 0)
            ==> mitm_session::mitm_step(s, MitmEvent::Endpoint { ip, port }).1 is Fail,
        s.phase == MitmPhase::InfoRead && id != 3 ==> mitm_session::mitm_step(
            s,
            MitmEvent::Frame { id, payload },
        ).1 is Fail,
        s.phase == MitmPhase::Exchanged ==> mitm_session::mitm_step(s, MitmEvent::TimedOut).1
            is Fail,
        s.phase == MitmPhase::CarChannel ==> mitm_session::mitm_step(s, MitmEvent::Channel(None)).1
            is Fail,
        s.phase == MitmPhase::Begin && text::trimmed(s.options.hu_mac).len() == 0
            ==> mitm_session::mitm_step(s, MitmEvent::Done).1 is Fail,
{
}

/// The words for the phone's network: the proxy's own one on the same radio, the proxy's
/// own one on another radio, and for every other word the car's.
pub proof fn law_wifi_modes_are_named(word: Seq<char>)
    ensures
        ({
            let m = text::lower(text::trimmed(word));
            let external = m == "external_ap"@ || m == "external-ap"@ || m == "externalap"@ || m
                == "external_proxy_ap"@ || m == "external-proxy-ap"@;
            let own = m == "proxy_ap"@ || m == "proxy-ap"@ || m == "proxyap"@ || m == "ap_proxy"@;
            &&& mitm_session::phone_wifi_mode(word) == PhoneWifiMode::ExternalAp <==> external
            &&& mitm_session::phone_wifi_mode(word) == PhoneWifiMode::ProxyAp <==> own && !external
            &&& mitm_session::phone_wifi_mode(word) == PhoneWifiMode::CarAp <==> !own && !external
        }),
{
}

/// A message of the head unit is read as it is: the endpoint of a start request
/// and the network of a description are those that the bytes hold, and bytes
/// that cannot be read are told by the reader's own words.
pub proof fn law_messages_are_read_as_they_are(
    payload: Seq<u8>,
    e: MitmEvent<Seq<char>, Seq<u8>>,
)
    ensures
        mitm_session::is_message_event(ActionModel::ParseStart { payload }, e) ==> match e {
            MitmEvent::Endpoint { ip, port } => messages::endpoint_in(payload) == Some((ip, port)),
            MitmEvent::Failed(error) => messages::endpoint_in(payload) is None && error
                == messages::start_error(payload)->0,
            _ => false,
        },
        mitm_session::is_message_event(ActionModel::ParseInfo { payload }, e) ==> match e {
            MitmEvent::Info(info) => messages::info_in(payload) == Some(info),
            MitmEvent::Failed(error) => messages::info_in(payload) is None && error
                == messages::info_error(payload)->0,
            _ => false,
        },
{
}

/// A message is written so that it is read back: the description of a network as
/// that network, a start request with the new endpoint first and the other
/// fields of the old one.
pub proof fn law_messages_are_read_back(
    info: WifiInfo<Seq<char>>,
    original: Seq<u8>,
    ip: Seq<char>,
    port: u16,
    e: MitmEvent<Seq<char>, Seq<u8>>,
)
    ensures
        mitm_session::is_message_event(ActionModel::EncodeInfo { info }, e) ==> match e {
            MitmEvent::Bytes(b) => b == messages::info_bytes(info) && messages::info_in(b) == Some(
                messages::described(info),
            ),
            MitmEvent::Failed(_) => !messages::info_fits(info),
            _ => false,
        },
        mitm_session::is_message_event(ActionModel::EncodeStart { original, ip, port }, e)
            ==> match e {
            MitmEvent::Bytes(b) => {
                &&& messages::endpoint_in(original) is Some
                &&& messages::endpoint_in(b) == Some((ip, port as i32))
                &&& b.take(messages::start_bytes(ip, port as i32).len() as int)
                    == messages::start_bytes(ip, port as i32)
                &&& messages::fields_in_bytes(b) is Some
                &&& forall|n: u32|
                    n != 1 && n != 2 ==> #[trigger] messages::fields_in_bytes(b)->0[n]
                        == messages::fields_in_bytes(original)->0[n]
            },
            MitmEvent::Failed(_) => messages::endpoint_in(original) is None
                || vstd::utf8::encode_utf8(ip).len() > 0xffff_ffff,
            _ => false,
        },
{
    let b = e->Bytes_0;
    if mitm_session::is_message_event(ActionModel::EncodeStart { original, ip, port }, e)
        && e is Bytes {
        let g = messages::fields_in_bytes(b)->0;
        let f = messages::fields_in_bytes(original)->0;
        assert forall|n: u32| n != 1 && n != 2 implies #[trigger] g[n] == f[n] by {
            messages::law_rewritten_endpoint_is_read_back(f, g, ip, port as i32);
        }
    }
}

/// The phone's access point on a radio of its own is on the interface that is
/// set for it, else on the general one, else on `wlan0`.
pub proof fn law_own_radio_has_its_interface(o: OptionsModel)
    ensures
        ({
            let ap = text::trimmed(o.ap_iface);
            let general = text::trimmed(o.iface);
            let got = mitm_session::external_phone_ap(o);
            &&& ap.len() > 0 ==> got == ap
            &&& ap.len() == 0 && general.len() > 0 ==> got == general
            &&& ap.len() == 0 && general.len() == 0 ==> got == "wlan0"@
        }),
{
}

/// A meeting that fails for another reason than a silent phone: where the order
/// is left to the proxy, the phones are hung up on first, and the reason is told
/// behind that; else it is told at once.
pub proof fn law_failed_meeting_is_told(s: SessionModel, error: Seq<char>, e: EventModel)
    requires
        s.phase == MitmPhase::Met,
    ensures
        ({
            let auto = rendezvous::rendezvous_mode(s.options.rendezvous_mode)
                == CarWifiRendezvousMode::Auto;
            let (next, action) = mitm_session::mitm_step(
                s,
                MitmEvent::<Seq<char>, Seq<u8>>::Failed(error),
            );
            &&& auto ==> action is DisconnectPhones && mitm_session::mitm_step(next, e).1 == (
            ActionModel::Fail {
                error: "auto rendezvous HU-first/hybrid failed; resetting Bluetooth/Wi-Fi bootstrap to initial START state instead of passive/phone-first fallback: "@
                    + error,
            })
            &&& !auto ==> action == (ActionModel::Fail { error })
        }),
{
}

} // verus!
