use aa_proxy::address::BtAddress;
use aa_proxy::clock::{max_ms, min_ms, remaining_ms};
use aa_proxy::messages::{encode_info, encode_start, parse_start};
use aa_proxy::frame::{ProxyFrame, ProxyMessageId};
use aa_proxy::mitm_session::{
    connect_status_frame, message_event, parse_phone_wifi_mode, phone_port, phone_reconnect_plan,
    CarWifiMitmProxyOptions, CarWifiMitmSession, MitmAction, MitmEvent, MitmPhase, PhoneWifiMode,
};
use aa_proxy::prebootstrap::{
    build_wifi_start_request_payload, is_retriable_phone_bootstrap_disconnect,
    phone_bootstrap_time_left, read_phone_bootstrap_frame, ExchangeAction, ExchangeEvent,
    ExchangeSettings, PhoneFrameUse, PreBootstrapExchange,
};
use aa_proxy::rendezvous::{
    connect_hu_aa_wireless_proxy_inner, disconnect_triggered_phone_devices, filter_channel, is_dongle_phone, is_phone_request,
    next_index, plan_recovery, recovery_cooldown, try_connect_bluetooth_addresses,
    wait_for_phone_aa_profile_request, wait_for_phone_tcp_accept_barrier, Barrier,
    BluetoothAddressList, BufferAction, CallAction, CarWifiRendezvousMode, HuFrameBuffer, Meeting,
    MeetingOutcome, MeetingStep, MeetingTask, PhoneCallRound,
};
use aa_proxy::wifi_text::CarWifiInfo;

type Session = CarWifiMitmSession;
type Action = MitmAction<String, Vec<u8>>;
type Event = MitmEvent<String, Vec<u8>>;

fn options(mode: &str) -> CarWifiMitmProxyOptions {
    CarWifiMitmProxyOptions {
        hu_mac: "AA:BB:CC:DD:EE:FF".to_string(),
        hu_channel: None,
        rendezvous_mode: "auto".to_string(),
        iface: "wlan0".to_string(),
        join_cmd: String::new(),
        auto_join: true,
        join_control: "auto".to_string(),
        keep_ap: false,
        sta_iface: String::new(),
        sta_phy: String::new(),
        ap_iface: String::new(),
        phone_wifi_mode: mode.to_string(),
        phone_ap_ssid: "aa-proxy".to_string(),
        phone_ap_key: "aa-proxy".to_string(),
        phone_ap_ip: "10.0.0.1".to_string(),
        phone_ap_channel: 6,
        rewrite_ip: String::new(),
        listen_port: 1234,
        use_version_projection_fallback: true,
        protocol_version_override_enabled: false,
        protocol_version_override_major: 5,
        protocol_version_override_minor: 1,
        wpp_keepalive: false,
        wpp_keepalive_interval_ms: 2000,
        wpactrl_socket_timeout_ms: 12000,
        wifi_association_timeout_ms: 30000,
        dhcp_timeout_ms: 30000,
        hu_first_wait_phone_timeout_ms: 30000,
        bt_timeout_ms: 120000,
        stopped: false,
    }
}

fn car_info() -> CarWifiInfo {
    CarWifiInfo {
        ssid: "Car".to_string(),
        key: "secret".to_string(),
        bssid: String::new(),
        is_open: false,
        security_name: "WPA2_PERSONAL".to_string(),
        dynamic: false,
    }
}

fn until_layout(session: &mut Session) -> Action {
    assert!(matches!(session.step(Event::Done), Action::RegisterHsp));
    assert!(matches!(session.step(Event::Done), Action::Rendezvous { hu_first: true }));
    assert!(matches!(
        session.step(Event::Connected("RFCOMM x".to_string())),
        Action::Exchange { ms: 10000 }
    ));
    assert!(matches!(session.step(Event::Bytes(vec![1])), Action::ParseStart { .. }));
    assert!(matches!(
        session.step(Event::Endpoint { ip: "192.168.43.1".to_string(), port: 5000 }),
        Action::SendHu { id: 2, .. }
    ));
    assert!(matches!(session.step(Event::Done), Action::ReadHu));
    assert!(matches!(
        session.step(Event::Frame { id: 3, payload: vec![9] }),
        Action::ParseInfo { .. }
    ));
    session.step(Event::Info(car_info()))
}

fn until_start(session: &mut Session) {
    assert!(matches!(session.step(Event::Connected("wlan0".to_string())), Action::Sleep { ms: 500 }));
    assert!(matches!(session.step(Event::Done), Action::FindRewriteIp { .. }));
    assert!(matches!(
        session.step(Event::Text(Some("192.168.43.9".to_string()))),
        Action::ArmPhoneTcp
    ));
}

#[test]
fn a_session_in_the_car_network_runs_to_its_end() {
    let mut session = Session::new(options("car_ap"));
    match until_layout(&mut session) {
        Action::Join { request } => {
            assert_eq!(request.sta_iface, "wlan0");
            assert_eq!(request.ap_iface, "");
            assert_eq!(request.control, "auto");
        }
        _ => panic!("the network is joined"),
    }
    until_start(&mut session);
    match session.step(Event::Sequence(4)) {
        Action::EncodeStart { original, ip, port } => {
            assert_eq!((original, ip.as_str(), port), (vec![1], "192.168.43.9", 1234))
        }
        _ => panic!("the start request is written"),
    }
    assert!(matches!(session.step(Event::Bytes(vec![2])), Action::WakeTcp));
    assert!(matches!(
        session.step(Event::Done),
        Action::SendPhone { id: 1, payload } if payload == vec![2]
    ));
    assert!(matches!(session.step(Event::Done), Action::AwaitPhone { ms: 30000, .. }));
    assert!(matches!(
        session.step(Event::Frame { id: 2, payload: vec![] }),
        Action::SendPhone { id: 3, payload } if payload == vec![9]
    ));
    assert!(matches!(
        session.step(Event::Done),
        Action::AwaitPhone { ms: 45000, cached: Some(c), .. } if c == vec![9]
    ));
    assert!(matches!(
        session.step(Event::Frame { id: 7, payload: vec![0x18, 0] }),
        Action::CollectStatus
    ));
    assert!(matches!(
        session.step(Event::Done),
        Action::AwaitBarrier { seq_before: 4, ms: 75000 }
    ));
    assert!(matches!(
        session.step(Event::Done),
        Action::SendHu { id: 7, payload } if payload == vec![0x18, 0]
    ));
    assert!(matches!(
        session.step(Event::Done),
        Action::ConnectHu { address, source, .. }
            if address == "192.168.43.1:5000" && source == "192.168.43.9"
    ));
    assert!(matches!(session.step(Event::Done), Action::ConnectLocal { port: 5277, ms: 45000 }));
    assert!(matches!(session.step(Event::Done), Action::StopKeepalive));
    assert!(matches!(session.step(Event::Done), Action::ForwardStatus));
    assert!(matches!(session.step(Event::Done), Action::Bridge));
    assert!(matches!(session.step(Event::Done), Action::Done));
    assert!(session.phase == MitmPhase::Ended);
}

#[test]
fn the_hu_is_not_told_before_the_barrier() {
    let mut session = Session::new(options("car_ap"));
    until_layout(&mut session);
    until_start(&mut session);
    session.step(Event::Sequence(0));
    session.step(Event::Bytes(vec![2]));
    session.step(Event::Done);
    session.step(Event::Done);
    session.step(Event::Frame { id: 2, payload: vec![] });
    session.step(Event::Done);
    session.step(Event::Frame { id: 7, payload: vec![] });
    session.step(Event::Done);
    assert!(matches!(
        session.step(Event::Failed("timed out".to_string())),
        Action::Fail { error } if error == "timed out"
    ));
}

#[test]
fn a_phone_that_hangs_up_is_tried_three_times() {
    let mut session = Session::new(options("car_ap"));
    until_layout(&mut session);
    until_start(&mut session);
    session.step(Event::Sequence(0));
    session.step(Event::Bytes(vec![2]));
    for attempt in 1..3u8 {
        session.step(Event::Done);
        match session.step(Event::Failed("Connection reset by peer (os error 104)".to_string())) {
            Action::ReconnectPhone { attempt: n, error } => {
                assert_eq!(n, attempt);
                assert_eq!(
                    error,
                    "send WifiStartRequest failed: Connection reset by peer (os error 104)"
                );
            }
            _ => panic!("the phone is called again"),
        }
        assert!(matches!(session.step(Event::Done), Action::WakeTcp));
    }
    session.step(Event::Done);
    assert!(matches!(
        session.step(Event::Failed("Connection reset by peer (os error 104)".to_string())),
        Action::Fail { .. }
    ));
}

#[test]
fn another_error_is_final() {
    let mut session = Session::new(options("car_ap"));
    until_layout(&mut session);
    until_start(&mut session);
    session.step(Event::Sequence(0));
    session.step(Event::Bytes(vec![2]));
    session.step(Event::Done);
    assert!(matches!(
        session.step(Event::Failed("bad payload".to_string())),
        Action::Fail { error } if error == "bad payload"
    ));
}

#[test]
fn a_network_of_its_own_swaps_the_interfaces() {
    let mut session = Session::new(options("proxy_ap"));
    assert!(matches!(
        until_layout(&mut session),
        Action::StopPhoneAp { iface } if iface == "wlan0"
    ));
    match session.step(Event::Done) {
        Action::Join { request } => {
            assert_eq!(request.control, "wpa_supplicant");
            assert_eq!(request.base_iface, "wlan0");
            assert_eq!(request.ap_iface, "ap0");
        }
        _ => panic!("the network is joined"),
    }
    assert!(matches!(
        session.step(Event::Failed("iface wlan0 disappeared before association".to_string())),
        Action::StopSupplicant { .. }
    ));
    match session.step(Event::Done) {
        Action::Join { request } => {
            assert_eq!((request.sta_iface.as_str(), request.sta_phy.as_str()), ("ap0", ""))
        }
        _ => panic!("the other interface joins"),
    }
    session.step(Event::Connected("ap0".to_string()));
    session.step(Event::Done);
    assert!(matches!(
        session.step(Event::Text(Some("192.168.43.9".to_string()))),
        Action::CurrentChannel { iface } if iface == "ap0"
    ));
    assert!(matches!(
        session.step(Event::Channel(Some(36))),
        Action::EnsureAp { iface, beside } if iface == "wlan0" && beside == "ap0"
    ));
    assert!(matches!(session.step(Event::Done), Action::StartAp { channel: 36, ip, .. } if ip == "10.0.0.1"));
    session.step(Event::Done);
    assert!(matches!(session.step(Event::Done), Action::RepairRoute { .. }));
    assert!(matches!(
        session.step(Event::Text(Some("192.168.43.10".to_string()))),
        Action::ReadMac { .. }
    ));
    match session.step(Event::Text(Some("02:AB:00:00:00:01".to_string()))) {
        Action::EncodeInfo { info } => {
            assert_eq!(info.bssid, "02:ab:00:00:00:01");
            assert_eq!(info.ssid, "aa-proxy");
        }
        _ => panic!("the network is described"),
    }
    assert!(matches!(session.step(Event::Bytes(vec![5])), Action::ArmPhoneTcp));
    assert!(matches!(
        session.step(Event::Sequence(1)),
        Action::EncodeStart { ip, .. } if ip == "10.0.0.1"
    ));
}

#[test]
fn a_network_without_a_channel_fails() {
    let mut session = Session::new(options("proxy_ap"));
    until_layout(&mut session);
    session.step(Event::Done);
    session.step(Event::Connected("wlan0".to_string()));
    session.step(Event::Done);
    session.step(Event::Text(Some("192.168.43.9".to_string())));
    assert!(matches!(
        session.step(Event::Channel(None)),
        Action::Fail { error } if error == "proxy_ap could not determine car STA channel from iface wlan0"
    ));
}

#[test]
fn a_second_radio_asks_for_its_channel() {
    let mut session = Session::new(options("external_ap"));
    assert!(matches!(
        until_layout(&mut session),
        Action::ResolveExternal { phone_ap, .. } if phone_ap == "wlan0"
    ));
    assert!(matches!(
        session.step(Event::Text(Some("wlan1".to_string()))),
        Action::Join { request } if request.sta_iface == "wlan1"
    ));
    session.step(Event::Connected("wlan1".to_string()));
    session.step(Event::Done);
    session.step(Event::Text(Some("192.168.43.9".to_string())));
    assert!(matches!(
        session.step(Event::Channel(None)),
        Action::CurrentChannel { iface } if iface == "wlan1"
    ));
    assert!(matches!(
        session.step(Event::Channel(None)),
        Action::StartExternalAp { wanted: 6, fallback: 0, .. }
    ));
}

#[test]
fn a_session_names_what_is_wrong() {
    let mut unset = options("car_ap");
    unset.hu_mac = " ".to_string();
    assert!(matches!(
        Session::new(unset).step(Event::Done),
        Action::Fail { error } if error == "bt_wireless_proxy_hu_mac must be set for car-wifi-mitm mode"
    ));

    let mut session = Session::new(options("car_ap"));
    session.step(Event::Done);
    session.step(Event::Done);
    assert!(matches!(
        session.step(Event::Failed("no HU".to_string())),
        Action::DisconnectPhones { reason } if reason == "auto HU-first/hybrid failure"
    ));
    assert!(matches!(
        session.step(Event::Done),
        Action::Fail { error } if error.ends_with("fallback: no HU")
    ));

    let mut strict = options("car_ap");
    strict.rendezvous_mode = "phone_first".to_string();
    let mut session = Session::new(strict);
    session.step(Event::Done);
    assert!(matches!(session.step(Event::Done), Action::Rendezvous { hu_first: false }));
    assert!(matches!(
        session.step(Event::Failed("no phone".to_string())),
        Action::Fail { error } if error == "no phone"
    ));

    let mut session = Session::new(options("car_ap"));
    session.step(Event::Done);
    session.step(Event::Done);
    session.step(Event::Connected("RFCOMM x".to_string()));
    assert!(matches!(
        session.step(Event::TimedOut),
        Action::Fail { error } if error == "timed out waiting 10s for HU bootstrap frame after RFCOMM connect to RFCOMM x; closing connection and restarting car-wifi-mitm"
    ));

    let mut session = Session::new(options("car_ap"));
    session.step(Event::Done);
    session.step(Event::Done);
    session.step(Event::Connected("RFCOMM x".to_string()));
    session.step(Event::Bytes(vec![]));
    assert!(matches!(
        session.step(Event::Endpoint { ip: " ".to_string(), port: -1 }),
        Action::Fail { error } if error == "HU WifiStartRequest had invalid endpoint ip=  port=-1"
    ));

    let mut session = Session::new(options("car_ap"));
    session.step(Event::Done);
    session.step(Event::Done);
    session.step(Event::Connected("RFCOMM x".to_string()));
    session.step(Event::Bytes(vec![]));
    session.step(Event::Endpoint { ip: "1.1.1.1".to_string(), port: 1 });
    session.step(Event::Done);
    assert!(matches!(
        session.step(Event::Frame { id: 9, payload: vec![] }),
        Action::Fail { error } if error == "expected HU WifiInfoResponse as second frame, got 9 (WifiPingResponse)"
    ));
}

#[test]
fn a_keepalive_is_not_too_fast() {
    let mut fast = options("car_ap");
    fast.wpp_keepalive = true;
    fast.wpp_keepalive_interval_ms = 10;
    let mut session = Session::new(fast);
    assert!(matches!(until_layout(&mut session), Action::StartKeepalive { interval_ms: 250 }));
    assert!(matches!(session.step(Event::Done), Action::Join { .. }));
}

#[test]
fn wifi_modes_are_named() {
    assert_eq!(parse_phone_wifi_mode(" External-AP "), PhoneWifiMode::ExternalAp);
    assert_eq!(parse_phone_wifi_mode("ap_proxy"), PhoneWifiMode::ProxyAp);
    assert_eq!(parse_phone_wifi_mode("whatever"), PhoneWifiMode::CarAp);
}

#[test]
fn a_missing_status_is_a_success() {
    assert_eq!(connect_status_frame(None), (6, vec![0x08, 0]));
    assert_eq!(connect_status_frame(Some((6, vec![8, 1]))), (6, vec![8, 1]));
}

fn exchange(fallback: bool, buffered: Vec<ProxyFrame>) -> PreBootstrapExchange {
    PreBootstrapExchange::new(
        ExchangeSettings {
            use_version_projection_fallback: fallback,
            protocol_version_override_enabled: false,
            protocol_version_override_major: 5,
            protocol_version_override_minor: 1,
        },
        buffered,
    )
}

#[test]
fn a_start_request_ends_the_exchange() {
    let mut e = exchange(true, vec![]);
    assert!(matches!(e.start(), ExchangeAction::ReadHu));
    assert!(matches!(
        e.step(ExchangeEvent::HuFrame(ProxyFrame { id: 1, payload: vec![7] })),
        ExchangeAction::Start(p) if p == vec![7]
    ));
}

#[test]
fn buffered_frames_come_first() {
    let mut e = exchange(true, vec![ProxyFrame { id: 1, payload: vec![8] }]);
    assert!(matches!(e.start(), ExchangeAction::Start(p) if p == vec![8]));
}

#[test]
fn a_ping_of_the_hu_is_answered() {
    let mut e = exchange(true, vec![]);
    assert!(matches!(e.start(), ExchangeAction::ReadHu));
    assert!(matches!(
        e.step(ExchangeEvent::HuFrame(ProxyFrame { id: 8, payload: vec![1, 2] })),
        ExchangeAction::SendHu { id: 9, payload } if payload == vec![1, 2]
    ));
    assert!(matches!(e.step(ExchangeEvent::Sent), ExchangeAction::ReadHu));
}

#[test]
fn a_silent_head_unit_is_answered_by_its_own_endpoint() {
    let mut e = exchange(true, vec![]);
    assert!(matches!(e.start(), ExchangeAction::ReadHu));
    let mut projection = encode_start("192.168.43.1", 5288);
    let mut request = vec![0x08, 1, 0x10, 0];
    request.extend_from_slice(&[0x2a, projection.len() as u8]);
    request.append(&mut projection);
    let first = e.step(ExchangeEvent::HuFrame(ProxyFrame { id: 4, payload: request.clone() }));
    assert!(matches!(first, ExchangeAction::SendPhone { id: 4, payload } if payload == request));
    assert!(matches!(e.step(ExchangeEvent::Sent), ExchangeAction::ReadPhone(10000)));
    let answer = ProxyFrame { id: 5, payload: vec![0x08, 1] };
    assert!(matches!(
        e.step(ExchangeEvent::PhoneFrame(answer)),
        ExchangeAction::SendHu { id: 5, .. }
    ));
    if let ExchangeAction::ReadHuWithin(ms) = e.step(ExchangeEvent::Sent) {
        assert_eq!(ms, 3000);
        assert!(matches!(
            e.step(ExchangeEvent::Quiet),
            ExchangeAction::Synthesized(p) if p == encode_start("192.168.43.1", 5288)
        ));
    } else {
        panic!("the head unit gets three seconds");
    }
}

#[test]
fn phone_frames_are_sorted() {
    let expected = ProxyMessageId::WifiStartResponse;
    assert!(read_phone_bootstrap_frame(expected, 7, true) == PhoneFrameUse::Return);
    assert!(read_phone_bootstrap_frame(expected, 8, true) == PhoneFrameUse::ReplyPing);
    assert!(read_phone_bootstrap_frame(expected, 2, true) == PhoneFrameUse::ResendWifiInfo);
    assert!(read_phone_bootstrap_frame(ProxyMessageId::WifiInfoRequest, 2, false) == PhoneFrameUse::Return);
}

#[test]
fn a_phone_has_its_time() {
    assert_eq!(phone_bootstrap_time_left(ProxyMessageId::WifiInfoRequest, 10, 30), Ok(20));
    let error = phone_bootstrap_time_left(ProxyMessageId::WifiInfoRequest, 30000, 30000).unwrap_err();
    assert!(error.contains("30s"));
    assert!(is_retriable_phone_bootstrap_disconnect("Connection reset by peer (os error 104)"));
    assert!(!is_retriable_phone_bootstrap_disconnect("bad payload"));
}

#[test]
fn a_port_must_fit() {
    assert_eq!(
        build_wifi_start_request_payload("10.0.0.1", 5288),
        Ok(encode_start("10.0.0.1", 5288))
    );
    assert_eq!(
        build_wifi_start_request_payload("10.0.0.1", u32::MAX),
        Err("WifiStartRequest port is out of range for generated proto setter: 4294967295".to_string())
    );
}

#[test]
fn times_are_bounded() {
    assert_eq!(max_ms(1, 250), 250);
    assert_eq!(min_ms(1, 250), 1);
    assert_eq!(remaining_ms(3, 10), Some(7));
    assert_eq!(remaining_ms(10, 10), None);
}

#[test]
fn rendezvous_modes_are_named() {
    assert_eq!(CarWifiRendezvousMode::parse("HU_first"), CarWifiRendezvousMode::HuFirst);
    assert_eq!(CarWifiRendezvousMode::parse("phone-first"), CarWifiRendezvousMode::PhoneFirst);
    assert_eq!(CarWifiRendezvousMode::parse(""), CarWifiRendezvousMode::Auto);
    assert_eq!(CarWifiRendezvousMode::HuFirst.as_str(), "hu_first");
}

#[test]
fn each_phone_is_called_once_a_round() {
    assert_eq!(try_connect_bluetooth_addresses(3, 1), vec![1, 2, 0, 1, 2, 0, 1, 2, 0]);
    assert!(try_connect_bluetooth_addresses(0, 5).is_empty());
    assert_eq!(next_index(2, 3), 0);
    assert!(is_dongle_phone("AndroidAuto-1234"));
    assert!(!is_dongle_phone("Pixel"));
}

#[test]
fn frames_are_kept_in_their_order() {
    let mut buffer = HuFrameBuffer::new();
    assert!(matches!(
        buffer.on_hu_frame(ProxyFrame { id: 8, payload: vec![3] }),
        BufferAction::ReplyPing(p) if p == vec![3]
    ));
    for i in 0..32u8 {
        assert!(matches!(
            buffer.on_hu_frame(ProxyFrame { id: 4, payload: vec![i] }),
            BufferAction::KeepWaiting
        ));
    }
    assert_eq!(buffer.frames.len(), 32);
    assert_eq!(buffer.frames[31].payload, vec![31]);
    assert!(matches!(
        buffer.on_hu_frame(ProxyFrame { id: 4, payload: vec![] }),
        BufferAction::Fail(e) if e == "too many HU frames buffered before phone arrived in HU-first rendezvous"
    ));
    assert_eq!(
        buffer.time_left(30000, 30000),
        Err("timed out after 30s waiting for phone AA RFCOMM after HU-first connect; buffered 33 HU frame(s)".to_string())
    );
    assert!(buffer.hu_ended("eof").ends_with("33 frame(s): eof"));
}

#[test]
fn a_phone_that_does_not_come_times_out() {
    assert_eq!(wait_for_phone_aa_profile_request(0, 1500, "x"), Ok(1500));
    assert_eq!(
        wait_for_phone_aa_profile_request(1500, 1500, "x"),
        Err("timed out after 1.5s waiting for PHONE AA Wireless RFCOMM (x)".to_string())
    );
    let hu = BtAddress { b0: 1, b1: 2, b2: 3, b3: 4, b4: 5, b5: 6 };
    assert!(!is_phone_request(hu, Some(hu)));
    assert!(is_phone_request(hu, None));
}

#[test]
fn a_barrier_passes_on_a_new_connection() {
    assert!(matches!(wait_for_phone_tcp_accept_barrier(3, 4, 0, 75000), Barrier::Passed(4)));
    assert!(matches!(wait_for_phone_tcp_accept_barrier(3, 3, 5000, 75000), Barrier::Wait(70000)));
    assert!(matches!(
        wait_for_phone_tcp_accept_barrier(3, 3, 75000, 75000),
        Barrier::Fail(e) if e == "timed out after 75s waiting for PHONE TCP accept barrier (seq_before=3, current=3)"
    ));
}

#[test]
fn a_head_unit_is_named_by_its_address() {
    let hu = BtAddress { b0: 0xaa, b1: 0xbb, b2: 0xcc, b3: 0xdd, b4: 0xee, b5: 0xff };
    assert_eq!(
        connect_hu_aa_wireless_proxy_inner(" AA:BB:CC:DD:EE:FF ", Some(0)),
        Ok((hu, None))
    );
    assert_eq!(connect_hu_aa_wireless_proxy_inner("AA:BB:CC:DD:EE:FF", Some(5)), Ok((hu, Some(5))));
    assert_eq!(
        connect_hu_aa_wireless_proxy_inner(" ", None),
        Err(Some("bt_wireless_proxy_hu_mac must be set".to_string()))
    );
    assert_eq!(connect_hu_aa_wireless_proxy_inner("x", None), Err(None));
    assert_eq!(filter_channel(Some(0)), None);
}

#[test]
fn recovery_depends_on_the_error() {
    assert_eq!(recovery_cooldown("could not find RFCOMM channel in HU"), 25000);
    assert_eq!(recovery_cooldown("Connection reset by peer"), 12000);
    assert_eq!(recovery_cooldown("else"), 7000);
    let recovery = plan_recovery(&BluetoothAddressList(None), &vec![], "nonsense", " ");
    assert_eq!(recovery.reason, "car-wifi-mitm error");
    assert!(recovery.phones.is_empty());
    assert_eq!(recovery.hu, None);
}

#[test]
fn the_head_unit_comes_first() {
    let mut meeting = Meeting::car_wifi_mitm_hu_first_rendezvous();
    let done = MeetingOutcome::Done;
    assert_eq!(meeting.step(done), MeetingStep::Do(MeetingTask::ConnectHu));
    assert_eq!(meeting.step(done), MeetingStep::Do(MeetingTask::TriggerPhones));
    assert_eq!(meeting.step(done), MeetingStep::Do(MeetingTask::AwaitPhoneBesideHu));
    assert_eq!(meeting.step(done), MeetingStep::Met);
}

#[test]
fn a_phone_that_never_comes_is_told_apart() {
    let (done, late) = (MeetingOutcome::Done, MeetingOutcome::TimedOut);
    let mut meeting = Meeting::car_wifi_mitm_hu_first_rendezvous();
    meeting.step(done);
    meeting.step(done);
    meeting.step(done);
    assert_eq!(meeting.step(late), MeetingStep::NoPhone);
    let mut meeting = Meeting::car_wifi_mitm_hu_first_rendezvous();
    meeting.step(done);
    assert_eq!(meeting.step(late), MeetingStep::Fail);
    let mut meeting = Meeting::car_wifi_mitm_phone_first_rendezvous();
    meeting.step(done);
    meeting.step(done);
    assert_eq!(meeting.step(late), MeetingStep::NoPhone);
}

#[test]
fn without_a_phone_the_session_begins_again_with_it() {
    let mut session = Session::new(options("car_ap"));
    session.step(Event::Done);
    assert!(matches!(session.step(Event::Done), Action::Rendezvous { hu_first: true }));
    assert!(matches!(
        session.step(Event::NoPhone("late".to_string())),
        Action::Rendezvous { hu_first: false }
    ));
    assert!(matches!(
        session.step(Event::Connected("RFCOMM x".to_string())),
        Action::Exchange { ms: 10000 }
    ));

    let mut session = Session::new(options("car_ap"));
    session.step(Event::Done);
    session.step(Event::Done);
    session.step(Event::NoPhone("late".to_string()));
    assert!(matches!(
        session.step(Event::NoPhone("later".to_string())),
        Action::Fail { error } if error == "later"
    ));

    let mut strict = options("car_ap");
    strict.rendezvous_mode = "hu_first".to_string();
    let mut session = Session::new(strict);
    session.step(Event::Done);
    session.step(Event::Done);
    assert!(matches!(
        session.step(Event::NoPhone("late".to_string())),
        Action::Fail { error } if error == "late"
    ));
}

#[test]
fn an_access_point_can_be_kept() {
    let mut keep = options("car_ap");
    keep.keep_ap = true;
    keep.sta_phy = "phy1".to_string();
    match until_layout(&mut Session::new(keep)) {
        Action::Join { request } => {
            assert!(request.keep_ap);
            assert_eq!(request.sta_iface, "sta0");
            assert_eq!(request.ap_iface, "wlan0");
            assert_eq!(request.sta_phy, "phy1");
        }
        _ => panic!("the network is joined"),
    }
    let mut named = options("car_ap");
    named.keep_ap = true;
    named.sta_iface = " sta1 ".to_string();
    named.ap_iface = " ap1 ".to_string();
    match until_layout(&mut Session::new(named)) {
        Action::Join { request } => {
            assert_eq!((request.sta_iface.as_str(), request.ap_iface.as_str()), ("sta1", "ap1"))
        }
        _ => panic!("the network is joined"),
    }
    let mut other = options("car_ap");
    other.sta_iface = "wlan1".to_string();
    match until_layout(&mut Session::new(other)) {
        Action::Join { request } => {
            assert!(!request.keep_ap);
            assert_eq!((request.sta_iface.as_str(), request.ap_iface.as_str()), ("wlan1", ""))
        }
        _ => panic!("the network is joined"),
    }
    let mut shared = options("proxy_ap");
    shared.keep_ap = true;
    let mut session = Session::new(shared);
    until_layout(&mut session);
    assert!(matches!(session.step(Event::Done), Action::Join { request } if !request.keep_ap));
}

#[test]
fn a_phone_is_left_alone_before_it_is_called_again() {
    assert_eq!(phone_reconnect_plan(120000), (900, 45000));
    assert_eq!(phone_reconnect_plan(30000), (900, 30000));
}

#[test]
fn a_port_that_is_not_named_is_the_usual_one() {
    assert_eq!(phone_port(0), 5288);
    assert_eq!(phone_port(1234), 1234);
    let mut unnamed = options("car_ap");
    unnamed.listen_port = 0;
    let mut session = Session::new(unnamed);
    until_layout(&mut session);
    until_start(&mut session);
    assert!(matches!(session.step(Event::Sequence(0)), Action::EncodeStart { port: 5288, .. }));
}

#[test]
fn a_round_ends_with_the_first_phone_that_answers() {
    let mut round = PhoneCallRound::new(2, 1);
    assert!(matches!(round.step(true), CallAction::AskPaired(1)));
    assert!(matches!(round.step(false), CallAction::AskPaired(0)));
    assert!(matches!(round.step(true), CallAction::Call(0)));
    assert!(matches!(round.step(false), CallAction::AskPaired(1)));
    assert!(matches!(round.step(true), CallAction::Call(1)));
    assert!(matches!(round.step(true), CallAction::Reached(1)));

    let mut round = PhoneCallRound::new(1, 0);
    for _ in 0..3 {
        assert!(matches!(round.step(false), CallAction::AskPaired(0)));
    }
    assert!(matches!(
        round.step(false),
        CallAction::Fail { error } if error == "Unable to connect to the provided addresses"
    ));
}

#[test]
fn phones_are_named_with_commas_between_them() {
    let a = BtAddress { b0: 1, b1: 2, b2: 3, b3: 4, b4: 5, b5: 6 };
    let list = BluetoothAddressList::parse(" 01:02:03:04:05:06 , nonsense,00:00:00:00:00:00");
    assert_eq!(list.0, Some(vec![a, BtAddress::any()]));
    assert_eq!(BluetoothAddressList::parse("  ").0, None);
    assert_eq!(BluetoothAddressList::parse("x").0, Some(vec![]));
}

#[test]
fn the_phone_comes_first() {
    let mut meeting = Meeting::car_wifi_mitm_phone_first_rendezvous();
    assert_eq!(meeting.step(MeetingOutcome::Done), MeetingStep::Do(MeetingTask::TriggerPhones));
    assert_eq!(meeting.step(MeetingOutcome::Done), MeetingStep::Do(MeetingTask::AwaitPhone));
    assert_eq!(meeting.step(MeetingOutcome::Failed), MeetingStep::Fail);
}

#[test]
fn phones_that_were_hung_up_on_are_left_alone() {
    assert_eq!(disconnect_triggered_phone_devices(&vec![]), None);
    assert_eq!(disconnect_triggered_phone_devices(&vec![BtAddress::any()]), Some(750));
}

#[test]
fn messages_are_read_and_written_for_the_session() {
    let request = encode_start("192.168.43.1", 30515);
    assert!(matches!(
        message_event(&Action::ParseStart { payload: request.clone() }),
        Some(Event::Endpoint { ip, port: 30515 }) if ip == "192.168.43.1"
    ));
    assert!(matches!(
        message_event(&Action::ParseStart { payload: vec![0x0a] }),
        Some(Event::Failed(e)) if e == parse_start(&[0x0a]).unwrap_err()
    ));
    assert!(matches!(
        message_event(&Action::ParseInfo { payload: encode_info(&car_info()) }),
        Some(Event::Info(i)) if i.ssid == "Car" && i.key == "secret"
    ));
    match message_event(&Action::EncodeStart {
        original: request,
        ip: "10.0.0.1".to_string(),
        port: 5288,
    }) {
        Some(Event::Bytes(b)) => {
            assert_eq!(parse_start(&b), Ok(("10.0.0.1".to_string(), 5288)))
        }
        _ => panic!("the request is written"),
    }
    assert!(matches!(
        message_event(&Action::EncodeStart { original: vec![0x0a], ip: "x".to_string(), port: 1 }),
        Some(Event::Failed(e)) if e == parse_start(&[0x0a]).unwrap_err()
    ));
    assert!(matches!(
        message_event(&Action::EncodeInfo { info: car_info() }),
        Some(Event::Bytes(b)) if b == encode_info(&car_info())
    ));
    assert!(message_event(&Action::ReadHu).is_none());
}
