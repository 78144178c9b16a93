use aa_proxy::address::{parse_address, BtAddress};
use aa_proxy::bluetooth::{
    can_cut_serial_number, get_cpu_serial_number_suffix, init, spawn_a2dp_sink_registration,
    AdapterSetting, BridgeAction, CompanionTask, PhoneTrigger, ProbeAction, ProbeEvent,
};
use aa_proxy::handshake::{
    on_restart, read_message, send_message, send_params, wifi_params, Handshake, HandshakeSettings, HandshakeStep,
    HandshakeTask, KeptStep, ParamsStage,
};
use aa_proxy::config::WifiConfig;
use aa_proxy::frame::ProxyMessageId;
use aa_proxy::known_devices::{
    load_known_devices, remove_known_device_entry, save_known_device, Removal,
};
use aa_proxy::messages::{encode_info, encode_start};
use aa_proxy::pairing::{
    auto_accept_only_configured_hu, normalize_bt_class_value, read_adapter_class_via_hciconfig,
    set_adapter_class_via_hciconfig, show_signed, PairingIdentity, PairingReply, PairingRequest,
    PairingWindow, WindowEnd, WindowEvent, WindowStep, WindowTask,
};
use aa_proxy::profiles::phone_like_sdp_profile_specs;
use aa_proxy::rendezvous::BluetoothAddressList;
use aa_proxy::sdp::{
    build_sdp_service_search_attribute_request, describe_sdp_error_response, discovery_error,
    discovery_settle_ms, extract_rfcomm_channel_from_sdp_attribute_lists,
    parse_rfcomm_channel_after_uuid16, read_sdp_pdu, sdp_de_sequence_u8, sdp_de_uint32,
    sdp_de_uuid128, SdpQuery, AAWG_PROFILE_UUID,
};

const PHONE: BtAddress = BtAddress { b0: 0x00, b1: 0x11, b2: 0x22, b3: 0x33, b4: 0x44, b5: 0x55 };
const HU: BtAddress = BtAddress { b0: 0xaa, b1: 0xbb, b2: 0xcc, b3: 0xdd, b4: 0xee, b5: 0xff };

#[test]
fn addresses_are_read_and_written() {
    assert_eq!(parse_address("00:11:22:33:44:55"), Some(PHONE));
    assert_eq!(parse_address("aa:bb:cc:dd:ee:ff"), Some(HU));
    assert_eq!(HU.to_text(), "AA:BB:CC:DD:EE:FF");
    assert_eq!(parse_address(&HU.to_text()), Some(HU));
    assert_eq!(parse_address("00:11:22:33:44"), None);
    assert_eq!(parse_address(""), None);
    assert_eq!(BtAddress::any().to_text(), "00:00:00:00:00:00");
}

#[test]
fn known_devices_are_loaded() {
    let contents = "00:11:22:33:44:55\n\nnonsense\n  AA:BB:CC:DD:EE:FF \r\n00:00:00:00:00:00\n";
    assert_eq!(load_known_devices(contents), vec![PHONE, HU]);
}

#[test]
fn a_saved_device_is_known_once() {
    let line = save_known_device("", PHONE).unwrap();
    assert_eq!(line, "00:11:22:33:44:55\n");
    assert_eq!(load_known_devices(&line), vec![PHONE]);
    assert_eq!(save_known_device(&line, PHONE), None);
}

#[test]
fn only_the_removed_device_is_gone() {
    let contents = "00:11:22:33:44:55\nAA:BB:CC:DD:EE:FF\n";
    match remove_known_device_entry(contents, "00:11:22:33:44:55") {
        Removal::Rewrite(rest) => assert_eq!(load_known_devices(&rest), vec![HU]),
        _ => panic!("the other device is left"),
    }
    assert!(matches!(
        remove_known_device_entry("00:11:22:33:44:55\n", "00:11:22:33:44:55"),
        Removal::DeleteFile
    ));
    assert!(matches!(
        remove_known_device_entry(contents, "01:02:03:04:05:06"),
        Removal::NotFound
    ));
}

#[test]
fn data_elements_are_exact() {
    assert_eq!(sdp_de_uint32(0x0000ffff), vec![0x0a, 0, 0, 0xff, 0xff]);
    let uuid = sdp_de_uuid128(AAWG_PROFILE_UUID);
    assert_eq!(uuid.len(), 17);
    assert_eq!(&uuid[..5], &[0x1c, 0x4d, 0xe1, 0x7a, 0x00]);
    assert_eq!(sdp_de_sequence_u8(vec![1, 2]), Ok(vec![0x35, 2, 1, 2]));
    assert_eq!(
        sdp_de_sequence_u8(vec![0; 256]),
        Err("SDP sequence too long for u8 length: 256".to_string())
    );
}

#[test]
fn a_request_is_exact() {
    let pdu = build_sdp_service_search_attribute_request(1, AAWG_PROFILE_UUID, &[7]).unwrap();
    assert_eq!(pdu[0], 0x06);
    assert_eq!(&pdu[1..3], &[0, 1]);
    assert_eq!(&pdu[3..5], &[0, 30]);
    assert_eq!(&pdu[5..8], &[0x35, 17, 0x1c]);
    assert_eq!(&pdu[24..26], &[0x03, 0xf0]);
    assert_eq!(&pdu[26..33], &[0x35, 5, 0x0a, 0, 0, 0xff, 0xff]);
    assert_eq!(&pdu[33..], &[1, 7]);
    assert!(build_sdp_service_search_attribute_request(1, 0, &[0; 256]).is_err());
    assert_eq!(read_sdp_pdu(&[7, 0, 1, 1, 0]), (7, 1, 256));
}

#[test]
fn an_error_response_is_described() {
    assert_eq!(
        describe_sdp_error_response(&[0, 3, 0xab]),
        "Invalid request syntax code=0x0003 params=0003ab"
    );
    assert_eq!(describe_sdp_error_response(&[9]), "short SDP ErrorResponse params=09");
}

#[test]
fn a_channel_is_found() {
    let lists = [0x35, 3, 0x19, 0x01, 0x00, 0x35, 5, 0x19, 0x00, 0x03, 0x08, 0x08];
    assert_eq!(extract_rfcomm_channel_from_sdp_attribute_lists(&lists), Some(8));
    assert_eq!(extract_rfcomm_channel_from_sdp_attribute_lists(&[0x35, 0]), None);
    assert_eq!(parse_rfcomm_channel_after_uuid16(&[0x08, 31], 0), None);
    assert_eq!(parse_rfcomm_channel_after_uuid16(&[0x09, 0, 30], 0), Some(30));
    assert_eq!(parse_rfcomm_channel_after_uuid16(&[0x0a, 0, 0, 0, 1], 0), Some(1));
}

#[test]
fn a_query_goes_on_until_it_is_complete() {
    let mut query = SdpQuery::new();
    assert!(query.next_request().unwrap().is_some());
    assert_eq!(query.on_response(7, &[0, 3, 0x19, 0x00, 0x03, 1, 9]), Ok(()));
    let second = query.next_request().unwrap().unwrap();
    assert_eq!(second.last(), Some(&9));
    assert_eq!(query.on_response(7, &[0, 2, 0x08, 0x05, 0]), Ok(()));
    assert!(query.next_request().unwrap().is_none());
    assert_eq!(query.channel("AA:BB:CC:DD:EE:FF"), Ok(5));
}

#[test]
fn a_query_reports_what_is_wrong() {
    let mut query = SdpQuery::new();
    assert!(query.next_request().unwrap().is_some());
    assert_eq!(
        query.on_response(1, &[0, 6]),
        Err("HU returned SDP ErrorResponse for AA Wireless UUID 4de17a00-52cb-11e6-bdf4-0800200c9a66: Insufficient resources code=0x0006 params=0006".to_string())
    );
    assert_eq!(
        query.on_response(2, &[]),
        Err("unexpected SDP PDU 0x02; expected ServiceSearchAttributeResponse 0x07".to_string())
    );
    assert_eq!(
        query.on_response(7, &[0]),
        Err("short SDP ServiceSearchAttributeResponse: 1 bytes".to_string())
    );
    assert_eq!(
        SdpQuery::new().channel("X"),
        Err("HU X returned no SDP attributes for AA Wireless UUID 4de17a00-52cb-11e6-bdf4-0800200c9a66".to_string())
    );
}

#[test]
fn discovery_is_tried_again() {
    assert_eq!(discovery_settle_ms(0), Some(1500));
    assert_eq!(discovery_settle_ms(1), Some(2200));
    assert_eq!(discovery_settle_ms(2), Some(3000));
    assert_eq!(discovery_settle_ms(3), None);
    assert_eq!(
        discovery_error("X", "last"),
        "internal SDP discovery failed for HU X after 3 attempts; last error: last"
    );
}

#[test]
fn profiles_are_distinct() {
    let minimal = phone_like_sdp_profile_specs("");
    assert_eq!(minimal.len(), 6);
    assert_eq!(minimal[0].tag, "hfp_ag");
    assert_eq!(minimal[0].uuid, 0x0000111f00001000800000805f9b34fb);
    let full = phone_like_sdp_profile_specs(" FULL ");
    assert_eq!(full.len(), 12);
    for i in 0..full.len() {
        assert_ne!(full[i].uuid, AAWG_PROFILE_UUID);
        for j in 0..i {
            assert_ne!(full[i].uuid, full[j].uuid);
        }
    }
}

#[test]
fn only_the_configured_hu_may_pair() {
    assert!(
        auto_accept_only_configured_hu(PairingRequest::Confirmation, PHONE, HU)
            == PairingReply::Reject
    );
    assert!(
        auto_accept_only_configured_hu(PairingRequest::Confirmation, HU, HU)
            != PairingReply::Reject
    );
    assert!(auto_accept_only_configured_hu(PairingRequest::PinCode, HU, HU) == PairingReply::ZeroPin);
}

#[test]
fn device_classes_are_normalized() {
    assert_eq!(normalize_bt_class_value("0x00020C"), Some("0x00020c".to_string()));
    assert_eq!(normalize_bt_class_value(" 20c "), Some("0x00020c".to_string()));
    assert_eq!(normalize_bt_class_value("0Xffffff"), Some("0xffffff".to_string()));
    assert_eq!(normalize_bt_class_value(""), None);
    assert_eq!(normalize_bt_class_value("0x"), None);
    assert_eq!(normalize_bt_class_value("1234567"), None);
    assert_eq!(normalize_bt_class_value("xyz"), None);
    for value in ["5A020C", "0X1", "0xabcdef"] {
        let usual = normalize_bt_class_value(value).unwrap();
        assert_eq!(normalize_bt_class_value(&usual), Some(usual));
    }
    assert_eq!(
        read_adapter_class_via_hciconfig("hci0:\n\tClass: 0x480000,\n", ""),
        Some("0x480000".to_string())
    );
    assert_eq!(read_adapter_class_via_hciconfig("nothing", "here"), None);
}

#[test]
fn a_failed_class_change_is_told() {
    assert_eq!(set_adapter_class_via_hciconfig("hci0", "0x1", true, Some(0), "", ""), Ok(()));
    assert_eq!(
        set_adapter_class_via_hciconfig("hci0", "0x1", false, Some(1), " out ", "err\n"),
        Err("hciconfig hci0 class 0x1 failed status=Some(1) stdout=out stderr=err".to_string())
    );
    assert_eq!(
        set_adapter_class_via_hciconfig("hci0", "0x1", false, None, "", ""),
        Err("hciconfig hci0 class 0x1 failed status=None stdout= stderr=".to_string())
    );
}

#[test]
fn an_identity_is_given_back() {
    let mut identity = PairingIdentity::new();
    let (alias, class) = identity.apply_phone_like_hu_pairing_identity(
        "",
        "nonsense",
        "aa-proxy",
        "hci0",
        Some("0x480000".to_string()),
    );
    assert_eq!((alias.as_str(), class.as_str()), ("AndroidAuto", "0x00020c"));
    let (alias, class) = identity.restore_phone_like_hu_pairing_identity();
    assert_eq!(alias.as_deref(), Some("aa-proxy"));
    assert_eq!(class, Some(("hci0".to_string(), "0x480000".to_string())));
    let (alias, class) = identity.restore_phone_like_hu_pairing_identity();
    assert_eq!((alias, class), (None, None));
}

#[test]
fn signed_numbers_are_shown() {
    assert_eq!(show_signed(0), "0");
    assert_eq!(show_signed(-17), "-17");
    assert_eq!(show_signed(i64::MIN), "-9223372036854775808");
}

#[test]
fn a_paired_and_trusted_hu_needs_no_window() {
    let mut window = PairingWindow::new("AA:BB:CC:DD:EE:FF", 120, false, false, false).unwrap();
    assert!(window.step(WindowEvent::Done, 0) == WindowStep::Do(WindowTask::DeviceState));
    assert!(
        window.step(WindowEvent::Device { known: true, paired: true, trusted: true }, 0)
            == WindowStep::End(WindowEnd::Ready)
    );
}

#[test]
fn without_a_hu_there_is_no_window() {
    let mut window = PairingWindow::new("  ", 120, false, false, false).unwrap();
    assert!(window.step(WindowEvent::Done, 0) == WindowStep::End(WindowEnd::Skipped));
    assert!(PairingWindow::new("nonsense", 120, false, false, false).is_none());
}

#[test]
fn the_end_of_the_serial_number_is_cut() {
    assert_eq!(get_cpu_serial_number_suffix("10000000abcdef\0\0"), "abcdef");
    assert_eq!(get_cpu_serial_number_suffix(" 12345 \0"), "");
    assert!(can_cut_serial_number("10000000abcdef"));
    assert!(!can_cut_serial_number("aé12345"));
}

#[test]
fn the_adapter_is_set_up() {
    let (state, settings) = init(None, Some("abcdef".to_string()), true, false, true);
    assert_eq!(state.adapter_alias, "aa-proxy-abcdef");
    assert_eq!(settings.len(), 6);
    assert!(matches!(&settings[0], AdapterSetting::Alias(a) if a == "aa-proxy-abcdef"));
    assert!(matches!(settings[3], AdapterSetting::Discoverable(true)));
    assert!(matches!(settings[5], AdapterSetting::ServeAaWireless(8)));
    let (state, settings) = init(None, None, false, true, false);
    assert_eq!(state.adapter_alias, "aa-proxy");
    assert_eq!(settings.len(), 3);
    let (state, _) = init(Some("car".to_string()), None, false, false, true);
    assert_eq!(state.adapter_alias, "car");
}

#[test]
fn profiles_are_announced_once() {
    let (mut state, _) = init(None, None, false, false, true);
    assert!(state.register_phone_like_sdp_profiles(false, "full").is_none());
    assert_eq!(state.register_phone_like_sdp_profiles(true, "full").unwrap().len(), 12);
    state.note_phone_like_sdp_profiles(3);
    assert!(state.register_phone_like_sdp_profiles(true, "full").is_none());
    assert!(!spawn_a2dp_sink_registration(true));
    assert!(spawn_a2dp_sink_registration(false));
}

#[test]
fn the_companion_needs_an_agent_once() {
    let (mut state, _) = init(None, None, false, false, true);
    assert!(state.start_companion_bt(false).is_empty());
    assert_eq!(state.start_companion_bt(true)[0], CompanionTask::RegisterAgent);
    state.has_companion_agent = true;
    assert_eq!(
        state.start_companion_bt(true),
        vec![
            CompanionTask::OpenAdapter,
            CompanionTask::RegisterProfile,
            CompanionTask::RegisterSerialProfile
        ]
    );
}

#[test]
fn phones_are_called_in_turns() {
    let (mut state, _) = init(None, None, false, false, true);
    let any = BluetoothAddressList(Some(vec![BtAddress::any()]));
    match state.trigger_phone_aa_connection(&any, false, &vec![PHONE, HU]) {
        PhoneTrigger::Call { addresses, start } => {
            assert_eq!((addresses, start), (vec![PHONE, HU], 0))
        }
        _ => panic!("known phones are called"),
    }
    state.note_phone_reached(0, 2);
    assert_eq!(state.current_index, 1);
    state.note_phone_reached(1, 2);
    assert_eq!(state.current_index, 0);
    assert!(matches!(
        state.trigger_phone_aa_connection(&any, true, &vec![PHONE]),
        PhoneTrigger::Wait
    ));
    assert!(matches!(
        state.trigger_phone_aa_connection(&BluetoothAddressList(None), false, &vec![PHONE]),
        PhoneTrigger::Wait
    ));
    state.dongle_mode = true;
    assert!(matches!(
        state.trigger_phone_aa_connection(&any, false, &vec![PHONE]),
        PhoneTrigger::Dongle { .. }
    ));
}

#[test]
fn a_bridge_calls_the_phone_first() {
    let (state, _) = init(None, None, false, false, true);
    let mut bridge = state.aa_wireless_bridge_proxy(" mac ".to_string(), Some(3));
    assert!(matches!(bridge.step(None), BridgeAction::AwaitPhone));
    match bridge.step(None) {
        BridgeAction::ConnectHu { mac, channel } => {
            assert_eq!((mac.as_str(), channel), ("mac", Some(3)))
        }
        _ => panic!("the head unit is called"),
    }
    assert!(matches!(bridge.step(None), BridgeAction::Relay));
    assert!(matches!(bridge.step(Some("broken".to_string())), BridgeAction::Done));
    let mut unset = state.aa_wireless_bridge_proxy(" ".to_string(), None);
    assert!(matches!(unset.step(None), BridgeAction::Fail(e)
        if e == "bt_wireless_proxy_hu_mac must be set for bridge mode"));
}

#[test]
fn a_probe_goes_through_the_bootstrap() {
    let (state, _) = init(None, None, false, false, false);
    let mut probe = state.aa_wireless_probe_proxy("mac".to_string(), None, true);
    assert!(matches!(probe.step(ProbeEvent::Done), ProbeAction::ConnectHu { .. }));
    assert!(matches!(probe.step(ProbeEvent::Done), ProbeAction::ReadHu));
    assert!(matches!(
        probe.step(ProbeEvent::Frame { id: 1, payload: encode_start("10.1.1.1", 5288) }),
        ProbeAction::SendHu { id: 2, .. }
    ));
    assert!(matches!(probe.step(ProbeEvent::Done), ProbeAction::ReadHu));
    assert!(matches!(
        probe.step(ProbeEvent::Frame { id: 3, payload: vec![] }),
        ProbeAction::SendHu { id: 7, payload } if payload == vec![0x18, 0]
    ));
    assert!(matches!(
        probe.step(ProbeEvent::Done),
        ProbeAction::TryTcp { address, ms: 5000 } if address == "10.1.1.1:5288"
    ));
    assert!(matches!(
        probe.step(ProbeEvent::Failed("refused".to_string())),
        ProbeAction::SendHu { id: 6, payload } if payload == vec![0x08, 0]
    ));
    assert!(matches!(probe.step(ProbeEvent::Done), ProbeAction::ReadHuWithin(30000)));
    assert!(matches!(
        probe.step(ProbeEvent::Frame { id: 8, payload: vec![] }),
        ProbeAction::ReadHuWithin(30000)
    ));
    assert!(matches!(
        probe.step(ProbeEvent::Failed("closed".to_string())),
        ProbeAction::Done
    ));
}

#[test]
fn a_probe_that_cannot_connect_fails() {
    let (state, _) = init(None, None, false, false, false);
    let mut probe = state.aa_wireless_probe_proxy("mac".to_string(), None, true);
    assert!(matches!(probe.step(ProbeEvent::Done), ProbeAction::ConnectHu { .. }));
    assert!(matches!(
        probe.step(ProbeEvent::Failed("no route".to_string())),
        ProbeAction::Fail(e) if e == "no route"
    ));
}

#[test]
fn parameters_are_sent_in_stages() {
    assert!(send_params(1) == Some(ParamsStage::SendStart));
    assert!(send_params(3) == Some(ParamsStage::SendInfo));
    assert!(send_params(5) == Some(ParamsStage::Read(ProxyMessageId::WifiConnectStatus)));
    assert!(send_params(0).is_none());
    assert!(send_params(6).is_none());
}

#[test]
fn a_phone_that_cannot_join_is_told() {
    assert_eq!(read_message(ProxyMessageId::WifiInfoRequest, &[1, 2]), Ok(6));
    assert_eq!(read_message(ProxyMessageId::WifiConnectStatus, &[8, 0]), Ok(6));
    assert_eq!(
        read_message(ProxyMessageId::WifiConnectStatus, &[8, 1]),
        Err("phone cannot connect to our WiFi AP...".to_string())
    );
}

fn settings(wildcard: bool, stopped: bool) -> HandshakeSettings {
    HandshakeSettings {
        bt_poweroff: false,
        dongle_mode: true,
        wildcard,
        stopped,
        quick_reconnect: false,
        keep_for_calls: false,
    }
}

#[test]
fn a_phone_is_known_after_its_parameters() {
    let mut handshake = Handshake::new(settings(true, true));
    assert!(handshake.step(false) == HandshakeStep::Do(HandshakeTask::ConnectPhone));
    assert!(handshake.step(false) == HandshakeStep::Do(HandshakeTask::NotePhone));
    assert!(handshake.step(false) == HandshakeStep::Do(HandshakeTask::SendParams));
    assert!(handshake.step(false) == HandshakeStep::Do(HandshakeTask::SaveKnown));
    assert!(handshake.step(false) == HandshakeStep::Do(HandshakeTask::ClearStop));
    assert!(handshake.step(false) == HandshakeStep::Do(HandshakeTask::StartTcp));
    assert!(handshake.step(false) == HandshakeStep::Do(HandshakeTask::ShutDown));
    assert!(handshake.step(false) == HandshakeStep::Do(HandshakeTask::FindDevice));
    assert!(handshake.step(false) == HandshakeStep::Do(HandshakeTask::HangUp));
    assert!(handshake.step(false) == HandshakeStep::Done);
}

#[test]
fn a_phone_without_parameters_is_not_known() {
    let mut handshake = Handshake::new(settings(true, false));
    assert!(handshake.step(false) == HandshakeStep::Do(HandshakeTask::ConnectPhone));
    assert!(handshake.step(false) == HandshakeStep::Do(HandshakeTask::NotePhone));
    assert!(handshake.step(false) == HandshakeStep::Do(HandshakeTask::SendParams));
    assert!(handshake.step(true) == HandshakeStep::Fail);
}

#[test]
fn the_phone_is_told_of_a_secured_network() {
    let wifi = WifiConfig {
        ip_addr: "10.0.0.1".to_string(),
        port: 5288,
        ssid: "net".to_string(),
        bssid: "02:00".to_string(),
        wpa_key: String::new(),
    };
    let info = wifi_params(&wifi);
    assert_eq!((info.ssid.as_str(), info.bssid.as_str()), ("net", "02:00"));
    assert!(!info.is_open);
    assert_eq!(info.security_name, "WPA2_PERSONAL");
    assert!(info.dynamic);
    assert_eq!(
        send_message(ParamsStage::SendStart, &wifi),
        Some((1, encode_start("10.0.0.1", 5288)))
    );
    assert_eq!(send_message(ParamsStage::SendInfo, &wifi), Some((3, encode_info(&info))));
    assert_eq!(send_message(ParamsStage::Read(ProxyMessageId::WifiInfoRequest), &wifi), None);
}

#[test]
fn a_stop_ends_a_kept_connection() {
    assert!(on_restart(true) == KeptStep::HangUp);
    assert!(on_restart(false) == KeptStep::SendParams);
}
