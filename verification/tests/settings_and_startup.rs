use aa_proxy::config::{
    check_quotes, empty_string_as_none, filter_iw_list_cached, get_latest_wifi_version_from,
    supports_5ghz_wifi_cached, Action, AppConfig, BtScoMediaBridgeAudioType,
    BtScoMediaBridgeLimiter, BtScoMediaBridgeResampler, BtScoMicEchoControl, GivenDefaults, Repr,
    Scalar,
};
use aa_proxy::config_schema::{
    is_requires_none, wasm_script_limits_config_section, ConfigJson, ConfigValue, ConfigValues,
    Requires,
};
use aa_proxy::main_loop::{LoopAction, LoopEvent, LoopSettings, MainLoop};
use aa_proxy::startup::{
    action_handler, bt_wireless_proxy_external_ap_enabled, car_wifi_mitm_options,
    clean_disconnect_and_exit, configure_kernel_module_path_for_config,
    external_ap_phone_ap_iface_for_config, external_ap_startup_sta_iface, generate_hostapd_conf,
    generate_network_conf, generate_usb_strings, get_serial_number, has_leds_and_button,
    init_wifi_config, is_kernel_module_name_safe, logging_init, parse_preload_kernel_modules,
    parse_proxy_mode, preload_kernel_modules_for_config, render_template,
    should_prepare_kernel_firmware_path, web_only_bind, BringUpAction, BringUpEvent, ExitStep,
    FirmwareFacts, IfaceBringUp, LogLevel, ProxyMode, TemplateVar, UpAddress,
};
use toml_edit::DocumentMut;

fn given() -> GivenDefaults {
    GivenDefaults {
        connect: "00:00:00:00:00:00".to_string(),
        inject_display_types: String::new(),
        inject_cluster_codec_resolution: "800x480".to_string(),
        ev_connector_types: String::new(),
    }
}

fn config() -> AppConfig {
    AppConfig::default("", given())
}

#[test]
fn empty_text_is_none() {
    assert_eq!(empty_string_as_none(None), None);
    assert_eq!(empty_string_as_none(Some(Repr::Str("  ".to_string()))), None);
    assert_eq!(empty_string_as_none(Some(Repr::Str(" a ".to_string()))), Some("a".to_string()));
    assert_eq!(empty_string_as_none(Some(Repr::Int(-5))), Some("-5".to_string()));
    assert_eq!(empty_string_as_none(Some(Repr::Float("1.5".to_string()))), Some("1.5".to_string()));
}

#[test]
fn limiters_have_numbers() {
    for limiter in [
        BtScoMediaBridgeLimiter::Off,
        BtScoMediaBridgeLimiter::Hard,
        BtScoMediaBridgeLimiter::Soft,
    ] {
        assert_eq!(BtScoMediaBridgeLimiter::from_u8(limiter.as_u8()), limiter);
    }
    assert_eq!(BtScoMediaBridgeLimiter::from_u8(9), BtScoMediaBridgeLimiter::Off);
    assert_eq!(BtScoMediaBridgeLimiter::Soft.as_str(), "soft");
}

#[test]
fn choices_have_words_and_defaults() {
    assert_eq!(BtScoMediaBridgeAudioType::default().as_str(), "guidance");
    assert_eq!(BtScoMediaBridgeAudioType::Auto.as_str(), "auto");
    assert_eq!(BtScoMediaBridgeLimiter::default().as_str(), "off");
    assert_eq!(BtScoMediaBridgeResampler::default().as_str(), "repeat");
    assert_eq!(BtScoMicEchoControl::default().as_str(), "off");
    assert_eq!(BtScoMicEchoControl::Ducking.as_str(), "ducking");
}

#[test]
fn wifi_generations_are_found() {
    assert!(filter_iw_list_cached("a\nb HT20 c\n", "HT20"));
    assert!(!filter_iw_list_cached("HT\n20", "HT20"));
    assert!(supports_5ghz_wifi_cached("* 5180.0 MHz [36]"));
    assert_eq!(get_latest_wifi_version_from("\tHE PHY Capabilities\n\tVHT Capabilities"), Ok(6));
    let mut shown = String::new();
    let mut newest = 0;
    for line in ["11.0 Mbps", "5180.0 MHz", "54.0 Mbps", "HT20", "VHT Capabilities", "1.0 Mbps"] {
        shown = shown + line + "\n";
        let version = get_latest_wifi_version_from(&shown).unwrap();
        assert!(version >= newest);
        newest = version;
    }
    assert_eq!(newest, 5);
    assert_eq!(get_latest_wifi_version_from("VHT Capabilities (0x1)"), Ok(5));
    assert_eq!(get_latest_wifi_version_from("HT TX/RX MCS rate"), Ok(4));
    assert_eq!(get_latest_wifi_version_from("* 54.0 Mbps"), Ok(3));
    assert_eq!(get_latest_wifi_version_from("* 5180.0 MHz"), Ok(2));
    assert_eq!(get_latest_wifi_version_from("* 11.0 Mbps"), Ok(1));
    assert_eq!(
        get_latest_wifi_version_from(""),
        Err("Device does not support anything newer than 802.11-1997?!?!".to_string())
    );
}

#[test]
fn defaults_follow_the_device() {
    let slow = config();
    assert_eq!((slow.wifi_version, slow.band.as_str(), slow.channel), (1, "2.4", 6));
    let fast = AppConfig::default("* 5180.0 MHz [36]\nVHT Capabilities", given());
    assert_eq!((fast.wifi_version, fast.band.as_str(), fast.channel), (5, "5", 36));
    assert_eq!(slow.bt_wireless_proxy_mode, "car-wifi-mitm");
    assert_eq!(slow.webserver.as_deref(), Some("0.0.0.0:80"));
    assert_eq!(slow.bt_sco_mic_duck_threshold, 700);
    assert_eq!(slow.connect, "00:00:00:00:00:00");
    assert_eq!(slow.map_album_art_chunk_bytes, 16120);
}

#[test]
fn saved_settings_are_read_back() {
    let mut cfg = config();
    cfg.ssid = "my \"net\"\nline".to_string();
    cfg.bt_wireless_proxy_pairing_window_secs = u64::MAX;
    cfg.media_dump_base_port = Some(4000);
    assert!(cfg.check_can_be_saved());
    let text = cfg.save("# a comment\nother = 7\nssid = 'old'\n[table]\nx = 1\n");
    let doc = text.parse::<DocumentMut>().unwrap();
    assert_eq!(doc["ssid"].as_str(), Some("my \"net\"\nline"));
    assert_eq!(doc["other"].as_integer(), Some(7));
    assert_eq!(doc["advertise"].as_bool(), Some(true));
    assert_eq!(doc["channel"].as_integer(), Some(6));
    assert_eq!(doc["bt_wireless_proxy_pairing_window_secs"].as_integer(), Some(-1));
    assert_eq!(doc["media_dump_base_port"].as_integer(), Some(4000));
    assert_eq!(doc["bt_wireless_proxy_hu_channel"].as_integer(), Some(0));
    assert_eq!(doc["wired"].as_str(), Some(""));
    assert_eq!(doc["bt_sco_media_bridge_limiter"].as_str(), Some("off"));
    assert!(doc.get("udc").is_none());
    assert!(doc.get("wlan_subnet").is_none());
    assert!(text.contains("# a comment"));
    assert_eq!(doc["table"]["x"].as_integer(), Some(1));
}

#[test]
fn a_save_keeps_what_is_no_setting() {
    let raw = "udc = 3\nwlan_subnet = 'x'\nratio = 1.5\nlist = [1, \"two\", [3]]\nday = 1979-05-27\nin = { a = 1 }\np.q = true\n\
               [[many]]\nn = 1\n[[many]]\nn = 2\n[deep.er]\nx = 0.25\n";
    let before = raw.parse::<DocumentMut>().unwrap();
    let text = config().save(raw);
    let doc = text.parse::<DocumentMut>().unwrap();
    assert_eq!(doc["ratio"].as_float(), Some(1.5));
    assert_eq!(doc["udc"].as_integer(), Some(3));
    assert_eq!(doc["wlan_subnet"].as_str(), Some("x"));
    assert_eq!(doc["list"].as_array().unwrap().len(), 3);
    assert_eq!(doc["list"].to_string(), before["list"].to_string());
    assert_eq!(doc["day"].to_string(), before["day"].to_string());
    assert_eq!(doc["in"]["a"].as_integer(), Some(1));
    assert_eq!(doc["p"]["q"].as_bool(), Some(true));
    assert_eq!(doc["many"].as_array_of_tables().unwrap().len(), 2);
    assert_eq!(doc["many"][1]["n"].as_integer(), Some(2));
    assert_eq!(doc["deep"]["er"]["x"].as_float(), Some(0.25));
    assert_eq!(doc["iface"].as_str(), Some("wlan0"));
    assert!(doc["deep"]["er"].get("iface").is_none());
}

#[test]
fn a_broken_file_is_begun_anew() {
    let text = config().save("this is no document");
    let doc = text.parse::<DocumentMut>().unwrap();
    assert_eq!(doc["iface"].as_str(), Some("wlan0"));
}

#[test]
fn saving_again_changes_nothing() {
    let cfg = config();
    let once = cfg.save("");
    assert_eq!(cfg.save(&once), once);
}

#[test]
fn every_setting_has_its_own_key() {
    let mut cfg = config();
    cfg.udc = Some("u".to_string());
    cfg.btalias = Some("b".to_string());
    cfg.ev_battery_logger = Some("e".to_string());
    cfg.hu_button_handler = Some("h".to_string());
    cfg.media_dump_base_port = Some(1);
    let settings = cfg.settings();
    assert_eq!(settings.len(), 185);
    for i in 0..settings.len() {
        for j in 0..i {
            assert_ne!(settings[i].key, settings[j].key);
        }
    }
    let text = cfg.save("");
    let doc = text.parse::<DocumentMut>().unwrap();
    for setting in &settings {
        match &setting.value {
            Scalar::Bool(b) => assert_eq!(doc[setting.key.as_str()].as_bool(), Some(*b)),
            Scalar::Int(i) => assert_eq!(doc[setting.key.as_str()].as_integer(), Some(*i)),
            Scalar::Text(t) => assert_eq!(doc[setting.key.as_str()].as_str(), Some(t.as_str())),
        }
    }
}

#[test]
fn too_many_quotes_cannot_be_saved() {
    assert!(check_quotes(&"'".repeat(255)));
    assert!(!check_quotes(&"'".repeat(256)));
    assert!(!check_quotes(&"\"".repeat(256)));
    assert!(check_quotes(&"'\"".repeat(300)));
    let mut cfg = config();
    cfg.ssid = "\"".repeat(300);
    assert!(!cfg.check_can_be_saved());
}

fn value(description: &str) -> ConfigValue {
    let mut v = ConfigValue::default();
    v.typ = "string".to_string();
    v.description = description.to_string();
    v.values = Some(vec!["x".to_string()]);
    v
}

#[test]
fn sections_are_flattened() {
    let mut inner = ConfigValues::default();
    inner.title = "Cluster".to_string();
    inner.values.insert("b".to_string(), value("second"));
    inner.values.insert("a".to_string(), value("first"));
    let mut middle = ConfigValues::default();
    middle.subsections.push(inner);
    let mut outer = ConfigValues::default();
    outer.title = "MITM".to_string();
    outer.values.insert("k".to_string(), value("own"));
    outer.subsections.push(middle);
    let mut json = ConfigJson::default();
    json.titles.push(outer);
    let flat = json.to_flat_config_data();
    let titles: Vec<&str> = flat.titles.iter().map(|t| t.title.as_str()).collect();
    assert_eq!(titles, vec!["MITM", "MITM / Cluster"]);
    let keys: Vec<&String> = flat.titles[1].values.keys().collect();
    assert_eq!(keys, vec!["b", "a"]);
    let first = &flat.titles[1].values["a"];
    assert_eq!(first.description, "first");
    assert_eq!(first.values, Some(vec!["x".to_string()]));
}

#[test]
fn the_section_on_scripts_is_complete() {
    let section = wasm_script_limits_config_section();
    assert_eq!(section.title, "🦾 WASM HOOKS");
    assert_eq!(section.values.len(), 8);
    let (key, first) = section.values.get_index(0).unwrap();
    assert_eq!(key, "wasm_hooks_dir");
    assert!(!first.advanced);
    let last = &section.values["wasm_script_lifecycle_epoch_deadline"];
    assert!(last.advanced);
    assert_eq!(last.typ, "integer");
    assert!(last.description.ends_with("Default: 1000."));
    assert!(is_requires_none(&last.requires));
    assert!(!is_requires_none(&Requires::Single("x".to_string())));
}

#[test]
fn modules_are_named_once() {
    assert_eq!(parse_preload_kernel_modules(" a, b ,,a,c-1"), vec!["a", "b", "c-1"]);
    assert!(parse_preload_kernel_modules(" , ").is_empty());
    assert!(is_kernel_module_name_safe("rtl8812_au-2"));
    assert!(!is_kernel_module_name_safe("a b"));
    assert!(!is_kernel_module_name_safe("é"));
    assert!(!is_kernel_module_name_safe(""));
    assert_eq!(preload_kernel_modules_for_config("ok,not ok,../x,fine"), vec!["ok", "fine"]);
}

#[test]
fn firmware_is_looked_for_where_it_is() {
    let facts = FirmwareFacts { is_dir: true, has_files: true, has_parameter: true };
    assert_eq!(
        configure_kernel_module_path_for_config("", facts, ""),
        Some("/data/aa-proxy-rs/firmware".to_string())
    );
    assert_eq!(configure_kernel_module_path_for_config(" /fw ", facts, "/fw\n"), None);
    let empty = FirmwareFacts { has_files: false, ..facts };
    assert_eq!(configure_kernel_module_path_for_config("/fw", empty, ""), None);
}

fn external() -> AppConfig {
    let mut cfg = config();
    cfg.bt_wireless_proxy = true;
    cfg.bt_wireless_proxy_phone_wifi_mode = "external_ap".to_string();
    cfg
}

#[test]
fn a_second_radio_is_recognized() {
    assert!(!bt_wireless_proxy_external_ap_enabled(&config()));
    assert!(bt_wireless_proxy_external_ap_enabled(&external()));
    assert!(should_prepare_kernel_firmware_path(&external()));
    assert!(!should_prepare_kernel_firmware_path(&config()));
    let mut cfg = config();
    cfg.preload_kernel_modules = "x".to_string();
    assert!(should_prepare_kernel_firmware_path(&cfg));
    assert_eq!(parse_proxy_mode(" Probe "), ProxyMode::Probe);
    assert_eq!(parse_proxy_mode("wifi-mitm"), ProxyMode::CarWifiMitm);
    assert_eq!(parse_proxy_mode("x"), ProxyMode::Bridge);
}

#[test]
fn interfaces_have_defaults() {
    let mut cfg = config();
    assert_eq!(external_ap_phone_ap_iface_for_config(&cfg), "wlan0");
    cfg.bt_wireless_proxy_car_wifi_base_iface = " ".to_string();
    cfg.iface = "wlan5".to_string();
    assert_eq!(external_ap_phone_ap_iface_for_config(&cfg), "wlan5");
    cfg.bt_wireless_proxy_car_wifi_ap_iface = "ap7".to_string();
    assert_eq!(external_ap_phone_ap_iface_for_config(&cfg), "ap7");
    let found = vec!["wlan1".to_string(), "wlan2".to_string()];
    assert_eq!(external_ap_startup_sta_iface("", &found), Some("wlan1".to_string()));
    assert_eq!(external_ap_startup_sta_iface(" w ", &found), Some("w".to_string()));
    assert_eq!(external_ap_startup_sta_iface("", &vec![]), None);
}

#[test]
fn an_interface_is_brought_up() {
    assert!(IfaceBringUp::bring_external_ap_sta_iface_up_for_config(&config()).is_none());
    let mut m = IfaceBringUp::bring_external_ap_sta_iface_up_for_config(&external()).unwrap();
    assert!(matches!(m.step(BringUpEvent::Done), BringUpAction::FindIfaces));
    assert!(matches!(m.step(BringUpEvent::Ifaces(vec![])), BringUpAction::Sleep(250)));
    assert!(matches!(m.step(BringUpEvent::Done), BringUpAction::FindIfaces));
    assert!(matches!(
        m.step(BringUpEvent::Ifaces(vec!["wlan1".to_string()])),
        BringUpAction::LinkUp(i) if i == "wlan1"
    ));
    assert!(matches!(m.step(BringUpEvent::Answer(true)), BringUpAction::End { up: true }));
}

#[test]
fn an_interface_is_looked_for_forty_times() {
    let mut cfg = external();
    cfg.bt_wireless_proxy_car_wifi_sta_iface = "wlan1".to_string();
    let mut m = IfaceBringUp::bring_external_ap_sta_iface_up_for_config(&cfg).unwrap();
    let mut action = m.step(BringUpEvent::Done);
    let mut looks = 0;
    loop {
        action = match action {
            BringUpAction::IfaceExists(i) => {
                assert_eq!(i, "wlan1");
                looks += 1;
                m.step(BringUpEvent::Answer(false))
            }
            BringUpAction::Sleep(_) => m.step(BringUpEvent::Done),
            BringUpAction::End { up } => {
                assert!(!up);
                break;
            }
            _ => panic!("only the configured interface is looked for"),
        };
    }
    assert_eq!(looks, 40);
}

#[test]
fn the_network_is_described() {
    let cfg = config();
    let up = |name: &str, has_scope: bool, address: &str| UpAddress {
        name: name.to_string(),
        has_scope,
        address: address.to_string(),
    };
    let list = vec![up("lo", false, "127.0.0.1"), up("wlan0", true, "fe80::1"), up("wlan0", false, "10.0.0.7")];
    let wifi = init_wifi_config(&cfg, &list, Some("02:00".to_string())).unwrap();
    assert_eq!((wifi.ip_addr.as_str(), wifi.port, wifi.bssid.as_str()), ("10.0.0.7", 5288, "02:00"));
    let wifi = init_wifi_config(&cfg, &vec![], Some("02:00".to_string())).unwrap();
    assert_eq!(wifi.ip_addr, "10.0.0.1");
    assert!(matches!(init_wifi_config(&cfg, &list, None), Err(e) if e == "No MAC address found"));
}

#[test]
fn requests_are_handled() {
    assert_eq!(action_handler(Some(Action::Reboot)), (None, true));
    assert_eq!(action_handler(Some(Action::Stop)), (Some(Action::Stop), false));
    assert_eq!(action_handler(None), (None, false));
    assert_eq!(clean_disconnect_and_exit(false, 0), ExitStep::Exit);
    assert_eq!(clean_disconnect_and_exit(true, 2999), ExitStep::Wait(50));
    assert_eq!(clean_disconnect_and_exit(true, 3000), ExitStep::Exit);
    assert_eq!(web_only_bind(Some("a".to_string()), Some("b".to_string())).as_deref(), Some("a"));
    assert_eq!(web_only_bind(None, None), None);
    assert!(has_leds_and_button("AAWireless TWO"));
    assert!(!has_leds_and_button("Raspberry Pi"));
    assert_eq!(logging_init(true, true), (LogLevel::Info, LogLevel::Debug));
    assert_eq!(logging_init(true, false), (LogLevel::Debug, LogLevel::Debug));
    assert_eq!(logging_init(false, false), (LogLevel::Info, LogLevel::Info));
}

#[test]
fn templates_are_filled_in() {
    let var = |key: &str, value: &str| TemplateVar { key: key.to_string(), value: value.to_string() };
    assert_eq!(
        render_template("{{A}}-{{B}}-{{A}}-{A}", &vec![var("A", "1"), var("B", "{{A}}")]),
        "1-{{A}}-1-{A}"
    );
    let mut cfg = config();
    cfg.band = "5".to_string();
    cfg.wifi_version = 5;
    assert_eq!(
        generate_hostapd_conf(&cfg, "{{HW_MODE}} {{BE_MODE}}{{AX_MODE}}{{AC_MODE}}{{N_MODE}} {{COUNTRY_CODE}} {{CHANNEL}} {{SSID}} {{WPA_PASSPHRASE}}"),
        "a 0011 US 6 aa-proxy aa-proxy"
    );
    assert_eq!(generate_network_conf(&cfg, "{{WLAN_SUBNET}}.1/24"), "10.0.0.1/24");
    assert_eq!(
        generate_usb_strings("{{MODEL}}|{{SERIAL}}|{{FIRMWARE_VER}}", Some("Pi".to_string()), None, "v1"),
        " (Pi)|0123456|v1"
    );
    assert_eq!(get_serial_number(" 1000abc \0\0"), "1000abc");
}

#[test]
fn session_options_follow_the_settings() {
    let mut cfg = config();
    cfg.bt_wireless_proxy_car_wifi_base_iface = " ".to_string();
    cfg.iface = "wlan3".to_string();
    cfg.bt_wireless_proxy_dhcp_timeout_secs = 0;
    cfg.action_requested = Some(Action::Stop);
    let options = car_wifi_mitm_options(&cfg);
    assert_eq!(options.iface, "wlan3");
    assert_eq!(options.phone_ap_ip, "10.0.0.1");
    assert_eq!(options.dhcp_timeout_ms, 1000);
    assert_eq!(options.bt_timeout_ms, 120000);
    assert_eq!(options.wpp_keepalive_interval_ms, 2000);
    assert!(options.stopped);
}

fn loop_settings(cfg: &AppConfig) -> LoopSettings {
    LoopSettings::of(cfg)
}

fn until_round(cfg: &AppConfig) -> MainLoop {
    let mut l = MainLoop::new(loop_settings(cfg), false, false);
    assert!(matches!(l.step(LoopEvent::Done), LoopAction::StartWeb));
    assert!(matches!(l.step(LoopEvent::Done), LoopAction::InitWifi));
    assert!(matches!(l.step(LoopEvent::Done), LoopAction::StartUevents));
    assert!(matches!(l.step(LoopEvent::Done), LoopAction::MakeGadget));
    assert!(matches!(l.step(LoopEvent::Done), LoopAction::WatchActions));
    assert!(matches!(l.step(LoopEvent::Done), LoopAction::InitBluetooth { serve_aa: true }));
    assert!(matches!(
        l.step(LoopEvent::Failed("busy".to_string())),
        LoopAction::Sleep { ms: 1000 }
    ));
    assert!(matches!(l.step(LoopEvent::Done), LoopAction::InitBluetooth { .. }));
    l
}

#[test]
fn only_the_web_interface_is_served() {
    let mut cfg = config();
    cfg.bt_sco = true;
    let mut l = MainLoop::new(loop_settings(&cfg), true, true);
    assert!(matches!(l.step(LoopEvent::Done), LoopAction::StartWeb));
    assert!(matches!(l.step(LoopEvent::Done), LoopAction::Done));
}

#[test]
fn a_phone_is_brought_in_by_a_handshake() {
    let cfg = config();
    let mut l = until_round(&cfg);
    assert!(matches!(l.step(LoopEvent::Done), LoopAction::StartCompanion { enabled: true }));
    assert!(matches!(l.step(LoopEvent::Done), LoopAction::ShowIdle));
    assert!(matches!(l.step(LoopEvent::Done), LoopAction::InitUsb));
    assert!(matches!(l.step(LoopEvent::Done), LoopAction::SeeLinks));
    assert!(matches!(
        l.step(LoopEvent::Links { usb: false, profile: false }),
        LoopAction::Handshake
    ));
    assert!(matches!(
        l.step(LoopEvent::Failed("no".to_string())),
        LoopAction::Sleep { ms: 200 }
    ));
    assert!(matches!(l.step(LoopEvent::Done), LoopAction::ShowIdle));
    l.step(LoopEvent::Done);
    l.step(LoopEvent::Done);
    l.step(LoopEvent::Links { usb: false, profile: false });
    assert!(matches!(l.step(LoopEvent::Done), LoopAction::EnableUsb { .. }));
    assert!(matches!(l.step(LoopEvent::Done), LoopAction::ShowConnected));
    assert!(matches!(l.step(LoopEvent::Done), LoopAction::AwaitRestart));
    let mut fresh = loop_settings(&cfg);
    fresh.rearm_usb = true;
    assert!(matches!(
        l.step(LoopEvent::Settings(fresh)),
        LoopAction::RearmUsb { cooldown_ms: 1500 }
    ));
    assert!(matches!(l.step(LoopEvent::Done), LoopAction::SeeLinks));
    assert!(matches!(
        l.step(LoopEvent::Links { usb: false, profile: false }),
        LoopAction::ShowIdle
    ));
}

#[test]
fn a_failed_session_is_cleaned_up() {
    let mut cfg = config();
    cfg.bt_wireless_proxy = true;
    cfg.bt_wireless_proxy_hu_mac = "AA:BB:CC:DD:EE:FF".to_string();
    let mut l = until_round(&cfg);
    assert!(matches!(l.step(LoopEvent::Done), LoopAction::RegisterProfiles));
    assert!(matches!(l.step(LoopEvent::Done), LoopAction::StartCompanion { .. }));
    assert!(matches!(l.step(LoopEvent::Done), LoopAction::EnsurePairing));
    assert!(matches!(
        l.step(LoopEvent::Failed("no".to_string())),
        LoopAction::Sleep { ms: 1000 }
    ));
    assert!(matches!(l.step(LoopEvent::Done), LoopAction::EnsurePairing));
    assert!(matches!(l.step(LoopEvent::Done), LoopAction::ShowIdle));
    l.step(LoopEvent::Done);
    assert!(matches!(
        l.step(LoopEvent::Done),
        LoopAction::RunProxy { mode: ProxyMode::CarWifiMitm }
    ));
    assert!(matches!(
        l.step(LoopEvent::Failed("reset".to_string())),
        LoopAction::Recover { error } if error == "reset"
    ));
    assert!(matches!(l.step(LoopEvent::Done), LoopAction::ShowIdle));
}
