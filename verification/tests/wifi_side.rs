use aa_proxy::net_text::{check_ip, check_ipv6, parse_ipv4};
use aa_proxy::route::{
    install_ipv4_host_route, ipv4_likely_same_lan, warm_car_side_route_for_hu, HuConnect,
    RewriteIp, RouteRepair,
};
use aa_proxy::task::{Outcome, Step, Task, TaskOutcome, WifiStep};
use aa_proxy::wifi_iface::{
    iface_device_path_looks_usb, iface_mac_address, sort_texts, start_proxy_phone_ap,
    usb_wlan_candidates, ExternalIface, IfaceMaker, SeenIface, Takeover,
};
use aa_proxy::wifi_join::{
    beside_iface, parse_join_control, read_network_id, wpa_cli_plan, wpactrl_cmd, wpactrl_plan, CarWifiJoin,
    JoinControl, SupplicantJoin, WpaCliJoin, WpactrlJoin,
};
use aa_proxy::wifi_text::{
    build_proxy_phone_wifi_info, check_output, config_path, current_iw_connected, current_iw_ssid,
    hostapd_hw_mode_for_channel, iface_ipv4, iw_iface_type, nmcli_join_args, normalize_phy_name,
    parse_iw_channel_from_text, phy_for_iface, phys_from_iw_dev, render_wifi_join_cmd, shell_quote,
    sta_phy_candidates, start_wpa_supplicant_process, wait_for_wifi_ready,
    wait_for_wpa_ctrl_socket, wifi_channel_from_freq, wpa_cli_output, wpa_ctrl_paths, wpa_quote,
    wpa_supplicant_args, wpa_supplicant_config, wpa_supplicant_parse_failure_text, CarWifiInfo,
    ProgramOutput,
};

fn info(key: &str, open: bool) -> CarWifiInfo {
    CarWifiInfo {
        ssid: "Car \"Net\"".to_string(),
        key: key.to_string(),
        bssid: "02:00:00:00:00:01".to_string(),
        is_open: open,
        security_name: "WPA2_PERSONAL".to_string(),
        dynamic: false,
    }
}

fn output(success: bool, stdout: &str, stderr: &str) -> ProgramOutput {
    ProgramOutput {
        success,
        status: "exit status: 1".to_string(),
        stdout: stdout.to_string(),
        stderr: stderr.to_string(),
    }
}

fn failure(step: WifiStep) -> String {
    match step {
        Step::Fail(e) => e,
        _ => panic!("a failure"),
    }
}

#[test]
fn shell_text_is_quoted() {
    assert_eq!(shell_quote("plain"), "'plain'");
    assert_eq!(shell_quote("it's"), "'it'\\''s'");
    assert_eq!(wpa_quote("a\\b\"c"), "\"a\\\\b\\\"c\"");
}

#[test]
fn a_join_command_is_filled_in() {
    let i = build_proxy_phone_wifi_info("net", "secret", " 02:00 ");
    assert_eq!(i.bssid, "02:00");
    assert!(!i.is_open);
    assert_eq!(
        render_wifi_join_cmd("join {iface} {ssid} {bssid} {key} {security} {x}", "wlan0", &i),
        "join 'wlan0' 'net' '02:00' 'secret' 'WPA2_PERSONAL' {x}"
    );
    let odd = build_proxy_phone_wifi_info("{key}", "k", "it's {ssid}");
    assert_eq!(render_wifi_join_cmd("{ssid} {key}", "wlan0", &odd), "'{key}' 'k'");
    assert_eq!(render_wifi_join_cmd("{{bssid}}{iface", "wlan0", &odd), "{'it'\\''s {ssid}'}{iface");
    assert_eq!(render_wifi_join_cmd("", "wlan0", &odd), "");
    let open = build_proxy_phone_wifi_info("net", "  ", "");
    assert!(open.is_open);
    assert_eq!(open.security_name, "OPEN");
    assert!(!open.dynamic);
}

#[test]
fn program_arguments_are_exact() {
    assert_eq!(
        nmcli_join_args(" wlan0 ", &info("k", false)),
        vec![
            "dev", "wifi", "connect", "Car \"Net\"", "password", "k", "ifname", "wlan0", "bssid",
            "02:00:00:00:00:01"
        ]
    );
    assert_eq!(
        wpa_supplicant_args("wlan0", "/tmp/x", Some("/var/run/wpa_supplicant")),
        vec!["-B", "-i", "wlan0", "-c", "/tmp/x", "-D", "nl80211,wext", "-C", "/var/run/wpa_supplicant"]
    );
    assert_eq!(config_path("/tmp/a-", "x/y", ".conf"), "/tmp/a-x_y.conf");
}

#[test]
fn a_supplicant_config_is_exact() {
    assert_eq!(
        wpa_supplicant_config(&info("k\"", false), true),
        "network={\n    ssid=\"Car \\\"Net\\\"\"\n    bssid=02:00:00:00:00:01\n    scan_ssid=1\n    key_mgmt=WPA-PSK\n    psk=\"k\\\"\"\n}\n"
    );
    assert_eq!(
        wpa_supplicant_config(&info("", false), false),
        "network={\n    ssid=\"Car \\\"Net\\\"\"\n    scan_ssid=1\n    key_mgmt=NONE\n}\n"
    );
    assert!(wpa_supplicant_parse_failure_text("", "Invalid CONFIGURATION line 3"));
    assert!(!wpa_supplicant_parse_failure_text("ok", ""));
}

#[test]
fn program_failures_are_told() {
    assert_eq!(check_output("nmcli", &output(true, "", "")), Ok(()));
    assert_eq!(
        check_output("nmcli", &output(false, " a ", "b\n")),
        Err("nmcli failed status=exit status: 1 stdout=a stderr=b".to_string())
    );
    assert_eq!(
        start_wpa_supplicant_process(&output(false, "unknown global field", "")),
        Err("wpa_supplicant failed status=exit status: 1 parse_failure=true stdout=unknown global field stderr=".to_string())
    );
    let args = vec!["-i".to_string(), "wlan0".to_string()];
    assert_eq!(wpa_cli_output(&args, &output(true, " OK\n", "")), Ok("OK".to_string()));
    assert_eq!(
        wpa_cli_output(&args, &output(true, "fail\n", "")),
        Err("wpa_cli [\"-i\", \"wlan0\"] failed status=exit status: 1 stdout=fail stderr=".to_string())
    );
}

#[test]
fn program_output_is_read() {
    let link = "Connected to 02:00:00:00:00:01 (on wlan0)\n\tSSID: Car Net\n\tfreq: 5180\n";
    assert_eq!(current_iw_ssid(link).as_deref(), Some("Car Net"));
    assert!(current_iw_connected(link));
    assert!(!current_iw_connected("Not connected.\n"));
    let dev = "Interface wlan0\n\tifindex 3\n\twiphy 0\n\ttype managed\n\tchannel 36 (5180 MHz), width: 80 MHz\n";
    assert_eq!(iw_iface_type(dev).as_deref(), Some("managed"));
    assert_eq!(phy_for_iface(dev).as_deref(), Some("phy0"));
    assert_eq!(parse_iw_channel_from_text(dev), Some(36));
    assert_eq!(
        iface_ipv4("3: wlan0    inet 192.168.43.12/24 brd 192.168.43.255 scope global wlan0\n").as_deref(),
        Some("192.168.43.12")
    );
    assert_eq!(iface_ipv4(""), None);
    assert_eq!(phys_from_iw_dev("phy#1\n\tInterface wlan1\nphy#0\n"), vec!["phy1", "phy0"]);
}

#[test]
fn channels_follow_frequencies() {
    assert_eq!(wifi_channel_from_freq(2412), Some(1));
    assert_eq!(wifi_channel_from_freq(2484), Some(14));
    assert_eq!(wifi_channel_from_freq(5180), Some(36));
    assert_eq!(wifi_channel_from_freq(100), None);
    assert_eq!(hostapd_hw_mode_for_channel(6), "g");
    assert_eq!(hostapd_hw_mode_for_channel(36), "a");
}

#[test]
fn candidates_are_distinct() {
    assert_eq!(normalize_phy_name("phy2").as_deref(), Some("phy2"));
    assert_eq!(normalize_phy_name(" 2 ").as_deref(), Some("phy2"));
    assert_eq!(normalize_phy_name(" "), None);
    let present = vec!["phy0".to_string(), "phy1".to_string()];
    let list = sta_phy_candidates(&Some("phy0".to_string()), "phy1", &present);
    for i in 0..list.len() {
        for j in 0..i {
            assert_ne!(list[i], list[j]);
        }
    }
    assert!(list.contains(&"phy1".to_string()));
}

#[test]
fn a_network_is_ready_with_ssid_and_address() {
    let ssid = Some("Car".to_string());
    let ip = Some("10.0.0.2".to_string());
    assert!(wait_for_wifi_ready(&ssid, "Car", &ip));
    assert!(!wait_for_wifi_ready(&ssid, "Other", &ip));
    assert!(!wait_for_wifi_ready(&ssid, "Car", &None));
    assert_eq!(wpa_ctrl_paths("wlan0").len() > 0, true);
    assert!(wait_for_wpa_ctrl_socket("wlan0", 12000).contains("12s"));
}

#[test]
fn usb_interfaces_are_sorted() {
    assert!(iface_device_path_looks_usb("/sys/devices/platform/usb1/1-1"));
    assert!(!iface_device_path_looks_usb("/sys/devices/pci"));
    let seen = |name: &str, on_usb: bool, listed: bool| SeenIface { name: name.to_string(), on_usb, listed };
    let list = vec![
        seen("wlan2", true, true),
        seen("wlan1", true, true),
        seen("wlan0", true, true),
        seen("eth0", true, true),
        seen("wlan3", false, true),
        seen("wlan4", true, false),
        seen(" wlan1 ", true, true),
    ];
    assert_eq!(usb_wlan_candidates(&list, "wlan0"), vec!["wlan1", "wlan2"]);
    assert_eq!(
        sort_texts(vec!["b".to_string(), "a".to_string(), "ab".to_string()]),
        vec!["a", "ab", "b"]
    );
}

#[test]
fn an_external_interface_that_is_configured_is_awaited() {
    let mut machine = ExternalIface::new(" wlan1 ", "wlan0");
    match machine.step(Outcome::Done, 0) {
        Step::Do(Task::IfaceExists { iface }) | Step::Do(Task::AwaitIface { iface, .. }) => {
            assert_eq!(iface, "wlan1")
        }
        _ => panic!("the interface is looked at"),
    }
}

#[test]
fn a_takeover_needs_its_interface() {
    let mut machine = Takeover::new("wlan9");
    assert!(matches!(machine.step(Outcome::Done), Step::Do(Task::AwaitIface { .. })));
    assert!(failure(machine.step(Outcome::Answer(false))).contains("wlan9"));
}

#[test]
fn an_interface_without_a_name_is_not_made() {
    let mut machine = IfaceMaker::ensure_proxy_phone_ap_iface(" ", "wlan0");
    assert!(!failure(machine.step(Outcome::Done)).is_empty());
}

#[test]
fn a_phone_network_is_planned() {
    let plan = start_proxy_phone_ap("ap0", "net", "secretkey", "", 36).unwrap();
    assert!(plan.hostapd_conf.contains("ssid=net"));
    assert!(plan.hostapd_conf.contains("channel=36"));
    assert!(plan.hostapd_conf.contains("wpa_passphrase=secretkey"));
    assert!(plan.dnsmasq_conf.contains("dhcp-option=3,10.0.0.1"));
    assert!(plan.dnsmasq_conf.contains("interface=ap0"));
    assert!(matches!(
        start_proxy_phone_ap("ap0", "net", "short", "", 36),
        Err(e) if e == "proxy_ap phone AP WPA2 key must be empty/open or at least 8 characters"
    ));
    assert!(matches!(
        start_proxy_phone_ap("", "net", "", "", 36),
        Err(e) if e == "proxy_ap needs a non-empty AP interface"
    ));
    assert!(matches!(
        start_proxy_phone_ap("ap0", " ", "", "", 36),
        Err(e) if e == "proxy_ap needs a non-empty phone AP SSID"
    ));
}

#[test]
fn hardware_addresses_are_read() {
    assert_eq!(iface_mac_address("02:00:00:00:00:01\n").as_deref(), Some("02:00:00:00:00:01"));
    assert_eq!(iface_mac_address("\n"), None);
}

#[test]
fn join_controls_are_named() {
    assert!(parse_join_control("wpa_supplicant") == JoinControl::WpaSupplicant);
    assert!(parse_join_control(" NMCLI ") == JoinControl::Nmcli);
    assert!(parse_join_control("") == JoinControl::Auto);
    assert_eq!(read_network_id(" 3 \n"), "3");
    assert_eq!(beside_iface(" wlan0 ", " "), "wlan0");
    assert_eq!(beside_iface("wlan0", "ap0"), "ap0");
}

#[test]
fn a_fail_reply_is_a_failure() {
    assert_eq!(
        wpactrl_cmd("PING", Outcome::Found(Some("PONG\n".to_string()))).is_ok(),
        true
    );
    assert!(wpactrl_cmd("PING", Outcome::Found(Some("FAIL\n".to_string()))).is_err());
}

#[test]
fn a_secured_network_gets_its_key() {
    let plan = wpactrl_plan("0", &info("secret", false));
    assert!(plan.iter().any(|s| s.command.contains("psk")));
    let open = wpactrl_plan("0", &info("", false));
    assert!(!open.iter().any(|s| s.command.contains("psk")));
    let cli = wpa_cli_plan("0", &info("secret", false));
    assert!(cli.iter().any(|s| s.command.iter().any(|a| a == "psk")));
}

#[test]
fn a_supplicant_must_be_there() {
    let mut join = SupplicantJoin::new("wlan0", info("k", false));
    assert!(matches!(join.step(Outcome::Done), Step::Do(Task::CommandAvailable { .. })));
    assert!(matches!(join.step(Outcome::Answer(false)), Step::Fail(_)));
}

#[test]
fn joins_begin_with_what_they_need() {
    let mut ctrl = WpactrlJoin::new("wlan0", info("k", false));
    assert!(matches!(ctrl.step(Outcome::Done), Step::Do(Task::CommandAvailable { .. })));
    let mut cli = WpaCliJoin::new("wlan0", info("k", false));
    assert!(matches!(cli.step(Outcome::Done), Step::Do(Task::WpaCli { .. })));
}

fn run_join(join: &mut CarWifiJoin, mut reply: impl FnMut(&Task<String, Vec<String>>) -> TaskOutcome) -> WifiStep {
    let mut step = join.step(Outcome::Done);
    for _ in 0..200 {
        let outcome = match &step {
            Step::Do(task) => reply(task),
            _ => return step,
        };
        step = join.step(outcome);
    }
    panic!("the join ends");
}

#[test]
fn a_network_that_is_joined_is_used() {
    let mut join = CarWifiJoin::new("", false, "auto", "wlan0", false, "", info("k", false), 30000);
    let end = run_join(&mut join, |task| match task {
        Task::CurrentSsid { .. } => Outcome::Found(Some("Car \"Net\"".to_string())),
        Task::IfaceExists { .. } | Task::LinkConnected { .. } => Outcome::Answer(true),
        _ => Outcome::Done,
    });
    assert!(matches!(end, Step::Succeed(iface) if iface == "wlan0"));
}

#[test]
fn a_join_that_fails_everywhere_ends() {
    let mut join =
        CarWifiJoin::new("", true, "wpa_supplicant", "wlan0", false, "", info("k", false), 30000);
    let end = run_join(&mut join, |task| match task {
        Task::CurrentSsid { .. } => Outcome::Found(None),
        Task::Sleep { .. } | Task::Shell { .. } => Outcome::Done,
        _ => Outcome::Failed("no".to_string()),
    });
    assert!(matches!(end, Step::Fail(_)));
}

#[test]
fn ip_addresses_are_recognized() {
    assert_eq!(parse_ipv4("192.168.1.20"), Some([192, 168, 1, 20]));
    assert_eq!(parse_ipv4("256.1.1.1"), None);
    assert_eq!(parse_ipv4("01.1.1.1"), None);
    assert_eq!(parse_ipv4("1.1.1"), None);
    assert!(check_ipv6("fe80::1"));
    assert!(check_ipv6("::"));
    assert!(check_ipv6("::ffff:10.0.0.1"));
    assert!(!check_ipv6("1::2::3"));
    assert!(!check_ipv6("fe80::1%wlan0"));
    assert!(check_ip("10.0.0.1") && check_ip("::1") && !check_ip("host"));
}

#[test]
fn a_lan_is_shared_both_ways() {
    assert!(ipv4_likely_same_lan("192.168.43.5", "192.168.43.1"));
    assert!(ipv4_likely_same_lan("192.168.43.1", "192.168.43.5"));
    assert!(!ipv4_likely_same_lan("192.168.43.5", "8.8.8.8"));
    assert!(ipv4_likely_same_lan("nonsense", "192.168.43.1"));
}

#[test]
fn a_route_stays_on_its_lan() {
    let command = install_ipv4_host_route("192.168.43.1", "wlan0", "192.168.43.5").unwrap().unwrap();
    assert!(command.contains("192.168.43.1") && command.contains("wlan0"));
    assert!(install_ipv4_host_route("fe80::1", "wlan0", "192.168.43.5").map(|c| c.is_none()).unwrap_or(true));
    assert!(warm_car_side_route_for_hu("192.168.43.1", "wlan0").unwrap().contains("192.168.43.1"));
}

#[test]
fn the_hu_is_called_five_times_at_most() {
    let mut connect = HuConnect::new("192.168.43.1:5288");
    let mut calls = 0;
    let mut step = connect.step(Outcome::Done);
    loop {
        let outcome = match &step {
            Step::Do(Task::ConnectHu { .. }) => {
                calls += 1;
                Outcome::Failed("refused".to_string())
            }
            Step::Do(_) => Outcome::Done,
            _ => break,
        };
        step = connect.step(outcome);
    }
    assert_eq!(calls, 5);
    assert!(failure(step).contains("refused"));
}

#[test]
fn a_configured_address_is_taken() {
    let mut rewrite = RewriteIp::new("192.168.43.1", "wlan0", " 192.168.43.7 ");
    assert!(matches!(rewrite.step(Outcome::Done), Step::Succeed(ip) if ip == "192.168.43.7"));
}

#[test]
fn a_repair_looks_at_the_network_first() {
    let mut repair = RouteRepair::new("192.168.43.1", "wlan0", "Car", "192.168.43.5");
    assert!(matches!(repair.step(Outcome::Done), Step::Do(Task::CurrentSsid { .. })));
}
