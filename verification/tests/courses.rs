use aa_proxy::address::BtAddress;
use aa_proxy::pairing::{PairingWindow, WindowEnd, WindowEvent, WindowStep, WindowTask};
use aa_proxy::route::{RewriteIp, RouteRepair};
use aa_proxy::task::{Outcome, Step, Task, TaskOutcome, WifiStep, WifiTask};
use aa_proxy::wifi_iface::{ExternalAp, IfaceMaker};
use aa_proxy::wifi_join::{SupplicantJoin, WpactrlJoin};
use aa_proxy::wifi_text::CarWifiInfo;

fn info() -> CarWifiInfo {
    CarWifiInfo {
        ssid: "Car".to_string(),
        key: "secret".to_string(),
        bssid: String::new(),
        is_open: false,
        security_name: "WPA2_PERSONAL".to_string(),
        dynamic: false,
    }
}

fn run(
    mut next: impl FnMut(TaskOutcome) -> WifiStep,
    mut reply: impl FnMut(&WifiTask) -> TaskOutcome,
) -> (Vec<WifiTask>, Result<String, String>) {
    let mut tasks = Vec::new();
    let mut step = next(Outcome::Done);
    for _ in 0..500 {
        match step {
            Step::Do(task) => {
                let outcome = reply(&task);
                tasks.push(task);
                step = next(outcome);
            }
            Step::Succeed(text) => return (tasks, Ok(text)),
            Step::Fail(error) => return (tasks, Err(error)),
        }
    }
    panic!("the course ends");
}

#[test]
fn a_control_join_cleans_up_behind_a_failure() {
    let mut join = WpactrlJoin::new("wlan0", info());
    let (tasks, end) = run(
        |o| join.step(o),
        |task| match task {
            Task::CommandAvailable { .. } => Outcome::Answer(true),
            Task::AwaitCtrlSocket { .. } => Outcome::Failed("no socket".to_string()),
            _ => Outcome::Done,
        },
    );
    assert_eq!(end, Err("no socket".to_string()));
    let n = tasks.len();
    assert!(matches!(&tasks[n - 2], Task::Shell { label, .. } if label == "cleanup wpactrl wpa_supplicant"));
    assert!(matches!(&tasks[n - 1], Task::RemoveCtrlSockets { iface } if iface == "wlan0"));
}

#[test]
fn a_control_join_sends_its_plan() {
    let mut join = WpactrlJoin::new("wlan0", info());
    let (tasks, end) = run(
        |o| join.step(o),
        |task| match task {
            Task::CommandAvailable { .. } => Outcome::Answer(true),
            Task::AwaitCtrlSocket { .. } => Outcome::Found(Some("/run/x".to_string())),
            Task::CtrlCommand { command } if command == "PING" => {
                Outcome::Found(Some("PONG\n".to_string()))
            }
            Task::CtrlCommand { command } if command == "ADD_NETWORK" => {
                Outcome::Found(Some("0\n".to_string()))
            }
            Task::CtrlCommand { .. } => Outcome::Found(Some("OK\n".to_string())),
            _ => Outcome::Done,
        },
    );
    assert!(end.is_ok());
    let commands: Vec<&str> = tasks
        .iter()
        .filter_map(|t| match t {
            Task::CtrlCommand { command } => Some(command.as_str()),
            _ => None,
        })
        .collect();
    assert_eq!(
        commands,
        vec![
            "PING",
            "DISCONNECT",
            "REMOVE_NETWORK all",
            "ADD_NETWORK",
            "SET_NETWORK 0 ssid \"Car\"",
            "SET_NETWORK 0 key_mgmt WPA-PSK",
            "SET_NETWORK 0 psk \"secret\"",
            "ENABLE_NETWORK 0",
            "SELECT_NETWORK 0",
            "RECONNECT",
        ]
    );
}

#[test]
fn a_supplicant_join_waits_for_the_association() {
    let mut join = SupplicantJoin::new("wlan0", info());
    let mut looks = 0;
    let (_, end) = run(
        |o| join.step(o),
        |task| match task {
            Task::CommandAvailable { .. } | Task::IfaceExists { .. } => Outcome::Answer(true),
            Task::CurrentSsid { .. } => {
                looks += 1;
                Outcome::Found(if looks == 3 { Some("Car".to_string()) } else { None })
            }
            Task::LinkConnected { .. } => Outcome::Answer(false),
            Task::Udhcpc { .. } => Outcome::Answer(true),
            _ => Outcome::Done,
        },
    );
    assert_eq!(end, Ok("wlan0".to_string()));
    assert_eq!(looks, 3);
}

#[test]
fn an_interface_is_made_when_it_was_seen() {
    let mut maker = IfaceMaker::ensure_proxy_phone_ap_iface("ap0", "wlan0");
    let mut made = false;
    let (tasks, end) = run(
        |o| maker.step(o),
        |task| match task {
            Task::PhyCandidates { .. } => Outcome::List(vec!["phy0".to_string()]),
            Task::Shell { command, .. } => {
                if command.contains("interface add") {
                    made = true;
                }
                Outcome::Done
            }
            Task::IfaceExists { .. } | Task::AwaitIface { .. } => Outcome::Answer(made),
            _ => Outcome::Done,
        },
    );
    assert!(end.is_ok());
    assert!(tasks.iter().any(|t| matches!(t, Task::Shell { command, .. } if command.contains("phy0"))));
}

#[test]
fn an_interface_that_never_turns_up_fails() {
    let mut maker = IfaceMaker::ensure_proxy_phone_ap_iface("ap0", "wlan0");
    let (_, end) = run(
        |o| maker.step(o),
        |task| match task {
            Task::PhyCandidates { .. } => Outcome::List(vec!["phy0".to_string(), "phy1".to_string()]),
            Task::IfaceExists { .. } | Task::AwaitIface { .. } => Outcome::Answer(false),
            _ => Outcome::Done,
        },
    );
    assert!(end.is_err());
}

#[test]
fn an_address_is_found_by_the_route() {
    let mut rewrite = RewriteIp::new("192.168.43.1", "wlan0", "");
    let (_, end) = run(
        |o| rewrite.step(o),
        |task| match task {
            Task::RouteTo { .. } => Outcome::Found(Some(
                "192.168.43.1 dev wlan0 src 192.168.43.9 uid 0\n    cache\n".to_string(),
            )),
            _ => panic!("the route is enough"),
        },
    );
    assert_eq!(end, Ok("192.168.43.9".to_string()));
}

#[test]
fn an_address_of_another_network_is_passed_over() {
    let mut rewrite = RewriteIp::new("192.168.43.1", "wlan0", "");
    let (_, end) = run(
        |o| rewrite.step(o),
        |task| match task {
            Task::RouteTo { .. } => Outcome::Found(Some("x dev eth0 src 10.1.1.1".to_string())),
            Task::AddressesOf { .. } => Outcome::Found(Some(
                "inet 172.16.0.2/16 scope global\ninet 192.168.43.20/24 scope global".to_string(),
            )),
            _ => Outcome::Done,
        },
    );
    assert_eq!(end, Ok("192.168.43.20".to_string()));
}

#[test]
fn no_address_is_an_error() {
    let mut rewrite = RewriteIp::new("192.168.43.1", "wlan0", "");
    let (_, end) = run(|o| rewrite.step(o), |_| Outcome::Found(None));
    assert_eq!(
        end,
        Err("could not discover local rewrite IP; set bt_wireless_proxy_rewrite_ip".to_string())
    );
}

#[test]
fn a_route_is_repaired_from_the_address_of_the_interface() {
    let mut repair = RouteRepair::new("192.168.43.1", "wlan0", "Car", "192.168.43.5");
    let (tasks, end) = run(
        |o| repair.step(o),
        |task| match task {
            Task::CurrentSsid { .. } => Outcome::Found(Some("Car".to_string())),
            Task::IfaceIpv4 { .. } => Outcome::Found(Some("192.168.43.6".to_string())),
            _ => Outcome::Done,
        },
    );
    assert_eq!(end, Ok("192.168.43.6".to_string()));
    assert!(matches!(
        tasks.last(),
        Some(Task::InstallRoute { target, source, .. })
            if target == "192.168.43.1" && source == "192.168.43.6"
    ));
}

#[test]
fn an_address_that_cannot_reach_the_hu_is_refused() {
    let mut repair = RouteRepair::new("192.168.43.1", "wlan0", "Car", "");
    let (_, end) = run(
        |o| repair.step(o),
        |task| match task {
            Task::CurrentSsid { .. } => Outcome::Found(Some("Car".to_string())),
            Task::IfaceIpv4 { .. } => Outcome::Found(Some("10.0.0.6".to_string())),
            _ => Outcome::Done,
        },
    );
    assert!(end.unwrap_err().ends_with("refusing to continue"));
}

#[test]
fn a_second_access_point_takes_the_configured_channel() {
    let mut ap = ExternalAp::new("wlan1", "10.0.0.1", 11, 36);
    let (tasks, end) = run(
        |o| ap.step(o),
        |task| match task {
            Task::IfaceExists { .. } | Task::AwaitIfaceType { .. } => Outcome::Answer(true),
            Task::IfaceIpv4 { .. } => Outcome::Found(Some("10.0.0.1".to_string())),
            _ => Outcome::Done,
        },
    );
    assert!(end.is_ok());
    assert!(tasks.iter().any(|t| matches!(t, Task::StartPhoneAp { channel: 11, .. })));
}

fn device(paired: bool) -> WindowEvent {
    WindowEvent::Device { known: true, paired, trusted: false }
}

#[test]
fn a_window_pairs_with_the_head_unit() {
    let hu = BtAddress { b0: 0xaa, b1: 0xbb, b2: 0xcc, b3: 0xdd, b4: 0xee, b5: 0xff };
    let other = BtAddress { b0: 1, ..hu };
    let mut window = PairingWindow::new("AA:BB:CC:DD:EE:FF", 60, true, false, false).unwrap();
    let mut paired = false;
    let mut events = vec![WindowEvent::Discovered(hu), WindowEvent::Discovered(other)];
    let mut pairings = 0;
    let mut closed = false;
    let mut event = WindowEvent::Done;
    let end = loop {
        match window.step(event, 1000) {
            WindowStep::Do(task) => {
                event = match task {
                    WindowTask::DeviceState => device(paired),
                    WindowTask::NextEvent => events.pop().unwrap_or(WindowEvent::Done),
                    WindowTask::Pair(secs) => {
                        assert_eq!(secs, 45);
                        pairings += 1;
                        paired = true;
                        WindowEvent::Done
                    }
                    WindowTask::CleanUp { stay_open } => {
                        assert!(!stay_open);
                        closed = true;
                        WindowEvent::Done
                    }
                    _ => WindowEvent::Done,
                };
            }
            WindowStep::End(end) => break end,
        }
    };
    assert!(end == WindowEnd::Ready);
    assert_eq!(pairings, 1);
    assert!(closed);
}

#[test]
fn a_pairing_gets_what_was_left_before_the_wait() {
    let hu = BtAddress { b0: 0xaa, b1: 0xbb, b2: 0xcc, b3: 0xdd, b4: 0xee, b5: 0xff };
    let mut window = PairingWindow::new("AA:BB:CC:DD:EE:FF", 60, false, true, false).unwrap();
    let mut event = WindowEvent::Done;
    let mut elapsed = 30000;
    loop {
        match window.step(event, elapsed) {
            WindowStep::Do(WindowTask::DeviceState) => event = device(false),
            WindowStep::Do(WindowTask::NextEvent) => {
                elapsed += 999;
                event = WindowEvent::Discovered(hu);
            }
            WindowStep::Do(WindowTask::Pair(secs)) => {
                assert_eq!(secs, 30);
                return;
            }
            WindowStep::Do(_) => {
                event = WindowEvent::Done;
                elapsed = 30500;
            }
            WindowStep::End(_) => panic!("the head unit is there"),
        }
    }
}

#[test]
fn a_window_is_closed_when_the_time_is_up() {
    let mut window = PairingWindow::new("AA:BB:CC:DD:EE:FF", 10, false, false, true).unwrap();
    let mut event = WindowEvent::Done;
    let mut closed = false;
    let mut elapsed = 0;
    let end = loop {
        match window.step(event, elapsed) {
            WindowStep::Do(task) => {
                event = match task {
                    WindowTask::DeviceState => device(false),
                    WindowTask::StartDiscovery => WindowEvent::Failed,
                    WindowTask::Pause => {
                        elapsed += 1000;
                        WindowEvent::Done
                    }
                    WindowTask::CleanUp { stay_open } => {
                        assert!(stay_open);
                        closed = true;
                        WindowEvent::Done
                    }
                    _ => WindowEvent::Done,
                };
            }
            WindowStep::End(end) => break end,
        }
    };
    assert!(end == WindowEnd::TimedOut);
    assert!(closed);
    assert_eq!(elapsed, 10000);
    assert!(window.timeout_error("X").starts_with("timed out waiting 10s for HU X pairing"));
}

#[test]
fn a_step_that_fails_closes_the_window() {
    let mut window = PairingWindow::new("AA:BB:CC:DD:EE:FF", 10, false, false, false).unwrap();
    let mut event = WindowEvent::Done;
    let mut closed = false;
    let end = loop {
        match window.step(event, 0) {
            WindowStep::Do(task) => {
                event = match task {
                    WindowTask::DeviceState => device(false),
                    WindowTask::RegisterAgent => WindowEvent::Failed,
                    WindowTask::CleanUp { .. } => {
                        closed = true;
                        WindowEvent::Done
                    }
                    _ => WindowEvent::Done,
                };
            }
            WindowStep::End(end) => break end,
        }
    };
    assert!(end == WindowEnd::StepFailed);
    assert!(closed);
}
