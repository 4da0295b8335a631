use warrior4_appliance::check::{
    fill_random_domain, format_random_domain, Report, TestResult,
};
use warrior4_appliance::clock::Timestamp;
use warrior4_appliance::config::{AppConfig, Workload};
use warrior4_appliance::container::{
    parse_container_exit_code, parse_container_finished_at, parse_container_status, InspectField,
    Program,
};
use warrior4_appliance::health::{
    classify_status, is_unhealthy_word, Observation, PayloadStatus, Policy, Verdict, Watch,
};
use warrior4_appliance::net::{get_eth0_ip_address, interface_addresses, Interface};
use warrior4_appliance::retry::backoff_seconds;
use warrior4_appliance::state::State;

fn config() -> AppConfig {
    AppConfig {
        log_path: "log".to_string(),
        state_path: "state".to_string(),
        display_ipc_address: "127.0.0.1:40100".to_string(),
        patch_script_url: None,
        watchtower_name: "watchtower".to_string(),
        watchtower_creator: "create-watchtower".to_string(),
        watchtower_run_once_name: "watchtower-run-once".to_string(),
        watchtower_run_once_creator: "create-watchtower-run-once".to_string(),
        payload_name: "warrior".to_string(),
        payload_creator: "create-warrior".to_string(),
        payload_pre_start: "pre-start".to_string(),
        payload_post_start: "post-start".to_string(),
        payload_wait_ready: "wait-ready".to_string(),
        payload_reboot_check: "reboot-check".to_string(),
        payload_poweroff_check: "poweroff-check".to_string(),
        payload_ready_message: "ready".to_string(),
        reboot_on_payload_exit_error: true,
        reboot_on_payload_unhealthy: true,
        max_unhealthy_seconds: 900,
    }
}

#[test]
fn backoff_doubles_from_one_minute() {
    let delays: Vec<u64> = (0..10).map(backoff_seconds).collect();
    assert_eq!(delays, vec![60, 120, 240, 480, 960, 1920, 3840, 7680, 15360, 30720]);
}

#[test]
fn new_state_has_a_random_identifier_and_no_forced_reboot() {
    let first = State::new();
    let second = State::new();
    assert_ne!(first.instance_id, second.instance_id);
    for state in [first, second] {
        let id = uuid::Uuid::from_u128(state.instance_id);
        assert_eq!(id.get_version_num(), 4);
        assert_eq!(state.instance_id >> 62 & 3, 2);
        assert_eq!(state.instance_id >> 76 & 15, 4);
        assert_eq!(state.last_forced_reboot_at, Timestamp { secs: 0, nanos: 0 });
        assert!(state.created_at.secs > 1_600_000_000);
        assert!(state.created_at.nanos < 1_000_000_000);
    }
}

#[test]
fn forced_reboot_is_noted_down() {
    let mut state = State::fresh(1, Timestamp { secs: 10, nanos: 0 });
    assert_eq!(state.last_forced_reboot_at, Timestamp::unix_epoch());
    state.record_forced_reboot(Timestamp { secs: 20, nanos: 5 });
    assert_eq!(
        state,
        State {
            instance_id: 1,
            created_at: Timestamp { secs: 10, nanos: 0 },
            last_forced_reboot_at: Timestamp { secs: 20, nanos: 5 },
        }
    );
}

#[test]
fn countdown_is_long_within_five_minutes_of_the_last_forced_reboot() {
    let state = State {
        instance_id: 1,
        created_at: Timestamp { secs: 0, nanos: 0 },
        last_forced_reboot_at: Timestamp { secs: 1000, nanos: 500 },
    };
    assert_eq!(state.forced_reboot_countdown(&Timestamp { secs: 1000, nanos: 500 }), 3600);
    assert_eq!(state.forced_reboot_countdown(&Timestamp { secs: 1300, nanos: 499 }), 3600);
    assert_eq!(state.forced_reboot_countdown(&Timestamp { secs: 1300, nanos: 500 }), 300);
    assert_eq!(state.forced_reboot_countdown(&Timestamp { secs: 1301, nanos: 0 }), 300);
    assert_eq!(state.forced_reboot_countdown(&Timestamp { secs: 0, nanos: 0 }), 3600);
    assert_eq!(state.forced_reboot_countdown(&Timestamp { secs: i64::MAX, nanos: u32::MAX }), 300);
    let far = State { last_forced_reboot_at: Timestamp { secs: i64::MAX, nanos: 0 }, ..state };
    assert_eq!(far.forced_reboot_countdown(&Timestamp { secs: i64::MIN, nanos: 0 }), 3600);
}

#[test]
fn within_seconds_of_is_exact_to_the_nanosecond() {
    let earlier = Timestamp { secs: 5, nanos: 999_999_999 };
    assert!(Timestamp { secs: 6, nanos: 999_999_998 }.within_seconds_of(&earlier, 1));
    assert!(!Timestamp { secs: 6, nanos: 999_999_999 }.within_seconds_of(&earlier, 1));
    assert!(!Timestamp { secs: 5, nanos: 999_999_999 }.within_seconds_of(&earlier, 0));
    assert!(Timestamp { secs: 5, nanos: 999_999_998 }.within_seconds_of(&earlier, 0));
}

#[test]
fn command_lines() {
    let config = config();
    let line = |program| config.command_line(program);
    assert_eq!(line(Program::DockerVersion), vec!["docker", "version"]);
    assert_eq!(line(Program::Ping), vec!["ping", "warriorhq.archiveteam.org", "-c", "1"]);
    assert_eq!(line(Program::Patch), vec!["/tmp/warrior4-appliance-patch"]);
    assert_eq!(line(Program::Create(Workload::Watchtower)), vec!["create-watchtower"]);
    assert_eq!(
        line(Program::Create(Workload::WatchtowerRunOnce)),
        vec!["create-watchtower-run-once"]
    );
    assert_eq!(line(Program::Create(Workload::Payload)), vec!["create-warrior"]);
    assert_eq!(
        line(Program::DockerStart(Workload::Payload)),
        vec!["docker", "start", "warrior"]
    );
    assert_eq!(
        line(Program::DockerWait(Workload::WatchtowerRunOnce)),
        vec!["docker", "wait", "watchtower-run-once"]
    );
    assert_eq!(
        line(Program::DockerInspect(Workload::Watchtower, InspectField::Status)),
        vec!["docker", "inspect", "--type=container", "--format", "{{.State.Status}}", "watchtower"]
    );
    assert_eq!(
        line(Program::DockerInspect(Workload::Payload, InspectField::ExitCode)),
        vec!["docker", "inspect", "--type=container", "--format", "{{.State.ExitCode}}", "warrior"]
    );
    assert_eq!(
        line(Program::DockerInspect(Workload::Payload, InspectField::FinishedAt)),
        vec!["docker", "inspect", "--type=container", "--format", "{{.State.FinishedAt}}", "warrior"]
    );
    assert_eq!(
        line(Program::DockerInspect(Workload::Payload, InspectField::Health)),
        vec![
            "docker",
            "inspect",
            "--type=container",
            "--format",
            "{{.State.Health.Status}}",
            "warrior"
        ]
    );
    assert_eq!(line(Program::PreStart), vec!["pre-start"]);
    assert_eq!(line(Program::PostStart), vec!["post-start"]);
    assert_eq!(line(Program::WaitReady), vec!["wait-ready"]);
    assert_eq!(line(Program::RebootCheck), vec!["reboot-check"]);
    assert_eq!(line(Program::PoweroffCheck), vec!["poweroff-check"]);
    assert_eq!(line(Program::Reboot), vec!["reboot"]);
    assert_eq!(line(Program::Poweroff), vec!["poweroff"]);
}

#[test]
fn workload_names_and_creators() {
    let config = config();
    assert_eq!(config.workload_name(Workload::Watchtower), "watchtower");
    assert_eq!(config.workload_name(Workload::WatchtowerRunOnce), "watchtower-run-once");
    assert_eq!(config.workload_name(Workload::Payload), "warrior");
    assert_eq!(config.workload_creator(Workload::Watchtower), "create-watchtower");
    assert_eq!(config.workload_creator(Workload::WatchtowerRunOnce), "create-watchtower-run-once");
    assert_eq!(config.workload_creator(Workload::Payload), "create-warrior");
}

#[test]
fn inspect_output_is_read_without_white_space() {
    assert_eq!(parse_container_status("running\n"), "running");
    assert_eq!(parse_container_status(""), "");
    assert_eq!(parse_container_status(" \n"), "");
    assert_eq!(parse_container_exit_code("137\n"), Some(137));
    assert_eq!(parse_container_exit_code("0"), Some(0));
    assert_eq!(parse_container_exit_code(""), None);
    assert_eq!(parse_container_exit_code("<no value>\n"), None);
    assert_eq!(parse_container_exit_code("-1\n"), None);
}

#[test]
fn finished_at_is_read_as_a_point_in_time() {
    assert_eq!(
        parse_container_finished_at("2023-11-14T22:13:20.000000005Z\n"),
        Some(Timestamp { secs: 1_700_000_000, nanos: 5 })
    );
    assert_eq!(
        parse_container_finished_at("2023-11-15T00:13:20+02:00"),
        Some(Timestamp { secs: 1_700_000_000, nanos: 0 })
    );
    assert_eq!(
        parse_container_finished_at("0001-01-01T00:00:00Z\n"),
        Some(Timestamp { secs: -62_135_596_800, nanos: 0 })
    );
    assert_eq!(parse_container_finished_at(""), None);
    assert_eq!(parse_container_finished_at("yesterday"), None);
}

#[test]
fn status_words() {
    assert_eq!(classify_status("exited"), PayloadStatus::Exited);
    assert_eq!(classify_status("running"), PayloadStatus::Running);
    for word in ["", "created", "paused", "restarting", "removing", "dead", "Exited", "exited "] {
        assert_eq!(classify_status(word), PayloadStatus::Other);
    }
    assert!(is_unhealthy_word("unhealthy"));
    for word in ["", "healthy", "starting", "none", "Unhealthy"] {
        assert!(!is_unhealthy_word(word));
    }
}

fn policy() -> Policy {
    Policy { reboot_on_exit_error: true, reboot_on_unhealthy: true, max_unhealthy_seconds: 900 }
}

fn exited(code: u32) -> Observation {
    Observation { status: PayloadStatus::Exited, exit_code: code, unhealthy: false }
}

fn running(unhealthy: bool) -> Observation {
    Observation { status: PayloadStatus::Running, exit_code: 0, unhealthy }
}

const SECOND: u64 = 1_000_000_000;

#[test]
fn exit_codes_of_the_payload_itself() {
    for code in 0..=300u32 {
        let error = (1..=124).contains(&code);
        assert_eq!(exited(code).check_payload_has_exited_error(), error, "{code}");
        let mut watch = Watch::new();
        let verdict = watch.check_payload_status(&exited(code), &policy(), 0);
        assert_eq!(verdict, if error { Verdict::Crashed } else { Verdict::Fine }, "{code}");
        assert_eq!(watch.payload_crashed, error);
        let look = Observation { status: PayloadStatus::Running, exit_code: code, unhealthy: false };
        assert!(!look.check_payload_has_exited_error());
        let look = Observation { status: PayloadStatus::Other, exit_code: code, unhealthy: false };
        assert!(!look.check_payload_has_exited_error());
    }
    assert!(!exited(u32::MAX).check_payload_has_exited_error());
}

#[test]
fn crash_fires_once() {
    let mut watch = Watch::new();
    assert_eq!(watch.check_payload_status(&exited(1), &policy(), 0), Verdict::Crashed);
    assert_eq!(watch, Watch { payload_crashed: true, unhealthy_since: None });
    for now in 1..5 {
        assert_eq!(watch.check_payload_status(&exited(1), &policy(), now), Verdict::Fine);
        assert_eq!(watch.check_payload_status(&running(true), &policy(), now), Verdict::Fine);
        assert_eq!(watch, Watch { payload_crashed: true, unhealthy_since: None });
    }
}

#[test]
fn unhealthy_clock_starts_runs_and_stops() {
    let mut watch = Watch::new();
    assert!(!watch.check_payload_is_unhealthy(&running(true), &policy(), 100 * SECOND));
    assert_eq!(watch.unhealthy_since, Some(100 * SECOND));
    assert!(!watch.check_payload_is_unhealthy(&running(true), &policy(), 1000 * SECOND));
    assert_eq!(watch.unhealthy_since, Some(100 * SECOND));
    assert!(watch.check_payload_is_unhealthy(&running(true), &policy(), 1000 * SECOND + 1));
    assert_eq!(watch.unhealthy_since, Some(100 * SECOND));
    assert!(!watch.check_payload_is_unhealthy(&running(false), &policy(), 2000 * SECOND));
    assert_eq!(watch.unhealthy_since, None);
    assert!(!watch.check_payload_is_unhealthy(&running(true), &policy(), 2000 * SECOND));
    assert_eq!(watch.unhealthy_since, Some(2000 * SECOND));
    let stopped = Observation { status: PayloadStatus::Exited, exit_code: 0, unhealthy: true };
    assert!(!watch.check_payload_is_unhealthy(&stopped, &policy(), 9000 * SECOND));
    assert_eq!(watch.unhealthy_since, None);
    assert!(!watch.payload_crashed);
}

#[test]
fn unhealthy_clock_with_odd_readings() {
    let mut watch = Watch { payload_crashed: false, unhealthy_since: Some(500) };
    assert!(!watch.check_payload_is_unhealthy(&running(true), &policy(), 100));
    let none = Policy { max_unhealthy_seconds: 0, ..policy() };
    assert!(!watch.check_payload_is_unhealthy(&running(true), &none, 500));
    assert!(watch.check_payload_is_unhealthy(&running(true), &none, 501));
    let forever = Policy { max_unhealthy_seconds: u64::MAX, ..policy() };
    assert!(!watch.check_payload_is_unhealthy(&running(true), &forever, u64::MAX));
}

#[test]
fn unresponsive_payload_fires_once() {
    let mut watch = Watch::new();
    assert_eq!(watch.check_payload_status(&running(true), &policy(), 0), Verdict::Fine);
    assert_eq!(watch.check_payload_status(&running(true), &policy(), 900 * SECOND), Verdict::Fine);
    assert_eq!(
        watch.check_payload_status(&running(true), &policy(), 901 * SECOND),
        Verdict::Unresponsive
    );
    assert!(watch.payload_crashed);
    assert_eq!(watch.check_payload_status(&running(true), &policy(), 2000 * SECOND), Verdict::Fine);
    assert_eq!(watch.check_payload_status(&exited(1), &policy(), 2000 * SECOND), Verdict::Fine);
}

#[test]
fn eth0_addresses_are_joined() {
    let interfaces = vec![
        Interface { name: "lo".to_string(), addresses: vec!["127.0.0.1".to_string()] },
        Interface { name: "eth0".to_string(), addresses: vec!["10.0.2.15".to_string()] },
        Interface { name: "eth1".to_string(), addresses: vec!["10.0.3.15".to_string()] },
        Interface {
            name: "eth0".to_string(),
            addresses: vec!["fe80::a00:27ff:fe4e:66a1".to_string(), "fd00::1".to_string()],
        },
        Interface { name: "eth0".to_string(), addresses: vec![] },
    ];
    assert_eq!(
        interface_addresses(&interfaces, "eth0"),
        "10.0.2.15, fe80::a00:27ff:fe4e:66a1, fd00::1"
    );
    assert_eq!(interface_addresses(&interfaces, "lo"), "127.0.0.1");
    assert_eq!(interface_addresses(&interfaces, "wlan0"), "");
    assert_eq!(interface_addresses(&vec![], "eth0"), "");
}

#[test]
fn eth0_address_of_this_machine_is_a_list_of_addresses() {
    let address = get_eth0_ip_address();
    if !address.is_empty() {
        for part in address.split(", ") {
            assert!(!part.is_empty(), "{address}");
            assert!(part.chars().all(|c| c.is_ascii_hexdigit() || c == '.' || c == ':'), "{part}");
        }
    }
}

#[test]
fn test_results() {
    assert!(TestResult::Pass.is_pass());
    assert!(!TestResult::Incomplete.is_pass());
    assert!(!TestResult::Fail("unexpected response".to_string()).is_pass());
    assert!(!TestResult::Error("timeout".to_string()).is_pass());
    assert_eq!(TestResult::default(), TestResult::Incomplete);
    assert_eq!(TestResult::Incomplete.to_text(), "incomplete");
    assert_eq!(TestResult::Pass.to_text(), "pass");
    assert_eq!(TestResult::Fail("unexpected response".to_string()).to_text(), "fail: unexpected response");
    assert_eq!(TestResult::Error("timeout".to_string()).to_text(), "error: timeout");
}

#[test]
fn report_passes_where_all_three_pass() {
    let report = Report::default();
    assert_eq!(report.nonexistent, TestResult::Incomplete);
    assert_eq!(report.cleartext, TestResult::Incomplete);
    assert_eq!(report.target, TestResult::Incomplete);
    assert!(!report.is_pass());
    let pass = || TestResult::Pass;
    assert!(Report { nonexistent: pass(), cleartext: pass(), target: pass() }.is_pass());
    let fail = || TestResult::Fail("x".to_string());
    assert!(!Report { nonexistent: fail(), cleartext: pass(), target: pass() }.is_pass());
    assert!(!Report { nonexistent: pass(), cleartext: fail(), target: pass() }.is_pass());
    assert!(!Report { nonexistent: pass(), cleartext: pass(), target: fail() }.is_pass());
}

#[test]
fn random_domain_fills_the_placeholder() {
    assert_eq!(
        fill_random_domain("http://{random}.example.org/", "abc"),
        "http://abc.example.org/"
    );
    let first = format_random_domain("http://{random}.invalid/");
    let second = format_random_domain("http://{random}.invalid/");
    assert_ne!(first, second);
    for address in [first, second] {
        let part = address.strip_prefix("http://").unwrap().strip_suffix(".invalid/").unwrap();
        assert_eq!(part.len(), 16);
        assert!(part.chars().all(|c| c.is_ascii_alphanumeric()));
    }
    assert_eq!(format_random_domain("http://example.org/"), "http://example.org/");
}
