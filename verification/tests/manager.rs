use warrior4_appliance::api::Request;
use warrior4_appliance::clock::{Clock, Timestamp};
use warrior4_appliance::config::{AppConfig, Service, Workload};
use warrior4_appliance::container::{InspectField, Program};
use warrior4_appliance::health::{PayloadStatus, Watch};
use warrior4_appliance::manager::{
    Action, Cause, Event, InitStep, Manager, Memory, MonitorStep, Next, Probe, RunMode, Stage, Step,
};
use warrior4_appliance::state::State;

const START: i64 = 1_700_000_000;

fn config() -> AppConfig {
    AppConfig {
        log_path: "/var/log/warrior4-appliance.log".to_string(),
        state_path: "/var/lib/warrior4-appliance/state.json".to_string(),
        display_ipc_address: "127.0.0.1:40100".to_string(),
        patch_script_url: None,
        watchtower_name: "watchtower".to_string(),
        watchtower_creator: "/usr/lib/warrior4/create-watchtower".to_string(),
        watchtower_run_once_name: "watchtower-run-once".to_string(),
        watchtower_run_once_creator: "/usr/lib/warrior4/create-watchtower-run-once".to_string(),
        payload_name: "warrior".to_string(),
        payload_creator: "/usr/lib/warrior4/create-warrior".to_string(),
        payload_pre_start: "/usr/lib/warrior4/pre-start".to_string(),
        payload_post_start: "/usr/lib/warrior4/post-start".to_string(),
        payload_wait_ready: "/usr/lib/warrior4/wait-ready".to_string(),
        payload_reboot_check: "/usr/lib/warrior4/reboot-check".to_string(),
        payload_poweroff_check: "/usr/lib/warrior4/poweroff-check".to_string(),
        payload_ready_message: "Point your browser to http://{ETH0_IP_ADDRESS}:8001/".to_string(),
        reboot_on_payload_exit_error: true,
        reboot_on_payload_unhealthy: true,
        max_unhealthy_seconds: 900,
    }
}

fn state() -> State {
    State::fresh(7, Timestamp { secs: START - 86_400, nanos: 0 })
}

/// The clocks `seconds` seconds after the start.
fn at(seconds: u64) -> Clock {
    Clock {
        monotonic: seconds * 1_000_000_000,
        utc: Timestamp { secs: START + seconds as i64, nanos: 0 },
    }
}

fn manager() -> Manager {
    Manager::with_state(config(), state())
}

fn manager_at(stage: Stage) -> Manager {
    let mut manager = manager();
    manager.memory.stage = stage;
    manager
}

fn ok() -> Event {
    Event::Exited { success: true, status: "exit status: 0".to_string() }
}

fn failed(code: u32) -> Event {
    Event::Exited { success: false, status: format!("exit status: {code}") }
}

fn output(text: &str) -> Event {
    Event::Output { text: text.to_string() }
}

fn info(text: &str) -> Request {
    Request::Info { text: text.to_string() }
}

fn run(program: Program, mode: RunMode) -> Action {
    Action::Run { program, mode }
}

fn inspect(workload: Workload, field: InspectField) -> Action {
    Action::Inspect { workload, field }
}

fn quiet(action: Action) -> Step {
    Step { status: vec![], action }
}

fn saying(request: Request, action: Action) -> Step {
    Step { status: vec![request], action }
}

const SLEEP_SHORT: Action = Action::Sleep { seconds: 5 };
const SLEEP_LONG: Action = Action::Sleep { seconds: 10 };

#[test]
fn new_manager_stands_at_boot() {
    let manager = Manager::new(config());
    assert_eq!(manager.config, config());
    assert_eq!(manager.memory.stage, Stage::Boot);
    assert_eq!(manager.memory.attempt, 0);
    assert_eq!(manager.memory.watch, Watch { payload_crashed: false, unhealthy_since: None });
    assert_eq!(manager.memory.state.last_forced_reboot_at, Timestamp { secs: 0, nanos: 0 });
    assert_eq!(manager.message, "");
    assert!(!manager.is_done());
}

#[test]
fn docker_not_ready_twice_then_ready() {
    let mut manager = manager();
    let docker = run(Program::DockerVersion, RunMode::Logged);
    assert_eq!(
        manager.step(at(0), Event::Done),
        saying(info("Waiting for Docker to be ready"), docker)
    );
    assert_eq!(manager.step(at(1), failed(1)), quiet(SLEEP_SHORT));
    assert_eq!(manager.memory.stage, Stage::WaitDocker(Probe::Sleeping));
    assert_eq!(manager.step(at(6), Event::Done), quiet(docker));
    assert_eq!(manager.step(at(7), failed(1)), quiet(SLEEP_SHORT));
    assert_eq!(manager.step(at(12), Event::Done), quiet(docker));
    assert_eq!(manager.memory.stage, Stage::WaitDocker(Probe::Running));
    assert_eq!(
        manager.step(at(13), ok()),
        saying(info("Waiting for internet connection"), run(Program::Ping, RunMode::Logged))
    );
    assert_eq!(manager.memory.stage, Stage::WaitNetwork(Probe::Running));
}

#[test]
fn docker_that_cannot_be_run_is_waited_for() {
    let mut manager = manager_at(Stage::WaitDocker(Probe::Running));
    let docker = run(Program::DockerVersion, RunMode::Logged);
    for round in 0..100 {
        let missing = Event::Failed { reason: "No such file or directory".to_string() };
        assert_eq!(manager.step(at(10 * round), missing), quiet(SLEEP_SHORT));
        assert_eq!(manager.memory.stage, Stage::WaitDocker(Probe::Sleeping));
        assert_eq!(manager.step(at(10 * round + 5), Event::Done), quiet(docker));
        assert_eq!(manager.memory.stage, Stage::WaitDocker(Probe::Running));
        assert!(!manager.is_done());
        assert_eq!(manager.message, "");
    }
    assert_eq!(
        manager.step(at(1000), ok()),
        saying(info("Waiting for internet connection"), run(Program::Ping, RunMode::Logged))
    );
}

#[test]
fn network_probe_that_cannot_be_run_is_waited_for() {
    let mut manager = manager_at(Stage::WaitNetwork(Probe::Running));
    let ping = run(Program::Ping, RunMode::Logged);
    for round in 0..100 {
        let missing = Event::Failed { reason: "No such file or directory".to_string() };
        assert_eq!(manager.step(at(10 * round), missing), quiet(SLEEP_SHORT));
        assert_eq!(manager.memory.stage, Stage::WaitNetwork(Probe::Sleeping));
        assert_eq!(manager.step(at(10 * round + 5), Event::Done), quiet(ping));
        assert_eq!(manager.memory.stage, Stage::WaitNetwork(Probe::Running));
        assert!(!manager.is_done());
    }
    assert_eq!(
        manager.step(at(1000), ok()),
        saying(info("Loading appliance manager state"), Action::ReadState)
    );
}

#[test]
fn nothing_but_success_ends_a_wait() {
    let others = || {
        vec![
            Event::Done,
            failed(1),
            output("running"),
            Event::StateRead { state: None },
            Event::Address { text: "10.0.2.15".to_string() },
            Event::Failed { reason: "no".to_string() },
        ]
    };
    for event in others() {
        let mut manager = manager_at(Stage::WaitDocker(Probe::Running));
        assert_eq!(manager.step(at(0), event), quiet(SLEEP_SHORT));
        assert_eq!(manager.memory.stage, Stage::WaitDocker(Probe::Sleeping));
    }
    for event in others() {
        let mut manager = manager_at(Stage::WaitNetwork(Probe::Running));
        assert_eq!(manager.step(at(0), event), quiet(SLEEP_SHORT));
        assert_eq!(manager.memory.stage, Stage::WaitNetwork(Probe::Sleeping));
    }
    for event in others().into_iter().chain([ok()]) {
        let mut manager = manager_at(Stage::WaitDocker(Probe::Sleeping));
        assert_eq!(
            manager.step(at(0), event.clone()),
            quiet(run(Program::DockerVersion, RunMode::Logged))
        );
        let mut manager = manager_at(Stage::WaitNetwork(Probe::Sleeping));
        assert_eq!(manager.step(at(0), event), quiet(run(Program::Ping, RunMode::Logged)));
    }
}

#[test]
fn network_is_probed_every_five_seconds() {
    let mut manager = manager_at(Stage::WaitNetwork(Probe::Running));
    let ping = run(Program::Ping, RunMode::Logged);
    assert_eq!(manager.step(at(0), failed(2)), quiet(SLEEP_SHORT));
    assert_eq!(manager.step(at(5), Event::Done), quiet(ping));
    assert_eq!(
        manager.step(at(6), ok()),
        saying(info("Loading appliance manager state"), Action::ReadState)
    );
    assert_eq!(manager.memory.stage, Stage::Init(InitStep::ReadingState));
    assert_eq!(manager.memory.attempt, 0);
}

/// Drives a manager from the reading of the state to the start of the
/// supervision, with nothing there yet and everything succeeding.
fn initialize(manager: &mut Manager) -> Vec<Step> {
    let events = vec![
        Event::StateRead { state: None },
        Event::Done,
        output(""),
        ok(),
        output("\n"),
        ok(),
        output(""),
        ok(),
        ok(),
        ok(),
        ok(),
        output("created\n"),
        ok(),
        output("created\n"),
        ok(),
        ok(),
        ok(),
        Event::Address { text: "10.0.2.15".to_string() },
    ];
    events.into_iter().enumerate().map(|(i, event)| manager.step(at(i as u64), event)).collect()
}

#[test]
fn initialization_runs_its_steps_in_order() {
    let mut manager = manager_at(Stage::Init(InitStep::ReadingState));
    let steps = initialize(&mut manager);
    let progress = |text: &str, percent: u8| Request::ProgressInfo { text: text.to_string(), percent };
    let clear = Request::CommandOutput { text: String::new() };
    let expected = vec![
        quiet(Action::WriteState { state: state() }),
        quiet(inspect(Workload::Watchtower, InspectField::Status)),
        saying(
            progress(
                "Downloading and creating container watchtower\n\nPlease wait. This may take a while.",
                0,
            ),
            run(Program::Create(Workload::Watchtower), RunMode::Streamed),
        ),
        saying(clear.clone(), inspect(Workload::WatchtowerRunOnce, InspectField::Status)),
        saying(
            progress(
                "Downloading and creating container watchtower-run-once\n\nPlease wait. This may take a while.",
                33,
            ),
            run(Program::Create(Workload::WatchtowerRunOnce), RunMode::Streamed),
        ),
        saying(clear.clone(), inspect(Workload::Payload, InspectField::Status)),
        saying(
            progress(
                "Downloading and creating container warrior\n\nPlease wait. This may take a while.",
                66,
            ),
            run(Program::Create(Workload::Payload), RunMode::Streamed),
        ),
        Step {
            status: vec![
                clear,
                info("Updating containers\n\nPlease wait. This may take a while."),
            ],
            action: run(Program::DockerStart(Workload::WatchtowerRunOnce), RunMode::Logged),
        },
        quiet(run(Program::DockerWait(Workload::WatchtowerRunOnce), RunMode::Logged)),
        quiet(run(Program::PreStart, RunMode::Logged)),
        quiet(inspect(Workload::Watchtower, InspectField::Status)),
        saying(
            progress("Starting container watchtower", 0),
            run(Program::DockerStart(Workload::Watchtower), RunMode::Logged),
        ),
        quiet(inspect(Workload::Payload, InspectField::Status)),
        saying(
            progress("Starting container warrior", 50),
            run(Program::DockerStart(Workload::Payload), RunMode::Logged),
        ),
        quiet(run(Program::PostStart, RunMode::Logged)),
        saying(info("Waiting for payload to start"), run(Program::WaitReady, RunMode::Logged)),
        quiet(Action::QueryAddress),
        saying(
            Request::ReadyInfo { text: "Point your browser to http://10.0.2.15:8001/".to_string() },
            run(Program::RebootCheck, RunMode::Traced),
        ),
    ];
    assert_eq!(steps, expected);
    assert_eq!(manager.memory.stage, Stage::Monitor(MonitorStep::RebootCheck));
    assert_eq!(manager.memory.attempt, 0);
    assert_eq!(manager.memory.state, state());
}

#[test]
fn state_on_disk_replaces_the_new_one() {
    let mut manager = manager_at(Stage::Init(InitStep::ReadingState));
    let stored = State {
        instance_id: 99,
        created_at: Timestamp { secs: 5, nanos: 6 },
        last_forced_reboot_at: Timestamp { secs: 7, nanos: 8 },
    };
    let step = manager.step(at(0), Event::StateRead { state: Some(stored) });
    assert_eq!(step, quiet(inspect(Workload::Watchtower, InspectField::Status)));
    assert_eq!(manager.memory.state, stored);
}

#[test]
fn existing_containers_are_not_created_again() {
    for (workload, next) in [
        (Workload::Watchtower, Some(Workload::WatchtowerRunOnce)),
        (Workload::WatchtowerRunOnce, Some(Workload::Payload)),
        (Workload::Payload, None),
    ] {
        for status in ["created\n", "running\n", "exited\n", "paused", "x"] {
            let mut manager = manager_at(Stage::Init(InitStep::Inspecting(workload)));
            let step = manager.step(at(0), output(status));
            match next {
                Some(next) => {
                    assert_eq!(step, quiet(inspect(next, InspectField::Status)));
                    assert_eq!(manager.memory.stage, Stage::Init(InitStep::Inspecting(next)));
                }
                None => {
                    assert_eq!(
                        step,
                        saying(
                            info("Updating containers\n\nPlease wait. This may take a while."),
                            run(Program::DockerStart(Workload::WatchtowerRunOnce), RunMode::Logged)
                        )
                    );
                    assert_eq!(manager.memory.stage, Stage::Init(InitStep::UpdateStarting));
                }
            }
        }
    }
}

#[test]
fn running_containers_are_not_started_again() {
    let mut manager = manager_at(Stage::Init(InitStep::StartInspecting(Service::Watchtower)));
    assert_eq!(
        manager.step(at(0), output("running\n")),
        quiet(inspect(Workload::Payload, InspectField::Status))
    );
    assert_eq!(
        manager.step(at(1), output(" running ")),
        quiet(run(Program::PostStart, RunMode::Logged))
    );
}

#[test]
fn patch_is_downloaded_and_run_where_configured() {
    let mut manager = manager_at(Stage::Init(InitStep::ReadingState));
    manager.config.patch_script_url = Some("https://example.org/patch".to_string());
    assert_eq!(
        manager.step(at(0), Event::StateRead { state: Some(state()) }),
        saying(info("Downloading system patch file"), Action::DownloadPatch)
    );
    assert_eq!(
        manager.step(at(1), Event::Done),
        saying(info("Patching the system"), run(Program::Patch, RunMode::Streamed))
    );
    assert_eq!(
        manager.step(at(2), ok()),
        saying(
            Request::CommandOutput { text: String::new() },
            inspect(Workload::Watchtower, InspectField::Status)
        )
    );
}

#[test]
fn failed_patch_is_passed_over_after_a_pause() {
    let warning = |error: &str| Request::Warning {
        text: format!(
            "Patching is skipped because it is unavailable or has an error. It will be retried later.\n\nError: {error}"
        ),
    };
    let mut manager = manager_at(Stage::Init(InitStep::Downloading));
    assert_eq!(
        manager.step(at(0), Event::Failed { reason: "connection refused".to_string() }),
        saying(warning("connection refused"), SLEEP_SHORT)
    );
    assert_eq!(manager.memory.stage, Stage::Init(InitStep::PatchPause));
    assert_eq!(
        manager.step(at(5), Event::Done),
        quiet(inspect(Workload::Watchtower, InspectField::Status))
    );

    let mut manager = manager_at(Stage::Init(InitStep::Patching));
    assert_eq!(
        manager.step(at(0), failed(3)),
        saying(warning("patch program exited with exit status exit status: 3"), SLEEP_SHORT)
    );
    assert_eq!(manager.memory.attempt, 0);
}

#[test]
fn failed_update_is_passed_over_after_a_pause() {
    let warning = Request::Warning {
        text: "updating the containers failed: update container program exited with failure"
            .to_string(),
    };
    for (start, wait) in [(true, false), (false, true), (false, false)] {
        let mut manager = manager_at(Stage::Init(InitStep::UpdateStarting));
        let first = if start { ok() } else { failed(1) };
        let second = if wait { ok() } else { failed(1) };
        assert_eq!(
            manager.step(at(0), first),
            quiet(run(Program::DockerWait(Workload::WatchtowerRunOnce), RunMode::Logged))
        );
        assert_eq!(manager.step(at(1), second), saying(warning.clone(), SLEEP_SHORT));
        assert_eq!(manager.step(at(6), Event::Done), quiet(run(Program::PreStart, RunMode::Logged)));
    }
    let mut manager = manager_at(Stage::Init(InitStep::UpdateStarting));
    assert_eq!(
        manager.step(at(0), Event::Failed { reason: "no docker".to_string() }),
        saying(
            Request::Warning { text: "updating the containers failed: no docker".to_string() },
            SLEEP_SHORT
        )
    );
}

fn countdown(text: &str, seconds: u64, what: &str) -> Step {
    saying(
        Request::Error { text: format!("{text}\n\n{what} in {seconds} seconds.") },
        SLEEP_SHORT,
    )
}

#[test]
fn failed_start_is_retried_after_sixty_seconds() {
    let mut manager = manager_at(Stage::Init(InitStep::Starting(Service::Payload)));
    let text = "A problem occurred during start up\n\nstarting the containers failed: pre start command exited with status exit status: 125";
    assert_eq!(manager.step(at(100), failed(125)), countdown(text, 60, "Retrying"));
    assert_eq!(manager.memory.stage, Stage::Countdown(Next::RetryInit));
    assert_eq!(manager.memory.deadline, 160_000_000_000);
    assert_eq!(manager.message, text);
    let mut shown = vec![];
    let mut now = 100;
    loop {
        now += 5;
        let step = manager.step(at(now), Event::Done);
        if step.action != SLEEP_SHORT {
            assert_eq!(step, saying(info("Loading appliance manager state"), Action::ReadState));
            break;
        }
        shown.push(step);
    }
    let expected: Vec<Step> =
        (1..12).map(|i| countdown(text, 60 - 5 * i, "Retrying")).collect();
    assert_eq!(shown, expected);
    assert_eq!(now, 160);
    assert_eq!(manager.memory.stage, Stage::Init(InitStep::ReadingState));
    assert_eq!(manager.memory.attempt, 1);
}

#[test]
fn countdown_shows_whole_seconds_left() {
    let mut manager = manager_at(Stage::Countdown(Next::RetryMonitor));
    manager.memory.deadline = 60_000_000_000;
    manager.message = "m".to_string();
    let late = Clock { monotonic: 5_000_000_001, utc: Timestamp { secs: START + 5, nanos: 1 } };
    assert_eq!(manager.step(late, Event::Done), countdown("m", 54, "Retrying"));
    let last = Clock { monotonic: 59_999_999_999, utc: Timestamp { secs: START + 59, nanos: 0 } };
    assert_eq!(manager.step(last, Event::Done), countdown("m", 0, "Retrying"));
    assert_eq!(
        manager.step(at(60), Event::Done),
        quiet(run(Program::RebootCheck, RunMode::Traced))
    );
    assert_eq!(manager.memory.attempt, 1);
}

#[test]
fn hard_failures_of_the_initialization() {
    let cases: Vec<(InitStep, Event, &str)> = vec![
        (
            InitStep::ReadingState,
            Event::Failed { reason: "permission denied".to_string() },
            "loading system state failed: permission denied",
        ),
        (
            InitStep::WritingState,
            Event::Failed { reason: "disk full".to_string() },
            "loading system state failed: disk full",
        ),
        (
            InitStep::Creating(Workload::Payload),
            failed(1),
            "creating the containers failed: container creator program exited with status exit status: 1",
        ),
        (
            InitStep::Creating(Workload::Watchtower),
            Event::Failed { reason: "not found".to_string() },
            "creating the containers failed: not found",
        ),
        (
            InitStep::PreStarting,
            failed(2),
            "starting the containers failed: pre start command exited with status exit status: 2",
        ),
        (
            InitStep::PostStarting,
            failed(3),
            "starting the containers failed: post start command exited with status exit status: 3",
        ),
        (
            InitStep::Starting(Service::Watchtower),
            Event::Failed { reason: "not found".to_string() },
            "starting the containers failed: not found",
        ),
        (
            InitStep::WaitingReady,
            failed(4),
            "starting the web interface failed: wait for payload exited with status exit status: 4",
        ),
    ];
    for (step, event, error) in cases {
        let mut manager = manager_at(Stage::Init(step));
        let text = format!("A problem occurred during start up\n\n{error}");
        assert_eq!(manager.step(at(0), event), countdown(&text, 60, "Retrying"));
        assert_eq!(manager.memory.stage, Stage::Countdown(Next::RetryInit));
    }
}

#[test]
fn initialization_backs_off_ten_times_then_reboots() {
    let mut manager = manager_at(Stage::Init(InitStep::PreStarting));
    let mut now = 0;
    let mut delays = vec![];
    for attempt in 0..10 {
        assert_eq!(manager.memory.attempt, attempt);
        manager.memory.stage = Stage::Init(InitStep::PreStarting);
        let step = manager.step(at(now), failed(1));
        assert_eq!(step.action, SLEEP_SHORT);
        delays.push((manager.memory.deadline - at(now).monotonic) / 1_000_000_000);
        now += delays[attempt as usize];
        let step = manager.step(at(now), Event::Done);
        if attempt < 9 {
            assert_eq!(step, saying(info("Loading appliance manager state"), Action::ReadState));
        } else {
            assert_eq!(
                step,
                countdown("initialization failed repeatedly", 300, "Restarting the system")
            );
            assert_eq!(manager.memory.stage, Stage::Countdown(Next::Reboot(Cause::InitFailed)));
        }
    }
    assert_eq!(delays, vec![60, 120, 240, 480, 960, 1920, 3840, 7680, 15360, 30720]);
}

#[test]
fn forced_reboot_writes_the_state_before_it_reboots() {
    let mut manager = manager_at(Stage::Countdown(Next::Reboot(Cause::InitFailed)));
    manager.memory.deadline = at(300).monotonic;
    manager.message = "initialization failed repeatedly".to_string();
    assert_eq!(
        manager.step(at(295), Event::Done),
        countdown("initialization failed repeatedly", 5, "Restarting the system")
    );
    let written = State { last_forced_reboot_at: at(300).utc, ..state() };
    assert_eq!(manager.step(at(300), Event::Done), quiet(Action::WriteState { state: written }));
    assert_eq!(manager.memory.state, written);
    assert_eq!(manager.memory.stage, Stage::Saving(Cause::InitFailed));
    assert_eq!(
        manager.step(at(301), Event::Done),
        quiet(run(Program::Reboot, RunMode::Spawned))
    );
    assert_eq!(manager.memory.stage, Stage::Rebooting(Cause::InitFailed));
    assert_eq!(
        manager.step(at(302), Event::Done),
        quiet(run(Program::RebootCheck, RunMode::Traced))
    );
    assert_eq!(manager.memory.stage, Stage::Monitor(MonitorStep::RebootCheck));
    assert_eq!(manager.memory.attempt, 0);
}

#[test]
fn forced_reboot_goes_on_where_the_state_cannot_be_written() {
    let mut manager = manager_at(Stage::Saving(Cause::MonitorFailed));
    assert_eq!(
        manager.step(at(0), Event::Failed { reason: "read-only file system".to_string() }),
        quiet(run(Program::Reboot, RunMode::Spawned))
    );
    assert_eq!(manager.step(at(1), Event::Done), quiet(Action::Finish));
    assert_eq!(manager.memory.stage, Stage::Finished);
    assert!(manager.is_done());
    assert_eq!(manager.step(at(2), Event::Done), quiet(Action::Finish));
}

#[test]
fn reboot_that_cannot_be_started() {
    for cause in [Cause::InitFailed, Cause::MonitorFailed] {
        let mut manager = manager_at(Stage::Rebooting(cause));
        assert_eq!(
            manager.step(at(0), Event::Failed { reason: "no reboot".to_string() }),
            quiet(Action::Abort)
        );
        assert_eq!(manager.message, "no reboot");
    }
    for cause in [Cause::PayloadCrashed, Cause::PayloadUnresponsive] {
        let mut manager = manager_at(Stage::Rebooting(cause));
        assert_eq!(
            manager.step(at(0), Event::Failed { reason: "no reboot".to_string() }),
            countdown("A problem occurred\n\nchecking the containers failed", 60, "Retrying")
        );
        assert_eq!(manager.memory.stage, Stage::Countdown(Next::RetryMonitor));
    }
}

#[test]
fn reboot_loop_gets_the_long_countdown() {
    let last = Timestamp { secs: START, nanos: 0 };
    for (elapsed, nanos, seconds) in
        [(0, 0, 3600), (1, 0, 3600), (299, 999_999_999, 3600), (300, 0, 300), (301, 0, 300), (86_400, 0, 300)]
    {
        let mut manager = manager_at(Stage::Countdown(Next::RetryMonitor));
        manager.memory.state.last_forced_reboot_at = last;
        manager.memory.attempt = 9;
        let now = Clock {
            monotonic: 1_000_000_000_000,
            utc: Timestamp { secs: START + elapsed, nanos },
        };
        assert_eq!(
            manager.step(now, Event::Done),
            countdown("monitoring system failed", seconds, "Restarting the system")
        );
        assert_eq!(manager.memory.stage, Stage::Countdown(Next::Reboot(Cause::MonitorFailed)));
        assert_eq!(manager.memory.deadline, 1_000_000_000_000 + seconds * 1_000_000_000);
        assert_eq!(manager.memory.state.forced_reboot_countdown(&now.utc), seconds);
    }
    let never = manager().memory.state.forced_reboot_countdown(&at(0).utc);
    assert_eq!(never, 300);
    let backwards = State { last_forced_reboot_at: at(1000).utc, ..state() };
    assert_eq!(backwards.forced_reboot_countdown(&at(0).utc), 3600);
}

/// One look at the payload: the checks for reboot and power off fail, then
/// the three answers of the container runtime.
fn look(manager: &mut Manager, now: u64, status: &str, code: &str, health: &str) -> Step {
    assert_eq!(manager.memory.stage, Stage::Monitor(MonitorStep::RebootCheck));
    assert_eq!(
        manager.step(at(now), failed(1)),
        quiet(run(Program::PoweroffCheck, RunMode::Traced))
    );
    assert_eq!(
        manager.step(at(now), failed(1)),
        quiet(inspect(Workload::Payload, InspectField::Status))
    );
    assert_eq!(
        manager.step(at(now), output(status)),
        quiet(inspect(Workload::Payload, InspectField::ExitCode))
    );
    assert_eq!(
        manager.step(at(now), output(code)),
        quiet(inspect(Workload::Payload, InspectField::Health))
    );
    manager.step(at(now), output(health))
}

fn monitor() -> Manager {
    manager_at(Stage::Monitor(MonitorStep::RebootCheck))
}

#[test]
fn killed_payload_is_left_alone() {
    let mut manager = monitor();
    assert_eq!(look(&mut manager, 0, "exited\n", "137\n", "\n"), quiet(SLEEP_LONG));
    assert_eq!(manager.memory.stage, Stage::Monitor(MonitorStep::Sleeping));
    assert_eq!(manager.memory.watch, Watch { payload_crashed: false, unhealthy_since: None });
    assert_eq!(
        manager.step(at(10), Event::Done),
        quiet(run(Program::RebootCheck, RunMode::Traced))
    );
}

#[test]
fn exit_codes_that_do_not_count_as_a_crash() {
    for code in ["0", "125", "126", "127", "128", "137", "143", "255", "", "none", "-1"] {
        let mut manager = monitor();
        assert_eq!(look(&mut manager, 0, "exited", code, ""), quiet(SLEEP_LONG), "{code}");
        assert!(!manager.memory.watch.payload_crashed);
    }
    for status in ["running", "created", "restarting", "dead", ""] {
        let mut manager = monitor();
        assert_eq!(look(&mut manager, 0, status, "1", ""), quiet(SLEEP_LONG), "{status}");
        assert!(!manager.memory.watch.payload_crashed);
    }
}

#[test]
fn crashed_payload_brings_one_forced_reboot() {
    for code in ["1", "2", "64", "124"] {
        let mut manager = monitor();
        assert_eq!(
            look(&mut manager, 0, "exited\n", code, ""),
            countdown("The container unexpectedly stopped", 300, "Restarting the system")
        );
        assert!(manager.memory.watch.payload_crashed);
        assert_eq!(manager.memory.stage, Stage::Countdown(Next::Reboot(Cause::PayloadCrashed)));
        assert_eq!(manager.step(at(300), Event::Done).action, Action::WriteState {
            state: State { last_forced_reboot_at: at(300).utc, ..state() },
        });
        assert_eq!(
            manager.step(at(300), Event::Done),
            quiet(run(Program::Reboot, RunMode::Spawned))
        );
        assert_eq!(manager.step(at(300), Event::Done), quiet(SLEEP_LONG));
        // The latch is set: the payload is not even looked at any more.
        for round in 1..4 {
            assert_eq!(
                manager.step(at(300 + 10 * round), Event::Done),
                quiet(run(Program::RebootCheck, RunMode::Traced))
            );
            assert_eq!(
                manager.step(at(300 + 10 * round), failed(1)),
                quiet(run(Program::PoweroffCheck, RunMode::Traced))
            );
            assert_eq!(manager.step(at(300 + 10 * round), failed(1)), quiet(SLEEP_LONG));
        }
    }
}

#[test]
fn crash_is_passed_over_where_the_configuration_says_so() {
    let mut manager = monitor();
    manager.config.reboot_on_payload_exit_error = false;
    assert_eq!(look(&mut manager, 0, "exited", "1", ""), quiet(SLEEP_LONG));
    assert!(!manager.memory.watch.payload_crashed);
}

#[test]
fn unhealthy_payload_is_given_fifteen_minutes() {
    let mut manager = monitor();
    let mut now = 0;
    loop {
        let step = look(&mut manager, now, "running\n", "0\n", "unhealthy\n");
        if now <= 900 {
            assert_eq!(step, quiet(SLEEP_LONG), "{now}");
            assert_eq!(manager.memory.watch.unhealthy_since, Some(0));
            assert!(!manager.memory.watch.payload_crashed);
        } else {
            assert_eq!(
                step,
                countdown("The container stopped responding", 300, "Restarting the system")
            );
            assert_eq!(
                manager.memory.stage,
                Stage::Countdown(Next::Reboot(Cause::PayloadUnresponsive))
            );
            assert!(manager.memory.watch.payload_crashed);
            break;
        }
        now += 10;
        assert_eq!(
            manager.step(at(now), Event::Done),
            quiet(run(Program::RebootCheck, RunMode::Traced))
        );
    }
    assert_eq!(now, 910);
}

#[test]
fn one_healthy_look_starts_the_wait_anew() {
    let mut manager = monitor();
    let mut now = 0;
    let mut next = |manager: &mut Manager, now: &mut u64, health: &str| {
        let step = look(manager, *now, "running", "0", health);
        *now += 10;
        if step.action == SLEEP_LONG {
            manager.step(at(*now), Event::Done);
        }
        step
    };
    for _ in 0..90 {
        assert_eq!(next(&mut manager, &mut now, "unhealthy"), quiet(SLEEP_LONG));
    }
    assert_eq!(manager.memory.watch.unhealthy_since, Some(0));
    assert_eq!(next(&mut manager, &mut now, "healthy"), quiet(SLEEP_LONG));
    assert_eq!(manager.memory.watch.unhealthy_since, None);
    assert_eq!(now, 910);
    for _ in 0..91 {
        assert_eq!(next(&mut manager, &mut now, "unhealthy"), quiet(SLEEP_LONG));
        assert_eq!(manager.memory.watch.unhealthy_since, Some(at(910).monotonic));
    }
    assert_eq!(now, 1820);
    assert_eq!(
        next(&mut manager, &mut now, "unhealthy"),
        countdown("The container stopped responding", 300, "Restarting the system")
    );
}

#[test]
fn exited_payload_stops_the_unhealthy_clock() {
    let mut manager = monitor();
    assert_eq!(look(&mut manager, 0, "running", "0", "unhealthy"), quiet(SLEEP_LONG));
    assert_eq!(manager.memory.watch.unhealthy_since, Some(0));
    manager.step(at(10), Event::Done);
    assert_eq!(look(&mut manager, 10, "exited", "0", "unhealthy"), quiet(SLEEP_LONG));
    assert_eq!(manager.memory.watch.unhealthy_since, None);
}

#[test]
fn unhealthy_payload_is_passed_over_where_the_configuration_says_so() {
    let mut manager = monitor();
    manager.config.reboot_on_payload_unhealthy = false;
    manager.memory.watch.unhealthy_since = Some(0);
    assert_eq!(look(&mut manager, 10_000, "running", "0", "unhealthy"), quiet(SLEEP_LONG));
    assert!(!manager.memory.watch.payload_crashed);
}

#[test]
fn threshold_follows_the_configuration() {
    let mut manager = monitor();
    manager.config.max_unhealthy_seconds = 20;
    assert_eq!(look(&mut manager, 0, "running", "0", "unhealthy"), quiet(SLEEP_LONG));
    manager.step(at(20), Event::Done);
    assert_eq!(look(&mut manager, 20, "running", "0", "unhealthy"), quiet(SLEEP_LONG));
    manager.step(at(21), Event::Done);
    assert_eq!(
        look(&mut manager, 21, "running", "0", "unhealthy"),
        countdown("The container stopped responding", 300, "Restarting the system")
    );
}

#[test]
fn payload_asks_for_a_reboot() {
    let mut manager = monitor();
    assert_eq!(
        manager.step(at(0), ok()),
        saying(
            info("The system is now rebooting as requested"),
            run(Program::Reboot, RunMode::Logged)
        )
    );
    assert_eq!(manager.step(at(1), ok()), quiet(Action::Finish));
    assert!(manager.is_done());
}

#[test]
fn payload_asks_for_a_power_off() {
    let mut manager = monitor();
    manager.step(at(0), failed(1));
    assert_eq!(
        manager.step(at(0), ok()),
        saying(
            info("The system is now powering off as requested"),
            run(Program::Poweroff, RunMode::Logged)
        )
    );
    assert_eq!(manager.step(at(1), failed(1)), quiet(Action::Finish));
    assert_eq!(manager.memory.stage, Stage::Finished);
}

#[test]
fn failed_check_is_retried_with_backoff() {
    let text = "A problem occurred\n\nchecking the containers failed";
    let mut manager = monitor();
    manager.memory.attempt = 3;
    assert_eq!(
        manager.step(at(0), Event::Failed { reason: "not found".to_string() }),
        countdown(text, 480, "Retrying")
    );
    assert_eq!(manager.memory.stage, Stage::Countdown(Next::RetryMonitor));
    assert_eq!(
        manager.step(at(480), Event::Done),
        quiet(run(Program::RebootCheck, RunMode::Traced))
    );
    assert_eq!(manager.memory.attempt, 4);
}

#[test]
fn event_out_of_turn_ends_the_manager() {
    let stages = vec![
        (Stage::Init(InitStep::ReadingState), Event::Done),
        (Stage::Init(InitStep::Inspecting(Workload::Payload)), ok()),
        (Stage::Init(InitStep::QueryingAddress), output("10.0.2.15")),
        (Stage::Monitor(MonitorStep::Status), Event::Done),
        (Stage::Monitor(MonitorStep::Sleeping), output("")),
        (Stage::Countdown(Next::RetryInit), ok()),
        (Stage::Saving(Cause::InitFailed), ok()),
        (Stage::Rebooting(Cause::InitFailed), ok()),
    ];
    for (stage, event) in stages {
        let mut manager = manager_at(stage);
        assert_eq!(manager.step(at(0), event), quiet(Action::Abort));
        assert_eq!(manager.memory.stage, Stage::Halted);
        assert_eq!(manager.message, "unexpected event");
    }
}

#[test]
fn manager_that_has_given_up_stays_so() {
    let mut manager = manager_at(Stage::Rebooting(Cause::MonitorFailed));
    let step = manager.step(at(0), Event::Failed { reason: "No such file or directory".to_string() });
    assert_eq!(step, quiet(Action::Abort));
    assert_eq!(manager.memory.stage, Stage::Halted);
    assert_eq!(manager.message, "No such file or directory");
    assert!(manager.is_done());
    assert_eq!(manager.step(at(1), Event::Done), quiet(Action::Abort));
    assert_eq!(manager.message, "No such file or directory");
}

#[test]
fn deadline_stops_at_the_end_of_the_clock() {
    let mut manager = manager_at(Stage::Init(InitStep::PreStarting));
    let now = Clock { monotonic: u64::MAX - 5, utc: at(0).utc };
    manager.step(now, failed(1));
    assert_eq!(manager.memory.deadline, u64::MAX);
    assert_eq!(manager.memory, Memory {
        state: state(),
        watch: Watch { payload_crashed: false, unhealthy_since: None },
        stage: Stage::Countdown(Next::RetryInit),
        attempt: 0,
        deadline: u64::MAX,
    });
    let _ = PayloadStatus::Other;
}
