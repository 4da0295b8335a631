//! What the appliance manager does, turn by turn: for every stage it can
//! stand at and every outcome it can be handed, the stage it moves to, the
//! status events it shows and the action it asks for; and what holds of
//! every turn.

use vstd::prelude::*;
use crate::api::RequestView;
use crate::clock::{Clock, NANOS_PER_SECOND};
use crate::config::{AppConfig, Service, Workload};
use crate::container::{InspectField, Program};
use crate::health::{Observation, PayloadStatus, Policy, Verdict};
use crate::manager::{
    Action, Cause, EventView, InitStep, Memory, MonitorStep, Next, Probe, RunMode, Stage,
    ADDRESS_PLACEHOLDER, MONITOR_PAUSE, SHORT_PAUSE,
};
use crate::retry::{backoff_spec, MAX_ATTEMPTS};
use crate::state::{reboot_countdown, State};
use crate::text::{decimal, parsed_u32, replaced, trimmed};

verus! {

/// One turn of the manager as a mathematical value: what it remembers
/// afterwards, and what it answers.
pub struct Turn {
    pub memory: Memory,
    pub message: Seq<char>,
    pub status: Seq<RequestView>,
    pub action: Action,
}

// What the manager says.

/// The status event that gives information.
pub open spec fn info(text: Seq<char>) -> RequestView {
    RequestView::Info { text }
}

/// The line of a countdown with `seconds` seconds left.
pub open spec fn countdown_text(text: Seq<char>, seconds: nat, next: Next) -> Seq<char> {
    match next {
        Next::Reboot(_) => text + "\n\nRestarting the system in "@ + decimal(seconds)
            + " seconds."@,
        _ => text + "\n\nRetrying in "@ + decimal(seconds) + " seconds."@,
    }
}

/// What a forced reboot is put down to.
pub open spec fn cause_text(cause: Cause) -> Seq<char> {
    match cause {
        Cause::InitFailed => "initialization failed repeatedly"@,
        Cause::MonitorFailed => "monitoring system failed"@,
        Cause::PayloadCrashed => "The container unexpectedly stopped"@,
        Cause::PayloadUnresponsive => "The container stopped responding"@,
    }
}

/// Position of a workload among those that are created.
pub open spec fn creation_index(workload: Workload) -> nat {
    match workload {
        Workload::Watchtower => 0,
        Workload::WatchtowerRunOnce => 1,
        Workload::Payload => 2,
    }
}

/// Position of a service among those that are started.
pub open spec fn start_index(service: Service) -> nat {
    match service {
        Service::Watchtower => 0,
        Service::Payload => 1,
    }
}

/// The percentage shown at item number `index` of `total`.
pub open spec fn progress_percent(index: nat, total: nat) -> u8
    recommends
        index < total,
{
    (index * 100 / total) as u8
}

/// The status event shown while the container of `workload` is created.
pub open spec fn creating_request(config: AppConfig, workload: Workload) -> RequestView {
    RequestView::ProgressInfo {
        text: "Downloading and creating container "@ + config.name_of(workload)
            + "\n\nPlease wait. This may take a while."@,
        percent: progress_percent(creation_index(workload), 3),
    }
}

/// The status event shown while the container of `service` is started.
pub open spec fn starting_request(config: AppConfig, service: Service) -> RequestView {
    RequestView::ProgressInfo {
        text: "Starting container "@ + config.name_of(service.workload()),
        percent: progress_percent(start_index(service), 2),
    }
}

/// The status event that clears the output of the last command.
pub open spec fn no_output() -> RequestView {
    RequestView::CommandOutput { text: Seq::empty() }
}

/// The ready message: the template with the machine's address in the
/// place of each placeholder.
pub open spec fn ready_text(config: AppConfig, address: Seq<char>) -> Seq<char> {
    replaced(config.payload_ready_message@, ADDRESS_PLACEHOLDER@, address)
}

/// What the supervision goes by in the configuration.
pub open spec fn policy_of(config: AppConfig) -> Policy {
    Policy {
        reboot_on_exit_error: config.reboot_on_payload_exit_error,
        reboot_on_unhealthy: config.reboot_on_payload_unhealthy,
        max_unhealthy_seconds: config.max_unhealthy_seconds,
    }
}

/// Seconds of waiting after a failed attempt, where `attempt` earlier ones
/// have failed: as the retry policy has it, and beyond its last attempt as
/// for that one.
pub open spec fn retry_delay(attempt: u32) -> u64 {
    if attempt < MAX_ATTEMPTS {
        backoff_spec(attempt as nat) as u64
    } else {
        backoff_spec((MAX_ATTEMPTS - 1) as nat) as u64
    }
}

/// The reading of the monotonic clock `seconds` seconds after `now`, or the
/// last reading there is.
pub open spec fn deadline_after(now: u64, seconds: u64) -> u64 {
    if now + seconds * NANOS_PER_SECOND > u64::MAX {
        u64::MAX
    } else {
        (now + seconds * NANOS_PER_SECOND) as u64
    }
}

/// Whole seconds from `now` to `deadline`; none where it has passed.
pub open spec fn seconds_left(deadline: u64, now: u64) -> nat {
    if deadline > now {
        ((deadline - now) / NANOS_PER_SECOND as int) as nat
    } else {
        0
    }
}

// The turns of the manager.

/// The manager moves to `stage` and answers with `status` and `action`.
pub open spec fn go(
    memory: Memory,
    message: Seq<char>,
    stage: Stage,
    status: Seq<RequestView>,
    action: Action,
) -> Turn {
    Turn { memory: Memory { stage, ..memory }, message, status, action }
}

/// The manager gives up.
pub open spec fn halt(memory: Memory, reason: Seq<char>) -> Turn {
    go(memory, reason, Stage::Halted, Seq::empty(), Action::Abort)
}

/// The manager was handed an outcome that the action it asked for cannot have.
pub open spec fn unexpected(memory: Memory) -> Turn {
    halt(memory, "unexpected event"@)
}

/// Whether `event` is the outcome of a probe that has succeeded. A probe
/// that ends in failure, one that cannot be run at all, and whatever else
/// comes in while the manager waits, all mean: not yet.
pub open spec fn probe_succeeded(event: EventView) -> bool {
    event matches EventView::Exited { success: true, .. }
}

/// The probe has not succeeded: the manager pauses before it probes again.
/// Nothing is shown, and the wait has no end but the probe's success.
pub open spec fn pause_probe(memory: Memory, message: Seq<char>, stage: Stage) -> Turn {
    go(memory, message, stage, Seq::empty(), Action::Sleep { seconds: SHORT_PAUSE })
}

/// The container runtime is probed; the first probe says what the manager
/// waits for.
pub open spec fn probe_docker(memory: Memory, message: Seq<char>, announce: bool) -> Turn {
    go(
        memory,
        message,
        Stage::WaitDocker(Probe::Running),
        if announce {
            seq![info("Waiting for Docker to be ready"@)]
        } else {
            Seq::empty()
        },
        Action::Run { program: Program::DockerVersion, mode: RunMode::Logged },
    )
}

/// The network is probed; the first probe says what the manager waits for.
pub open spec fn probe_network(memory: Memory, message: Seq<char>, announce: bool) -> Turn {
    go(
        memory,
        message,
        Stage::WaitNetwork(Probe::Running),
        if announce {
            seq![info("Waiting for internet connection"@)]
        } else {
            Seq::empty()
        },
        Action::Run { program: Program::Ping, mode: RunMode::Logged },
    )
}

/// An attempt of the initialization begins, after `attempt` failed ones.
pub open spec fn enter_init(memory: Memory, message: Seq<char>, attempt: u32) -> Turn {
    go(
        Memory { attempt, ..memory },
        message,
        Stage::Init(InitStep::ReadingState),
        seq![info("Loading appliance manager state"@)],
        Action::ReadState,
    )
}

/// The patch script is fetched, where the configuration names one; else
/// the creation of the containers begins.
pub open spec fn enter_patch(config: AppConfig, memory: Memory, message: Seq<char>) -> Turn {
    if config.patch_script_url is Some {
        go(
            memory,
            message,
            Stage::Init(InitStep::Downloading),
            seq![info("Downloading system patch file"@)],
            Action::DownloadPatch,
        )
    } else {
        inspect_for_create(memory, message, Seq::empty(), Workload::Watchtower)
    }
}

/// The patch is passed over.
pub open spec fn skip_patch(memory: Memory, message: Seq<char>, error: Seq<char>) -> Turn {
    go(
        memory,
        message,
        Stage::Init(InitStep::PatchPause),
        seq![
            RequestView::Warning {
                text: "Patching is skipped because it is unavailable or has an error. It will be retried later.\n\nError: "@
                    + error,
            },
        ],
        Action::Sleep { seconds: SHORT_PAUSE },
    )
}

/// The container runtime is asked whether the container of `workload` is
/// there.
pub open spec fn inspect_for_create(
    memory: Memory,
    message: Seq<char>,
    status: Seq<RequestView>,
    workload: Workload,
) -> Turn {
    go(
        memory,
        message,
        Stage::Init(InitStep::Inspecting(workload)),
        status,
        Action::Inspect { workload, field: InspectField::Status },
    )
}

/// The container of `workload` is there: on to the next one, or to the update.
pub open spec fn after_create(
    memory: Memory,
    message: Seq<char>,
    status: Seq<RequestView>,
    workload: Workload,
) -> Turn {
    match workload {
        Workload::Watchtower => inspect_for_create(
            memory,
            message,
            status,
            Workload::WatchtowerRunOnce,
        ),
        Workload::WatchtowerRunOnce => inspect_for_create(
            memory,
            message,
            status,
            Workload::Payload,
        ),
        Workload::Payload => go(
            memory,
            message,
            Stage::Init(InitStep::UpdateStarting),
            status.push(info("Updating containers\n\nPlease wait. This may take a while."@)),
            Action::Run {
                program: Program::DockerStart(Workload::WatchtowerRunOnce),
                mode: RunMode::Logged,
            },
        ),
    }
}

/// Whether a turn that ends at `stage` with `action` creates no container.
pub open spec fn creation_skipped(stage: Stage, action: Action) -> bool {
    &&& !(stage is Init && stage->Init_0 is Creating)
    &&& action is Run ==> !(action->program is Create)
}

/// The update is passed over.
pub open spec fn skip_update(memory: Memory, message: Seq<char>, error: Seq<char>) -> Turn {
    go(
        memory,
        message,
        Stage::Init(InitStep::UpdatePause),
        seq![RequestView::Warning { text: error }],
        Action::Sleep { seconds: SHORT_PAUSE },
    )
}

/// The start of the containers begins, with the script that goes before it.
pub open spec fn enter_start(memory: Memory, message: Seq<char>) -> Turn {
    go(
        memory,
        message,
        Stage::Init(InitStep::PreStarting),
        Seq::empty(),
        Action::Run { program: Program::PreStart, mode: RunMode::Logged },
    )
}

/// The container runtime is asked whether the container of `service` runs.
pub open spec fn inspect_for_start(memory: Memory, message: Seq<char>, service: Service) -> Turn {
    go(
        memory,
        message,
        Stage::Init(InitStep::StartInspecting(service)),
        Seq::empty(),
        Action::Inspect { workload: service.workload(), field: InspectField::Status },
    )
}

/// The container of `service` runs: on to the next one, or to the script
/// that follows the start.
pub open spec fn after_start(memory: Memory, message: Seq<char>, service: Service) -> Turn {
    match service {
        Service::Watchtower => inspect_for_start(memory, message, Service::Payload),
        Service::Payload => go(
            memory,
            message,
            Stage::Init(InitStep::PostStarting),
            Seq::empty(),
            Action::Run { program: Program::PostStart, mode: RunMode::Logged },
        ),
    }
}

/// A run of the supervision begins, after `attempt` failed ones.
pub open spec fn enter_monitor(
    memory: Memory,
    message: Seq<char>,
    status: Seq<RequestView>,
    attempt: u32,
) -> Turn {
    go(
        Memory { attempt, ..memory },
        message,
        Stage::Monitor(MonitorStep::RebootCheck),
        status,
        Action::Run { program: Program::RebootCheck, mode: RunMode::Traced },
    )
}

/// The supervision pauses before its next look.
pub open spec fn rest(memory: Memory, message: Seq<char>) -> Turn {
    go(
        memory,
        message,
        Stage::Monitor(MonitorStep::Sleeping),
        Seq::empty(),
        Action::Sleep { seconds: MONITOR_PAUSE },
    )
}

/// A countdown shows its first line, with all of its `seconds` left.
pub open spec fn show_countdown(
    memory: Memory,
    message: Seq<char>,
    seconds: u64,
    next: Next,
    now: Clock,
) -> Turn {
    go(
        Memory { deadline: deadline_after(now.monotonic, seconds), ..memory },
        message,
        Stage::Countdown(next),
        seq![RequestView::Error { text: countdown_text(message, seconds as nat, next) }],
        Action::Sleep { seconds: SHORT_PAUSE },
    )
}

/// A countdown of `seconds` seconds begins. One of no seconds shows
/// nothing and is over at once.
pub open spec fn start_countdown(
    memory: Memory,
    message: Seq<char>,
    seconds: u64,
    next: Next,
    now: Clock,
) -> Turn {
    if seconds == 0 {
        countdown_over(memory, message, next, now)
    } else {
        show_countdown(memory, message, seconds, next, now)
    }
}

/// An attempt of the initialization has failed.
pub open spec fn fail_init(memory: Memory, error: Seq<char>, now: Clock) -> Turn {
    start_countdown(
        memory,
        "A problem occurred during start up\n\n"@ + error,
        retry_delay(memory.attempt),
        Next::RetryInit,
        now,
    )
}

/// A run of the supervision has failed.
pub open spec fn fail_monitor(memory: Memory, now: Clock) -> Turn {
    start_countdown(
        memory,
        "A problem occurred\n\nchecking the containers failed"@,
        retry_delay(memory.attempt),
        Next::RetryMonitor,
        now,
    )
}

/// The way to a forced reboot begins: a countdown, long where the last
/// forced reboot was less than five minutes ago.
pub open spec fn escalate(memory: Memory, cause: Cause, now: Clock) -> Turn {
    show_countdown(
        memory,
        cause_text(cause),
        reboot_countdown(now.utc, memory.state.last_forced_reboot_at),
        Next::Reboot(cause),
        now,
    )
}

/// A countdown has ended.
pub open spec fn countdown_over(memory: Memory, message: Seq<char>, next: Next, now: Clock) -> Turn {
    match next {
        Next::RetryInit => if memory.attempt >= MAX_ATTEMPTS - 1 {
            escalate(memory, Cause::InitFailed, now)
        } else {
            enter_init(memory, message, (memory.attempt + 1) as u32)
        },
        Next::RetryMonitor => if memory.attempt >= MAX_ATTEMPTS - 1 {
            escalate(memory, Cause::MonitorFailed, now)
        } else {
            enter_monitor(memory, message, Seq::empty(), (memory.attempt + 1) as u32)
        },
        Next::Reboot(cause) => {
            let state = State { last_forced_reboot_at: now.utc, ..memory.state };
            go(
                Memory { state, ..memory },
                message,
                Stage::Saving(cause),
                Seq::empty(),
                Action::WriteState { state },
            )
        },
    }
}

/// The sleep between two lines of a countdown is over.
pub open spec fn tick(memory: Memory, message: Seq<char>, next: Next, now: Clock) -> Turn {
    if memory.deadline <= now.monotonic {
        countdown_over(memory, message, next, now)
    } else {
        go(
            memory,
            message,
            Stage::Countdown(next),
            seq![
                RequestView::Error {
                    text: countdown_text(
                        message,
                        seconds_left(memory.deadline, now.monotonic),
                        next,
                    ),
                },
            ],
            Action::Sleep { seconds: SHORT_PAUSE },
        )
    }
}

/// The reboot program has been started.
pub open spec fn after_forced_reboot(memory: Memory, message: Seq<char>, cause: Cause) -> Turn {
    match cause {
        Cause::InitFailed => enter_monitor(memory, message, Seq::empty(), 0),
        Cause::MonitorFailed => go(
            memory,
            message,
            Stage::Finished,
            Seq::empty(),
            Action::Finish,
        ),
        _ => rest(memory, message),
    }
}

/// The reboot program could not be started.
pub open spec fn forced_reboot_failed(
    memory: Memory,
    cause: Cause,
    reason: Seq<char>,
    now: Clock,
) -> Turn {
    match cause {
        Cause::InitFailed => halt(memory, reason),
        Cause::MonitorFailed => halt(memory, reason),
        _ => fail_monitor(memory, now),
    }
}

/// One turn of the initialization.
pub open spec fn init_turn(
    config: AppConfig,
    memory: Memory,
    message: Seq<char>,
    step: InitStep,
    now: Clock,
    event: EventView,
) -> Turn {
    match step {
        InitStep::ReadingState => match event {
            EventView::StateRead { state: Some(state) } => enter_patch(
                config,
                Memory { state, ..memory },
                message,
            ),
            EventView::StateRead { state: None } => go(
                memory,
                message,
                Stage::Init(InitStep::WritingState),
                Seq::empty(),
                Action::WriteState { state: memory.state },
            ),
            EventView::Failed { reason } => fail_init(
                memory,
                "loading system state failed: "@ + reason,
                now,
            ),
            _ => unexpected(memory),
        },
        InitStep::WritingState => match event {
            EventView::Done => enter_patch(config, memory, message),
            EventView::Failed { reason } => fail_init(
                memory,
                "loading system state failed: "@ + reason,
                now,
            ),
            _ => unexpected(memory),
        },
        InitStep::Downloading => match event {
            EventView::Done => go(
                memory,
                message,
                Stage::Init(InitStep::Patching),
                seq![info("Patching the system"@)],
                Action::Run { program: Program::Patch, mode: RunMode::Streamed },
            ),
            EventView::Failed { reason } => skip_patch(memory, message, reason),
            _ => unexpected(memory),
        },
        InitStep::Patching => match event {
            EventView::Exited { success, status } => if success {
                inspect_for_create(memory, message, seq![no_output()], Workload::Watchtower)
            } else {
                skip_patch(memory, message, "patch program exited with exit status "@ + status)
            },
            EventView::Failed { reason } => skip_patch(memory, message, reason),
            _ => unexpected(memory),
        },
        InitStep::PatchPause => match event {
            EventView::Done => inspect_for_create(
                memory,
                message,
                Seq::empty(),
                Workload::Watchtower,
            ),
            _ => unexpected(memory),
        },
        InitStep::Inspecting(workload) => match event {
            EventView::Output { text } => if trimmed(text).len() > 0 {
                after_create(memory, message, Seq::empty(), workload)
            } else {
                go(
                    memory,
                    message,
                    Stage::Init(InitStep::Creating(workload)),
                    seq![creating_request(config, workload)],
                    Action::Run { program: Program::Create(workload), mode: RunMode::Streamed },
                )
            },
            _ => unexpected(memory),
        },
        InitStep::Creating(workload) => match event {
            EventView::Exited { success, status } => if success {
                after_create(memory, message, seq![no_output()], workload)
            } else {
                fail_init(
                    memory,
                    "creating the containers failed: container creator program exited with status "@
                        + status,
                    now,
                )
            },
            EventView::Failed { reason } => fail_init(
                memory,
                "creating the containers failed: "@ + reason,
                now,
            ),
            _ => unexpected(memory),
        },
        InitStep::UpdateStarting => match event {
            EventView::Exited { success, .. } => go(
                memory,
                message,
                Stage::Init(InitStep::UpdateWaiting { started: success }),
                Seq::empty(),
                Action::Run {
                    program: Program::DockerWait(Workload::WatchtowerRunOnce),
                    mode: RunMode::Logged,
                },
            ),
            EventView::Failed { reason } => skip_update(
                memory,
                message,
                "updating the containers failed: "@ + reason,
            ),
            _ => unexpected(memory),
        },
        InitStep::UpdateWaiting { started } => match event {
            EventView::Exited { success, .. } => if started && success {
                enter_start(memory, message)
            } else {
                skip_update(
                    memory,
                    message,
                    "updating the containers failed: update container program exited with failure"@,
                )
            },
            EventView::Failed { reason } => skip_update(
                memory,
                message,
                "updating the containers failed: "@ + reason,
            ),
            _ => unexpected(memory),
        },
        InitStep::UpdatePause => match event {
            EventView::Done => enter_start(memory, message),
            _ => unexpected(memory),
        },
        InitStep::PreStarting => match event {
            EventView::Exited { success, status } => if success {
                inspect_for_start(memory, message, Service::Watchtower)
            } else {
                fail_init(
                    memory,
                    "starting the containers failed: pre start command exited with status "@
                        + status,
                    now,
                )
            },
            EventView::Failed { reason } => fail_init(
                memory,
                "starting the containers failed: "@ + reason,
                now,
            ),
            _ => unexpected(memory),
        },
        InitStep::StartInspecting(service) => match event {
            EventView::Output { text } => if trimmed(text) == "running"@ {
                after_start(memory, message, service)
            } else {
                go(
                    memory,
                    message,
                    Stage::Init(InitStep::Starting(service)),
                    seq![starting_request(config, service)],
                    Action::Run {
                        program: Program::DockerStart(service.workload()),
                        mode: RunMode::Logged,
                    },
                )
            },
            _ => unexpected(memory),
        },
        InitStep::Starting(service) => match event {
            EventView::Exited { success, status } => if success {
                after_start(memory, message, service)
            } else {
                fail_init(
                    memory,
                    "starting the containers failed: pre start command exited with status "@
                        + status,
                    now,
                )
            },
            EventView::Failed { reason } => fail_init(
                memory,
                "starting the containers failed: "@ + reason,
                now,
            ),
            _ => unexpected(memory),
        },
        InitStep::PostStarting => match event {
            EventView::Exited { success, status } => if success {
                go(
                    memory,
                    message,
                    Stage::Init(InitStep::WaitingReady),
                    seq![info("Waiting for payload to start"@)],
                    Action::Run { program: Program::WaitReady, mode: RunMode::Logged },
                )
            } else {
                fail_init(
                    memory,
                    "starting the containers failed: post start command exited with status "@
                        + status,
                    now,
                )
            },
            EventView::Failed { reason } => fail_init(
                memory,
                "starting the containers failed: "@ + reason,
                now,
            ),
            _ => unexpected(memory),
        },
        InitStep::WaitingReady => match event {
            EventView::Exited { success, status } => if success {
                go(
                    memory,
                    message,
                    Stage::Init(InitStep::QueryingAddress),
                    Seq::empty(),
                    Action::QueryAddress,
                )
            } else {
                fail_init(
                    memory,
                    "starting the web interface failed: wait for payload exited with status "@
                        + status,
                    now,
                )
            },
            EventView::Failed { reason } => fail_init(
                memory,
                "starting the web interface failed: "@ + reason,
                now,
            ),
            _ => unexpected(memory),
        },
        InitStep::QueryingAddress => match event {
            EventView::Address { text } => enter_monitor(
                memory,
                message,
                seq![RequestView::ReadyInfo { text: ready_text(config, text) }],
                0,
            ),
            _ => unexpected(memory),
        },
    }
}

/// The exit code that the container runtime printed; zero where it printed
/// no number.
pub open spec fn exit_code_in(text: Seq<char>) -> u32 {
    match parsed_u32(trimmed(text)) {
        Some(code) => code,
        None => 0,
    }
}

/// The supervision has had its look at the payload.
pub open spec fn judge(
    config: AppConfig,
    memory: Memory,
    message: Seq<char>,
    look: Observation,
    now: Clock,
) -> Turn {
    let seen = Memory {
        watch: memory.watch.after(look, policy_of(config), now.monotonic),
        ..memory
    };
    match memory.watch.verdict(look, policy_of(config), now.monotonic) {
        Verdict::Fine => rest(seen, message),
        Verdict::Crashed => escalate(seen, Cause::PayloadCrashed, now),
        Verdict::Unresponsive => escalate(seen, Cause::PayloadUnresponsive, now),
    }
}

/// One turn of the supervision.
pub open spec fn monitor_turn(
    config: AppConfig,
    memory: Memory,
    message: Seq<char>,
    step: MonitorStep,
    now: Clock,
    event: EventView,
) -> Turn {
    match step {
        MonitorStep::RebootCheck => match event {
            EventView::Exited { success, .. } => if success {
                go(
                    memory,
                    message,
                    Stage::Monitor(MonitorStep::Rebooting),
                    seq![info("The system is now rebooting as requested"@)],
                    Action::Run { program: Program::Reboot, mode: RunMode::Logged },
                )
            } else {
                go(
                    memory,
                    message,
                    Stage::Monitor(MonitorStep::PoweroffCheck),
                    Seq::empty(),
                    Action::Run { program: Program::PoweroffCheck, mode: RunMode::Traced },
                )
            },
            EventView::Failed { .. } => fail_monitor(memory, now),
            _ => unexpected(memory),
        },
        MonitorStep::PoweroffCheck => match event {
            EventView::Exited { success, .. } => if success {
                go(
                    memory,
                    message,
                    Stage::Monitor(MonitorStep::PoweringOff),
                    seq![info("The system is now powering off as requested"@)],
                    Action::Run { program: Program::Poweroff, mode: RunMode::Logged },
                )
            } else if memory.watch.payload_crashed {
                rest(memory, message)
            } else {
                go(
                    memory,
                    message,
                    Stage::Monitor(MonitorStep::Status),
                    Seq::empty(),
                    Action::Inspect { workload: Workload::Payload, field: InspectField::Status },
                )
            },
            EventView::Failed { .. } => fail_monitor(memory, now),
            _ => unexpected(memory),
        },
        MonitorStep::Status => match event {
            EventView::Output { text } => go(
                memory,
                message,
                Stage::Monitor(
                    MonitorStep::ExitCode { status: crate::health::status_of(trimmed(text)) },
                ),
                Seq::empty(),
                Action::Inspect { workload: Workload::Payload, field: InspectField::ExitCode },
            ),
            _ => unexpected(memory),
        },
        MonitorStep::ExitCode { status } => match event {
            EventView::Output { text } => go(
                memory,
                message,
                Stage::Monitor(MonitorStep::Health { status, exit_code: exit_code_in(text) }),
                Seq::empty(),
                Action::Inspect { workload: Workload::Payload, field: InspectField::Health },
            ),
            _ => unexpected(memory),
        },
        MonitorStep::Health { status, exit_code } => match event {
            EventView::Output { text } => judge(
                config,
                memory,
                message,
                Observation { status, exit_code, unhealthy: trimmed(text) == "unhealthy"@ },
                now,
            ),
            _ => unexpected(memory),
        },
        MonitorStep::Sleeping => match event {
            EventView::Done => enter_monitor(memory, message, Seq::empty(), memory.attempt),
            _ => unexpected(memory),
        },
        MonitorStep::Rebooting => match event {
            EventView::Exited { .. } => go(
                memory,
                message,
                Stage::Finished,
                Seq::empty(),
                Action::Finish,
            ),
            EventView::Failed { .. } => fail_monitor(memory, now),
            _ => unexpected(memory),
        },
        MonitorStep::PoweringOff => match event {
            EventView::Exited { .. } => go(
                memory,
                message,
                Stage::Finished,
                Seq::empty(),
                Action::Finish,
            ),
            EventView::Failed { .. } => fail_monitor(memory, now),
            _ => unexpected(memory),
        },
    }
}

/// One turn of the manager: what it remembers and answers after `event`,
/// the outcome of the action that it asked for last, has come in at `now`.
pub open spec fn turn(
    config: AppConfig,
    memory: Memory,
    message: Seq<char>,
    now: Clock,
    event: EventView,
) -> Turn {
    match memory.stage {
        Stage::Boot => probe_docker(memory, message, true),
        Stage::WaitDocker(Probe::Running) => if probe_succeeded(event) {
            probe_network(memory, message, true)
        } else {
            pause_probe(memory, message, Stage::WaitDocker(Probe::Sleeping))
        },
        Stage::WaitDocker(Probe::Sleeping) => probe_docker(memory, message, false),
        Stage::WaitNetwork(Probe::Running) => if probe_succeeded(event) {
            enter_init(memory, message, 0)
        } else {
            pause_probe(memory, message, Stage::WaitNetwork(Probe::Sleeping))
        },
        Stage::WaitNetwork(Probe::Sleeping) => probe_network(memory, message, false),
        Stage::Init(step) => init_turn(config, memory, message, step, now, event),
        Stage::Monitor(step) => monitor_turn(config, memory, message, step, now, event),
        Stage::Countdown(next) => match event {
            EventView::Done => tick(memory, message, next, now),
            _ => unexpected(memory),
        },
        Stage::Saving(cause) => match event {
            EventView::Done => go(
                memory,
                message,
                Stage::Rebooting(cause),
                Seq::empty(),
                Action::Run { program: Program::Reboot, mode: RunMode::Spawned },
            ),
            EventView::Failed { .. } => go(
                memory,
                message,
                Stage::Rebooting(cause),
                Seq::empty(),
                Action::Run { program: Program::Reboot, mode: RunMode::Spawned },
            ),
            _ => unexpected(memory),
        },
        Stage::Rebooting(cause) => match event {
            EventView::Done => after_forced_reboot(memory, message, cause),
            EventView::Failed { reason } => forced_reboot_failed(memory, cause, reason, now),
            _ => unexpected(memory),
        },
        Stage::Finished => go(memory, message, Stage::Finished, Seq::empty(), Action::Finish),
        Stage::Halted => go(memory, message, Stage::Halted, Seq::empty(), Action::Abort),
    }
}

// What holds of every turn.

/// Creation is idempotent. Where the container runtime prints a state for
/// the container of a workload, that container is there, and the turn
/// creates none: the manager goes on to the next workload or to the
/// update. Where it prints nothing, the turn runs the workload's creator.
pub proof fn lemma_existing_container_is_kept(
    config: AppConfig,
    memory: Memory,
    message: Seq<char>,
    now: Clock,
    workload: Workload,
    output: Seq<char>,
)
    requires
        memory.stage == Stage::Init(InitStep::Inspecting(workload)),
    ensures
        ({
            let next = turn(config, memory, message, now, EventView::Output { text: output });
            if trimmed(output).len() > 0 {
                creation_skipped(next.memory.stage, next.action)
            } else {
                &&& next.memory.stage == Stage::Init(InitStep::Creating(workload))
                &&& next.action == (Action::Run {
                    program: Program::Create(workload),
                    mode: RunMode::Streamed,
                })
            }
        }),
{
}

/// A program that creates a container is run only in answer to an empty
/// state of that container.
pub proof fn lemma_creation_follows_inspection(
    config: AppConfig,
    memory: Memory,
    message: Seq<char>,
    now: Clock,
    event: EventView,
    workload: Workload,
)
    requires
        turn(config, memory, message, now, event).action == (Action::Run {
            program: Program::Create(workload),
            mode: RunMode::Streamed,
        }),
    ensures
        memory.stage == Stage::Init(InitStep::Inspecting(workload)),
        event matches EventView::Output { text } && trimmed(text).len() == 0,
{
}

/// The wait for the container runtime has no end but the success of the
/// probe. Until then, whatever comes in, and be it that the probe cannot
/// be run at all, nothing is shown and nothing is done but to pause for
/// five seconds and probe again: the manager neither goes on nor gives up.
pub proof fn lemma_wait_for_docker_holds(
    config: AppConfig,
    memory: Memory,
    message: Seq<char>,
    now: Clock,
    event: EventView,
)
    requires
        memory.stage is WaitDocker,
    ensures
        ({
            let next = turn(config, memory, message, now, event);
            if memory.stage == Stage::WaitDocker(Probe::Running) && event is Exited
                && event->success {
                &&& next.memory.stage == Stage::WaitNetwork(Probe::Running)
                &&& next.status == seq![info("Waiting for internet connection"@)]
            } else {
                &&& next.status.len() == 0
                &&& next.message == message
                &&& next.memory == (Memory { stage: next.memory.stage, ..memory })
                &&& memory.stage == Stage::WaitDocker(Probe::Running) ==> next.memory.stage
                    == Stage::WaitDocker(Probe::Sleeping) && next.action == (Action::Sleep {
                    seconds: SHORT_PAUSE,
                })
                &&& memory.stage == Stage::WaitDocker(Probe::Sleeping) ==> next.memory.stage
                    == Stage::WaitDocker(Probe::Running) && next.action == (Action::Run {
                    program: Program::DockerVersion,
                    mode: RunMode::Logged,
                })
            }
        }),
{
}

/// The wait for the network has no end but the success of the probe. Until
/// then, whatever comes in, and be it that the probe cannot be run at all,
/// nothing is shown and nothing is done but to pause for five seconds and
/// probe again: the manager neither goes on nor gives up.
pub proof fn lemma_wait_for_network_holds(
    config: AppConfig,
    memory: Memory,
    message: Seq<char>,
    now: Clock,
    event: EventView,
)
    requires
        memory.stage is WaitNetwork,
    ensures
        ({
            let next = turn(config, memory, message, now, event);
            if memory.stage == Stage::WaitNetwork(Probe::Running) && event is Exited
                && event->success {
                &&& next.memory.stage == Stage::Init(InitStep::ReadingState)
                &&& next.memory.attempt == 0
            } else {
                &&& next.status.len() == 0
                &&& next.message == message
                &&& next.memory == (Memory { stage: next.memory.stage, ..memory })
                &&& memory.stage == Stage::WaitNetwork(Probe::Running) ==> next.memory.stage
                    == Stage::WaitNetwork(Probe::Sleeping) && next.action == (Action::Sleep {
                    seconds: SHORT_PAUSE,
                })
                &&& memory.stage == Stage::WaitNetwork(Probe::Sleeping) ==> next.memory.stage
                    == Stage::WaitNetwork(Probe::Running) && next.action == (Action::Run {
                    program: Program::Ping,
                    mode: RunMode::Logged,
                })
            }
        }),
{
}

/// The count of failed attempts stays below ten.
pub proof fn lemma_attempts_stay_in_range(
    config: AppConfig,
    memory: Memory,
    message: Seq<char>,
    now: Clock,
    event: EventView,
)
    requires
        memory.attempt < MAX_ATTEMPTS,
    ensures
        turn(config, memory, message, now, event).memory.attempt < MAX_ATTEMPTS,
{
}

/// The order of the start. A container that keeps running is started only
/// in answer to its state, where that is not `running`. The state of the
/// first is asked for only after the script that goes before the start has
/// succeeded, and that of the second only after the first has been dealt
/// with. That script is run only once the updater that runs once has come
/// to its end or has been passed over; the script that follows the start
/// only once the payload, the last of the containers, runs.
pub proof fn lemma_start_order(
    config: AppConfig,
    memory: Memory,
    message: Seq<char>,
    now: Clock,
    event: EventView,
    service: Service,
)
    ensures
        ({
            let next = turn(config, memory, message, now, event);
            &&& next.action == (Action::Run {
                program: Program::DockerStart(service.workload()),
                mode: RunMode::Logged,
            }) ==> memory.stage == Stage::Init(InitStep::StartInspecting(service)) && event
                is Output && trimmed(event->Output_text) != "running"@
            &&& next.memory.stage == Stage::Init(InitStep::StartInspecting(Service::Watchtower))
                ==> memory.stage == Stage::Init(InitStep::PreStarting) && event is Exited
                && event->success
            &&& next.memory.stage == Stage::Init(InitStep::StartInspecting(Service::Payload))
                ==> memory.stage == Stage::Init(InitStep::StartInspecting(Service::Watchtower))
                || memory.stage == Stage::Init(InitStep::Starting(Service::Watchtower))
            &&& next.memory.stage == Stage::Init(InitStep::PreStarting) ==> memory.stage
                == Stage::Init(InitStep::UpdatePause) || (memory.stage is Init
                && memory.stage->Init_0 is UpdateWaiting)
            &&& next.memory.stage == Stage::Init(InitStep::PostStarting) ==> memory.stage
                == Stage::Init(InitStep::StartInspecting(Service::Payload)) || memory.stage
                == Stage::Init(InitStep::Starting(Service::Payload))
        }),
{
}

/// A failed attempt of the initialization is followed by a countdown of one
/// minute, doubled for every earlier failure, and its first line shows
/// that many seconds.
pub proof fn lemma_init_failure_backs_off(memory: Memory, error: Seq<char>, now: Clock)
    requires
        memory.attempt < MAX_ATTEMPTS,
    ensures
        ({
            let next = fail_init(memory, error, now);
            let text = "A problem occurred during start up\n\n"@ + error;
            &&& next.memory.stage == Stage::Countdown(Next::RetryInit)
            &&& next.memory.attempt == memory.attempt
            &&& next.memory.deadline == deadline_after(
                now.monotonic,
                backoff_spec(memory.attempt as nat) as u64,
            )
            &&& next.message == text
            &&& next.status == seq![
                RequestView::Error {
                    text: text + "\n\nRetrying in "@ + decimal(backoff_spec(memory.attempt as nat))
                        + " seconds."@,
                },
            ]
            &&& next.action == (Action::Sleep { seconds: SHORT_PAUSE })
        }),
{
    crate::retry::lemma_backoff_sequence();
    reveal_with_fuel(crate::retry::pow2, 11);
}

/// The countdown before a forced reboot is the long one where the last
/// forced reboot lies less than five minutes back, and the short one
/// otherwise.
pub proof fn lemma_forced_reboot_countdown(memory: Memory, cause: Cause, now: Clock)
    ensures
        ({
            let next = escalate(memory, cause, now);
            let seconds: u64 = if now.utc.since(memory.state.last_forced_reboot_at) < 300
                * 1_000_000_000 {
                3600
            } else {
                300
            };
            &&& next.memory.stage == Stage::Countdown(Next::Reboot(cause))
            &&& next.memory.deadline == deadline_after(now.monotonic, seconds)
            &&& next.status == seq![
                RequestView::Error {
                    text: cause_text(cause) + "\n\nRestarting the system in "@ + decimal(
                        seconds as nat,
                    ) + " seconds."@,
                },
            ]
        }),
{
}

/// While a countdown runs, a line with the whole seconds that are left is
/// shown every five seconds, and nothing else happens.
pub proof fn lemma_countdown_runs(
    config: AppConfig,
    memory: Memory,
    message: Seq<char>,
    now: Clock,
    next: Next,
)
    requires
        memory.stage == Stage::Countdown(next),
        now.monotonic < memory.deadline,
    ensures
        turn(config, memory, message, now, EventView::Done) == (Turn {
            memory,
            message,
            status: seq![
                RequestView::Error {
                    text: countdown_text(
                        message,
                        ((memory.deadline - now.monotonic) / 1_000_000_000) as nat,
                        next,
                    ),
                },
            ],
            action: Action::Sleep { seconds: SHORT_PAUSE },
        }),
{
}

/// The turn that a manager takes on input number `at` of `inputs`, after it
/// has taken in those before it.
pub open spec fn turn_at(
    config: AppConfig,
    memory: Memory,
    message: Seq<char>,
    inputs: Seq<Input>,
    at: nat,
) -> Turn {
    let before = state_after(config, memory, message, inputs, at);
    turn(config, before.0, before.1, inputs[at as int].now, inputs[at as int].event)
}

/// A countdown from its first line to its end. For as long as the clock
/// reads less than the countdown's end, every pause that is over brings
/// one line and one more pause of five seconds, and nothing else: the line
/// is an error event, made of the text that is counted down for and of
/// the whole seconds that are left at that moment, and the manager stays
/// where it is. So the countdown is not over before its end, however many
/// pauses that takes.
pub proof fn lemma_countdown_counts_down(
    config: AppConfig,
    memory: Memory,
    message: Seq<char>,
    next: Next,
    inputs: Seq<Input>,
    at: nat,
)
    requires
        memory.stage == Stage::Countdown(next),
        at < inputs.len(),
        forall|i: int|
            0 <= i <= at ==> (#[trigger] inputs[i]).event is Done && inputs[i].now.monotonic
                < memory.deadline,
    ensures
        state_after(config, memory, message, inputs, at) == (memory, message),
        turn_at(config, memory, message, inputs, at) == (Turn {
            memory,
            message,
            status: seq![
                RequestView::Error {
                    text: countdown_text(
                        message,
                        seconds_left(memory.deadline, inputs[at as int].now.monotonic),
                        next,
                    ),
                },
            ],
            action: Action::Sleep { seconds: SHORT_PAUSE },
        }),
    decreases at,
{
    if at > 0 {
        lemma_countdown_counts_down(config, memory, message, next, inputs, (at - 1) as nat);
        assert(inputs[at - 1].event is Done);
        assert(state_after(config, memory, message, inputs, at) == (memory, message));
    }
    assert(inputs[at as int].event is Done);
    lemma_countdown_runs(config, memory, message, inputs[at as int].now, next);
}

/// The seconds that a countdown shows never grow, and from one line to
/// the next they shrink, where a second or more has passed between the
/// two; no line shows more seconds than the countdown has.
pub proof fn lemma_seconds_left_shrink(entry: u64, seconds: u64, earlier: u64, later: u64)
    requires
        entry <= earlier <= later,
        later < deadline_after(entry, seconds),
    ensures
        seconds_left(deadline_after(entry, seconds), later) <= seconds_left(
            deadline_after(entry, seconds),
            earlier,
        ) <= seconds,
        earlier + NANOS_PER_SECOND <= later ==> seconds_left(
            deadline_after(entry, seconds),
            later,
        ) < seconds_left(deadline_after(entry, seconds), earlier),
        seconds_left(deadline_after(entry, seconds), later) * NANOS_PER_SECOND
            <= deadline_after(entry, seconds) - later,
{
}

/// A phase is attempted ten times: the countdown after a failed attempt is
/// followed by the next attempt, and after the tenth by the way to a
/// forced reboot.
pub proof fn lemma_ten_attempts(
    config: AppConfig,
    memory: Memory,
    message: Seq<char>,
    now: Clock,
    next: Next,
)
    requires
        memory.stage == Stage::Countdown(next),
        next == Next::RetryInit || next == Next::RetryMonitor,
        memory.deadline <= now.monotonic,
    ensures
        ({
            let after = turn(config, memory, message, now, EventView::Done);
            let cause = if next == Next::RetryInit {
                Cause::InitFailed
            } else {
                Cause::MonitorFailed
            };
            if memory.attempt + 1 < MAX_ATTEMPTS {
                &&& after.memory.attempt == memory.attempt + 1
                &&& after.memory.stage == (if next == Next::RetryInit {
                    Stage::Init(InitStep::ReadingState)
                } else {
                    Stage::Monitor(MonitorStep::RebootCheck)
                })
            } else {
                after == escalate(memory, cause, now)
            }
        }),
{
}

/// The latch of the supervision is never cleared.
pub proof fn lemma_latch_is_kept(
    config: AppConfig,
    memory: Memory,
    message: Seq<char>,
    now: Clock,
    event: EventView,
)
    requires
        memory.watch.payload_crashed,
    ensures
        turn(config, memory, message, now, event).memory.watch.payload_crashed,
{
}

/// A forced reboot for the payload's condition begins only at the end of a
/// look at the payload, only while the latch is not set, and sets it. With
/// the latch never cleared, there is at most one such reboot while the
/// manager lives.
pub proof fn lemma_payload_reboot_is_latched(
    config: AppConfig,
    memory: Memory,
    message: Seq<char>,
    now: Clock,
    event: EventView,
    cause: Cause,
)
    requires
        cause == Cause::PayloadCrashed || cause == Cause::PayloadUnresponsive,
        memory.stage != Stage::Countdown(Next::Reboot(cause)),
        turn(config, memory, message, now, event).memory.stage == Stage::Countdown(
            Next::Reboot(cause),
        ),
    ensures
        memory.stage is Monitor,
        memory.stage->Monitor_0 is Health,
        !memory.watch.payload_crashed,
        turn(config, memory, message, now, event).memory.watch.payload_crashed,
{
}

/// The outcome of an action with the clocks' readings at which it comes in.
pub struct Input {
    pub now: Clock,
    pub event: EventView,
}

/// What a manager remembers, and the message it holds, after it has taken
/// the first `count` of `inputs` in.
pub open spec fn state_after(
    config: AppConfig,
    memory: Memory,
    message: Seq<char>,
    inputs: Seq<Input>,
    count: nat,
) -> (Memory, Seq<char>)
    decreases count,
{
    if count == 0 || count > inputs.len() {
        (memory, message)
    } else {
        let before = state_after(config, memory, message, inputs, (count - 1) as nat);
        let taken = turn(config, before.0, before.1, inputs[count - 1].now, inputs[count - 1].event);
        (taken.memory, taken.message)
    }
}

/// Whether the manager begins a forced reboot for the payload's condition
/// when it takes in input number `at` of `inputs`.
pub open spec fn payload_reboot_begins(
    config: AppConfig,
    memory: Memory,
    message: Seq<char>,
    inputs: Seq<Input>,
    at: nat,
) -> bool {
    let before = state_after(config, memory, message, inputs, at);
    let taken = turn(config, before.0, before.1, inputs[at as int].now, inputs[at as int].event);
    &&& taken.memory.stage != before.0.stage
    &&& taken.memory.stage == Stage::Countdown(Next::Reboot(Cause::PayloadCrashed))
        || taken.memory.stage == Stage::Countdown(Next::Reboot(Cause::PayloadUnresponsive))
}

/// Once the latch is set, it is set after every further input.
proof fn lemma_latch_stays(
    config: AppConfig,
    memory: Memory,
    message: Seq<char>,
    inputs: Seq<Input>,
    from: nat,
    count: nat,
)
    requires
        from <= count <= inputs.len(),
        state_after(config, memory, message, inputs, from).0.watch.payload_crashed,
    ensures
        state_after(config, memory, message, inputs, count).0.watch.payload_crashed,
    decreases count,
{
    if count > from {
        lemma_latch_stays(config, memory, message, inputs, from, (count - 1) as nat);
        let before = state_after(config, memory, message, inputs, (count - 1) as nat);
        lemma_latch_is_kept(
            config,
            before.0,
            before.1,
            inputs[count - 1].now,
            inputs[count - 1].event,
        );
    }
}

/// There is at most one forced reboot for the payload's condition while a
/// manager lives: whatever comes in, and in whatever order, the manager
/// that has begun one begins no other.
pub proof fn lemma_one_payload_reboot(
    config: AppConfig,
    memory: Memory,
    message: Seq<char>,
    inputs: Seq<Input>,
    first: nat,
    second: nat,
)
    requires
        first < second < inputs.len(),
        payload_reboot_begins(config, memory, message, inputs, first),
    ensures
        !payload_reboot_begins(config, memory, message, inputs, second),
{
    let before = state_after(config, memory, message, inputs, first);
    let taken = turn(config, before.0, before.1, inputs[first as int].now, inputs[first as int].event);
    let cause = if taken.memory.stage == Stage::Countdown(Next::Reboot(Cause::PayloadCrashed)) {
        Cause::PayloadCrashed
    } else {
        Cause::PayloadUnresponsive
    };
    lemma_payload_reboot_is_latched(
        config,
        before.0,
        before.1,
        inputs[first as int].now,
        inputs[first as int].event,
        cause,
    );
    assert(state_after(config, memory, message, inputs, first + 1).0 == taken.memory);
    lemma_latch_stays(config, memory, message, inputs, first + 1, second);
    if payload_reboot_begins(config, memory, message, inputs, second) {
        let later = state_after(config, memory, message, inputs, second);
        let again = turn(
            config,
            later.0,
            later.1,
            inputs[second as int].now,
            inputs[second as int].event,
        );
        let other = if again.memory.stage == Stage::Countdown(
            Next::Reboot(Cause::PayloadCrashed),
        ) {
            Cause::PayloadCrashed
        } else {
            Cause::PayloadUnresponsive
        };
        lemma_payload_reboot_is_latched(
            config,
            later.0,
            later.1,
            inputs[second as int].now,
            inputs[second as int].event,
            other,
        );
    }
}

/// What the supervision remembers changes only at the end of a look at the
/// payload: between two looks the clock of the health check neither starts
/// nor stops, and the latch is not touched.
pub proof fn lemma_watch_changes_only_at_a_look(
    config: AppConfig,
    memory: Memory,
    message: Seq<char>,
    now: Clock,
    event: EventView,
)
    requires
        !(memory.stage is Monitor && memory.stage->Monitor_0 is Health && event is Output),
    ensures
        turn(config, memory, message, now, event).memory.watch == memory.watch,
{
}

/// What the end of a look at the payload brings about is what the
/// supervision's verdict on that look says.
pub proof fn lemma_look_follows_verdict(
    config: AppConfig,
    memory: Memory,
    message: Seq<char>,
    now: Clock,
    status: PayloadStatus,
    exit_code: u32,
    health: Seq<char>,
)
    requires
        memory.stage == Stage::Monitor(MonitorStep::Health { status, exit_code }),
    ensures
        ({
            let look = Observation { status, exit_code, unhealthy: trimmed(health) == "unhealthy"@ };
            let verdict = memory.watch.verdict(look, policy_of(config), now.monotonic);
            let next = turn(config, memory, message, now, EventView::Output { text: health });
            &&& next.memory.watch == memory.watch.after(look, policy_of(config), now.monotonic)
            &&& verdict == Verdict::Fine ==> next.memory.stage == Stage::Monitor(
                MonitorStep::Sleeping,
            ) && next.action == (Action::Sleep { seconds: MONITOR_PAUSE })
            &&& verdict == Verdict::Crashed ==> next.memory.stage == Stage::Countdown(
                Next::Reboot(Cause::PayloadCrashed),
            )
            &&& verdict == Verdict::Unresponsive ==> next.memory.stage == Stage::Countdown(
                Next::Reboot(Cause::PayloadUnresponsive),
            )
            &&& (exit_code == 0 || exit_code >= 125) ==> next.memory.stage != Stage::Countdown(
                Next::Reboot(Cause::PayloadCrashed),
            )
        }),
{
}

/// The time of a forced reboot is written down before the reboot: when the
/// countdown has ended, the manager puts the time into the state and asks
/// for the state to be written, and it asks for the reboot only in answer
/// to the outcome of that writing.
pub proof fn lemma_state_is_written_before_reboot(
    config: AppConfig,
    memory: Memory,
    message: Seq<char>,
    now: Clock,
    event: EventView,
    cause: Cause,
)
    ensures
        memory.stage == Stage::Countdown(Next::Reboot(cause)) && event is Done && memory.deadline
            <= now.monotonic ==> ({
            let next = turn(config, memory, message, now, event);
            &&& next.memory.state == (State { last_forced_reboot_at: now.utc, ..memory.state })
            &&& next.action == (Action::WriteState { state: next.memory.state })
            &&& next.memory.stage == Stage::Saving(cause)
        }),
        turn(config, memory, message, now, event).action == (Action::Run {
            program: Program::Reboot,
            mode: RunMode::Spawned,
        }) ==> memory.stage is Saving && (event is Done || event is Failed),
        !(memory.stage is Countdown) ==> turn(config, memory, message, now, event).memory.state.last_forced_reboot_at
            == memory.state.last_forced_reboot_at || (memory.stage == Stage::Init(
            InitStep::ReadingState,
        ) && event is StateRead),
{
}

/// At its end and after giving up the manager stays where it is.
pub proof fn lemma_end_is_final(
    config: AppConfig,
    memory: Memory,
    message: Seq<char>,
    now: Clock,
    event: EventView,
)
    requires
        memory.stage == Stage::Finished || memory.stage == Stage::Halted,
    ensures
        turn(config, memory, message, now, event).memory == memory,
        turn(config, memory, message, now, event).message == message,
        turn(config, memory, message, now, event).status.len() == 0,
        turn(config, memory, message, now, event).action == (if memory.stage == Stage::Finished {
            Action::Finish
        } else {
            Action::Abort
        }),
{
}

} // verus!
