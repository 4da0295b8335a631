//! The appliance manager: waits for the container runtime and the network,
//! creates and starts the containers, and then supervises the payload.
//!
//! The manager decides; it runs nothing itself. [`Manager::step`] takes the
//! outcome of the last action with the clocks' readings, and answers with
//! the status events to show and the next action to carry out. What a step
//! answers is laid down in the module `turn`.

use vstd::prelude::*;
use crate::api::{Request, RequestView};
use crate::clock::Clock;
use crate::config::{AppConfig, Service, Workload};
use crate::container::{InspectField, Program};
use crate::health::{Observation, PayloadStatus, Policy, Verdict, Watch};
use crate::retry::{backoff_seconds, MAX_ATTEMPTS};
use crate::state::State;
use crate::text::{decimal_text, replace_all, same_text, trimmed};
use crate::turn::{
    after_create, after_start, cause_text, countdown_over, countdown_text, creating_request,
    creation_skipped, deadline_after, enter_init, enter_monitor, enter_patch, enter_start,
    escalate, fail_init, fail_monitor, go, halt, info, inspect_for_create, inspect_for_start,
    no_output, pause_probe, policy_of, probe_succeeded, rest, retry_delay, show_countdown,
    skip_patch, skip_update, start_countdown, starting_request, turn, unexpected, Turn,
};

verus! {


/// Seconds between two probes of the container runtime or of the network,
/// between two lines of a countdown, and of pause after a step that was
/// passed over.
pub const SHORT_PAUSE: u64 = 5;

/// Seconds between two looks at the payload.
pub const MONITOR_PAUSE: u64 = 10;

/// What stands for the machine's address in the ready message.
pub const ADDRESS_PLACEHOLDER: &'static str = "{ETH0_IP_ADDRESS}";

/// How a program is run.
#[derive(Debug, Clone, Copy, PartialEq, Eq, Structural)]
pub enum RunMode {
    /// To its end, with its output logged.
    Logged,
    /// To its end, with its output logged at the lowest level only.
    Traced,
    /// To its end, with each piece of output shown as it comes.
    Streamed,
    /// Started and left to itself.
    Spawned,
}

/// What the manager asks to be carried out.
#[derive(Debug, Clone, Copy, PartialEq, Eq, Structural)]
pub enum Action {
    /// Run a program. Answered by `Exited`, by `Done` where it was only
    /// started, or by `Failed` where it could not be started.
    Run { program: Program, mode: RunMode },
    /// Ask the container runtime about a container. Answered by `Output`
    /// with what it printed, which is nothing where it could not be asked.
    Inspect { workload: Workload, field: InspectField },
    /// Do nothing for so many seconds. Answered by `Done`.
    Sleep { seconds: u64 },
    /// Read the persistent state. Answered by `StateRead`, or by `Failed`.
    ReadState,
    /// Write the persistent state durably. Answered by `Done` or `Failed`.
    WriteState { state: State },
    /// Fetch the patch script and make it executable. Answered by `Done`
    /// or `Failed`.
    DownloadPatch,
    /// Find the machine's address. Answered by `Address`.
    QueryAddress,
    /// Nothing more: the manager has come to its end.
    Finish,
    /// Nothing more: the manager has given up.
    Abort,
}

/// The outcome of an action.
#[derive(Debug, Clone, PartialEq, Eq)]
pub enum Event {
    /// The action was carried out.
    Done,
    /// The program ran to its end. `status` is its exit status in words.
    Exited { success: bool, status: String },
    /// What the container runtime printed.
    Output { text: String },
    /// The persistent state on disk, or `None` where there is none yet.
    StateRead { state: Option<State> },
    /// The machine's address.
    Address { text: String },
    /// The action could not be carried out.
    Failed { reason: String },
}

/// The outcome of an action as a mathematical value.
pub enum EventView {
    Done,
    Exited { success: bool, status: Seq<char> },
    Output { text: Seq<char> },
    StateRead { state: Option<State> },
    Address { text: Seq<char> },
    Failed { reason: Seq<char> },
}

impl View for Event {
    type V = EventView;

    open spec fn view(&self) -> EventView {
        match self {
            Event::Done => EventView::Done,
            Event::Exited { success, status } => EventView::Exited {
                success: *success,
                status: status@,
            },
            Event::Output { text } => EventView::Output { text: text@ },
            Event::StateRead { state } => EventView::StateRead { state: *state },
            Event::Address { text } => EventView::Address { text: text@ },
            Event::Failed { reason } => EventView::Failed { reason: reason@ },
        }
    }
}

/// Whether the manager probes or pauses.
#[derive(Debug, Clone, Copy, PartialEq, Eq, Structural)]
pub enum Probe {
    Running,
    Sleeping,
}

/// Where the initialization stands: what it waits for.
#[derive(Debug, Clone, Copy, PartialEq, Eq, Structural)]
pub enum InitStep {
    ReadingState,
    WritingState,
    Downloading,
    Patching,
    PatchPause,
    Inspecting(Workload),
    Creating(Workload),
    UpdateStarting,
    UpdateWaiting { started: bool },
    UpdatePause,
    PreStarting,
    StartInspecting(Service),
    Starting(Service),
    PostStarting,
    WaitingReady,
    QueryingAddress,
}

/// Where the supervision stands: what it waits for.
#[derive(Debug, Clone, Copy, PartialEq, Eq, Structural)]
pub enum MonitorStep {
    RebootCheck,
    PoweroffCheck,
    Status,
    ExitCode { status: PayloadStatus },
    Health { status: PayloadStatus, exit_code: u32 },
    Sleeping,
    Rebooting,
    PoweringOff,
}

/// Why the manager reboots the machine by force.
#[derive(Debug, Clone, Copy, PartialEq, Eq, Structural)]
pub enum Cause {
    InitFailed,
    MonitorFailed,
    PayloadCrashed,
    PayloadUnresponsive,
}

/// What follows a countdown.
#[derive(Debug, Clone, Copy, PartialEq, Eq, Structural)]
pub enum Next {
    RetryInit,
    RetryMonitor,
    Reboot(Cause),
}

/// Where the manager stands.
#[derive(Debug, Clone, Copy, PartialEq, Eq, Structural)]
pub enum Stage {
    /// Nothing has happened yet.
    Boot,
    /// Waiting for the container runtime, for as long as it takes.
    WaitDocker(Probe),
    /// Waiting for the network, for as long as it takes.
    WaitNetwork(Probe),
    /// Creating and starting the containers.
    Init(InitStep),
    /// Supervising the payload.
    Monitor(MonitorStep),
    /// Counting down, asleep between two lines.
    Countdown(Next),
    /// Before a forced reboot: writing down when it happens.
    Saving(Cause),
    /// At a forced reboot: starting the reboot program.
    Rebooting(Cause),
    /// At the end.
    Finished,
    /// Given up.
    Halted,
}

/// What the manager remembers from one step to the next, its texts apart.
#[derive(Debug, Clone, Copy, PartialEq, Eq, Structural)]
pub struct Memory {
    /// The persistent state.
    pub state: State,
    /// The supervision of the payload.
    pub watch: Watch,
    /// Where the manager stands.
    pub stage: Stage,
    /// Earlier attempts of the phase that have failed.
    pub attempt: u32,
    /// The reading of the monotonic clock at which the countdown ends.
    pub deadline: u64,
}

/// The appliance manager.
#[derive(Debug, Clone, PartialEq, Eq)]
pub struct Manager {
    pub config: AppConfig,
    pub memory: Memory,
    /// What the last failure was; a countdown shows it.
    pub message: String,
}

/// What the manager answers.
#[derive(Debug, Clone, PartialEq, Eq)]
pub struct Step {
    /// The status events to send to the display, in this order. A send that
    /// fails is passed over.
    pub status: Vec<Request>,
    /// What to carry out after that.
    pub action: Action,
}

/// The status events of `status` as mathematical values.
pub open spec fn requests_view(status: Seq<Request>) -> Seq<RequestView> {
    status.map_values(|request: Request| request@)
}

/// One turn as the manager works it out: a message only where it changes.
struct Outcome {
    memory: Memory,
    message: Option<String>,
    status: Vec<Request>,
    action: Action,
}

impl Outcome {
    /// The turn that this outcome makes of a manager with message `current`.
    spec fn turn(self, current: Seq<char>) -> Turn {
        Turn {
            memory: self.memory,
            message: match self.message {
                Some(message) => message@,
                None => current,
            },
            status: requests_view(self.status@),
            action: self.action,
        }
    }
}

fn join2(first: &str, second: &str) -> (text: String)
    ensures
        text@ == first@ + second@,
{
    let mut text = first.to_owned();
    text.append(second);
    text
}

fn no_status() -> (status: Vec<Request>)
    ensures
        requests_view(status@) == Seq::<RequestView>::empty(),
{
    let status: Vec<Request> = Vec::new();
    assert(requests_view(status@) =~= Seq::<RequestView>::empty());
    status
}

fn one_status(request: Request) -> (status: Vec<Request>)
    ensures
        requests_view(status@) == seq![request@],
{
    let mut status: Vec<Request> = Vec::new();
    status.push(request);
    assert(requests_view(status@) =~= seq![request@]);
    status
}

fn more_status(status: Vec<Request>, request: Request) -> (longer: Vec<Request>)
    ensures
        requests_view(longer@) == requests_view(status@).push(request@),
{
    let mut longer = status;
    longer.push(request);
    assert(requests_view(longer@) =~= requests_view(status@).push(request@));
    longer
}

fn info_request(text: &str) -> (request: Request)
    ensures
        request@ == info(text@),
{
    Request::Info { text: text.to_owned() }
}

fn no_output_request() -> (request: Request)
    ensures
        request@ == no_output(),
{
    Request::CommandOutput { text: String::new() }
}

fn creating(config: &AppConfig, workload: Workload) -> (request: Request)
    ensures
        request@ == creating_request(*config, workload),
{
    let percent: u8 = match workload {
        Workload::Watchtower => 0,
        Workload::WatchtowerRunOnce => 33,
        Workload::Payload => 66,
    };
    let mut text = join2(
        "Downloading and creating container ",
        config.workload_name(workload).as_str(),
    );
    text.append("\n\nPlease wait. This may take a while.");
    Request::ProgressInfo { text, percent }
}

fn starting(config: &AppConfig, service: Service) -> (request: Request)
    ensures
        request@ == starting_request(*config, service),
{
    let percent: u8 = match service {
        Service::Watchtower => 0,
        Service::Payload => 50,
    };
    Request::ProgressInfo {
        text: join2("Starting container ", config.workload_name(service.as_workload()).as_str()),
        percent,
    }
}

fn countdown_line(text: &str, seconds: u64, next: Next) -> (line: String)
    ensures
        line@ == countdown_text(text@, seconds as nat, next),
{
    let mut line = text.to_owned();
    match next {
        Next::Reboot(_) => {
            line.append("\n\nRestarting the system in ");
        },
        _ => {
            line.append("\n\nRetrying in ");
        },
    }
    line.append(decimal_text(seconds).as_str());
    line.append(" seconds.");
    line
}

fn cause_message(cause: Cause) -> (text: &'static str)
    ensures
        text@ == cause_text(cause),
{
    match cause {
        Cause::InitFailed => "initialization failed repeatedly",
        Cause::MonitorFailed => "monitoring system failed",
        Cause::PayloadCrashed => "The container unexpectedly stopped",
        Cause::PayloadUnresponsive => "The container stopped responding",
    }
}

fn policy(config: &AppConfig) -> (policy: Policy)
    ensures
        policy == policy_of(*config),
{
    Policy {
        reboot_on_exit_error: config.reboot_on_payload_exit_error,
        reboot_on_unhealthy: config.reboot_on_payload_unhealthy,
        max_unhealthy_seconds: config.max_unhealthy_seconds,
    }
}

fn delay_after(attempt: u32) -> (seconds: u64)
    ensures
        seconds == retry_delay(attempt),
{
    if attempt < MAX_ATTEMPTS {
        backoff_seconds(attempt)
    } else {
        backoff_seconds(MAX_ATTEMPTS - 1)
    }
}

fn deadline(now: u64, seconds: u64) -> (end: u64)
    ensures
        end == deadline_after(now, seconds),
{
    let sum: u128 = now as u128 + seconds as u128 * 1_000_000_000;
    if sum > 0xffff_ffff_ffff_ffff {
        0xffff_ffff_ffff_ffff
    } else {
        sum as u64
    }
}

fn step_to(memory: Memory, stage: Stage, status: Vec<Request>, action: Action) -> (out: Outcome)
    ensures
        forall|message: Seq<char>| #[trigger]
            out.turn(message) == go(memory, message, stage, requests_view(status@), action),
{
    Outcome { memory: Memory { stage, ..memory }, message: None, status, action }
}

fn give_up(memory: Memory, reason: String) -> (out: Outcome)
    ensures
        forall|message: Seq<char>| #[trigger] out.turn(message) == halt(memory, reason@),
{
    Outcome {
        memory: Memory { stage: Stage::Halted, ..memory },
        message: Some(reason),
        status: no_status(),
        action: Action::Abort,
    }
}

fn out_of_turn(memory: Memory) -> (out: Outcome)
    ensures
        forall|message: Seq<char>| #[trigger] out.turn(message) == unexpected(memory),
{
    give_up(memory, "unexpected event".to_owned())
}

fn has_succeeded(event: &Event) -> (succeeded: bool)
    ensures
        succeeded == probe_succeeded(event@),
{
    match event {
        Event::Exited { success, .. } => *success,
        _ => false,
    }
}

fn pause_before_probe(memory: Memory, stage: Stage) -> (out: Outcome)
    ensures
        forall|message: Seq<char>| #[trigger]
            out.turn(message) == pause_probe(memory, message, stage),
{
    step_to(memory, stage, no_status(), Action::Sleep { seconds: SHORT_PAUSE })
}

fn first_line(memory: Memory, message: String, seconds: u64, next: Next, now: Clock) -> (out:
    Outcome)
    ensures
        forall|current: Seq<char>| #[trigger]
            out.turn(current) == show_countdown(memory, message@, seconds, next, now),
{
    let line = countdown_line(message.as_str(), seconds, next);
    Outcome {
        memory: Memory {
            deadline: deadline(now.monotonic, seconds),
            stage: Stage::Countdown(next),
            ..memory
        },
        message: Some(message),
        status: one_status(Request::Error { text: line }),
        action: Action::Sleep { seconds: SHORT_PAUSE },
    }
}

/// Go on to what follows a countdown: the next attempt, the way to a
/// forced reboot after the last one, or the forced reboot itself, for
/// which the time is put into the state and the state is written first.
fn countdown_done(memory: Memory, next: Next, now: Clock) -> (out: Outcome)
    ensures
        forall|message: Seq<char>| #[trigger]
            out.turn(message) == countdown_over(memory, message, next, now),
{
    match next {
        Next::RetryInit => if memory.attempt >= MAX_ATTEMPTS - 1 {
            reboot_due_to_error(memory, Cause::InitFailed, now)
        } else {
            begin_init(memory, memory.attempt + 1)
        },
        Next::RetryMonitor => if memory.attempt >= MAX_ATTEMPTS - 1 {
            reboot_due_to_error(memory, Cause::MonitorFailed, now)
        } else {
            begin_monitor(memory, no_status(), memory.attempt + 1)
        },
        Next::Reboot(cause) => {
            let mut state = memory.state;
            state.record_forced_reboot(now.utc);
            step_to(
                Memory { state, ..memory },
                Stage::Saving(cause),
                no_status(),
                Action::WriteState { state },
            )
        },
    }
}

/// Begin a countdown with `message` as what is counted down for. One of
/// no seconds shows nothing and is over at once.
fn begin_countdown(memory: Memory, message: String, seconds: u64, next: Next, now: Clock) -> (out:
    Outcome)
    ensures
        forall|current: Seq<char>| #[trigger]
            out.turn(current) == start_countdown(memory, message@, seconds, next, now),
{
    if seconds == 0 {
        let over = countdown_done(memory, next, now);
        assert(over.turn(message@) == countdown_over(memory, message@, next, now));
        let kept = match over.message {
            Some(other) => other,
            None => message,
        };
        Outcome { memory: over.memory, message: Some(kept), status: over.status, action: over.action }
    } else {
        first_line(memory, message, seconds, next, now)
    }
}

impl Manager {
    /// The manager of a new appliance, before its first step.
    pub fn new(config: AppConfig) -> (manager: Manager)
        ensures
            manager.config == config,
            manager.memory == (Memory {
                state: manager.memory.state,
                watch: Watch::fresh(),
                stage: Stage::Boot,
                attempt: 0,
                deadline: 0,
            }),
            manager.memory.state.last_forced_reboot_at == crate::clock::Timestamp::epoch(),
            crate::state::is_random_id(manager.memory.state.instance_id),
            manager.message@ == Seq::<char>::empty(),
    {
        Manager::with_state(config, State::new())
    }

    /// The manager of an appliance with the given persistent state, before
    /// its first step.
    pub fn with_state(config: AppConfig, state: State) -> (manager: Manager)
        ensures
            manager.config == config,
            manager.memory == (Memory {
                state,
                watch: Watch::fresh(),
                stage: Stage::Boot,
                attempt: 0,
                deadline: 0,
            }),
            manager.message@ == Seq::<char>::empty(),
    {
        Manager {
            config,
            memory: Memory { state, watch: Watch::new(), stage: Stage::Boot, attempt: 0, deadline: 0 },
            message: String::new(),
        }
    }

    /// The turn that the manager takes on `event` at `now`.
    pub open spec fn next(self, now: Clock, event: EventView) -> Turn {
        turn(self.config, self.memory, self.message@, now, event)
    }

    /// Whether the manager has come to its end or given up.
    pub fn is_done(&self) -> (done: bool)
        ensures
            done == (self.memory.stage == Stage::Finished || self.memory.stage == Stage::Halted),
    {
        match self.memory.stage {
            Stage::Finished => true,
            Stage::Halted => true,
            _ => false,
        }
    }

    /// Wait for the Docker daemon to start: for as long as it takes. A
    /// probe that cannot be run counts as one that failed.
    fn wait_for_docker(&self, probe: Probe, now: Clock, event: Event) -> (out: Outcome)
        requires
            self.memory.stage == Stage::WaitDocker(probe),
        ensures
            out.turn(self.message@) == self.next(now, event@),
    {
        let memory = self.memory;
        match probe {
            Probe::Running => if has_succeeded(&event) {
                step_to(
                    memory,
                    Stage::WaitNetwork(Probe::Running),
                    one_status(info_request("Waiting for internet connection")),
                    Action::Run { program: Program::Ping, mode: RunMode::Logged },
                )
            } else {
                pause_before_probe(memory, Stage::WaitDocker(Probe::Sleeping))
            },
            Probe::Sleeping => step_to(
                memory,
                Stage::WaitDocker(Probe::Running),
                no_status(),
                Action::Run { program: Program::DockerVersion, mode: RunMode::Logged },
            ),
        }
    }

    /// Wait for an internet connection: for as long as it takes. A probe
    /// that cannot be run counts as one that failed.
    fn wait_for_internet_connection(&self, probe: Probe, now: Clock, event: Event) -> (out:
        Outcome)
        requires
            self.memory.stage == Stage::WaitNetwork(probe),
        ensures
            out.turn(self.message@) == self.next(now, event@),
    {
        let memory = self.memory;
        match probe {
            Probe::Running => if has_succeeded(&event) {
                begin_init(memory, 0)
            } else {
                pause_before_probe(memory, Stage::WaitNetwork(Probe::Sleeping))
            },
            Probe::Sleeping => step_to(
                memory,
                Stage::WaitNetwork(Probe::Running),
                no_status(),
                Action::Run { program: Program::Ping, mode: RunMode::Logged },
            ),
        }
    }

    /// Load application state from disk
    fn load_state(&self, step: InitStep, now: Clock, event: Event) -> (out: Outcome)
        requires
            self.memory.stage == Stage::Init(step),
            step == InitStep::ReadingState || step == InitStep::WritingState,
        ensures
            out.turn(self.message@) == self.next(now, event@),
    {
        let memory = self.memory;
        match event {
            Event::StateRead { state: Some(state) } => {
                if step == InitStep::ReadingState {
                    begin_patch(&self.config, Memory { state, ..memory })
                } else {
                    out_of_turn(memory)
                }
            },
            Event::StateRead { state: None } => {
                if step == InitStep::ReadingState {
                    step_to(
                        memory,
                        Stage::Init(InitStep::WritingState),
                        no_status(),
                        Action::WriteState { state: memory.state },
                    )
                } else {
                    out_of_turn(memory)
                }
            },
            Event::Done => {
                if step == InitStep::WritingState {
                    begin_patch(&self.config, memory)
                } else {
                    out_of_turn(memory)
                }
            },
            Event::Failed { reason } => init_failed(
                memory,
                join2("loading system state failed: ", reason.as_str()),
                now,
            ),
            _ => out_of_turn(memory),
        }
    }

    /// Download and execute a file that modifies the system
    fn patch_system(&self, step: InitStep, now: Clock, event: Event) -> (out: Outcome)
        requires
            self.memory.stage == Stage::Init(step),
            step == InitStep::Downloading || step == InitStep::Patching || step
                == InitStep::PatchPause,
        ensures
            out.turn(self.message@) == self.next(now, event@),
    {
        let memory = self.memory;
        match step {
            InitStep::Downloading => match event {
                Event::Done => step_to(
                    memory,
                    Stage::Init(InitStep::Patching),
                    one_status(info_request("Patching the system")),
                    Action::Run { program: Program::Patch, mode: RunMode::Streamed },
                ),
                Event::Failed { reason } => patch_skipped(memory, reason.as_str()),
                _ => out_of_turn(memory),
            },
            InitStep::Patching => match event {
                Event::Exited { success, status } => if success {
                    look_for(memory, one_status(no_output_request()), Workload::Watchtower)
                } else {
                    patch_skipped(
                        memory,
                        join2("patch program exited with exit status ", status.as_str()).as_str(),
                    )
                },
                Event::Failed { reason } => patch_skipped(memory, reason.as_str()),
                _ => out_of_turn(memory),
            },
            _ => match event {
                Event::Done => look_for(memory, no_status(), Workload::Watchtower),
                _ => out_of_turn(memory),
            },
        }
    }

    /// Create all the Docker containers (but do not start them). A
    /// container that is there already is left as it is.
    fn create_containers(&self, step: InitStep, now: Clock, event: Event) -> (out: Outcome)
        requires
            self.memory.stage == Stage::Init(step),
            step is Inspecting || step is Creating,
        ensures
            out.turn(self.message@) == self.next(now, event@),
            step is Inspecting && event@ is Output && trimmed(event@->Output_text).len() > 0
                ==> creation_skipped(out.memory.stage, out.action),
    {
        let memory = self.memory;
        match step {
            InitStep::Inspecting(workload) => match event {
                Event::Output { text } => {
                    let status = crate::container::parse_container_status(text.as_str());
                    if !status.as_str().is_empty() {
                        created(memory, no_status(), workload)
                    } else {
                        step_to(
                            memory,
                            Stage::Init(InitStep::Creating(workload)),
                            one_status(creating(&self.config, workload)),
                            Action::Run {
                                program: Program::Create(workload),
                                mode: RunMode::Streamed,
                            },
                        )
                    }
                },
                _ => out_of_turn(memory),
            },
            InitStep::Creating(workload) => match event {
                Event::Exited { success, status } => if success {
                    created(memory, one_status(no_output_request()), workload)
                } else {
                    init_failed(
                        memory,
                        join2(
                            "creating the containers failed: container creator program exited with status ",
                            status.as_str(),
                        ),
                        now,
                    )
                },
                Event::Failed { reason } => init_failed(
                    memory,
                    join2("creating the containers failed: ", reason.as_str()),
                    now,
                ),
                _ => out_of_turn(memory),
            },
            _ => out_of_turn(memory),
        }
    }

    /// Start the Watchtower run-once container to force the containers to update
    fn update_containers(&self, step: InitStep, now: Clock, event: Event) -> (out: Outcome)
        requires
            self.memory.stage == Stage::Init(step),
            step is UpdateStarting || step is UpdateWaiting || step is UpdatePause,
        ensures
            out.turn(self.message@) == self.next(now, event@),
    {
        let memory = self.memory;
        match step {
            InitStep::UpdateStarting => match event {
                Event::Exited { success, .. } => step_to(
                    memory,
                    Stage::Init(InitStep::UpdateWaiting { started: success }),
                    no_status(),
                    Action::Run {
                        program: Program::DockerWait(Workload::WatchtowerRunOnce),
                        mode: RunMode::Logged,
                    },
                ),
                Event::Failed { reason } => update_skipped(
                    memory,
                    join2("updating the containers failed: ", reason.as_str()),
                ),
                _ => out_of_turn(memory),
            },
            InitStep::UpdateWaiting { started } => match event {
                Event::Exited { success, .. } => if started && success {
                    begin_start(memory)
                } else {
                    update_skipped(
                        memory,
                        "updating the containers failed: update container program exited with failure".to_owned(),
                    )
                },
                Event::Failed { reason } => update_skipped(
                    memory,
                    join2("updating the containers failed: ", reason.as_str()),
                ),
                _ => out_of_turn(memory),
            },
            _ => match event {
                Event::Done => begin_start(memory),
                _ => out_of_turn(memory),
            },
        }
    }

    /// Start the Watchtower and payload containers, between the payload's
    /// two scripts. A container that runs already is left as it is.
    fn start_containers(&self, step: InitStep, now: Clock, event: Event) -> (out: Outcome)
        requires
            self.memory.stage == Stage::Init(step),
            step is PreStarting || step is StartInspecting || step is Starting || step
                is PostStarting,
        ensures
            out.turn(self.message@) == self.next(now, event@),
    {
        let memory = self.memory;
        match step {
            InitStep::PreStarting => match event {
                Event::Exited { success, status } => if success {
                    look_to_start(memory, Service::Watchtower)
                } else {
                    init_failed(
                        memory,
                        join2(
                            "starting the containers failed: pre start command exited with status ",
                            status.as_str(),
                        ),
                        now,
                    )
                },
                Event::Failed { reason } => init_failed(
                    memory,
                    join2("starting the containers failed: ", reason.as_str()),
                    now,
                ),
                _ => out_of_turn(memory),
            },
            InitStep::StartInspecting(service) => match event {
                Event::Output { text } => {
                    let status = crate::container::parse_container_status(text.as_str());
                    if same_text(status.as_str(), "running") {
                        started(memory, service)
                    } else {
                        step_to(
                            memory,
                            Stage::Init(InitStep::Starting(service)),
                            one_status(starting(&self.config, service)),
                            Action::Run {
                                program: Program::DockerStart(service.as_workload()),
                                mode: RunMode::Logged,
                            },
                        )
                    }
                },
                _ => out_of_turn(memory),
            },
            InitStep::Starting(service) => match event {
                Event::Exited { success, status } => if success {
                    started(memory, service)
                } else {
                    init_failed(
                        memory,
                        join2(
                            "starting the containers failed: pre start command exited with status ",
                            status.as_str(),
                        ),
                        now,
                    )
                },
                Event::Failed { reason } => init_failed(
                    memory,
                    join2("starting the containers failed: ", reason.as_str()),
                    now,
                ),
                _ => out_of_turn(memory),
            },
            _ => match event {
                Event::Exited { success, status } => if success {
                    step_to(
                        memory,
                        Stage::Init(InitStep::WaitingReady),
                        one_status(info_request("Waiting for payload to start")),
                        Action::Run { program: Program::WaitReady, mode: RunMode::Logged },
                    )
                } else {
                    init_failed(
                        memory,
                        join2(
                            "starting the containers failed: post start command exited with status ",
                            status.as_str(),
                        ),
                        now,
                    )
                },
                Event::Failed { reason } => init_failed(
                    memory,
                    join2("starting the containers failed: ", reason.as_str()),
                    now,
                ),
                _ => out_of_turn(memory),
            },
        }
    }

    /// Wait for the payload checker to say the payload is ready to use
    fn wait_for_payload(&self, now: Clock, event: Event) -> (out: Outcome)
        requires
            self.memory.stage == Stage::Init(InitStep::WaitingReady),
        ensures
            out.turn(self.message@) == self.next(now, event@),
    {
        let memory = self.memory;
        match event {
            Event::Exited { success, status } => if success {
                step_to(
                    memory,
                    Stage::Init(InitStep::QueryingAddress),
                    no_status(),
                    Action::QueryAddress,
                )
            } else {
                init_failed(
                    memory,
                    join2(
                        "starting the web interface failed: wait for payload exited with status ",
                        status.as_str(),
                    ),
                    now,
                )
            },
            Event::Failed { reason } => init_failed(
                memory,
                join2("starting the web interface failed: ", reason.as_str()),
                now,
            ),
            _ => out_of_turn(memory),
        }
    }

    /// Tell the user that they can use the web interface
    fn show_ready_message(&self, now: Clock, event: Event) -> (out: Outcome)
        requires
            self.memory.stage == Stage::Init(InitStep::QueryingAddress),
        ensures
            out.turn(self.message@) == self.next(now, event@),
    {
        let memory = self.memory;
        match event {
            Event::Address { text } => {
                let message = replace_all(
                    self.config.payload_ready_message.as_str(),
                    ADDRESS_PLACEHOLDER,
                    text.as_str(),
                );
                begin_monitor(memory, one_status(Request::ReadyInfo { text: message }), 0)
            },
            _ => out_of_turn(memory),
        }
    }

    /// Run the initialization steps that creates and starts up the containers
    fn init_system(&self, step: InitStep, now: Clock, event: Event) -> (out: Outcome)
        requires
            self.memory.stage == Stage::Init(step),
        ensures
            out.turn(self.message@) == self.next(now, event@),
    {
        match step {
            InitStep::ReadingState => self.load_state(step, now, event),
            InitStep::WritingState => self.load_state(step, now, event),
            InitStep::Downloading => self.patch_system(step, now, event),
            InitStep::Patching => self.patch_system(step, now, event),
            InitStep::PatchPause => self.patch_system(step, now, event),
            InitStep::Inspecting(_) => self.create_containers(step, now, event),
            InitStep::Creating(_) => self.create_containers(step, now, event),
            InitStep::UpdateStarting => self.update_containers(step, now, event),
            InitStep::UpdateWaiting { .. } => self.update_containers(step, now, event),
            InitStep::UpdatePause => self.update_containers(step, now, event),
            InitStep::PreStarting => self.start_containers(step, now, event),
            InitStep::StartInspecting(_) => self.start_containers(step, now, event),
            InitStep::Starting(_) => self.start_containers(step, now, event),
            InitStep::PostStarting => self.start_containers(step, now, event),
            InitStep::WaitingReady => self.wait_for_payload(now, event),
            InitStep::QueryingAddress => self.show_ready_message(now, event),
        }
    }

    /// Check the payload to see if it's still running properly
    fn check_payload_status(&self, step: MonitorStep, now: Clock, event: Event) -> (out: Outcome)
        requires
            self.memory.stage == Stage::Monitor(step),
            step is Status || step is ExitCode || step is Health,
        ensures
            out.turn(self.message@) == self.next(now, event@),
    {
        // It is tricky to check the reason for the exited state:
        // * it may have crashed
        // * Watchtower may be updating it
        // * the check reboot or check poweroff scripts aren't working correctly
        // * the user stopped it
        // * the container ignores errors and does not return a useful exit code
        let memory = self.memory;
        let text = match event {
            Event::Output { text } => text,
            _ => { return out_of_turn(memory); },
        };
        match step {
            MonitorStep::Status => {
                let word = crate::container::parse_container_status(text.as_str());
                step_to(
                    memory,
                    Stage::Monitor(
                        MonitorStep::ExitCode {
                            status: crate::health::classify_status(word.as_str()),
                        },
                    ),
                    no_status(),
                    Action::Inspect { workload: Workload::Payload, field: InspectField::ExitCode },
                )
            },
            MonitorStep::ExitCode { status } => {
                let exit_code: u32 = match crate::container::parse_container_exit_code(
                    text.as_str(),
                ) {
                    Some(code) => code,
                    None => 0,
                };
                step_to(
                    memory,
                    Stage::Monitor(MonitorStep::Health { status, exit_code }),
                    no_status(),
                    Action::Inspect { workload: Workload::Payload, field: InspectField::Health },
                )
            },
            MonitorStep::Health { status, exit_code } => {
                let word = crate::container::parse_container_status(text.as_str());
                let look = Observation {
                    status,
                    exit_code,
                    unhealthy: crate::health::is_unhealthy_word(word.as_str()),
                };
                let mut watch = memory.watch;
                let verdict = watch.check_payload_status(&look, &policy(&self.config), now.monotonic);
                let seen = Memory { watch, ..memory };
                match verdict {
                    Verdict::Fine => pause(seen),
                    Verdict::Crashed => reboot_due_to_error(seen, Cause::PayloadCrashed, now),
                    Verdict::Unresponsive => reboot_due_to_error(
                        seen,
                        Cause::PayloadUnresponsive,
                        now,
                    ),
                }
            },
            _ => out_of_turn(memory),
        }
    }

    /// Run the steps to check if the containers want anything
    fn check_containers(&self, step: MonitorStep, now: Clock, event: Event) -> (out: Outcome)
        requires
            self.memory.stage == Stage::Monitor(step),
        ensures
            out.turn(self.message@) == self.next(now, event@),
    {
        let memory = self.memory;
        match step {
            MonitorStep::RebootCheck => match event {
                Event::Exited { success, .. } => if success {
                    step_to(
                        memory,
                        Stage::Monitor(MonitorStep::Rebooting),
                        one_status(info_request("The system is now rebooting as requested")),
                        Action::Run { program: Program::Reboot, mode: RunMode::Logged },
                    )
                } else {
                    step_to(
                        memory,
                        Stage::Monitor(MonitorStep::PoweroffCheck),
                        no_status(),
                        Action::Run { program: Program::PoweroffCheck, mode: RunMode::Traced },
                    )
                },
                Event::Failed { .. } => monitor_failed(memory, now),
                _ => out_of_turn(memory),
            },
            MonitorStep::PoweroffCheck => match event {
                Event::Exited { success, .. } => if success {
                    step_to(
                        memory,
                        Stage::Monitor(MonitorStep::PoweringOff),
                        one_status(info_request("The system is now powering off as requested")),
                        Action::Run { program: Program::Poweroff, mode: RunMode::Logged },
                    )
                } else if memory.watch.payload_crashed {
                    pause(memory)
                } else {
                    step_to(
                        memory,
                        Stage::Monitor(MonitorStep::Status),
                        no_status(),
                        Action::Inspect {
                            workload: Workload::Payload,
                            field: InspectField::Status,
                        },
                    )
                },
                Event::Failed { .. } => monitor_failed(memory, now),
                _ => out_of_turn(memory),
            },
            MonitorStep::Status => self.check_payload_status(step, now, event),
            MonitorStep::ExitCode { .. } => self.check_payload_status(step, now, event),
            MonitorStep::Health { .. } => self.check_payload_status(step, now, event),
            MonitorStep::Sleeping => match event {
                Event::Done => begin_monitor(memory, no_status(), memory.attempt),
                _ => out_of_turn(memory),
            },
            _ => match event {
                Event::Exited { .. } => step_to(
                    memory,
                    Stage::Finished,
                    no_status(),
                    Action::Finish,
                ),
                Event::Failed { .. } => monitor_failed(memory, now),
                _ => out_of_turn(memory),
            },
        }
    }

    /// Show the next line of a countdown, or go on to what follows it.
    fn countdown_timer(&self, next: Next, now: Clock, event: Event) -> (out: Outcome)
        requires
            self.memory.stage == Stage::Countdown(next),
        ensures
            out.turn(self.message@) == self.next(now, event@),
    {
        let memory = self.memory;
        match event {
            Event::Done => {
                if memory.deadline <= now.monotonic {
                    countdown_done(memory, next, now)
                } else {
                    let left: u64 = (memory.deadline - now.monotonic) / 1_000_000_000;
                    step_to(
                        memory,
                        Stage::Countdown(next),
                        one_status(
                            Request::Error {
                                text: countdown_line(self.message.as_str(), left, next),
                            },
                        ),
                        Action::Sleep { seconds: SHORT_PAUSE },
                    )
                }
            },
            _ => out_of_turn(memory),
        }
    }

    /// Go through with a forced reboot: the state is written before the
    /// reboot program is started, and the reboot follows whether or not the
    /// writing succeeded.
    fn forced_reboot(&self, now: Clock, event: Event) -> (out: Outcome)
        requires
            self.memory.stage is Saving || self.memory.stage is Rebooting,
        ensures
            out.turn(self.message@) == self.next(now, event@),
    {
        let memory = self.memory;
        match memory.stage {
            Stage::Saving(cause) => match event {
                Event::Done => step_to(
                    memory,
                    Stage::Rebooting(cause),
                    no_status(),
                    Action::Run { program: Program::Reboot, mode: RunMode::Spawned },
                ),
                Event::Failed { .. } => step_to(
                    memory,
                    Stage::Rebooting(cause),
                    no_status(),
                    Action::Run { program: Program::Reboot, mode: RunMode::Spawned },
                ),
                _ => out_of_turn(memory),
            },
            Stage::Rebooting(cause) => match event {
                Event::Done => match cause {
                    Cause::InitFailed => begin_monitor(memory, no_status(), 0),
                    Cause::MonitorFailed => step_to(
                        memory,
                        Stage::Finished,
                        no_status(),
                        Action::Finish,
                    ),
                    _ => pause(memory),
                },
                Event::Failed { reason } => match cause {
                    Cause::InitFailed => give_up(memory, reason),
                    Cause::MonitorFailed => give_up(memory, reason),
                    _ => monitor_failed(memory, now),
                },
                _ => out_of_turn(memory),
            },
            _ => out_of_turn(memory),
        }
    }

    /// Works out the turn that the manager takes on `event` at `now`.
    fn take_turn(&self, now: Clock, event: Event) -> (out: Outcome)
        ensures
            out.turn(self.message@) == self.next(now, event@),
    {
        let memory = self.memory;
        match memory.stage {
            Stage::Boot => step_to(
                memory,
                Stage::WaitDocker(Probe::Running),
                one_status(info_request("Waiting for Docker to be ready")),
                Action::Run { program: Program::DockerVersion, mode: RunMode::Logged },
            ),
            Stage::WaitDocker(probe) => self.wait_for_docker(probe, now, event),
            Stage::WaitNetwork(probe) => self.wait_for_internet_connection(probe, now, event),
            Stage::Init(step) => self.init_system(step, now, event),
            Stage::Monitor(step) => self.check_containers(step, now, event),
            Stage::Countdown(next) => self.countdown_timer(next, now, event),
            Stage::Saving(_) => self.forced_reboot(now, event),
            Stage::Rebooting(_) => self.forced_reboot(now, event),
            Stage::Finished => step_to(memory, Stage::Finished, no_status(), Action::Finish),
            Stage::Halted => step_to(memory, Stage::Halted, no_status(), Action::Abort),
        }
    }

    /// Takes in `event`, the outcome of the action that the manager asked
    /// for last, together with the clocks' readings at the moment it came
    /// in, and answers with the status events to show and the next action.
    /// The first step of a manager takes any event.
    pub fn step(&mut self, now: Clock, event: Event) -> (step: Step)
        ensures
            final(self).config == old(self).config,
            final(self).memory == old(self).next(now, event@).memory,
            final(self).message@ == old(self).next(now, event@).message,
            requests_view(step.status@) == old(self).next(now, event@).status,
            step.action == old(self).next(now, event@).action,
    {
        let out = self.take_turn(now, event);
        self.memory = out.memory;
        match out.message {
            Some(message) => {
                self.message = message;
            },
            None => {},
        }
        Step { status: out.status, action: out.action }
    }
}

fn begin_init(memory: Memory, attempt: u32) -> (out: Outcome)
    ensures
        forall|message: Seq<char>| #[trigger]
            out.turn(message) == enter_init(memory, message, attempt),
{
    step_to(
        Memory { attempt, ..memory },
        Stage::Init(InitStep::ReadingState),
        one_status(info_request("Loading appliance manager state")),
        Action::ReadState,
    )
}

fn begin_patch(config: &AppConfig, memory: Memory) -> (out: Outcome)
    ensures
        forall|message: Seq<char>| #[trigger]
            out.turn(message) == enter_patch(*config, memory, message),
{
    match &config.patch_script_url {
        Some(_) => step_to(
            memory,
            Stage::Init(InitStep::Downloading),
            one_status(info_request("Downloading system patch file")),
            Action::DownloadPatch,
        ),
        None => look_for(memory, no_status(), Workload::Watchtower),
    }
}

fn patch_skipped(memory: Memory, error: &str) -> (out: Outcome)
    ensures
        forall|message: Seq<char>| #[trigger]
            out.turn(message) == skip_patch(memory, message, error@),
{
    step_to(
        memory,
        Stage::Init(InitStep::PatchPause),
        one_status(
            Request::Warning {
                text: join2(
                    "Patching is skipped because it is unavailable or has an error. It will be retried later.\n\nError: ",
                    error,
                ),
            },
        ),
        Action::Sleep { seconds: SHORT_PAUSE },
    )
}

fn look_for(memory: Memory, status: Vec<Request>, workload: Workload) -> (out: Outcome)
    ensures
        forall|message: Seq<char>| #[trigger]
            out.turn(message) == inspect_for_create(
                memory,
                message,
                requests_view(status@),
                workload,
            ),
{
    step_to(
        memory,
        Stage::Init(InitStep::Inspecting(workload)),
        status,
        Action::Inspect { workload, field: InspectField::Status },
    )
}

fn created(memory: Memory, status: Vec<Request>, workload: Workload) -> (out: Outcome)
    ensures
        forall|message: Seq<char>| #[trigger]
            out.turn(message) == after_create(memory, message, requests_view(status@), workload),
        creation_skipped(out.memory.stage, out.action),
{
    let out = match workload {
        Workload::Watchtower => look_for(memory, status, Workload::WatchtowerRunOnce),
        Workload::WatchtowerRunOnce => look_for(memory, status, Workload::Payload),
        Workload::Payload => step_to(
            memory,
            Stage::Init(InitStep::UpdateStarting),
            more_status(
                status,
                info_request("Updating containers\n\nPlease wait. This may take a while."),
            ),
            Action::Run {
                program: Program::DockerStart(Workload::WatchtowerRunOnce),
                mode: RunMode::Logged,
            },
        ),
    };
    assert(out.turn(Seq::empty()) == after_create(
        memory,
        Seq::empty(),
        requests_view(status@),
        workload,
    ));
    out
}

fn update_skipped(memory: Memory, error: String) -> (out: Outcome)
    ensures
        forall|message: Seq<char>| #[trigger]
            out.turn(message) == skip_update(memory, message, error@),
{
    step_to(
        memory,
        Stage::Init(InitStep::UpdatePause),
        one_status(Request::Warning { text: error }),
        Action::Sleep { seconds: SHORT_PAUSE },
    )
}

fn begin_start(memory: Memory) -> (out: Outcome)
    ensures
        forall|message: Seq<char>| #[trigger] out.turn(message) == enter_start(memory, message),
{
    step_to(
        memory,
        Stage::Init(InitStep::PreStarting),
        no_status(),
        Action::Run { program: Program::PreStart, mode: RunMode::Logged },
    )
}

fn look_to_start(memory: Memory, service: Service) -> (out: Outcome)
    ensures
        forall|message: Seq<char>| #[trigger]
            out.turn(message) == inspect_for_start(memory, message, service),
{
    step_to(
        memory,
        Stage::Init(InitStep::StartInspecting(service)),
        no_status(),
        Action::Inspect { workload: service.as_workload(), field: InspectField::Status },
    )
}

fn started(memory: Memory, service: Service) -> (out: Outcome)
    ensures
        forall|message: Seq<char>| #[trigger]
            out.turn(message) == after_start(memory, message, service),
{
    match service {
        Service::Watchtower => look_to_start(memory, Service::Payload),
        Service::Payload => step_to(
            memory,
            Stage::Init(InitStep::PostStarting),
            no_status(),
            Action::Run { program: Program::PostStart, mode: RunMode::Logged },
        ),
    }
}

fn begin_monitor(memory: Memory, status: Vec<Request>, attempt: u32) -> (out: Outcome)
    ensures
        forall|message: Seq<char>| #[trigger]
            out.turn(message) == enter_monitor(memory, message, requests_view(status@), attempt),
{
    step_to(
        Memory { attempt, ..memory },
        Stage::Monitor(MonitorStep::RebootCheck),
        status,
        Action::Run { program: Program::RebootCheck, mode: RunMode::Traced },
    )
}

fn pause(memory: Memory) -> (out: Outcome)
    ensures
        forall|message: Seq<char>| #[trigger] out.turn(message) == rest(memory, message),
{
    step_to(
        memory,
        Stage::Monitor(MonitorStep::Sleeping),
        no_status(),
        Action::Sleep { seconds: MONITOR_PAUSE },
    )
}

fn init_failed(memory: Memory, error: String, now: Clock) -> (out: Outcome)
    ensures
        forall|message: Seq<char>| #[trigger] out.turn(message) == fail_init(memory, error@, now),
{
    begin_countdown(
        memory,
        join2("A problem occurred during start up\n\n", error.as_str()),
        delay_after(memory.attempt),
        Next::RetryInit,
        now,
    )
}

fn monitor_failed(memory: Memory, now: Clock) -> (out: Outcome)
    ensures
        forall|message: Seq<char>| #[trigger] out.turn(message) == fail_monitor(memory, now),
{
    begin_countdown(
        memory,
        "A problem occurred\n\nchecking the containers failed".to_owned(),
        delay_after(memory.attempt),
        Next::RetryMonitor,
        now,
    )
}

/// Show an error message and reboot the OS after a countdown
fn reboot_due_to_error(memory: Memory, cause: Cause, now: Clock) -> (out: Outcome)
    ensures
        forall|message: Seq<char>| #[trigger] out.turn(message) == escalate(memory, cause, now),
{
    // If stuck in a reboot loop, don't constantly fetch things over the network
    let seconds = memory.state.forced_reboot_countdown(&now.utc);
    first_line(memory, cause_message(cause).to_owned(), seconds, Next::Reboot(cause), now)
}

} // verus!
