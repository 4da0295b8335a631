//! The programs that the appliance manager runs, and what it reads in
//! their output.

use vstd::prelude::*;
use crate::clock::Timestamp;
use crate::config::{AppConfig, Workload};
use crate::text::{parse_u32, parsed_u32, texts_of, trim, trimmed};

verus! {

/// Where the patch script is kept while it runs.
pub const PATCH_FILE_PATH: &'static str = "/tmp/warrior4-appliance-patch";

/// What the container runtime is asked about a container.
#[derive(Debug, Clone, Copy, PartialEq, Eq, Structural)]
pub enum InspectField {
    Status,
    ExitCode,
    FinishedAt,
    Health,
}

/// A program with its arguments.
#[derive(Debug, Clone, Copy, PartialEq, Eq, Structural)]
pub enum Program {
    /// Asks the container runtime for its version: it answers once it is up.
    DockerVersion,
    /// Sends one echo request to the project's server.
    Ping,
    /// The downloaded patch script.
    Patch,
    /// The program that creates the container of a workload.
    Create(Workload),
    /// Starts the container of a workload.
    DockerStart(Workload),
    /// Waits until the container of a workload has ended.
    DockerWait(Workload),
    /// Asks the container runtime about the container of a workload.
    DockerInspect(Workload, InspectField),
    /// The script to run before the containers start.
    PreStart,
    /// The script to run after the containers have started.
    PostStart,
    /// The script that returns once the payload is ready.
    WaitReady,
    /// The script that succeeds where the payload asks for a reboot.
    RebootCheck,
    /// The script that succeeds where the payload asks for a power off.
    PoweroffCheck,
    /// Reboots the machine.
    Reboot,
    /// Powers the machine off.
    Poweroff,
}

/// The template that makes the container runtime print `field`.
pub open spec fn inspect_format(field: InspectField) -> Seq<char> {
    match field {
        InspectField::Status => "{{.State.Status}}"@,
        InspectField::ExitCode => "{{.State.ExitCode}}"@,
        InspectField::FinishedAt => "{{.State.FinishedAt}}"@,
        InspectField::Health => "{{.State.Health.Status}}"@,
    }
}

/// The program's name followed by its arguments.
pub open spec fn argv(config: AppConfig, program: Program) -> Seq<Seq<char>> {
    match program {
        Program::DockerVersion => seq!["docker"@, "version"@],
        Program::Ping => seq!["ping"@, "warriorhq.archiveteam.org"@, "-c"@, "1"@],
        Program::Patch => seq![PATCH_FILE_PATH@],
        Program::Create(workload) => seq![config.creator_of(workload)],
        Program::DockerStart(workload) => seq!["docker"@, "start"@, config.name_of(workload)],
        Program::DockerWait(workload) => seq!["docker"@, "wait"@, config.name_of(workload)],
        Program::DockerInspect(workload, field) => seq![
            "docker"@,
            "inspect"@,
            "--type=container"@,
            "--format"@,
            inspect_format(field),
            config.name_of(workload),
        ],
        Program::PreStart => seq![config.payload_pre_start@],
        Program::PostStart => seq![config.payload_post_start@],
        Program::WaitReady => seq![config.payload_wait_ready@],
        Program::RebootCheck => seq![config.payload_reboot_check@],
        Program::PoweroffCheck => seq![config.payload_poweroff_check@],
        Program::Reboot => seq!["reboot"@],
        Program::Poweroff => seq!["poweroff"@],
    }
}

fn inspect_template(field: InspectField) -> (template: &'static str)
    ensures
        template@ == inspect_format(field),
{
    match field {
        InspectField::Status => "{{.State.Status}}",
        InspectField::ExitCode => "{{.State.ExitCode}}",
        InspectField::FinishedAt => "{{.State.FinishedAt}}",
        InspectField::Health => "{{.State.Health.Status}}",
    }
}

fn push_word(words: &mut Vec<String>, word: &str)
    ensures
        texts_of(final(words)@) == texts_of(old(words)@).push(word@),
{
    words.push(word.to_owned());
    assert(texts_of(words@) =~= texts_of(old(words)@).push(word@));
}

impl AppConfig {
    /// The program's name followed by its arguments.
    pub fn command_line(&self, program: Program) -> (words: Vec<String>)
        ensures
            texts_of(words@) == argv(*self, program),
    {
        let mut words: Vec<String> = Vec::new();
        assert(texts_of(words@) =~= Seq::<Seq<char>>::empty());
        match program {
            Program::DockerVersion => {
                push_word(&mut words, "docker");
                push_word(&mut words, "version");
            },
            Program::Ping => {
                push_word(&mut words, "ping");
                push_word(&mut words, "warriorhq.archiveteam.org");
                push_word(&mut words, "-c");
                push_word(&mut words, "1");
            },
            Program::Patch => {
                push_word(&mut words, PATCH_FILE_PATH);
            },
            Program::Create(workload) => {
                push_word(&mut words, self.workload_creator(workload).as_str());
            },
            Program::DockerStart(workload) => {
                push_word(&mut words, "docker");
                push_word(&mut words, "start");
                push_word(&mut words, self.workload_name(workload).as_str());
            },
            Program::DockerWait(workload) => {
                push_word(&mut words, "docker");
                push_word(&mut words, "wait");
                push_word(&mut words, self.workload_name(workload).as_str());
            },
            Program::DockerInspect(workload, field) => {
                push_word(&mut words, "docker");
                push_word(&mut words, "inspect");
                push_word(&mut words, "--type=container");
                push_word(&mut words, "--format");
                push_word(&mut words, inspect_template(field));
                push_word(&mut words, self.workload_name(workload).as_str());
            },
            Program::PreStart => {
                push_word(&mut words, self.payload_pre_start.as_str());
            },
            Program::PostStart => {
                push_word(&mut words, self.payload_post_start.as_str());
            },
            Program::WaitReady => {
                push_word(&mut words, self.payload_wait_ready.as_str());
            },
            Program::RebootCheck => {
                push_word(&mut words, self.payload_reboot_check.as_str());
            },
            Program::PoweroffCheck => {
                push_word(&mut words, self.payload_poweroff_check.as_str());
            },
            Program::Reboot => {
                push_word(&mut words, "reboot");
            },
            Program::Poweroff => {
                push_word(&mut words, "poweroff");
            },
        }
        assert(texts_of(words@) =~= argv(*self, program));
        words
    }
}

/// The state of a container as the container runtime printed it: the
/// output without the white space around it. No output means that there is
/// no such container.
pub fn parse_container_status(output: &str) -> (status: String)
    ensures
        status@ == trimmed(output@),
{
    trim(output)
}

/// The exit code of a container as the container runtime printed it, or
/// `None` where the output is no number.
pub fn parse_container_exit_code(output: &str) -> (code: Option<u32>)
    ensures
        code == parsed_u32(trimmed(output@)),
{
    let word = trim(output);
    parse_u32(word.as_str())
}

/// The point in time that `text` denotes, as `chrono` reads a date and time
/// with an offset from UTC in its relaxed form of the notation of RFC 3339,
/// or `None` where it reads none.
pub uninterp spec fn parsed_timestamp(text: Seq<char>) -> Option<Timestamp>;

/// Calls `str::parse` for a `chrono::DateTime<Utc>`, which reads a date and
/// time with an offset from UTC in a relaxed form of the notation of RFC
/// 3339, and hands out what `DateTime::timestamp` and
/// `DateTime::timestamp_subsec_nanos` give for it.
#[verifier::external_body]
fn parse_timestamp(text: &str) -> (time: Option<Timestamp>)
    ensures
        time == parsed_timestamp(text@),
{
    match text.parse::<chrono::DateTime<chrono::Utc>>() {
        Ok(time) => Some(Timestamp { secs: time.timestamp(), nanos: time.timestamp_subsec_nanos() }),
        Err(_) => None,
    }
}

/// When a container ended, as the container runtime printed it, or `None`
/// where the output is no point in time.
pub fn parse_container_finished_at(output: &str) -> (time: Option<Timestamp>)
    ensures
        time == parsed_timestamp(trimmed(output@)),
{
    let word = trim(output);
    parse_timestamp(word.as_str())
}

} // verus!
