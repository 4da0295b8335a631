//! Configuration of the appliance manager.

use vstd::prelude::*;

verus! {

/// Seconds for which the payload may report itself unhealthy without a
/// forced reboot, unless the configuration says otherwise.
pub const DEFAULT_MAX_UNHEALTHY_SECONDS: u64 = 900;

/// The managed containers.
#[derive(Debug, Clone, Copy, PartialEq, Eq, Structural)]
pub enum Workload {
    /// The updater that keeps running.
    Watchtower,
    /// The updater that runs once and ends.
    WatchtowerRunOnce,
    /// The container that the appliance exists for.
    Payload,
}

/// The containers that keep running, in the order in which they are started.
#[derive(Debug, Clone, Copy, PartialEq, Eq, Structural)]
pub enum Service {
    Watchtower,
    Payload,
}

impl Service {
    /// The workload that the service is.
    pub open spec fn workload(self) -> Workload {
        match self {
            Service::Watchtower => Workload::Watchtower,
            Service::Payload => Workload::Payload,
        }
    }

    /// The workload that the service is.
    pub fn as_workload(self) -> (workload: Workload)
        ensures
            workload == self.workload(),
    {
        match self {
            Service::Watchtower => Workload::Watchtower,
            Service::Payload => Workload::Payload,
        }
    }
}

/// The configuration, as the configuration file gives it. Paths and
/// addresses are held as text.
#[derive(Debug, Clone, PartialEq, Eq)]
pub struct AppConfig {
    pub log_path: String,
    pub state_path: String,
    pub display_ipc_address: String,
    pub patch_script_url: Option<String>,
    // Watchtower container
    pub watchtower_name: String,
    pub watchtower_creator: String,
    // Watchtower container but with --run-once
    pub watchtower_run_once_name: String,
    pub watchtower_run_once_creator: String,
    // The warrior project management container
    pub payload_name: String,
    pub payload_creator: String,
    pub payload_pre_start: String,
    pub payload_post_start: String,
    pub payload_wait_ready: String,
    pub payload_reboot_check: String,
    pub payload_poweroff_check: String,
    pub payload_ready_message: String,
    /// Reboot when the payload has ended with an error of its own.
    pub reboot_on_payload_exit_error: bool,
    /// Reboot when the payload has stayed unhealthy for too long.
    pub reboot_on_payload_unhealthy: bool,
    /// Seconds for which the payload may stay unhealthy.
    pub max_unhealthy_seconds: u64,
}

impl AppConfig {
    /// The name of the container of `workload`.
    pub open spec fn name_of(self, workload: Workload) -> Seq<char> {
        match workload {
            Workload::Watchtower => self.watchtower_name@,
            Workload::WatchtowerRunOnce => self.watchtower_run_once_name@,
            Workload::Payload => self.payload_name@,
        }
    }

    /// The program that creates the container of `workload`.
    pub open spec fn creator_of(self, workload: Workload) -> Seq<char> {
        match workload {
            Workload::Watchtower => self.watchtower_creator@,
            Workload::WatchtowerRunOnce => self.watchtower_run_once_creator@,
            Workload::Payload => self.payload_creator@,
        }
    }

    /// The name of the container of `workload`.
    pub fn workload_name(&self, workload: Workload) -> (name: &String)
        ensures
            name@ == self.name_of(workload),
    {
        match workload {
            Workload::Watchtower => &self.watchtower_name,
            Workload::WatchtowerRunOnce => &self.watchtower_run_once_name,
            Workload::Payload => &self.payload_name,
        }
    }

    /// The program that creates the container of `workload`.
    pub fn workload_creator(&self, workload: Workload) -> (program: &String)
        ensures
            program@ == self.creator_of(workload),
    {
        match workload {
            Workload::Watchtower => &self.watchtower_creator,
            Workload::WatchtowerRunOnce => &self.watchtower_run_once_creator,
            Workload::Payload => &self.payload_creator,
        }
    }
}

} // verus!
