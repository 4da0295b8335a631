//! Supervision of the running payload: when its condition calls for a
//! forced reboot.

use vstd::prelude::*;
use crate::clock::NANOS_PER_SECOND;
use crate::text::same_text;

verus! {

/// Lowest exit code that stands for an error of the payload itself.
pub const FIRST_ERROR_CODE: u32 = 1;

/// Highest exit code that stands for an error of the payload itself. The
/// codes above it are those of the container runtime and of signals.
pub const LAST_ERROR_CODE: u32 = 124;

/// The state of the payload's container, as far as the supervision goes by it.
#[derive(Debug, Clone, Copy, PartialEq, Eq, Structural)]
pub enum PayloadStatus {
    Exited,
    Running,
    Other,
}

/// The state that the word `status` of the container runtime stands for.
pub open spec fn status_of(status: Seq<char>) -> PayloadStatus {
    if status == "exited"@ {
        PayloadStatus::Exited
    } else if status == "running"@ {
        PayloadStatus::Running
    } else {
        PayloadStatus::Other
    }
}

/// The state that the word `status` of the container runtime stands for.
pub fn classify_status(status: &str) -> (state: PayloadStatus)
    ensures
        state == status_of(status@),
{
    if same_text(status, "exited") {
        PayloadStatus::Exited
    } else if same_text(status, "running") {
        PayloadStatus::Running
    } else {
        PayloadStatus::Other
    }
}

/// Whether `health` is the word by which the container runtime calls a
/// container unhealthy.
pub fn is_unhealthy_word(health: &str) -> (unhealthy: bool)
    ensures
        unhealthy == (health@ == "unhealthy"@),
{
    same_text(health, "unhealthy")
}

/// One look at the payload's container.
#[derive(Debug, Clone, Copy, PartialEq, Eq, Structural)]
pub struct Observation {
    /// The state of the container.
    pub status: PayloadStatus,
    /// Its exit code; zero where the container runtime gave none.
    pub exit_code: u32,
    /// Whether its health check calls it unhealthy.
    pub unhealthy: bool,
}

/// What the configuration allows and asks for.
#[derive(Debug, Clone, Copy, PartialEq, Eq, Structural)]
pub struct Policy {
    /// Reboot when the payload has ended with an error of its own.
    pub reboot_on_exit_error: bool,
    /// Reboot when the payload has stayed unhealthy for too long.
    pub reboot_on_unhealthy: bool,
    /// Seconds for which the payload may stay unhealthy.
    pub max_unhealthy_seconds: u64,
}

/// What the supervision remembers between two looks.
#[derive(Debug, Clone, Copy, PartialEq, Eq, Structural)]
pub struct Watch {
    /// Set at the first forced reboot that the payload's condition brought
    /// about, and never cleared: there is no second one.
    pub payload_crashed: bool,
    /// The reading of the monotonic clock at the first of the looks, all
    /// since then, that found the payload unhealthy.
    pub unhealthy_since: Option<u64>,
}

/// What one look calls for.
#[derive(Debug, Clone, Copy, PartialEq, Eq, Structural)]
pub enum Verdict {
    /// Nothing.
    Fine,
    /// A forced reboot: the payload has ended with an error of its own.
    Crashed,
    /// A forced reboot: the payload has stayed unhealthy for too long.
    Unresponsive,
}

impl Observation {
    /// Whether the container has ended with an error of the payload
    /// itself: it has exited, with a code from 1 to 124.
    pub open spec fn exited_with_error(self) -> bool {
        self.status == PayloadStatus::Exited && FIRST_ERROR_CODE <= self.exit_code
            <= LAST_ERROR_CODE
    }

    /// Whether the container runs and its health check calls it unhealthy.
    pub open spec fn runs_unhealthy(self) -> bool {
        self.status == PayloadStatus::Running && self.unhealthy
    }

    /// Whether the container has ended with an error of the payload itself.
    pub fn check_payload_has_exited_error(&self) -> (error: bool)
        ensures
            error == self.exited_with_error(),
    {
        self.status == PayloadStatus::Exited && FIRST_ERROR_CODE <= self.exit_code
            && self.exit_code <= LAST_ERROR_CODE
    }
}

impl Watch {
    /// The supervision before its first look.
    pub open spec fn fresh() -> Watch {
        Watch { payload_crashed: false, unhealthy_since: None }
    }

    /// Whether the payload, unhealthy at this look too, has been so for
    /// more than the time allowed.
    pub open spec fn unhealthy_too_long(self, look: Observation, policy: Policy, now: u64) -> bool {
        &&& look.runs_unhealthy()
        &&& self.unhealthy_since matches Some(since)
        &&& now - since > policy.max_unhealthy_seconds * NANOS_PER_SECOND
    }

    /// Whether this look judges the payload's health at all: not after the
    /// one forced reboot, and not where the look calls for that reboot
    /// because the payload has ended.
    pub open spec fn judges_health(self, look: Observation, policy: Policy) -> bool {
        !self.payload_crashed && !(look.exited_with_error() && policy.reboot_on_exit_error)
    }

    /// What the look at `now` calls for.
    pub open spec fn verdict(self, look: Observation, policy: Policy, now: u64) -> Verdict {
        if self.payload_crashed {
            Verdict::Fine
        } else if look.exited_with_error() && policy.reboot_on_exit_error {
            Verdict::Crashed
        } else if self.unhealthy_too_long(look, policy, now) && policy.reboot_on_unhealthy {
            Verdict::Unresponsive
        } else {
            Verdict::Fine
        }
    }

    /// What the supervision remembers after the look at `now`.
    pub open spec fn after(self, look: Observation, policy: Policy, now: u64) -> Watch {
        if !self.judges_health(look, policy) {
            Watch { payload_crashed: true, ..self }
        } else {
            Watch {
                payload_crashed: self.verdict(look, policy, now) == Verdict::Unresponsive,
                unhealthy_since: if look.runs_unhealthy() {
                    match self.unhealthy_since {
                        Some(since) => Some(since),
                        None => Some(now),
                    }
                } else {
                    None
                },
            }
        }
    }

    /// The supervision before its first look.
    pub fn new() -> (watch: Watch)
        ensures
            watch == Watch::fresh(),
    {
        Watch { payload_crashed: false, unhealthy_since: None }
    }

    /// Takes in the payload's health at `now` and says whether it has been
    /// unhealthy for more than the time allowed. The first unhealthy look
    /// starts the clock, every further one leaves it running, and any
    /// other look stops it.
    pub fn check_payload_is_unhealthy(&mut self, look: &Observation, policy: &Policy, now: u64) -> (too_long: bool)
        ensures
            too_long == old(self).unhealthy_too_long(*look, *policy, now),
            final(self).payload_crashed == old(self).payload_crashed,
            final(self).unhealthy_since == (if look.runs_unhealthy() {
                match old(self).unhealthy_since {
                    Some(since) => Some(since),
                    None => Some(now),
                }
            } else {
                None
            }),
    {
        if look.status == PayloadStatus::Running && look.unhealthy {
            match self.unhealthy_since {
                Some(since) => {
                    let allowed: u128 = policy.max_unhealthy_seconds as u128 * 1_000_000_000;
                    now >= since && (now - since) as u128 > allowed
                },
                None => {
                    self.unhealthy_since = Some(now);
                    false
                },
            }
        } else {
            self.unhealthy_since = None;
            false
        }
    }

    /// Takes in one look at the payload and says what it calls for. After
    /// the one forced reboot nothing is judged any more.
    pub fn check_payload_status(&mut self, look: &Observation, policy: &Policy, now: u64) -> (verdict: Verdict)
        ensures
            verdict == old(self).verdict(*look, *policy, now),
            *final(self) == old(self).after(*look, *policy, now),
            verdict != Verdict::Fine ==> !old(self).payload_crashed && final(self).payload_crashed,
    {
        if self.payload_crashed {
            Verdict::Fine
        } else if look.check_payload_has_exited_error() && policy.reboot_on_exit_error {
            self.payload_crashed = true;
            Verdict::Crashed
        } else if self.check_payload_is_unhealthy(look, policy, now) && policy.reboot_on_unhealthy {
            self.payload_crashed = true;
            Verdict::Unresponsive
        } else {
            Verdict::Fine
        }
    }
}

/// A look and the reading of the monotonic clock at which it was taken.
pub struct TimedLook {
    pub look: Observation,
    pub now: u64,
}

/// What the supervision remembers after the first `count` looks of `looks`,
/// starting from `watch`.
pub open spec fn watch_after(watch: Watch, looks: Seq<TimedLook>, policy: Policy, count: nat) -> Watch
    decreases count,
{
    if count == 0 || count > looks.len() {
        watch
    } else {
        watch_after(watch, looks, policy, (count - 1) as nat).after(
            looks[count - 1].look,
            policy,
            looks[count - 1].now,
        )
    }
}

/// What look number `at` of `looks` calls for, starting from `watch`.
pub open spec fn verdict_at(watch: Watch, looks: Seq<TimedLook>, policy: Policy, at: nat) -> Verdict {
    watch_after(watch, looks, policy, at).verdict(looks[at as int].look, policy, looks[at as int].now)
}

/// An exit code of 0, or one from 125 on, never brings about a forced
/// reboot for a crash, whatever else holds; nor does any code while the
/// container has not exited. A code from 1 to 124 of an exited container
/// does, where the configuration allows it and there was none before.
pub proof fn lemma_crash_codes(watch: Watch, look: Observation, policy: Policy, now: u64)
    ensures
        look.exit_code == 0 || look.exit_code >= 125 ==> watch.verdict(look, policy, now)
            != Verdict::Crashed,
        look.status != PayloadStatus::Exited ==> watch.verdict(look, policy, now)
            != Verdict::Crashed,
        look.status == PayloadStatus::Exited && 1 <= look.exit_code <= 124
            && policy.reboot_on_exit_error && !watch.payload_crashed ==> watch.verdict(
            look,
            policy,
            now,
        ) == Verdict::Crashed,
        !policy.reboot_on_exit_error ==> watch.verdict(look, policy, now) != Verdict::Crashed,
        !policy.reboot_on_unhealthy ==> watch.verdict(look, policy, now) != Verdict::Unresponsive,
{
}

/// Once the latch is set it stays set, and no look calls for anything.
pub proof fn lemma_latch_holds(watch: Watch, looks: Seq<TimedLook>, policy: Policy, count: nat)
    requires
        watch.payload_crashed,
        count <= looks.len(),
    ensures
        watch_after(watch, looks, policy, count) == watch,
        count < looks.len() ==> verdict_at(watch, looks, policy, count) == Verdict::Fine,
    decreases count,
{
    if count > 0 {
        lemma_latch_holds(watch, looks, policy, (count - 1) as nat);
    }
}

/// The latch is set after a look that called for a forced reboot, and after
/// every later look.
proof fn lemma_latched_after(watch: Watch, looks: Seq<TimedLook>, policy: Policy, at: nat, count: nat)
    requires
        at < count <= looks.len(),
        verdict_at(watch, looks, policy, at) != Verdict::Fine,
    ensures
        watch_after(watch, looks, policy, count).payload_crashed,
    decreases count,
{
    if count > at + 1 {
        lemma_latched_after(watch, looks, policy, at, (count - 1) as nat);
    }
}

/// A forced reboot fires at most once: of two looks in one run of the
/// supervision, at most one calls for one.
pub proof fn lemma_at_most_one_forced_reboot(
    watch: Watch,
    looks: Seq<TimedLook>,
    policy: Policy,
    first: nat,
    second: nat,
)
    requires
        first < second < looks.len(),
        verdict_at(watch, looks, policy, first) != Verdict::Fine,
    ensures
        verdict_at(watch, looks, policy, second) == Verdict::Fine,
{
    lemma_latched_after(watch, looks, policy, first, second);
}

/// While the latch is not set, a running clock was started by an earlier
/// look, and that look and all since have found the payload unhealthy.
proof fn lemma_unhealthy_run(looks: Seq<TimedLook>, policy: Policy, count: nat) -> (start: int)
    requires
        count <= looks.len(),
        !watch_after(Watch::fresh(), looks, policy, count).payload_crashed,
        watch_after(Watch::fresh(), looks, policy, count).unhealthy_since is Some,
    ensures
        0 <= start < count,
        watch_after(Watch::fresh(), looks, policy, count).unhealthy_since == Some(looks[start].now),
        forall|i: int| start <= i < count ==> (#[trigger] looks[i]).look.runs_unhealthy(),
    decreases count,
{
    let before = watch_after(Watch::fresh(), looks, policy, (count - 1) as nat);
    let last = looks[count - 1];
    assert(count > 0);
    assert(!before.payload_crashed);
    assert(before.judges_health(last.look, policy));
    assert(last.look.runs_unhealthy());
    if before.unhealthy_since is Some {
        let start = lemma_unhealthy_run(looks, policy, (count - 1) as nat);
        start
    } else {
        count - 1
    }
}

/// Debounce of the health check. Starting afresh, a look calls for a forced
/// reboot because the payload is unresponsive only if there is an earlier
/// look such that more than the time allowed lies between the two and the
/// payload was found unhealthy at both and at every look between them. So
/// one look that finds it otherwise starts the wait anew.
pub proof fn lemma_unhealthy_debounced(looks: Seq<TimedLook>, policy: Policy, at: nat) -> (start:
    int)
    requires
        at < looks.len(),
        verdict_at(Watch::fresh(), looks, policy, at) == Verdict::Unresponsive,
    ensures
        0 <= start < at,
        looks[at as int].now - looks[start].now > policy.max_unhealthy_seconds * NANOS_PER_SECOND,
        forall|i: int| start <= i <= at ==> (#[trigger] looks[i]).look.runs_unhealthy(),
        policy.reboot_on_unhealthy,
{
    lemma_unhealthy_run(looks, policy, at)
}

/// A look that does not find the payload unhealthy stops the clock, unless
/// it is the look that calls for the forced reboot after a crash.
pub proof fn lemma_healthy_look_resets(watch: Watch, look: Observation, policy: Policy, now: u64)
    requires
        !look.runs_unhealthy(),
        watch.judges_health(look, policy),
    ensures
        watch.after(look, policy, now).unhealthy_since is None,
        watch.verdict(look, policy, now) != Verdict::Unresponsive,
{
}

} // verus!
