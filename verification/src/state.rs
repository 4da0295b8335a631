//! What the appliance manager keeps on disk between boots.

use vstd::prelude::*;
use crate::clock::{utc_now, Timestamp};

verus! {

/// A forced reboot that follows the last one by less than this many seconds
/// is taken for a reboot loop.
pub const REBOOT_LOOP_WINDOW: u32 = 300;

/// Seconds of countdown before a forced reboot.
pub const SHORT_COUNTDOWN: u64 = 300;

/// Seconds of countdown before a forced reboot in a reboot loop.
pub const LONG_COUNTDOWN: u64 = 3600;

/// The bits of an identifier that hold its version and variant.
pub const VERSION_MASK: u128 = 0x0000_0000_0000_f000_c000_0000_0000_0000;

/// Version and variant of an identifier made of random bits.
pub const VERSION_RANDOM: u128 = 0x0000_0000_0000_4000_8000_0000_0000_0000;

/// The persistent state of one appliance.
#[derive(Debug, Clone, Copy, PartialEq, Eq, Structural)]
pub struct State {
    /// Identifier of this appliance: the 128 bits of a UUID, first byte
    /// highest. Made once, at the first run.
    pub instance_id: u128,
    /// When the state was made.
    pub created_at: Timestamp,
    /// When the manager last rebooted the machine because of a failure;
    /// the epoch before any such reboot.
    pub last_forced_reboot_at: Timestamp,
}

/// Whether `id` is a UUID of version 4 in the variant of RFC 4122.
pub open spec fn is_random_id(id: u128) -> bool {
    id & VERSION_MASK == VERSION_RANDOM
}

/// Seconds of countdown before a forced reboot at `now`, where the last one
/// was at `last`: the long countdown where less than five minutes lie
/// between them, which breaks a reboot loop, else the short one.
pub open spec fn reboot_countdown(now: Timestamp, last: Timestamp) -> u64 {
    if now.since(last) < REBOOT_LOOP_WINDOW * crate::clock::NANOS_PER_SECOND {
        LONG_COUNTDOWN
    } else {
        SHORT_COUNTDOWN
    }
}

/// Calls `uuid::Uuid::new_v4` and hands out `Uuid::as_u128` of it. The
/// bits are random but for the six that `new_v4` sets: version 4, variant
/// of RFC 4122.
#[verifier::external_body]
fn random_id() -> (id: u128)
    ensures
        is_random_id(id),
{
    uuid::Uuid::new_v4().as_u128()
}

impl State {
    /// The state of an appliance that `instance_id` names, made at
    /// `created_at` and never yet rebooted by force.
    pub fn fresh(instance_id: u128, created_at: Timestamp) -> (state: State)
        ensures
            state == (State {
                instance_id,
                created_at,
                last_forced_reboot_at: Timestamp::epoch(),
            }),
    {
        State { instance_id, created_at, last_forced_reboot_at: Timestamp::unix_epoch() }
    }

    /// The state of a new appliance: a random identifier, made now, never
    /// yet rebooted by force.
    pub fn new() -> (state: State)
        ensures
            is_random_id(state.instance_id),
            state.last_forced_reboot_at == Timestamp::epoch(),
    {
        State::fresh(random_id(), utc_now())
    }

    /// Seconds of countdown before a forced reboot at `now`.
    pub fn forced_reboot_countdown(&self, now: &Timestamp) -> (seconds: u64)
        ensures
            seconds == reboot_countdown(*now, self.last_forced_reboot_at),
            seconds == LONG_COUNTDOWN || seconds == SHORT_COUNTDOWN,
    {
        if now.within_seconds_of(&self.last_forced_reboot_at, REBOOT_LOOP_WINDOW) {
            LONG_COUNTDOWN
        } else {
            SHORT_COUNTDOWN
        }
    }

    /// Notes down a forced reboot at `now`.
    pub fn record_forced_reboot(&mut self, now: Timestamp)
        ensures
            *final(self) == (State { last_forced_reboot_at: now, ..*old(self) }),
    {
        self.last_forced_reboot_at = now;
    }
}

/// A forced reboot that follows one noted down at the same reading of the
/// clock, or at a later one, gets the long countdown; so does every one
/// within five minutes. One that follows after five minutes or more gets
/// the short countdown.
pub proof fn lemma_reboot_loop_is_slowed(now: Timestamp, last: Timestamp)
    ensures
        now.since(last) < 300 * 1_000_000_000 ==> reboot_countdown(now, last) == 3600,
        now.since(last) >= 300 * 1_000_000_000 ==> reboot_countdown(now, last) == 300,
        reboot_countdown(now, now) == 3600,
{
}

} // verus!
