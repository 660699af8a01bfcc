//! How long a namespace has been idle, and the tier that the idle time
//! puts it in.

use crate::clock::{Age, Timestamp, NANOS_PER_WEEK};
use vstd::prelude::*;

verus! {

/// Idle weeks past which admins are reminded.
pub const NUDGE_WEEKS: u16 = 12;

/// Idle weeks past which workloads are scaled to nothing.
pub const SPIN_DOWN_WEEKS: u16 = 16;

/// Idle weeks past which the namespace is archived and deleted.
pub const ARCHIVE_WEEKS: u16 = 24;

/// How much attention an idle namespace calls for, mildest first.
#[derive(Clone, Copy, Debug, PartialEq, Eq, Structural)]
pub enum Tier {
    /// Recently active: nothing is done.
    Fresh,
    /// Admins are reminded.
    Nudge,
    /// Workloads are scaled to zero replicas, admins are told.
    SpinDown,
    /// The namespace is exported, deleted and forgotten, admins are told.
    Archive,
}

/// The span of `weeks` whole weeks, in nanoseconds.
pub open spec fn weeks(weeks: int) -> int {
    weeks * 604_800_000_000_000
}

/// The tier of an idle time: the harshest one whose threshold the idle
/// time strictly exceeds.
pub open spec fn tier_of(idle: int) -> Tier {
    if idle > weeks(24) {
        Tier::Archive
    } else if idle > weeks(16) {
        Tier::SpinDown
    } else if idle > weeks(12) {
        Tier::Nudge
    } else {
        Tier::Fresh
    }
}

/// The timestamp from which idle time is counted: the last update where
/// the span from the discovery to it is more than nothing, else the
/// discovery; the last update also where no discovery date is known.
pub open spec fn reference_of(discovery: Option<Timestamp>, last_update: Timestamp) -> Timestamp {
    match discovery {
        Some(d) => if last_update.since(d) > 0 {
            last_update
        } else {
            d
        },
        None => last_update,
    }
}

/// The idle time at `now`, in nanoseconds.
pub open spec fn idle_at(
    discovery: Option<Timestamp>,
    last_update: Timestamp,
    now: Timestamp,
) -> int {
    now.since(reference_of(discovery, last_update))
}

impl Tier {
    /// Position in the order of tiers, `Fresh` being 0.
    pub open spec fn rank(self) -> int {
        match self {
            Tier::Fresh => 0,
            Tier::Nudge => 1,
            Tier::SpinDown => 2,
            Tier::Archive => 3,
        }
    }

    /// The name under which the tier's action is reported.
    pub open spec fn label(self) -> Seq<char> {
        match self {
            Tier::Fresh => "Fresh"@,
            Tier::Nudge => "Nudge"@,
            Tier::SpinDown => "Spin-Down"@,
            Tier::Archive => "Archive"@,
        }
    }

    /// The name under which the tier's action is reported.
    pub fn action_name(&self) -> (name: &'static str)
        ensures
            name@ == self.label(),
    {
        match self {
            Tier::Fresh => "Fresh",
            Tier::Nudge => "Nudge",
            Tier::SpinDown => "Spin-Down",
            Tier::Archive => "Archive",
        }
    }
}

/// Puts an idle time in its tier. The thresholds are checked from the
/// longest down, and an idle time that equals a threshold stays below it.
pub fn classify(idle: Age) -> (tier: Tier)
    ensures
        tier == tier_of(idle.nanos as int),
        tier is Archive <==> idle.nanos > weeks(24),
        tier is SpinDown <==> weeks(16) < idle.nanos <= weeks(24),
        tier is Nudge <==> weeks(12) < idle.nanos <= weeks(16),
        tier is Fresh <==> idle.nanos <= weeks(12),
{
    if idle.nanos > (ARCHIVE_WEEKS as i128) * NANOS_PER_WEEK {
        Tier::Archive
    } else if idle.nanos > (SPIN_DOWN_WEEKS as i128) * NANOS_PER_WEEK {
        Tier::SpinDown
    } else if idle.nanos > (NUDGE_WEEKS as i128) * NANOS_PER_WEEK {
        Tier::Nudge
    } else {
        Tier::Fresh
    }
}

/// Picks the timestamp from which idle time is counted.
pub fn reference_timestamp(
    discovery: Option<Timestamp>,
    last_update: Timestamp,
) -> (reference: Timestamp)
    ensures
        reference == reference_of(discovery, last_update),
{
    match discovery {
        Some(d) => if last_update.nanos_since(&d).nanos > 0 {
            last_update
        } else {
            d
        },
        None => last_update,
    }
}

/// The idle time of a namespace at `now`.
pub fn effective_age(
    discovery: Option<Timestamp>,
    last_update: Timestamp,
    now: Timestamp,
) -> (idle: Age)
    ensures
        idle.nanos == idle_at(discovery, last_update, now),
{
    let reference = reference_timestamp(discovery, last_update);
    now.nanos_since(&reference)
}

/// Idle time never runs backwards: between two looks at an unchanged
/// record, the first no earlier than the record's reference timestamp and
/// the second no earlier than the first, the idle time is not negative
/// and does not shrink, and the tier does not get milder. This is said of
/// timestamps outside leap seconds; within one, the span to a later look
/// can come out shorter than the time that has passed.
pub proof fn lemma_idle_time_grows(
    discovery: Option<Timestamp>,
    last_update: Timestamp,
    first_look: Timestamp,
    second_look: Timestamp,
)
    requires
        !reference_of(discovery, last_update).in_leap_second(),
        !first_look.in_leap_second(),
        !second_look.in_leap_second(),
        !reference_of(discovery, last_update).follows(first_look),
        !first_look.follows(second_look),
    ensures
        0 <= idle_at(discovery, last_update, first_look),
        idle_at(discovery, last_update, first_look) <= idle_at(
            discovery,
            last_update,
            second_look,
        ),
        tier_of(idle_at(discovery, last_update, first_look)).rank() <= tier_of(
            idle_at(discovery, last_update, second_look),
        ).rank(),
{
}

/// The reference timestamp is one of the two dates, and the span from
/// either date to it is not negative: neither a stale last update nor an
/// old discovery can make a namespace look more idle than the other date
/// allows.
pub proof fn lemma_reference_is_latest(discovery: Timestamp, last_update: Timestamp)
    ensures
        reference_of(Some(discovery), last_update).since(discovery) >= 0,
        reference_of(Some(discovery), last_update).since(last_update) >= 0,
        reference_of(Some(discovery), last_update) == discovery || reference_of(
            Some(discovery),
            last_update,
        ) == last_update,
{
}

/// Every idle time has exactly one tier, and a longer idle time never has
/// a milder one.
pub proof fn lemma_tiers_partition(idle: int, longer: int)
    requires
        idle <= longer,
    ensures
        tier_of(idle) is Archive <==> idle > weeks(24),
        tier_of(idle) is SpinDown <==> weeks(16) < idle <= weeks(24),
        tier_of(idle) is Nudge <==> weeks(12) < idle <= weeks(16),
        tier_of(idle) is Fresh <==> idle <= weeks(12),
        tier_of(idle).rank() <= tier_of(longer).rank(),
{
}

} // verus!
