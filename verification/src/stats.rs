//! Live process counters: the runtime view of the pools that
//! [`crate::limits`] declares.
//!
//! - [`activeClones`]: clones that are running.
//! - [`availableSlots`]: clones that could start without waiting.
//! - [`zygotesAlive`]: Main Zygotes that are alive.
//! - [`hotAlive`]: clones kept warm between blocks, always none.
//! - [`configured`]: the limits that hold.
//!
//! All of them are reads: none puts limits in force.
use crate::limits::{activeLimitPublic, current, Limits, LimitsState, OsProcessLimits};
use vstd::prelude::*;

verus! {

/// The live counters of a process.
#[derive(Debug, Clone, Copy, PartialEq, Eq, Structural)]
pub struct Counters {
    /// Clones that are running.
    pub activeClones: u64,
    /// Main Zygotes that are alive.
    pub zygotesAlive: u64,
}

impl Counters {
    /// Nothing is running.
    pub fn new() -> (counters: Self)
        ensures
            counters == (Counters { activeClones: 0, zygotesAlive: 0 }),
    {
        Counters { activeClones: 0, zygotesAlive: 0 }
    }
}

/// A clone has been spawned.
pub fn onCloneSpawned(counters: &mut Counters)
    ensures
        *final(counters) == (Counters {
            activeClones: old(counters).activeClones.wrapping_add(1),
            ..*old(counters)
        }),
{
    counters.activeClones = counters.activeClones.wrapping_add(1);
}

/// A clone is about to be killed.
pub fn onCloneDropped(counters: &mut Counters)
    ensures
        *final(counters) == (Counters {
            activeClones: old(counters).activeClones.wrapping_sub(1),
            ..*old(counters)
        }),
{
    counters.activeClones = counters.activeClones.wrapping_sub(1);
}

/// A Main Zygote has been spawned.
pub fn onZygoteSpawned(counters: &mut Counters)
    ensures
        *final(counters) == (Counters {
            zygotesAlive: old(counters).zygotesAlive.wrapping_add(1),
            ..*old(counters)
        }),
{
    counters.zygotesAlive = counters.zygotesAlive.wrapping_add(1);
}

/// A Main Zygote is gone.
pub fn onZygoteRetired(counters: &mut Counters)
    ensures
        *final(counters) == (Counters {
            zygotesAlive: old(counters).zygotesAlive.wrapping_sub(1),
            ..*old(counters)
        }),
{
    counters.zygotesAlive = counters.zygotesAlive.wrapping_sub(1);
}

/// Number of clones that are running.
pub fn activeClones(counters: &Counters) -> (count: u64)
    ensures
        count == counters.activeClones,
{
    counters.activeClones
}

/// Number of Main Zygotes that are alive.
pub fn zygotesAlive(counters: &Counters) -> (count: u64)
    ensures
        count == counters.zygotesAlive,
{
    counters.zygotesAlive
}

/// Number of clones kept warm between blocks: there are none.
pub fn hotAlive() -> (count: u64)
    ensures
        count == 0,
{
    0
}

/// Number of clones that could start right now without waiting, as far as the
/// running ones tell: the ceiling less the clones that are running. Reading it
/// installs no limits.
pub fn availableSlots(counters: &Counters, state: &mut LimitsState, os: OsProcessLimits) -> (slots:
    u64)
    requires
        old(state).wf(),
    ensures
        final(state).wf(),
        old(state).remembers(os, *final(state)),
        slots == (if counters.activeClones <= old(state).effective(os).concurrencyLimit {
            old(state).effective(os).concurrencyLimit - counters.activeClones
        } else {
            0
        }),
{
    let limit: u64 = activeLimitPublic(state, os);
    let active: u64 = activeClones(counters);
    limit.saturating_sub(active)
}

/// The limits that hold.
pub fn configured(state: &mut LimitsState, os: OsProcessLimits) -> (limits: Limits)
    requires
        old(state).wf(),
    ensures
        final(state).wf(),
        limits == old(state).effective(os),
        old(state).remembers(os, *final(state)),
{
    current(state, os)
}

/// A clone that is spawned counts as one more, and one that is dropped as one less;
/// the Main Zygotes are not touched. Spawned and dropped again, it leaves the count as
/// it was.
pub proof fn clonesAreCountedOneByOne(spawned: &mut Counters, dropped: &mut Counters)
    requires
        call_ensures(onCloneSpawned, (spawned,), ()),
        call_ensures(onCloneDropped, (dropped,), ()),
    ensures
        old(spawned).activeClones < u64::MAX ==> final(spawned).activeClones
            == old(spawned).activeClones + 1,
        final(spawned).zygotesAlive == old(spawned).zygotesAlive,
        old(dropped).activeClones > 0 ==> final(dropped).activeClones == old(dropped).activeClones
            - 1,
        final(dropped).zygotesAlive == old(dropped).zygotesAlive,
        *old(dropped) == *final(spawned) ==> *final(dropped) == *old(spawned),
{
}

/// A Main Zygote that is spawned counts as one more, and one that is gone as one less;
/// the clones are not touched.
pub proof fn zygotesAreCountedOneByOne(spawned: &mut Counters, retired: &mut Counters)
    requires
        call_ensures(onZygoteSpawned, (spawned,), ()),
        call_ensures(onZygoteRetired, (retired,), ()),
    ensures
        old(spawned).zygotesAlive < u64::MAX ==> final(spawned).zygotesAlive
            == old(spawned).zygotesAlive + 1,
        final(spawned).activeClones == old(spawned).activeClones,
        old(retired).zygotesAlive > 0 ==> final(retired).zygotesAlive == old(retired).zygotesAlive
            - 1,
        final(retired).activeClones == old(retired).activeClones,
        *old(retired) == *final(spawned) ==> *final(retired) == *old(spawned),
{
}

/// What is read is what is counted: the clones, the Main Zygotes, and no warm clone.
pub proof fn countersAreReadAsTheyAre(
    counters: Counters,
    clones: u64,
    zygotes: u64,
    warm: u64,
    fresh: Counters,
)
    requires
        call_ensures(activeClones, (&counters,), clones),
        call_ensures(zygotesAlive, (&counters,), zygotes),
        call_ensures(hotAlive, (), warm),
        call_ensures(Counters::new, (), fresh),
    ensures
        clones == counters.activeClones,
        zygotes == counters.zygotesAlive,
        warm == 0,
        fresh.activeClones == 0 && fresh.zygotesAlive == 0,
{
}

/// The clones that are running and those that could still start make up the ceiling;
/// where more are running than it allows, none could. The limits that are read beside
/// the counters are those that hold.
pub proof fn slotsAndClonesMakeUpTheCeiling(
    counters: Counters,
    state: &mut LimitsState,
    os: OsProcessLimits,
    slots: u64,
    read: &mut LimitsState,
    limits: Limits,
)
    requires
        old(state).wf(),
        old(read).wf(),
        call_ensures(availableSlots, (&counters, state, os), slots),
        call_ensures(configured, (read, os), limits),
    ensures
        counters.activeClones <= old(state).effective(os).concurrencyLimit ==> slots
            + counters.activeClones == old(state).effective(os).concurrencyLimit,
        counters.activeClones > old(state).effective(os).concurrencyLimit ==> slots == 0,
        final(state).active == old(state).active,
        limits == old(read).effective(os),
        final(read).active == old(read).active,
{
}

} // verus!
