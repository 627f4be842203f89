#![allow(non_snake_case)]

use chillffi::ffi::session::Runtime;
use chillffi::limits::{availableSlots, OsProcessLimits};
use chillffi::platform::transport::Bootstrap;
use chillffi::stats;
use chillffi::stats::{
    activeClones, configured, hotAlive, onCloneDropped, onCloneSpawned, onZygoteRetired,
    onZygoteSpawned, zygotesAlive, Counters,
};
use chillffi::zygote::{CloneAttempt, ClonedZygote, Pool};
use chillffi::{setupZygote, zygoteEntrypoint, StartupStep};

fn noCaps() -> OsProcessLimits {
    OsProcessLimits::default()
}

/// What the start of an ordinary process leaves behind.
fn startedPool() -> Pool<()> {
    let mut runtime = Runtime::new();
    let mut pool: Pool<()> = Pool::new();
    match zygoteEntrypoint(&["program".to_string()]) {
        StartupStep::SetUpRuntime => {
            setupZygote(&mut runtime, &mut pool, Ok((50, ()))).expect("the first Main Zygote")
        }
        StartupStep::RunAsZygote => panic!("an ordinary process is no zygote"),
    }
    assert!(runtime.zygoteInitialized);
    pool
}

fn cloneOf(pool: &mut Pool<()>) -> ClonedZygote<u32, u32> {
    let attempt = ClonedZygote::<u32, u32>::getMeClone(pool, noCaps());
    match attempt {
        CloneAttempt::Granted(pending) => pending
            .complete(pool, Ok(Bootstrap { pid: 9, requestTx: 1u32, responseRx: 2u32 }))
            .ok()
            .expect("no clone"),
        _ => panic!("no slot"),
    }
}

#[test]
fn activeClonesIsCallable() {
    let mut pool = startedPool();
    let clone = cloneOf(&mut pool);
    let ending = clone.drop(&mut pool);
    ending.killed(&mut pool);
    let n: u64 = activeClones(&pool.counters);
    assert!(n < u64::MAX / 2, "activeClones is not a runaway counter");
}

#[test]
fn availableSlotsMatchesLimitMinusActive() {
    let mut pool = startedPool();
    let mut clones = Vec::new();
    for _ in 0..32 {
        let limit: u64 = configured(&mut pool.limits, noCaps()).concurrencyLimit;
        let active: u64 = activeClones(&pool.counters);
        let avail: u64 = availableSlots(&mut pool.limits, noCaps());
        assert_eq!(avail, limit.saturating_sub(active));
        assert_eq!(stats::availableSlots(&pool.counters, &mut pool.limits, noCaps()), avail);
        clones.push(cloneOf(&mut pool));
    }
    assert_eq!(availableSlots(&mut pool.limits, noCaps()), 0);
}

#[test]
fn availableSlotsNeverGoBelowZero() {
    let mut pool = startedPool();
    let overfull = Counters { activeClones: 1000, zygotesAlive: 1 };
    assert_eq!(stats::availableSlots(&overfull, &mut pool.limits, noCaps()), 0);
}

#[test]
fn zygotesAliveIsAtLeastOne() {
    let pool = startedPool();
    assert!(zygotesAlive(&pool.counters) >= 1);
}

#[test]
fn hotAliveIsZeroToday() {
    assert_eq!(hotAlive(), 0);
}

#[test]
fn hooksCount() {
    let mut counters = Counters::new();
    onCloneSpawned(&mut counters);
    onCloneSpawned(&mut counters);
    onCloneDropped(&mut counters);
    onZygoteSpawned(&mut counters);
    assert_eq!(counters, Counters { activeClones: 1, zygotesAlive: 1 });
    onZygoteRetired(&mut counters);
    assert_eq!(counters, Counters { activeClones: 1, zygotesAlive: 0 });
}
