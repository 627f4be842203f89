#![allow(non_snake_case)]

use chillffi::errors::{ErrorKind, IoError};
use chillffi::limits::{
    acquirePermit, activeHotPool, activeLimit, activeLimitPublic, activeZygotePool, availableSlots,
    computeAutoDefault, configure, current, defaultBuffer, detected, installed, releasePermit,
    CountingSemaphore, Limits, LimitsState, OsProcessLimits, RecommendedHardCap,
};
use chillffi::platform::low;
use chillffi::platform::transport::Bootstrap;
use chillffi::stats;
use chillffi::zygote::{initZygote, CloneAttempt, ClonedZygote, Pool};

/// Readings as a Linux machine gives them.
const Rlimit: Option<(u64, u64)> = Some((14_248, 65_000));
const ThreadsMax: &[u8] = b"28496\n";

fn noCaps() -> OsProcessLimits {
    OsProcessLimits::default()
}

#[test]
fn detectedReturnsSomethingSane() {
    let os: OsProcessLimits = detected(Rlimit, Some(ThreadsMax));
    let anySome: bool = os.userSoft.is_some() || os.userHard.is_some() || os.systemHard.is_some();
    assert!(anySome, "OS returned no caps at all: {os:?}");

    if let Some(soft) = os.userSoft {
        assert!(soft > 0, "userSoft={soft}");
    }
    if let Some(hard) = os.userHard {
        assert!(hard > 0, "userHard={hard}");
    }
    if let Some(sys) = os.systemHard {
        assert!(sys > 0, "systemHard={sys}");
    }
    assert_eq!(os.userSoft, Some(14_248));
    assert_eq!(os.userHard, Some(65_000));
    assert_eq!(os.systemHard, Some(28_496));
}

#[test]
fn detectedMatchesLowLevel() {
    let a: OsProcessLimits = detected(Rlimit, Some(ThreadsMax));
    let b: low::OsProcessLimits = low::detectProcessLimits(Rlimit, Some(ThreadsMax));
    assert_eq!(a.userSoft, b.userSoft);
    assert_eq!(a.userHard, b.userHard);
    assert_eq!(a.systemHard, b.systemHard);
}

#[test]
fn unlimitedIsNoCap() {
    let os = low::detectProcessLimits(Some((u64::MAX, u64::MAX)), None);
    assert_eq!(os, noCaps());
    let os = low::detectProcessLimits(Some((7, u64::MAX)), None);
    assert_eq!((os.userSoft, os.userHard), (Some(7), None));
    assert_eq!(low::detectProcessLimits(None, Some(b"12")).systemHard, Some(12));
}

#[test]
fn threadCapIsReadFromTheFile() {
    assert_eq!(low::readSystemThreadCap(None), None);
    assert_eq!(low::readSystemThreadCap(Some(b"127318\n")), Some(127_318));
    assert_eq!(low::readSystemThreadCap(Some(b" \t42 \n")), Some(42));
    assert_eq!(low::readSystemThreadCap(Some("\u{a0}42\u{2003}".as_bytes())), Some(42));
    assert_eq!(low::readSystemThreadCap(Some(b"+7")), Some(7));
    assert_eq!(low::readSystemThreadCap(Some(b"18446744073709551615")), Some(u64::MAX));
    assert_eq!(low::readSystemThreadCap(Some(b"18446744073709551616")), None);
    for content in [&b""[..], b"\n", b"-1", b"4 2", b"max", b"+", b"0x10", b"\xff\xfe42"] {
        assert_eq!(low::readSystemThreadCap(Some(content)), None);
    }
}

#[test]
fn alignedAllocationReportsItsCode() {
    assert_eq!(low::allocateAligned(0, 4096), Ok(4096));
    assert_eq!(
        low::allocateAligned(22, 4096),
        Err("posix_memalign failed with code 22".to_string())
    );
    assert_eq!(
        low::allocateAligned(-1, 0),
        Err("posix_memalign failed with code -1".to_string())
    );
    assert_eq!(low::readOsError(), None);
}

#[test]
fn autoDefaultNeverZeroAndClamped() {
    let none: OsProcessLimits = OsProcessLimits::default();
    let l: Limits = computeAutoDefault(none);
    assert_eq!(l.concurrencyLimit, RecommendedHardCap);
    assert_eq!(l.zygotePool, 1);
    assert_eq!(l.hotPool, 0);

    let large: OsProcessLimits = OsProcessLimits {
        userSoft: Some(10_000),
        userHard: Some(10_000),
        systemHard: Some(10_000),
    };
    let l: Limits = computeAutoDefault(large);
    assert_eq!(l.concurrencyLimit, RecommendedHardCap - defaultBuffer());

    let tiny: OsProcessLimits =
        OsProcessLimits { userSoft: Some(1), userHard: Some(1), systemHard: Some(1) };
    let l: Limits = computeAutoDefault(tiny);
    assert_eq!(l.concurrencyLimit, 1);

    let win: OsProcessLimits =
        OsProcessLimits { userSoft: None, userHard: None, systemHard: Some(2048) };
    let l: Limits = computeAutoDefault(win);
    assert_eq!(l.concurrencyLimit, RecommendedHardCap - defaultBuffer());
}

#[test]
fn autoDefaultGoesByTheSmallestCap() {
    let ceiling = |userSoft: Option<u64>, systemHard: Option<u64>| {
        computeAutoDefault(OsProcessLimits { userSoft, userHard: None, systemHard }).concurrencyLimit
    };
    assert_eq!(ceiling(Some(20), Some(30)), 4);
    assert_eq!(ceiling(Some(30), Some(20)), 4);
    assert_eq!(ceiling(Some(17), None), 1);
    assert_eq!(ceiling(Some(16), None), 1);
    assert_eq!(ceiling(Some(0), None), 1);
    assert_eq!(ceiling(None, Some(33)), 16);
    // The hard limit of the user does not enter into it.
    let hardOnly = OsProcessLimits { userSoft: None, userHard: Some(5), systemHard: None };
    assert_eq!(computeAutoDefault(hardOnly).concurrencyLimit, 32);
}

#[test]
fn constants() {
    assert_eq!(RecommendedHardCap, 32);
    assert_eq!(defaultBuffer(), 16);
    assert_eq!(
        Limits::conservative(),
        Limits { zygotePool: 1, hotPool: 0, concurrencyLimit: 16 }
    );
}

#[test]
fn configureRejectsInvalid() {
    let bad0: Limits = Limits { zygotePool: 0, hotPool: 0, concurrencyLimit: 8 };
    let bad1: Limits = Limits { zygotePool: 1, hotPool: 0, concurrencyLimit: 0 };
    let bad2: Limits = Limits { zygotePool: 1, hotPool: 16, concurrencyLimit: 8 };
    let bad3: Limits = Limits { zygotePool: 16, hotPool: 0, concurrencyLimit: 8 };

    let rejects = |l: Limits| configure(&mut LimitsState::new(), l).is_err();
    assert!(rejects(bad0));
    assert!(rejects(bad1));
    assert!(rejects(bad2));
    assert!(rejects(bad3));

    let ok: Limits = Limits { zygotePool: 1, hotPool: 0, concurrencyLimit: 8 };
    assert!(!rejects(ok));
}

#[test]
fn rejectionsSayWhy() {
    let message = |zygotePool: u64, hotPool: u64, concurrencyLimit: u64| {
        let mut state = LimitsState::new();
        let error: IoError = configure(&mut state, Limits { zygotePool, hotPool, concurrencyLimit })
            .expect_err("these limits are invalid");
        assert_eq!(error.kind, ErrorKind::Other);
        assert!(state.active.is_none(), "nothing may be installed");
        error.message
    };
    assert_eq!(
        message(0, 9, 0),
        "limits.zygotePool must be >= 1 (zero Main Zygotes would deadlock)"
    );
    assert_eq!(
        message(1, 9, 0),
        "limits.concurrencyLimit must be >= 1 (zero would deadlock the first ffi!{} block)"
    );
    assert_eq!(
        message(16, 16, 8),
        "limits.hotPool (16) must be <= concurrencyLimit (8) — hot workers are clones"
    );
    assert_eq!(
        message(16, 8, 8),
        "limits.zygotePool (16) must be <= concurrencyLimit (8) — Main Zygotes count against the \
         ceiling while they clone"
    );
}

#[test]
fn configuredLimitsReadBack() {
    let mut state = LimitsState::new();
    let limits = Limits { zygotePool: 2, hotPool: 3, concurrencyLimit: 5 };
    configure(&mut state, limits).expect("valid limits");
    assert_eq!(current(&mut state, noCaps()), limits);
    assert_eq!(activeLimit(&mut state, noCaps()), 5);
    assert_eq!(activeLimitPublic(&mut state, noCaps()), 5);
    assert_eq!(activeZygotePool(&mut state, noCaps()), 2);
    assert_eq!(activeHotPool(&mut state, noCaps()), 3);
    assert_eq!(availableSlots(&mut state, noCaps()), 5);
}

#[test]
fn askingDoesNotInstall() {
    let mut state = LimitsState::new();
    let tiny = OsProcessLimits { userSoft: Some(1), userHard: None, systemHard: None };
    assert_eq!(current(&mut state, tiny).concurrencyLimit, 1);
    // The default was computed once, and is remembered.
    assert_eq!(current(&mut state, noCaps()).concurrencyLimit, 1);
    configure(&mut state, Limits::conservative()).expect("nothing is installed yet");
    assert_eq!(current(&mut state, tiny).concurrencyLimit, 16);
}

#[test]
fn readingLeavesConfigurationOpen() {
    let mut state = LimitsState::new();
    let counters = stats::Counters::new();
    assert_eq!(stats::availableSlots(&counters, &mut state, noCaps()), 32);
    assert_eq!(stats::configured(&mut state, noCaps()).concurrencyLimit, 32);
    assert_eq!(availableSlots(&mut state, noCaps()), 32);
    assert_eq!(activeLimit(&mut state, noCaps()), 32);
    assert_eq!(activeLimitPublic(&mut state, noCaps()), 32);
    assert_eq!(activeZygotePool(&mut state, noCaps()), 1);
    assert_eq!(activeHotPool(&mut state, noCaps()), 0);
    assert!(state.active.is_none(), "nothing was asked for but numbers");

    configure(&mut state, Limits { zygotePool: 1, hotPool: 0, concurrencyLimit: 8 })
        .expect("only a configuration or a wish for a clone can come first");
    assert_eq!(current(&mut state, noCaps()).concurrencyLimit, 8);
    assert_eq!(stats::availableSlots(&counters, &mut state, noCaps()), 8);
}

#[test]
fn theFirstWishForACloneInstallsTheDefault() {
    let mut state = LimitsState::new();
    assert!(acquirePermit(&mut state, noCaps()));
    assert!(configure(&mut state, Limits::conservative()).is_err());
    assert_eq!(current(&mut state, noCaps()).concurrencyLimit, 32);
}

#[test]
fn usingTheDefaultInstallsIt() {
    let mut state = LimitsState::new();
    installed(&mut state, noCaps());
    let error = configure(&mut state, Limits::conservative()).expect_err("it is too late");
    assert_eq!(
        error.message,
        "chillffi::limits::configure called after the limits were already installed (either by an \
         earlier configure() or by the first ffi!{} block); the active limits cannot be changed at \
         runtime"
    );
    assert_eq!(current(&mut state, noCaps()).concurrencyLimit, 32);
}

#[test]
fn permitsComeAndGo() {
    let mut state = LimitsState::new();
    configure(&mut state, Limits { zygotePool: 1, hotPool: 0, concurrencyLimit: 2 })
        .expect("valid limits");
    assert!(acquirePermit(&mut state, noCaps()));
    assert!(acquirePermit(&mut state, noCaps()));
    assert!(!acquirePermit(&mut state, noCaps()));
    assert_eq!(availableSlots(&mut state, noCaps()), 0);
    releasePermit(&mut state);
    assert_eq!(availableSlots(&mut state, noCaps()), 1);
    assert!(acquirePermit(&mut state, noCaps()));
    assert!(!acquirePermit(&mut state, noCaps()));
}

#[test]
fn theSemaphoreCounts() {
    let mut semaphore = CountingSemaphore::new(1);
    assert_eq!(semaphore.available(), 1);
    assert!(semaphore.try_acquire());
    assert_eq!(semaphore.available(), 0);
    assert!(!semaphore.try_acquire());
    semaphore.release();
    assert_eq!(semaphore.available(), 1);
    assert!(!CountingSemaphore::new(0).try_acquire());
}

/// A worker of the workload below: it waits for a clone, and then uses it for
/// a while.
enum Worker {
    Waiting(usize),
    Running(usize, ClonedZygote<u32, u32>),
    Finished,
}

#[test]
fn concurrencyLimitLifecycle() {
    let mut pool: Pool<()> = Pool::new();
    initZygote(&mut pool, Ok((50, ()))).expect("the first Main Zygote");

    let invalidShapes: Vec<Limits> = vec![
        Limits { zygotePool: 0, hotPool: 0, concurrencyLimit: 4 },
        Limits { zygotePool: 1, hotPool: 0, concurrencyLimit: 0 },
        Limits { zygotePool: 1, hotPool: 8, concurrencyLimit: 4 },
        Limits { zygotePool: 8, hotPool: 0, concurrencyLimit: 4 },
    ];
    for limits in &invalidShapes {
        let result: Result<(), IoError> = configure(&mut pool.limits, *limits);
        assert!(
            result.is_err(),
            "configure should have rejected invalid limits: {limits:?}"
        );
    }

    configure(&mut pool.limits, Limits { zygotePool: 1, hotPool: 0, concurrencyLimit: 2 })
        .expect("configure(2) must succeed on a fresh process");

    assert_eq!(current(&mut pool.limits, noCaps()).concurrencyLimit, 2);
    assert_eq!(current(&mut pool.limits, noCaps()).zygotePool, 1);
    assert_eq!(current(&mut pool.limits, noCaps()).hotPool, 0);

    const Threads: usize = 8;
    const PerThread: usize = 20;
    let mut workers: Vec<Worker> = (0..Threads).map(|_| Worker::Waiting(PerThread)).collect();
    let mut peak: u64 = 0;
    let mut waits: u64 = 0;
    let mut totalErrors: u32 = 0;
    let mut completed: usize = 0;
    let mut nextPid: u32 = 1000;
    while workers.iter().any(|worker| !matches!(worker, Worker::Finished)) {
        for worker in &mut workers {
            *worker = match std::mem::replace(worker, Worker::Finished) {
                Worker::Waiting(left) => {
                    let attempt = ClonedZygote::<u32, u32>::getMeClone(&mut pool, noCaps());
                    match attempt {
                        CloneAttempt::Full => {
                            waits += 1;
                            Worker::Waiting(left)
                        }
                        CloneAttempt::Refused(_) => {
                            totalErrors += 1;
                            Worker::Finished
                        }
                        CloneAttempt::Granted(pending) => {
                            nextPid += 1;
                            let spawned =
                                Ok(Bootstrap { pid: nextPid, requestTx: 0u32, responseRx: 0u32 });
                            let clone = pending.complete(&mut pool, spawned).ok().expect("no clone");
                            peak = peak.max(stats::activeClones(&pool.counters));
                            Worker::Running(left - 1, clone)
                        }
                    }
                }
                Worker::Running(left, clone) => {
                    let ending = clone.drop(&mut pool);
                    ending.killed(&mut pool);
                    completed += 1;
                    if left == 0 {
                        Worker::Finished
                    } else {
                        Worker::Waiting(left)
                    }
                }
                Worker::Finished => Worker::Finished,
            };
        }
    }

    assert_eq!(
        totalErrors, 0,
        "no ffi!{{}} block may error just because the concurrency limit is full"
    );
    assert_eq!(completed, Threads * PerThread);
    assert!(waits > 0, "the workload never reached the limit");
    assert!(peak <= 2, "peak activeClones ({peak}) exceeded the configured limit (2)");
    assert!(peak >= 1, "peak activeClones ({peak}) stayed at 0");

    let active: u64 = stats::activeClones(&pool.counters);
    assert_eq!(active, 0, "after all workers join, no clones may be in flight");
    assert!(stats::zygotesAlive(&pool.counters) >= 1, "Main Zygote must still be alive");
    assert_eq!(stats::hotAlive(), 0, "no hot pool today");
    assert_eq!(
        stats::availableSlots(&pool.counters, &mut pool.limits, noCaps()),
        stats::configured(&mut pool.limits, noCaps()).concurrencyLimit,
        "availableSlots must equal concurrencyLimit when no clones are in flight"
    );

    let result: Result<(), IoError> =
        configure(&mut pool.limits, Limits { zygotePool: 1, hotPool: 0, concurrencyLimit: 4 });
    let err = result.expect_err("configure() after install must error, not silently no-op");
    assert!(
        err.message.contains("already installed"),
        "error message should mention \"already installed\", got: {err:?}"
    );
}
