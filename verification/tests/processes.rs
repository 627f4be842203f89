//! The processes, step by step.
#![allow(non_snake_case)]

use chillffi::errors::{ErrorKind, FFIError, IoError};
use chillffi::ffi::types::Value;
use chillffi::platform::ipc::{FFIRequest, FFIResponse};
use chillffi::platform::transport::{
    acceptCloneBootstrap, cloneBirth, cloneBootstrapLoop, handleRequest, runAsClone, watchdog,
    zygoteLoop, BirthEvent, BirthStep, Bootstrap, BootstrapEvent, BootstrapStep, CloneFlag,
    CloneOutcome, CloneSide, CloneSpawnEvent, CloneSpawnStep, RuntimeSide, ServeEvent, ServeStep,
    Transport, WaitOutcome, ZygoteCommand, ZygoteEvent, ZygoteFlag, ZygoteReply, ZygoteSpawnEvent,
    ZygoteSpawnStep, ZygoteStep, CloneBootstrapTimeout, WatchdogInterval,
};
use chillffi::zygote::{
    initZygote, runAsZygote, supervisorLoop, CloneAttempt, ClonedZygote, Pool, SupervisorEvent,
    SupervisorStep,
};
use chillffi::limits::OsProcessLimits;
use chillffi::stats::{activeClones, zygotesAlive};
use chillffi::{zygoteEntrypoint, StartupStep};

type ZygoteSpawn = ZygoteSpawnEvent<u32, char, bool>;
type CloneSpawn = CloneSpawnEvent<char, bool>;

fn text(words: &str) -> String {
    words.to_string()
}

fn said(error: IoError, kind: ErrorKind, message: &str) {
    assert_eq!(error.kind, kind);
    assert_eq!(error.message, message);
}

fn failedStart(event: ZygoteSpawn) -> IoError {
    match Transport::spawnZygote(event) {
        ZygoteSpawnStep::Over(Err(error)) => error,
        _ => panic!("this should have failed"),
    }
}

fn failedClone(event: CloneSpawn) -> IoError {
    match Transport::sendSpawnClone(event) {
        CloneSpawnStep::Over(Err(error)) => error,
        _ => panic!("this should have failed"),
    }
}

#[test]
fn names() {
    assert_eq!(Transport::name(), "windows-rtlcloneuserprocess");
    assert_eq!(ZygoteFlag, "__zygote");
    assert_eq!(CloneFlag, "__zygoteClone");
    assert_eq!((CloneBootstrapTimeout, WatchdogInterval), (20_000, 10));
}

#[test]
fn theZygoteIsStartedStepByStep() {
    let arguments = match Transport::spawnZygote(ZygoteSpawn::Server(Ok(text("server-1")))) {
        ZygoteSpawnStep::Start(arguments) => arguments,
        _ => panic!("a process should be started"),
    };
    assert_eq!(arguments, vec![text("__zygote"), text("server-1")]);

    // The process that gets these arguments knows what it is.
    let mut commandLine = vec![text("/usr/bin/program")];
    commandLine.extend(arguments);
    assert_eq!(zygoteEntrypoint(&commandLine), StartupStep::RunAsZygote);
    let flag = runAsZygote(&commandLine);
    assert_eq!(flag, Some(text("server-1")));
    assert_eq!(Transport::zygoteControlLoop(flag), "server-1");

    match Transport::spawnZygote(ZygoteSpawn::Started(Ok(42))) {
        ZygoteSpawnStep::Accept(process) => assert_eq!(process, 42),
        _ => panic!("the process should be waited for"),
    }
    match Transport::spawnZygote(ZygoteSpawn::Accepted(42, Ok(('t', true)))) {
        ZygoteSpawnStep::Over(Ok(handle)) => {
            assert_eq!((handle.base, handle.commandTx, handle.replyRx), (42, 't', true))
        }
        _ => panic!("the Main Zygote should be there"),
    }
}

#[test]
fn startingTheZygoteCanFail() {
    said(failedStart(ZygoteSpawn::Server(Err(text("no pipe")))), ErrorKind::Other, "no pipe");
    let error = IoError { kind: ErrorKind::NotFound, message: text("no executable") };
    said(failedStart(ZygoteSpawn::Started(Err(error))), ErrorKind::NotFound, "no executable");
    said(
        failedStart(ZygoteSpawn::Accepted(42, Err(text("closed")))),
        ErrorKind::Other,
        "zygote bootstrap accept: closed",
    );
}

#[test]
fn ordinaryProcessesAreNoZygotes() {
    let ordinary = [
        vec![],
        vec![text("__zygote")],
        vec![text("program"), text("__zygoteClone"), text("server")],
        vec![text("program"), text("--help"), text("__zygote")],
    ];
    for commandLine in &ordinary {
        assert_eq!(zygoteEntrypoint(commandLine), StartupStep::SetUpRuntime, "{commandLine:?}");
    }
    assert_eq!(
        zygoteEntrypoint(&[text("program"), text("__zygote")]),
        StartupStep::RunAsZygote
    );
    assert_eq!(runAsZygote(&[text("program"), text("__zygote")]), None);
    assert_eq!(runAsClone(&[text("program"), text("__zygoteClone"), text("server-9")]), "server-9");
    assert_eq!(Transport::cloneEnter(Some(text("server-9"))), "server-9");
}

#[test]
fn clonesAreAskedForStepByStep() {
    let command = match Transport::sendSpawnClone(CloneSpawn::Server(Ok(text("server-2")))) {
        CloneSpawnStep::Send(command) => command,
        _ => panic!("a command should be sent"),
    };
    assert_eq!(command, ZygoteCommand::SpawnClone { bootstrapName: text("server-2") });
    assert!(matches!(
        Transport::sendSpawnClone(CloneSpawn::Sent(Ok(()))),
        CloneSpawnStep::Receive
    ));
    let step = Transport::sendSpawnClone(CloneSpawn::Replied(Ok(ZygoteReply::Cloned { pid: 8 })));
    assert!(matches!(step, CloneSpawnStep::Accept(8)));
    let bootstrap = match Transport::sendSpawnClone(CloneSpawn::Accepted(8, Ok(('q', false)))) {
        CloneSpawnStep::Over(Ok(bootstrap)) => bootstrap,
        _ => panic!("the clone should be there"),
    };
    assert_eq!(Transport::bootstrapPid(&bootstrap), 8);
    let side = Transport::runtimeConnect(bootstrap).ok().expect("nothing to wait for");
    assert_eq!((side.requestTx, side.responseRx), ('q', false));
}

#[test]
fn theRuntimeAndTheZygoteUnderstandEachOther() {
    let command = match Transport::sendSpawnClone(CloneSpawn::Server(Ok(text("server-4")))) {
        CloneSpawnStep::Send(command) => command,
        _ => panic!("a command should be sent"),
    };
    let requested = match zygoteLoop(ZygoteEvent::Received(Some(command))) {
        ZygoteStep::Clone { bootstrapName } => bootstrapName,
        _ => panic!("the process should be cloned"),
    };
    match zygoteLoop(ZygoteEvent::Cloned(requested.clone(), CloneOutcome::Child)) {
        ZygoteStep::BecomeClone { bootstrapName } => assert_eq!(bootstrapName, "server-4"),
        _ => panic!("this process is the clone"),
    }
    let outcome = CloneOutcome::Parent { pid: 77 };
    let reply = match zygoteLoop(ZygoteEvent::Cloned(requested.clone(), outcome)) {
        ZygoteStep::Reply(reply) => reply,
        _ => panic!("the Runtime should hear of it"),
    };
    assert!(matches!(
        Transport::sendSpawnClone(CloneSpawn::Replied(Ok(reply))),
        CloneSpawnStep::Accept(77)
    ));
    let reply = match zygoteLoop(ZygoteEvent::Cloned(requested, CloneOutcome::Failed)) {
        ZygoteStep::Reply(reply) => reply,
        _ => panic!("the Runtime should hear of it"),
    };
    said(
        failedClone(CloneSpawn::Replied(Ok(reply))),
        ErrorKind::Other,
        "Main zygote failed to create a clone (RtlCloneUserProcess failed)",
    );
}

#[test]
fn askingForACloneCanFail() {
    said(failedClone(CloneSpawn::Server(Err(text("no pipe")))), ErrorKind::Other, "no pipe");
    said(
        failedClone(CloneSpawn::Sent(Err(text("closed")))),
        ErrorKind::BrokenPipe,
        "SpawnClone send failed: closed",
    );
    said(
        failedClone(CloneSpawn::Replied(Err(text("closed")))),
        ErrorKind::BrokenPipe,
        "SpawnClone reply failed: closed",
    );
    said(
        failedClone(CloneSpawn::Replied(Ok(ZygoteReply::SpawnFailed))),
        ErrorKind::Other,
        "Main zygote failed to create a clone (RtlCloneUserProcess failed)",
    );
    said(
        failedClone(CloneSpawn::Replied(Ok(ZygoteReply::Cloned { pid: 0 }))),
        ErrorKind::Other,
        "Main zygote failed to create a clone (pid=0)",
    );
    let error = IoError { kind: ErrorKind::Other, message: text("gone") };
    said(failedClone(CloneSpawn::Accepted(8, Err(error))), ErrorKind::Other, "gone");
}

#[test]
fn theWatchdogGivesUp() {
    assert_eq!(watchdog(12, None, 0), None);
    assert_eq!(watchdog(12, None, 19_999), None);
    assert_eq!(watchdog(12, None, 20_000), Some(text("clone 12 did not bootstrap within 20s")));
    assert_eq!(
        watchdog(12, Some(0xc000_0005), 3),
        Some(text("clone 12 exited with code 0xc0000005 before bootstrap"))
    );
    assert_eq!(
        watchdog(12, Some(0), 30_000),
        Some(text("clone 12 exited with code 0x0 before bootstrap"))
    );
    assert_eq!(
        watchdog(12, Some(13), 1),
        Some(text("clone 12 exited with code 0xd before bootstrap"))
    );
}

#[test]
fn waitingForACloneEnds() {
    let (result, kill) = acceptCloneBootstrap(5, WaitOutcome::Ended(Ok('b'), None));
    assert_eq!((result, kill), (Ok('b'), false));
    // A report that came in spite of the watchdog counts.
    let (result, kill) = acceptCloneBootstrap(5, WaitOutcome::Ended(Ok('b'), Some(text("late"))));
    assert_eq!((result, kill), (Ok('b'), false));

    let failed = |outcome: WaitOutcome<char>, message: &str| {
        let (result, kill) = acceptCloneBootstrap(5, outcome);
        said(result.expect_err("this should have failed"), ErrorKind::Other, message);
        assert!(kill, "nobody else will");
    };
    failed(WaitOutcome::NoWatchdog(text("no thread")), "clone watchdog spawn failed: no thread");
    failed(WaitOutcome::Ended(Err(text("closed")), Some(text("the reason"))), "the reason");
    failed(
        WaitOutcome::Ended(Err(text("closed")), None),
        "clone 5 bootstrap accept failed: closed",
    );
}

#[test]
fn theZygoteServes() {
    assert!(matches!(zygoteLoop(ZygoteEvent::CommandChannel(true)), ZygoteStep::MakeReplyChannel));
    assert!(matches!(zygoteLoop(ZygoteEvent::ReplyChannel(true)), ZygoteStep::Connect));
    assert!(matches!(zygoteLoop(ZygoteEvent::Connected(true)), ZygoteStep::Announce));
    assert!(matches!(zygoteLoop(ZygoteEvent::Announced(true)), ZygoteStep::Receive));
    for event in [
        ZygoteEvent::CommandChannel(false),
        ZygoteEvent::ReplyChannel(false),
        ZygoteEvent::Connected(false),
        ZygoteEvent::Announced(false),
    ] {
        assert!(matches!(zygoteLoop(event), ZygoteStep::Exit(1)));
    }

    let command = ZygoteCommand::SpawnClone { bootstrapName: text("server-3") };
    match zygoteLoop(ZygoteEvent::Received(Some(command))) {
        ZygoteStep::Clone { bootstrapName } => assert_eq!(bootstrapName, "server-3"),
        _ => panic!("the process should be cloned"),
    }
    assert!(matches!(zygoteLoop(ZygoteEvent::Received(None)), ZygoteStep::Exit(0)));

    let cloned = |outcome: CloneOutcome| zygoteLoop(ZygoteEvent::Cloned(text("server-3"), outcome));
    assert!(matches!(
        cloned(CloneOutcome::Parent { pid: 31 }),
        ZygoteStep::Reply(ZygoteReply::Cloned { pid: 31 })
    ));
    assert!(matches!(
        cloned(CloneOutcome::Failed),
        ZygoteStep::Reply(ZygoteReply::SpawnFailed)
    ));
    match cloned(CloneOutcome::Child) {
        ZygoteStep::BecomeClone { bootstrapName } => assert_eq!(bootstrapName, "server-3"),
        _ => panic!("this process is the clone"),
    }
    assert!(matches!(zygoteLoop(ZygoteEvent::Replied), ZygoteStep::Receive));
}

#[test]
fn aCloneComesUp() {
    assert_eq!(cloneBirth(BirthEvent::Born), BirthStep::ReconnectCsr);
    assert_eq!(cloneBirth(BirthEvent::CsrReconnected(true)), BirthStep::ReattachConsole);
    assert_eq!(cloneBirth(BirthEvent::CsrReconnected(false)), BirthStep::SilenceCrashReporting);
    assert_eq!(cloneBirth(BirthEvent::ConsoleReattached), BirthStep::SilenceCrashReporting);
    assert_eq!(cloneBirth(BirthEvent::Silenced), BirthStep::Bootstrap);

    assert!(matches!(
        cloneBootstrapLoop(BootstrapEvent::RequestChannel(Ok(()))),
        BootstrapStep::MakeResponseChannel
    ));
    assert!(matches!(
        cloneBootstrapLoop(BootstrapEvent::ResponseChannel(Ok(()))),
        BootstrapStep::Connect
    ));
    assert!(matches!(
        cloneBootstrapLoop(BootstrapEvent::Connected(Ok(()))),
        BootstrapStep::Announce
    ));
    assert!(matches!(
        cloneBootstrapLoop(BootstrapEvent::Announced(Ok(()))),
        BootstrapStep::Serve
    ));
}

#[test]
fn aCloneThatCannotReportSaysSo() {
    let died = |event: BootstrapEvent, expected: &str, exit: i32| match cloneBootstrapLoop(event) {
        BootstrapStep::Die { line, code } => assert_eq!((line.as_str(), code), (expected, exit)),
        _ => panic!("the clone should have died"),
    };
    died(
        BootstrapEvent::RequestChannel(Err(text("e1"))),
        "[clone] request channel failed: e1",
        11,
    );
    died(
        BootstrapEvent::ResponseChannel(Err(text("e2"))),
        "[clone] response channel failed: e2",
        12,
    );
    died(BootstrapEvent::Connected(Err(text("e3"))), "[clone] bootstrap connect failed: e3", 13);
    died(BootstrapEvent::Announced(Err(text("e4"))), "[clone] bootstrap send failed: e4", 14);
}

#[test]
fn aCloneServes() {
    let side = CloneSide { requestRx: (), responseTx: () };
    assert!(matches!(side.run(ServeEvent::Started), ServeStep::Receive));
    match side.run(ServeEvent::Received(Some(FFIRequest::Free { address: 3 }))) {
        ServeStep::Handle(request) => assert_eq!(request, FFIRequest::Free { address: 3 }),
        _ => panic!("the request should be handled"),
    }
    assert!(matches!(side.run(ServeEvent::Received(None)), ServeStep::Exit(0)));

    let response = handleRequest(Ok(Value::I32(-1)), Some(2), Some(5));
    assert_eq!(response, FFIResponse::Done(Value::I32(-1), Some(2), Some(5)));
    match side.run(ServeEvent::Handled(Some(response))) {
        ServeStep::Send(answer) => {
            assert_eq!(answer, FFIResponse::Done(Value::I32(-1), Some(2), Some(5)))
        }
        _ => panic!("the answer should be sent"),
    }
    let response = handleRequest(Err(FFIError::BadArgument(text("x"))), Some(2), Some(5));
    assert_eq!(response, FFIResponse::Failed(FFIError::BadArgument(text("x"))));

    match side.run(ServeEvent::Handled(None)) {
        ServeStep::Send(answer) => assert_eq!(
            answer,
            FFIResponse::Failed(FFIError::Other(text("clone panicked while handling request")))
        ),
        _ => panic!("a panic should be answered"),
    }
    assert!(matches!(side.run(ServeEvent::Sent(true)), ServeStep::Receive));
    assert!(matches!(side.run(ServeEvent::Sent(false)), ServeStep::Exit(0)));
}

#[test]
fn channelErrorsAreExplained() {
    let side = RuntimeSide { requestTx: (), responseRx: () };
    assert_eq!(side.send(Ok(())), Ok(()));
    assert_eq!(
        side.send(Err(text("closed"))),
        Err(text("Zygote clone IPC failed while sending request: closed"))
    );
    let response = FFIResponse::Done(Value::Void, None, None);
    assert_eq!(
        side.recv(Ok(response)),
        Ok(FFIResponse::Done(Value::Void, None, None))
    );
    assert_eq!(
        side.recv(Err(text("closed"))),
        Err(text("Zygote clone IPC failed while reading response: closed"))
    );
}

// ------------------------------------------------------------------------------------------------
// The pool
// ------------------------------------------------------------------------------------------------

fn noCaps() -> OsProcessLimits {
    OsProcessLimits::default()
}

#[test]
fn thereIsOneZygote() {
    let mut pool: Pool<char> = Pool::new();
    let error = IoError { kind: ErrorKind::BrokenPipe, message: text("no process") };
    let result = initZygote(&mut pool, Err(error));
    said(result.expect_err("nothing was spawned"), ErrorKind::BrokenPipe, "no process");
    assert_eq!(zygotesAlive(&pool.counters), 0);

    initZygote(&mut pool, Ok((60, 'a'))).expect("the first one");
    assert_eq!(zygotesAlive(&pool.counters), 1);
    let result = initZygote(&mut pool, Ok((61, 'b')));
    said(
        result.expect_err("there is one already"),
        ErrorKind::AlreadyExists,
        "Zygote already initialized",
    );
    assert_eq!(zygotesAlive(&pool.counters), 1);
    assert_eq!(supervisorLoop(&mut pool, SupervisorEvent::Started), SupervisorStep::Watch(60));
}

#[test]
fn theSupervisorReplacesTheZygote() {
    let mut pool: Pool<char> = Pool::new();
    assert_eq!(supervisorLoop(&mut pool, SupervisorEvent::Started), SupervisorStep::Stop);

    initZygote(&mut pool, Ok((60, 'a'))).expect("the first one");
    assert_eq!(supervisorLoop(&mut pool, SupervisorEvent::Died(59)), SupervisorStep::Watch(60));
    assert_eq!(zygotesAlive(&pool.counters), 1);
    assert_eq!(supervisorLoop(&mut pool, SupervisorEvent::Died(60)), SupervisorStep::Respawn);
    assert_eq!(zygotesAlive(&pool.counters), 0);

    // Replacing it fails a few times; it is retired once all the same.
    for _ in 0..3 {
        let error = IoError { kind: ErrorKind::Other, message: text("no process") };
        let event = SupervisorEvent::Respawned(Err(error));
        assert_eq!(supervisorLoop(&mut pool, event), SupervisorStep::Rest(200));
        assert_eq!(supervisorLoop(&mut pool, SupervisorEvent::Started), SupervisorStep::Watch(60));
        assert_eq!(supervisorLoop(&mut pool, SupervisorEvent::Died(60)), SupervisorStep::Respawn);
        assert_eq!(zygotesAlive(&pool.counters), 0);
    }
    let event = SupervisorEvent::Respawned(Ok((62, 'c')));
    assert_eq!(supervisorLoop(&mut pool, event), SupervisorStep::Watch(62));
    assert_eq!(zygotesAlive(&pool.counters), 1);
}

#[test]
fn clonesOutliveTheirZygote() {
    let mut pool: Pool<char> = Pool::new();
    initZygote(&mut pool, Ok((60, 'a'))).expect("the first one");
    let attempt = ClonedZygote::<u8, u8>::getMeClone(&mut pool, noCaps());
    let clone = match attempt {
        CloneAttempt::Granted(pending) => pending
            .complete(&mut pool, Ok(Bootstrap { pid: 5, requestTx: 1u8, responseRx: 2u8 }))
            .ok()
            .expect("no clone"),
        _ => panic!("no slot"),
    };
    supervisorLoop(&mut pool, SupervisorEvent::Died(60));
    assert_eq!((activeClones(&pool.counters), zygotesAlive(&pool.counters)), (1, 0));
    supervisorLoop(&mut pool, SupervisorEvent::Respawned(Ok((61, 'b'))));
    assert_eq!((activeClones(&pool.counters), zygotesAlive(&pool.counters)), (1, 1));
    let ending = clone.drop(&mut pool);
    assert_eq!((activeClones(&pool.counters), zygotesAlive(&pool.counters)), (0, 1));
    ending.killed(&mut pool);
    assert_eq!((activeClones(&pool.counters), zygotesAlive(&pool.counters)), (0, 1));
}

#[test]
fn failedClonesGiveTheirSlotBack() {
    let mut pool: Pool<char> = Pool::new();
    initZygote(&mut pool, Ok((60, 'a'))).expect("the first one");
    let spawned = |pool: &mut Pool<char>, outcome: Result<Bootstrap<u8, u8>, IoError>| {
        let attempt = ClonedZygote::<u8, u8>::getMeClone(pool, noCaps());
        match attempt {
            CloneAttempt::Granted(pending) => {
                assert_eq!(pool.starting, 1);
                pending.complete(pool, outcome)
            }
            _ => panic!("no slot"),
        }
    };
    let error = IoError { kind: ErrorKind::Other, message: text("no memory") };
    let failed = spawned(&mut pool, Err(error)).err().expect("no clone was made");
    said(failed, ErrorKind::BrokenPipe, "SpawnClone failed: no memory");

    let nobody = Bootstrap { pid: 0, requestTx: 1, responseRx: 2 };
    let failed = spawned(&mut pool, Ok(nobody)).err().expect("no clone was made");
    said(failed, ErrorKind::Other, "Main zygote failed to create a clone (pid=0)");

    assert_eq!((pool.starting, activeClones(&pool.counters)), (0, 0));
    let mut clones = Vec::new();
    for pid in 1..=32 {
        let made = spawned(&mut pool, Ok(Bootstrap { pid, requestTx: 1, responseRx: 2 }));
        let clone = made.ok().expect("a slot should be free");
        assert_eq!((clone.pid, clone.data.requestTx, clone.data.responseRx), (pid, 1, 2));
        clones.push(clone);
    }
    let attempt = ClonedZygote::<u8, u8>::getMeClone(&mut pool, noCaps());
    assert!(matches!(attempt, CloneAttempt::Full));

    // The slot is free when the process was killed, and not before.
    let ending = clones.pop().expect("a clone").drop(&mut pool);
    assert_eq!(ending.pid(), 32);
    assert_eq!((activeClones(&pool.counters), pool.ending), (31, 1));
    let attempt = ClonedZygote::<u8, u8>::getMeClone(&mut pool, noCaps());
    assert!(matches!(attempt, CloneAttempt::Full));
    ending.killed(&mut pool);
    assert_eq!((activeClones(&pool.counters), pool.ending), (31, 0));
    let attempt = ClonedZygote::<u8, u8>::getMeClone(&mut pool, noCaps());
    assert!(matches!(attempt, CloneAttempt::Granted(_)));
}
