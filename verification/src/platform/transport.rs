//! How the processes find each other.
//!
//! There are two planes. On the control plane the Runtime asks the Main Zygote
//! for clones; on the data plane it talks to a clone. Each plane starts with a
//! named server that belongs to the Runtime: the Main Zygote, or the clone,
//! connects to it and hands over the ends of its channels.
//!
//! The functions here decide what to do next. Each takes what came of the last
//! step and says what the next one is; performing it is up to the caller.
use crate::errors::{ErrorKind, FFIError, IoError};
use crate::ffi::types::Value;
use crate::platform::ipc::{FFIRequest, FFIResponse};
use crate::text::{
    decimal, decimalText, denotes, hexadecimal, hexadecimalIsWorthTheNumber, hexadecimalText, worth,
    writtenNumbersDenoteThemselves,
};
use vstd::prelude::*;
use vstd::string::*;

verus! {

/// Startup flag of the Main Zygote.
pub const ZygoteFlag: &'static str = "__zygote";

/// Startup flag of a clone that is started as a command.
pub const CloneFlag: &'static str = "__zygoteClone";

/// The name of the backend in diagnostics.
pub const BackendName: &'static str = "windows-rtlcloneuserprocess";

/// How long a clone may take to report to the Runtime, in milliseconds.
pub const CloneBootstrapTimeout: u64 = 20_000;

/// How long the watchdog sleeps between two looks at a clone, in milliseconds.
pub const WatchdogInterval: u64 = 10;

/// Exit code of a clone that could not make its request channel.
pub const CloneExitRequestChannel: i32 = 11;

/// Exit code of a clone that could not make its response channel.
pub const CloneExitResponseChannel: i32 = 12;

/// Exit code of a clone that could not connect to the Runtime.
pub const CloneExitConnect: i32 = 13;

/// Exit code of a clone that could not hand over its channels.
pub const CloneExitSend: i32 = 14;

// ------------------------------------------------------------------------------------------------
// Messages and endpoints
// ------------------------------------------------------------------------------------------------

/// Commands of the Runtime to the Main Zygote.
#[derive(Debug, PartialEq, Eq)]
pub enum ZygoteCommand {
    /// Make a clone, which is to report to the server of that name.
    SpawnClone { bootstrapName: String },
}

/// Replies of the Main Zygote to the Runtime.
#[derive(Debug, Clone, Copy, PartialEq, Eq)]
pub enum ZygoteReply {
    /// The clone exists.
    Cloned { pid: u32 },
    /// The process could not be cloned.
    SpawnFailed,
}

/// The Runtime's handle of the Main Zygote: the process, and the ends of the
/// control plane.
pub struct ZygoteHandle<P, Tx, Rx> {
    pub base: P,
    pub commandTx: Tx,
    pub replyRx: Rx,
}

/// The Runtime's ends of the data plane.
pub struct RuntimeSide<Tx, Rx> {
    pub requestTx: Tx,
    pub responseRx: Rx,
}

/// The ends of the data plane that a clone keeps.
pub struct CloneSide<Rx, Tx> {
    pub requestRx: Rx,
    pub responseTx: Tx,
}

/// A clone as it reported to the Runtime.
pub struct Bootstrap<Tx, Rx> {
    pub pid: u32,
    pub requestTx: Tx,
    pub responseRx: Rx,
}

/// The backend.
pub struct Transport;

/// A message that begins with `prefix` and goes on with `cause`.
fn explained(prefix: &str, cause: &str) -> (message: String)
    ensures
        message@ == prefix@ + cause@,
{
    let mut message: String = prefix.to_owned();
    message.append(cause);
    message
}

// ------------------------------------------------------------------------------------------------
// Starting the Main Zygote
// ------------------------------------------------------------------------------------------------

/// What came of a step on the way to a Main Zygote.
pub enum ZygoteSpawnEvent<P, Tx, Rx> {
    /// The server for the Main Zygote: its name, or what went wrong.
    Server(Result<String, String>),
    /// The process, with the arguments that were asked for.
    Started(Result<P, IoError>),
    /// The report of the Main Zygote.
    Accepted(P, Result<(Tx, Rx), String>),
}

/// The next step on the way to a Main Zygote.
pub enum ZygoteSpawnStep<P, Tx, Rx> {
    /// Run the current executable with these arguments.
    Start(Vec<String>),
    /// Wait for the process to report.
    Accept(P),
    /// It is done.
    Over(Result<ZygoteHandle<P, Tx, Rx>, IoError>),
}

/// Whether `step` is the step that follows `event`.
pub open spec fn zygoteSpawnFollows<P, Tx, Rx>(
    event: ZygoteSpawnEvent<P, Tx, Rx>,
    step: ZygoteSpawnStep<P, Tx, Rx>,
) -> bool {
    match event {
        ZygoteSpawnEvent::Server(Ok(name)) => {
            &&& step matches ZygoteSpawnStep::Start(arguments)
            &&& arguments@.len() == 2
            &&& arguments@[0]@ == ZygoteFlag@
            &&& arguments@[1]@ == name@
        },
        ZygoteSpawnEvent::Server(Err(cause)) => {
            step matches ZygoteSpawnStep::Over(Err(error)) && error.says(
                ErrorKind::Other,
                cause@,
            )
        },
        ZygoteSpawnEvent::Started(Ok(process)) => {
            step == ZygoteSpawnStep::<P, Tx, Rx>::Accept(process)
        },
        ZygoteSpawnEvent::Started(Err(error)) => {
            step == ZygoteSpawnStep::<P, Tx, Rx>::Over(Err(error))
        },
        ZygoteSpawnEvent::Accepted(process, Ok((commandTx, replyRx))) => {
            step == ZygoteSpawnStep::<P, Tx, Rx>::Over(
                Ok(ZygoteHandle { base: process, commandTx, replyRx }),
            )
        },
        ZygoteSpawnEvent::Accepted(_, Err(cause)) => {
            step matches ZygoteSpawnStep::Over(Err(error)) && error.says(
                ErrorKind::Other,
                "zygote bootstrap accept: "@ + cause@,
            )
        },
    }
}

impl Transport {
    /// The name of the backend.
    pub fn name() -> (name: &'static str)
        ensures
            name@ == BackendName@,
    {
        BackendName
    }

    /// Starts the Main Zygote, step by step: a server, a process that is told
    /// its name, and the report of that process.
    pub fn spawnZygote<P, Tx, Rx>(event: ZygoteSpawnEvent<P, Tx, Rx>) -> (step: ZygoteSpawnStep<
        P,
        Tx,
        Rx,
    >)
        ensures
            zygoteSpawnFollows(event, step),
    {
        match event {
            ZygoteSpawnEvent::Server(Ok(name)) => {
                let mut arguments: Vec<String> = Vec::new();
                arguments.push(ZygoteFlag.to_owned());
                arguments.push(name);
                ZygoteSpawnStep::Start(arguments)
            },
            ZygoteSpawnEvent::Server(Err(cause)) => {
                ZygoteSpawnStep::Over(Err(IoError::other(cause.as_str())))
            },
            ZygoteSpawnEvent::Started(Ok(process)) => ZygoteSpawnStep::Accept(process),
            ZygoteSpawnEvent::Started(Err(error)) => ZygoteSpawnStep::Over(Err(error)),
            ZygoteSpawnEvent::Accepted(process, Ok((commandTx, replyRx))) => {
                ZygoteSpawnStep::Over(Ok(ZygoteHandle { base: process, commandTx, replyRx }))
            },
            ZygoteSpawnEvent::Accepted(_, Err(cause)) => {
                ZygoteSpawnStep::Over(
                    Err(
                        IoError::because(
                            ErrorKind::Other,
                            "zygote bootstrap accept: ",
                            cause.as_str(),
                        ),
                    ),
                )
            },
        }
    }
}

// ------------------------------------------------------------------------------------------------
// Asking for a clone
// ------------------------------------------------------------------------------------------------

/// What came of a step on the way to a clone.
pub enum CloneSpawnEvent<Tx, Rx> {
    /// The server for the clone: its name, or what went wrong.
    Server(Result<String, String>),
    /// The command to the Main Zygote.
    Sent(Result<(), String>),
    /// The reply of the Main Zygote.
    Replied(Result<ZygoteReply, String>),
    /// The report of the clone; see [`acceptCloneBootstrap`].
    Accepted(u32, Result<(Tx, Rx), IoError>),
}

/// The next step on the way to a clone.
pub enum CloneSpawnStep<Tx, Rx> {
    /// Send this command to the Main Zygote.
    Send(ZygoteCommand),
    /// Wait for the reply of the Main Zygote.
    Receive,
    /// Wait for the clone to report.
    Accept(u32),
    /// It is done.
    Over(Result<Bootstrap<Tx, Rx>, IoError>),
}

/// What is said when the Main Zygote could not clone itself.
pub const CloneFailed: &'static str = "Main zygote failed to create a clone (RtlCloneUserProcess failed)";

/// What is said when the Main Zygote names no process.
pub const NoClonePid: &'static str = "Main zygote failed to create a clone (pid=0)";

/// Whether `step` is the step that follows `event`.
pub open spec fn cloneSpawnFollows<Tx, Rx>(
    event: CloneSpawnEvent<Tx, Rx>,
    step: CloneSpawnStep<Tx, Rx>,
) -> bool {
    match event {
        CloneSpawnEvent::Server(Ok(name)) => {
            step matches CloneSpawnStep::Send(ZygoteCommand::SpawnClone { bootstrapName })
                && bootstrapName@ == name@
        },
        CloneSpawnEvent::Server(Err(cause)) => {
            step matches CloneSpawnStep::Over(Err(error)) && error.says(ErrorKind::Other, cause@)
        },
        CloneSpawnEvent::Sent(Ok(_)) => step is Receive,
        CloneSpawnEvent::Sent(Err(cause)) => {
            step matches CloneSpawnStep::Over(Err(error)) && error.says(
                ErrorKind::BrokenPipe,
                "SpawnClone send failed: "@ + cause@,
            )
        },
        CloneSpawnEvent::Replied(Ok(ZygoteReply::Cloned { pid })) => if pid == 0 {
            step matches CloneSpawnStep::Over(Err(error)) && error.says(
                ErrorKind::Other,
                NoClonePid@,
            )
        } else {
            step == CloneSpawnStep::<Tx, Rx>::Accept(pid)
        },
        CloneSpawnEvent::Replied(Ok(ZygoteReply::SpawnFailed)) => {
            step matches CloneSpawnStep::Over(Err(error)) && error.says(
                ErrorKind::Other,
                CloneFailed@,
            )
        },
        CloneSpawnEvent::Replied(Err(cause)) => {
            step matches CloneSpawnStep::Over(Err(error)) && error.says(
                ErrorKind::BrokenPipe,
                "SpawnClone reply failed: "@ + cause@,
            )
        },
        CloneSpawnEvent::Accepted(pid, Ok((requestTx, responseRx))) => {
            step == CloneSpawnStep::<Tx, Rx>::Over(Ok(Bootstrap { pid, requestTx, responseRx }))
        },
        CloneSpawnEvent::Accepted(_, Err(error)) => {
            step == CloneSpawnStep::<Tx, Rx>::Over(Err(error))
        },
    }
}

impl Transport {
    /// Asks the Main Zygote for a clone, step by step: a server, the command
    /// with its name, the reply, and the report of the clone itself.
    pub fn sendSpawnClone<Tx, Rx>(event: CloneSpawnEvent<Tx, Rx>) -> (step: CloneSpawnStep<Tx, Rx>)
        ensures
            cloneSpawnFollows(event, step),
    {
        match event {
            CloneSpawnEvent::Server(Ok(name)) => {
                CloneSpawnStep::Send(ZygoteCommand::SpawnClone { bootstrapName: name })
            },
            CloneSpawnEvent::Server(Err(cause)) => {
                CloneSpawnStep::Over(Err(IoError::other(cause.as_str())))
            },
            CloneSpawnEvent::Sent(Ok(_)) => CloneSpawnStep::Receive,
            CloneSpawnEvent::Sent(Err(cause)) => {
                CloneSpawnStep::Over(
                    Err(
                        IoError::because(
                            ErrorKind::BrokenPipe,
                            "SpawnClone send failed: ",
                            cause.as_str(),
                        ),
                    ),
                )
            },
            CloneSpawnEvent::Replied(Ok(ZygoteReply::Cloned { pid })) => {
                if pid == 0 {
                    CloneSpawnStep::Over(Err(IoError::other(NoClonePid)))
                } else {
                    CloneSpawnStep::Accept(pid)
                }
            },
            CloneSpawnEvent::Replied(Ok(ZygoteReply::SpawnFailed)) => {
                CloneSpawnStep::Over(Err(IoError::other(CloneFailed)))
            },
            CloneSpawnEvent::Replied(Err(cause)) => {
                CloneSpawnStep::Over(
                    Err(
                        IoError::because(
                            ErrorKind::BrokenPipe,
                            "SpawnClone reply failed: ",
                            cause.as_str(),
                        ),
                    ),
                )
            },
            CloneSpawnEvent::Accepted(pid, Ok((requestTx, responseRx))) => {
                CloneSpawnStep::Over(Ok(Bootstrap { pid, requestTx, responseRx }))
            },
            CloneSpawnEvent::Accepted(_, Err(error)) => CloneSpawnStep::Over(Err(error)),
        }
    }

    /// The process of a clone.
    pub fn bootstrapPid<Tx, Rx>(bootstrap: &Bootstrap<Tx, Rx>) -> (pid: u32)
        ensures
            pid == bootstrap.pid,
    {
        bootstrap.pid
    }

    /// The Runtime's ends of the data plane. There is nothing to wait for: the
    /// clone has handed them over already.
    pub fn runtimeConnect<Tx, Rx>(bootstrap: Bootstrap<Tx, Rx>) -> (result: Result<
        RuntimeSide<Tx, Rx>,
        IoError,
    >)
        ensures
            result == Ok::<RuntimeSide<Tx, Rx>, IoError>(
                RuntimeSide {
                    requestTx: bootstrap.requestTx,
                    responseRx: bootstrap.responseRx,
                },
            ),
    {
        Ok(RuntimeSide { requestTx: bootstrap.requestTx, responseRx: bootstrap.responseRx })
    }
}

/// Whatever [`Transport::sendSpawnClone`] yields names a process: a clone
/// without a process is an error before anybody waits for its report.
pub proof fn acceptedClonesHaveAProcess<Tx, Rx>(
    event: CloneSpawnEvent<Tx, Rx>,
    step: CloneSpawnStep<Tx, Rx>,
)
    requires
        cloneSpawnFollows(event, step),
    ensures
        step matches CloneSpawnStep::Accept(pid) ==> pid != 0,
{
}

// ------------------------------------------------------------------------------------------------
// Waiting for a clone
// ------------------------------------------------------------------------------------------------

/// Why the watchdog gives a clone up, if it does: the clone is gone, or its
/// time is over.
pub open spec fn watchdogVerdict(pid: u32, exitCode: Option<u32>, elapsed: u64) -> Option<
    Seq<char>,
> {
    match exitCode {
        Some(code) => Some(
            "clone "@ + decimal(pid as nat) + " exited with code "@ + hexadecimal(code as nat)
                + " before bootstrap"@,
        ),
        None => if elapsed >= CloneBootstrapTimeout {
            Some("clone "@ + decimal(pid as nat) + " did not bootstrap within 20s"@)
        } else {
            None
        },
    }
}

/// One look of the watchdog at a clone that has not reported yet. `exitCode` is
/// the exit code of the clone, if it has one, and `elapsed` the time since the
/// wait began, in milliseconds. Where there is a reason to give up, the clone is
/// to be killed, and the wait to be ended by an empty connection.
pub fn watchdog(pid: u32, exitCode: Option<u32>, elapsed: u64) -> (reason: Option<String>)
    ensures
        match watchdogVerdict(pid, exitCode, elapsed) {
            Some(message) => reason matches Some(text) && text@ == message,
            None => reason is None,
        },
{
    match exitCode {
        Some(code) => {
            let mut message: String = explained("clone ", decimalText(pid as u64).as_str());
            message.append(" exited with code ");
            message.append(hexadecimalText(code as u64).as_str());
            message.append(" before bootstrap");
            Some(message)
        },
        None => {
            if elapsed >= CloneBootstrapTimeout {
                let mut message: String = explained("clone ", decimalText(pid as u64).as_str());
                message.append(" did not bootstrap within 20s");
                Some(message)
            } else {
                None
            }
        },
    }
}

/// The wait for a clone ends: once its time is over the watchdog gives it up,
/// whatever state it is in.
pub proof fn watchdogGivesUp(pid: u32, exitCode: Option<u32>, elapsed: u64)
    ensures
        elapsed >= CloneBootstrapTimeout ==> watchdogVerdict(pid, exitCode, elapsed) is Some,
        exitCode is Some ==> watchdogVerdict(pid, exitCode, elapsed) is Some,
{
}

/// What came of waiting for a clone.
pub enum WaitOutcome<B> {
    /// The watchdog could not be started.
    NoWatchdog(String),
    /// The wait ended, and the watchdog with it: the report of the clone, or
    /// what went wrong, and the reason of the watchdog, if it gave up.
    Ended(Result<B, String>, Option<String>),
}

/// Why waiting for a clone failed, if it did.
pub open spec fn waitFailure<B>(pid: u32, outcome: WaitOutcome<B>) -> Option<Seq<char>> {
    match outcome {
        WaitOutcome::NoWatchdog(cause) => Some("clone watchdog spawn failed: "@ + cause@),
        WaitOutcome::Ended(Ok(_), _) => None,
        WaitOutcome::Ended(Err(_), Some(reason)) => Some(reason@),
        WaitOutcome::Ended(Err(cause), None) => Some(
            "clone "@ + decimal(pid as nat) + " bootstrap accept failed: "@ + cause@,
        ),
    }
}

/// The result of waiting for the clone `pid`, and whether the clone is to be
/// killed. Every failure kills it: nobody else would.
pub fn acceptCloneBootstrap<B>(pid: u32, outcome: WaitOutcome<B>) -> (result: (
    Result<B, IoError>,
    bool,
))
    ensures
        match waitFailure(pid, outcome) {
            None => {
                &&& outcome matches WaitOutcome::Ended(Ok(bootstrap), _)
                &&& result.0 == Ok::<B, IoError>(bootstrap)
                &&& !result.1
            },
            Some(message) => {
                &&& result.0 matches Err(error) && error.says(ErrorKind::Other, message)
                &&& result.1
            },
        },
{
    match outcome {
        WaitOutcome::NoWatchdog(cause) => (
            Err(
                IoError::because(
                    ErrorKind::Other,
                    "clone watchdog spawn failed: ",
                    cause.as_str(),
                ),
            ),
            true,
        ),
        WaitOutcome::Ended(Ok(bootstrap), _) => (Ok(bootstrap), false),
        WaitOutcome::Ended(Err(_), Some(reason)) => (Err(IoError::other(reason.as_str())), true),
        WaitOutcome::Ended(Err(cause), None) => {
            let mut message: String = explained("clone ", decimalText(pid as u64).as_str());
            message.append(" bootstrap accept failed: ");
            message.append(cause.as_str());
            (Err(IoError::other(message.as_str())), true)
        },
    }
}

// ------------------------------------------------------------------------------------------------
// The data plane
// ------------------------------------------------------------------------------------------------

impl<Tx, Rx> RuntimeSide<Tx, Rx> {
    /// What sending a request to a clone comes to.
    pub fn send(&self, outcome: Result<(), String>) -> (result: Result<(), String>)
        ensures
            match outcome {
                Ok(_) => result is Ok,
                Err(cause) => result matches Err(message) && message@
                    == "Zygote clone IPC failed while sending request: "@ + cause@,
            },
    {
        match outcome {
            Ok(_) => Ok(()),
            Err(cause) => Err(
                explained("Zygote clone IPC failed while sending request: ", cause.as_str()),
            ),
        }
    }

    /// What waiting for the answer of a clone comes to.
    pub fn recv(&self, outcome: Result<FFIResponse, String>) -> (result: Result<
        FFIResponse,
        String,
    >)
        ensures
            match outcome {
                Ok(response) => result == Ok::<FFIResponse, String>(response),
                Err(cause) => result matches Err(message) && message@
                    == "Zygote clone IPC failed while reading response: "@ + cause@,
            },
    {
        match outcome {
            Ok(response) => Ok(response),
            Err(cause) => Err(
                explained("Zygote clone IPC failed while reading response: ", cause.as_str()),
            ),
        }
    }
}

/// What came of a step of a serving clone.
pub enum ServeEvent {
    /// The clone begins to serve.
    Started,
    /// A request, or none where the Runtime is gone.
    Received(Option<FFIRequest>),
    /// The answer to a request, or none where handling it panicked.
    Handled(Option<FFIResponse>),
    /// Whether the answer could be sent.
    Sent(bool),
}

/// The next step of a serving clone.
pub enum ServeStep {
    /// Wait for a request.
    Receive,
    /// Handle this request.
    Handle(FFIRequest),
    /// Send this answer.
    Send(FFIResponse),
    /// Exit with this code.
    Exit(i32),
}

/// What is said when handling a request panicked.
pub const ClonePanicked: &'static str = "clone panicked while handling request";

/// Whether `step` is the step that follows `event`.
pub open spec fn serveFollows(event: ServeEvent, step: ServeStep) -> bool {
    match event {
        ServeEvent::Started => step is Receive,
        ServeEvent::Received(Some(request)) => step == ServeStep::Handle(request),
        ServeEvent::Received(None) => step == ServeStep::Exit(0),
        ServeEvent::Handled(Some(response)) => step == ServeStep::Send(response),
        ServeEvent::Handled(None) => {
            step matches ServeStep::Send(FFIResponse::Failed(FFIError::Other(message)))
                && message@ == ClonePanicked@
        },
        ServeEvent::Sent(sent) => if sent {
            step is Receive
        } else {
            step == ServeStep::Exit(0)
        },
    }
}

impl<Rx, Tx> CloneSide<Rx, Tx> {
    /// Serves requests, step by step, until the Runtime is gone. A panic while
    /// handling a request is an answer like any other.
    pub fn run(&self, event: ServeEvent) -> (step: ServeStep)
        ensures
            serveFollows(event, step),
    {
        match event {
            ServeEvent::Started => ServeStep::Receive,
            ServeEvent::Received(Some(request)) => ServeStep::Handle(request),
            ServeEvent::Received(None) => ServeStep::Exit(0),
            ServeEvent::Handled(Some(response)) => ServeStep::Send(response),
            ServeEvent::Handled(None) => ServeStep::Send(
                FFIResponse::Failed(FFIError::Other(ClonePanicked.to_owned())),
            ),
            ServeEvent::Sent(sent) => {
                if sent {
                    ServeStep::Receive
                } else {
                    ServeStep::Exit(0)
                }
            },
        }
    }
}

/// The answer to a request that was executed: its value with the errors that
/// it left behind, or its error.
pub fn handleRequest(
    executed: Result<Value, FFIError>,
    lastErrno: Option<i32>,
    lastOsError: Option<u32>,
) -> (response: FFIResponse)
    ensures
        match executed {
            Ok(value) => response == FFIResponse::Done(value, lastErrno, lastOsError),
            Err(error) => response == FFIResponse::Failed(error),
        },
{
    match executed {
        Ok(value) => FFIResponse::Done(value, lastErrno, lastOsError),
        Err(error) => FFIResponse::Failed(error),
    }
}

/// Every request that a clone receives is answered, whether handling it
/// succeeds, fails or panics; and after an answer that arrived the clone waits
/// for the next request.
pub proof fn everyRequestIsAnswered(
    handled: Option<FFIResponse>,
    answer: ServeStep,
    next: ServeStep,
)
    requires
        serveFollows(ServeEvent::Handled(handled), answer),
        serveFollows(ServeEvent::Sent(true), next),
    ensures
        answer is Send,
        next is Receive,
{
}

// ------------------------------------------------------------------------------------------------
// The Main Zygote
// ------------------------------------------------------------------------------------------------

/// What came of cloning the process.
#[derive(Debug, Clone, Copy, PartialEq, Eq)]
pub enum CloneOutcome {
    /// This is the Main Zygote, and the clone has that process.
    Parent { pid: u32 },
    /// This is the clone.
    Child,
    /// There is no clone.
    Failed,
}

/// What came of a step of the Main Zygote.
pub enum ZygoteEvent {
    /// Whether there is a channel for commands.
    CommandChannel(bool),
    /// Whether there is a channel for replies.
    ReplyChannel(bool),
    /// Whether the server of the Runtime could be reached.
    Connected(bool),
    /// Whether the ends of the channels could be handed over.
    Announced(bool),
    /// A command, or none where the Runtime is gone.
    Received(Option<ZygoteCommand>),
    /// What came of cloning the process, for a clone that is to report to the
    /// server of that name.
    Cloned(String, CloneOutcome),
    /// A reply went out, or got lost.
    Replied,
}

/// The next step of the Main Zygote.
pub enum ZygoteStep {
    /// Make the channel for replies.
    MakeReplyChannel,
    /// Connect to the server of the Runtime.
    Connect,
    /// Hand the ends of the channels over.
    Announce,
    /// Wait for a command.
    Receive,
    /// Clone the process.
    Clone { bootstrapName: String },
    /// Send this reply.
    Reply(ZygoteReply),
    /// Go on as a clone that reports to the server of that name.
    BecomeClone { bootstrapName: String },
    /// Exit with this code.
    Exit(i32),
}

/// Whether `step` is the step that follows `event`.
pub open spec fn zygoteFollows(event: ZygoteEvent, step: ZygoteStep) -> bool {
    match event {
        ZygoteEvent::CommandChannel(true) => step is MakeReplyChannel,
        ZygoteEvent::ReplyChannel(true) => step is Connect,
        ZygoteEvent::Connected(true) => step is Announce,
        ZygoteEvent::Announced(true) => step is Receive,
        ZygoteEvent::CommandChannel(false)
        | ZygoteEvent::ReplyChannel(false)
        | ZygoteEvent::Connected(false)
        | ZygoteEvent::Announced(false) => step == ZygoteStep::Exit(1),
        ZygoteEvent::Received(Some(ZygoteCommand::SpawnClone { bootstrapName })) => {
            step == (ZygoteStep::Clone { bootstrapName })
        },
        ZygoteEvent::Received(None) => step == ZygoteStep::Exit(0),
        ZygoteEvent::Cloned(_, CloneOutcome::Parent { pid }) => {
            step == ZygoteStep::Reply(ZygoteReply::Cloned { pid })
        },
        ZygoteEvent::Cloned(bootstrapName, CloneOutcome::Child) => {
            step == (ZygoteStep::BecomeClone { bootstrapName })
        },
        ZygoteEvent::Cloned(_, CloneOutcome::Failed) => {
            step == ZygoteStep::Reply(ZygoteReply::SpawnFailed)
        },
        ZygoteEvent::Replied => step is Receive,
    }
}

fn orExit(fine: bool, step: ZygoteStep) -> (result: ZygoteStep)
    ensures
        fine ==> result == step,
        !fine ==> result == ZygoteStep::Exit(1),
{
    if fine {
        step
    } else {
        ZygoteStep::Exit(1)
    }
}

/// The Main Zygote, step by step: it makes its channels, reports to the Runtime,
/// and then clones itself as often as it is asked to.
pub fn zygoteLoop(event: ZygoteEvent) -> (step: ZygoteStep)
    ensures
        zygoteFollows(event, step),
{
    match event {
        ZygoteEvent::CommandChannel(made) => orExit(made, ZygoteStep::MakeReplyChannel),
        ZygoteEvent::ReplyChannel(made) => orExit(made, ZygoteStep::Connect),
        ZygoteEvent::Connected(connected) => orExit(connected, ZygoteStep::Announce),
        ZygoteEvent::Announced(announced) => orExit(announced, ZygoteStep::Receive),
        ZygoteEvent::Received(Some(ZygoteCommand::SpawnClone { bootstrapName })) => {
            ZygoteStep::Clone { bootstrapName }
        },
        ZygoteEvent::Received(None) => ZygoteStep::Exit(0),
        ZygoteEvent::Cloned(bootstrapName, outcome) => match outcome {
            CloneOutcome::Parent { pid } => ZygoteStep::Reply(ZygoteReply::Cloned { pid }),
            CloneOutcome::Child => ZygoteStep::BecomeClone { bootstrapName },
            CloneOutcome::Failed => ZygoteStep::Reply(ZygoteReply::SpawnFailed),
        },
        ZygoteEvent::Replied => ZygoteStep::Receive,
    }
}

impl Transport {
    /// The server that a Main Zygote reports to, out of its arguments. It has
    /// to be there.
    pub fn zygoteControlLoop(flag: Option<String>) -> (serverName: String)
        requires
            flag is Some,
        ensures
            Some(serverName) == flag,
    {
        flag.unwrap()
    }

    /// The server that a clone reports to, out of its arguments. It has to be
    /// there.
    pub fn cloneEnter(flag: Option<String>) -> (serverName: String)
        requires
            flag is Some,
        ensures
            Some(serverName) == flag,
    {
        flag.unwrap()
    }
}

/// The Main Zygote outlives its clones and its failures to make them: whatever
/// comes of cloning, it replies once and then waits for the next command.
pub proof fn zygoteKeepsServing(
    bootstrapName: String,
    outcome: CloneOutcome,
    step: ZygoteStep,
    next: ZygoteStep,
)
    requires
        zygoteFollows(ZygoteEvent::Cloned(bootstrapName, outcome), step),
        zygoteFollows(ZygoteEvent::Replied, next),
    ensures
        outcome != CloneOutcome::Child ==> step is Reply,
        next is Receive,
{
}

/// What the Main Zygote replies is what the Runtime goes by: a clone that exists
/// is waited for, and a clone that does not is an error.
pub proof fn repliesAreUnderstood<Tx, Rx>(
    bootstrapName: String,
    outcome: CloneOutcome,
    reply: ZygoteReply,
    step: CloneSpawnStep<Tx, Rx>,
)
    requires
        zygoteFollows(ZygoteEvent::Cloned(bootstrapName, outcome), ZygoteStep::Reply(reply)),
        cloneSpawnFollows(CloneSpawnEvent::<Tx, Rx>::Replied(Ok(reply)), step),
    ensures
        match outcome {
            CloneOutcome::Parent { pid } => if pid == 0 {
                step matches CloneSpawnStep::Over(Err(_))
            } else {
                step == CloneSpawnStep::<Tx, Rx>::Accept(pid)
            },
            CloneOutcome::Failed => step matches CloneSpawnStep::Over(Err(_)),
            CloneOutcome::Child => false,
        },
{
}

/// A clone reports to the server that was made for it: the name that the Runtime
/// puts into its command is the name that the clone connects to.
pub proof fn cloneReportsToItsServer<Tx, Rx>(
    name: String,
    command: ZygoteCommand,
    requested: String,
    bootstrapName: String,
)
    requires
        cloneSpawnFollows(
            CloneSpawnEvent::<Tx, Rx>::Server(Ok(name)),
            CloneSpawnStep::Send(command),
        ),
        zygoteFollows(
            ZygoteEvent::Received(Some(command)),
            ZygoteStep::Clone { bootstrapName: requested },
        ),
        zygoteFollows(
            ZygoteEvent::Cloned(requested, CloneOutcome::Child),
            ZygoteStep::BecomeClone { bootstrapName },
        ),
    ensures
        bootstrapName@ == name@,
{
}

// ------------------------------------------------------------------------------------------------
// A fresh clone
// ------------------------------------------------------------------------------------------------

/// What came of a step of a process that has just been cloned.
#[derive(Debug, Clone, Copy, PartialEq, Eq)]
pub enum BirthEvent {
    /// The process has just been cloned.
    Born,
    /// Whether the connection to the subsystem was renewed.
    CsrReconnected(bool),
    /// The console was attached again.
    ConsoleReattached,
    /// Crashes are no longer reported to the user.
    Silenced,
}

/// The next step of a process that has just been cloned.
#[derive(Debug, Clone, Copy, PartialEq, Eq)]
pub enum BirthStep {
    /// Renew the connection to the subsystem.
    ReconnectCsr,
    /// Attach the console again.
    ReattachConsole,
    /// Do not report crashes to the user.
    SilenceCrashReporting,
    /// Report to the Runtime.
    Bootstrap,
}

/// Makes a clone usable, step by step. Over a connection that was not renewed
/// the console cannot be attached without hanging, so it is left alone.
pub fn cloneBirth(event: BirthEvent) -> (step: BirthStep)
    ensures
        step == match event {
            BirthEvent::Born => BirthStep::ReconnectCsr,
            BirthEvent::CsrReconnected(true) => BirthStep::ReattachConsole,
            BirthEvent::CsrReconnected(false) => BirthStep::SilenceCrashReporting,
            BirthEvent::ConsoleReattached => BirthStep::SilenceCrashReporting,
            BirthEvent::Silenced => BirthStep::Bootstrap,
        },
{
    match event {
        BirthEvent::Born => BirthStep::ReconnectCsr,
        BirthEvent::CsrReconnected(renewed) => {
            if renewed {
                BirthStep::ReattachConsole
            } else {
                BirthStep::SilenceCrashReporting
            }
        },
        BirthEvent::ConsoleReattached => BirthStep::SilenceCrashReporting,
        BirthEvent::Silenced => BirthStep::Bootstrap,
    }
}

/// What came of a step of a clone that reports to the Runtime.
pub enum BootstrapEvent {
    /// The channel for requests.
    RequestChannel(Result<(), String>),
    /// The channel for responses.
    ResponseChannel(Result<(), String>),
    /// The connection to the server of the Runtime.
    Connected(Result<(), String>),
    /// Handing the ends of the channels over.
    Announced(Result<(), String>),
}

/// The next step of a clone that reports to the Runtime.
pub enum BootstrapStep {
    /// Make the channel for responses.
    MakeResponseChannel,
    /// Connect to the server of the Runtime.
    Connect,
    /// Hand the ends of the channels over.
    Announce,
    /// Serve requests, with no library loaded.
    Serve,
    /// Print this line and exit with this code.
    Die { line: String, code: i32 },
}

/// What went wrong on the way to the Runtime, if anything did: the line to
/// print and the exit code.
pub open spec fn bootstrapFailure(event: BootstrapEvent) -> Option<(Seq<char>, i32)> {
    match event {
        BootstrapEvent::RequestChannel(Err(cause)) => Some(
            ("[clone] request channel failed: "@ + cause@, CloneExitRequestChannel),
        ),
        BootstrapEvent::ResponseChannel(Err(cause)) => Some(
            ("[clone] response channel failed: "@ + cause@, CloneExitResponseChannel),
        ),
        BootstrapEvent::Connected(Err(cause)) => Some(
            ("[clone] bootstrap connect failed: "@ + cause@, CloneExitConnect),
        ),
        BootstrapEvent::Announced(Err(cause)) => Some(
            ("[clone] bootstrap send failed: "@ + cause@, CloneExitSend),
        ),
        _ => None,
    }
}

fn die(prefix: &str, cause: &str, code: i32) -> (step: BootstrapStep)
    ensures
        step matches BootstrapStep::Die { line, code: exit } && line@ == prefix@ + cause@ && exit
            == code,
{
    BootstrapStep::Die { line: explained(prefix, cause), code }
}

/// A clone that reports to the Runtime, step by step: it makes its channels,
/// connects, and hands over the ends that the Runtime is to use.
pub fn cloneBootstrapLoop(event: BootstrapEvent) -> (step: BootstrapStep)
    ensures
        match bootstrapFailure(event) {
            Some((message, exit)) => step matches BootstrapStep::Die { line, code } && line@
                == message && code == exit,
            None => match event {
                BootstrapEvent::RequestChannel(_) => step is MakeResponseChannel,
                BootstrapEvent::ResponseChannel(_) => step is Connect,
                BootstrapEvent::Connected(_) => step is Announce,
                BootstrapEvent::Announced(_) => step is Serve,
            },
        },
{
    match event {
        BootstrapEvent::RequestChannel(Ok(_)) => BootstrapStep::MakeResponseChannel,
        BootstrapEvent::RequestChannel(Err(cause)) => die(
            "[clone] request channel failed: ",
            cause.as_str(),
            CloneExitRequestChannel,
        ),
        BootstrapEvent::ResponseChannel(Ok(_)) => BootstrapStep::Connect,
        BootstrapEvent::ResponseChannel(Err(cause)) => die(
            "[clone] response channel failed: ",
            cause.as_str(),
            CloneExitResponseChannel,
        ),
        BootstrapEvent::Connected(Ok(_)) => BootstrapStep::Announce,
        BootstrapEvent::Connected(Err(cause)) => die(
            "[clone] bootstrap connect failed: ",
            cause.as_str(),
            CloneExitConnect,
        ),
        BootstrapEvent::Announced(Ok(_)) => BootstrapStep::Serve,
        BootstrapEvent::Announced(Err(cause)) => die(
            "[clone] bootstrap send failed: ",
            cause.as_str(),
            CloneExitSend,
        ),
    }
}

/// Whether two events belong to the same step of a clone on its way to the
/// Runtime.
pub open spec fn sameBootstrapStep(one: BootstrapEvent, other: BootstrapEvent) -> bool {
    match (one, other) {
        (BootstrapEvent::RequestChannel(_), BootstrapEvent::RequestChannel(_)) => true,
        (BootstrapEvent::ResponseChannel(_), BootstrapEvent::ResponseChannel(_)) => true,
        (BootstrapEvent::Connected(_), BootstrapEvent::Connected(_)) => true,
        (BootstrapEvent::Announced(_), BootstrapEvent::Announced(_)) => true,
        _ => false,
    }
}

/// The exit code of a clone that did not reach the Runtime tells which step
/// failed, and is never the code of a clone that ended well.
pub proof fn exitCodeTellsTheStep(one: BootstrapEvent, other: BootstrapEvent)
    requires
        bootstrapFailure(one) is Some,
        bootstrapFailure(other) is Some,
    ensures
        ({
            let (_, code) = bootstrapFailure(one)->0;
            let (_, otherCode) = bootstrapFailure(other)->0;
            &&& code == otherCode ==> sameBootstrapStep(one, other)
            &&& code != 0
        }),
{
}

/// The server that a clone started as a command reports to: its second
/// argument, behind the flag. It has to be there.
pub fn runAsClone(arguments: &[String]) -> (serverName: &String)
    requires
        arguments@.len() > 2,
    ensures
        *serverName == arguments@[2],
{
    &arguments[2]
}

// ------------------------------------------------------------------------------------------------
// What holds of the steps
// ------------------------------------------------------------------------------------------------

/// The Main Zygote is started step by step: the process gets the flag and the name of
/// its server as its only arguments, the process that was started is waited for, and
/// what it hands over becomes the handle, together with that very process.
pub proof fn zygoteIsStartedInOrder<P, Tx, Rx>(
    name: String,
    process: P,
    commandTx: Tx,
    replyRx: Rx,
    start: ZygoteSpawnStep<P, Tx, Rx>,
    wait: ZygoteSpawnStep<P, Tx, Rx>,
    over: ZygoteSpawnStep<P, Tx, Rx>,
)
    requires
        zygoteSpawnFollows(ZygoteSpawnEvent::<P, Tx, Rx>::Server(Ok(name)), start),
        zygoteSpawnFollows(ZygoteSpawnEvent::<P, Tx, Rx>::Started(Ok(process)), wait),
        zygoteSpawnFollows(
            ZygoteSpawnEvent::<P, Tx, Rx>::Accepted(process, Ok((commandTx, replyRx))),
            over,
        ),
    ensures
        start matches ZygoteSpawnStep::Start(arguments) && arguments@.len() == 2
            && arguments@[0]@ == "__zygote"@ && arguments@[1]@ == name@,
        wait matches ZygoteSpawnStep::Accept(waited) && waited == process,
        over matches ZygoteSpawnStep::Over(Ok(handle)) && handle.base == process
            && handle.commandTx == commandTx && handle.replyRx == replyRx,
{
}

/// A Main Zygote that cannot be started is an error, wherever that shows, and the
/// error keeps the reason that was given.
pub proof fn failedStartsKeepTheirReason<P, Tx, Rx>(
    process: P,
    cause: String,
    error: IoError,
    noServer: ZygoteSpawnStep<P, Tx, Rx>,
    noProcess: ZygoteSpawnStep<P, Tx, Rx>,
    noReport: ZygoteSpawnStep<P, Tx, Rx>,
)
    requires
        zygoteSpawnFollows(ZygoteSpawnEvent::<P, Tx, Rx>::Server(Err(cause)), noServer),
        zygoteSpawnFollows(ZygoteSpawnEvent::<P, Tx, Rx>::Started(Err(error)), noProcess),
        zygoteSpawnFollows(ZygoteSpawnEvent::<P, Tx, Rx>::Accepted(process, Err(cause)), noReport),
    ensures
        noServer matches ZygoteSpawnStep::Over(Err(said)) && said.kind == ErrorKind::Other
            && said.message@ == cause@,
        noProcess matches ZygoteSpawnStep::Over(Err(said)) && said == error,
        noReport matches ZygoteSpawnStep::Over(Err(said)) && said.kind == ErrorKind::Other
            && said.message@ == "zygote bootstrap accept: "@ + cause@,
{
}

/// A clone is asked for step by step: the command names the server that was made for
/// it, the reply is waited for, then the clone that the reply names, and what the clone
/// hands over becomes its bootstrap, together with that very process.
pub proof fn clonesAreAskedForInOrder<Tx, Rx>(
    name: String,
    pid: u32,
    requestTx: Tx,
    responseRx: Rx,
    send: CloneSpawnStep<Tx, Rx>,
    receive: CloneSpawnStep<Tx, Rx>,
    accept: CloneSpawnStep<Tx, Rx>,
    over: CloneSpawnStep<Tx, Rx>,
)
    requires
        cloneSpawnFollows(CloneSpawnEvent::<Tx, Rx>::Server(Ok(name)), send),
        cloneSpawnFollows(CloneSpawnEvent::<Tx, Rx>::Sent(Ok(())), receive),
        cloneSpawnFollows(
            CloneSpawnEvent::<Tx, Rx>::Replied(Ok(ZygoteReply::Cloned { pid })),
            accept,
        ),
        cloneSpawnFollows(
            CloneSpawnEvent::<Tx, Rx>::Accepted(pid, Ok((requestTx, responseRx))),
            over,
        ),
    ensures
        send matches CloneSpawnStep::Send(ZygoteCommand::SpawnClone { bootstrapName })
            && bootstrapName@ == name@,
        receive is Receive,
        pid != 0 ==> (accept matches CloneSpawnStep::Accept(waited) && waited == pid),
        pid == 0 ==> (accept matches CloneSpawnStep::Over(Err(said)) && said.kind
            == ErrorKind::Other && said.message@
            == "Main zygote failed to create a clone (pid=0)"@),
        over matches CloneSpawnStep::Over(Ok(bootstrap)) && bootstrap.pid == pid
            && bootstrap.requestTx == requestTx && bootstrap.responseRx == responseRx,
{
}

/// A clone that cannot be had is an error, wherever that shows, and the error keeps the
/// reason that was given.
pub proof fn failedClonesKeepTheirReason<Tx, Rx>(
    pid: u32,
    cause: String,
    error: IoError,
    noServer: CloneSpawnStep<Tx, Rx>,
    notSent: CloneSpawnStep<Tx, Rx>,
    notMade: CloneSpawnStep<Tx, Rx>,
    noReply: CloneSpawnStep<Tx, Rx>,
    noReport: CloneSpawnStep<Tx, Rx>,
)
    requires
        cloneSpawnFollows(CloneSpawnEvent::<Tx, Rx>::Server(Err(cause)), noServer),
        cloneSpawnFollows(CloneSpawnEvent::<Tx, Rx>::Sent(Err(cause)), notSent),
        cloneSpawnFollows(
            CloneSpawnEvent::<Tx, Rx>::Replied(Ok(ZygoteReply::SpawnFailed)),
            notMade,
        ),
        cloneSpawnFollows(CloneSpawnEvent::<Tx, Rx>::Replied(Err(cause)), noReply),
        cloneSpawnFollows(CloneSpawnEvent::<Tx, Rx>::Accepted(pid, Err(error)), noReport),
    ensures
        noServer matches CloneSpawnStep::Over(Err(said)) && said.kind == ErrorKind::Other
            && said.message@ == cause@,
        notSent matches CloneSpawnStep::Over(Err(said)) && said.kind == ErrorKind::BrokenPipe
            && said.message@ == "SpawnClone send failed: "@ + cause@,
        notMade matches CloneSpawnStep::Over(Err(said)) && said.kind == ErrorKind::Other
            && said.message@
            == "Main zygote failed to create a clone (RtlCloneUserProcess failed)"@,
        noReply matches CloneSpawnStep::Over(Err(said)) && said.kind == ErrorKind::BrokenPipe
            && said.message@ == "SpawnClone reply failed: "@ + cause@,
        noReport matches CloneSpawnStep::Over(Err(said)) && said == error,
{
}

/// The watchdog gives a clone up exactly where it has exited, or has not reported
/// within twenty seconds, and says which process it was and what happened to it.
pub proof fn watchdogSaysWhatHappened(pid: u32, exitCode: Option<u32>, elapsed: u64)
    ensures
        (watchdogVerdict(pid, exitCode, elapsed) is Some) == (exitCode is Some || elapsed
            >= 20_000),
        exitCode matches Some(code) ==> exists|process: Seq<char>, exit: Seq<char>|
            #![trigger denotes(process, pid as int), worth(exit, 16)]
            denotes(process, pid as int) && worth(exit, 16) == code && watchdogVerdict(
                pid,
                exitCode,
                elapsed,
            ) == Some(
                "clone "@ + process + " exited with code "@ + (seq!['0', 'x'] + exit)
                    + " before bootstrap"@,
            ),
        exitCode is None && elapsed >= 20_000 ==> exists|process: Seq<char>|
            #[trigger] denotes(process, pid as int) && watchdogVerdict(pid, exitCode, elapsed)
                == Some("clone "@ + process + " did not bootstrap within 20s"@),
{
    writtenNumbersDenoteThemselves(pid as int);
    assert(denotes(decimal(pid as nat), pid as int));
    if let Some(code) = exitCode {
        hexadecimalIsWorthTheNumber(code as nat);
        let exit = hexadecimal(code as nat).skip(2);
        assert(seq!['0', 'x'] + exit =~= hexadecimal(code as nat));
        assert(worth(exit, 16) == code);
    }
}

/// A wait has failed exactly where there is no report. What went wrong is then said:
/// that there was no watchdog, why the watchdog gave up, or else what the wait itself
/// ended with.
pub proof fn failedWaitsSayWhy<B>(
    pid: u32,
    cause: String,
    reason: String,
    report: B,
    given: Option<String>,
)
    ensures
        waitFailure(pid, WaitOutcome::<B>::Ended(Ok(report), given)) is None,
        waitFailure(pid, WaitOutcome::<B>::NoWatchdog(cause)) == Some(
            "clone watchdog spawn failed: "@ + cause@,
        ),
        waitFailure(pid, WaitOutcome::<B>::Ended(Err(cause), Some(reason))) == Some(reason@),
        exists|process: Seq<char>|
            #[trigger] denotes(process, pid as int) && waitFailure(
                pid,
                WaitOutcome::<B>::Ended(Err(cause), None),
            ) == Some("clone "@ + process + " bootstrap accept failed: "@ + cause@),
{
    writtenNumbersDenoteThemselves(pid as int);
    assert(denotes(decimal(pid as nat), pid as int));
}

/// A clone serves what it is sent: it handles the very request that it received, sends
/// the very answer that came of it, and then waits for the next. A request whose
/// handling panicked is answered with an error that says so, and without a Runtime the
/// clone ends well.
pub proof fn clonesServeWhatTheyAreSent(
    request: FFIRequest,
    response: FFIResponse,
    steps: (ServeStep, ServeStep, ServeStep, ServeStep, ServeStep, ServeStep, ServeStep),
)
    requires
        serveFollows(ServeEvent::Started, steps.0),
        serveFollows(ServeEvent::Received(Some(request)), steps.1),
        serveFollows(ServeEvent::Handled(Some(response)), steps.2),
        serveFollows(ServeEvent::Sent(true), steps.3),
        serveFollows(ServeEvent::Handled(None), steps.4),
        serveFollows(ServeEvent::Received(None), steps.5),
        serveFollows(ServeEvent::Sent(false), steps.6),
    ensures
        steps.0 is Receive,
        steps.1 matches ServeStep::Handle(handled) && handled == request,
        steps.2 matches ServeStep::Send(sent) && sent == response,
        steps.3 is Receive,
        steps.4 matches ServeStep::Send(FFIResponse::Failed(FFIError::Other(message))) && message@
            == "clone panicked while handling request"@,
        steps.5 matches ServeStep::Exit(code) && code == 0,
        steps.6 matches ServeStep::Exit(code) && code == 0,
{
}

/// The Main Zygote makes its channels, connects, hands their ends over, and waits for
/// commands. Where one of these fails it exits with an error, and where the Runtime is
/// gone it ends well.
pub proof fn zygoteReportsInOrder(event: ZygoteEvent, step: ZygoteStep)
    requires
        zygoteFollows(event, step),
    ensures
        event matches ZygoteEvent::CommandChannel(made) ==> if made {
            step is MakeReplyChannel
        } else {
            step matches ZygoteStep::Exit(code) && code == 1
        },
        event matches ZygoteEvent::ReplyChannel(made) ==> if made {
            step is Connect
        } else {
            step matches ZygoteStep::Exit(code) && code == 1
        },
        event matches ZygoteEvent::Connected(connected) ==> if connected {
            step is Announce
        } else {
            step matches ZygoteStep::Exit(code) && code == 1
        },
        event matches ZygoteEvent::Announced(announced) ==> if announced {
            step is Receive
        } else {
            step matches ZygoteStep::Exit(code) && code == 1
        },
        event is Replied ==> step is Receive,
        event matches ZygoteEvent::Received(None) ==> (step matches ZygoteStep::Exit(code) && code
            == 0),
{
}

/// The Main Zygote does what it is told: it clones itself for the server that the
/// command names, replies with the process that the clone has, or that there is none,
/// and in the clone goes on for that very server.
pub proof fn zygoteDoesWhatItIsTold(event: ZygoteEvent, step: ZygoteStep)
    requires
        zygoteFollows(event, step),
    ensures
        event matches ZygoteEvent::Received(Some(ZygoteCommand::SpawnClone { bootstrapName })) ==> (
        step matches ZygoteStep::Clone { bootstrapName: asked } && asked@ == bootstrapName@),
        event matches ZygoteEvent::Cloned(bootstrapName, outcome) ==> match outcome {
            CloneOutcome::Parent { pid } => step matches ZygoteStep::Reply(
                ZygoteReply::Cloned { pid: replied },
            ) && replied == pid,
            CloneOutcome::Child => step matches ZygoteStep::BecomeClone { bootstrapName: asked }
                && asked@ == bootstrapName@,
            CloneOutcome::Failed => step matches ZygoteStep::Reply(ZygoteReply::SpawnFailed),
        },
{
}

/// A clone that cannot reach the Runtime says at which step, and why, and exits with
/// the code of that step; a step that went well is no failure.
pub proof fn failedBootstrapsSayWhy(cause: String)
    ensures
        bootstrapFailure(BootstrapEvent::RequestChannel(Err(cause))) == Some(
            ("[clone] request channel failed: "@ + cause@, 11i32),
        ),
        bootstrapFailure(BootstrapEvent::ResponseChannel(Err(cause))) == Some(
            ("[clone] response channel failed: "@ + cause@, 12i32),
        ),
        bootstrapFailure(BootstrapEvent::Connected(Err(cause))) == Some(
            ("[clone] bootstrap connect failed: "@ + cause@, 13i32),
        ),
        bootstrapFailure(BootstrapEvent::Announced(Err(cause))) == Some(
            ("[clone] bootstrap send failed: "@ + cause@, 14i32),
        ),
        bootstrapFailure(BootstrapEvent::RequestChannel(Ok(()))) is None,
        bootstrapFailure(BootstrapEvent::ResponseChannel(Ok(()))) is None,
        bootstrapFailure(BootstrapEvent::Connected(Ok(()))) is None,
        bootstrapFailure(BootstrapEvent::Announced(Ok(()))) is None,
{
}

/// A fresh clone is made usable in order: the connection to the subsystem is renewed,
/// the console is attached only over a connection that was, then crashes are silenced,
/// and only then it reports.
pub proof fn clonesAreBornInOrder(event: BirthEvent, step: BirthStep)
    requires
        call_ensures(cloneBirth, (event,), step),
    ensures
        event is Born ==> step is ReconnectCsr,
        event matches BirthEvent::CsrReconnected(renewed) ==> if renewed {
            step is ReattachConsole
        } else {
            step is SilenceCrashReporting
        },
        event is ConsoleReattached ==> step is SilenceCrashReporting,
        event is Silenced ==> step is Bootstrap,
{
}

/// A clone reports in order: it makes its channels, connects, hands their ends over,
/// and serves. Whatever fails ends it, with the line and the code of that failure.
pub proof fn clonesReportInOrder(event: BootstrapEvent, step: BootstrapStep)
    requires
        call_ensures(cloneBootstrapLoop, (event,), step),
    ensures
        event matches BootstrapEvent::RequestChannel(Ok(_)) ==> step is MakeResponseChannel,
        event matches BootstrapEvent::ResponseChannel(Ok(_)) ==> step is Connect,
        event matches BootstrapEvent::Connected(Ok(_)) ==> step is Announce,
        event matches BootstrapEvent::Announced(Ok(_)) ==> step is Serve,
        event matches BootstrapEvent::RequestChannel(Err(cause)) ==> (
        step matches BootstrapStep::Die { line, code } && code == 11 && line@
            == "[clone] request channel failed: "@ + cause@),
        event matches BootstrapEvent::ResponseChannel(Err(cause)) ==> (
        step matches BootstrapStep::Die { line, code } && code == 12 && line@
            == "[clone] response channel failed: "@ + cause@),
        event matches BootstrapEvent::Connected(Err(cause)) ==> (
        step matches BootstrapStep::Die { line, code } && code == 13 && line@
            == "[clone] bootstrap connect failed: "@ + cause@),
        event matches BootstrapEvent::Announced(Err(cause)) ==> (
        step matches BootstrapStep::Die { line, code } && code == 14 && line@
            == "[clone] bootstrap send failed: "@ + cause@),
{
}

/// What executing a request came to is what the clone answers: its value, with the
/// errors that it left behind, or its error.
pub proof fn answersHoldWhatCameOfTheRequest(
    value: Value,
    errno: Option<i32>,
    osError: Option<u32>,
    failure: FFIError,
    done: FFIResponse,
    failed: FFIResponse,
)
    requires
        call_ensures(handleRequest, (Ok::<Value, FFIError>(value), errno, osError), done),
        call_ensures(handleRequest, (Err::<Value, FFIError>(failure), errno, osError), failed),
    ensures
        done matches FFIResponse::Done(answered, answeredErrno, answeredOsError) && answered
            == value && answeredErrno == errno && answeredOsError == osError,
        failed matches FFIResponse::Failed(answered) && answered == failure,
{
}

/// The data plane hands on what it carries: a request that was sent is sent, an answer
/// is the one that was received, and a failure keeps its reason and says on which way
/// it happened.
pub proof fn channelsHandOnWhatTheyCarry<Tx, Rx>(
    side: RuntimeSide<Tx, Rx>,
    response: FFIResponse,
    cause: String,
    sent: Result<(), String>,
    notSent: Result<(), String>,
    received: Result<FFIResponse, String>,
    notReceived: Result<FFIResponse, String>,
)
    requires
        call_ensures(RuntimeSide::<Tx, Rx>::send, (&side, Ok::<(), String>(())), sent),
        call_ensures(RuntimeSide::<Tx, Rx>::send, (&side, Err::<(), String>(cause)), notSent),
        call_ensures(
            RuntimeSide::<Tx, Rx>::recv,
            (&side, Ok::<FFIResponse, String>(response)),
            received,
        ),
        call_ensures(
            RuntimeSide::<Tx, Rx>::recv,
            (&side, Err::<FFIResponse, String>(cause)),
            notReceived,
        ),
    ensures
        sent is Ok,
        notSent matches Err(message) && message@
            == "Zygote clone IPC failed while sending request: "@ + cause@,
        received matches Ok(answer) && answer == response,
        notReceived matches Err(message) && message@
            == "Zygote clone IPC failed while reading response: "@ + cause@,
{
}

/// The Runtime's ends of the data plane are those that the clone handed over.
pub proof fn endsAreThoseHandedOver<Tx, Rx>(
    bootstrap: Bootstrap<Tx, Rx>,
    pid: u32,
    result: Result<RuntimeSide<Tx, Rx>, IoError>,
)
    requires
        call_ensures(Transport::bootstrapPid::<Tx, Rx>, (&bootstrap,), pid),
        call_ensures(Transport::runtimeConnect::<Tx, Rx>, (bootstrap,), result),
    ensures
        pid == bootstrap.pid,
        result matches Ok(side) && side.requestTx == bootstrap.requestTx && side.responseRx
            == bootstrap.responseRx,
{
}

/// A clone that reported is handed on and lives, and one that did not is an error and
/// is killed.
pub proof fn clonesThatDoNotReportAreKilled<B>(
    pid: u32,
    outcome: WaitOutcome<B>,
    result: (Result<B, IoError>, bool),
)
    requires
        call_ensures(acceptCloneBootstrap::<B>, (pid, outcome), result),
    ensures
        outcome matches WaitOutcome::Ended(Ok(report), _) ==> (result.0 matches Ok(accepted)
            && accepted == report && !result.1),
        outcome matches WaitOutcome::NoWatchdog(cause) ==> (result.0 matches Err(error)
            && error.kind == ErrorKind::Other && error.message@ == "clone watchdog spawn failed: "@
            + cause@ && result.1),
        outcome matches WaitOutcome::Ended(Err(_), Some(reason)) ==> (result.0 matches Err(error)
            && error.kind == ErrorKind::Other && error.message@ == reason@ && result.1),
        outcome matches WaitOutcome::Ended(Err(_), None) ==> result.0 is Err && result.1,
{
}

} // verus!
