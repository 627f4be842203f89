//! Isolated dynamic FFI: calls into native libraries that run in clones of a
//! Main Zygote, so that a crash concerns nothing but the call.
//!
//! This crate is the part that decides. It holds the state of a Runtime as plain
//! values, says what the next step is, and takes what came of it; processes,
//! channels, locks and native calls are up to its user.
//!
//! - [`ffi`]: libraries, calls, values and callbacks.
//! - [`zygote`]: the pool of processes and its supervisor.
//! - [`platform`]: how the processes find each other, and what the readings of
//!   the operating system mean.
//! - [`limits`] and [`stats`]: the ceiling on clones, and the live counters.
//! - [`tracePolicy`]: whether requests are logged.
#![allow(non_snake_case, non_upper_case_globals)]

pub mod errors;
pub mod ffi;
pub mod limits;
pub mod platform;
pub mod stats;
pub mod text;
pub mod tracePolicy;
pub mod zygote;

use crate::errors::IoError;
use crate::ffi::session::Runtime;
use crate::platform::transport::{zygoteSpawnFollows, ZygoteFlag, ZygoteSpawnEvent, ZygoteSpawnStep};
use crate::text::{charsOf, spells};
use crate::zygote::{initZygote, initialized, zygoteServer, Pool};
use vstd::prelude::*;
use vstd::string::*;

verus! {

/// Whether a process with these arguments is the Main Zygote: the first one
/// behind the name of the program is the flag.
pub open spec fn isZygote(arguments: Seq<String>) -> bool {
    arguments.len() > 1 && arguments[1]@ == ZygoteFlag@
}

/// What a process does before its own code starts.
#[derive(Debug, Clone, Copy, PartialEq, Eq)]
pub enum StartupStep {
    /// Go on as the Main Zygote, as [`zygote::runAsZygote`] has it, and never get to
    /// the code of the program.
    RunAsZygote,
    /// Set the Runtime up: spawn a Main Zygote and hand it to [`setupZygote`].
    SetUpRuntime,
}

/// Decides, before anything else runs, what this process does: it is the Main
/// Zygote, or it has its own Main Zygote set up.
pub fn zygoteEntrypoint(arguments: &[String]) -> (step: StartupStep)
    ensures
        step == (if isZygote(arguments@) {
            StartupStep::RunAsZygote
        } else {
            StartupStep::SetUpRuntime
        }),
{
    if arguments.len() > 1 {
        let flag: Vec<char> = charsOf(arguments[1].as_str());
        if spells(&flag, ZygoteFlag) {
            return StartupStep::RunAsZygote;
        }
    }
    StartupStep::SetUpRuntime
}

/// Takes the Main Zygote that was spawned for this Runtime, as
/// [`zygote::initZygote`] does. From then on requests can be sent.
pub fn setupZygote<H>(
    runtime: &mut Runtime,
    pool: &mut Pool<H>,
    spawned: Result<(u32, H), IoError>,
) -> (result: Result<(), IoError>)
    requires
        old(pool).wf(),
    ensures
        final(pool).wf(),
        initialized(*old(pool), spawned, *final(pool), result),
        *final(runtime) == (Runtime {
            zygoteInitialized: old(runtime).zygoteInitialized || result is Ok,
            ..*old(runtime)
        }),
        old(runtime).zygoteInitialized == (old(pool).zygote !is Missing)
            ==> final(runtime).zygoteInitialized == (final(pool).zygote !is Missing),
{
    let result: Result<(), IoError> = initZygote(pool, spawned);
    if result.is_ok() {
        runtime.zygoteInitialized = true;
    }
    result
}

/// A process that is set up has its Main Zygote: where the first one could be
/// spawned, requests can be sent, and exactly that one is alive.
pub proof fn setUpLeavesAZygote<H>(
    before: Pool<H>,
    process: u32,
    inner: H,
    after: Pool<H>,
    result: Result<(), IoError>,
)
    requires
        before.zygote is Missing,
        initialized(before, Ok::<(u32, H), IoError>((process, inner)), after, result),
    ensures
        result is Ok,
        after.zygote.process() == Some(process),
        after.zygote is Alive,
        after.counters.zygotesAlive == 1,
{
}

/// The Main Zygote recognizes itself: a process that is started with the
/// arguments that the Runtime chose for it takes itself for the Main Zygote, and
/// reports to the server that the Runtime made for it.
pub proof fn zygoteRecognizesItself<P, Tx, Rx>(
    name: String,
    program: String,
    given: Vec<String>,
)
    requires
        zygoteSpawnFollows(
            ZygoteSpawnEvent::<P, Tx, Rx>::Server(Ok(name)),
            ZygoteSpawnStep::<P, Tx, Rx>::Start(given),
        ),
    ensures
        isZygote(seq![program] + given@),
        zygoteServer(seq![program] + given@) == Some(name@),
{
}

/// A process is the Main Zygote exactly where the first argument behind the name of
/// its program is the flag; whatever else it is given does not matter.
pub proof fn zygotesAreToldByTheirFlag(arguments: Seq<String>)
    ensures
        arguments.len() < 2 ==> !isZygote(arguments),
        arguments.len() >= 2 ==> isZygote(arguments) == (arguments[1]@ == "__zygote"@),
{
}

/// A process is told apart by its arguments: with the flag behind the name of its
/// program it runs as the Main Zygote, and in any other case it sets the Runtime up.
pub proof fn processesKnowWhatTheyAre(arguments: &[String], step: StartupStep)
    requires
        call_ensures(zygoteEntrypoint, (arguments,), step),
    ensures
        step == StartupStep::RunAsZygote <==> arguments@.len() >= 2 && arguments@[1]@
            == "__zygote"@,
        step == StartupStep::SetUpRuntime <==> !(arguments@.len() >= 2 && arguments@[1]@
            == "__zygote"@),
{
}

/// Setting up takes the first Main Zygote that could be spawned, and from then on
/// requests can be sent; whatever fails leaves the Runtime as it was.
pub proof fn settingUpLetsRequestsThrough<H>(
    runtime: &mut Runtime,
    pool: &mut Pool<H>,
    spawned: Result<(u32, H), IoError>,
    result: Result<(), IoError>,
)
    requires
        old(pool).wf(),
        call_ensures(setupZygote::<H>, (runtime, pool, spawned), result),
    ensures
        result is Ok == (spawned is Ok && old(pool).zygote is Missing),
        result is Ok ==> final(runtime).zygoteInitialized && final(pool).zygote is Alive,
        result is Ok ==> final(pool).counters.zygotesAlive == 1,
        result is Err ==> *final(runtime) == *old(runtime) && *final(pool) == *old(pool),
        final(runtime).registry == old(runtime).registry,
        final(runtime).tracePolicy == old(runtime).tracePolicy,
        final(runtime).globalReadErrno == old(runtime).globalReadErrno,
{
}

} // verus!
