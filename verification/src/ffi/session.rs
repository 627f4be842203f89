//! Requests to the clone of a thread: what decides about them, when one may be
//! sent, and what its outcome comes to.
//!
//! Sending and receiving is up to the owner of the channels. It asks
//! [`sendRawRequest`] for permission, performs the request that it gets, and
//! hands what came of it to [`PendingRequest::complete`].
use crate::errors::FFIError;
use crate::ffi::registry::LibraryRegistry;
use crate::ffi::types::Value;
use crate::platform::ipc::{FFIRequest, FFIResponse};
use crate::tracePolicy::{envEnables, globalTrace, TracePolicy};
use vstd::prelude::*;
use vstd::string::*;

verus! {

/// What all threads of a process share.
pub struct Runtime {
    /// Whether a Main Zygote has been started.
    pub zygoteInitialized: bool,
    /// The loaded libraries.
    pub registry: LibraryRegistry,
    /// The global default for tracing.
    pub tracePolicy: TracePolicy,
    /// The global default for capturing `errno`.
    pub globalReadErrno: bool,
}

impl Runtime {
    /// A process that has not started anything.
    pub fn new() -> (runtime: Self)
        ensures
            !runtime.zygoteInitialized,
            (runtime.registry@ == Map::<usize, Seq<char>>::empty()),
            runtime.registry.next() == 1,
            runtime.registry.inOrder(),
            runtime.tracePolicy == (TracePolicy { globalTrace: false, envSeeded: false }),
            !runtime.globalReadErrno,
    {
        Runtime {
            zygoteInitialized: false,
            registry: LibraryRegistry::new(),
            tracePolicy: TracePolicy::new(),
            globalReadErrno: false,
        }
    }
}

/// What each thread has for itself.
#[derive(Debug, Clone, Copy, PartialEq, Eq)]
pub struct ThreadState {
    /// Whether the thread is inside a scope, so that a clone serves it.
    pub cloneActive: bool,
    /// The override of the scope for capturing `errno`.
    pub scopeReadErrno: Option<bool>,
    /// The override of the scope for tracing.
    pub scopeTrace: Option<bool>,
    /// `errno` of the last request, where it asked for it and succeeded.
    pub lastErrno: Option<i32>,
    /// The system error of the last request, likewise.
    pub lastOsError: Option<u32>,
}

impl ThreadState {
    /// This thread after a request that reported these errors.
    pub open spec fn reporting(self, errno: Option<i32>, osError: Option<u32>) -> ThreadState {
        ThreadState { lastErrno: errno, lastOsError: osError, ..self }
    }

    /// A thread outside any scope.
    pub fn new() -> (thread: Self)
        ensures
            thread == (ThreadState {
                cloneActive: false,
                scopeReadErrno: None,
                scopeTrace: None,
                lastErrno: None,
                lastOsError: None,
            }),
    {
        ThreadState {
            cloneActive: false,
            scopeReadErrno: None,
            scopeTrace: None,
            lastErrno: None,
            lastOsError: None,
        }
    }
}

/// The `errno` that the last request of the thread left behind.
pub fn lastErrno(thread: &ThreadState) -> (errno: Option<i32>)
    ensures
        errno == thread.lastErrno,
{
    thread.lastErrno
}

/// The system error that the last request of the thread left behind.
pub fn lastOsError(thread: &ThreadState) -> (error: Option<u32>)
    ensures
        error == thread.lastOsError,
{
    thread.lastOsError
}

// ------------------------------------------------------------------------------------------------
// Most specific wins
// ------------------------------------------------------------------------------------------------

/// The most specific of three settings: that of the call, that of the scope,
/// and the global default.
pub open spec fn mostSpecific(perCall: Option<bool>, scope: Option<bool>, global: bool) -> bool {
    match perCall {
        Some(setting) => setting,
        None => match scope {
            Some(setting) => setting,
            None => global,
        },
    }
}

/// The trace policy after a decision: the environment is consulted only where
/// neither the call nor the scope decides.
pub open spec fn policyAfter(
    perCall: Option<bool>,
    scope: Option<bool>,
    policy: TracePolicy,
    environment: Option<&str>,
) -> TracePolicy {
    if perCall is None && scope is None {
        policy.seeded(environment)
    } else {
        policy
    }
}

/// Whether a call captures `errno`.
pub fn resolveReadErrno(perCall: Option<bool>, scope: Option<bool>, global: bool) -> (capture: bool)
    ensures
        capture == mostSpecific(perCall, scope, global),
{
    match perCall {
        Some(setting) => setting,
        None => match scope {
            Some(setting) => setting,
            None => global,
        },
    }
}

/// Whether a call is traced.
pub fn resolveTrace(
    perCall: Option<bool>,
    scope: Option<bool>,
    policy: &mut TracePolicy,
    environment: Option<&str>,
) -> (trace: bool)
    ensures
        trace == mostSpecific(perCall, scope, old(policy).seeded(environment).globalTrace),
        *final(policy) == policyAfter(perCall, scope, *old(policy), environment),
{
    match perCall {
        Some(setting) => setting,
        None => match scope {
            Some(setting) => setting,
            None => globalTrace(policy, environment),
        },
    }
}

/// What a call says about itself counts, whatever its scope and the global
/// default say; what the scope says counts where the call says nothing; and the
/// global default counts where neither does.
pub proof fn mostSpecificWins(perCall: bool, scope: bool, anyScope: Option<bool>, global: bool)
    ensures
        mostSpecific(Some(perCall), anyScope, global) == perCall,
        mostSpecific(None, Some(scope), global) == scope,
        mostSpecific(None, None, global) == global,
{
}

// ------------------------------------------------------------------------------------------------
// Requests
// ------------------------------------------------------------------------------------------------

/// The trace setting that a request carries, if it is a call.
pub open spec fn carriedTrace(request: FFIRequest) -> Option<bool> {
    match request {
        FFIRequest::Call { trace, .. } => Some(trace),
        FFIRequest::CallPointer { trace, .. } => Some(trace),
        _ => None,
    }
}

/// Whether no request may be sent, and `error` says why: there is no Main Zygote,
/// or the thread is in no scope.
pub open spec fn sendRefused(zygoteInitialized: bool, cloneActive: bool, error: FFIError) -> bool {
    if !zygoteInitialized {
        error is ZygoteNotInitialized
    } else {
        !cloneActive && error is NoActiveZygoteScope
    }
}

/// A request that may be sent to the clone of the thread.
#[derive(Debug, PartialEq)]
pub struct PendingRequest {
    /// What to send.
    pub request: FFIRequest,
    /// Whether to log it, and its outcome.
    pub traceOn: bool,
}

/// What the outcome of a request comes to: the value of a result, the error of
/// the clone, or a failed communication where no answer came.
pub open spec fn conclusion(outcome: Result<FFIResponse, String>) -> Result<Value, FFIError> {
    match outcome {
        Ok(FFIResponse::Done(value, _, _)) => Ok(value),
        Ok(FFIResponse::Failed(error)) => Err(error),
        Err(message) => Err(FFIError::ZygoteCommunicationFailed(message)),
    }
}

/// The thread after a request: it has the errors that a result reported, and
/// none where there was no result.
pub open spec fn threadAfter(thread: ThreadState, outcome: Result<FFIResponse, String>) -> ThreadState {
    match outcome {
        Ok(FFIResponse::Done(_, errno, osError)) => thread.reporting(errno, osError),
        _ => thread.reporting(None, None),
    }
}

/// Asks to send a request to the clone of the thread. Whatever the request says,
/// it is for the clone to judge.
///
/// Whatever is refused leaves the thread without `errno` and system error: it
/// is a request like any other, and it did not report any.
pub fn sendRawRequest(
    runtime: &mut Runtime,
    thread: &mut ThreadState,
    environment: Option<&str>,
    request: FFIRequest,
) -> (result: Result<PendingRequest, FFIError>)
    ensures
        match result {
            Ok(pending) => {
                &&& old(runtime).zygoteInitialized && old(thread).cloneActive
                &&& pending.request == request
                &&& pending.traceOn == mostSpecific(
                    carriedTrace(request),
                    old(thread).scopeTrace,
                    old(runtime).tracePolicy.seeded(environment).globalTrace,
                )
                &&& *final(thread) == *old(thread)
            },
            Err(error) => {
                &&& sendRefused(old(runtime).zygoteInitialized, old(thread).cloneActive, error)
                &&& *final(thread) == old(thread).reporting(None, None)
            },
        },
        *final(runtime) == (Runtime {
            tracePolicy: if old(runtime).zygoteInitialized {
                policyAfter(
                    carriedTrace(request),
                    old(thread).scopeTrace,
                    old(runtime).tracePolicy,
                    environment,
                )
            } else {
                old(runtime).tracePolicy
            },
            ..*old(runtime)
        }),
{
    if !runtime.zygoteInitialized {
        thread.lastErrno = None;
        thread.lastOsError = None;
        return Err(FFIError::ZygoteNotInitialized);
    }
    let carried: Option<bool> = match &request {
        FFIRequest::Call { trace, .. } => Some(*trace),
        FFIRequest::CallPointer { trace, .. } => Some(*trace),
        _ => None,
    };
    let traceOn: bool = resolveTrace(
        carried,
        thread.scopeTrace,
        &mut runtime.tracePolicy,
        environment,
    );
    if !thread.cloneActive {
        thread.lastErrno = None;
        thread.lastOsError = None;
        return Err(FFIError::NoActiveZygoteScope);
    }
    Ok(PendingRequest { request, traceOn })
}

impl PendingRequest {
    /// Takes the outcome of the request: the answer of the clone, or why there
    /// is none.
    pub fn complete(self, thread: &mut ThreadState, outcome: Result<FFIResponse, String>) -> (result:
        Result<Value, FFIError>)
        ensures
            result == conclusion(outcome),
            *final(thread) == threadAfter(*old(thread), outcome),
    {
        match outcome {
            Ok(FFIResponse::Done(value, errno, osError)) => {
                thread.lastErrno = errno;
                thread.lastOsError = osError;
                Ok(value)
            },
            Ok(FFIResponse::Failed(error)) => {
                thread.lastErrno = None;
                thread.lastOsError = None;
                Err(error)
            },
            Err(message) => {
                thread.lastErrno = None;
                thread.lastOsError = None;
                Err(FFIError::ZygoteCommunicationFailed(message))
            },
        }
    }
}

/// The errors that a thread reports are those of its last request: what earlier
/// requests left behind does not show any more.
pub proof fn errorsAreOfTheLastRequest(
    one: ThreadState,
    other: ThreadState,
    outcome: Result<FFIResponse, String>,
)
    ensures
        threadAfter(one, outcome).lastErrno == threadAfter(other, outcome).lastErrno,
        threadAfter(one, outcome).lastOsError == threadAfter(other, outcome).lastOsError,
{
}

/// After an answer with a result, the thread reports exactly the errors that came
/// with it, whatever the result is; after any other outcome it reports none. Nothing
/// else about the thread changes.
pub proof fn answersLeaveTheirErrors(
    thread: ThreadState,
    value: Value,
    errno: Option<i32>,
    osError: Option<u32>,
    failure: FFIError,
    message: String,
)
    ensures
        ({
            let after = threadAfter(
                thread,
                Ok::<FFIResponse, String>(FFIResponse::Done(value, errno, osError)),
            );
            &&& after.lastErrno == errno
            &&& after.lastOsError == osError
            &&& after.cloneActive == thread.cloneActive
            &&& after.scopeReadErrno == thread.scopeReadErrno
            &&& after.scopeTrace == thread.scopeTrace
        }),
        ({
            let after = threadAfter(thread, Ok::<FFIResponse, String>(FFIResponse::Failed(failure)));
            &&& after.lastErrno is None
            &&& after.lastOsError is None
            &&& after.cloneActive == thread.cloneActive
            &&& after.scopeReadErrno == thread.scopeReadErrno
            &&& after.scopeTrace == thread.scopeTrace
        }),
        ({
            let after = threadAfter(thread, Err::<FFIResponse, String>(message));
            &&& after.lastErrno is None
            &&& after.lastOsError is None
            &&& after.cloneActive == thread.cloneActive
            &&& after.scopeReadErrno == thread.scopeReadErrno
            &&& after.scopeTrace == thread.scopeTrace
        }),
{
}

/// What a thread reports is put there as it is, and nothing else about the thread
/// changes.
pub proof fn reportingChangesNothingElse(
    thread: ThreadState,
    errno: Option<i32>,
    osError: Option<u32>,
)
    ensures
        thread.reporting(errno, osError).lastErrno == errno,
        thread.reporting(errno, osError).lastOsError == osError,
        thread.reporting(errno, osError).cloneActive == thread.cloneActive,
        thread.reporting(errno, osError).scopeReadErrno == thread.scopeReadErrno,
        thread.reporting(errno, osError).scopeTrace == thread.scopeTrace,
{
}

/// A request comes to what the clone answered: the value of a result is handed on
/// as it is, so is the error of the clone, and where no answer came the request has
/// failed for the reason that was given.
pub proof fn answersAreHandedOn(
    value: Value,
    errno: Option<i32>,
    osError: Option<u32>,
    failure: FFIError,
    message: String,
)
    ensures
        conclusion(Ok::<FFIResponse, String>(FFIResponse::Done(value, errno, osError))) == Ok::<
            Value,
            FFIError,
        >(value),
        conclusion(Ok::<FFIResponse, String>(FFIResponse::Failed(failure))) == Err::<
            Value,
            FFIError,
        >(failure),
        conclusion(Err::<FFIResponse, String>(message)) == Err::<Value, FFIError>(
            FFIError::ZygoteCommunicationFailed(message),
        ),
{
}

/// A request is refused for want of a Main Zygote or of a scope, for nothing else,
/// and for the former first.
pub proof fn requestsNeedAZygoteAndAScope(
    zygoteInitialized: bool,
    cloneActive: bool,
    error: FFIError,
)
    ensures
        zygoteInitialized && cloneActive ==> !sendRefused(zygoteInitialized, cloneActive, error),
        !zygoteInitialized ==> sendRefused(zygoteInitialized, cloneActive, error) == (error
            == FFIError::ZygoteNotInitialized),
        zygoteInitialized && !cloneActive ==> sendRefused(zygoteInitialized, cloneActive, error)
            == (error == FFIError::NoActiveZygoteScope),
{
}

/// A call carries what was decided about its trace, and no other request carries
/// anything.
pub proof fn callsCarryTheirTrace(request: FFIRequest)
    ensures
        request matches FFIRequest::Call { trace, .. } ==> carriedTrace(request) == Some(trace),
        request matches FFIRequest::CallPointer { trace, .. } ==> carriedTrace(request) == Some(
            trace,
        ),
        request is Alloc || request is ReadMemory || request is Free ==> carriedTrace(request)
            is None,
{
}

/// The environment is consulted only where neither the call nor the scope decides
/// about the trace, and then it is what the global default goes by from then on.
pub proof fn environmentComesLast(
    perCall: Option<bool>,
    scope: Option<bool>,
    policy: TracePolicy,
    environment: Option<&str>,
    later: Option<&str>,
)
    ensures
        perCall is Some || scope is Some ==> policyAfter(perCall, scope, policy, environment)
            == policy,
        perCall is None && scope is None ==> ({
            let after = policyAfter(perCall, scope, policy, environment);
            &&& after.envSeeded
            &&& after.globalTrace == (if policy.envSeeded {
                policy.globalTrace
            } else {
                envEnables(environment)
            })
            &&& policyAfter(perCall, scope, after, later) == after
        }),
{
}

/// Completing a request hands on the answer and leaves the errors that came with it:
/// those of a result, whatever the result is, and none after any other outcome.
pub proof fn completingLeavesTheErrors(
    pending: PendingRequest,
    thread: &mut ThreadState,
    outcome: Result<FFIResponse, String>,
    result: Result<Value, FFIError>,
    errno: Option<i32>,
    osError: Option<u32>,
)
    requires
        call_ensures(PendingRequest::complete, (pending, thread, outcome), result),
        call_ensures(lastErrno, (&*final(thread),), errno),
        call_ensures(lastOsError, (&*final(thread),), osError),
    ensures
        outcome matches Ok(FFIResponse::Done(value, reported, reportedOs)) ==> result == Ok::<
            Value,
            FFIError,
        >(value) && errno == reported && osError == reportedOs,
        outcome matches Ok(FFIResponse::Failed(error)) ==> result == Err::<Value, FFIError>(error)
            && errno is None && osError is None,
        outcome matches Err(message) ==> result == Err::<Value, FFIError>(
            FFIError::ZygoteCommunicationFailed(message),
        ) && errno is None && osError is None,
        final(thread).cloneActive == old(thread).cloneActive,
        final(thread).scopeReadErrno == old(thread).scopeReadErrno,
        final(thread).scopeTrace == old(thread).scopeTrace,
{
}

/// A request is sent as it is, from where there is a Main Zygote and a scope, and
/// leaves everything as it was but for what the trace goes by. From anywhere else it is
/// refused for what is missing, and leaves the thread without errors.
pub proof fn requestsAreSentAsTheyAre(
    runtime: &mut Runtime,
    thread: &mut ThreadState,
    environment: Option<&str>,
    request: FFIRequest,
    result: Result<PendingRequest, FFIError>,
)
    requires
        call_ensures(sendRawRequest, (runtime, thread, environment, request), result),
    ensures
        result is Ok == (old(runtime).zygoteInitialized && old(thread).cloneActive),
        result matches Ok(pending) ==> pending.request == request && *final(thread) == *old(thread),
        !old(runtime).zygoteInitialized ==> result == Err::<PendingRequest, FFIError>(
            FFIError::ZygoteNotInitialized,
        ),
        old(runtime).zygoteInitialized && !old(thread).cloneActive ==> result == Err::<
            PendingRequest,
            FFIError,
        >(FFIError::NoActiveZygoteScope),
        result is Err ==> final(thread).lastErrno is None && final(thread).lastOsError is None
            && final(thread).cloneActive == old(thread).cloneActive && final(thread).scopeReadErrno
            == old(thread).scopeReadErrno && final(thread).scopeTrace == old(thread).scopeTrace,
        final(runtime).zygoteInitialized == old(runtime).zygoteInitialized,
        final(runtime).registry == old(runtime).registry,
        final(runtime).globalReadErrno == old(runtime).globalReadErrno,
{
}

} // verus!
