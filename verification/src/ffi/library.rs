//! Handles of loaded libraries, and the builders that collect a call.
//!
//! A builder is finalized with `result`, `resultStruct` or `void`. That checks
//! the call and yields the request to send; what comes of the request goes into
//! the `complete` of what was yielded, and gives the typed result.
use crate::errors::FFIError;
use crate::ffi::registry::LibraryRegistry;
use crate::ffi::session::{
    mostSpecific, policyAfter, resolveReadErrno, resolveTrace, sendRawRequest, PendingRequest,
    Runtime, ThreadState,
};
use crate::ffi::session::{conclusion, threadAfter};
use crate::ffi::types::{
    mismatch, mismatchMessage, typeShapes, Arg, FfiArg, FfiPrimitive, StructValue, Type, TypeShape,
    Value,
};
use crate::platform::ipc::{lacksFixedArgs, FFIRequest, FFIResponse, NoFixedArgument};
use crate::tracePolicy::envEnables;
use std::marker::PhantomData;
use vstd::prelude::*;
use vstd::string::*;

verus! {

// ------------------------------------------------------------------------------------------------
// Libraries
// ------------------------------------------------------------------------------------------------

/// Handle of a loaded library, bound to the scope that it was loaded through.
pub struct Library<'g> {
    libraryId: usize,
    libraryPath: String,
    _scope: PhantomData<&'g ()>,
}

impl<'g> Library<'g> {
    /// The identifier of the library.
    pub closed spec fn identifier(&self) -> usize {
        self.libraryId
    }

    /// The path that the library was loaded from.
    pub closed spec fn location(&self) -> Seq<char> {
        self.libraryPath@
    }

    /// A handle of a library that is registered under `libraryId`.
    pub(crate) fn new(libraryId: usize, libraryPath: String) -> (library: Self)
        ensures
            library.identifier() == libraryId,
            library.location() == libraryPath@,
    {
        Library { libraryId, libraryPath, _scope: PhantomData }
    }

    /// Registers the library at `path` under the next identifier. The file is
    /// not looked at: a clone loads it when the first call needs it.
    pub fn load(registry: &mut LibraryRegistry, path: &str) -> (library: Self)
        ensures
            library.identifier() == old(registry).next(),
            library.location() == path@,
            final(registry)@ == old(registry)@.insert(library.identifier(), path@),
            final(registry).next() == library.identifier().wrapping_add(1),
    {
        let id: usize = registry.nextLibraryId();
        registry.registerLibrary(id, path);
        Library::new(id, path.to_owned())
    }

    /// The identifier of the library.
    pub fn id(&self) -> (id: usize)
        ensures
            id == self.identifier(),
    {
        self.libraryId
    }

    /// The path that the library was loaded from.
    pub fn path(&self) -> (path: &str)
        ensures
            path@ == self.location(),
    {
        self.libraryPath.as_str()
    }

    /// Gives the handle up: the library leaves the registry.
    pub fn drop(self, registry: &mut LibraryRegistry)
        ensures
            final(registry)@ == old(registry)@.remove(self.identifier()),
            final(registry).next() == old(registry).next(),
    {
        registry.unregisterLibrary(self.libraryId);
    }

    /// Unloads the library. The handle is gone afterwards, as after
    /// [`Self::drop`].
    pub fn unload(self, registry: &mut LibraryRegistry) -> (result: Result<(), FFIError>)
        ensures
            result is Ok,
            final(registry)@ == old(registry)@.remove(self.identifier()),
            final(registry).next() == old(registry).next(),
    {
        self.drop(registry);
        Ok(())
    }

    /// Starts to collect a call of the function `name`.
    pub fn call<'a>(&'a self, name: &str) -> (builder: CallBuilder<'a, 'g>)
        ensures
            builder@ == newDraft(self.identifier(), self.location(), name@),
    {
        CallBuilder::new(self, name)
    }
}

// ------------------------------------------------------------------------------------------------
// What a finalized call comes to
// ------------------------------------------------------------------------------------------------

/// A call as far as it has been collected.
#[verifier::ext_equal]
pub struct CallDraft {
    pub libraryId: usize,
    pub libraryPath: Seq<char>,
    pub functionName: Seq<char>,
    pub args: Seq<Value>,
    /// The override of the call for capturing `errno`.
    pub readErrno: Option<bool>,
    /// The override of the call for tracing.
    pub trace: Option<bool>,
}

/// A variadic call as far as it has been collected.
#[verifier::ext_equal]
pub struct VariadicDraft {
    pub base: CallDraft,
    /// Number of arguments before the variadic ones.
    pub fixedArgs: nat,
}

/// A call of `name` without arguments and overrides.
pub open spec fn newDraft(libraryId: usize, libraryPath: Seq<char>, name: Seq<char>) -> CallDraft {
    CallDraft {
        libraryId,
        libraryPath,
        functionName: name,
        args: Seq::empty(),
        readErrno: None,
        trace: None,
    }
}

/// Whether `request` asks for exactly the call of `draft`, with a result of the
/// given type and the given settings.
pub open spec fn asksFor(
    request: FFIRequest,
    draft: CallDraft,
    result: TypeShape,
    capture: bool,
    traced: bool,
    fixed: Option<usize>,
) -> bool {
    match request {
        FFIRequest::Call {
            libraryPath,
            functionName,
            args,
            resultType,
            readErrno,
            trace,
            fixedArgs,
        } => {
            &&& libraryPath@ == draft.libraryPath
            &&& functionName@ == draft.functionName
            &&& args@ == draft.args
            &&& resultType@ == result
            &&& readErrno == capture
            &&& trace == traced
            &&& fixedArgs == fixed
        },
        _ => false,
    }
}

/// Whether a call may be sent: there is a Main Zygote, the library is
/// registered, the thread is in a scope, and there is a fixed argument where
/// their number `demanded` is looked at.
pub open spec fn callAllowed(
    runtime: Runtime,
    thread: ThreadState,
    libraryId: usize,
    demanded: Option<usize>,
) -> bool {
    &&& runtime.zygoteInitialized
    &&& runtime.registry@.contains_key(libraryId)
    &&& thread.cloneActive
    &&& demanded != Some(0usize)
}

/// The error of a call that may not be sent: the first condition that fails.
pub open spec fn callRefused(
    runtime: Runtime,
    thread: ThreadState,
    libraryId: usize,
    path: Seq<char>,
    demanded: Option<usize>,
    error: FFIError,
) -> bool {
    if !runtime.zygoteInitialized {
        error is ZygoteNotInitialized
    } else if !runtime.registry@.contains_key(libraryId) {
        error matches FFIError::LibraryNotFound { libraryPath } && libraryPath@ == path
    } else if !thread.cloneActive {
        error is NoActiveZygoteScope
    } else {
        &&& demanded == Some(0usize)
        &&& error matches FFIError::BadArgument(message) && message@ == NoFixedArgument@
    }
}

/// The thread after a call was refused. A call that is refused because of the
/// Main Zygote or the library has not become a request.
pub open spec fn threadAfterRefusal(
    runtime: Runtime,
    thread: ThreadState,
    libraryId: usize,
) -> ThreadState {
    if runtime.zygoteInitialized && runtime.registry@.contains_key(libraryId) {
        thread.reporting(None, None)
    } else {
        thread
    }
}

/// Whether the call of `draft` is traced.
pub open spec fn isTraced(
    draft: CallDraft,
    runtime: Runtime,
    thread: ThreadState,
    environment: Option<&str>,
) -> bool {
    mostSpecific(
        draft.trace,
        thread.scopeTrace,
        runtime.tracePolicy.seeded(environment).globalTrace,
    )
}

/// Whether the call of `draft` captures `errno`.
pub open spec fn capturesErrno(draft: CallDraft, runtime: Runtime, thread: ThreadState) -> bool {
    mostSpecific(draft.readErrno, thread.scopeReadErrno, runtime.globalReadErrno)
}

/// Whether finalizing the call of `draft` may yield `result`: the request that
/// asks for the call, where it may be sent, and the reason otherwise. `fixed` is
/// the number of fixed arguments of a variadic call, and `demanded` is that number
/// where finalizing looks at it.
pub open spec fn finalized(
    draft: CallDraft,
    shape: TypeShape,
    fixed: Option<usize>,
    demanded: Option<usize>,
    runtime: Runtime,
    thread: ThreadState,
    environment: Option<&str>,
    result: Result<PendingRequest, FFIError>,
) -> bool {
    let traced = isTraced(draft, runtime, thread, environment);
    match result {
        Ok(pending) => {
            &&& callAllowed(runtime, thread, draft.libraryId, demanded)
            &&& asksFor(
                pending.request,
                draft,
                shape,
                capturesErrno(draft, runtime, thread),
                traced,
                fixed,
            )
            &&& pending.traceOn == traced
        },
        Err(error) => callRefused(
            runtime,
            thread,
            draft.libraryId,
            draft.libraryPath,
            demanded,
            error,
        ),
    }
}

/// The process after the call of `draft` was finalized: the environment has
/// been consulted where nothing more specific decided about the trace.
pub open spec fn runtimeAfter(
    draft: CallDraft,
    runtime: Runtime,
    thread: ThreadState,
    environment: Option<&str>,
) -> Runtime {
    Runtime {
        tracePolicy: policyAfter(
            draft.trace,
            thread.scopeTrace,
            runtime.tracePolicy,
            environment,
        ),
        ..runtime
    }
}

/// The thread after the call of `draft` was finalized.
pub open spec fn threadAfterFinalizing(
    draft: CallDraft,
    demanded: Option<usize>,
    runtime: Runtime,
    thread: ThreadState,
) -> ThreadState {
    if callAllowed(runtime, thread, draft.libraryId, demanded) {
        thread
    } else {
        threadAfterRefusal(runtime, thread, draft.libraryId)
    }
}

/// Asks to call a function of the library that is registered under `libraryId`.
fn callById(
    runtime: &mut Runtime,
    thread: &mut ThreadState,
    libraryId: usize,
    libraryPath: &str,
    functionName: &str,
    args: Vec<Value>,
    resultType: Type,
    readErrno: bool,
    trace: bool,
    fixedArgs: Option<usize>,
) -> (result: Result<PendingRequest, FFIError>)
    ensures
        match result {
            Ok(pending) => {
                &&& callAllowed(*old(runtime), *old(thread), libraryId, None)
                &&& asksFor(
                    pending.request,
                    CallDraft {
                        libraryId,
                        libraryPath: libraryPath@,
                        functionName: functionName@,
                        args: args@,
                        readErrno: None,
                        trace: None,
                    },
                    resultType@,
                    readErrno,
                    trace,
                    fixedArgs,
                )
                &&& pending.traceOn == trace
                &&& *final(thread) == *old(thread)
            },
            Err(error) => {
                &&& !callAllowed(*old(runtime), *old(thread), libraryId, None)
                &&& callRefused(
                    *old(runtime),
                    *old(thread),
                    libraryId,
                    libraryPath@,
                    None,
                    error,
                )
                &&& *final(thread) == threadAfterRefusal(*old(runtime), *old(thread), libraryId)
            },
        },
        *final(runtime) == *old(runtime),
{
    if !runtime.zygoteInitialized {
        return Err(FFIError::ZygoteNotInitialized);
    }
    if !runtime.registry.isRegistered(libraryId) {
        return Err(FFIError::LibraryNotFound { libraryPath: libraryPath.to_owned() });
    }
    sendRawRequest(
        runtime,
        thread,
        None,
        FFIRequest::Call {
            libraryPath: libraryPath.to_owned(),
            functionName: functionName.to_owned(),
            args,
            resultType,
            readErrno,
            trace,
            fixedArgs,
        },
    )
}

/// A call that may be sent, and whose result is a `T`.
pub struct PendingCall<T> {
    /// The request.
    pub pending: PendingRequest,
    /// The type of the result.
    pub returns: PhantomData<T>,
}

impl<T: FfiPrimitive> PendingCall<T> {
    /// Takes the outcome of the request and reads the result out of it.
    pub fn complete(self, thread: &mut ThreadState, outcome: Result<FFIResponse, String>) -> (result:
        Result<T, FFIError>)
        ensures
            match conclusion(outcome) {
                Ok(value) => match T::decoded(value) {
                    Some(decoded) => result == Ok::<T, FFIError>(decoded),
                    None => result matches Err(FFIError::Other(message)) && message@
                        == mismatchMessage(T::name(), value),
                },
                Err(error) => result == Err::<T, FFIError>(error),
            },
            *final(thread) == threadAfter(*old(thread), outcome),
    {
        match self.pending.complete(thread, outcome) {
            Ok(value) => T::fromFfiValue(Arg(value)),
            Err(error) => Err(error),
        }
    }
}

/// A call that may be sent, and whose result is a structure.
pub struct PendingStructCall {
    /// The request.
    pub pending: PendingRequest,
}

impl PendingStructCall {
    /// Takes the outcome of the request and reads the structure out of it.
    pub fn complete(self, thread: &mut ThreadState, outcome: Result<FFIResponse, String>) -> (result:
        Result<StructValue, FFIError>)
        ensures
            match conclusion(outcome) {
                Ok(Value::Struct(values)) => result == Ok::<StructValue, FFIError>(
                    StructValue { values },
                ),
                Ok(value) => result matches Err(FFIError::Other(message)) && message@
                    == mismatchMessage("struct"@, value),
                Err(error) => result == Err::<StructValue, FFIError>(error),
            },
            *final(thread) == threadAfter(*old(thread), outcome),
    {
        match self.pending.complete(thread, outcome) {
            Ok(Value::Struct(values)) => Ok(StructValue::fromValues(values)),
            Ok(other) => Err(mismatch("struct", &other)),
            Err(error) => Err(error),
        }
    }
}

/// The request of a typed call.
pub open spec fn requestOf<T>(result: Result<PendingCall<T>, FFIError>) -> Result<
    PendingRequest,
    FFIError,
> {
    match result {
        Ok(call) => Ok(call.pending),
        Err(error) => Err(error),
    }
}

/// The request of a call that returns a structure.
pub open spec fn structRequestOf(result: Result<PendingStructCall, FFIError>) -> Result<
    PendingRequest,
    FFIError,
> {
    match result {
        Ok(call) => Ok(call.pending),
        Err(error) => Err(error),
    }
}

// ------------------------------------------------------------------------------------------------
// Builders
// ------------------------------------------------------------------------------------------------

/// Collects a call.
pub struct CallBuilder<'a, 'g> {
    lib: &'a Library<'g>,
    name: String,
    args: Vec<Value>,
    readErrno: Option<bool>,
    trace: Option<bool>,
}

impl<'a, 'g> View for CallBuilder<'a, 'g> {
    type V = CallDraft;

    closed spec fn view(&self) -> CallDraft {
        CallDraft {
            libraryId: self.lib.identifier(),
            libraryPath: self.lib.location(),
            functionName: self.name@,
            args: self.args@,
            readErrno: self.readErrno,
            trace: self.trace,
        }
    }
}

impl<'a, 'g> CallBuilder<'a, 'g> {
    /// Starts to collect a call of the function `name` of `lib`.
    pub fn new(lib: &'a Library<'g>, name: &str) -> (builder: Self)
        ensures
            builder@ == newDraft(lib.identifier(), lib.location(), name@),
    {
        let builder: CallBuilder<'a, 'g> = CallBuilder {
            lib,
            name: name.to_owned(),
            args: Vec::new(),
            readErrno: None,
            trace: None,
        };
        assert(builder@ =~= newDraft(lib.identifier(), lib.location(), name@));
        builder
    }

    /// Appends an argument.
    pub fn arg<T: FfiArg>(self, arg: T) -> (builder: Self)
        ensures
            builder@ == (CallDraft { args: self@.args.push(arg.argument()), ..self@ }),
    {
        let mut builder: CallBuilder<'a, 'g> = self;
        builder.args.push(arg.intoFfiValue().0);
        builder
    }

    /// Captures `errno` for this call, whatever the defaults say.
    pub fn errno(self) -> (builder: Self)
        ensures
            builder@ == (CallDraft { readErrno: Some(true), ..self@ }),
    {
        let mut builder: CallBuilder<'a, 'g> = self;
        builder.readErrno = Some(true);
        builder
    }

    /// Does not capture `errno` for this call, whatever the defaults say.
    pub fn noErrno(self) -> (builder: Self)
        ensures
            builder@ == (CallDraft { readErrno: Some(false), ..self@ }),
    {
        let mut builder: CallBuilder<'a, 'g> = self;
        builder.readErrno = Some(false);
        builder
    }

    /// Traces this call, whatever the defaults say.
    pub fn trace(self) -> (builder: Self)
        ensures
            builder@ == (CallDraft { trace: Some(true), ..self@ }),
    {
        let mut builder: CallBuilder<'a, 'g> = self;
        builder.trace = Some(true);
        builder
    }

    /// Does not trace this call, whatever the defaults and the environment say.
    pub fn noTrace(self) -> (builder: Self)
        ensures
            builder@ == (CallDraft { trace: Some(false), ..self@ }),
    {
        let mut builder: CallBuilder<'a, 'g> = self;
        builder.trace = Some(false);
        builder
    }

    /// Goes on to the variadic arguments: those collected so far are the fixed
    /// ones, and there has to be at least one of them; see
    /// [`VariadicCallBuilder::result`].
    pub fn variadic(self) -> (builder: VariadicCallBuilder<'a, 'g>)
        ensures
            builder@ == (VariadicDraft { base: self@, fixedArgs: self@.args.len() }),
    {
        let fixedArgsCount: usize = self.args.len();
        VariadicCallBuilder { base: self, fixedArgsCount }
    }

    /// Finalizes the call of a function that returns a `T`.
    pub fn result<T: FfiPrimitive>(
        self,
        runtime: &mut Runtime,
        thread: &mut ThreadState,
        environment: Option<&str>,
    ) -> (result: Result<PendingCall<T>, FFIError>)
        ensures
            finalized(
                self@,
                T::tag()@,
                None,
                None,
                *old(runtime),
                *old(thread),
                environment,
                requestOf(result),
            ),
            *final(runtime) == runtimeAfter(self@, *old(runtime), *old(thread), environment),
            *final(thread) == threadAfterFinalizing(self@, None, *old(runtime), *old(thread)),
    {
        self.finalize(runtime, thread, environment, None)
    }

    /// Finalizes the call of a function that returns a structure with the given
    /// fields.
    pub fn resultStruct(
        self,
        runtime: &mut Runtime,
        thread: &mut ThreadState,
        environment: Option<&str>,
        fields: &[Type],
    ) -> (result: Result<PendingStructCall, FFIError>)
        ensures
            finalized(
                self@,
                TypeShape::Struct(typeShapes(fields@)),
                None,
                None,
                *old(runtime),
                *old(thread),
                environment,
                structRequestOf(result),
            ),
            *final(runtime) == runtimeAfter(self@, *old(runtime), *old(thread), environment),
            *final(thread) == threadAfterFinalizing(self@, None, *old(runtime), *old(thread)),
    {
        self.finalizeStruct(runtime, thread, environment, fields, None)
    }

    /// Finalizes a call whose result nobody looks at.
    pub fn void(
        self,
        runtime: &mut Runtime,
        thread: &mut ThreadState,
        environment: Option<&str>,
    ) -> (result: Result<PendingCall<()>, FFIError>)
        ensures
            finalized(
                self@,
                TypeShape::Void,
                None,
                None,
                *old(runtime),
                *old(thread),
                environment,
                requestOf(result),
            ),
            *final(runtime) == runtimeAfter(self@, *old(runtime), *old(thread), environment),
            *final(thread) == threadAfterFinalizing(self@, None, *old(runtime), *old(thread)),
    {
        self.finalize::<()>(runtime, thread, environment, None)
    }

    fn finalize<T: FfiPrimitive>(
        self,
        runtime: &mut Runtime,
        thread: &mut ThreadState,
        environment: Option<&str>,
        fixedArgs: Option<usize>,
    ) -> (result: Result<PendingCall<T>, FFIError>)
        ensures
            finalized(
                self@,
                T::tag()@,
                fixedArgs,
                fixedArgs,
                *old(runtime),
                *old(thread),
                environment,
                requestOf(result),
            ),
            *final(runtime) == runtimeAfter(self@, *old(runtime), *old(thread), environment),
            *final(thread) == threadAfterFinalizing(self@, fixedArgs, *old(runtime), *old(thread)),
    {
        let readErrno: bool = resolveReadErrno(
            self.readErrno,
            thread.scopeReadErrno,
            runtime.globalReadErrno,
        );
        let trace: bool = resolveTrace(
            self.trace,
            thread.scopeTrace,
            &mut runtime.tracePolicy,
            environment,
        );
        self.lib.__call::<T>(
            runtime,
            thread,
            self.name.as_str(),
            self.args,
            readErrno,
            trace,
            fixedArgs,
        )
    }

    fn finalizeStruct(
        self,
        runtime: &mut Runtime,
        thread: &mut ThreadState,
        environment: Option<&str>,
        fields: &[Type],
        fixedArgs: Option<usize>,
    ) -> (result: Result<PendingStructCall, FFIError>)
        ensures
            finalized(
                self@,
                TypeShape::Struct(typeShapes(fields@)),
                fixedArgs,
                None,
                *old(runtime),
                *old(thread),
                environment,
                structRequestOf(result),
            ),
            *final(runtime) == runtimeAfter(self@, *old(runtime), *old(thread), environment),
            *final(thread) == threadAfterFinalizing(self@, None, *old(runtime), *old(thread)),
    {
        let readErrno: bool = resolveReadErrno(
            self.readErrno,
            thread.scopeReadErrno,
            runtime.globalReadErrno,
        );
        let trace: bool = resolveTrace(
            self.trace,
            thread.scopeTrace,
            &mut runtime.tracePolicy,
            environment,
        );
        let resultType: Type = Type::structure(fields);
        match callById(
            runtime,
            thread,
            self.lib.id(),
            self.lib.path(),
            self.name.as_str(),
            self.args,
            resultType,
            readErrno,
            trace,
            fixedArgs,
        ) {
            Ok(pending) => Ok(PendingStructCall { pending }),
            Err(error) => Err(error),
        }
    }
}

impl<'g> Library<'g> {
    /// Asks to call the function `functionName`.
    pub(crate) fn __call<T: FfiPrimitive>(
        &self,
        runtime: &mut Runtime,
        thread: &mut ThreadState,
        functionName: &str,
        args: Vec<Value>,
        readErrno: bool,
        trace: bool,
        fixedArgs: Option<usize>,
    ) -> (result: Result<PendingCall<T>, FFIError>)
        ensures
            match result {
                Ok(call) => {
                    &&& callAllowed(*old(runtime), *old(thread), self.identifier(), fixedArgs)
                    &&& asksFor(
                        call.pending.request,
                        CallDraft {
                            args: args@,
                            ..newDraft(self.identifier(), self.location(), functionName@)
                        },
                        T::tag()@,
                        readErrno,
                        trace,
                        fixedArgs,
                    )
                    &&& call.pending.traceOn == trace
                    &&& *final(thread) == *old(thread)
                },
                Err(error) => {
                    &&& !callAllowed(*old(runtime), *old(thread), self.identifier(), fixedArgs)
                    &&& callRefused(
                        *old(runtime),
                        *old(thread),
                        self.identifier(),
                        self.location(),
                        fixedArgs,
                        error,
                    )
                    &&& *final(thread) == threadAfterRefusal(
                        *old(runtime),
                        *old(thread),
                        self.identifier(),
                    )
                },
            },
            *final(runtime) == *old(runtime),
    {
        match callById(
            runtime,
            thread,
            self.libraryId,
            self.libraryPath.as_str(),
            functionName,
            args,
            T::TypeTag(),
            readErrno,
            trace,
            fixedArgs,
        ) {
            Ok(pending) => match fixedArgs {
                Some(0) => {
                    thread.lastErrno = None;
                    thread.lastOsError = None;
                    Err(FFIError::BadArgument(NoFixedArgument.to_owned()))
                },
                _ => Ok(PendingCall { pending, returns: PhantomData }),
            },
            Err(error) => Err(error),
        }
    }
}

/// Collects a call of a variadic function, past its fixed arguments.
pub struct VariadicCallBuilder<'a, 'g> {
    base: CallBuilder<'a, 'g>,
    fixedArgsCount: usize,
}

impl<'a, 'g> View for VariadicCallBuilder<'a, 'g> {
    type V = VariadicDraft;

    closed spec fn view(&self) -> VariadicDraft {
        VariadicDraft { base: self.base@, fixedArgs: self.fixedArgsCount as nat }
    }
}

impl<'a, 'g> VariadicCallBuilder<'a, 'g> {
    /// Appends a variadic argument.
    pub fn arg<T: FfiArg>(self, arg: T) -> (builder: Self)
        ensures
            builder@ == (VariadicDraft {
                base: CallDraft { args: self@.base.args.push(arg.argument()), ..self@.base },
                ..self@
            }),
    {
        VariadicCallBuilder { base: self.base.arg(arg), fixedArgsCount: self.fixedArgsCount }
    }

    /// Captures `errno` for this call, whatever the defaults say.
    pub fn errno(self) -> (builder: Self)
        ensures
            builder@ == (VariadicDraft {
                base: CallDraft { readErrno: Some(true), ..self@.base },
                ..self@
            }),
    {
        VariadicCallBuilder { base: self.base.errno(), fixedArgsCount: self.fixedArgsCount }
    }

    /// Does not capture `errno` for this call, whatever the defaults say.
    pub fn noErrno(self) -> (builder: Self)
        ensures
            builder@ == (VariadicDraft {
                base: CallDraft { readErrno: Some(false), ..self@.base },
                ..self@
            }),
    {
        VariadicCallBuilder { base: self.base.noErrno(), fixedArgsCount: self.fixedArgsCount }
    }

    /// Traces this call, whatever the defaults say.
    pub fn trace(self) -> (builder: Self)
        ensures
            builder@ == (VariadicDraft {
                base: CallDraft { trace: Some(true), ..self@.base },
                ..self@
            }),
    {
        VariadicCallBuilder { base: self.base.trace(), fixedArgsCount: self.fixedArgsCount }
    }

    /// Does not trace this call, whatever the defaults and the environment say.
    pub fn noTrace(self) -> (builder: Self)
        ensures
            builder@ == (VariadicDraft {
                base: CallDraft { trace: Some(false), ..self@.base },
                ..self@
            }),
    {
        VariadicCallBuilder { base: self.base.noTrace(), fixedArgsCount: self.fixedArgsCount }
    }

    /// Finalizes the call of a function that returns a `T`. Without a fixed argument
    /// that is an error, before anything is sent.
    pub fn result<T: FfiPrimitive>(
        self,
        runtime: &mut Runtime,
        thread: &mut ThreadState,
        environment: Option<&str>,
    ) -> (result: Result<PendingCall<T>, FFIError>)
        ensures
            finalized(
                self@.base,
                T::tag()@,
                Some(self@.fixedArgs as usize),
                Some(self@.fixedArgs as usize),
                *old(runtime),
                *old(thread),
                environment,
                requestOf(result),
            ),
            *final(runtime) == runtimeAfter(self@.base, *old(runtime), *old(thread), environment),
            *final(thread) == threadAfterFinalizing(
                self@.base,
                Some(self@.fixedArgs as usize),
                *old(runtime),
                *old(thread),
            ),
    {
        self.base.finalize(runtime, thread, environment, Some(self.fixedArgsCount))
    }

    /// Finalizes the call of a function that returns a structure with the given
    /// fields. One without a fixed argument is left to the clone to refuse.
    pub fn resultStruct(
        self,
        runtime: &mut Runtime,
        thread: &mut ThreadState,
        environment: Option<&str>,
        fields: &[Type],
    ) -> (result: Result<PendingStructCall, FFIError>)
        ensures
            finalized(
                self@.base,
                TypeShape::Struct(typeShapes(fields@)),
                Some(self@.fixedArgs as usize),
                None,
                *old(runtime),
                *old(thread),
                environment,
                structRequestOf(result),
            ),
            *final(runtime) == runtimeAfter(self@.base, *old(runtime), *old(thread), environment),
            *final(thread) == threadAfterFinalizing(
                self@.base,
                None,
                *old(runtime),
                *old(thread),
            ),
    {
        self.base.finalizeStruct(
            runtime,
            thread,
            environment,
            fields,
            Some(self.fixedArgsCount),
        )
    }

    /// Finalizes a call whose result nobody looks at. Without a fixed argument that
    /// is an error, before anything is sent.
    pub fn void(
        self,
        runtime: &mut Runtime,
        thread: &mut ThreadState,
        environment: Option<&str>,
    ) -> (result: Result<PendingCall<()>, FFIError>)
        ensures
            finalized(
                self@.base,
                TypeShape::Void,
                Some(self@.fixedArgs as usize),
                Some(self@.fixedArgs as usize),
                *old(runtime),
                *old(thread),
                environment,
                requestOf(result),
            ),
            *final(runtime) == runtimeAfter(self@.base, *old(runtime), *old(thread), environment),
            *final(thread) == threadAfterFinalizing(
                self@.base,
                Some(self@.fixedArgs as usize),
                *old(runtime),
                *old(thread),
            ),
    {
        self.base.finalize::<()>(runtime, thread, environment, Some(self.fixedArgsCount))
    }
}

// ------------------------------------------------------------------------------------------------
// What holds of calls
// ------------------------------------------------------------------------------------------------

/// A library that was loaded can be called: from a thread in a scope, every
/// call that is not variadic without a fixed argument may be sent.
pub proof fn loadedLibraryIsCallable(
    runtime: Runtime,
    thread: ThreadState,
    draft: CallDraft,
    shape: TypeShape,
    fixed: Option<usize>,
    demanded: Option<usize>,
    environment: Option<&str>,
    result: Result<PendingRequest, FFIError>,
    before: Map<usize, Seq<char>>,
)
    requires
        runtime.registry@ == before.insert(draft.libraryId, draft.libraryPath),
        runtime.zygoteInitialized,
        thread.cloneActive,
        demanded != Some(0usize),
        finalized(draft, shape, fixed, demanded, runtime, thread, environment, result),
    ensures
        result is Ok,
{
}

/// A library that was unloaded, or whose handle was dropped, cannot be called
/// any more: every call is answered with its path.
pub proof fn unloadedLibraryIsNotFound(
    runtime: Runtime,
    thread: ThreadState,
    draft: CallDraft,
    shape: TypeShape,
    fixed: Option<usize>,
    demanded: Option<usize>,
    environment: Option<&str>,
    result: Result<PendingRequest, FFIError>,
    before: Map<usize, Seq<char>>,
)
    requires
        runtime.registry@ == before.remove(draft.libraryId),
        runtime.zygoteInitialized,
        finalized(draft, shape, fixed, demanded, runtime, thread, environment, result),
    ensures
        result matches Err(FFIError::LibraryNotFound { libraryPath }) && libraryPath@
            == draft.libraryPath,
{
}

/// Unloading a library concerns no other: what could be called before can be
/// called afterwards.
pub proof fn unloadingSparesOthers(
    before: Runtime,
    after: Runtime,
    thread: ThreadState,
    unloaded: usize,
    other: usize,
    fixed: Option<usize>,
)
    requires
        after.zygoteInitialized == before.zygoteInitialized,
        after.registry@ == before.registry@.remove(unloaded),
        other != unloaded,
    ensures
        callAllowed(after, thread, other, fixed) == callAllowed(before, thread, other, fixed),
{
}

/// The boundary between fixed and variadic arguments is where `variadic` was
/// called: whatever is appended afterwards, the fixed arguments and their number
/// stay, and the new one comes last.
pub proof fn fixedArgumentsAreFrozen(before: VariadicDraft, after: VariadicDraft, arg: Value)
    requires
        before.fixedArgs <= before.base.args.len(),
        after == (VariadicDraft {
            base: CallDraft { args: before.base.args.push(arg), ..before.base },
            ..before
        }),
    ensures
        after.fixedArgs == before.fixedArgs,
        after.fixedArgs <= after.base.args.len(),
        after.base.args.take(after.fixedArgs as int) == before.base.args.take(
            before.fixedArgs as int,
        ),
        after.base.args.last() == arg,
{
    assert(after.base.args.take(after.fixedArgs as int) =~= before.base.args.take(
        before.fixedArgs as int,
    ));
}

/// Whether two requests ask for the same call, apart from its trace.
pub open spec fn sameCall(one: FFIRequest, other: FFIRequest) -> bool {
    match (one, other) {
        (
            FFIRequest::Call {
                libraryPath,
                functionName,
                args,
                resultType,
                readErrno,
                trace: _,
                fixedArgs,
            },
            FFIRequest::Call {
                libraryPath: libraryPath2,
                functionName: functionName2,
                args: args2,
                resultType: resultType2,
                readErrno: readErrno2,
                trace: _,
                fixedArgs: fixedArgs2,
            },
        ) => {
            &&& libraryPath@ == libraryPath2@
            &&& functionName@ == functionName2@
            &&& args@ == args2@
            &&& resultType@ == resultType2@
            &&& readErrno == readErrno2
            &&& fixedArgs == fixedArgs2
        },
        _ => false,
    }
}

/// A variadic call without a fixed argument comes to nothing. Finalizing one that
/// returns a scalar, or whose result nobody looks at, is an error from anywhere
/// that a call could be sent from; and the request for one that returns a structure
/// is one that the clone answers with that error.
pub proof fn variadicCallsNeedAFixedArgument(
    draft: CallDraft,
    shape: TypeShape,
    runtime: Runtime,
    thread: ThreadState,
    environment: Option<&str>,
    typed: Result<PendingRequest, FFIError>,
    structured: Result<PendingRequest, FFIError>,
)
    requires
        runtime.zygoteInitialized,
        runtime.registry@.contains_key(draft.libraryId),
        thread.cloneActive,
        finalized(
            draft,
            shape,
            Some(0usize),
            Some(0usize),
            runtime,
            thread,
            environment,
            typed,
        ),
        finalized(draft, shape, Some(0usize), None, runtime, thread, environment, structured),
    ensures
        typed matches Err(FFIError::BadArgument(message)) && message@ == NoFixedArgument@,
        structured matches Ok(pending) && lacksFixedArgs(pending.request),
{
}

/// Tracing does not alter a call: whatever the call, its scope, the global
/// default and the environment say about the trace, the same call is asked for,
/// or refused.
pub proof fn traceAltersNothing(
    draft: CallDraft,
    trace: Option<bool>,
    scopeTrace: Option<bool>,
    shape: TypeShape,
    fixed: Option<usize>,
    demanded: Option<usize>,
    runtime: Runtime,
    tracedRuntime: Runtime,
    thread: ThreadState,
    environment: Option<&str>,
    otherEnvironment: Option<&str>,
    result: Result<PendingRequest, FFIError>,
    tracedResult: Result<PendingRequest, FFIError>,
)
    requires
        tracedRuntime == (Runtime { tracePolicy: tracedRuntime.tracePolicy, ..runtime }),
        finalized(draft, shape, fixed, demanded, runtime, thread, environment, result),
        finalized(
            CallDraft { trace, ..draft },
            shape,
            fixed,
            demanded,
            tracedRuntime,
            ThreadState { scopeTrace, ..thread },
            otherEnvironment,
            tracedResult,
        ),
    ensures
        result is Ok <==> tracedResult is Ok,
        result is Ok ==> sameCall(result->Ok_0.request, tracedResult->Ok_0.request),
{
}

/// What a call says about its trace and about `errno` is what it gets, whatever
/// its scope, the global default and the environment say. Its word about the
/// trace leaves the environment unread.
pub proof fn callOverridesWin(
    draft: CallDraft,
    runtime: Runtime,
    thread: ThreadState,
    environment: Option<&str>,
)
    ensures
        draft.trace matches Some(setting) ==> isTraced(draft, runtime, thread, environment)
            == setting && runtimeAfter(draft, runtime, thread, environment) == runtime,
        draft.readErrno matches Some(setting) ==> capturesErrno(draft, runtime, thread) == setting,
{
}

/// A clone that dies takes nothing with it but its own request: that one is
/// answered with a failed communication, and afterwards the thread may send
/// exactly what it could send before.
pub proof fn crashConcernsOneRequest(
    runtime: Runtime,
    thread: ThreadState,
    message: String,
    libraryId: usize,
    fixed: Option<usize>,
)
    ensures
        conclusion(Err::<FFIResponse, String>(message)) == Err::<Value, FFIError>(
            FFIError::ZygoteCommunicationFailed(message),
        ),
        callAllowed(
            runtime,
            threadAfter(thread, Err::<FFIResponse, String>(message)),
            libraryId,
            fixed,
        ) == callAllowed(runtime, thread, libraryId, fixed),
{
}

/// The typed result of a call is what the function returned: a value that the
/// clone encoded is read back as itself.
pub proof fn resultReadsBack<T: FfiPrimitive>(value: T, errno: Option<i32>, osError: Option<u32>)
    ensures
        conclusion(Ok::<FFIResponse, String>(FFIResponse::Done(value.encoded(), errno, osError)))
            matches Ok(returned) && T::decoded(returned) == Some(value),
{
    value.encodedIsDecoded();
}

/// A call begins with the library and the function that it was started with, with
/// no argument, and without a word about `errno` or the trace.
pub proof fn callsBeginEmpty(libraryId: usize, libraryPath: Seq<char>, name: Seq<char>)
    ensures
        newDraft(libraryId, libraryPath, name).libraryId == libraryId,
        newDraft(libraryId, libraryPath, name).libraryPath == libraryPath,
        newDraft(libraryId, libraryPath, name).functionName == name,
        newDraft(libraryId, libraryPath, name).args.len() == 0,
        newDraft(libraryId, libraryPath, name).readErrno is None,
        newDraft(libraryId, libraryPath, name).trace is None,
{
}

/// What is sent is what was collected: the request names the library and the
/// function of the call, holds its arguments, each as it is and in its place, asks
/// for the type of the result, and counts the fixed arguments. It captures `errno`
/// and is traced as the call says, or else its scope, or else the process.
pub proof fn callsAskForWhatWasCollected(
    draft: CallDraft,
    shape: TypeShape,
    fixed: Option<usize>,
    demanded: Option<usize>,
    runtime: Runtime,
    thread: ThreadState,
    environment: Option<&str>,
    pending: PendingRequest,
)
    requires
        finalized(
            draft,
            shape,
            fixed,
            demanded,
            runtime,
            thread,
            environment,
            Ok::<PendingRequest, FFIError>(pending),
        ),
    ensures
        pending.request is Call,
        pending.request matches FFIRequest::Call {
            libraryPath,
            functionName,
            args,
            resultType,
            readErrno,
            trace,
            fixedArgs,
        } ==> {
            &&& libraryPath@ == draft.libraryPath
            &&& functionName@ == draft.functionName
            &&& args@.len() == draft.args.len()
            &&& forall|i: int| 0 <= i < args@.len() ==> #[trigger] args@[i] == draft.args[i]
            &&& resultType@ == shape
            &&& fixedArgs == fixed
            &&& pending.traceOn == trace
            &&& draft.readErrno matches Some(setting) ==> readErrno == setting
            &&& draft.readErrno is None ==> (thread.scopeReadErrno matches Some(setting)
                ==> readErrno == setting)
            &&& draft.readErrno is None && thread.scopeReadErrno is None ==> readErrno
                == runtime.globalReadErrno
            &&& draft.trace matches Some(setting) ==> trace == setting
            &&& draft.trace is None ==> (thread.scopeTrace matches Some(setting) ==> trace
                == setting)
            &&& draft.trace is None && thread.scopeTrace is None && runtime.tracePolicy.envSeeded
                ==> trace == runtime.tracePolicy.globalTrace
            &&& draft.trace is None && thread.scopeTrace is None && !runtime.tracePolicy.envSeeded
                ==> trace == envEnables(environment)
        },
{
}

/// A call may be sent exactly where there is a Main Zygote, the library is
/// registered, the thread is in a scope, and a fixed argument is there where it is
/// demanded. Otherwise it is refused for the first of these that is missing.
pub proof fn refusedCallsNameWhatIsMissing(
    draft: CallDraft,
    shape: TypeShape,
    fixed: Option<usize>,
    demanded: Option<usize>,
    runtime: Runtime,
    thread: ThreadState,
    environment: Option<&str>,
    result: Result<PendingRequest, FFIError>,
)
    requires
        finalized(draft, shape, fixed, demanded, runtime, thread, environment, result),
    ensures
        result is Ok == (runtime.zygoteInitialized && runtime.registry@.contains_key(
            draft.libraryId,
        ) && thread.cloneActive && demanded != Some(0usize)),
        !runtime.zygoteInitialized ==> result == Err::<PendingRequest, FFIError>(
            FFIError::ZygoteNotInitialized,
        ),
        runtime.zygoteInitialized && !runtime.registry@.contains_key(draft.libraryId) ==> (
        result matches Err(FFIError::LibraryNotFound { libraryPath }) && libraryPath@
            == draft.libraryPath),
        runtime.zygoteInitialized && runtime.registry@.contains_key(draft.libraryId)
            && !thread.cloneActive ==> result == Err::<PendingRequest, FFIError>(
            FFIError::NoActiveZygoteScope,
        ),
        runtime.zygoteInitialized && runtime.registry@.contains_key(draft.libraryId)
            && thread.cloneActive && demanded == Some(0usize) ==> (result matches Err(
            FFIError::BadArgument(message),
        ) && message@ == "a variadic call needs at least one fixed argument"@),
{
}

/// Finalizing a call changes nothing about the process but that the environment has
/// been consulted, and that only where neither the call nor its scope decides about
/// the trace. A call that may be sent leaves the thread as it was; one that is refused
/// leaves it without errors where it got as far as the scope, and as it was before.
pub proof fn finalizingChangesLittle(
    draft: CallDraft,
    demanded: Option<usize>,
    runtime: Runtime,
    thread: ThreadState,
    environment: Option<&str>,
)
    ensures
        ({
            let after = runtimeAfter(draft, runtime, thread, environment);
            &&& after.zygoteInitialized == runtime.zygoteInitialized
            &&& after.registry == runtime.registry
            &&& after.globalReadErrno == runtime.globalReadErrno
            &&& draft.trace is Some || thread.scopeTrace is Some || runtime.tracePolicy.envSeeded
                ==> after == runtime
            &&& draft.trace is None && thread.scopeTrace is None ==> after.tracePolicy.envSeeded
                && (runtime.tracePolicy.envSeeded || after.tracePolicy.globalTrace == envEnables(
                environment,
            ))
        }),
        ({
            let after = threadAfterFinalizing(draft, demanded, runtime, thread);
            let reached = runtime.zygoteInitialized && runtime.registry@.contains_key(
                draft.libraryId,
            );
            let refused = !thread.cloneActive || demanded == Some(0usize);
            &&& after.cloneActive == thread.cloneActive
            &&& after.scopeReadErrno == thread.scopeReadErrno
            &&& after.scopeTrace == thread.scopeTrace
            &&& reached && refused ==> after.lastErrno is None && after.lastOsError is None
            &&& !reached || !refused ==> after == thread
        }),
{
}

/// What is to be sent for a finalized call is the request that it holds, and a
/// refusal is handed on as it is.
pub proof fn finalizedCallsHoldTheirRequest<T>(
    typed: PendingCall<T>,
    structured: PendingStructCall,
    error: FFIError,
)
    ensures
        requestOf(Ok::<PendingCall<T>, FFIError>(typed)) == Ok::<PendingRequest, FFIError>(
            typed.pending,
        ),
        requestOf(Err::<PendingCall<T>, FFIError>(error)) == Err::<PendingRequest, FFIError>(error),
        structRequestOf(Ok::<PendingStructCall, FFIError>(structured)) == Ok::<
            PendingRequest,
            FFIError,
        >(structured.pending),
        structRequestOf(Err::<PendingStructCall, FFIError>(error)) == Err::<
            PendingRequest,
            FFIError,
        >(error),
{
}

/// What decides about `errno` and about the trace decides: the call, or else its
/// scope, or else the process.
pub proof fn settingsAreLookedUpInOrder(
    draft: CallDraft,
    runtime: Runtime,
    thread: ThreadState,
    environment: Option<&str>,
)
    ensures
        draft.readErrno is None && thread.scopeReadErrno is Some ==> capturesErrno(
            draft,
            runtime,
            thread,
        ) == thread.scopeReadErrno->0,
        draft.readErrno is None && thread.scopeReadErrno is None ==> capturesErrno(
            draft,
            runtime,
            thread,
        ) == runtime.globalReadErrno,
        draft.trace is None && thread.scopeTrace is Some ==> isTraced(
            draft,
            runtime,
            thread,
            environment,
        ) == thread.scopeTrace->0,
        draft.trace is None && thread.scopeTrace is None ==> isTraced(
            draft,
            runtime,
            thread,
            environment,
        ) == (if runtime.tracePolicy.envSeeded {
            runtime.tracePolicy.globalTrace
        } else {
            envEnables(environment)
        }),
{
}

/// An argument that is appended comes last, and leaves those before it and everything
/// else about the call as they were. An `i32` is then there as the very number that it
/// is.
pub proof fn argumentsAreAppended<'a, 'g, T: FfiArg>(
    builder: CallBuilder<'a, 'g>,
    arg: T,
    after: CallBuilder<'a, 'g>,
    number: i32,
    afterNumber: CallBuilder<'a, 'g>,
)
    requires
        call_ensures(CallBuilder::<'a, 'g>::arg::<T>, (builder, arg), after),
        call_ensures(CallBuilder::<'a, 'g>::arg::<i32>, (builder, number), afterNumber),
    ensures
        after@.args.len() == builder@.args.len() + 1,
        after@.args.last() == arg.argument(),
        forall|i: int|
            0 <= i < builder@.args.len() ==> #[trigger] after@.args[i] == builder@.args[i],
        after@.libraryId == builder@.libraryId,
        after@.libraryPath == builder@.libraryPath,
        after@.functionName == builder@.functionName,
        after@.readErrno == builder@.readErrno,
        after@.trace == builder@.trace,
        afterNumber@.args.last() matches Value::I32(sent) && sent == number,
{
}

/// What a call says about `errno` and about its trace is remembered, the last word
/// counts, and neither touches the other or anything else about the call.
pub proof fn overridesAreRemembered<'a, 'g>(
    builder: CallBuilder<'a, 'g>,
    capturing: CallBuilder<'a, 'g>,
    notCapturing: CallBuilder<'a, 'g>,
    traced: CallBuilder<'a, 'g>,
    notTraced: CallBuilder<'a, 'g>,
)
    requires
        call_ensures(CallBuilder::<'a, 'g>::errno, (builder,), capturing),
        call_ensures(CallBuilder::<'a, 'g>::noErrno, (builder,), notCapturing),
        call_ensures(CallBuilder::<'a, 'g>::trace, (builder,), traced),
        call_ensures(CallBuilder::<'a, 'g>::noTrace, (builder,), notTraced),
    ensures
        capturing@.readErrno == Some(true),
        capturing@.trace == builder@.trace,
        notCapturing@.readErrno == Some(false),
        notCapturing@.trace == builder@.trace,
        traced@.trace == Some(true),
        traced@.readErrno == builder@.readErrno,
        notTraced@.trace == Some(false),
        notTraced@.readErrno == builder@.readErrno,
        capturing@.args == builder@.args && notCapturing@.args == builder@.args && traced@.args
            == builder@.args && notTraced@.args == builder@.args,
        capturing@.libraryId == builder@.libraryId && notCapturing@.libraryId == builder@.libraryId
            && traced@.libraryId == builder@.libraryId && notTraced@.libraryId
            == builder@.libraryId,
        capturing@.libraryPath == builder@.libraryPath && notCapturing@.libraryPath
            == builder@.libraryPath && traced@.libraryPath == builder@.libraryPath
            && notTraced@.libraryPath == builder@.libraryPath,
        capturing@.functionName == builder@.functionName && notCapturing@.functionName
            == builder@.functionName && traced@.functionName == builder@.functionName
            && notTraced@.functionName == builder@.functionName,
{
}

/// Going on to the variadic arguments counts those before as fixed and changes nothing
/// else; what is appended afterwards comes last and is not counted.
pub proof fn variadicArgumentsAreNotCounted<'a, 'g, T: FfiArg>(
    builder: CallBuilder<'a, 'g>,
    variadic: VariadicCallBuilder<'a, 'g>,
    arg: T,
    after: VariadicCallBuilder<'a, 'g>,
)
    requires
        call_ensures(CallBuilder::<'a, 'g>::variadic, (builder,), variadic),
        call_ensures(VariadicCallBuilder::<'a, 'g>::arg::<T>, (variadic, arg), after),
    ensures
        variadic@.fixedArgs == builder@.args.len(),
        variadic@.base == builder@,
        after@.fixedArgs == builder@.args.len(),
        after@.base.args.len() == builder@.args.len() + 1,
        after@.base.args.last() == arg.argument(),
        after@.base.args.take(after@.fixedArgs as int) == builder@.args,
        after@.base.functionName == builder@.functionName,
        after@.base.libraryId == builder@.libraryId,
        after@.base.libraryPath == builder@.libraryPath,
        after@.base.readErrno == builder@.readErrno,
        after@.base.trace == builder@.trace,
{
    assert(after@.base.args.take(after@.fixedArgs as int) =~= builder@.args);
}

/// What a variadic call says about `errno` and about its trace is remembered, and
/// touches nothing else about the call.
pub proof fn variadicOverridesAreRemembered<'a, 'g>(
    builder: VariadicCallBuilder<'a, 'g>,
    capturing: VariadicCallBuilder<'a, 'g>,
    notCapturing: VariadicCallBuilder<'a, 'g>,
    traced: VariadicCallBuilder<'a, 'g>,
    notTraced: VariadicCallBuilder<'a, 'g>,
)
    requires
        call_ensures(VariadicCallBuilder::<'a, 'g>::errno, (builder,), capturing),
        call_ensures(VariadicCallBuilder::<'a, 'g>::noErrno, (builder,), notCapturing),
        call_ensures(VariadicCallBuilder::<'a, 'g>::trace, (builder,), traced),
        call_ensures(VariadicCallBuilder::<'a, 'g>::noTrace, (builder,), notTraced),
    ensures
        capturing@.base.readErrno == Some(true) && capturing@.base.trace == builder@.base.trace,
        notCapturing@.base.readErrno == Some(false) && notCapturing@.base.trace
            == builder@.base.trace,
        traced@.base.trace == Some(true) && traced@.base.readErrno == builder@.base.readErrno,
        notTraced@.base.trace == Some(false) && notTraced@.base.readErrno
            == builder@.base.readErrno,
        capturing@.fixedArgs == builder@.fixedArgs && notCapturing@.fixedArgs == builder@.fixedArgs
            && traced@.fixedArgs == builder@.fixedArgs && notTraced@.fixedArgs
            == builder@.fixedArgs,
        capturing@.base.args == builder@.base.args && notCapturing@.base.args == builder@.base.args
            && traced@.base.args == builder@.base.args && notTraced@.base.args
            == builder@.base.args,
        capturing@.base.functionName == builder@.base.functionName
            && notCapturing@.base.functionName == builder@.base.functionName
            && traced@.base.functionName == builder@.base.functionName
            && notTraced@.base.functionName == builder@.base.functionName,
{
}

/// A library that is loaded is registered under its path, beside those that were there;
/// a call of one of its functions begins with it; and unloaded, it is gone again.
pub proof fn librariesAreLoadedAndUnloaded<'g>(
    registry: &mut LibraryRegistry,
    path: &str,
    library: Library<'g>,
    name: &str,
    builder: CallBuilder<'_, 'g>,
    later: &mut LibraryRegistry,
    unloaded: Result<(), FFIError>,
)
    requires
        call_ensures(Library::<'g>::load, (registry, path), library),
        call_ensures(Library::<'g>::call, (&library, name), builder),
        *old(later) == *final(registry),
        call_ensures(Library::<'g>::unload, (library, later), unloaded),
    ensures
        final(registry)@.contains_key(library.identifier()),
        final(registry)@[library.identifier()] == path@,
        forall|id: usize|
            #![trigger final(registry)@.contains_key(id)]
            id != library.identifier() ==> final(registry)@.contains_key(id)
                == old(registry)@.contains_key(id),
        builder@.libraryId == library.identifier(),
        builder@.libraryPath == path@,
        builder@.functionName == name@,
        builder@.args.len() == 0,
        unloaded is Ok,
        !final(later)@.contains_key(library.identifier()),
        !old(registry)@.contains_key(library.identifier()) ==> final(later)@ == old(registry)@,
{
    if !old(registry)@.contains_key(library.identifier()) {
        assert(final(later)@ =~= old(registry)@);
    }
}

/// The typed result of a call is the number that the clone answered with, and the
/// errors that came with it are those that the thread reports; an answer of another
/// kind is an error that keeps them.
pub proof fn typedResultsAreTheAnswers(
    call: PendingCall<i32>,
    thread: &mut ThreadState,
    number: i32,
    errno: Option<i32>,
    osError: Option<u32>,
    result: Result<i32, FFIError>,
)
    requires
        call_ensures(
            PendingCall::<i32>::complete,
            (
                call,
                thread,
                Ok::<FFIResponse, String>(FFIResponse::Done(Value::I32(number), errno, osError)),
            ),
            result,
        ),
    ensures
        result matches Ok(read) && read == number,
        final(thread).lastErrno == errno,
        final(thread).lastOsError == osError,
{
}

/// The structure that a call returns has the fields that the clone answered with, in
/// order; an answer that is no structure is an error.
pub proof fn structuredResultsAreTheAnswers(
    call: PendingStructCall,
    thread: &mut ThreadState,
    value: Value,
    errno: Option<i32>,
    osError: Option<u32>,
    result: Result<StructValue, FFIError>,
)
    requires
        call_ensures(
            PendingStructCall::complete,
            (
                call,
                thread,
                Ok::<FFIResponse, String>(FFIResponse::Done(value, errno, osError)),
            ),
            result,
        ),
    ensures
        value matches Value::Struct(fields) ==> (result matches Ok(structure)
            && structure.values@.len() == fields@.len() && (forall|i: int|
            0 <= i < fields@.len() ==> #[trigger] structure.values@[i] == fields@[i])),
        value !is Struct ==> result is Err,
        final(thread).lastErrno == errno,
        final(thread).lastOsError == osError,
{
}

/// Whether `request` is a call of `draft`: of its function, in its library, with its
/// arguments.
pub open spec fn calls(request: FFIRequest, draft: CallDraft) -> bool {
    request matches FFIRequest::Call { libraryPath, functionName, args, .. } && libraryPath@
        == draft.libraryPath && functionName@ == draft.functionName && args@ == draft.args
}

/// A call that is finalized asks for the result that it is finalized with, and is not
/// variadic.
pub proof fn finalizedCallsAskForTheirResult<'a, 'g, T: FfiPrimitive>(
    builder: CallBuilder<'a, 'g>,
    runtimes: (&mut Runtime, &mut Runtime, &mut Runtime),
    threads: (&mut ThreadState, &mut ThreadState, &mut ThreadState),
    environment: Option<&str>,
    fields: &[Type],
    typed: PendingCall<T>,
    structured: PendingStructCall,
    ignored: PendingCall<()>,
)
    requires
        call_ensures(
            CallBuilder::<'a, 'g>::result::<T>,
            (builder, runtimes.0, threads.0, environment),
            Ok::<PendingCall<T>, FFIError>(typed),
        ),
        call_ensures(
            CallBuilder::<'a, 'g>::resultStruct,
            (builder, runtimes.1, threads.1, environment, fields),
            Ok::<PendingStructCall, FFIError>(structured),
        ),
        call_ensures(
            CallBuilder::<'a, 'g>::void,
            (builder, runtimes.2, threads.2, environment),
            Ok::<PendingCall<()>, FFIError>(ignored),
        ),
    ensures
        calls(typed.pending.request, builder@),
        typed.pending.request matches FFIRequest::Call { resultType, fixedArgs, .. } && resultType@
            == T::tag()@ && fixedArgs is None,
        calls(structured.pending.request, builder@),
        structured.pending.request matches FFIRequest::Call { resultType, fixedArgs, .. }
            && resultType@ == TypeShape::Struct(typeShapes(fields@)) && fixedArgs is None,
        calls(ignored.pending.request, builder@),
        ignored.pending.request matches FFIRequest::Call { resultType, fixedArgs, .. }
            && resultType@ == TypeShape::Void && fixedArgs is None,
{
}

/// A variadic call that is finalized asks for the result that it is finalized with, and
/// counts the arguments that were there before the variadic ones.
pub proof fn finalizedVariadicCallsCountTheFixedArguments<'a, 'g, T: FfiPrimitive>(
    builder: VariadicCallBuilder<'a, 'g>,
    runtimes: (&mut Runtime, &mut Runtime, &mut Runtime),
    threads: (&mut ThreadState, &mut ThreadState, &mut ThreadState),
    environment: Option<&str>,
    fields: &[Type],
    typed: PendingCall<T>,
    structured: PendingStructCall,
    ignored: PendingCall<()>,
)
    requires
        builder@.fixedArgs <= usize::MAX,
        call_ensures(
            VariadicCallBuilder::<'a, 'g>::result::<T>,
            (builder, runtimes.0, threads.0, environment),
            Ok::<PendingCall<T>, FFIError>(typed),
        ),
        call_ensures(
            VariadicCallBuilder::<'a, 'g>::resultStruct,
            (builder, runtimes.1, threads.1, environment, fields),
            Ok::<PendingStructCall, FFIError>(structured),
        ),
        call_ensures(
            VariadicCallBuilder::<'a, 'g>::void,
            (builder, runtimes.2, threads.2, environment),
            Ok::<PendingCall<()>, FFIError>(ignored),
        ),
    ensures
        calls(typed.pending.request, builder@.base),
        typed.pending.request matches FFIRequest::Call { resultType, fixedArgs, .. } && resultType@
            == T::tag()@ && (fixedArgs matches Some(count) && count == builder@.fixedArgs),
        calls(structured.pending.request, builder@.base),
        structured.pending.request matches FFIRequest::Call { resultType, fixedArgs, .. }
            && resultType@ == TypeShape::Struct(typeShapes(fields@)) && (fixedArgs matches Some(
            count,
        ) && count == builder@.fixedArgs),
        calls(ignored.pending.request, builder@.base),
        ignored.pending.request matches FFIRequest::Call { resultType, fixedArgs, .. }
            && resultType@ == TypeShape::Void && (fixedArgs matches Some(count) && count
            == builder@.fixedArgs),
        builder@.fixedArgs > 0,
{
}

} // verus!
