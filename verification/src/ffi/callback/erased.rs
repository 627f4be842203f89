//! A callback on the side where it is called.
use crate::ffi::callback::arguments::{DynamicArgs, DynamicList};
use crate::ffi::types::{Arg, FfiPrimitive, Value};
use std::marker::PhantomData;
use vstd::prelude::*;

verus! {

/// What can be called with `Args` and returns an `Output`.
pub trait Callable<Args, Output>: Send {
    /// The arguments that it can be called with.
    spec fn accepts(&self, args: Args) -> bool;

    /// Whether it may return `output` for `args`.
    spec fn answers(&self, args: Args, output: Output) -> bool;

    /// Calls it.
    fn call(&self, args: Args) -> (output: Output)
        requires
            self.accepts(args),
        ensures
            self.answers(args, output),
    ;
}

/// A closure whose type is no longer known: arguments and result are values.
pub struct ErasedCallable {
    inner: Box<dyn Callable<DynamicList, Value>>,
}

/// Whether `closure` may return, for the typed arguments in `args`, something
/// that `output` stands for.
pub open spec fn mayAnswer<Args: DynamicArgs, Ret: FfiPrimitive, F: Fn(Args) -> Ret>(
    closure: F,
    args: DynamicList,
    output: Value,
) -> bool {
    exists|returned: Ret|
        call_ensures(closure, (Args::extracted(args)->0,), returned) && output
            == #[trigger] returned.encoded()
}

/// Whether `closure` can be called with `args`: they are its typed arguments, and
/// it takes them.
pub open spec fn takes<Args: DynamicArgs, Ret: FfiPrimitive, F: Fn(Args) -> Ret>(
    closure: F,
    args: DynamicList,
) -> bool {
    Args::extracted(args) is Some && call_requires(closure, (Args::extracted(args)->0,))
}

/// A typed closure.
struct ClosureAdapter<F, Args, Ret> {
    closure: F,
    types: PhantomData<(Args, Ret)>,
}

impl<
    Args: DynamicArgs + Send + 'static,
    Ret: FfiPrimitive + Send + 'static,
    F: Fn(Args) -> Ret + Send + 'static,
> Callable<DynamicList, Value> for ClosureAdapter<F, Args, Ret> {
    closed spec fn accepts(&self, args: DynamicList) -> bool {
        takes(self.closure, args)
    }

    closed spec fn answers(&self, args: DynamicList, output: Value) -> bool {
        mayAnswer(self.closure, args, output)
    }

    fn call(&self, args: DynamicList) -> (output: Value) {
        match Args::extract(args) {
            Some(typed) => {
                let returned: Ret = (self.closure)(typed);
                let arg: Arg = returned.toFfiValue();
                arg.0
            },
            None => Value::Void,
        }
    }
}

/// Whether `typedFn` may return, for `state` and `args`, something that `output`
/// stands for.
pub open spec fn mayReturn<State, Output: FfiPrimitive, F: Fn(&State, &DynamicList) -> Output>(
    typedFn: F,
    state: State,
    args: DynamicList,
    output: Value,
) -> bool {
    exists|typed: Output|
        call_ensures(typedFn, (&state, &args), typed) && output == #[trigger] typed.encoded()
}

/// A typed entry point and the state that it works on.
struct StateFnAdapter<State, Output, F> {
    state: State,
    typedFn: F,
    returns: PhantomData<Output>,
}

impl<
    State: Send + 'static,
    Output: FfiPrimitive + Send + 'static,
    F: Fn(&State, &DynamicList) -> Output + Send + 'static,
> Callable<DynamicList, Value> for StateFnAdapter<State, Output, F> {
    closed spec fn accepts(&self, args: DynamicList) -> bool {
        call_requires(self.typedFn, (&self.state, &args))
    }

    closed spec fn answers(&self, args: DynamicList, output: Value) -> bool {
        mayReturn(self.typedFn, self.state, args, output)
    }

    fn call(&self, args: DynamicList) -> (output: Value) {
        let typed: Output = (self.typedFn)(&self.state, &args);
        let arg: Arg = typed.toFfiValue();
        arg.0
    }
}

impl ErasedCallable {
    /// The arguments that this closure can be called with.
    pub closed spec fn accepts(&self, args: DynamicList) -> bool {
        self.inner.accepts(args)
    }

    /// Whether this closure may return `output` for `args`.
    pub closed spec fn answers(&self, args: DynamicList, output: Value) -> bool {
        self.inner.answers(args, output)
    }

    /// The closure that takes its arguments out of the list and hands them to
    /// `closure`.
    pub fn from_closure<F, Args, Ret>(closure: F) -> (erased: Self) where
        F: Fn(Args) -> Ret + Clone + Send + 'static,
        Args: DynamicArgs + Send + 'static,
        Ret: FfiPrimitive + Send + 'static,

        ensures
            forall|args: DynamicList| #[trigger] erased.accepts(args) == takes(closure, args),
            forall|args: DynamicList, output: Value| #[trigger]
                erased.answers(args, output) == mayAnswer(closure, args, output),
    {
        ErasedCallable { inner: Box::new(ClosureAdapter { closure, types: PhantomData }) }
    }

    /// The closure that calls `typedFn` on `state` and on the arguments.
    pub fn fromStateAndFn<State, Output, F>(state: State, typedFn: F) -> (erased: Self) where
        State: Send + 'static,
        Output: FfiPrimitive + Send + 'static,
        F: Fn(&State, &DynamicList) -> Output + Send + 'static,

        ensures
            forall|args: DynamicList| #[trigger]
                erased.accepts(args) == call_requires(typedFn, (&state, &args)),
            forall|args: DynamicList, output: Value| #[trigger]
                erased.answers(args, output) == mayReturn(typedFn, state, args, output),
    {
        ErasedCallable { inner: Box::new(StateFnAdapter { state, typedFn, returns: PhantomData }) }
    }

    /// Calls the closure.
    pub fn call(&self, args: DynamicList) -> (output: Value)
        requires
            self.accepts(args),
        ensures
            self.answers(args, output),
    {
        self.inner.call(args)
    }
}

// ------------------------------------------------------------------------------------------------
// What holds of callbacks that are called
// ------------------------------------------------------------------------------------------------

/// What an erased entry point returns is what its typed function returned: read as
/// the type of the result it is a value that the function may return for that state
/// and those arguments, and it is the value that is sent for it. Nothing that the
/// function may return is ruled out.
pub proof fn statefulResultsAreTheTypedOnes<
    State,
    Output: FfiPrimitive,
    F: Fn(&State, &DynamicList) -> Output,
>(typedFn: F, state: State, args: DynamicList, output: Value, typed: Output)
    ensures
        mayReturn::<State, Output, F>(typedFn, state, args, output) ==> exists|returned: Output|
            #![trigger returned.encoded()]
            call_ensures(typedFn, (&state, &args), returned) && Output::decoded(output) == Some(
                returned,
            ) && output == returned.encoded(),
        call_ensures(typedFn, (&state, &args), typed) ==> mayReturn::<State, Output, F>(
            typedFn,
            state,
            args,
            typed.encoded(),
        ),
{
    if mayReturn::<State, Output, F>(typedFn, state, args, output) {
        let returned = choose|returned: Output|
            call_ensures(typedFn, (&state, &args), returned) && output
                == #[trigger] returned.encoded();
        returned.encodedIsDecoded();
    }
}

/// What an erased closure returns is what the closure returned: read as the type of
/// the result it is a value that the closure may return for the arguments that the
/// list holds, and it is the value that is sent for it. Nothing that the closure may
/// return is ruled out.
pub proof fn closureResultsAreTheTypedOnes<
    Args: DynamicArgs,
    Ret: FfiPrimitive,
    F: Fn(Args) -> Ret,
>(closure: F, args: DynamicList, typedArgs: Args, output: Value, typed: Ret)
    requires
        Args::extracted(args) == Some(typedArgs),
    ensures
        mayAnswer::<Args, Ret, F>(closure, args, output) ==> exists|returned: Ret|
            #![trigger returned.encoded()]
            call_ensures(closure, (typedArgs,), returned) && Ret::decoded(output) == Some(returned)
                && output == returned.encoded(),
        call_ensures(closure, (typedArgs,), typed) ==> mayAnswer::<Args, Ret, F>(
            closure,
            args,
            typed.encoded(),
        ),
{
    if mayAnswer::<Args, Ret, F>(closure, args, output) {
        let returned = choose|returned: Ret|
            call_ensures(closure, (Args::extracted(args)->0,), returned) && output
                == #[trigger] returned.encoded();
        returned.encodedIsDecoded();
    }
}

/// A closure can be called with every list that holds its arguments, where it takes
/// them, and with no other.
pub proof fn closuresTakeTheirOwnArguments<
    Args: DynamicArgs,
    Ret: FfiPrimitive,
    F: Fn(Args) -> Ret,
>(closure: F, args: DynamicList, typedArgs: Args)
    ensures
        Args::extracted(args) == Some(typedArgs) ==> takes::<Args, Ret, F>(closure, args)
            == call_requires(closure, (typedArgs,)),
        Args::extracted(args) is None ==> !takes::<Args, Ret, F>(closure, args),
{
}

/// A closure that is erased and called returns what it returns for the arguments that
/// the list holds, as the value that is sent for it.
pub proof fn erasedClosuresReturnWhatTheyReturn<F, Args, Ret>(
    closure: F,
    erased: ErasedCallable,
    args: DynamicList,
    typedArgs: Args,
    output: Value,
) where
    F: Fn(Args) -> Ret + Clone + Send + 'static,
    Args: DynamicArgs + Send + 'static,
    Ret: FfiPrimitive + Send + 'static,

    requires
        call_ensures(ErasedCallable::from_closure::<F, Args, Ret>, (closure,), erased),
        Args::extracted(args) == Some(typedArgs),
        call_ensures(ErasedCallable::call, (&erased, args), output),
    ensures
        exists|returned: Ret|
            #![trigger returned.encoded()]
            call_ensures(closure, (typedArgs,), returned) && Ret::decoded(output) == Some(returned)
                && output == returned.encoded(),
        erased.accepts(args) == call_requires(closure, (typedArgs,)),
{
    assert(erased.answers(args, output));
    let returned = choose|returned: Ret|
        call_ensures(closure, (Args::extracted(args)->0,), returned) && output
            == #[trigger] returned.encoded();
    returned.encodedIsDecoded();
}

/// An entry point that is erased and called returns what it returns for its state and
/// the arguments, as the value that is sent for it.
pub proof fn erasedEntryPointsReturnWhatTheyReturn<State, Output, F>(
    state: State,
    typedFn: F,
    erased: ErasedCallable,
    args: DynamicList,
    output: Value,
) where
    State: Send + 'static,
    Output: FfiPrimitive + Send + 'static,
    F: Fn(&State, &DynamicList) -> Output + Send + 'static,

    requires
        call_ensures(
            ErasedCallable::fromStateAndFn::<State, Output, F>,
            (state, typedFn),
            erased,
        ),
        call_ensures(ErasedCallable::call, (&erased, args), output),
    ensures
        exists|returned: Output|
            #![trigger returned.encoded()]
            call_ensures(typedFn, (&state, &args), returned) && Output::decoded(output) == Some(
                returned,
            ) && output == returned.encoded(),
        erased.accepts(args) == call_requires(typedFn, (&state, &args)),
{
    assert(erased.answers(args, output));
    let returned = choose|returned: Output|
        call_ensures(typedFn, (&state, &args), returned) && output
            == #[trigger] returned.encoded();
    returned.encodedIsDecoded();
}

} // verus!
