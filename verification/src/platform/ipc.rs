//! What the processes say to each other.
use crate::errors::FFIError;
use crate::ffi::types::{Type, Value};
use vstd::prelude::*;
use vstd::string::*;

verus! {

/// A request to a clone.
#[derive(Debug, PartialEq)]
pub enum FFIRequest {
    /// Call a function of a library.
    Call {
        libraryPath: String,
        functionName: String,
        args: Vec<Value>,
        resultType: Type,
        /// Report `errno` with the result.
        readErrno: bool,
        /// Log the call.
        trace: bool,
        /// Number of fixed arguments of a variadic call.
        fixedArgs: Option<usize>,
    },
    /// Call a function by its address.
    CallPointer {
        address: usize,
        args: Vec<Value>,
        resultType: Type,
        readErrno: bool,
        trace: bool,
        fixedArgs: Option<usize>,
    },
    /// Allocate memory.
    Alloc { length: usize },
    /// Read memory.
    ReadMemory { address: usize, length: usize },
    /// Free memory.
    Free { address: usize },
}

/// The answer of a clone.
#[derive(Debug, PartialEq)]
pub enum FFIResponse {
    /// The result, and `errno` and the system error where they were asked for.
    Done(Value, Option<i32>, Option<u32>),
    /// The request failed.
    Failed(FFIError),
}

/// Whether `request` is a variadic call that has no fixed argument, which no
/// calling convention allows.
pub open spec fn lacksFixedArgs(request: FFIRequest) -> bool {
    match request {
        FFIRequest::Call { fixedArgs, .. } => fixedArgs == Some(0usize),
        FFIRequest::CallPointer { fixedArgs, .. } => fixedArgs == Some(0usize),
        _ => false,
    }
}

/// What is said to a variadic call without a fixed argument.
pub const NoFixedArgument: &'static str = "a variadic call needs at least one fixed argument";

/// What a clone checks of a request before it executes it: the error answers the
/// request in place of a result.
pub fn checkRequest(request: &FFIRequest) -> (result: Result<(), FFIError>)
    ensures
        if lacksFixedArgs(*request) {
            result matches Err(FFIError::BadArgument(message)) && message@ == NoFixedArgument@
        } else {
            result is Ok
        },
{
    let fixedArgs: Option<usize> = match request {
        FFIRequest::Call { fixedArgs, .. } => *fixedArgs,
        FFIRequest::CallPointer { fixedArgs, .. } => *fixedArgs,
        _ => None,
    };
    match fixedArgs {
        Some(0) => Err(FFIError::BadArgument(NoFixedArgument.to_owned())),
        _ => Ok(()),
    }
}

/// A request lacks fixed arguments exactly where it is a call, by name or by
/// address, that is variadic and counts none of them; whatever else it holds does
/// not matter.
pub proof fn onlyVariadicCallsLackFixedArguments(request: FFIRequest)
    ensures
        request matches FFIRequest::Call { fixedArgs, .. } ==> lacksFixedArgs(request) == (
        fixedArgs matches Some(count) && count == 0),
        request matches FFIRequest::CallPointer { fixedArgs, .. } ==> lacksFixedArgs(request) == (
        fixedArgs matches Some(count) && count == 0),
        request is Alloc || request is ReadMemory || request is Free ==> !lacksFixedArgs(request),
{
}

/// A clone refuses exactly the variadic calls that count no fixed argument, and
/// executes every other request.
pub proof fn clonesRefuseCallsWithoutFixedArguments(
    request: FFIRequest,
    result: Result<(), FFIError>,
)
    requires
        call_ensures(checkRequest, (&request,), result),
    ensures
        request matches FFIRequest::Call { fixedArgs, .. } ==> result is Err == (fixedArgs
            == Some(0usize)),
        request matches FFIRequest::CallPointer { fixedArgs, .. } ==> result is Err == (fixedArgs
            == Some(0usize)),
        request is Alloc || request is ReadMemory || request is Free ==> result is Ok,
        result matches Err(error) ==> (error matches FFIError::BadArgument(message) && message@
            == "a variadic call needs at least one fixed argument"@),
{
}

} // verus!
