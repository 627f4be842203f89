//! Callbacks: closures that cross the boundary to a clone.
//!
//! What crosses is an envelope of bytes: where the code is, relative to the
//! executable that both processes run; tags by which the receiver recognizes the
//! closure; and the captured state.
pub mod addressing;
pub mod arguments;
pub mod envelope;
pub mod erased;
pub mod sendable;

use crate::errors::CallError;
use crate::ffi::callback::addressing::{
    codePoints, hashed, relative, resolveRelative, resolved, spelledSignature, tagOf, typesTagOf,
};
use crate::ffi::callback::envelope::{defectOf, held, Contents, Envelope};
use crate::ffi::callback::sendable::Sendable;
use crate::ffi::types::{typeShapes, Type};
use vstd::prelude::*;

verus! {

/// How to make a closure of what crossed the boundary: which function to call,
/// and with what.
#[derive(Debug, PartialEq, Eq)]
pub struct DecodeCall {
    /// The address of the function in this process.
    pub address: usize,
    /// The tag of the place in the source code.
    pub siteTag: u64,
    /// The tag of the signature.
    pub argsOutputTag: u64,
    /// The captured state.
    pub state: Vec<u8>,
}

impl DecodeCall {
    /// Whether this is the call for an envelope with these contents, in a process
    /// whose executable was loaded at `base`.
    pub open spec fn serves(&self, contents: Contents, base: usize) -> bool {
        &&& self.address == resolved(base, contents.relativeOffset)
        &&& self.siteTag == contents.siteTag
        &&& self.argsOutputTag == contents.argsOutputTag
        &&& self.state@ == contents.bytes
    }
}

/// Finds the function for an envelope, in a process whose executable was loaded
/// at `base`.
pub fn locate(envelope: Envelope, base: usize) -> (call: DecodeCall)
    ensures
        call.serves(envelope@, base),
{
    DecodeCall {
        address: resolveRelative(base, envelope.relativeOffset),
        siteTag: envelope.siteTag,
        argsOutputTag: envelope.argsOutputTag,
        state: envelope.bytes,
    }
}

/// Reads what [`Sendable::encode`] wrote, in a process whose executable was
/// loaded at `base`.
pub fn decode(bytes: &[u8], base: usize) -> (result: Result<DecodeCall, CallError>)
    ensures
        match held(bytes@) {
            Some(contents) => result matches Ok(call) && call.serves(contents, base),
            None => result matches Err(CallError::Decode(text)) && text@ == defectOf(bytes@),
        },
{
    match Envelope::decode(bytes) {
        Ok(envelope) => Ok(locate(envelope, base)),
        Err(error) => Err(error),
    }
}

/// What is said where a closure was made at another place.
pub const ForeignSite: &'static str = "the callback comes from another place in the source code";

/// What is said where a closure has another signature.
pub const ForeignSignature: &'static str = "the callback has another signature";

/// What the function that was found checks before it looks at the captured state:
/// that the closure was made at its own place, with its own signature.
pub fn recognize(
    siteTag: u64,
    argsOutputTag: u64,
    site: &str,
    argTypes: &[Type],
    returnType: &Type,
) -> (result: Result<(), CallError>)
    ensures
        if siteTag != hashed(codePoints(site@)) {
            result matches Err(CallError::Decode(text)) && text@ == ForeignSite@
        } else if argsOutputTag != hashed(spelledSignature(typeShapes(argTypes@), returnType@)) {
            result matches Err(CallError::Decode(text)) && text@ == ForeignSignature@
        } else {
            result is Ok
        },
{
    if siteTag != tagOf(site) {
        Err(CallError::Decode(ForeignSite.to_owned()))
    } else if argsOutputTag != typesTagOf(argTypes, returnType) {
        Err(CallError::Decode(ForeignSignature.to_owned()))
    } else {
        Ok(())
    }
}

/// A closure arrives as it was sent: in a process that loaded the same executable
/// at the same place, the function that is found is the one that the closure was
/// sent with, and it gets the state and the tags of the closure. In one that
/// loaded it elsewhere, the function is found where the executable has it there.
pub proof fn closureArrives(
    sendable: Sendable,
    encoded: Seq<u8>,
    base: usize,
    address: usize,
    other: usize,
    here: DecodeCall,
    there: DecodeCall,
)
    requires
        held(encoded) == Some(sendable.contents()),
        sendable.contents().relativeOffset == relative(base, address),
        here.serves(held(encoded)->0, base),
        there.serves(held(encoded)->0, other),
    ensures
        here.address == address,
        relative(other, there.address) == relative(base, address),
        here.state@ == sendable.contents().bytes,
        here.siteTag == sendable.contents().siteTag,
        here.argsOutputTag == sendable.contents().argsOutputTag,
        there.state@ == here.state@,
        there.siteTag == here.siteTag,
        there.argsOutputTag == here.argsOutputTag,
{
    addressing::offsetsResolve(base, other, address);
}

/// A closure is recognized exactly by the tags of its own place and of its own
/// signature; whatever its captured state is, another tag is refused.
pub proof fn closuresAreRecognizedByTheirTags(
    site: &str,
    argTypes: &[Type],
    returnType: &Type,
    ownSite: u64,
    ownSignature: u64,
    siteTag: u64,
    argsOutputTag: u64,
    result: Result<(), CallError>,
)
    requires
        call_ensures(tagOf, (site,), ownSite),
        call_ensures(typesTagOf, (argTypes, returnType), ownSignature),
        call_ensures(recognize, (siteTag, argsOutputTag, site, argTypes, returnType), result),
    ensures
        result is Ok == (siteTag == ownSite && argsOutputTag == ownSignature),
{
}

/// What was sent is what is decoded, in whatever process: the state and the tags are
/// those of the closure, and the function lies as far behind the place of the
/// executable as it did where the closure was made.
pub proof fn sentClosuresAreDecoded(
    sendable: Sendable,
    encoded: Result<Vec<u8>, CallError>,
    bytes: &[u8],
    base: usize,
    result: Result<DecodeCall, CallError>,
    offset: usize,
)
    requires
        call_ensures(Sendable::encode, (&sendable,), encoded),
        encoded matches Ok(written) && written@ == bytes@,
        call_ensures(decode, (bytes, base), result),
        result is Ok ==> call_ensures(
            addressing::relativeOffsetOf,
            (base, result->Ok_0.address),
            offset,
        ),
    ensures
        result matches Ok(call) && call.siteTag == sendable.contents().siteTag
            && call.argsOutputTag == sendable.contents().argsOutputTag && call.state@
            == sendable.contents().bytes && offset == sendable.contents().relativeOffset,
{
}

} // verus!
