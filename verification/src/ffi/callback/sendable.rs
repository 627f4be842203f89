//! A callback on the side where it was made.
use crate::errors::CallError;
use crate::ffi::callback::addressing::{hashed, spelledSignature, typesTagOf};
use crate::ffi::callback::envelope::{held, packed, Contents, Envelope};
use crate::ffi::types::{typeShapes, Type};
use vstd::prelude::*;

verus! {

/// A closure that can cross the boundary to a clone: its captured state as
/// bytes, and what is needed to find and recognize its code there.
pub struct Sendable {
    relativeOffset: usize,
    siteTag: u64,
    state: Vec<u8>,
    argTypes: Vec<Type>,
    returnType: Type,
}

impl Sendable {
    /// What the envelope of this closure holds.
    pub closed spec fn contents(&self) -> Contents {
        Contents {
            relativeOffset: self.relativeOffset,
            argsOutputTag: hashed(
                spelledSignature(typeShapes(self.argTypes@), self.returnType@),
            ),
            siteTag: self.siteTag,
            bytes: self.state@,
        }
    }

    /// A closure whose captured state was turned into `state`.
    ///
    /// `relativeOffset` is the place of the function that makes a closure of
    /// these bytes again, and `siteTag` the tag of the place in the source code
    /// that the closure is from.
    pub fn from_closure(
        state: Vec<u8>,
        relativeOffset: usize,
        siteTag: u64,
        argTypes: Vec<Type>,
        returnType: Type,
    ) -> (sendable: Self)
        ensures
            sendable.contents() == (Contents {
                relativeOffset,
                argsOutputTag: hashed(spelledSignature(typeShapes(argTypes@), returnType@)),
                siteTag,
                bytes: state@,
            }),
    {
        Sendable { relativeOffset, siteTag, state, argTypes, returnType }
    }

    /// The bytes that cross the boundary. They hold everything that is needed to
    /// make the closure again and to call it. That does not fail.
    pub fn encode(&self) -> (result: Result<Vec<u8>, CallError>)
        ensures
            result matches Ok(encoded) && encoded@ == packed(self.contents()) && held(encoded@)
                == Some(self.contents()),
    {
        let envelope: Envelope = Envelope {
            relativeOffset: self.relativeOffset,
            argsOutputTag: typesTagOf(self.argTypes.as_slice(), &self.returnType),
            siteTag: self.siteTag,
            bytes: copyOf(&self.state),
        };
        assert(envelope@ =~= self.contents());
        envelope.encode()
    }
}

fn copyOf(bytes: &Vec<u8>) -> (copy: Vec<u8>)
    ensures
        copy@ == bytes@,
{
    let mut copy: Vec<u8> = Vec::new();
    let mut i: usize = 0;
    while i < bytes.len()
        invariant
            i <= bytes@.len(),
            copy@ == bytes@.take(i as int),
        decreases bytes@.len() - i,
    {
        copy.push(bytes[i]);
        i = i + 1;
        assert(copy@ =~= bytes@.take(i as int));
    }
    assert(bytes@.take(i as int) =~= bytes@);
    copy
}

} // verus!
