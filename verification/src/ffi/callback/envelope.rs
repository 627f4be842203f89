//! The bytes of a callback on its way to a clone.
use crate::errors::CallError;
use vstd::prelude::*;
use vstd::string::*;

verus! {

/// What crosses the boundary of a callback.
#[derive(Debug, PartialEq, Eq)]
pub struct Envelope {
    /// Where the decoding function is, relative to the executable.
    pub relativeOffset: usize,
    /// The tag of the signature.
    pub argsOutputTag: u64,
    /// The tag of the place in the source code.
    pub siteTag: u64,
    /// The captured state.
    pub bytes: Vec<u8>,
}

/// The contents of an envelope.
#[verifier::ext_equal]
pub struct Contents {
    pub relativeOffset: usize,
    pub argsOutputTag: u64,
    pub siteTag: u64,
    pub bytes: Seq<u8>,
}

impl View for Envelope {
    type V = Contents;

    open spec fn view(&self) -> Contents {
        Contents {
            relativeOffset: self.relativeOffset,
            argsOutputTag: self.argsOutputTag,
            siteTag: self.siteTag,
            bytes: self.bytes@,
        }
    }
}

/// The lowest `length` bytes of a number, lowest first.
pub open spec fn littleEndian(number: nat, length: nat) -> Seq<u8>
    decreases length,
{
    if length == 0 {
        Seq::empty()
    } else {
        seq![(number % 256) as u8] + littleEndian(number / 256, (length - 1) as nat)
    }
}

/// A number in as few bytes as it needs: a small one is a byte, and any other
/// follows a byte that says how long it is.
pub open spec fn varint(number: nat) -> Seq<u8> {
    if number < 251 {
        seq![number as u8]
    } else if number < 0x1_0000 {
        seq![251u8] + littleEndian(number, 2)
    } else if number < 0x1_0000_0000 {
        seq![252u8] + littleEndian(number, 4)
    } else {
        seq![253u8] + littleEndian(number, 8)
    }
}

/// The bytes of an envelope with these parts: its numbers, and then its state
/// behind its length.
pub open spec fn packedParts(relativeOffset: nat, argsOutputTag: nat, siteTag: nat, bytes: Seq<u8>) -> Seq<
    u8,
> {
    varint(relativeOffset) + varint(argsOutputTag) + varint(siteTag) + varint(bytes.len()) + bytes
}

/// The bytes of an envelope.
pub open spec fn packed(contents: Contents) -> Seq<u8> {
    packedParts(
        contents.relativeOffset as nat,
        contents.argsOutputTag as nat,
        contents.siteTag as nat,
        contents.bytes,
    )
}

/// The number whose bytes are `bytes`, lowest first.
pub open spec fn fromLittleEndian(bytes: Seq<u8>) -> nat
    decreases bytes.len(),
{
    if bytes.len() == 0 {
        0
    } else {
        bytes[0] as nat + 256 * fromLittleEndian(bytes.drop_first())
    }
}

/// The number whose `length` bytes begin at position `at` of `bytes`, and the
/// position behind it, if there are that many.
pub open spec fn fieldAt(bytes: Seq<u8>, at: int, length: int) -> Option<(u64, int)> {
    if at + length <= bytes.len() {
        Some((fromLittleEndian(bytes.subrange(at, at + length)) as u64, at + length))
    } else {
        None
    }
}

/// The number that begins at position `at` of `bytes` in the form of [`varint`],
/// and the position behind it, if one does. A number may take more bytes than it
/// needs.
#[verifier::opaque]
pub open spec fn numberAt(bytes: Seq<u8>, at: int) -> Option<(u64, int)> {
    if at >= bytes.len() {
        None
    } else if bytes[at] < 251 {
        Some((bytes[at] as u64, at + 1))
    } else if bytes[at] == 251 {
        fieldAt(bytes, at + 1, 2)
    } else if bytes[at] == 252 {
        fieldAt(bytes, at + 1, 4)
    } else if bytes[at] == 253 {
        fieldAt(bytes, at + 1, 8)
    } else {
        None
    }
}

/// The numbers of an envelope, the last of which is the length of its state, and
/// the position behind them.
pub struct Header {
    pub relativeOffset: u64,
    pub argsOutputTag: u64,
    pub siteTag: u64,
    pub length: u64,
    pub end: int,
}

/// The header that `bytes` begin with, if they do.
pub open spec fn headerOf(bytes: Seq<u8>) -> Option<Header> {
    match numberAt(bytes, 0) {
        None => None,
        Some((relativeOffset, first)) => match numberAt(bytes, first) {
            None => None,
            Some((argsOutputTag, second)) => match numberAt(bytes, second) {
                None => None,
                Some((siteTag, third)) => match numberAt(bytes, third) {
                    None => None,
                    Some((length, end)) => Some(
                        Header { relativeOffset, argsOutputTag, siteTag, length, end },
                    ),
                },
            },
        },
    }
}

/// The contents of the envelope that `bytes` begin with, if they do. What follows
/// it is not looked at.
pub open spec fn held(bytes: Seq<u8>) -> Option<Contents> {
    match headerOf(bytes) {
        Some(header) => if header.relativeOffset <= usize::MAX && header.end + header.length
            <= bytes.len() {
            Some(
                Contents {
                    relativeOffset: header.relativeOffset as usize,
                    argsOutputTag: header.argsOutputTag,
                    siteTag: header.siteTag,
                    bytes: bytes.subrange(header.end, header.end + header.length),
                },
            )
        } else {
            None
        },
        None => None,
    }
}

/// Whether the numbers of `bytes` that stand for an address and for a length are
/// within what this machine can address. With addresses of 64 bits they always
/// are.
pub open spec fn addressable(bytes: Seq<u8>) -> bool {
    &&& numberAt(bytes, 0) matches Some((offset, _)) ==> offset <= usize::MAX
    &&& headerOf(bytes) matches Some(header) ==> header.length <= usize::MAX
}

/// How `bincode` describes what is wrong with bytes that hold no envelope.
pub uninterp spec fn complaint(bytes: Seq<u8>) -> Seq<char>;

/// `bincode::serde::encode_to_vec` of the parts of an envelope, in the standard
/// configuration: it succeeds, and the bytes are those of [`packedParts`].
#[verifier::external_body]
fn encodeParts(relativeOffset: usize, argsOutputTag: u64, siteTag: u64, bytes: &Vec<u8>) -> (result:
    Result<Vec<u8>, String>)
    ensures
        match result {
            Ok(encoded) => encoded@ == packedParts(
                relativeOffset as nat,
                argsOutputTag as nat,
                siteTag as nat,
                bytes@,
            ),
            Err(_) => false,
        },
{
    bincode::serde::encode_to_vec(
        (relativeOffset, argsOutputTag, siteTag, bytes),
        bincode::config::standard(),
    ).map_err(|e| e.to_string())
}

/// `bincode::serde::decode_from_slice` of the parts of an envelope, in the
/// standard configuration: the parts of the envelope that the bytes hold, or the
/// description that [`complaint`] names where they hold none. Nothing is said of
/// bytes that hold none and name more than this machine can address: a length is
/// cut down to an address silently.
#[verifier::external_body]
fn decodeParts(bytes: &[u8]) -> (result: Result<(usize, u64, u64, Vec<u8>), String>)
    ensures
        match held(bytes@) {
            Some(contents) => result matches Ok(parts) && parts.0 == contents.relativeOffset
                && parts.1 == contents.argsOutputTag && parts.2 == contents.siteTag && parts.3@
                == contents.bytes,
            None => addressable(bytes@) ==> (result matches Err(message) && message@ == complaint(
                bytes@,
            )),
        },
{
    match bincode::serde::decode_from_slice(bytes, bincode::config::standard()) {
        Ok((parts, _)) => Ok(parts),
        Err(e) => Err(e.to_string()),
    }
}

/// What is said of bytes that name more than this machine can address.
pub const TooLargeHere: &'static str = "a number exceeds the address space";

/// Reads the number whose `length` bytes begin at position `at`.
fn readField(bytes: &[u8], at: usize, length: usize) -> (field: Option<(u64, usize)>)
    requires
        at <= bytes@.len(),
        length <= 8,
    ensures
        match fieldAt(bytes@, at as int, length as int) {
            Some((number, end)) => field matches Some(found) && found.0 == number && found.1 == end,
            None => field is None,
        },
{
    if bytes.len() - at < length {
        return None;
    }
    let end: usize = at + length;
    let mut number: u64 = 0;
    let mut i: usize = length;
    assert(bytes@.subrange(end as int, end as int) =~= Seq::<u8>::empty());
    while i > 0
        invariant
            i <= length <= 8,
            end == at + length,
            end <= bytes@.len(),
            number == fromLittleEndian(bytes@.subrange(at + i, end as int)),
            number < boundOf((length - i) as nat),
        decreases i,
    {
        i = i - 1;
        let ghost rest = bytes@.subrange(at + i, end as int);
        proof {
            reveal_with_fuel(boundOf, 9);
            assert(rest.drop_first() =~= bytes@.subrange(at + i + 1, end as int));
        }
        number = number * 256 + bytes[at + i] as u64;
    }
    Some((number, end))
}

/// Reads the number that begins at position `at`.
fn readNumber(bytes: &[u8], at: usize) -> (field: Option<(u64, usize)>)
    ensures
        match numberAt(bytes@, at as int) {
            Some((number, end)) => field matches Some(found) && found.0 == number && found.1
                == end,
            None => field is None,
        },
{
    proof {
        reveal(numberAt);
    }
    if at >= bytes.len() {
        return None;
    }
    match bytes[at] {
        251 => readField(bytes, at + 1, 2),
        252 => readField(bytes, at + 1, 4),
        253 => readField(bytes, at + 1, 8),
        254 => None,
        255 => None,
        small => Some((small as u64, at + 1)),
    }
}

/// Whether this machine can address what the numbers of `bytes` stand for.
fn isAddressable(bytes: &[u8]) -> (fits: bool)
    ensures
        fits == addressable(bytes@),
{
    let (offset, first): (u64, usize) = match readNumber(bytes, 0) {
        Some(field) => field,
        None => {
            return true;
        },
    };
    if offset > usize::MAX as u64 {
        return false;
    }
    let (_, second): (u64, usize) = match readNumber(bytes, first) {
        Some(field) => field,
        None => {
            return true;
        },
    };
    let (_, third): (u64, usize) = match readNumber(bytes, second) {
        Some(field) => field,
        None => {
            return true;
        },
    };
    match readNumber(bytes, third) {
        Some((length, _)) => length <= usize::MAX as u64,
        None => true,
    }
}

/// Reading a number goes on.
proof fn readingGoesOn(bytes: Seq<u8>, at: int)
    ensures
        numberAt(bytes, at) matches Some((_, end)) ==> end > at,
{
    reveal(numberAt);
}

/// An envelope that the bytes of this machine hold is within its addresses.
proof fn heldIsAddressable(bytes: Seq<u8>)
    requires
        bytes.len() <= usize::MAX,
        held(bytes) is Some,
    ensures
        addressable(bytes),
{
    readingGoesOn(bytes, 0);
    if let Some((_, first)) = numberAt(bytes, 0) {
        readingGoesOn(bytes, first);
        if let Some((_, second)) = numberAt(bytes, first) {
            readingGoesOn(bytes, second);
            if let Some((_, third)) = numberAt(bytes, second) {
                readingGoesOn(bytes, third);
            }
        }
    }
}

/// What is wrong with bytes that hold no envelope.
pub open spec fn defectOf(bytes: Seq<u8>) -> Seq<char> {
    if addressable(bytes) {
        complaint(bytes)
    } else {
        TooLargeHere@
    }
}

impl Envelope {
    /// The bytes of this envelope. That does not fail, and the bytes hold this
    /// envelope.
    pub fn encode(&self) -> (result: Result<Vec<u8>, CallError>)
        ensures
            result matches Ok(encoded) && encoded@ == packed(self@) && held(encoded@) == Some(
                self@,
            ),
    {
        let encoded: Vec<u8> = match encodeParts(
            self.relativeOffset,
            self.argsOutputTag,
            self.siteTag,
            &self.bytes,
        ) {
            Ok(encoded) => encoded,
            Err(message) => {
                return Err(CallError::Encode(message));
            },
        };
        proof {
            assert(encoded.len() == packed(self@).len());
            packedIsHeld(self@);
        }
        Ok(encoded)
    }

    /// The envelope that `bytes` hold.
    pub fn decode(bytes: &[u8]) -> (result: Result<Envelope, CallError>)
        ensures
            match held(bytes@) {
                Some(contents) => result matches Ok(envelope) && envelope@ == contents,
                None => result matches Err(CallError::Decode(text)) && text@ == defectOf(bytes@),
            },
    {
        if !isAddressable(bytes) {
            proof {
                assert(bytes@.len() == bytes.len());
                if held(bytes@) is Some {
                    heldIsAddressable(bytes@);
                }
            }
            return Err(CallError::Decode(TooLargeHere.to_owned()));
        }
        Envelope::open(decodeParts(bytes))
    }

    /// The envelope with these parts, or the error with that description.
    pub fn open(parts: Result<(usize, u64, u64, Vec<u8>), String>) -> (result: Result<
        Envelope,
        CallError,
    >)
        ensures
            match parts {
                Ok((relativeOffset, argsOutputTag, siteTag, bytes)) => result == Ok::<
                    Envelope,
                    CallError,
                >(Envelope { relativeOffset, argsOutputTag, siteTag, bytes }),
                Err(message) => result == Err::<Envelope, CallError>(CallError::Decode(message)),
            },
    {
        match parts {
            Ok((relativeOffset, argsOutputTag, siteTag, bytes)) => Ok(
                Envelope { relativeOffset, argsOutputTag, siteTag, bytes },
            ),
            Err(message) => Err(CallError::Decode(message)),
        }
    }
}

// ------------------------------------------------------------------------------------------------
// Reading back
// ------------------------------------------------------------------------------------------------

/// The least number that takes more than `length` bytes.
spec fn boundOf(length: nat) -> nat
    decreases length,
{
    if length == 0 {
        1
    } else {
        256 * boundOf((length - 1) as nat)
    }
}

proof fn littleEndianReadsBack(number: nat, length: nat)
    requires
        number < boundOf(length),
    ensures
        littleEndian(number, length).len() == length,
        fromLittleEndian(littleEndian(number, length)) == number,
    decreases length,
{
    if length > 0 {
        littleEndianReadsBack(number / 256, (length - 1) as nat);
        assert(littleEndian(number, length).drop_first() =~= littleEndian(
            number / 256,
            (length - 1) as nat,
        ));
    }
}

/// A number reads back wherever it stands.
proof fn varintReadsBack(before: Seq<u8>, number: u64, behind: Seq<u8>)
    ensures
        numberAt(before + varint(number as nat) + behind, before.len() as int) == Some(
            (number, (before.len() + varint(number as nat).len()) as int),
        ),
{
    let written = varint(number as nat);
    let bytes = before + written + behind;
    let at = before.len() as int;
    reveal(numberAt);
    reveal_with_fuel(boundOf, 9);
    if number >= 251 {
        let length: nat = if number < 0x1_0000 {
            2
        } else if number < 0x1_0000_0000 {
            4
        } else {
            8
        };
        littleEndianReadsBack(number as nat, length);
        assert(bytes.subrange(at + 1, at + 1 + length) =~= littleEndian(number as nat, length));
    }
}

/// Whether `written` reads as `number` wherever it stands.
spec fn readsAs(written: Seq<u8>, number: u64) -> bool {
    forall|before: Seq<u8>, behind: Seq<u8>|
        #![trigger before + written + behind]
        numberAt(before + written + behind, before.len() as int) == Some(
            (number, (before.len() + written.len()) as int),
        )
}

proof fn varintReads(number: u64)
    ensures
        readsAs(varint(number as nat), number),
{
    assert forall|before: Seq<u8>, behind: Seq<u8>|
        #![trigger before + varint(number as nat) + behind]
        numberAt(before + varint(number as nat) + behind, before.len() as int) == Some(
            (number, (before.len() + varint(number as nat).len()) as int),
        ) by {
        varintReadsBack(before, number, behind);
    }
}

/// A header reads back, whatever follows it.
proof fn headerReadsBack(
    header: Header,
    a: Seq<u8>,
    b: Seq<u8>,
    c: Seq<u8>,
    d: Seq<u8>,
    behind: Seq<u8>,
)
    requires
        readsAs(a, header.relativeOffset),
        readsAs(b, header.argsOutputTag),
        readsAs(c, header.siteTag),
        readsAs(d, header.length),
        header.end == (a + b + c + d).len(),
    ensures
        headerOf(a + b + c + d + behind) == Some(header),
{
    let bytes = a + b + c + d + behind;
    let none = Seq::<u8>::empty();
    assert(bytes =~= none + a + (b + c + d + behind));
    assert(bytes =~= a + b + (c + d + behind));
    assert(bytes =~= (a + b) + c + (d + behind));
    assert(bytes =~= (a + b + c) + d + behind);
    assert(numberAt(bytes, 0) == Some((header.relativeOffset, a.len() as int)));
    assert(numberAt(bytes, a.len() as int) == Some(
        (header.argsOutputTag, (a.len() + b.len()) as int),
    ));
    assert(numberAt(bytes, (a + b).len() as int) == Some(
        (header.siteTag, (a.len() + b.len() + c.len()) as int),
    ));
    assert(numberAt(bytes, (a + b + c).len() as int) == Some(
        (header.length, (a.len() + b.len() + c.len() + d.len()) as int),
    ));
}

/// The bytes of an envelope hold it: whatever is packed is read back as it was.
pub proof fn packedIsHeld(contents: Contents)
    requires
        packed(contents).len() <= usize::MAX,
    ensures
        held(packed(contents)) == Some(contents),
{
    varintReads(contents.relativeOffset as u64);
    varintReads(contents.argsOutputTag);
    varintReads(contents.siteTag);
    varintReads(contents.bytes.len() as u64);
    let a = varint(contents.relativeOffset as nat);
    let b = varint(contents.argsOutputTag as nat);
    let c = varint(contents.siteTag as nat);
    let d = varint(contents.bytes.len());
    let header = Header {
        relativeOffset: contents.relativeOffset as u64,
        argsOutputTag: contents.argsOutputTag,
        siteTag: contents.siteTag,
        length: contents.bytes.len() as u64,
        end: (a + b + c + d).len() as int,
    };
    headerReadsBack(header, a, b, c, d, contents.bytes);
    assert((a + b + c + d + contents.bytes).subrange(
        (a + b + c + d).len() as int,
        (a + b + c + d + contents.bytes).len() as int,
    ) =~= contents.bytes);
}

/// An envelope shows what it holds, each part in its place.
pub proof fn envelopesShowTheirParts(envelope: Envelope)
    ensures
        envelope@.relativeOffset == envelope.relativeOffset,
        envelope@.argsOutputTag == envelope.argsOutputTag,
        envelope@.siteTag == envelope.siteTag,
        envelope@.bytes == envelope.bytes@,
{
}

/// The bytes of an envelope end with the captured state, byte by byte.
pub proof fn packedEndsWithTheState(contents: Contents)
    ensures
        packed(contents).len() > contents.bytes.len(),
        packed(contents).skip(packed(contents).len() - contents.bytes.len()) == contents.bytes,
{
    assert(packed(contents).skip(packed(contents).len() - contents.bytes.len())
        =~= contents.bytes);
}

/// Bytes that hold an envelope hold it whatever follows: what stands behind the state
/// is not looked at.
pub proof fn whatFollowsIsNotLookedAt(contents: Contents, behind: Seq<u8>)
    requires
        packed(contents).len() <= usize::MAX,
    ensures
        held(packed(contents) + behind) == Some(contents),
        held(Seq::empty()) is None,
{
    reveal(numberAt);
    varintReads(contents.relativeOffset as u64);
    varintReads(contents.argsOutputTag);
    varintReads(contents.siteTag);
    varintReads(contents.bytes.len() as u64);
    let a = varint(contents.relativeOffset as nat);
    let b = varint(contents.argsOutputTag as nat);
    let c = varint(contents.siteTag as nat);
    let d = varint(contents.bytes.len());
    let header = Header {
        relativeOffset: contents.relativeOffset as u64,
        argsOutputTag: contents.argsOutputTag,
        siteTag: contents.siteTag,
        length: contents.bytes.len() as u64,
        end: (a + b + c + d).len() as int,
    };
    headerReadsBack(header, a, b, c, d, contents.bytes + behind);
    let whole = packed(contents) + behind;
    assert(whole =~= a + b + c + d + (contents.bytes + behind));
    assert(whole.subrange(header.end, header.end + header.length) =~= contents.bytes);
}

/// What is wrong with bytes is what `bincode` says about them; only where they name
/// more than this machine can address, which with addresses of 64 bits they never do,
/// is that said in its place.
pub proof fn defectsAreThoseThatAreReported(bytes: Seq<u8>)
    ensures
        usize::MAX == u64::MAX ==> addressable(bytes) && defectOf(bytes) == complaint(bytes),
        numberAt(bytes, 0) is None ==> defectOf(bytes) == complaint(bytes),
        (numberAt(bytes, 0) matches Some((offset, _)) && offset > usize::MAX) ==> defectOf(bytes)
            == "a number exceeds the address space"@,
        (headerOf(bytes) matches Some(header) && header.length > usize::MAX) ==> defectOf(bytes)
            == "a number exceeds the address space"@,
        (headerOf(bytes) matches Some(header) && header.relativeOffset <= usize::MAX
            && header.length <= usize::MAX) ==> defectOf(bytes) == complaint(bytes),
{
}

} // verus!
