//! What the readings of the operating system mean.
use crate::text::{
    numbersAreRowsOfDigits, parseUnsigned, signedDecimal, signedDecimalText, trimmed, unsignedNumber,
    worth,
};
use vstd::prelude::*;
use vstd::string::*;
use vstd::utf8::*;

verus! {

/// The caps that the operating system puts on processes and threads.
///
/// `None` means that a cap could not be read, and that nothing follows from it.
#[derive(Debug, Clone, Copy, PartialEq, Eq)]
pub struct OsProcessLimits {
    /// Per-user soft limit (`RLIMIT_NPROC`).
    pub userSoft: Option<u64>,
    /// Per-user hard limit (`RLIMIT_NPROC`).
    pub userHard: Option<u64>,
    /// System-wide cap on threads (`kernel.threads-max`).
    pub systemHard: Option<u64>,
}

impl Default for OsProcessLimits {
    fn default() -> (limits: Self)
        ensures
            limits == (OsProcessLimits { userSoft: None, userHard: None, systemHard: None }),
    {
        OsProcessLimits { userSoft: None, userHard: None, systemHard: None }
    }
}

/// A limit as `getrlimit` reports it; the largest number stands for "no limit".
pub open spec fn reportedCap(limit: u64) -> Option<u64> {
    if limit == u64::MAX {
        None
    } else {
        Some(limit)
    }
}

/// The number in the content of a kernel settings file, where it is one.
pub open spec fn threadCap(content: Option<&[u8]>) -> Option<u64> {
    match content {
        Some(bytes) => if valid_utf8(bytes@) {
            unsignedNumber(trimmed(decode_utf8(bytes@)))
        } else {
            None
        },
        None => None,
    }
}

/// The caps that follow from what `getrlimit(RLIMIT_NPROC)` filled in, soft
/// limit first, and from the content of `/proc/sys/kernel/threads-max`.
pub open spec fn processLimits(rlimit: Option<(u64, u64)>, threadsMax: Option<&[u8]>) -> OsProcessLimits {
    OsProcessLimits {
        userSoft: match rlimit {
            Some(pair) => reportedCap(pair.0),
            None => None,
        },
        userHard: match rlimit {
            Some(pair) => reportedCap(pair.1),
            None => None,
        },
        systemHard: threadCap(threadsMax),
    }
}

/// `std::str::from_utf8`: a slice is text exactly where it is valid UTF-8, and
/// the text is what the bytes decode to.
#[verifier::external_body]
fn utf8Text(bytes: &[u8]) -> (text: Option<&str>)
    ensures
        text is Some <==> valid_utf8(bytes@),
        text matches Some(decoded) ==> decoded@ == decode_utf8(bytes@),
{
    std::str::from_utf8(bytes).ok()
}

/// The system-wide cap on threads, out of the content of
/// `/proc/sys/kernel/threads-max`; `None` where the file could not be read or
/// does not hold a number.
pub fn readSystemThreadCap(content: Option<&[u8]>) -> (cap: Option<u64>)
    ensures
        cap == threadCap(content),
{
    match content {
        None => None,
        Some(bytes) => match utf8Text(bytes) {
            None => None,
            Some(text) => parseUnsigned(text),
        },
    }
}

/// The caps on processes and threads, out of the readings of the operating
/// system: the two limits of `getrlimit(RLIMIT_NPROC)`, where the call
/// succeeded, and the content of `/proc/sys/kernel/threads-max`.
pub fn detectProcessLimits(rlimit: Option<(u64, u64)>, threadsMax: Option<&[u8]>) -> (limits:
    OsProcessLimits)
    ensures
        limits == processLimits(rlimit, threadsMax),
{
    let mut limits: OsProcessLimits = OsProcessLimits::default();
    if let Some(pair) = rlimit {
        if pair.0 != u64::MAX {
            limits.userSoft = Some(pair.0);
        }
        if pair.1 != u64::MAX {
            limits.userHard = Some(pair.1);
        }
    }
    limits.systemHard = readSystemThreadCap(threadsMax);
    limits
}

/// Unix has no second error channel besides `errno`.
pub fn readOsError() -> (error: Option<u32>)
    ensures
        error is None,
{
    None
}

/// What an aligned allocation comes to, given the code that `posix_memalign`
/// returned and the address that it stored.
pub fn allocateAligned(code: i32, address: usize) -> (result: Result<usize, String>)
    ensures
        match result {
            Ok(pointer) => code == 0 && pointer == address,
            Err(message) => code != 0 && message@ == "posix_memalign failed with code "@
                + signedDecimal(code as int),
        },
{
    if code != 0 {
        let mut message: String = "posix_memalign failed with code ".to_owned();
        message.append(signedDecimalText(code as i64).as_str());
        return Err(message);
    }
    Ok(address)
}

/// A number in decimal with a line break behind it, the form of the kernel's
/// settings files, is read as that number.
pub proof fn threadCapReadsBack(number: u64, content: &[u8])
    requires
        content@ == encode_utf8(crate::text::decimal(number as nat).push('\n')),
    ensures
        threadCap(Some(content)) == Some(number),
{
    let line = crate::text::decimal(number as nat).push('\n');
    encode_utf8_valid_utf8(line);
    encode_utf8_decode_utf8(line);
    crate::text::decimalLineReadsBack(number);
}

/// The caps per user are those that were reported, each in its place; the largest
/// number, and a reading that failed, are no cap. The cap of the system is read from
/// the settings file alone.
pub proof fn reportedCapsAreKept(soft: u64, hard: u64, threadsMax: Option<&[u8]>)
    ensures
        processLimits(Some((soft, hard)), threadsMax).userSoft == (if soft < u64::MAX {
            Some(soft)
        } else {
            None
        }),
        processLimits(Some((soft, hard)), threadsMax).userHard == (if hard < u64::MAX {
            Some(hard)
        } else {
            None
        }),
        processLimits(None, threadsMax).userSoft is None,
        processLimits(None, threadsMax).userHard is None,
        processLimits(Some((soft, hard)), threadsMax).systemHard == processLimits(
            None,
            threadsMax,
        ).systemHard,
        processLimits(None, threadsMax).systemHard == threadCap(threadsMax),
{
}

/// The settings file is read as the number that it holds, and as nothing where it
/// could not be read, is no text, or holds anything but a number that fits: a row of
/// digits, with or without a plus sign before it, and whitespace around that.
pub proof fn threadCapIsTheNumberInTheFile(content: &[u8], digits: Seq<char>)
    requires
        valid_utf8(content@) ==> trimmed(decode_utf8(content@)) == digits || trimmed(
            decode_utf8(content@),
        ) == seq!['+'] + digits,
        digits.len() > 0 ==> digits.first() != '+',
    ensures
        threadCap(None) is None,
        !valid_utf8(content@) ==> threadCap(Some(content)) is None,
        valid_utf8(content@) ==> (threadCap(Some(content)) is Some) == (digits.len() > 0 && (forall|
            i: int,
        |
            0 <= i < digits.len() ==> '0' <= #[trigger] digits[i] <= '9') && worth(digits, 10)
            <= u64::MAX),
        threadCap(Some(content)) matches Some(number) ==> worth(digits, 10) == number,
{
    if valid_utf8(content@) {
        numbersAreRowsOfDigits(trimmed(decode_utf8(content@)), digits);
    }
}

} // verus!
