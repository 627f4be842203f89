//! The global default that says whether requests and responses are traced.
//!
//! Priority, most specific first:
//!
//! 1. the override of a single call, `CallBuilder::trace` or `CallBuilder::noTrace`
//! 2. the override of the scope
//! 3. the global default, [`setGlobalTrace`]
//! 4. the environment variable [`TraceEnvVar`], read once, on first use
//!
//! The variable is read without regard to ASCII case: `1`, `true`, `yes` and
//! `on` enable the trace; anything else, and its absence, leave it off.
//!
//! The process that holds the default reads its environment and hands what it
//! found to the functions here.
use crate::text::{lower, lowerChars, spells};
use vstd::prelude::*;
use vstd::string::*;

verus! {

/// Name of the environment variable that seeds the global default.
pub const TraceEnvVar: &'static str = "ChillffiTrace";

/// The global default and whether it was seeded from the environment yet.
#[derive(Debug, Clone, Copy, PartialEq, Eq, Structural)]
pub struct TracePolicy {
    /// The global default.
    pub globalTrace: bool,
    /// Whether the environment was consulted.
    pub envSeeded: bool,
}

/// Whether `value`, the content of [`TraceEnvVar`], enables the trace.
pub open spec fn enablesTrace(value: Seq<char>) -> bool {
    let folded = lower(value);
    folded == "1"@ || folded == "true"@ || folded == "yes"@ || folded == "on"@
}

/// [`enablesTrace`] for a variable that may be absent.
pub open spec fn envEnables(value: Option<&str>) -> bool {
    match value {
        Some(text) => enablesTrace(text@),
        None => false,
    }
}

impl TracePolicy {
    /// The policy once the environment was consulted: as it was if that had
    /// already happened, and what the environment says otherwise.
    pub open spec fn seeded(self, environment: Option<&str>) -> TracePolicy {
        if self.envSeeded {
            self
        } else {
            TracePolicy { globalTrace: envEnables(environment), envSeeded: true }
        }
    }

    /// The policy after the default was set to `enabled`.
    pub open spec fn withDefault(self, enabled: bool) -> TracePolicy {
        TracePolicy { globalTrace: enabled, envSeeded: true }
    }

    /// A policy that has not looked at the environment yet.
    pub fn new() -> (policy: Self)
        ensures
            policy == (TracePolicy { globalTrace: false, envSeeded: false }),
    {
        TracePolicy { globalTrace: false, envSeeded: false }
    }
}

/// Whether the content of [`TraceEnvVar`] enables the trace.
pub fn parseTraceEnv(value: Option<&str>) -> (enabled: bool)
    ensures
        enabled == envEnables(value),
{
    match value {
        None => false,
        Some(text) => {
            let folded: Vec<char> = lowerChars(text);
            spells(&folded, "1") || spells(&folded, "true") || spells(&folded, "yes") || spells(
                &folded,
                "on",
            )
        },
    }
}

/// Seeds the default from the environment, the first time only.
fn seedFromEnvOnce(policy: &mut TracePolicy, environment: Option<&str>)
    ensures
        *final(policy) == old(policy).seeded(environment),
{
    if policy.envSeeded {
        return ;
    }
    policy.envSeeded = true;
    policy.globalTrace = parseTraceEnv(environment);
}

/// Sets the global default. It decides for every call that neither its builder
/// nor its scope decides for, and the environment no longer has a say.
pub fn setGlobalTrace(policy: &mut TracePolicy, environment: Option<&str>, enabled: bool)
    ensures
        *final(policy) == old(policy).withDefault(enabled),
{
    seedFromEnvOnce(policy, environment);
    policy.globalTrace = enabled;
}

/// The global default: what [`setGlobalTrace`] last set, or what the
/// environment said on first use.
pub fn globalTrace(policy: &mut TracePolicy, environment: Option<&str>) -> (enabled: bool)
    ensures
        *final(policy) == old(policy).seeded(environment),
        enabled == old(policy).seeded(environment).globalTrace,
{
    seedFromEnvOnce(policy, environment);
    policy.globalTrace
}

/// What the environment says right now, whatever the global default is. A clone
/// goes by this alone, because it inherits the environment and nothing else.
pub fn envTrace(environment: Option<&str>) -> (enabled: bool)
    ensures
        enabled == envEnables(environment),
{
    parseTraceEnv(environment)
}

/// What was set is what is read, whatever the environment holds at either time.
pub proof fn defaultReadsBack(policy: TracePolicy, enabled: bool, later: Option<&str>)
    ensures
        policy.withDefault(enabled).seeded(later).globalTrace == enabled,
{
}

/// The environment is consulted once: what it holds later changes nothing.
pub proof fn environmentSeedsOnce(policy: TracePolicy, first: Option<&str>, later: Option<&str>)
    ensures
        policy.seeded(first).seeded(later) == policy.seeded(first),
{
}

/// ASCII case does not matter: two spellings that differ in nothing else enable
/// the trace both or neither.
pub proof fn caseDoesNotMatter(one: Seq<char>, other: Seq<char>)
    requires
        lower(one) == lower(other),
    ensures
        enablesTrace(one) == enablesTrace(other),
{
}

/// Whether `text` is `word`, letters in either case.
pub open spec fn sameUpToCase(text: Seq<char>, word: Seq<char>) -> bool {
    &&& text.len() == word.len()
    &&& forall|i: int|
        0 <= i < word.len() ==> #[trigger] text[i] == word[i] || ('A' <= text[i] <= 'Z' && text[i] as int
            + 32 == word[i] as int)
}

/// The trace is enabled by four words, in whatever case their letters are, and by
/// nothing else; an absent variable does not enable it.
pub proof fn fourWordsEnableTheTrace(text: &str)
    ensures
        envEnables(Some(text)) == (sameUpToCase(text@, "1"@) || sameUpToCase(text@, "true"@)
            || sameUpToCase(text@, "yes"@) || sameUpToCase(text@, "on"@)),
        !envEnables(None),
{
    reveal_strlit("1");
    reveal_strlit("true");
    reveal_strlit("yes");
    reveal_strlit("on");
    foldsTo(text@, "1"@);
    foldsTo(text@, "true"@);
    foldsTo(text@, "yes"@);
    foldsTo(text@, "on"@);
}

/// A text folds to a word without capitals exactly where it is that word up to case.
proof fn foldsTo(text: Seq<char>, word: Seq<char>)
    requires
        forall|i: int| 0 <= i < word.len() ==> !('A' <= #[trigger] word[i] <= 'Z'),
    ensures
        (lower(text) == word) == sameUpToCase(text, word),
{
    if lower(text) == word {
        assert forall|i: int| 0 <= i < word.len() implies #[trigger] text[i] == word[i] || ('A'
            <= text[i] <= 'Z' && text[i] as int + 32 == word[i] as int) by {
            assert(lower(text)[i] == word[i]);
        }
    }
    if sameUpToCase(text, word) {
        assert forall|i: int| 0 <= i < word.len() implies #[trigger] lower(text)[i]
            == word[i] by {
            assert(text[i] == word[i] || text[i] as int + 32 == word[i] as int);
        }
        assert(lower(text) =~= word);
    }
}

/// The environment decides on first use, and from then on it does not: before it was
/// consulted the default is what it says, and afterwards what it was.
pub proof fn environmentDecidesOnFirstUse(policy: TracePolicy, environment: Option<&str>)
    ensures
        policy.seeded(environment).envSeeded,
        !policy.envSeeded ==> policy.seeded(environment).globalTrace == envEnables(environment),
        policy.envSeeded ==> policy.seeded(environment) == policy,
        policy.withDefault(true).globalTrace && policy.withDefault(true).envSeeded,
        !policy.withDefault(false).globalTrace && policy.withDefault(false).envSeeded,
{
}

/// What was set last is what is read, and the environment is read as the four words
/// have it, whatever the default is.
pub proof fn lastSettingIsRead(
    set: &mut TracePolicy,
    enabled: bool,
    environment: Option<&str>,
    read: &mut TracePolicy,
    later: Option<&str>,
    result: bool,
    direct: bool,
)
    requires
        call_ensures(setGlobalTrace, (set, environment, enabled), ()),
        *old(read) == *final(set),
        call_ensures(globalTrace, (read, later), result),
        call_ensures(envTrace, (environment,), direct),
    ensures
        result == enabled,
        *final(read) == *final(set),
        direct == envEnables(environment),
{
}

} // verus!
