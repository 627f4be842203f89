//! Pool sizes, and the ceiling on simultaneously live clones.
//!
//! Every isolated block runs in a clone of the Main Zygote. Without a common
//! ceiling, a parallel workload could ask for more clones than the operating
//! system grants, and starve the shell and the daemons of the same user on the
//! way. This module holds that one ceiling. Reaching it makes the next caller
//! wait; it is never an error.
//!
//! There are three numbers:
//!
//! - `zygotePool`: Main Zygotes kept ready to clone. Values above one are
//!   accepted and recorded, and not acted on yet.
//! - `hotPool`: clones kept warm between blocks. Values above zero are accepted
//!   and recorded, and not acted on yet.
//! - `concurrencyLimit`: the ceiling.
//!
//! Unless [`configure`] says otherwise, the ceiling is the smallest of
//! [`RecommendedHardCap`] and the caps that could be read, less
//! [`defaultBuffer`], and at least one. Where no cap could be read at all it is
//! [`RecommendedHardCap`].
//!
//! The state is a plain value, [`LimitsState`]. Its owner shares it between
//! threads, and blocks a caller for as long as [`acquirePermit`] refuses.
use crate::errors::{ErrorKind, IoError};
use crate::platform::low;
use crate::text::{decimal, decimalText, denotes, writtenNumbersDenoteThemselves};
use vstd::prelude::*;
use vstd::string::*;

verus! {

/// Ceiling on simultaneously live clones that the default never exceeds.
pub const RecommendedHardCap: u64 = 32;

/// Room left below the caps for everything else that the user runs.
pub fn defaultBuffer() -> (buffer: u64)
    ensures
        buffer == 16,
{
    16
}

/// The caps of the operating system.
pub type OsProcessLimits = low::OsProcessLimits;

/// The sizes of the pools.
#[derive(Debug, Clone, Copy, PartialEq, Eq, Structural)]
pub struct Limits {
    /// Number of Main Zygotes kept ready to clone.
    pub zygotePool: u64,
    /// Number of clones kept warm between blocks.
    pub hotPool: u64,
    /// Ceiling on simultaneously live clones.
    pub concurrencyLimit: u64,
}

impl Limits {
    /// Whether the sizes are consistent: at least one Main Zygote, at least one
    /// slot, and neither pool above the ceiling.
    pub open spec fn valid(self) -> bool {
        &&& self.zygotePool >= 1
        &&& self.concurrencyLimit >= 1
        &&& self.hotPool <= self.concurrencyLimit
        &&& self.zygotePool <= self.concurrencyLimit
    }

    /// A cautious starting point.
    pub fn conservative() -> (limits: Self)
        ensures
            limits == (Limits { zygotePool: 1, hotPool: 0, concurrencyLimit: 16 }),
            limits.valid(),
    {
        Limits { zygotePool: 1, hotPool: 0, concurrencyLimit: 16 }
    }
}

/// The caps of the operating system, out of its readings; see
/// [`low::detectProcessLimits`].
pub fn detected(rlimit: Option<(u64, u64)>, threadsMax: Option<&[u8]>) -> (limits: OsProcessLimits)
    ensures
        limits == low::processLimits(rlimit, threadsMax),
{
    low::detectProcessLimits(rlimit, threadsMax)
}

// ------------------------------------------------------------------------------------------------
// The default
// ------------------------------------------------------------------------------------------------

/// The smaller of `number` and a cap, where there is one.
pub open spec fn atMost(number: int, cap: Option<u64>) -> int {
    match cap {
        Some(limit) => if limit < number {
            limit as int
        } else {
            number
        },
        None => number,
    }
}

/// Whether any cap that the default goes by could be read.
pub open spec fn anyCapKnown(os: OsProcessLimits) -> bool {
    os.userSoft is Some || os.systemHard is Some
}

/// The ceiling by default.
pub open spec fn defaultCeiling(os: OsProcessLimits) -> int {
    let cap = atMost(atMost(RecommendedHardCap as int, os.userSoft), os.systemHard);
    let buffer: int = if anyCapKnown(os) {
        16
    } else {
        0
    };
    if cap - buffer < 1 {
        1
    } else {
        cap - buffer
    }
}

/// The limits by default.
pub open spec fn autoDefault(os: OsProcessLimits) -> Limits {
    Limits { zygotePool: 1, hotPool: 0, concurrencyLimit: defaultCeiling(os) as u64 }
}

/// Computes the limits that hold unless [`configure`] is called.
pub fn computeAutoDefault(os: OsProcessLimits) -> (limits: Limits)
    ensures
        limits == autoDefault(os),
        limits.concurrencyLimit == defaultCeiling(os),
        limits.valid(),
{
    let mut limit: u64 = RecommendedHardCap;
    if let Some(soft) = os.userSoft {
        if soft < limit {
            limit = soft;
        }
    }
    if let Some(hard) = os.systemHard {
        if hard < limit {
            limit = hard;
        }
    }
    if os.userSoft.is_some() || os.systemHard.is_some() {
        limit = limit.saturating_sub(defaultBuffer());
    }
    if limit == 0 {
        limit = 1;
    }
    Limits { zygotePool: 1, hotPool: 0, concurrencyLimit: limit }
}

/// The default never lets nobody in, never exceeds the recommended cap, and is
/// a configuration that [`configure`] would accept.
pub proof fn defaultIsBounded(os: OsProcessLimits)
    ensures
        1 <= autoDefault(os).concurrencyLimit <= RecommendedHardCap,
        autoDefault(os).valid(),
{
}

/// The default leaves the buffer below every cap that it goes by and that is
/// above the buffer.
pub proof fn defaultLeavesRoom(os: OsProcessLimits)
    ensures
        os.userSoft matches Some(cap) ==> cap > 16 ==> autoDefault(os).concurrencyLimit + 16 <= cap,
        os.systemHard matches Some(cap) ==> cap > 16 ==> autoDefault(os).concurrencyLimit + 16
            <= cap,
{
}

// ------------------------------------------------------------------------------------------------
// The semaphore
// ------------------------------------------------------------------------------------------------

/// A counting semaphore, without the waiting: who finds no permit has to come
/// back when one was released.
#[derive(Debug, PartialEq, Eq)]
pub struct CountingSemaphore {
    capacity: u64,
    permits: u64,
}

impl CountingSemaphore {
    /// Number of permits that exist.
    pub closed spec fn capacity(&self) -> nat {
        self.capacity as nat
    }

    /// Number of permits that are free.
    pub closed spec fn free(&self) -> nat {
        self.permits as nat
    }

    /// Number of permits that somebody holds.
    pub open spec fn held(&self) -> int {
        self.capacity() - self.free()
    }

    /// No more permits are free than exist.
    pub closed spec fn wf(&self) -> bool {
        self.permits <= self.capacity
    }

    /// What [`Self::wf`] says, for those who cannot see inside.
    pub proof fn wfBounds(&self)
        requires
            self.wf(),
        ensures
            self.free() <= self.capacity() <= u64::MAX,
            0 <= self.held() <= self.capacity(),
    {
    }

    /// A semaphore with `capacity` permits, all of them free.
    pub fn new(capacity: u64) -> (semaphore: Self)
        ensures
            semaphore.wf(),
            semaphore.capacity() == capacity,
            semaphore.free() == capacity,
    {
        CountingSemaphore { capacity, permits: capacity }
    }

    /// Takes a permit, where one is free.
    pub fn try_acquire(&mut self) -> (acquired: bool)
        requires
            old(self).wf(),
        ensures
            final(self).wf(),
            final(self).capacity() == old(self).capacity(),
            acquired == (old(self).free() > 0),
            final(self).free() == old(self).free() - (if acquired { 1int } else { 0int }),
    {
        if self.permits == 0 {
            return false;
        }
        self.permits = self.permits - 1;
        true
    }

    /// Gives a permit back.
    pub fn release(&mut self)
        requires
            old(self).wf(),
            old(self).held() > 0,
        ensures
            final(self).wf(),
            final(self).capacity() == old(self).capacity(),
            final(self).free() == old(self).free() + 1,
    {
        self.permits = self.permits + 1;
    }

    /// Number of permits that are free.
    pub fn available(&self) -> (free: u64)
        ensures
            free == self.free(),
    {
        self.permits
    }
}

// ------------------------------------------------------------------------------------------------
// The active limits
// ------------------------------------------------------------------------------------------------

/// The limits in force, and the semaphore that enforces the ceiling.
#[derive(Debug, PartialEq, Eq)]
pub struct ActiveLimit {
    pub limits: Limits,
    pub semaphore: CountingSemaphore,
}

impl ActiveLimit {
    /// The limits are valid, and there are as many permits as the ceiling says.
    pub open spec fn wf(&self) -> bool {
        &&& self.limits.valid()
        &&& self.semaphore.wf()
        &&& self.semaphore.capacity() == self.limits.concurrencyLimit
    }

    /// `limits` in force, every permit free.
    pub open spec fn freshWith(&self, limits: Limits) -> bool {
        &&& self.limits == limits
        &&& self.semaphore.wf()
        &&& self.semaphore.capacity() == limits.concurrencyLimit
        &&& self.semaphore.free() == limits.concurrencyLimit
    }

    fn new(limits: Limits) -> (active: Self)
        ensures
            active.freshWith(limits),
    {
        ActiveLimit { limits, semaphore: CountingSemaphore::new(limits.concurrencyLimit) }
    }
}

/// The limits of a process: those in force, once they are installed, and the
/// default, once it was computed.
#[derive(Debug, PartialEq, Eq)]
pub struct LimitsState {
    pub active: Option<ActiveLimit>,
    pub defaults: Option<Limits>,
}

impl LimitsState {
    pub open spec fn wf(&self) -> bool {
        &&& self.active matches Some(active) ==> active.wf()
        &&& self.defaults matches Some(limits) ==> limits.valid()
    }

    /// The default: as it was first computed, or as `os` has it.
    pub open spec fn defaultFrom(&self, os: OsProcessLimits) -> Limits {
        match self.defaults {
            Some(limits) => limits,
            None => autoDefault(os),
        }
    }

    /// The limits that hold: those installed, or else the default.
    pub open spec fn effective(&self, os: OsProcessLimits) -> Limits {
        match self.active {
            Some(active) => active.limits,
            None => self.defaultFrom(os),
        }
    }

    /// The number of free slots, once limits are installed.
    pub open spec fn freeSlots(&self, os: OsProcessLimits) -> nat {
        match self.active {
            Some(active) => active.semaphore.free(),
            None => self.defaultFrom(os).concurrencyLimit as nat,
        }
    }

    /// `after` is this state with limits installed: unchanged if they already
    /// were, and otherwise with the default in force and every slot free.
    pub open spec fn installs(&self, os: OsProcessLimits, after: LimitsState) -> bool {
        match self.active {
            Some(_) => after == *self,
            None => {
                &&& after.active matches Some(active)
                &&& active.freshWith(self.defaultFrom(os))
                &&& after.defaults == Some(self.defaultFrom(os))
            },
        }
    }

    /// `after` is this state after its limits were read: nothing was installed,
    /// and where nothing is, the default that was read is remembered.
    pub open spec fn remembers(&self, os: OsProcessLimits, after: LimitsState) -> bool {
        &&& after.active == self.active
        &&& after.defaults == (if self.active is Some {
            self.defaults
        } else {
            Some(self.effective(os))
        })
    }

    /// The number of slots that somebody holds.
    pub open spec fn heldSlots(&self) -> int {
        match self.active {
            Some(active) => active.semaphore.held(),
            None => 0,
        }
    }

    /// `after` has limits in force, and they are those that held before.
    pub open spec fn keepsLimits(&self, os: OsProcessLimits, after: LimitsState) -> bool {
        &&& after.active matches Some(active)
        &&& active.limits == self.effective(os)
        &&& after.defaults == (if self.active is Some {
            self.defaults
        } else {
            Some(self.defaultFrom(os))
        })
    }

    /// Nothing installed, nothing computed.
    pub fn new() -> (state: Self)
        ensures
            state.wf(),
            state.active is None,
            state.defaults is None,
    {
        LimitsState { active: None, defaults: None }
    }
}

/// The limits that hold. Where none are installed this is the default, computed
/// from `os` the first time and remembered.
pub fn current(state: &mut LimitsState, os: OsProcessLimits) -> (limits: Limits)
    requires
        old(state).wf(),
    ensures
        final(state).wf(),
        limits == old(state).effective(os),
        limits.valid(),
        old(state).remembers(os, *final(state)),
{
    if let Some(active) = &state.active {
        return active.limits;
    }
    match state.defaults {
        Some(limits) => limits,
        None => {
            let limits: Limits = computeAutoDefault(os);
            state.defaults = Some(limits);
            limits
        },
    }
}

/// Why limits are refused, if they are: the first rule that they break.
pub open spec fn refusal(limits: Limits) -> Option<Seq<char>> {
    if limits.zygotePool == 0 {
        Some("limits.zygotePool must be >= 1 (zero Main Zygotes would deadlock)"@)
    } else if limits.concurrencyLimit == 0 {
        Some(
            "limits.concurrencyLimit must be >= 1 (zero would deadlock the first ffi!{} block)"@,
        )
    } else if limits.hotPool > limits.concurrencyLimit {
        Some(
            "limits.hotPool ("@ + decimal(limits.hotPool as nat) + ") must be <= concurrencyLimit ("@
                + decimal(limits.concurrencyLimit as nat) + ") — hot workers are clones"@,
        )
    } else if limits.zygotePool > limits.concurrencyLimit {
        Some(
            "limits.zygotePool ("@ + decimal(limits.zygotePool as nat)
                + ") must be <= concurrencyLimit ("@ + decimal(limits.concurrencyLimit as nat)
                + ") — Main Zygotes count against the ceiling while they clone"@,
        )
    } else {
        None
    }
}

/// What is said to a second configuration.
pub const AlreadyInstalled: &'static str = "chillffi::limits::configure called after the limits were already installed (either by an earlier configure() or by the first ffi!{} block); the active limits cannot be changed at runtime";

/// What configuring does to a state, and what it returns: limits that break a
/// rule are refused with the first one that they break, limits that come too
/// late are refused, and others are put in force with every slot free. Whatever
/// is refused leaves the state as it was.
pub open spec fn configures(
    before: LimitsState,
    limits: Limits,
    after: LimitsState,
    result: Result<(), IoError>,
) -> bool {
    match refusal(limits) {
        Some(message) => {
            &&& after == before
            &&& result matches Err(error) && error.says(ErrorKind::Other, message)
        },
        None => if before.active is Some {
            &&& after == before
            &&& result matches Err(error) && error.says(ErrorKind::Other, AlreadyInstalled@)
        } else {
            &&& result is Ok
            &&& after.active matches Some(active) && active.freshWith(limits)
            &&& after.defaults == before.defaults
        },
    }
}

fn exceedsMessage(subject: &str, size: u64, limit: u64, reason: &str) -> (message: String)
    ensures
        message@ == subject@ + decimal(size as nat) + ") must be <= concurrencyLimit ("@ + decimal(
            limit as nat,
        ) + reason@,
{
    let mut message: String = subject.to_owned();
    message.append(decimalText(size).as_str());
    message.append(") must be <= concurrencyLimit (");
    message.append(decimalText(limit).as_str());
    message.append(reason);
    message
}

/// Checks `limits` and puts them in force. That works once, and only before the
/// first clone was asked for; a call after that changes nothing and is an error.
pub fn configure(state: &mut LimitsState, limits: Limits) -> (result: Result<(), IoError>)
    requires
        old(state).wf(),
    ensures
        final(state).wf(),
        configures(*old(state), limits, *final(state), result),
{
    if limits.zygotePool == 0 {
        return Err(
            IoError::other("limits.zygotePool must be >= 1 (zero Main Zygotes would deadlock)"),
        );
    }
    if limits.concurrencyLimit == 0 {
        return Err(
            IoError::other(
                "limits.concurrencyLimit must be >= 1 (zero would deadlock the first ffi!{} block)",
            ),
        );
    }
    if limits.hotPool > limits.concurrencyLimit {
        return Err(
            IoError::other(
                exceedsMessage(
                    "limits.hotPool (",
                    limits.hotPool,
                    limits.concurrencyLimit,
                    ") — hot workers are clones",
                ).as_str(),
            ),
        );
    }
    if limits.zygotePool > limits.concurrencyLimit {
        return Err(
            IoError::other(
                exceedsMessage(
                    "limits.zygotePool (",
                    limits.zygotePool,
                    limits.concurrencyLimit,
                    ") — Main Zygotes count against the ceiling while they clone",
                ).as_str(),
            ),
        );
    }
    if state.active.is_some() {
        return Err(IoError::other(AlreadyInstalled));
    }
    state.active = Some(ActiveLimit::new(limits));
    Ok(())
}

/// Makes sure that limits are in force: those already installed, or the default.
pub fn installed(state: &mut LimitsState, os: OsProcessLimits)
    requires
        old(state).wf(),
    ensures
        final(state).wf(),
        final(state).active is Some,
        old(state).installs(os, *final(state)),
{
    if state.active.is_none() {
        let limits: Limits = current(state, os);
        state.active = Some(ActiveLimit::new(limits));
    }
}

/// Takes a slot for a clone, where one is free; installs the limits on the way.
///
/// `false` means that the ceiling is reached and that the caller has to wait
/// for a slot. It is no error, and nothing else makes it `false`.
pub fn acquirePermit(state: &mut LimitsState, os: OsProcessLimits) -> (acquired: bool)
    requires
        old(state).wf(),
    ensures
        final(state).wf(),
        old(state).keepsLimits(os, *final(state)),
        acquired == (old(state).freeSlots(os) > 0),
        final(state).freeSlots(os) == old(state).freeSlots(os) - (if acquired {
            1int
        } else {
            0int
        }),
{
    installed(state, os);
    match &mut state.active {
        Some(active) => active.semaphore.try_acquire(),
        None => false,
    }
}

/// Gives the slot of a clone back.
pub fn releasePermit(state: &mut LimitsState)
    requires
        old(state).wf(),
        old(state).heldSlots() > 0,
    ensures
        final(state).wf(),
        final(state).heldSlots() == old(state).heldSlots() - 1,
        final(state).active matches Some(active) && active.limits == old(state).active->0.limits,
        final(state).defaults == old(state).defaults,
{
    match &mut state.active {
        Some(active) => active.semaphore.release(),
        None => {},
    }
}

/// Number of slots that are free. Reading it installs nothing.
pub fn availableSlots(state: &mut LimitsState, os: OsProcessLimits) -> (slots: u64)
    requires
        old(state).wf(),
    ensures
        final(state).wf(),
        old(state).remembers(os, *final(state)),
        slots == old(state).freeSlots(os),
{
    if let Some(active) = &state.active {
        return active.semaphore.available();
    }
    current(state, os).concurrencyLimit
}

/// The ceiling that holds. Reading it installs nothing.
pub fn activeLimit(state: &mut LimitsState, os: OsProcessLimits) -> (limit: u64)
    requires
        old(state).wf(),
    ensures
        final(state).wf(),
        old(state).remembers(os, *final(state)),
        limit == old(state).effective(os).concurrencyLimit,
{
    current(state, os).concurrencyLimit
}

/// The ceiling that holds, for those outside this module. Reading it installs
/// nothing.
pub fn activeLimitPublic(state: &mut LimitsState, os: OsProcessLimits) -> (limit: u64)
    requires
        old(state).wf(),
    ensures
        final(state).wf(),
        old(state).remembers(os, *final(state)),
        limit == old(state).effective(os).concurrencyLimit,
{
    current(state, os).concurrencyLimit
}

/// The number of Main Zygotes that holds. Reading it installs nothing.
pub fn activeZygotePool(state: &mut LimitsState, os: OsProcessLimits) -> (size: u64)
    requires
        old(state).wf(),
    ensures
        final(state).wf(),
        old(state).remembers(os, *final(state)),
        size == old(state).effective(os).zygotePool,
{
    current(state, os).zygotePool
}

/// The number of warm clones that holds. Reading it installs nothing.
pub fn activeHotPool(state: &mut LimitsState, os: OsProcessLimits) -> (size: u64)
    requires
        old(state).wf(),
    ensures
        final(state).wf(),
        old(state).remembers(os, *final(state)),
        size == old(state).effective(os).hotPool,
{
    current(state, os).hotPool
}

// ------------------------------------------------------------------------------------------------
// What holds of the limits
// ------------------------------------------------------------------------------------------------

/// Exactly the valid limits break no rule.
pub proof fn refusedExactlyIfInvalid(limits: Limits)
    ensures
        refusal(limits) is None <==> limits.valid(),
{
}

/// What was configured is what is in force, whatever the operating system says.
pub proof fn configuredReadsBack(
    before: LimitsState,
    limits: Limits,
    after: LimitsState,
    result: Result<(), IoError>,
    os: OsProcessLimits,
)
    requires
        configures(before, limits, after, result),
        result is Ok,
    ensures
        after.effective(os) == limits,
        after.freeSlots(os) == limits.concurrencyLimit,
        after.heldSlots() == 0,
{
}

/// Limits are installed once. After a configuration that was accepted, and
/// after the default went into force, every configuration is refused and
/// changes nothing.
pub proof fn installedLimitsStay(
    before: LimitsState,
    limits: Limits,
    after: LimitsState,
    result: Result<(), IoError>,
)
    requires
        configures(before, limits, after, result),
        before.active is Some,
    ensures
        result is Err,
        after == before,
{
}

/// Reading does not install: what was open to configuration stays open, and the
/// limits and slots are those that were there.
pub proof fn readingLeavesConfigurationOpen(
    before: LimitsState,
    os: OsProcessLimits,
    after: LimitsState,
    limits: Limits,
    configured: LimitsState,
    result: Result<(), IoError>,
)
    requires
        before.remembers(os, after),
        configures(after, limits, configured, result),
    ensures
        after.effective(os) == before.effective(os),
        after.freeSlots(os) == before.freeSlots(os),
        after.heldSlots() == before.heldSlots(),
        before.active is None && limits.valid() ==> result is Ok && configured.effective(os)
            == limits,
{
}

/// In every state, no more slots are held than the ceiling has.
pub proof fn ceilingHolds(state: LimitsState, os: OsProcessLimits)
    requires
        state.wf(),
    ensures
        0 <= state.heldSlots() <= state.effective(os).concurrencyLimit,
        state.freeSlots(os) + state.heldSlots() == state.effective(os).concurrencyLimit,
{
    if let Some(active) = state.active {
        active.semaphore.wfBounds();
    }
}

/// A free slot exists as long as fewer are held than the ceiling has: nobody
/// waits without need, and whoever waits is let in once a slot is given back.
pub proof fn waitingEnds(before: LimitsState, after: LimitsState, os: OsProcessLimits)
    requires
        before.wf(),
        after.wf(),
        before.active is Some,
        after.active is Some,
        after.effective(os) == before.effective(os),
        after.heldSlots() == before.heldSlots() - 1,
    ensures
        after.freeSlots(os) > 0,
{
    before.active->0.semaphore.wfBounds();
}

/// The default reaches its bound. Where no cap could be read it is the recommended
/// one; where every cap that was read allows the recommended one it is that less the
/// room below the caps; and in general, where a cap is known, that room and the
/// ceiling together are the recommended cap or one of those that were read, unless
/// one of these leaves room for a single clone or for none.
pub proof fn defaultReachesItsBound(os: OsProcessLimits)
    ensures
        ({
            let ceiling = autoDefault(os).concurrencyLimit;
            &&& os.userSoft is None && os.systemHard is None ==> ceiling == 32
            &&& os.userSoft is Some || os.systemHard is Some ==> {
                ||| ceiling + 16 == 32
                ||| os.userSoft matches Some(cap) && ceiling + 16 == cap
                ||| os.systemHard matches Some(cap) && ceiling + 16 == cap
                ||| ceiling == 1 && (os.userSoft matches Some(cap) && cap <= 17)
                ||| ceiling == 1 && (os.systemHard matches Some(cap) && cap <= 17)
            }
            &&& (os.userSoft is Some || os.systemHard is Some) && (os.userSoft matches Some(cap)
                ==> cap >= 32) && (os.systemHard matches Some(cap) ==> cap >= 32) ==> ceiling == 16
            &&& (os.userSoft matches Some(cap) && cap <= 17) ==> ceiling == 1
            &&& (os.systemHard matches Some(cap) && cap <= 17) ==> ceiling == 1
        }),
        defaultCeiling(os) == autoDefault(os).concurrencyLimit,
{
}

/// By default there is one Main Zygote and no clone is kept warm, whatever the caps
/// are; and the hard limit of the user, which a process can only ever be raised to,
/// has no say.
pub proof fn defaultGoesByTwoCaps(os: OsProcessLimits, otherHard: Option<u64>)
    ensures
        autoDefault(os).zygotePool == 1,
        autoDefault(os).hotPool == 0,
        autoDefault(OsProcessLimits { userHard: otherHard, ..os }) == autoDefault(os),
{
}

/// A higher cap never lowers the default, and a cap that is lowered never raises it.
pub proof fn defaultGrowsWithTheCaps(low: OsProcessLimits, high: OsProcessLimits)
    requires
        low.userSoft is Some == high.userSoft is Some,
        low.systemHard is Some == high.systemHard is Some,
        low.userSoft is Some ==> low.userSoft->0 <= high.userSoft->0,
        low.systemHard is Some ==> low.systemHard->0 <= high.systemHard->0,
    ensures
        autoDefault(low).concurrencyLimit <= autoDefault(high).concurrencyLimit,
{
}

/// Limits are accepted exactly where there is a Main Zygote and a slot, and neither
/// pool is larger than the ceiling: nothing else about them matters.
pub proof fn acceptedLimitsAreConsistent(limits: Limits)
    ensures
        (refusal(limits) is None) == (limits.zygotePool > 0 && limits.concurrencyLimit > 0
            && limits.hotPool <= limits.concurrencyLimit && limits.zygotePool
            <= limits.concurrencyLimit),
        limits.valid() == (limits.zygotePool > 0 && limits.concurrencyLimit > 0 && limits.hotPool
            <= limits.concurrencyLimit && limits.zygotePool <= limits.concurrencyLimit),
{
}

/// A refusal says which rule is broken, the first one first, and names the two
/// numbers that do not fit together.
pub proof fn refusalsNameTheRule(limits: Limits)
    ensures
        limits.zygotePool == 0 ==> refusal(limits) == Some(
            "limits.zygotePool must be >= 1 (zero Main Zygotes would deadlock)"@,
        ),
        limits.zygotePool > 0 && limits.concurrencyLimit == 0 ==> refusal(limits) == Some(
            "limits.concurrencyLimit must be >= 1 (zero would deadlock the first ffi!{} block)"@,
        ),
        limits.zygotePool > 0 && limits.concurrencyLimit > 0 && limits.hotPool
            > limits.concurrencyLimit ==> exists|size: Seq<char>, ceiling: Seq<char>|
            #![trigger denotes(size, limits.hotPool as int), denotes(ceiling, limits.concurrencyLimit as int)]
            denotes(size, limits.hotPool as int) && denotes(ceiling, limits.concurrencyLimit as int)
                && refusal(limits) == Some(
                "limits.hotPool ("@ + size + ") must be <= concurrencyLimit ("@ + ceiling
                    + ") — hot workers are clones"@,
            ),
        limits.concurrencyLimit > 0 && limits.hotPool <= limits.concurrencyLimit
            && limits.zygotePool > limits.concurrencyLimit ==> exists|
            size: Seq<char>,
            ceiling: Seq<char>,
        |
            #![trigger denotes(size, limits.zygotePool as int), denotes(ceiling, limits.concurrencyLimit as int)]
            denotes(size, limits.zygotePool as int) && denotes(
                ceiling,
                limits.concurrencyLimit as int,
            ) && refusal(limits) == Some(
                "limits.zygotePool ("@ + size + ") must be <= concurrencyLimit ("@ + ceiling
                    + ") — Main Zygotes count against the ceiling while they clone"@,
            ),
{
    writtenNumbersDenoteThemselves(limits.hotPool as int);
    writtenNumbersDenoteThemselves(limits.zygotePool as int);
    writtenNumbersDenoteThemselves(limits.concurrencyLimit as int);
    assert(denotes(decimal(limits.hotPool as nat), limits.hotPool as int));
    assert(denotes(decimal(limits.zygotePool as nat), limits.zygotePool as int));
    assert(denotes(decimal(limits.concurrencyLimit as nat), limits.concurrencyLimit as int));
}

/// Configuring does one of three things. Limits that are inconsistent, and limits
/// that come too late, are errors that change nothing; any others are in force
/// afterwards, number by number, with every slot free.
pub proof fn configuringTakesEffectOrNothing(
    before: LimitsState,
    limits: Limits,
    after: LimitsState,
    result: Result<(), IoError>,
)
    requires
        configures(before, limits, after, result),
    ensures
        result is Ok == (before.active is None && limits.zygotePool > 0 && limits.concurrencyLimit
            > 0 && limits.hotPool <= limits.concurrencyLimit && limits.zygotePool
            <= limits.concurrencyLimit),
        result is Err ==> after == before,
        result matches Err(error) ==> error.kind == ErrorKind::Other && error.message@ == (
        match refusal(limits) {
            Some(message) => message,
            None => AlreadyInstalled@,
        }),
        result is Ok ==> (after.active matches Some(active) && active.limits.zygotePool
            == limits.zygotePool && active.limits.hotPool == limits.hotPool
            && active.limits.concurrencyLimit == limits.concurrencyLimit
            && active.semaphore.capacity() == limits.concurrencyLimit && active.semaphore.free()
            == limits.concurrencyLimit),
        result is Ok ==> after.defaults == before.defaults,
{
}

/// The limits that hold are those that are installed; before that they are the
/// default that was computed first, and before that the one that the caps give. The
/// slots are counted by the semaphore once there is one, and are all free before.
pub proof fn installedLimitsComeFirst(state: LimitsState, os: OsProcessLimits)
    ensures
        state.active matches Some(active) ==> state.effective(os) == active.limits
            && state.freeSlots(os) == active.semaphore.free() && state.heldSlots()
            == active.semaphore.capacity() - active.semaphore.free(),
        state.active is None ==> state.heldSlots() == 0 && state.freeSlots(os) == state.effective(
            os,
        ).concurrencyLimit && state.effective(os) == state.defaultFrom(os),
        state.active is None && state.defaults is Some ==> state.effective(os)
            == state.defaults->0,
        state.active is None && state.defaults is None ==> state.effective(os) == autoDefault(os),
        state.defaults is Some ==> state.defaultFrom(os) == state.defaults->0,
        state.defaults is None ==> state.defaultFrom(os) == autoDefault(os),
{
}

/// What was read once is read again: reading installs nothing, and whatever the caps
/// have become meanwhile, the limits and the slots are those that were read. Where
/// limits are installed, reading changes nothing at all.
pub proof fn readingIsRemembered(
    before: LimitsState,
    os: OsProcessLimits,
    after: LimitsState,
    later: OsProcessLimits,
)
    requires
        before.remembers(os, after),
    ensures
        after.active == before.active,
        before.active is Some ==> after.defaults == before.defaults,
        before.active is None ==> after.defaults is Some,
        after.effective(later) == before.effective(os),
        after.freeSlots(later) == before.freeSlots(os),
        after.heldSlots() == before.heldSlots(),
{
}

/// Installing puts in force what held before: limits that are installed stay as they
/// are, and otherwise the default is in force with every slot free, whatever the caps
/// become.
pub proof fn installingPutsTheDefaultInForce(
    before: LimitsState,
    os: OsProcessLimits,
    after: LimitsState,
    later: OsProcessLimits,
)
    requires
        before.installs(os, after),
    ensures
        after.active is Some,
        before.active is Some ==> after == before,
        after.effective(later) == before.effective(os),
        after.freeSlots(later) == before.freeSlots(os),
        before.active is None ==> after.heldSlots() == 0 && after.defaults == Some(
            before.defaultFrom(os),
        ) && after.active->0.semaphore.capacity() == before.effective(os).concurrencyLimit,
{
}

/// Taking a slot leaves the limits in force that held before, whatever the caps
/// become.
pub proof fn takingASlotKeepsTheLimits(
    before: LimitsState,
    os: OsProcessLimits,
    after: LimitsState,
    later: OsProcessLimits,
)
    requires
        before.keepsLimits(os, after),
    ensures
        after.active is Some,
        after.effective(later) == before.effective(os),
        before.active is Some ==> after.defaults == before.defaults,
        before.active is None ==> after.defaults == Some(before.defaultFrom(os)),
{
}

/// Limits that are in force from scratch have as many permits as the ceiling says,
/// all of them free.
pub proof fn freshLimitsAreFree(active: ActiveLimit, limits: Limits)
    requires
        active.freshWith(limits),
    ensures
        active.limits.zygotePool == limits.zygotePool,
        active.limits.hotPool == limits.hotPool,
        active.limits.concurrencyLimit == limits.concurrencyLimit,
        active.semaphore.capacity() == limits.concurrencyLimit,
        active.semaphore.held() == 0,
        limits.valid() ==> active.wf(),
{
}

/// The limits that are computed are the default, which [`defaultReachesItsBound`] and
/// [`defaultLeavesRoom`] tell the ceiling of.
pub proof fn computedLimitsAreTheDefault(
    os: OsProcessLimits,
    limits: Limits,
    buffer: u64,
    cautious: Limits,
)
    requires
        call_ensures(computeAutoDefault, (os,), limits),
        call_ensures(defaultBuffer, (), buffer),
        call_ensures(Limits::conservative, (), cautious),
    ensures
        limits == autoDefault(os),
        buffer == 16,
        cautious.zygotePool == 1 && cautious.hotPool == 0 && cautious.concurrencyLimit == 16,
{
}

/// A slot is had exactly where fewer are held than the ceiling has; it is then held,
/// and given back again it leaves the slots as they were. The ceiling stays what it was
/// all the while.
pub proof fn slotsAreTakenAndGivenBack(
    state: &mut LimitsState,
    os: OsProcessLimits,
    acquired: bool,
    later: &mut LimitsState,
)
    requires
        old(state).wf(),
        call_ensures(acquirePermit, (state, os), acquired),
        acquired,
        *old(later) == *final(state),
        call_ensures(releasePermit, (later,), ()),
    ensures
        old(state).heldSlots() < old(state).effective(os).concurrencyLimit,
        final(state).heldSlots() == old(state).heldSlots() + 1,
        final(state).effective(os) == old(state).effective(os),
        final(later).heldSlots() == old(state).heldSlots(),
        final(later).effective(os) == old(state).effective(os),
{
    ceilingHolds(*old(state), os);
    ceilingHolds(*final(state), os);
}

/// Nobody is turned away below the ceiling: whoever gets no slot finds all of them
/// held, and leaves them as they were.
pub proof fn slotsRunOutAtTheCeiling(state: &mut LimitsState, os: OsProcessLimits, acquired: bool)
    requires
        old(state).wf(),
        call_ensures(acquirePermit, (state, os), acquired),
    ensures
        acquired == (old(state).heldSlots() < old(state).effective(os).concurrencyLimit),
        !acquired ==> final(state).heldSlots() == old(state).heldSlots(),
        final(state).effective(os) == old(state).effective(os),
{
    ceilingHolds(*old(state), os);
    ceilingHolds(*final(state), os);
}

/// All readings agree with the limits that hold, and the slots that are read as free
/// are those that nobody holds.
pub proof fn readingsAgree(
    state: LimitsState,
    os: OsProcessLimits,
    reads: (
        &mut LimitsState,
        &mut LimitsState,
        &mut LimitsState,
        &mut LimitsState,
        &mut LimitsState,
        &mut LimitsState,
    ),
    limits: Limits,
    ceiling: u64,
    publicCeiling: u64,
    zygotes: u64,
    warm: u64,
    slots: u64,
)
    requires
        state.wf(),
        *reads.0 == state,
        *reads.1 == state,
        *reads.2 == state,
        *reads.3 == state,
        *reads.4 == state,
        *reads.5 == state,
        call_ensures(current, (reads.0, os), limits),
        call_ensures(activeLimit, (reads.1, os), ceiling),
        call_ensures(activeLimitPublic, (reads.2, os), publicCeiling),
        call_ensures(activeZygotePool, (reads.3, os), zygotes),
        call_ensures(activeHotPool, (reads.4, os), warm),
        call_ensures(availableSlots, (reads.5, os), slots),
    ensures
        limits == state.effective(os),
        ceiling == limits.concurrencyLimit,
        publicCeiling == limits.concurrencyLimit,
        zygotes == limits.zygotePool,
        warm == limits.hotPool,
        slots + state.heldSlots() == limits.concurrencyLimit,
{
    ceilingHolds(state, os);
}

} // verus!
