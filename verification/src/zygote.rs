//! The pool of processes: the Main Zygote, and the clones that are made of it.
//!
//! A clone exists only while it holds a slot of [`crate::limits`]. The slot is
//! taken before the Main Zygote is asked for anything, and given back when the
//! clone is gone, or when it turns out that there will be none. That is what
//! keeps a parallel workload below the ceiling.
//!
//! The pool is a plain value that its owner shares between threads. Whoever
//! finds the ceiling reached waits for a slot and tries again.
use crate::errors::{ErrorKind, IoError};
use crate::ffi::session::ThreadState;
use crate::limits::{
    acquirePermit, ceilingHolds, configures, releasePermit, Limits, LimitsState, OsProcessLimits,
};
use crate::platform::ipc::FFIResponse;
use crate::platform::transport::{Bootstrap, NoClonePid, RuntimeSide, Transport};
use crate::stats::{onCloneDropped, onCloneSpawned, onZygoteRetired, onZygoteSpawned, Counters};
use vstd::prelude::*;
use vstd::string::*;

verus! {

/// The Runtime's handle of the Main Zygote.
pub struct ZygoteHandle<H> {
    /// Its process.
    pub process: u32,
    /// The handle of the backend.
    pub inner: H,
}

impl<H> ZygoteHandle<H> {
    /// The process of the Main Zygote.
    pub fn pid(&self) -> (pid: u32)
        ensures
            pid == self.process,
    {
        self.process
    }
}

/// What there is of a Main Zygote.
pub enum ZygoteSlot<H> {
    /// None has been started.
    Missing,
    /// It is running.
    Alive(ZygoteHandle<H>),
    /// It is gone, and has not been replaced yet.
    Retired(ZygoteHandle<H>),
}

impl<H> ZygoteSlot<H> {
    /// The process of the Main Zygote, running or gone, if one was started.
    pub open spec fn process(&self) -> Option<u32> {
        match *self {
            ZygoteSlot::Missing => None,
            ZygoteSlot::Alive(handle) => Some(handle.process),
            ZygoteSlot::Retired(handle) => Some(handle.process),
        }
    }
}

/// The processes of a Runtime.
pub struct Pool<H> {
    /// The limits, with the slots of the clones.
    pub limits: LimitsState,
    /// The live counters.
    pub counters: Counters,
    /// Clones that hold a slot and have been asked for, and are not there yet.
    pub starting: u64,
    /// Clones that are no longer counted and still hold a slot: they are being
    /// killed.
    pub ending: u64,
    /// The Main Zygote.
    pub zygote: ZygoteSlot<H>,
}

impl<H> Pool<H> {
    /// Every slot that is held belongs to a clone that is running, starting or
    /// ending, and the Main Zygote is counted exactly while it runs.
    pub open spec fn wf(&self) -> bool {
        &&& self.limits.wf()
        &&& self.limits.heldSlots() == self.counters.activeClones + self.starting + self.ending
        &&& self.counters.zygotesAlive == (if self.zygote is Alive {
            1int
        } else {
            0int
        })
    }

    /// No process at all.
    pub fn new() -> (pool: Self)
        ensures
            pool.wf(),
            pool.limits.active is None,
            pool.limits.defaults is None,
            pool.counters == (Counters { activeClones: 0, zygotesAlive: 0 }),
            pool.starting == 0,
            pool.ending == 0,
            pool.zygote is Missing,
    {
        Pool {
            limits: LimitsState::new(),
            counters: Counters::new(),
            starting: 0,
            ending: 0,
            zygote: ZygoteSlot::Missing,
        }
    }
}

// ------------------------------------------------------------------------------------------------
// Clones
// ------------------------------------------------------------------------------------------------

/// A clone: its process, and the Runtime's ends of the channels to it.
pub struct ClonedZygote<Tx, Rx> {
    pub pid: u32,
    pub data: RuntimeSide<Tx, Rx>,
}

/// The slot of a clone that is to be made.
pub struct PendingClone {
    granted: (),
}

/// The answer to the wish for a clone.
pub enum CloneAttempt {
    /// The ceiling is reached: wait until a slot is given back, and try again.
    Full,
    /// There will be no clone.
    Refused(IoError),
    /// There is a slot: ask the Main Zygote.
    Granted(PendingClone),
}

/// What is said when there is no Main Zygote.
pub const NoZygote: &'static str = "Zygote not initialized";

/// Whether the wish for a clone may turn `before` into `after`, with that
/// answer. A full pool is not an error, and only a missing Main Zygote is one.
pub open spec fn attempted<H>(
    before: Pool<H>,
    os: OsProcessLimits,
    after: Pool<H>,
    attempt: CloneAttempt,
) -> bool {
    &&& before.limits.keepsLimits(os, after.limits)
    &&& after.limits.heldSlots() == before.limits.heldSlots() + (if attempt is Granted {
        1int
    } else {
        0int
    })
    &&& after.starting == before.starting + (if attempt is Granted {
        1int
    } else {
        0int
    })
    &&& after.ending == before.ending
    &&& after.counters == before.counters
    &&& after.zygote == before.zygote
    &&& if before.limits.freeSlots(os) == 0 {
        attempt is Full
    } else if before.zygote is Missing {
        attempt matches CloneAttempt::Refused(error) && error.says(ErrorKind::NotFound, NoZygote@)
    } else {
        attempt is Granted
    }
}

/// Why there is no clone after all, if there is none.
pub open spec fn cloneFailure<Tx, Rx>(spawned: Result<Bootstrap<Tx, Rx>, IoError>) -> Option<
    (ErrorKind, Seq<char>),
> {
    match spawned {
        Err(cause) => Some((ErrorKind::BrokenPipe, "SpawnClone failed: "@ + cause.message@)),
        Ok(bootstrap) => if bootstrap.pid == 0 {
            Some((ErrorKind::Other, NoClonePid@))
        } else {
            None
        },
    }
}

/// `after` has the limits of `before`, and `slots` slots fewer are held.
pub open spec fn givesBack(before: LimitsState, slots: int, after: LimitsState) -> bool {
    &&& after.heldSlots() == before.heldSlots() - slots
    &&& before.active matches Some(active)
    &&& after.active matches Some(remaining)
    &&& remaining.limits == active.limits
    &&& after.defaults == before.defaults
}

/// Whether the outcome of asking for a clone may turn `before` into `after`,
/// with that result. Where there is no clone its slot is given back.
pub open spec fn completed<H, Tx, Rx>(
    before: Pool<H>,
    spawned: Result<Bootstrap<Tx, Rx>, IoError>,
    after: Pool<H>,
    result: Result<ClonedZygote<Tx, Rx>, IoError>,
) -> bool {
    &&& after.starting == before.starting - 1
    &&& after.ending == before.ending
    &&& after.zygote == before.zygote
    &&& match cloneFailure(spawned) {
        Some((kind, message)) => {
            &&& result matches Err(error) && error.says(kind, message)
            &&& after.counters == before.counters
            &&& givesBack(before.limits, 1, after.limits)
        },
        None => {
            &&& spawned matches Ok(bootstrap)
            &&& result == Ok::<ClonedZygote<Tx, Rx>, IoError>(
                ClonedZygote {
                    pid: bootstrap.pid,
                    data: RuntimeSide {
                        requestTx: bootstrap.requestTx,
                        responseRx: bootstrap.responseRx,
                    },
                },
            )
            &&& after.counters == (Counters {
                activeClones: (before.counters.activeClones + 1) as u64,
                ..before.counters
            })
            &&& after.limits == before.limits
        },
    }
}

/// Whether the beginning of the end of a clone may turn `before` into `after`: it
/// is no longer counted, and keeps its slot.
pub open spec fn uncounted<H>(before: Pool<H>, after: Pool<H>) -> bool {
    &&& after.counters == (Counters {
        activeClones: (before.counters.activeClones - 1) as u64,
        ..before.counters
    })
    &&& after.ending == before.ending + 1
    &&& after.limits == before.limits
    &&& after.starting == before.starting
    &&& after.zygote == before.zygote
}

/// Whether the kill of a clone may turn `before` into `after`: its slot is given
/// back.
pub open spec fn released<H>(before: Pool<H>, after: Pool<H>) -> bool {
    &&& after.ending == before.ending - 1
    &&& givesBack(before.limits, 1, after.limits)
    &&& after.counters == before.counters
    &&& after.starting == before.starting
    &&& after.zygote == before.zygote
}

/// The clones of a pool can be counted.
proof fn slotsAreCountable<H>(pool: Pool<H>)
    requires
        pool.wf(),
    ensures
        pool.counters.activeClones + pool.starting + pool.ending <= u64::MAX,
{
    if let Some(active) = pool.limits.active {
        active.semaphore.wfBounds();
    }
}

impl PendingClone {
    /// Takes what came of asking the Main Zygote for a clone.
    pub fn complete<H, Tx, Rx>(
        self,
        pool: &mut Pool<H>,
        spawned: Result<Bootstrap<Tx, Rx>, IoError>,
    ) -> (result: Result<ClonedZygote<Tx, Rx>, IoError>)
        requires
            old(pool).wf(),
            old(pool).starting > 0,
        ensures
            final(pool).wf(),
            completed(*old(pool), spawned, *final(pool), result),
    {
        proof {
            slotsAreCountable(*pool);
        }
        pool.starting = pool.starting - 1;
        let bootstrap: Bootstrap<Tx, Rx> = match spawned {
            Ok(bootstrap) => bootstrap,
            Err(cause) => {
                releasePermit(&mut pool.limits);
                return Err(
                    IoError::because(
                        ErrorKind::BrokenPipe,
                        "SpawnClone failed: ",
                        cause.message.as_str(),
                    ),
                );
            },
        };
        let pid: u32 = Transport::bootstrapPid(&bootstrap);
        if pid == 0 {
            releasePermit(&mut pool.limits);
            return Err(IoError::other(NoClonePid));
        }
        match Transport::runtimeConnect(bootstrap) {
            Ok(data) => {
                onCloneSpawned(&mut pool.counters);
                Ok(ClonedZygote { pid, data })
            },
            Err(error) => {
                releasePermit(&mut pool.limits);
                Err(error)
            },
        }
    }
}

impl<Tx, Rx> ClonedZygote<Tx, Rx> {
    /// Asks for a clone. The slot comes first, and the Main Zygote is touched
    /// only by those who have one.
    pub fn getMeClone<H>(pool: &mut Pool<H>, os: OsProcessLimits) -> (attempt: CloneAttempt)
        requires
            old(pool).wf(),
        ensures
            final(pool).wf(),
            attempted(*old(pool), os, *final(pool), attempt),
    {
        if !acquirePermit(&mut pool.limits, os) {
            return CloneAttempt::Full;
        }
        match pool.zygote {
            ZygoteSlot::Missing => {
                releasePermit(&mut pool.limits);
                CloneAttempt::Refused(IoError::new(ErrorKind::NotFound, NoZygote))
            },
            _ => {
                pool.starting = pool.starting + 1;
                CloneAttempt::Granted(PendingClone { granted: () })
            },
        }
    }

    /// Begins the end of this clone: it is no longer counted, and its process is
    /// to be killed. Its slot stays taken until that is done, so that nobody who
    /// waits for it can meet the process.
    pub fn drop<H>(self, pool: &mut Pool<H>) -> (ending: EndingClone<Tx, Rx>)
        requires
            old(pool).wf(),
            old(pool).counters.activeClones > 0,
        ensures
            final(pool).wf(),
            uncounted(*old(pool), *final(pool)),
            ending.process() == self.pid,
    {
        proof {
            slotsAreCountable(*pool);
        }
        onCloneDropped(&mut pool.counters);
        pool.ending = pool.ending + 1;
        EndingClone { pid: self.pid, data: self.data }
    }

    /// What sending a request to this clone comes to: there is an answer to
    /// wait for, or the call has failed.
    pub fn call(&self, sent: Result<(), String>) -> (result: Result<AwaitedAnswer, String>)
        ensures
            match sent {
                Ok(_) => result is Ok,
                Err(cause) => result matches Err(message) && message@
                    == "Zygote clone IPC failed while sending request: "@ + cause@,
            },
    {
        match self.data.send(sent) {
            Ok(_) => Ok(AwaitedAnswer { sent: () }),
            Err(message) => Err(message),
        }
    }
}

/// A clone that is no longer counted and is to be killed.
pub struct EndingClone<Tx, Rx> {
    pid: u32,
    data: RuntimeSide<Tx, Rx>,
}

impl<Tx, Rx> EndingClone<Tx, Rx> {
    /// The process that is to be killed.
    pub closed spec fn process(&self) -> u32 {
        self.pid
    }

    /// The process that is to be killed.
    pub fn pid(&self) -> (pid: u32)
        ensures
            pid == self.process(),
    {
        self.pid
    }

    /// Takes note that the process was killed: the channels to it are closed, and
    /// only then its slot is free.
    pub fn killed<H>(self, pool: &mut Pool<H>)
        requires
            old(pool).wf(),
            old(pool).ending > 0,
        ensures
            final(pool).wf(),
            released(*old(pool), *final(pool)),
    {
        {
            let _closed: RuntimeSide<Tx, Rx> = self.data;
        }
        pool.ending = pool.ending - 1;
        releasePermit(&mut pool.limits);
    }
}

/// A request that a clone has been sent and has not answered yet.
pub struct AwaitedAnswer {
    sent: (),
}

impl AwaitedAnswer {
    /// What waiting for the answer of `clone` comes to.
    pub fn complete<Tx, Rx>(
        self,
        clone: &ClonedZygote<Tx, Rx>,
        received: Result<FFIResponse, String>,
    ) -> (result: Result<FFIResponse, String>)
        ensures
            match received {
                Ok(response) => result == Ok::<FFIResponse, String>(response),
                Err(cause) => result matches Err(message) && message@
                    == "Zygote clone IPC failed while reading response: "@ + cause@,
            },
    {
        clone.data.recv(received)
    }
}

// ------------------------------------------------------------------------------------------------
// The clones of a thread
// ------------------------------------------------------------------------------------------------

/// A scope that a thread is in: the clone that serves it, and the number by which
/// its guard finds it.
pub struct ScopeEntry<Tx, Rx> {
    pub serial: u64,
    pub clone: ClonedZygote<Tx, Rx>,
}

/// The numbers of the scopes.
pub open spec fn serials<Tx, Rx>(entries: Seq<ScopeEntry<Tx, Rx>>) -> Seq<u64> {
    entries.map_values(|entry: ScopeEntry<Tx, Rx>| entry.serial)
}

/// Whether no two scopes have the same number.
pub open spec fn distinct<Tx, Rx>(entries: Seq<ScopeEntry<Tx, Rx>>) -> bool {
    forall|i: int, j: int|
        0 <= i < j < entries.len() ==> (#[trigger] entries[i]).serial != (
        #[trigger] entries[j]).serial
}

/// The place of the scope with that number, if there is one.
pub open spec fn placeOf<Tx, Rx>(entries: Seq<ScopeEntry<Tx, Rx>>, serial: u64) -> Option<int>
    decreases entries.len(),
{
    if entries.len() == 0 {
        None
    } else if entries.last().serial == serial {
        Some(entries.len() - 1)
    } else {
        placeOf(entries.drop_last(), serial)
    }
}

/// The scopes that a thread is in: the clone of the innermost serves its requests.
pub struct ZygoteStack<Tx, Rx> {
    entries: Vec<ScopeEntry<Tx, Rx>>,
}

impl<Tx, Rx> View for ZygoteStack<Tx, Rx> {
    type V = Seq<ScopeEntry<Tx, Rx>>;

    /// The scopes, innermost last.
    closed spec fn view(&self) -> Seq<ScopeEntry<Tx, Rx>> {
        self.entries@
    }
}

/// Where each of the first numbers is the number of a scope, there are at least as
/// many scopes.
proof fn usedSerialsAreFew<Tx, Rx>(entries: Seq<ScopeEntry<Tx, Rx>>, tried: nat)
    requires
        forall|number: int|
            0 <= number < tried ==> #[trigger] serials(entries).contains(number as u64),
        tried <= u64::MAX + 1,
    ensures
        tried <= entries.len(),
{
    let used = serials(entries).map_values(|serial: u64| serial as int);
    let first = vstd::set_lib::set_int_range(0, tried as int);
    vstd::set_lib::lemma_int_range(0, tried as int);
    vstd::seq_lib::seq_to_set_is_finite(used);
    used.lemma_cardinality_of_set();
    assert forall|number: int| first.contains(number) implies used.to_set().contains(number) by {
        assert(serials(entries).contains(number as u64));
        let i = serials(entries).index_of(number as u64);
        assert(used[i] == number);
    }
    vstd::set_lib::lemma_len_subset(first, used.to_set());
}

impl<Tx, Rx> ZygoteStack<Tx, Rx> {
    /// The thread knows whether a clone serves it.
    pub open spec fn agrees(&self, thread: ThreadState) -> bool {
        thread.cloneActive == (self@.len() > 0)
    }

    /// No scope.
    pub fn new() -> (stack: Self)
        ensures
            stack@ == Seq::<ScopeEntry<Tx, Rx>>::empty(),
            distinct(stack@),
    {
        ZygoteStack { entries: Vec::new() }
    }

    /// The clone that serves the thread, if there is one.
    pub fn active(&self) -> (clone: Option<&ClonedZygote<Tx, Rx>>)
        ensures
            clone == (if self@.len() > 0 {
                Some(&self@.last().clone)
            } else {
                None
            }),
    {
        let depth: usize = self.entries.len();
        if depth > 0 {
            Some(&self.entries[depth - 1].clone)
        } else {
            None
        }
    }

    /// Whether a scope has that number.
    fn isUsed(&self, serial: u64) -> (used: bool)
        ensures
            used == serials(self@).contains(serial),
    {
        let mut i: usize = 0;
        while i < self.entries.len()
            invariant
                i <= self@.len(),
                forall|j: int| 0 <= j < i ==> (#[trigger] self@[j]).serial != serial,
            decreases self@.len() - i,
        {
            if self.entries[i].serial == serial {
                assert(serials(self@)[i as int] == serial);
                return true;
            }
            i = i + 1;
        }
        false
    }

    /// A number that no scope has.
    fn freshSerial(&self) -> (serial: u64)
        ensures
            !serials(self@).contains(serial),
    {
        let depth: usize = self.entries.len();
        let mut serial: u64 = 0;
        while self.isUsed(serial)
            invariant
                depth == self@.len(),
                serial <= depth,
                forall|number: int|
                    0 <= number < serial ==> #[trigger] serials(self@).contains(number as u64),
            decreases depth - serial,
        {
            proof {
                assert forall|number: int| 0 <= number < serial + 1 implies #[trigger] serials(
                    self@,
                ).contains(number as u64) by {}
                usedSerialsAreFew(self@, (serial + 1) as nat);
            }
            serial = serial + 1;
        }
        serial
    }
}

/// A scope that a thread has entered.
pub struct ZygoteGuard {
    serial: u64,
}

impl ZygoteGuard {
    /// The number of the scope.
    pub closed spec fn number(&self) -> u64 {
        self.serial
    }

    /// Enters a scope that `zygote` serves. Its number is one that no other scope
    /// of the thread has.
    pub fn enter<Tx, Rx>(
        stack: &mut ZygoteStack<Tx, Rx>,
        thread: &mut ThreadState,
        zygote: ClonedZygote<Tx, Rx>,
    ) -> (guard: Self)
        ensures
            !serials(old(stack)@).contains(guard.number()),
            final(stack)@ == old(stack)@.push(
                ScopeEntry { serial: guard.number(), clone: zygote },
            ),
            distinct(old(stack)@) ==> distinct(final(stack)@),
            *final(thread) == (ThreadState { cloneActive: true, ..*old(thread) }),
            final(stack).agrees(*final(thread)),
    {
        let serial: u64 = stack.freshSerial();
        assert forall|i: int| 0 <= i < old(stack)@.len() implies (
        #[trigger] old(stack)@[i]).serial != serial by {
            assert(serials(old(stack)@)[i] == old(stack)@[i].serial);
        }
        stack.entries.push(ScopeEntry { serial, clone: zygote });
        thread.cloneActive = true;
        ZygoteGuard { serial }
    }

    /// Leaves the scope and hands out exactly the clone that served it, whose end
    /// begins. Other scopes keep theirs.
    pub fn drop<Tx, Rx>(self, stack: &mut ZygoteStack<Tx, Rx>, thread: &mut ThreadState) -> (zygote:
        Option<ClonedZygote<Tx, Rx>>)
        ensures
            match placeOf(old(stack)@, self.number()) {
                Some(place) => {
                    &&& zygote == Some(old(stack)@[place].clone)
                    &&& final(stack)@ == old(stack)@.remove(place)
                },
                None => zygote is None && final(stack)@ == old(stack)@,
            },
            distinct(old(stack)@) ==> distinct(final(stack)@),
            *final(thread) == (ThreadState {
                cloneActive: final(stack)@.len() > 0,
                ..*old(thread)
            }),
            final(stack).agrees(*final(thread)),
    {
        let mut zygote: Option<ClonedZygote<Tx, Rx>> = None;
        let mut depth: usize = stack.entries.len();
        assert(old(stack)@.take(depth as int) =~= old(stack)@);
        while depth > 0 && zygote.is_none()
            invariant
                depth <= old(stack)@.len(),
                match zygote {
                    None => {
                        &&& stack@ == old(stack)@
                        &&& placeOf(old(stack)@, self.number()) == placeOf(
                            old(stack)@.take(depth as int),
                            self.number(),
                        )
                    },
                    Some(clone) => {
                        &&& placeOf(old(stack)@, self.number()) == Some(depth as int)
                        &&& depth < old(stack)@.len()
                        &&& clone == old(stack)@[depth as int].clone
                        &&& stack@ == old(stack)@.remove(depth as int)
                    },
                },
            decreases depth,
        {
            let ghost above = old(stack)@.take(depth as int);
            depth = depth - 1;
            assert(above.drop_last() =~= old(stack)@.take(depth as int));
            if stack.entries[depth].serial == self.serial {
                let entry: ScopeEntry<Tx, Rx> = stack.entries.remove(depth);
                zygote = Some(entry.clone);
            }
        }
        thread.cloneActive = stack.entries.len() > 0;
        zygote
    }
}

/// Scopes nest: a scope that is left before any other was entered hands out the
/// very clone that it was entered with, and the thread is served by the clone
/// that served it before.
pub proof fn scopesNest<Tx, Rx>(outside: Seq<ScopeEntry<Tx, Rx>>, entry: ScopeEntry<Tx, Rx>)
    ensures
        ({
            let inside = outside.push(entry);
            &&& placeOf(inside, entry.serial) == Some(outside.len() as int)
            &&& inside[outside.len() as int] == entry
            &&& inside.remove(outside.len() as int) == outside
        }),
{
    assert(outside.push(entry).remove(outside.len() as int) =~= outside);
}

/// A scope that is left out of turn takes its own clone with it: whatever scopes
/// there are besides it, and whatever their processes, it is the one that is
/// found, and the others stay in their order.
pub proof fn scopesLeaveTheirOwn<Tx, Rx>(entries: Seq<ScopeEntry<Tx, Rx>>, place: int)
    requires
        distinct(entries),
        0 <= place < entries.len(),
    ensures
        placeOf(entries, entries[place].serial) == Some(place),
        entries.remove(place) == entries.take(place) + entries.skip(place + 1),
    decreases entries.len(),
{
    if place < entries.len() - 1 {
        let below = entries.drop_last();
        assert(entries[place].serial != entries[entries.len() - 1].serial);
        assert forall|i: int, j: int| 0 <= i < j < below.len() implies (
        #[trigger] below[i]).serial != (#[trigger] below[j]).serial by {
            assert(entries[i].serial != entries[j].serial);
        }
        scopesLeaveTheirOwn(below, place);
    }
    assert(entries.remove(place) =~= entries.take(place) + entries.skip(place + 1));
}

// ------------------------------------------------------------------------------------------------
// The Main Zygote
// ------------------------------------------------------------------------------------------------

/// The server that a Main Zygote with these arguments reports to, if it is told.
pub open spec fn zygoteServer(arguments: Seq<String>) -> Option<Seq<char>> {
    if arguments.len() > 2 {
        Some(arguments[2]@)
    } else {
        None
    }
}

/// The server that the Main Zygote reports to, out of its arguments.
pub fn runAsZygote(arguments: &[String]) -> (serverName: Option<String>)
    ensures
        match zygoteServer(arguments@) {
            Some(name) => serverName matches Some(text) && text@ == name,
            None => serverName is None,
        },
{
    if arguments.len() > 2 {
        Some(arguments[2].as_str().to_owned())
    } else {
        None
    }
}

/// What is said to a second Main Zygote.
pub const ZygoteExists: &'static str = "Zygote already initialized";

/// The Runtime's handle of a Main Zygote that was spawned.
pub fn initZygoteInner<H>(spawned: Result<(u32, H), IoError>) -> (result: Result<
    ZygoteHandle<H>,
    IoError,
>)
    ensures
        match spawned {
            Ok((process, inner)) => result == Ok::<ZygoteHandle<H>, IoError>(
                ZygoteHandle { process, inner },
            ),
            Err(error) => result == Err::<ZygoteHandle<H>, IoError>(error),
        },
{
    match spawned {
        Ok((process, inner)) => Ok(ZygoteHandle { process, inner }),
        Err(error) => Err(error),
    }
}

/// Whether the start of a Main Zygote may turn `before` into `after`, with that
/// result. It works once.
pub open spec fn initialized<H>(
    before: Pool<H>,
    spawned: Result<(u32, H), IoError>,
    after: Pool<H>,
    result: Result<(), IoError>,
) -> bool {
    match spawned {
        Err(error) => after == before && result == Err::<(), IoError>(error),
        Ok((process, inner)) => if before.zygote is Missing {
            &&& result is Ok
            &&& after.zygote == ZygoteSlot::Alive(ZygoteHandle { process, inner })
            &&& after.counters == (Counters { zygotesAlive: 1, ..before.counters })
            &&& after.limits == before.limits
            &&& after.starting == before.starting
            &&& after.ending == before.ending
        } else {
            &&& after == before
            &&& result matches Err(error) && error.says(ErrorKind::AlreadyExists, ZygoteExists@)
        },
    }
}

/// Takes the Main Zygote that was spawned. The supervisor is to be started
/// where that is fine; where there is a Main Zygote already, the new one is let
/// go of.
pub fn initZygote<H>(pool: &mut Pool<H>, spawned: Result<(u32, H), IoError>) -> (result: Result<
    (),
    IoError,
>)
    requires
        old(pool).wf(),
    ensures
        final(pool).wf(),
        initialized(*old(pool), spawned, *final(pool), result),
{
    let handle: ZygoteHandle<H> = match initZygoteInner(spawned) {
        Ok(handle) => handle,
        Err(error) => {
            return Err(error);
        },
    };
    match pool.zygote {
        ZygoteSlot::Missing => {
            pool.zygote = ZygoteSlot::Alive(handle);
            onZygoteSpawned(&mut pool.counters);
            Ok(())
        },
        _ => Err(IoError::new(ErrorKind::AlreadyExists, ZygoteExists)),
    }
}

/// How long the supervisor rests after it could not replace the Main Zygote, in
/// milliseconds.
pub const RespawnPause: u64 = 200;

/// What came of a step of the supervisor.
pub enum SupervisorEvent<H> {
    /// It begins, or begins again.
    Started,
    /// This process is gone.
    Died(u32),
    /// The Main Zygote that is to replace the one that is gone.
    Respawned(Result<(u32, H), IoError>),
}

/// The next step of the supervisor.
#[derive(Debug, Clone, Copy, PartialEq, Eq)]
pub enum SupervisorStep {
    /// There is nothing to supervise.
    Stop,
    /// Wait until this process is gone.
    Watch(u32),
    /// Spawn another Main Zygote, while nobody else starts one or asks for a clone.
    Respawn,
    /// Rest for that many milliseconds, and begin again.
    Rest(u64),
}

/// The step that watches a Main Zygote.
pub open spec fn watches(process: Option<u32>) -> SupervisorStep {
    match process {
        Some(pid) => SupervisorStep::Watch(pid),
        None => SupervisorStep::Stop,
    }
}

/// Whether `event` may turn `before` into `after`, with that next step. A Main
/// Zygote that is gone is retired once, however often replacing it fails.
pub open spec fn supervised<H>(
    before: Pool<H>,
    event: SupervisorEvent<H>,
    after: Pool<H>,
    step: SupervisorStep,
) -> bool {
    &&& after.limits == before.limits
    &&& after.starting == before.starting
    &&& after.ending == before.ending
    &&& match event {
        SupervisorEvent::Started => {
            &&& after == before
            &&& step == watches(before.zygote.process())
        },
        SupervisorEvent::Died(pid) => if before.zygote.process() == Some(pid) {
            &&& step is Respawn
            &&& after.zygote is Retired
            &&& after.zygote.process() == Some(pid)
            &&& after.counters == (Counters { zygotesAlive: 0, ..before.counters })
        } else {
            &&& after == before
            &&& step == watches(before.zygote.process())
        },
        SupervisorEvent::Respawned(Ok((process, inner))) => {
            &&& step == SupervisorStep::Watch(process)
            &&& after.zygote == ZygoteSlot::Alive(ZygoteHandle { process, inner })
            &&& after.counters == (Counters { zygotesAlive: 1, ..before.counters })
        },
        SupervisorEvent::Respawned(Err(_)) => {
            &&& step == SupervisorStep::Rest(RespawnPause)
            &&& after == before
        },
    }
}

fn watch<H>(zygote: &ZygoteSlot<H>) -> (step: SupervisorStep)
    ensures
        step == watches(zygote.process()),
{
    match zygote {
        ZygoteSlot::Missing => SupervisorStep::Stop,
        ZygoteSlot::Alive(handle) => SupervisorStep::Watch(handle.pid()),
        ZygoteSlot::Retired(handle) => SupervisorStep::Watch(handle.pid()),
    }
}

/// The supervisor, step by step: it waits for the death of the Main Zygote and
/// replaces it.
pub fn supervisorLoop<H>(pool: &mut Pool<H>, event: SupervisorEvent<H>) -> (step: SupervisorStep)
    requires
        old(pool).wf(),
        event is Respawned ==> old(pool).zygote is Retired,
    ensures
        final(pool).wf(),
        supervised(*old(pool), event, *final(pool), step),
{
    match event {
        SupervisorEvent::Started => watch(&pool.zygote),
        SupervisorEvent::Died(pid) => {
            let mut current: ZygoteSlot<H> = ZygoteSlot::Missing;
            std::mem::swap(&mut current, &mut pool.zygote);
            match current {
                ZygoteSlot::Missing => SupervisorStep::Stop,
                ZygoteSlot::Alive(handle) => {
                    let process: u32 = handle.pid();
                    if process == pid {
                        onZygoteRetired(&mut pool.counters);
                        pool.zygote = ZygoteSlot::Retired(handle);
                        SupervisorStep::Respawn
                    } else {
                        pool.zygote = ZygoteSlot::Alive(handle);
                        SupervisorStep::Watch(process)
                    }
                },
                ZygoteSlot::Retired(handle) => {
                    let process: u32 = handle.pid();
                    pool.zygote = ZygoteSlot::Retired(handle);
                    if process == pid {
                        SupervisorStep::Respawn
                    } else {
                        SupervisorStep::Watch(process)
                    }
                },
            }
        },
        SupervisorEvent::Respawned(spawned) => match initZygoteInner(spawned) {
            Ok(handle) => {
                let process: u32 = handle.pid();
                onZygoteSpawned(&mut pool.counters);
                pool.zygote = ZygoteSlot::Alive(handle);
                SupervisorStep::Watch(process)
            },
            Err(_) => SupervisorStep::Rest(RespawnPause),
        },
    }
}

// ------------------------------------------------------------------------------------------------
// What holds of the pool
// ------------------------------------------------------------------------------------------------

/// The ceiling holds in every state of the pool: the clones that are running,
/// starting and ending are never more than it allows. Where none is starting or
/// ending, the free slots are exactly the ceiling less the running clones.
pub proof fn clonesStayBelowCeiling<H>(pool: Pool<H>, os: OsProcessLimits)
    requires
        pool.wf(),
    ensures
        pool.counters.activeClones + pool.starting + pool.ending <= pool.limits.effective(
            os,
        ).concurrencyLimit,
        pool.starting == 0 && pool.ending == 0 ==> pool.limits.freeSlots(os)
            + pool.counters.activeClones == pool.limits.effective(os).concurrencyLimit,
{
    ceilingHolds(pool.limits, os);
}

/// Reaching the ceiling is never an error. Whoever is refused is refused for
/// want of a Main Zygote, while a slot was free.
pub proof fn fullIsNoError<H>(
    before: Pool<H>,
    os: OsProcessLimits,
    after: Pool<H>,
    attempt: CloneAttempt,
)
    requires
        attempted(before, os, after, attempt),
    ensures
        before.limits.freeSlots(os) == 0 ==> attempt is Full,
        attempt is Refused ==> before.zygote is Missing && before.limits.freeSlots(os) > 0,
{
}

/// Whoever waits gets in: once a clone has been killed, the next wish for a clone
/// is granted.
pub proof fn waitersGetIn<H>(
    ending: Pool<H>,
    freed: Pool<H>,
    after: Pool<H>,
    os: OsProcessLimits,
    attempt: CloneAttempt,
)
    requires
        ending.wf(),
        freed.wf(),
        ending.zygote !is Missing,
        released(ending, freed),
        attempted(freed, os, after, attempt),
    ensures
        attempt is Granted,
{
    ceilingHolds(ending.limits, os);
    ceilingHolds(freed.limits, os);
}

/// Nobody gets in before the kill: while a clone of a full pool is no longer
/// counted and not yet killed, whoever wishes for a clone still waits.
pub proof fn slotIsHeldUntilTheKill<H>(
    full: Pool<H>,
    ending: Pool<H>,
    after: Pool<H>,
    os: OsProcessLimits,
    attempt: CloneAttempt,
)
    requires
        full.limits.freeSlots(os) == 0,
        uncounted(full, ending),
        attempted(ending, os, after, attempt),
    ensures
        attempt is Full,
{
}

/// A clone that was made and ended leaves the pool as it was: the same clones
/// are counted, and the same slots are held. In between it is uncounted first,
/// and its slot is given back last.
pub proof fn cloneLeavesNoTrace<H, Tx, Rx>(
    before: Pool<H>,
    granted: Pool<H>,
    running: Pool<H>,
    ending: Pool<H>,
    after: Pool<H>,
    os: OsProcessLimits,
    attempt: CloneAttempt,
    spawned: Result<Bootstrap<Tx, Rx>, IoError>,
    clone: ClonedZygote<Tx, Rx>,
)
    requires
        before.wf(),
        granted.wf(),
        attempted(before, os, granted, attempt),
        attempt is Granted,
        completed(granted, spawned, running, Ok::<ClonedZygote<Tx, Rx>, IoError>(clone)),
        uncounted(running, ending),
        released(ending, after),
    ensures
        clone.pid != 0,
        running.counters.activeClones == before.counters.activeClones + 1,
        ending.counters == before.counters,
        ending.limits.heldSlots() == before.limits.heldSlots() + 1,
        after.counters == before.counters,
        after.starting == before.starting,
        after.ending == before.ending,
        after.limits.heldSlots() == before.limits.heldSlots(),
        after.limits.effective(os) == before.limits.effective(os),
        after.zygote == before.zygote,
{
    slotsAreCountable(granted);
}

/// A clone that could not be made leaves the pool as it was: its slot is free
/// again, and it was never counted.
pub proof fn failedCloneLeavesNoTrace<H, Tx, Rx>(
    before: Pool<H>,
    granted: Pool<H>,
    after: Pool<H>,
    os: OsProcessLimits,
    attempt: CloneAttempt,
    spawned: Result<Bootstrap<Tx, Rx>, IoError>,
    error: IoError,
)
    requires
        attempted(before, os, granted, attempt),
        attempt is Granted,
        completed(granted, spawned, after, Err::<ClonedZygote<Tx, Rx>, IoError>(error)),
    ensures
        after.counters == before.counters,
        after.starting == before.starting,
        after.ending == before.ending,
        after.limits.heldSlots() == before.limits.heldSlots(),
        after.limits.effective(os) == before.limits.effective(os),
        after.zygote == before.zygote,
{
}

/// Configuring the limits of a pool keeps it in order.
pub proof fn configuringKeepsThePool<H>(
    before: Pool<H>,
    limits: Limits,
    after: Pool<H>,
    result: Result<(), IoError>,
)
    requires
        before.wf(),
        after == (Pool { limits: after.limits, ..before }),
        after.limits.wf(),
        configures(before.limits, limits, after.limits, result),
    ensures
        after.wf(),
{
}

/// Reading the limits of a pool, as [`crate::limits::current`],
/// [`crate::stats::configured`] and [`crate::stats::availableSlots`] do, keeps it
/// in order, and changes neither its clones nor their slots.
pub proof fn readingKeepsThePool<H>(before: Pool<H>, os: OsProcessLimits, after: Pool<H>)
    requires
        before.wf(),
        after == (Pool { limits: after.limits, ..before }),
        after.limits.wf(),
        before.limits.remembers(os, after.limits),
    ensures
        after.wf(),
        after.limits.heldSlots() == before.limits.heldSlots(),
        after.limits.freeSlots(os) == before.limits.freeSlots(os),
        after.limits.effective(os) == before.limits.effective(os),
{
}

/// The supervisor does not give up: once there was a Main Zygote, it goes on
/// watching or replacing it, and one that is being watched after it was replaced
/// is counted as alive.
pub proof fn supervisorDoesNotGiveUp<H>(
    before: Pool<H>,
    event: SupervisorEvent<H>,
    after: Pool<H>,
    step: SupervisorStep,
)
    requires
        before.zygote !is Missing,
        supervised(before, event, after, step),
    ensures
        after.zygote !is Missing,
        step !is Stop,
        event matches SupervisorEvent::Respawned(Ok((process, _))) ==> step
            == SupervisorStep::Watch(process) && after.counters.zygotesAlive == 1,
{
}

/// What happens to the Main Zygote does not happen to the clones: the supervisor
/// changes neither their number nor their slots.
pub proof fn supervisorSparesTheClones<H>(
    before: Pool<H>,
    event: SupervisorEvent<H>,
    after: Pool<H>,
    step: SupervisorStep,
)
    requires
        supervised(before, event, after, step),
    ensures
        after.counters.activeClones == before.counters.activeClones,
        after.starting == before.starting,
        after.ending == before.ending,
        after.limits == before.limits,
{
}

/// A clone is granted exactly where a slot is free and a Main Zygote was started;
/// without a free slot the answer is to wait, and without a Main Zygote it is an error
/// that says so. Only a clone that is granted takes a slot, and exactly one.
pub proof fn clonesAreGrantedWhereASlotIsFree<H>(
    before: Pool<H>,
    os: OsProcessLimits,
    after: Pool<H>,
    attempt: CloneAttempt,
)
    requires
        attempted(before, os, after, attempt),
    ensures
        attempt is Full == (before.limits.freeSlots(os) == 0),
        attempt is Granted == (before.limits.freeSlots(os) > 0 && before.zygote !is Missing),
        attempt is Refused == (before.limits.freeSlots(os) > 0 && before.zygote is Missing),
        attempt matches CloneAttempt::Refused(error) ==> error.kind == ErrorKind::NotFound
            && error.message@ == "Zygote not initialized"@,
        attempt is Granted ==> after.limits.heldSlots() == before.limits.heldSlots() + 1
            && after.starting == before.starting + 1,
        attempt !is Granted ==> after.limits.heldSlots() == before.limits.heldSlots()
            && after.starting == before.starting,
        after.ending == before.ending,
        after.counters == before.counters,
        after.zygote == before.zygote,
        after.limits.effective(os) == before.limits.effective(os),
{
}

/// A clone is the process that reported, with the ends of the channels that it handed
/// over. A report without a process, and no report, are errors; the latter keeps the
/// reason that was given.
pub proof fn clonesAreWhatReported<H, Tx, Rx>(
    before: Pool<H>,
    spawned: Result<Bootstrap<Tx, Rx>, IoError>,
    after: Pool<H>,
    result: Result<ClonedZygote<Tx, Rx>, IoError>,
)
    requires
        completed(before, spawned, after, result),
    ensures
        result is Ok == (spawned matches Ok(bootstrap) && bootstrap.pid != 0),
        result matches Ok(clone) ==> (spawned matches Ok(bootstrap) && clone.pid == bootstrap.pid
            && clone.data.requestTx == bootstrap.requestTx && clone.data.responseRx
            == bootstrap.responseRx),
        spawned matches Err(cause) ==> (result matches Err(error) && error.kind
            == ErrorKind::BrokenPipe && error.message@ == "SpawnClone failed: "@ + cause.message@),
        (spawned matches Ok(bootstrap) && bootstrap.pid == 0) ==> (result matches Err(error)
            && error.kind == ErrorKind::Other && error.message@
            == "Main zygote failed to create a clone (pid=0)"@),
        result is Ok ==> after.limits == before.limits,
        result is Err ==> after.limits.heldSlots() == before.limits.heldSlots() - 1
            && after.counters == before.counters,
        after.counters.zygotesAlive == before.counters.zygotesAlive,
        after.starting == before.starting - 1,
        after.ending == before.ending,
        after.zygote == before.zygote,
{
}

/// A slot that is given back is free for others: one fewer is held, and the limits
/// stay as they are.
pub proof fn slotsGivenBackAreFree(
    before: LimitsState,
    after: LimitsState,
    os: OsProcessLimits,
    later: OsProcessLimits,
)
    requires
        givesBack(before, 1, after),
    ensures
        after.heldSlots() == before.heldSlots() - 1,
        after.effective(later) == before.effective(os),
        after.defaults == before.defaults,
{
}

/// The end of a clone concerns the clone alone. It is uncounted once, and its slot is
/// given back once: the Main Zygote and the clones that are starting are not touched.
pub proof fn endingConcernsOneClone<H>(running: Pool<H>, ending: Pool<H>, ended: Pool<H>)
    requires
        running.counters.activeClones > 0,
        uncounted(running, ending),
        released(ending, ended),
    ensures
        ending.counters.activeClones == running.counters.activeClones - 1,
        ending.counters.zygotesAlive == running.counters.zygotesAlive,
        ending.limits == running.limits,
        ending.ending == running.ending + 1,
        ended.counters == ending.counters,
        ended.ending == running.ending,
        ended.limits.heldSlots() == running.limits.heldSlots() - 1,
        ended.starting == running.starting,
        ended.zygote == running.zygote,
{
}

/// A scope that a thread is not in is not found, and one that is found has the number
/// that was looked for.
pub proof fn onlyOwnScopesAreFound<Tx, Rx>(entries: Seq<ScopeEntry<Tx, Rx>>, serial: u64)
    ensures
        placeOf(entries, serial) matches Some(place) ==> 0 <= place < entries.len()
            && entries[place].serial == serial,
        placeOf(entries, serial) is None ==> forall|i: int|
            0 <= i < entries.len() ==> (#[trigger] entries[i]).serial != serial,
        serials(entries).len() == entries.len(),
        forall|i: int| 0 <= i < entries.len() ==> #[trigger] serials(entries)[i] == entries[i].serial,
        serials(entries).contains(serial) == (placeOf(entries, serial) is Some),
    decreases entries.len(),
{
    if entries.len() > 0 {
        let below = entries.drop_last();
        onlyOwnScopesAreFound(below, serial);
        if entries.last().serial != serial && placeOf(entries, serial) is None {
            assert forall|i: int| 0 <= i < entries.len() implies (
            #[trigger] entries[i]).serial != serial by {
                if i < below.len() {
                    assert(below[i] == entries[i]);
                }
            }
        }
    }
    if let Some(place) = placeOf(entries, serial) {
        assert(serials(entries)[place] == serial);
    }
    if serials(entries).contains(serial) {
        let i = serials(entries).index_of(serial);
        assert(entries[i].serial == serial);
    }
}

/// The Main Zygote reports to the server that its second argument names, and to none
/// where there is no such argument.
pub proof fn zygoteServerIsTheSecondArgument(arguments: Seq<String>)
    ensures
        arguments.len() <= 2 ==> zygoteServer(arguments) is None,
        arguments.len() > 2 ==> zygoteServer(arguments) == Some(arguments[2]@),
{
}

/// A Runtime has one Main Zygote: the first that is spawned is taken, with its process
/// and its handle, and counted. One that could not be spawned is the error that was
/// given, and a second one is an error of its own; neither changes anything.
pub proof fn firstZygoteIsTaken<H>(
    before: Pool<H>,
    spawned: Result<(u32, H), IoError>,
    after: Pool<H>,
    result: Result<(), IoError>,
)
    requires
        initialized(before, spawned, after, result),
    ensures
        result is Ok == (spawned is Ok && before.zygote is Missing),
        result is Err ==> after == before,
        spawned matches Err(error) ==> result == Err::<(), IoError>(error),
        spawned is Ok && before.zygote !is Missing ==> (result matches Err(error) && error.kind
            == ErrorKind::AlreadyExists && error.message@ == "Zygote already initialized"@),
        result is Ok ==> (spawned matches Ok((process, inner)) && after.zygote
            matches ZygoteSlot::Alive(handle) && handle.process == process && handle.inner == inner),
        result is Ok ==> after.counters.zygotesAlive == 1 && after.counters.activeClones
            == before.counters.activeClones && after.limits == before.limits && after.starting
            == before.starting && after.ending == before.ending,
{
}

/// A Main Zygote has the process of its handle for as long as there is a handle,
/// running or gone.
pub proof fn zygotesHaveTheirProcess<H>(handle: ZygoteHandle<H>)
    ensures
        ZygoteSlot::Alive(handle).process() == Some(handle.process),
        ZygoteSlot::Retired(handle).process() == Some(handle.process),
        ZygoteSlot::<H>::Missing.process() is None,
        watches(Some(handle.process)) == SupervisorStep::Watch(handle.process),
        watches(None) == SupervisorStep::Stop,
{
}

/// The supervisor watches the Main Zygote that there is. When that one is gone it is
/// no longer counted and is replaced; the end of any other process changes nothing.
/// A replacement is taken with its process and its handle, counted, and watched in
/// turn; where there is none, the supervisor rests for a fifth of a second and begins
/// again.
pub proof fn supervisorReplacesWhatIsGone<H>(
    before: Pool<H>,
    event: SupervisorEvent<H>,
    after: Pool<H>,
    step: SupervisorStep,
)
    requires
        supervised(before, event, after, step),
    ensures
        event is Started ==> after == before,
        event is Started && before.zygote is Missing ==> step is Stop,
        event is Started ==> (before.zygote matches ZygoteSlot::Alive(handle) ==> step
            == SupervisorStep::Watch(handle.process)),
        event is Started ==> (before.zygote matches ZygoteSlot::Retired(handle) ==> step
            == SupervisorStep::Watch(handle.process)),
        event matches SupervisorEvent::Died(pid) ==> {
            let gone = match before.zygote {
                ZygoteSlot::Missing => false,
                ZygoteSlot::Alive(handle) => handle.process == pid,
                ZygoteSlot::Retired(handle) => handle.process == pid,
            };
            &&& gone ==> step is Respawn && after.zygote is Retired && after.zygote.process()
                == Some(pid) && after.counters.zygotesAlive == 0
            &&& !gone ==> after == before && step !is Respawn && step !is Rest
            &&& !gone && before.zygote is Missing ==> step is Stop
            &&& !gone && before.zygote !is Missing ==> (step matches SupervisorStep::Watch(other)
                && other != pid && before.zygote.process() == Some(other))
        },
        event matches SupervisorEvent::Respawned(Ok((process, inner))) ==> (after.zygote
            matches ZygoteSlot::Alive(handle) && handle.process == process && handle.inner == inner)
            && step == SupervisorStep::Watch(process) && after.counters.zygotesAlive == 1,
        event matches SupervisorEvent::Respawned(Err(_)) ==> after == before && step
            == SupervisorStep::Rest(200),
{
}

/// A request to a clone is awaited where it was sent, and its answer is the one that
/// was received; a failure on either way keeps its reason.
pub proof fn clonesAnswerWhatTheyAreAsked<Tx, Rx>(
    clone: ClonedZygote<Tx, Rx>,
    awaited: AwaitedAnswer,
    response: FFIResponse,
    cause: String,
    sent: Result<AwaitedAnswer, String>,
    notSent: Result<AwaitedAnswer, String>,
    answered: Result<FFIResponse, String>,
    notAnswered: Result<FFIResponse, String>,
)
    requires
        call_ensures(ClonedZygote::<Tx, Rx>::call, (&clone, Ok::<(), String>(())), sent),
        call_ensures(ClonedZygote::<Tx, Rx>::call, (&clone, Err::<(), String>(cause)), notSent),
        call_ensures(
            AwaitedAnswer::complete::<Tx, Rx>,
            (awaited, &clone, Ok::<FFIResponse, String>(response)),
            answered,
        ),
        call_ensures(
            AwaitedAnswer::complete::<Tx, Rx>,
            (awaited, &clone, Err::<FFIResponse, String>(cause)),
            notAnswered,
        ),
    ensures
        sent is Ok,
        notSent matches Err(message) && message@
            == "Zygote clone IPC failed while sending request: "@ + cause@,
        answered matches Ok(answer) && answer == response,
        notAnswered matches Err(message) && message@
            == "Zygote clone IPC failed while reading response: "@ + cause@,
{
}

/// Entering a scope and leaving it again hands out the very clone that served it, and
/// the thread is where it was: served by the clone that served it before, or by none.
/// Nothing else about the thread changes.
pub proof fn scopesAreLeftAsTheyWereEntered<Tx, Rx>(
    stack: &mut ZygoteStack<Tx, Rx>,
    thread: &mut ThreadState,
    clone: ClonedZygote<Tx, Rx>,
    guard: ZygoteGuard,
    laterStack: &mut ZygoteStack<Tx, Rx>,
    laterThread: &mut ThreadState,
    handedOut: Option<ClonedZygote<Tx, Rx>>,
)
    requires
        old(stack).agrees(*old(thread)),
        call_ensures(ZygoteGuard::enter::<Tx, Rx>, (stack, thread, clone), guard),
        *old(laterStack) == *final(stack),
        *old(laterThread) == *final(thread),
        call_ensures(ZygoteGuard::drop::<Tx, Rx>, (guard, laterStack, laterThread), handedOut),
    ensures
        final(thread).cloneActive,
        final(stack)@.len() == old(stack)@.len() + 1,
        final(stack)@.last().clone == clone,
        final(thread).lastErrno == old(thread).lastErrno,
        final(thread).lastOsError == old(thread).lastOsError,
        final(thread).scopeReadErrno == old(thread).scopeReadErrno,
        final(thread).scopeTrace == old(thread).scopeTrace,
        handedOut == Some(clone),
        final(laterStack)@ == old(stack)@,
        *final(laterThread) == *old(thread),
{
    let entry = ScopeEntry { serial: guard.number(), clone };
    scopesNest(old(stack)@, entry);
}

/// The clone that serves a thread is that of its innermost scope.
pub proof fn innermostScopeServes<Tx, Rx>(
    stack: ZygoteStack<Tx, Rx>,
    clone: Option<&ClonedZygote<Tx, Rx>>,
)
    requires
        call_ensures(ZygoteStack::<Tx, Rx>::active, (&stack,), clone),
    ensures
        stack@.len() == 0 ==> clone is None,
        stack@.len() > 0 ==> (clone matches Some(serving) && *serving == stack@[stack@.len() - 1].clone),
{
}

} // verus!
