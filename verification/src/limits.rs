//! Resource ceilings of one worker instance, and the counters that hold
//! capability calls to them.

use vstd::prelude::*;

verus! {

/// Ceiling on the calls of one capability within one scope (one task, or one
/// worker instance). A ceiling of 0 is no ceiling.
#[derive(Debug, Clone, Copy, PartialEq, Eq, Structural)]
pub struct BindingLimit {
    /// Calls over the scope's whole lifetime (0 = unlimited)
    pub max_total: u32,
    /// Calls in flight at the same time (0 = unlimited)
    pub max_concurrent: u32,
}

impl BindingLimit {
    pub fn new(max_total: u32, max_concurrent: u32) -> (limit: BindingLimit)
        ensures
            limit == (BindingLimit { max_total, max_concurrent }),
    {
        BindingLimit { max_total, max_concurrent }
    }

    /// The limit that limits nothing.
    pub fn unlimited() -> (limit: BindingLimit)
        ensures
            limit == (BindingLimit { max_total: 0, max_concurrent: 0 }),
    {
        BindingLimit { max_total: 0, max_concurrent: 0 }
    }

    /// Whether a scope that has made `total` calls so far has used up its
    /// lifetime allowance.
    pub open spec fn exhausted(self, total: int) -> bool {
        self.max_total != 0 && total >= self.max_total
    }

    /// Whether a scope with `in_flight` unfinished calls has no room for
    /// another one right now.
    pub open spec fn saturated(self, in_flight: int) -> bool {
        self.max_concurrent != 0 && in_flight >= self.max_concurrent
    }
}

/// Runtime resource limits configuration
#[derive(Debug, Clone)]
pub struct RuntimeLimits {
    /// Initial heap size in MB (default: 1MB)
    pub heap_initial_mb: usize,
    /// Maximum heap size in MB (default: 128MB)
    pub heap_max_mb: usize,
    /// Maximum CPU time in milliseconds (default: 50ms, 0 = disabled)
    /// Only actual computation counts, sleeps/I/O don't count.
    pub max_cpu_time_ms: u64,
    /// Maximum wall-clock time in milliseconds (default: 30s, 0 = disabled)
    /// Total elapsed time including I/O. Prevents hanging on slow external APIs.
    pub max_wall_clock_time_ms: u64,
    /// Depth of the bounded queue behind a streamed body (default: 16)
    pub stream_buffer_size: usize,
    /// Ceiling on fetch calls (default: 50 in total, 6 at a time)
    pub fetch_limit: BindingLimit,
    /// Ceiling on key-value calls (default: 1000 in total, 10 at a time)
    pub kv_limit: BindingLimit,
    /// Ceiling on database calls (default: 100 in total, 5 at a time)
    pub database_limit: BindingLimit,
    /// Ceiling on object-storage calls (default: 100 in total, 3 at a time)
    pub storage_limit: BindingLimit,
}

impl Default for RuntimeLimits {
    fn default() -> (limits: RuntimeLimits)
        ensures
            limits.heap_initial_mb == 1,
            limits.heap_max_mb == 128,
            limits.max_cpu_time_ms == 50,
            limits.max_wall_clock_time_ms == 30_000,
            limits.stream_buffer_size == 16,
            limits.fetch_limit == (BindingLimit { max_total: 50, max_concurrent: 6 }),
            limits.kv_limit == (BindingLimit { max_total: 1000, max_concurrent: 10 }),
            limits.database_limit == (BindingLimit { max_total: 100, max_concurrent: 5 }),
            limits.storage_limit == (BindingLimit { max_total: 100, max_concurrent: 3 }),
    {
        RuntimeLimits {
            heap_initial_mb: 1,
            heap_max_mb: 128,
            max_cpu_time_ms: 50,
            max_wall_clock_time_ms: 30_000,
            stream_buffer_size: 16,
            fetch_limit: BindingLimit { max_total: 50, max_concurrent: 6 },
            kv_limit: BindingLimit { max_total: 1000, max_concurrent: 10 },
            database_limit: BindingLimit { max_total: 100, max_concurrent: 5 },
            storage_limit: BindingLimit { max_total: 100, max_concurrent: 3 },
        }
    }
}

/// The kinds of capability whose calls are counted.
#[derive(Debug, Clone, Copy, PartialEq, Eq, Structural)]
pub enum Capability {
    Fetch,
    Kv,
    Database,
    Storage,
}

/// The answer to a call that asks to be let through.
#[derive(Debug, Clone, Copy, PartialEq, Eq, Structural)]
pub enum Admission {
    /// The call may run now; it counts as in flight until it is released.
    Granted,
    /// The scope has used up its lifetime allowance: the call must not run.
    Rejected,
    /// Too many calls are in flight: the call has to wait for one to end.
    Deferred,
}

/// Counts the calls of one capability within one scope.
#[derive(Debug, Clone, Copy)]
pub struct LimitCounter {
    limit: BindingLimit,
    total: u32,
    in_flight: u32,
}

impl LimitCounter {
    /// The ceiling that the counter holds calls to.
    pub closed spec fn limit(self) -> BindingLimit {
        self.limit
    }

    /// The calls granted so far. Under a ceiling it is their exact number;
    /// without one it stops counting at the largest number it can hold.
    pub closed spec fn total(self) -> int {
        self.total as int
    }

    /// The calls granted and not yet released.
    pub closed spec fn in_flight(self) -> int {
        self.in_flight as int
    }

    #[verifier::type_invariant]
    closed spec fn inv(self) -> bool {
        self.wf()
    }

    /// What holds of every counter: the counts never pass their ceilings,
    /// and no more calls are in flight than were granted.
    pub open spec fn wf(self) -> bool {
        &&& 0 <= self.in_flight() <= self.total() <= u32::MAX
        &&& self.limit().max_total != 0 ==> self.total() <= self.limit().max_total
        &&& self.limit().max_concurrent != 0 ==> self.in_flight() <= self.limit().max_concurrent
    }

    /// What a call that asks now is told.
    pub open spec fn verdict(self) -> Admission {
        if self.limit().exhausted(self.total()) {
            Admission::Rejected
        } else if self.limit().saturated(self.in_flight()) || self.in_flight() == u32::MAX {
            Admission::Deferred
        } else {
            Admission::Granted
        }
    }

    /// The lifetime count after one more granted call.
    pub open spec fn total_after_grant(self) -> int {
        if self.total() < u32::MAX {
            self.total() + 1
        } else {
            self.total()
        }
    }

    /// A counter at the start of a scope.
    pub fn new(limit: BindingLimit) -> (counter: LimitCounter)
        ensures
            counter.wf(),
            counter.limit() == limit,
            counter.total() == 0,
            counter.in_flight() == 0,
    {
        LimitCounter { limit, total: 0, in_flight: 0 }
    }

    /// The calls granted so far.
    pub fn calls_total(&self) -> (n: u32)
        ensures
            n == self.total(),
            self.wf(),
    {
        proof {
            use_type_invariant(self);
        }
        self.total
    }

    /// The calls granted and not yet released.
    pub fn calls_in_flight(&self) -> (n: u32)
        ensures
            n == self.in_flight(),
            self.wf(),
    {
        proof {
            use_type_invariant(self);
        }
        self.in_flight
    }

    /// Asks to let one call through. A scope that has used up its lifetime
    /// allowance is refused for good; a scope with too many calls in flight
    /// is told to wait; otherwise the call is counted and may run. Only a
    /// granted call changes the counts.
    pub fn try_acquire(&mut self) -> (admission: Admission)
        ensures
            old(self).wf(),
            final(self).wf(),
            admission == old(self).verdict(),
            final(self).limit() == old(self).limit(),
            admission == Admission::Granted ==> final(self).in_flight() == old(self).in_flight() + 1
                && final(self).total() == old(self).total_after_grant(),
            admission != Admission::Granted ==> *final(self) == *old(self),
    {
        proof {
            use_type_invariant(&*self);
        }
        if self.limit.max_total != 0 && self.total >= self.limit.max_total {
            Admission::Rejected
        } else if (self.limit.max_concurrent != 0 && self.in_flight >= self.limit.max_concurrent)
            || self.in_flight == u32::MAX {
            Admission::Deferred
        } else {
            if self.total < u32::MAX {
                self.total = self.total + 1;
            }
            self.in_flight = self.in_flight + 1;
            Admission::Granted
        }
    }

    /// Marks one granted call as ended. The lifetime count stays.
    pub fn release(&mut self)
        requires
            old(self).in_flight() > 0,
        ensures
            final(self).wf(),
            final(self).limit() == old(self).limit(),
            final(self).total() == old(self).total(),
            final(self).in_flight() == old(self).in_flight() - 1,
    {
        proof {
            use_type_invariant(&*self);
        }
        self.in_flight = self.in_flight - 1;
    }

    /// Under a lifetime ceiling, a scope that has reached it is refused from
    /// then on, however many calls end in between.
    pub proof fn lemma_exhausted_stays(self)
        requires
            self.wf(),
            self.limit().max_total != 0,
            self.total() == self.limit().max_total,
        ensures
            self.verdict() == Admission::Rejected,
    {
    }
}

/// The counters of one scope, one for each kind of capability.
#[derive(Debug, Clone, Copy)]
pub struct LimitTracker {
    fetch: LimitCounter,
    kv: LimitCounter,
    database: LimitCounter,
    storage: LimitCounter,
}

impl RuntimeLimits {
    /// The ceiling on CPU time in milliseconds, or `None` where it is
    /// switched off by a value of 0. It is independent of the wall-clock
    /// ceiling.
    pub fn cpu_time_limit(&self) -> (limit: Option<u64>)
        ensures
            limit == (if self.max_cpu_time_ms == 0 {
                None
            } else {
                Some(self.max_cpu_time_ms)
            }),
    {
        if self.max_cpu_time_ms == 0 {
            None
        } else {
            Some(self.max_cpu_time_ms)
        }
    }

    /// The ceiling on wall-clock time in milliseconds, or `None` where it is
    /// switched off by a value of 0. It is independent of the CPU ceiling.
    pub fn wall_clock_limit(&self) -> (limit: Option<u64>)
        ensures
            limit == (if self.max_wall_clock_time_ms == 0 {
                None
            } else {
                Some(self.max_wall_clock_time_ms)
            }),
    {
        if self.max_wall_clock_time_ms == 0 {
            None
        } else {
            Some(self.max_wall_clock_time_ms)
        }
    }

    /// The ceiling on one kind of capability.
    pub open spec fn limit_of(self, capability: Capability) -> BindingLimit {
        match capability {
            Capability::Fetch => self.fetch_limit,
            Capability::Kv => self.kv_limit,
            Capability::Database => self.database_limit,
            Capability::Storage => self.storage_limit,
        }
    }
}

impl LimitTracker {
    /// The counter of one kind of capability.
    pub closed spec fn counter(self, capability: Capability) -> LimitCounter {
        match capability {
            Capability::Fetch => self.fetch,
            Capability::Kv => self.kv,
            Capability::Database => self.database,
            Capability::Storage => self.storage,
        }
    }

    /// Every counter is within its ceilings.
    pub open spec fn wf(self) -> bool {
        forall|c: Capability| (#[trigger] self.counter(c)).wf()
    }

    /// The counters at the start of a scope, under the given limits.
    pub fn new(limits: &RuntimeLimits) -> (tracker: LimitTracker)
        ensures
            tracker.wf(),
            forall|c: Capability|
                (#[trigger] tracker.counter(c)).limit() == limits.limit_of(c) && tracker.counter(
                    c,
                ).total() == 0 && tracker.counter(c).in_flight() == 0,
    {
        LimitTracker {
            fetch: LimitCounter::new(limits.fetch_limit),
            kv: LimitCounter::new(limits.kv_limit),
            database: LimitCounter::new(limits.database_limit),
            storage: LimitCounter::new(limits.storage_limit),
        }
    }

    /// The counter of one kind of capability.
    pub fn get(&self, capability: Capability) -> (counter: LimitCounter)
        ensures
            counter == self.counter(capability),
            counter.wf(),
    {
        proof {
            use_type_invariant(&self.fetch);
            use_type_invariant(&self.kv);
            use_type_invariant(&self.database);
            use_type_invariant(&self.storage);
        }
        match capability {
            Capability::Fetch => self.fetch,
            Capability::Kv => self.kv,
            Capability::Database => self.database,
            Capability::Storage => self.storage,
        }
    }

    /// Asks to let one call of the given kind through. The other kinds are
    /// left as they are.
    pub fn try_acquire(&mut self, capability: Capability) -> (admission: Admission)
        ensures
            old(self).wf(),
            final(self).wf(),
            admission == old(self).counter(capability).verdict(),
            forall|c: Capability|
                c != capability ==> (#[trigger] final(self).counter(c)) == old(self).counter(c),
            final(self).counter(capability).limit() == old(self).counter(capability).limit(),
            admission == Admission::Granted ==> final(self).counter(capability).in_flight() == old(
                self,
            ).counter(capability).in_flight() + 1 && final(self).counter(capability).total() == old(
                self,
            ).counter(capability).total_after_grant(),
            admission != Admission::Granted ==> *final(self) == *old(self),
    {
        proof {
            use_type_invariant(&self.fetch);
            use_type_invariant(&self.kv);
            use_type_invariant(&self.database);
            use_type_invariant(&self.storage);
            assert forall|c: Capability| (#[trigger] self.counter(c)).wf() by {
                match c {
                    Capability::Fetch => {},
                    Capability::Kv => {},
                    Capability::Database => {},
                    Capability::Storage => {},
                }
            }
        }
        let admission = match capability {
            Capability::Fetch => self.fetch.try_acquire(),
            Capability::Kv => self.kv.try_acquire(),
            Capability::Database => self.database.try_acquire(),
            Capability::Storage => self.storage.try_acquire(),
        };
        proof {
            use_type_invariant(&self.fetch);
            use_type_invariant(&self.kv);
            use_type_invariant(&self.database);
            use_type_invariant(&self.storage);
            assert forall|c: Capability| (#[trigger] self.counter(c)).wf() by {
                match c {
                    Capability::Fetch => {},
                    Capability::Kv => {},
                    Capability::Database => {},
                    Capability::Storage => {},
                }
            }
        }
        admission
    }

    /// Marks one granted call of the given kind as ended.
    pub fn release(&mut self, capability: Capability)
        requires
            old(self).counter(capability).in_flight() > 0,
        ensures
            final(self).wf(),
            forall|c: Capability|
                c != capability ==> (#[trigger] final(self).counter(c)) == old(self).counter(c),
            final(self).counter(capability).limit() == old(self).counter(capability).limit(),
            final(self).counter(capability).total() == old(self).counter(capability).total(),
            final(self).counter(capability).in_flight() == old(self).counter(
                capability,
            ).in_flight() - 1,
    {
        match capability {
            Capability::Fetch => self.fetch.release(),
            Capability::Kv => self.kv.release(),
            Capability::Database => self.database.release(),
            Capability::Storage => self.storage.release(),
        }
        proof {
            use_type_invariant(&self.fetch);
            use_type_invariant(&self.kv);
            use_type_invariant(&self.database);
            use_type_invariant(&self.storage);
            assert forall|c: Capability| (#[trigger] self.counter(c)).wf() by {
                match c {
                    Capability::Fetch => {},
                    Capability::Kv => {},
                    Capability::Database => {},
                    Capability::Storage => {},
                }
            }
        }
    }
}

} // verus!
