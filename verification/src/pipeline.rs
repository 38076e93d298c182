//! The cache of compiled pipelines. A pipeline is compiled once for each pair
//! of shader and bind-group layout; every later frame gets the handle that the
//! first request was given.

use vstd::prelude::*;

verus! {

/// What a pipeline is compiled from: a shader and a bind-group layout, each
/// named by the number under which the application keeps it.
#[derive(Clone, Copy, Debug, PartialEq, Eq, Structural)]
pub struct PipelineKey {
    pub shader: u64,
    pub layout: u64,
}

/// Names one pipeline of a cache: the place of its entry.
#[derive(Clone, Copy, Debug, PartialEq, Eq, Structural)]
pub struct PipelineHandle {
    pub index: usize,
}

/// How far the compilation of a pipeline has come.
#[derive(Clone, Copy, Debug, PartialEq, Eq, Structural)]
pub enum PipelineStatus {
    /// Queued or compiling.
    InFlight,
    /// Compiled; the pass can run.
    Ready,
    /// Compilation failed; the pass stays off for the rest of the session.
    Failed,
}

/// What the device answers when asked about a queued compilation.
#[derive(Clone, Copy, Debug, PartialEq, Eq, Structural)]
pub enum CompileReport {
    Pending,
    Compiled,
    Error,
}

/// What a request for a pipeline returns.
#[derive(Clone, Copy, Debug, PartialEq, Eq, Structural)]
pub struct Acquired {
    pub handle: PipelineHandle,
    pub status: PipelineStatus,
    /// Whether this request made the entry, so that the compilation is to be
    /// started now.
    pub queued: bool,
}

/// One entry of a cache.
#[derive(Clone, Copy, Debug, PartialEq, Eq, Structural)]
pub struct PipelineEntry {
    pub key: PipelineKey,
    pub status: PipelineStatus,
}

/// The status that follows a report.
pub open spec fn status_after(status: PipelineStatus, report: CompileReport) -> PipelineStatus {
    match (status, report) {
        (PipelineStatus::InFlight, CompileReport::Compiled) => PipelineStatus::Ready,
        (PipelineStatus::InFlight, CompileReport::Error) => PipelineStatus::Failed,
        _ => status,
    }
}

/// A cache as plain values: its entries in the order in which they were made.
pub struct CacheModel {
    pub entries: Seq<PipelineEntry>,
}

impl CacheModel {
    pub open spec fn has_key(self, key: PipelineKey) -> bool {
        exists|i: int| 0 <= i < self.entries.len() && (#[trigger] self.entries[i]).key == key
    }

    /// The place of the entry with this key.
    pub open spec fn slot_of(self, key: PipelineKey) -> int {
        choose|i: int| 0 <= i < self.entries.len() && (#[trigger] self.entries[i]).key == key
    }

    /// No key has two entries.
    pub open spec fn wf(self) -> bool {
        forall|i: int, j: int|
            0 <= i < j < self.entries.len() ==> (#[trigger] self.entries[i]).key != (
            #[trigger] self.entries[j]).key
    }

    /// The status of the pipeline that a handle names, if it names one.
    pub open spec fn status(self, handle: PipelineHandle) -> Option<PipelineStatus> {
        if handle.index < self.entries.len() {
            Some(self.entries[handle.index as int].status)
        } else {
            None
        }
    }

    /// The cache after a request for `key`: as it was where the key has an
    /// entry, else with a new entry in flight at the end.
    pub open spec fn acquired(self, key: PipelineKey) -> CacheModel {
        if self.has_key(key) {
            self
        } else {
            CacheModel {
                entries: self.entries.push(PipelineEntry { key, status: PipelineStatus::InFlight }),
            }
        }
    }

    /// What a request for `key` returns.
    pub open spec fn acquisition(self, key: PipelineKey) -> Acquired {
        if self.has_key(key) {
            Acquired {
                handle: PipelineHandle { index: self.slot_of(key) as usize },
                status: self.entries[self.slot_of(key)].status,
                queued: false,
            }
        } else {
            Acquired {
                handle: PipelineHandle { index: self.entries.len() as usize },
                status: PipelineStatus::InFlight,
                queued: true,
            }
        }
    }

    /// The cache after the device's report on the pipeline that `handle`
    /// names. A handle that names none changes nothing.
    pub open spec fn reported(self, handle: PipelineHandle, report: CompileReport) -> CacheModel {
        if handle.index < self.entries.len() {
            let entry = self.entries[handle.index as int];
            CacheModel {
                entries: self.entries.update(
                    handle.index as int,
                    PipelineEntry { key: entry.key, status: status_after(entry.status, report) },
                ),
            }
        } else {
            self
        }
    }

    /// Whether a report is the one that turns the pipeline's compilation into
    /// a failure.
    pub open spec fn fails_now(self, handle: PipelineHandle, report: CompileReport) -> bool {
        self.status(handle) == Some(PipelineStatus::InFlight) && report == CompileReport::Error
    }
}

/// One step in the life of a cache.
pub enum CacheOp {
    Acquire(PipelineKey),
    Report(PipelineHandle, CompileReport),
}

impl CacheModel {
    pub open spec fn applied(self, op: CacheOp) -> CacheModel {
        match op {
            CacheOp::Acquire(key) => self.acquired(key),
            CacheOp::Report(handle, report) => self.reported(handle, report),
        }
    }

    /// The cache after a history of steps, first to last.
    pub open spec fn after(self, history: Seq<CacheOp>) -> CacheModel
        decreases history.len(),
    {
        if history.len() == 0 {
            self
        } else {
            self.applied(history.first()).after(history.drop_first())
        }
    }
}

/// The cache of compiled pipelines. No key ever has two entries in it.
pub struct PipelineCache {
    entries: Vec<PipelineEntry>,
}

impl PipelineCache {
    pub closed spec fn view(&self) -> CacheModel {
        CacheModel { entries: self.entries@ }
    }

    #[verifier::type_invariant]
    spec fn inv(self) -> bool {
        (CacheModel { entries: self.entries@ }).wf()
    }

    /// An empty cache.
    pub fn new() -> (cache: PipelineCache)
        ensures
            cache@.entries.len() == 0,
            cache@.wf(),
    {
        PipelineCache { entries: Vec::new() }
    }

    /// The handle of the pipeline for `key`. The first request for a key makes
    /// its entry, in flight, and asks for the compilation to be started; every
    /// later request returns the same handle and leaves the cache as it is.
    pub fn get_or_create(&mut self, key: PipelineKey) -> (acquired: Acquired)
        ensures
            old(self)@.wf(),
            final(self)@.wf(),
            final(self)@ == old(self)@.acquired(key),
            acquired == old(self)@.acquisition(key),
            final(self)@.status(acquired.handle) == Some(acquired.status),
            final(self)@.entries[acquired.handle.index as int].key == key,
    {
        proof {
            use_type_invariant(&*self);
        }
        let mut i: usize = 0;
        while i < self.entries.len()
            invariant
                i <= self.entries@.len(),
                *self == *old(self),
                self@.wf(),
                forall|j: int| 0 <= j < i ==> (#[trigger] self.entries@[j]).key != key,
            decreases self.entries@.len() - i,
        {
            let entry = self.entries[i];
            if entry.key.shader == key.shader && entry.key.layout == key.layout {
                proof {
                    lemma_slot_is_unique(self@, key, i as int);
                }
                return Acquired { handle: PipelineHandle { index: i }, status: entry.status, queued: false };
            }
            i = i + 1;
        }
        let index = self.entries.len();
        let fresh = PipelineEntry { key, status: PipelineStatus::InFlight };
        proof {
            assert(!old(self)@.has_key(key));
            let grown = old(self)@.entries.push(fresh);
            assert forall|a: int, b: int| 0 <= a < b < grown.len() implies (#[trigger] grown[a]).key != (
            #[trigger] grown[b]).key by {
                if b < old(self)@.entries.len() {
                    assert(old(self)@.entries[a].key != old(self)@.entries[b].key);
                } else {
                    assert(old(self)@.entries[a].key != key);
                }
            }
        }
        let mut entries: Vec<PipelineEntry> = Vec::new();
        std::mem::swap(&mut self.entries, &mut entries);
        entries.push(fresh);
        std::mem::swap(&mut self.entries, &mut entries);
        Acquired { handle: PipelineHandle { index }, status: PipelineStatus::InFlight, queued: true }
    }

    /// Takes the device's report on a pipeline. A pipeline in flight becomes
    /// ready or failed; one that is ready or failed stays so. Returns whether
    /// this report made the pipeline fail, which happens at most once for each
    /// pipeline: the moment to log the failure.
    pub fn report(&mut self, handle: PipelineHandle, report: CompileReport) -> (failed_now: bool)
        ensures
            old(self)@.wf(),
            final(self)@.wf(),
            final(self)@ == old(self)@.reported(handle, report),
            failed_now == old(self)@.fails_now(handle, report),
    {
        proof {
            use_type_invariant(&*self);
        }
        if handle.index >= self.entries.len() {
            return false;
        }
        let entry = self.entries[handle.index];
        let (status, failed_now) = match (entry.status, report) {
            (PipelineStatus::InFlight, CompileReport::Compiled) => (PipelineStatus::Ready, false),
            (PipelineStatus::InFlight, CompileReport::Error) => (PipelineStatus::Failed, true),
            _ => (entry.status, false),
        };
        let updated = PipelineEntry { key: entry.key, status };
        proof {
            let after = old(self)@.entries.update(handle.index as int, updated);
            assert forall|a: int, b: int| 0 <= a < b < after.len() implies (#[trigger] after[a]).key != (
            #[trigger] after[b]).key by {
                assert(old(self)@.entries[a].key != old(self)@.entries[b].key);
            }
        }
        let mut entries: Vec<PipelineEntry> = Vec::new();
        std::mem::swap(&mut self.entries, &mut entries);
        entries.set(handle.index, updated);
        std::mem::swap(&mut self.entries, &mut entries);
        failed_now
    }

    /// The status of the pipeline that a handle names, if it names one.
    pub fn status(&self, handle: PipelineHandle) -> (status: Option<PipelineStatus>)
        ensures
            status == self@.status(handle),
            self@.wf(),
    {
        proof {
            use_type_invariant(self);
        }
        if handle.index < self.entries.len() {
            Some(self.entries[handle.index].status)
        } else {
            None
        }
    }

    /// Number of pipelines that the cache holds.
    pub fn len(&self) -> (len: usize)
        ensures
            len == self@.entries.len(),
    {
        self.entries.len()
    }
}

impl CacheModel {
    /// Whether `later` holds every entry of this cache at its place, under its
    /// key, with a status that is the same unless the entry was in flight.
    pub open spec fn kept_by(self, later: CacheModel) -> bool {
        &&& self.entries.len() <= later.entries.len()
        &&& forall|i: int|
            0 <= i < self.entries.len() ==> {
                &&& (#[trigger] later.entries[i]).key == self.entries[i].key
                &&& (self.entries[i].status != PipelineStatus::InFlight ==> later.entries[i].status
                    == self.entries[i].status)
            }
    }
}

/// A step keeps a cache well formed and keeps every entry: none is removed,
/// moved or given another key, and none that is ready or failed changes.
pub proof fn step_keeps_entries(cache: CacheModel, op: CacheOp)
    requires
        cache.wf(),
    ensures
        cache.applied(op).wf(),
        cache.kept_by(cache.applied(op)),
{
    let later = cache.applied(op);
    assert forall|a: int, b: int| 0 <= a < b < later.entries.len() implies (
    #[trigger] later.entries[a]).key != (#[trigger] later.entries[b]).key by {
        if b < cache.entries.len() {
            assert(cache.entries[a].key != cache.entries[b].key);
        } else {
            assert(cache.entries[a].key == later.entries[a].key);
        }
    }
}

/// A history of steps keeps a cache well formed and keeps every entry.
pub proof fn history_keeps_entries(cache: CacheModel, history: Seq<CacheOp>)
    requires
        cache.wf(),
    ensures
        cache.after(history).wf(),
        cache.kept_by(cache.after(history)),
    decreases history.len(),
{
    if history.len() > 0 {
        let next = cache.applied(history.first());
        step_keeps_entries(cache, history.first());
        history_keeps_entries(next, history.drop_first());
        let last = cache.after(history);
        assert forall|i: int| 0 <= i < cache.entries.len() implies {
            &&& (#[trigger] last.entries[i]).key == cache.entries[i].key
            &&& (cache.entries[i].status != PipelineStatus::InFlight ==> last.entries[i].status
                == cache.entries[i].status)
        } by {
            assert(next.entries[i].key == cache.entries[i].key);
        }
    }
}

/// A second request for a key returns the handle of the first and changes
/// nothing: each key has one pipeline, and asking again compiles nothing.
pub proof fn acquire_is_stable(cache: CacheModel, key: PipelineKey)
    requires
        cache.wf(),
    ensures
        cache.acquired(key).has_key(key),
        cache.acquired(key).acquired(key) == cache.acquired(key),
        cache.acquired(key).acquisition(key).handle == cache.acquisition(key).handle,
        !cache.acquired(key).acquisition(key).queued,
{
    let first = cache.acquired(key);
    step_keeps_entries(cache, CacheOp::Acquire(key));
    if !cache.has_key(key) {
        assert(first.entries[cache.entries.len() as int].key == key);
        lemma_slot_is_unique(first, key, cache.entries.len() as int);
    }
}

/// In a well-formed cache the place of a key is the only place that holds it.
pub proof fn lemma_slot_is_unique(cache: CacheModel, key: PipelineKey, slot: int)
    requires
        cache.wf(),
        0 <= slot < cache.entries.len(),
        cache.entries[slot].key == key,
    ensures
        cache.has_key(key),
        cache.slot_of(key) == slot,
{
    let found = cache.slot_of(key);
    if found < slot {
        assert(cache.entries[found].key != cache.entries[slot].key);
    } else if slot < found {
        assert(cache.entries[slot].key != cache.entries[found].key);
    }
}

/// Once a key has its pipeline, every request for it, after any history of
/// requests and reports, returns the same handle and queues nothing; and a
/// pipeline that was ready stays ready, one that had failed stays failed.
pub proof fn handle_survives_history(cache: CacheModel, key: PipelineKey, history: Seq<CacheOp>)
    requires
        cache.wf(),
        cache.has_key(key),
    ensures
        cache.after(history).has_key(key),
        cache.after(history).acquisition(key).handle == cache.acquisition(key).handle,
        !cache.after(history).acquisition(key).queued,
        cache.acquisition(key).status != PipelineStatus::InFlight ==> cache.after(
            history,
        ).acquisition(key).status == cache.acquisition(key).status,
{
    let slot = cache.slot_of(key);
    let later = cache.after(history);
    history_keeps_entries(cache, history);
    assert(later.entries[slot].key == key);
    lemma_slot_is_unique(later, key, slot);
}

/// A pipeline that is ready or has failed is never compiled again and never
/// reported as failing again: after any history its status is the same, and no
/// report on it is a failure to log. So a failure is logged once.
pub proof fn settled_pipeline_stays_settled(
    cache: CacheModel,
    handle: PipelineHandle,
    history: Seq<CacheOp>,
    report: CompileReport,
)
    requires
        cache.wf(),
        cache.status(handle) == Some(PipelineStatus::Ready) || cache.status(handle) == Some(
            PipelineStatus::Failed,
        ),
    ensures
        cache.after(history).status(handle) == cache.status(handle),
        !cache.after(history).fails_now(handle, report),
        cache.after(history).reported(handle, report).status(handle) == cache.status(handle),
{
    history_keeps_entries(cache, history);
    let later = cache.after(history);
    assert(later.entries[handle.index as int].key == cache.entries[handle.index as int].key);
}

/// The report that makes a pipeline fail leaves it failed, so that no later
/// report on it is a failure to log.
pub proof fn failure_is_final(cache: CacheModel, handle: PipelineHandle, report: CompileReport)
    requires
        cache.fails_now(handle, report),
    ensures
        cache.reported(handle, report).status(handle) == Some(PipelineStatus::Failed),
{
}

} // verus!
