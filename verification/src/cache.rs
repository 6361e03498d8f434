//! The pipeline cache: descriptions queued for compilation, each reached
//! through a handle that resolves once the device has compiled it.

use vstd::prelude::*;
use crate::pipeline::{PipelineDescriptor, PipelineModel};

verus! {

/// Handle of a pipeline in the cache. A handle is given out by
/// [`PipelineCache::queue`] and says nothing but which pipeline it stands for.
#[derive(Clone, Copy, Debug, PartialEq, Eq, Structural)]
pub struct PipelineId {
    index: usize,
}

impl PipelineId {
    /// The number of pipelines that were queued before the one of this
    /// handle.
    pub closed spec fn spec_index(self) -> usize {
        self.index
    }

    /// The number of pipelines that were queued before the one of this
    /// handle.
    #[verifier::when_used_as_spec(spec_index)]
    pub fn index(self) -> (index: usize)
        ensures
            index == self.spec_index(),
    {
        self.index
    }
}

/// One pipeline of the cache.
#[derive(Clone, Debug, PartialEq, Eq)]
pub struct CacheEntry {
    pub descriptor: PipelineDescriptor,
    /// Whether the device has finished compiling the pipeline.
    pub ready: bool,
}

/// Mathematical value of a [`CacheEntry`].
pub struct EntryModel {
    pub descriptor: PipelineModel,
    pub ready: bool,
}

impl View for CacheEntry {
    type V = EntryModel;

    open spec fn view(&self) -> EntryModel {
        EntryModel { descriptor: self.descriptor@, ready: self.ready }
    }
}

/// The cache after a description was queued: one more entry, not yet ready.
pub open spec fn queued(cache: Seq<EntryModel>, descriptor: PipelineModel) -> Seq<EntryModel> {
    cache.push(EntryModel { descriptor, ready: false })
}

/// The cache after the device has compiled the pipeline at `index`. A handle
/// that the cache did not give out changes nothing.
pub open spec fn compiled(cache: Seq<EntryModel>, index: int) -> Seq<EntryModel> {
    if 0 <= index < cache.len() {
        cache.update(index, EntryModel { descriptor: cache[index].descriptor, ready: true })
    } else {
        cache
    }
}

/// What a handle resolves to: the pipeline's description once it is compiled,
/// nothing before that and nothing for a handle that the cache did not give
/// out.
pub open spec fn resolved(cache: Seq<EntryModel>, index: int) -> Option<PipelineModel> {
    if 0 <= index < cache.len() && cache[index].ready {
        Some(cache[index].descriptor)
    } else {
        None
    }
}

/// Pipelines by handle, in the order in which they were queued.
pub struct PipelineCache {
    entries: Vec<CacheEntry>,
}

impl View for PipelineCache {
    type V = Seq<EntryModel>;

    closed spec fn view(&self) -> Seq<EntryModel> {
        Seq::new(self.entries@.len(), |i: int| self.entries@[i]@)
    }
}

impl PipelineCache {
    /// A cache without pipelines.
    pub fn new() -> (cache: PipelineCache)
        ensures
            cache@ == Seq::<EntryModel>::empty(),
    {
        let cache = PipelineCache { entries: Vec::new() };
        cache
    }

    /// Number of pipelines that were queued.
    pub fn len(&self) -> (n: usize)
        ensures
            n == self@.len(),
    {
        self.entries.len()
    }

    /// Queues a description for compilation and returns its handle. The
    /// pipelines queued before keep their handles and their state.
    pub fn queue(&mut self, descriptor: PipelineDescriptor) -> (id: PipelineId)
        ensures
            final(self)@ == queued(old(self)@, descriptor@),
            id.index() == old(self)@.len(),
    {
        let index = self.entries.len();
        self.entries.push(CacheEntry { descriptor, ready: false });
        PipelineId { index }
    }

    /// Records that the device has compiled the pipeline of the handle.
    /// Returns whether the cache holds such a pipeline.
    pub fn mark_compiled(&mut self, id: PipelineId) -> (known: bool)
        ensures
            final(self)@ == compiled(old(self)@, id.index() as int),
            known == (id.index() < old(self)@.len()),
    {
        if id.index < self.entries.len() {
            self.entries[id.index].ready = true;
            true
        } else {
            false
        }
    }

    /// The description of the pipeline of the handle, once it is compiled.
    /// `None` means that the pipeline is not ready yet, or that the cache
    /// never gave the handle out.
    pub fn get(&self, id: PipelineId) -> (pipeline: Option<&PipelineDescriptor>)
        ensures
            match pipeline {
                Some(d) => resolved(self@, id.index() as int) == Some(d@),
                None => resolved(self@, id.index() as int) is None,
            },
    {
        if id.index < self.entries.len() && self.entries[id.index].ready {
            Some(&self.entries[id.index].descriptor)
        } else {
            None
        }
    }
}

/// A handle resolves only after its pipeline was compiled: right after
/// queueing it resolves to nothing, and after compilation to the description
/// that was queued.
pub proof fn lemma_resolves_after_compilation(cache: Seq<EntryModel>, descriptor: PipelineModel)
    ensures
        resolved(queued(cache, descriptor), cache.len() as int) is None,
        resolved(compiled(queued(cache, descriptor), cache.len() as int), cache.len() as int)
            == Some(descriptor),
{
}

/// Queueing and compiling leave the other handles as they were.
pub proof fn lemma_other_handles_unchanged(
    cache: Seq<EntryModel>,
    descriptor: PipelineModel,
    index: int,
    other: int,
)
    requires
        0 <= other < cache.len(),
        other != index,
    ensures
        resolved(queued(cache, descriptor), other) == resolved(cache, other),
        resolved(compiled(cache, index), other) == resolved(cache, other),
{
}

/// Pipeline creation is idempotent: a description queued twice gives two
/// handles, and once both are compiled they resolve to functionally
/// equivalent pipelines.
pub proof fn lemma_queue_twice_equivalent(cache: Seq<EntryModel>, descriptor: PipelineModel)
    ensures
        ({
            let first = cache.len() as int;
            let second = first + 1;
            let twice = queued(queued(cache, descriptor), descriptor);
            let done = compiled(compiled(twice, first), second);
            &&& resolved(done, first) is Some
            &&& resolved(done, second) is Some
            &&& resolved(done, first)->0.equivalent(resolved(done, second)->0)
            &&& resolved(done, first)->0 == descriptor
        }),
{
}

} // verus!
