//! Requests and caller-preallocated storage of an attention-family actor.

use vstd::prelude::*;

use crate::catalog::ModelIdentity;
use crate::generation::builder::{BlockDescriptor, MAX_BLOCK_CAPACITY};
use crate::generation::event::Error;
use crate::generation::QuantizedStageFamily;

verus! {

/// Allocates `capacity` empty block-description slots, or reports that the allocator refused.
pub(crate) fn empty_block_views(capacity: usize) -> (views: Result<Vec<Option<BlockDescriptor>>, Error>)
    ensures
        match views {
            Ok(v) => v@ == Seq::new(capacity as nat, |i: int| None::<BlockDescriptor>),
            Err(e) => e == Error::Capacity,
        },
{
    let mut views: Vec<Option<BlockDescriptor>> = Vec::new();
    if crate::data::reserve_exact(&mut views, capacity).is_err() {
        return Err(Error::Capacity);
    }
    let mut i: usize = 0;
    while i < capacity
        invariant
            i <= capacity,
            views@ == Seq::new(i as nat, |k: int| None::<BlockDescriptor>),
        decreases capacity - i,
    {
        views.push(None);
        i = i + 1;
        assert(views@ =~= Seq::new(i as nat, |k: int| None::<BlockDescriptor>));
    }
    Ok(views)
}

/// Empties every block-description slot.
pub(crate) fn clear_block_views(views: &mut Vec<Option<BlockDescriptor>>)
    ensures
        final(views)@ == Seq::new(old(views)@.len(), |i: int| None::<BlockDescriptor>),
{
    let n = views.len();
    let mut i: usize = 0;
    while i < n
        invariant
            i <= n,
            n == views@.len(),
            forall|j: int| 0 <= j < i ==> views@[j] is None,
        decreases n - i,
    {
        views.set(i, None);
        i = i + 1;
    }
    assert(views@ =~= Seq::new(n as nat, |i: int| None::<BlockDescriptor>));
}

/// Every cached description sits at the position of the block it describes.
pub open spec fn cache_indexed(blocks: Seq<Option<BlockDescriptor>>) -> bool {
    forall|i: int| 0 <= i < blocks.len() && (#[trigger] blocks[i]) is Some ==> blocks[i]->Some_0.index == i
}

/// Common builder regions plus one cached description per block.
#[derive(Debug)]
pub struct Storage {
    pub common: crate::generation::builder::Storage,
    pub blocks: Vec<Option<BlockDescriptor>>,
}

impl Storage {
    /// Both parts hold the same valid capacity, and each cached description sits
    /// at its block's position.
    pub open spec fn wf(&self) -> bool {
        &&& self.common.wf()
        &&& self.blocks@.len() == self.common@.blocks.len()
        &&& cache_indexed(self.blocks@)
    }

    /// Allocates every region for `block_capacity` blocks.
    pub fn with_block_capacity(block_capacity: usize) -> (storage: Result<Self, Error>)
        ensures
            (block_capacity == 0 || block_capacity > MAX_BLOCK_CAPACITY) ==> storage is Err,
            storage matches Ok(s) ==> s.wf() && s.blocks@.len() == block_capacity && s.common@
                == crate::generation::builder::fresh_storage(block_capacity as nat) && s.blocks@ == Seq::new(
                block_capacity as nat,
                |i: int| None::<BlockDescriptor>,
            ),
            storage matches Err(e) ==> e == Error::Capacity,
    {
        let common = crate::generation::builder::Storage::with_block_capacity(block_capacity)?;
        let blocks = empty_block_views(block_capacity)?;
        Ok(Storage { common, blocks })
    }

    /// Number of blocks the storage can hold.
    pub fn block_capacity(&self) -> (capacity: usize)
        ensures
            capacity == self.blocks@.len(),
    {
        self.blocks.len()
    }

    /// Empties every region, keeping the capacity.
    pub fn clear(&mut self)
        requires
            old(self).wf(),
        ensures
            final(self).wf(),
            final(self).common@ == crate::generation::builder::fresh_storage(old(self).common@.blocks.len()),
            final(self).blocks@ == Seq::new(old(self).blocks@.len(), |i: int| None::<BlockDescriptor>),
    {
        self.common.clear();
        clear_block_views(&mut self.blocks);
    }
}

/// A refused construction, which hands every storage region back.
#[derive(Debug)]
pub struct StorageBindError {
    pub error: Error,
    pub storage: Storage,
}

impl StorageBindError {
    pub fn new(error: Error, storage: Storage) -> (refused: Self)
        ensures
            refused.error == error,
            refused.storage == storage,
    {
        StorageBindError { error, storage }
    }

    /// The message of the refusal, which is that of its error.
    pub fn message(&self) -> (text: &'static str)
        ensures
            text@ == crate::generation::event::error_message(self.error)@,
    {
        self.error.message()
    }

    pub fn error(&self) -> (error: Error)
        ensures
            error == self.error,
    {
        self.error
    }

    pub fn into_storage(self) -> (storage: Storage)
        ensures
            storage == self.storage,
    {
        self.storage
    }
}

/// Begins an attention-family contract and binds its global tensors.
#[derive(Clone, Copy, Debug)]
pub struct ContractBegin<'a, P> {
    pub architecture: &'a [u8],
    pub model: ModelIdentity,
    pub parameters: P,
}

impl<'a, P> ContractBegin<'a, P> {
    pub fn new(architecture: &'a [u8], model: ModelIdentity, parameters: P) -> (event: Self)
        ensures
            event.architecture@ == architecture@,
            event.model == model,
            event.parameters == parameters,
    {
        ContractBegin { architecture, model, parameters }
    }
}

/// Binds one block.
#[derive(Clone, Copy, Debug)]
pub struct BlockBuild {
    pub index: i32,
}

impl BlockBuild {
    pub fn new(index: i32) -> (event: Self)
        ensures
            event.index == index,
    {
        BlockBuild { index }
    }
}

/// Installs the family topology.
#[derive(Clone, Copy, Debug, Default)]
pub struct TopologyBuild;

impl TopologyBuild {
    pub fn new() -> (event: Self) {
        TopologyBuild
    }
}

/// Builds the prefill and decode plans.
#[derive(Clone, Copy, Debug, Default)]
pub struct PlanBuild;

impl PlanBuild {
    pub fn new() -> (event: Self) {
        PlanBuild
    }
}

/// Validates one bound block.
#[derive(Clone, Copy, Debug)]
pub struct BlockValidation {
    pub index: i32,
}

impl BlockValidation {
    pub fn new(index: i32) -> (event: Self)
        ensures
            event.index == index,
    {
        BlockValidation { index }
    }
}

/// Audits one validated block.
#[derive(Clone, Copy, Debug)]
pub struct BlockAudit {
    pub index: i32,
}

impl BlockAudit {
    pub fn new(index: i32) -> (event: Self)
        ensures
            event.index == index,
    {
        BlockAudit { index }
    }
}

/// Finalizes one stage family.
#[derive(Clone, Copy, Debug)]
pub struct StageAudit {
    pub family: QuantizedStageFamily,
}

impl StageAudit {
    pub fn new(family: QuantizedStageFamily) -> (event: Self)
        ensures
            event.family == family,
    {
        StageAudit { family }
    }
}

/// Reads the completed contract.
#[derive(Clone, Copy, Debug, Default)]
pub struct ContractVisit;

impl ContractVisit {
    pub fn new() -> (event: Self) {
        ContractVisit
    }
}

/// Reads one validated block.
#[derive(Clone, Copy, Debug)]
pub struct BlockVisit {
    pub index: i32,
}

impl BlockVisit {
    pub fn new(index: i32) -> (event: Self)
        ensures
            event.index == index,
    {
        BlockVisit { index }
    }
}

/// Discards the active contract and keeps the storage.
#[derive(Clone, Copy, Debug, Default)]
pub struct ContractReset;

impl ContractReset {
    pub fn new() -> (event: Self) {
        ContractReset
    }
}

/// Hands the storage back to the caller.
#[derive(Clone, Copy, Debug, Default)]
pub struct StorageRelease;

impl StorageRelease {
    pub fn new() -> (event: Self) {
        StorageRelease
    }
}

} // verus!
