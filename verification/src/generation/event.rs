//! Requests accepted by the generation builder.

use vstd::prelude::*;

use crate::catalog::ModelIdentity;
use crate::generation::{LayerExecution, QuantizedStageFamily};

pub use crate::generation::builder::{BlockDescriptor, Storage, StorageBind, StorageBindError};

verus! {

/// Generation protocol or model-validation failure.
#[derive(Clone, Copy, Debug, PartialEq, Eq, Structural)]
pub enum Error {
    InvalidRequest,
    ModelInvalid,
    Capacity,
    StorageUnavailable,
    Busy,
    WrongModelIdentity,
    StaleModelIdentity,
    Dependency,
    UnexpectedEvent,
    Internal,
}

/// The diagnostic text of each generation error.
pub open spec fn error_message(error: Error) -> &'static str {
    match error {
        Error::InvalidRequest => "invalid generation request",
        Error::ModelInvalid => "generation contract is invalid",
        Error::Capacity => "generation storage capacity is unavailable",
        Error::StorageUnavailable => "generation storage is unavailable",
        Error::Busy => "generation builder is busy",
        Error::WrongModelIdentity => "model identity belongs to another catalog",
        Error::StaleModelIdentity => "model identity is stale",
        Error::Dependency => "generation dependency failed",
        Error::UnexpectedEvent => "unexpected generation event",
        Error::Internal => "internal generation error",
    }
}

impl Error {
    /// Returns the stable diagnostic text of this error.
    pub fn message(&self) -> (text: &'static str)
        ensures
            text@ == error_message(*self)@,
    {
        match self {
            Error::InvalidRequest => "invalid generation request",
            Error::ModelInvalid => "generation contract is invalid",
            Error::Capacity => "generation storage capacity is unavailable",
            Error::StorageUnavailable => "generation storage is unavailable",
            Error::Busy => "generation builder is busy",
            Error::WrongModelIdentity => "model identity belongs to another catalog",
            Error::StaleModelIdentity => "model identity is stale",
            Error::Dependency => "generation dependency failed",
            Error::UnexpectedEvent => "unexpected generation event",
            Error::Internal => "internal generation error",
        }
    }
}

/// Begins a contract for a sealed model after the owning family selected the route.
#[derive(Clone, Copy, Debug)]
pub struct ContractBegin {
    pub model: ModelIdentity,
    pub block_count: i32,
    pub context_length: i32,
}

impl ContractBegin {
    pub fn new(model: ModelIdentity, block_count: i32, context_length: i32) -> (event: Self)
        ensures
            event.model == model,
            event.block_count == block_count,
            event.context_length == context_length,
    {
        ContractBegin { model, block_count, context_length }
    }
}

/// Binds the global tensors by name; the output tensor is always `output.weight`.
#[derive(Clone, Copy, Debug)]
pub struct GlobalBindings<'a> {
    pub token_embedding: &'a [u8],
    pub output_norm: &'a [u8],
    pub allow_tied_output: bool,
}

impl<'a> GlobalBindings<'a> {
    pub fn new(token_embedding: &'a [u8], output_norm: &'a [u8], allow_tied_output: bool) -> (event: Self)
        ensures
            event.token_embedding@ == token_embedding@,
            event.output_norm@ == output_norm@,
            event.allow_tied_output == allow_tied_output,
    {
        GlobalBindings { token_embedding, output_norm, allow_tied_output }
    }
}

/// Binds one attention block.
#[derive(Clone, Copy, Debug)]
pub struct AttentionBlock {
    pub index: i32,
    pub layer: LayerExecution,
}

impl AttentionBlock {
    pub fn new(index: i32, layer: LayerExecution) -> (event: Self)
        ensures
            event.index == index,
            event.layer == layer,
    {
        AttentionBlock { index, layer }
    }
}

/// Binds one short-convolution block.
#[derive(Clone, Copy, Debug)]
pub struct ShortconvBlock {
    pub index: i32,
    pub layer: LayerExecution,
}

impl ShortconvBlock {
    pub fn new(index: i32, layer: LayerExecution) -> (event: Self)
        ensures
            event.index == index,
            event.layer == layer,
    {
        ShortconvBlock { index, layer }
    }
}

/// A block tensor family that must be absent from a block.
#[derive(Clone, Copy, Debug, PartialEq, Eq, Structural)]
pub enum BlockFamily {
    Attention,
    Shortconv,
}

/// Rejects every tensor of the opposite block family of one bound block.
#[derive(Clone, Copy, Debug)]
pub struct RejectBlockTensors {
    pub index: i32,
    pub family: BlockFamily,
}

impl RejectBlockTensors {
    pub fn new(index: i32, family: BlockFamily) -> (event: Self)
        ensures
            event.index == index,
            event.family == family,
    {
        RejectBlockTensors { index, family }
    }
}

/// Installs the topology computed by the owning family.
#[derive(Clone, Copy, Debug)]
pub struct Topology {
    pub node_count: u32,
    pub tensor_count: u32,
    pub bytes_per_tensor: u64,
    pub workspace_capacity_bytes: u64,
}

impl Topology {
    pub fn new(node_count: u32, tensor_count: u32, bytes_per_tensor: u64, workspace_capacity_bytes: u64) -> (event: Self)
        ensures
            event.node_count == node_count,
            event.tensor_count == tensor_count,
            event.bytes_per_tensor == bytes_per_tensor,
            event.workspace_capacity_bytes == workspace_capacity_bytes,
    {
        Topology { node_count, tensor_count, bytes_per_tensor, workspace_capacity_bytes }
    }
}

/// Builds the prefill and decode plans from the installed topology.
#[derive(Clone, Copy, Debug, Default)]
pub struct Plan;

impl Plan {
    pub fn new() -> (event: Self) {
        Plan
    }
}

/// Validates one bound block.
#[derive(Clone, Copy, Debug)]
pub struct BlockValidation {
    pub index: i32,
}

impl BlockValidation {
    pub fn new(index: i32) -> (event: Self)
        ensures
            event.index == index,
    {
        BlockValidation { index }
    }
}

/// Records the audit observations of one validated block.
#[derive(Clone, Copy, Debug)]
pub struct BlockAudit {
    pub index: i32,
}

impl BlockAudit {
    pub fn new(index: i32) -> (event: Self)
        ensures
            event.index == index,
    {
        BlockAudit { index }
    }
}

/// Finalizes the audit of one stage family.
#[derive(Clone, Copy, Debug)]
pub struct StageAudit {
    pub family: QuantizedStageFamily,
}

impl StageAudit {
    pub fn new(family: QuantizedStageFamily) -> (event: Self)
        ensures
            event.family == family,
    {
        StageAudit { family }
    }
}

/// Reads the completed contract.
#[derive(Clone, Copy, Debug, Default)]
pub struct ContractVisit;

impl ContractVisit {
    pub fn new() -> (event: Self) {
        ContractVisit
    }
}

/// Named tensor slots of a block.
#[derive(Clone, Copy, Debug, PartialEq, Eq, Structural)]
pub enum BlockTensorSlot {
    AttentionNorm,
    AttentionQ,
    AttentionK,
    AttentionV,
    AttentionQNorm,
    AttentionKNorm,
    AttentionOutput,
    ShortconvConv,
    ShortconvIn,
    ShortconvOut,
    FeedForwardNorm,
    FeedForwardGate,
    FeedForwardDown,
    FeedForwardUp,
}

/// Position of each slot in a block's tensor table.
pub open spec fn slot_index(slot: BlockTensorSlot) -> int {
    match slot {
        BlockTensorSlot::AttentionNorm => 0,
        BlockTensorSlot::AttentionQ => 1,
        BlockTensorSlot::AttentionK => 2,
        BlockTensorSlot::AttentionV => 3,
        BlockTensorSlot::AttentionQNorm => 4,
        BlockTensorSlot::AttentionKNorm => 5,
        BlockTensorSlot::AttentionOutput => 6,
        BlockTensorSlot::ShortconvConv => 7,
        BlockTensorSlot::ShortconvIn => 8,
        BlockTensorSlot::ShortconvOut => 9,
        BlockTensorSlot::FeedForwardNorm => 10,
        BlockTensorSlot::FeedForwardGate => 11,
        BlockTensorSlot::FeedForwardDown => 12,
        BlockTensorSlot::FeedForwardUp => 13,
    }
}

impl BlockTensorSlot {
    /// Position of this slot in a block's tensor table.
    pub fn index(self) -> (index: usize)
        ensures
            index == slot_index(self),
            index < 14,
    {
        match self {
            BlockTensorSlot::AttentionNorm => 0,
            BlockTensorSlot::AttentionQ => 1,
            BlockTensorSlot::AttentionK => 2,
            BlockTensorSlot::AttentionV => 3,
            BlockTensorSlot::AttentionQNorm => 4,
            BlockTensorSlot::AttentionKNorm => 5,
            BlockTensorSlot::AttentionOutput => 6,
            BlockTensorSlot::ShortconvConv => 7,
            BlockTensorSlot::ShortconvIn => 8,
            BlockTensorSlot::ShortconvOut => 9,
            BlockTensorSlot::FeedForwardNorm => 10,
            BlockTensorSlot::FeedForwardGate => 11,
            BlockTensorSlot::FeedForwardDown => 12,
            BlockTensorSlot::FeedForwardUp => 13,
        }
    }
}

/// Reads one validated block.
#[derive(Clone, Copy, Debug)]
pub struct BlockVisit {
    pub index: i32,
}

impl BlockVisit {
    pub fn new(index: i32) -> (event: Self)
        ensures
            event.index == index,
    {
        BlockVisit { index }
    }
}

/// Discards the active contract and keeps the storage.
#[derive(Clone, Copy, Debug, Default)]
pub struct ContractReset;

impl ContractReset {
    pub fn new() -> (event: Self) {
        ContractReset
    }
}

/// Hands the storage back to the caller.
#[derive(Clone, Copy, Debug, Default)]
pub struct StorageRelease;

impl StorageRelease {
    pub fn new() -> (event: Self) {
        StorageRelease
    }
}

} // verus!
