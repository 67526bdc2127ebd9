//! The common generation builder: one block, stage or plan per request, every
//! tensor looked up in a sealed catalog that the builder owns.

use vstd::prelude::*;
use vstd::string::StringSliceAdditionalSpecFns;

use crate::catalog::{
    lemma_find_outcome_unique, lookup, model_query_error, Catalog, CatalogView,
    DescribeModel, FindTensor, ModelIdentity, TensorDescriptor, TensorId,
};
use crate::generation::event::{
    AttentionBlock, BlockAudit, BlockFamily, BlockValidation, BlockVisit, ContractBegin, ContractReset, ContractVisit,
    Error, GlobalBindings, Plan, RejectBlockTensors, ShortconvBlock, StageAudit as StageAuditEvent, StorageRelease,
    Topology,
};
use crate::generation::quantized_path::{classify, Outcome, Query, Resolver, Scope};
use crate::generation::{
    default_layer, empty_stage_audit, family_at_index, family_index, is_vector_stage, AttentionQkNormRoute,
    AttentionValueRoute, ContractDescriptor, LayerExecution, QuantizedContractKind, QuantizedStageFamily,
    ResidualRoute, StageAudit, StepKind, StepPlan, TopologyDescriptor,
};
use crate::tensor_type::SerializedType;

verus! {

/// Largest block capacity of a storage.
pub const MAX_BLOCK_CAPACITY: usize = 512;

/// Slot positions in a block's tensor table.
pub const SLOT_ATTENTION_NORM: usize = 0;
pub const SLOT_ATTENTION_Q: usize = 1;
pub const SLOT_ATTENTION_K: usize = 2;
pub const SLOT_ATTENTION_V: usize = 3;
pub const SLOT_ATTENTION_Q_NORM: usize = 4;
pub const SLOT_ATTENTION_K_NORM: usize = 5;
pub const SLOT_ATTENTION_OUTPUT: usize = 6;
pub const SLOT_SHORTCONV_CONV: usize = 7;
pub const SLOT_SHORTCONV_IN: usize = 8;
pub const SLOT_SHORTCONV_OUT: usize = 9;
pub const SLOT_FFN_NORM: usize = 10;
pub const SLOT_FFN_GATE: usize = 11;
pub const SLOT_FFN_DOWN: usize = 12;
pub const SLOT_FFN_UP: usize = 13;

/// One bound block: its tensors by slot, and its progress.
#[derive(Clone, Copy, Debug)]
pub struct BlockSlot {
    pub index: i32,
    pub uses_attention: bool,
    pub tensors: [Option<TensorDescriptor>; 14],
    pub bound: bool,
    pub validated: bool,
}

/// The unbound block.
pub open spec fn empty_block() -> BlockSlot {
    BlockSlot {
        index: 0,
        uses_attention: false,
        tensors: [None, None, None, None, None, None, None, None, None, None, None, None, None, None],
        bound: false,
        validated: false,
    }
}

/// The audit classification of one tensor of one block.
#[derive(Clone, Copy, Debug, PartialEq, Eq, Structural)]
pub struct AuditObservation {
    pub tensor_type: SerializedType,
    pub outcome: Outcome,
}

/// The audit observations of one block, by stage family.
#[derive(Clone, Copy, Debug)]
pub struct BlockAuditSlot {
    pub audited: bool,
    pub observations: [Option<AuditObservation>; 14],
}

/// The unaudited block.
pub open spec fn empty_block_audit() -> BlockAuditSlot {
    BlockAuditSlot {
        audited: false,
        observations: [None, None, None, None, None, None, None, None, None, None, None, None, None, None],
    }
}

/// Abstract content of a builder storage.
pub struct StorageView {
    pub blocks: Seq<BlockSlot>,
    pub layers: Seq<LayerExecution>,
    pub block_audits: Seq<BlockAuditSlot>,
}

/// Caller-preallocated block, layer and audit regions.
#[derive(Debug)]
pub struct Storage {
    blocks: Vec<BlockSlot>,
    layers: Vec<LayerExecution>,
    block_audits: Vec<BlockAuditSlot>,
}

impl View for Storage {
    type V = StorageView;

    closed spec fn view(&self) -> StorageView {
        StorageView { blocks: self.blocks@, layers: self.layers@, block_audits: self.block_audits@ }
    }
}

/// Storage of `capacity` empty blocks.
pub open spec fn fresh_storage(capacity: nat) -> StorageView {
    StorageView {
        blocks: Seq::new(capacity, |i: int| empty_block()),
        layers: Seq::new(capacity, |i: int| default_layer()),
        block_audits: Seq::new(capacity, |i: int| empty_block_audit()),
    }
}

/// A storage's regions have one common capacity between one and the maximum.
pub open spec fn storage_view_valid(s: StorageView) -> bool {
    &&& 1 <= s.blocks.len() <= MAX_BLOCK_CAPACITY
    &&& s.layers.len() == s.blocks.len()
    &&& s.block_audits.len() == s.blocks.len()
}

/// An empty block.
fn new_block() -> (block: BlockSlot)
    ensures
        block == empty_block(),
{
    BlockSlot {
        index: 0,
        uses_attention: false,
        tensors: [None, None, None, None, None, None, None, None, None, None, None, None, None, None],
        bound: false,
        validated: false,
    }
}

/// An unaudited block.
fn new_block_audit() -> (audit: BlockAuditSlot)
    ensures
        audit == empty_block_audit(),
{
    BlockAuditSlot {
        audited: false,
        observations: [None, None, None, None, None, None, None, None, None, None, None, None, None, None],
    }
}

/// Allocates exactly `length` copies of `value`, or reports that the allocator refused.
fn filled<T: Copy>(length: usize, value: T) -> (region: Result<Vec<T>, Error>)
    ensures
        match region {
            Ok(values) => values@ == Seq::new(length as nat, |i: int| value),
            Err(error) => error == Error::Capacity,
        },
{
    let mut values: Vec<T> = Vec::new();
    if crate::data::reserve_exact(&mut values, length).is_err() {
        return Err(Error::Capacity);
    }
    let mut i: usize = 0;
    while i < length
        invariant
            i <= length,
            values@ == Seq::new(i as nat, |k: int| value),
        decreases length - i,
    {
        values.push(value);
        i = i + 1;
        assert(values@ =~= Seq::new(i as nat, |k: int| value));
    }
    Ok(values)
}

impl Storage {
    /// The regions share one valid capacity.
    pub closed spec fn wf(&self) -> bool {
        storage_view_valid(self@)
    }

    /// Allocates every region for `block_capacity` blocks.
    pub fn with_block_capacity(block_capacity: usize) -> (storage: Result<Self, Error>)
        ensures
            (block_capacity == 0 || block_capacity > MAX_BLOCK_CAPACITY) ==> storage == Err::<Self, Error>(
                Error::Capacity,
            ),
            storage matches Ok(s) ==> s.wf() && 0 < block_capacity <= MAX_BLOCK_CAPACITY && s@ == fresh_storage(
                block_capacity as nat,
            ),
            storage matches Err(e) ==> e == Error::Capacity,
    {
        if block_capacity == 0 || block_capacity > MAX_BLOCK_CAPACITY {
            return Err(Error::Capacity);
        }
        let blocks = filled(block_capacity, new_block())?;
        let layers = filled(block_capacity, LayerExecution::empty())?;
        let block_audits = filled(block_capacity, new_block_audit())?;
        Ok(Storage { blocks, layers, block_audits })
    }

    /// Number of blocks the storage can hold.
    pub fn block_capacity(&self) -> (capacity: usize)
        ensures
            capacity == self@.blocks.len(),
    {
        self.blocks.len()
    }

    /// Empties every region, keeping the capacity.
    pub fn clear(&mut self)
        requires
            old(self).wf(),
        ensures
            final(self).wf(),
            final(self)@ == fresh_storage(old(self)@.blocks.len()),
    {
        let n = self.blocks.len();
        let mut i: usize = 0;
        while i < n
            invariant
                i <= n,
                n == self.blocks@.len(),
                n == self.layers@.len(),
                n == self.block_audits@.len(),
                1 <= n <= MAX_BLOCK_CAPACITY,
                forall|j: int| 0 <= j < i ==> self.blocks@[j] == empty_block(),
                forall|j: int| 0 <= j < i ==> self.layers@[j] == default_layer(),
                forall|j: int| 0 <= j < i ==> self.block_audits@[j] == empty_block_audit(),
            decreases n - i,
        {
            self.blocks.set(i, new_block());
            self.layers.set(i, LayerExecution::empty());
            self.block_audits.set(i, new_block_audit());
            i = i + 1;
        }
        assert(self@.blocks =~= fresh_storage(n as nat).blocks);
        assert(self@.layers =~= fresh_storage(n as nat).layers);
        assert(self@.block_audits =~= fresh_storage(n as nat).block_audits);
    }
}

/// Moves caller storage into an empty builder.
#[derive(Debug)]
pub struct StorageBind {
    pub storage: Storage,
}

impl StorageBind {
    pub fn new(storage: Storage) -> (event: Self)
        ensures
            event.storage == storage,
    {
        StorageBind { storage }
    }
}

/// A refused bind, which hands the storage back.
#[derive(Debug)]
pub struct StorageBindError {
    error: Error,
    storage: Storage,
}

impl StorageBindError {
    pub closed spec fn spec_error(&self) -> Error {
        self.error
    }

    pub closed spec fn spec_storage(&self) -> Storage {
        self.storage
    }

    pub fn error(&self) -> (error: Error)
        ensures
            error == self.spec_error(),
    {
        self.error
    }

    pub fn into_storage(self) -> (storage: Storage)
        ensures
            storage == self.spec_storage(),
    {
        self.storage
    }
}

/// Read-only description of one validated block.
#[derive(Clone, Copy, Debug)]
pub struct BlockDescriptor {
    pub index: i32,
    pub uses_attention: bool,
    pub layer: LayerExecution,
    pub tensors: [Option<TensorId>; 14],
}

/// The tensor identity held in one slot of a block.
pub open spec fn slot_id(block: BlockSlot, slot: int) -> Option<TensorId> {
    match block.tensors[slot] {
        Some(d) => Some(d.tensor_id),
        None => None,
    }
}

/// The description of a block with its layer.
pub open spec fn describe_block(block: BlockSlot, layer: LayerExecution) -> BlockDescriptor {
    BlockDescriptor {
        index: block.index,
        uses_attention: block.uses_attention,
        layer,
        tensors: [
            slot_id(block, 0),
            slot_id(block, 1),
            slot_id(block, 2),
            slot_id(block, 3),
            slot_id(block, 4),
            slot_id(block, 5),
            slot_id(block, 6),
            slot_id(block, 7),
            slot_id(block, 8),
            slot_id(block, 9),
            slot_id(block, 10),
            slot_id(block, 11),
            slot_id(block, 12),
            slot_id(block, 13),
        ],
    }
}

impl BlockDescriptor {
    pub fn index(self) -> (index: i32)
        ensures
            index == self.index,
    {
        self.index
    }

    pub fn uses_attention(self) -> (uses: bool)
        ensures
            uses == self.uses_attention,
    {
        self.uses_attention
    }

    pub fn layer(self) -> (layer: LayerExecution)
        ensures
            layer == self.layer,
    {
        self.layer
    }

    /// The bound tensor of one named slot, if the block binds one there.
    pub fn tensor(self, slot: crate::generation::event::BlockTensorSlot) -> (id: Option<TensorId>)
        ensures
            id == self.tensors[crate::generation::event::slot_index(slot)],
    {
        self.tensors[slot.index()]
    }
}

/// Tensor identity of a descriptor slot.
fn slot_tensor_id(tensor: Option<TensorDescriptor>) -> (id: Option<TensorId>)
    ensures
        id == (match tensor {
            Some(d) => Some(d.tensor_id),
            None => None::<TensorId>,
        }),
{
    match tensor {
        Some(d) => Some(d.tensor_id),
        None => None,
    }
}

/// Describes a block with its layer.
fn block_descriptor(block: &BlockSlot, layer: LayerExecution) -> (descriptor: BlockDescriptor)
    ensures
        descriptor == describe_block(*block, layer),
{
    let t = &block.tensors;
    let tensors = [
        slot_tensor_id(t[0]),
        slot_tensor_id(t[1]),
        slot_tensor_id(t[2]),
        slot_tensor_id(t[3]),
        slot_tensor_id(t[4]),
        slot_tensor_id(t[5]),
        slot_tensor_id(t[6]),
        slot_tensor_id(t[7]),
        slot_tensor_id(t[8]),
        slot_tensor_id(t[9]),
        slot_tensor_id(t[10]),
        slot_tensor_id(t[11]),
        slot_tensor_id(t[12]),
        slot_tensor_id(t[13]),
    ];
    BlockDescriptor { index: block.index, uses_attention: block.uses_attention, layer, tensors }
}

/// Decimal digits of `n`, most significant first, without leading zeros.
pub open spec fn decimal_digits(n: nat) -> Seq<u8>
    decreases n,
{
    if n < 10 {
        seq![(48 + n) as u8]
    } else {
        decimal_digits(n / 10).push((48 + n % 10) as u8)
    }
}

/// Name of a block tensor: `blk.`, the block index in decimal, `.`, then the suffix.
pub open spec fn block_name(index: nat, suffix: Seq<u8>) -> Seq<u8> {
    seq![98u8, 108u8, 107u8, 46u8] + decimal_digits(index) + seq![46u8] + suffix
}

proof fn lemma_decimal_digits_len(n: nat)
    ensures
        1 <= decimal_digits(n).len() <= 10 || n >= 10_000_000_000,
        n < 10_000_000_000 ==> decimal_digits(n).len() <= 10,
        n < 1_000_000_000 ==> decimal_digits(n).len() <= 9,
        n < 100_000_000 ==> decimal_digits(n).len() <= 8,
        n < 10_000_000 ==> decimal_digits(n).len() <= 7,
        n < 1_000_000 ==> decimal_digits(n).len() <= 6,
        n < 100_000 ==> decimal_digits(n).len() <= 5,
        n < 10_000 ==> decimal_digits(n).len() <= 4,
        n < 1_000 ==> decimal_digits(n).len() <= 3,
        n < 100 ==> decimal_digits(n).len() <= 2,
        decimal_digits(n).len() >= 1,
    decreases n,
{
    if n >= 10 {
        lemma_decimal_digits_len(n / 10);
    }
}

/// Writes the decimal digits of `n` at `start`, returning the end position.
fn write_decimal(buffer: &mut [u8; 64], start: usize, n: u32) -> (end: usize)
    requires
        start + 10 <= 64,
    ensures
        end == start + decimal_digits(n as nat).len(),
        end <= start + 10,
        final(buffer)@.subrange(start as int, end as int) == decimal_digits(n as nat),
        forall|k: int| 0 <= k < start ==> final(buffer)@[k] == old(buffer)@[k],
    decreases n,
{
    proof {
        lemma_decimal_digits_len(n as nat);
    }
    let mut position = start;
    if n >= 10 {
        position = write_decimal(buffer, start, n / 10);
        proof {
            lemma_decimal_digits_len((n / 10) as nat);
        }
    }
    let digit = (48 + n % 10) as u8;
    buffer[position] = digit;
    proof {
        if n >= 10 {
            assert(buffer@.subrange(start as int, position + 1) =~= decimal_digits((n / 10) as nat).push(digit));
        } else {
            assert(buffer@.subrange(start as int, position + 1) =~= seq![digit]);
        }
    }
    position + 1
}

/// Composes the name of one block tensor into a fixed buffer; the name is the
/// first `length` bytes.
pub fn compose_block_name(index: i32, suffix: &[u8]) -> (composed: ([u8; 64], usize))
    requires
        index >= 0,
        block_name(index as nat, suffix@).len() <= 64,
    ensures
        composed.1 <= 64,
        composed.0@.subrange(0, composed.1 as int) == block_name(index as nat, suffix@),
{
    proof {
        lemma_decimal_digits_len(index as nat);
    }
    let mut buffer = [0u8; 64];
    buffer[0] = 98u8;
    buffer[1] = 108u8;
    buffer[2] = 107u8;
    buffer[3] = 46u8;
    let end = write_decimal(&mut buffer, 4, index as u32);
    buffer[end] = 46u8;
    let start = end + 1;
    let mut k: usize = 0;
    while k < suffix.len()
        invariant
            k <= suffix@.len(),
            start + suffix@.len() <= 64,
            start <= 15,
            start == end + 1,
            end >= 5,
            buffer@.len() == 64,
            buffer@.subrange(0, 4) == seq![98u8, 108u8, 107u8, 46u8],
            buffer@.subrange(4, end as int) == decimal_digits(index as nat),
            buffer@[end as int] == 46u8,
            forall|j: int| 0 <= j < k ==> buffer@[start + j] == suffix@[j],
        decreases suffix@.len() - k,
    {
        buffer[start + k] = suffix[k];
        k = k + 1;
    }
    let length = start + suffix.len();
    assert(buffer@.subrange(0, length as int) =~= block_name(index as nat, suffix@));
    (buffer, length)
}

/// Name suffix of each block tensor slot.
pub open spec fn slot_suffix(slot: int) -> Seq<u8> {
    if slot == 0 {
        "attn_norm.weight".spec_bytes()
    } else if slot == 1 {
        "attn_q.weight".spec_bytes()
    } else if slot == 2 {
        "attn_k.weight".spec_bytes()
    } else if slot == 3 {
        "attn_v.weight".spec_bytes()
    } else if slot == 4 {
        "attn_q_norm.weight".spec_bytes()
    } else if slot == 5 {
        "attn_k_norm.weight".spec_bytes()
    } else if slot == 6 {
        "attn_output.weight".spec_bytes()
    } else if slot == 7 {
        "shortconv.conv.weight".spec_bytes()
    } else if slot == 8 {
        "shortconv.in_proj.weight".spec_bytes()
    } else if slot == 9 {
        "shortconv.out_proj.weight".spec_bytes()
    } else if slot == 10 {
        "ffn_norm.weight".spec_bytes()
    } else if slot == 11 {
        "ffn_gate.weight".spec_bytes()
    } else if slot == 12 {
        "ffn_down.weight".spec_bytes()
    } else {
        "ffn_up.weight".spec_bytes()
    }
}

/// Name of the output tensor.
pub open spec fn output_name() -> Seq<u8> {
    "output.weight".spec_bytes()
}

/// The name suffix of one block tensor slot.
fn suffix_bytes(slot: usize) -> (suffix: &'static [u8])
    requires
        slot < 14,
    ensures
        suffix@ == slot_suffix(slot as int),
        suffix@.len() <= 40,
{
    proof {
        broadcast use vstd::string::is_ascii_spec_bytes;

    }
    if slot == 0 {
        proof {
            reveal_strlit("attn_norm.weight");
            assert(vstd::string::is_ascii("attn_norm.weight"));
        }
        "attn_norm.weight".as_bytes()
    } else if slot == 1 {
        proof {
            reveal_strlit("attn_q.weight");
            assert(vstd::string::is_ascii("attn_q.weight"));
        }
        "attn_q.weight".as_bytes()
    } else if slot == 2 {
        proof {
            reveal_strlit("attn_k.weight");
            assert(vstd::string::is_ascii("attn_k.weight"));
        }
        "attn_k.weight".as_bytes()
    } else if slot == 3 {
        proof {
            reveal_strlit("attn_v.weight");
            assert(vstd::string::is_ascii("attn_v.weight"));
        }
        "attn_v.weight".as_bytes()
    } else if slot == 4 {
        proof {
            reveal_strlit("attn_q_norm.weight");
            assert(vstd::string::is_ascii("attn_q_norm.weight"));
        }
        "attn_q_norm.weight".as_bytes()
    } else if slot == 5 {
        proof {
            reveal_strlit("attn_k_norm.weight");
            assert(vstd::string::is_ascii("attn_k_norm.weight"));
        }
        "attn_k_norm.weight".as_bytes()
    } else if slot == 6 {
        proof {
            reveal_strlit("attn_output.weight");
            assert(vstd::string::is_ascii("attn_output.weight"));
        }
        "attn_output.weight".as_bytes()
    } else if slot == 7 {
        proof {
            reveal_strlit("shortconv.conv.weight");
            assert(vstd::string::is_ascii("shortconv.conv.weight"));
        }
        "shortconv.conv.weight".as_bytes()
    } else if slot == 8 {
        proof {
            reveal_strlit("shortconv.in_proj.weight");
            assert(vstd::string::is_ascii("shortconv.in_proj.weight"));
        }
        "shortconv.in_proj.weight".as_bytes()
    } else if slot == 9 {
        proof {
            reveal_strlit("shortconv.out_proj.weight");
            assert(vstd::string::is_ascii("shortconv.out_proj.weight"));
        }
        "shortconv.out_proj.weight".as_bytes()
    } else if slot == 10 {
        proof {
            reveal_strlit("ffn_norm.weight");
            assert(vstd::string::is_ascii("ffn_norm.weight"));
        }
        "ffn_norm.weight".as_bytes()
    } else if slot == 11 {
        proof {
            reveal_strlit("ffn_gate.weight");
            assert(vstd::string::is_ascii("ffn_gate.weight"));
        }
        "ffn_gate.weight".as_bytes()
    } else if slot == 12 {
        proof {
            reveal_strlit("ffn_down.weight");
            assert(vstd::string::is_ascii("ffn_down.weight"));
        }
        "ffn_down.weight".as_bytes()
    } else {
        proof {
            reveal_strlit("ffn_up.weight");
            assert(vstd::string::is_ascii("ffn_up.weight"));
        }
        "ffn_up.weight".as_bytes()
    }
}

/// Lifecycle phase of a builder.
#[derive(Clone, Copy, Debug, PartialEq, Eq, Structural)]
pub enum BuilderPhase {
    Empty,
    Bound,
    Building,
}

/// Abstract state of a builder.
pub struct BuilderView {
    pub catalog: CatalogView,
    pub phase: BuilderPhase,
    pub storage: Option<StorageView>,
    pub model: Option<ModelIdentity>,
    pub block_count: u32,
    pub context_length: i32,
    pub token_embedding: Option<TensorDescriptor>,
    pub output_norm: Option<TensorDescriptor>,
    pub output: Option<TensorDescriptor>,
    pub topology: Option<TopologyDescriptor>,
    pub prefill: Option<StepPlan>,
    pub decode: Option<StepPlan>,
    pub audits: Seq<StageAudit>,
    pub finalized: Seq<bool>,
    pub bound_blocks: u32,
    pub validated_blocks: u32,
    pub audited_blocks: u32,
    pub finalized_stages: u32,
}

/// Builds one generation contract from a sealed catalog, one request at a time.
#[derive(Debug)]
pub struct Builder {
    catalog: Catalog,
    capability: Resolver,
    storage: Option<Storage>,
    phase: BuilderPhase,
    model: Option<ModelIdentity>,
    block_count: u32,
    context_length: i32,
    token_embedding: Option<TensorDescriptor>,
    output_norm: Option<TensorDescriptor>,
    output: Option<TensorDescriptor>,
    topology: Option<TopologyDescriptor>,
    prefill: Option<StepPlan>,
    decode: Option<StepPlan>,
    audits: [StageAudit; 14],
    finalized: [bool; 14],
    bound_blocks: u32,
    validated_blocks: u32,
    audited_blocks: u32,
    finalized_stages: u32,
}

impl View for Builder {
    type V = BuilderView;

    closed spec fn view(&self) -> BuilderView {
        BuilderView {
            catalog: self.catalog@,
            phase: self.phase,
            storage: match self.storage {
                Some(s) => Some(s@),
                None => None,
            },
            model: self.model,
            block_count: self.block_count,
            context_length: self.context_length,
            token_embedding: self.token_embedding,
            output_norm: self.output_norm,
            output: self.output,
            topology: self.topology,
            prefill: self.prefill,
            decode: self.decode,
            audits: self.audits@,
            finalized: self.finalized@,
            bound_blocks: self.bound_blocks,
            validated_blocks: self.validated_blocks,
            audited_blocks: self.audited_blocks,
            finalized_stages: self.finalized_stages,
        }
    }
}

/// The stage audits before any stage is finalized.
pub open spec fn initial_audits() -> Seq<StageAudit> {
    Seq::new(14, |i: int| empty_stage_audit(family_at_index(i)))
}

/// The view with every contract fact discarded and every storage region emptied.
pub open spec fn cleared_contract(b: BuilderView) -> BuilderView {
    BuilderView {
        storage: match b.storage {
            Some(s) => Some(fresh_storage(s.blocks.len())),
            None => None,
        },
        model: None,
        block_count: 0,
        context_length: 0,
        token_embedding: None,
        output_norm: None,
        output: None,
        topology: None,
        prefill: None,
        decode: None,
        audits: initial_audits(),
        finalized: Seq::new(14, |i: int| false),
        bound_blocks: 0,
        validated_blocks: 0,
        audited_blocks: 0,
        finalized_stages: 0,
        ..b
    }
}

/// No contract fact is held.
pub open spec fn contract_clear(b: BuilderView) -> bool {
    &&& b.model is None
    &&& b.block_count == 0
    &&& b.context_length == 0
    &&& b.token_embedding is None
    &&& b.output_norm is None
    &&& b.output is None
    &&& b.topology is None
    &&& b.prefill is None
    &&& b.decode is None
    &&& b.audits == initial_audits()
    &&& b.finalized == Seq::new(14, |i: int| false)
    &&& b.bound_blocks == 0
    &&& b.validated_blocks == 0
    &&& b.audited_blocks == 0
    &&& b.finalized_stages == 0
}

/// Number of set flags among the first `n`.
pub open spec fn count_true(flags: Seq<bool>, n: int) -> nat
    decreases n,
{
    if n <= 0 {
        0
    } else {
        count_true(flags, n - 1) + if flags[n - 1] {
            1nat
        } else {
            0nat
        }
    }
}

/// Which blocks are bound.
pub open spec fn bound_flags(s: StorageView) -> Seq<bool> {
    s.blocks.map_values(|block: BlockSlot| block.bound)
}

/// Which blocks are validated.
pub open spec fn validated_flags(s: StorageView) -> Seq<bool> {
    s.blocks.map_values(|block: BlockSlot| block.validated)
}

/// Which blocks are audited.
pub open spec fn audited_flags(s: StorageView) -> Seq<bool> {
    s.block_audits.map_values(|audit: BlockAuditSlot| audit.audited)
}

/// An attention block holds every tensor its layer requires.
pub open spec fn attention_required(block: BlockSlot, layer: LayerExecution) -> bool {
    &&& block.tensors[0] is Some
    &&& block.tensors[10] is Some
    &&& block.tensors[11] is Some
    &&& block.tensors[12] is Some
    &&& block.tensors[13] is Some
    &&& block.tensors[1] is Some
    &&& block.tensors[2] is Some
    &&& (layer.value_route == AttentionValueRoute::SharedKeyValue || block.tensors[3] is Some)
    &&& block.tensors[6] is Some
    &&& (layer.qk_norm_route == AttentionQkNormRoute::NoNorm || (block.tensors[4] is Some
        && block.tensors[5] is Some))
}

/// A short-convolution block holds every tensor it requires.
pub open spec fn shortconv_required(block: BlockSlot) -> bool {
    &&& block.tensors[0] is Some
    &&& block.tensors[10] is Some
    &&& block.tensors[11] is Some
    &&& block.tensors[12] is Some
    &&& block.tensors[13] is Some
    &&& block.tensors[7] is Some
    &&& block.tensors[8] is Some
    &&& block.tensors[9] is Some
}

/// A block holds every tensor its kind requires.
pub open spec fn block_required(block: BlockSlot, layer: LayerExecution) -> bool {
    if block.uses_attention {
        attention_required(block, layer)
    } else {
        shortconv_required(block)
    }
}

/// The storage held by a builder.
pub open spec fn held_storage(b: BuilderView) -> StorageView {
    b.storage.unwrap()
}

/// The counters agree with the flags they count.
pub open spec fn counters_valid(b: BuilderView) -> bool {
    let s = held_storage(b);
    &&& b.bound_blocks == count_true(bound_flags(s), b.block_count as int)
    &&& b.validated_blocks == count_true(validated_flags(s), b.block_count as int)
    &&& b.audited_blocks == count_true(audited_flags(s), b.block_count as int)
    &&& b.finalized_stages == count_true(b.finalized, 14)
}

/// The facts a contract under construction keeps.
pub open spec fn building_valid(b: BuilderView) -> bool {
    let s = held_storage(b);
    &&& b.model is Some
    &&& model_query_error(b.catalog, b.model.unwrap()@) is None
    &&& 0 < b.block_count <= s.blocks.len()
    &&& b.context_length > 0
    &&& counters_valid(b)
    &&& forall|i: int|
        0 <= i < b.block_count && (#[trigger] s.blocks[i]).validated ==> s.blocks[i].bound && block_required(
            s.blocks[i],
            s.layers[i],
        )
    &&& forall|i: int| 0 <= i < b.block_count && (#[trigger] s.blocks[i]).bound ==> s.blocks[i].index == i
    &&& (b.finalized[0] ==> b.token_embedding is Some)
    &&& (b.finalized[1] ==> b.output_norm is Some)
    &&& (b.finalized[2] ==> b.output is Some)
    &&& (b.prefill is Some ==> b.topology is Some && b.decode is Some)
}

/// The builder's invariant over its view.
pub open spec fn builder_view_valid(b: BuilderView) -> bool {
    &&& (b.phase == BuilderPhase::Empty) == (b.storage is None)
    &&& (b.storage matches Some(s) ==> storage_view_valid(s))
    &&& b.audits.len() == 14
    &&& b.finalized.len() == 14
    &&& (b.phase != BuilderPhase::Building ==> contract_clear(b))
    &&& (b.phase == BuilderPhase::Building ==> building_valid(b))
}

/// Result and next state of binding storage `s`.
pub open spec fn storage_bind_view(b: BuilderView, s: StorageView) -> (Result<(), Error>, BuilderView) {
    if b.phase == BuilderPhase::Empty {
        (Ok(()), BuilderView { phase: BuilderPhase::Bound, storage: Some(s), ..b })
    } else {
        (Err(Error::Busy), b)
    }
}

/// Result and next state of discarding the contract.
pub open spec fn reset_view(b: BuilderView) -> (Result<(), Error>, BuilderView) {
    if b.phase == BuilderPhase::Empty {
        (Err(Error::StorageUnavailable), b)
    } else {
        (Ok(()), BuilderView { phase: BuilderPhase::Bound, ..cleared_contract(b) })
    }
}

/// Result and next state of releasing the storage.
pub open spec fn release_view(b: BuilderView) -> (Result<StorageView, Error>, BuilderView) {
    match b.phase {
        BuilderPhase::Bound => (Ok(held_storage(b)), BuilderView { phase: BuilderPhase::Empty, storage: None, ..b }),
        BuilderPhase::Empty => (Err(Error::StorageUnavailable), b),
        BuilderPhase::Building => (Err(Error::Busy), b),
    }
}

/// The generation error for a catalog refusal of a model identity.
pub open spec fn begin_error(error: crate::catalog::Error) -> Error {
    match error {
        crate::catalog::Error::StorageUnavailable => Error::StorageUnavailable,
        crate::catalog::Error::WrongModelIdentity => Error::WrongModelIdentity,
        crate::catalog::Error::StaleModelIdentity => Error::StaleModelIdentity,
        crate::catalog::Error::ModelInvalid => Error::ModelInvalid,
        _ => Error::Dependency,
    }
}

/// Result and next state of beginning a contract.
pub open spec fn begin_view(b: BuilderView, e: ContractBegin) -> (Result<(), Error>, BuilderView) {
    match b.phase {
        BuilderPhase::Empty => (Err(Error::StorageUnavailable), b),
        BuilderPhase::Building => (Err(Error::Busy), b),
        BuilderPhase::Bound => if !(e.block_count > 0 && e.context_length > 0 && e.block_count
            <= held_storage(b).blocks.len()) {
            (Err(Error::InvalidRequest), b)
        } else {
            match model_query_error(b.catalog, e.model@) {
                Some(error) => (Err(begin_error(error)), b),
                None => (
                    Ok(()),
                    BuilderView {
                        phase: BuilderPhase::Building,
                        model: Some(e.model),
                        block_count: e.block_count as u32,
                        context_length: e.context_length,
                        ..cleared_contract(b)
                    },
                ),
            }
        },
    }
}

/// Result and next state of binding the global tensors.
pub open spec fn globals_view(b: BuilderView, te: Seq<u8>, on: Seq<u8>, tied: bool) -> (Result<(), Error>, BuilderView) {
    if b.phase != BuilderPhase::Building {
        (Err(Error::UnexpectedEvent), b)
    } else if !(b.token_embedding is None && te.len() > 0 && on.len() > 0) {
        (Err(Error::InvalidRequest), b)
    } else {
        let q0 = lookup(b.catalog, te);
        let q1 = lookup(b.catalog, on);
        let q2 = lookup(b.catalog, output_name());
        if q0 is Some && q1 is Some && q2 is Some {
            (Ok(()), BuilderView { token_embedding: q0, output_norm: q1, output: q2, ..b })
        } else if tied && q0 is Some && q1 is Some && q2 is None {
            (Ok(()), BuilderView { token_embedding: q0, output_norm: q1, output: q0, ..b })
        } else {
            (Err(Error::ModelInvalid), b)
        }
    }
}

/// What the catalog holds for one slot of block `index`.
pub open spec fn slot_lookup(b: BuilderView, index: int, slot: int) -> Option<TensorDescriptor> {
    lookup(b.catalog, block_name(index as nat, slot_suffix(slot)))
}

/// `index` names a block of the contract.
pub open spec fn index_valid(b: BuilderView, index: i32) -> bool {
    0 <= index < b.block_count
}

/// The view with block `index` and its layer replaced and one more block bound.
pub open spec fn with_bound_block(b: BuilderView, index: int, block: BlockSlot, layer: LayerExecution) -> BuilderView {
    let s = held_storage(b);
    BuilderView {
        storage: Some(StorageView { blocks: s.blocks.update(index, block), layers: s.layers.update(index, layer), ..s }),
        bound_blocks: (b.bound_blocks + 1) as u32,
        ..b
    }
}

/// The attention block that the lookups of block `index` bind.
pub open spec fn attention_block_slot(b: BuilderView, e: AttentionBlock) -> BlockSlot {
    let i = e.index as int;
    let qk = e.layer.qk_norm_route != AttentionQkNormRoute::NoNorm;
    let shared = e.layer.value_route == AttentionValueRoute::SharedKeyValue;
    BlockSlot {
        index: e.index,
        uses_attention: true,
        tensors: [
            slot_lookup(b, i, 0),
            slot_lookup(b, i, 1),
            slot_lookup(b, i, 2),
            if shared {
                slot_lookup(b, i, 2)
            } else {
                slot_lookup(b, i, 3)
            },
            if qk {
                slot_lookup(b, i, 4)
            } else {
                None
            },
            if qk {
                slot_lookup(b, i, 5)
            } else {
                None
            },
            slot_lookup(b, i, 6),
            None,
            None,
            None,
            slot_lookup(b, i, 10),
            slot_lookup(b, i, 11),
            slot_lookup(b, i, 12),
            slot_lookup(b, i, 13),
        ],
        bound: true,
        validated: false,
    }
}

/// Result and next state of binding one attention block.
pub open spec fn attention_view(b: BuilderView, e: AttentionBlock) -> (Result<(), Error>, BuilderView) {
    if b.phase != BuilderPhase::Building {
        (Err(Error::UnexpectedEvent), b)
    } else if !(index_valid(b, e.index) && e.layer.residual_route == ResidualRoute::Attention
        && !held_storage(b).blocks[e.index as int].bound) {
        (Err(Error::InvalidRequest), b)
    } else {
        let block = attention_block_slot(b, e);
        if attention_required(block, e.layer) {
            (Ok(()), with_bound_block(b, e.index as int, block, e.layer))
        } else {
            (Err(Error::ModelInvalid), b)
        }
    }
}

/// The short-convolution block that the lookups of block `index` bind.
pub open spec fn shortconv_block_slot(b: BuilderView, e: ShortconvBlock) -> BlockSlot {
    let i = e.index as int;
    BlockSlot {
        index: e.index,
        uses_attention: false,
        tensors: [
            slot_lookup(b, i, 0),
            None,
            None,
            None,
            None,
            None,
            None,
            slot_lookup(b, i, 7),
            slot_lookup(b, i, 8),
            slot_lookup(b, i, 9),
            slot_lookup(b, i, 10),
            slot_lookup(b, i, 11),
            slot_lookup(b, i, 12),
            slot_lookup(b, i, 13),
        ],
        bound: true,
        validated: false,
    }
}

/// Result and next state of binding one short-convolution block.
pub open spec fn shortconv_view(b: BuilderView, e: ShortconvBlock) -> (Result<(), Error>, BuilderView) {
    if b.phase != BuilderPhase::Building {
        (Err(Error::UnexpectedEvent), b)
    } else if !(index_valid(b, e.index) && e.layer.residual_route == ResidualRoute::Shortconv
        && e.layer.qk_norm_route == AttentionQkNormRoute::NoNorm && e.layer.value_route
        == AttentionValueRoute::DedicatedValue && !held_storage(b).blocks[e.index as int].bound) {
        (Err(Error::InvalidRequest), b)
    } else {
        let block = shortconv_block_slot(b, e);
        if shortconv_required(block) {
            (Ok(()), with_bound_block(b, e.index as int, block, e.layer))
        } else {
            (Err(Error::ModelInvalid), b)
        }
    }
}

/// Result of rejecting the opposite block family of block `index`.
pub open spec fn reject_result(b: BuilderView, e: RejectBlockTensors) -> Result<(), Error> {
    let i = e.index as int;
    if b.phase != BuilderPhase::Building {
        Err(Error::UnexpectedEvent)
    } else if !(index_valid(b, e.index) && held_storage(b).blocks[i].bound) {
        Err(Error::InvalidRequest)
    } else if e.family == BlockFamily::Shortconv && held_storage(b).blocks[i].uses_attention {
        if slot_lookup(b, i, 7) is Some || slot_lookup(b, i, 8) is Some || slot_lookup(b, i, 9) is Some {
            Err(Error::ModelInvalid)
        } else {
            Ok(())
        }
    } else if e.family == BlockFamily::Attention && !held_storage(b).blocks[i].uses_attention {
        if slot_lookup(b, i, 1) is Some || slot_lookup(b, i, 2) is Some || slot_lookup(b, i, 3) is Some
            || slot_lookup(b, i, 4) is Some || slot_lookup(b, i, 5) is Some || slot_lookup(b, i, 6) is Some {
            Err(Error::ModelInvalid)
        } else {
            Ok(())
        }
    } else {
        Err(Error::InvalidRequest)
    }
}

/// Result and next state of installing the topology.
pub open spec fn topology_view(b: BuilderView, e: Topology) -> (Result<(), Error>, BuilderView) {
    if b.phase != BuilderPhase::Building {
        (Err(Error::UnexpectedEvent), b)
    } else if b.topology is None && b.bound_blocks == b.block_count && e.node_count > 0 && e.tensor_count > 0 {
        (
            Ok(()),
            BuilderView {
                topology: Some(
                    TopologyDescriptor {
                        node_count: e.node_count,
                        tensor_count: e.tensor_count,
                        bytes_per_tensor: e.bytes_per_tensor,
                        workspace_capacity_bytes: e.workspace_capacity_bytes,
                    },
                ),
                ..b
            },
        )
    } else {
        (Err(Error::InvalidRequest), b)
    }
}

/// Result and next state of planning: one prefill step over the context and one
/// single-token decode step, both over the installed topology.
pub open spec fn plan_view(b: BuilderView) -> (Result<(), Error>, BuilderView) {
    if b.phase != BuilderPhase::Building {
        (Err(Error::UnexpectedEvent), b)
    } else if b.topology is Some && b.prefill is None {
        let t = b.topology.unwrap();
        (
            Ok(()),
            BuilderView {
                prefill: Some(
                    StepPlan {
                        kind: StepKind::Prefill,
                        node_count: t.node_count,
                        tensor_count: t.tensor_count,
                        expected_outputs: 1,
                        max_step_tokens: b.context_length,
                    },
                ),
                decode: Some(
                    StepPlan {
                        kind: StepKind::Decode,
                        node_count: t.node_count,
                        tensor_count: t.tensor_count,
                        expected_outputs: 1,
                        max_step_tokens: 1,
                    },
                ),
                ..b
            },
        )
    } else {
        (Err(Error::InvalidRequest), b)
    }
}

/// Result and next state of validating block `index`.
pub open spec fn validate_view(b: BuilderView, e: BlockValidation) -> (Result<(), Error>, BuilderView) {
    let s = held_storage(b);
    let i = e.index as int;
    if b.phase != BuilderPhase::Building {
        (Err(Error::UnexpectedEvent), b)
    } else if b.prefill is Some && index_valid(b, e.index) && s.blocks[i].bound && !s.blocks[i].validated
        && block_required(s.blocks[i], s.layers[i]) {
        (
            Ok(()),
            BuilderView {
                storage: Some(
                    StorageView { blocks: s.blocks.update(i, BlockSlot { validated: true, ..s.blocks[i] }), ..s },
                ),
                validated_blocks: (b.validated_blocks + 1) as u32,
                ..b
            },
        )
    } else {
        (Err(Error::ModelInvalid), b)
    }
}

/// The observation of one tensor under one contract scope.
pub open spec fn observe(tensor: Option<TensorDescriptor>, scope: Scope) -> Option<AuditObservation> {
    match tensor {
        Some(d) => Some(AuditObservation { tensor_type: d.tensor_type, outcome: classify(scope, d.tensor_type) }),
        None => None,
    }
}

/// The observations of one block by stage family: norms under the vector contract,
/// projections under the matrix contract; global families are not observed per block.
pub open spec fn block_observations(block: BlockSlot, layer: LayerExecution) -> [Option<AuditObservation>; 14] {
    let t = block.tensors;
    let attention = block.uses_attention;
    let qk = attention && layer.qk_norm_route != AttentionQkNormRoute::NoNorm;
    let v = Scope::VectorDequantContract;
    let m = Scope::MatrixWeightContract;
    [
        None,
        None,
        None,
        observe(t[0], v),
        if attention {
            observe(t[1], m)
        } else {
            None
        },
        if attention {
            observe(t[2], m)
        } else {
            None
        },
        if attention {
            observe(t[3], m)
        } else {
            None
        },
        if qk {
            observe(t[4], v)
        } else {
            None
        },
        if qk {
            observe(t[5], v)
        } else {
            None
        },
        if attention {
            observe(t[6], m)
        } else {
            None
        },
        observe(t[10], v),
        observe(t[11], m),
        observe(t[12], m),
        observe(t[13], m),
    ]
}

/// Result and next state of auditing block `index`.
pub open spec fn audit_view(b: BuilderView, e: BlockAudit) -> (Result<(), Error>, BuilderView) {
    let s = held_storage(b);
    let i = e.index as int;
    if b.phase != BuilderPhase::Building {
        (Err(Error::UnexpectedEvent), b)
    } else if b.validated_blocks == b.block_count && index_valid(b, e.index) && s.blocks[i].validated
        && !s.block_audits[i].audited {
        (
            Ok(()),
            BuilderView {
                storage: Some(
                    StorageView {
                        block_audits: s.block_audits.update(
                            i,
                            BlockAuditSlot { audited: true, observations: block_observations(s.blocks[i], s.layers[i]) },
                        ),
                        ..s
                    },
                ),
                audited_blocks: (b.audited_blocks + 1) as u32,
                ..b
            },
        )
    } else {
        (Err(Error::InvalidRequest), b)
    }
}

/// The global tensor audited by a global family.
pub open spec fn global_tensor(b: BuilderView, family: QuantizedStageFamily) -> Option<TensorDescriptor> {
    match family {
        QuantizedStageFamily::TokenEmbedding => b.token_embedding,
        QuantizedStageFamily::OutputNorm => b.output_norm,
        QuantizedStageFamily::Output => b.output,
        _ => None,
    }
}

/// The family is one of the three global families.
pub open spec fn is_global_family(family: QuantizedStageFamily) -> bool {
    ||| family == QuantizedStageFamily::TokenEmbedding
    ||| family == QuantizedStageFamily::OutputNorm
    ||| family == QuantizedStageFamily::Output
}

/// The observation of family `f` in block audit `i`.
pub open spec fn observation(audits: Seq<BlockAuditSlot>, i: int, f: int) -> Option<AuditObservation> {
    audits[i].observations[f]
}

/// The first observation of family `f` among blocks `k..n`.
pub open spec fn first_observation(audits: Seq<BlockAuditSlot>, f: int, k: int, n: int) -> Option<AuditObservation>
    decreases n - k,
{
    if k >= n {
        None
    } else if observation(audits, k, f) is Some {
        observation(audits, k, f)
    } else {
        first_observation(audits, f, k + 1, n)
    }
}

/// Every observation of family `f` among the first `n` blocks is native.
pub open spec fn all_native(audits: Seq<BlockAuditSlot>, f: int, n: int) -> bool {
    forall|i: int|
        0 <= i < n && (#[trigger] observation(audits, i, f)) is Some ==> observation(audits, i, f).unwrap().outcome
            == Outcome::NativeQuantized
}

/// Every observation of family `f` among the first `n` blocks is native or approved dense.
pub open spec fn all_vector_approved(audits: Seq<BlockAuditSlot>, f: int, n: int) -> bool {
    forall|i: int|
        0 <= i < n && (#[trigger] observation(audits, i, f)) is Some ==> (observation(audits, i, f).unwrap().outcome
            == Outcome::NativeQuantized || observation(audits, i, f).unwrap().outcome
            == Outcome::ApprovedDenseF32ByContract)
}

/// Some observation of family `f` among the first `n` blocks is a disallowed fallback.
pub open spec fn any_disallowed(audits: Seq<BlockAuditSlot>, f: int, n: int) -> bool {
    exists|i: int|
        0 <= i < n && (#[trigger] observation(audits, i, f)) is Some && observation(audits, i, f).unwrap().outcome
            == Outcome::DisallowedFallback
}

/// Every observation of family `f` among the first `n` blocks has the type of the first.
pub open spec fn types_consistent(audits: Seq<BlockAuditSlot>, f: int, n: int) -> bool {
    match first_observation(audits, f, 0, n) {
        Some(first) => forall|i: int|
            0 <= i < n && (#[trigger] observation(audits, i, f)) is Some ==> observation(audits, i, f).unwrap().tensor_type
                == first.tensor_type,
        None => false,
    }
}

/// The contract kind of a global stage from its tensor's classification.
pub open spec fn global_kind(family: QuantizedStageFamily, outcome: Outcome) -> QuantizedContractKind {
    if family == QuantizedStageFamily::Output {
        match outcome {
            Outcome::NativeQuantized => QuantizedContractKind::NativeQuantized,
            Outcome::DisallowedFallback => QuantizedContractKind::DisallowedFallback,
            Outcome::ExplicitNoClaim => QuantizedContractKind::ExplicitNoClaim,
            Outcome::ApprovedDenseF32ByContract => QuantizedContractKind::ApprovedDenseF32ByContract,
        }
    } else {
        match outcome {
            Outcome::ExplicitNoClaim => QuantizedContractKind::ExplicitNoClaim,
            _ => QuantizedContractKind::ApprovedDenseF32ByContract,
        }
    }
}

/// The final audit of a block stage over the first `n` block audits.
pub open spec fn block_stage_audit(audits: Seq<BlockAuditSlot>, family: QuantizedStageFamily, n: int) -> StageAudit {
    let f = family_index(family);
    match first_observation(audits, f, 0, n) {
        None => StageAudit {
            family,
            tensor_type: None,
            contract: QuantizedContractKind::NotApplicable,
            consistent_across_layers: false,
        },
        Some(first) => StageAudit {
            family,
            tensor_type: Some(first.tensor_type),
            contract: if is_vector_stage(family) {
                if all_vector_approved(audits, f, n) {
                    QuantizedContractKind::ApprovedDenseF32ByContract
                } else {
                    QuantizedContractKind::ExplicitNoClaim
                }
            } else if all_native(audits, f, n) {
                QuantizedContractKind::NativeQuantized
            } else if any_disallowed(audits, f, n) {
                QuantizedContractKind::DisallowedFallback
            } else {
                QuantizedContractKind::ExplicitNoClaim
            },
            consistent_across_layers: types_consistent(audits, f, n),
        },
    }
}

/// The final audit of one stage family.
pub open spec fn stage_audit_of(b: BuilderView, family: QuantizedStageFamily) -> StageAudit {
    if is_global_family(family) {
        let t = global_tensor(b, family).unwrap();
        let scope = if family == QuantizedStageFamily::Output {
            Scope::MatrixWeightContract
        } else {
            Scope::VectorDequantContract
        };
        StageAudit {
            family,
            tensor_type: Some(t.tensor_type),
            contract: global_kind(family, classify(scope, t.tensor_type)),
            consistent_across_layers: true,
        }
    } else {
        block_stage_audit(held_storage(b).block_audits, family, b.block_count as int)
    }
}

/// Result and next state of finalizing one stage family.
pub open spec fn stage_view(b: BuilderView, e: StageAuditEvent) -> (Result<(), Error>, BuilderView) {
    let f = family_index(e.family);
    if b.phase != BuilderPhase::Building {
        (Err(Error::UnexpectedEvent), b)
    } else if b.audited_blocks == b.block_count && !b.finalized[f] && (is_global_family(e.family) ==> global_tensor(
        b,
        e.family,
    ) is Some) {
        (
            Ok(()),
            BuilderView {
                audits: b.audits.update(f, stage_audit_of(b, e.family)),
                finalized: b.finalized.update(f, true),
                finalized_stages: (b.finalized_stages + 1) as u32,
                ..b
            },
        )
    } else {
        (Err(Error::InvalidRequest), b)
    }
}

/// Every part of the contract is complete.
pub open spec fn contract_complete(b: BuilderView) -> bool {
    &&& b.prefill is Some
    &&& b.decode is Some
    &&& b.validated_blocks == b.block_count
    &&& b.audited_blocks == b.block_count
    &&& b.finalized_stages == 14
}

/// `d` describes the completed contract of `b`.
pub open spec fn describes_contract(d: ContractDescriptor, b: BuilderView) -> bool {
    &&& d.model == b.model.unwrap()
    &&& d.token_embedding == b.token_embedding.unwrap().tensor_id
    &&& d.output_norm == b.output_norm.unwrap().tensor_id
    &&& d.output == b.output.unwrap().tensor_id
    &&& d.block_count == b.block_count
    &&& d.topology == b.topology.unwrap()
    &&& d.prefill == b.prefill.unwrap()
    &&& d.decode == b.decode.unwrap()
    &&& d.audit@ == b.audits
}

proof fn lemma_count_true_same_prefix(a: Seq<bool>, b: Seq<bool>, n: int)
    requires
        0 <= n <= a.len(),
        n <= b.len(),
        forall|j: int| 0 <= j < n ==> a[j] == b[j],
    ensures
        count_true(a, n) == count_true(b, n),
    decreases n,
{
    if n > 0 {
        lemma_count_true_same_prefix(a, b, n - 1);
    }
}

proof fn lemma_count_true_set(flags: Seq<bool>, i: int, n: int)
    requires
        0 <= i < n <= flags.len(),
        !flags[i],
    ensures
        count_true(flags.update(i, true), n) == count_true(flags, n) + 1,
    decreases n,
{
    if i == n - 1 {
        lemma_count_true_same_prefix(flags.update(i, true), flags, n - 1);
    } else {
        lemma_count_true_set(flags, i, n - 1);
    }
}

proof fn lemma_count_true_bounds(flags: Seq<bool>, n: int)
    requires
        0 <= n <= flags.len(),
    ensures
        count_true(flags, n) <= n,
        (forall|j: int| 0 <= j < n ==> !flags[j]) ==> count_true(flags, n) == 0,
        count_true(flags, n) == n ==> forall|j: int| 0 <= j < n ==> flags[j],
    decreases n,
{
    if n > 0 {
        lemma_count_true_bounds(flags, n - 1);
    }
}

/// The stage audits before any stage is finalized.
fn initial_audit_array() -> (audits: [StageAudit; 14])
    ensures
        audits@ == initial_audits(),
{
    let audits = [
        StageAudit::empty(QuantizedStageFamily::TokenEmbedding),
        StageAudit::empty(QuantizedStageFamily::OutputNorm),
        StageAudit::empty(QuantizedStageFamily::Output),
        StageAudit::empty(QuantizedStageFamily::AttentionNorm),
        StageAudit::empty(QuantizedStageFamily::AttentionQ),
        StageAudit::empty(QuantizedStageFamily::AttentionK),
        StageAudit::empty(QuantizedStageFamily::AttentionV),
        StageAudit::empty(QuantizedStageFamily::AttentionQNorm),
        StageAudit::empty(QuantizedStageFamily::AttentionKNorm),
        StageAudit::empty(QuantizedStageFamily::AttentionOutput),
        StageAudit::empty(QuantizedStageFamily::FeedForwardNorm),
        StageAudit::empty(QuantizedStageFamily::FeedForwardGate),
        StageAudit::empty(QuantizedStageFamily::FeedForwardDown),
        StageAudit::empty(QuantizedStageFamily::FeedForwardUp),
    ];
    assert(audits@ =~= initial_audits());
    audits
}

impl Storage {
    /// Binds block `index` and its layer.
    fn bind_block(&mut self, index: usize, block: BlockSlot, layer: LayerExecution)
        requires
            old(self).wf(),
            index < old(self)@.blocks.len(),
        ensures
            final(self).wf(),
            final(self)@ == (StorageView {
                blocks: old(self)@.blocks.update(index as int, block),
                layers: old(self)@.layers.update(index as int, layer),
                ..old(self)@
            }),
    {
        self.blocks.set(index, block);
        self.layers.set(index, layer);
    }

    /// Marks block `index` validated.
    fn mark_validated(&mut self, index: usize)
        requires
            old(self).wf(),
            index < old(self)@.blocks.len(),
        ensures
            final(self).wf(),
            final(self)@ == (StorageView {
                blocks: old(self)@.blocks.update(index as int, BlockSlot { validated: true, ..old(self)@.blocks[index as int] }),
                ..old(self)@
            }),
    {
        let mut block = self.blocks[index];
        block.validated = true;
        self.blocks.set(index, block);
    }

    /// Records the audit of block `index`.
    fn record_audit(&mut self, index: usize, audit: BlockAuditSlot)
        requires
            old(self).wf(),
            index < old(self)@.blocks.len(),
        ensures
            final(self).wf(),
            final(self)@ == (StorageView {
                block_audits: old(self)@.block_audits.update(index as int, audit),
                ..old(self)@
            }),
    {
        self.block_audits.set(index, audit);
    }
}

/// The description that a visit of block `index` returns.
pub open spec fn block_visit_result(b: BuilderView, index: i32) -> Result<BlockDescriptor, Error> {
    if b.phase != BuilderPhase::Building {
        Err(Error::UnexpectedEvent)
    } else if index_valid(b, index) && held_storage(b).blocks[index as int].validated {
        Ok(describe_block(held_storage(b).blocks[index as int], held_storage(b).layers[index as int]))
    } else {
        Err(Error::InvalidRequest)
    }
}

/// A visited block describes the block that was asked for: its index is the
/// requested index.
pub proof fn lemma_visited_block_has_its_index(b: BuilderView, index: i32)
    requires
        builder_view_valid(b),
        block_visit_result(b, index) is Ok,
    ensures
        block_visit_result(b, index)->Ok_0.index == index,
{
}

/// The storage capacity a builder holds survives every request but a release:
/// beginning, binding globals and blocks, topology, plans, validation, audits,
/// stages and resets all keep storage of the same block capacity, and a release
/// hands back storage of that capacity.
pub proof fn lemma_requests_keep_storage_capacity(
    b: BuilderView,
    begin: ContractBegin,
    te: Seq<u8>,
    on: Seq<u8>,
    tied: bool,
    topology: Topology,
    validation: BlockValidation,
    stage: StageAuditEvent,
)
    requires
        builder_view_valid(b),
        b.storage is Some,
    ensures
        ({
            let n = held_storage(b).blocks.len();
            &&& begin_view(b, begin).1.storage is Some
            &&& held_storage(begin_view(b, begin).1).blocks.len() == n
            &&& globals_view(b, te, on, tied).1.storage is Some
            &&& held_storage(globals_view(b, te, on, tied).1).blocks.len() == n
            &&& topology_view(b, topology).1.storage is Some
            &&& held_storage(topology_view(b, topology).1).blocks.len() == n
            &&& plan_view(b).1.storage is Some
            &&& held_storage(plan_view(b).1).blocks.len() == n
            &&& validate_view(b, validation).1.storage is Some
            &&& held_storage(validate_view(b, validation).1).blocks.len() == n
            &&& stage_view(b, stage).1.storage is Some
            &&& held_storage(stage_view(b, stage).1).blocks.len() == n
            &&& reset_view(b).1.storage is Some
            &&& held_storage(reset_view(b).1).blocks.len() == n
            &&& release_view(b).0 matches Ok(s) ==> s.blocks.len() == n
        }),
{
}

/// Once installed, the topology and the plans stay as they are until the
/// contract is reset: no binding, topology, plan, validation, audit or stage
/// request changes them, so the completed contract describes the topology that
/// was installed and the plans built from it.
pub proof fn lemma_topology_and_plans_persist(
    b: BuilderView,
    te: Seq<u8>,
    on: Seq<u8>,
    tied: bool,
    attention: AttentionBlock,
    shortconv: ShortconvBlock,
    topology: Topology,
    validation: BlockValidation,
    audit: BlockAudit,
    stage: StageAuditEvent,
)
    requires
        builder_view_valid(b),
    ensures
        b.topology is Some ==> {
            &&& globals_view(b, te, on, tied).1.topology == b.topology
            &&& attention_view(b, attention).1.topology == b.topology
            &&& shortconv_view(b, shortconv).1.topology == b.topology
            &&& topology_view(b, topology).1.topology == b.topology
            &&& plan_view(b).1.topology == b.topology
            &&& validate_view(b, validation).1.topology == b.topology
            &&& audit_view(b, audit).1.topology == b.topology
            &&& stage_view(b, stage).1.topology == b.topology
        },
        b.prefill is Some ==> {
            &&& globals_view(b, te, on, tied).1.prefill == b.prefill
            &&& attention_view(b, attention).1.prefill == b.prefill
            &&& shortconv_view(b, shortconv).1.prefill == b.prefill
            &&& topology_view(b, topology).1.prefill == b.prefill
            &&& plan_view(b).1.prefill == b.prefill && plan_view(b).1.decode == b.decode
            &&& validate_view(b, validation).1.prefill == b.prefill
            &&& audit_view(b, audit).1.prefill == b.prefill
            &&& stage_view(b, stage).1.prefill == b.prefill
            &&& globals_view(b, te, on, tied).1.decode == b.decode
            &&& attention_view(b, attention).1.decode == b.decode
            &&& shortconv_view(b, shortconv).1.decode == b.decode
            &&& topology_view(b, topology).1.decode == b.decode
            &&& validate_view(b, validation).1.decode == b.decode
            &&& audit_view(b, audit).1.decode == b.decode
            &&& stage_view(b, stage).1.decode == b.decode
        },
        plan_view(b).0 is Ok ==> {
            let t = b.topology.unwrap();
            &&& plan_view(b).1.prefill.unwrap().node_count == t.node_count
            &&& plan_view(b).1.prefill.unwrap().tensor_count == t.tensor_count
            &&& plan_view(b).1.decode.unwrap().node_count == t.node_count
            &&& plan_view(b).1.decode.unwrap().tensor_count == t.tensor_count
        },
{
}

/// Binding and auditing a block keep the storage capacity.
pub proof fn lemma_block_steps_keep_capacity(b: BuilderView, a: AttentionBlock, c: ShortconvBlock, u: BlockAudit)
    requires
        builder_view_valid(b),
        b.storage is Some,
    ensures
        attention_view(b, a).1.storage is Some,
        held_storage(attention_view(b, a).1).blocks.len() == held_storage(b).blocks.len(),
        shortconv_view(b, c).1.storage is Some,
        held_storage(shortconv_view(b, c).1).blocks.len() == held_storage(b).blocks.len(),
        audit_view(b, u).1.storage is Some,
        held_storage(audit_view(b, u).1).blocks.len() == held_storage(b).blocks.len(),
{
}

impl Builder {
    /// The builder's invariant: its view is valid and it owns a well-formed catalog.
    pub closed spec fn wf(&self) -> bool {
        &&& builder_view_valid(self@)
        &&& self.catalog.wf()
        &&& (self.storage matches Some(s) ==> s.wf())
    }

    /// A well-formed builder has a valid view.
    pub proof fn lemma_wf_view(&self)
        requires
            self.wf(),
        ensures
            builder_view_valid(self@),
    {
    }

    /// The lifecycle phase.
    pub fn phase(&self) -> (phase: BuilderPhase)
        ensures
            phase == self@.phase,
    {
        self.phase
    }

    /// A builder over `catalog`, with no storage and no contract.
    pub fn new(catalog: Catalog, capability: Resolver) -> (builder: Self)
        requires
            catalog.wf(),
        ensures
            builder.wf(),
            builder@.catalog == catalog@,
            builder@.phase == BuilderPhase::Empty,
            builder@.storage is None,
            contract_clear(builder@),
    {
        let audits = initial_audit_array();
        let builder = Builder {
            catalog,
            capability,
            storage: None,
            phase: BuilderPhase::Empty,
            model: None,
            block_count: 0,
            context_length: 0,
            token_embedding: None,
            output_norm: None,
            output: None,
            topology: None,
            prefill: None,
            decode: None,
            audits,
            finalized: [false, false, false, false, false, false, false, false, false, false, false, false, false, false],
            bound_blocks: 0,
            validated_blocks: 0,
            audited_blocks: 0,
            finalized_stages: 0,
        };
        assert(builder@.finalized =~= Seq::new(14, |i: int| false));
        builder
    }

    /// Discards every contract fact and empties the storage regions.
    fn reset_contract(&mut self)
        requires
            old(self).wf(),
            old(self)@.storage is Some,
        ensures
            final(self).catalog == old(self).catalog,
            final(self)@ == cleared_contract(old(self)@),
            final(self).storage matches Some(s) && s.wf(),
    {
        let taken = self.storage.take();
        let mut storage = taken.unwrap();
        storage.clear();
        self.storage = Some(storage);
        self.model = None;
        self.block_count = 0;
        self.context_length = 0;
        self.token_embedding = None;
        self.output_norm = None;
        self.output = None;
        self.topology = None;
        self.prefill = None;
        self.decode = None;
        self.audits = initial_audit_array();
        self.finalized = [false, false, false, false, false, false, false, false, false, false, false, false, false, false];
        self.bound_blocks = 0;
        self.validated_blocks = 0;
        self.audited_blocks = 0;
        self.finalized_stages = 0;
        assert(self@.finalized =~= Seq::new(14, |i: int| false));
    }

    /// Moves caller storage into an empty builder; a refused bind hands it back.
    pub fn storage_bind(&mut self, event: StorageBind) -> (result: Result<(), StorageBindError>)
        requires
            old(self).wf(),
            event.storage.wf(),
        ensures
            final(self).wf(),
            final(self)@ == storage_bind_view(old(self)@, event.storage@).1,
            match result {
                Ok(()) => storage_bind_view(old(self)@, event.storage@).0 is Ok,
                Err(e) => storage_bind_view(old(self)@, event.storage@).0 == Err::<(), Error>(e.spec_error())
                    && e.spec_storage() == event.storage,
            },
    {
        let storage = event.storage;
        match self.phase {
            BuilderPhase::Empty => {},
            _ => {
                return Err(StorageBindError { error: Error::Busy, storage });
            },
        }
        self.storage = Some(storage);
        self.phase = BuilderPhase::Bound;
        Ok(())
    }

    /// Begins a contract for the model named by `event.model`.
    pub fn contract_begin(&mut self, event: ContractBegin) -> (result: Result<(), Error>)
        requires
            old(self).wf(),
        ensures
            final(self).wf(),
            (result, final(self)@) == begin_view(old(self)@, event),
    {
        match self.phase {
            BuilderPhase::Bound => {},
            BuilderPhase::Empty => {
                return Err(Error::StorageUnavailable);
            },
            BuilderPhase::Building => {
                return Err(Error::Busy);
            },
        }
        let capacity = self.storage.as_ref().unwrap().blocks.len();
        if !(event.block_count > 0 && event.context_length > 0 && event.block_count as usize <= capacity) {
            return Err(Error::InvalidRequest);
        }
        proof {
            self.catalog.lemma_view_valid();
        }
        match self.catalog.describe_model(DescribeModel::new(event.model)) {
            Ok(descriptor) => {
                proof {
                    self.catalog.lemma_sealed_counts();
                }
                if descriptor.tensor_count() == 0 {
                    return Err(Error::ModelInvalid);
                }
                self.reset_contract();
                self.model = Some(event.model);
                self.block_count = event.block_count as u32;
                self.context_length = event.context_length;
                self.phase = BuilderPhase::Building;
                proof {
                    let b = self@;
                    let s = held_storage(b);
                    assert(bound_flags(s) =~= Seq::new(s.blocks.len(), |i: int| false));
                    assert(validated_flags(s) =~= Seq::new(s.blocks.len(), |i: int| false));
                    assert(audited_flags(s) =~= Seq::new(s.blocks.len(), |i: int| false));
                    lemma_count_true_bounds(bound_flags(s), b.block_count as int);
                    lemma_count_true_bounds(validated_flags(s), b.block_count as int);
                    lemma_count_true_bounds(audited_flags(s), b.block_count as int);
                    lemma_count_true_bounds(b.finalized, 14);
                }
                Ok(())
            },
            Err(error) => {
                let mapped = match error {
                    crate::catalog::Error::StorageUnavailable => Error::StorageUnavailable,
                    crate::catalog::Error::WrongModelIdentity => Error::WrongModelIdentity,
                    crate::catalog::Error::StaleModelIdentity => Error::StaleModelIdentity,
                    crate::catalog::Error::ModelInvalid => Error::ModelInvalid,
                    _ => Error::Dependency,
                };
                Err(mapped)
            },
        }
    }

    /// Discards the active contract and keeps the storage.
    pub fn contract_reset(&mut self, event: ContractReset) -> (result: Result<(), Error>)
        requires
            old(self).wf(),
        ensures
            final(self).wf(),
            (result, final(self)@) == reset_view(old(self)@),
    {
        match self.phase {
            BuilderPhase::Empty => {
                return Err(Error::StorageUnavailable);
            },
            _ => {},
        }
        self.reset_contract();
        self.phase = BuilderPhase::Bound;
        Ok(())
    }

    /// Hands the storage of a builder without an active contract back to the caller.
    pub fn storage_release(&mut self, event: StorageRelease) -> (result: Result<Storage, Error>)
        requires
            old(self).wf(),
        ensures
            final(self).wf(),
            final(self)@ == release_view(old(self)@).1,
            match result {
                Ok(s) => s.wf() && release_view(old(self)@).0 == Ok::<StorageView, Error>(s@),
                Err(e) => release_view(old(self)@).0 == Err::<StorageView, Error>(e),
            },
    {
        match self.phase {
            BuilderPhase::Bound => {},
            BuilderPhase::Empty => {
                return Err(Error::StorageUnavailable);
            },
            BuilderPhase::Building => {
                return Err(Error::Busy);
            },
        }
        let taken = self.storage.take();
        self.phase = BuilderPhase::Empty;
        Ok(taken.unwrap())
    }

    /// Looks `name` up in the catalog under the contract's model identity.
    fn query_name(&self, name: &[u8]) -> (found: Option<TensorDescriptor>)
        requires
            self.wf(),
            self@.phase == BuilderPhase::Building,
        ensures
            found == lookup(self@.catalog, name@),
    {
        let model = self.model.unwrap();
        match self.catalog.find_tensor(FindTensor::new(model, name)) {
            Ok(found) => {
                proof {
                    lemma_find_outcome_unique(self@.catalog, name@, found);
                }
                found
            },
            Err(_) => None,
        }
    }

    /// Looks up one tensor slot of block `index`.
    fn query_slot(&self, index: i32, slot: usize) -> (found: Option<TensorDescriptor>)
        requires
            self.wf(),
            self@.phase == BuilderPhase::Building,
            index >= 0,
            slot < 14,
        ensures
            found == slot_lookup(self@, index as int, slot as int),
    {
        let suffix = suffix_bytes(slot);
        proof {
            lemma_decimal_digits_len(index as nat);
        }
        let (buffer, length) = compose_block_name(index, suffix);
        let name = vstd::slice::slice_subrange(buffer.as_slice(), 0, length);
        self.query_name(name)
    }

    /// Binds the token-embedding, output-norm and output tensors.
    pub fn global_bindings(&mut self, event: GlobalBindings<'_>) -> (result: Result<(), Error>)
        requires
            old(self).wf(),
        ensures
            final(self).wf(),
            (result, final(self)@) == globals_view(
                old(self)@,
                event.token_embedding@,
                event.output_norm@,
                event.allow_tied_output,
            ),
    {
        match self.phase {
            BuilderPhase::Building => {},
            _ => {
                return Err(Error::UnexpectedEvent);
            },
        }
        if !(self.token_embedding.is_none() && event.token_embedding.len() > 0 && event.output_norm.len() > 0) {
            return Err(Error::InvalidRequest);
        }
        let q0 = self.query_name(event.token_embedding);
        let q1 = self.query_name(event.output_norm);
        let q2 = self.query_name("output.weight".as_bytes());
        if q0.is_some() && q1.is_some() && q2.is_some() {
            self.token_embedding = q0;
            self.output_norm = q1;
            self.output = q2;
            Ok(())
        } else if event.allow_tied_output && q0.is_some() && q1.is_some() && q2.is_none() {
            self.token_embedding = q0;
            self.output_norm = q1;
            self.output = q0;
            Ok(())
        } else {
            Err(Error::ModelInvalid)
        }
    }
}

impl Builder {
    /// Facts of a building view after binding an unbound, unvalidated block.
    proof fn lemma_bind_keeps_valid(b: BuilderView, index: int, block: BlockSlot, layer: LayerExecution)
        requires
            builder_view_valid(b),
            b.phase == BuilderPhase::Building,
            0 <= index < b.block_count,
            !held_storage(b).blocks[index].bound,
            block.bound,
            !block.validated,
            block.index == index,
        ensures
            builder_view_valid(with_bound_block(b, index, block, layer)),
            b.bound_blocks < b.block_count,
    {
        let s = held_storage(b);
        let w = with_bound_block(b, index, block, layer);
        let t = held_storage(w);
        assert(!s.blocks[index].validated);
        assert(bound_flags(t) =~= bound_flags(s).update(index, true));
        lemma_count_true_set(bound_flags(s), index, b.block_count as int);
        lemma_count_true_bounds(bound_flags(s).update(index, true), b.block_count as int);
        assert(validated_flags(t) =~= validated_flags(s));
        assert(audited_flags(t) =~= audited_flags(s));
        lemma_count_true_bounds(bound_flags(s), b.block_count as int);
        assert forall|i: int|
            0 <= i < w.block_count && (#[trigger] t.blocks[i]).validated implies t.blocks[i].bound && block_required(
            t.blocks[i],
            t.layers[i],
        ) by {
            assert(i != index);
            assert(s.blocks[i].validated);
        }
        assert forall|i: int| 0 <= i < w.block_count && (#[trigger] t.blocks[i]).bound implies t.blocks[i].index
            == i by {
            if i != index {
                assert(s.blocks[i].bound);
            }
        }
    }

    /// Binds one attention block, looking up its tensors by name.
    pub fn attention_block(&mut self, event: AttentionBlock) -> (result: Result<(), Error>)
        requires
            old(self).wf(),
        ensures
            final(self).wf(),
            (result, final(self)@) == attention_view(old(self)@, event),
    {
        match self.phase {
            BuilderPhase::Building => {},
            _ => {
                return Err(Error::UnexpectedEvent);
            },
        }
        let index = event.index;
        if index < 0 || index as u32 >= self.block_count || event.layer.residual_route != ResidualRoute::Attention {
            return Err(Error::InvalidRequest);
        }
        let i = index as usize;
        if self.storage.as_ref().unwrap().blocks[i].bound {
            return Err(Error::InvalidRequest);
        }
        let qk = event.layer.qk_norm_route != AttentionQkNormRoute::NoNorm;
        let shared = event.layer.value_route == AttentionValueRoute::SharedKeyValue;
        let norm = self.query_slot(index, SLOT_ATTENTION_NORM);
        let q = self.query_slot(index, SLOT_ATTENTION_Q);
        let k = self.query_slot(index, SLOT_ATTENTION_K);
        let v = if shared {
            k
        } else {
            self.query_slot(index, SLOT_ATTENTION_V)
        };
        let q_norm = if qk {
            self.query_slot(index, SLOT_ATTENTION_Q_NORM)
        } else {
            None
        };
        let k_norm = if qk {
            self.query_slot(index, SLOT_ATTENTION_K_NORM)
        } else {
            None
        };
        let out = self.query_slot(index, SLOT_ATTENTION_OUTPUT);
        let ffn_norm = self.query_slot(index, SLOT_FFN_NORM);
        let gate = self.query_slot(index, SLOT_FFN_GATE);
        let down = self.query_slot(index, SLOT_FFN_DOWN);
        let up = self.query_slot(index, SLOT_FFN_UP);
        let block = BlockSlot {
            index,
            uses_attention: true,
            tensors: [norm, q, k, v, q_norm, k_norm, out, None, None, None, ffn_norm, gate, down, up],
            bound: true,
            validated: false,
        };
        assert(block == attention_block_slot(old(self)@, event));
        let present = norm.is_some() && q.is_some() && k.is_some() && (shared || v.is_some()) && out.is_some()
            && ffn_norm.is_some() && gate.is_some() && down.is_some() && up.is_some() && (!qk || (
        q_norm.is_some() && k_norm.is_some()));
        if !present {
            return Err(Error::ModelInvalid);
        }
        proof {
            Self::lemma_bind_keeps_valid(old(self)@, i as int, block, event.layer);
        }
        let taken = self.storage.take();
        let mut storage = taken.unwrap();
        storage.bind_block(i, block, event.layer);
        self.storage = Some(storage);
        self.bound_blocks = self.bound_blocks + 1;
        Ok(())
    }

    /// Binds one short-convolution block, looking up its tensors by name.
    pub fn shortconv_block(&mut self, event: ShortconvBlock) -> (result: Result<(), Error>)
        requires
            old(self).wf(),
        ensures
            final(self).wf(),
            (result, final(self)@) == shortconv_view(old(self)@, event),
    {
        match self.phase {
            BuilderPhase::Building => {},
            _ => {
                return Err(Error::UnexpectedEvent);
            },
        }
        let index = event.index;
        if index < 0 || index as u32 >= self.block_count || event.layer.residual_route != ResidualRoute::Shortconv
            || event.layer.qk_norm_route != AttentionQkNormRoute::NoNorm || event.layer.value_route
            != AttentionValueRoute::DedicatedValue {
            return Err(Error::InvalidRequest);
        }
        let i = index as usize;
        if self.storage.as_ref().unwrap().blocks[i].bound {
            return Err(Error::InvalidRequest);
        }
        let norm = self.query_slot(index, SLOT_ATTENTION_NORM);
        let conv = self.query_slot(index, SLOT_SHORTCONV_CONV);
        let in_proj = self.query_slot(index, SLOT_SHORTCONV_IN);
        let out_proj = self.query_slot(index, SLOT_SHORTCONV_OUT);
        let ffn_norm = self.query_slot(index, SLOT_FFN_NORM);
        let gate = self.query_slot(index, SLOT_FFN_GATE);
        let down = self.query_slot(index, SLOT_FFN_DOWN);
        let up = self.query_slot(index, SLOT_FFN_UP);
        let block = BlockSlot {
            index,
            uses_attention: false,
            tensors: [norm, None, None, None, None, None, None, conv, in_proj, out_proj, ffn_norm, gate, down, up],
            bound: true,
            validated: false,
        };
        assert(block == shortconv_block_slot(old(self)@, event));
        let present = norm.is_some() && conv.is_some() && in_proj.is_some() && out_proj.is_some()
            && ffn_norm.is_some() && gate.is_some() && down.is_some() && up.is_some();
        if !present {
            return Err(Error::ModelInvalid);
        }
        proof {
            Self::lemma_bind_keeps_valid(old(self)@, i as int, block, event.layer);
        }
        let taken = self.storage.take();
        let mut storage = taken.unwrap();
        storage.bind_block(i, block, event.layer);
        self.storage = Some(storage);
        self.bound_blocks = self.bound_blocks + 1;
        Ok(())
    }

    /// Checks that a bound block carries no tensor of the opposite block family.
    pub fn reject_block_tensors(&mut self, event: RejectBlockTensors) -> (result: Result<(), Error>)
        requires
            old(self).wf(),
        ensures
            final(self).wf(),
            final(self)@ == old(self)@,
            result == reject_result(old(self)@, event),
    {
        match self.phase {
            BuilderPhase::Building => {},
            _ => {
                return Err(Error::UnexpectedEvent);
            },
        }
        let index = event.index;
        if index < 0 || index as u32 >= self.block_count {
            return Err(Error::InvalidRequest);
        }
        let block = self.storage.as_ref().unwrap().blocks[index as usize];
        if !block.bound {
            return Err(Error::InvalidRequest);
        }
        match event.family {
            BlockFamily::Shortconv => {
                if !block.uses_attention {
                    return Err(Error::InvalidRequest);
                }
                let conv = self.query_slot(index, SLOT_SHORTCONV_CONV);
                let in_proj = self.query_slot(index, SLOT_SHORTCONV_IN);
                let out_proj = self.query_slot(index, SLOT_SHORTCONV_OUT);
                if conv.is_some() || in_proj.is_some() || out_proj.is_some() {
                    Err(Error::ModelInvalid)
                } else {
                    Ok(())
                }
            },
            BlockFamily::Attention => {
                if block.uses_attention {
                    return Err(Error::InvalidRequest);
                }
                let q = self.query_slot(index, SLOT_ATTENTION_Q);
                let k = self.query_slot(index, SLOT_ATTENTION_K);
                let v = self.query_slot(index, SLOT_ATTENTION_V);
                let q_norm = self.query_slot(index, SLOT_ATTENTION_Q_NORM);
                let k_norm = self.query_slot(index, SLOT_ATTENTION_K_NORM);
                let out = self.query_slot(index, SLOT_ATTENTION_OUTPUT);
                if q.is_some() || k.is_some() || v.is_some() || q_norm.is_some() || k_norm.is_some()
                    || out.is_some() {
                    Err(Error::ModelInvalid)
                } else {
                    Ok(())
                }
            },
        }
    }

    /// Installs the topology once every block is bound.
    pub fn topology(&mut self, event: Topology) -> (result: Result<(), Error>)
        requires
            old(self).wf(),
        ensures
            final(self).wf(),
            (result, final(self)@) == topology_view(old(self)@, event),
    {
        match self.phase {
            BuilderPhase::Building => {},
            _ => {
                return Err(Error::UnexpectedEvent);
            },
        }
        if self.topology.is_none() && self.bound_blocks == self.block_count && event.node_count > 0
            && event.tensor_count > 0 {
            self.topology = Some(
                TopologyDescriptor {
                    node_count: event.node_count,
                    tensor_count: event.tensor_count,
                    bytes_per_tensor: event.bytes_per_tensor,
                    workspace_capacity_bytes: event.workspace_capacity_bytes,
                },
            );
            Ok(())
        } else {
            Err(Error::InvalidRequest)
        }
    }

    /// Builds the prefill and decode plans from the installed topology.
    pub fn plan(&mut self, event: Plan) -> (result: Result<(), Error>)
        requires
            old(self).wf(),
        ensures
            final(self).wf(),
            (result, final(self)@) == plan_view(old(self)@),
    {
        match self.phase {
            BuilderPhase::Building => {},
            _ => {
                return Err(Error::UnexpectedEvent);
            },
        }
        match self.topology {
            Some(t) => {
                if self.prefill.is_some() {
                    return Err(Error::InvalidRequest);
                }
                self.prefill = Some(
                    StepPlan {
                        kind: StepKind::Prefill,
                        node_count: t.node_count,
                        tensor_count: t.tensor_count,
                        expected_outputs: 1,
                        max_step_tokens: self.context_length,
                    },
                );
                self.decode = Some(
                    StepPlan {
                        kind: StepKind::Decode,
                        node_count: t.node_count,
                        tensor_count: t.tensor_count,
                        expected_outputs: 1,
                        max_step_tokens: 1,
                    },
                );
                Ok(())
            },
            None => Err(Error::InvalidRequest),
        }
    }

    /// Validates one bound block against the tensors its kind requires.
    pub fn block_validation(&mut self, event: BlockValidation) -> (result: Result<(), Error>)
        requires
            old(self).wf(),
        ensures
            final(self).wf(),
            (result, final(self)@) == validate_view(old(self)@, event),
    {
        match self.phase {
            BuilderPhase::Building => {},
            _ => {
                return Err(Error::UnexpectedEvent);
            },
        }
        let index = event.index;
        if self.prefill.is_none() || index < 0 || index as u32 >= self.block_count {
            return Err(Error::ModelInvalid);
        }
        let i = index as usize;
        let block = self.storage.as_ref().unwrap().blocks[i];
        let layer = self.storage.as_ref().unwrap().layers[i];
        if !block.bound || block.validated {
            return Err(Error::ModelInvalid);
        }
        let t = &block.tensors;
        let common = t[SLOT_ATTENTION_NORM].is_some() && t[SLOT_FFN_NORM].is_some() && t[SLOT_FFN_GATE].is_some()
            && t[SLOT_FFN_DOWN].is_some() && t[SLOT_FFN_UP].is_some();
        let required = if block.uses_attention {
            common && t[SLOT_ATTENTION_Q].is_some() && t[SLOT_ATTENTION_K].is_some() && (layer.value_route
                == AttentionValueRoute::SharedKeyValue || t[SLOT_ATTENTION_V].is_some())
                && t[SLOT_ATTENTION_OUTPUT].is_some() && (layer.qk_norm_route == AttentionQkNormRoute::NoNorm || (
            t[SLOT_ATTENTION_Q_NORM].is_some() && t[SLOT_ATTENTION_K_NORM].is_some()))
        } else {
            common && t[SLOT_SHORTCONV_CONV].is_some() && t[SLOT_SHORTCONV_IN].is_some()
                && t[SLOT_SHORTCONV_OUT].is_some()
        };
        if !required {
            return Err(Error::ModelInvalid);
        }
        proof {
            let b = old(self)@;
            let s = held_storage(b);
            let nb = BlockSlot { validated: true, ..s.blocks[i as int] };
            let ns = StorageView { blocks: s.blocks.update(i as int, nb), ..s };
            assert(validated_flags(ns) =~= validated_flags(s).update(i as int, true));
            lemma_count_true_set(validated_flags(s), i as int, b.block_count as int);
            lemma_count_true_bounds(validated_flags(s).update(i as int, true), b.block_count as int);
            assert(bound_flags(ns) =~= bound_flags(s));
            assert(audited_flags(ns) =~= audited_flags(s));
        }
        let taken = self.storage.take();
        let mut storage = taken.unwrap();
        storage.mark_validated(i);
        self.storage = Some(storage);
        self.validated_blocks = self.validated_blocks + 1;
        Ok(())
    }
}

/// Observes one tensor under one contract scope.
fn observe_tensor(resolver: &mut Resolver, tensor: Option<TensorDescriptor>, scope: Scope) -> (observation: Option<AuditObservation>)
    ensures
        observation == observe(tensor, scope),
{
    match tensor {
        Some(d) => {
            let outcome = match resolver.process_event(Query::new(scope, d.tensor_type)) {
                Ok(outcome) => outcome,
                Err(_) => Outcome::ExplicitNoClaim,
            };
            Some(AuditObservation { tensor_type: d.tensor_type, outcome })
        },
        None => None,
    }
}

/// Extending the scanned prefix by one block keeps an earlier first observation.
proof fn lemma_first_observation_extend(audits: Seq<BlockAuditSlot>, f: int, j: int, k: int)
    requires
        0 <= j <= k,
    ensures
        first_observation(audits, f, j, k + 1) == (if first_observation(audits, f, j, k) is Some {
            first_observation(audits, f, j, k)
        } else {
            observation(audits, k, f)
        }),
    decreases k - j,
{
    reveal_with_fuel(first_observation, 2);
    if j < k {
        lemma_first_observation_extend(audits, f, j + 1, k);
    }
}

/// A first observation is an observation of some scanned block.
proof fn lemma_first_observation_found(audits: Seq<BlockAuditSlot>, f: int, j: int, k: int)
    requires
        0 <= j <= k,
    ensures
        first_observation(audits, f, j, k) is Some ==> exists|i: int|
            j <= i < k && observation(audits, i, f) == first_observation(audits, f, j, k),
        first_observation(audits, f, j, k) is None ==> forall|i: int|
            j <= i < k ==> observation(audits, i, f) is None,
    decreases k - j,
{
    if j < k {
        lemma_first_observation_found(audits, f, j + 1, k);
    }
}

impl Builder {
    /// Records the audit observations of one validated block.
    pub fn block_audit(&mut self, event: BlockAudit) -> (result: Result<(), Error>)
        requires
            old(self).wf(),
        ensures
            final(self).wf(),
            (result, final(self)@) == audit_view(old(self)@, event),
    {
        match self.phase {
            BuilderPhase::Building => {},
            _ => {
                return Err(Error::UnexpectedEvent);
            },
        }
        let index = event.index;
        if !(self.validated_blocks == self.block_count && index >= 0 && (index as u32) < self.block_count) {
            return Err(Error::InvalidRequest);
        }
        let i = index as usize;
        let block = self.storage.as_ref().unwrap().blocks[i];
        let layer = self.storage.as_ref().unwrap().layers[i];
        let audited = self.storage.as_ref().unwrap().block_audits[i].audited;
        if !block.validated || audited {
            return Err(Error::InvalidRequest);
        }
        let t = block.tensors;
        let attention = block.uses_attention;
        let qk = attention && layer.qk_norm_route != AttentionQkNormRoute::NoNorm;
        let v = Scope::VectorDequantContract;
        let m = Scope::MatrixWeightContract;
        let norm = observe_tensor(&mut self.capability, t[SLOT_ATTENTION_NORM], v);
        let q = if attention {
            observe_tensor(&mut self.capability, t[SLOT_ATTENTION_Q], m)
        } else {
            None
        };
        let k = if attention {
            observe_tensor(&mut self.capability, t[SLOT_ATTENTION_K], m)
        } else {
            None
        };
        let value = if attention {
            observe_tensor(&mut self.capability, t[SLOT_ATTENTION_V], m)
        } else {
            None
        };
        let q_norm = if qk {
            observe_tensor(&mut self.capability, t[SLOT_ATTENTION_Q_NORM], v)
        } else {
            None
        };
        let k_norm = if qk {
            observe_tensor(&mut self.capability, t[SLOT_ATTENTION_K_NORM], v)
        } else {
            None
        };
        let out = if attention {
            observe_tensor(&mut self.capability, t[SLOT_ATTENTION_OUTPUT], m)
        } else {
            None
        };
        let ffn_norm = observe_tensor(&mut self.capability, t[SLOT_FFN_NORM], v);
        let gate = observe_tensor(&mut self.capability, t[SLOT_FFN_GATE], m);
        let down = observe_tensor(&mut self.capability, t[SLOT_FFN_DOWN], m);
        let up = observe_tensor(&mut self.capability, t[SLOT_FFN_UP], m);
        let observations = [None, None, None, norm, q, k, value, q_norm, k_norm, out, ffn_norm, gate, down, up];
        assert(observations == block_observations(block, layer));
        let audit = BlockAuditSlot { audited: true, observations };
        proof {
            let b = old(self)@;
            let s = held_storage(b);
            let ns = StorageView { block_audits: s.block_audits.update(i as int, audit), ..s };
            assert(audited_flags(ns) =~= audited_flags(s).update(i as int, true));
            lemma_count_true_set(audited_flags(s), i as int, b.block_count as int);
            lemma_count_true_bounds(audited_flags(s).update(i as int, true), b.block_count as int);
            assert(bound_flags(ns) =~= bound_flags(s));
            assert(validated_flags(ns) =~= validated_flags(s));
        }
        let taken = self.storage.take();
        let mut storage = taken.unwrap();
        storage.record_audit(i, audit);
        self.storage = Some(storage);
        self.audited_blocks = self.audited_blocks + 1;
        Ok(())
    }

    /// The final audit of a block stage, scanned over every audited block.
    fn block_stage(&self, family: QuantizedStageFamily) -> (audit: StageAudit)
        requires
            self.wf(),
            self@.phase == BuilderPhase::Building,
        ensures
            audit == block_stage_audit(held_storage(self@).block_audits, family, self@.block_count as int),
    {
        let storage = self.storage.as_ref().unwrap();
        let ghost audits = storage@.block_audits;
        let f = family.index();
        let n = self.block_count as usize;
        let mut first: Option<AuditObservation> = None;
        let mut native = true;
        let mut approved = true;
        let mut disallowed = false;
        let mut same = true;
        let mut i: usize = 0;
        while i < n
            invariant
                i <= n,
                n <= audits.len(),
                audits == storage@.block_audits,
                storage.wf(),
                f == family_index(family),
                first == first_observation(audits, f as int, 0, i as int),
                native == all_native(audits, f as int, i as int),
                approved == all_vector_approved(audits, f as int, i as int),
                disallowed == any_disallowed(audits, f as int, i as int),
                first matches Some(o) ==> same == (forall|j: int|
                    0 <= j < i && (#[trigger] observation(audits, j, f as int)) is Some ==> observation(
                        audits,
                        j,
                        f as int,
                    ).unwrap().tensor_type == o.tensor_type),
            decreases n - i,
        {
            let current = storage.block_audits[i].observations[f];
            proof {
                lemma_first_observation_extend(audits, f as int, 0, i as int);
                lemma_first_observation_found(audits, f as int, 0, i as int);
            }
            match current {
                Some(o) => {
                    if o.outcome != Outcome::NativeQuantized {
                        native = false;
                    }
                    if o.outcome != Outcome::NativeQuantized && o.outcome != Outcome::ApprovedDenseF32ByContract {
                        approved = false;
                    }
                    if o.outcome == Outcome::DisallowedFallback {
                        disallowed = true;
                    }
                    match first {
                        Some(p) => {
                            if o.tensor_type != p.tensor_type {
                                same = false;
                            }
                        },
                        None => {
                            first = Some(o);
                            same = true;
                        },
                    }
                },
                None => {},
            }
            i = i + 1;
        }
        match first {
            None => StageAudit {
                family,
                tensor_type: None,
                contract: QuantizedContractKind::NotApplicable,
                consistent_across_layers: false,
            },
            Some(o) => {
                let vector = match family {
                    QuantizedStageFamily::TokenEmbedding | QuantizedStageFamily::OutputNorm
                    | QuantizedStageFamily::AttentionNorm | QuantizedStageFamily::AttentionQNorm
                    | QuantizedStageFamily::AttentionKNorm | QuantizedStageFamily::FeedForwardNorm => true,
                    _ => false,
                };
                let contract = if vector {
                    if approved {
                        QuantizedContractKind::ApprovedDenseF32ByContract
                    } else {
                        QuantizedContractKind::ExplicitNoClaim
                    }
                } else if native {
                    QuantizedContractKind::NativeQuantized
                } else if disallowed {
                    QuantizedContractKind::DisallowedFallback
                } else {
                    QuantizedContractKind::ExplicitNoClaim
                };
                StageAudit { family, tensor_type: Some(o.tensor_type), contract, consistent_across_layers: same }
            },
        }
    }

    /// Finalizes the audit of one stage family.
    pub fn stage_audit(&mut self, event: StageAuditEvent) -> (result: Result<(), Error>)
        requires
            old(self).wf(),
        ensures
            final(self).wf(),
            (result, final(self)@) == stage_view(old(self)@, event),
    {
        match self.phase {
            BuilderPhase::Building => {},
            _ => {
                return Err(Error::UnexpectedEvent);
            },
        }
        let family = event.family;
        let f = family.index();
        if self.audited_blocks != self.block_count || self.finalized[f] {
            return Err(Error::InvalidRequest);
        }
        let audit = match family {
            QuantizedStageFamily::TokenEmbedding | QuantizedStageFamily::OutputNorm | QuantizedStageFamily::Output => {
                let tensor = match family {
                    QuantizedStageFamily::TokenEmbedding => self.token_embedding,
                    QuantizedStageFamily::OutputNorm => self.output_norm,
                    _ => self.output,
                };
                let d = match tensor {
                    Some(d) => d,
                    None => {
                        return Err(Error::InvalidRequest);
                    },
                };
                let output = match family {
                    QuantizedStageFamily::Output => true,
                    _ => false,
                };
                let scope = if output {
                    Scope::MatrixWeightContract
                } else {
                    Scope::VectorDequantContract
                };
                let outcome = match self.capability.process_event(Query::new(scope, d.tensor_type)) {
                    Ok(outcome) => outcome,
                    Err(_) => {
                        return Err(Error::Dependency);
                    },
                };
                let contract = if output {
                    match outcome {
                        Outcome::NativeQuantized => QuantizedContractKind::NativeQuantized,
                        Outcome::DisallowedFallback => QuantizedContractKind::DisallowedFallback,
                        Outcome::ExplicitNoClaim => QuantizedContractKind::ExplicitNoClaim,
                        Outcome::ApprovedDenseF32ByContract => QuantizedContractKind::ApprovedDenseF32ByContract,
                    }
                } else {
                    match outcome {
                        Outcome::ExplicitNoClaim => QuantizedContractKind::ExplicitNoClaim,
                        _ => QuantizedContractKind::ApprovedDenseF32ByContract,
                    }
                };
                StageAudit { family, tensor_type: Some(d.tensor_type), contract, consistent_across_layers: true }
            },
            _ => self.block_stage(family),
        };
        proof {
            let b = old(self)@;
            lemma_count_true_set(b.finalized, f as int, 14);
            lemma_count_true_bounds(b.finalized.update(f as int, true), 14);
        }
        self.audits[f] = audit;
        self.finalized[f] = true;
        self.finalized_stages = self.finalized_stages + 1;
        Ok(())
    }

    /// The completed contract.
    pub fn contract_visit(&self, event: ContractVisit) -> (result: Result<ContractDescriptor, Error>)
        requires
            self.wf(),
        ensures
            match result {
                Ok(d) => self@.phase == BuilderPhase::Building && contract_complete(self@) && describes_contract(
                    d,
                    self@,
                ),
                Err(e) => e == (if self@.phase != BuilderPhase::Building {
                    Error::UnexpectedEvent
                } else {
                    Error::InvalidRequest
                }) && !(self@.phase == BuilderPhase::Building && contract_complete(self@)),
            },
    {
        match self.phase {
            BuilderPhase::Building => {},
            _ => {
                return Err(Error::UnexpectedEvent);
            },
        }
        if !(self.prefill.is_some() && self.decode.is_some() && self.validated_blocks == self.block_count
            && self.audited_blocks == self.block_count && self.finalized_stages == 14) {
            return Err(Error::InvalidRequest);
        }
        proof {
            lemma_count_true_bounds(self@.finalized, 14);
            assert(self@.finalized[0] && self@.finalized[1] && self@.finalized[2]);
        }
        let d = ContractDescriptor {
            model: self.model.unwrap(),
            token_embedding: self.token_embedding.unwrap().tensor_id,
            output_norm: self.output_norm.unwrap().tensor_id,
            output: self.output.unwrap().tensor_id,
            block_count: self.block_count,
            topology: self.topology.unwrap(),
            prefill: self.prefill.unwrap(),
            decode: self.decode.unwrap(),
            audit: self.audits,
        };
        Ok(d)
    }

    /// The description of one validated block.
    pub fn block_visit(&self, event: BlockVisit) -> (result: Result<BlockDescriptor, Error>)
        requires
            self.wf(),
        ensures
            result == block_visit_result(self@, event.index),
            result matches Ok(d) ==> d.index == event.index,
    {
        match self.phase {
            BuilderPhase::Building => {},
            _ => {
                return Err(Error::UnexpectedEvent);
            },
        }
        let index = event.index;
        if index < 0 || index as u32 >= self.block_count {
            return Err(Error::InvalidRequest);
        }
        let storage = self.storage.as_ref().unwrap();
        let block = storage.blocks[index as usize];
        if !block.validated {
            return Err(Error::InvalidRequest);
        }
        Ok(block_descriptor(&block, storage.layers[index as usize]))
    }
}


/// A refused request leaves the builder exactly as it was, so the caller can
/// follow it with any other request.
pub proof fn lemma_refused_requests_leave_builder_unchanged(
    b: BuilderView,
    storage: StorageView,
    begin: ContractBegin,
    token_embedding: Seq<u8>,
    output_norm: Seq<u8>,
    tied: bool,
    attention: AttentionBlock,
    shortconv: ShortconvBlock,
    topology: Topology,
    validation: BlockValidation,
    audit: BlockAudit,
    stage: StageAuditEvent,
)
    ensures
        storage_bind_view(b, storage).0 is Err ==> storage_bind_view(b, storage).1 == b,
        reset_view(b).0 is Err ==> reset_view(b).1 == b,
        release_view(b).0 is Err ==> release_view(b).1 == b,
        begin_view(b, begin).0 is Err ==> begin_view(b, begin).1 == b,
        globals_view(b, token_embedding, output_norm, tied).0 is Err ==> globals_view(
            b,
            token_embedding,
            output_norm,
            tied,
        ).1 == b,
        attention_view(b, attention).0 is Err ==> attention_view(b, attention).1 == b,
        shortconv_view(b, shortconv).0 is Err ==> shortconv_view(b, shortconv).1 == b,
        topology_view(b, topology).0 is Err ==> topology_view(b, topology).1 == b,
        plan_view(b).0 is Err ==> plan_view(b).1 == b,
        validate_view(b, validation).0 is Err ==> validate_view(b, validation).1 == b,
        audit_view(b, audit).0 is Err ==> audit_view(b, audit).1 == b,
        stage_view(b, stage).0 is Err ==> stage_view(b, stage).1 == b,
{
}

/// Storage bound to an empty builder comes back unchanged when it is released.
pub proof fn lemma_bind_then_release_returns_storage(b: BuilderView, storage: StorageView)
    requires
        builder_view_valid(b),
        b.phase == BuilderPhase::Empty,
    ensures
        storage_bind_view(b, storage).0 is Ok,
        release_view(storage_bind_view(b, storage).1).0 == Ok::<StorageView, Error>(storage),
        release_view(storage_bind_view(b, storage).1).1 == b,
{
}

/// Whatever a builder holding storage has done, a reset succeeds and a release
/// after it returns storage of the same capacity with every region empty.
pub proof fn lemma_reset_then_release_returns_fresh_storage(b: BuilderView)
    requires
        builder_view_valid(b),
        b.phase != BuilderPhase::Empty,
    ensures
        reset_view(b).0 is Ok,
        contract_clear(reset_view(b).1),
        release_view(reset_view(b).1).0 == Ok::<StorageView, Error>(fresh_storage(held_storage(b).blocks.len())),
        release_view(reset_view(b).1).1.phase == BuilderPhase::Empty,
{
    assert(reset_view(b).1.finalized =~= Seq::new(14, |i: int| false));
}

/// A block is bound at most once per contract: after a block is bound, binding
/// it again as either kind is refused.
pub proof fn lemma_blocks_bind_once(b: BuilderView, first: AttentionBlock, again: AttentionBlock, other: ShortconvBlock)
    requires
        builder_view_valid(b),
        attention_view(b, first).0 is Ok,
        again.index == first.index,
        other.index == first.index,
    ensures
        attention_view(attention_view(b, first).1, again).0 == Err::<(), Error>(Error::InvalidRequest),
        shortconv_view(attention_view(b, first).1, other).0 == Err::<(), Error>(Error::InvalidRequest),
{
}

/// Validating a block makes it visible: the description a visit then returns
/// is that of the stored block with its layer.
pub proof fn lemma_validated_block_is_visible(b: BuilderView, e: BlockValidation)
    requires
        builder_view_valid(b),
        validate_view(b, e).0 is Ok,
    ensures
        block_visit_result(validate_view(b, e).1, e.index) == Ok::<BlockDescriptor, Error>(
            describe_block(
                held_storage(validate_view(b, e).1).blocks[e.index as int],
                held_storage(b).layers[e.index as int],
            ),
        ),
{
}


/// A decimal rendering is a non-empty run of decimal digits that reads back as
/// the number.
proof fn lemma_decimal_digits_read_back(n: nat)
    ensures
        decimal_digits(n).len() >= 1,
        forall|j: int|
            0 <= j < decimal_digits(n).len() ==> crate::data::is_decimal_digit(#[trigger] decimal_digits(n)[j]),
        crate::data::decimal_value(decimal_digits(n)) == n,
    decreases n,
{
    let d = decimal_digits(n);
    if n >= 10 {
        lemma_decimal_digits_read_back(n / 10);
        assert(d.drop_last() =~= decimal_digits(n / 10));
        let last: u8 = (48 + n % 10) as u8;
        assert(last == 48 + n % 10);
        assert(d.last() == last);
        assert(crate::data::decimal_value(d) == crate::data::decimal_value(d.drop_last()) * 10 + (d.last() - 48));
        assert((n / 10) * 10 + n % 10 == n) by (nonlinear_arith);
    } else {
        assert(d.drop_last() =~= Seq::<u8>::empty());
        assert(d.last() == 48 + n);
        assert(crate::data::decimal_value(d) == crate::data::decimal_value(d.drop_last()) * 10 + (d.last() - 48));
    }
}

/// The name composed for block `index` parses back to `index`, whatever the
/// suffix.
pub proof fn lemma_block_name_parses_back(index: nat, suffix: Seq<u8>)
    requires
        index <= i32::MAX,
    ensures
        crate::data::spec_parse_block_index(block_name(index, suffix)) == Some(index as i32),
{
    let name = block_name(index, suffix);
    let digits = decimal_digits(index);
    lemma_decimal_digits_read_back(index);
    let rest = name.skip(4);
    assert(name.take(4) =~= crate::data::block_prefix());
    assert(rest =~= digits + seq![46u8] + suffix);
    let k = digits.len() as int;
    assert(rest[k] == 46u8);
    assert forall|j: int| 0 <= j < k implies crate::data::is_decimal_digit(#[trigger] rest[j]) by {
        assert(rest[j] == digits[j]);
    }
    assert(crate::data::index_digits_then_dot(rest, k));
    let chosen = choose|m: int| crate::data::index_digits_then_dot(rest, m);
    crate::data::lemma_index_digits_unique(rest, chosen, k);
    assert(rest.take(k) =~= digits);
}

} // verus!
