//! The LFM2 family actor: routes each block to an attention or a
//! short-convolution binding by the layer pattern, or by the fixed attention
//! layers where the model carries no pattern, and rejects every tensor of the
//! other block family.

use vstd::prelude::*;
use vstd::string::StringSliceAdditionalSpecFns;

use crate::bytes::bytes_equal;
use crate::catalog::Catalog;
use crate::generation::builder::{
    attention_view, audit_view, begin_view, block_visit_result, builder_view_valid, contract_clear, contract_complete,
    describes_contract, globals_view, held_storage, lemma_block_steps_keep_capacity, lemma_validated_block_is_visible,
    plan_view, reject_result, release_view, reset_view, shortconv_view, stage_view, topology_view, validate_view,
    BlockDescriptor, Builder, BuilderPhase, BuilderView, StorageView,
};
use crate::generation::event as common;
use crate::generation::quantized_path::Resolver;
use crate::generation::{
    AttentionQkNormRoute, AttentionVNormRoute, AttentionValueRoute, AttentionWindowRoute, ContractDescriptor,
    LayerExecution, ResidualRoute,
};

use crate::attention_family::event::cache_indexed;
use super::event::{
    BeginContract, BlockAudit, BlockBuild, BlockValidation, BlockVisit, ContractBegin, ContractReset, ContractVisit,
    Error, PlanBuild, StageAudit, Storage, StorageBindError, StorageRelease, TopologyBuild,
};
use super::{
    is_zero_parameters, spec_variant, Parameters, ARCHITECTURE_NAME, ATTENTION_BLOCK_TENSOR_COUNT,
    GLOBAL_TENSOR_COUNT, OUTPUT_NORM_NAME, SHORTCONV_BLOCK_TENSOR_COUNT, TOKEN_EMBEDDING_NAME,
};

verus! {

/// The attention layers of a model without a layer pattern.
pub const FALLBACK_ATTENTION_LAYERS: [i32; 6] = [2, 5, 8, 10, 12, 14];

/// Abstract state of an LFM2 actor: its builder, the parameters of the active
/// contract and the cached description of each validated block.
pub struct Lfm2View {
    pub builder: BuilderView,
    pub parameters: Parameters,
    pub blocks: Seq<Option<BlockDescriptor>>,
}

/// Single-writer LFM2 family actor.
#[derive(Debug)]
pub struct Lfm2 {
    builder: Builder,
    parameters: Parameters,
    blocks: Vec<Option<BlockDescriptor>>,
}

impl View for Lfm2 {
    type V = Lfm2View;

    closed spec fn view(&self) -> Lfm2View {
        Lfm2View { builder: self.builder@, parameters: self.parameters, blocks: self.blocks@ }
    }
}

/// `index` is one of the fixed attention layers.
pub open spec fn is_fallback_attention_layer(index: int) -> bool {
    index == 2 || index == 5 || index == 8 || index == 10 || index == 12 || index == 14
}

/// The bit pattern of the 32-bit float one million.
pub open spec fn one_million_bits() -> u32 {
    0x4974_2400
}

/// The bit pattern of a 32-bit float compares greater than zero: a positive
/// subnormal, normal or infinite value, and no NaN.
pub open spec fn float_bits_positive(bits: u32) -> bool {
    1 <= bits <= 0x7f80_0000
}

/// The metadata fixed for both maintained geometries.
pub open spec fn source_fixed_metadata_valid(p: Parameters) -> bool {
    &&& p.context_length == 128_000
    &&& p.attention_head_count_kv == 8
    &&& p.vocab_size == 65_536
    &&& p.shortconv_l_cache == 3
    &&& p.rope_freq_base_bits == one_million_bits()
}

/// A strict begin names a maintained geometry with its fixed metadata.
pub open spec fn execution_accepted(e: ContractBegin) -> bool {
    &&& e.contract == BeginContract::Execution
    &&& e.layer_count == e.parameters.block_count
    &&& spec_variant(*e.parameters) is Some
    &&& source_fixed_metadata_valid(*e.parameters)
}

/// A validation begin names any positive geometry.
pub open spec fn validation_accepted(e: ContractBegin) -> bool {
    let p = *e.parameters;
    &&& e.contract == BeginContract::Validation
    &&& e.layer_count > 0
    &&& e.layer_count == p.block_count
    &&& p.context_length > 0
    &&& p.embedding_length > 0
    &&& p.attention_head_count > 0
    &&& p.attention_head_count_kv > 0
    &&& p.vocab_size > 0
    &&& p.shortconv_l_cache > 0
    &&& float_bits_positive(p.rope_freq_base_bits)
}

/// The route of every attention block.
pub open spec fn attention_layer(p: Parameters) -> LayerExecution {
    LayerExecution {
        residual_route: ResidualRoute::Attention,
        qk_norm_route: AttentionQkNormRoute::HeadwiseRms,
        value_route: AttentionValueRoute::DedicatedValue,
        v_norm_route: AttentionVNormRoute::NoNorm,
        window_route: AttentionWindowRoute::FullContext,
        attention_key_length: p.attention_key_length,
        attention_value_length: p.attention_value_length,
        attention_rope_dim: p.rope_dimension_count,
        attention_rope_freq_base_bits: p.rope_freq_base_bits,
    }
}

/// The route of every short-convolution block.
pub open spec fn shortconv_layer(p: Parameters) -> LayerExecution {
    LayerExecution {
        residual_route: ResidualRoute::Shortconv,
        qk_norm_route: AttentionQkNormRoute::NoNorm,
        value_route: AttentionValueRoute::DedicatedValue,
        v_norm_route: AttentionVNormRoute::NoNorm,
        window_route: AttentionWindowRoute::FullContext,
        attention_key_length: p.attention_key_length,
        attention_value_length: p.attention_value_length,
        attention_rope_dim: p.rope_dimension_count,
        attention_rope_freq_base_bits: p.rope_freq_base_bits,
    }
}

/// Block `index` is an attention block: by the pattern where there is one, else
/// by the fixed attention layers.
pub open spec fn block_uses_attention(p: Parameters, index: i32) -> bool {
    if p.attention_layer_pattern_count > 0 {
        index < p.attention_layer_pattern_count && p.attention_layer_pattern_flags[index as int] != 0
    } else {
        is_fallback_attention_layer(index as int)
    }
}

/// Number of set flags among the first `n`.
pub open spec fn count_set(flags: Seq<u8>, n: int) -> nat
    decreases n,
{
    if n <= 0 {
        0
    } else {
        count_set(flags, n - 1) + if flags[n - 1] != 0 {
            1nat
        } else {
            0nat
        }
    }
}

/// Attention blocks by the pattern: set flags among the first blocks it covers.
pub open spec fn pattern_attention_blocks(p: Parameters) -> nat {
    let n = if p.block_count < p.attention_layer_pattern_count {
        p.block_count as int
    } else {
        p.attention_layer_pattern_count as int
    };
    count_set(p.attention_layer_pattern_flags@, n)
}

/// Attention blocks by the fixed layers: those below the block count.
pub open spec fn fallback_attention_blocks(p: Parameters) -> nat {
    (if 2 < p.block_count { 1nat } else { 0nat }) + (if 5 < p.block_count { 1nat } else { 0nat }) + (if 8
        < p.block_count {
        1nat
    } else {
        0nat
    }) + (if 10 < p.block_count { 1nat } else { 0nat }) + (if 12 < p.block_count { 1nat } else { 0nat }) + (if 14
        < p.block_count {
        1nat
    } else {
        0nat
    })
}

/// Tensors of a topology with `attention` attention blocks.
pub open spec fn hybrid_tensor_count(p: Parameters, attention: int) -> int {
    attention * ATTENTION_BLOCK_TENSOR_COUNT + (p.block_count - attention) * SHORTCONV_BLOCK_TENSOR_COUNT
        + GLOBAL_TENSOR_COUNT
}

/// Tensor count and workspace bytes with `attention` attention blocks, when the
/// counts are consistent and every intermediate fits its width.
pub open spec fn values_for_attention_count(p: Parameters, attention: int) -> Option<(u32, u64)> {
    if p.block_count < 0 || attention > p.block_count || p.embedding_length < 0 {
        None
    } else if attention * ATTENTION_BLOCK_TENSOR_COUNT > u32::MAX || (p.block_count - attention)
        * SHORTCONV_BLOCK_TENSOR_COUNT > u32::MAX || hybrid_tensor_count(p, attention) > u32::MAX {
        None
    } else if hybrid_tensor_count(p, attention) * p.embedding_length > u64::MAX {
        None
    } else if hybrid_tensor_count(p, attention) * p.embedding_length * 4 > u64::MAX {
        None
    } else {
        Some(
            (
                hybrid_tensor_count(p, attention) as u32,
                (hybrid_tensor_count(p, attention) * p.embedding_length * 4) as u64,
            ),
        )
    }
}

/// Tensor count and workspace bytes of the topology under `p`.
pub open spec fn topology_values(p: Parameters) -> Option<(u32, u64)> {
    if p.attention_layer_pattern_count > 0 {
        if p.block_count < 0 {
            None
        } else {
            values_for_attention_count(p, pattern_attention_blocks(p) as int)
        }
    } else {
        values_for_attention_count(p, fallback_attention_blocks(p) as int)
    }
}

/// The view with the builder replaced.
pub open spec fn with_builder(g: Lfm2View, b: BuilderView) -> Lfm2View {
    Lfm2View { builder: b, ..g }
}

/// Result and next state of beginning a contract.
pub open spec fn begin_transition(g: Lfm2View, e: ContractBegin) -> (Result<(), Error>, Lfm2View) {
    match g.builder.phase {
        BuilderPhase::Empty => (Err(Error::UnexpectedEvent), g),
        BuilderPhase::Building => (Err(Error::Busy), g),
        BuilderPhase::Bound => if e.architecture@ != ARCHITECTURE_NAME.spec_bytes() {
            (Err(Error::InvalidRequest), g)
        } else if !(execution_accepted(e) || validation_accepted(e)) {
            (Err(Error::ModelInvalid), g)
        } else {
            let begun = begin_view(
                g.builder,
                common::ContractBegin {
                    model: e.model,
                    block_count: e.parameters.block_count,
                    context_length: e.parameters.context_length,
                },
            );
            if begun.0 is Err {
                (begun.0, with_builder(g, begun.1))
            } else {
                let bound = globals_view(
                    begun.1,
                    TOKEN_EMBEDDING_NAME.spec_bytes(),
                    OUTPUT_NORM_NAME.spec_bytes(),
                    true,
                );
                if bound.0 is Ok {
                    (Ok(()), Lfm2View { builder: bound.1, parameters: *e.parameters, ..g })
                } else {
                    let undone = reset_view(bound.1);
                    (
                        if undone.0 is Ok {
                            bound.0
                        } else {
                            Err(Error::Internal)
                        },
                        with_builder(g, undone.1),
                    )
                }
            }
        },
    }
}

/// Binding one block: the block of its family is bound, then every tensor of the
/// other family must be absent; when one is present the whole contract is
/// discarded, the parameters are zeroed and every cached description dropped.
pub open spec fn block_transition(g: Lfm2View, e: BlockBuild, result: Result<(), Error>, after: Lfm2View) -> bool {
    let p = g.parameters;
    if g.builder.phase != BuilderPhase::Building {
        result == Err::<(), Error>(Error::UnexpectedEvent) && after == g
    } else if !(0 <= e.index < p.block_count) {
        result == Err::<(), Error>(Error::InvalidRequest) && after == g
    } else {
        let attention = block_uses_attention(p, e.index);
        let step = if attention {
            attention_view(g.builder, common::AttentionBlock { index: e.index, layer: attention_layer(p) })
        } else {
            shortconv_view(g.builder, common::ShortconvBlock { index: e.index, layer: shortconv_layer(p) })
        };
        if step.0 is Err {
            result == step.0 && after == with_builder(g, step.1)
        } else {
            let excluded = reject_result(
                step.1,
                common::RejectBlockTensors {
                    index: e.index,
                    family: if attention {
                        common::BlockFamily::Shortconv
                    } else {
                        common::BlockFamily::Attention
                    },
                },
            );
            if excluded is Ok {
                result == Ok::<(), Error>(()) && after == with_builder(g, step.1)
            } else {
                let undone = reset_view(step.1);
                &&& result == (if undone.0 is Ok {
                    excluded
                } else {
                    Err(Error::Internal)
                })
                &&& after.builder == undone.1
                &&& is_zero_parameters(after.parameters)
                &&& after.blocks == Seq::new(g.blocks.len(), |i: int| None::<BlockDescriptor>)
            }
        }
    }
}

/// Result and next state of installing the topology.
pub open spec fn topology_transition(g: Lfm2View) -> (Result<(), Error>, Lfm2View) {
    if g.builder.phase != BuilderPhase::Building {
        (Err(Error::UnexpectedEvent), g)
    } else {
        match topology_values(g.parameters) {
            None => (Err(Error::InvalidRequest), g),
            Some((tensors, workspace)) => {
                let step = topology_view(
                    g.builder,
                    common::Topology {
                        node_count: tensors,
                        tensor_count: tensors,
                        bytes_per_tensor: 4,
                        workspace_capacity_bytes: workspace,
                    },
                );
                (step.0, with_builder(g, step.1))
            },
        }
    }
}

/// Result and next state of building the plans.
pub open spec fn plan_transition(g: Lfm2View) -> (Result<(), Error>, Lfm2View) {
    if g.builder.phase != BuilderPhase::Building {
        (Err(Error::UnexpectedEvent), g)
    } else {
        (plan_view(g.builder).0, with_builder(g, plan_view(g.builder).1))
    }
}

/// Result and next state of validating block `index` and caching its description.
pub open spec fn validation_transition(g: Lfm2View, e: BlockValidation) -> (Result<(), Error>, Lfm2View) {
    if g.builder.phase != BuilderPhase::Building {
        (Err(Error::UnexpectedEvent), g)
    } else {
        let step = validate_view(g.builder, common::BlockValidation { index: e.index });
        if step.0 is Err {
            (step.0, with_builder(g, step.1))
        } else {
            match block_visit_result(step.1, e.index) {
                Ok(d) => (
                    Ok(()),
                    Lfm2View { builder: step.1, blocks: g.blocks.update(e.index as int, Some(d)), ..g },
                ),
                Err(_) => (Err(Error::Internal), with_builder(g, step.1)),
            }
        }
    }
}

/// Result and next state of auditing one block.
pub open spec fn audit_transition(g: Lfm2View, e: BlockAudit) -> (Result<(), Error>, Lfm2View) {
    if g.builder.phase != BuilderPhase::Building {
        (Err(Error::UnexpectedEvent), g)
    } else {
        let step = audit_view(g.builder, common::BlockAudit { index: e.index });
        (step.0, with_builder(g, step.1))
    }
}

/// Result and next state of finalizing one stage family.
pub open spec fn stage_transition(g: Lfm2View, e: StageAudit) -> (Result<(), Error>, Lfm2View) {
    if g.builder.phase != BuilderPhase::Building {
        (Err(Error::UnexpectedEvent), g)
    } else {
        let step = stage_view(g.builder, common::StageAudit { family: e.family });
        (step.0, with_builder(g, step.1))
    }
}

/// What a visit of cached block `index` returns.
pub open spec fn block_visit_transition(g: Lfm2View, index: i32) -> Result<BlockDescriptor, Error> {
    if g.builder.phase != BuilderPhase::Building {
        Err(Error::UnexpectedEvent)
    } else if 0 <= index < g.blocks.len() && g.blocks[index as int] is Some {
        Ok(g.blocks[index as int].unwrap())
    } else {
        Err(Error::InvalidRequest)
    }
}

/// Discarding the contract: on success the parameters are zeroed and every cached
/// description is dropped; otherwise only the builder's answer is recorded.
pub open spec fn reset_transition(g: Lfm2View, result: Result<(), Error>, after: Lfm2View) -> bool {
    if g.builder.phase == BuilderPhase::Empty {
        result == Err::<(), Error>(Error::UnexpectedEvent) && after == g
    } else {
        let step = reset_view(g.builder);
        &&& result == step.0
        &&& after.builder == step.1
        &&& if step.0 is Ok {
            &&& is_zero_parameters(after.parameters)
            &&& after.blocks == Seq::new(g.blocks.len(), |i: int| None::<BlockDescriptor>)
        } else {
            after.parameters == g.parameters && after.blocks == g.blocks
        }
    }
}

/// Result and next state of releasing the storage: the common regions and the
/// block cache go back to the caller.
pub open spec fn release_transition(g: Lfm2View) -> (
    Result<(StorageView, Seq<Option<BlockDescriptor>>), Error>,
    Lfm2View,
) {
    match g.builder.phase {
        BuilderPhase::Empty => (Err(Error::UnexpectedEvent), g),
        BuilderPhase::Building => (Err(Error::Busy), g),
        BuilderPhase::Bound => {
            let step = release_view(g.builder);
            match step.0 {
                Ok(s) => (Ok((s, g.blocks)), Lfm2View { builder: step.1, blocks: Seq::empty(), ..g }),
                Err(e) => (Err(e), with_builder(g, step.1)),
            }
        },
    }
}

impl Lfm2 {
    /// The actor's invariant: a well-formed builder, one cache slot per block of
    /// the bound storage, and the parameters of an active contract agree with its
    /// block count.
    pub closed spec fn wf(&self) -> bool {
        &&& self.builder.wf()
        &&& (self.builder@.storage matches Some(s) ==> self.blocks@.len() == s.blocks.len())
        &&& cache_indexed(self.blocks@)
        &&& (self.builder@.phase == BuilderPhase::Building ==> self.parameters.block_count == self.builder@.block_count)
    }

    /// A well-formed actor has a valid builder view, one cache slot per block of
    /// the storage it holds, every cached description at its position, and while
    /// a contract is built, the parameters' block count is the builder's.
    pub proof fn lemma_wf_view(&self)
        requires
            self.wf(),
        ensures
            builder_view_valid(self@.builder),
            self@.builder.storage is Some ==> self@.blocks.len() == held_storage(self@.builder).blocks.len(),
            cache_indexed(self@.blocks),
            self@.builder.phase == BuilderPhase::Building ==> self@.parameters.block_count
                == self@.builder.block_count,
    {
        self.builder.lemma_wf_view();
    }

    /// Builds the actor over a sealed catalog and binds the caller's storage; a
    /// refused bind hands every storage region back.
    pub fn new(catalog: Catalog, capability: Resolver, storage: Storage) -> (actor: Result<Self, StorageBindError>)
        requires
            catalog.wf(),
            storage.wf(),
        ensures
            actor is Ok,
            actor matches Ok(a) ==> {
                &&& a.wf()
                &&& a@.builder.phase == BuilderPhase::Bound
                &&& a@.builder.catalog == catalog@
                &&& a@.builder.storage == Some(storage.common@)
                &&& is_zero_parameters(a@.parameters)
                &&& a@.blocks == storage.blocks@
            },
    {
        let Storage { common: common_storage, blocks } = storage;
        let mut builder = Builder::new(catalog, capability);
        match builder.storage_bind(common::StorageBind::new(common_storage)) {
            Ok(()) => {},
            Err(refused) => {
                let error = refused.error();
                return Err(StorageBindError { error, storage: Storage { common: refused.into_storage(), blocks } });
            },
        }
        Ok(Lfm2 { builder, parameters: Parameters::default(), blocks })
    }

    fn attention_layer(&self) -> (layer: LayerExecution)
        ensures
            layer == attention_layer(self.parameters),
    {
        LayerExecution::new(
            ResidualRoute::Attention,
            AttentionQkNormRoute::HeadwiseRms,
            AttentionValueRoute::DedicatedValue,
            AttentionVNormRoute::NoNorm,
            AttentionWindowRoute::FullContext,
            self.parameters.attention_key_length,
            self.parameters.attention_value_length,
            self.parameters.rope_dimension_count,
            self.parameters.rope_freq_base_bits,
        )
    }

    fn shortconv_layer(&self) -> (layer: LayerExecution)
        ensures
            layer == shortconv_layer(self.parameters),
    {
        LayerExecution::new(
            ResidualRoute::Shortconv,
            AttentionQkNormRoute::NoNorm,
            AttentionValueRoute::DedicatedValue,
            AttentionVNormRoute::NoNorm,
            AttentionWindowRoute::FullContext,
            self.parameters.attention_key_length,
            self.parameters.attention_value_length,
            self.parameters.rope_dimension_count,
            self.parameters.rope_freq_base_bits,
        )
    }

    /// Whether block `index`, a block of the contract, is an attention block.
    fn block_uses_attention(&self, index: i32) -> (attention: bool)
        requires
            0 <= index < self.parameters.block_count,
            self.parameters.block_count <= 512,
        ensures
            attention == block_uses_attention(self.parameters, index),
    {
        let p = &self.parameters;
        if p.attention_layer_pattern_count > 0 {
            (index as u32) < p.attention_layer_pattern_count && p.attention_layer_pattern_flags[index as usize] != 0
        } else {
            let mut found = false;
            let mut i: usize = 0;
            while i < 6
                invariant
                    i <= 6,
                    found == exists|k: int| 0 <= k < i && FALLBACK_ATTENTION_LAYERS@[k] == index,
                decreases 6 - i,
            {
                if FALLBACK_ATTENTION_LAYERS[i] == index {
                    found = true;
                }
                i = i + 1;
            }
            assert(FALLBACK_ATTENTION_LAYERS@ == seq![2i32, 5, 8, 10, 12, 14]);
            found
        }
    }

    /// Tensor count and workspace bytes with `attention` attention blocks.
    fn values_for_attention_count(&self, attention: u32) -> (values: Option<(u32, u64)>)
        ensures
            values == values_for_attention_count(self.parameters, attention as int),
    {
        let p = &self.parameters;
        if p.block_count < 0 {
            return None;
        }
        let blocks = p.block_count as u32;
        if attention > blocks {
            return None;
        }
        let shortconv = blocks - attention;
        if p.embedding_length < 0 {
            return None;
        }
        let embedding = p.embedding_length as u64;
        let attention_tensors = match attention.checked_mul(ATTENTION_BLOCK_TENSOR_COUNT) {
            Some(v) => v,
            None => {
                return None;
            },
        };
        let shortconv_tensors = match shortconv.checked_mul(SHORTCONV_BLOCK_TENSOR_COUNT) {
            Some(v) => v,
            None => {
                return None;
            },
        };
        let block_tensors = match attention_tensors.checked_add(shortconv_tensors) {
            Some(v) => v,
            None => {
                return None;
            },
        };
        let tensors = match block_tensors.checked_add(GLOBAL_TENSOR_COUNT) {
            Some(v) => v,
            None => {
                return None;
            },
        };
        let scaled = match (tensors as u64).checked_mul(embedding) {
            Some(v) => v,
            None => {
                return None;
            },
        };
        let workspace = match scaled.checked_mul(4) {
            Some(v) => v,
            None => {
                return None;
            },
        };
        Some((tensors, workspace))
    }

    /// Tensor count and workspace bytes of the topology under the active parameters.
    fn topology_values(&self) -> (values: Option<(u32, u64)>)
        requires
            self.parameters.block_count <= 512,
        ensures
            values == topology_values(self.parameters),
    {
        let p = &self.parameters;
        if p.attention_layer_pattern_count > 0 {
            if p.block_count < 0 {
                return None;
            }
            let n: usize = if (p.block_count as u32) < p.attention_layer_pattern_count {
                p.block_count as usize
            } else {
                p.attention_layer_pattern_count as usize
            };
            let mut attention: u32 = 0;
            let mut i: usize = 0;
            while i < n
                invariant
                    n <= 512,
                    i <= n,
                    attention == count_set(p.attention_layer_pattern_flags@, i as int),
                    attention <= i,
                decreases n - i,
            {
                if p.attention_layer_pattern_flags[i] != 0 {
                    attention = attention + 1;
                }
                i = i + 1;
            }
            self.values_for_attention_count(attention)
        } else {
            let mut attention: u32 = 0;
            let blocks = p.block_count;
            attention = attention + if 2 < blocks { 1 } else { 0 };
            attention = attention + if 5 < blocks { 1 } else { 0 };
            attention = attention + if 8 < blocks { 1 } else { 0 };
            attention = attention + if 10 < blocks { 1 } else { 0 };
            attention = attention + if 12 < blocks { 1 } else { 0 };
            attention = attention + if 14 < blocks { 1 } else { 0 };
            self.values_for_attention_count(attention)
        }
    }

    /// Begins an LFM2 contract: checks the architecture and the strict or
    /// validation geometry, begins the common contract and binds the global
    /// tensors with a tied output allowed; a refused global binding discards the
    /// begun contract.
    pub fn contract_begin(&mut self, event: ContractBegin<'_>) -> (result: Result<(), Error>)
        requires
            old(self).wf(),
        ensures
            final(self).wf(),
            (result, final(self)@) == begin_transition(old(self)@, event),
    {
        match self.builder.phase() {
            BuilderPhase::Bound => {},
            BuilderPhase::Empty => {
                return Err(Error::UnexpectedEvent);
            },
            BuilderPhase::Building => {
                return Err(Error::Busy);
            },
        }
        if !bytes_equal(event.architecture, ARCHITECTURE_NAME.as_bytes()) {
            return Err(Error::InvalidRequest);
        }
        let p = event.parameters;
        let execution = event.contract == BeginContract::Execution && event.layer_count == p.block_count
            && p.variant().is_some() && p.context_length == 128_000 && p.attention_head_count_kv == 8
            && p.vocab_size == 65_536 && p.shortconv_l_cache == 3 && p.rope_freq_base_bits == 0x4974_2400u32;
        let validation = event.contract == BeginContract::Validation && event.layer_count > 0
            && event.layer_count == p.block_count && p.context_length > 0 && p.embedding_length > 0
            && p.attention_head_count > 0 && p.attention_head_count_kv > 0 && p.vocab_size > 0
            && p.shortconv_l_cache > 0 && 1 <= p.rope_freq_base_bits && p.rope_freq_base_bits <= 0x7f80_0000u32;
        if !(execution || validation) {
            return Err(Error::ModelInvalid);
        }
        let begun = self.builder.contract_begin(
            common::ContractBegin::new(event.model, p.block_count, p.context_length),
        );
        if begun.is_err() {
            return begun;
        }
        let bound = self.builder.global_bindings(
            common::GlobalBindings::new(TOKEN_EMBEDDING_NAME.as_bytes(), OUTPUT_NORM_NAME.as_bytes(), true),
        );
        match bound {
            Ok(()) => {
                self.parameters = *p;
                Ok(())
            },
            Err(error) => match self.builder.contract_reset(common::ContractReset::new()) {
                Ok(()) => Err(error),
                Err(_) => Err(Error::Internal),
            },
        }
    }

    /// Binds block `index` with the route of its family, then checks that no
    /// tensor of the other family is present; a present one discards the contract.
    pub fn block_build(&mut self, event: BlockBuild) -> (result: Result<(), Error>)
        requires
            old(self).wf(),
        ensures
            final(self).wf(),
            block_transition(old(self)@, event, result, final(self)@),
    {
        match self.builder.phase() {
            BuilderPhase::Building => {},
            _ => {
                return Err(Error::UnexpectedEvent);
            },
        }
        if !(event.index >= 0 && event.index < self.parameters.block_count) {
            return Err(Error::InvalidRequest);
        }
        proof {
            self.builder.lemma_wf_view();
        }
        let attention = self.block_uses_attention(event.index);
        let attention_route = self.attention_layer();
        let shortconv_route = self.shortconv_layer();
        proof {
            lemma_block_steps_keep_capacity(
                self.builder@,
                common::AttentionBlock { index: event.index, layer: attention_route },
                common::ShortconvBlock { index: event.index, layer: shortconv_route },
                common::BlockAudit { index: event.index },
            );
        }
        let bound = if attention {
            self.builder.attention_block(common::AttentionBlock::new(event.index, attention_route))
        } else {
            self.builder.shortconv_block(common::ShortconvBlock::new(event.index, shortconv_route))
        };
        if bound.is_err() {
            return bound;
        }
        let family = if attention {
            common::BlockFamily::Shortconv
        } else {
            common::BlockFamily::Attention
        };
        let excluded = self.builder.reject_block_tensors(common::RejectBlockTensors::new(event.index, family));
        if excluded.is_ok() {
            return Ok(());
        }
        let undone = self.builder.contract_reset(common::ContractReset::new());
        self.parameters = Parameters::default();
        crate::attention_family::event::clear_block_views(&mut self.blocks);
        match undone {
            Ok(()) => excluded,
            Err(_) => Err(Error::Internal),
        }
    }

    /// Installs the topology computed from the layer pattern, or from the fixed
    /// attention layers where there is no pattern.
    pub fn topology_build(&mut self, event: TopologyBuild) -> (result: Result<(), Error>)
        requires
            old(self).wf(),
        ensures
            final(self).wf(),
            (result, final(self)@) == topology_transition(old(self)@),
    {
        match self.builder.phase() {
            BuilderPhase::Building => {},
            _ => {
                return Err(Error::UnexpectedEvent);
            },
        }
        proof {
            self.builder.lemma_wf_view();
        }
        match self.topology_values() {
            Some((tensors, workspace)) => self.builder.topology(
                common::Topology::new(tensors, tensors, 4, workspace),
            ),
            None => Err(Error::InvalidRequest),
        }
    }

    /// Builds the prefill and decode plans.
    pub fn plan_build(&mut self, event: PlanBuild) -> (result: Result<(), Error>)
        requires
            old(self).wf(),
        ensures
            final(self).wf(),
            (result, final(self)@) == plan_transition(old(self)@),
    {
        match self.builder.phase() {
            BuilderPhase::Building => {},
            _ => {
                return Err(Error::UnexpectedEvent);
            },
        }
        self.builder.plan(common::Plan::new())
    }

    /// Validates block `index` and caches its description.
    pub fn block_validation(&mut self, event: BlockValidation) -> (result: Result<(), Error>)
        requires
            old(self).wf(),
        ensures
            final(self).wf(),
            (result, final(self)@) == validation_transition(old(self)@, event),
    {
        match self.builder.phase() {
            BuilderPhase::Building => {},
            _ => {
                return Err(Error::UnexpectedEvent);
            },
        }
        proof {
            self.builder.lemma_wf_view();
        }
        let validated = self.builder.block_validation(common::BlockValidation::new(event.index));
        if validated.is_err() {
            return validated;
        }
        match self.builder.block_visit(common::BlockVisit::new(event.index)) {
            Ok(d) => {
                self.blocks.set(event.index as usize, Some(d));
                Ok(())
            },
            Err(_) => Err(Error::Internal),
        }
    }

    /// Audits one validated block.
    pub fn block_audit(&mut self, event: BlockAudit) -> (result: Result<(), Error>)
        requires
            old(self).wf(),
        ensures
            final(self).wf(),
            (result, final(self)@) == audit_transition(old(self)@, event),
    {
        match self.builder.phase() {
            BuilderPhase::Building => {},
            _ => {
                return Err(Error::UnexpectedEvent);
            },
        }
        proof {
            self.builder.lemma_wf_view();
            lemma_block_steps_keep_capacity(
                self.builder@,
                common::AttentionBlock { index: event.index, layer: crate::generation::default_layer() },
                common::ShortconvBlock { index: event.index, layer: crate::generation::default_layer() },
                common::BlockAudit { index: event.index },
            );
        }
        self.builder.block_audit(common::BlockAudit::new(event.index))
    }

    /// Finalizes one stage family.
    pub fn stage_audit(&mut self, event: StageAudit) -> (result: Result<(), Error>)
        requires
            old(self).wf(),
        ensures
            final(self).wf(),
            (result, final(self)@) == stage_transition(old(self)@, event),
    {
        match self.builder.phase() {
            BuilderPhase::Building => {},
            _ => {
                return Err(Error::UnexpectedEvent);
            },
        }
        self.builder.stage_audit(common::StageAudit::new(event.family))
    }

    /// The completed contract.
    pub fn contract_visit(&self, event: ContractVisit) -> (result: Result<ContractDescriptor, Error>)
        requires
            self.wf(),
        ensures
            match result {
                Ok(d) => self@.builder.phase == BuilderPhase::Building && contract_complete(self@.builder)
                    && describes_contract(d, self@.builder),
                Err(e) => e == (if self@.builder.phase != BuilderPhase::Building {
                    Error::UnexpectedEvent
                } else {
                    Error::InvalidRequest
                }) && !(self@.builder.phase == BuilderPhase::Building && contract_complete(self@.builder)),
            },
    {
        self.builder.contract_visit(common::ContractVisit::new())
    }

    /// The cached description of validated block `index`.
    pub fn block_visit(&self, event: BlockVisit) -> (result: Result<BlockDescriptor, Error>)
        requires
            self.wf(),
        ensures
            result == block_visit_transition(self@, event.index),
            result matches Ok(d) ==> d.index == event.index,
    {
        match self.builder.phase() {
            BuilderPhase::Building => {},
            _ => {
                return Err(Error::UnexpectedEvent);
            },
        }
        if event.index < 0 || event.index as usize >= self.blocks.len() {
            return Err(Error::InvalidRequest);
        }
        match self.blocks[event.index as usize] {
            Some(d) => Ok(d),
            None => Err(Error::InvalidRequest),
        }
    }

    /// Discards the active contract, zeroes the parameters and drops every cached
    /// description.
    pub fn contract_reset(&mut self, event: ContractReset) -> (result: Result<(), Error>)
        requires
            old(self).wf(),
        ensures
            final(self).wf(),
            reset_transition(old(self)@, result, final(self)@),
    {
        match self.builder.phase() {
            BuilderPhase::Empty => {
                return Err(Error::UnexpectedEvent);
            },
            _ => {},
        }
        let reset = self.builder.contract_reset(common::ContractReset::new());
        if reset.is_ok() {
            self.parameters = Parameters::default();
            crate::attention_family::event::clear_block_views(&mut self.blocks);
        }
        reset
    }

    /// Hands every storage region back to the caller; the actor then accepts no
    /// further request.
    pub fn storage_release(&mut self, event: StorageRelease) -> (result: Result<Storage, Error>)
        requires
            old(self).wf(),
        ensures
            final(self).wf(),
            final(self)@ == release_transition(old(self)@).1,
            match result {
                Ok(s) => s.wf() && release_transition(old(self)@).0 == Ok::<
                    (StorageView, Seq<Option<BlockDescriptor>>),
                    Error,
                >((s.common@, s.blocks@)),
                Err(e) => release_transition(old(self)@).0 == Err::<
                    (StorageView, Seq<Option<BlockDescriptor>>),
                    Error,
                >(e),
            },
    {
        match self.builder.phase() {
            BuilderPhase::Bound => {},
            BuilderPhase::Empty => {
                return Err(Error::UnexpectedEvent);
            },
            BuilderPhase::Building => {
                return Err(Error::Busy);
            },
        }
        proof {
            self.builder.lemma_wf_view();
        }
        match self.builder.storage_release(common::StorageRelease::new()) {
            Ok(common_storage) => {
                assert(common_storage@ == held_storage(old(self)@.builder));
                assert(self.blocks@.len() == common_storage@.blocks.len());
                let mut blocks: Vec<Option<BlockDescriptor>> = Vec::new();
                core::mem::swap(&mut blocks, &mut self.blocks);
                Ok(Storage { common: common_storage, blocks })
            },
            Err(error) => Err(error),
        }
    }
}


/// A block request on a contract under construction never leaves a partial
/// state: either the contract goes on with the same block count and parameters,
/// or it is discarded entirely, leaving the actor bound with no contract fact,
/// zeroed parameters and no cached block.
pub proof fn lemma_block_requests_keep_or_discard_the_contract(
    g: Lfm2View,
    e: BlockBuild,
    result: Result<(), Error>,
    after: Lfm2View,
)
    requires
        builder_view_valid(g.builder),
        g.builder.phase == BuilderPhase::Building,
        block_transition(g, e, result, after),
    ensures
        ({
            &&& after.builder.phase == BuilderPhase::Building
            &&& after.builder.block_count == g.builder.block_count
            &&& after.parameters == g.parameters
            &&& after.blocks == g.blocks
        }) || ({
            &&& result is Err
            &&& after.builder.phase == BuilderPhase::Bound
            &&& contract_clear(after.builder)
            &&& is_zero_parameters(after.parameters)
            &&& after.blocks == Seq::new(g.blocks.len(), |i: int| None::<BlockDescriptor>)
        }),
{
    let p = g.parameters;
    if 0 <= e.index < p.block_count {
        let attention = block_uses_attention(p, e.index);
        let step = if attention {
            attention_view(g.builder, common::AttentionBlock { index: e.index, layer: attention_layer(p) })
        } else {
            shortconv_view(g.builder, common::ShortconvBlock { index: e.index, layer: shortconv_layer(p) })
        };
        if step.0 is Ok {
            assert(reset_view(step.1).1.finalized =~= Seq::new(14, |i: int| false));
        }
    }
}

/// A refused topology, plan, validation, audit or stage request leaves the
/// actor exactly as it was.
pub proof fn lemma_refused_requests_leave_actor_unchanged(
    g: Lfm2View,
    validation: BlockValidation,
    audit: BlockAudit,
    stage: StageAudit,
)
    requires
        builder_view_valid(g.builder),
    ensures
        topology_transition(g).0 is Err ==> topology_transition(g).1 == g,
        plan_transition(g).0 is Err ==> plan_transition(g).1 == g,
        validation_transition(g, validation).0 is Err ==> validation_transition(g, validation).1 == g,
        audit_transition(g, audit).0 is Err ==> audit_transition(g, audit).1 == g,
        stage_transition(g, stage).0 is Err ==> stage_transition(g, stage).1 == g,
{
    if g.builder.phase == BuilderPhase::Building {
        let step = validate_view(g.builder, common::BlockValidation { index: validation.index });
        if step.0 is Ok {
            lemma_validated_block_is_visible(g.builder, common::BlockValidation { index: validation.index });
        }
    }
}

/// Whether a state holds storage of `n` blocks with one cache slot per block.
pub open spec fn holds_capacity(g: Lfm2View, n: nat) -> bool {
    &&& g.builder.storage is Some
    &&& held_storage(g.builder).blocks.len() == n
    &&& g.blocks.len() == n
}

/// The block capacity of the storage an actor holds survives every request but
/// a release, and a release hands back the common regions and the block cache
/// at that capacity.
pub proof fn lemma_requests_keep_block_capacity(
    g: Lfm2View,
    begin: ContractBegin,
    block: BlockBuild,
    block_result: Result<(), Error>,
    after_block: Lfm2View,
    validation: BlockValidation,
    audit: BlockAudit,
    stage: StageAudit,
    reset_result: Result<(), Error>,
    after_reset: Lfm2View,
)
    requires
        builder_view_valid(g.builder),
        holds_capacity(g, g.blocks.len()),
    ensures
        holds_capacity(begin_transition(g, begin).1, g.blocks.len()),
        block_transition(g, block, block_result, after_block) ==> holds_capacity(after_block, g.blocks.len()),
        holds_capacity(topology_transition(g).1, g.blocks.len()),
        holds_capacity(plan_transition(g).1, g.blocks.len()),
        holds_capacity(validation_transition(g, validation).1, g.blocks.len()),
        holds_capacity(audit_transition(g, audit).1, g.blocks.len()),
        holds_capacity(stage_transition(g, stage).1, g.blocks.len()),
        reset_transition(g, reset_result, after_reset) ==> holds_capacity(after_reset, g.blocks.len()),
        release_transition(g).0 matches Ok((s, cache)) ==> s.blocks.len() == g.blocks.len() && cache.len()
            == g.blocks.len(),
{
    if g.builder.phase == BuilderPhase::Building {
        lemma_block_steps_keep_capacity(
            g.builder,
            common::AttentionBlock { index: block.index, layer: attention_layer(g.parameters) },
            common::ShortconvBlock { index: block.index, layer: shortconv_layer(g.parameters) },
            common::BlockAudit { index: audit.index },
        );
    }
}

/// A refused begin either leaves the actor unchanged or, when the global tensors
/// were refused after the contract had begun, leaves it bound with no contract
/// fact and with its parameters and cached blocks as they were.
pub proof fn lemma_refused_begin_leaves_no_contract(g: Lfm2View, e: ContractBegin)
    requires
        builder_view_valid(g.builder),
    ensures
        begin_transition(g, e).0 is Err ==> (begin_transition(g, e).1 == g || ({
            &&& begin_transition(g, e).1.builder.phase == BuilderPhase::Bound
            &&& contract_clear(begin_transition(g, e).1.builder)
            &&& begin_transition(g, e).1.parameters == g.parameters
            &&& begin_transition(g, e).1.blocks == g.blocks
        })),
{
    assert(reset_view(g.builder).1.finalized =~= Seq::new(14, |i: int| false));
}

/// An actor that holds storage can always discard its contract: the reset
/// succeeds and leaves it bound with no contract fact.
pub proof fn lemma_reset_always_succeeds(g: Lfm2View, result: Result<(), Error>, after: Lfm2View)
    requires
        builder_view_valid(g.builder),
        g.builder.phase != BuilderPhase::Empty,
        reset_transition(g, result, after),
    ensures
        result is Ok,
        after.builder.phase == BuilderPhase::Bound,
        contract_clear(after.builder),
{
    assert(reset_view(g.builder).1.finalized =~= Seq::new(14, |i: int| false));
}

} // verus!
