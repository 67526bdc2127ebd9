//! The Gemma4 family actor: routes each request through the common generation
//! builder with the Gemma4 layer, window and shared key/value layout.

use vstd::prelude::*;
use vstd::string::StringSliceAdditionalSpecFns;

use crate::bytes::bytes_equal;
use crate::catalog::Catalog;
use crate::generation::builder::{
    attention_view, audit_view, begin_view, block_visit_result, builder_view_valid, contract_clear, contract_complete,
    describes_contract, globals_view, held_storage, lemma_block_steps_keep_capacity, lemma_validated_block_is_visible,
    plan_view, release_view, reset_view, stage_view, topology_view, validate_view, BlockDescriptor, Builder,
    BuilderPhase, BuilderView, StorageView,
};
use crate::generation::event as common;
use crate::generation::quantized_path::Resolver;
use crate::generation::{
    AttentionQkNormRoute, AttentionVNormRoute, AttentionValueRoute, AttentionWindowRoute, ContractDescriptor,
    LayerExecution, ResidualRoute,
};

use crate::attention_family::event::cache_indexed;
use super::event::{
    is_zero_parameters, BlockAudit, BlockBuild, BlockValidation, BlockVisit, ContractBegin, ContractReset,
    ContractVisit, Error, Parameters, PlanBuild, StageAudit, Storage, StorageBindError, StorageRelease,
    TopologyBuild,
};
use super::{
    ARCHITECTURE_NAME, DEDICATED_KV_BLOCK_TENSOR_COUNT, GLOBAL_TENSOR_COUNT, OUTPUT_NORM_NAME,
    SHARED_KV_BLOCK_TENSOR_COUNT, TOKEN_EMBEDDING_NAME,
};

verus! {

/// Abstract state of a Gemma4 actor: its builder, the parameters of the active
/// contract and the cached description of each validated block.
pub struct Gemma4View {
    pub builder: BuilderView,
    pub parameters: Parameters,
    pub blocks: Seq<Option<BlockDescriptor>>,
}

/// Single-writer Gemma4 family actor.
#[derive(Debug)]
pub struct Gemma4 {
    builder: Builder,
    parameters: Parameters,
    blocks: Vec<Option<BlockDescriptor>>,
}

impl View for Gemma4 {
    type V = Gemma4View;

    closed spec fn view(&self) -> Gemma4View {
        Gemma4View { builder: self.builder@, parameters: self.parameters, blocks: self.blocks@ }
    }
}

/// `a - b`, clamped to the range of `i32`.
pub open spec fn saturating_sub_i32(a: int, b: int) -> int {
    if a - b > i32::MAX {
        i32::MAX as int
    } else if a - b < i32::MIN {
        i32::MIN as int
    } else {
        a - b
    }
}

/// The first block that reuses another block's key/value projections.
pub open spec fn shared_kv_start(p: Parameters) -> int {
    saturating_sub_i32(p.block_count as int, p.attention_shared_kv_layers as int)
}

/// Block `index` reuses another block's key/value projections.
pub open spec fn uses_shared_kv(p: Parameters, index: i32) -> bool {
    index >= shared_kv_start(p)
}

/// Block `index` attends over a sliding window.
pub open spec fn uses_sliding_window(p: Parameters, index: i32) -> bool {
    &&& 0 <= index
    &&& index < p.sliding_window_pattern_count
    &&& index < 35
    &&& p.sliding_window_pattern[index as int] != 0
}

/// The execution route of block `index`.
pub open spec fn layer_of(p: Parameters, index: i32) -> LayerExecution {
    let shared = uses_shared_kv(p, index);
    let sliding = uses_sliding_window(p, index);
    LayerExecution {
        residual_route: ResidualRoute::Attention,
        qk_norm_route: AttentionQkNormRoute::HeadwiseRms,
        value_route: if shared {
            AttentionValueRoute::SharedKeyValue
        } else {
            AttentionValueRoute::DedicatedValue
        },
        v_norm_route: if shared {
            AttentionVNormRoute::Rms
        } else {
            AttentionVNormRoute::NoNorm
        },
        window_route: if sliding {
            AttentionWindowRoute::SlidingWindow
        } else {
            AttentionWindowRoute::FullContext
        },
        attention_key_length: if sliding {
            p.attention_key_length_swa
        } else {
            p.attention_key_length
        },
        attention_value_length: if sliding {
            p.attention_value_length_swa
        } else {
            p.attention_value_length
        },
        attention_rope_dim: if sliding {
            p.rope_dimension_count_swa
        } else {
            p.rope_dimension_count
        },
        attention_rope_freq_base_bits: if sliding {
            p.rope_freq_base_swa_bits
        } else {
            p.rope_freq_base_bits
        },
    }
}

/// Blocks with their own key/value projections, for non-negative counts.
pub open spec fn dedicated_blocks(p: Parameters) -> int {
    if p.attention_shared_kv_layers <= p.block_count {
        p.block_count - p.attention_shared_kv_layers
    } else {
        0
    }
}

/// Tensors of the whole topology: the globals plus every block's own tensors.
pub open spec fn topology_tensor_count(p: Parameters) -> int {
    GLOBAL_TENSOR_COUNT + DEDICATED_KV_BLOCK_TENSOR_COUNT * dedicated_blocks(p) + SHARED_KV_BLOCK_TENSOR_COUNT * (
    p.block_count - dedicated_blocks(p))
}

/// Tensor count and workspace bytes of the topology, when every count is
/// non-negative and both fit their widths.
pub open spec fn topology_values(p: Parameters) -> Option<(u32, u64)> {
    if p.block_count < 0 || p.embedding_length < 0 || p.attention_shared_kv_layers < 0 {
        None
    } else if topology_tensor_count(p) > u32::MAX {
        None
    } else if topology_tensor_count(p) * p.embedding_length > u64::MAX {
        None
    } else if topology_tensor_count(p) * p.embedding_length * 4 > u64::MAX {
        None
    } else {
        Some((topology_tensor_count(p) as u32, (topology_tensor_count(p) * p.embedding_length * 4) as u64))
    }
}

/// The parameters admit a contract.
pub open spec fn parameters_valid(p: Parameters) -> bool {
    p.block_count > 0 && p.embedding_length > 0 && p.context_length > 0
}

/// The view with the builder replaced.
pub open spec fn with_builder(g: Gemma4View, b: BuilderView) -> Gemma4View {
    Gemma4View { builder: b, ..g }
}

/// Result and next state of beginning a contract.
pub open spec fn begin_transition(g: Gemma4View, e: ContractBegin) -> (Result<(), Error>, Gemma4View) {
    match g.builder.phase {
        BuilderPhase::Empty => (Err(Error::UnexpectedEvent), g),
        BuilderPhase::Building => (Err(Error::Busy), g),
        BuilderPhase::Bound => if e.architecture@ != ARCHITECTURE_NAME.spec_bytes() {
            (Err(Error::InvalidRequest), g)
        } else if !parameters_valid(e.parameters) {
            (Err(Error::ModelInvalid), g)
        } else {
            let begun = begin_view(
                g.builder,
                common::ContractBegin {
                    model: e.model,
                    block_count: e.parameters.block_count,
                    context_length: e.parameters.context_length,
                },
            );
            if begun.0 is Err {
                (begun.0, with_builder(g, begun.1))
            } else {
                let bound = globals_view(
                    begun.1,
                    TOKEN_EMBEDDING_NAME.spec_bytes(),
                    OUTPUT_NORM_NAME.spec_bytes(),
                    true,
                );
                if bound.0 is Ok {
                    (Ok(()), Gemma4View { builder: bound.1, parameters: e.parameters, ..g })
                } else {
                    let undone = reset_view(bound.1);
                    (
                        if undone.0 is Ok {
                            bound.0
                        } else {
                            Err(Error::Internal)
                        },
                        with_builder(g, undone.1),
                    )
                }
            }
        },
    }
}

/// Result and next state of binding one block.
pub open spec fn block_transition(g: Gemma4View, e: BlockBuild) -> (Result<(), Error>, Gemma4View) {
    if g.builder.phase != BuilderPhase::Building {
        (Err(Error::UnexpectedEvent), g)
    } else if !(0 <= e.index < g.parameters.block_count) {
        (Err(Error::InvalidRequest), g)
    } else {
        let step = attention_view(
            g.builder,
            common::AttentionBlock { index: e.index, layer: layer_of(g.parameters, e.index) },
        );
        (step.0, with_builder(g, step.1))
    }
}

/// Result and next state of installing the topology.
pub open spec fn topology_transition(g: Gemma4View) -> (Result<(), Error>, Gemma4View) {
    if g.builder.phase != BuilderPhase::Building {
        (Err(Error::UnexpectedEvent), g)
    } else {
        match topology_values(g.parameters) {
            None => (Err(Error::InvalidRequest), g),
            Some((tensors, workspace)) => {
                let step = topology_view(
                    g.builder,
                    common::Topology {
                        node_count: tensors,
                        tensor_count: tensors,
                        bytes_per_tensor: 4,
                        workspace_capacity_bytes: workspace,
                    },
                );
                (step.0, with_builder(g, step.1))
            },
        }
    }
}

/// Result and next state of building the plans.
pub open spec fn plan_transition(g: Gemma4View) -> (Result<(), Error>, Gemma4View) {
    if g.builder.phase != BuilderPhase::Building {
        (Err(Error::UnexpectedEvent), g)
    } else {
        (plan_view(g.builder).0, with_builder(g, plan_view(g.builder).1))
    }
}

/// Result and next state of validating block `index` and caching its description.
pub open spec fn validation_transition(g: Gemma4View, e: BlockValidation) -> (Result<(), Error>, Gemma4View) {
    if g.builder.phase != BuilderPhase::Building {
        (Err(Error::UnexpectedEvent), g)
    } else {
        let step = validate_view(g.builder, common::BlockValidation { index: e.index });
        if step.0 is Err {
            (step.0, with_builder(g, step.1))
        } else {
            match block_visit_result(step.1, e.index) {
                Ok(d) => (
                    Ok(()),
                    Gemma4View { builder: step.1, blocks: g.blocks.update(e.index as int, Some(d)), ..g },
                ),
                Err(_) => (Err(Error::Internal), with_builder(g, step.1)),
            }
        }
    }
}

/// Result and next state of auditing one block.
pub open spec fn audit_transition(g: Gemma4View, e: BlockAudit) -> (Result<(), Error>, Gemma4View) {
    if g.builder.phase != BuilderPhase::Building {
        (Err(Error::UnexpectedEvent), g)
    } else {
        let step = audit_view(g.builder, common::BlockAudit { index: e.index });
        (step.0, with_builder(g, step.1))
    }
}

/// Result and next state of finalizing one stage family.
pub open spec fn stage_transition(g: Gemma4View, e: StageAudit) -> (Result<(), Error>, Gemma4View) {
    if g.builder.phase != BuilderPhase::Building {
        (Err(Error::UnexpectedEvent), g)
    } else {
        let step = stage_view(g.builder, common::StageAudit { family: e.family });
        (step.0, with_builder(g, step.1))
    }
}

/// What a visit of cached block `index` returns.
pub open spec fn block_visit_transition(g: Gemma4View, index: i32) -> Result<BlockDescriptor, Error> {
    if g.builder.phase != BuilderPhase::Building {
        Err(Error::UnexpectedEvent)
    } else if 0 <= index < g.blocks.len() && g.blocks[index as int] is Some {
        Ok(g.blocks[index as int].unwrap())
    } else {
        Err(Error::InvalidRequest)
    }
}

/// Discarding the contract: on success the parameters are zeroed and every cached
/// description is dropped; otherwise only the builder's answer is recorded.
pub open spec fn reset_transition(g: Gemma4View, result: Result<(), Error>, after: Gemma4View) -> bool {
    if g.builder.phase == BuilderPhase::Empty {
        result == Err::<(), Error>(Error::UnexpectedEvent) && after == g
    } else {
        let step = reset_view(g.builder);
        &&& result == step.0
        &&& after.builder == step.1
        &&& if step.0 is Ok {
            &&& is_zero_parameters(after.parameters)
            &&& after.blocks == Seq::new(g.blocks.len(), |i: int| None::<BlockDescriptor>)
        } else {
            after.parameters == g.parameters && after.blocks == g.blocks
        }
    }
}

/// Result and next state of releasing the storage: the common regions and the
/// block cache go back to the caller.
pub open spec fn release_transition(g: Gemma4View) -> (
    Result<(StorageView, Seq<Option<BlockDescriptor>>), Error>,
    Gemma4View,
) {
    match g.builder.phase {
        BuilderPhase::Empty => (Err(Error::UnexpectedEvent), g),
        BuilderPhase::Building => (Err(Error::Busy), g),
        BuilderPhase::Bound => {
            let step = release_view(g.builder);
            match step.0 {
                Ok(s) => (Ok((s, g.blocks)), Gemma4View { builder: step.1, blocks: Seq::empty(), ..g }),
                Err(e) => (Err(e), with_builder(g, step.1)),
            }
        },
    }
}

impl Gemma4 {
    /// The actor's invariant: a well-formed builder and one cache slot per block
    /// of the bound storage.
    pub closed spec fn wf(&self) -> bool {
        &&& self.builder.wf()
        &&& (self.builder@.storage matches Some(s) ==> self.blocks@.len() == s.blocks.len())
        &&& cache_indexed(self.blocks@)
    }

    /// A well-formed actor has a valid builder view, one cache slot per block of
    /// the storage it holds, and every cached description at its position.
    pub proof fn lemma_wf_view(&self)
        requires
            self.wf(),
        ensures
            builder_view_valid(self@.builder),
            self@.builder.storage is Some ==> self@.blocks.len() == held_storage(self@.builder).blocks.len(),
            cache_indexed(self@.blocks),
    {
        self.builder.lemma_wf_view();
    }

    /// Builds the actor over a sealed catalog and binds the caller's storage; a
    /// refused bind hands every storage region back.
    pub fn new(catalog: Catalog, capability: Resolver, storage: Storage) -> (actor: Result<Self, StorageBindError>)
        requires
            catalog.wf(),
            storage.wf(),
        ensures
            actor is Ok,
            actor matches Ok(a) ==> {
                &&& a.wf()
                &&& a@.builder.phase == BuilderPhase::Bound
                &&& a@.builder.catalog == catalog@
                &&& a@.builder.storage == Some(storage.common@)
                &&& is_zero_parameters(a@.parameters)
                &&& a@.blocks == storage.blocks@
            },
    {
        let Storage { common: common_storage, blocks } = storage;
        let mut builder = Builder::new(catalog, capability);
        match builder.storage_bind(common::StorageBind::new(common_storage)) {
            Ok(()) => {},
            Err(refused) => {
                let error = refused.error();
                return Err(StorageBindError { error, storage: Storage { common: refused.into_storage(), blocks } });
            },
        }
        Ok(Gemma4 { builder, parameters: Parameters::default(), blocks })
    }

    /// Block `index`'s execution route under the active parameters.
    fn layer(&self, index: i32) -> (layer: LayerExecution)
        ensures
            layer == layer_of(self.parameters, index),
    {
        let p = &self.parameters;
        let difference: i64 = p.block_count as i64 - p.attention_shared_kv_layers as i64;
        let shared_start: i64 = if difference > i32::MAX as i64 {
            i32::MAX as i64
        } else if difference < i32::MIN as i64 {
            i32::MIN as i64
        } else {
            difference
        };
        let shared = index as i64 >= shared_start;
        let sliding = index >= 0 && (index as u32) < p.sliding_window_pattern_count && (index as usize) < 35
            && p.sliding_window_pattern[index as usize] != 0;
        LayerExecution::new(
            ResidualRoute::Attention,
            AttentionQkNormRoute::HeadwiseRms,
            if shared {
                AttentionValueRoute::SharedKeyValue
            } else {
                AttentionValueRoute::DedicatedValue
            },
            if shared {
                AttentionVNormRoute::Rms
            } else {
                AttentionVNormRoute::NoNorm
            },
            if sliding {
                AttentionWindowRoute::SlidingWindow
            } else {
                AttentionWindowRoute::FullContext
            },
            if sliding {
                p.attention_key_length_swa
            } else {
                p.attention_key_length
            },
            if sliding {
                p.attention_value_length_swa
            } else {
                p.attention_value_length
            },
            if sliding {
                p.rope_dimension_count_swa
            } else {
                p.rope_dimension_count
            },
            if sliding {
                p.rope_freq_base_swa_bits
            } else {
                p.rope_freq_base_bits
            },
        )
    }

    /// Tensor count and workspace bytes of the topology under the active parameters.
    fn topology_values(&self) -> (values: Option<(u32, u64)>)
        ensures
            values == topology_values(self.parameters),
    {
        let p = &self.parameters;
        if p.block_count < 0 || p.embedding_length < 0 || p.attention_shared_kv_layers < 0 {
            return None;
        }
        let blocks = p.block_count as u64;
        let shared = p.attention_shared_kv_layers as u64;
        let dedicated: u64 = if shared <= blocks {
            blocks - shared
        } else {
            0
        };
        let tensors: u64 = GLOBAL_TENSOR_COUNT as u64 + DEDICATED_KV_BLOCK_TENSOR_COUNT as u64 * dedicated
            + SHARED_KV_BLOCK_TENSOR_COUNT as u64 * (blocks - dedicated);
        if tensors > u32::MAX as u64 {
            return None;
        }
        let embedding = p.embedding_length as u64;
        let scaled = match tensors.checked_mul(embedding) {
            Some(v) => v,
            None => {
                return None;
            },
        };
        let workspace = match scaled.checked_mul(4) {
            Some(v) => v,
            None => {
                return None;
            },
        };
        Some((tensors as u32, workspace))
    }

    /// Begins a Gemma4 contract: checks the architecture and parameters, begins the
    /// common contract and binds the global tensors with a tied output allowed; a
    /// refused global binding discards the begun contract.
    pub fn contract_begin(&mut self, event: ContractBegin<'_>) -> (result: Result<(), Error>)
        requires
            old(self).wf(),
        ensures
            final(self).wf(),
            (result, final(self)@) == begin_transition(old(self)@, event),
    {
        match self.builder.phase() {
            BuilderPhase::Bound => {},
            BuilderPhase::Empty => {
                return Err(Error::UnexpectedEvent);
            },
            BuilderPhase::Building => {
                return Err(Error::Busy);
            },
        }
        if !bytes_equal(event.architecture, ARCHITECTURE_NAME.as_bytes()) {
            return Err(Error::InvalidRequest);
        }
        let p = event.parameters;
        if !(p.block_count > 0 && p.embedding_length > 0 && p.context_length > 0) {
            return Err(Error::ModelInvalid);
        }
        let begun = self.builder.contract_begin(
            common::ContractBegin::new(event.model, p.block_count, p.context_length),
        );
        if begun.is_err() {
            return begun;
        }
        let bound = self.builder.global_bindings(
            common::GlobalBindings::new(TOKEN_EMBEDDING_NAME.as_bytes(), OUTPUT_NORM_NAME.as_bytes(), true),
        );
        match bound {
            Ok(()) => {
                self.parameters = p;
                Ok(())
            },
            Err(error) => match self.builder.contract_reset(common::ContractReset::new()) {
                Ok(()) => Err(error),
                Err(_) => Err(Error::Internal),
            },
        }
    }

    /// Binds block `index` as a Q/K-normalized attention block with its Gemma4 route.
    pub fn block_build(&mut self, event: BlockBuild) -> (result: Result<(), Error>)
        requires
            old(self).wf(),
        ensures
            final(self).wf(),
            (result, final(self)@) == block_transition(old(self)@, event),
    {
        match self.builder.phase() {
            BuilderPhase::Building => {},
            _ => {
                return Err(Error::UnexpectedEvent);
            },
        }
        if !(event.index >= 0 && event.index < self.parameters.block_count) {
            return Err(Error::InvalidRequest);
        }
        let layer = self.layer(event.index);
        proof {
            self.builder.lemma_wf_view();
            lemma_block_steps_keep_capacity(
                self.builder@,
                common::AttentionBlock { index: event.index, layer },
                common::ShortconvBlock { index: event.index, layer },
                common::BlockAudit { index: event.index },
            );
        }
        self.builder.attention_block(common::AttentionBlock::new(event.index, layer))
    }

    /// Installs the topology computed from the active parameters.
    pub fn topology_build(&mut self, event: TopologyBuild) -> (result: Result<(), Error>)
        requires
            old(self).wf(),
        ensures
            final(self).wf(),
            (result, final(self)@) == topology_transition(old(self)@),
    {
        match self.builder.phase() {
            BuilderPhase::Building => {},
            _ => {
                return Err(Error::UnexpectedEvent);
            },
        }
        match self.topology_values() {
            Some((tensors, workspace)) => self.builder.topology(
                common::Topology::new(tensors, tensors, 4, workspace),
            ),
            None => Err(Error::InvalidRequest),
        }
    }

    /// Builds the prefill and decode plans.
    pub fn plan_build(&mut self, event: PlanBuild) -> (result: Result<(), Error>)
        requires
            old(self).wf(),
        ensures
            final(self).wf(),
            (result, final(self)@) == plan_transition(old(self)@),
    {
        match self.builder.phase() {
            BuilderPhase::Building => {},
            _ => {
                return Err(Error::UnexpectedEvent);
            },
        }
        self.builder.plan(common::Plan::new())
    }

    /// Validates block `index` and caches its description.
    pub fn block_validation(&mut self, event: BlockValidation) -> (result: Result<(), Error>)
        requires
            old(self).wf(),
        ensures
            final(self).wf(),
            (result, final(self)@) == validation_transition(old(self)@, event),
    {
        match self.builder.phase() {
            BuilderPhase::Building => {},
            _ => {
                return Err(Error::UnexpectedEvent);
            },
        }
        proof {
            self.builder.lemma_wf_view();
        }
        let validated = self.builder.block_validation(common::BlockValidation::new(event.index));
        if validated.is_err() {
            return validated;
        }
        match self.builder.block_visit(common::BlockVisit::new(event.index)) {
            Ok(d) => {
                self.blocks.set(event.index as usize, Some(d));
                Ok(())
            },
            Err(_) => Err(Error::Internal),
        }
    }

    /// Audits one validated block.
    pub fn block_audit(&mut self, event: BlockAudit) -> (result: Result<(), Error>)
        requires
            old(self).wf(),
        ensures
            final(self).wf(),
            (result, final(self)@) == audit_transition(old(self)@, event),
    {
        match self.builder.phase() {
            BuilderPhase::Building => {},
            _ => {
                return Err(Error::UnexpectedEvent);
            },
        }
        proof {
            self.builder.lemma_wf_view();
            lemma_block_steps_keep_capacity(
                self.builder@,
                common::AttentionBlock { index: event.index, layer: crate::generation::default_layer() },
                common::ShortconvBlock { index: event.index, layer: crate::generation::default_layer() },
                common::BlockAudit { index: event.index },
            );
        }
        self.builder.block_audit(common::BlockAudit::new(event.index))
    }

    /// Finalizes one stage family.
    pub fn stage_audit(&mut self, event: StageAudit) -> (result: Result<(), Error>)
        requires
            old(self).wf(),
        ensures
            final(self).wf(),
            (result, final(self)@) == stage_transition(old(self)@, event),
    {
        match self.builder.phase() {
            BuilderPhase::Building => {},
            _ => {
                return Err(Error::UnexpectedEvent);
            },
        }
        self.builder.stage_audit(common::StageAudit::new(event.family))
    }

    /// The completed contract.
    pub fn contract_visit(&self, event: ContractVisit) -> (result: Result<ContractDescriptor, Error>)
        requires
            self.wf(),
        ensures
            match result {
                Ok(d) => self@.builder.phase == BuilderPhase::Building && contract_complete(self@.builder)
                    && describes_contract(d, self@.builder),
                Err(e) => e == (if self@.builder.phase != BuilderPhase::Building {
                    Error::UnexpectedEvent
                } else {
                    Error::InvalidRequest
                }) && !(self@.builder.phase == BuilderPhase::Building && contract_complete(self@.builder)),
            },
    {
        self.builder.contract_visit(common::ContractVisit::new())
    }

    /// The cached description of validated block `index`.
    pub fn block_visit(&self, event: BlockVisit) -> (result: Result<BlockDescriptor, Error>)
        requires
            self.wf(),
        ensures
            result == block_visit_transition(self@, event.index),
            result matches Ok(d) ==> d.index == event.index,
    {
        match self.builder.phase() {
            BuilderPhase::Building => {},
            _ => {
                return Err(Error::UnexpectedEvent);
            },
        }
        if event.index < 0 || event.index as usize >= self.blocks.len() {
            return Err(Error::InvalidRequest);
        }
        match self.blocks[event.index as usize] {
            Some(d) => Ok(d),
            None => Err(Error::InvalidRequest),
        }
    }

    /// Discards the active contract, zeroes the parameters and drops every cached
    /// description.
    pub fn contract_reset(&mut self, event: ContractReset) -> (result: Result<(), Error>)
        requires
            old(self).wf(),
        ensures
            final(self).wf(),
            reset_transition(old(self)@, result, final(self)@),
    {
        match self.builder.phase() {
            BuilderPhase::Empty => {
                return Err(Error::UnexpectedEvent);
            },
            _ => {},
        }
        let reset = self.builder.contract_reset(common::ContractReset::new());
        if reset.is_ok() {
            self.parameters = Parameters::default();
            crate::attention_family::event::clear_block_views(&mut self.blocks);
        }
        reset
    }

    /// Hands every storage region back to the caller; the actor then accepts no
    /// further request.
    pub fn storage_release(&mut self, event: StorageRelease) -> (result: Result<Storage, Error>)
        requires
            old(self).wf(),
        ensures
            final(self).wf(),
            final(self)@ == release_transition(old(self)@).1,
            match result {
                Ok(s) => s.wf() && release_transition(old(self)@).0 == Ok::<
                    (StorageView, Seq<Option<BlockDescriptor>>),
                    Error,
                >((s.common@, s.blocks@)),
                Err(e) => release_transition(old(self)@).0 == Err::<
                    (StorageView, Seq<Option<BlockDescriptor>>),
                    Error,
                >(e),
            },
    {
        match self.builder.phase() {
            BuilderPhase::Bound => {},
            BuilderPhase::Empty => {
                return Err(Error::UnexpectedEvent);
            },
            BuilderPhase::Building => {
                return Err(Error::Busy);
            },
        }
        proof {
            self.builder.lemma_wf_view();
        }
        match self.builder.storage_release(common::StorageRelease::new()) {
            Ok(common_storage) => {
                assert(common_storage@ == held_storage(old(self)@.builder));
                assert(self.blocks@.len() == common_storage@.blocks.len());
                let mut blocks: Vec<Option<BlockDescriptor>> = Vec::new();
                core::mem::swap(&mut blocks, &mut self.blocks);
                Ok(Storage { common: common_storage, blocks })
            },
            Err(error) => Err(error),
        }
    }
}


/// A refused block, topology, plan, validation, audit or stage request leaves
/// the actor exactly as it was.
pub proof fn lemma_refused_requests_leave_actor_unchanged(
    g: Gemma4View,
    block: BlockBuild,
    validation: BlockValidation,
    audit: BlockAudit,
    stage: StageAudit,
)
    requires
        builder_view_valid(g.builder),
    ensures
        block_transition(g, block).0 is Err ==> block_transition(g, block).1 == g,
        topology_transition(g).0 is Err ==> topology_transition(g).1 == g,
        plan_transition(g).0 is Err ==> plan_transition(g).1 == g,
        validation_transition(g, validation).0 is Err ==> validation_transition(g, validation).1 == g,
        audit_transition(g, audit).0 is Err ==> audit_transition(g, audit).1 == g,
        stage_transition(g, stage).0 is Err ==> stage_transition(g, stage).1 == g,
{
    if g.builder.phase == BuilderPhase::Building {
        let step = validate_view(g.builder, common::BlockValidation { index: validation.index });
        if step.0 is Ok {
            lemma_validated_block_is_visible(g.builder, common::BlockValidation { index: validation.index });
        }
    }
}

/// Whether a state holds storage of `n` blocks with one cache slot per block.
pub open spec fn holds_capacity(g: Gemma4View, n: nat) -> bool {
    &&& g.builder.storage is Some
    &&& held_storage(g.builder).blocks.len() == n
    &&& g.blocks.len() == n
}

/// The block capacity of the storage an actor holds survives every request but
/// a release, and a release hands back the common regions and the block cache
/// at that capacity.
pub proof fn lemma_requests_keep_block_capacity(
    g: Gemma4View,
    begin: ContractBegin,
    block: BlockBuild,
    validation: BlockValidation,
    audit: BlockAudit,
    stage: StageAudit,
    reset_result: Result<(), Error>,
    after_reset: Gemma4View,
)
    requires
        builder_view_valid(g.builder),
        holds_capacity(g, g.blocks.len()),
    ensures
        holds_capacity(begin_transition(g, begin).1, g.blocks.len()),
        holds_capacity(block_transition(g, block).1, g.blocks.len()),
        holds_capacity(topology_transition(g).1, g.blocks.len()),
        holds_capacity(plan_transition(g).1, g.blocks.len()),
        holds_capacity(validation_transition(g, validation).1, g.blocks.len()),
        holds_capacity(audit_transition(g, audit).1, g.blocks.len()),
        holds_capacity(stage_transition(g, stage).1, g.blocks.len()),
        reset_transition(g, reset_result, after_reset) ==> holds_capacity(after_reset, g.blocks.len()),
        release_transition(g).0 matches Ok((s, cache)) ==> s.blocks.len() == g.blocks.len() && cache.len()
            == g.blocks.len(),
{
    if g.builder.phase == BuilderPhase::Building {
        lemma_block_steps_keep_capacity(
            g.builder,
            common::AttentionBlock { index: block.index, layer: layer_of(g.parameters, block.index) },
            common::ShortconvBlock { index: 0, layer: layer_of(g.parameters, 0) },
            common::BlockAudit { index: audit.index },
        );
    }
}

/// A refused begin either leaves the actor unchanged or, when the global tensors
/// were refused after the contract had begun, leaves it bound with no contract
/// fact and with its parameters and cached blocks as they were.
pub proof fn lemma_refused_begin_leaves_no_contract(g: Gemma4View, e: ContractBegin)
    requires
        builder_view_valid(g.builder),
    ensures
        begin_transition(g, e).0 is Err ==> (begin_transition(g, e).1 == g || ({
            &&& begin_transition(g, e).1.builder.phase == BuilderPhase::Bound
            &&& contract_clear(begin_transition(g, e).1.builder)
            &&& begin_transition(g, e).1.parameters == g.parameters
            &&& begin_transition(g, e).1.blocks == g.blocks
        })),
{
    assert(reset_view(g.builder).1.finalized =~= Seq::new(14, |i: int| false));
}

/// An actor that holds storage can always discard its contract: the reset
/// succeeds and leaves it bound with no contract fact.
pub proof fn lemma_reset_always_succeeds(g: Gemma4View, result: Result<(), Error>, after: Gemma4View)
    requires
        builder_view_valid(g.builder),
        g.builder.phase != BuilderPhase::Empty,
        reset_transition(g, result, after),
    ensures
        result is Ok,
        after.builder.phase == BuilderPhase::Bound,
        contract_clear(after.builder),
{
    assert(reset_view(g.builder).1.finalized =~= Seq::new(14, |i: int| false));
}

} // verus!
