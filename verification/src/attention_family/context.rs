//! The shared attention-family actor: every block is a plain attention block
//! whose route, fixed tensor names and counts come from a family policy.

use core::marker::PhantomData;

use vstd::prelude::*;
use vstd::string::StringSliceAdditionalSpecFns;

use crate::bytes::bytes_equal;
use crate::catalog::Catalog;
use crate::generation::builder::{
    attention_view, audit_view, begin_view, block_visit_result, builder_view_valid, contract_clear, contract_complete,
    describes_contract, globals_view, held_storage, lemma_block_steps_keep_capacity, lemma_validated_block_is_visible,
    plan_view, release_view, reset_view, stage_view, topology_view, validate_view, BlockDescriptor, Builder,
    BuilderPhase, BuilderView, StorageView,
};
use crate::generation::event as common;
use crate::generation::quantized_path::Resolver;
use crate::generation::{
    AttentionQkNormRoute, AttentionVNormRoute, AttentionValueRoute, AttentionWindowRoute, ContractDescriptor,
    LayerExecution, ResidualRoute,
};

use crate::attention_family::event::cache_indexed;
use super::event::{
    BlockAudit, BlockBuild, BlockValidation, BlockVisit, ContractBegin, ContractReset, ContractVisit, PlanBuild,
    StageAudit, Storage, StorageBindError, StorageRelease, TopologyBuild,
};

pub use crate::generation::event::Error;

verus! {

/// Family facts consumed by the shared actor; the rope frequency base is held as
/// the bit pattern of its 32-bit float.
#[derive(Clone, Copy, Debug, PartialEq, Eq, Structural)]
pub struct Parameters {
    pub context_length: i32,
    pub embedding_length: i32,
    pub attention_key_length: i32,
    pub attention_value_length: i32,
    pub rope_dimension_count: i32,
    pub block_count: i32,
    pub rope_freq_base_bits: u32,
}

/// The all-zero parameters.
pub open spec fn zero_parameters() -> Parameters {
    Parameters {
        context_length: 0,
        embedding_length: 0,
        attention_key_length: 0,
        attention_value_length: 0,
        rope_dimension_count: 0,
        block_count: 0,
        rope_freq_base_bits: 0,
    }
}

impl Default for Parameters {
    fn default() -> (p: Self)
        ensures
            p == zero_parameters(),
    {
        Parameters {
            context_length: 0,
            embedding_length: 0,
            attention_key_length: 0,
            attention_value_length: 0,
            rope_dimension_count: 0,
            block_count: 0,
            rope_freq_base_bits: 0,
        }
    }
}

/// The fixed facts of one attention family.
pub trait Policy {
    const ARCHITECTURE_NAME: &'static str;
    const TOKEN_EMBEDDING_NAME: &'static str;
    const OUTPUT_NORM_NAME: &'static str;
    const GLOBAL_TENSOR_COUNT: u32;
    const BLOCK_TENSOR_COUNT: u32;
    const QK_NORM_ROUTE: AttentionQkNormRoute;
    const TIED_OUTPUT: bool;
}


/// Abstract state of an attention-family actor: its builder, the parameters of the active
/// contract and the cached description of each validated block.
pub struct ContextView {
    pub builder: BuilderView,
    pub parameters: Parameters,
    pub blocks: Seq<Option<BlockDescriptor>>,
}

/// Single-writer attention-family actor whose fixed names, counts and routes
/// come from the policy `P`.
#[derive(Debug)]
pub struct Context<P> {
    builder: Builder,
    parameters: Parameters,
    blocks: Vec<Option<BlockDescriptor>>,
    policy: PhantomData<P>,
}

impl<P> View for Context<P> {
    type V = ContextView;

    closed spec fn view(&self) -> ContextView {
        ContextView { builder: self.builder@, parameters: self.parameters, blocks: self.blocks@ }
    }
}

/// The execution route of every block under `p`.
pub open spec fn layer_of<P: Policy>(p: Parameters) -> LayerExecution {
    LayerExecution {
        residual_route: ResidualRoute::Attention,
        qk_norm_route: P::QK_NORM_ROUTE,
        value_route: AttentionValueRoute::DedicatedValue,
        v_norm_route: AttentionVNormRoute::NoNorm,
        window_route: AttentionWindowRoute::FullContext,
        attention_key_length: p.attention_key_length,
        attention_value_length: p.attention_value_length,
        attention_rope_dim: p.rope_dimension_count,
        attention_rope_freq_base_bits: p.rope_freq_base_bits,
    }
}

/// Tensors of the whole topology: every block's tensors plus the globals.
pub open spec fn topology_tensor_count<P: Policy>(p: Parameters) -> int {
    p.block_count * P::BLOCK_TENSOR_COUNT + P::GLOBAL_TENSOR_COUNT
}

/// Tensor count and workspace bytes of the topology, when both counts are
/// non-negative and every intermediate fits its width.
pub open spec fn topology_values<P: Policy>(p: Parameters) -> Option<(u32, u64)> {
    if p.block_count < 0 || p.embedding_length < 0 {
        None
    } else if p.block_count * P::BLOCK_TENSOR_COUNT > u32::MAX {
        None
    } else if topology_tensor_count::<P>(p) > u32::MAX {
        None
    } else if topology_tensor_count::<P>(p) * p.embedding_length > u64::MAX {
        None
    } else if topology_tensor_count::<P>(p) * p.embedding_length * 4 > u64::MAX {
        None
    } else {
        Some((topology_tensor_count::<P>(p) as u32, (topology_tensor_count::<P>(p) * p.embedding_length * 4) as u64))
    }
}

/// The parameters admit a contract.
pub open spec fn parameters_valid(p: Parameters) -> bool {
    p.block_count > 0 && p.embedding_length > 0 && p.context_length > 0
}

/// The view with the builder replaced.
pub open spec fn with_builder(g: ContextView, b: BuilderView) -> ContextView {
    ContextView { builder: b, ..g }
}

/// Result and next state of beginning a contract.
pub open spec fn begin_transition<P: Policy>(g: ContextView, e: ContractBegin<Parameters>) -> (Result<(), Error>, ContextView) {
    match g.builder.phase {
        BuilderPhase::Empty => (Err(Error::UnexpectedEvent), g),
        BuilderPhase::Building => (Err(Error::Busy), g),
        BuilderPhase::Bound => if e.architecture@ != P::ARCHITECTURE_NAME.spec_bytes() {
            (Err(Error::InvalidRequest), g)
        } else if !parameters_valid(e.parameters) {
            (Err(Error::ModelInvalid), g)
        } else {
            let begun = begin_view(
                g.builder,
                common::ContractBegin {
                    model: e.model,
                    block_count: e.parameters.block_count,
                    context_length: e.parameters.context_length,
                },
            );
            if begun.0 is Err {
                (begun.0, with_builder(g, begun.1))
            } else {
                let bound = globals_view(
                    begun.1,
                    P::TOKEN_EMBEDDING_NAME.spec_bytes(),
                    P::OUTPUT_NORM_NAME.spec_bytes(),
                    P::TIED_OUTPUT,
                );
                if bound.0 is Ok {
                    (Ok(()), ContextView { builder: bound.1, parameters: e.parameters, ..g })
                } else {
                    let undone = reset_view(bound.1);
                    (
                        if undone.0 is Ok {
                            bound.0
                        } else {
                            Err(Error::Internal)
                        },
                        with_builder(g, undone.1),
                    )
                }
            }
        },
    }
}

/// Result and next state of binding one block.
pub open spec fn block_transition<P: Policy>(g: ContextView, e: BlockBuild) -> (Result<(), Error>, ContextView) {
    if g.builder.phase != BuilderPhase::Building {
        (Err(Error::UnexpectedEvent), g)
    } else if !(0 <= e.index < g.parameters.block_count) {
        (Err(Error::InvalidRequest), g)
    } else {
        let step = attention_view(
            g.builder,
            common::AttentionBlock { index: e.index, layer: layer_of::<P>(g.parameters) },
        );
        (step.0, with_builder(g, step.1))
    }
}

/// Result and next state of installing the topology.
pub open spec fn topology_transition<P: Policy>(g: ContextView) -> (Result<(), Error>, ContextView) {
    if g.builder.phase != BuilderPhase::Building {
        (Err(Error::UnexpectedEvent), g)
    } else {
        match topology_values::<P>(g.parameters) {
            None => (Err(Error::InvalidRequest), g),
            Some((tensors, workspace)) => {
                let step = topology_view(
                    g.builder,
                    common::Topology {
                        node_count: tensors,
                        tensor_count: tensors,
                        bytes_per_tensor: 4,
                        workspace_capacity_bytes: workspace,
                    },
                );
                (step.0, with_builder(g, step.1))
            },
        }
    }
}

/// Result and next state of building the plans.
pub open spec fn plan_transition(g: ContextView) -> (Result<(), Error>, ContextView) {
    if g.builder.phase != BuilderPhase::Building {
        (Err(Error::UnexpectedEvent), g)
    } else {
        (plan_view(g.builder).0, with_builder(g, plan_view(g.builder).1))
    }
}

/// Result and next state of validating block `index` and caching its description.
pub open spec fn validation_transition(g: ContextView, e: BlockValidation) -> (Result<(), Error>, ContextView) {
    if g.builder.phase != BuilderPhase::Building {
        (Err(Error::UnexpectedEvent), g)
    } else {
        let step = validate_view(g.builder, common::BlockValidation { index: e.index });
        if step.0 is Err {
            (step.0, with_builder(g, step.1))
        } else {
            match block_visit_result(step.1, e.index) {
                Ok(d) => (
                    Ok(()),
                    ContextView { builder: step.1, blocks: g.blocks.update(e.index as int, Some(d)), ..g },
                ),
                Err(_) => (Err(Error::Internal), with_builder(g, step.1)),
            }
        }
    }
}

/// Result and next state of auditing one block.
pub open spec fn audit_transition(g: ContextView, e: BlockAudit) -> (Result<(), Error>, ContextView) {
    if g.builder.phase != BuilderPhase::Building {
        (Err(Error::UnexpectedEvent), g)
    } else {
        let step = audit_view(g.builder, common::BlockAudit { index: e.index });
        (step.0, with_builder(g, step.1))
    }
}

/// Result and next state of finalizing one stage family.
pub open spec fn stage_transition(g: ContextView, e: StageAudit) -> (Result<(), Error>, ContextView) {
    if g.builder.phase != BuilderPhase::Building {
        (Err(Error::UnexpectedEvent), g)
    } else {
        let step = stage_view(g.builder, common::StageAudit { family: e.family });
        (step.0, with_builder(g, step.1))
    }
}

/// What a visit of cached block `index` returns.
pub open spec fn block_visit_transition(g: ContextView, index: i32) -> Result<BlockDescriptor, Error> {
    if g.builder.phase != BuilderPhase::Building {
        Err(Error::UnexpectedEvent)
    } else if 0 <= index < g.blocks.len() && g.blocks[index as int] is Some {
        Ok(g.blocks[index as int].unwrap())
    } else {
        Err(Error::InvalidRequest)
    }
}

/// Discarding the contract: on success the parameters are zeroed and every cached
/// description is dropped; otherwise only the builder's answer is recorded.
pub open spec fn reset_transition(g: ContextView, result: Result<(), Error>, after: ContextView) -> bool {
    if g.builder.phase == BuilderPhase::Empty {
        result == Err::<(), Error>(Error::UnexpectedEvent) && after == g
    } else {
        let step = reset_view(g.builder);
        &&& result == step.0
        &&& after.builder == step.1
        &&& if step.0 is Ok {
            &&& after.parameters == zero_parameters()
            &&& after.blocks == Seq::new(g.blocks.len(), |i: int| None::<BlockDescriptor>)
        } else {
            after.parameters == g.parameters && after.blocks == g.blocks
        }
    }
}

/// Result and next state of releasing the storage: the common regions and the
/// block cache go back to the caller.
pub open spec fn release_transition(g: ContextView) -> (
    Result<(StorageView, Seq<Option<BlockDescriptor>>), Error>,
    ContextView,
) {
    match g.builder.phase {
        BuilderPhase::Empty => (Err(Error::UnexpectedEvent), g),
        BuilderPhase::Building => (Err(Error::Busy), g),
        BuilderPhase::Bound => {
            let step = release_view(g.builder);
            match step.0 {
                Ok(s) => (Ok((s, g.blocks)), ContextView { builder: step.1, blocks: Seq::empty(), ..g }),
                Err(e) => (Err(e), with_builder(g, step.1)),
            }
        },
    }
}

impl<P: Policy> Context<P> {
    /// The actor's invariant: a well-formed builder and one cache slot per block
    /// of the bound storage.
    pub closed spec fn wf(&self) -> bool {
        &&& self.builder.wf()
        &&& (self.builder@.storage matches Some(s) ==> self.blocks@.len() == s.blocks.len())
        &&& cache_indexed(self.blocks@)
    }

    /// A well-formed actor has a valid builder view, one cache slot per block of
    /// the storage it holds, and every cached description at its position.
    pub proof fn lemma_wf_view(&self)
        requires
            self.wf(),
        ensures
            builder_view_valid(self@.builder),
            self@.builder.storage is Some ==> self@.blocks.len() == held_storage(self@.builder).blocks.len(),
            cache_indexed(self@.blocks),
    {
        self.builder.lemma_wf_view();
    }

    /// Builds the actor over a sealed catalog and binds the caller's storage; a
    /// refused bind hands every storage region back.
    pub fn new(catalog: Catalog, capability: Resolver, storage: Storage) -> (actor: Result<Self, StorageBindError>)
        requires
            catalog.wf(),
            storage.wf(),
        ensures
            actor is Ok,
            actor matches Ok(a) ==> {
                &&& a.wf()
                &&& a@.builder.phase == BuilderPhase::Bound
                &&& a@.builder.catalog == catalog@
                &&& a@.builder.storage == Some(storage.common@)
                &&& a@.parameters == zero_parameters()
                &&& a@.blocks == storage.blocks@
            },
    {
        let Storage { common: common_storage, blocks } = storage;
        let mut builder = Builder::new(catalog, capability);
        match builder.storage_bind(common::StorageBind::new(common_storage)) {
            Ok(()) => {},
            Err(refused) => {
                let error = refused.error();
                return Err(StorageBindError { error, storage: Storage { common: refused.into_storage(), blocks } });
            },
        }
        Ok(Context { builder, parameters: Parameters::default(), blocks, policy: PhantomData })
    }

    /// The execution route of every block under the active parameters.
    fn layer(&self) -> (layer: LayerExecution)
        ensures
            layer == layer_of::<P>(self.parameters),
    {
        LayerExecution::new(
            ResidualRoute::Attention,
            P::QK_NORM_ROUTE,
            AttentionValueRoute::DedicatedValue,
            AttentionVNormRoute::NoNorm,
            AttentionWindowRoute::FullContext,
            self.parameters.attention_key_length,
            self.parameters.attention_value_length,
            self.parameters.rope_dimension_count,
            self.parameters.rope_freq_base_bits,
        )
    }

    /// Tensor count and workspace bytes of the topology under the active parameters.
    fn topology_values(&self) -> (values: Option<(u32, u64)>)
        ensures
            values == topology_values::<P>(self.parameters),
    {
        let p = &self.parameters;
        if p.block_count < 0 || p.embedding_length < 0 {
            return None;
        }
        let blocks = p.block_count as u32;
        let embedding = p.embedding_length as u64;
        let per_block = match blocks.checked_mul(P::BLOCK_TENSOR_COUNT) {
            Some(v) => v,
            None => {
                return None;
            },
        };
        let tensors = match per_block.checked_add(P::GLOBAL_TENSOR_COUNT) {
            Some(v) => v,
            None => {
                return None;
            },
        };
        let scaled = match (tensors as u64).checked_mul(embedding) {
            Some(v) => v,
            None => {
                return None;
            },
        };
        let workspace = match scaled.checked_mul(4) {
            Some(v) => v,
            None => {
                return None;
            },
        };
        Some((tensors, workspace))
    }

    /// Begins a contract: checks the architecture and parameters, begins the common
    /// contract and binds the policy's global tensors; a refused global binding
    /// discards the begun contract.
    pub fn contract_begin(&mut self, event: ContractBegin<'_, Parameters>) -> (result: Result<(), Error>)
        requires
            old(self).wf(),
        ensures
            final(self).wf(),
            (result, final(self)@) == begin_transition::<P>(old(self)@, event),
    {
        match self.builder.phase() {
            BuilderPhase::Bound => {},
            BuilderPhase::Empty => {
                return Err(Error::UnexpectedEvent);
            },
            BuilderPhase::Building => {
                return Err(Error::Busy);
            },
        }
        if !bytes_equal(event.architecture, P::ARCHITECTURE_NAME.as_bytes()) {
            return Err(Error::InvalidRequest);
        }
        let p = event.parameters;
        if !(p.block_count > 0 && p.embedding_length > 0 && p.context_length > 0) {
            return Err(Error::ModelInvalid);
        }
        let begun = self.builder.contract_begin(
            common::ContractBegin::new(event.model, p.block_count, p.context_length),
        );
        if begun.is_err() {
            return begun;
        }
        let bound = self.builder.global_bindings(
            common::GlobalBindings::new(
                P::TOKEN_EMBEDDING_NAME.as_bytes(),
                P::OUTPUT_NORM_NAME.as_bytes(),
                P::TIED_OUTPUT,
            ),
        );
        match bound {
            Ok(()) => {
                self.parameters = p;
                Ok(())
            },
            Err(error) => match self.builder.contract_reset(common::ContractReset::new()) {
                Ok(()) => Err(error),
                Err(_) => Err(Error::Internal),
            },
        }
    }

    /// Binds block `index` as an attention block with the policy's route.
    pub fn block_build(&mut self, event: BlockBuild) -> (result: Result<(), Error>)
        requires
            old(self).wf(),
        ensures
            final(self).wf(),
            (result, final(self)@) == block_transition::<P>(old(self)@, event),
    {
        match self.builder.phase() {
            BuilderPhase::Building => {},
            _ => {
                return Err(Error::UnexpectedEvent);
            },
        }
        if !(event.index >= 0 && event.index < self.parameters.block_count) {
            return Err(Error::InvalidRequest);
        }
        let layer = self.layer();
        proof {
            self.builder.lemma_wf_view();
            lemma_block_steps_keep_capacity(
                self.builder@,
                common::AttentionBlock { index: event.index, layer },
                common::ShortconvBlock { index: event.index, layer },
                common::BlockAudit { index: event.index },
            );
        }
        self.builder.attention_block(common::AttentionBlock::new(event.index, layer))
    }

    /// Installs the topology computed from the active parameters.
    pub fn topology_build(&mut self, event: TopologyBuild) -> (result: Result<(), Error>)
        requires
            old(self).wf(),
        ensures
            final(self).wf(),
            (result, final(self)@) == topology_transition::<P>(old(self)@),
    {
        match self.builder.phase() {
            BuilderPhase::Building => {},
            _ => {
                return Err(Error::UnexpectedEvent);
            },
        }
        match self.topology_values() {
            Some((tensors, workspace)) => self.builder.topology(
                common::Topology::new(tensors, tensors, 4, workspace),
            ),
            None => Err(Error::InvalidRequest),
        }
    }

    /// Builds the prefill and decode plans.
    pub fn plan_build(&mut self, event: PlanBuild) -> (result: Result<(), Error>)
        requires
            old(self).wf(),
        ensures
            final(self).wf(),
            (result, final(self)@) == plan_transition(old(self)@),
    {
        match self.builder.phase() {
            BuilderPhase::Building => {},
            _ => {
                return Err(Error::UnexpectedEvent);
            },
        }
        self.builder.plan(common::Plan::new())
    }

    /// Validates block `index` and caches its description.
    pub fn block_validation(&mut self, event: BlockValidation) -> (result: Result<(), Error>)
        requires
            old(self).wf(),
        ensures
            final(self).wf(),
            (result, final(self)@) == validation_transition(old(self)@, event),
    {
        match self.builder.phase() {
            BuilderPhase::Building => {},
            _ => {
                return Err(Error::UnexpectedEvent);
            },
        }
        proof {
            self.builder.lemma_wf_view();
        }
        let validated = self.builder.block_validation(common::BlockValidation::new(event.index));
        if validated.is_err() {
            return validated;
        }
        match self.builder.block_visit(common::BlockVisit::new(event.index)) {
            Ok(d) => {
                self.blocks.set(event.index as usize, Some(d));
                Ok(())
            },
            Err(_) => Err(Error::Internal),
        }
    }

    /// Audits one validated block.
    pub fn block_audit(&mut self, event: BlockAudit) -> (result: Result<(), Error>)
        requires
            old(self).wf(),
        ensures
            final(self).wf(),
            (result, final(self)@) == audit_transition(old(self)@, event),
    {
        match self.builder.phase() {
            BuilderPhase::Building => {},
            _ => {
                return Err(Error::UnexpectedEvent);
            },
        }
        proof {
            self.builder.lemma_wf_view();
            lemma_block_steps_keep_capacity(
                self.builder@,
                common::AttentionBlock { index: event.index, layer: crate::generation::default_layer() },
                common::ShortconvBlock { index: event.index, layer: crate::generation::default_layer() },
                common::BlockAudit { index: event.index },
            );
        }
        self.builder.block_audit(common::BlockAudit::new(event.index))
    }

    /// Finalizes one stage family.
    pub fn stage_audit(&mut self, event: StageAudit) -> (result: Result<(), Error>)
        requires
            old(self).wf(),
        ensures
            final(self).wf(),
            (result, final(self)@) == stage_transition(old(self)@, event),
    {
        match self.builder.phase() {
            BuilderPhase::Building => {},
            _ => {
                return Err(Error::UnexpectedEvent);
            },
        }
        self.builder.stage_audit(common::StageAudit::new(event.family))
    }

    /// The completed contract.
    pub fn contract_visit(&self, event: ContractVisit) -> (result: Result<ContractDescriptor, Error>)
        requires
            self.wf(),
        ensures
            match result {
                Ok(d) => self@.builder.phase == BuilderPhase::Building && contract_complete(self@.builder)
                    && describes_contract(d, self@.builder),
                Err(e) => e == (if self@.builder.phase != BuilderPhase::Building {
                    Error::UnexpectedEvent
                } else {
                    Error::InvalidRequest
                }) && !(self@.builder.phase == BuilderPhase::Building && contract_complete(self@.builder)),
            },
    {
        self.builder.contract_visit(common::ContractVisit::new())
    }

    /// The cached description of validated block `index`.
    pub fn block_visit(&self, event: BlockVisit) -> (result: Result<BlockDescriptor, Error>)
        requires
            self.wf(),
        ensures
            result == block_visit_transition(self@, event.index),
            result matches Ok(d) ==> d.index == event.index,
    {
        match self.builder.phase() {
            BuilderPhase::Building => {},
            _ => {
                return Err(Error::UnexpectedEvent);
            },
        }
        if event.index < 0 || event.index as usize >= self.blocks.len() {
            return Err(Error::InvalidRequest);
        }
        match self.blocks[event.index as usize] {
            Some(d) => Ok(d),
            None => Err(Error::InvalidRequest),
        }
    }

    /// Discards the active contract, zeroes the parameters and drops every cached
    /// description.
    pub fn contract_reset(&mut self, event: ContractReset) -> (result: Result<(), Error>)
        requires
            old(self).wf(),
        ensures
            final(self).wf(),
            reset_transition(old(self)@, result, final(self)@),
    {
        match self.builder.phase() {
            BuilderPhase::Empty => {
                return Err(Error::UnexpectedEvent);
            },
            _ => {},
        }
        let reset = self.builder.contract_reset(common::ContractReset::new());
        if reset.is_ok() {
            self.parameters = Parameters::default();
            crate::attention_family::event::clear_block_views(&mut self.blocks);
        }
        reset
    }

    /// Hands every storage region back to the caller; the actor then accepts no
    /// further request.
    pub fn storage_release(&mut self, event: StorageRelease) -> (result: Result<Storage, Error>)
        requires
            old(self).wf(),
        ensures
            final(self).wf(),
            final(self)@ == release_transition(old(self)@).1,
            match result {
                Ok(s) => s.wf() && release_transition(old(self)@).0 == Ok::<
                    (StorageView, Seq<Option<BlockDescriptor>>),
                    Error,
                >((s.common@, s.blocks@)),
                Err(e) => release_transition(old(self)@).0 == Err::<
                    (StorageView, Seq<Option<BlockDescriptor>>),
                    Error,
                >(e),
            },
    {
        match self.builder.phase() {
            BuilderPhase::Bound => {},
            BuilderPhase::Empty => {
                return Err(Error::UnexpectedEvent);
            },
            BuilderPhase::Building => {
                return Err(Error::Busy);
            },
        }
        proof {
            self.builder.lemma_wf_view();
        }
        match self.builder.storage_release(common::StorageRelease::new()) {
            Ok(common_storage) => {
                assert(common_storage@ == held_storage(old(self)@.builder));
                assert(self.blocks@.len() == common_storage@.blocks.len());
                let mut blocks: Vec<Option<BlockDescriptor>> = Vec::new();
                core::mem::swap(&mut blocks, &mut self.blocks);
                Ok(Storage { common: common_storage, blocks })
            },
            Err(error) => Err(error),
        }
    }
}


/// A refused block, topology, plan, validation, audit or stage request leaves
/// the actor exactly as it was.
pub proof fn lemma_refused_requests_leave_actor_unchanged<P: Policy>(
    g: ContextView,
    block: BlockBuild,
    validation: BlockValidation,
    audit: BlockAudit,
    stage: StageAudit,
)
    requires
        builder_view_valid(g.builder),
    ensures
        block_transition::<P>(g, block).0 is Err ==> block_transition::<P>(g, block).1 == g,
        topology_transition::<P>(g).0 is Err ==> topology_transition::<P>(g).1 == g,
        plan_transition(g).0 is Err ==> plan_transition(g).1 == g,
        validation_transition(g, validation).0 is Err ==> validation_transition(g, validation).1 == g,
        audit_transition(g, audit).0 is Err ==> audit_transition(g, audit).1 == g,
        stage_transition(g, stage).0 is Err ==> stage_transition(g, stage).1 == g,
{
    if g.builder.phase == BuilderPhase::Building {
        let step = validate_view(g.builder, common::BlockValidation { index: validation.index });
        if step.0 is Ok {
            lemma_validated_block_is_visible(g.builder, common::BlockValidation { index: validation.index });
        }
    }
}

/// Whether a state holds storage of `n` blocks with one cache slot per block.
pub open spec fn holds_capacity(g: ContextView, n: nat) -> bool {
    &&& g.builder.storage is Some
    &&& held_storage(g.builder).blocks.len() == n
    &&& g.blocks.len() == n
}

/// The block capacity of the storage an actor holds survives every request but
/// a release, and a release hands back the common regions and the block cache
/// at that capacity.
pub proof fn lemma_requests_keep_block_capacity<P: Policy>(
    g: ContextView,
    begin: ContractBegin<Parameters>,
    block: BlockBuild,
    validation: BlockValidation,
    audit: BlockAudit,
    stage: StageAudit,
    reset_result: Result<(), Error>,
    after_reset: ContextView,
)
    requires
        builder_view_valid(g.builder),
        holds_capacity(g, g.blocks.len()),
    ensures
        holds_capacity(begin_transition::<P>(g, begin).1, g.blocks.len()),
        holds_capacity(block_transition::<P>(g, block).1, g.blocks.len()),
        holds_capacity(topology_transition::<P>(g).1, g.blocks.len()),
        holds_capacity(plan_transition(g).1, g.blocks.len()),
        holds_capacity(validation_transition(g, validation).1, g.blocks.len()),
        holds_capacity(audit_transition(g, audit).1, g.blocks.len()),
        holds_capacity(stage_transition(g, stage).1, g.blocks.len()),
        reset_transition(g, reset_result, after_reset) ==> holds_capacity(after_reset, g.blocks.len()),
        release_transition(g).0 matches Ok((s, cache)) ==> s.blocks.len() == g.blocks.len() && cache.len()
            == g.blocks.len(),
{
    if g.builder.phase == BuilderPhase::Building {
        lemma_block_steps_keep_capacity(
            g.builder,
            common::AttentionBlock { index: block.index, layer: layer_of::<P>(g.parameters) },
            common::ShortconvBlock { index: 0, layer: layer_of::<P>(g.parameters) },
            common::BlockAudit { index: audit.index },
        );
    }
}

/// A refused begin either leaves the actor unchanged or, when the global tensors
/// were refused after the contract had begun, leaves it bound with no contract
/// fact and with its parameters and cached blocks as they were.
pub proof fn lemma_refused_begin_leaves_no_contract<P: Policy>(g: ContextView, e: ContractBegin<Parameters>)
    requires
        builder_view_valid(g.builder),
    ensures
        begin_transition::<P>(g, e).0 is Err ==> (begin_transition::<P>(g, e).1 == g || ({
            &&& begin_transition::<P>(g, e).1.builder.phase == BuilderPhase::Bound
            &&& contract_clear(begin_transition::<P>(g, e).1.builder)
            &&& begin_transition::<P>(g, e).1.parameters == g.parameters
            &&& begin_transition::<P>(g, e).1.blocks == g.blocks
        })),
{
    assert(reset_view(g.builder).1.finalized =~= Seq::new(14, |i: int| false));
}

/// An actor that holds storage can always discard its contract: the reset
/// succeeds and leaves it bound with no contract fact.
pub proof fn lemma_reset_always_succeeds(g: ContextView, result: Result<(), Error>, after: ContextView)
    requires
        builder_view_valid(g.builder),
        g.builder.phase != BuilderPhase::Empty,
        reset_transition(g, result, after),
    ensures
        result is Ok,
        after.builder.phase == BuilderPhase::Bound,
        contract_clear(after.builder),
{
    assert(reset_view(g.builder).1.finalized =~= Seq::new(14, |i: int| false));
}

} // verus!
