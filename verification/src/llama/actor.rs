//! The Llama family actor: the shared attention-family actor under the Llama
//! policy, fed with the attention facts of the Llama parameters.

use vstd::prelude::*;

use crate::attention_family::context::{
    audit_transition, begin_transition, block_transition, block_visit_transition, plan_transition,
    release_transition, reset_transition, stage_transition, topology_transition, validation_transition,
    Context, ContextView, Parameters as FamilyParameters, Policy,
};
use crate::attention_family::event::{
    cache_indexed, BlockAudit, BlockBuild, BlockValidation, BlockVisit, ContractBegin, ContractReset, ContractVisit, PlanBuild,
    StageAudit, Storage, StorageBindError, StorageRelease, TopologyBuild,
};
use crate::catalog::Catalog;
use crate::generation::builder::{
    builder_view_valid, contract_complete, describes_contract, held_storage, BlockDescriptor, BuilderPhase,
    StorageView,
};
use crate::generation::event::Error;
use crate::generation::quantized_path::Resolver;
use crate::generation::{AttentionQkNormRoute, ContractDescriptor};

use super::Parameters;

verus! {

/// The fixed Llama facts: three global tensors, eight tensors per block, no Q/K
/// normalization, and an output tensor that may be tied to the token embedding.
#[derive(Clone, Copy, Debug, Default)]
pub struct LlamaPolicy;

impl Policy for LlamaPolicy {
    const ARCHITECTURE_NAME: &'static str = super::ARCHITECTURE_NAME;
    const TOKEN_EMBEDDING_NAME: &'static str = super::TOKEN_EMBEDDING_NAME;
    const OUTPUT_NORM_NAME: &'static str = super::OUTPUT_NORM_NAME;
    const GLOBAL_TENSOR_COUNT: u32 = super::GLOBAL_TENSOR_COUNT;
    const BLOCK_TENSOR_COUNT: u32 = super::BLOCK_TENSOR_COUNT;
    const QK_NORM_ROUTE: AttentionQkNormRoute = AttentionQkNormRoute::NoNorm;
    const TIED_OUTPUT: bool = true;
}

/// The attention facts that the shared actor keeps of Llama parameters.
pub open spec fn family_parameters(p: Parameters) -> FamilyParameters {
    FamilyParameters {
        context_length: p.context_length,
        embedding_length: p.embedding_length,
        attention_key_length: p.attention_key_length,
        attention_value_length: p.attention_value_length,
        rope_dimension_count: p.rope_dimension_count,
        block_count: p.block_count,
        rope_freq_base_bits: p.rope_freq_base_bits,
    }
}

/// Single-writer Llama family actor.
#[derive(Debug)]
pub struct Llama {
    context: Context<LlamaPolicy>,
}

impl View for Llama {
    type V = ContextView;

    closed spec fn view(&self) -> ContextView {
        self.context@
    }
}

impl Llama {
    pub closed spec fn wf(&self) -> bool {
        self.context.wf()
    }

    /// A well-formed actor has a valid builder view, one cache slot per block of
    /// the storage it holds, and every cached description at its position.
    pub proof fn lemma_wf_view(&self)
        requires
            self.wf(),
        ensures
            builder_view_valid(self@.builder),
            self@.builder.storage is Some ==> self@.blocks.len() == held_storage(self@.builder).blocks.len(),
            cache_indexed(self@.blocks),
    {
        self.context.lemma_wf_view();
    }

    /// Builds the actor over a sealed catalog and binds the caller's storage.
    pub fn new(catalog: Catalog, capability: Resolver, storage: Storage) -> (actor: Result<Self, StorageBindError>)
        requires
            catalog.wf(),
            storage.wf(),
        ensures
            actor is Ok,
            actor matches Ok(a) ==> {
                &&& a.wf()
                &&& a@.builder.phase == BuilderPhase::Bound
                &&& a@.builder.catalog == catalog@
                &&& a@.builder.storage == Some(storage.common@)
                &&& a@.parameters == crate::attention_family::context::zero_parameters()
                &&& a@.blocks == storage.blocks@
            },
    {
        let context = Context::new(catalog, capability, storage)?;
        Ok(Llama { context })
    }

    /// Begins a Llama contract from the Llama parameters.
    pub fn contract_begin(&mut self, event: ContractBegin<'_, Parameters>) -> (result: Result<(), Error>)
        requires
            old(self).wf(),
        ensures
            final(self).wf(),
            (result, final(self)@) == begin_transition::<LlamaPolicy>(
                old(self)@,
                ContractBegin {
                    architecture: event.architecture,
                    model: event.model,
                    parameters: family_parameters(event.parameters),
                },
            ),
    {
        let p = event.parameters;
        let family = FamilyParameters {
            context_length: p.context_length,
            embedding_length: p.embedding_length,
            attention_key_length: p.attention_key_length,
            attention_value_length: p.attention_value_length,
            rope_dimension_count: p.rope_dimension_count,
            block_count: p.block_count,
            rope_freq_base_bits: p.rope_freq_base_bits,
        };
        self.context.contract_begin(ContractBegin::new(event.architecture, event.model, family))
    }

    /// Binds one attention block.
    pub fn block_build(&mut self, event: BlockBuild) -> (result: Result<(), Error>)
        requires
            old(self).wf(),
        ensures
            final(self).wf(),
            (result, final(self)@) == block_transition::<LlamaPolicy>(old(self)@, event),
    {
        self.context.block_build(event)
    }

    /// Installs the topology.
    pub fn topology_build(&mut self, event: TopologyBuild) -> (result: Result<(), Error>)
        requires
            old(self).wf(),
        ensures
            final(self).wf(),
            (result, final(self)@) == topology_transition::<LlamaPolicy>(old(self)@),
    {
        self.context.topology_build(event)
    }

    /// Builds the prefill and decode plans.
    pub fn plan_build(&mut self, event: PlanBuild) -> (result: Result<(), Error>)
        requires
            old(self).wf(),
        ensures
            final(self).wf(),
            (result, final(self)@) == plan_transition(old(self)@),
    {
        self.context.plan_build(event)
    }

    /// Validates one block and caches its description.
    pub fn block_validation(&mut self, event: BlockValidation) -> (result: Result<(), Error>)
        requires
            old(self).wf(),
        ensures
            final(self).wf(),
            (result, final(self)@) == validation_transition(old(self)@, event),
    {
        self.context.block_validation(event)
    }

    /// Audits one validated block.
    pub fn block_audit(&mut self, event: BlockAudit) -> (result: Result<(), Error>)
        requires
            old(self).wf(),
        ensures
            final(self).wf(),
            (result, final(self)@) == audit_transition(old(self)@, event),
    {
        self.context.block_audit(event)
    }

    /// Finalizes one stage family.
    pub fn stage_audit(&mut self, event: StageAudit) -> (result: Result<(), Error>)
        requires
            old(self).wf(),
        ensures
            final(self).wf(),
            (result, final(self)@) == stage_transition(old(self)@, event),
    {
        self.context.stage_audit(event)
    }

    /// The completed contract.
    pub fn contract_visit(&self, event: ContractVisit) -> (result: Result<ContractDescriptor, Error>)
        requires
            self.wf(),
        ensures
            match result {
                Ok(d) => self@.builder.phase == BuilderPhase::Building && contract_complete(self@.builder)
                    && describes_contract(d, self@.builder),
                Err(e) => e == (if self@.builder.phase != BuilderPhase::Building {
                    Error::UnexpectedEvent
                } else {
                    Error::InvalidRequest
                }) && !(self@.builder.phase == BuilderPhase::Building && contract_complete(self@.builder)),
            },
    {
        self.context.contract_visit(event)
    }

    /// The cached description of one validated block.
    pub fn block_visit(&self, event: BlockVisit) -> (result: Result<BlockDescriptor, Error>)
        requires
            self.wf(),
        ensures
            result == block_visit_transition(self@, event.index),
            result matches Ok(d) ==> d.index == event.index,
    {
        self.context.block_visit(event)
    }

    /// Discards the active contract.
    pub fn contract_reset(&mut self, event: ContractReset) -> (result: Result<(), Error>)
        requires
            old(self).wf(),
        ensures
            final(self).wf(),
            reset_transition(old(self)@, result, final(self)@),
    {
        self.context.contract_reset(event)
    }

    /// Hands every storage region back to the caller.
    pub fn storage_release(&mut self, event: StorageRelease) -> (result: Result<Storage, Error>)
        requires
            old(self).wf(),
        ensures
            final(self).wf(),
            final(self)@ == release_transition(old(self)@).1,
            match result {
                Ok(s) => s.wf() && release_transition(old(self)@).0 == Ok::<
                    (StorageView, Seq<Option<BlockDescriptor>>),
                    Error,
                >((s.common@, s.blocks@)),
                Err(e) => release_transition(old(self)@).0 == Err::<
                    (StorageView, Seq<Option<BlockDescriptor>>),
                    Error,
                >(e),
            },
    {
        self.context.storage_release(event)
    }
}

} // verus!
