//! Requests and caller-preallocated storage of the LFM2 family actor.

use vstd::prelude::*;

use crate::catalog::ModelIdentity;
use crate::lfm2::Parameters;

pub use crate::attention_family::event::{
    BlockAudit, BlockBuild, BlockValidation, BlockVisit, ContractReset, ContractVisit, PlanBuild, StageAudit, Storage,
    StorageBindError, StorageRelease, TopologyBuild,
};
pub use crate::generation::event::Error;

verus! {

/// Which contract a begin request opens.
#[derive(Clone, Copy, Debug, PartialEq, Eq, Structural)]
pub enum BeginContract {
    /// The strict contract of a maintained execution geometry.
    Execution,
    /// The non-strict contract that validates any positive geometry.
    Validation,
}

/// Begins an LFM2 contract and binds its global tensors.
#[derive(Clone, Copy, Debug)]
pub struct ContractBegin<'a> {
    pub architecture: &'a [u8],
    pub model: ModelIdentity,
    pub parameters: &'a Parameters,
    pub layer_count: i32,
    pub contract: BeginContract,
}

impl<'a> ContractBegin<'a> {
    /// Begins the strict maintained-geometry execution contract.
    pub fn new(architecture: &'a [u8], model: ModelIdentity, parameters: &'a Parameters) -> (event: Self)
        ensures
            event.architecture@ == architecture@,
            event.model == model,
            *event.parameters == *parameters,
            event.layer_count == parameters.block_count,
            event.contract == BeginContract::Execution,
    {
        ContractBegin {
            architecture,
            model,
            parameters,
            layer_count: parameters.block_count,
            contract: BeginContract::Execution,
        }
    }

    /// Begins the non-strict validation contract over `layer_count` layers.
    pub fn validation(architecture: &'a [u8], model: ModelIdentity, parameters: &'a Parameters, layer_count: i32) -> (event: Self)
        ensures
            event.architecture@ == architecture@,
            event.model == model,
            *event.parameters == *parameters,
            event.layer_count == layer_count,
            event.contract == BeginContract::Validation,
    {
        ContractBegin { architecture, model, parameters, layer_count, contract: BeginContract::Validation }
    }
}

} // verus!
