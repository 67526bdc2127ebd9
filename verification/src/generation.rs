//! Common generation contract: layer routes, step plans, stage audits and the
//! builder that binds a sealed catalog's tensors into a checked contract.

use vstd::prelude::*;

use crate::catalog::{ModelIdentity, TensorId};
use crate::tensor_type::SerializedType;

pub mod builder;
pub mod event;
pub mod quantized_path;

pub use builder::Builder;



verus! {

/// Number of quantized stage families.
pub const QUANTIZED_STAGE_FAMILY_COUNT: usize = 14;

/// Per-layer residual path.
#[derive(Clone, Copy, Debug, Default, PartialEq, Eq, Structural)]
pub enum ResidualRoute {
    #[default]
    Attention,
    Shortconv,
}

/// Per-layer Q/K normalization.
#[derive(Clone, Copy, Debug, Default, PartialEq, Eq, Structural)]
pub enum AttentionQkNormRoute {
    #[default]
    NoNorm,
    HeadwiseRms,
}

/// Per-layer value projection.
#[derive(Clone, Copy, Debug, Default, PartialEq, Eq, Structural)]
pub enum AttentionValueRoute {
    #[default]
    DedicatedValue,
    SharedKeyValue,
}

/// Per-layer value normalization.
#[derive(Clone, Copy, Debug, Default, PartialEq, Eq, Structural)]
pub enum AttentionVNormRoute {
    #[default]
    NoNorm,
    Rms,
}

/// Per-layer attention window.
#[derive(Clone, Copy, Debug, Default, PartialEq, Eq, Structural)]
pub enum AttentionWindowRoute {
    #[default]
    FullContext,
    SlidingWindow,
}

/// Generation execution facts for one layer. The RoPE frequency base is held as
/// the bit pattern of its 32-bit float.
#[derive(Clone, Copy, Debug, Default, PartialEq, Eq, Structural)]
pub struct LayerExecution {
    pub residual_route: ResidualRoute,
    pub qk_norm_route: AttentionQkNormRoute,
    pub value_route: AttentionValueRoute,
    pub v_norm_route: AttentionVNormRoute,
    pub window_route: AttentionWindowRoute,
    pub attention_key_length: i32,
    pub attention_value_length: i32,
    pub attention_rope_dim: i32,
    pub attention_rope_freq_base_bits: u32,
}

/// The all-default layer.
pub open spec fn default_layer() -> LayerExecution {
    LayerExecution {
        residual_route: ResidualRoute::Attention,
        qk_norm_route: AttentionQkNormRoute::NoNorm,
        value_route: AttentionValueRoute::DedicatedValue,
        v_norm_route: AttentionVNormRoute::NoNorm,
        window_route: AttentionWindowRoute::FullContext,
        attention_key_length: 0,
        attention_value_length: 0,
        attention_rope_dim: 0,
        attention_rope_freq_base_bits: 0,
    }
}

impl LayerExecution {
    /// Builds one already-selected layer contract.
    pub fn new(
        residual_route: ResidualRoute,
        qk_norm_route: AttentionQkNormRoute,
        value_route: AttentionValueRoute,
        v_norm_route: AttentionVNormRoute,
        window_route: AttentionWindowRoute,
        attention_key_length: i32,
        attention_value_length: i32,
        attention_rope_dim: i32,
        attention_rope_freq_base_bits: u32,
    ) -> (layer: Self)
        ensures
            layer == (LayerExecution {
                residual_route,
                qk_norm_route,
                value_route,
                v_norm_route,
                window_route,
                attention_key_length,
                attention_value_length,
                attention_rope_dim,
                attention_rope_freq_base_bits,
            }),
    {
        LayerExecution {
            residual_route,
            qk_norm_route,
            value_route,
            v_norm_route,
            window_route,
            attention_key_length,
            attention_value_length,
            attention_rope_dim,
            attention_rope_freq_base_bits,
        }
    }

    /// The all-default layer.
    pub fn empty() -> (layer: Self)
        ensures
            layer == default_layer(),
    {
        LayerExecution {
            residual_route: ResidualRoute::Attention,
            qk_norm_route: AttentionQkNormRoute::NoNorm,
            value_route: AttentionValueRoute::DedicatedValue,
            v_norm_route: AttentionVNormRoute::NoNorm,
            window_route: AttentionWindowRoute::FullContext,
            attention_key_length: 0,
            attention_value_length: 0,
            attention_rope_dim: 0,
            attention_rope_freq_base_bits: 0,
        }
    }

    pub fn residual_route(self) -> (route: ResidualRoute)
        ensures
            route == self.residual_route,
    {
        self.residual_route
    }

    pub fn qk_norm_route(self) -> (route: AttentionQkNormRoute)
        ensures
            route == self.qk_norm_route,
    {
        self.qk_norm_route
    }

    pub fn value_route(self) -> (route: AttentionValueRoute)
        ensures
            route == self.value_route,
    {
        self.value_route
    }

    pub fn v_norm_route(self) -> (route: AttentionVNormRoute)
        ensures
            route == self.v_norm_route,
    {
        self.v_norm_route
    }

    pub fn window_route(self) -> (route: AttentionWindowRoute)
        ensures
            route == self.window_route,
    {
        self.window_route
    }

    pub fn attention_key_length(self) -> (length: i32)
        ensures
            length == self.attention_key_length,
    {
        self.attention_key_length
    }

    pub fn attention_value_length(self) -> (length: i32)
        ensures
            length == self.attention_value_length,
    {
        self.attention_value_length
    }

    pub fn attention_rope_dim(self) -> (dim: i32)
        ensures
            dim == self.attention_rope_dim,
    {
        self.attention_rope_dim
    }

    pub fn attention_rope_freq_base_bits(self) -> (bits: u32)
        ensures
            bits == self.attention_rope_freq_base_bits,
    {
        self.attention_rope_freq_base_bits
    }
}

/// Prefill or decode plan kind.
#[derive(Clone, Copy, Debug, Default, PartialEq, Eq, Structural)]
pub enum StepKind {
    #[default]
    Prefill,
    Decode,
}

/// One step plan.
#[derive(Clone, Copy, Debug, Default, PartialEq, Eq, Structural)]
pub struct StepPlan {
    pub kind: StepKind,
    pub node_count: u32,
    pub tensor_count: u32,
    pub expected_outputs: i32,
    pub max_step_tokens: i32,
}

impl StepPlan {
    pub fn kind(self) -> (kind: StepKind)
        ensures
            kind == self.kind,
    {
        self.kind
    }

    pub fn node_count(self) -> (count: u32)
        ensures
            count == self.node_count,
    {
        self.node_count
    }

    pub fn tensor_count(self) -> (count: u32)
        ensures
            count == self.tensor_count,
    {
        self.tensor_count
    }

    pub fn expected_outputs(self) -> (count: i32)
        ensures
            count == self.expected_outputs,
    {
        self.expected_outputs
    }

    pub fn max_step_tokens(self) -> (count: i32)
        ensures
            count == self.max_step_tokens,
    {
        self.max_step_tokens
    }
}

/// One of the fourteen audited stage families.
#[derive(Clone, Copy, Debug, Default, PartialEq, Eq, Structural, Hash)]
pub enum QuantizedStageFamily {
    #[default]
    TokenEmbedding,
    OutputNorm,
    Output,
    AttentionNorm,
    AttentionQ,
    AttentionK,
    AttentionV,
    AttentionQNorm,
    AttentionKNorm,
    AttentionOutput,
    FeedForwardNorm,
    FeedForwardGate,
    FeedForwardDown,
    FeedForwardUp,
}

/// Position of each family in audit order.
pub open spec fn family_index(family: QuantizedStageFamily) -> int {
    match family {
        QuantizedStageFamily::TokenEmbedding => 0,
        QuantizedStageFamily::OutputNorm => 1,
        QuantizedStageFamily::Output => 2,
        QuantizedStageFamily::AttentionNorm => 3,
        QuantizedStageFamily::AttentionQ => 4,
        QuantizedStageFamily::AttentionK => 5,
        QuantizedStageFamily::AttentionV => 6,
        QuantizedStageFamily::AttentionQNorm => 7,
        QuantizedStageFamily::AttentionKNorm => 8,
        QuantizedStageFamily::AttentionOutput => 9,
        QuantizedStageFamily::FeedForwardNorm => 10,
        QuantizedStageFamily::FeedForwardGate => 11,
        QuantizedStageFamily::FeedForwardDown => 12,
        QuantizedStageFamily::FeedForwardUp => 13,
    }
}

/// The family at a position of audit order.
pub open spec fn family_at_index(index: int) -> QuantizedStageFamily {
    if index == 0 {
        QuantizedStageFamily::TokenEmbedding
    } else if index == 1 {
        QuantizedStageFamily::OutputNorm
    } else if index == 2 {
        QuantizedStageFamily::Output
    } else if index == 3 {
        QuantizedStageFamily::AttentionNorm
    } else if index == 4 {
        QuantizedStageFamily::AttentionQ
    } else if index == 5 {
        QuantizedStageFamily::AttentionK
    } else if index == 6 {
        QuantizedStageFamily::AttentionV
    } else if index == 7 {
        QuantizedStageFamily::AttentionQNorm
    } else if index == 8 {
        QuantizedStageFamily::AttentionKNorm
    } else if index == 9 {
        QuantizedStageFamily::AttentionOutput
    } else if index == 10 {
        QuantizedStageFamily::FeedForwardNorm
    } else if index == 11 {
        QuantizedStageFamily::FeedForwardGate
    } else if index == 12 {
        QuantizedStageFamily::FeedForwardDown
    } else {
        QuantizedStageFamily::FeedForwardUp
    }
}

/// The label of each family.
pub open spec fn family_name(family: QuantizedStageFamily) -> &'static str {
    match family {
        QuantizedStageFamily::TokenEmbedding => "token_embedding",
        QuantizedStageFamily::OutputNorm => "output_norm",
        QuantizedStageFamily::Output => "output",
        QuantizedStageFamily::AttentionNorm => "attention_norm",
        QuantizedStageFamily::AttentionQ => "attention_q",
        QuantizedStageFamily::AttentionK => "attention_k",
        QuantizedStageFamily::AttentionV => "attention_v",
        QuantizedStageFamily::AttentionQNorm => "attention_q_norm",
        QuantizedStageFamily::AttentionKNorm => "attention_k_norm",
        QuantizedStageFamily::AttentionOutput => "attention_output",
        QuantizedStageFamily::FeedForwardNorm => "feed_forward_norm",
        QuantizedStageFamily::FeedForwardGate => "feed_forward_gate",
        QuantizedStageFamily::FeedForwardDown => "feed_forward_down",
        QuantizedStageFamily::FeedForwardUp => "feed_forward_up",
    }
}

/// Families whose tensors are vectors dequantized under the vector contract.
pub open spec fn is_vector_stage(family: QuantizedStageFamily) -> bool {
    ||| family == QuantizedStageFamily::TokenEmbedding
    ||| family == QuantizedStageFamily::OutputNorm
    ||| family == QuantizedStageFamily::AttentionNorm
    ||| family == QuantizedStageFamily::AttentionQNorm
    ||| family == QuantizedStageFamily::AttentionKNorm
    ||| family == QuantizedStageFamily::FeedForwardNorm
}

impl QuantizedStageFamily {
    /// All families in audit order.
    pub const ALL: [QuantizedStageFamily; 14] = [
        QuantizedStageFamily::TokenEmbedding,
        QuantizedStageFamily::OutputNorm,
        QuantizedStageFamily::Output,
        QuantizedStageFamily::AttentionNorm,
        QuantizedStageFamily::AttentionQ,
        QuantizedStageFamily::AttentionK,
        QuantizedStageFamily::AttentionV,
        QuantizedStageFamily::AttentionQNorm,
        QuantizedStageFamily::AttentionKNorm,
        QuantizedStageFamily::AttentionOutput,
        QuantizedStageFamily::FeedForwardNorm,
        QuantizedStageFamily::FeedForwardGate,
        QuantizedStageFamily::FeedForwardDown,
        QuantizedStageFamily::FeedForwardUp,
    ];

    /// Position in audit order.
    pub fn index(self) -> (index: usize)
        ensures
            index == family_index(self),
            index < QUANTIZED_STAGE_FAMILY_COUNT,
    {
        match self {
            QuantizedStageFamily::TokenEmbedding => 0,
            QuantizedStageFamily::OutputNorm => 1,
            QuantizedStageFamily::Output => 2,
            QuantizedStageFamily::AttentionNorm => 3,
            QuantizedStageFamily::AttentionQ => 4,
            QuantizedStageFamily::AttentionK => 5,
            QuantizedStageFamily::AttentionV => 6,
            QuantizedStageFamily::AttentionQNorm => 7,
            QuantizedStageFamily::AttentionKNorm => 8,
            QuantizedStageFamily::AttentionOutput => 9,
            QuantizedStageFamily::FeedForwardNorm => 10,
            QuantizedStageFamily::FeedForwardGate => 11,
            QuantizedStageFamily::FeedForwardDown => 12,
            QuantizedStageFamily::FeedForwardUp => 13,
        }
    }

    /// The family at a position of audit order.
    pub fn at_index(index: usize) -> (family: Self)
        requires
            index < QUANTIZED_STAGE_FAMILY_COUNT,
        ensures
            family == family_at_index(index as int),
            family_index(family) == index,
    {
        if index == 0 {
            QuantizedStageFamily::TokenEmbedding
        } else if index == 1 {
            QuantizedStageFamily::OutputNorm
        } else if index == 2 {
            QuantizedStageFamily::Output
        } else if index == 3 {
            QuantizedStageFamily::AttentionNorm
        } else if index == 4 {
            QuantizedStageFamily::AttentionQ
        } else if index == 5 {
            QuantizedStageFamily::AttentionK
        } else if index == 6 {
            QuantizedStageFamily::AttentionV
        } else if index == 7 {
            QuantizedStageFamily::AttentionQNorm
        } else if index == 8 {
            QuantizedStageFamily::AttentionKNorm
        } else if index == 9 {
            QuantizedStageFamily::AttentionOutput
        } else if index == 10 {
            QuantizedStageFamily::FeedForwardNorm
        } else if index == 11 {
            QuantizedStageFamily::FeedForwardGate
        } else if index == 12 {
            QuantizedStageFamily::FeedForwardDown
        } else {
            QuantizedStageFamily::FeedForwardUp
        }
    }

    /// The family's label.
    pub fn name(self) -> (name: &'static str)
        ensures
            name@ == family_name(self)@,
    {
        match self {
            QuantizedStageFamily::TokenEmbedding => "token_embedding",
            QuantizedStageFamily::OutputNorm => "output_norm",
            QuantizedStageFamily::Output => "output",
            QuantizedStageFamily::AttentionNorm => "attention_norm",
            QuantizedStageFamily::AttentionQ => "attention_q",
            QuantizedStageFamily::AttentionK => "attention_k",
            QuantizedStageFamily::AttentionV => "attention_v",
            QuantizedStageFamily::AttentionQNorm => "attention_q_norm",
            QuantizedStageFamily::AttentionKNorm => "attention_k_norm",
            QuantizedStageFamily::AttentionOutput => "attention_output",
            QuantizedStageFamily::FeedForwardNorm => "feed_forward_norm",
            QuantizedStageFamily::FeedForwardGate => "feed_forward_gate",
            QuantizedStageFamily::FeedForwardDown => "feed_forward_down",
            QuantizedStageFamily::FeedForwardUp => "feed_forward_up",
        }
    }
}

/// Quantized contract classification of one stage.
#[derive(Clone, Copy, Debug, Default, PartialEq, Eq, Structural)]
pub enum QuantizedContractKind {
    NativeQuantized,
    #[default]
    ApprovedDenseF32ByContract,
    DisallowedFallback,
    ExplicitNoClaim,
    NotApplicable,
}

/// The label of each contract kind.
pub open spec fn contract_kind_name(kind: QuantizedContractKind) -> &'static str {
    match kind {
        QuantizedContractKind::NativeQuantized => "native_quantized",
        QuantizedContractKind::ApprovedDenseF32ByContract => "approved_dense_f32_by_contract",
        QuantizedContractKind::DisallowedFallback => "disallowed_fallback",
        QuantizedContractKind::ExplicitNoClaim => "explicit_no_claim",
        QuantizedContractKind::NotApplicable => "not_applicable",
    }
}

impl QuantizedContractKind {
    /// The kind's label.
    pub fn name(self) -> (name: &'static str)
        ensures
            name@ == contract_kind_name(self)@,
    {
        match self {
            QuantizedContractKind::NativeQuantized => "native_quantized",
            QuantizedContractKind::ApprovedDenseF32ByContract => "approved_dense_f32_by_contract",
            QuantizedContractKind::DisallowedFallback => "disallowed_fallback",
            QuantizedContractKind::ExplicitNoClaim => "explicit_no_claim",
            QuantizedContractKind::NotApplicable => "not_applicable",
        }
    }
}

/// Final audit of one stage family.
#[derive(Clone, Copy, Debug, PartialEq, Eq, Structural)]
pub struct StageAudit {
    pub family: QuantizedStageFamily,
    pub tensor_type: Option<SerializedType>,
    pub contract: QuantizedContractKind,
    pub consistent_across_layers: bool,
}

/// The audit of a family that has not been finalized.
pub open spec fn empty_stage_audit(family: QuantizedStageFamily) -> StageAudit {
    StageAudit {
        family,
        tensor_type: None,
        contract: QuantizedContractKind::NotApplicable,
        consistent_across_layers: true,
    }
}

impl StageAudit {
    /// The audit of a family that has not been finalized.
    pub fn empty(family: QuantizedStageFamily) -> (audit: Self)
        ensures
            audit == empty_stage_audit(family),
    {
        StageAudit {
            family,
            tensor_type: None,
            contract: QuantizedContractKind::NotApplicable,
            consistent_across_layers: true,
        }
    }

    pub fn family(self) -> (family: QuantizedStageFamily)
        ensures
            family == self.family,
    {
        self.family
    }

    pub fn tensor_type(self) -> (tensor_type: Option<SerializedType>)
        ensures
            tensor_type == self.tensor_type,
    {
        self.tensor_type
    }

    pub fn contract(self) -> (kind: QuantizedContractKind)
        ensures
            kind == self.contract,
    {
        self.contract
    }

    pub fn consistent_across_layers(self) -> (consistent: bool)
        ensures
            consistent == self.consistent_across_layers,
    {
        self.consistent_across_layers
    }
}

/// Topology facts of a contract.
#[derive(Clone, Copy, Debug, Default, PartialEq, Eq, Structural)]
pub struct TopologyDescriptor {
    pub node_count: u32,
    pub tensor_count: u32,
    pub bytes_per_tensor: u64,
    pub workspace_capacity_bytes: u64,
}

impl TopologyDescriptor {
    pub fn node_count(self) -> (count: u32)
        ensures
            count == self.node_count,
    {
        self.node_count
    }

    pub fn tensor_count(self) -> (count: u32)
        ensures
            count == self.tensor_count,
    {
        self.tensor_count
    }

    pub fn bytes_per_tensor(self) -> (bytes: u64)
        ensures
            bytes == self.bytes_per_tensor,
    {
        self.bytes_per_tensor
    }

    pub fn workspace_capacity_bytes(self) -> (bytes: u64)
        ensures
            bytes == self.workspace_capacity_bytes,
    {
        self.workspace_capacity_bytes
    }
}

/// A completed generation contract.
#[derive(Clone, Copy, Debug, PartialEq, Eq)]
pub struct ContractDescriptor {
    pub model: ModelIdentity,
    pub token_embedding: TensorId,
    pub output_norm: TensorId,
    pub output: TensorId,
    pub block_count: u32,
    pub topology: TopologyDescriptor,
    pub prefill: StepPlan,
    pub decode: StepPlan,
    pub audit: [StageAudit; 14],
}

impl ContractDescriptor {
    pub fn model(self) -> (model: ModelIdentity)
        ensures
            model == self.model,
    {
        self.model
    }

    pub fn token_embedding(self) -> (id: TensorId)
        ensures
            id == self.token_embedding,
    {
        self.token_embedding
    }

    pub fn output_norm(self) -> (id: TensorId)
        ensures
            id == self.output_norm,
    {
        self.output_norm
    }

    pub fn output(self) -> (id: TensorId)
        ensures
            id == self.output,
    {
        self.output
    }

    pub fn block_count(self) -> (count: u32)
        ensures
            count == self.block_count,
    {
        self.block_count
    }

    pub fn topology(self) -> (topology: TopologyDescriptor)
        ensures
            topology == self.topology,
    {
        self.topology
    }

    pub fn prefill_plan(self) -> (plan: StepPlan)
        ensures
            plan == self.prefill,
    {
        self.prefill
    }

    pub fn decode_plan(self) -> (plan: StepPlan)
        ensures
            plan == self.decode,
    {
        self.decode
    }

    pub fn audit(self) -> (audit: [StageAudit; 14])
        ensures
            audit == self.audit,
    {
        self.audit
    }
}

/// The label of a serialized tensor type.
pub open spec fn spec_tensor_type_name(tensor_type: SerializedType) -> &'static str {
    match tensor_type {
        SerializedType::F32 => "f32",
        SerializedType::Q2K => "q2_k",
        SerializedType::Q3K => "q3_k",
        SerializedType::Q4K => "q4_k",
        SerializedType::Q6K => "q6_k",
        SerializedType::Q4_0 => "q4_0",
        _ => "unknown",
    }
}

/// Returns the label of a serialized tensor type.
pub fn tensor_type_name(tensor_type: SerializedType) -> (name: &'static str)
    ensures
        name@ == spec_tensor_type_name(tensor_type)@,
{
    match tensor_type {
        SerializedType::F32 => "f32",
        SerializedType::Q2K => "q2_k",
        SerializedType::Q3K => "q3_k",
        SerializedType::Q4K => "q4_k",
        SerializedType::Q6K => "q6_k",
        SerializedType::Q4_0 => "q4_0",
        _ => "unknown",
    }
}

} // verus!
