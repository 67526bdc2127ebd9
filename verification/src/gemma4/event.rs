//! Requests, parameters and caller-preallocated storage of the Gemma4 family actor.

use vstd::prelude::*;
use vstd::string::StringExecFns;

use crate::text::{push_signed_decimal, signed_decimal_text};

pub use crate::attention_family::event::{
    BlockAudit, BlockBuild, BlockValidation, BlockVisit, ContractReset, ContractVisit, PlanBuild, StageAudit, Storage,
    StorageBindError, StorageRelease, TopologyBuild,
};
pub use crate::generation::event::Error;

verus! {

/// The metadata keys that Gemma4 hyperparameter loading reads, in order.
pub const HPARAM_KEYS: [&'static str; 21] = [
    "gemma4.context_length",
    "gemma4.embedding_length",
    "gemma4.embedding_length_per_layer_input",
    "gemma4.feed_forward_length",
    "gemma4.attention.head_count",
    "gemma4.attention.head_count_kv",
    "gemma4.attention.key_length",
    "gemma4.attention.key_length_swa",
    "gemma4.attention.value_length",
    "gemma4.attention.value_length_swa",
    "gemma4.block_count",
    "gemma4.vocab_size",
    "gemma4.attention.sliding_window",
    "gemma4.attention.shared_kv_layers",
    "gemma4.rope.dimension_count",
    "gemma4.rope.dimension_count_swa",
    "gemma4.attention.layer_norm_rms_epsilon",
    "gemma4.final_logit_softcapping",
    "gemma4.rope.freq_base",
    "gemma4.rope.freq_base_swa",
    "gemma4.attention.sliding_window_pattern",
];

/// Gemma4 hyperparameters and derived layout facts. Each 32-bit float parameter is
/// held as its bit pattern.
#[derive(Clone, Copy, Debug, PartialEq, Eq)]
pub struct Parameters {
    pub context_length: i32,
    pub embedding_length: i32,
    pub embedding_length_per_layer_input: i32,
    pub embedding_length_out: i32,
    pub feed_forward_length: i32,
    pub attention_head_count: i32,
    pub attention_head_count_kv: i32,
    pub attention_key_length: i32,
    pub attention_key_length_swa: i32,
    pub attention_value_length: i32,
    pub attention_value_length_swa: i32,
    pub rope_dimension_count: i32,
    pub rope_dimension_count_swa: i32,
    pub block_count: i32,
    pub attention_layer_norm_rms_epsilon_bits: u32,
    pub final_logit_softcapping_bits: u32,
    pub rope_freq_base_bits: u32,
    pub rope_freq_base_swa_bits: u32,
    pub attention_sliding_window: i32,
    pub attention_shared_kv_layers: i32,
    pub sliding_window_pattern: [u8; 35],
    pub sliding_window_pattern_count: u32,
    pub tie_word_embeddings: bool,
    pub rope_pair_x0_stride: i32,
    pub rope_pair_x1_stride: i32,
    pub rope_pair_x1_offset: i32,
    pub rope_pair_x1_half_rot_offset: i32,
}

/// Every numeric parameter is zero, the pattern is empty and embeddings are untied.
pub open spec fn is_zero_parameters(p: Parameters) -> bool {
    &&& p.context_length == 0
    &&& p.embedding_length == 0
    &&& p.embedding_length_per_layer_input == 0
    &&& p.embedding_length_out == 0
    &&& p.feed_forward_length == 0
    &&& p.attention_head_count == 0
    &&& p.attention_head_count_kv == 0
    &&& p.attention_key_length == 0
    &&& p.attention_key_length_swa == 0
    &&& p.attention_value_length == 0
    &&& p.attention_value_length_swa == 0
    &&& p.rope_dimension_count == 0
    &&& p.rope_dimension_count_swa == 0
    &&& p.block_count == 0
    &&& p.attention_layer_norm_rms_epsilon_bits == 0
    &&& p.final_logit_softcapping_bits == 0
    &&& p.rope_freq_base_bits == 0
    &&& p.rope_freq_base_swa_bits == 0
    &&& p.attention_sliding_window == 0
    &&& p.attention_shared_kv_layers == 0
    &&& p.sliding_window_pattern@ == Seq::new(35, |i: int| 0u8)
    &&& p.sliding_window_pattern_count == 0
    &&& !p.tie_word_embeddings
    &&& p.rope_pair_x0_stride == 0
    &&& p.rope_pair_x1_stride == 0
    &&& p.rope_pair_x1_offset == 0
    &&& p.rope_pair_x1_half_rot_offset == 0
}

impl Default for Parameters {
    fn default() -> (p: Self)
        ensures
            is_zero_parameters(p),
    {
        let p = Parameters {
            context_length: 0,
            embedding_length: 0,
            embedding_length_per_layer_input: 0,
            embedding_length_out: 0,
            feed_forward_length: 0,
            attention_head_count: 0,
            attention_head_count_kv: 0,
            attention_key_length: 0,
            attention_key_length_swa: 0,
            attention_value_length: 0,
            attention_value_length_swa: 0,
            rope_dimension_count: 0,
            rope_dimension_count_swa: 0,
            block_count: 0,
            attention_layer_norm_rms_epsilon_bits: 0,
            final_logit_softcapping_bits: 0,
            rope_freq_base_bits: 0,
            rope_freq_base_swa_bits: 0,
            attention_sliding_window: 0,
            attention_shared_kv_layers: 0,
            sliding_window_pattern: [0u8; 35],
            sliding_window_pattern_count: 0,
            tie_word_embeddings: false,
            rope_pair_x0_stride: 0,
            rope_pair_x1_stride: 0,
            rope_pair_x1_offset: 0,
            rope_pair_x1_half_rot_offset: 0,
        };
        assert(p.sliding_window_pattern@ =~= Seq::new(35, |i: int| 0u8));
        p
    }
}

/// The one-line summary of Gemma4 parameters.
pub open spec fn parameters_text(p: Parameters) -> Seq<char> {
    "Gemma4 "@ + signed_decimal_text(p.block_count as int) + " layers, embedding "@ + signed_decimal_text(
        p.embedding_length as int,
    ) + ", context "@ + signed_decimal_text(p.context_length as int)
}

impl Parameters {
    /// Renders the one-line summary: layers, embedding width and context length.
    pub fn describe(&self) -> (text: String)
        ensures
            text@ == parameters_text(*self),
    {
        let mut text = String::from_str("Gemma4 ");
        push_signed_decimal(&mut text, self.block_count);
        text.append(" layers, embedding ");
        push_signed_decimal(&mut text, self.embedding_length);
        text.append(", context ");
        push_signed_decimal(&mut text, self.context_length);
        text
    }
}

/// Begins the Gemma4 contract and binds its global tensors.
pub type ContractBegin<'a> = crate::attention_family::event::ContractBegin<'a, Parameters>;

} // verus!
