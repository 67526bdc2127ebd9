//! Gemma4 family: fixed tensor names and layout constants.

use vstd::prelude::*;

pub mod actor;
pub mod event;
pub mod hparams;

pub use actor::Gemma4;

pub use event::Parameters;

verus! {

/// Architecture name of the family.
pub const ARCHITECTURE_NAME: &'static str = "gemma4";

/// Capacity of the sliding-window layer pattern.
pub const SLIDING_WINDOW_PATTERN_CAPACITY: usize = 35;

/// Global tensors of a Gemma4 topology.
pub const GLOBAL_TENSOR_COUNT: u32 = 3;

/// Tensors of one block with its own key/value projections.
pub const DEDICATED_KV_BLOCK_TENSOR_COUNT: u32 = 10;

/// Tensors of one block that shares another block's key/value projections.
pub const SHARED_KV_BLOCK_TENSOR_COUNT: u32 = 9;

/// Tensors of one block in the topology.
pub const BLOCK_TENSOR_COUNT: u32 = 10;

/// Name of the token embedding tensor.
pub const TOKEN_EMBEDDING_NAME: &'static str = "token_embd.weight";

/// Name of the output normalization tensor.
pub const OUTPUT_NORM_NAME: &'static str = "output_norm.weight";


/// The Gemma4 metadata facts and the layout facts derived from them; each
/// 32-bit float is held as its bit pattern.
#[derive(Clone, Debug, PartialEq, Eq)]
pub struct MetadataParameters {
    pub context_length: i32,
    pub embedding_length: i32,
    pub embedding_length_per_layer_input: i32,
    pub feed_forward_length: i32,
    pub attention_head_count: i32,
    pub attention_head_count_kv: i32,
    pub attention_key_length: i32,
    pub attention_key_length_swa: i32,
    pub attention_value_length: i32,
    pub attention_value_length_swa: i32,
    pub block_count: i32,
    pub vocab_size: i32,
    pub attention_sliding_window: i32,
    pub attention_shared_kv_layers: i32,
    pub rope_dimension_count: i32,
    pub rope_dimension_count_swa: i32,
    pub attention_layer_norm_rms_epsilon_bits: u32,
    pub final_logit_softcapping_bits: u32,
    pub rope_freq_base_bits: u32,
    pub rope_freq_base_swa_bits: u32,
    pub sliding_window_pattern: [u8; 35],
    pub sliding_window_pattern_count: u32,
    pub full_attention_interval: i32,
    pub embedding_length_out: i32,
    pub tie_word_embeddings: bool,
    pub rope_pair_x0_stride: i32,
    pub rope_pair_x1_stride: i32,
    pub rope_pair_x1_offset: i32,
    pub rope_pair_x1_half_rot_offset: i32,
}

impl MetadataParameters {
    /// Every fact zero, the pattern empty and embeddings untied.
    pub open spec fn is_default(&self) -> bool {
        &&& self.context_length == 0
        &&& self.embedding_length == 0
        &&& self.embedding_length_per_layer_input == 0
        &&& self.feed_forward_length == 0
        &&& self.attention_head_count == 0
        &&& self.attention_head_count_kv == 0
        &&& self.attention_key_length == 0
        &&& self.attention_key_length_swa == 0
        &&& self.attention_value_length == 0
        &&& self.attention_value_length_swa == 0
        &&& self.block_count == 0
        &&& self.vocab_size == 0
        &&& self.attention_sliding_window == 0
        &&& self.attention_shared_kv_layers == 0
        &&& self.rope_dimension_count == 0
        &&& self.rope_dimension_count_swa == 0
        &&& self.attention_layer_norm_rms_epsilon_bits == 0
        &&& self.final_logit_softcapping_bits == 0
        &&& self.rope_freq_base_bits == 0
        &&& self.rope_freq_base_swa_bits == 0
        &&& forall|i: int| 0 <= i < 35 ==> #[trigger] self.sliding_window_pattern@[i] == 0
        &&& self.sliding_window_pattern_count == 0
        &&& self.full_attention_interval == 0
        &&& self.embedding_length_out == 0
        &&& !self.tie_word_embeddings
        &&& self.rope_pair_x0_stride == 0
        &&& self.rope_pair_x1_stride == 0
        &&& self.rope_pair_x1_offset == 0
        &&& self.rope_pair_x1_half_rot_offset == 0
    }
}

impl Default for MetadataParameters {
    fn default() -> (value: Self)
        ensures
            value.is_default(),
    {
        MetadataParameters {
            context_length: 0,
            embedding_length: 0,
            embedding_length_per_layer_input: 0,
            feed_forward_length: 0,
            attention_head_count: 0,
            attention_head_count_kv: 0,
            attention_key_length: 0,
            attention_key_length_swa: 0,
            attention_value_length: 0,
            attention_value_length_swa: 0,
            block_count: 0,
            vocab_size: 0,
            attention_sliding_window: 0,
            attention_shared_kv_layers: 0,
            rope_dimension_count: 0,
            rope_dimension_count_swa: 0,
            attention_layer_norm_rms_epsilon_bits: 0,
            final_logit_softcapping_bits: 0,
            rope_freq_base_bits: 0,
            rope_freq_base_swa_bits: 0,
            sliding_window_pattern: [0u8; 35],
            sliding_window_pattern_count: 0,
            full_attention_interval: 0,
            embedding_length_out: 0,
            tie_word_embeddings: false,
            rope_pair_x0_stride: 0,
            rope_pair_x1_stride: 0,
            rope_pair_x1_offset: 0,
            rope_pair_x1_half_rot_offset: 0,
        }
    }
}

} // verus!
