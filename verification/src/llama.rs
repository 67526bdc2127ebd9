//! Llama family: hyperparameter inventory, parameters and fixed tensor names.

use vstd::prelude::*;
use vstd::string::StringExecFns;

use crate::text::{push_signed_decimal, signed_decimal_text};

pub mod actor;
pub mod hparams;

pub use actor::{Llama, LlamaPolicy};

verus! {

/// Global tensors of a Llama topology.
pub const GLOBAL_TENSOR_COUNT: u32 = 3;

/// Tensors of one Llama block in the topology.
pub const BLOCK_TENSOR_COUNT: u32 = 8;

/// Name of the token embedding tensor.
pub const TOKEN_EMBEDDING_NAME: &'static str = "token_embd.weight";

/// Name of the output normalization tensor.
pub const OUTPUT_NORM_NAME: &'static str = "output_norm.weight";

/// Architecture name of the family.
pub const ARCHITECTURE_NAME: &'static str = "llama";

/// The metadata keys that Llama hyperparameter loading reads, in order.
pub const HPARAM_KEYS: [&'static str; 18] = [
    "llama.context_length",
    "llama.embedding_length",
    "llama.embedding_length_out",
    "llama.feed_forward_length",
    "llama.attention.head_count",
    "llama.attention.head_count_kv",
    "llama.rope.dimension_count",
    "llama.block_count",
    "llama.vocab_size",
    "llama.attention.layer_norm_epsilon",
    "llama.attention.layer_norm_rms_epsilon",
    "llama.attention.clamp_kqv",
    "llama.attn_logit_softcapping",
    "llama.final_logit_softcapping",
    "llama.residual_scale",
    "llama.embedding_scale",
    "llama.rope.freq_base",
    "llama.rope.freq_base_swa",
];

/// Llama hyperparameters and the two derived attention lengths. Each 32-bit float
/// parameter is held as its bit pattern.
#[derive(Clone, Copy, Debug, Default, PartialEq, Eq, Structural)]
pub struct Parameters {
    pub context_length: i32,
    pub embedding_length: i32,
    pub embedding_length_out: i32,
    pub feed_forward_length: i32,
    pub attention_head_count: i32,
    pub attention_head_count_kv: i32,
    pub rope_dimension_count: i32,
    pub block_count: i32,
    pub vocab_size: i32,
    pub attention_layer_norm_epsilon_bits: u32,
    pub attention_layer_norm_rms_epsilon_bits: u32,
    pub attention_clamp_kqv_bits: u32,
    pub attn_logit_softcapping_bits: u32,
    pub final_logit_softcapping_bits: u32,
    pub residual_scale_bits: u32,
    pub embedding_scale_bits: u32,
    pub rope_freq_base_bits: u32,
    pub rope_freq_base_swa_bits: u32,
    pub attention_key_length: i32,
    pub attention_value_length: i32,
}

/// The one-line summary of Llama parameters.
pub open spec fn parameters_text(p: Parameters) -> Seq<char> {
    "Llama "@ + signed_decimal_text(p.block_count as int) + " layers, embedding "@ + signed_decimal_text(
        p.embedding_length as int,
    ) + ", context "@ + signed_decimal_text(p.context_length as int)
}

impl Parameters {
    /// Renders the one-line summary: layers, embedding width and context length.
    pub fn describe(&self) -> (text: String)
        ensures
            text@ == parameters_text(*self),
    {
        let mut text = String::from_str("Llama ");
        push_signed_decimal(&mut text, self.block_count);
        text.append(" layers, embedding ");
        push_signed_decimal(&mut text, self.embedding_length);
        text.append(", context ");
        push_signed_decimal(&mut text, self.context_length);
        text
    }
}

} // verus!
