//! LFM2 family: hyperparameter inventory, parameters, geometry variants and fixed
//! tensor names.

use vstd::prelude::*;
use vstd::string::StringExecFns;

use crate::text::{push_signed_decimal, signed_decimal_text};

pub mod actor;
pub mod event;
pub mod hparams;

pub use actor::Lfm2;

verus! {

/// Largest per-layer attention pattern.
pub const MAX_BLOCKS: usize = 512;

/// Global tensors of an LFM2 topology.
pub const GLOBAL_TENSOR_COUNT: u32 = 3;

/// Tensors of one attention block in the topology.
pub const ATTENTION_BLOCK_TENSOR_COUNT: u32 = 11;

/// Tensors of one short-convolution block in the topology.
pub const SHORTCONV_BLOCK_TENSOR_COUNT: u32 = 8;

/// Name of the token embedding tensor.
pub const TOKEN_EMBEDDING_NAME: &'static str = "token_embd.weight";

/// Name of the output normalization tensor.
pub const OUTPUT_NORM_NAME: &'static str = "token_embd_norm.weight";

/// Architecture name of the family.
pub const ARCHITECTURE_NAME: &'static str = "lfm2";

/// The metadata keys that LFM2 hyperparameter loading reads, in order.
pub const HPARAM_KEYS: [&'static str; 10] = [
    "lfm2.context_length",
    "lfm2.embedding_length",
    "lfm2.feed_forward_length",
    "lfm2.attention.head_count",
    "lfm2.attention.head_count_kv",
    "lfm2.block_count",
    "lfm2.vocab_size",
    "lfm2.shortconv.l_cache",
    "lfm2.attention.layer_norm_rms_epsilon",
    "lfm2.rope.freq_base",
];

/// Maintained LFM2 geometries.
#[derive(Clone, Copy, Debug, PartialEq, Eq, Structural)]
pub enum Variant {
    /// 16 layers, embedding 2048, 32 attention heads.
    OnePointTwoB,
    /// 14 layers, embedding 1024, 16 attention heads.
    TwoHundredThirtyM,
}

/// LFM2 hyperparameters and the per-layer attention pattern. Each 32-bit float
/// parameter is held as its bit pattern.
#[derive(Clone, Copy, Debug, PartialEq, Eq)]
pub struct Parameters {
    pub context_length: i32,
    pub embedding_length: i32,
    pub embedding_length_out: i32,
    pub feed_forward_length: i32,
    pub attention_head_count: i32,
    pub attention_head_count_kv: i32,
    pub block_count: i32,
    pub vocab_size: i32,
    pub shortconv_l_cache: i32,
    pub attention_layer_norm_rms_epsilon_bits: u32,
    pub rope_freq_base_bits: u32,
    pub attention_key_length: i32,
    pub attention_value_length: i32,
    pub rope_dimension_count: i32,
    pub attention_layer_pattern_count: u32,
    pub attention_layer_pattern_flags: [u8; 512],
}

/// The geometry a parameter set belongs to, if it is a maintained one.
pub open spec fn spec_variant(p: Parameters) -> Option<Variant> {
    if p.block_count == 16 && p.embedding_length == 2048 && p.attention_head_count == 32 {
        Some(Variant::OnePointTwoB)
    } else if p.block_count == 14 && p.embedding_length == 1024 && p.attention_head_count == 16 {
        Some(Variant::TwoHundredThirtyM)
    } else {
        None
    }
}

/// The one-line summary of LFM2 parameters.
pub open spec fn parameters_text(p: Parameters) -> Seq<char> {
    "Lfm2 "@ + signed_decimal_text(p.block_count as int) + " layers, embedding "@ + signed_decimal_text(
        p.embedding_length as int,
    ) + ", context "@ + signed_decimal_text(p.context_length as int)
}

/// All parameters are zero and the attention pattern is empty.
pub open spec fn is_zero_parameters(p: Parameters) -> bool {
    &&& p.context_length == 0
    &&& p.embedding_length == 0
    &&& p.embedding_length_out == 0
    &&& p.feed_forward_length == 0
    &&& p.attention_head_count == 0
    &&& p.attention_head_count_kv == 0
    &&& p.block_count == 0
    &&& p.vocab_size == 0
    &&& p.shortconv_l_cache == 0
    &&& p.attention_layer_norm_rms_epsilon_bits == 0
    &&& p.rope_freq_base_bits == 0
    &&& p.attention_key_length == 0
    &&& p.attention_value_length == 0
    &&& p.rope_dimension_count == 0
    &&& p.attention_layer_pattern_count == 0
    &&& p.attention_layer_pattern_flags@ == Seq::new(512, |i: int| 0u8)
}

impl Default for Parameters {
    fn default() -> (p: Self)
        ensures
            is_zero_parameters(p),
    {
        let p = Parameters {
            context_length: 0,
            embedding_length: 0,
            embedding_length_out: 0,
            feed_forward_length: 0,
            attention_head_count: 0,
            attention_head_count_kv: 0,
            block_count: 0,
            vocab_size: 0,
            shortconv_l_cache: 0,
            attention_layer_norm_rms_epsilon_bits: 0,
            rope_freq_base_bits: 0,
            attention_key_length: 0,
            attention_value_length: 0,
            rope_dimension_count: 0,
            attention_layer_pattern_count: 0,
            attention_layer_pattern_flags: [0u8; 512],
        };
        assert(p.attention_layer_pattern_flags@ =~= Seq::new(512, |i: int| 0u8));
        p
    }
}

impl Parameters {
    /// Classifies exactly the two maintained geometries.
    pub fn variant(&self) -> (variant: Option<Variant>)
        ensures
            variant == spec_variant(*self),
    {
        if self.block_count == 16 && self.embedding_length == 2048 && self.attention_head_count == 32 {
            Some(Variant::OnePointTwoB)
        } else if self.block_count == 14 && self.embedding_length == 1024 && self.attention_head_count == 16 {
            Some(Variant::TwoHundredThirtyM)
        } else {
            None
        }
    }

    /// Renders the one-line summary: layers, embedding width and context length.
    pub fn describe(&self) -> (text: String)
        ensures
            text@ == parameters_text(*self),
    {
        let mut text = String::from_str("Lfm2 ");
        push_signed_decimal(&mut text, self.block_count);
        text.append(" layers, embedding ");
        push_signed_decimal(&mut text, self.embedding_length);
        text.append(", context ");
        push_signed_decimal(&mut text, self.context_length);
        text
    }
}

} // verus!
