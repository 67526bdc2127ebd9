//! Ownership-safe model data schema: fixed capacities, sentinel defaults,
//! checked byte views over the name and metadata regions, and the block-index
//! name parser.

use vstd::prelude::*;
use std::collections::TryReserveError;

verus! {

pub const MAX_TENSORS: usize = 65_536;
pub const MAX_NAME_BYTES: usize = 4_194_304;
pub const MAX_ARCHITECTURE_NAME: usize = 64;
pub const MAX_VOCAB_TOKENS: usize = 320_000;
pub const MAX_VOCAB_BYTES: usize = 8_388_608;
pub const MAX_TOKENIZER_MODEL: usize = 64;
pub const MAX_TOKENIZER_PRE: usize = 64;
pub const MAX_MERGES: usize = 600_000;
pub const MAX_MERGE_BYTES: usize = 8_388_608;
pub const MAX_PRECOMPILED_CHARMAP_BYTES: usize = 1_048_576;
pub const MAX_SPLIT_FILES: usize = 128;
pub const MAX_METADATA_BLOB_BYTES: usize = 4_194_304;
pub const MAX_METADATA_STRINGS: usize = 4096;
pub const MAX_METADATA_LIST: usize = 256;
pub const MAX_METADATA_ENTITIES: usize = 64;
pub const MAX_METADATA_ARRAYS: usize = 512;
pub const MAX_MATRYOSHKA_DIMS: usize = 16;
pub const MAX_ROPE_DIMENSION_SECTIONS: usize = 32;
pub const MAX_XIELU_VALUES: usize = 256;
pub const MAX_CLIP_IMAGE_STATS: usize = 16;
pub const MAX_CLIP_LAYER_INDEXES: usize = 512;
pub const MAX_MOSHI_DELAYS: usize = 64;
pub const MAX_INFERENCE_PROMPT_TOKENS: usize = 64;
pub const MAX_DEPFORMER_WEIGHT_SCHEDULE: usize = 64;
/// One attribute flag bit per vocabulary token, rounded up to whole bytes.
pub const ATTR_FLAG_BYTES: usize = 40_000;

/// Ceiling division of the vocabulary bound by eight is the attribute-flag size.
pub proof fn lemma_attr_flag_bytes()
    ensures
        ATTR_FLAG_BYTES * 8 >= MAX_VOCAB_TOKENS,
        (ATTR_FLAG_BYTES - 1) * 8 < MAX_VOCAB_TOKENS,
{
}

#[derive(Clone, Copy, Debug, Default, PartialEq, Eq, Structural)]
pub enum GenerationResidualRoute {
    #[default]
    Attention,
    Shortconv,
}

#[derive(Clone, Copy, Debug, Default, PartialEq, Eq, Structural)]
pub enum GenerationAttentionQkNormRoute {
    #[default]
    NoNorm,
    HeadwiseRms,
}

#[derive(Clone, Copy, Debug, Default, PartialEq, Eq, Structural)]
pub enum GenerationAttentionValueRoute {
    #[default]
    DedicatedValue,
    SharedKeyValue,
}

#[derive(Clone, Copy, Debug, Default, PartialEq, Eq, Structural)]
pub enum GenerationAttentionVNormRoute {
    #[default]
    NoNorm,
    Rms,
}

#[derive(Clone, Copy, Debug, Default, PartialEq, Eq, Structural)]
pub enum GenerationAttentionWindowRoute {
    #[default]
    FullContext,
    SlidingWindow,
}

#[derive(Clone, Copy, Debug, Default, PartialEq, Eq, Structural)]
pub enum TokenizerModel {
    NoVocab,
    Spm,
    Bpe,
    Wpm,
    Ugm,
    Rwkv,
    Plamo2,
    #[default]
    Unknown,
}

#[derive(Clone, Copy, Debug, Default, PartialEq, Eq, Structural)]
pub enum TokenizerPre {
    #[default]
    Default,
    Llama3,
    Jais2,
    Dbrx,
    Smaug,
    DeepseekLlm,
    DeepseekCoder,
    Deepseek3Llm,
    Youtu,
    Falcon,
    Mpt,
    Starcoder,
    Gpt2,
    Jais,
    Refact,
    CommandR,
    Qwen2,
    Qwen35,
    Stablelm2,
    Olmo,
    Poro,
    Chatglm4,
    Viking,
    Tekken,
    Smollm,
    Codeshell,
    Bloom,
    Gpt3Finnish,
    Exaone,
    Exaone4,
    ExaoneMoe,
    Chameleon,
    Minerva,
    Megrez,
    Gpt4o,
    TinyAya,
    Superbpe,
    Trillion,
    GraniteDocling,
    Bailingmoe,
    SeedCoder,
    Hunyuan,
    HunyuanDense,
    JoyaiLlm,
    KimiK2,
    Grok2,
    Afmoe,
    MinimaxM2,
    SolarOpen,
    Unknown,
}

#[derive(Clone, Copy, Debug, Default, PartialEq, Eq, Structural)]
pub enum MoshiComponent {
    #[default]
    NoComponent,
    Lm,
    Mimi,
    Voice,
}

/// Split-file location of one tensor's bytes.
#[derive(Clone, Copy, Debug, Default, PartialEq, Eq, Structural)]
pub struct TensorBinding {
    pub split_index: u16,
    pub offset: u64,
    pub length: u64,
}

/// One tensor record of the model data schema.
#[derive(Clone, Copy, Debug, Default, PartialEq, Eq)]
pub struct TensorRecord {
    pub name_offset: u32,
    pub name_length: u32,
    pub tensor_type: i32,
    pub n_dims: i32,
    pub dims: [i64; 4],
    pub data_offset: u64,
    pub file_offset: u64,
    pub data_size: u64,
    pub data: Option<TensorBinding>,
    pub file_index: u16,
}

impl TensorRecord {
    /// A record naming `name_length` bytes at `name_offset` of the name region.
    pub fn with_name(name_offset: u32, name_length: u32) -> (record: Self)
        ensures
            record.name_offset == name_offset,
            record.name_length == name_length,
            record.data is None,
            record.data_size == 0,
    {
        TensorRecord {
            name_offset,
            name_length,
            tensor_type: 0,
            n_dims: 0,
            dims: [0i64; 4],
            data_offset: 0,
            file_offset: 0,
            data_size: 0,
            data: None,
            file_index: 0,
        }
    }

    /// The all-zero record.
    pub fn zero() -> (record: Self)
        ensures
            record == Self::spec_zero(),
    {
        TensorRecord {
            name_offset: 0,
            name_length: 0,
            tensor_type: 0,
            n_dims: 0,
            dims: [0i64, 0, 0, 0],
            data_offset: 0,
            file_offset: 0,
            data_size: 0,
            data: None,
            file_index: 0,
        }
    }

    /// The all-zero record.
    pub open spec fn spec_zero() -> Self {
        TensorRecord {
            name_offset: 0,
            name_length: 0,
            tensor_type: 0,
            n_dims: 0,
            dims: [0i64, 0, 0, 0],
            data_offset: 0,
            file_offset: 0,
            data_size: 0,
            data: None,
            file_index: 0,
        }
    }
}

/// Fixed-capacity inline array.
#[derive(Clone, Debug, PartialEq, Eq)]
pub struct Fixed<T, const N: usize>(pub [T; N]);

impl<T: Copy, const N: usize> Fixed<T, N> {
    /// Returns the element at `index`.
    pub fn get(&self, index: usize) -> (value: T)
        requires
            index < N,
        ensures
            value == self.0@[index as int],
    {
        self.0[index]
    }
}

/// Moshi language-model hyperparameters.
#[derive(Clone, Debug, PartialEq, Eq)]
pub struct MoshiLmHParams {
    pub card: i32,
    pub n_q: i32,
    pub dep_q: i32,
    pub inference_dep_q: i32,
    pub text_card: i32,
    pub text_padding_id: i32,
    pub dim: i32,
    pub num_layers: i32,
    pub num_heads: i32,
    pub context: i32,
    pub max_period: i32,
    pub dim_feedforward: i32,
    pub depformer_dim: i32,
    pub depformer_num_heads: i32,
    pub depformer_num_layers: i32,
    pub depformer_dim_feedforward: i32,
    pub depformer_context: i32,
    pub depformer_max_period: i32,
    pub depformer_low_rank_embeddings: i32,
    pub extra_heads_num_heads: i32,
    pub inference_pre_text_silence_frames: i32,
    pub inference_post_text_silence_frames: i32,
    pub delay_count: u32,
    pub inference_prompt_token_count: u32,
    pub depformer_weight_schedule_count: u32,
    pub delays: Fixed<i32, 64>,
    pub inference_prompt_tokens: Fixed<i32, 64>,
    pub depformer_weight_schedule: Fixed<i32, 64>,
    pub causal: bool,
    pub cross_attention: bool,
    pub demux_second_stream: bool,
    pub depformer_multi_linear: bool,
    pub depformer_weights_per_step: bool,
}

impl MoshiLmHParams {
    /// The defaults: everything zero except the `-1` text padding sentinel.
    pub open spec fn is_default(&self) -> bool {
        &&& self.card == 0 && self.n_q == 0 && self.dep_q == 0 && self.inference_dep_q == 0
        &&& self.text_card == 0 && self.text_padding_id == -1 && self.dim == 0
        &&& self.num_layers == 0 && self.num_heads == 0 && self.context == 0
        &&& self.max_period == 0 && self.dim_feedforward == 0 && self.depformer_dim == 0
        &&& self.depformer_num_heads == 0 && self.depformer_num_layers == 0
        &&& self.depformer_dim_feedforward == 0 && self.depformer_context == 0
        &&& self.depformer_max_period == 0 && self.depformer_low_rank_embeddings == 0
        &&& self.extra_heads_num_heads == 0 && self.inference_pre_text_silence_frames == 0
        &&& self.inference_post_text_silence_frames == 0 && self.delay_count == 0
        &&& self.inference_prompt_token_count == 0 && self.depformer_weight_schedule_count == 0
        &&& forall|i: int| 0 <= i < 64 ==> #[trigger] self.delays.0@[i] == 0
        &&& forall|i: int| 0 <= i < 64 ==> #[trigger] self.inference_prompt_tokens.0@[i] == 0
        &&& forall|i: int| 0 <= i < 64 ==> #[trigger] self.depformer_weight_schedule.0@[i] == 0
        &&& !self.causal && !self.cross_attention && !self.demux_second_stream
        &&& !self.depformer_multi_linear && !self.depformer_weights_per_step
    }

    /// Restores the defaults.
    pub fn reset(&mut self)
        ensures
            final(self).is_default(),
    {
        *self = Self::default();
    }

    /// The text padding token id.
    pub fn text_padding_id(&self) -> (id: i32)
        ensures
            id == self.text_padding_id,
    {
        self.text_padding_id
    }
}

impl Default for MoshiLmHParams {
    fn default() -> (params: Self)
        ensures
            params.is_default(),
    {
        let params = MoshiLmHParams {
            card: 0,
            n_q: 0,
            dep_q: 0,
            inference_dep_q: 0,
            text_card: 0,
            text_padding_id: -1,
            dim: 0,
            num_layers: 0,
            num_heads: 0,
            context: 0,
            max_period: 0,
            dim_feedforward: 0,
            depformer_dim: 0,
            depformer_num_heads: 0,
            depformer_num_layers: 0,
            depformer_dim_feedforward: 0,
            depformer_context: 0,
            depformer_max_period: 0,
            depformer_low_rank_embeddings: 0,
            extra_heads_num_heads: 0,
            inference_pre_text_silence_frames: 0,
            inference_post_text_silence_frames: 0,
            delay_count: 0,
            inference_prompt_token_count: 0,
            depformer_weight_schedule_count: 0,
            delays: Fixed([0i32; 64]),
            inference_prompt_tokens: Fixed([0i32; 64]),
            depformer_weight_schedule: Fixed([0i32; 64]),
            causal: false,
            cross_attention: false,
            demux_second_stream: false,
            depformer_multi_linear: false,
            depformer_weights_per_step: false,
        };
        params
    }
}


/// Model hyperparameters. Each 32-bit float parameter is held as its bit pattern.
#[derive(Clone, Debug, PartialEq, Eq)]
pub struct HParams {
    pub n_ctx: i32,
    pub n_embd: i32,
    pub n_embd_out: i32,
    pub n_ff: i32,
    pub n_head: i32,
    pub n_head_kv: i32,
    pub n_rot: i32,
    pub n_layer: i32,
    pub n_vocab: i32,
    pub n_features: i32,
    pub n_leading_dense_block: i32,
    pub n_expert_ff: i32,
    pub n_expert_shared_ff: i32,
    pub n_expert_chunk_ff: i32,
    pub n_expert: i32,
    pub n_expert_used: i32,
    pub n_expert_shared: i32,
    pub n_expert_group: i32,
    pub n_expert_group_used: i32,
    pub expert_weights_scale_bits: u32,
    pub expert_weights_norm: bool,
    pub expert_gating_func: i32,
    pub expert_group_scale_bits: u32,
    pub experts_per_group: i32,
    pub moe_every_n_layers: i32,
    pub tie_word_embeddings: bool,
    pub nextn_predict_layers: i32,
    pub n_deepstack_layers: i32,
    pub pooling_type: i32,
    pub logit_scale_bits: u32,
    pub decoder_start_token_id: i32,
    pub decoder_block_count: i32,
    pub attn_logit_softcapping_bits: u32,
    pub router_logit_softcapping_bits: u32,
    pub final_logit_softcapping_bits: u32,
    pub swin_norm: bool,
    pub rescale_every_n_layers: i32,
    pub time_mix_extra_dim: i32,
    pub time_decay_extra_dim: i32,
    pub residual_scale_bits: u32,
    pub embedding_scale_bits: u32,
    pub token_shift_count: i32,
    pub interleave_moe_layer_step: i32,
    pub full_attention_interval: i32,
    pub activation_sparsity_scale_bits: u32,
    pub altup_active_idx: i32,
    pub altup_num_inputs: i32,
    pub embd_length_per_layer_input: i32,
    pub swiglu_clamp_exp_count: u32,
    pub swiglu_clamp_exp_bits: Fixed<u32, 256>,
    pub swiglu_clamp_shexp_count: u32,
    pub swiglu_clamp_shexp_bits: Fixed<u32, 256>,
    pub dense_2_feat_in: i32,
    pub dense_2_feat_out: i32,
    pub dense_3_feat_in: i32,
    pub dense_3_feat_out: i32,
    pub use_parallel_residual: bool,
    pub attention_max_alibi_bias_bits: u32,
    pub attention_clamp_kqv_bits: u32,
    pub attention_key_length: i32,
    pub attention_value_length: i32,
    pub attention_key_length_swa: i32,
    pub attention_value_length_swa: i32,
    pub attention_layer_norm_epsilon_bits: u32,
    pub attention_layer_norm_rms_epsilon_bits: u32,
    pub attention_group_norm_epsilon_bits: u32,
    pub attention_group_norm_groups: i32,
    pub attention_causal: bool,
    pub attention_q_lora_rank: i32,
    pub attention_kv_lora_rank: i32,
    pub attention_decay_lora_rank: i32,
    pub attention_iclr_lora_rank: i32,
    pub attention_value_residual_mix_lora_rank: i32,
    pub attention_gate_lora_rank: i32,
    pub attention_relative_buckets_count: i32,
    pub attention_sliding_window: i32,
    pub attention_sliding_window_pattern: i32,
    pub attention_sliding_window_pattern_count: u32,
    pub attention_sliding_window_pattern_flags: Fixed<u8, 512>,
    pub attention_layer_pattern_count: u32,
    pub attention_layer_pattern_flags: Fixed<u8, 512>,
    pub attention_scale_bits: u32,
    pub attention_output_scale_bits: u32,
    pub attention_temperature_length: i32,
    pub attention_temperature_scale_bits: u32,
    pub attention_key_length_mla: i32,
    pub attention_value_length_mla: i32,
    pub attention_indexer_head_count: i32,
    pub attention_indexer_key_length: i32,
    pub attention_indexer_top_k: i32,
    pub attention_shared_kv_layers: i32,
    pub rope_freq_base_bits: u32,
    pub rope_freq_base_swa_bits: u32,
    pub n_rot_swa: i32,
    pub rope_pair_x0_stride: i32,
    pub rope_pair_x1_stride: i32,
    pub rope_pair_x1_offset: i32,
    pub rope_pair_x1_half_rot_offset: i32,
    pub rope_scale_linear_bits: u32,
    pub rope_dimension_sections_count: i32,
    pub rope_dimension_sections: [i32; 32],
    pub rope_scaling_factor_bits: u32,
    pub rope_scaling_attn_factor_bits: u32,
    pub rope_scaling_orig_ctx_len: i32,
    pub rope_scaling_finetuned: bool,
    pub rope_scaling_yarn_log_multiplier_bits: u32,
    pub rope_scaling_yarn_ext_factor_bits: u32,
    pub rope_scaling_yarn_attn_factor_bits: u32,
    pub rope_scaling_yarn_beta_fast_bits: u32,
    pub rope_scaling_yarn_beta_slow_bits: u32,
    pub ssm_conv_kernel: i32,
    pub ssm_inner_size: i32,
    pub ssm_state_size: i32,
    pub ssm_time_step_rank: i32,
    pub ssm_group_count: i32,
    pub ssm_dt_b_c_rms: bool,
    pub kda_head_dim: i32,
    pub wkv_head_size: i32,
    pub posnet_embd: i32,
    pub posnet_block_count: i32,
    pub convnext_embd: i32,
    pub convnext_block_count: i32,
    pub shortconv_l_cache: i32,
    pub matryoshka_dimension_count: u32,
    pub matryoshka_dimensions: [i32; 16],
}

impl HParams {
    /// Restores the defaults.
    pub fn reset(&mut self)
        ensures
            final(self).is_default(),
    {
        *self = Self::default();
    }

    /// The defaults.
    pub open spec fn is_default(&self) -> bool {
        &&& self.n_ctx == 0
        &&& self.n_embd == 0
        &&& self.n_embd_out == 0
        &&& self.n_ff == 0
        &&& self.n_head == 0
        &&& self.n_head_kv == 0
        &&& self.n_rot == 0
        &&& self.n_layer == 0
        &&& self.n_vocab == 0
        &&& self.n_features == 0
        &&& self.n_leading_dense_block == 0
        &&& self.n_expert_ff == 0
        &&& self.n_expert_shared_ff == 0
        &&& self.n_expert_chunk_ff == 0
        &&& self.n_expert == 0
        &&& self.n_expert_used == 0
        &&& self.n_expert_shared == 0
        &&& self.n_expert_group == 0
        &&& self.n_expert_group_used == 0
        &&& self.expert_weights_scale_bits == 0
        &&& !self.expert_weights_norm
        &&& self.expert_gating_func == 0
        &&& self.expert_group_scale_bits == 0
        &&& self.experts_per_group == 0
        &&& self.moe_every_n_layers == 0
        &&& !self.tie_word_embeddings
        &&& self.nextn_predict_layers == 0
        &&& self.n_deepstack_layers == 0
        &&& self.pooling_type == 0
        &&& self.logit_scale_bits == 0
        &&& self.decoder_start_token_id == -1
        &&& self.decoder_block_count == 0
        &&& self.attn_logit_softcapping_bits == 0
        &&& self.router_logit_softcapping_bits == 0
        &&& self.final_logit_softcapping_bits == 0
        &&& !self.swin_norm
        &&& self.rescale_every_n_layers == 0
        &&& self.time_mix_extra_dim == 0
        &&& self.time_decay_extra_dim == 0
        &&& self.residual_scale_bits == 0
        &&& self.embedding_scale_bits == 0
        &&& self.token_shift_count == 0
        &&& self.interleave_moe_layer_step == 0
        &&& self.full_attention_interval == 0
        &&& self.activation_sparsity_scale_bits == 0
        &&& self.altup_active_idx == -1
        &&& self.altup_num_inputs == 0
        &&& self.embd_length_per_layer_input == 0
        &&& self.swiglu_clamp_exp_count == 0
        &&& forall|i: int| 0 <= i < 256 ==> #[trigger] self.swiglu_clamp_exp_bits.0@[i] == 0
        &&& self.swiglu_clamp_shexp_count == 0
        &&& forall|i: int| 0 <= i < 256 ==> #[trigger] self.swiglu_clamp_shexp_bits.0@[i] == 0
        &&& self.dense_2_feat_in == 0
        &&& self.dense_2_feat_out == 0
        &&& self.dense_3_feat_in == 0
        &&& self.dense_3_feat_out == 0
        &&& !self.use_parallel_residual
        &&& self.attention_max_alibi_bias_bits == 0
        &&& self.attention_clamp_kqv_bits == 0
        &&& self.attention_key_length == 0
        &&& self.attention_value_length == 0
        &&& self.attention_key_length_swa == 0
        &&& self.attention_value_length_swa == 0
        &&& self.attention_layer_norm_epsilon_bits == 0
        &&& self.attention_layer_norm_rms_epsilon_bits == 0
        &&& self.attention_group_norm_epsilon_bits == 0
        &&& self.attention_group_norm_groups == 0
        &&& !self.attention_causal
        &&& self.attention_q_lora_rank == 0
        &&& self.attention_kv_lora_rank == 0
        &&& self.attention_decay_lora_rank == 0
        &&& self.attention_iclr_lora_rank == 0
        &&& self.attention_value_residual_mix_lora_rank == 0
        &&& self.attention_gate_lora_rank == 0
        &&& self.attention_relative_buckets_count == 0
        &&& self.attention_sliding_window == 0
        &&& self.attention_sliding_window_pattern == 0
        &&& self.attention_sliding_window_pattern_count == 0
        &&& forall|i: int| 0 <= i < 512 ==> #[trigger] self.attention_sliding_window_pattern_flags.0@[i] == 0
        &&& self.attention_layer_pattern_count == 0
        &&& forall|i: int| 0 <= i < 512 ==> #[trigger] self.attention_layer_pattern_flags.0@[i] == 0
        &&& self.attention_scale_bits == 0
        &&& self.attention_output_scale_bits == 0
        &&& self.attention_temperature_length == 0
        &&& self.attention_temperature_scale_bits == 0
        &&& self.attention_key_length_mla == 0
        &&& self.attention_value_length_mla == 0
        &&& self.attention_indexer_head_count == 0
        &&& self.attention_indexer_key_length == 0
        &&& self.attention_indexer_top_k == 0
        &&& self.attention_shared_kv_layers == 0
        &&& self.rope_freq_base_bits == 0
        &&& self.rope_freq_base_swa_bits == 0
        &&& self.n_rot_swa == 0
        &&& self.rope_pair_x0_stride == 2
        &&& self.rope_pair_x1_stride == 2
        &&& self.rope_pair_x1_offset == 1
        &&& self.rope_pair_x1_half_rot_offset == 0
        &&& self.rope_scale_linear_bits == 0
        &&& self.rope_dimension_sections_count == 0
        &&& forall|i: int| 0 <= i < 32 ==> #[trigger] self.rope_dimension_sections@[i] == 0
        &&& self.rope_scaling_factor_bits == 0
        &&& self.rope_scaling_attn_factor_bits == 0
        &&& self.rope_scaling_orig_ctx_len == 0
        &&& !self.rope_scaling_finetuned
        &&& self.rope_scaling_yarn_log_multiplier_bits == 0
        &&& self.rope_scaling_yarn_ext_factor_bits == 0
        &&& self.rope_scaling_yarn_attn_factor_bits == 0
        &&& self.rope_scaling_yarn_beta_fast_bits == 0
        &&& self.rope_scaling_yarn_beta_slow_bits == 0
        &&& self.ssm_conv_kernel == 0
        &&& self.ssm_inner_size == 0
        &&& self.ssm_state_size == 0
        &&& self.ssm_time_step_rank == 0
        &&& self.ssm_group_count == 0
        &&& !self.ssm_dt_b_c_rms
        &&& self.kda_head_dim == 0
        &&& self.wkv_head_size == 0
        &&& self.posnet_embd == 0
        &&& self.posnet_block_count == 0
        &&& self.convnext_embd == 0
        &&& self.convnext_block_count == 0
        &&& self.shortconv_l_cache == 0
        &&& self.matryoshka_dimension_count == 0
        &&& forall|i: int| 0 <= i < 16 ==> #[trigger] self.matryoshka_dimensions@[i] == 0
    }
}

impl Default for HParams {
    fn default() -> (value: Self)
        ensures
            value.is_default(),
    {
        HParams {
            n_ctx: 0,
            n_embd: 0,
            n_embd_out: 0,
            n_ff: 0,
            n_head: 0,
            n_head_kv: 0,
            n_rot: 0,
            n_layer: 0,
            n_vocab: 0,
            n_features: 0,
            n_leading_dense_block: 0,
            n_expert_ff: 0,
            n_expert_shared_ff: 0,
            n_expert_chunk_ff: 0,
            n_expert: 0,
            n_expert_used: 0,
            n_expert_shared: 0,
            n_expert_group: 0,
            n_expert_group_used: 0,
            expert_weights_scale_bits: 0,
            expert_weights_norm: false,
            expert_gating_func: 0,
            expert_group_scale_bits: 0,
            experts_per_group: 0,
            moe_every_n_layers: 0,
            tie_word_embeddings: false,
            nextn_predict_layers: 0,
            n_deepstack_layers: 0,
            pooling_type: 0,
            logit_scale_bits: 0,
            decoder_start_token_id: -1,
            decoder_block_count: 0,
            attn_logit_softcapping_bits: 0,
            router_logit_softcapping_bits: 0,
            final_logit_softcapping_bits: 0,
            swin_norm: false,
            rescale_every_n_layers: 0,
            time_mix_extra_dim: 0,
            time_decay_extra_dim: 0,
            residual_scale_bits: 0,
            embedding_scale_bits: 0,
            token_shift_count: 0,
            interleave_moe_layer_step: 0,
            full_attention_interval: 0,
            activation_sparsity_scale_bits: 0,
            altup_active_idx: -1,
            altup_num_inputs: 0,
            embd_length_per_layer_input: 0,
            swiglu_clamp_exp_count: 0,
            swiglu_clamp_exp_bits: Fixed([0u32; 256]),
            swiglu_clamp_shexp_count: 0,
            swiglu_clamp_shexp_bits: Fixed([0u32; 256]),
            dense_2_feat_in: 0,
            dense_2_feat_out: 0,
            dense_3_feat_in: 0,
            dense_3_feat_out: 0,
            use_parallel_residual: false,
            attention_max_alibi_bias_bits: 0,
            attention_clamp_kqv_bits: 0,
            attention_key_length: 0,
            attention_value_length: 0,
            attention_key_length_swa: 0,
            attention_value_length_swa: 0,
            attention_layer_norm_epsilon_bits: 0,
            attention_layer_norm_rms_epsilon_bits: 0,
            attention_group_norm_epsilon_bits: 0,
            attention_group_norm_groups: 0,
            attention_causal: false,
            attention_q_lora_rank: 0,
            attention_kv_lora_rank: 0,
            attention_decay_lora_rank: 0,
            attention_iclr_lora_rank: 0,
            attention_value_residual_mix_lora_rank: 0,
            attention_gate_lora_rank: 0,
            attention_relative_buckets_count: 0,
            attention_sliding_window: 0,
            attention_sliding_window_pattern: 0,
            attention_sliding_window_pattern_count: 0,
            attention_sliding_window_pattern_flags: Fixed([0u8; 512]),
            attention_layer_pattern_count: 0,
            attention_layer_pattern_flags: Fixed([0u8; 512]),
            attention_scale_bits: 0,
            attention_output_scale_bits: 0,
            attention_temperature_length: 0,
            attention_temperature_scale_bits: 0,
            attention_key_length_mla: 0,
            attention_value_length_mla: 0,
            attention_indexer_head_count: 0,
            attention_indexer_key_length: 0,
            attention_indexer_top_k: 0,
            attention_shared_kv_layers: 0,
            rope_freq_base_bits: 0,
            rope_freq_base_swa_bits: 0,
            n_rot_swa: 0,
            rope_pair_x0_stride: 2,
            rope_pair_x1_stride: 2,
            rope_pair_x1_offset: 1,
            rope_pair_x1_half_rot_offset: 0,
            rope_scale_linear_bits: 0,
            rope_dimension_sections_count: 0,
            rope_dimension_sections: [0i32; 32],
            rope_scaling_factor_bits: 0,
            rope_scaling_attn_factor_bits: 0,
            rope_scaling_orig_ctx_len: 0,
            rope_scaling_finetuned: false,
            rope_scaling_yarn_log_multiplier_bits: 0,
            rope_scaling_yarn_ext_factor_bits: 0,
            rope_scaling_yarn_attn_factor_bits: 0,
            rope_scaling_yarn_beta_fast_bits: 0,
            rope_scaling_yarn_beta_slow_bits: 0,
            ssm_conv_kernel: 0,
            ssm_inner_size: 0,
            ssm_state_size: 0,
            ssm_time_step_rank: 0,
            ssm_group_count: 0,
            ssm_dt_b_c_rms: false,
            kda_head_dim: 0,
            wkv_head_size: 0,
            posnet_embd: 0,
            posnet_block_count: 0,
            convnext_embd: 0,
            convnext_block_count: 0,
            shortconv_l_cache: 0,
            matryoshka_dimension_count: 0,
            matryoshka_dimensions: [0i32; 16],
        }
    }
}

/// Mimi codec hyperparameters; the frame rate is held as its 32-bit float bit pattern.
#[derive(Clone, Debug, PartialEq, Eq)]
pub struct MimiHParams {
    pub sample_rate: i32,
    pub frame_rate_bits: u32,
    pub n_q: i32,
    pub card: i32,
    pub dim: i32,
    pub semantic_n_q: i32,
    pub codebook_dim: i32,
    pub transformer_num_layers: i32,
    pub transformer_num_heads: i32,
    pub transformer_context: i32,
    pub transformer_max_period: i32,
}

impl MimiHParams {
    /// The defaults.
    pub open spec fn is_default(&self) -> bool {
        &&& self.sample_rate == 0
        &&& self.frame_rate_bits == 0
        &&& self.n_q == 0
        &&& self.card == 0
        &&& self.dim == 0
        &&& self.semantic_n_q == 0
        &&& self.codebook_dim == 0
        &&& self.transformer_num_layers == 0
        &&& self.transformer_num_heads == 0
        &&& self.transformer_context == 0
        &&& self.transformer_max_period == 0
    }
}

impl Default for MimiHParams {
    fn default() -> (value: Self)
        ensures
            value.is_default(),
    {
        MimiHParams {
            sample_rate: 0,
            frame_rate_bits: 0,
            n_q: 0,
            card: 0,
            dim: 0,
            semantic_n_q: 0,
            codebook_dim: 0,
            transformer_num_layers: 0,
            transformer_num_heads: 0,
            transformer_context: 0,
            transformer_max_period: 0,
        }
    }
}

/// Sampling metadata; each 32-bit float is held as its bit pattern.
#[derive(Clone, Debug, PartialEq, Eq)]
pub struct SamplingMetadata {
    pub sequence: MetadataStringView,
    pub top_k: i32,
    pub top_p_bits: u32,
    pub min_p_bits: u32,
    pub xtc_probability_bits: u32,
    pub xtc_threshold_bits: u32,
    pub temp_bits: u32,
    pub penalty_last_n: i32,
    pub penalty_repeat_bits: u32,
    pub mirostat: i32,
    pub mirostat_tau_bits: u32,
    pub mirostat_eta_bits: u32,
}

impl SamplingMetadata {
    /// The defaults.
    pub open spec fn is_default(&self) -> bool {
        &&& self.sequence.offset == 0 && self.sequence.length == 0
        &&& self.top_k == 0
        &&& self.top_p_bits == 0
        &&& self.min_p_bits == 0
        &&& self.xtc_probability_bits == 0
        &&& self.xtc_threshold_bits == 0
        &&& self.temp_bits == 0
        &&& self.penalty_last_n == 0
        &&& self.penalty_repeat_bits == 0
        &&& self.mirostat == 0
        &&& self.mirostat_tau_bits == 0
        &&& self.mirostat_eta_bits == 0
    }
}

impl Default for SamplingMetadata {
    fn default() -> (value: Self)
        ensures
            value.is_default(),
    {
        SamplingMetadata {
            sequence: MetadataStringView::empty(),
            top_k: 0,
            top_p_bits: 0,
            min_p_bits: 0,
            xtc_probability_bits: 0,
            xtc_threshold_bits: 0,
            temp_bits: 0,
            penalty_last_n: 0,
            penalty_repeat_bits: 0,
            mirostat: 0,
            mirostat_tau_bits: 0,
            mirostat_eta_bits: 0,
        }
    }
}

/// Adapter metadata; the LoRA alpha is held as its 32-bit float bit pattern.
#[derive(Clone, Debug, PartialEq, Eq)]
pub struct AdapterMetadata {
    pub adapter_type: MetadataStringView,
    pub lora_alpha_bits: u32,
    pub lora_task_name: MetadataStringView,
    pub lora_prompt_prefix: MetadataStringView,
    pub alora_invocation_count: u32,
    pub alora_invocation_tokens: Fixed<u32, 512>,
}

impl AdapterMetadata {
    /// The defaults.
    pub open spec fn is_default(&self) -> bool {
        &&& self.adapter_type.offset == 0 && self.adapter_type.length == 0
        &&& self.lora_alpha_bits == 0
        &&& self.lora_task_name.offset == 0 && self.lora_task_name.length == 0
        &&& self.lora_prompt_prefix.offset == 0 && self.lora_prompt_prefix.length == 0
        &&& self.alora_invocation_count == 0
        &&& forall|i: int| 0 <= i < 512 ==> #[trigger] self.alora_invocation_tokens.0@[i] == 0
    }
}

impl Default for AdapterMetadata {
    fn default() -> (value: Self)
        ensures
            value.is_default(),
    {
        AdapterMetadata {
            adapter_type: MetadataStringView::empty(),
            lora_alpha_bits: 0,
            lora_task_name: MetadataStringView::empty(),
            lora_prompt_prefix: MetadataStringView::empty(),
            alora_invocation_count: 0,
            alora_invocation_tokens: Fixed([0u32; 512]),
        }
    }
}

/// CLIP vision-encoder metadata; each 32-bit float is held as its bit pattern.
#[derive(Clone, Debug, PartialEq, Eq)]
pub struct ClipVisionMetadata {
    pub encoder_name: MetadataStringView,
    pub projector_type: MetadataStringView,
    pub image_size: i32,
    pub image_min_pixels: i32,
    pub image_max_pixels: i32,
    pub preproc_image_size: i32,
    pub patch_size: i32,
    pub embedding_length: i32,
    pub feed_forward_length: i32,
    pub projection_dim: i32,
    pub block_count: i32,
    pub spatial_merge_size: i32,
    pub n_wa_pattern: i32,
    pub window_size: i32,
    pub attention_head_count: i32,
    pub attention_layer_norm_epsilon_bits: u32,
    pub projector_scale_factor: i32,
    pub image_mean_count: u32,
    pub image_mean_bits: [u32; 16],
    pub image_std_count: u32,
    pub image_std_bits: [u32; 16],
    pub wa_layer_index_count: u32,
    pub wa_layer_indexes: Fixed<u32, 512>,
    pub deepstack_layer_count: u32,
    pub deepstack_layers: Fixed<u8, 512>,
}

impl ClipVisionMetadata {
    /// The defaults.
    pub open spec fn is_default(&self) -> bool {
        &&& self.encoder_name.offset == 0 && self.encoder_name.length == 0
        &&& self.projector_type.offset == 0 && self.projector_type.length == 0
        &&& self.image_size == 0
        &&& self.image_min_pixels == 0
        &&& self.image_max_pixels == 0
        &&& self.preproc_image_size == 0
        &&& self.patch_size == 0
        &&& self.embedding_length == 0
        &&& self.feed_forward_length == 0
        &&& self.projection_dim == 0
        &&& self.block_count == 0
        &&& self.spatial_merge_size == 0
        &&& self.n_wa_pattern == 0
        &&& self.window_size == 0
        &&& self.attention_head_count == 0
        &&& self.attention_layer_norm_epsilon_bits == 0
        &&& self.projector_scale_factor == 0
        &&& self.image_mean_count == 0
        &&& forall|i: int| 0 <= i < 16 ==> #[trigger] self.image_mean_bits@[i] == 0
        &&& self.image_std_count == 0
        &&& forall|i: int| 0 <= i < 16 ==> #[trigger] self.image_std_bits@[i] == 0
        &&& self.wa_layer_index_count == 0
        &&& forall|i: int| 0 <= i < 512 ==> #[trigger] self.wa_layer_indexes.0@[i] == 0
        &&& self.deepstack_layer_count == 0
        &&& forall|i: int| 0 <= i < 512 ==> #[trigger] self.deepstack_layers.0@[i] == 0
    }
}

impl Default for ClipVisionMetadata {
    fn default() -> (value: Self)
        ensures
            value.is_default(),
    {
        ClipVisionMetadata {
            encoder_name: MetadataStringView::empty(),
            projector_type: MetadataStringView::empty(),
            image_size: 0,
            image_min_pixels: 0,
            image_max_pixels: 0,
            preproc_image_size: 0,
            patch_size: 0,
            embedding_length: 0,
            feed_forward_length: 0,
            projection_dim: 0,
            block_count: 0,
            spatial_merge_size: 0,
            n_wa_pattern: 0,
            window_size: 0,
            attention_head_count: 0,
            attention_layer_norm_epsilon_bits: 0,
            projector_scale_factor: 0,
            image_mean_count: 0,
            image_mean_bits: [0u32; 16],
            image_std_count: 0,
            image_std_bits: [0u32; 16],
            wa_layer_index_count: 0,
            wa_layer_indexes: Fixed([0u32; 512]),
            deepstack_layer_count: 0,
            deepstack_layers: Fixed([0u8; 512]),
        }
    }
}

/// CLIP audio-encoder metadata; each 32-bit float is held as its bit pattern.
#[derive(Clone, Debug, PartialEq, Eq)]
pub struct ClipAudioMetadata {
    pub encoder_name: MetadataStringView,
    pub projector_type: MetadataStringView,
    pub sample_rate: i32,
    pub n_fft: i32,
    pub win_length: i32,
    pub hop_size: i32,
    pub num_mel_bins: i32,
    pub embedding_length: i32,
    pub feed_forward_length: i32,
    pub projection_dim: i32,
    pub block_count: i32,
    pub attention_head_count: i32,
    pub attention_layer_norm_epsilon_bits: u32,
    pub low_frequency_bits: u32,
    pub high_frequency_bits: u32,
    pub preemphasis_coefficient_bits: u32,
    pub log_offset_bits: u32,
    pub normalize_bias_bits: u32,
    pub normalize_scale_bits: u32,
    pub projector_stack_factor: i32,
}

impl ClipAudioMetadata {
    /// The defaults.
    pub open spec fn is_default(&self) -> bool {
        &&& self.encoder_name.offset == 0 && self.encoder_name.length == 0
        &&& self.projector_type.offset == 0 && self.projector_type.length == 0
        &&& self.sample_rate == 0
        &&& self.n_fft == 0
        &&& self.win_length == 0
        &&& self.hop_size == 0
        &&& self.num_mel_bins == 0
        &&& self.embedding_length == 0
        &&& self.feed_forward_length == 0
        &&& self.projection_dim == 0
        &&& self.block_count == 0
        &&& self.attention_head_count == 0
        &&& self.attention_layer_norm_epsilon_bits == 0
        &&& self.low_frequency_bits == 0
        &&& self.high_frequency_bits == 0
        &&& self.preemphasis_coefficient_bits == 0
        &&& self.log_offset_bits == 0
        &&& self.normalize_bias_bits == 0
        &&& self.normalize_scale_bits == 0
        &&& self.projector_stack_factor == 0
    }
}

impl Default for ClipAudioMetadata {
    fn default() -> (value: Self)
        ensures
            value.is_default(),
    {
        ClipAudioMetadata {
            encoder_name: MetadataStringView::empty(),
            projector_type: MetadataStringView::empty(),
            sample_rate: 0,
            n_fft: 0,
            win_length: 0,
            hop_size: 0,
            num_mel_bins: 0,
            embedding_length: 0,
            feed_forward_length: 0,
            projection_dim: 0,
            block_count: 0,
            attention_head_count: 0,
            attention_layer_norm_epsilon_bits: 0,
            low_frequency_bits: 0,
            high_frequency_bits: 0,
            preemphasis_coefficient_bits: 0,
            log_offset_bits: 0,
            normalize_bias_bits: 0,
            normalize_scale_bits: 0,
            projector_stack_factor: 0,
        }
    }
}

/// xIELU activation constants, each held as its 32-bit float bit pattern.
#[derive(Clone, Debug, PartialEq, Eq)]
pub struct XieluMetadata {
    pub alpha_p_count: u32,
    pub alpha_p_bits: Fixed<u32, 256>,
    pub alpha_n_count: u32,
    pub alpha_n_bits: Fixed<u32, 256>,
    pub beta_count: u32,
    pub beta_bits: Fixed<u32, 256>,
    pub eps_count: u32,
    pub eps_bits: Fixed<u32, 256>,
}

impl XieluMetadata {
    /// The defaults.
    pub open spec fn is_default(&self) -> bool {
        &&& self.alpha_p_count == 0
        &&& forall|i: int| 0 <= i < 256 ==> #[trigger] self.alpha_p_bits.0@[i] == 0
        &&& self.alpha_n_count == 0
        &&& forall|i: int| 0 <= i < 256 ==> #[trigger] self.alpha_n_bits.0@[i] == 0
        &&& self.beta_count == 0
        &&& forall|i: int| 0 <= i < 256 ==> #[trigger] self.beta_bits.0@[i] == 0
        &&& self.eps_count == 0
        &&& forall|i: int| 0 <= i < 256 ==> #[trigger] self.eps_bits.0@[i] == 0
    }
}

impl Default for XieluMetadata {
    fn default() -> (value: Self)
        ensures
            value.is_default(),
    {
        XieluMetadata {
            alpha_p_count: 0,
            alpha_p_bits: Fixed([0u32; 256]),
            alpha_n_count: 0,
            alpha_n_bits: Fixed([0u32; 256]),
            beta_count: 0,
            beta_bits: Fixed([0u32; 256]),
            eps_count: 0,
            eps_bits: Fixed([0u32; 256]),
        }
    }
}

/// Offset and length of one string inside the metadata blob.
#[derive(Clone, Copy, Debug, Default, PartialEq, Eq, Structural)]
pub struct MetadataStringView {
    pub offset: u32,
    pub length: u32,
}

/// The empty view at offset zero.
pub open spec fn empty_view() -> MetadataStringView {
    MetadataStringView { offset: 0, length: 0 }
}

/// A run of `count` empty views.
pub open spec fn empty_views(count: nat) -> Seq<MetadataStringView> {
    Seq::new(count, |i: int| empty_view())
}

impl MetadataStringView {
    /// The empty view at offset zero.
    pub fn empty() -> (view: Self)
        ensures
            view == empty_view(),
    {
        MetadataStringView { offset: 0, length: 0 }
    }
}

#[derive(Clone, Copy, Debug, Default, PartialEq, Eq)]
pub struct NamedEntity {
    pub name: MetadataStringView,
    pub author: MetadataStringView,
    pub version: MetadataStringView,
    pub organization: MetadataStringView,
    pub description: MetadataStringView,
    pub url: MetadataStringView,
    pub doi: MetadataStringView,
    pub uuid: MetadataStringView,
    pub repo_url: MetadataStringView,
}

impl NamedEntity {
    /// Every field is the empty view at offset zero.
    pub open spec fn is_empty(&self) -> bool {
        let e = empty_view();
        &&& self.name == e
        &&& self.author == e
        &&& self.version == e
        &&& self.organization == e
        &&& self.description == e
        &&& self.url == e
        &&& self.doi == e
        &&& self.uuid == e
        &&& self.repo_url == e
    }

    /// An entity whose every field is the empty view.
    pub fn empty() -> (entity: Self)
        ensures
            entity.is_empty(),
    {
        let e = MetadataStringView::empty();
        NamedEntity {
            name: e,
            author: e,
            version: e,
            organization: e,
            description: e,
            url: e,
            doi: e,
            uuid: e,
            repo_url: e,
        }
    }
}

#[derive(Clone, Debug, PartialEq, Eq)]
pub struct GeneralMetadata {
    pub general_type: MetadataStringView,
    pub quantization_version: i32,
    pub alignment: i32,
    pub file_type: i32,
    pub name: MetadataStringView,
    pub author: MetadataStringView,
    pub version: MetadataStringView,
    pub organization: MetadataStringView,
    pub finetune: MetadataStringView,
    pub basename: MetadataStringView,
    pub description: MetadataStringView,
    pub quantized_by: MetadataStringView,
    pub size_label: MetadataStringView,
    pub license: MetadataStringView,
    pub license_name: MetadataStringView,
    pub license_link: MetadataStringView,
    pub url: MetadataStringView,
    pub doi: MetadataStringView,
    pub uuid: MetadataStringView,
    pub repo_url: MetadataStringView,
    pub source_url: MetadataStringView,
    pub source_doi: MetadataStringView,
    pub source_uuid: MetadataStringView,
    pub source_repo_url: MetadataStringView,
    pub source_hf_repo: MetadataStringView,
    pub base_model_count: u32,
    pub base_models: [NamedEntity; 64],
    pub dataset_count: u32,
    pub datasets: [NamedEntity; 64],
    pub tag_count: u32,
    pub tags: [MetadataStringView; 256],
    pub language_count: u32,
    pub languages: [MetadataStringView; 256],
}

impl GeneralMetadata {
    /// Every view empty, every base model and dataset empty, every tag and
    /// language empty, no counts, and the unset quantization version and file type.
    pub open spec fn is_default(&self) -> bool {
        let e = empty_view();
        &&& self.quantization_version == -1
        &&& self.alignment == 0
        &&& self.file_type == -1
        &&& self.general_type == e
        &&& self.name == e
        &&& self.author == e
        &&& self.version == e
        &&& self.organization == e
        &&& self.finetune == e
        &&& self.basename == e
        &&& self.description == e
        &&& self.quantized_by == e
        &&& self.size_label == e
        &&& self.license == e
        &&& self.license_name == e
        &&& self.license_link == e
        &&& self.url == e
        &&& self.doi == e
        &&& self.uuid == e
        &&& self.repo_url == e
        &&& self.source_url == e
        &&& self.source_doi == e
        &&& self.source_uuid == e
        &&& self.source_repo_url == e
        &&& self.source_hf_repo == e
        &&& self.base_model_count == 0
        &&& self.dataset_count == 0
        &&& self.tag_count == 0
        &&& self.language_count == 0
        &&& forall|i: int| 0 <= i < 64 ==> (#[trigger] self.base_models@[i]).is_empty()
        &&& forall|i: int| 0 <= i < 64 ==> (#[trigger] self.datasets@[i]).is_empty()
        &&& self.tags@ == empty_views(256)
        &&& self.languages@ == empty_views(256)
    }
}

impl Default for GeneralMetadata {
    fn default() -> (meta: Self)
        ensures
            meta.is_default(),
    {
        let e = MetadataStringView::empty();
        let entity = NamedEntity::empty();
        let meta = GeneralMetadata {
            general_type: e,
            quantization_version: -1,
            alignment: 0,
            file_type: -1,
            name: e,
            author: e,
            version: e,
            organization: e,
            finetune: e,
            basename: e,
            description: e,
            quantized_by: e,
            size_label: e,
            license: e,
            license_name: e,
            license_link: e,
            url: e,
            doi: e,
            uuid: e,
            repo_url: e,
            source_url: e,
            source_doi: e,
            source_uuid: e,
            source_repo_url: e,
            source_hf_repo: e,
            base_model_count: 0,
            base_models: [entity; 64],
            dataset_count: 0,
            datasets: [entity; 64],
            tag_count: 0,
            tags: [e; 256],
            language_count: 0,
            languages: [e; 256],
        };
        assert(meta.tags@ =~= empty_views(256));
        assert(meta.languages@ =~= empty_views(256));
        meta
    }
}

#[derive(Clone, Debug, PartialEq, Eq)]
pub struct TokenizerMetadata {
    pub hf_json: MetadataStringView,
    pub rwkv_world: MetadataStringView,
    pub chat_template: MetadataStringView,
    pub chat_template_count: u32,
    pub chat_template_names: [MetadataStringView; 256],
    pub chat_template_values: [MetadataStringView; 256],
}

impl TokenizerMetadata {
    /// Every view empty and no chat templates.
    pub open spec fn is_default(&self) -> bool {
        &&& self.hf_json == empty_view()
        &&& self.rwkv_world == empty_view()
        &&& self.chat_template == empty_view()
        &&& self.chat_template_count == 0
        &&& self.chat_template_names@ == empty_views(256)
        &&& self.chat_template_values@ == empty_views(256)
    }
}

impl Default for TokenizerMetadata {
    fn default() -> (meta: Self)
        ensures
            meta.is_default(),
    {
        let e = MetadataStringView::empty();
        let meta = TokenizerMetadata {
            hf_json: e,
            rwkv_world: e,
            chat_template: e,
            chat_template_count: 0,
            chat_template_names: [e; 256],
            chat_template_values: [e; 256],
        };
        assert(meta.chat_template_names@ =~= empty_views(256));
        assert(meta.chat_template_values@ =~= empty_views(256));
        meta
    }
}

#[derive(Clone, Debug, PartialEq, Eq)]
pub struct ClassifierMetadata {
    pub label_count: u32,
    pub labels: [MetadataStringView; 256],
}

impl ClassifierMetadata {
    /// No labels, every label view empty.
    pub open spec fn is_default(&self) -> bool {
        &&& self.label_count == 0
        &&& self.labels@ == empty_views(256)
    }
}

impl Default for ClassifierMetadata {
    fn default() -> (meta: Self)
        ensures
            meta.is_default(),
    {
        let meta = ClassifierMetadata { label_count: 0, labels: [MetadataStringView::empty(); 256] };
        assert(meta.labels@ =~= empty_views(256));
        meta
    }
}

#[derive(Clone, Debug, PartialEq, Eq)]
pub struct ImatrixMetadata {
    pub chunk_count: i32,
    pub chunk_size: i32,
    pub dataset_count: u32,
    pub datasets: [MetadataStringView; 256],
}

impl ImatrixMetadata {
    /// No chunks and no datasets, every dataset view empty.
    pub open spec fn is_default(&self) -> bool {
        &&& self.chunk_count == 0
        &&& self.chunk_size == 0
        &&& self.dataset_count == 0
        &&& self.datasets@ == empty_views(256)
    }
}

impl Default for ImatrixMetadata {
    fn default() -> (meta: Self)
        ensures
            meta.is_default(),
    {
        let meta = ImatrixMetadata {
            chunk_count: 0,
            chunk_size: 0,
            dataset_count: 0,
            datasets: [MetadataStringView::empty(); 256],
        };
        assert(meta.datasets@ =~= empty_views(256));
        meta
    }
}

#[derive(Clone, Debug, Default, PartialEq, Eq)]
pub struct ClipMetadata {
    pub has_vision_encoder: bool,
    pub has_audio_encoder: bool,
    pub has_llava_projector: bool,
    pub use_gelu: bool,
    pub use_silu: bool,
    pub projector_type: MetadataStringView,
}

#[derive(Clone, Debug, Default, PartialEq, Eq)]
pub struct RopeMetadata {
    pub scaling_type: MetadataStringView,
}

#[derive(Clone, Debug, Default, PartialEq, Eq)]
pub struct LlmStringsMetadata {
    pub tensor_data_layout: MetadataStringView,
}

#[derive(Clone, Debug, Default, PartialEq, Eq)]
pub struct DiffusionMetadata {
    pub shift_logits: bool,
}

/// Marker for bound weight storage.
#[derive(Clone, Copy, Debug, Default, PartialEq, Eq)]
pub struct WeightsBinding;


/// Integer-valued model metadata and the metadata string blob.
#[derive(Clone, Debug, PartialEq, Eq)]
pub struct Metadata {
    pub general_data: GeneralMetadata,
    pub sampling_data: SamplingMetadata,
    pub tokenizer_data: TokenizerMetadata,
    pub classifier_data: ClassifierMetadata,
    pub adapter_data: AdapterMetadata,
    pub imatrix_data: ImatrixMetadata,
    pub clip_data: ClipMetadata,
    pub clip_vision_data: ClipVisionMetadata,
    pub clip_audio_data: ClipAudioMetadata,
    pub rope_data: RopeMetadata,
    pub llm_strings_data: LlmStringsMetadata,
    pub xielu_data: XieluMetadata,
    pub diffusion_data: DiffusionMetadata,
    pub blob_bytes_used: u32,
    pub blob: Vec<u8>,
}

/// Model data regions read by the checked views.
#[derive(Clone, Debug, PartialEq, Eq)]
pub struct Data {
    pub n_layers: i32,
    pub n_tensors: u32,
    pub name_bytes_used: u32,
    pub architecture_name: [u8; 64],
    pub name_storage: Vec<u8>,
    pub tensors: Vec<TensorRecord>,
    pub weights_data: Option<WeightsBinding>,
    pub weights_size: u64,
    pub weights_split_count: u16,
    pub weights_split_sizes: [u64; 128],
    pub weights_split_offsets: [u64; 128],
    pub params: HParams,
    pub vocab_data: Vocab,
    pub meta: Metadata,
    pub moshi_component_id: MoshiComponent,
    pub moshi_lm: MoshiLmHParams,
    pub mimi: MimiHParams,
}

/// Reserves room for exactly `additional` more elements, as `Vec::try_reserve_exact`.
///
/// The contents are unchanged either way. A request whose total size would pass
/// the vector's documented capacity bound of `isize::MAX` bytes overflows the
/// capacity and is refused; whether the allocator grants any other request is
/// not stated.
#[verifier::external_body]
pub(crate) fn reserve_exact<T>(values: &mut Vec<T>, additional: usize) -> (outcome: Result<(), TryReserveError>)
    ensures
        final(values)@ == old(values)@,
        (old(values)@.len() + additional) * vstd::layout::size_of::<T>() > isize::MAX ==> outcome is Err,
{
    values.try_reserve_exact(additional)
}

/// Fallibly allocates an exact-length region of default values.
pub fn try_boxed_slice<T: Clone + Default>(length: usize) -> (region: Result<Vec<T>, TryReserveError>)
    ensures
        length * vstd::layout::size_of::<T>() > isize::MAX ==> region is Err,
        region matches Ok(values) ==> values@.len() == length,
        region matches Ok(values) ==> exists|d: T|
            #[trigger] call_ensures(T::default, (), d) && forall|i: int|
                0 <= i < length ==> cloned::<T>(d, #[trigger] values@[i]),
{
    let mut values: Vec<T> = Vec::new();
    match reserve_exact(&mut values, length) {
        Ok(()) => {},
        Err(error) => {
            return Err(error);
        },
    }
    let d = T::default();
    assert(call_ensures(T::default, (), d));
    values.resize(length, d);
    Ok(values)
}

/// Fallibly allocates an exact-length region of zero bytes.
pub fn try_zeroed_bytes(length: usize) -> (region: Result<Vec<u8>, TryReserveError>)
    ensures
        length * vstd::layout::size_of::<u8>() > isize::MAX ==> region is Err,
        region matches Ok(bytes) ==> bytes@ == Seq::new(length as nat, |i: int| 0u8),
{
    let mut bytes: Vec<u8> = Vec::new();
    match reserve_exact(&mut bytes, length) {
        Ok(()) => {},
        Err(error) => {
            return Err(error);
        },
    }
    bytes.resize(length, 0u8);
    assert(bytes@ =~= Seq::new(length as nat, |i: int| 0u8));
    Ok(bytes)
}

/// Sets every byte of `bytes` to zero.
pub fn zero_bytes(bytes: &mut Vec<u8>)
    ensures
        final(bytes)@ == Seq::new(old(bytes)@.len(), |i: int| 0u8),
{
    let n = bytes.len();
    let mut i: usize = 0;
    while i < n
        invariant
            n == bytes@.len(),
            i <= n,
            forall|j: int| 0 <= j < i ==> bytes@[j] == 0u8,
        decreases n - i,
    {
        bytes[i] = 0u8;
        i = i + 1;
    }
    assert(bytes@ =~= Seq::new(n as nat, |i: int| 0u8));
}

/// One vocabulary entry; the score is held as its 32-bit float bit pattern.
#[derive(Clone, Copy, Debug, Default, PartialEq, Eq, Structural)]
pub struct VocabEntry {
    pub text_offset: u32,
    pub text_length: u32,
    pub score_bits: u32,
    pub token_type: i32,
}

impl VocabEntry {
    /// The all-zero entry.
    pub open spec fn spec_zero() -> Self {
        VocabEntry { text_offset: 0, text_length: 0, score_bits: 0, token_type: 0 }
    }

    /// The all-zero entry.
    pub fn zero() -> (entry: Self)
        ensures
            entry == Self::spec_zero(),
    {
        VocabEntry { text_offset: 0, text_length: 0, score_bits: 0, token_type: 0 }
    }
}

/// Fallibly allocates exactly `length` copies of `value`.
pub fn try_filled<T: Copy>(length: usize, value: T) -> (region: Result<Vec<T>, TryReserveError>)
    ensures
        length * vstd::layout::size_of::<T>() > isize::MAX ==> region is Err,
        region matches Ok(values) ==> values@ == Seq::new(length as nat, |i: int| value),
{
    let mut values: Vec<T> = Vec::new();
    match reserve_exact(&mut values, length) {
        Ok(()) => {},
        Err(error) => {
            return Err(error);
        },
    }
    let mut i: usize = 0;
    while i < length
        invariant
            i <= length,
            values@ == Seq::new(i as nat, |k: int| value),
        decreases length - i,
    {
        values.push(value);
        i = i + 1;
        assert(values@ =~= Seq::new(i as nat, |k: int| value));
    }
    Ok(values)
}

/// Sets every element of `values` to `value`.
pub fn fill<T: Copy>(values: &mut Vec<T>, value: T)
    ensures
        final(values)@ == Seq::new(old(values)@.len(), |i: int| value),
{
    let n = values.len();
    let mut i: usize = 0;
    while i < n
        invariant
            n == values@.len(),
            i <= n,
            forall|j: int| 0 <= j < i ==> values@[j] == value,
        decreases n - i,
    {
        values.set(i, value);
        i = i + 1;
    }
    assert(values@ =~= Seq::new(n as nat, |i: int| value));
}

/// Tokenizer vocabulary: fixed-capacity token, merge and character-map regions
/// with their counters, the special-token ids and the tokenizer switches.
#[derive(Clone, Debug, PartialEq, Eq)]
pub struct Vocab {
    pub n_tokens: u32,
    pub n_token_types: u32,
    pub token_bytes_used: u32,
    pub n_merges: u32,
    pub merge_bytes_used: u32,
    pub precompiled_charsmap_size: u32,
    pub tokenizer_model_name: [u8; 64],
    pub tokenizer_pre_name: [u8; 64],
    pub token_storage: Vec<u8>,
    pub merge_storage: Vec<u8>,
    pub entries: Vec<VocabEntry>,
    pub merge_offsets: Vec<u32>,
    pub merge_lengths: Vec<u32>,
    pub precompiled_charsmap: Vec<u8>,
    pub lstrip_flags: Vec<u8>,
    pub rstrip_flags: Vec<u8>,
    pub tokenizer_model_id: TokenizerModel,
    pub tokenizer_pre_id: TokenizerPre,
    pub bos_id: i32,
    pub eos_id: i32,
    pub eot_id: i32,
    pub eom_id: i32,
    pub unk_id: i32,
    pub sep_id: i32,
    pub pad_id: i32,
    pub cls_id: i32,
    pub mask_id: i32,
    pub prefix_id: i32,
    pub suffix_id: i32,
    pub middle_id: i32,
    pub fim_pre_id: i32,
    pub fim_suf_id: i32,
    pub fim_mid_id: i32,
    pub fim_pad_id: i32,
    pub fim_rep_id: i32,
    pub fim_sep_id: i32,
    pub add_bos: bool,
    pub add_eos: bool,
    pub add_sep: bool,
    pub add_space_prefix: bool,
    pub remove_extra_whitespaces: bool,
    pub escape_whitespaces: bool,
    pub treat_whitespace_as_suffix: bool,
    pub ignore_merges: bool,
}

impl Vocab {
    /// Every field agrees; the regions agree element by element.
    pub open spec fn same_contents(&self, other: &Self) -> bool {
        &&& self.n_tokens == other.n_tokens
        &&& self.n_token_types == other.n_token_types
        &&& self.token_bytes_used == other.token_bytes_used
        &&& self.n_merges == other.n_merges
        &&& self.merge_bytes_used == other.merge_bytes_used
        &&& self.precompiled_charsmap_size == other.precompiled_charsmap_size
        &&& self.tokenizer_model_name == other.tokenizer_model_name
        &&& self.tokenizer_pre_name == other.tokenizer_pre_name
        &&& self.tokenizer_model_id == other.tokenizer_model_id
        &&& self.tokenizer_pre_id == other.tokenizer_pre_id
        &&& self.bos_id == other.bos_id
        &&& self.eos_id == other.eos_id
        &&& self.eot_id == other.eot_id
        &&& self.eom_id == other.eom_id
        &&& self.unk_id == other.unk_id
        &&& self.sep_id == other.sep_id
        &&& self.pad_id == other.pad_id
        &&& self.cls_id == other.cls_id
        &&& self.mask_id == other.mask_id
        &&& self.prefix_id == other.prefix_id
        &&& self.suffix_id == other.suffix_id
        &&& self.middle_id == other.middle_id
        &&& self.fim_pre_id == other.fim_pre_id
        &&& self.fim_suf_id == other.fim_suf_id
        &&& self.fim_mid_id == other.fim_mid_id
        &&& self.fim_pad_id == other.fim_pad_id
        &&& self.fim_rep_id == other.fim_rep_id
        &&& self.fim_sep_id == other.fim_sep_id
        &&& self.add_bos == other.add_bos
        &&& self.add_eos == other.add_eos
        &&& self.add_sep == other.add_sep
        &&& self.add_space_prefix == other.add_space_prefix
        &&& self.remove_extra_whitespaces == other.remove_extra_whitespaces
        &&& self.escape_whitespaces == other.escape_whitespaces
        &&& self.treat_whitespace_as_suffix == other.treat_whitespace_as_suffix
        &&& self.ignore_merges == other.ignore_merges
        &&& self.token_storage@ == other.token_storage@
        &&& self.merge_storage@ == other.merge_storage@
        &&& self.entries@ == other.entries@
        &&& self.merge_offsets@ == other.merge_offsets@
        &&& self.merge_lengths@ == other.merge_lengths@
        &&& self.precompiled_charsmap@ == other.precompiled_charsmap@
        &&& self.lstrip_flags@ == other.lstrip_flags@
        &&& self.rstrip_flags@ == other.rstrip_flags@
    }

    /// The state produced by construction and by [`Vocab::reset`]: every counter,
    /// name and region zero, every special id `-1`, every switch off but
    /// whitespace escaping, an unknown tokenizer and the default pre-tokenizer.
    pub open spec fn is_reset(&self) -> bool {
        &&& self.n_tokens == 0 && self.n_token_types == 0 && self.token_bytes_used == 0
        &&& self.n_merges == 0 && self.merge_bytes_used == 0 && self.precompiled_charsmap_size == 0
        &&& self.tokenizer_model_name@ == Seq::new(64, |i: int| 0u8)
        &&& self.tokenizer_pre_name@ == Seq::new(64, |i: int| 0u8)
        &&& self.token_storage@ == Seq::new(self.token_storage@.len(), |i: int| 0u8)
        &&& self.merge_storage@ == Seq::new(self.merge_storage@.len(), |i: int| 0u8)
        &&& self.entries@ == Seq::new(self.entries@.len(), |i: int| VocabEntry::spec_zero())
        &&& self.merge_offsets@ == Seq::new(self.merge_offsets@.len(), |i: int| 0u32)
        &&& self.merge_lengths@ == Seq::new(self.merge_lengths@.len(), |i: int| 0u32)
        &&& self.precompiled_charsmap@ == Seq::new(self.precompiled_charsmap@.len(), |i: int| 0u8)
        &&& self.lstrip_flags@ == Seq::new(self.lstrip_flags@.len(), |i: int| 0u8)
        &&& self.rstrip_flags@ == Seq::new(self.rstrip_flags@.len(), |i: int| 0u8)
        &&& self.tokenizer_model_id == TokenizerModel::Unknown
        &&& self.tokenizer_pre_id == TokenizerPre::Default
        &&& self.bos_id == -1 && self.eos_id == -1 && self.eot_id == -1 && self.eom_id == -1
        &&& self.unk_id == -1 && self.sep_id == -1 && self.pad_id == -1 && self.cls_id == -1
        &&& self.mask_id == -1 && self.prefix_id == -1 && self.suffix_id == -1 && self.middle_id == -1
        &&& self.fim_pre_id == -1 && self.fim_suf_id == -1 && self.fim_mid_id == -1
        &&& self.fim_pad_id == -1 && self.fim_rep_id == -1 && self.fim_sep_id == -1
        &&& !self.add_bos && !self.add_eos && !self.add_sep && !self.add_space_prefix
        &&& !self.remove_extra_whitespaces && self.escape_whitespaces
        &&& !self.treat_whitespace_as_suffix && !self.ignore_merges
    }

    /// Every region has its fixed capacity.
    pub open spec fn has_capacities(&self) -> bool {
        &&& self.token_storage@.len() == MAX_VOCAB_BYTES
        &&& self.merge_storage@.len() == MAX_MERGE_BYTES
        &&& self.entries@.len() == MAX_VOCAB_TOKENS
        &&& self.merge_offsets@.len() == MAX_MERGES
        &&& self.merge_lengths@.len() == MAX_MERGES
        &&& self.precompiled_charsmap@.len() == MAX_PRECOMPILED_CHARMAP_BYTES
        &&& self.lstrip_flags@.len() == ATTR_FLAG_BYTES
        &&& self.rstrip_flags@.len() == ATTR_FLAG_BYTES
    }

    /// Allocates every region at its fixed capacity and installs the defaults.
    pub fn try_new() -> (vocab: Result<Self, TryReserveError>)
        ensures
            vocab matches Ok(v) ==> v.is_reset() && v.has_capacities(),
    {
        let token_storage = try_zeroed_bytes(MAX_VOCAB_BYTES)?;
        let merge_storage = try_zeroed_bytes(MAX_MERGE_BYTES)?;
        let entries = try_filled(MAX_VOCAB_TOKENS, VocabEntry::zero())?;
        let merge_offsets = try_filled(MAX_MERGES, 0u32)?;
        let merge_lengths = try_filled(MAX_MERGES, 0u32)?;
        let precompiled_charsmap = try_zeroed_bytes(MAX_PRECOMPILED_CHARMAP_BYTES)?;
        let lstrip_flags = try_zeroed_bytes(ATTR_FLAG_BYTES)?;
        let rstrip_flags = try_zeroed_bytes(ATTR_FLAG_BYTES)?;
        let vocab = Vocab {
            n_tokens: 0,
            n_token_types: 0,
            token_bytes_used: 0,
            n_merges: 0,
            merge_bytes_used: 0,
            precompiled_charsmap_size: 0,
            tokenizer_model_name: [0u8; 64],
            tokenizer_pre_name: [0u8; 64],
            token_storage,
            merge_storage,
            entries,
            merge_offsets,
            merge_lengths,
            precompiled_charsmap,
            lstrip_flags,
            rstrip_flags,
            tokenizer_model_id: TokenizerModel::Unknown,
            tokenizer_pre_id: TokenizerPre::Default,
            bos_id: -1,
            eos_id: -1,
            eot_id: -1,
            eom_id: -1,
            unk_id: -1,
            sep_id: -1,
            pad_id: -1,
            cls_id: -1,
            mask_id: -1,
            prefix_id: -1,
            suffix_id: -1,
            middle_id: -1,
            fim_pre_id: -1,
            fim_suf_id: -1,
            fim_mid_id: -1,
            fim_pad_id: -1,
            fim_rep_id: -1,
            fim_sep_id: -1,
            add_bos: false,
            add_eos: false,
            add_sep: false,
            add_space_prefix: false,
            remove_extra_whitespaces: false,
            escape_whitespaces: true,
            treat_whitespace_as_suffix: false,
            ignore_merges: false,
        };
        assert(vocab.tokenizer_model_name@ =~= Seq::new(64, |i: int| 0u8));
        assert(vocab.tokenizer_pre_name@ =~= Seq::new(64, |i: int| 0u8));
        Ok(vocab)
    }

    /// Restores the defaults and zeroes every region without changing any capacity.
    pub fn reset(&mut self)
        ensures
            final(self).is_reset(),
            final(self).token_storage@.len() == old(self).token_storage@.len(),
            final(self).merge_storage@.len() == old(self).merge_storage@.len(),
            final(self).entries@.len() == old(self).entries@.len(),
            final(self).merge_offsets@.len() == old(self).merge_offsets@.len(),
            final(self).merge_lengths@.len() == old(self).merge_lengths@.len(),
            final(self).precompiled_charsmap@.len() == old(self).precompiled_charsmap@.len(),
            final(self).lstrip_flags@.len() == old(self).lstrip_flags@.len(),
            final(self).rstrip_flags@.len() == old(self).rstrip_flags@.len(),
    {
        self.n_tokens = 0;
        self.n_token_types = 0;
        self.token_bytes_used = 0;
        self.n_merges = 0;
        self.merge_bytes_used = 0;
        self.precompiled_charsmap_size = 0;
        self.tokenizer_model_name = [0u8; 64];
        self.tokenizer_pre_name = [0u8; 64];
        zero_bytes(&mut self.token_storage);
        zero_bytes(&mut self.merge_storage);
        fill(&mut self.entries, VocabEntry::zero());
        fill(&mut self.merge_offsets, 0u32);
        fill(&mut self.merge_lengths, 0u32);
        zero_bytes(&mut self.precompiled_charsmap);
        zero_bytes(&mut self.lstrip_flags);
        zero_bytes(&mut self.rstrip_flags);
        self.tokenizer_model_id = TokenizerModel::Unknown;
        self.tokenizer_pre_id = TokenizerPre::Default;
        self.bos_id = -1;
        self.eos_id = -1;
        self.eot_id = -1;
        self.eom_id = -1;
        self.unk_id = -1;
        self.sep_id = -1;
        self.pad_id = -1;
        self.cls_id = -1;
        self.mask_id = -1;
        self.prefix_id = -1;
        self.suffix_id = -1;
        self.middle_id = -1;
        self.fim_pre_id = -1;
        self.fim_suf_id = -1;
        self.fim_mid_id = -1;
        self.fim_pad_id = -1;
        self.fim_rep_id = -1;
        self.fim_sep_id = -1;
        self.add_bos = false;
        self.add_eos = false;
        self.add_sep = false;
        self.add_space_prefix = false;
        self.remove_extra_whitespaces = false;
        self.escape_whitespaces = true;
        self.treat_whitespace_as_suffix = false;
        self.ignore_merges = false;
        assert(self.tokenizer_model_name@ =~= Seq::new(64, |i: int| 0u8));
        assert(self.tokenizer_pre_name@ =~= Seq::new(64, |i: int| 0u8));
    }
}

impl Metadata {
    /// Allocates the metadata blob and installs the defaults.
    pub fn try_new() -> (meta: Result<Self, TryReserveError>)
        ensures
            meta matches Ok(m) ==> m.is_reset() && m.blob@.len() == MAX_METADATA_BLOB_BYTES,
    {
        let blob = try_zeroed_bytes(MAX_METADATA_BLOB_BYTES)?;
        Ok(Metadata {
            general_data: GeneralMetadata::default(),
            sampling_data: SamplingMetadata::default(),
            tokenizer_data: TokenizerMetadata::default(),
            classifier_data: ClassifierMetadata::default(),
            adapter_data: AdapterMetadata::default(),
            imatrix_data: ImatrixMetadata::default(),
            clip_data: ClipMetadata {
                has_vision_encoder: false,
                has_audio_encoder: false,
                has_llava_projector: false,
                use_gelu: false,
                use_silu: false,
                projector_type: MetadataStringView::empty(),
            },
            clip_vision_data: ClipVisionMetadata::default(),
            clip_audio_data: ClipAudioMetadata::default(),
            rope_data: RopeMetadata { scaling_type: MetadataStringView::empty() },
            llm_strings_data: LlmStringsMetadata { tensor_data_layout: MetadataStringView::empty() },
            xielu_data: XieluMetadata::default(),
            diffusion_data: DiffusionMetadata { shift_logits: false },
            blob_bytes_used: 0,
            blob,
        })
    }

    /// Every field agrees; the regions agree element by element.
    pub open spec fn same_contents(&self, other: &Self) -> bool {
        &&& self.general_data == other.general_data
        &&& self.sampling_data == other.sampling_data
        &&& self.tokenizer_data == other.tokenizer_data
        &&& self.classifier_data == other.classifier_data
        &&& self.adapter_data == other.adapter_data
        &&& self.imatrix_data == other.imatrix_data
        &&& self.clip_data == other.clip_data
        &&& self.clip_vision_data == other.clip_vision_data
        &&& self.clip_audio_data == other.clip_audio_data
        &&& self.rope_data == other.rope_data
        &&& self.llm_strings_data == other.llm_strings_data
        &&& self.xielu_data == other.xielu_data
        &&& self.diffusion_data == other.diffusion_data
        &&& self.blob_bytes_used == other.blob_bytes_used
        &&& self.blob@ == other.blob@
    }

    /// The state produced by construction and by [`Metadata::reset`]: every
    /// group at its default, no clip, rope, layout or diffusion facts, and an
    /// unused, zeroed blob.
    pub open spec fn is_reset(&self) -> bool {
        &&& self.general_data.is_default()
        &&& self.tokenizer_data.is_default()
        &&& self.classifier_data.is_default()
        &&& self.imatrix_data.is_default()
        &&& self.clip_data == (ClipMetadata {
            has_vision_encoder: false,
            has_audio_encoder: false,
            has_llava_projector: false,
            use_gelu: false,
            use_silu: false,
            projector_type: empty_view(),
        })
        &&& self.rope_data == (RopeMetadata { scaling_type: empty_view() })
        &&& self.llm_strings_data == (LlmStringsMetadata { tensor_data_layout: empty_view() })
        &&& self.diffusion_data == (DiffusionMetadata { shift_logits: false })
        &&& self.sampling_data.is_default()
        &&& self.adapter_data.is_default()
        &&& self.clip_vision_data.is_default()
        &&& self.clip_audio_data.is_default()
        &&& self.xielu_data.is_default()
        &&& self.blob_bytes_used == 0
        &&& self.blob@ == Seq::new(self.blob@.len(), |i: int| 0u8)
    }

    /// Restores defaults and zeroes the blob without changing its capacity.
    pub fn reset(&mut self)
        ensures
            final(self).is_reset(),
            final(self).blob@.len() == old(self).blob@.len(),
    {
        self.general_data = GeneralMetadata::default();
        self.sampling_data = SamplingMetadata::default();
        self.tokenizer_data = TokenizerMetadata::default();
        self.classifier_data = ClassifierMetadata::default();
        self.adapter_data = AdapterMetadata::default();
        self.imatrix_data = ImatrixMetadata::default();
        self.clip_data = ClipMetadata {
            has_vision_encoder: false,
            has_audio_encoder: false,
            has_llava_projector: false,
            use_gelu: false,
            use_silu: false,
            projector_type: MetadataStringView::empty(),
        };
        self.clip_vision_data = ClipVisionMetadata::default();
        self.clip_audio_data = ClipAudioMetadata::default();
        self.rope_data = RopeMetadata { scaling_type: MetadataStringView::empty() };
        self.llm_strings_data = LlmStringsMetadata { tensor_data_layout: MetadataStringView::empty() };
        self.xielu_data = XieluMetadata::default();
        self.diffusion_data = DiffusionMetadata { shift_logits: false };
        self.blob_bytes_used = 0;
        zero_bytes(&mut self.blob);
    }
}

impl Data {
    /// Every field agrees; the regions agree element by element.
    pub open spec fn same_contents(&self, other: &Self) -> bool {
        &&& self.n_layers == other.n_layers
        &&& self.n_tensors == other.n_tensors
        &&& self.name_bytes_used == other.name_bytes_used
        &&& self.architecture_name == other.architecture_name
        &&& self.weights_data == other.weights_data
        &&& self.weights_size == other.weights_size
        &&& self.weights_split_count == other.weights_split_count
        &&& self.weights_split_sizes == other.weights_split_sizes
        &&& self.weights_split_offsets == other.weights_split_offsets
        &&& self.params == other.params
        &&& self.moshi_component_id == other.moshi_component_id
        &&& self.moshi_lm == other.moshi_lm
        &&& self.mimi == other.mimi
        &&& self.name_storage@ == other.name_storage@
        &&& self.tensors@ == other.tensors@
        &&& self.vocab_data.same_contents(&other.vocab_data)
        &&& self.meta.same_contents(&other.meta)
    }

    /// The state produced by construction and by [`Data::reset`].
    pub open spec fn is_reset(&self) -> bool {
        &&& self.n_layers == 0
        &&& self.n_tensors == 0
        &&& self.name_bytes_used == 0
        &&& forall|i: int| 0 <= i < 64 ==> #[trigger] self.architecture_name@[i] == 0u8
        &&& self.name_storage@ == Seq::new(self.name_storage@.len(), |i: int| 0u8)
        &&& forall|i: int|
            0 <= i < self.tensors@.len() ==> #[trigger] self.tensors@[i] == TensorRecord::spec_zero()
        &&& self.weights_data is None
        &&& self.weights_size == 0
        &&& self.weights_split_count == 1
        &&& forall|i: int| 0 <= i < 128 ==> #[trigger] self.weights_split_sizes@[i] == 0
        &&& forall|i: int| 0 <= i < 128 ==> #[trigger] self.weights_split_offsets@[i] == 0
        &&& self.params.is_default()
        &&& self.vocab_data.is_reset()
        &&& self.meta.is_reset()
        &&& self.moshi_component_id == MoshiComponent::NoComponent
        &&& self.moshi_lm.is_default()
        &&& self.mimi.is_default()
    }

    /// Allocates every fixed-capacity region and installs the defaults.
    pub fn try_new() -> (data: Result<Self, TryReserveError>)
        ensures
            data matches Ok(d) ==> {
                &&& d.is_reset()
                &&& d.name_storage@.len() == MAX_NAME_BYTES
                &&& d.tensors@.len() == MAX_TENSORS
                &&& d.vocab_data.has_capacities()
                &&& d.meta.blob@.len() == MAX_METADATA_BLOB_BYTES
            },
    {
        let name_storage = try_zeroed_bytes(MAX_NAME_BYTES)?;
        let mut tensors: Vec<TensorRecord> = try_boxed_slice(MAX_TENSORS)?;
        clear_records(&mut tensors);
        let vocab_data = Vocab::try_new()?;
        let meta = Metadata::try_new()?;
        let data = Data {
            n_layers: 0,
            n_tensors: 0,
            name_bytes_used: 0,
            architecture_name: [0u8; 64],
            name_storage,
            tensors,
            weights_data: None,
            weights_size: 0,
            weights_split_count: 1,
            weights_split_sizes: [0u64; 128],
            weights_split_offsets: [0u64; 128],
            params: HParams::default(),
            vocab_data,
            meta,
            moshi_component_id: MoshiComponent::NoComponent,
            moshi_lm: MoshiLmHParams::default(),
            mimi: MimiHParams::default(),
        };
        assert(data.architecture_name@ == Seq::new(64, |i: int| 0u8));
        assert(data.weights_split_sizes@ == Seq::new(128, |i: int| 0u64));
        assert(data.weights_split_offsets@ == Seq::new(128, |i: int| 0u64));
        assert(data.meta.is_reset());
        assert(data.moshi_lm.is_default());
        assert(data.name_storage@ == Seq::new(data.name_storage@.len(), |i: int| 0u8));
        assert(data.is_reset());
        Ok(data)
    }

    /// Restores every default without changing any region's capacity.
    pub fn reset(&mut self)
        ensures
            final(self).is_reset(),
            final(self).name_storage@.len() == old(self).name_storage@.len(),
            final(self).tensors@.len() == old(self).tensors@.len(),
            old(self).vocab_data.has_capacities() ==> final(self).vocab_data.has_capacities(),
            final(self).meta.blob@.len() == old(self).meta.blob@.len(),
    {
        self.n_layers = 0;
        self.n_tensors = 0;
        self.name_bytes_used = 0;
        self.architecture_name = [0u8; 64];
        zero_bytes(&mut self.name_storage);
        clear_records(&mut self.tensors);
        self.weights_data = None;
        self.weights_size = 0;
        self.weights_split_count = 1;
        self.weights_split_sizes = [0u64; 128];
        self.weights_split_offsets = [0u64; 128];
        self.params.reset();
        self.vocab_data.reset();
        self.meta.reset();
        self.moshi_component_id = MoshiComponent::NoComponent;
        self.moshi_lm.reset();
        self.mimi = MimiHParams::default();
    }
}

/// Sets every record to the zero record.
fn clear_records(records: &mut Vec<TensorRecord>)
    ensures
        final(records)@.len() == old(records)@.len(),
        forall|i: int|
            0 <= i < final(records)@.len() ==> #[trigger] final(records)@[i]
                == TensorRecord::spec_zero(),
{
    let n = records.len();
    let mut i: usize = 0;
    while i < n
        invariant
            n == records@.len(),
            i <= n,
            forall|j: int| 0 <= j < i ==> #[trigger] records@[j] == TensorRecord::spec_zero(),
        decreases n - i,
    {
        records[i] = TensorRecord::zero();
        i = i + 1;
    }
}

/// The bytes `[offset, offset + length)` of `storage`, or nothing when the range leaves it.
pub open spec fn spec_checked_view(storage: Seq<u8>, offset: int, length: int) -> Seq<u8> {
    if offset + length <= storage.len() {
        storage.subrange(offset, offset + length)
    } else {
        Seq::empty()
    }
}

/// Returns the checked byte range, or an empty slice when it does not fit.
pub fn checked_view(storage: &[u8], offset: u32, length: u32) -> (view: &[u8])
    ensures
        view@ == spec_checked_view(storage@, offset as int, length as int),
{
    let begin = offset as usize;
    let count = length as usize;
    if begin > storage.len() || count > storage.len() - begin {
        return &[];
    }
    vstd::slice::slice_subrange(storage, begin, begin + count)
}

/// The name bytes of `tensor` inside the model's name region.
pub fn tensor_name_view<'a>(model_data: &'a Data, tensor: &TensorRecord) -> (view: &'a [u8])
    ensures
        view@ == spec_checked_view(
            model_data.name_storage@,
            tensor.name_offset as int,
            tensor.name_length as int,
        ),
{
    checked_view(model_data.name_storage.as_slice(), tensor.name_offset, tensor.name_length)
}

/// The bytes of one metadata string, bounded by the used part of the blob.
pub open spec fn spec_metadata_string_view(metadata: Metadata, value: MetadataStringView) -> Seq<
    u8,
> {
    if value.length == 0 {
        Seq::empty()
    } else {
        let used = if metadata.blob_bytes_used <= metadata.blob@.len() {
            metadata.blob_bytes_used as int
        } else {
            metadata.blob@.len() as int
        };
        spec_checked_view(metadata.blob@.take(used), value.offset as int, value.length as int)
    }
}

/// Returns one metadata string; empty when zero-length or outside the used blob bytes.
pub fn metadata_string_view(metadata: &Metadata, value: MetadataStringView) -> (view: &[u8])
    ensures
        view@ == spec_metadata_string_view(*metadata, value),
{
    if value.length == 0 {
        return &[];
    }
    let used_bytes = metadata.blob_bytes_used as usize;
    let used = if used_bytes <= metadata.blob.len() {
        used_bytes
    } else {
        metadata.blob.len()
    };
    let region = vstd::slice::slice_subrange(metadata.blob.as_slice(), 0, used);
    checked_view(region, value.offset, value.length)
}

/// The architecture name: bytes up to the first NUL, or all of them.
pub open spec fn spec_architecture_name(name: Seq<u8>) -> Seq<u8> {
    if exists|i: int| 0 <= i < name.len() && name[i] == 0u8 {
        name.take(
            choose|i: int|
                0 <= i < name.len() && name[i] == 0u8 && forall|j: int| 0 <= j < i ==> name[j] != 0u8,
        )
    } else {
        name
    }
}

/// Returns the NUL-terminated architecture name.
pub fn architecture_name_view(model_data: &Data) -> (view: &[u8])
    ensures
        view@ == spec_architecture_name(model_data.architecture_name@),
{
    let name = model_data.architecture_name.as_slice();
    let mut i: usize = 0;
    while i < name.len()
        invariant
            name@ == model_data.architecture_name@,
            i <= name@.len(),
            forall|j: int| 0 <= j < i ==> name@[j] != 0u8,
        decreases name@.len() - i,
    {
        if name[i] == 0u8 {
            let ghost k = choose|k: int|
                0 <= k < name@.len() && name@[k] == 0u8 && forall|j: int|
                    0 <= j < k ==> name@[j] != 0u8;
            assert(0 <= k < name@.len() && name@[k] == 0u8 && forall|j: int|
                0 <= j < k ==> name@[j] != 0u8);
            assert(k == i);
            return vstd::slice::slice_subrange(name, 0, i);
        }
        i = i + 1;
    }
    name
}

/// The prefix `blk.` that every block tensor name starts with.
pub open spec fn block_prefix() -> Seq<u8> {
    seq![98u8, 108u8, 107u8, 46u8]
}

pub open spec fn is_decimal_digit(byte: u8) -> bool {
    48 <= byte <= 57
}

/// Decimal value of a digit sequence, most significant digit first.
pub open spec fn decimal_value(digits: Seq<u8>) -> int
    decreases digits.len(),
{
    if digits.len() == 0 {
        0
    } else {
        decimal_value(digits.drop_last()) * 10 + (digits.last() - 48)
    }
}

/// `k` digits, then a `.`, at the start of `s`.
pub open spec fn index_digits_then_dot(s: Seq<u8>, k: int) -> bool {
    &&& 1 <= k < s.len()
    &&& s[k] == 46u8
    &&& forall|j: int| 0 <= j < k ==> is_decimal_digit(#[trigger] s[j])
}

/// The block index named by `blk.<digits>.…`, when it fits an `i32`.
pub open spec fn spec_parse_block_index(name: Seq<u8>) -> Option<i32> {
    if name.len() >= 4 && name.take(4) == block_prefix() && exists|k: int|
        index_digits_then_dot(name.skip(4), k) {
        let s = name.skip(4);
        let k = choose|k: int| index_digits_then_dot(s, k);
        let value = decimal_value(s.take(k));
        if value <= i32::MAX {
            Some(value as i32)
        } else {
            None
        }
    } else {
        None
    }
}

proof fn lemma_decimal_nonnegative(digits: Seq<u8>)
    requires
        forall|j: int| 0 <= j < digits.len() ==> is_decimal_digit(#[trigger] digits[j]),
    ensures
        decimal_value(digits) >= 0,
    decreases digits.len(),
{
    if digits.len() > 0 {
        lemma_decimal_nonnegative(digits.drop_last());
    }
}

proof fn lemma_decimal_prefix_bound(digits: Seq<u8>, m: int)
    requires
        0 <= m <= digits.len(),
        forall|j: int| 0 <= j < digits.len() ==> is_decimal_digit(#[trigger] digits[j]),
    ensures
        decimal_value(digits) >= decimal_value(digits.take(m)),
    decreases digits.len(),
{
    if m < digits.len() {
        let shorter = digits.drop_last();
        lemma_decimal_prefix_bound(shorter, m);
        lemma_decimal_nonnegative(shorter);
        assert(shorter.take(m) =~= digits.take(m));
    } else {
        assert(digits.take(m) =~= digits);
    }
}

/// At most one run of digits ends in the first dot.
pub proof fn lemma_index_digits_unique(s: Seq<u8>, k1: int, k2: int)
    requires
        index_digits_then_dot(s, k1),
        index_digits_then_dot(s, k2),
    ensures
        k1 == k2,
{
    if k1 < k2 {
        assert(is_decimal_digit(s[k1]));
    } else if k2 < k1 {
        assert(is_decimal_digit(s[k2]));
    }
}

/// Parses the block index of a `blk.<digits>.<suffix>` tensor name.
pub fn try_parse_block_index(name: &[u8]) -> (index: Option<i32>)
    ensures
        index == spec_parse_block_index(name@),
{
    if name.len() < 5 || name[0] != 98u8 || name[1] != 108u8 || name[2] != 107u8 || name[3]
        != 46u8 {
        proof {
            if name@.len() >= 4 && name@.take(4) == block_prefix() {
                assert(name@.take(4)[0] == name@[0]);
                assert(name@.take(4)[1] == name@[1]);
                assert(name@.take(4)[2] == name@[2]);
                assert(name@.take(4)[3] == name@[3]);
                if name@.len() == 4 {
                    assert(forall|k: int| !index_digits_then_dot(name@.skip(4), k));
                }
            }
        }
        return None;
    }
    let ghost s = name@.skip(4);
    proof {
        assert(name@.take(4) =~= block_prefix());
    }
    let first = name[4];
    if first < 48u8 || first > 57u8 {
        proof {
            assert(s[0] == first);
            assert forall|k: int| !index_digits_then_dot(s, k) by {
                if index_digits_then_dot(s, k) {
                    assert(is_decimal_digit(s[0]));
                }
            }
        }
        return None;
    }
    let mut value: i32 = (first - 48u8) as i32;
    let mut i: usize = 5;
    proof {
        assert(s.take(1).drop_last() =~= Seq::<u8>::empty());
        assert(s[0] == name@[4]);
        assert(s.take(1).last() == s[0]);
        assert(decimal_value(Seq::<u8>::empty()) == 0);
        assert(decimal_value(s.take(1)) == first - 48);
    }
    while i < name.len()
        invariant
            5 <= i <= name@.len(),
            s == name@.skip(4),
            name@.len() >= 5,
            name@.take(4) == block_prefix(),
            forall|j: int| 0 <= j < i - 4 ==> is_decimal_digit(#[trigger] s[j]),
            value == decimal_value(s.take(i - 4)),
            0 <= value,
        decreases name@.len() - i,
    {
        let byte = name[i];
        assert(s[i - 4] == byte);
        if byte == 46u8 {
            proof {
                assert(index_digits_then_dot(s, i - 4));
                let k = choose|k: int| index_digits_then_dot(s, k);
                lemma_index_digits_unique(s, k, i - 4);
            }
            return Some(value);
        }
        if byte < 48u8 || byte > 57u8 {
            proof {
                assert forall|k: int| !index_digits_then_dot(s, k) by {
                    if index_digits_then_dot(s, k) {
                        if k > i - 4 {
                            assert(is_decimal_digit(s[i - 4]));
                        } else if k < i - 4 {
                            assert(is_decimal_digit(s[k]));
                        }
                    }
                }
            }
            return None;
        }
        let digit: i32 = (byte - 48u8) as i32;
        let ghost next = s.take(i - 4 + 1);
        proof {
            assert(next.drop_last() =~= s.take(i - 4));
            assert(decimal_value(next) == value * 10 + digit);
        }
        let scaled = value.checked_mul(10);
        let extended = match scaled {
            Some(v) => v.checked_add(digit),
            None => None,
        };
        match extended {
            Some(v) => {
                value = v;
            },
            None => {
                proof {
                    assert(decimal_value(next) > i32::MAX);
                    if exists|k: int| index_digits_then_dot(s, k) {
                        let k = choose|k: int| index_digits_then_dot(s, k);
                        if k <= i - 4 {
                            if k < i - 4 {
                                assert(is_decimal_digit(s[k]));
                            }
                        } else {
                            let run = s.take(k);
                            assert forall|j: int| 0 <= j < run.len() implies is_decimal_digit(
                                #[trigger] run[j],
                            ) by {
                                assert(run[j] == s[j]);
                            }
                            lemma_decimal_prefix_bound(run, i - 4 + 1);
                            assert(run.take(i - 4 + 1) =~= next);
                        }
                    }
                }
                return None;
            },
        }
        i = i + 1;
    }
    proof {
        assert forall|k: int| !index_digits_then_dot(s, k) by {
            if index_digits_then_dot(s, k) {
                assert(is_decimal_digit(s[k]));
            }
        }
    }
    None
}

/// At most one value is in the default state.
proof fn lemma_moshi_lm_h_params_default_unique(a: MoshiLmHParams, b: MoshiLmHParams)
    requires
        a.is_default(),
        b.is_default(),
    ensures
        a == b,
{
    assert(a.delays.0 =~= b.delays.0);
    assert(a.inference_prompt_tokens.0 =~= b.inference_prompt_tokens.0);
    assert(a.depformer_weight_schedule.0 =~= b.depformer_weight_schedule.0);
}

/// At most one value is in the default state.
proof fn lemma_h_params_default_unique(a: HParams, b: HParams)
    requires
        a.is_default(),
        b.is_default(),
    ensures
        a == b,
{
    assert(a.swiglu_clamp_exp_bits.0 =~= b.swiglu_clamp_exp_bits.0);
    assert(a.swiglu_clamp_shexp_bits.0 =~= b.swiglu_clamp_shexp_bits.0);
    assert(a.attention_sliding_window_pattern_flags.0 =~= b.attention_sliding_window_pattern_flags.0);
    assert(a.attention_layer_pattern_flags.0 =~= b.attention_layer_pattern_flags.0);
    assert(a.rope_dimension_sections =~= b.rope_dimension_sections);
    assert(a.matryoshka_dimensions =~= b.matryoshka_dimensions);
}

/// At most one value is in the default state.
proof fn lemma_mimi_h_params_default_unique(a: MimiHParams, b: MimiHParams)
    requires
        a.is_default(),
        b.is_default(),
    ensures
        a == b,
{
}

/// At most one value is in the default state.
proof fn lemma_sampling_metadata_default_unique(a: SamplingMetadata, b: SamplingMetadata)
    requires
        a.is_default(),
        b.is_default(),
    ensures
        a == b,
{
}

/// At most one value is in the default state.
proof fn lemma_adapter_metadata_default_unique(a: AdapterMetadata, b: AdapterMetadata)
    requires
        a.is_default(),
        b.is_default(),
    ensures
        a == b,
{
    assert(a.alora_invocation_tokens.0 =~= b.alora_invocation_tokens.0);
}

/// At most one value is in the default state.
proof fn lemma_clip_vision_metadata_default_unique(a: ClipVisionMetadata, b: ClipVisionMetadata)
    requires
        a.is_default(),
        b.is_default(),
    ensures
        a == b,
{
    assert(a.image_mean_bits =~= b.image_mean_bits);
    assert(a.image_std_bits =~= b.image_std_bits);
    assert(a.wa_layer_indexes.0 =~= b.wa_layer_indexes.0);
    assert(a.deepstack_layers.0 =~= b.deepstack_layers.0);
}

/// At most one value is in the default state.
proof fn lemma_clip_audio_metadata_default_unique(a: ClipAudioMetadata, b: ClipAudioMetadata)
    requires
        a.is_default(),
        b.is_default(),
    ensures
        a == b,
{
}

/// At most one value is in the default state.
proof fn lemma_xielu_metadata_default_unique(a: XieluMetadata, b: XieluMetadata)
    requires
        a.is_default(),
        b.is_default(),
    ensures
        a == b,
{
    assert(a.alpha_p_bits.0 =~= b.alpha_p_bits.0);
    assert(a.alpha_n_bits.0 =~= b.alpha_n_bits.0);
    assert(a.beta_bits.0 =~= b.beta_bits.0);
    assert(a.eps_bits.0 =~= b.eps_bits.0);
}

/// At most one value is in the default state.
proof fn lemma_general_metadata_default_unique(a: GeneralMetadata, b: GeneralMetadata)
    requires
        a.is_default(),
        b.is_default(),
    ensures
        a == b,
{
    assert(a.base_models =~= b.base_models);
    assert(a.datasets =~= b.datasets);
    assert(a.tags =~= b.tags);
    assert(a.languages =~= b.languages);
}

/// At most one value is in the default state.
proof fn lemma_tokenizer_metadata_default_unique(a: TokenizerMetadata, b: TokenizerMetadata)
    requires
        a.is_default(),
        b.is_default(),
    ensures
        a == b,
{
    assert(a.chat_template_names =~= b.chat_template_names);
    assert(a.chat_template_values =~= b.chat_template_values);
}

/// At most one value is in the default state.
proof fn lemma_classifier_metadata_default_unique(a: ClassifierMetadata, b: ClassifierMetadata)
    requires
        a.is_default(),
        b.is_default(),
    ensures
        a == b,
{
    assert(a.labels =~= b.labels);
}

/// At most one value is in the default state.
proof fn lemma_imatrix_metadata_default_unique(a: ImatrixMetadata, b: ImatrixMetadata)
    requires
        a.is_default(),
        b.is_default(),
    ensures
        a == b,
{
    assert(a.datasets =~= b.datasets);
}

/// Reset restores the freshly built state: two models in the reset state whose
/// regions have the same lengths agree in every field, so a reset model is the
/// model that construction builds with those capacities.
pub proof fn lemma_reset_state_is_unique(a: Data, b: Data)
    requires
        a.is_reset(),
        b.is_reset(),
        a.name_storage@.len() == b.name_storage@.len(),
        a.tensors@.len() == b.tensors@.len(),
        a.vocab_data.token_storage@.len() == b.vocab_data.token_storage@.len(),
        a.vocab_data.merge_storage@.len() == b.vocab_data.merge_storage@.len(),
        a.vocab_data.entries@.len() == b.vocab_data.entries@.len(),
        a.vocab_data.merge_offsets@.len() == b.vocab_data.merge_offsets@.len(),
        a.vocab_data.merge_lengths@.len() == b.vocab_data.merge_lengths@.len(),
        a.vocab_data.precompiled_charsmap@.len() == b.vocab_data.precompiled_charsmap@.len(),
        a.vocab_data.lstrip_flags@.len() == b.vocab_data.lstrip_flags@.len(),
        a.vocab_data.rstrip_flags@.len() == b.vocab_data.rstrip_flags@.len(),
        a.meta.blob@.len() == b.meta.blob@.len(),
    ensures
        a.same_contents(&b),
{
    assert(a.architecture_name =~= b.architecture_name);
    assert(a.weights_split_sizes =~= b.weights_split_sizes);
    assert(a.weights_split_offsets =~= b.weights_split_offsets);
    assert(a.tensors@ =~= b.tensors@);
    assert(a.vocab_data.tokenizer_model_name =~= b.vocab_data.tokenizer_model_name);
    assert(a.vocab_data.tokenizer_pre_name =~= b.vocab_data.tokenizer_pre_name);
    lemma_h_params_default_unique(a.params, b.params);
    lemma_moshi_lm_h_params_default_unique(a.moshi_lm, b.moshi_lm);
    lemma_mimi_h_params_default_unique(a.mimi, b.mimi);
    lemma_general_metadata_default_unique(a.meta.general_data, b.meta.general_data);
    lemma_tokenizer_metadata_default_unique(a.meta.tokenizer_data, b.meta.tokenizer_data);
    lemma_classifier_metadata_default_unique(a.meta.classifier_data, b.meta.classifier_data);
    lemma_imatrix_metadata_default_unique(a.meta.imatrix_data, b.meta.imatrix_data);
    lemma_sampling_metadata_default_unique(a.meta.sampling_data, b.meta.sampling_data);
    lemma_adapter_metadata_default_unique(a.meta.adapter_data, b.meta.adapter_data);
    lemma_clip_vision_metadata_default_unique(a.meta.clip_vision_data, b.meta.clip_vision_data);
    lemma_clip_audio_metadata_default_unique(a.meta.clip_audio_data, b.meta.clip_audio_data);
    lemma_xielu_metadata_default_unique(a.meta.xielu_data, b.meta.xielu_data);
}

} // verus!
