use allocation_counter::measure;
use emel_model::data::{
    architecture_name_view, metadata_string_view, tensor_name_view, try_boxed_slice, try_parse_block_index, Data,
    GenerationAttentionQkNormRoute, GenerationAttentionVNormRoute, GenerationAttentionValueRoute,
    GenerationAttentionWindowRoute, GenerationResidualRoute, MetadataStringView, MoshiComponent, TensorRecord,
    TokenizerModel, TokenizerPre, ATTR_FLAG_BYTES, MAX_ARCHITECTURE_NAME, MAX_CLIP_IMAGE_STATS,
    MAX_CLIP_LAYER_INDEXES, MAX_DEPFORMER_WEIGHT_SCHEDULE, MAX_INFERENCE_PROMPT_TOKENS, MAX_MATRYOSHKA_DIMS,
    MAX_MERGES, MAX_MERGE_BYTES, MAX_METADATA_ARRAYS, MAX_METADATA_BLOB_BYTES, MAX_METADATA_ENTITIES,
    MAX_METADATA_LIST, MAX_METADATA_STRINGS, MAX_MOSHI_DELAYS, MAX_NAME_BYTES, MAX_PRECOMPILED_CHARMAP_BYTES,
    MAX_ROPE_DIMENSION_SECTIONS, MAX_SPLIT_FILES, MAX_TENSORS, MAX_TOKENIZER_MODEL, MAX_TOKENIZER_PRE,
    MAX_VOCAB_BYTES, MAX_VOCAB_TOKENS, MAX_XIELU_VALUES,
};
use emel_model::data::{HParams, MoshiLmHParams, VocabEntry};

#[test]
fn constants_and_enum_discriminants_match_the_pinned_schema() {
    assert_eq!(MAX_TENSORS, 65_536);
    assert_eq!(MAX_NAME_BYTES, 4_194_304);
    assert_eq!(MAX_ARCHITECTURE_NAME, 64);
    assert_eq!(MAX_VOCAB_TOKENS, 320_000);
    assert_eq!(MAX_VOCAB_BYTES, 8_388_608);
    assert_eq!(MAX_TOKENIZER_MODEL, 64);
    assert_eq!(MAX_TOKENIZER_PRE, 64);
    assert_eq!(MAX_MERGES, 600_000);
    assert_eq!(MAX_MERGE_BYTES, 8_388_608);
    assert_eq!(MAX_PRECOMPILED_CHARMAP_BYTES, 1_048_576);
    assert_eq!(MAX_SPLIT_FILES, 128);
    assert_eq!(MAX_METADATA_BLOB_BYTES, 4_194_304);
    assert_eq!(MAX_METADATA_STRINGS, 4096);
    assert_eq!(MAX_METADATA_LIST, 256);
    assert_eq!(MAX_METADATA_ENTITIES, 64);
    assert_eq!(MAX_METADATA_ARRAYS, 512);
    assert_eq!(MAX_MATRYOSHKA_DIMS, 16);
    assert_eq!(MAX_ROPE_DIMENSION_SECTIONS, 32);
    assert_eq!(MAX_XIELU_VALUES, 256);
    assert_eq!(MAX_CLIP_IMAGE_STATS, 16);
    assert_eq!(MAX_CLIP_LAYER_INDEXES, 512);
    assert_eq!(MAX_MOSHI_DELAYS, 64);
    assert_eq!(MAX_INFERENCE_PROMPT_TOKENS, 64);
    assert_eq!(MAX_DEPFORMER_WEIGHT_SCHEDULE, 64);
    assert_eq!(ATTR_FLAG_BYTES, 40_000);
    assert_eq!(
        [
            TokenizerModel::NoVocab as u8,
            TokenizerModel::Spm as u8,
            TokenizerModel::Bpe as u8,
            TokenizerModel::Wpm as u8,
            TokenizerModel::Ugm as u8,
            TokenizerModel::Rwkv as u8,
            TokenizerModel::Plamo2 as u8,
            TokenizerModel::Unknown as u8,
        ],
        [0, 1, 2, 3, 4, 5, 6, 7]
    );
    assert_eq!(
        [
            TokenizerPre::Default,
            TokenizerPre::Llama3,
            TokenizerPre::Jais2,
            TokenizerPre::Dbrx,
            TokenizerPre::Smaug,
            TokenizerPre::DeepseekLlm,
            TokenizerPre::DeepseekCoder,
            TokenizerPre::Deepseek3Llm,
            TokenizerPre::Youtu,
            TokenizerPre::Falcon,
            TokenizerPre::Mpt,
            TokenizerPre::Starcoder,
            TokenizerPre::Gpt2,
            TokenizerPre::Jais,
            TokenizerPre::Refact,
            TokenizerPre::CommandR,
            TokenizerPre::Qwen2,
            TokenizerPre::Qwen35,
            TokenizerPre::Stablelm2,
            TokenizerPre::Olmo,
            TokenizerPre::Poro,
            TokenizerPre::Chatglm4,
            TokenizerPre::Viking,
            TokenizerPre::Tekken,
            TokenizerPre::Smollm,
            TokenizerPre::Codeshell,
            TokenizerPre::Bloom,
            TokenizerPre::Gpt3Finnish,
            TokenizerPre::Exaone,
            TokenizerPre::Exaone4,
            TokenizerPre::ExaoneMoe,
            TokenizerPre::Chameleon,
            TokenizerPre::Minerva,
            TokenizerPre::Megrez,
            TokenizerPre::Gpt4o,
            TokenizerPre::TinyAya,
            TokenizerPre::Superbpe,
            TokenizerPre::Trillion,
            TokenizerPre::GraniteDocling,
            TokenizerPre::Bailingmoe,
            TokenizerPre::SeedCoder,
            TokenizerPre::Hunyuan,
            TokenizerPre::HunyuanDense,
            TokenizerPre::JoyaiLlm,
            TokenizerPre::KimiK2,
            TokenizerPre::Grok2,
            TokenizerPre::Afmoe,
            TokenizerPre::MinimaxM2,
            TokenizerPre::SolarOpen,
            TokenizerPre::Unknown,
        ]
        .map(|value| value as u16),
        std::array::from_fn::<_, 50, _>(|index| u16::try_from(index).unwrap())
    );
    assert_eq!(
        [
            MoshiComponent::NoComponent as u8,
            MoshiComponent::Lm as u8,
            MoshiComponent::Mimi as u8,
            MoshiComponent::Voice as u8,
        ],
        [0, 1, 2, 3]
    );
    assert_eq!(
        [GenerationResidualRoute::Attention as u8, GenerationResidualRoute::Shortconv as u8],
        [0, 1]
    );
    assert_eq!(
        [
            GenerationAttentionQkNormRoute::NoNorm as u8,
            GenerationAttentionQkNormRoute::HeadwiseRms as u8,
        ],
        [0, 1]
    );
    assert_eq!(
        [
            GenerationAttentionValueRoute::DedicatedValue as u8,
            GenerationAttentionValueRoute::SharedKeyValue as u8,
        ],
        [0, 1]
    );
    assert_eq!(
        [GenerationAttentionVNormRoute::NoNorm as u8, GenerationAttentionVNormRoute::Rms as u8],
        [0, 1]
    );
    assert_eq!(
        [
            GenerationAttentionWindowRoute::FullContext as u8,
            GenerationAttentionWindowRoute::SlidingWindow as u8,
        ],
        [0, 1]
    );
}

#[test]
fn block_index_parser_rejects_malformed_and_overflowing_names() {
    assert_eq!(try_parse_block_index(b"block.1.x"), None);
    assert_eq!(try_parse_block_index(b"blk."), None);
    assert_eq!(try_parse_block_index(b"blk.x.y"), None);
    assert_eq!(try_parse_block_index(b"blk.1"), None);
    assert_eq!(try_parse_block_index(b"blk.1x.y"), None);
    assert_eq!(try_parse_block_index(b"blk.2147483647.x"), Some(i32::MAX));
    assert_eq!(try_parse_block_index(b"blk.2147483648.x"), None);
}

#[test]
fn fallible_storage_rejects_capacity_overflow() {
    assert!(try_boxed_slice::<u64>(usize::MAX).is_err());
}

#[test]
fn views_are_byte_oriented_checked_and_allocation_free() {
    let mut data = Data::try_new().unwrap();
    data.name_storage[..5].copy_from_slice(&[0xff, b'n', b'a', b'm', b'e']);
    let tensor = TensorRecord { name_offset: 0, name_length: 5, ..TensorRecord::default() };
    data.meta.blob[..4].copy_from_slice(&[0xfe, b'm', b'e', b't']);
    data.meta.blob_bytes_used = 4;
    let value = MetadataStringView { offset: 0, length: 4 };
    data.architecture_name[..5].copy_from_slice(b"moshi");
    let allocation = measure(|| {
        assert_eq!(tensor_name_view(&data, &tensor), &[0xff, b'n', b'a', b'm', b'e']);
        assert_eq!(metadata_string_view(&data.meta, value), &[0xfe, b'm', b'e', b't']);
        assert_eq!(architecture_name_view(&data), b"moshi");
        assert_eq!(try_parse_block_index(b"blk.17.attn"), Some(17));
    });
    assert_eq!(allocation.count_total, 0);
}

#[test]
fn views_reject_out_of_bounds_and_empty_metadata_ranges() {
    let mut data = Data::try_new().unwrap();
    data.meta.blob_bytes_used = 4;
    assert!(tensor_name_view(
        &data,
        &TensorRecord { name_offset: u32::MAX, name_length: u32::MAX, ..TensorRecord::default() }
    )
    .is_empty());
    assert!(metadata_string_view(&data.meta, MetadataStringView { offset: 3, length: 2 }).is_empty());
    assert!(metadata_string_view(&data.meta, MetadataStringView { offset: u32::MAX, length: u32::MAX })
        .is_empty());
    assert!(metadata_string_view(&data.meta, MetadataStringView { offset: 0, length: 0 }).is_empty());
    data.architecture_name.fill(b'x');
    assert_eq!(architecture_name_view(&data).len(), MAX_ARCHITECTURE_NAME);
}

#[test]
fn reset_restores_defaults_without_allocating() {
    let mut data = Data::try_new().unwrap();
    data.n_layers = 9;
    data.architecture_name[..5].copy_from_slice(b"llama");
    data.name_storage[..4].copy_from_slice(b"name");
    data.tensors[0].name_length = 4;
    data.params.decoder_start_token_id = 42;
    data.vocab_data.token_storage[0] = 9;
    data.vocab_data.escape_whitespaces = false;
    data.meta.blob[0] = 7;
    data.meta.general_data.file_type = 3;
    let allocation = measure(|| data.reset());
    assert_eq!(allocation.count_total, 0);
    assert_eq!(data.n_layers, 0);
    assert_eq!(data.architecture_name, [0; MAX_ARCHITECTURE_NAME]);
    assert_eq!(data.name_storage[0], 0);
    assert_eq!(data.tensors[0], TensorRecord::default());
    assert_eq!(data.params.decoder_start_token_id, -1);
    assert_eq!(data.vocab_data.token_storage[0], 0);
    assert!(data.vocab_data.escape_whitespaces);
    assert_eq!(data.meta.blob[0], 0);
    assert_eq!(data.meta.general_data.file_type, -1);
}

#[test]
fn block_index_parser_accepts_leading_zeros_and_plain_indices() {
    assert_eq!(try_parse_block_index(b"blk.0.x"), Some(0));
    assert_eq!(try_parse_block_index(b"blk.007.ffn"), Some(7));
    assert_eq!(try_parse_block_index(b"blk.17."), Some(17));
    assert_eq!(try_parse_block_index(b""), None);
    assert_eq!(try_parse_block_index(b"blk"), None);
    assert_eq!(try_parse_block_index(b"blk.-1.x"), None);
    assert_eq!(try_parse_block_index(b"blk.99999999999.x"), None);
}

#[test]
fn nested_defaults_match_source_sentinels_and_strides() {
    let params = HParams::default();
    assert_eq!(params.decoder_start_token_id, -1);
    assert_eq!(params.altup_active_idx, -1);
    assert_eq!(params.rope_pair_x0_stride, 2);
    assert_eq!(params.rope_pair_x1_stride, 2);
    assert_eq!(params.rope_pair_x1_offset, 1);
    assert_eq!(params.rope_pair_x1_half_rot_offset, 0);
    assert_eq!(MoshiLmHParams::default().text_padding_id, -1);
}

#[test]
fn construction_has_exact_capacities_and_source_defaults() {
    let data = Data::try_new().unwrap();
    assert_eq!(data.name_storage.len(), MAX_NAME_BYTES);
    assert_eq!(data.tensors.len(), MAX_TENSORS);
    assert_eq!(data.vocab_data.token_storage.len(), MAX_VOCAB_BYTES);
    assert_eq!(data.vocab_data.merge_storage.len(), MAX_MERGE_BYTES);
    assert_eq!(data.vocab_data.entries.len(), MAX_VOCAB_TOKENS);
    assert_eq!(data.vocab_data.merge_offsets.len(), MAX_MERGES);
    assert_eq!(data.vocab_data.merge_lengths.len(), MAX_MERGES);
    assert_eq!(data.vocab_data.precompiled_charsmap.len(), MAX_PRECOMPILED_CHARMAP_BYTES);
    assert_eq!(data.vocab_data.lstrip_flags.len(), ATTR_FLAG_BYTES);
    assert_eq!(data.vocab_data.rstrip_flags.len(), ATTR_FLAG_BYTES);
    assert_eq!(data.meta.blob.len(), MAX_METADATA_BLOB_BYTES);
    assert_eq!(data.weights_split_count, 1);
    assert_eq!(data.params.decoder_start_token_id, -1);
    assert_eq!(data.params.altup_active_idx, -1);
    assert_eq!(data.params.rope_pair_x0_stride, 2);
    assert_eq!(data.params.rope_pair_x1_stride, 2);
    assert_eq!(data.params.rope_pair_x1_offset, 1);
    assert_eq!(data.vocab_data.tokenizer_model_id, TokenizerModel::Unknown);
    assert_eq!(data.vocab_data.tokenizer_pre_id, TokenizerPre::Default);
    let vocab_sentinel_ids = [
        data.vocab_data.bos_id,
        data.vocab_data.eos_id,
        data.vocab_data.eot_id,
        data.vocab_data.eom_id,
        data.vocab_data.unk_id,
        data.vocab_data.sep_id,
        data.vocab_data.pad_id,
        data.vocab_data.cls_id,
        data.vocab_data.mask_id,
        data.vocab_data.prefix_id,
        data.vocab_data.suffix_id,
        data.vocab_data.middle_id,
        data.vocab_data.fim_pre_id,
        data.vocab_data.fim_suf_id,
        data.vocab_data.fim_mid_id,
        data.vocab_data.fim_pad_id,
        data.vocab_data.fim_rep_id,
        data.vocab_data.fim_sep_id,
    ];
    assert_eq!(vocab_sentinel_ids, [-1; 18]);
    assert!(data.vocab_data.escape_whitespaces);
    assert_eq!(data.meta.general_data.quantization_version, -1);
    assert_eq!(data.meta.general_data.file_type, -1);
    assert_eq!(data.moshi_lm.text_padding_id, -1);
    assert_eq!(data.params.rope_pair_x1_half_rot_offset, 0);
    assert_eq!(data.moshi_component_id, MoshiComponent::NoComponent);
    assert_eq!(data.weights_data, None);
    assert!(data.name_storage.iter().all(|value| *value == 0));
    assert!(data.tensors.iter().all(|value| *value == TensorRecord::default()));
    assert!(data.vocab_data.token_storage.iter().all(|value| *value == 0));
    assert!(data.vocab_data.merge_storage.iter().all(|value| *value == 0));
    assert!(data.vocab_data.entries.iter().all(|value| *value == VocabEntry::default()));
    assert!(data.vocab_data.merge_offsets.iter().all(|value| *value == 0));
    assert!(data.vocab_data.merge_lengths.iter().all(|value| *value == 0));
    assert!(data.vocab_data.precompiled_charsmap.iter().all(|value| *value == 0));
    assert!(data.vocab_data.lstrip_flags.iter().all(|value| *value == 0));
    assert!(data.vocab_data.rstrip_flags.iter().all(|value| *value == 0));
    assert!(data.meta.blob.iter().all(|value| *value == 0));
    assert!(data.params.swiglu_clamp_exp_bits.0.iter().all(|value| f32::from_bits(*value) == 0.0));
    assert!(data.params.attention_sliding_window_pattern_flags.0.iter().all(|value| *value == 0));
    assert!(data.moshi_lm.delays.0.iter().all(|value| *value == 0));
    assert!(data.meta.xielu_data.eps_bits.0.iter().all(|value| f32::from_bits(*value) == 0.0));
}

#[test]
fn empty_named_entity_has_every_field_empty() {
    let entity = emel_model::data::NamedEntity::empty();
    let empty = emel_model::data::MetadataStringView { offset: 0, length: 0 };
    for view in [
        entity.name,
        entity.author,
        entity.version,
        entity.organization,
        entity.description,
        entity.url,
        entity.doi,
        entity.uuid,
        entity.repo_url,
    ] {
        assert_eq!(view, empty);
    }
}

#[test]
fn reset_model_equals_a_freshly_built_one() {
    let mut data = Data::try_new().unwrap();
    data.meta.general_data.name = emel_model::data::MetadataStringView { offset: 0, length: 7 };
    data.meta.rope_data.scaling_type = emel_model::data::MetadataStringView { offset: 3, length: 2 };
    data.meta.diffusion_data.shift_logits = true;
    data.meta.tokenizer_data.chat_template_names[5] = emel_model::data::MetadataStringView { offset: 1, length: 1 };
    data.vocab_data.bos_id = 4;
    data.reset();
    assert!(data == Data::try_new().unwrap());
}

#[test]
fn fallible_slices_hold_default_values() {
    assert_eq!(try_boxed_slice::<u64>(3).unwrap(), vec![0, 0, 0]);
    assert_eq!(try_boxed_slice::<bool>(2).unwrap(), vec![false, false]);
}
