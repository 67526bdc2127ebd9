use emel_model::gemma4::hparams as gemma4_schedule;
use emel_model::gemma4::MetadataParameters;
use emel_model::lfm2::hparams as lfm2_schedule;
use emel_model::llama::hparams as llama_schedule;
use emel_model::loader::hparams::Operation;

#[test]
fn llama_schedule_reads_nine_integers_then_nine_floats() {
    assert_eq!(llama_schedule::HPARAM_READ_COUNT, 18);
    assert_eq!(llama_schedule::hparam_read(0), ("llama.context_length", Operation::OptionalI32));
    assert_eq!(llama_schedule::hparam_read(8), ("llama.vocab_size", Operation::OptionalI32));
    assert_eq!(
        llama_schedule::hparam_read(9),
        ("llama.attention.layer_norm_epsilon", Operation::OptionalF32)
    );
    assert_eq!(llama_schedule::hparam_read(17), ("llama.rope.freq_base_swa", Operation::OptionalF32));
    for index in 0..llama_schedule::HPARAM_READ_COUNT {
        let (key, operation) = llama_schedule::hparam_read(index);
        assert_eq!(key, emel_model::llama::HPARAM_KEYS[index]);
        let float = index >= llama_schedule::HPARAM_INTEGER_READS;
        assert_eq!(operation == Operation::OptionalF32, float);
    }
}

#[test]
fn llama_assignments_fill_only_their_field() {
    let mut parameters = emel_model::llama::Parameters::default();
    parameters.assign_integer_hparam(0, 4096);
    parameters.assign_integer_hparam(7, 32);
    parameters.assign_float_hparam(16, 10_000.0f32.to_bits());
    assert_eq!(parameters.context_length, 4096);
    assert_eq!(parameters.block_count, 32);
    assert_eq!(parameters.rope_freq_base_bits, 10_000.0f32.to_bits());
    assert_eq!(parameters.embedding_length, 0);
    assert_eq!(parameters.rope_freq_base_swa_bits, 0);
    let expected = emel_model::llama::Parameters {
        context_length: 4096,
        block_count: 32,
        rope_freq_base_bits: 10_000.0f32.to_bits(),
        ..emel_model::llama::Parameters::default()
    };
    assert_eq!(parameters, expected);
}

#[test]
fn lfm2_schedule_reads_the_kv_head_array_twice() {
    assert_eq!(lfm2_schedule::HPARAM_READ_COUNT, 11);
    assert_eq!(lfm2_schedule::hparam_read(6), ("lfm2.shortconv.l_cache", Operation::OptionalI32));
    assert_eq!(lfm2_schedule::hparam_read(8), ("lfm2.rope.freq_base", Operation::OptionalF32));
    assert_eq!(
        lfm2_schedule::hparam_read(9),
        ("lfm2.attention.head_count_kv", Operation::RequiredFirstNonzeroArray)
    );
    assert_eq!(
        lfm2_schedule::hparam_read(10),
        ("lfm2.attention.head_count_kv", Operation::RequiredFlagArray)
    );
}

#[test]
fn lfm2_loading_finishes_with_the_pattern_count_and_output_width() {
    let mut parameters = emel_model::lfm2::Parameters::default();
    parameters.assign_integer_hparam(1, 2048);
    parameters.assign_integer_hparam(9, 8);
    parameters.assign_float_hparam(7, 0.00001f32.to_bits());
    parameters.attention_layer_pattern_flags[2] = 1;
    parameters.finish_hparams(16);
    assert_eq!(parameters.embedding_length, 2048);
    assert_eq!(parameters.embedding_length_out, 2048);
    assert_eq!(parameters.attention_head_count_kv, 8);
    assert_eq!(parameters.attention_layer_norm_rms_epsilon_bits, 0.00001f32.to_bits());
    assert_eq!(parameters.attention_layer_pattern_count, 16);
    assert_eq!(parameters.attention_layer_pattern_flags[2], 1);
    assert_eq!(parameters.context_length, 0);
}

#[test]
fn gemma4_schedule_reads_sixteen_integers_four_floats_and_the_pattern() {
    assert_eq!(gemma4_schedule::HPARAM_READ_COUNT, 21);
    assert_eq!(
        gemma4_schedule::hparam_read(3),
        ("gemma4.feed_forward_length", Operation::OptionalI32OrFirstArray)
    );
    assert_eq!(gemma4_schedule::hparam_read(15), ("gemma4.rope.dimension_count_swa", Operation::OptionalI32));
    assert_eq!(
        gemma4_schedule::hparam_read(16),
        ("gemma4.attention.layer_norm_rms_epsilon", Operation::OptionalF32)
    );
    assert_eq!(
        gemma4_schedule::hparam_read(20),
        ("gemma4.attention.sliding_window_pattern", Operation::RequiredFlagArray)
    );
}

#[test]
fn gemma4_loading_fixes_the_layout_facts() {
    let mut parameters = MetadataParameters::default();
    parameters.assign_integer_hparam(1, 1536);
    parameters.assign_integer_hparam(3, 6144);
    parameters.assign_float_hparam(19, 10_000.0f32.to_bits());
    parameters.finish_hparams(35);
    assert_eq!(parameters.embedding_length, 1536);
    assert_eq!(parameters.feed_forward_length, 6144);
    assert_eq!(parameters.rope_freq_base_swa_bits, 10_000.0f32.to_bits());
    assert_eq!(parameters.sliding_window_pattern_count, 35);
    assert_eq!(parameters.full_attention_interval, 5);
    assert_eq!(parameters.embedding_length_out, 1536);
    assert!(parameters.tie_word_embeddings);
    assert_eq!(parameters.rope_pair_x0_stride, 1);
    assert_eq!(parameters.rope_pair_x1_stride, 1);
    assert_eq!(parameters.rope_pair_x1_offset, 0);
    assert_eq!(parameters.rope_pair_x1_half_rot_offset, 1);
    assert_eq!(parameters.context_length, 0);
}
