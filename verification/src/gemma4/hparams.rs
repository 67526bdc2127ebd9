//! The Gemma4 hyperparameter schedule: which metadata keys are read, in which
//! order and with which access, and where each decided value is stored. The
//! feed-forward width accepts a scalar or the first array element; the
//! sliding-window pattern is required and copied into `sliding_window_pattern`.
//! Missing optional keys keep the zero defaults.

use vstd::prelude::*;

use crate::loader::hparams::Operation;

use super::MetadataParameters;

verus! {

/// Number of reads in the schedule.
pub const HPARAM_READ_COUNT: usize = 21;

/// The reads of Gemma4 hyperparameter loading, in order: each key and its access.
pub open spec fn hparam_reads() -> Seq<(Seq<char>, Operation)> {
    seq![
        ("gemma4.context_length"@, Operation::OptionalI32),
        ("gemma4.embedding_length"@, Operation::OptionalI32),
        ("gemma4.embedding_length_per_layer_input"@, Operation::OptionalI32),
        ("gemma4.feed_forward_length"@, Operation::OptionalI32OrFirstArray),
        ("gemma4.attention.head_count"@, Operation::OptionalI32),
        ("gemma4.attention.head_count_kv"@, Operation::OptionalI32),
        ("gemma4.attention.key_length"@, Operation::OptionalI32),
        ("gemma4.attention.key_length_swa"@, Operation::OptionalI32),
        ("gemma4.attention.value_length"@, Operation::OptionalI32),
        ("gemma4.attention.value_length_swa"@, Operation::OptionalI32),
        ("gemma4.block_count"@, Operation::OptionalI32),
        ("gemma4.vocab_size"@, Operation::OptionalI32),
        ("gemma4.attention.sliding_window"@, Operation::OptionalI32),
        ("gemma4.attention.shared_kv_layers"@, Operation::OptionalI32),
        ("gemma4.rope.dimension_count"@, Operation::OptionalI32),
        ("gemma4.rope.dimension_count_swa"@, Operation::OptionalI32),
        ("gemma4.attention.layer_norm_rms_epsilon"@, Operation::OptionalF32),
        ("gemma4.final_logit_softcapping"@, Operation::OptionalF32),
        ("gemma4.rope.freq_base"@, Operation::OptionalF32),
        ("gemma4.rope.freq_base_swa"@, Operation::OptionalF32),
        ("gemma4.attention.sliding_window_pattern"@, Operation::RequiredFlagArray)
    ]
}

/// The key and access of read `index` of the schedule.
pub fn hparam_read(index: usize) -> (read: (&'static str, Operation))
    requires
        index < HPARAM_READ_COUNT,
    ensures
        (read.0@, read.1) == hparam_reads()[index as int],
{
    match index {
        0 => ("gemma4.context_length", Operation::OptionalI32),
        1 => ("gemma4.embedding_length", Operation::OptionalI32),
        2 => ("gemma4.embedding_length_per_layer_input", Operation::OptionalI32),
        3 => ("gemma4.feed_forward_length", Operation::OptionalI32OrFirstArray),
        4 => ("gemma4.attention.head_count", Operation::OptionalI32),
        5 => ("gemma4.attention.head_count_kv", Operation::OptionalI32),
        6 => ("gemma4.attention.key_length", Operation::OptionalI32),
        7 => ("gemma4.attention.key_length_swa", Operation::OptionalI32),
        8 => ("gemma4.attention.value_length", Operation::OptionalI32),
        9 => ("gemma4.attention.value_length_swa", Operation::OptionalI32),
        10 => ("gemma4.block_count", Operation::OptionalI32),
        11 => ("gemma4.vocab_size", Operation::OptionalI32),
        12 => ("gemma4.attention.sliding_window", Operation::OptionalI32),
        13 => ("gemma4.attention.shared_kv_layers", Operation::OptionalI32),
        14 => ("gemma4.rope.dimension_count", Operation::OptionalI32),
        15 => ("gemma4.rope.dimension_count_swa", Operation::OptionalI32),
        16 => ("gemma4.attention.layer_norm_rms_epsilon", Operation::OptionalF32),
        17 => ("gemma4.final_logit_softcapping", Operation::OptionalF32),
        18 => ("gemma4.rope.freq_base", Operation::OptionalF32),
        19 => ("gemma4.rope.freq_base_swa", Operation::OptionalF32),
        _ => ("gemma4.attention.sliding_window_pattern", Operation::RequiredFlagArray),
    }
}

/// The parameters with the value of integer read `index` stored.
pub open spec fn with_integer_hparam(p: MetadataParameters, index: int, value: i32) -> MetadataParameters {
    if index == 0 {
        MetadataParameters { context_length: value, ..p }
    } else if index == 1 {
        MetadataParameters { embedding_length: value, ..p }
    } else if index == 2 {
        MetadataParameters { embedding_length_per_layer_input: value, ..p }
    } else if index == 3 {
        MetadataParameters { feed_forward_length: value, ..p }
    } else if index == 4 {
        MetadataParameters { attention_head_count: value, ..p }
    } else if index == 5 {
        MetadataParameters { attention_head_count_kv: value, ..p }
    } else if index == 6 {
        MetadataParameters { attention_key_length: value, ..p }
    } else if index == 7 {
        MetadataParameters { attention_key_length_swa: value, ..p }
    } else if index == 8 {
        MetadataParameters { attention_value_length: value, ..p }
    } else if index == 9 {
        MetadataParameters { attention_value_length_swa: value, ..p }
    } else if index == 10 {
        MetadataParameters { block_count: value, ..p }
    } else if index == 11 {
        MetadataParameters { vocab_size: value, ..p }
    } else if index == 12 {
        MetadataParameters { attention_sliding_window: value, ..p }
    } else if index == 13 {
        MetadataParameters { attention_shared_kv_layers: value, ..p }
    } else if index == 14 {
        MetadataParameters { rope_dimension_count: value, ..p }
    } else {
        MetadataParameters { rope_dimension_count_swa: value, ..p }
    }
}

/// The parameters with the bit pattern of float read `index` stored.
pub open spec fn with_float_hparam(p: MetadataParameters, index: int, bits: u32) -> MetadataParameters {
    if index == 16 {
        MetadataParameters { attention_layer_norm_rms_epsilon_bits: bits, ..p }
    } else if index == 17 {
        MetadataParameters { final_logit_softcapping_bits: bits, ..p }
    } else if index == 18 {
        MetadataParameters { rope_freq_base_bits: bits, ..p }
    } else {
        MetadataParameters { rope_freq_base_swa_bits: bits, ..p }
    }
}

impl MetadataParameters {
    /// Stores the value decided for integer read `index`.
    pub fn assign_integer_hparam(&mut self, index: usize, value: i32)
        requires
            index < 16,
        ensures
            *final(self) == with_integer_hparam(*old(self), index as int, value),
    {
        match index {
            0 => self.context_length = value,
            1 => self.embedding_length = value,
            2 => self.embedding_length_per_layer_input = value,
            3 => self.feed_forward_length = value,
            4 => self.attention_head_count = value,
            5 => self.attention_head_count_kv = value,
            6 => self.attention_key_length = value,
            7 => self.attention_key_length_swa = value,
            8 => self.attention_value_length = value,
            9 => self.attention_value_length_swa = value,
            10 => self.block_count = value,
            11 => self.vocab_size = value,
            12 => self.attention_sliding_window = value,
            13 => self.attention_shared_kv_layers = value,
            14 => self.rope_dimension_count = value,
            _ => self.rope_dimension_count_swa = value,
        }
    }

    /// Stores the bit pattern decided for float read `index`.
    pub fn assign_float_hparam(&mut self, index: usize, bits: u32)
        requires
            16 <= index < 20,
        ensures
            *final(self) == with_float_hparam(*old(self), index as int, bits),
    {
        match index {
            16 => self.attention_layer_norm_rms_epsilon_bits = bits,
            17 => self.final_logit_softcapping_bits = bits,
            18 => self.rope_freq_base_bits = bits,
            _ => self.rope_freq_base_swa_bits = bits,
        }
    }

    /// Completes loading once every read succeeded: records the number of copied
    /// pattern flags and sets the layout facts the family fixes.
    pub fn finish_hparams(&mut self, pattern_count: u32)
        ensures
            *final(self) == (MetadataParameters {
                sliding_window_pattern_count: pattern_count,
                full_attention_interval: 5,
                embedding_length_out: old(self).embedding_length,
                tie_word_embeddings: true,
                rope_pair_x0_stride: 1,
                rope_pair_x1_stride: 1,
                rope_pair_x1_half_rot_offset: 1,
                ..*old(self)
            }),
    {
        self.sliding_window_pattern_count = pattern_count;
        self.full_attention_interval = 5;
        self.embedding_length_out = self.embedding_length;
        self.tie_word_embeddings = true;
        self.rope_pair_x0_stride = 1;
        self.rope_pair_x1_stride = 1;
        self.rope_pair_x1_half_rot_offset = 1;
    }
}


/// The integer parameter field each Gemma4 metadata key fills, by key.
pub open spec fn integer_field_named(p: MetadataParameters, key: Seq<char>) -> Option<i32> {
    if key == "gemma4.context_length"@ {
        Some(p.context_length)
    } else if key == "gemma4.embedding_length"@ {
        Some(p.embedding_length)
    } else if key == "gemma4.embedding_length_per_layer_input"@ {
        Some(p.embedding_length_per_layer_input)
    } else if key == "gemma4.feed_forward_length"@ {
        Some(p.feed_forward_length)
    } else if key == "gemma4.attention.head_count"@ {
        Some(p.attention_head_count)
    } else if key == "gemma4.attention.head_count_kv"@ {
        Some(p.attention_head_count_kv)
    } else if key == "gemma4.attention.key_length"@ {
        Some(p.attention_key_length)
    } else if key == "gemma4.attention.key_length_swa"@ {
        Some(p.attention_key_length_swa)
    } else if key == "gemma4.attention.value_length"@ {
        Some(p.attention_value_length)
    } else if key == "gemma4.attention.value_length_swa"@ {
        Some(p.attention_value_length_swa)
    } else if key == "gemma4.block_count"@ {
        Some(p.block_count)
    } else if key == "gemma4.vocab_size"@ {
        Some(p.vocab_size)
    } else if key == "gemma4.attention.sliding_window"@ {
        Some(p.attention_sliding_window)
    } else if key == "gemma4.attention.shared_kv_layers"@ {
        Some(p.attention_shared_kv_layers)
    } else if key == "gemma4.rope.dimension_count"@ {
        Some(p.rope_dimension_count)
    } else if key == "gemma4.rope.dimension_count_swa"@ {
        Some(p.rope_dimension_count_swa)
    } else {
        None
    }
}

/// The 32-bit float (bit pattern) parameter field each Gemma4 metadata key fills, by key.
pub open spec fn float_field_named(p: MetadataParameters, key: Seq<char>) -> Option<u32> {
    if key == "gemma4.attention.layer_norm_rms_epsilon"@ {
        Some(p.attention_layer_norm_rms_epsilon_bits)
    } else if key == "gemma4.final_logit_softcapping"@ {
        Some(p.final_logit_softcapping_bits)
    } else if key == "gemma4.rope.freq_base"@ {
        Some(p.rope_freq_base_bits)
    } else if key == "gemma4.rope.freq_base_swa"@ {
        Some(p.rope_freq_base_swa_bits)
    } else {
        None
    }
}

/// Each read of the schedule fills the field its key names: storing the value
/// of an integer read sets the integer field named by that read's key and no
/// other named field, and storing the bits of a float read sets the float field
/// named by its key and no other named field.
pub proof fn lemma_reads_fill_their_named_fields(p: MetadataParameters, index: int, value: i32, bits: u32, other: Seq<char>)
    requires
        0 <= index < HPARAM_READ_COUNT,
    ensures
        index < 16 ==> {
            let after = with_integer_hparam(p, index, value);
            &&& integer_field_named(after, hparam_reads()[index].0) == Some(value)
            &&& other != hparam_reads()[index].0 ==> integer_field_named(after, other) == integer_field_named(
                p,
                other,
            )
            &&& float_field_named(after, other) == float_field_named(p, other)
        },
        16 <= index < 20 ==> {
            let after = with_float_hparam(p, index, bits);
            &&& float_field_named(after, hparam_reads()[index].0) == Some(bits)
            &&& other != hparam_reads()[index].0 ==> float_field_named(after, other) == float_field_named(p, other)
            &&& integer_field_named(after, other) == integer_field_named(p, other)
        },
{
    reveal_strlit("gemma4.context_length");
    reveal_strlit("gemma4.embedding_length");
    reveal_strlit("gemma4.embedding_length_per_layer_input");
    reveal_strlit("gemma4.feed_forward_length");
    reveal_strlit("gemma4.attention.head_count");
    reveal_strlit("gemma4.attention.head_count_kv");
    reveal_strlit("gemma4.attention.key_length");
    reveal_strlit("gemma4.attention.key_length_swa");
    reveal_strlit("gemma4.attention.value_length");
    reveal_strlit("gemma4.attention.value_length_swa");
    reveal_strlit("gemma4.block_count");
    reveal_strlit("gemma4.vocab_size");
    reveal_strlit("gemma4.attention.sliding_window");
    reveal_strlit("gemma4.attention.shared_kv_layers");
    reveal_strlit("gemma4.rope.dimension_count");
    reveal_strlit("gemma4.rope.dimension_count_swa");
    reveal_strlit("gemma4.attention.layer_norm_rms_epsilon");
    reveal_strlit("gemma4.final_logit_softcapping");
    reveal_strlit("gemma4.rope.freq_base");
    reveal_strlit("gemma4.rope.freq_base_swa");
    assert("gemma4.context_length"@.len() == 21);
    assert("gemma4.embedding_length"@.len() == 23);
    assert("gemma4.embedding_length_per_layer_input"@.len() == 39);
    assert("gemma4.feed_forward_length"@.len() == 26);
    assert("gemma4.attention.head_count"@.len() == 27);
    assert("gemma4.attention.head_count_kv"@.len() == 30);
    assert("gemma4.attention.key_length"@.len() == 27);
    assert("gemma4.attention.key_length_swa"@.len() == 31);
    assert("gemma4.attention.value_length"@.len() == 29);
    assert("gemma4.attention.value_length_swa"@.len() == 33);
    assert("gemma4.block_count"@.len() == 18);
    assert("gemma4.vocab_size"@.len() == 17);
    assert("gemma4.attention.sliding_window"@.len() == 31);
    assert("gemma4.attention.shared_kv_layers"@.len() == 33);
    assert("gemma4.rope.dimension_count"@.len() == 27);
    assert("gemma4.rope.dimension_count_swa"@.len() == 31);
    assert("gemma4.attention.layer_norm_rms_epsilon"@.len() == 39);
    assert("gemma4.final_logit_softcapping"@.len() == 30);
    assert("gemma4.rope.freq_base"@.len() == 21);
    assert("gemma4.rope.freq_base_swa"@.len() == 25);
    assert("gemma4.context_length"@[7] == 'c');
    assert("gemma4.rope.freq_base"@[7] == 'r');
    assert("gemma4.embedding_length_per_layer_input"@[7] == 'e');
    assert("gemma4.attention.layer_norm_rms_epsilon"@[7] == 'a');
    assert("gemma4.attention.head_count"@[17] == 'h');
    assert("gemma4.attention.key_length"@[17] == 'k');
    assert("gemma4.attention.head_count"@[7] == 'a');
    assert("gemma4.rope.dimension_count"@[7] == 'r');
    assert("gemma4.attention.head_count_kv"@[7] == 'a');
    assert("gemma4.final_logit_softcapping"@[7] == 'f');
    assert("gemma4.attention.key_length"@[7] == 'a');
    assert("gemma4.rope.dimension_count"@[7] == 'r');
    assert("gemma4.attention.key_length_swa"@[17] == 'k');
    assert("gemma4.attention.sliding_window"@[17] == 's');
    assert("gemma4.attention.key_length_swa"@[7] == 'a');
    assert("gemma4.rope.dimension_count_swa"@[7] == 'r');
    assert("gemma4.attention.value_length_swa"@[17] == 'v');
    assert("gemma4.attention.shared_kv_layers"@[17] == 's');
    assert("gemma4.attention.sliding_window"@[7] == 'a');
    assert("gemma4.rope.dimension_count_swa"@[7] == 'r');
}

} // verus!
