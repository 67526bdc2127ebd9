//! The Llama hyperparameter schedule: which metadata keys are read, in which
//! order and with which access, and where each decided value is stored. Missing
//! optional keys keep the zero defaults; the reads themselves belong to the
//! metadata reader.

use vstd::prelude::*;

use crate::loader::hparams::Operation;

use super::Parameters;

verus! {

/// Number of reads in the schedule.
pub const HPARAM_READ_COUNT: usize = 18;

/// Reads below this index fill integer fields; the others fill 32-bit float fields.
pub const HPARAM_INTEGER_READS: usize = 9;

/// The reads of Llama hyperparameter loading, in order: each key and its access.
pub open spec fn hparam_reads() -> Seq<(Seq<char>, Operation)> {
    seq![
        ("llama.context_length"@, Operation::OptionalI32),
        ("llama.embedding_length"@, Operation::OptionalI32),
        ("llama.embedding_length_out"@, Operation::OptionalI32),
        ("llama.feed_forward_length"@, Operation::OptionalI32),
        ("llama.attention.head_count"@, Operation::OptionalI32),
        ("llama.attention.head_count_kv"@, Operation::OptionalI32),
        ("llama.rope.dimension_count"@, Operation::OptionalI32),
        ("llama.block_count"@, Operation::OptionalI32),
        ("llama.vocab_size"@, Operation::OptionalI32),
        ("llama.attention.layer_norm_epsilon"@, Operation::OptionalF32),
        ("llama.attention.layer_norm_rms_epsilon"@, Operation::OptionalF32),
        ("llama.attention.clamp_kqv"@, Operation::OptionalF32),
        ("llama.attn_logit_softcapping"@, Operation::OptionalF32),
        ("llama.final_logit_softcapping"@, Operation::OptionalF32),
        ("llama.residual_scale"@, Operation::OptionalF32),
        ("llama.embedding_scale"@, Operation::OptionalF32),
        ("llama.rope.freq_base"@, Operation::OptionalF32),
        ("llama.rope.freq_base_swa"@, Operation::OptionalF32)
    ]
}

/// The key and access of read `index` of the schedule.
pub fn hparam_read(index: usize) -> (read: (&'static str, Operation))
    requires
        index < HPARAM_READ_COUNT,
    ensures
        (read.0@, read.1) == hparam_reads()[index as int],
{
    match index {
        0 => ("llama.context_length", Operation::OptionalI32),
        1 => ("llama.embedding_length", Operation::OptionalI32),
        2 => ("llama.embedding_length_out", Operation::OptionalI32),
        3 => ("llama.feed_forward_length", Operation::OptionalI32),
        4 => ("llama.attention.head_count", Operation::OptionalI32),
        5 => ("llama.attention.head_count_kv", Operation::OptionalI32),
        6 => ("llama.rope.dimension_count", Operation::OptionalI32),
        7 => ("llama.block_count", Operation::OptionalI32),
        8 => ("llama.vocab_size", Operation::OptionalI32),
        9 => ("llama.attention.layer_norm_epsilon", Operation::OptionalF32),
        10 => ("llama.attention.layer_norm_rms_epsilon", Operation::OptionalF32),
        11 => ("llama.attention.clamp_kqv", Operation::OptionalF32),
        12 => ("llama.attn_logit_softcapping", Operation::OptionalF32),
        13 => ("llama.final_logit_softcapping", Operation::OptionalF32),
        14 => ("llama.residual_scale", Operation::OptionalF32),
        15 => ("llama.embedding_scale", Operation::OptionalF32),
        16 => ("llama.rope.freq_base", Operation::OptionalF32),
        _ => ("llama.rope.freq_base_swa", Operation::OptionalF32),
    }
}

/// The parameters with integer read `index` stored.
pub open spec fn with_integer_hparam(p: Parameters, index: int, value: i32) -> Parameters {
    if index == 0 {
        Parameters { context_length: value, ..p }
    } else if index == 1 {
        Parameters { embedding_length: value, ..p }
    } else if index == 2 {
        Parameters { embedding_length_out: value, ..p }
    } else if index == 3 {
        Parameters { feed_forward_length: value, ..p }
    } else if index == 4 {
        Parameters { attention_head_count: value, ..p }
    } else if index == 5 {
        Parameters { attention_head_count_kv: value, ..p }
    } else if index == 6 {
        Parameters { rope_dimension_count: value, ..p }
    } else if index == 7 {
        Parameters { block_count: value, ..p }
    } else {
        Parameters { vocab_size: value, ..p }
    }
}

/// The parameters with float read `index` stored as its bit pattern.
pub open spec fn with_float_hparam(p: Parameters, index: int, bits: u32) -> Parameters {
    if index == 9 {
        Parameters { attention_layer_norm_epsilon_bits: bits, ..p }
    } else if index == 10 {
        Parameters { attention_layer_norm_rms_epsilon_bits: bits, ..p }
    } else if index == 11 {
        Parameters { attention_clamp_kqv_bits: bits, ..p }
    } else if index == 12 {
        Parameters { attn_logit_softcapping_bits: bits, ..p }
    } else if index == 13 {
        Parameters { final_logit_softcapping_bits: bits, ..p }
    } else if index == 14 {
        Parameters { residual_scale_bits: bits, ..p }
    } else if index == 15 {
        Parameters { embedding_scale_bits: bits, ..p }
    } else if index == 16 {
        Parameters { rope_freq_base_bits: bits, ..p }
    } else {
        Parameters { rope_freq_base_swa_bits: bits, ..p }
    }
}

impl Parameters {
    /// Stores the value decided for integer read `index`.
    pub fn assign_integer_hparam(&mut self, index: usize, value: i32)
        requires
            index < HPARAM_INTEGER_READS,
        ensures
            *final(self) == with_integer_hparam(*old(self), index as int, value),
    {
        match index {
            0 => self.context_length = value,
            1 => self.embedding_length = value,
            2 => self.embedding_length_out = value,
            3 => self.feed_forward_length = value,
            4 => self.attention_head_count = value,
            5 => self.attention_head_count_kv = value,
            6 => self.rope_dimension_count = value,
            7 => self.block_count = value,
            _ => self.vocab_size = value,
        }
    }

    /// Stores the bit pattern decided for float read `index`.
    pub fn assign_float_hparam(&mut self, index: usize, bits: u32)
        requires
            HPARAM_INTEGER_READS <= index < HPARAM_READ_COUNT,
        ensures
            *final(self) == with_float_hparam(*old(self), index as int, bits),
    {
        match index {
            9 => self.attention_layer_norm_epsilon_bits = bits,
            10 => self.attention_layer_norm_rms_epsilon_bits = bits,
            11 => self.attention_clamp_kqv_bits = bits,
            12 => self.attn_logit_softcapping_bits = bits,
            13 => self.final_logit_softcapping_bits = bits,
            14 => self.residual_scale_bits = bits,
            15 => self.embedding_scale_bits = bits,
            16 => self.rope_freq_base_bits = bits,
            _ => self.rope_freq_base_swa_bits = bits,
        }
    }
}


/// The integer parameter field each Llama metadata key fills, by key.
pub open spec fn integer_field_named(p: Parameters, key: Seq<char>) -> Option<i32> {
    if key == "llama.context_length"@ {
        Some(p.context_length)
    } else if key == "llama.embedding_length"@ {
        Some(p.embedding_length)
    } else if key == "llama.embedding_length_out"@ {
        Some(p.embedding_length_out)
    } else if key == "llama.feed_forward_length"@ {
        Some(p.feed_forward_length)
    } else if key == "llama.attention.head_count"@ {
        Some(p.attention_head_count)
    } else if key == "llama.attention.head_count_kv"@ {
        Some(p.attention_head_count_kv)
    } else if key == "llama.rope.dimension_count"@ {
        Some(p.rope_dimension_count)
    } else if key == "llama.block_count"@ {
        Some(p.block_count)
    } else if key == "llama.vocab_size"@ {
        Some(p.vocab_size)
    } else {
        None
    }
}

/// The 32-bit float (bit pattern) parameter field each Llama metadata key fills, by key.
pub open spec fn float_field_named(p: Parameters, key: Seq<char>) -> Option<u32> {
    if key == "llama.attention.layer_norm_epsilon"@ {
        Some(p.attention_layer_norm_epsilon_bits)
    } else if key == "llama.attention.layer_norm_rms_epsilon"@ {
        Some(p.attention_layer_norm_rms_epsilon_bits)
    } else if key == "llama.attention.clamp_kqv"@ {
        Some(p.attention_clamp_kqv_bits)
    } else if key == "llama.attn_logit_softcapping"@ {
        Some(p.attn_logit_softcapping_bits)
    } else if key == "llama.final_logit_softcapping"@ {
        Some(p.final_logit_softcapping_bits)
    } else if key == "llama.residual_scale"@ {
        Some(p.residual_scale_bits)
    } else if key == "llama.embedding_scale"@ {
        Some(p.embedding_scale_bits)
    } else if key == "llama.rope.freq_base"@ {
        Some(p.rope_freq_base_bits)
    } else if key == "llama.rope.freq_base_swa"@ {
        Some(p.rope_freq_base_swa_bits)
    } else {
        None
    }
}

/// Each read of the schedule fills the field its key names: storing the value
/// of an integer read sets the integer field named by that read's key and no
/// other named field, and storing the bits of a float read sets the float field
/// named by its key and no other named field.
pub proof fn lemma_reads_fill_their_named_fields(p: Parameters, index: int, value: i32, bits: u32, other: Seq<char>)
    requires
        0 <= index < HPARAM_READ_COUNT,
    ensures
        index < HPARAM_INTEGER_READS ==> {
            let after = with_integer_hparam(p, index, value);
            &&& integer_field_named(after, hparam_reads()[index].0) == Some(value)
            &&& other != hparam_reads()[index].0 ==> integer_field_named(after, other) == integer_field_named(
                p,
                other,
            )
            &&& float_field_named(after, other) == float_field_named(p, other)
        },
        HPARAM_INTEGER_READS <= index ==> {
            let after = with_float_hparam(p, index, bits);
            &&& float_field_named(after, hparam_reads()[index].0) == Some(bits)
            &&& other != hparam_reads()[index].0 ==> float_field_named(after, other) == float_field_named(p, other)
            &&& integer_field_named(after, other) == integer_field_named(p, other)
        },
{
    reveal_strlit("llama.context_length");
    reveal_strlit("llama.embedding_length");
    reveal_strlit("llama.embedding_length_out");
    reveal_strlit("llama.feed_forward_length");
    reveal_strlit("llama.attention.head_count");
    reveal_strlit("llama.attention.head_count_kv");
    reveal_strlit("llama.rope.dimension_count");
    reveal_strlit("llama.block_count");
    reveal_strlit("llama.vocab_size");
    reveal_strlit("llama.attention.layer_norm_epsilon");
    reveal_strlit("llama.attention.layer_norm_rms_epsilon");
    reveal_strlit("llama.attention.clamp_kqv");
    reveal_strlit("llama.attn_logit_softcapping");
    reveal_strlit("llama.final_logit_softcapping");
    reveal_strlit("llama.residual_scale");
    reveal_strlit("llama.embedding_scale");
    reveal_strlit("llama.rope.freq_base");
    reveal_strlit("llama.rope.freq_base_swa");
    assert("llama.context_length"@.len() == 20);
    assert("llama.embedding_length"@.len() == 22);
    assert("llama.embedding_length_out"@.len() == 26);
    assert("llama.feed_forward_length"@.len() == 25);
    assert("llama.attention.head_count"@.len() == 26);
    assert("llama.attention.head_count_kv"@.len() == 29);
    assert("llama.rope.dimension_count"@.len() == 26);
    assert("llama.block_count"@.len() == 17);
    assert("llama.vocab_size"@.len() == 16);
    assert("llama.attention.layer_norm_epsilon"@.len() == 34);
    assert("llama.attention.layer_norm_rms_epsilon"@.len() == 38);
    assert("llama.attention.clamp_kqv"@.len() == 25);
    assert("llama.attn_logit_softcapping"@.len() == 28);
    assert("llama.final_logit_softcapping"@.len() == 29);
    assert("llama.residual_scale"@.len() == 20);
    assert("llama.embedding_scale"@.len() == 21);
    assert("llama.rope.freq_base"@.len() == 20);
    assert("llama.rope.freq_base_swa"@.len() == 24);
    assert("llama.context_length"@[6] == 'c');
    assert("llama.residual_scale"@[6] == 'r');
    assert("llama.context_length"@[6] == 'c');
    assert("llama.rope.freq_base"@[6] == 'r');
    assert("llama.embedding_length_out"@[6] == 'e');
    assert("llama.attention.head_count"@[6] == 'a');
    assert("llama.embedding_length_out"@[6] == 'e');
    assert("llama.rope.dimension_count"@[6] == 'r');
    assert("llama.feed_forward_length"@[6] == 'f');
    assert("llama.attention.clamp_kqv"@[6] == 'a');
    assert("llama.attention.head_count"@[6] == 'a');
    assert("llama.rope.dimension_count"@[6] == 'r');
    assert("llama.attention.head_count_kv"@[6] == 'a');
    assert("llama.final_logit_softcapping"@[6] == 'f');
    assert("llama.residual_scale"@[7] == 'e');
    assert("llama.rope.freq_base"@[7] == 'o');
}

} // verus!
