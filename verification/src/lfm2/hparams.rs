//! The LFM2 hyperparameter schedule: which metadata keys are read, in which
//! order and with which access, and where each decided value is stored. The
//! KV-head array is read twice: its first nonzero element is the shared KV-head
//! count, and every element becomes a per-layer attention flag, copied into
//! `attention_layer_pattern_flags`. Missing optional keys keep the zero defaults.

use vstd::prelude::*;

use crate::loader::hparams::Operation;

use super::Parameters;

verus! {

/// Number of reads in the schedule.
pub const HPARAM_READ_COUNT: usize = 11;

/// The reads of LFM2 hyperparameter loading, in order: each key and its access.
pub open spec fn hparam_reads() -> Seq<(Seq<char>, Operation)> {
    seq![
        ("lfm2.context_length"@, Operation::OptionalI32),
        ("lfm2.embedding_length"@, Operation::OptionalI32),
        ("lfm2.feed_forward_length"@, Operation::OptionalI32),
        ("lfm2.attention.head_count"@, Operation::OptionalI32),
        ("lfm2.block_count"@, Operation::OptionalI32),
        ("lfm2.vocab_size"@, Operation::OptionalI32),
        ("lfm2.shortconv.l_cache"@, Operation::OptionalI32),
        ("lfm2.attention.layer_norm_rms_epsilon"@, Operation::OptionalF32),
        ("lfm2.rope.freq_base"@, Operation::OptionalF32),
        ("lfm2.attention.head_count_kv"@, Operation::RequiredFirstNonzeroArray),
        ("lfm2.attention.head_count_kv"@, Operation::RequiredFlagArray)
    ]
}

/// The key and access of read `index` of the schedule.
pub fn hparam_read(index: usize) -> (read: (&'static str, Operation))
    requires
        index < HPARAM_READ_COUNT,
    ensures
        (read.0@, read.1) == hparam_reads()[index as int],
{
    match index {
        0 => ("lfm2.context_length", Operation::OptionalI32),
        1 => ("lfm2.embedding_length", Operation::OptionalI32),
        2 => ("lfm2.feed_forward_length", Operation::OptionalI32),
        3 => ("lfm2.attention.head_count", Operation::OptionalI32),
        4 => ("lfm2.block_count", Operation::OptionalI32),
        5 => ("lfm2.vocab_size", Operation::OptionalI32),
        6 => ("lfm2.shortconv.l_cache", Operation::OptionalI32),
        7 => ("lfm2.attention.layer_norm_rms_epsilon", Operation::OptionalF32),
        8 => ("lfm2.rope.freq_base", Operation::OptionalF32),
        9 => ("lfm2.attention.head_count_kv", Operation::RequiredFirstNonzeroArray),
        _ => ("lfm2.attention.head_count_kv", Operation::RequiredFlagArray),
    }
}

/// The parameters with the value of integer read `index` stored.
pub open spec fn with_integer_hparam(p: Parameters, index: int, value: i32) -> Parameters {
    if index == 0 {
        Parameters { context_length: value, ..p }
    } else if index == 1 {
        Parameters { embedding_length: value, ..p }
    } else if index == 2 {
        Parameters { feed_forward_length: value, ..p }
    } else if index == 3 {
        Parameters { attention_head_count: value, ..p }
    } else if index == 4 {
        Parameters { block_count: value, ..p }
    } else if index == 5 {
        Parameters { vocab_size: value, ..p }
    } else if index == 6 {
        Parameters { shortconv_l_cache: value, ..p }
    } else {
        Parameters { attention_head_count_kv: value, ..p }
    }
}

/// The parameters with the bit pattern of float read `index` stored.
pub open spec fn with_float_hparam(p: Parameters, index: int, bits: u32) -> Parameters {
    if index == 7 {
        Parameters { attention_layer_norm_rms_epsilon_bits: bits, ..p }
    } else {
        Parameters { rope_freq_base_bits: bits, ..p }
    }
}

impl Parameters {
    /// Stores the value decided for integer read `index`.
    pub fn assign_integer_hparam(&mut self, index: usize, value: i32)
        requires
            index < 7 || index == 9,
        ensures
            *final(self) == with_integer_hparam(*old(self), index as int, value),
    {
        match index {
            0 => self.context_length = value,
            1 => self.embedding_length = value,
            2 => self.feed_forward_length = value,
            3 => self.attention_head_count = value,
            4 => self.block_count = value,
            5 => self.vocab_size = value,
            6 => self.shortconv_l_cache = value,
            _ => self.attention_head_count_kv = value,
        }
    }

    /// Stores the bit pattern decided for float read `index`.
    pub fn assign_float_hparam(&mut self, index: usize, bits: u32)
        requires
            7 <= index <= 8,
        ensures
            *final(self) == with_float_hparam(*old(self), index as int, bits),
    {
        match index {
            7 => self.attention_layer_norm_rms_epsilon_bits = bits,
            _ => self.rope_freq_base_bits = bits,
        }
    }

    /// Completes loading once every read succeeded: records the number of copied
    /// attention flags and takes the output embedding width from the input one.
    pub fn finish_hparams(&mut self, pattern_count: u32)
        ensures
            *final(self) == (Parameters {
                embedding_length_out: old(self).embedding_length,
                attention_layer_pattern_count: pattern_count,
                ..*old(self)
            }),
    {
        self.attention_layer_pattern_count = pattern_count;
        self.embedding_length_out = self.embedding_length;
    }
}


/// The integer parameter field each LFM2 metadata key fills, by key.
pub open spec fn integer_field_named(p: Parameters, key: Seq<char>) -> Option<i32> {
    if key == "lfm2.context_length"@ {
        Some(p.context_length)
    } else if key == "lfm2.embedding_length"@ {
        Some(p.embedding_length)
    } else if key == "lfm2.feed_forward_length"@ {
        Some(p.feed_forward_length)
    } else if key == "lfm2.attention.head_count"@ {
        Some(p.attention_head_count)
    } else if key == "lfm2.block_count"@ {
        Some(p.block_count)
    } else if key == "lfm2.vocab_size"@ {
        Some(p.vocab_size)
    } else if key == "lfm2.shortconv.l_cache"@ {
        Some(p.shortconv_l_cache)
    } else if key == "lfm2.attention.head_count_kv"@ {
        Some(p.attention_head_count_kv)
    } else {
        None
    }
}

/// The 32-bit float (bit pattern) parameter field each LFM2 metadata key fills, by key.
pub open spec fn float_field_named(p: Parameters, key: Seq<char>) -> Option<u32> {
    if key == "lfm2.attention.layer_norm_rms_epsilon"@ {
        Some(p.attention_layer_norm_rms_epsilon_bits)
    } else if key == "lfm2.rope.freq_base"@ {
        Some(p.rope_freq_base_bits)
    } else {
        None
    }
}

/// Each read of the schedule fills the field its key names: storing the value
/// of an integer read sets the integer field named by that read's key and no
/// other named field, and storing the bits of a float read sets the float field
/// named by its key and no other named field.
pub proof fn lemma_reads_fill_their_named_fields(p: Parameters, index: int, value: i32, bits: u32, other: Seq<char>)
    requires
        0 <= index < HPARAM_READ_COUNT,
    ensures
        index < 7 || index == 9 ==> {
            let after = with_integer_hparam(p, index, value);
            &&& integer_field_named(after, hparam_reads()[index].0) == Some(value)
            &&& other != hparam_reads()[index].0 ==> integer_field_named(after, other) == integer_field_named(
                p,
                other,
            )
            &&& float_field_named(after, other) == float_field_named(p, other)
        },
        7 <= index <= 8 ==> {
            let after = with_float_hparam(p, index, bits);
            &&& float_field_named(after, hparam_reads()[index].0) == Some(bits)
            &&& other != hparam_reads()[index].0 ==> float_field_named(after, other) == float_field_named(p, other)
            &&& integer_field_named(after, other) == integer_field_named(p, other)
        },
{
    reveal_strlit("lfm2.context_length");
    reveal_strlit("lfm2.embedding_length");
    reveal_strlit("lfm2.feed_forward_length");
    reveal_strlit("lfm2.attention.head_count");
    reveal_strlit("lfm2.block_count");
    reveal_strlit("lfm2.vocab_size");
    reveal_strlit("lfm2.shortconv.l_cache");
    reveal_strlit("lfm2.attention.head_count_kv");
    reveal_strlit("lfm2.attention.layer_norm_rms_epsilon");
    reveal_strlit("lfm2.rope.freq_base");
    assert("lfm2.context_length"@.len() == 19);
    assert("lfm2.embedding_length"@.len() == 21);
    assert("lfm2.feed_forward_length"@.len() == 24);
    assert("lfm2.attention.head_count"@.len() == 25);
    assert("lfm2.block_count"@.len() == 16);
    assert("lfm2.vocab_size"@.len() == 15);
    assert("lfm2.shortconv.l_cache"@.len() == 22);
    assert("lfm2.attention.head_count_kv"@.len() == 28);
    assert("lfm2.attention.layer_norm_rms_epsilon"@.len() == 37);
    assert("lfm2.rope.freq_base"@.len() == 19);
    assert("lfm2.context_length"@[5] == 'c');
    assert("lfm2.rope.freq_base"@[5] == 'r');
}

} // verus!
