//! Serialized tensor element types and their on-disk wire codes.

use vstd::prelude::*;

verus! {

/// A serialized tensor element type as recorded in model files.
#[allow(non_camel_case_types)]
#[derive(Clone, Copy, Debug, PartialEq, Eq, Structural)]
pub enum SerializedType {
    F32,
    F16,
    Q4_0,
    Q4_1,
    Q5_0,
    Q5_1,
    Q8_0,
    Q8_1,
    Q2K,
    Q3K,
    Q4K,
    Q5K,
    Q6K,
    Q8K,
    Iq2Xxs,
    Iq2Xs,
    Iq3Xxs,
    Iq1S,
    Iq4Nl,
    Iq3S,
    Iq2S,
    Iq4Xs,
    I8,
    I16,
    I32,
    I64,
    F64,
    Iq1M,
    Bf16,
    Tq1_0,
    Tq2_0,
    Mxfp4,
}

/// The wire code of each serialized type.
pub open spec fn spec_wire_code(tensor_type: SerializedType) -> u32 {
    match tensor_type {
        SerializedType::F32 => 0,
        SerializedType::F16 => 1,
        SerializedType::Q4_0 => 2,
        SerializedType::Q4_1 => 3,
        SerializedType::Q5_0 => 6,
        SerializedType::Q5_1 => 7,
        SerializedType::Q8_0 => 8,
        SerializedType::Q8_1 => 9,
        SerializedType::Q2K => 10,
        SerializedType::Q3K => 11,
        SerializedType::Q4K => 12,
        SerializedType::Q5K => 13,
        SerializedType::Q6K => 14,
        SerializedType::Q8K => 15,
        SerializedType::Iq2Xxs => 16,
        SerializedType::Iq2Xs => 17,
        SerializedType::Iq3Xxs => 18,
        SerializedType::Iq1S => 19,
        SerializedType::Iq4Nl => 20,
        SerializedType::Iq3S => 21,
        SerializedType::Iq2S => 22,
        SerializedType::Iq4Xs => 23,
        SerializedType::I8 => 24,
        SerializedType::I16 => 25,
        SerializedType::I32 => 26,
        SerializedType::I64 => 27,
        SerializedType::F64 => 28,
        SerializedType::Iq1M => 29,
        SerializedType::Bf16 => 30,
        SerializedType::Tq1_0 => 34,
        SerializedType::Tq2_0 => 35,
        SerializedType::Mxfp4 => 39,
    }
}

/// The serialized type with wire code `code`, if the code is assigned.
pub open spec fn spec_from_wire_code(code: u32) -> Option<SerializedType> {
    if code == 0 {
        Some(SerializedType::F32)
    } else if code == 1 {
        Some(SerializedType::F16)
    } else if code == 2 {
        Some(SerializedType::Q4_0)
    } else if code == 3 {
        Some(SerializedType::Q4_1)
    } else if code == 6 {
        Some(SerializedType::Q5_0)
    } else if code == 7 {
        Some(SerializedType::Q5_1)
    } else if code == 8 {
        Some(SerializedType::Q8_0)
    } else if code == 9 {
        Some(SerializedType::Q8_1)
    } else if code == 10 {
        Some(SerializedType::Q2K)
    } else if code == 11 {
        Some(SerializedType::Q3K)
    } else if code == 12 {
        Some(SerializedType::Q4K)
    } else if code == 13 {
        Some(SerializedType::Q5K)
    } else if code == 14 {
        Some(SerializedType::Q6K)
    } else if code == 15 {
        Some(SerializedType::Q8K)
    } else if code == 16 {
        Some(SerializedType::Iq2Xxs)
    } else if code == 17 {
        Some(SerializedType::Iq2Xs)
    } else if code == 18 {
        Some(SerializedType::Iq3Xxs)
    } else if code == 19 {
        Some(SerializedType::Iq1S)
    } else if code == 20 {
        Some(SerializedType::Iq4Nl)
    } else if code == 21 {
        Some(SerializedType::Iq3S)
    } else if code == 22 {
        Some(SerializedType::Iq2S)
    } else if code == 23 {
        Some(SerializedType::Iq4Xs)
    } else if code == 24 {
        Some(SerializedType::I8)
    } else if code == 25 {
        Some(SerializedType::I16)
    } else if code == 26 {
        Some(SerializedType::I32)
    } else if code == 27 {
        Some(SerializedType::I64)
    } else if code == 28 {
        Some(SerializedType::F64)
    } else if code == 29 {
        Some(SerializedType::Iq1M)
    } else if code == 30 {
        Some(SerializedType::Bf16)
    } else if code == 34 {
        Some(SerializedType::Tq1_0)
    } else if code == 35 {
        Some(SerializedType::Tq2_0)
    } else if code == 39 {
        Some(SerializedType::Mxfp4)
    } else {
        None
    }
}

impl SerializedType {
    /// Decodes a wire code; unassigned codes are rejected.
    pub fn from_wire_code(code: u32) -> (tensor_type: Option<SerializedType>)
        ensures
            tensor_type == spec_from_wire_code(code),
    {
        if code == 0 {
            Some(SerializedType::F32)
        } else if code == 1 {
            Some(SerializedType::F16)
        } else if code == 2 {
            Some(SerializedType::Q4_0)
        } else if code == 3 {
            Some(SerializedType::Q4_1)
        } else if code == 6 {
            Some(SerializedType::Q5_0)
        } else if code == 7 {
            Some(SerializedType::Q5_1)
        } else if code == 8 {
            Some(SerializedType::Q8_0)
        } else if code == 9 {
            Some(SerializedType::Q8_1)
        } else if code == 10 {
            Some(SerializedType::Q2K)
        } else if code == 11 {
            Some(SerializedType::Q3K)
        } else if code == 12 {
            Some(SerializedType::Q4K)
        } else if code == 13 {
            Some(SerializedType::Q5K)
        } else if code == 14 {
            Some(SerializedType::Q6K)
        } else if code == 15 {
            Some(SerializedType::Q8K)
        } else if code == 16 {
            Some(SerializedType::Iq2Xxs)
        } else if code == 17 {
            Some(SerializedType::Iq2Xs)
        } else if code == 18 {
            Some(SerializedType::Iq3Xxs)
        } else if code == 19 {
            Some(SerializedType::Iq1S)
        } else if code == 20 {
            Some(SerializedType::Iq4Nl)
        } else if code == 21 {
            Some(SerializedType::Iq3S)
        } else if code == 22 {
            Some(SerializedType::Iq2S)
        } else if code == 23 {
            Some(SerializedType::Iq4Xs)
        } else if code == 24 {
            Some(SerializedType::I8)
        } else if code == 25 {
            Some(SerializedType::I16)
        } else if code == 26 {
            Some(SerializedType::I32)
        } else if code == 27 {
            Some(SerializedType::I64)
        } else if code == 28 {
            Some(SerializedType::F64)
        } else if code == 29 {
            Some(SerializedType::Iq1M)
        } else if code == 30 {
            Some(SerializedType::Bf16)
        } else if code == 34 {
            Some(SerializedType::Tq1_0)
        } else if code == 35 {
            Some(SerializedType::Tq2_0)
        } else if code == 39 {
            Some(SerializedType::Mxfp4)
        } else {
            None
        }
    }

    /// The wire code recorded for this type.
    pub fn wire_code(self) -> (code: u32)
        ensures
            code == spec_wire_code(self),
    {
        match self {
            SerializedType::F32 => 0,
            SerializedType::F16 => 1,
            SerializedType::Q4_0 => 2,
            SerializedType::Q4_1 => 3,
            SerializedType::Q5_0 => 6,
            SerializedType::Q5_1 => 7,
            SerializedType::Q8_0 => 8,
            SerializedType::Q8_1 => 9,
            SerializedType::Q2K => 10,
            SerializedType::Q3K => 11,
            SerializedType::Q4K => 12,
            SerializedType::Q5K => 13,
            SerializedType::Q6K => 14,
            SerializedType::Q8K => 15,
            SerializedType::Iq2Xxs => 16,
            SerializedType::Iq2Xs => 17,
            SerializedType::Iq3Xxs => 18,
            SerializedType::Iq1S => 19,
            SerializedType::Iq4Nl => 20,
            SerializedType::Iq3S => 21,
            SerializedType::Iq2S => 22,
            SerializedType::Iq4Xs => 23,
            SerializedType::I8 => 24,
            SerializedType::I16 => 25,
            SerializedType::I32 => 26,
            SerializedType::I64 => 27,
            SerializedType::F64 => 28,
            SerializedType::Iq1M => 29,
            SerializedType::Bf16 => 30,
            SerializedType::Tq1_0 => 34,
            SerializedType::Tq2_0 => 35,
            SerializedType::Mxfp4 => 39,
        }
    }
}

/// Decoding a type's wire code yields the type, and every decoded code is the type's wire code.
pub proof fn lemma_wire_code_round_trip(tensor_type: SerializedType, code: u32)
    ensures
        spec_from_wire_code(spec_wire_code(tensor_type)) == Some(tensor_type),
        spec_from_wire_code(code) == Some(tensor_type) ==> spec_wire_code(tensor_type) == code,
{
}

/// The model-file type table: each wire code names the type the GGML/GGUF type
/// table assigns it (0 F32, 1 F16, 2 Q4_0, 3 Q4_1, 6 Q5_0, 7 Q5_1, 8 Q8_0, 9 Q8_1,
/// 10 to 15 the K quantizations, 16 to 23 and 29 the IQ quantizations, 24 to 27
/// the integers, 28 F64, 30 BF16, 34 and 35 the ternary types, 39 MXFP4), each
/// type's wire code is its code in that table, and the retired codes 4, 5, 31 to
/// 33 and 36 to 38, and every code past 39, name no type.
pub proof fn lemma_wire_code_table(code: u32)
    ensures
        spec_from_wire_code(0) == Some(SerializedType::F32),
        spec_wire_code(SerializedType::F32) == 0,
        spec_from_wire_code(1) == Some(SerializedType::F16),
        spec_wire_code(SerializedType::F16) == 1,
        spec_from_wire_code(2) == Some(SerializedType::Q4_0),
        spec_wire_code(SerializedType::Q4_0) == 2,
        spec_from_wire_code(3) == Some(SerializedType::Q4_1),
        spec_wire_code(SerializedType::Q4_1) == 3,
        spec_from_wire_code(6) == Some(SerializedType::Q5_0),
        spec_wire_code(SerializedType::Q5_0) == 6,
        spec_from_wire_code(7) == Some(SerializedType::Q5_1),
        spec_wire_code(SerializedType::Q5_1) == 7,
        spec_from_wire_code(8) == Some(SerializedType::Q8_0),
        spec_wire_code(SerializedType::Q8_0) == 8,
        spec_from_wire_code(9) == Some(SerializedType::Q8_1),
        spec_wire_code(SerializedType::Q8_1) == 9,
        spec_from_wire_code(10) == Some(SerializedType::Q2K),
        spec_wire_code(SerializedType::Q2K) == 10,
        spec_from_wire_code(11) == Some(SerializedType::Q3K),
        spec_wire_code(SerializedType::Q3K) == 11,
        spec_from_wire_code(12) == Some(SerializedType::Q4K),
        spec_wire_code(SerializedType::Q4K) == 12,
        spec_from_wire_code(13) == Some(SerializedType::Q5K),
        spec_wire_code(SerializedType::Q5K) == 13,
        spec_from_wire_code(14) == Some(SerializedType::Q6K),
        spec_wire_code(SerializedType::Q6K) == 14,
        spec_from_wire_code(15) == Some(SerializedType::Q8K),
        spec_wire_code(SerializedType::Q8K) == 15,
        spec_from_wire_code(16) == Some(SerializedType::Iq2Xxs),
        spec_wire_code(SerializedType::Iq2Xxs) == 16,
        spec_from_wire_code(17) == Some(SerializedType::Iq2Xs),
        spec_wire_code(SerializedType::Iq2Xs) == 17,
        spec_from_wire_code(18) == Some(SerializedType::Iq3Xxs),
        spec_wire_code(SerializedType::Iq3Xxs) == 18,
        spec_from_wire_code(19) == Some(SerializedType::Iq1S),
        spec_wire_code(SerializedType::Iq1S) == 19,
        spec_from_wire_code(20) == Some(SerializedType::Iq4Nl),
        spec_wire_code(SerializedType::Iq4Nl) == 20,
        spec_from_wire_code(21) == Some(SerializedType::Iq3S),
        spec_wire_code(SerializedType::Iq3S) == 21,
        spec_from_wire_code(22) == Some(SerializedType::Iq2S),
        spec_wire_code(SerializedType::Iq2S) == 22,
        spec_from_wire_code(23) == Some(SerializedType::Iq4Xs),
        spec_wire_code(SerializedType::Iq4Xs) == 23,
        spec_from_wire_code(24) == Some(SerializedType::I8),
        spec_wire_code(SerializedType::I8) == 24,
        spec_from_wire_code(25) == Some(SerializedType::I16),
        spec_wire_code(SerializedType::I16) == 25,
        spec_from_wire_code(26) == Some(SerializedType::I32),
        spec_wire_code(SerializedType::I32) == 26,
        spec_from_wire_code(27) == Some(SerializedType::I64),
        spec_wire_code(SerializedType::I64) == 27,
        spec_from_wire_code(28) == Some(SerializedType::F64),
        spec_wire_code(SerializedType::F64) == 28,
        spec_from_wire_code(29) == Some(SerializedType::Iq1M),
        spec_wire_code(SerializedType::Iq1M) == 29,
        spec_from_wire_code(30) == Some(SerializedType::Bf16),
        spec_wire_code(SerializedType::Bf16) == 30,
        spec_from_wire_code(34) == Some(SerializedType::Tq1_0),
        spec_wire_code(SerializedType::Tq1_0) == 34,
        spec_from_wire_code(35) == Some(SerializedType::Tq2_0),
        spec_wire_code(SerializedType::Tq2_0) == 35,
        spec_from_wire_code(39) == Some(SerializedType::Mxfp4),
        spec_wire_code(SerializedType::Mxfp4) == 39,
        spec_from_wire_code(code) is Some ==> code <= 3 || (6 <= code <= 30) || code == 34 || code == 35 || code
            == 39,
{
}

} // verus!
