//! Label values for generation quantization audit output.

use vstd::prelude::*;

verus! {

/// A generation-audit tensor-type label chosen by an owning state machine.
#[allow(non_camel_case_types)]
#[derive(Clone, Copy, Debug, PartialEq, Eq, Structural)]
pub enum TensorTypeLabel {
    /// Dense 32-bit floating point.
    F32,
    /// Two-bit K-block quantization.
    Q2_K,
    /// Three-bit K-block quantization.
    Q3_K,
    /// Four-bit K-block quantization.
    Q4_K,
    /// Six-bit K-block quantization.
    Q6_K,
    /// Four-bit legacy block quantization.
    Q4_0,
    /// The label for every unclassified tensor type.
    UNKNOWN,
}

/// The text of each label.
pub open spec fn spec_label_text(label: TensorTypeLabel) -> Seq<char> {
    match label {
        TensorTypeLabel::F32 => "f32"@,
        TensorTypeLabel::Q2_K => "q2_k"@,
        TensorTypeLabel::Q3_K => "q3_k"@,
        TensorTypeLabel::Q4_K => "q4_k"@,
        TensorTypeLabel::Q6_K => "q6_k"@,
        TensorTypeLabel::Q4_0 => "q4_0"@,
        TensorTypeLabel::UNKNOWN => "unknown"@,
    }
}

impl TensorTypeLabel {
    /// Returns the immutable label text.
    pub fn as_str(self) -> (label: &'static str)
        ensures
            label@ == spec_label_text(self),
    {
        match self {
            TensorTypeLabel::F32 => "f32",
            TensorTypeLabel::Q2_K => "q2_k",
            TensorTypeLabel::Q3_K => "q3_k",
            TensorTypeLabel::Q4_K => "q4_k",
            TensorTypeLabel::Q6_K => "q6_k",
            TensorTypeLabel::Q4_0 => "q4_0",
            TensorTypeLabel::UNKNOWN => "unknown",
        }
    }
}

} // verus!
