use emel_model::generation_audit::TensorTypeLabel;

#[test]
fn labels_are_source_exact_data_without_runtime_dtype_classification() {
    assert_eq!(TensorTypeLabel::F32.as_str(), "f32");
    assert_eq!(TensorTypeLabel::Q2_K.as_str(), "q2_k");
    assert_eq!(TensorTypeLabel::Q3_K.as_str(), "q3_k");
    assert_eq!(TensorTypeLabel::Q4_K.as_str(), "q4_k");
    assert_eq!(TensorTypeLabel::Q6_K.as_str(), "q6_k");
    assert_eq!(TensorTypeLabel::Q4_0.as_str(), "q4_0");
    assert_eq!(TensorTypeLabel::UNKNOWN.as_str(), "unknown");
}
