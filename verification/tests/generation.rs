use allocation_counter::measure;
use emel_model::catalog::{BindStorage, Catalog, ModelIdentity, SealModel, Storage as CatalogStorage, TensorInput};
use emel_model::generation::builder::compose_block_name;
use emel_model::generation::event::{
    AttentionBlock, BlockAudit, BlockFamily, BlockTensorSlot, BlockValidation, BlockVisit, ContractBegin,
    ContractReset, ContractVisit, Error, GlobalBindings, Plan, RejectBlockTensors, ShortconvBlock, StageAudit,
    Storage, StorageBind, StorageRelease, Topology,
};
use emel_model::generation::quantized_path::{Outcome, Query, Resolver, Scope};
use emel_model::generation::{
    tensor_type_name, AttentionQkNormRoute, AttentionVNormRoute, AttentionValueRoute, AttentionWindowRoute, Builder,
    LayerExecution, QuantizedContractKind, QuantizedStageFamily, ResidualRoute, StepKind,
};
use emel_model::tensor_type::SerializedType;
use std::sync::atomic::{AtomicU64, Ordering};

static NEXT_OWNER: AtomicU64 = AtomicU64::new(1);

const TENSORS: [&[u8]; 14] = [
    b"token_embd.weight",
    b"output_norm.weight",
    b"output.weight",
    b"blk.0.attn_norm.weight",
    b"blk.0.attn_q.weight",
    b"blk.0.attn_k.weight",
    b"blk.0.attn_v.weight",
    b"blk.0.attn_q_norm.weight",
    b"blk.0.attn_k_norm.weight",
    b"blk.0.attn_output.weight",
    b"blk.0.ffn_norm.weight",
    b"blk.0.ffn_gate.weight",
    b"blk.0.ffn_down.weight",
    b"blk.0.ffn_up.weight",
];

fn catalog_with(storage: CatalogStorage) -> (Catalog, ModelIdentity) {
    let mut catalog = Catalog::with_owner(NEXT_OWNER.fetch_add(1, Ordering::Relaxed));
    catalog.bind_storage(BindStorage::new(storage)).unwrap();
    let model = catalog.seal_model(SealModel::new()).unwrap();
    (catalog, model)
}

fn actor() -> (Builder, ModelIdentity) {
    actor_with(&TENSORS)
}

fn actor_with(names: &[&[u8]]) -> (Builder, ModelIdentity) {
    let name_bytes = names.iter().map(|name| name.len()).sum();
    let mut storage = CatalogStorage::with_capacity(names.len(), name_bytes, names.len()).unwrap();
    for (index, name) in names.iter().enumerate() {
        let wire_type = if index == 0 {
            10
        } else if matches!(index, 1 | 3 | 7 | 8 | 10) {
            0
        } else {
            14
        };
        let data_size = if wire_type == 0 {
            4
        } else if wire_type == 10 {
            84
        } else {
            210
        };
        let dimensions = if wire_type == 0 { [1, 1, 1, 1] } else { [256, 1, 1, 1] };
        storage.push_tensor(TensorInput::new(name, wire_type, 1, dimensions, data_size, true)).unwrap();
    }
    let (catalog, model) = catalog_with(storage);
    (Builder::new(catalog, Resolver::new()), model)
}

fn actor_with_typed(tensors: &[(&[u8], u32)]) -> (Builder, ModelIdentity) {
    let name_bytes = tensors.iter().map(|(name, _)| name.len()).sum();
    let mut storage = CatalogStorage::with_capacity(tensors.len(), name_bytes, tensors.len()).unwrap();
    for (name, wire_type) in tensors {
        let (dimensions, data_size) = match wire_type {
            0 => ([1, 1, 1, 1], 4),
            10 => ([256, 1, 1, 1], 84),
            14 => ([256, 1, 1, 1], 210),
            _ => unreachable!("focused fixture type"),
        };
        storage.push_tensor(TensorInput::new(name, *wire_type, 1, dimensions, data_size, true)).unwrap();
    }
    let (catalog, model) = catalog_with(storage);
    (Builder::new(catalog, Resolver::new()), model)
}

fn shortconv_layer() -> LayerExecution {
    LayerExecution::new(
        ResidualRoute::Shortconv,
        AttentionQkNormRoute::NoNorm,
        AttentionValueRoute::DedicatedValue,
        AttentionVNormRoute::NoNorm,
        AttentionWindowRoute::FullContext,
        0,
        0,
        0,
        0.0f32.to_bits(),
    )
}

fn layer() -> LayerExecution {
    LayerExecution::new(
        ResidualRoute::Attention,
        AttentionQkNormRoute::HeadwiseRms,
        AttentionValueRoute::DedicatedValue,
        AttentionVNormRoute::NoNorm,
        AttentionWindowRoute::FullContext,
        128,
        128,
        128,
        10_000.0f32.to_bits(),
    )
}

fn begin(builder: &mut Builder, model: ModelIdentity, blocks: i32, context: i32, tied: bool) {
    builder.storage_bind(StorageBind::new(Storage::with_block_capacity(blocks as usize).unwrap())).unwrap();
    builder.contract_begin(ContractBegin::new(model, blocks, context)).unwrap();
    builder.global_bindings(GlobalBindings::new(b"token_embd.weight", b"output_norm.weight", tied)).unwrap();
}

fn finish_stages(builder: &mut Builder) {
    for family in QuantizedStageFamily::ALL {
        builder.stage_audit(StageAudit::new(family)).unwrap();
    }
}

fn complete(builder: &mut Builder, model: ModelIdentity) {
    builder.storage_bind(StorageBind::new(Storage::with_block_capacity(1).unwrap())).unwrap();
    builder.contract_begin(ContractBegin::new(model, 1, 4096)).unwrap();
    builder.global_bindings(GlobalBindings::new(b"token_embd.weight", b"output_norm.weight", false)).unwrap();
    builder.attention_block(AttentionBlock::new(0, layer())).unwrap();
    builder.topology(Topology::new(13, 13, 4, 13 * 128 * 4)).unwrap();
    builder.plan(Plan::new()).unwrap();
    builder.block_validation(BlockValidation::new(0)).unwrap();
    builder.block_audit(BlockAudit::new(0)).unwrap();
    finish_stages(builder);
}

#[test]
fn matrix_q4k_is_native_and_vector_native_is_dense_f32() {
    let mut resolver = Resolver::new();
    assert_eq!(
        resolver.process_event(Query::new(Scope::MatrixWeightContract, SerializedType::Q4K)),
        Ok(Outcome::NativeQuantized)
    );
    assert_eq!(
        resolver.process_event(Query::new(Scope::VectorDequantContract, SerializedType::Q4K)),
        Ok(Outcome::ApprovedDenseF32ByContract)
    );
    assert_eq!(
        emel_model::generation::quantized_path::Error::UnexpectedEvent.message(),
        "unexpected quantized-path resolver event"
    );
}

#[test]
fn resolver_classifies_every_scope_and_type_kind() {
    let mut resolver = Resolver::new();
    let vector = Scope::VectorDequantContract;
    let matrix = Scope::MatrixWeightContract;
    assert_eq!(resolver.process_event(Query::new(vector, SerializedType::F32)), Ok(Outcome::ApprovedDenseF32ByContract));
    assert_eq!(resolver.process_event(Query::new(vector, SerializedType::F16)), Ok(Outcome::ExplicitNoClaim));
    assert_eq!(resolver.process_event(Query::new(matrix, SerializedType::F32)), Ok(Outcome::DisallowedFallback));
    assert_eq!(resolver.process_event(Query::new(matrix, SerializedType::Q8_0)), Ok(Outcome::NativeQuantized));
    assert_eq!(resolver.process_event(Query::new(matrix, SerializedType::Bf16)), Ok(Outcome::ExplicitNoClaim));
}

#[test]
fn public_actor_builds_source_exact_attention_contract_and_fourteen_stage_audit() {
    let (mut builder, model) = actor();
    complete(&mut builder, model);
    let contract = builder.contract_visit(ContractVisit::new()).unwrap();
    assert_eq!(contract.model(), model);
    assert_ne!(contract.token_embedding(), contract.output());
    assert_ne!(contract.output_norm(), contract.output());
    assert_eq!(contract.block_count(), 1);
    assert_eq!(contract.prefill_plan().kind(), StepKind::Prefill);
    assert_eq!(contract.prefill_plan().max_step_tokens(), 4096);
    assert_eq!(contract.decode_plan().kind(), StepKind::Decode);
    assert_eq!(contract.decode_plan().max_step_tokens(), 1);
    assert_eq!(contract.audit().len(), 14);
    assert_eq!(contract.audit()[0].contract(), QuantizedContractKind::ApprovedDenseF32ByContract);
    assert_eq!(contract.audit()[2].contract(), QuantizedContractKind::NativeQuantized);
    assert_eq!(contract.audit()[6].contract(), QuantizedContractKind::NativeQuantized);
    assert!(contract.audit().iter().all(|stage| stage.consistent_across_layers()));
    let block = builder.block_visit(BlockVisit::new(0)).unwrap();
    assert!(block.uses_attention());
    assert_eq!(block.layer(), layer());
}

#[test]
fn reset_and_release_preserve_preallocated_storage_ownership() {
    let (mut builder, model) = actor();
    complete(&mut builder, model);
    builder.contract_reset(ContractReset::new()).unwrap();
    let storage = builder.storage_release(StorageRelease::new()).unwrap();
    assert_eq!(storage.block_capacity(), 1);
}

#[test]
fn dispatch_path_is_allocation_free() {
    let (mut builder, model) = actor();
    let storage = Storage::with_block_capacity(1).unwrap();
    let measured = measure(|| {
        builder.storage_bind(StorageBind::new(storage)).unwrap();
        builder.contract_begin(ContractBegin::new(model, 1, 4096)).unwrap();
        builder.global_bindings(GlobalBindings::new(b"token_embd.weight", b"output_norm.weight", false)).unwrap();
        builder.attention_block(AttentionBlock::new(0, layer())).unwrap();
        builder.topology(Topology::new(13, 13, 4, 13 * 128 * 4)).unwrap();
        builder.plan(Plan::new()).unwrap();
        builder.block_validation(BlockValidation::new(0)).unwrap();
        builder.block_audit(BlockAudit::new(0)).unwrap();
        for family in QuantizedStageFamily::ALL {
            builder.stage_audit(StageAudit::new(family)).unwrap();
        }
        builder.contract_visit(ContractVisit::new()).unwrap();
    });
    assert_eq!(measured.count_total, 0);
}

#[test]
fn exact_labels_cover_source_enums() {
    assert_eq!(QuantizedStageFamily::AttentionV.name(), "attention_v");
    assert_eq!(QuantizedContractKind::NotApplicable.name(), "not_applicable");
    assert_eq!(tensor_type_name(SerializedType::Q4K), "q4_k");
    assert_eq!(tensor_type_name(SerializedType::F16), "unknown");
}

#[test]
fn shared_value_and_tied_output_preserve_source_bindings() {
    let names = [
        b"token_embd.weight".as_slice(),
        b"output_norm.weight".as_slice(),
        b"blk.0.attn_norm.weight".as_slice(),
        b"blk.0.attn_q.weight".as_slice(),
        b"blk.0.attn_k.weight".as_slice(),
        b"blk.0.attn_output.weight".as_slice(),
        b"blk.0.ffn_norm.weight".as_slice(),
        b"blk.0.ffn_gate.weight".as_slice(),
        b"blk.0.ffn_down.weight".as_slice(),
        b"blk.0.ffn_up.weight".as_slice(),
    ];
    let (mut builder, model) = actor_with(&names);
    begin(&mut builder, model, 1, 64, true);
    let shared = LayerExecution::new(
        ResidualRoute::Attention,
        AttentionQkNormRoute::NoNorm,
        AttentionValueRoute::SharedKeyValue,
        AttentionVNormRoute::NoNorm,
        AttentionWindowRoute::SlidingWindow,
        32,
        32,
        32,
        10_000.0f32.to_bits(),
    );
    builder.attention_block(AttentionBlock::new(0, shared)).unwrap();
    builder.topology(Topology::new(1, 1, 4, 4)).unwrap();
    builder.plan(Plan::new()).unwrap();
    builder.block_validation(BlockValidation::new(0)).unwrap();
    let block = builder.block_visit(BlockVisit::new(0)).unwrap();
    assert_eq!(block.tensor(BlockTensorSlot::AttentionK), block.tensor(BlockTensorSlot::AttentionV));
    builder.block_audit(BlockAudit::new(0)).unwrap();
    finish_stages(&mut builder);
    let contract = builder.contract_visit(ContractVisit::new()).unwrap();
    assert_eq!(contract.token_embedding(), contract.output());
    assert_eq!(contract.audit()[0].tensor_type(), contract.audit()[2].tensor_type());
}

#[test]
fn shortconv_marks_attention_stages_not_applicable() {
    let names = [
        b"token_embd.weight".as_slice(),
        b"output_norm.weight".as_slice(),
        b"output.weight".as_slice(),
        b"blk.0.attn_norm.weight".as_slice(),
        b"blk.0.shortconv.conv.weight".as_slice(),
        b"blk.0.shortconv.in_proj.weight".as_slice(),
        b"blk.0.shortconv.out_proj.weight".as_slice(),
        b"blk.0.ffn_norm.weight".as_slice(),
        b"blk.0.ffn_gate.weight".as_slice(),
        b"blk.0.ffn_down.weight".as_slice(),
        b"blk.0.ffn_up.weight".as_slice(),
    ];
    let (mut builder, model) = actor_with(&names);
    begin(&mut builder, model, 1, 64, false);
    builder.shortconv_block(ShortconvBlock::new(0, shortconv_layer())).unwrap();
    builder.topology(Topology::new(1, 1, 4, 4)).unwrap();
    builder.plan(Plan::new()).unwrap();
    builder.block_validation(BlockValidation::new(0)).unwrap();
    builder.block_audit(BlockAudit::new(0)).unwrap();
    finish_stages(&mut builder);
    let audit = builder.contract_visit(ContractVisit::new()).unwrap().audit();
    for index in [4, 5, 6, 7, 8, 9] {
        assert_eq!(audit[index].contract(), QuantizedContractKind::NotApplicable);
        assert!(!audit[index].consistent_across_layers());
    }
}

#[test]
fn block_stage_consistency_is_an_explicit_transition_outcome() {
    let tensors = [
        (b"token_embd.weight".as_slice(), 10),
        (b"output_norm.weight".as_slice(), 0),
        (b"output.weight".as_slice(), 14),
        (b"blk.0.attn_norm.weight".as_slice(), 0),
        (b"blk.0.attn_q.weight".as_slice(), 14),
        (b"blk.0.attn_k.weight".as_slice(), 14),
        (b"blk.0.attn_v.weight".as_slice(), 14),
        (b"blk.0.attn_q_norm.weight".as_slice(), 0),
        (b"blk.0.attn_k_norm.weight".as_slice(), 0),
        (b"blk.0.attn_output.weight".as_slice(), 14),
        (b"blk.0.ffn_norm.weight".as_slice(), 0),
        (b"blk.0.ffn_gate.weight".as_slice(), 14),
        (b"blk.0.ffn_down.weight".as_slice(), 14),
        (b"blk.0.ffn_up.weight".as_slice(), 14),
        (b"blk.1.attn_norm.weight".as_slice(), 0),
        (b"blk.1.attn_q.weight".as_slice(), 14),
        (b"blk.1.attn_k.weight".as_slice(), 14),
        (b"blk.1.attn_v.weight".as_slice(), 10),
        (b"blk.1.attn_q_norm.weight".as_slice(), 0),
        (b"blk.1.attn_k_norm.weight".as_slice(), 0),
        (b"blk.1.attn_output.weight".as_slice(), 14),
        (b"blk.1.ffn_norm.weight".as_slice(), 0),
        (b"blk.1.ffn_gate.weight".as_slice(), 14),
        (b"blk.1.ffn_down.weight".as_slice(), 14),
        (b"blk.1.ffn_up.weight".as_slice(), 14),
    ];
    let (mut builder, model) = actor_with_typed(&tensors);
    begin(&mut builder, model, 2, 64, false);
    for index in 0..2 {
        builder.attention_block(AttentionBlock::new(index, layer())).unwrap();
    }
    builder.topology(Topology::new(1, 1, 4, 4)).unwrap();
    builder.plan(Plan::new()).unwrap();
    for index in 0..2 {
        builder.block_validation(BlockValidation::new(index)).unwrap();
    }
    for index in 0..2 {
        builder.block_audit(BlockAudit::new(index)).unwrap();
    }
    finish_stages(&mut builder);
    let stage =
        builder.contract_visit(ContractVisit::new()).unwrap().audit()[QuantizedStageFamily::AttentionV.index()];
    assert_eq!(stage.contract(), QuantizedContractKind::NativeQuantized);
    assert!(!stage.consistent_across_layers());
}

#[test]
fn lifecycle_and_validation_failures_are_typed_and_recoverable() {
    assert_eq!(Storage::with_block_capacity(0).unwrap_err(), Error::Capacity);
    let (mut builder, model) = actor();
    assert_eq!(builder.contract_begin(ContractBegin::new(model, 1, 1)), Err(Error::StorageUnavailable));
    builder.storage_bind(StorageBind::new(Storage::with_block_capacity(1).unwrap())).unwrap();
    let rejected = builder.storage_bind(StorageBind::new(Storage::with_block_capacity(1).unwrap())).unwrap_err();
    assert_eq!(rejected.error(), Error::Busy);
    assert_eq!(rejected.into_storage().block_capacity(), 1);
    assert_eq!(builder.contract_begin(ContractBegin::new(model, 2, 1)), Err(Error::InvalidRequest));
    builder.contract_begin(ContractBegin::new(model, 1, 1)).unwrap();
    assert_eq!(builder.plan(Plan::new()), Err(Error::InvalidRequest));
    assert!(matches!(builder.block_visit(BlockVisit::new(0)), Err(Error::InvalidRequest)));
    assert!(matches!(builder.storage_release(StorageRelease::new()), Err(Error::Busy)));
}

#[test]
fn missing_required_tensor_is_model_invalid() {
    let names = &TENSORS[..TENSORS.len() - 1];
    let (mut builder, model) = actor_with(names);
    begin(&mut builder, model, 1, 64, false);
    assert_eq!(builder.attention_block(AttentionBlock::new(0, layer())), Err(Error::ModelInvalid));
}

#[test]
fn reject_block_tensor_classifies_both_opposite_families() {
    let (mut attention, model) = actor();
    begin(&mut attention, model, 1, 64, false);
    attention.attention_block(AttentionBlock::new(0, layer())).unwrap();
    assert_eq!(attention.reject_block_tensors(RejectBlockTensors::new(0, BlockFamily::Shortconv)), Ok(()));
    let (mut invalid_attention, model) = actor();
    begin(&mut invalid_attention, model, 1, 64, false);
    invalid_attention.attention_block(AttentionBlock::new(0, layer())).unwrap();
    assert_eq!(
        invalid_attention.reject_block_tensors(RejectBlockTensors::new(0, BlockFamily::Attention)),
        Err(Error::InvalidRequest)
    );

    let shortconv_names = [
        b"token_embd.weight".as_slice(),
        b"output_norm.weight",
        b"blk.0.attn_norm.weight",
        b"blk.0.shortconv.conv.weight",
        b"blk.0.shortconv.in_proj.weight",
        b"blk.0.shortconv.out_proj.weight",
        b"blk.0.ffn_norm.weight",
        b"blk.0.ffn_gate.weight",
        b"blk.0.ffn_down.weight",
        b"blk.0.ffn_up.weight",
    ];
    let (mut shortconv, model) = actor_with(&shortconv_names);
    begin(&mut shortconv, model, 1, 64, true);
    shortconv.shortconv_block(ShortconvBlock::new(0, shortconv_layer())).unwrap();
    assert_eq!(shortconv.reject_block_tensors(RejectBlockTensors::new(0, BlockFamily::Attention)), Ok(()));
    let (mut invalid_shortconv, model) = actor_with(&shortconv_names);
    begin(&mut invalid_shortconv, model, 1, 64, true);
    invalid_shortconv.shortconv_block(ShortconvBlock::new(0, shortconv_layer())).unwrap();
    assert_eq!(
        invalid_shortconv.reject_block_tensors(RejectBlockTensors::new(0, BlockFamily::Shortconv)),
        Err(Error::InvalidRequest)
    );
}

#[test]
fn reject_block_tensor_reports_present_opposite_tensors() {
    let mut names: Vec<&[u8]> = TENSORS.to_vec();
    names.push(b"blk.0.shortconv.in_proj.weight");
    let (mut builder, model) = actor_with(&names);
    begin(&mut builder, model, 1, 64, false);
    builder.attention_block(AttentionBlock::new(0, layer())).unwrap();
    assert_eq!(
        builder.reject_block_tensors(RejectBlockTensors::new(0, BlockFamily::Shortconv)),
        Err(Error::ModelInvalid)
    );
}

#[test]
fn reject_block_tensor_dispatch_is_allocation_free() {
    let (mut builder, model) = actor();
    begin(&mut builder, model, 1, 64, false);
    builder.attention_block(AttentionBlock::new(0, layer())).unwrap();
    let measured = measure(|| {
        assert_eq!(builder.reject_block_tensors(RejectBlockTensors::new(0, BlockFamily::Shortconv)), Ok(()));
    });
    assert_eq!(measured.count_total, 0);
}

#[test]
fn every_public_error_has_a_stable_message() {
    let errors = [
        Error::InvalidRequest,
        Error::ModelInvalid,
        Error::Capacity,
        Error::StorageUnavailable,
        Error::Busy,
        Error::WrongModelIdentity,
        Error::StaleModelIdentity,
        Error::Dependency,
        Error::UnexpectedEvent,
        Error::Internal,
    ];
    assert!(errors.into_iter().all(|error| !error.message().is_empty()));
    assert_eq!(Error::Busy.message(), "generation builder is busy");
}

#[test]
fn every_source_label_and_descriptor_accessor_is_observed() {
    let (mut builder, model) = actor();
    complete(&mut builder, model);
    let contract = builder.contract_visit(ContractVisit::new()).unwrap();
    let topology = contract.topology();
    assert_eq!((topology.node_count(), topology.tensor_count()), (13, 13));
    assert_eq!((topology.bytes_per_tensor(), topology.workspace_capacity_bytes()), (4, 6656));
    let prefill = contract.prefill_plan();
    assert_eq!((prefill.node_count(), prefill.tensor_count(), prefill.expected_outputs()), (13, 13, 1));
    let layer = builder.block_visit(BlockVisit::new(0)).unwrap().layer();
    assert_eq!(layer.v_norm_route(), AttentionVNormRoute::NoNorm);
    assert_eq!(layer.window_route(), AttentionWindowRoute::FullContext);
    assert_eq!((layer.attention_key_length(), layer.attention_value_length()), (128, 128));
    assert_eq!(layer.attention_rope_dim(), 128);
    assert!((f32::from_bits(layer.attention_rope_freq_base_bits()) - 10_000.0).abs() < f32::EPSILON);
    let stage_names: Vec<_> = QuantizedStageFamily::ALL.into_iter().map(QuantizedStageFamily::name).collect();
    assert_eq!(stage_names.len(), 14);
    let contract_names = [
        QuantizedContractKind::NativeQuantized,
        QuantizedContractKind::ApprovedDenseF32ByContract,
        QuantizedContractKind::DisallowedFallback,
        QuantizedContractKind::ExplicitNoClaim,
        QuantizedContractKind::NotApplicable,
    ]
    .map(QuantizedContractKind::name);
    assert_eq!(
        contract_names,
        ["native_quantized", "approved_dense_f32_by_contract", "disallowed_fallback", "explicit_no_claim", "not_applicable"]
    );
    for stage in contract.audit() {
        assert_eq!(stage.family().name(), stage_names[stage.family() as usize]);
        assert!(stage.tensor_type().is_some());
    }
    assert_eq!(tensor_type_name(SerializedType::F32), "f32");
    assert_eq!(tensor_type_name(SerializedType::Q2K), "q2_k");
    assert_eq!(tensor_type_name(SerializedType::Q3K), "q3_k");
    assert_eq!(tensor_type_name(SerializedType::Q6K), "q6_k");
    assert_eq!(tensor_type_name(SerializedType::Q4_0), "q4_0");
    let (name, length) = compose_block_name(123, b"attn_q.weight");
    assert_eq!(&name[..length], b"blk.123.attn_q.weight");
}

fn bind_variant(qk: AttentionQkNormRoute, value: AttentionValueRoute) -> Builder {
    let (mut builder, model) = actor();
    begin(&mut builder, model, 1, 64, false);
    let selected = LayerExecution::new(
        ResidualRoute::Attention,
        qk,
        value,
        AttentionVNormRoute::Rms,
        AttentionWindowRoute::SlidingWindow,
        32,
        48,
        16,
        500_000.0f32.to_bits(),
    );
    builder.attention_block(AttentionBlock::new(0, selected)).unwrap();
    builder.topology(Topology::new(1, 1, 4, 4)).unwrap();
    builder.plan(Plan::new()).unwrap();
    builder.block_validation(BlockValidation::new(0)).unwrap();
    builder
}

#[test]
fn remaining_attention_variants_use_explicit_transition_rows() {
    let plain = bind_variant(AttentionQkNormRoute::NoNorm, AttentionValueRoute::DedicatedValue);
    let plain_block = plain.block_visit(BlockVisit::new(0)).unwrap();
    assert_ne!(plain_block.tensor(BlockTensorSlot::AttentionK), plain_block.tensor(BlockTensorSlot::AttentionV));
    assert_eq!(plain_block.tensor(BlockTensorSlot::AttentionQNorm), None);
    let shared_qk = bind_variant(AttentionQkNormRoute::HeadwiseRms, AttentionValueRoute::SharedKeyValue);
    let shared_block = shared_qk.block_visit(BlockVisit::new(0)).unwrap();
    assert_eq!(shared_block.tensor(BlockTensorSlot::AttentionK), shared_block.tensor(BlockTensorSlot::AttentionV));
    assert!(shared_block.tensor(BlockTensorSlot::AttentionQNorm).is_some());
}

#[test]
fn explicit_invalid_transition_rows_recover_for_followup_dispatch() {
    let (mut builder, model) = actor();
    assert_eq!(builder.contract_reset(ContractReset::new()), Err(Error::StorageUnavailable));
    assert!(matches!(builder.storage_release(StorageRelease::new()), Err(Error::StorageUnavailable)));
    builder.storage_bind(StorageBind::new(Storage::with_block_capacity(1).unwrap())).unwrap();
    assert_eq!(builder.contract_visit(ContractVisit::new()).unwrap_err(), Error::UnexpectedEvent);
    assert_eq!(builder.contract_begin(ContractBegin::new(model, -1, 0)), Err(Error::InvalidRequest));
    builder.contract_begin(ContractBegin::new(model, 1, 64)).unwrap();
    assert_eq!(builder.contract_begin(ContractBegin::new(model, 1, 64)), Err(Error::Busy));
    assert_eq!(builder.global_bindings(GlobalBindings::new(b"", b"", false)), Err(Error::InvalidRequest));
    assert_eq!(
        builder.global_bindings(GlobalBindings::new(b"missing", b"output_norm.weight", false)),
        Err(Error::ModelInvalid)
    );
    builder.global_bindings(GlobalBindings::new(b"token_embd.weight", b"output_norm.weight", false)).unwrap();
    assert_eq!(
        builder.global_bindings(GlobalBindings::new(b"token_embd.weight", b"output_norm.weight", false)),
        Err(Error::InvalidRequest)
    );
    assert_eq!(builder.attention_block(AttentionBlock::new(-1, layer())), Err(Error::InvalidRequest));
    assert_eq!(builder.shortconv_block(ShortconvBlock::new(0, layer())), Err(Error::InvalidRequest));
    builder.attention_block(AttentionBlock::new(0, layer())).unwrap();
    assert_eq!(builder.attention_block(AttentionBlock::new(0, layer())), Err(Error::InvalidRequest));
    assert_eq!(builder.topology(Topology::new(0, 0, 0, 0)), Err(Error::InvalidRequest));
    builder.topology(Topology::new(1, 1, 4, 4)).unwrap();
    assert_eq!(builder.topology(Topology::new(1, 1, 4, 4)), Err(Error::InvalidRequest));
    builder.plan(Plan::new()).unwrap();
    assert_eq!(builder.plan(Plan::new()), Err(Error::InvalidRequest));
    builder.block_validation(BlockValidation::new(0)).unwrap();
    assert_eq!(builder.block_validation(BlockValidation::new(0)), Err(Error::ModelInvalid));
    assert_eq!(builder.stage_audit(StageAudit::new(QuantizedStageFamily::Output)), Err(Error::InvalidRequest));
    builder.block_audit(BlockAudit::new(0)).unwrap();
    assert_eq!(builder.block_audit(BlockAudit::new(0)), Err(Error::InvalidRequest));
    builder.stage_audit(StageAudit::new(QuantizedStageFamily::Output)).unwrap();
    assert_eq!(builder.stage_audit(StageAudit::new(QuantizedStageFamily::Output)), Err(Error::InvalidRequest));
}

#[test]
fn wrong_catalog_identity_is_preserved_as_typed_dependency_error() {
    let (mut builder, _) = actor();
    let (_, other_model) = actor();
    builder.storage_bind(StorageBind::new(Storage::with_block_capacity(1).unwrap())).unwrap();
    assert_eq!(builder.contract_begin(ContractBegin::new(other_model, 1, 64)), Err(Error::WrongModelIdentity));
}

#[test]
fn float_output_matrix_is_a_disallowed_fallback() {
    let tensors = [
        (b"token_embd.weight".as_slice(), 0),
        (b"output_norm.weight".as_slice(), 0),
        (b"output.weight".as_slice(), 0),
        (b"blk.0.attn_norm.weight".as_slice(), 0),
        (b"blk.0.shortconv.conv.weight".as_slice(), 14),
        (b"blk.0.shortconv.in_proj.weight".as_slice(), 14),
        (b"blk.0.shortconv.out_proj.weight".as_slice(), 14),
        (b"blk.0.ffn_norm.weight".as_slice(), 0),
        (b"blk.0.ffn_gate.weight".as_slice(), 0),
        (b"blk.0.ffn_down.weight".as_slice(), 14),
        (b"blk.0.ffn_up.weight".as_slice(), 14),
    ];
    let (mut builder, model) = actor_with_typed(&tensors);
    begin(&mut builder, model, 1, 32, false);
    builder.shortconv_block(ShortconvBlock::new(0, shortconv_layer())).unwrap();
    builder.topology(Topology::new(2, 3, 4, 24)).unwrap();
    builder.plan(Plan::new()).unwrap();
    builder.block_validation(BlockValidation::new(0)).unwrap();
    builder.block_audit(BlockAudit::new(0)).unwrap();
    finish_stages(&mut builder);
    let contract = builder.contract_visit(ContractVisit::new()).unwrap();
    let audit = contract.audit();
    assert_eq!(audit[QuantizedStageFamily::Output.index()].contract(), QuantizedContractKind::DisallowedFallback);
    assert_eq!(audit[QuantizedStageFamily::TokenEmbedding.index()].contract(), QuantizedContractKind::ApprovedDenseF32ByContract);
    assert_eq!(audit[QuantizedStageFamily::FeedForwardGate.index()].contract(), QuantizedContractKind::DisallowedFallback);
    assert_eq!(audit[QuantizedStageFamily::FeedForwardDown.index()].contract(), QuantizedContractKind::NativeQuantized);
    assert_eq!(contract.prefill_plan().max_step_tokens(), 32);
    assert_eq!(contract.decode_plan().node_count(), 2);
}

#[test]
fn composed_block_names_parse_back_to_their_index() {
    for index in [0, 7, 17, 511, i32::MAX] {
        let (buffer, length) = compose_block_name(index, b"attn_q.weight");
        assert_eq!(emel_model::data::try_parse_block_index(&buffer[..length]), Some(index));
    }
}

#[test]
fn block_names_take_suffixes_up_to_the_buffer() {
    let suffix = [b'x'; 56];
    let (name, length) = compose_block_name(123, &suffix);
    assert_eq!(length, 64);
    assert_eq!(&name[..8], b"blk.123.");
    assert_eq!(&name[8..64], &suffix[..]);
    let (name, length) = compose_block_name(0, &[b'y'; 58]);
    assert_eq!(length, 64);
    assert_eq!(&name[..6], b"blk.0.");
}
