use emel_model::llama::{
    Parameters, ARCHITECTURE_NAME, BLOCK_TENSOR_COUNT, GLOBAL_TENSOR_COUNT, HPARAM_KEYS, OUTPUT_NORM_NAME,
    TOKEN_EMBEDDING_NAME,
};
use allocation_counter::measure;
use emel_model::attention_family::event::{
    BlockAudit, BlockBuild, BlockValidation, BlockVisit, ContractBegin, ContractReset, ContractVisit, PlanBuild,
    StageAudit, Storage as FamilyStorage, StorageRelease, TopologyBuild,
};
use emel_model::catalog::{BindStorage, Catalog, ModelIdentity, SealModel, Storage as CatalogStorage, TensorInput};
use emel_model::generation::event::Error;
use emel_model::generation::quantized_path::Resolver;
use emel_model::generation::{AttentionQkNormRoute, AttentionValueRoute, QuantizedStageFamily};
use emel_model::llama::Llama;
use std::sync::atomic::{AtomicU64, Ordering};

fn parameters() -> Parameters {
    Parameters {
        context_length: 128,
        embedding_length: 64,
        embedding_length_out: 64,
        feed_forward_length: 256,
        attention_head_count: 8,
        attention_head_count_kv: 4,
        rope_dimension_count: 16,
        block_count: 1,
        vocab_size: 32000,
        attention_layer_norm_epsilon_bits: 0.0f32.to_bits(),
        attention_layer_norm_rms_epsilon_bits: 0.00001f32.to_bits(),
        attention_clamp_kqv_bits: 0.0f32.to_bits(),
        attn_logit_softcapping_bits: 0.0f32.to_bits(),
        final_logit_softcapping_bits: 0.0f32.to_bits(),
        residual_scale_bits: 0.0f32.to_bits(),
        embedding_scale_bits: 0.0f32.to_bits(),
        rope_freq_base_bits: 10_000.0f32.to_bits(),
        rope_freq_base_swa_bits: 0.0f32.to_bits(),
        attention_key_length: 16,
        attention_value_length: 16,
    }
}

#[test]
fn hparam_inventory_is_source_exact() {
    assert_eq!(HPARAM_KEYS.len(), 18);
    assert_eq!(HPARAM_KEYS[0], "llama.context_length");
    assert_eq!(HPARAM_KEYS[17], "llama.rope.freq_base_swa");
    assert_eq!(parameters().describe(), "Llama 1 layers, embedding 64, context 128");
}

#[test]
fn family_constants_and_negative_summary_values() {
    assert_eq!((GLOBAL_TENSOR_COUNT, BLOCK_TENSOR_COUNT), (3, 8));
    assert_eq!(TOKEN_EMBEDDING_NAME, "token_embd.weight");
    assert_eq!(OUTPUT_NORM_NAME, "output_norm.weight");
    assert_eq!(ARCHITECTURE_NAME, "llama");
    let negative = Parameters { block_count: -12, embedding_length: i32::MIN, context_length: 0, ..Parameters::default() };
    assert_eq!(negative.describe(), "Llama -12 layers, embedding -2147483648, context 0");
    let large = Parameters { block_count: i32::MAX, embedding_length: 1_000_000, context_length: 10, ..Parameters::default() };
    assert_eq!(large.describe(), "Llama 2147483647 layers, embedding 1000000, context 10");
}


static NEXT_OWNER: AtomicU64 = AtomicU64::new(1);

const TENSORS: [&[u8]; 12] = [
    b"token_embd.weight",
    b"output_norm.weight",
    b"output.weight",
    b"blk.0.attn_norm.weight",
    b"blk.0.attn_q.weight",
    b"blk.0.attn_k.weight",
    b"blk.0.attn_v.weight",
    b"blk.0.attn_output.weight",
    b"blk.0.ffn_norm.weight",
    b"blk.0.ffn_gate.weight",
    b"blk.0.ffn_down.weight",
    b"blk.0.ffn_up.weight",
];

fn actor_with(names: &[&[u8]]) -> (Llama, ModelIdentity) {
    let name_bytes = names.iter().map(|name| name.len()).sum();
    let mut catalog_storage = CatalogStorage::with_capacity(names.len(), name_bytes, names.len()).unwrap();
    for (index, name) in names.iter().enumerate() {
        let wire_type = if index == 0 {
            10
        } else if matches!(index, 1 | 3 | 8) {
            0
        } else {
            14
        };
        let (dimensions, data_size) = match wire_type {
            0 => ([1, 1, 1, 1], 4),
            10 => ([256, 1, 1, 1], 84),
            _ => ([256, 1, 1, 1], 210),
        };
        catalog_storage.push_tensor(TensorInput::new(name, wire_type, 1, dimensions, data_size, true)).unwrap();
    }
    let mut catalog = Catalog::with_owner(NEXT_OWNER.fetch_add(1, Ordering::Relaxed));
    catalog.bind_storage(BindStorage::new(catalog_storage)).unwrap();
    let model = catalog.seal_model(SealModel::new()).unwrap();
    let actor = Llama::new(catalog, Resolver::new(), FamilyStorage::with_block_capacity(1).unwrap()).unwrap();
    (actor, model)
}

fn actor() -> (Llama, ModelIdentity) {
    actor_with(&TENSORS)
}

fn complete(actor: &mut Llama, model: ModelIdentity) {
    let parameters = parameters();
    actor.contract_begin(ContractBegin::new(b"llama", model, parameters)).unwrap();
    actor.block_build(BlockBuild::new(0)).unwrap();
    actor.topology_build(TopologyBuild::new()).unwrap();
    actor.plan_build(PlanBuild::new()).unwrap();
    actor.block_validation(BlockValidation::new(0)).unwrap();
    actor.block_audit(BlockAudit::new(0)).unwrap();
    for family in QuantizedStageFamily::ALL {
        actor.stage_audit(StageAudit::new(family)).unwrap();
    }
}

#[test]
fn builds_source_exact_llama_contract_and_facade_views() {
    let (mut actor, model) = actor();
    complete(&mut actor, model);
    let contract = actor.contract_visit(ContractVisit::new()).unwrap();
    assert_eq!(contract.model(), model);
    assert_eq!(contract.block_count(), 1);
    assert_eq!(contract.topology().tensor_count(), 11);
    assert_eq!(contract.topology().node_count(), 11);
    assert_eq!(contract.topology().bytes_per_tensor(), 4);
    assert_eq!(contract.topology().workspace_capacity_bytes(), 11 * 64 * 4);
    let block = actor.block_visit(BlockVisit::new(0)).unwrap();
    assert!(block.uses_attention());
    assert_eq!(block.layer().qk_norm_route(), AttentionQkNormRoute::NoNorm);
    assert_eq!(block.layer().value_route(), AttentionValueRoute::DedicatedValue);
    assert_eq!(block.layer().attention_key_length(), 16);
    assert_eq!(block.layer().attention_value_length(), 16);
    assert_eq!(block.layer().attention_rope_dim(), 16);
    assert_eq!(block.layer().attention_rope_freq_base_bits(), 10_000.0f32.to_bits());
}

#[test]
fn rejects_wrong_architecture_invalid_parameters_and_missing_required_tensor() {
    let (mut actor, model) = actor();
    assert_eq!(actor.contract_begin(ContractBegin::new(b"lfm2", model, parameters())), Err(Error::InvalidRequest));
    let mut invalid = parameters();
    invalid.embedding_length = 0;
    assert_eq!(actor.contract_begin(ContractBegin::new(b"llama", model, invalid)), Err(Error::ModelInvalid));

    let names = &TENSORS[..11];
    let (mut missing, missing_model) = actor_with(names);
    missing.contract_begin(ContractBegin::new(b"llama", missing_model, parameters())).unwrap();
    assert_eq!(missing.block_build(BlockBuild::new(0)), Err(Error::ModelInvalid));
    missing.contract_reset(ContractReset::new()).unwrap();
    missing.contract_begin(ContractBegin::new(b"llama", missing_model, parameters())).unwrap();
    assert_eq!(missing.block_build(BlockBuild::new(0)), Err(Error::ModelInvalid));
}

#[test]
fn tests_one_block_per_dispatch_and_lifecycle_are_explicit() {
    let (mut actor, model) = actor();
    actor.contract_begin(ContractBegin::new(b"llama", model, parameters())).unwrap();
    assert_eq!(actor.block_build(BlockBuild::new(-1)), Err(Error::InvalidRequest));
    assert_eq!(actor.block_build(BlockBuild::new(1)), Err(Error::InvalidRequest));
    actor.block_build(BlockBuild::new(0)).unwrap();
    assert_eq!(actor.block_build(BlockBuild::new(0)), Err(Error::InvalidRequest));
    actor.contract_reset(ContractReset::new()).unwrap();
    let storage = actor.storage_release(StorageRelease::new()).unwrap();
    assert_eq!(storage.block_capacity(), 1);
}

#[test]
fn tests_complete_dispatch_path_is_allocation_free() {
    let (mut actor, model) = actor();
    let measured = measure(|| complete(&mut actor, model));
    assert_eq!(measured.count_total, 0);
}

#[test]
fn llama_output_falls_back_to_the_token_embedding_when_absent() {
    let names: Vec<&[u8]> = TENSORS.iter().copied().filter(|name| *name != b"output.weight".as_slice()).collect();
    let (mut actor, model) = actor_with(&names);
    actor.contract_begin(ContractBegin::new(b"llama", model, parameters())).unwrap();
    actor.block_build(BlockBuild::new(0)).unwrap();
    actor.topology_build(TopologyBuild::new()).unwrap();
    actor.plan_build(PlanBuild::new()).unwrap();
    actor.block_validation(BlockValidation::new(0)).unwrap();
    actor.block_audit(BlockAudit::new(0)).unwrap();
    for family in QuantizedStageFamily::ALL {
        actor.stage_audit(StageAudit::new(family)).unwrap();
    }
    let contract = actor.contract_visit(ContractVisit::new()).unwrap();
    assert_eq!(contract.output(), contract.token_embedding());
}

#[test]
fn llama_requests_outside_a_contract_are_unexpected_and_release_ends_the_actor() {
    let (mut actor, model) = actor();
    assert_eq!(actor.block_build(BlockBuild::new(0)), Err(Error::UnexpectedEvent));
    assert_eq!(actor.topology_build(TopologyBuild::new()), Err(Error::UnexpectedEvent));
    assert_eq!(actor.block_visit(BlockVisit::new(0)).unwrap_err(), Error::UnexpectedEvent);
    assert_eq!(actor.contract_visit(ContractVisit::new()).unwrap_err(), Error::UnexpectedEvent);
    actor.contract_begin(ContractBegin::new(b"llama", model, parameters())).unwrap();
    assert_eq!(actor.contract_begin(ContractBegin::new(b"llama", model, parameters())), Err(Error::Busy));
    assert_eq!(actor.storage_release(StorageRelease::new()).unwrap_err(), Error::Busy);
    actor.contract_reset(ContractReset::new()).unwrap();
    let storage = actor.storage_release(StorageRelease::new()).unwrap();
    assert_eq!(storage.block_capacity(), 1);
    assert_eq!(actor.contract_reset(ContractReset::new()), Err(Error::UnexpectedEvent));
    assert_eq!(actor.storage_release(StorageRelease::new()).unwrap_err(), Error::UnexpectedEvent);
    assert_eq!(actor.contract_begin(ContractBegin::new(b"llama", model, parameters())), Err(Error::UnexpectedEvent));
}
