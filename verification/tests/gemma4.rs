use allocation_counter::measure;
use emel_model::catalog::{BindStorage, Catalog, ModelIdentity, SealModel, Storage as CatalogStorage, TensorInput};
use emel_model::gemma4::event::{
    BlockAudit, BlockBuild, BlockValidation, BlockVisit, ContractBegin, ContractReset, ContractVisit, Error,
    PlanBuild, StageAudit, Storage as FamilyStorage, StorageRelease, TopologyBuild, HPARAM_KEYS,
};
use emel_model::gemma4::{
    Gemma4, Parameters, ARCHITECTURE_NAME, BLOCK_TENSOR_COUNT, DEDICATED_KV_BLOCK_TENSOR_COUNT, GLOBAL_TENSOR_COUNT,
    OUTPUT_NORM_NAME, SHARED_KV_BLOCK_TENSOR_COUNT, SLIDING_WINDOW_PATTERN_CAPACITY, TOKEN_EMBEDDING_NAME,
};
use emel_model::generation::quantized_path::Resolver;
use emel_model::generation::{
    AttentionQkNormRoute, AttentionVNormRoute, AttentionValueRoute, AttentionWindowRoute, QuantizedStageFamily,
    ResidualRoute,
};
use std::sync::atomic::{AtomicU64, Ordering};

static NEXT_OWNER: AtomicU64 = AtomicU64::new(1);

const BLOCKS: i32 = 6;
const SHARED_LAYERS: i32 = 2;

fn parameters() -> Parameters {
    let mut p = Parameters::default();
    p.context_length = 4096;
    p.embedding_length = 1536;
    p.feed_forward_length = 6144;
    p.attention_head_count = 8;
    p.attention_head_count_kv = 1;
    p.attention_key_length = 512;
    p.attention_key_length_swa = 256;
    p.attention_value_length = 512;
    p.attention_value_length_swa = 256;
    p.rope_dimension_count = 512;
    p.rope_dimension_count_swa = 256;
    p.block_count = BLOCKS;
    p.rope_freq_base_bits = 1_000_000.0f32.to_bits();
    p.rope_freq_base_swa_bits = 10_000.0f32.to_bits();
    p.attention_shared_kv_layers = SHARED_LAYERS;
    p.sliding_window_pattern_count = BLOCKS as u32;
    for index in [0usize, 1, 2, 4] {
        p.sliding_window_pattern[index] = 1;
    }
    p
}

fn inputs(include_output: bool, missing_dedicated_v: bool) -> Vec<(Vec<u8>, u32)> {
    let mut tensors = vec![(b"token_embd.weight".to_vec(), 10), (b"output_norm.weight".to_vec(), 0)];
    if include_output {
        tensors.push((b"output.weight".to_vec(), 10));
    }
    for index in 0..BLOCKS {
        for suffix in [
            "attn_norm.weight",
            "attn_q.weight",
            "attn_k.weight",
            "attn_v.weight",
            "attn_q_norm.weight",
            "attn_k_norm.weight",
            "attn_output.weight",
            "ffn_norm.weight",
            "ffn_gate.weight",
            "ffn_down.weight",
            "ffn_up.weight",
        ] {
            if suffix == "attn_v.weight" && (index >= BLOCKS - SHARED_LAYERS || (missing_dedicated_v && index == 0)) {
                continue;
            }
            let wire_type = if matches!(suffix, "attn_k.weight" | "attn_v.weight") { 14 } else { 0 };
            tensors.push((format!("blk.{index}.{suffix}").into_bytes(), wire_type));
        }
    }
    tensors
}

fn actor_with(tensors: &[(Vec<u8>, u32)], capacity: usize) -> (Gemma4, ModelIdentity) {
    let name_bytes = tensors.iter().map(|(name, _)| name.len()).sum();
    let mut storage = CatalogStorage::with_capacity(tensors.len(), name_bytes, tensors.len()).unwrap();
    for (name, wire_type) in tensors {
        let (dimensions, data_size) = match wire_type {
            0 => ([1, 1, 1, 1], 4),
            10 => ([256, 1, 1, 1], 84),
            _ => ([256, 1, 1, 1], 210),
        };
        storage.push_tensor(TensorInput::new(name, *wire_type, 1, dimensions, data_size, true)).unwrap();
    }
    let mut catalog = Catalog::with_owner(NEXT_OWNER.fetch_add(1, Ordering::Relaxed));
    catalog.bind_storage(BindStorage::new(storage)).unwrap();
    let model = catalog.seal_model(SealModel::new()).unwrap();
    let actor = Gemma4::new(catalog, Resolver::new(), FamilyStorage::with_block_capacity(capacity).unwrap()).unwrap();
    (actor, model)
}

fn actor() -> (Gemma4, ModelIdentity) {
    actor_with(&inputs(false, false), BLOCKS as usize)
}

fn complete(actor: &mut Gemma4, model: ModelIdentity, parameters: Parameters) {
    actor.contract_begin(ContractBegin::new(b"gemma4", model, parameters)).unwrap();
    for index in 0..parameters.block_count {
        actor.block_build(BlockBuild::new(index)).unwrap();
    }
    actor.topology_build(TopologyBuild::new()).unwrap();
    actor.plan_build(PlanBuild::new()).unwrap();
    for index in 0..parameters.block_count {
        actor.block_validation(BlockValidation::new(index)).unwrap();
    }
    for index in 0..parameters.block_count {
        actor.block_audit(BlockAudit::new(index)).unwrap();
    }
    for family in QuantizedStageFamily::ALL {
        actor.stage_audit(StageAudit::new(family)).unwrap();
    }
}

#[test]
fn gemma4_family_constants_and_inventory() {
    assert_eq!(ARCHITECTURE_NAME, "gemma4");
    assert_eq!(SLIDING_WINDOW_PATTERN_CAPACITY, 35);
    assert_eq!(
        (GLOBAL_TENSOR_COUNT, DEDICATED_KV_BLOCK_TENSOR_COUNT, SHARED_KV_BLOCK_TENSOR_COUNT, BLOCK_TENSOR_COUNT),
        (3, 10, 9, 10)
    );
    assert_eq!(TOKEN_EMBEDDING_NAME, "token_embd.weight");
    assert_eq!(OUTPUT_NORM_NAME, "output_norm.weight");
    assert_eq!(HPARAM_KEYS.len(), 21);
    assert_eq!(HPARAM_KEYS[0], "gemma4.context_length");
    assert_eq!(HPARAM_KEYS[20], "gemma4.attention.sliding_window_pattern");
}

#[test]
fn gemma4_builds_shared_kv_contract_with_window_routes_and_tied_output() {
    let (mut actor, model) = actor();
    complete(&mut actor, model, parameters());
    let contract = actor.contract_visit(ContractVisit::new()).unwrap();
    assert_eq!(contract.model(), model);
    assert_eq!(contract.block_count(), 6);
    assert_eq!(contract.output(), contract.token_embedding());
    assert_eq!(contract.topology().tensor_count(), 3 + 4 * 10 + 2 * 9);
    assert_eq!(contract.topology().node_count(), 61);
    assert_eq!(contract.topology().workspace_capacity_bytes(), 61 * 1536 * 4);

    let sliding = actor.block_visit(BlockVisit::new(0)).unwrap();
    assert_eq!(sliding.layer().residual_route(), ResidualRoute::Attention);
    assert_eq!(sliding.layer().qk_norm_route(), AttentionQkNormRoute::HeadwiseRms);
    assert_eq!(sliding.layer().value_route(), AttentionValueRoute::DedicatedValue);
    assert_eq!(sliding.layer().v_norm_route(), AttentionVNormRoute::NoNorm);
    assert_eq!(sliding.layer().window_route(), AttentionWindowRoute::SlidingWindow);
    assert_eq!(sliding.layer().attention_key_length(), 256);
    assert_eq!(sliding.layer().attention_value_length(), 256);
    assert_eq!(sliding.layer().attention_rope_dim(), 256);
    assert_eq!(sliding.layer().attention_rope_freq_base_bits(), 10_000.0f32.to_bits());

    let full = actor.block_visit(BlockVisit::new(3)).unwrap();
    assert_eq!(full.layer().window_route(), AttentionWindowRoute::FullContext);
    assert_eq!(full.layer().attention_key_length(), 512);
    assert_eq!(full.layer().attention_value_length(), 512);
    assert_eq!(full.layer().attention_rope_dim(), 512);
    assert_eq!(full.layer().attention_rope_freq_base_bits(), 1_000_000.0f32.to_bits());
    assert_eq!(full.layer().value_route(), AttentionValueRoute::DedicatedValue);

    let shared_sliding = actor.block_visit(BlockVisit::new(4)).unwrap();
    assert_eq!(shared_sliding.layer().value_route(), AttentionValueRoute::SharedKeyValue);
    assert_eq!(shared_sliding.layer().v_norm_route(), AttentionVNormRoute::Rms);
    assert_eq!(shared_sliding.layer().window_route(), AttentionWindowRoute::SlidingWindow);

    let shared_full = actor.block_visit(BlockVisit::new(5)).unwrap();
    assert_eq!(shared_full.layer().value_route(), AttentionValueRoute::SharedKeyValue);
    assert_eq!(shared_full.layer().window_route(), AttentionWindowRoute::FullContext);
    assert_eq!(actor.block_visit(BlockVisit::new(6)).unwrap_err(), Error::InvalidRequest);
    assert_eq!(actor.block_visit(BlockVisit::new(-1)).unwrap_err(), Error::InvalidRequest);
}

#[test]
fn gemma4_begin_and_block_fail_closed_with_typed_outcomes() {
    let (mut actor, model) = actor();
    assert_eq!(actor.contract_begin(ContractBegin::new(b"llama", model, parameters())), Err(Error::InvalidRequest));
    let mut invalid = parameters();
    invalid.context_length = 0;
    assert_eq!(actor.contract_begin(ContractBegin::new(b"gemma4", model, invalid)), Err(Error::ModelInvalid));
    let mut oversized = parameters();
    oversized.block_count = BLOCKS + 1;
    assert_eq!(actor.contract_begin(ContractBegin::new(b"gemma4", model, oversized)), Err(Error::InvalidRequest));

    actor.contract_begin(ContractBegin::new(b"gemma4", model, parameters())).unwrap();
    assert_eq!(actor.contract_begin(ContractBegin::new(b"gemma4", model, parameters())), Err(Error::Busy));
    assert_eq!(actor.block_build(BlockBuild::new(-1)), Err(Error::InvalidRequest));
    assert_eq!(actor.block_build(BlockBuild::new(BLOCKS)), Err(Error::InvalidRequest));
    actor.block_build(BlockBuild::new(0)).unwrap();
    assert_eq!(actor.block_build(BlockBuild::new(0)), Err(Error::InvalidRequest));
    assert_eq!(actor.topology_build(TopologyBuild::new()), Err(Error::InvalidRequest));
    assert_eq!(actor.storage_release(StorageRelease::new()).unwrap_err(), Error::Busy);

    let (mut missing, missing_model) = actor_with(&inputs(false, true), BLOCKS as usize);
    missing.contract_begin(ContractBegin::new(b"gemma4", missing_model, parameters())).unwrap();
    assert_eq!(missing.block_build(BlockBuild::new(0)), Err(Error::ModelInvalid));
    missing.block_build(BlockBuild::new(1)).unwrap();
}

#[test]
fn gemma4_reset_drops_cached_blocks_and_release_returns_storage() {
    let (mut actor, model) = actor();
    assert_eq!(actor.block_build(BlockBuild::new(0)), Err(Error::UnexpectedEvent));
    complete(&mut actor, model, parameters());
    assert!(actor.block_visit(BlockVisit::new(0)).is_ok());
    actor.contract_reset(ContractReset::new()).unwrap();
    assert_eq!(actor.block_visit(BlockVisit::new(0)).unwrap_err(), Error::UnexpectedEvent);
    actor.contract_begin(ContractBegin::new(b"gemma4", model, parameters())).unwrap();
    assert_eq!(actor.block_visit(BlockVisit::new(0)).unwrap_err(), Error::InvalidRequest);
    actor.contract_reset(ContractReset::new()).unwrap();
    let storage = actor.storage_release(StorageRelease::new()).unwrap();
    assert_eq!(storage.block_capacity(), 6);
    assert!(storage.blocks.iter().all(Option::is_none));
    assert_eq!(actor.contract_reset(ContractReset::new()), Err(Error::UnexpectedEvent));
    assert_eq!(actor.storage_release(StorageRelease::new()).unwrap_err(), Error::UnexpectedEvent);
}

#[test]
fn gemma4_complete_dispatch_path_is_allocation_free() {
    let (mut actor, model) = actor();
    let measured = measure(|| complete(&mut actor, model, parameters()));
    assert_eq!(measured.count_total, 0);
}

#[test]
fn defaults_preserve_source_shape() {
    assert_eq!(emel_model::gemma4::MetadataParameters::default().sliding_window_pattern.len(), 35);
}

#[test]
fn gemma4_parameters_render_their_summary() {
    assert_eq!(parameters().describe(), "Gemma4 6 layers, embedding 1536, context 4096");
}
