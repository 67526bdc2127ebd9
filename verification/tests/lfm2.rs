use emel_model::lfm2::{
    Parameters, Variant, ARCHITECTURE_NAME, ATTENTION_BLOCK_TENSOR_COUNT, GLOBAL_TENSOR_COUNT, HPARAM_KEYS, MAX_BLOCKS,
    OUTPUT_NORM_NAME, SHORTCONV_BLOCK_TENSOR_COUNT, TOKEN_EMBEDDING_NAME,
};

use allocation_counter::measure;
use emel_model::catalog::{BindStorage, Catalog, ModelIdentity, SealModel, Storage as CatalogStorage, TensorInput};
use emel_model::generation::quantized_path::Resolver;
use emel_model::generation::{AttentionQkNormRoute, QuantizedStageFamily, ResidualRoute};
use emel_model::lfm2::event::{
    BlockAudit, BlockBuild, BlockValidation, BlockVisit, ContractBegin, ContractReset, ContractVisit, Error,
    PlanBuild, StageAudit, Storage as FamilyStorage, StorageBindError, StorageRelease, TopologyBuild,
};
use emel_model::lfm2::Lfm2;
use std::sync::atomic::{AtomicU64, Ordering};

fn parameters_230m() -> Parameters {
    let mut parameters = Parameters {
        context_length: 128_000,
        embedding_length: 1024,
        embedding_length_out: 1024,
        feed_forward_length: 4096,
        attention_head_count: 16,
        attention_head_count_kv: 8,
        block_count: 14,
        vocab_size: 65_536,
        shortconv_l_cache: 3,
        attention_layer_norm_rms_epsilon_bits: 1e-6f32.to_bits(),
        rope_freq_base_bits: 1_000_000.0f32.to_bits(),
        attention_layer_pattern_count: 14,
        ..Parameters::default()
    };
    for index in 2..14 {
        parameters.attention_layer_pattern_flags[index] = u8::from(index % 2 == 0);
    }
    parameters
}

#[test]
fn hparam_inventory_and_display_are_source_exact() {
    assert_eq!(HPARAM_KEYS.len(), 10);
    assert_eq!(HPARAM_KEYS[0], "lfm2.context_length");
    assert_eq!(HPARAM_KEYS[9], "lfm2.rope.freq_base");
    assert_eq!(parameters_230m().describe(), "Lfm2 14 layers, embedding 1024, context 128000");
}

#[test]
fn variant_classifies_exactly_the_maintained_geometries() {
    assert_eq!(parameters_230m().variant(), Some(Variant::TwoHundredThirtyM));
    let one_point_two = Parameters {
        block_count: 16,
        embedding_length: 2048,
        attention_head_count: 32,
        ..Parameters::default()
    };
    assert_eq!(one_point_two.variant(), Some(Variant::OnePointTwoB));
    let other = Parameters { attention_head_count: 8, ..parameters_230m() };
    assert_eq!(other.variant(), None);
    assert_eq!(Parameters::default().variant(), None);
    assert_eq!(MAX_BLOCKS, 512);
    assert_eq!((GLOBAL_TENSOR_COUNT, ATTENTION_BLOCK_TENSOR_COUNT, SHORTCONV_BLOCK_TENSOR_COUNT), (3, 11, 8));
    assert_eq!(TOKEN_EMBEDDING_NAME, "token_embd.weight");
    assert_eq!(OUTPUT_NORM_NAME, "token_embd_norm.weight");
    assert_eq!(ARCHITECTURE_NAME, "lfm2");
}

static NEXT_OWNER: AtomicU64 = AtomicU64::new(1);

const FALLBACK_ATTENTION: [i32; 6] = [2, 5, 8, 10, 12, 14];

fn parameters_1_2b() -> Parameters {
    Parameters {
        context_length: 128_000,
        embedding_length: 2048,
        embedding_length_out: 2048,
        feed_forward_length: 8192,
        attention_head_count: 32,
        attention_head_count_kv: 8,
        block_count: 16,
        vocab_size: 65_536,
        shortconv_l_cache: 3,
        attention_layer_norm_rms_epsilon_bits: 1e-6f32.to_bits(),
        rope_freq_base_bits: 1_000_000.0f32.to_bits(),
        ..Parameters::default()
    }
}

fn parameters_validation() -> Parameters {
    let mut parameters = Parameters {
        context_length: 17,
        embedding_length: 64,
        embedding_length_out: 64,
        feed_forward_length: 128,
        attention_head_count: 4,
        attention_head_count_kv: 2,
        block_count: 3,
        vocab_size: 99,
        shortconv_l_cache: 1,
        attention_layer_norm_rms_epsilon_bits: 1e-5f32.to_bits(),
        rope_freq_base_bits: 10.0f32.to_bits(),
        attention_layer_pattern_count: 3,
        ..Parameters::default()
    };
    parameters.attention_layer_pattern_flags[2] = 1;
    parameters
}

fn is_attention(parameters: &Parameters, index: i32) -> bool {
    if parameters.attention_layer_pattern_count == 0 {
        FALLBACK_ATTENTION.contains(&index)
    } else {
        usize::try_from(index).is_ok_and(|value| parameters.attention_layer_pattern_flags[value] != 0)
    }
}

fn names(parameters: &Parameters) -> Vec<Vec<u8>> {
    let mut names = vec![b"token_embd.weight".to_vec(), b"token_embd_norm.weight".to_vec()];
    for index in 0..parameters.block_count {
        for suffix in ["attn_norm.weight", "ffn_norm.weight", "ffn_gate.weight", "ffn_down.weight", "ffn_up.weight"] {
            names.push(format!("blk.{index}.{suffix}").into_bytes());
        }
        let selected: &[&str] = if is_attention(parameters, index) {
            &[
                "attn_q.weight",
                "attn_k.weight",
                "attn_v.weight",
                "attn_q_norm.weight",
                "attn_k_norm.weight",
                "attn_output.weight",
            ]
        } else {
            &["shortconv.conv.weight", "shortconv.in_proj.weight", "shortconv.out_proj.weight"]
        };
        for suffix in selected {
            names.push(format!("blk.{index}.{suffix}").into_bytes());
        }
    }
    names
}

fn actor_with_names(parameters: &Parameters, names: &[Vec<u8>]) -> (Lfm2, ModelIdentity) {
    let name_bytes = names.iter().map(Vec::len).sum();
    let mut storage = CatalogStorage::with_capacity(names.len(), name_bytes, names.len()).unwrap();
    for name in names {
        storage.push_tensor(TensorInput::new(name, 0, 1, [1, 1, 1, 1], 4, true)).unwrap();
    }
    let mut catalog = Catalog::with_owner(NEXT_OWNER.fetch_add(1, Ordering::Relaxed));
    catalog.bind_storage(BindStorage::new(storage)).unwrap();
    let model = catalog.seal_model(SealModel::new()).unwrap();
    let actor = Lfm2::new(
        catalog,
        Resolver::new(),
        FamilyStorage::with_block_capacity(usize::try_from(parameters.block_count).unwrap()).unwrap(),
    )
    .unwrap();
    (actor, model)
}

fn actor(parameters: &Parameters) -> (Lfm2, ModelIdentity) {
    actor_with_names(parameters, &names(parameters))
}

fn complete(actor: &mut Lfm2, model: ModelIdentity, parameters: &Parameters) {
    actor.contract_begin(ContractBegin::new(b"lfm2", model, parameters)).unwrap();
    for index in 0..parameters.block_count {
        actor.block_build(BlockBuild::new(index)).unwrap();
    }
    actor.topology_build(TopologyBuild::new()).unwrap();
    actor.plan_build(PlanBuild::new()).unwrap();
    for index in 0..parameters.block_count {
        actor.block_validation(BlockValidation::new(index)).unwrap();
    }
    for index in 0..parameters.block_count {
        actor.block_audit(BlockAudit::new(index)).unwrap();
    }
    for family in QuantizedStageFamily::ALL {
        actor.stage_audit(StageAudit::new(family)).unwrap();
    }
}

#[test]
fn builds_source_exact_1_2b_fallback_hybrid_contract() {
    let parameters = parameters_1_2b();
    let (mut actor, model) = actor(&parameters);
    complete(&mut actor, model, &parameters);
    let contract = actor.contract_visit(ContractVisit::new()).unwrap();
    assert_eq!(parameters.variant(), Some(Variant::OnePointTwoB));
    assert_eq!(contract.block_count(), 16);
    assert_eq!(contract.topology().tensor_count(), 149);
    assert_eq!(contract.topology().node_count(), 149);
    assert_eq!(contract.topology().workspace_capacity_bytes(), 149 * 2048 * 4);
    let shortconv = actor.block_visit(BlockVisit::new(0)).unwrap();
    assert!(!shortconv.uses_attention());
    assert_eq!(shortconv.layer().residual_route(), ResidualRoute::Shortconv);
    let attention = actor.block_visit(BlockVisit::new(2)).unwrap();
    assert!(attention.uses_attention());
    assert_eq!(attention.layer().residual_route(), ResidualRoute::Attention);
    assert_eq!(attention.layer().qk_norm_route(), AttentionQkNormRoute::HeadwiseRms);
}

#[test]
fn builds_source_exact_230m_pattern_hybrid_contract() {
    let parameters = parameters_230m();
    let (mut actor, model) = actor(&parameters);
    complete(&mut actor, model, &parameters);
    let contract = actor.contract_visit(ContractVisit::new()).unwrap();
    assert_eq!(parameters.variant(), Some(Variant::TwoHundredThirtyM));
    assert_eq!(contract.block_count(), 14);
    assert_eq!(contract.topology().tensor_count(), 133);
    assert_eq!(contract.topology().workspace_capacity_bytes(), 133 * 1024 * 4);
    assert!(!actor.block_visit(BlockVisit::new(1)).unwrap().uses_attention());
    assert!(actor.block_visit(BlockVisit::new(2)).unwrap().uses_attention());
}

#[test]
fn rejects_opposite_family_tensors_and_rolls_back_partial_contract() {
    for (parameters, index, rejected_suffix) in
        [(parameters_1_2b(), 0, "attn_q.weight"), (parameters_1_2b(), 2, "shortconv.conv.weight")]
    {
        let mut tensor_names = names(&parameters);
        tensor_names.push(format!("blk.{index}.{rejected_suffix}").into_bytes());
        let (mut actor, model) = actor_with_names(&parameters, &tensor_names);
        actor.contract_begin(ContractBegin::new(b"lfm2", model, &parameters)).unwrap();
        assert_eq!(actor.block_build(BlockBuild::new(index)), Err(Error::ModelInvalid));
        actor.contract_begin(ContractBegin::new(b"lfm2", model, &parameters)).unwrap();
    }
}

#[test]
fn pattern_classification_fails_closed_when_it_contradicts_tensors() {
    let tensor_parameters = parameters_230m();
    let tensor_names = names(&tensor_parameters);
    let mut contradictory = tensor_parameters;
    contradictory.attention_layer_pattern_flags[2] = 0;
    let (mut actor, model) = actor_with_names(&contradictory, &tensor_names);
    actor.contract_begin(ContractBegin::new(b"lfm2", model, &contradictory)).unwrap();
    assert_eq!(actor.block_build(BlockBuild::new(2)), Err(Error::ModelInvalid));
}

#[test]
fn rejects_wrong_architecture_geometry_and_missing_global_tensor() {
    let parameters = parameters_1_2b();
    let (mut actor, model) = actor(&parameters);
    assert_eq!(actor.contract_begin(ContractBegin::new(b"llama", model, &parameters)), Err(Error::InvalidRequest));
    let mut invalid = parameters;
    invalid.embedding_length = 1024;
    assert_eq!(invalid.variant(), None);
    assert_eq!(actor.contract_begin(ContractBegin::new(b"lfm2", model, &invalid)), Err(Error::ModelInvalid));

    let mut missing_names = names(&parameters);
    missing_names.remove(1);
    let (mut missing, missing_model) = actor_with_names(&parameters, &missing_names);
    assert_eq!(missing.contract_begin(ContractBegin::new(b"lfm2", missing_model, &parameters)), Err(Error::ModelInvalid));
}

#[test]
fn non_strict_builder_and_data_validation_accept_source_positive_geometry() {
    let parameters = parameters_validation();
    assert_eq!(parameters.variant(), None);
    let (mut actor, model) = actor(&parameters);
    assert_eq!(actor.contract_begin(ContractBegin::new(b"lfm2", model, &parameters)), Err(Error::ModelInvalid));
    assert_eq!(
        actor.contract_begin(ContractBegin::validation(b"lfm2", model, &parameters, parameters.block_count + 1)),
        Err(Error::ModelInvalid)
    );
    actor.contract_begin(ContractBegin::validation(b"lfm2", model, &parameters, parameters.block_count)).unwrap();
    for index in 0..parameters.block_count {
        actor.block_build(BlockBuild::new(index)).unwrap();
    }
    actor.contract_reset(ContractReset::new()).unwrap();
}

#[test]
fn one_block_per_dispatch_and_lifecycle_are_explicit() {
    let parameters = parameters_230m();
    let (mut actor, model) = actor(&parameters);
    actor.contract_begin(ContractBegin::new(b"lfm2", model, &parameters)).unwrap();
    assert_eq!(actor.block_build(BlockBuild::new(-1)), Err(Error::InvalidRequest));
    assert_eq!(actor.block_build(BlockBuild::new(14)), Err(Error::InvalidRequest));
    actor.block_build(BlockBuild::new(0)).unwrap();
    assert_eq!(actor.block_build(BlockBuild::new(0)), Err(Error::InvalidRequest));
    actor.contract_reset(ContractReset::new()).unwrap();
    let storage = actor.storage_release(StorageRelease::new()).unwrap();
    assert_eq!(storage.block_capacity(), 14);
}

#[test]
fn incomplete_lifecycle_routes_are_typed_and_recoverable() {
    let parameters = parameters_230m();
    let (mut actor, model) = actor(&parameters);
    assert!(format!("{actor:?}").starts_with("Lfm2 {"));
    assert_eq!(actor.contract_visit(ContractVisit::new()).unwrap_err(), Error::UnexpectedEvent);

    actor.contract_begin(ContractBegin::new(b"lfm2", model, &parameters)).unwrap();
    assert_eq!(actor.contract_begin(ContractBegin::new(b"lfm2", model, &parameters)), Err(Error::Busy));
    assert_eq!(actor.storage_release(StorageRelease::new()).unwrap_err(), Error::Busy);
    assert_eq!(actor.topology_build(TopologyBuild::new()), Err(Error::InvalidRequest));
    assert_eq!(actor.plan_build(PlanBuild::new()), Err(Error::InvalidRequest));
    assert_eq!(actor.block_validation(BlockValidation::new(0)), Err(Error::ModelInvalid));
    assert_eq!(actor.block_audit(BlockAudit::new(0)), Err(Error::InvalidRequest));
    assert_eq!(actor.stage_audit(StageAudit::new(QuantizedStageFamily::TokenEmbedding)), Err(Error::InvalidRequest));
    assert_eq!(actor.contract_visit(ContractVisit::new()).unwrap_err(), Error::InvalidRequest);
    assert_eq!(actor.block_visit(BlockVisit::new(0)).unwrap_err(), Error::InvalidRequest);

    actor.contract_reset(ContractReset::new()).unwrap();
    let mut storage = actor.storage_release(StorageRelease::new()).unwrap();
    storage.clear();
    assert_eq!(storage.block_capacity(), 14);

    let bind_error = StorageBindError::new(Error::Capacity, storage);
    assert_eq!(bind_error.error(), Error::Capacity);
    assert_eq!(bind_error.message(), Error::Capacity.message());
    let storage = bind_error.into_storage();
    assert_eq!(storage.block_capacity(), 14);
}

#[test]
fn complete_dispatch_path_is_allocation_free() {
    let parameters = parameters_230m();
    let (mut actor, model) = actor(&parameters);
    let measured = measure(|| complete(&mut actor, model, &parameters));
    assert_eq!(measured.count_total, 0);
}

#[test]
fn lfm2_fallback_topology_counts_only_the_fixed_layers_below_the_block_count() {
    let mut parameters = parameters_validation();
    parameters.attention_layer_pattern_count = 0;
    parameters.attention_layer_pattern_flags[2] = 0;
    let (mut actor, model) = actor(&parameters);
    actor.contract_begin(ContractBegin::validation(b"lfm2", model, &parameters, 3)).unwrap();
    for index in 0..3 {
        actor.block_build(BlockBuild::new(index)).unwrap();
    }
    actor.topology_build(TopologyBuild::new()).unwrap();
    actor.plan_build(PlanBuild::new()).unwrap();
    for index in 0..3 {
        actor.block_validation(BlockValidation::new(index)).unwrap();
    }
    assert!(actor.block_visit(BlockVisit::new(2)).unwrap().uses_attention());
    assert!(!actor.block_visit(BlockVisit::new(1)).unwrap().uses_attention());
}

#[test]
fn lfm2_validation_begin_requires_a_positive_rope_base() {
    let mut parameters = parameters_validation();
    let (mut actor, model) = actor(&parameters);
    for bits in [0u32, 0x8000_0000, 0x7fc0_0000, (-1.0f32).to_bits()] {
        parameters.rope_freq_base_bits = bits;
        assert_eq!(
            actor.contract_begin(ContractBegin::validation(b"lfm2", model, &parameters, 3)),
            Err(Error::ModelInvalid)
        );
    }
    parameters.rope_freq_base_bits = f32::INFINITY.to_bits();
    actor.contract_begin(ContractBegin::validation(b"lfm2", model, &parameters, 3)).unwrap();
}
