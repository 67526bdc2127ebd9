use allocation_counter::measure;
use emel_model::catalog::{
    BindStorage, Catalog, DescribeModel, DescribeTensor, Error, FindTensor, ModelIdentity, ReleaseStorage, Reset,
    SealModel, Storage, TensorBindingStatus, TensorInput,
};
use emel_model::data::{MAX_NAME_BYTES, MAX_TENSORS};
use emel_model::tensor_type::SerializedType;
use std::sync::atomic::{AtomicU64, Ordering};

static NEXT_OWNER: AtomicU64 = AtomicU64::new(1);

fn new_catalog() -> Catalog {
    Catalog::with_owner(NEXT_OWNER.fetch_add(1, Ordering::Relaxed))
}

fn input(name: &[u8]) -> TensorInput<'_> {
    TensorInput::new(name, 0, 2, [4, 8, 1, 1], 128, true)
}

fn storage(records: &[TensorInput<'_>]) -> Storage {
    let name_bytes = records.iter().map(|record| record.name_len()).sum();
    let mut storage = Storage::with_capacity(records.len(), name_bytes, records.len()).unwrap();
    for record in records {
        storage.push_tensor(*record).unwrap();
    }
    storage
}

fn sealed_catalog(name: &[u8]) -> (Catalog, ModelIdentity) {
    let mut catalog = new_catalog();
    catalog.bind_storage(BindStorage::new(storage(&[input(name)]))).unwrap();
    let model = catalog.seal_model(SealModel::new()).unwrap();
    (catalog, model)
}

#[test]
fn cross_actor_requests_classify_owner_generation_and_state() {
    let (mut first, old_model) = sealed_catalog(b"x");
    let (_, other_model) = sealed_catalog(b"other");
    assert_eq!(first.find_tensor(FindTensor::new(other_model, b"x")), Err(Error::WrongModelIdentity));
    assert_eq!(first.describe_model(DescribeModel::new(other_model)), Err(Error::WrongModelIdentity));
    first.reset(Reset::new()).unwrap();
    let new_model = first.seal_model(SealModel::new()).unwrap();
    assert_eq!(first.find_tensor(FindTensor::new(old_model, b"x")), Err(Error::StaleModelIdentity));
    assert_eq!(first.describe_model(DescribeModel::new(old_model)), Err(Error::StaleModelIdentity));

    let unbound = new_catalog();
    let mut bound_only = new_catalog();
    bound_only.bind_storage(BindStorage::new(storage(&[input(b"q")]))).unwrap();
    for catalog in [&unbound, &bound_only] {
        assert_eq!(catalog.find_tensor(FindTensor::new(new_model, b"x")), Err(Error::StorageUnavailable));
        assert_eq!(catalog.describe_model(DescribeModel::new(new_model)), Err(Error::StorageUnavailable));
    }
}

#[test]
fn exact_bytes_duplicates_empty_nul_and_canonical_names() {
    let records = [
        input(b"same"),
        TensorInput::new(b"same", 1, 1, [99, 1, 1, 1], 42, true),
        input(&[0xff, 0, b'x']),
        input(b""),
    ];
    let mut catalog = new_catalog();
    assert!(catalog.is_empty());
    catalog.bind_storage(BindStorage::new(storage(&records))).unwrap();
    assert!(catalog.is_bound());
    let model = catalog.seal_model(SealModel::new()).unwrap();
    assert!(catalog.is_sealed());

    let first = catalog.find_tensor(FindTensor::new(model, b"same")).unwrap().unwrap();
    let second = catalog.describe_tensor(DescribeTensor::new(first.tensor_id())).unwrap();
    assert_eq!(first, second);
    assert_eq!(first.tensor_type(), SerializedType::F32);
    assert_eq!(first.dimensions(), [4, 8, 1, 1]);
    assert_eq!(first.data_size(), 128);
    let arbitrary = catalog.find_tensor(FindTensor::new(model, &[0xff, 0, b'x'])).unwrap().unwrap();
    assert_eq!(arbitrary.dimensions(), [4, 8, 1, 1]);
    let empty = catalog.find_tensor(FindTensor::new(model, b"")).unwrap().unwrap();
    assert_eq!(catalog.tensor_name(arbitrary.name_id()).unwrap(), &[0xff, 0, b'x']);
    assert_eq!(catalog.tensor_name(empty.name_id()).unwrap().len(), 0);
}

#[test]
fn bound_predicate_matches_pinned_generation_semantics() {
    let records = [
        TensorInput::new(b"unbound", 0, 1, [1; 4], 1, false),
        TensorInput::new(b"zero-size", 0, 1, [1; 4], 0, true),
        TensorInput::new(b"zero-dims", 0, 0, [1; 4], 1, true),
        TensorInput::new(b"negative", 0, 2, [1, -1, 1, 1], 1, true),
        TensorInput::new(b"five-good", 0, 5, [1, 2, 3, 4], 1, true),
        TensorInput::new(b"five-bad", 0, 5, [1, 2, 3, 0], 1, true),
    ];
    let mut catalog = new_catalog();
    catalog.bind_storage(BindStorage::new(storage(&records))).unwrap();
    let model = catalog.seal_model(SealModel::new()).unwrap();
    for name in [b"unbound".as_slice(), b"zero-size", b"zero-dims", b"negative", b"five-bad"] {
        assert!(catalog.find_tensor(FindTensor::new(model, name)).unwrap().is_some());
    }
    assert_eq!(catalog.find_tensor(FindTensor::new(model, b"missing")), Ok(None));
    let unbound = catalog.find_tensor(FindTensor::new(model, b"unbound")).unwrap().unwrap();
    assert!(!unbound.binding_present());
    assert_eq!(unbound.binding_status(), TensorBindingStatus::Unbound);
    let zero_size = catalog.find_tensor(FindTensor::new(model, b"zero-size")).unwrap().unwrap();
    assert_eq!(zero_size.data_size(), 0);
    assert_eq!(zero_size.binding_status(), TensorBindingStatus::Unbound);
    let five_good = catalog.find_tensor(FindTensor::new(model, b"five-good")).unwrap().unwrap();
    assert_eq!(five_good.dimension_count(), 5);
    assert_eq!(five_good.binding_status(), TensorBindingStatus::Bound);
    assert!(five_good.dimensions().iter().all(|dimension| *dimension > 0));
    for name in [b"zero-dims".as_slice(), b"negative", b"five-bad"] {
        let descriptor = catalog.find_tensor(FindTensor::new(model, name)).unwrap().unwrap();
        assert_eq!(descriptor.binding_status(), TensorBindingStatus::Unbound);
    }
}

#[test]
fn seal_rejects_unknown_type_bad_range_and_short_index() {
    let mut unknown = new_catalog();
    unknown
        .bind_storage(BindStorage::new(storage(&[TensorInput::new(b"x", u32::MAX, 1, [1; 4], 1, true)])))
        .unwrap();
    assert_eq!(unknown.seal_model(SealModel::new()), Err(Error::ModelInvalid));
    assert_eq!(Storage::with_capacity(1, 1, 0).unwrap_err(), Error::Capacity);
}

#[test]
fn public_diagnostics_and_storage_boundaries_are_stable() {
    let messages = [
        (Error::InvalidRequest, "invalid catalog request"),
        (Error::ModelInvalid, "model catalog input is invalid"),
        (Error::Capacity, "catalog storage capacity is unavailable"),
        (Error::StorageUnavailable, "catalog storage is unavailable"),
        (Error::Busy, "catalog is busy"),
        (Error::WrongModelIdentity, "model identity belongs to another catalog"),
        (Error::StaleModelIdentity, "model identity is stale"),
        (Error::WrongTensorIdentity, "tensor identity belongs to another catalog"),
        (Error::StaleTensorIdentity, "tensor identity is stale"),
        (Error::WrongNameIdentity, "name identity belongs to another catalog"),
        (Error::StaleNameIdentity, "name identity is stale"),
        (Error::UnexpectedEvent, "unexpected catalog event"),
        (Error::Internal, "internal catalog error"),
    ];
    for (error, message) in messages {
        assert_eq!(error.message(), message);
    }

    let mut storage = Storage::with_capacity(1, 1, 1).unwrap();
    assert_eq!(storage.tensor_capacity(), 1);
    assert_eq!(storage.name_capacity(), 1);
    storage.push_tensor(input(b"x")).unwrap();
    assert_eq!(storage.push_tensor(input(b"")), Err(Error::Capacity));

    let mut no_name_capacity = Storage::with_capacity(1, 0, 1).unwrap();
    assert_eq!(no_name_capacity.push_tensor(input(b"x")), Err(Error::Capacity));
}

#[test]
fn identities_distinguish_owners_and_generations() {
    let mut first = new_catalog();
    first.bind_storage(BindStorage::new(storage(&[input(b"x")]))).unwrap();
    let old_model = first.seal_model(SealModel::new()).unwrap();
    let old_tensor = first.find_tensor(FindTensor::new(old_model, b"x")).unwrap().unwrap();

    let mut second = new_catalog();
    second.bind_storage(BindStorage::new(storage(&[input(b"x")]))).unwrap();
    let second_model = second.seal_model(SealModel::new()).unwrap();
    let second_tensor = second.find_tensor(FindTensor::new(second_model, b"x")).unwrap().unwrap();
    assert_eq!(second.describe_model(DescribeModel::new(old_model)), Err(Error::WrongModelIdentity));
    assert_eq!(
        second.describe_tensor(DescribeTensor::new(old_tensor.tensor_id())),
        Err(Error::WrongTensorIdentity)
    );
    assert_eq!(second.tensor_name(old_tensor.name_id()), Err(Error::WrongNameIdentity));

    first.reset(Reset::new()).unwrap();
    let new_model = first.seal_model(SealModel::new()).unwrap();
    assert_eq!(first.describe_model(DescribeModel::new(old_model)), Err(Error::StaleModelIdentity));
    assert_eq!(
        first.describe_tensor(DescribeTensor::new(old_tensor.tensor_id())),
        Err(Error::StaleTensorIdentity)
    );
    assert_eq!(first.tensor_name(old_tensor.name_id()), Err(Error::StaleNameIdentity));
    assert_eq!(first.describe_model(DescribeModel::new(new_model)).unwrap().tensor_count(), 1);
    assert_ne!(second_tensor.tensor_id(), old_tensor.tensor_id());
}

#[test]
fn invalid_sequences_return_storage_and_support_reuse() {
    let mut catalog = new_catalog();
    assert_eq!(catalog.seal_model(SealModel::new()), Err(Error::StorageUnavailable));
    assert_eq!(catalog.reset(Reset::new()), Err(Error::StorageUnavailable));
    assert!(matches!(catalog.release_storage(ReleaseStorage::new()), Err(Error::StorageUnavailable)));

    catalog.bind_storage(BindStorage::new(storage(&[input(b"x")]))).unwrap();
    let rejected = catalog.bind_storage(BindStorage::new(storage(&[input(b"y")]))).unwrap_err();
    assert_eq!(rejected.error(), Error::Busy);
    let mut returned = rejected.into_storage();
    returned.clear();
    returned.push_tensor(input(b"z")).unwrap();
    assert_eq!(catalog.reset(Reset::new()), Err(Error::InvalidRequest));
    let model = catalog.seal_model(SealModel::new()).unwrap();
    assert!(matches!(catalog.release_storage(ReleaseStorage::new()), Err(Error::Busy)));
    assert_eq!(catalog.describe_model(DescribeModel::new(model)).unwrap().tensor_count(), 1);
    let tensor = catalog.find_tensor(FindTensor::new(model, b"x")).unwrap().unwrap();
    catalog.reset(Reset::new()).unwrap();
    assert_eq!(catalog.tensor_name(tensor.name_id()), Err(Error::StorageUnavailable));
    let mut released = catalog.release_storage(ReleaseStorage::new()).unwrap();
    released.clear();
    released.push_tensor(input(b"q")).unwrap();
    catalog.bind_storage(BindStorage::new(released)).unwrap();
    let model = catalog.seal_model(SealModel::new()).unwrap();
    assert!(catalog.find_tensor(FindTensor::new(model, b"q")).unwrap().is_some());
}

#[test]
fn every_public_dispatch_is_allocation_free() {
    let mut catalog = new_catalog();
    let bind = BindStorage::new(storage(&[input(b"x")]));
    let mut bind_result = None;
    let allocation = measure(|| {
        bind_result = Some(catalog.bind_storage(bind).is_ok());
    });
    assert_eq!(allocation.count_total, 0);
    assert_eq!(bind_result, Some(true));

    let mut model = None;
    let allocation = measure(|| model = Some(catalog.seal_model(SealModel::new())));
    assert_eq!(allocation.count_total, 0);
    let model = model.unwrap().unwrap();

    let mut found = None;
    let allocation = measure(|| found = Some(catalog.find_tensor(FindTensor::new(model, b"x"))));
    assert_eq!(allocation.count_total, 0);
    let descriptor = found.unwrap().unwrap().unwrap();

    let mut described = None;
    let allocation = measure(|| described = Some(catalog.describe_tensor(DescribeTensor::new(descriptor.tensor_id()))));
    assert_eq!(allocation.count_total, 0);
    assert_eq!(described.unwrap().unwrap(), descriptor);

    let mut length = 0usize;
    let allocation = measure(|| length = catalog.tensor_name(descriptor.name_id()).unwrap().len());
    assert_eq!(allocation.count_total, 0);
    assert_eq!(length, 1);

    let allocation = measure(|| {
        catalog.reset(Reset::new()).unwrap();
    });
    assert_eq!(allocation.count_total, 0);
    let mut released = None;
    let allocation = measure(|| released = Some(catalog.release_storage(ReleaseStorage::new()).is_ok()));
    assert_eq!(allocation.count_total, 0);
    assert_eq!(released, Some(true));
}

#[test]
fn maximum_name_and_tensor_count_are_supported() {
    let maximum_name = vec![b'n'; MAX_NAME_BYTES];
    let mut long_storage = Storage::with_capacity(1, maximum_name.len(), 1).unwrap();
    long_storage.push_tensor(input(&maximum_name)).unwrap();
    let mut long_catalog = new_catalog();
    long_catalog.bind_storage(BindStorage::new(long_storage)).unwrap();
    let long_model = long_catalog.seal_model(SealModel::new()).unwrap();
    assert!(long_catalog.find_tensor(FindTensor::new(long_model, &maximum_name)).unwrap().is_some());

    let mut maximum = Storage::with_capacity(MAX_TENSORS, 0, MAX_TENSORS).unwrap();
    for _ in 0..MAX_TENSORS {
        maximum.push_tensor(input(b"")).unwrap();
    }
    let mut maximum_catalog = new_catalog();
    maximum_catalog.bind_storage(BindStorage::new(maximum)).unwrap();
    let model = maximum_catalog.seal_model(SealModel::new()).unwrap();
    assert_eq!(
        maximum_catalog.describe_model(DescribeModel::new(model)).unwrap().tensor_count(),
        u32::try_from(MAX_TENSORS).unwrap()
    );
}

#[test]
fn find_returns_the_first_record_of_each_name_among_many() {
    let names: Vec<Vec<u8>> = (0..200u32).map(|i| format!("blk.{}.w", i % 50).into_bytes()).collect();
    let records: Vec<TensorInput<'_>> =
        names.iter().enumerate().map(|(i, n)| TensorInput::new(n, 0, 1, [1; 4], i as u64 + 1, true)).collect();
    let mut catalog = new_catalog();
    catalog.bind_storage(BindStorage::new(storage(&records))).unwrap();
    let model = catalog.seal_model(SealModel::new()).unwrap();
    assert_eq!(catalog.describe_model(DescribeModel::new(model)).unwrap().tensor_count(), 200);
    for i in 0..50u64 {
        let name = format!("blk.{}.w", i).into_bytes();
        let found = catalog.find_tensor(FindTensor::new(model, &name)).unwrap().unwrap();
        assert_eq!(found.data_size(), i + 1);
        assert_eq!(catalog.tensor_name(found.name_id()).unwrap(), name.as_slice());
        assert_eq!(catalog.describe_tensor(DescribeTensor::new(found.tensor_id())).unwrap(), found);
    }
    assert_eq!(catalog.find_tensor(FindTensor::new(model, b"blk.50.w")), Ok(None));
}

#[test]
fn empty_storage_seals_as_model_invalid_and_clear_resets_counts() {
    let mut catalog = new_catalog();
    catalog.bind_storage(BindStorage::new(Storage::with_capacity(2, 4, 2).unwrap())).unwrap();
    assert_eq!(catalog.seal_model(SealModel::new()), Err(Error::ModelInvalid));
    assert!(catalog.is_bound());
    let mut storage = catalog.release_storage(ReleaseStorage::new()).unwrap();
    assert!(catalog.is_empty());
    storage.push_tensor(input(b"ab")).unwrap();
    storage.push_tensor(input(b"cd")).unwrap();
    assert_eq!(storage.push_tensor(input(b"")), Err(Error::Capacity));
    storage.clear();
    storage.push_tensor(input(b"abcd")).unwrap();
    assert_eq!(Storage::with_capacity(0, 0, 0).unwrap_err(), Error::Capacity);
    assert_eq!(Storage::with_capacity(MAX_TENSORS + 1, 0, MAX_TENSORS + 1).unwrap_err(), Error::Capacity);
    assert_eq!(Storage::with_capacity(1, MAX_NAME_BYTES + 1, 1).unwrap_err(), Error::Capacity);
}

#[test]
fn cleared_storage_keeps_its_capacities_and_takes_records_again() {
    let mut storage = storage(&[input(b"ab"), input(b"cd")]);
    assert_eq!(storage.push_tensor(input(b"")), Err(Error::Capacity));
    storage.clear();
    assert_eq!(storage.tensor_capacity(), 2);
    assert_eq!(storage.name_capacity(), 4);
    storage.push_tensor(input(b"abcd")).unwrap();
    storage.push_tensor(input(b"")).unwrap();
}

#[test]
fn released_storage_binds_again_and_a_reset_catalog_seals_again() {
    let mut catalog = new_catalog();
    catalog.bind_storage(BindStorage::new(storage(&[input(b"w"), input(b"x")]))).unwrap();
    let released = catalog.release_storage(ReleaseStorage::new()).unwrap();
    catalog.bind_storage(BindStorage::new(released)).unwrap();
    let first = catalog.seal_model(SealModel::new()).unwrap();
    catalog.reset(Reset::new()).unwrap();
    let second = catalog.seal_model(SealModel::new()).unwrap();
    assert_ne!(first, second);
    let found = catalog.find_tensor(FindTensor::new(second, b"w")).unwrap().unwrap();
    assert_eq!(found.dimension_count(), 2);
    assert_eq!(found.dimensions(), [4, 8, 1, 1]);
    assert_eq!(found.data_size(), 128);
    assert!(found.binding_present());
}
