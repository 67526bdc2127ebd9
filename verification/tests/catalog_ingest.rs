use emel_model::catalog::ingest::{
    convert_dimensions, past_end, presence, record_tensors, storage_from_tensors, FileTensor,
};
use emel_model::catalog::{BindStorage, Catalog, Error, FindTensor, SealModel, Storage};
use emel_model::loader::hparams::QueryError;
use std::sync::atomic::{AtomicU64, Ordering};

static NEXT_OWNER: AtomicU64 = AtomicU64::new(1);

fn tensor(name: &[u8]) -> FileTensor<'_> {
    FileTensor { name, wire_type: 0, dimension_count: 2, dimensions: [4, 8, 1, 1], data_size: 128 }
}

#[test]
fn query_outcomes_map_to_catalog_errors() {
    assert_eq!(presence(Ok(true)), None);
    assert_eq!(presence(Ok(false)), Some(Error::ModelInvalid));
    assert_eq!(presence(Err(QueryError::IndexOutOfBounds)), Some(Error::ModelInvalid));
    assert_eq!(presence(Err(QueryError::Malformed)), Some(Error::ModelInvalid));
    assert_eq!(presence(Err(QueryError::TypeMismatch)), Some(Error::ModelInvalid));
    assert_eq!(presence(Err(QueryError::NotParsed)), Some(Error::StorageUnavailable));
    assert_eq!(presence(Err(QueryError::Internal)), Some(Error::Internal));
    assert_eq!(past_end(Ok(false)), None);
    assert_eq!(past_end(Ok(true)), Some(Error::ModelInvalid));
    assert_eq!(past_end(Err(QueryError::NotParsed)), Some(Error::StorageUnavailable));
    assert_eq!(convert_dimensions([1, 2, 3, 4]), Some([1, 2, 3, 4]));
    assert_eq!(convert_dimensions([1, 2, 3, u64::MAX]), None);
}

#[test]
fn ingestion_checks_the_count_and_the_table_end_first() {
    assert_eq!(storage_from_tensors(65_537, Ok(false), &[]).unwrap_err(), Error::Capacity);
    let one = [Ok(Some(tensor(b"a")))];
    assert_eq!(storage_from_tensors(1, Ok(true), &one).unwrap_err(), Error::ModelInvalid);
    assert_eq!(storage_from_tensors(1, Err(QueryError::NotParsed), &one).unwrap_err(), Error::StorageUnavailable);
    assert_eq!(storage_from_tensors(1, Err(QueryError::Internal), &one).unwrap_err(), Error::Internal);
    assert_eq!(storage_from_tensors(0, Ok(false), &[]).unwrap_err(), Error::ModelInvalid);
}

#[test]
fn ingestion_requires_every_tensor_and_recordable_facts() {
    let missing = [Ok(Some(tensor(b"a"))), Ok(None)];
    assert_eq!(storage_from_tensors(2, Ok(false), &missing).unwrap_err(), Error::ModelInvalid);
    let unparsed = [Err(QueryError::NotParsed), Ok(None)];
    assert_eq!(storage_from_tensors(2, Ok(false), &unparsed).unwrap_err(), Error::StorageUnavailable);
    let mut huge = tensor(b"b");
    huge.dimensions[2] = u64::MAX;
    let unrecordable = [Ok(Some(tensor(b"a"))), Ok(Some(huge))];
    assert_eq!(storage_from_tensors(2, Ok(false), &unrecordable).unwrap_err(), Error::ModelInvalid);
    let mut many = tensor(b"c");
    many.dimension_count = u64::from(u32::MAX);
    assert_eq!(storage_from_tensors(1, Ok(false), &[Ok(Some(many))]).unwrap_err(), Error::ModelInvalid);
}

#[test]
fn ingested_storage_holds_every_tensor_in_order_and_seals() {
    let table = [Ok(Some(tensor(b"token_embd.weight"))), Ok(Some(tensor(b"output_norm.weight")))];
    let storage = storage_from_tensors(2, Ok(false), &table).unwrap();
    assert_eq!(storage.tensor_capacity(), 2);
    assert_eq!(storage.name_capacity(), 17 + 18);
    let mut catalog = Catalog::with_owner(NEXT_OWNER.fetch_add(1, Ordering::Relaxed));
    catalog.bind_storage(BindStorage::new(storage)).unwrap();
    let model = catalog.seal_model(SealModel::new()).unwrap();
    let first = catalog.find_tensor(FindTensor::new(model, b"token_embd.weight")).unwrap().unwrap();
    let second = catalog.find_tensor(FindTensor::new(model, b"output_norm.weight")).unwrap().unwrap();
    assert_eq!(first.dimensions(), [4, 8, 1, 1]);
    assert_ne!(first.tensor_id(), second.tensor_id());
}

#[test]
fn recording_into_granted_storage_refuses_only_unrecordable_dimensions() {
    let good = [Ok(Some(tensor(b"ab"))), Ok(Some(tensor(b"c")))];
    let storage = Storage::with_capacity(2, 3, 2).unwrap();
    let recorded = record_tensors(storage, &good, 2).unwrap();
    assert_eq!(recorded.tensor_capacity(), 2);
    assert_eq!(recorded.name_capacity(), 3);

    let wide = FileTensor { dimensions: [4, u64::MAX, 1, 1], ..tensor(b"c") };
    let bad = [Ok(Some(tensor(b"ab"))), Ok(Some(wide))];
    let storage = Storage::with_capacity(2, 3, 2).unwrap();
    assert_eq!(record_tensors(storage, &bad, 2).unwrap_err(), Error::ModelInvalid);
}
