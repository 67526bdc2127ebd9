//! Building caller-owned catalog storage from the tensor table of a parsed model
//! file: the count checks, the two passes over the table and what each query
//! outcome means.
//!
//! The file queries run outside this module; the function here takes their
//! outcomes, one per tensor index, as plain values.

use vstd::prelude::*;

use crate::catalog::{capacities_valid, fresh_storage, pushed, Error, Storage, StorageView, TensorInput};
use crate::data::MAX_TENSORS;
use crate::loader::hparams::QueryError;

verus! {

/// The facts of one tensor as the model file describes it.
#[derive(Clone, Copy, Debug)]
pub struct FileTensor<'a> {
    pub name: &'a [u8],
    pub wire_type: u32,
    pub dimension_count: u64,
    pub dimensions: [u64; 4],
    pub data_size: u64,
}

/// The catalog error for the outcome of a query that must find something.
pub open spec fn presence_error(found: Result<bool, QueryError>) -> Option<Error> {
    match found {
        Ok(true) => None,
        Err(QueryError::NotParsed) => Some(Error::StorageUnavailable),
        Err(QueryError::Internal) => Some(Error::Internal),
        _ => Some(Error::ModelInvalid),
    }
}

/// The catalog error for the outcome of the query one past the last tensor,
/// which must find nothing.
pub open spec fn past_end_error(found: Result<bool, QueryError>) -> Option<Error> {
    match found {
        Ok(false) => None,
        Err(QueryError::NotParsed) => Some(Error::StorageUnavailable),
        Err(QueryError::Internal) => Some(Error::Internal),
        _ => Some(Error::ModelInvalid),
    }
}

/// Whether a tensor query found its tensor.
pub open spec fn found<'a>(entry: Result<Option<FileTensor<'a>>, QueryError>) -> Result<bool, QueryError> {
    match entry {
        Ok(Some(_)) => Ok(true),
        Ok(None) => Ok(false),
        Err(e) => Err(e),
    }
}

/// Bytes of the names of the first `n` tensors, counting a tensor that was not
/// found as empty.
pub open spec fn name_bytes<'a>(tensors: Seq<Result<Option<FileTensor<'a>>, QueryError>>, n: int) -> int
    decreases n,
{
    if n <= 0 {
        0
    } else {
        name_bytes(tensors, n - 1) + match tensors[n - 1] {
            Ok(Some(t)) => t.name@.len() as int,
            _ => 0,
        }
    }
}

/// The first error of the sizing pass over the first `n` tensors: a query that
/// did not find its tensor, or a name total beyond `usize`.
pub open spec fn sizing_error<'a>(tensors: Seq<Result<Option<FileTensor<'a>>, QueryError>>, n: int) -> Option<Error>
    decreases n,
{
    if n <= 0 {
        None
    } else if sizing_error(tensors, n - 1) is Some {
        sizing_error(tensors, n - 1)
    } else if presence_error(found(tensors[n - 1])) is Some {
        presence_error(found(tensors[n - 1]))
    } else if name_bytes(tensors, n) > usize::MAX {
        Some(Error::Capacity)
    } else {
        None
    }
}

/// Every error that comes before the storage is allocated.
pub open spec fn preparation_error<'a>(
    tensor_count: u32,
    past_end: Result<bool, QueryError>,
    tensors: Seq<Result<Option<FileTensor<'a>>, QueryError>>,
) -> Option<Error> {
    if tensor_count > MAX_TENSORS {
        Some(Error::Capacity)
    } else if past_end_error(past_end) is Some {
        past_end_error(past_end)
    } else if tensor_count == 0 {
        Some(Error::ModelInvalid)
    } else if sizing_error(tensors, tensor_count as int) is Some {
        sizing_error(tensors, tensor_count as int)
    } else if !capacities_valid(tensor_count as int, name_bytes(tensors, tensor_count as int), tensor_count as int) {
        Some(Error::Capacity)
    } else {
        None
    }
}

/// The record input of a file tensor, when its dimensions fit `i64` and their
/// count fits `i32`.
pub open spec fn tensor_input<'a>(t: FileTensor<'a>) -> Option<TensorInput<'a>> {
    if t.dimensions[0] <= i64::MAX && t.dimensions[1] <= i64::MAX && t.dimensions[2] <= i64::MAX
        && t.dimensions[3] <= i64::MAX && t.dimension_count <= i32::MAX {
        Some(
            TensorInput {
                name: t.name,
                wire_type: t.wire_type,
                dimension_count: t.dimension_count as i32,
                dimensions: [
                    t.dimensions[0] as i64,
                    t.dimensions[1] as i64,
                    t.dimensions[2] as i64,
                    t.dimensions[3] as i64,
                ],
                data_size: t.data_size,
                binding_present: true,
            },
        )
    } else {
        None
    }
}

/// Some of the first `n` tensors cannot be recorded.
pub open spec fn conversion_fails<'a>(tensors: Seq<Result<Option<FileTensor<'a>>, QueryError>>, n: int) -> bool {
    exists|i: int| 0 <= i < n && (#[trigger] tensors[i] matches Ok(Some(t)) && tensor_input(t) is None)
}

/// The storage after recording the first `n` tensors in order.
pub open spec fn recorded<'a>(
    v: StorageView,
    tensors: Seq<Result<Option<FileTensor<'a>>, QueryError>>,
    n: int,
) -> StorageView
    decreases n,
{
    if n <= 0 {
        v
    } else {
        match tensors[n - 1] {
            Ok(Some(t)) => match tensor_input(t) {
                Some(input) => pushed(recorded(v, tensors, n - 1), input),
                None => recorded(v, tensors, n - 1),
            },
            _ => recorded(v, tensors, n - 1),
        }
    }
}

/// The catalog error for whether a query found something.
pub fn presence(found: Result<bool, QueryError>) -> (error: Option<Error>)
    ensures
        error == presence_error(found),
{
    match found {
        Ok(true) => None,
        Err(QueryError::NotParsed) => Some(Error::StorageUnavailable),
        Err(QueryError::Internal) => Some(Error::Internal),
        _ => Some(Error::ModelInvalid),
    }
}

/// The catalog error for the query one past the last tensor.
pub fn past_end(found: Result<bool, QueryError>) -> (error: Option<Error>)
    ensures
        error == past_end_error(found),
{
    match found {
        Ok(false) => None,
        Err(QueryError::NotParsed) => Some(Error::StorageUnavailable),
        Err(QueryError::Internal) => Some(Error::Internal),
        _ => Some(Error::ModelInvalid),
    }
}

/// The four dimensions as signed values, when each fits.
pub fn convert_dimensions(values: [u64; 4]) -> (dimensions: Option<[i64; 4]>)
    ensures
        match dimensions {
            Some(d) => values[0] <= i64::MAX && values[1] <= i64::MAX && values[2] <= i64::MAX && values[3]
                <= i64::MAX && d@ == seq![values[0] as i64, values[1] as i64, values[2] as i64, values[3] as i64],
            None => !(values[0] <= i64::MAX && values[1] <= i64::MAX && values[2] <= i64::MAX && values[3]
                <= i64::MAX),
        },
{
    if values[0] > i64::MAX as u64 || values[1] > i64::MAX as u64 || values[2] > i64::MAX as u64 || values[3]
        > i64::MAX as u64 {
        return None;
    }
    let d = [values[0] as i64, values[1] as i64, values[2] as i64, values[3] as i64];
    assert(d@ =~= seq![values[0] as i64, values[1] as i64, values[2] as i64, values[3] as i64]);
    Some(d)
}

proof fn lemma_name_bytes_bounds<'a>(tensors: Seq<Result<Option<FileTensor<'a>>, QueryError>>, i: int, n: int)
    requires
        0 <= i <= n,
    ensures
        0 <= name_bytes(tensors, i) <= name_bytes(tensors, n),
    decreases n,
{
    if i < n {
        lemma_name_bytes_bounds(tensors, i, n - 1);
    } else if n > 0 {
        lemma_name_bytes_bounds(tensors, n - 1, n - 1);
    }
}

/// Once the sizing pass has failed, later tensors do not change its error.
proof fn lemma_sizing_error_persists<'a>(tensors: Seq<Result<Option<FileTensor<'a>>, QueryError>>, k: int, n: int)
    requires
        0 <= k <= n,
        sizing_error(tensors, k) is Some,
    ensures
        sizing_error(tensors, n) == sizing_error(tensors, k),
    decreases n,
{
    if k < n {
        lemma_sizing_error_persists(tensors, k, n - 1);
    }
}

/// Builds catalog storage from a parsed model's tensor table: `tensor_count`
/// tensors, the outcome of the query one past the last one, and the outcome of
/// the query of each tensor index. The table must end exactly at the count and
/// every tensor must be present; the storage is sized from the names' total and
/// then holds one record per tensor, in index order. Once the storage is
/// granted, the answer is that of [`record_tensors`]; before, every refusal is
/// the one `preparation_error` names, and an allocator that refuses the storage
/// gives `Capacity`.
pub fn storage_from_tensors(
    tensor_count: u32,
    past_end_found: Result<bool, QueryError>,
    tensors: &[Result<Option<FileTensor<'_>>, QueryError>],
) -> (storage: Result<Storage, Error>)
    requires
        tensor_count > MAX_TENSORS || tensors@.len() == tensor_count,
    ensures
        preparation_error(tensor_count, past_end_found, tensors@) matches Some(e) ==> storage == Err::<Storage, Error>(e),
        preparation_error(tensor_count, past_end_found, tensors@) is None ==> match storage {
            Ok(s) => {
                &&& s.wf()
                &&& !conversion_fails(tensors@, tensor_count as int)
                &&& s@ == recorded(
                    fresh_storage(
                        tensor_count as nat,
                        name_bytes(tensors@, tensor_count as int) as nat,
                        tensor_count as nat,
                    ),
                    tensors@,
                    tensor_count as int,
                )
            },
            Err(e) => e == Error::Capacity || (e == Error::ModelInvalid && conversion_fails(
                tensors@,
                tensor_count as int,
            )),
        },
{
    if tensor_count as usize > MAX_TENSORS {
        return Err(Error::Capacity);
    }
    if let Some(error) = past_end(past_end_found) {
        return Err(error);
    }
    if tensor_count == 0 {
        return Err(Error::ModelInvalid);
    }
    let count = tensor_count as usize;
    let mut total: usize = 0;
    let mut i: usize = 0;
    while i < count
        invariant
            count == tensors@.len(),
            count == tensor_count,
            0 < count <= MAX_TENSORS,
            past_end_error(past_end_found) is None,
            i <= count,
            sizing_error(tensors@, i as int) is None,
            total == name_bytes(tensors@, i as int),
        decreases count - i,
    {
        let entry = &tensors[i];
        let present = match entry {
            Ok(Some(_)) => Ok(true),
            Ok(None) => Ok(false),
            Err(e) => Err(*e),
        };
        if let Some(error) = presence(present) {
            proof {
                assert(found(tensors@[i as int]) == present);
                assert(sizing_error(tensors@, i as int + 1) == Some(error));
                lemma_sizing_error_persists(tensors@, i as int + 1, count as int);
            }
            return Err(error);
        }
        let length = match entry {
            Ok(Some(t)) => t.name.len(),
            _ => 0,
        };
        if length > usize::MAX - total {
            proof {
                assert(found(tensors@[i as int]) == present);
                assert(sizing_error(tensors@, i as int + 1) == Some(Error::Capacity));
                lemma_sizing_error_persists(tensors@, i as int + 1, count as int);
            }
            return Err(Error::Capacity);
        }
        total = total + length;
        i = i + 1;
    }
    let storage = Storage::with_capacity(count, total, count)?;
    record_tensors(storage, tensors, tensor_count)
}

/// Records the tensors of a table that passed the sizing pass into storage
/// freshly allocated for them, one record per tensor in index order. A tensor
/// whose dimensions do not fit the record refuses the table with `ModelInvalid`;
/// nothing else can fail, since the storage was sized for exactly these names.
pub fn record_tensors(
    storage: Storage,
    tensors: &[Result<Option<FileTensor<'_>>, QueryError>],
    tensor_count: u32,
) -> (result: Result<Storage, Error>)
    requires
        0 < tensor_count <= MAX_TENSORS,
        tensors@.len() == tensor_count,
        sizing_error(tensors@, tensor_count as int) is None,
        storage.wf(),
        capacities_valid(
            tensor_count as int,
            name_bytes(tensors@, tensor_count as int),
            tensor_count as int,
        ),
        storage@ == fresh_storage(
            tensor_count as nat,
            name_bytes(tensors@, tensor_count as int) as nat,
            tensor_count as nat,
        ),
    ensures
        result is Err <==> conversion_fails(tensors@, tensor_count as int),
        result matches Err(e) ==> e == Error::ModelInvalid,
        result matches Ok(s) ==> s.wf() && s@ == recorded(storage@, tensors@, tensor_count as int),
{
    let mut storage = storage;
    let count = tensor_count as usize;
    let ghost total = name_bytes(tensors@, tensor_count as int);
    let ghost base = storage@;
    proof {
        lemma_name_bytes_bounds(tensors@, 0, count as int);
    }
    let mut j: usize = 0;
    while j < count
        invariant
            count == tensors@.len(),
            count == tensor_count,
            0 < count <= MAX_TENSORS,
            capacities_valid(count as int, total, count as int),
            j <= count,
            sizing_error(tensors@, count as int) is None,
            total == name_bytes(tensors@, count as int),
            storage.wf(),
            storage@ == recorded(base, tensors@, j as int),
            storage@.tensor_count == j,
            storage@.name_bytes_used == name_bytes(tensors@, j as int),
            storage@.records.len() == count,
            storage@.names.len() == total,
            !conversion_fails(tensors@, j as int),
            base == fresh_storage(count as nat, total as nat, count as nat),
        decreases count - j,
    {
        proof {
            lemma_sizing_prefix(tensors@, j as int + 1, count as int);
            lemma_name_bytes_bounds(tensors@, j as int + 1, count as int);
        }
        let t = match &tensors[j] {
            Ok(Some(t)) => *t,
            _ => {
                return Err(Error::Internal);
            },
        };
        let dimensions = match convert_dimensions(t.dimensions) {
            Some(d) => d,
            None => {
                proof {
                    assert(tensors@[j as int] matches Ok(Some(u)) && tensor_input(u) is None);
                    assert(conversion_fails(tensors@, count as int));
                }
                return Err(Error::ModelInvalid);
            },
        };
        if t.dimension_count > i32::MAX as u64 {
            proof {
                assert(tensors@[j as int] matches Ok(Some(u)) && tensor_input(u) is None);
                assert(conversion_fails(tensors@, count as int));
            }
            return Err(Error::ModelInvalid);
        }
        let input = TensorInput::new(t.name, t.wire_type, t.dimension_count as i32, dimensions, t.data_size, true);
        proof {
            assert(input.dimensions =~= tensor_input(t).unwrap().dimensions);
        }
        match storage.push_tensor(input) {
            Ok(()) => {},
            Err(error) => {
                return Err(error);
            },
        }
        j = j + 1;
        proof {
            assert(!conversion_fails(tensors@, j as int)) by {
                if conversion_fails(tensors@, j as int) {
                    let k = choose|k: int|
                        0 <= k < j && (#[trigger] tensors@[k] matches Ok(Some(u)) && tensor_input(u) is None);
                    assert(k < j - 1);
                }
            }
        }
    }
    Ok(storage)
}

/// A sizing pass that succeeds over `n` tensors succeeds over every prefix and
/// finds each of its tensors.
proof fn lemma_sizing_prefix<'a>(tensors: Seq<Result<Option<FileTensor<'a>>, QueryError>>, i: int, n: int)
    requires
        0 < i <= n,
        sizing_error(tensors, n) is None,
    ensures
        sizing_error(tensors, i) is None,
        tensors[i - 1] matches Ok(Some(_)),
    decreases n - i,
{
    if i < n {
        lemma_sizing_prefix(tensors, i, n - 1);
    }
}

} // verus!
