//! The decisions of the owned tensor loader, which moves tensor bytes into the
//! model through the tensor-residency and I/O layers: which residency strategy
//! a requested I/O strategy means, what a residency failure means to the
//! loader, whether prebound bytes match their records, and the total a load
//! reports.

use vstd::prelude::*;

use crate::data::TensorRecord;

use super::event::{Error, LoadStats};

verus! {

/// The I/O strategy a load request asks for.
#[derive(Clone, Copy, Debug, PartialEq, Eq, Structural)]
pub enum IoStrategy {
    NoStrategy,
    ReadCopy,
    StagedRead,
    MappedFile,
    ExternalBuffer,
    Unknown(u32),
}

/// How the residency layer brings tensor bytes in.
#[derive(Clone, Copy, Debug, PartialEq, Eq, Structural)]
pub enum ResidencyStrategy {
    NoStrategy,
    ReadCopy,
    StagedRead,
    MappedFile,
}

/// The failures the residency layer reports; `M` is the mapping layer's own error.
#[derive(Clone, Copy, Debug, PartialEq, Eq, Structural)]
pub enum ResidencyError<M> {
    InvalidRequest,
    UnsupportedStrategy,
    MmapUnavailable,
    ReadUnavailable,
    StagerUnavailable,
    Capacity,
    TensorAlreadyResident,
    TensorUnbound,
    MappedTensorRequiresRelease,
    Busy,
    Mmap(M),
    Read,
    Staged,
    DependencyContract,
    DependencyContractCleanup,
    BackendError,
    Internal,
}

/// The residency strategy an I/O strategy means; external buffers and unknown
/// strategies have none.
pub open spec fn residency_strategy_of(strategy: IoStrategy) -> Option<ResidencyStrategy> {
    match strategy {
        IoStrategy::NoStrategy => Some(ResidencyStrategy::NoStrategy),
        IoStrategy::ReadCopy => Some(ResidencyStrategy::ReadCopy),
        IoStrategy::StagedRead => Some(ResidencyStrategy::StagedRead),
        IoStrategy::MappedFile => Some(ResidencyStrategy::MappedFile),
        IoStrategy::ExternalBuffer | IoStrategy::Unknown(_) => None,
    }
}

/// What a residency failure means to the loader: a refused request stays a
/// refused request, a missing I/O path means the strategy is unavailable, and
/// every other failure is a backend error.
pub open spec fn loader_error_of<M>(error: ResidencyError<M>) -> Error<M> {
    match error {
        ResidencyError::InvalidRequest => Error::InvalidRequest,
        ResidencyError::UnsupportedStrategy | ResidencyError::MmapUnavailable | ResidencyError::ReadUnavailable
        | ResidencyError::StagerUnavailable => Error::IoStrategyUnavailable,
        _ => Error::BackendError,
    }
}

/// What a failed release of mapped residency means: the mapping layer's own
/// failure is handed on, any other failure is classified as usual.
pub open spec fn release_error_of<M>(error: ResidencyError<M>) -> Error<M> {
    match error {
        ResidencyError::Mmap(mapping) => Error::MappedReleaseFailed(mapping),
        _ => loader_error_of(error),
    }
}

/// Every one of the first `n` records has prebound bytes of exactly its data size.
pub open spec fn prebound_match(records: Seq<TensorRecord>, byte_lengths: Seq<Option<u64>>, n: int) -> bool {
    forall|i: int| 0 <= i < n ==> #[trigger] byte_lengths[i] == Some(records[i].data_size)
}

/// The sum of the data sizes of the first `n` records.
pub open spec fn data_size_total(records: Seq<TensorRecord>, n: int) -> int
    decreases n,
{
    if n <= 0 {
        0
    } else {
        data_size_total(records, n - 1) + records[n - 1].data_size
    }
}

/// The residency strategy for a requested I/O strategy.
pub fn residency_strategy<M>(strategy: IoStrategy) -> (resolved: Result<ResidencyStrategy, Error<M>>)
    ensures
        resolved == match residency_strategy_of(strategy) {
            Some(s) => Ok::<ResidencyStrategy, Error<M>>(s),
            None => Err(Error::IoStrategyUnavailable),
        },
{
    match strategy {
        IoStrategy::NoStrategy => Ok(ResidencyStrategy::NoStrategy),
        IoStrategy::ReadCopy => Ok(ResidencyStrategy::ReadCopy),
        IoStrategy::StagedRead => Ok(ResidencyStrategy::StagedRead),
        IoStrategy::MappedFile => Ok(ResidencyStrategy::MappedFile),
        IoStrategy::ExternalBuffer | IoStrategy::Unknown(_) => Err(Error::IoStrategyUnavailable),
    }
}

/// Classifies a residency failure for the loader.
pub fn loader_error<M: Copy>(error: ResidencyError<M>) -> (classified: Error<M>)
    ensures
        classified == loader_error_of(error),
{
    match error {
        ResidencyError::InvalidRequest => Error::InvalidRequest,
        ResidencyError::UnsupportedStrategy | ResidencyError::MmapUnavailable | ResidencyError::ReadUnavailable
        | ResidencyError::StagerUnavailable => Error::IoStrategyUnavailable,
        _ => Error::BackendError,
    }
}

/// Classifies the failure of a mapped-residency release.
pub fn release_error<M: Copy>(error: ResidencyError<M>) -> (classified: Error<M>)
    ensures
        classified == release_error_of(error),
{
    match error {
        ResidencyError::Mmap(mapping) => Error::MappedReleaseFailed(mapping),
        _ => loader_error(error),
    }
}

/// Whether the first `count` records all have prebound bytes of exactly their
/// data size; `byte_lengths[i]` is the length of record `i`'s bytes, if any.
pub fn prebound_bytes_match(records: &[TensorRecord], byte_lengths: &[Option<u64>], count: usize) -> (matched: bool)
    requires
        count <= records@.len(),
        count <= byte_lengths@.len(),
    ensures
        matched == prebound_match(records@, byte_lengths@, count as int),
{
    let mut i: usize = 0;
    while i < count
        invariant
            i <= count,
            count <= records@.len(),
            count <= byte_lengths@.len(),
            prebound_match(records@, byte_lengths@, i as int),
        decreases count - i,
    {
        let matches = match byte_lengths[i] {
            Some(length) => length == records[i].data_size,
            None => false,
        };
        if !matches {
            assert(!prebound_match(records@, byte_lengths@, count as int)) by {
                assert(byte_lengths@[i as int] != Some(records@[i as int].data_size));
            }
            return false;
        }
        i = i + 1;
    }
    true
}

/// The total data size of the first `count` records, refused as an invalid
/// request when it does not fit 64 bits.
pub fn data_size_sum<M>(records: &[TensorRecord], count: usize) -> (total: Result<u64, Error<M>>)
    requires
        count <= records@.len(),
    ensures
        match total {
            Ok(t) => t == data_size_total(records@, count as int),
            Err(e) => e == Error::<M>::InvalidRequest && data_size_total(records@, count as int) > u64::MAX,
        },
{
    let mut total: u64 = 0;
    let mut i: usize = 0;
    while i < count
        invariant
            i <= count,
            count <= records@.len(),
            total == data_size_total(records@, i as int),
        decreases count - i,
    {
        let size = records[i].data_size;
        if size > u64::MAX - total {
            proof {
                lemma_total_grows(records@, i as int + 1, count as int);
            }
            return Err(Error::InvalidRequest);
        }
        total = total + size;
        i = i + 1;
    }
    Ok(total)
}

/// Totals only grow as records are added.
proof fn lemma_total_grows(records: Seq<TensorRecord>, i: int, n: int)
    requires
        0 <= i <= n,
    ensures
        data_size_total(records, i) <= data_size_total(records, n),
    decreases n - i,
{
    if i < n {
        lemma_total_grows(records, i + 1, n);
    }
}

/// The statistics of a completed residency load of `total` bytes with the
/// requested strategy; a mapped load moves no bytes into the model itself.
pub fn residency_stats<S>(total: u64, mapped: bool, strategy: S) -> (stats: LoadStats<S>)
    ensures
        stats == (LoadStats { bytes_total: total, bytes_done: total, used_mmap: mapped, used_strategy: strategy }),
{
    LoadStats { bytes_total: total, bytes_done: total, used_mmap: mapped, used_strategy: strategy }
}

} // verus!
