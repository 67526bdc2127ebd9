use emel_model::data::TensorRecord;
use emel_model::loader::event::{Error, LoadStats};
use emel_model::loader::residency::{
    data_size_sum, loader_error, prebound_bytes_match, release_error, residency_stats, residency_strategy,
    IoStrategy, ResidencyError, ResidencyStrategy,
};

fn record(data_size: u64) -> TensorRecord {
    TensorRecord { data_size, ..TensorRecord::default() }
}

#[test]
fn requested_strategies_map_to_residency_strategies() {
    assert_eq!(residency_strategy::<u8>(IoStrategy::NoStrategy), Ok(ResidencyStrategy::NoStrategy));
    assert_eq!(residency_strategy::<u8>(IoStrategy::ReadCopy), Ok(ResidencyStrategy::ReadCopy));
    assert_eq!(residency_strategy::<u8>(IoStrategy::StagedRead), Ok(ResidencyStrategy::StagedRead));
    assert_eq!(residency_strategy::<u8>(IoStrategy::MappedFile), Ok(ResidencyStrategy::MappedFile));
    assert_eq!(residency_strategy::<u8>(IoStrategy::ExternalBuffer), Err(Error::IoStrategyUnavailable));
    assert_eq!(residency_strategy::<u8>(IoStrategy::Unknown(9)), Err(Error::IoStrategyUnavailable));
}

#[test]
fn residency_failures_are_classified_for_the_loader() {
    assert_eq!(loader_error(ResidencyError::<u8>::InvalidRequest), Error::InvalidRequest);
    assert_eq!(loader_error(ResidencyError::<u8>::MmapUnavailable), Error::IoStrategyUnavailable);
    assert_eq!(loader_error(ResidencyError::<u8>::StagerUnavailable), Error::IoStrategyUnavailable);
    assert_eq!(loader_error(ResidencyError::<u8>::Capacity), Error::BackendError);
    assert_eq!(loader_error(ResidencyError::Mmap(3u8)), Error::BackendError);
    assert_eq!(release_error(ResidencyError::Mmap(3u8)), Error::MappedReleaseFailed(3));
    assert_eq!(release_error(ResidencyError::<u8>::Busy), Error::BackendError);
}

#[test]
fn prebound_bytes_must_match_every_record() {
    let records = [record(4), record(2)];
    assert!(prebound_bytes_match(&records, &[Some(4), Some(2)], 2));
    assert!(!prebound_bytes_match(&records, &[Some(4), None], 2));
    assert!(!prebound_bytes_match(&records, &[Some(4), Some(3)], 2));
    assert!(prebound_bytes_match(&records, &[Some(4), None], 1));
}

#[test]
fn the_byte_total_is_checked() {
    assert_eq!(data_size_sum::<u8>(&[record(4), record(2)], 2), Ok(6));
    assert_eq!(data_size_sum::<u8>(&[record(u64::MAX), record(1)], 2), Err(Error::InvalidRequest));
    assert_eq!(data_size_sum::<u8>(&[record(u64::MAX), record(1)], 1), Ok(u64::MAX));
    assert_eq!(
        residency_stats(6, true, 2u8),
        LoadStats { bytes_total: 6, bytes_done: 6, used_mmap: true, used_strategy: 2 }
    );
}
