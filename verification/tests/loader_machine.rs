use emel_model::data::Data;
use emel_model::loader::actor::NoTensorLoader;
use emel_model::loader::event::{Error, LoadError, LoadStats, Source};
use emel_model::loader::machine::{
    after_architecture_check, after_map_layers, after_parse, after_request, after_structure_check,
    after_tensor_load, load_error, outcome, tensor_load_status, LoadFlags, LoadStatus, Next, Phase,
};

const NONE: u8 = 0;
const MMAP: u8 = 2;

fn full_flags() -> LoadFlags<u8> {
    LoadFlags {
        has_parser: true,
        has_source: true,
        vocab_only: false,
        check_tensors: true,
        validate_architecture: true,
        has_map_layers: true,
        has_structure_check: true,
        has_architecture_check: true,
        has_done_callback: true,
        has_error_callback: true,
        tensor_count: 3,
        io_strategy: MMAP,
    }
}

fn failed(error: Error<u8>) -> LoadStatus<u8, u8> {
    LoadStatus { error, stats: LoadStats::empty(NONE) }
}

fn loaded() -> LoadStats<u8> {
    LoadStats { bytes_total: 96, bytes_done: 96, used_mmap: true, used_strategy: MMAP }
}

#[test]
fn request_without_parser_or_source_is_invalid() {
    let flags = full_flags();
    assert_eq!(after_request::<u8, u8>(&flags, NONE), Next::Run(Phase::Parse));
    let no_parser = LoadFlags { has_parser: false, ..flags };
    assert_eq!(after_request::<u8, u8>(&no_parser, NONE), Next::Finish(failed(Error::InvalidRequest)));
    let no_source = LoadFlags { has_source: false, ..flags };
    assert_eq!(after_request::<u8, u8>(&no_source, NONE), Next::Finish(failed(Error::InvalidRequest)));
}

#[test]
fn parse_errors_are_preserved_and_tensor_counts_are_bounded() {
    let flags = full_flags();
    assert_eq!(after_parse(&flags, Error::<u8>::ParseFailed, NONE), Next::Finish(failed(Error::ParseFailed)));
    assert_eq!(after_parse(&flags, Error::<u8>::NoError, NONE), Next::Run(Phase::LoadTensors));
    let empty = LoadFlags { tensor_count: 0, ..flags };
    assert_eq!(after_parse(&empty, Error::<u8>::NoError, NONE), Next::Finish(failed(Error::InvalidRequest)));
    let too_many = LoadFlags { tensor_count: 65_537, ..flags };
    assert_eq!(after_parse(&too_many, Error::<u8>::NoError, NONE), Next::Finish(failed(Error::InvalidRequest)));
    let largest = LoadFlags { tensor_count: 65_536, ..flags };
    assert_eq!(after_parse(&largest, Error::<u8>::NoError, NONE), Next::Run(Phase::LoadTensors));
}

#[test]
fn vocab_only_loads_skip_tensors_and_follow_the_validation_policy() {
    let flags = LoadFlags { vocab_only: true, tensor_count: 0, ..full_flags() };
    assert_eq!(after_parse(&flags, Error::<u8>::NoError, NONE), Next::Run(Phase::ValidateStructure));
    let unchecked = LoadFlags { check_tensors: false, ..flags };
    assert_eq!(after_parse(&unchecked, Error::<u8>::NoError, NONE), Next::Run(Phase::ValidateArchitecture));
    let plain = LoadFlags { check_tensors: false, validate_architecture: false, ..flags };
    assert_eq!(after_parse(&plain, Error::<u8>::NoError, NONE), Next::Finish(failed(Error::NoError)));
    let missing_check = LoadFlags { has_structure_check: false, ..flags };
    assert_eq!(after_parse(&missing_check, Error::<u8>::NoError, NONE), Next::Finish(failed(Error::InvalidRequest)));
}

#[test]
fn tensor_load_outcomes_lead_to_mapping_or_end_the_load() {
    let flags = full_flags();
    assert_eq!(after_tensor_load(&flags, Ok::<LoadStats<u8>, Error<u8>>(loaded()), NONE), Next::Run(Phase::MapLayers));
    assert_eq!(
        after_tensor_load(&flags, Err::<LoadStats<u8>, Error<u8>>(Error::BackendError), NONE),
        Next::Finish(failed(Error::BackendError))
    );
    let unmapped = LoadFlags { has_map_layers: false, ..flags };
    assert_eq!(
        after_tensor_load(&unmapped, Ok::<LoadStats<u8>, Error<u8>>(loaded()), NONE),
        Next::Finish(failed(Error::InvalidRequest))
    );
}

#[test]
fn checks_keep_the_statistics_of_the_tensor_load() {
    let flags = full_flags();
    let status = LoadStatus { error: Error::<u8>::NoError, stats: loaded() };
    assert_eq!(after_map_layers(&flags, status, Error::NoError, NONE), Next::Run(Phase::ValidateStructure));
    assert_eq!(
        after_map_layers(&flags, status, Error::ModelInvalid, NONE),
        Next::Finish(LoadStatus { error: Error::ModelInvalid, stats: loaded() })
    );
    assert_eq!(after_structure_check(&flags, status, Error::NoError, NONE), Next::Run(Phase::ValidateArchitecture));
    assert_eq!(
        after_structure_check(&flags, status, Error::MappedReleaseFailed(7), NONE),
        Next::Finish(LoadStatus { error: Error::MappedReleaseFailed(7), stats: loaded() })
    );
    let no_arch = LoadFlags { validate_architecture: false, ..flags };
    assert_eq!(after_structure_check(&no_arch, status, Error::NoError, NONE), Next::Finish(status));
    let missing_arch = LoadFlags { has_architecture_check: false, ..flags };
    assert_eq!(
        after_structure_check(&missing_arch, status, Error::NoError, NONE),
        Next::Finish(failed(Error::InvalidRequest))
    );
    assert_eq!(
        after_architecture_check(status, Error::ModelInvalid),
        LoadStatus { error: Error::ModelInvalid, stats: loaded() }
    );
}

#[test]
fn finished_loads_publish_statistics_or_the_error() {
    let flags = full_flags();
    let done = LoadStatus { error: Error::<u8>::NoError, stats: loaded() };
    assert_eq!(outcome(done), Ok(loaded()));
    let broken = failed(Error::Unknown(9));
    assert_eq!(outcome(broken), Err(Error::Unknown(9)));
    let failure = load_error(&flags, broken);
    assert_eq!(failure, LoadError::new(Error::Unknown(9), MMAP, NONE));
    assert_eq!(failure.error(), Error::Unknown(9));
    assert_eq!(failure.requested_strategy(), MMAP);
    assert_eq!(failure.used_strategy(), NONE);
}

#[test]
fn load_statistics_report_their_fields() {
    let stats = loaded();
    assert_eq!(stats.bytes_total(), 96);
    assert_eq!(stats.bytes_done(), 96);
    assert!(stats.used_mmap());
    assert_eq!(stats.used_strategy(), MMAP);
    let empty = LoadStats::empty(NONE);
    assert_eq!(empty.bytes_total(), 0);
    assert!(!empty.used_mmap());
}

#[test]
fn sources_need_a_path_an_image_or_a_mapped_file() {
    let empty: Source<'_, u32> = Source::new("", None);
    assert!(!empty.is_present());
    assert!(!Source::<u32>::new("", Some(&[])).is_present());
    assert!(Source::<u32>::new("model.gguf", None).is_present());
    let image = [1u8, 2, 3];
    let with_image: Source<'_, u32> = Source::new("", Some(&image));
    assert!(with_image.is_present());
    assert_eq!(with_image.file_image(), Some(&image[..]));
    let none_mapped: [u32; 0] = [];
    assert!(!empty.with_mapped_files(&none_mapped).is_present());
    let mapped = [7u32];
    let with_files = empty.with_mapped_files(&mapped);
    assert!(with_files.is_present());
    assert_eq!(with_files.mapped_files(), Some(&mapped[..]));
    assert_eq!(with_files.model_path(), "");
}

#[test]
fn default_tensor_loader_reports_no_io_strategy() {
    let mut model = Data::try_new().unwrap();
    model.n_tensors = 2;
    let mut loader = NoTensorLoader;
    let source: Source<'_, u32> = Source::new("model.gguf", None);
    let result: Result<LoadStats<u8>, Error<u8>> = loader.load(&mut model, source, MMAP);
    assert_eq!(result, Err(Error::IoStrategyUnavailable));
    assert_eq!(model.n_tensors, 2);
    assert_eq!(
        after_tensor_load(&full_flags(), result, NONE),
        Next::Finish(failed(Error::IoStrategyUnavailable))
    );
}

#[test]
fn a_full_load_runs_every_phase_once_in_order() {
    let flags = full_flags();
    let mut phases = Vec::new();
    let mut status = LoadStatus { error: Error::<u8>::NoError, stats: LoadStats::empty(NONE) };
    let mut next = after_request::<u8, u8>(&flags, NONE);
    let end = loop {
        match next {
            Next::Finish(end) => break end,
            Next::Run(phase) => {
                phases.push(phase);
                next = match phase {
                    Phase::Parse => after_parse(&flags, Error::NoError, NONE),
                    Phase::LoadTensors => {
                        status = LoadStatus { error: Error::NoError, stats: loaded() };
                        after_tensor_load(&flags, Ok(loaded()), NONE)
                    }
                    Phase::MapLayers => after_map_layers(&flags, status, Error::NoError, NONE),
                    Phase::ValidateStructure => after_structure_check(&flags, status, Error::NoError, NONE),
                    Phase::ValidateArchitecture => Next::Finish(after_architecture_check(status, Error::NoError)),
                };
            }
        }
    };
    assert_eq!(
        phases,
        vec![
            Phase::Parse,
            Phase::LoadTensors,
            Phase::MapLayers,
            Phase::ValidateStructure,
            Phase::ValidateArchitecture
        ]
    );
    assert_eq!(outcome(end), Ok(loaded()));
}

#[test]
fn the_tensor_load_leaves_its_statistics_or_its_error() {
    assert_eq!(
        tensor_load_status::<u8, u8>(Ok(loaded()), NONE),
        LoadStatus { error: Error::NoError, stats: loaded() }
    );
    assert_eq!(tensor_load_status::<u8, u8>(Err(Error::BackendError), NONE), failed(Error::BackendError));
}
