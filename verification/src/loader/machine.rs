//! The model-loader phase graph: parse, load the tensors, map the layers,
//! validate the structure and the architecture, then publish. Each phase runs
//! outside this module (parsers, tensor loaders and checks are the caller's);
//! the functions here take what a phase reported and say which phase runs next
//! or what the load ends with.

use vstd::prelude::*;

use crate::data::MAX_TENSORS;

use super::event::{Error, LoadError, LoadStats};

verus! {

/// What the phase graph reads of a load request: which callbacks it carries,
/// its switches, the model's tensor count and the strategy it asks for.
#[derive(Clone, Copy, Debug, PartialEq, Eq, Structural)]
pub struct LoadFlags<S> {
    pub has_parser: bool,
    pub has_source: bool,
    pub vocab_only: bool,
    pub check_tensors: bool,
    pub validate_architecture: bool,
    pub has_map_layers: bool,
    pub has_structure_check: bool,
    pub has_architecture_check: bool,
    pub has_done_callback: bool,
    pub has_error_callback: bool,
    pub tensor_count: u32,
    pub io_strategy: S,
}

/// The error of the last phase and the statistics gathered so far.
#[derive(Clone, Copy, Debug, PartialEq, Eq, Structural)]
pub struct LoadStatus<S, M> {
    pub error: Error<M>,
    pub stats: LoadStats<S>,
}

/// A phase that runs outside the graph.
#[derive(Clone, Copy, Debug, PartialEq, Eq, Structural)]
pub enum Phase {
    Parse,
    LoadTensors,
    MapLayers,
    ValidateStructure,
    ValidateArchitecture,
}

/// What follows a decision: another phase, or the end of the load with its status.
#[derive(Clone, Copy, Debug, PartialEq, Eq, Structural)]
pub enum Next<S, M> {
    Run(Phase),
    Finish(LoadStatus<S, M>),
}

/// The status of a phase that failed with `error` and gathered nothing.
pub open spec fn failed<S, M>(error: Error<M>, none: S) -> LoadStatus<S, M> {
    LoadStatus {
        error,
        stats: LoadStats { bytes_total: 0, bytes_done: 0, used_mmap: false, used_strategy: none },
    }
}

/// A request can start: it carries a parser and a source.
pub open spec fn request_valid<S>(flags: LoadFlags<S>) -> bool {
    flags.has_parser && flags.has_source
}

/// What follows once the structure phase is passed or skipped.
pub open spec fn architecture_step<S, M>(flags: LoadFlags<S>, status: LoadStatus<S, M>, none: S) -> Next<S, M> {
    if !flags.validate_architecture {
        Next::Finish(status)
    } else if flags.has_architecture_check {
        Next::Run(Phase::ValidateArchitecture)
    } else {
        Next::Finish(failed(Error::InvalidRequest, none))
    }
}

/// What follows once the tensors are loaded or skipped.
pub open spec fn structure_step<S, M>(flags: LoadFlags<S>, status: LoadStatus<S, M>, none: S) -> Next<S, M> {
    if !flags.check_tensors {
        architecture_step(flags, status, none)
    } else if flags.has_structure_check {
        Next::Run(Phase::ValidateStructure)
    } else {
        Next::Finish(failed(Error::InvalidRequest, none))
    }
}

/// What follows a request.
pub open spec fn request_step<S, M>(flags: LoadFlags<S>, none: S) -> Next<S, M> {
    if request_valid(flags) {
        Next::Run(Phase::Parse)
    } else {
        Next::Finish(failed(Error::InvalidRequest, none))
    }
}

/// What follows a parse that reported `error`.
pub open spec fn parse_step<S, M>(flags: LoadFlags<S>, error: Error<M>, none: S) -> Next<S, M> {
    if error != Error::<M>::NoError {
        Next::Finish(failed(error, none))
    } else if flags.vocab_only {
        structure_step(flags, failed(error, none), none)
    } else if 0 < flags.tensor_count <= MAX_TENSORS {
        Next::Run(Phase::LoadTensors)
    } else {
        Next::Finish(failed(Error::InvalidRequest, none))
    }
}

/// What follows the tensor load.
pub open spec fn tensor_step<S, M>(flags: LoadFlags<S>, outcome: Result<LoadStats<S>, Error<M>>, none: S) -> Next<S, M> {
    match outcome {
        Err(error) => Next::Finish(failed(error, none)),
        Ok(stats) => if flags.has_map_layers {
            Next::Run(Phase::MapLayers)
        } else {
            Next::Finish(failed(Error::InvalidRequest, none))
        },
    }
}

/// The status after the tensor load: its statistics, or the error it reported.
pub open spec fn tensor_status<S, M>(outcome: Result<LoadStats<S>, Error<M>>, none: S) -> LoadStatus<S, M> {
    match outcome {
        Ok(stats) => LoadStatus { error: Error::NoError, stats },
        Err(error) => failed(error, none),
    }
}

/// The status after a check that reported `error`, keeping the statistics.
pub open spec fn checked<S, M>(status: LoadStatus<S, M>, error: Error<M>) -> LoadStatus<S, M> {
    LoadStatus { error, stats: status.stats }
}

/// What follows the layer mapping.
pub open spec fn map_step<S, M>(flags: LoadFlags<S>, status: LoadStatus<S, M>, error: Error<M>, none: S) -> Next<S, M> {
    if error != Error::<M>::NoError {
        Next::Finish(checked(status, error))
    } else {
        structure_step(flags, checked(status, error), none)
    }
}

/// What follows the structure check.
pub open spec fn structure_check_step<S, M>(
    flags: LoadFlags<S>,
    status: LoadStatus<S, M>,
    error: Error<M>,
    none: S,
) -> Next<S, M> {
    if error != Error::<M>::NoError {
        Next::Finish(checked(status, error))
    } else {
        architecture_step(flags, checked(status, error), none)
    }
}

/// The position of a phase in the load order.
pub open spec fn phase_rank(phase: Phase) -> int {
    match phase {
        Phase::Parse => 0,
        Phase::LoadTensors => 1,
        Phase::MapLayers => 2,
        Phase::ValidateStructure => 3,
        Phase::ValidateArchitecture => 4,
    }
}

/// The phase graph only moves forward: whatever a phase reports, what follows
/// is the end of the load or a later phase, so a load runs each phase at most
/// once and always ends.
pub proof fn lemma_phases_advance<S, M>(
    flags: LoadFlags<S>,
    status: LoadStatus<S, M>,
    error: Error<M>,
    outcome: Result<LoadStats<S>, Error<M>>,
    none: S,
)
    ensures
        request_step::<S, M>(flags, none) matches Next::Run(p) ==> phase_rank(p) == 0,
        parse_step(flags, error, none) matches Next::Run(p) ==> phase_rank(p) > 0,
        tensor_step(flags, outcome, none) matches Next::Run(p) ==> phase_rank(p) > 1,
        map_step(flags, status, error, none) matches Next::Run(p) ==> phase_rank(p) > 2,
        structure_check_step(flags, status, error, none) matches Next::Run(p) ==> phase_rank(p) > 3,
{
}

fn is_no_error<M>(error: &Error<M>) -> (none: bool)
    ensures
        none == (*error == Error::<M>::NoError),
{
    match error {
        Error::NoError => true,
        _ => false,
    }
}

fn failure<S, M>(error: Error<M>, none: S) -> (status: LoadStatus<S, M>)
    ensures
        status == failed(error, none),
{
    LoadStatus {
        error,
        stats: LoadStats { bytes_total: 0, bytes_done: 0, used_mmap: false, used_strategy: none },
    }
}

fn architecture_next<S: Copy, M: Copy>(flags: &LoadFlags<S>, status: LoadStatus<S, M>, none: S) -> (next: Next<S, M>)
    ensures
        next == architecture_step(*flags, status, none),
{
    if !flags.validate_architecture {
        Next::Finish(status)
    } else if flags.has_architecture_check {
        Next::Run(Phase::ValidateArchitecture)
    } else {
        Next::Finish(failure(Error::InvalidRequest, none))
    }
}

fn structure_next<S: Copy, M: Copy>(flags: &LoadFlags<S>, status: LoadStatus<S, M>, none: S) -> (next: Next<S, M>)
    ensures
        next == structure_step(*flags, status, none),
{
    if !flags.check_tensors {
        architecture_next(flags, status, none)
    } else if flags.has_structure_check {
        Next::Run(Phase::ValidateStructure)
    } else {
        Next::Finish(failure(Error::InvalidRequest, none))
    }
}

/// Decides how a request starts; `none` is the strategy recorded when nothing was loaded.
pub fn after_request<S: Copy, M: Copy>(flags: &LoadFlags<S>, none: S) -> (next: Next<S, M>)
    ensures
        next == request_step::<S, M>(*flags, none),
{
    if flags.has_parser && flags.has_source {
        Next::Run(Phase::Parse)
    } else {
        Next::Finish(failure(Error::InvalidRequest, none))
    }
}

/// Decides what follows a parse that reported `error`.
pub fn after_parse<S: Copy, M: Copy>(flags: &LoadFlags<S>, error: Error<M>, none: S) -> (next: Next<S, M>)
    ensures
        next == parse_step(*flags, error, none),
{
    if !is_no_error(&error) {
        return Next::Finish(failure(error, none));
    }
    if flags.vocab_only {
        structure_next(flags, failure(error, none), none)
    } else if flags.tensor_count > 0 && flags.tensor_count as usize <= MAX_TENSORS {
        Next::Run(Phase::LoadTensors)
    } else {
        Next::Finish(failure(Error::InvalidRequest, none))
    }
}

/// Decides what follows the tensor load; on success the status holds its statistics.
pub fn after_tensor_load<S: Copy, M: Copy>(
    flags: &LoadFlags<S>,
    outcome: Result<LoadStats<S>, Error<M>>,
    none: S,
) -> (next: Next<S, M>)
    ensures
        next == tensor_step(*flags, outcome, none),
{
    match outcome {
        Err(error) => Next::Finish(failure(error, none)),
        Ok(_) => if flags.has_map_layers {
            Next::Run(Phase::MapLayers)
        } else {
            Next::Finish(failure(Error::InvalidRequest, none))
        },
    }
}

/// The status the tensor load leaves: its statistics on success, its error otherwise.
pub fn tensor_load_status<S: Copy, M: Copy>(outcome: Result<LoadStats<S>, Error<M>>, none: S) -> (status: LoadStatus<S, M>)
    ensures
        status == tensor_status(outcome, none),
{
    match outcome {
        Ok(stats) => LoadStatus { error: Error::NoError, stats },
        Err(error) => failure(error, none),
    }
}

/// Decides what follows the layer mapping, which reported `error`.
pub fn after_map_layers<S: Copy, M: Copy>(
    flags: &LoadFlags<S>,
    status: LoadStatus<S, M>,
    error: Error<M>,
    none: S,
) -> (next: Next<S, M>)
    ensures
        next == map_step(*flags, status, error, none),
{
    let updated = LoadStatus { error, stats: status.stats };
    if !is_no_error(&error) {
        Next::Finish(updated)
    } else {
        structure_next(flags, updated, none)
    }
}

/// Decides what follows the structure check, which reported `error`.
pub fn after_structure_check<S: Copy, M: Copy>(
    flags: &LoadFlags<S>,
    status: LoadStatus<S, M>,
    error: Error<M>,
    none: S,
) -> (next: Next<S, M>)
    ensures
        next == structure_check_step(*flags, status, error, none),
{
    let updated = LoadStatus { error, stats: status.stats };
    if !is_no_error(&error) {
        Next::Finish(updated)
    } else {
        architecture_next(flags, updated, none)
    }
}

/// The status the load ends with after the architecture check reported `error`.
pub fn after_architecture_check<S: Copy, M: Copy>(status: LoadStatus<S, M>, error: Error<M>) -> (end: LoadStatus<
    S,
    M,
>)
    ensures
        end == checked(status, error),
{
    LoadStatus { error, stats: status.stats }
}

/// What a finished load returns: its statistics, or the error that ended it.
pub fn outcome<S: Copy, M: Copy>(status: LoadStatus<S, M>) -> (result: Result<LoadStats<S>, Error<M>>)
    ensures
        result == (if status.error == Error::<M>::NoError {
            Ok::<LoadStats<S>, Error<M>>(status.stats)
        } else {
            Err(status.error)
        }),
{
    if is_no_error(&status.error) {
        Ok(status.stats)
    } else {
        Err(status.error)
    }
}

/// The failure handed to the error callback of a load that ended with `status`.
pub fn load_error<S: Copy, M: Copy>(flags: &LoadFlags<S>, status: LoadStatus<S, M>) -> (failure: LoadError<S, M>)
    ensures
        failure == (LoadError {
            error: status.error,
            requested_strategy: flags.io_strategy,
            used_strategy: status.stats.used_strategy,
        }),
{
    LoadError::new(status.error, flags.io_strategy, status.stats.used_strategy)
}

} // verus!
