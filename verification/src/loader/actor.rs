//! The default tensor-residency dependency of the model loader.

use vstd::prelude::*;

use crate::data::Data;

use super::event::{Error, LoadStats, Source};

verus! {

/// The tensor loader used when none is supplied: every load reports that no
/// I/O strategy is available, and the model is left as it was.
#[derive(Clone, Copy, Debug, Default)]
pub struct NoTensorLoader;

impl NoTensorLoader {
    pub fn load<S, F, M>(&mut self, model: &mut Data, source: Source<'_, F>, strategy: S) -> (result: Result<
        LoadStats<S>,
        Error<M>,
    >)
        ensures
            result == Err::<LoadStats<S>, Error<M>>(Error::IoStrategyUnavailable),
            *final(model) == *old(model),
    {
        Err(Error::IoStrategyUnavailable)
    }
}

} // verus!
