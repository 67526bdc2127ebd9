//! Model-domain registry, catalog, and generation-contract logic.

use vstd::prelude::*;

pub mod architecture;
pub mod attention_family;
pub mod bytes;
pub mod catalog;
pub mod data;
pub mod gemma4;
pub mod generation;
pub mod generation_audit;
pub mod lfm2;
pub mod llama;
pub mod loader;
pub mod tensor_type;
pub mod text;

verus! {

/// An immutable model identifier supplied by model metadata.
#[derive(Clone, Debug, PartialEq, Eq, Hash)]
pub struct ModelId(pub String);

} // verus!
