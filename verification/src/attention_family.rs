//! Shared machinery of the attention families: caller storage with a cache of
//! validated block descriptions, and the per-block requests.

use vstd::prelude::*;

pub mod context;
pub mod event;

pub use context::{Context, Parameters, Policy};

verus! {

} // verus!
