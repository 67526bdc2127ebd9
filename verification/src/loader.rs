//! Model loading: the loader's phase graph and outcomes, and the
//! architecture-neutral hyperparameter access decisions.

pub mod actor;
pub mod event;
pub mod hparams;
pub mod machine;
pub mod residency;
