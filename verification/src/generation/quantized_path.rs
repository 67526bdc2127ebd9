//! Contract-only classification of quantized generation paths. An outcome
//! describes the generation contract; it claims nothing about available kernels.

use vstd::prelude::*;

use crate::tensor_type::SerializedType;

verus! {

/// The generation contract being queried.
#[derive(Clone, Copy, Debug, PartialEq, Eq, Structural)]
pub enum Scope {
    /// Vector dequantization contract (embeddings, norms).
    VectorDequantContract,
    /// Matrix weight contract.
    MatrixWeightContract,
}

/// Contract classification of one serialized tensor type.
#[derive(Clone, Copy, Debug, PartialEq, Eq, Structural)]
pub enum Outcome {
    NativeQuantized,
    ApprovedDenseF32ByContract,
    DisallowedFallback,
    ExplicitNoClaim,
}

/// Resolver failure.
#[derive(Clone, Copy, Debug, PartialEq, Eq, Structural)]
pub enum Error {
    UnexpectedEvent,
    Internal,
}

impl Error {
    /// Returns the stable diagnostic text of this error.
    pub fn message(&self) -> (text: &'static str)
        ensures
            text@ == (match *self {
                Error::UnexpectedEvent => "unexpected quantized-path resolver event"@,
                Error::Internal => "internal quantized-path resolver error"@,
            }),
    {
        match self {
            Error::UnexpectedEvent => "unexpected quantized-path resolver event",
            Error::Internal => "internal quantized-path resolver error",
        }
    }
}

/// One serialized type under one contract scope.
#[derive(Clone, Copy, Debug, PartialEq, Eq, Structural)]
pub struct Query {
    pub scope: Scope,
    pub tensor_type: SerializedType,
}

impl Query {
    pub fn new(scope: Scope, tensor_type: SerializedType) -> (query: Self)
        ensures
            query == (Query { scope, tensor_type }),
    {
        Query { scope, tensor_type }
    }

    pub fn scope(self) -> (scope: Scope)
        ensures
            scope == self.scope,
    {
        self.scope
    }

    pub fn tensor_type(self) -> (tensor_type: SerializedType)
        ensures
            tensor_type == self.tensor_type,
    {
        self.tensor_type
    }
}

/// Types with native quantized generation kernels in the contract.
pub open spec fn is_native(tensor_type: SerializedType) -> bool {
    ||| tensor_type == SerializedType::Q4_0
    ||| tensor_type == SerializedType::Q4_1
    ||| tensor_type == SerializedType::Q5_0
    ||| tensor_type == SerializedType::Q8_0
    ||| tensor_type == SerializedType::Q2K
    ||| tensor_type == SerializedType::Q3K
    ||| tensor_type == SerializedType::Q4K
    ||| tensor_type == SerializedType::Q6K
}

/// Classification of `tensor_type` under `scope`: vectors of F32 or native types are
/// dequantized as approved dense F32; matrices of native types stay quantized and
/// dense F32 matrices are a disallowed fallback; every other type is not claimed.
pub open spec fn classify(scope: Scope, tensor_type: SerializedType) -> Outcome {
    match scope {
        Scope::VectorDequantContract => if tensor_type == SerializedType::F32 || is_native(tensor_type) {
            Outcome::ApprovedDenseF32ByContract
        } else {
            Outcome::ExplicitNoClaim
        },
        Scope::MatrixWeightContract => if is_native(tensor_type) {
            Outcome::NativeQuantized
        } else if tensor_type == SerializedType::F32 {
            Outcome::DisallowedFallback
        } else {
            Outcome::ExplicitNoClaim
        },
    }
}

/// Whether `tensor_type` has a native quantized kernel in the contract.
fn is_native_type(tensor_type: SerializedType) -> (native: bool)
    ensures
        native == is_native(tensor_type),
{
    match tensor_type {
        SerializedType::Q4_0 | SerializedType::Q4_1 | SerializedType::Q5_0 | SerializedType::Q8_0
        | SerializedType::Q2K | SerializedType::Q3K | SerializedType::Q4K | SerializedType::Q6K => true,
        _ => false,
    }
}

/// Stateless quantized-path resolver.
#[derive(Debug)]
pub struct Resolver;

impl Resolver {
    pub fn new() -> (resolver: Self) {
        Resolver
    }

    /// Classifies one query.
    pub fn process_event(&mut self, query: Query) -> (outcome: Result<Outcome, Error>)
        ensures
            outcome == Ok::<Outcome, Error>(classify(query.scope, query.tensor_type)),
    {
        let native = is_native_type(query.tensor_type);
        let is_f32 = match query.tensor_type {
            SerializedType::F32 => true,
            _ => false,
        };
        match query.scope {
            Scope::VectorDequantContract => if is_f32 || native {
                Ok(Outcome::ApprovedDenseF32ByContract)
            } else {
                Ok(Outcome::ExplicitNoClaim)
            },
            Scope::MatrixWeightContract => if native {
                Ok(Outcome::NativeQuantized)
            } else if is_f32 {
                Ok(Outcome::DisallowedFallback)
            } else {
                Ok(Outcome::ExplicitNoClaim)
            },
        }
    }
}

/// The resolver's answers over every type: a matrix weight is natively quantized
/// exactly for Q4_0, Q4_1, Q5_0, Q8_0, Q2_K, Q3_K, Q4_K and Q6_K, a dense F32
/// matrix is a disallowed fallback, a vector is approved as dense F32 exactly
/// for F32 and those eight quantized types, and every other type is not claimed.
pub proof fn lemma_classification_table(t: SerializedType)
    ensures
        (classify(Scope::MatrixWeightContract, t) == Outcome::NativeQuantized) <==> (t == SerializedType::Q4_0
            || t == SerializedType::Q4_1 || t == SerializedType::Q5_0 || t == SerializedType::Q8_0 || t
            == SerializedType::Q2K || t == SerializedType::Q3K || t == SerializedType::Q4K || t
            == SerializedType::Q6K),
        (classify(Scope::MatrixWeightContract, t) == Outcome::DisallowedFallback) <==> t == SerializedType::F32,
        (classify(Scope::VectorDequantContract, t) == Outcome::ApprovedDenseF32ByContract) <==> (t
            == SerializedType::F32 || t == SerializedType::Q4_0 || t == SerializedType::Q4_1 || t
            == SerializedType::Q5_0 || t == SerializedType::Q8_0 || t == SerializedType::Q2K || t
            == SerializedType::Q3K || t == SerializedType::Q4K || t == SerializedType::Q6K),
        classify(Scope::VectorDequantContract, t) != Outcome::NativeQuantized,
        classify(Scope::VectorDequantContract, t) != Outcome::DisallowedFallback,
        classify(Scope::MatrixWeightContract, t) != Outcome::ApprovedDenseF32ByContract,
{
}

} // verus!
