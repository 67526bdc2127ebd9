//! Architecture-neutral hyperparameter access: what each typed metadata query
//! outcome means for the requested operation.
//!
//! The queries themselves run outside this module; each decision takes their
//! outcomes as plain values and says what to assign, what to read next, or which
//! error to report.

use vstd::prelude::*;

verus! {

/// How a typed metadata query failed.
#[derive(Clone, Copy, Debug, PartialEq, Eq, Structural)]
pub enum QueryError {
    NotParsed,
    TypeMismatch,
    IndexOutOfBounds,
    Malformed,
    Range,
    Internal,
}

/// The requested access.
#[derive(Clone, Copy, Debug, PartialEq, Eq, Structural)]
pub enum Operation {
    OptionalI32,
    OptionalI32OrFirstArray,
    RequiredFirstNonzeroArray,
    OptionalF32,
    RequiredFlagArray,
}

/// Why an access failed.
#[derive(Clone, Copy, Debug, PartialEq, Eq, Structural)]
pub enum ErrorKind {
    Missing,
    Malformed,
    WrongKind,
    Query,
    Capacity,
    Count,
    Range,
    Unexpected,
    Internal,
}

/// A failed access and the operation it belonged to.
#[derive(Clone, Copy, Debug, PartialEq, Eq, Structural)]
pub struct Error {
    pub operation: Operation,
    pub kind: ErrorKind,
}

/// What an integer query outcome means.
#[derive(Clone, Copy, Debug, PartialEq, Eq, Structural)]
pub enum IntegerDecision {
    /// Assign the value to the field.
    Assign(i32),
    /// The key is absent: keep the field as it is.
    Preserve,
    /// The scalar has another kind: read the first array element next.
    ReadFirst,
    /// The access fails.
    Fail(ErrorKind),
    /// No rule covers the outcome.
    Unhandled,
}

/// What a float query outcome means; the value is a 32-bit float bit pattern.
#[derive(Clone, Copy, Debug, PartialEq, Eq, Structural)]
pub enum FloatDecision {
    Assign(u32),
    Preserve,
    Fail(ErrorKind),
}

/// What a flag-array metadata outcome means.
#[derive(Clone, Copy, Debug, PartialEq, Eq, Structural)]
pub enum FlagDecision {
    /// Copy the boolean array into the flags.
    VisitBool,
    /// The array is not boolean: read its integer metrics next.
    ReadIntegerMetrics,
    /// Copy the integer array into the flags, nonzero as one.
    VisitInteger,
    Fail(ErrorKind),
}

/// Where a scan for the first nonzero array element ended.
#[derive(Clone, Copy, Debug, PartialEq, Eq, Structural)]
pub enum ScanOutcome {
    Value(u64),
    Missing,
    Query(QueryError),
    Arithmetic,
}

/// The next step of a scan for the first nonzero array element.
#[derive(Clone, Copy, Debug, PartialEq, Eq, Structural)]
pub enum ScanStep {
    /// Read the element at this index next.
    Next(u64),
    Done(ScanOutcome),
}

/// The error kind shared by every decision for a failed query other than the
/// ones a decision treats on its own.
pub open spec fn common_query_kind(error: QueryError) -> ErrorKind {
    match error {
        QueryError::Malformed => ErrorKind::Malformed,
        QueryError::Range => ErrorKind::Range,
        QueryError::Internal => ErrorKind::Internal,
        _ => ErrorKind::Query,
    }
}

/// The decision on a scalar integer read; `or_array` reads the first array
/// element when the scalar has another kind.
pub open spec fn scalar_decision(or_array: bool, outcome: Result<Option<u64>, QueryError>) -> IntegerDecision {
    match outcome {
        Ok(Some(value)) => if value <= i32::MAX {
            IntegerDecision::Assign(value as i32)
        } else {
            IntegerDecision::Fail(ErrorKind::Range)
        },
        Ok(None) => IntegerDecision::Preserve,
        Err(QueryError::TypeMismatch) => if or_array {
            IntegerDecision::ReadFirst
        } else {
            IntegerDecision::Fail(ErrorKind::WrongKind)
        },
        Err(QueryError::IndexOutOfBounds) => IntegerDecision::Unhandled,
        Err(error) => IntegerDecision::Fail(common_query_kind(error)),
    }
}

/// The decision on the read of the first array element.
pub open spec fn first_element_decision(outcome: Result<Option<u64>, QueryError>) -> IntegerDecision {
    match outcome {
        Ok(Some(value)) => if value <= i32::MAX {
            IntegerDecision::Assign(value as i32)
        } else {
            IntegerDecision::Fail(ErrorKind::Range)
        },
        Ok(None) => IntegerDecision::Unhandled,
        Err(QueryError::IndexOutOfBounds) => IntegerDecision::Fail(ErrorKind::Count),
        Err(QueryError::TypeMismatch) => IntegerDecision::Fail(ErrorKind::WrongKind),
        Err(error) => IntegerDecision::Fail(common_query_kind(error)),
    }
}

/// The next step after reading element `index` during a scan.
pub open spec fn scan_step(index: u64, element: Result<Option<u64>, QueryError>) -> ScanStep {
    match element {
        Ok(Some(value)) => if value != 0 {
            ScanStep::Done(ScanOutcome::Value(value))
        } else if index < u64::MAX {
            ScanStep::Next((index + 1) as u64)
        } else {
            ScanStep::Done(ScanOutcome::Arithmetic)
        },
        Ok(None) => ScanStep::Done(ScanOutcome::Missing),
        Err(error) => ScanStep::Done(ScanOutcome::Query(error)),
    }
}

/// The decision on a finished scan.
pub open spec fn scan_decision(outcome: ScanOutcome) -> IntegerDecision {
    match outcome {
        ScanOutcome::Value(value) => if value <= i32::MAX {
            IntegerDecision::Assign(value as i32)
        } else {
            IntegerDecision::Fail(ErrorKind::Range)
        },
        ScanOutcome::Missing => IntegerDecision::Fail(ErrorKind::Missing),
        ScanOutcome::Query(QueryError::IndexOutOfBounds) => IntegerDecision::Fail(ErrorKind::Count),
        ScanOutcome::Query(QueryError::TypeMismatch) => IntegerDecision::Fail(ErrorKind::WrongKind),
        ScanOutcome::Query(error) => IntegerDecision::Fail(common_query_kind(error)),
        ScanOutcome::Arithmetic => IntegerDecision::Fail(ErrorKind::Internal),
    }
}

/// The decision on a float read.
pub open spec fn float_decision(outcome: Result<Option<u32>, QueryError>) -> FloatDecision {
    match outcome {
        Ok(Some(bits)) => FloatDecision::Assign(bits),
        Ok(None) => FloatDecision::Preserve,
        Err(QueryError::TypeMismatch) => FloatDecision::Fail(ErrorKind::WrongKind),
        Err(error) => FloatDecision::Fail(common_query_kind(error)),
    }
}

/// The decision on the boolean length of a flag array over `capacity` flags.
pub open spec fn bool_length_decision(outcome: Result<Option<u64>, QueryError>, capacity: nat) -> FlagDecision {
    match outcome {
        Ok(Some(count)) => if count <= capacity {
            FlagDecision::VisitBool
        } else {
            FlagDecision::Fail(ErrorKind::Capacity)
        },
        Ok(None) => FlagDecision::Fail(ErrorKind::Missing),
        Err(QueryError::TypeMismatch) => FlagDecision::ReadIntegerMetrics,
        Err(error) => FlagDecision::Fail(common_query_kind(error)),
    }
}

/// The decision on the element count of an integer flag array over `capacity` flags.
pub open spec fn integer_metrics_decision(outcome: Result<Option<u64>, QueryError>, capacity: nat) -> FlagDecision {
    match outcome {
        Ok(Some(count)) => if count <= capacity {
            FlagDecision::VisitInteger
        } else {
            FlagDecision::Fail(ErrorKind::Capacity)
        },
        Ok(None) => FlagDecision::Fail(ErrorKind::Missing),
        Err(QueryError::TypeMismatch) => FlagDecision::Fail(ErrorKind::WrongKind),
        Err(error) => FlagDecision::Fail(common_query_kind(error)),
    }
}

/// The published count of a copied flag array.
pub open spec fn visit_decision(outcome: Result<Option<u64>, QueryError>) -> Result<u32, ErrorKind> {
    match outcome {
        Ok(Some(count)) => if count <= u32::MAX {
            Ok(count as u32)
        } else {
            Err(ErrorKind::Range)
        },
        Ok(None) => Err(ErrorKind::Missing),
        Err(QueryError::TypeMismatch) => Err(ErrorKind::WrongKind),
        Err(QueryError::IndexOutOfBounds) => Err(ErrorKind::Count),
        Err(QueryError::NotParsed) => Err(ErrorKind::Query),
        Err(error) => Err(common_query_kind(error)),
    }
}

fn common_kind(error: QueryError) -> (kind: ErrorKind)
    ensures
        kind == common_query_kind(error),
{
    match error {
        QueryError::Malformed => ErrorKind::Malformed,
        QueryError::Range => ErrorKind::Range,
        QueryError::Internal => ErrorKind::Internal,
        _ => ErrorKind::Query,
    }
}

/// Decides a scalar integer read.
pub fn decide_scalar(or_array: bool, outcome: Result<Option<u64>, QueryError>) -> (decision: IntegerDecision)
    ensures
        decision == scalar_decision(or_array, outcome),
{
    match outcome {
        Ok(Some(value)) => if value <= i32::MAX as u64 {
            IntegerDecision::Assign(value as i32)
        } else {
            IntegerDecision::Fail(ErrorKind::Range)
        },
        Ok(None) => IntegerDecision::Preserve,
        Err(QueryError::TypeMismatch) => if or_array {
            IntegerDecision::ReadFirst
        } else {
            IntegerDecision::Fail(ErrorKind::WrongKind)
        },
        Err(QueryError::IndexOutOfBounds) => IntegerDecision::Unhandled,
        Err(error) => IntegerDecision::Fail(common_kind(error)),
    }
}

/// Decides the read of the first array element.
pub fn decide_first_element(outcome: Result<Option<u64>, QueryError>) -> (decision: IntegerDecision)
    ensures
        decision == first_element_decision(outcome),
{
    match outcome {
        Ok(Some(value)) => if value <= i32::MAX as u64 {
            IntegerDecision::Assign(value as i32)
        } else {
            IntegerDecision::Fail(ErrorKind::Range)
        },
        Ok(None) => IntegerDecision::Unhandled,
        Err(QueryError::IndexOutOfBounds) => IntegerDecision::Fail(ErrorKind::Count),
        Err(QueryError::TypeMismatch) => IntegerDecision::Fail(ErrorKind::WrongKind),
        Err(error) => IntegerDecision::Fail(common_kind(error)),
    }
}

/// The step after reading element `index` of a scan for the first nonzero value.
pub fn next_scan_step(index: u64, element: Result<Option<u64>, QueryError>) -> (step: ScanStep)
    ensures
        step == scan_step(index, element),
{
    match element {
        Ok(Some(value)) => if value != 0 {
            ScanStep::Done(ScanOutcome::Value(value))
        } else if index < u64::MAX {
            ScanStep::Next(index + 1)
        } else {
            ScanStep::Done(ScanOutcome::Arithmetic)
        },
        Ok(None) => ScanStep::Done(ScanOutcome::Missing),
        Err(error) => ScanStep::Done(ScanOutcome::Query(error)),
    }
}

/// Decides a finished scan.
pub fn decide_scan(outcome: ScanOutcome) -> (decision: IntegerDecision)
    ensures
        decision == scan_decision(outcome),
{
    match outcome {
        ScanOutcome::Value(value) => if value <= i32::MAX as u64 {
            IntegerDecision::Assign(value as i32)
        } else {
            IntegerDecision::Fail(ErrorKind::Range)
        },
        ScanOutcome::Missing => IntegerDecision::Fail(ErrorKind::Missing),
        ScanOutcome::Query(QueryError::IndexOutOfBounds) => IntegerDecision::Fail(ErrorKind::Count),
        ScanOutcome::Query(QueryError::TypeMismatch) => IntegerDecision::Fail(ErrorKind::WrongKind),
        ScanOutcome::Query(error) => IntegerDecision::Fail(common_kind(error)),
        ScanOutcome::Arithmetic => IntegerDecision::Fail(ErrorKind::Internal),
    }
}

/// Decides a float read.
pub fn decide_float(outcome: Result<Option<u32>, QueryError>) -> (decision: FloatDecision)
    ensures
        decision == float_decision(outcome),
{
    match outcome {
        Ok(Some(bits)) => FloatDecision::Assign(bits),
        Ok(None) => FloatDecision::Preserve,
        Err(QueryError::TypeMismatch) => FloatDecision::Fail(ErrorKind::WrongKind),
        Err(error) => FloatDecision::Fail(common_kind(error)),
    }
}

/// Decides the boolean length of a flag array over `capacity` flags.
pub fn decide_bool_length(outcome: Result<Option<u64>, QueryError>, capacity: usize) -> (decision: FlagDecision)
    ensures
        decision == bool_length_decision(outcome, capacity as nat),
{
    match outcome {
        Ok(Some(count)) => if count <= capacity as u64 {
            FlagDecision::VisitBool
        } else {
            FlagDecision::Fail(ErrorKind::Capacity)
        },
        Ok(None) => FlagDecision::Fail(ErrorKind::Missing),
        Err(QueryError::TypeMismatch) => FlagDecision::ReadIntegerMetrics,
        Err(error) => FlagDecision::Fail(common_kind(error)),
    }
}

/// Decides the element count of an integer flag array over `capacity` flags.
pub fn decide_integer_metrics(outcome: Result<Option<u64>, QueryError>, capacity: usize) -> (decision: FlagDecision)
    ensures
        decision == integer_metrics_decision(outcome, capacity as nat),
{
    match outcome {
        Ok(Some(count)) => if count <= capacity as u64 {
            FlagDecision::VisitInteger
        } else {
            FlagDecision::Fail(ErrorKind::Capacity)
        },
        Ok(None) => FlagDecision::Fail(ErrorKind::Missing),
        Err(QueryError::TypeMismatch) => FlagDecision::Fail(ErrorKind::WrongKind),
        Err(error) => FlagDecision::Fail(common_kind(error)),
    }
}

/// Decides the count published after copying a flag array.
pub fn decide_visit(outcome: Result<Option<u64>, QueryError>) -> (count: Result<u32, ErrorKind>)
    ensures
        count == visit_decision(outcome),
{
    match outcome {
        Ok(Some(count)) => if count <= u32::MAX as u64 {
            Ok(count as u32)
        } else {
            Err(ErrorKind::Range)
        },
        Ok(None) => Err(ErrorKind::Missing),
        Err(QueryError::TypeMismatch) => Err(ErrorKind::WrongKind),
        Err(QueryError::IndexOutOfBounds) => Err(ErrorKind::Count),
        Err(QueryError::NotParsed) => Err(ErrorKind::Query),
        Err(error) => Err(common_kind(error)),
    }
}

/// Stores one copied boolean flag.
pub fn store_bool_flag(flags: &mut [u8], index: u32, value: bool)
    requires
        (index as int) < old(flags)@.len(),
    ensures
        final(flags)@ == old(flags)@.update(index as int, if value { 1u8 } else { 0u8 }),
{
    flags[index as usize] = if value { 1 } else { 0 };
}

/// Stores one copied integer flag: nonzero as one.
pub fn store_integer_flag(flags: &mut [u8], index: u32, value: u64)
    requires
        (index as int) < old(flags)@.len(),
    ensures
        final(flags)@ == old(flags)@.update(index as int, if value != 0 { 1u8 } else { 0u8 }),
{
    flags[index as usize] = if value != 0 { 1 } else { 0 };
}

/// A query of an integer request: the scalar, or one array element.
#[derive(Clone, Copy, Debug, PartialEq, Eq, Structural)]
pub enum IntegerQuery {
    Scalar,
    Element(u64),
}

/// What follows the answer to a query of an integer request.
#[derive(Clone, Copy, Debug, PartialEq, Eq, Structural)]
pub enum IntegerStep {
    /// Ask this query next.
    Read(IntegerQuery),
    /// The request is decided.
    Done(IntegerDecision),
}

/// The first query of an integer request: a scan starts at element zero, the
/// other requests read the scalar.
pub open spec fn first_query(operation: Operation) -> IntegerQuery {
    if operation == Operation::RequiredFirstNonzeroArray {
        IntegerQuery::Element(0)
    } else {
        IntegerQuery::Scalar
    }
}

/// What follows the answer `outcome` to `query` in an integer request.
pub open spec fn integer_step(operation: Operation, query: IntegerQuery, outcome: Result<Option<u64>, QueryError>) -> IntegerStep {
    match query {
        IntegerQuery::Scalar => if operation == Operation::OptionalI32 || operation
            == Operation::OptionalI32OrFirstArray {
            let decision = scalar_decision(operation == Operation::OptionalI32OrFirstArray, outcome);
            if decision == IntegerDecision::ReadFirst {
                IntegerStep::Read(IntegerQuery::Element(0))
            } else {
                IntegerStep::Done(decision)
            }
        } else {
            IntegerStep::Done(IntegerDecision::Unhandled)
        },
        IntegerQuery::Element(index) => if operation == Operation::OptionalI32OrFirstArray && index == 0 {
            IntegerStep::Done(first_element_decision(outcome))
        } else if operation == Operation::RequiredFirstNonzeroArray {
            match scan_step(index, outcome) {
                ScanStep::Next(next) => IntegerStep::Read(IntegerQuery::Element(next)),
                ScanStep::Done(end) => IntegerStep::Done(scan_decision(end)),
            }
        } else {
            IntegerStep::Done(IntegerDecision::Unhandled)
        },
    }
}

/// How a decided integer request ends: the count the accessor publishes (or
/// `None` when no rule covered the outcome) and the value to store, if any.
pub open spec fn integer_settlement(decision: IntegerDecision) -> (Option<Result<u32, ErrorKind>>, Option<i32>) {
    match decision {
        IntegerDecision::Assign(value) => (Some(Ok(1)), Some(value)),
        IntegerDecision::Preserve => (Some(Ok(0)), None),
        IntegerDecision::Fail(kind) => (Some(Err(kind)), None),
        IntegerDecision::ReadFirst | IntegerDecision::Unhandled => (None, None),
    }
}

/// How a decided float request ends: the count the accessor publishes and the
/// bit pattern to store, if any.
pub open spec fn float_settlement(decision: FloatDecision) -> (Option<Result<u32, ErrorKind>>, Option<u32>) {
    match decision {
        FloatDecision::Assign(bits) => (Some(Ok(1)), Some(bits)),
        FloatDecision::Preserve => (Some(Ok(0)), None),
        FloatDecision::Fail(kind) => (Some(Err(kind)), None),
    }
}

/// The first query of an integer request.
pub fn first_integer_query(operation: Operation) -> (query: IntegerQuery)
    ensures
        query == first_query(operation),
{
    match operation {
        Operation::RequiredFirstNonzeroArray => IntegerQuery::Element(0),
        _ => IntegerQuery::Scalar,
    }
}

/// Decides what follows the answer to `query` in an integer request.
pub fn next_integer_step(operation: Operation, query: IntegerQuery, outcome: Result<Option<u64>, QueryError>) -> (step: IntegerStep)
    ensures
        step == integer_step(operation, query, outcome),
{
    match query {
        IntegerQuery::Scalar => match operation {
            Operation::OptionalI32 | Operation::OptionalI32OrFirstArray => {
                let or_array = match operation {
                    Operation::OptionalI32OrFirstArray => true,
                    _ => false,
                };
                match decide_scalar(or_array, outcome) {
                    IntegerDecision::ReadFirst => IntegerStep::Read(IntegerQuery::Element(0)),
                    decision => IntegerStep::Done(decision),
                }
            },
            _ => IntegerStep::Done(IntegerDecision::Unhandled),
        },
        IntegerQuery::Element(index) => match operation {
            Operation::OptionalI32OrFirstArray => if index == 0 {
                IntegerStep::Done(decide_first_element(outcome))
            } else {
                IntegerStep::Done(IntegerDecision::Unhandled)
            },
            Operation::RequiredFirstNonzeroArray => match next_scan_step(index, outcome) {
                ScanStep::Next(next) => IntegerStep::Read(IntegerQuery::Element(next)),
                ScanStep::Done(end) => IntegerStep::Done(decide_scan(end)),
            },
            _ => IntegerStep::Done(IntegerDecision::Unhandled),
        },
    }
}

/// Settles a decided integer request.
pub fn settle_integer(decision: IntegerDecision) -> (settled: (Option<Result<u32, ErrorKind>>, Option<i32>))
    ensures
        settled == integer_settlement(decision),
{
    match decision {
        IntegerDecision::Assign(value) => (Some(Ok(1)), Some(value)),
        IntegerDecision::Preserve => (Some(Ok(0)), None),
        IntegerDecision::Fail(kind) => (Some(Err(kind)), None),
        IntegerDecision::ReadFirst | IntegerDecision::Unhandled => (None, None),
    }
}

/// Settles a decided float request.
pub fn settle_float(decision: FloatDecision) -> (settled: (Option<Result<u32, ErrorKind>>, Option<u32>))
    ensures
        settled == float_settlement(decision),
{
    match decision {
        FloatDecision::Assign(bits) => (Some(Ok(1)), Some(bits)),
        FloatDecision::Preserve => (Some(Ok(0)), None),
        FloatDecision::Fail(kind) => (Some(Err(kind)), None),
    }
}

/// The accessor's state: whether an earlier request ended on an outcome no rule
/// covers, which leaves the accessor waiting to absorb the next request.
pub struct Accessor {
    stalled: bool,
}

impl View for Accessor {
    type V = bool;

    closed spec fn view(&self) -> bool {
        self.stalled
    }
}

impl Accessor {
    /// A ready accessor.
    pub fn new() -> (accessor: Self)
        ensures
            !accessor@,
    {
        Accessor { stalled: false }
    }

    /// Starts a request: `Ok` when its queries should run. A stalled accessor
    /// absorbs the request, which fails with `Internal`, and is ready again.
    pub fn start(&mut self, operation: Operation) -> (started: Result<(), Error>)
        ensures
            started == if old(self)@ {
                Err(Error { operation, kind: ErrorKind::Internal })
            } else {
                Ok::<(), Error>(())
            },
            !final(self)@,
    {
        if self.stalled {
            self.stalled = false;
            return Err(Error { operation, kind: ErrorKind::Internal });
        }
        Ok(())
    }

    /// Finishes a started request with its decided count, or with `None` when no
    /// rule covered the last outcome: that request fails with `Internal` and the
    /// accessor stalls until the next one.
    pub fn finish(&mut self, operation: Operation, decided: Option<Result<u32, ErrorKind>>) -> (result: Result<
        u32,
        Error,
    >)
        ensures
            final(self)@ == decided is None,
            result == match decided {
                Some(Ok(count)) => Ok::<u32, Error>(count),
                Some(Err(kind)) => Err(Error { operation, kind }),
                None => Err(Error { operation, kind: ErrorKind::Internal }),
            },
    {
        match decided {
            Some(Ok(count)) => {
                self.stalled = false;
                Ok(count)
            },
            Some(Err(kind)) => {
                self.stalled = false;
                Err(Error { operation, kind })
            },
            None => {
                self.stalled = true;
                Err(Error { operation, kind: ErrorKind::Internal })
            },
        }
    }
}

} // verus!
