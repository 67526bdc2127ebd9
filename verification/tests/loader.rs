use emel_model::loader::hparams::{
    first_integer_query, next_integer_step, settle_float, settle_integer, IntegerQuery, IntegerStep,
};
use emel_model::loader::hparams::{
    decide_bool_length, decide_first_element, decide_float, decide_integer_metrics, decide_scalar, decide_scan,
    decide_visit, next_scan_step, store_bool_flag, store_integer_flag, Accessor, Error, ErrorKind, FlagDecision,
    FloatDecision, IntegerDecision, Operation, QueryError, ScanOutcome, ScanStep,
};

#[test]
fn scalar_integer_reads_assign_preserve_or_fail() {
    assert_eq!(decide_scalar(false, Ok(Some(4096))), IntegerDecision::Assign(4096));
    assert_eq!(decide_scalar(false, Ok(Some(i32::MAX as u64))), IntegerDecision::Assign(i32::MAX));
    assert_eq!(decide_scalar(false, Ok(Some(i32::MAX as u64 + 1))), IntegerDecision::Fail(ErrorKind::Range));
    assert_eq!(decide_scalar(false, Ok(None)), IntegerDecision::Preserve);
    assert_eq!(decide_scalar(false, Err(QueryError::TypeMismatch)), IntegerDecision::Fail(ErrorKind::WrongKind));
    assert_eq!(decide_scalar(true, Err(QueryError::TypeMismatch)), IntegerDecision::ReadFirst);
    assert_eq!(decide_scalar(false, Err(QueryError::Malformed)), IntegerDecision::Fail(ErrorKind::Malformed));
    assert_eq!(decide_scalar(false, Err(QueryError::Range)), IntegerDecision::Fail(ErrorKind::Range));
    assert_eq!(decide_scalar(false, Err(QueryError::NotParsed)), IntegerDecision::Fail(ErrorKind::Query));
    assert_eq!(decide_scalar(false, Err(QueryError::Internal)), IntegerDecision::Fail(ErrorKind::Internal));
    assert_eq!(decide_scalar(true, Err(QueryError::IndexOutOfBounds)), IntegerDecision::Unhandled);
}

#[test]
fn first_array_element_reads_distinguish_count_and_kind() {
    assert_eq!(decide_first_element(Ok(Some(8192))), IntegerDecision::Assign(8192));
    assert_eq!(decide_first_element(Ok(Some(u64::MAX))), IntegerDecision::Fail(ErrorKind::Range));
    assert_eq!(decide_first_element(Err(QueryError::IndexOutOfBounds)), IntegerDecision::Fail(ErrorKind::Count));
    assert_eq!(decide_first_element(Err(QueryError::TypeMismatch)), IntegerDecision::Fail(ErrorKind::WrongKind));
    assert_eq!(decide_first_element(Err(QueryError::NotParsed)), IntegerDecision::Fail(ErrorKind::Query));
    assert_eq!(decide_first_element(Ok(None)), IntegerDecision::Unhandled);
}

#[test]
fn nonzero_scan_skips_zeros_and_reports_where_it_stopped() {
    assert_eq!(next_scan_step(0, Ok(Some(0))), ScanStep::Next(1));
    assert_eq!(next_scan_step(3, Ok(Some(8))), ScanStep::Done(ScanOutcome::Value(8)));
    assert_eq!(next_scan_step(u64::MAX, Ok(Some(0))), ScanStep::Done(ScanOutcome::Arithmetic));
    assert_eq!(next_scan_step(2, Ok(None)), ScanStep::Done(ScanOutcome::Missing));
    assert_eq!(
        next_scan_step(2, Err(QueryError::IndexOutOfBounds)),
        ScanStep::Done(ScanOutcome::Query(QueryError::IndexOutOfBounds))
    );
    assert_eq!(decide_scan(ScanOutcome::Value(8)), IntegerDecision::Assign(8));
    assert_eq!(decide_scan(ScanOutcome::Value(1 << 40)), IntegerDecision::Fail(ErrorKind::Range));
    assert_eq!(decide_scan(ScanOutcome::Missing), IntegerDecision::Fail(ErrorKind::Missing));
    assert_eq!(decide_scan(ScanOutcome::Query(QueryError::IndexOutOfBounds)), IntegerDecision::Fail(ErrorKind::Count));
    assert_eq!(decide_scan(ScanOutcome::Query(QueryError::TypeMismatch)), IntegerDecision::Fail(ErrorKind::WrongKind));
    assert_eq!(decide_scan(ScanOutcome::Query(QueryError::Internal)), IntegerDecision::Fail(ErrorKind::Internal));
    assert_eq!(decide_scan(ScanOutcome::Arithmetic), IntegerDecision::Fail(ErrorKind::Internal));
}

#[test]
fn float_reads_assign_bits_preserve_or_fail() {
    let bits = 1_000_000.0f32.to_bits();
    assert_eq!(decide_float(Ok(Some(bits))), FloatDecision::Assign(bits));
    assert_eq!(decide_float(Ok(None)), FloatDecision::Preserve);
    assert_eq!(decide_float(Err(QueryError::TypeMismatch)), FloatDecision::Fail(ErrorKind::WrongKind));
    assert_eq!(decide_float(Err(QueryError::IndexOutOfBounds)), FloatDecision::Fail(ErrorKind::Query));
    assert_eq!(decide_float(Err(QueryError::Malformed)), FloatDecision::Fail(ErrorKind::Malformed));
}

#[test]
fn flag_arrays_check_kind_and_capacity_before_copying() {
    assert_eq!(decide_bool_length(Ok(Some(35)), 35), FlagDecision::VisitBool);
    assert_eq!(decide_bool_length(Ok(Some(36)), 35), FlagDecision::Fail(ErrorKind::Capacity));
    assert_eq!(decide_bool_length(Ok(None), 35), FlagDecision::Fail(ErrorKind::Missing));
    assert_eq!(decide_bool_length(Err(QueryError::TypeMismatch), 35), FlagDecision::ReadIntegerMetrics);
    assert_eq!(decide_integer_metrics(Ok(Some(4)), 512), FlagDecision::VisitInteger);
    assert_eq!(decide_integer_metrics(Ok(Some(513)), 512), FlagDecision::Fail(ErrorKind::Capacity));
    assert_eq!(decide_integer_metrics(Err(QueryError::TypeMismatch), 512), FlagDecision::Fail(ErrorKind::WrongKind));
    assert_eq!(decide_visit(Ok(Some(4))), Ok(4));
    assert_eq!(decide_visit(Ok(Some(u64::from(u32::MAX) + 1))), Err(ErrorKind::Range));
    assert_eq!(decide_visit(Err(QueryError::IndexOutOfBounds)), Err(ErrorKind::Count));
    assert_eq!(decide_visit(Ok(None)), Err(ErrorKind::Missing));
    let mut flags = [0u8; 4];
    store_integer_flag(&mut flags, 1, 8);
    store_integer_flag(&mut flags, 2, 0);
    store_bool_flag(&mut flags, 3, true);
    assert_eq!(flags, [0, 1, 0, 1]);
}

#[test]
fn an_unhandled_outcome_stalls_the_accessor_for_one_request() {
    let mut accessor = Accessor::new();
    assert_eq!(accessor.start(Operation::OptionalI32), Ok(()));
    assert_eq!(accessor.finish(Operation::OptionalI32, Some(Ok(1))), Ok(1));
    assert_eq!(accessor.start(Operation::OptionalI32), Ok(()));
    assert_eq!(
        accessor.finish(Operation::OptionalI32, None),
        Err(Error { operation: Operation::OptionalI32, kind: ErrorKind::Internal })
    );
    assert_eq!(
        accessor.start(Operation::OptionalF32),
        Err(Error { operation: Operation::OptionalF32, kind: ErrorKind::Internal })
    );
    assert_eq!(accessor.start(Operation::RequiredFlagArray), Ok(()));
    assert_eq!(
        accessor.finish(Operation::RequiredFlagArray, Some(Err(ErrorKind::Capacity))),
        Err(Error { operation: Operation::RequiredFlagArray, kind: ErrorKind::Capacity })
    );
}

#[test]
fn integer_requests_step_through_their_queries() {
    assert_eq!(first_integer_query(Operation::OptionalI32), IntegerQuery::Scalar);
    assert_eq!(first_integer_query(Operation::RequiredFirstNonzeroArray), IntegerQuery::Element(0));
    assert_eq!(
        next_integer_step(Operation::OptionalI32OrFirstArray, IntegerQuery::Scalar, Err(QueryError::TypeMismatch)),
        IntegerStep::Read(IntegerQuery::Element(0))
    );
    assert_eq!(
        next_integer_step(Operation::OptionalI32, IntegerQuery::Scalar, Err(QueryError::TypeMismatch)),
        IntegerStep::Done(IntegerDecision::Fail(ErrorKind::WrongKind))
    );
    assert_eq!(
        next_integer_step(Operation::OptionalI32OrFirstArray, IntegerQuery::Element(0), Ok(Some(6144))),
        IntegerStep::Done(IntegerDecision::Assign(6144))
    );
    assert_eq!(
        next_integer_step(Operation::RequiredFirstNonzeroArray, IntegerQuery::Element(2), Ok(Some(0))),
        IntegerStep::Read(IntegerQuery::Element(3))
    );
    assert_eq!(
        next_integer_step(Operation::RequiredFirstNonzeroArray, IntegerQuery::Element(3), Ok(Some(8))),
        IntegerStep::Done(IntegerDecision::Assign(8))
    );
    assert_eq!(
        next_integer_step(Operation::OptionalF32, IntegerQuery::Scalar, Ok(Some(1))),
        IntegerStep::Done(IntegerDecision::Unhandled)
    );
    assert_eq!(settle_integer(IntegerDecision::Assign(5)), (Some(Ok(1)), Some(5)));
    assert_eq!(settle_integer(IntegerDecision::Preserve), (Some(Ok(0)), None));
    assert_eq!(settle_integer(IntegerDecision::Fail(ErrorKind::Range)), (Some(Err(ErrorKind::Range)), None));
    assert_eq!(settle_integer(IntegerDecision::Unhandled), (None, None));
    assert_eq!(settle_float(FloatDecision::Assign(7)), (Some(Ok(1)), Some(7)));
    assert_eq!(settle_float(FloatDecision::Preserve), (Some(Ok(0)), None));
}
