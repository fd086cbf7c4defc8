use dataforge_compute::stages::{
    can_execute_outcome, check_curve_type, join_validation_errors, not_found, prepare_outcome, resolve_parameter,
    validation_outcome,
};
use dataforge_compute::error::{UdfError, ValidationError};
use dataforge_compute::parameters::{CurveParameter, ParameterValue};
use dataforge_compute::provenance::{ExecutionRecord, InputReference};
use dataforge_compute::types::{CurveDataType, ExecutionStatus};

const CURVE_ID: &str = "550e8400-e29b-41d4-a716-446655440000";

#[test]
fn required_parameter_without_value_or_default_fails_on_its_name() {
    let r = resolve_parameter::<i32>("gr_min", "GR Min", true, None, None);
    let e = r.unwrap_err();
    assert_eq!(e.field, "gr_min");
    assert_eq!(e.message, "'GR Min' is required");
    let r = resolve_parameter::<i32>("gr_min", "GR Min", true, None, Some(ParameterValue::Null));
    assert_eq!(r.unwrap_err().field, "gr_min");
}

#[test]
fn default_applies_only_to_a_missing_value() {
    let r = resolve_parameter("window_size", "Window Size", true, Some(ParameterValue::Number(5)), None).unwrap();
    assert!(matches!(r, ParameterValue::Number(5)));
    let r = resolve_parameter("window_size", "Window Size", true, Some(ParameterValue::Number(5)), Some(ParameterValue::Null))
        .unwrap();
    assert!(matches!(r, ParameterValue::Number(5)));
    let r = resolve_parameter(
        "window_size",
        "Window Size",
        true,
        Some(ParameterValue::Number(5)),
        Some(ParameterValue::String("seven".to_string())),
    )
    .unwrap();
    assert!(matches!(r, ParameterValue::String(ref s) if s == "seven"));
    let r = resolve_parameter::<i32>("opt", "Optional", false, None, None).unwrap();
    assert!(r.is_null());
}

#[test]
fn validation_errors_are_joined() {
    let errors = vec![
        ValidationError::new("a", "bad"),
        ValidationError::new("b", "worse").with_suggestion("fix it"),
    ];
    assert_eq!(join_validation_errors(&errors), "a: bad; b: worse (suggestion: fix it)");
    match validation_outcome(errors) {
        Err(UdfError::ParameterValidation(m)) => assert_eq!(m, "a: bad; b: worse (suggestion: fix it)"),
        _ => panic!("expected a validation error"),
    }
    assert!(validation_outcome(Vec::new()).is_ok());
}

#[test]
fn curve_type_mismatch_names_expected_and_actual() {
    let p = CurveParameter::required("gr_curve", "GR Curve")
        .with_allowed_types(vec![CurveDataType::GammaRay, CurveDataType::SpontaneousPotential]);
    assert!(check_curve_type(&p, CurveDataType::GammaRay).is_ok());
    match check_curve_type(&p, CurveDataType::Density) {
        Err(UdfError::CurveTypeMismatch { expected, actual }) => {
            assert_eq!(expected, "Gamma Ray, Spontaneous Potential");
            assert_eq!(actual, "Bulk Density");
        }
        _ => panic!("expected a type mismatch"),
    }
    let any = CurveParameter::optional("x", "X");
    assert!(check_curve_type(&any, CurveDataType::Unknown).is_ok());
}

#[test]
fn precheck_and_prepare_gates() {
    assert!(can_execute_outcome(true).is_ok());
    match can_execute_outcome(false) {
        Err(UdfError::PreCheckFailed(m)) => assert_eq!(m, "UDF cannot execute in current context"),
        _ => panic!(),
    }
    assert!(prepare_outcome(Ok(true)).is_ok());
    match prepare_outcome(Ok(false)) {
        Err(UdfError::PreCheckFailed(m)) => assert_eq!(m, "Pre-execution check failed"),
        _ => panic!(),
    }
    assert!(matches!(prepare_outcome(Err(UdfError::NumericError("nan".to_string()))), Err(UdfError::NumericError(_))));
    match not_found("core:nothing") {
        UdfError::UdfNotFound(m) => assert_eq!(m, "core:nothing"),
        _ => panic!(),
    }
}

#[test]
fn error_texts() {
    assert_eq!(UdfError::UdfNotFound("x:y".to_string()).to_text(), "UDF not found: x:y");
    assert_eq!(
        UdfError::CurveTypeMismatch { expected: "Gamma Ray".to_string(), actual: "Sonic".to_string() }.to_text(),
        "Curve type mismatch: expected Gamma Ray, got Sonic"
    );
    assert_eq!(UdfError::Cancelled.to_text(), "Execution cancelled");
    assert_eq!(ValidationError::new("f", "m").to_text(), "f: m");
}

fn record() -> ExecutionRecord {
    ExecutionRecord::begin(
        uuid::Uuid::parse_str(CURVE_ID).unwrap(),
        "core:moving_average".to_string(),
        "1.0.0".to_string(),
        "{}".to_string(),
        1000,
        "0.1.0".to_string(),
    )
}

#[test]
fn record_finishes_once_with_terminal_status() {
    let mut r = record();
    assert_eq!(r.status, ExecutionStatus::Failed);
    assert!(r.completed_at.is_none());
    let input = InputReference { curve_id: uuid::Uuid::parse_str(CURVE_ID).unwrap(), version: 3, parquet_hash: "h".to_string() };
    r.finish(Ok(vec![input]), 2000);
    assert_eq!(r.status, ExecutionStatus::Completed);
    assert_eq!(r.completed_at, Some(2000));
    assert_eq!(r.inputs.len(), 1);
    assert!(r.error_message.is_none());
    r.stamp_output(uuid::Uuid::parse_str(CURVE_ID).unwrap(), "abcd".to_string());
    assert_eq!(r.output_parquet_hash.as_deref(), Some("abcd"));
}

#[test]
fn failed_and_cancelled_records_carry_the_error() {
    let mut r = record();
    r.finish(Err(UdfError::ExecutionFailed("boom".to_string())), 5);
    assert_eq!(r.status, ExecutionStatus::Failed);
    assert_eq!(r.error_message.as_deref(), Some("Execution failed: boom"));
    let mut c = record();
    c.finish(Err(UdfError::Cancelled), 6);
    assert_eq!(c.status, ExecutionStatus::Cancelled);
    assert_eq!(c.error_message.as_deref(), Some("Execution cancelled"));
}
