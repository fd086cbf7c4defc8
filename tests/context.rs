use dataforge_compute::context::ExecutionContext;
use dataforge_compute::curves::{CurveData, DepthMismatch, DepthSeries};
use dataforge_compute::error::UdfError;
use dataforge_compute::parameters::{ParameterValue, ParameterValues};
use dataforge_compute::providers::{centered_window, needs_range_warning, present_samples, window_size_errors};
use dataforge_compute::types::{CurveDataType, ExecutionStatus};
use std::sync::Arc;

const CURVE_ID: &str = "550e8400-e29b-41d4-a716-446655440000";

fn curve(name: &str, t: CurveDataType, depths: Arc<Vec<f64>>, values: Vec<Option<f64>>) -> Arc<CurveData<f64>> {
    Arc::new(CurveData {
        curve_id: uuid::Uuid::parse_str(CURVE_ID).unwrap(),
        mnemonic: name.to_string(),
        curve_type: t,
        unit: "u".to_string(),
        series: DepthSeries::new(depths, values).unwrap(),
        parquet_hash: "test_hash".to_string(),
        version: 1,
    })
}

fn ctx() -> ExecutionContext<f64> {
    let id = uuid::Uuid::parse_str(CURVE_ID).unwrap();
    ExecutionContext::new(id, id, ParameterValues::new())
}

fn close(a: &f64, b: &f64) -> bool {
    (a - b).abs() <= 1e-6
}

#[test]
fn series_needs_one_sample_per_depth() {
    let err = DepthSeries::new(Arc::new(vec![1.0, 2.0]), vec![Some(1.0)]).unwrap_err();
    assert!(matches!(err, UdfError::CurveLoadError(_)));
    let c = curve("GR", CurveDataType::GammaRay, Arc::new(vec![1.0, 2.0]), vec![Some(5.0), None]);
    assert_eq!(c.len(), 2);
    assert!(!c.is_empty());
    assert_eq!(c.value_at(0), Some(&5.0));
    assert_eq!(c.value_at(1), None);
    assert_eq!(c.value_at(2), None);
}

#[test]
fn depth_value_mismatch_names_first_index() {
    let mut c = ctx();
    c.add_curve("a".to_string(), curve("A", CurveDataType::GammaRay, Arc::new(vec![100.0, 100.5, 101.0, 101.5]), vec![None; 4]));
    c.add_curve("b".to_string(), curve("B", CurveDataType::Sonic, Arc::new(vec![100.0, 100.5, 101.1, 101.6]), vec![None; 4]));
    match c.validate_depth_compatibility(close) {
        Err(DepthMismatch::Value { curve, index, expected, found }) => {
            assert_eq!(curve, "b");
            assert_eq!(index, 2);
            assert_eq!(expected, 101.0);
            assert_eq!(found, 101.1);
        }
        other => panic!("unexpected {:?}", other),
    }
}

#[test]
fn depth_length_mismatch_and_tolerance() {
    let mut c = ctx();
    c.add_curve("a".to_string(), curve("A", CurveDataType::GammaRay, Arc::new(vec![1.0, 2.0]), vec![None; 2]));
    c.add_curve("b".to_string(), curve("B", CurveDataType::GammaRay, Arc::new(vec![1.0, 2.0 + 1e-9]), vec![None; 2]));
    assert!(c.validate_depth_compatibility(close).is_ok());
    c.add_curve("c".to_string(), curve("C", CurveDataType::GammaRay, Arc::new(vec![1.0]), vec![None]));
    match c.validate_depth_compatibility(close) {
        Err(DepthMismatch::Length { curve, found, expected }) => {
            assert_eq!(curve, "c");
            assert_eq!(found, 1);
            assert_eq!(expected, 2);
        }
        other => panic!("unexpected {:?}", other),
    }
}

#[test]
fn shared_depth_storage_is_trusted() {
    let shared = Arc::new(vec![1.0, 2.0, 3.0]);
    let mut c = ctx();
    c.add_curve("a".to_string(), curve("A", CurveDataType::GammaRay, shared.clone(), vec![None; 3]));
    c.add_curve("b".to_string(), curve("B", CurveDataType::Density, shared.clone(), vec![Some(1.0); 3]));
    assert!(c.validate_depth_compatibility(|_: &f64, _: &f64| false).is_ok());
    assert!(Arc::ptr_eq(c.get_depths().unwrap(), &shared));
}

#[test]
fn bindings_inputs_and_lookups() {
    let mut c = ctx();
    assert!(c.get_depths().is_none());
    assert!(matches!(c.require_curve("gr"), Err(UdfError::MissingCurve(ref m)) if m == "gr"));
    c.add_curve("gr".to_string(), curve("GR", CurveDataType::GammaRay, Arc::new(vec![1.0]), vec![Some(2.0)]));
    assert!(c.require_curve("gr").is_ok());
    assert!(c.get_curve("other").is_none());
    assert_eq!(c.input_refs().len(), 1);
    assert_eq!(c.input_refs()[0].parquet_hash, "test_hash");
    assert!(c.has_curve_type(CurveDataType::GammaRay));
    assert!(!c.has_curve_type(CurveDataType::Sonic));
    assert_eq!(c.curves().len(), 1);
    c.set_metadata("k".to_string(), "v".to_string());
    c.set_metadata("k".to_string(), "w".to_string());
    assert_eq!(c.get_metadata("k"), Some("w"));
    assert_eq!(c.get_metadata("x"), None);
    assert!(!c.is_cancelled());
    c.cancellation_token().cancel();
    assert!(matches!(c.check_cancelled(), Err(UdfError::Cancelled)));
    c.set_percent_with_message(120, "done".to_string());
    assert_eq!(c.get_progress(), 100);
    assert_eq!(c.get_progress_message().as_deref(), Some("done"));
}

#[test]
fn parameter_values_by_name() {
    let mut p: ParameterValues<f64> = ParameterValues::from_pairs(vec![
        ("window_size".to_string(), ParameterValue::Number(3.0)),
        ("flag".to_string(), ParameterValue::Boolean(true)),
        ("window_size".to_string(), ParameterValue::Number(5.0)),
    ]);
    assert_eq!(p.get_number("window_size"), Some(&5.0));
    assert_eq!(p.get_bool("flag"), Some(true));
    assert!(p.get_bool_or("missing", true));
    assert!(!p.has("missing"));
    p.insert("curve".to_string(), ParameterValue::String(CURVE_ID.to_string()));
    assert!(p.get_curve("curve").is_some());
    assert_eq!(p.get_string("curve"), Some(CURVE_ID));
    p.insert("n".to_string(), ParameterValue::Integer(7));
    assert_eq!(p.get_i64("n"), Some(7));
    p.insert("z".to_string(), ParameterValue::Null);
    assert!(!p.has("z"));
    assert!(p.has("n"));
}

#[test]
fn text_parameters_become_curve_references() {
    assert!(matches!(ParameterValue::<f64>::from_text(CURVE_ID.to_string()), ParameterValue::Curve(_)));
    assert!(matches!(ParameterValue::<f64>::from_text("abc".to_string()), ParameterValue::String(ref s) if s == "abc"));
}

#[test]
fn moving_average_windows() {
    assert_eq!(centered_window(2, 5, 3), (1, 4));
    assert_eq!(centered_window(0, 5, 3), (0, 2));
    assert_eq!(centered_window(4, 5, 3), (3, 5));
    assert_eq!(centered_window(1, 5, 101), (0, 5));
    assert_eq!(centered_window(3, 5, 1), (3, 4));
    let values = vec![Some(10.0), None, Some(30.0), Some(40.0), Some(50.0)];
    assert_eq!(present_samples(&values, 1, 4), vec![30.0, 40.0]);
    assert!(present_samples(&values, 1, 2).is_empty());
    let (s, e) = centered_window(2, 5, 3);
    let window = present_samples(&vec![Some(10.0), Some(20.0), Some(30.0), Some(40.0), Some(50.0)], s, e);
    let avg = window.iter().sum::<f64>() / window.len() as f64;
    assert!((avg - 30.0).abs() < 0.01);
}

#[test]
fn unit_window_is_identity_on_present_samples() {
    let values = vec![Some(10.0), Some(20.5), None, Some(-3.0)];
    for i in 0..values.len() {
        let (s, e) = centered_window(i, values.len(), 1);
        assert_eq!((s, e), (i, i + 1));
        let w = present_samples(&values, s, e);
        match values[i] {
            Some(v) => assert_eq!(w, vec![v]),
            None => assert!(w.is_empty()),
        }
    }
}

#[test]
fn status_names() {
    assert_eq!(ExecutionStatus::Completed.as_str(), "completed");
    assert_eq!(ExecutionStatus::Failed.as_str(), "failed");
    assert_eq!(ExecutionStatus::Cancelled.as_str(), "cancelled");
}

#[test]
fn moving_average_window_must_be_odd() {
    assert!(window_size_errors(5).is_empty());
    let e = window_size_errors(4);
    assert_eq!(e.len(), 1);
    assert_eq!(e[0].field, "window_size");
    assert_eq!(e[0].suggestion.as_deref(), Some("Use an odd number like 3, 5, 7, etc."));
}

#[test]
fn range_warning_above_five_percent() {
    assert!(!needs_range_warning(0, 10));
    assert!(!needs_range_warning(1, 20));
    assert!(needs_range_warning(2, 20));
    assert!(needs_range_warning(1, 5));
    assert!(!needs_range_warning(5, 100));
    assert!(needs_range_warning(6, 100));
}
