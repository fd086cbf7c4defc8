use dataforge_compute::context::{CancellationToken, ExecutionContext, ProgressState};
use dataforge_compute::curves::{CurveData, DepthMismatch, DepthSeries};
use dataforge_compute::error::{UdfError, ValidationError};
use dataforge_compute::parameters::{CurveParameter, ParameterValue, ParameterValues};
use dataforge_compute::pipeline::{
    depth_mismatch_error, execute, validate_descriptors, validate_only, validate_parameters, Computation, CurveLoader,
    ExecutionResult, ParameterDefinition, ParameterDescriptor,
};
use dataforge_compute::registry::{Udf, UdfProvider, UdfRegistry};
use dataforge_compute::types::{CurveDataType, ExecutionStatus, UdfMetadata};
use std::collections::HashMap;
use std::sync::Arc;

const GR_ID: &str = "550e8400-e29b-41d4-a716-446655440000";
const RHOB_ID: &str = "6fa459ea-ee8a-3ca4-894e-db77e160355e";
const SHIFTED_ID: &str = "16fd2706-8baf-433b-82eb-8c7fada847da";

enum Def {
    Curve(CurveParameter),
    Scale { required: bool, default: Option<f64> },
}

impl ParameterDefinition<f64> for Def {
    fn name(&self) -> String {
        match self {
            Def::Curve(c) => c.name.clone(),
            Def::Scale { .. } => "scale".to_string(),
        }
    }
    fn label(&self) -> String {
        match self {
            Def::Curve(c) => c.label.clone(),
            Def::Scale { .. } => "Scale".to_string(),
        }
    }
    fn is_required(&self) -> bool {
        match self {
            Def::Curve(c) => c.required,
            Def::Scale { required, .. } => *required,
        }
    }
    fn default_value(&self) -> Option<ParameterValue<f64>> {
        match self {
            Def::Curve(_) => None,
            Def::Scale { default, .. } => default.map(ParameterValue::Number),
        }
    }
    fn validate(&self, value: &ParameterValue<f64>) -> Result<(), ValidationError> {
        match self {
            Def::Curve(c) => c.validate(value),
            Def::Scale { .. } => match value {
                ParameterValue::Number(n) if *n > 0.0 => Ok(()),
                ParameterValue::Null => Ok(()),
                _ => Err(ValidationError::new("scale", "must be positive")),
            },
        }
    }
    fn curve_parameter(&self) -> Option<&CurveParameter> {
        match self {
            Def::Curve(c) => Some(c),
            Def::Scale { .. } => None,
        }
    }
}

#[derive(Clone, Copy)]
enum Behaviour {
    Scale,
    Refuse,
    FailPost,
    Cancel,
    Watch,
}

struct Scaler(Behaviour);

impl Udf for Scaler {
    fn id(&self) -> String {
        "scale".to_string()
    }
    fn metadata(&self) -> UdfMetadata {
        UdfMetadata {
            name: "Scale".to_string(),
            category: "Test".to_string(),
            description: "scales a gamma-ray curve".to_string(),
            documentation: None,
            version: "2.0.0".to_string(),
            tags: vec![],
        }
    }
}

impl Computation<f64, Vec<Option<f64>>, Def> for Scaler {
    fn parameter_definitions(&self) -> Vec<Def> {
        vec![
            Def::Curve(CurveParameter::required("gr", "GR").with_allowed_types(vec![CurveDataType::GammaRay])),
            Def::Curve(CurveParameter::optional("aux", "Aux")),
            Def::Scale { required: true, default: None },
        ]
    }
    fn prepare(&self, _context: &mut ExecutionContext<f64>) -> Result<bool, UdfError> {
        Ok(!matches!(self.0, Behaviour::Refuse))
    }
    fn execute(&self, context: &ExecutionContext<f64>) -> Result<Vec<Option<f64>>, UdfError> {
        if matches!(self.0, Behaviour::Cancel) {
            context.cancellation_token().cancel();
            context.check_cancelled()?;
        }
        if matches!(self.0, Behaviour::Watch) {
            context.set_percent_with_message(50, "halfway".to_string());
            context.check_cancelled()?;
        }
        let gr = context.require_curve("gr")?;
        let scale = *context.parameters().get_number("scale").unwrap();
        Ok(gr.series.values().iter().map(|v| v.map(|x| x * scale)).collect())
    }
    fn postprocess(&self, _output: &mut Vec<Option<f64>>, _context: &ExecutionContext<f64>) -> Result<(), UdfError> {
        if matches!(self.0, Behaviour::FailPost) {
            Err(UdfError::PostProcessFailed("bad output".to_string()))
        } else {
            Ok(())
        }
    }
}

struct Provider(Behaviour);

impl UdfProvider<Scaler> for Provider {
    fn id(&self) -> String {
        "t".to_string()
    }
    fn name(&self) -> String {
        "Test".to_string()
    }
    fn version(&self) -> String {
        "1".to_string()
    }
    fn description(&self) -> String {
        "test".to_string()
    }
    fn load_udfs(&self) -> Vec<Scaler> {
        vec![Scaler(self.0)]
    }
}

struct Store(HashMap<uuid::Uuid, Arc<CurveData<f64>>>);

fn curve(id: &str, t: CurveDataType, depths: Vec<f64>, values: Vec<Option<f64>>) -> (uuid::Uuid, Arc<CurveData<f64>>) {
    let id = uuid::Uuid::parse_str(id).unwrap();
    let c = CurveData {
        curve_id: id,
        mnemonic: "C".to_string(),
        curve_type: t,
        unit: "".to_string(),
        series: DepthSeries::new(Arc::new(depths), values).unwrap(),
        parquet_hash: "h".to_string(),
        version: 4,
    };
    (id, Arc::new(c))
}

fn store() -> Store {
    let mut m = HashMap::new();
    for (id, c) in [
        curve(GR_ID, CurveDataType::GammaRay, vec![1.0, 2.0, 3.0], vec![Some(10.0), None, Some(30.0)]),
        curve(RHOB_ID, CurveDataType::Density, vec![1.0, 2.0, 3.0], vec![Some(2.3); 3]),
        curve(SHIFTED_ID, CurveDataType::Sonic, vec![1.0, 2.5, 3.0], vec![None; 3]),
    ] {
        m.insert(id, c);
    }
    Store(m)
}

impl CurveLoader<f64> for Store {
    fn load_curve(&self, curve_id: uuid::Uuid) -> Result<Arc<CurveData<f64>>, UdfError> {
        self.0.get(&curve_id).cloned().ok_or_else(|| UdfError::CurveLoadError("Curve not found".to_string()))
    }
}

fn registry(b: Behaviour) -> UdfRegistry<Provider, Scaler> {
    let mut r = UdfRegistry::new();
    r.register_provider(Provider(b)).unwrap();
    r
}

fn params(pairs: &[(&str, ParameterValue<f64>)]) -> ParameterValues<f64> {
    ParameterValues::from_pairs(pairs.iter().map(|(k, v)| (k.to_string(), v.clone())).collect())
}

fn run(b: Behaviour, p: ParameterValues<f64>, udf_id: &str) -> ExecutionResult<Vec<Option<f64>>> {
    run_shared(b, p, udf_id, Arc::new(CancellationToken::new()), Arc::new(ProgressState::new()))
}

fn run_shared(
    b: Behaviour,
    p: ParameterValues<f64>,
    udf_id: &str,
    token: Arc<CancellationToken>,
    progress: Arc<ProgressState>,
) -> ExecutionResult<Vec<Option<f64>>> {
    let id = uuid::Uuid::parse_str(GR_ID).unwrap();
    execute::<f64, Vec<Option<f64>>, Def, Provider, Scaler, Store, _, _, _>(
        &registry(b),
        udf_id,
        id,
        id,
        p,
        "{}".to_string(),
        &store(),
        token,
        progress,
        id,
        100,
        "0.1.0".to_string(),
        || 200,
        |a: &f64, b: &f64| (a - b).abs() <= 1e-6,
        |d: &f64| format!("{}", d),
    )
}

fn gr() -> ParameterValue<f64> {
    ParameterValue::String(GR_ID.to_string())
}

#[test]
fn completed_run_records_inputs_and_output() {
    let r = run(Behaviour::Scale, params(&[("gr", gr()), ("scale", ParameterValue::Number(2.0))]), "t:scale");
    assert_eq!(r.record.status, ExecutionStatus::Completed);
    assert_eq!(r.record.udf_id, "t:scale");
    assert_eq!(r.record.udf_version, "2.0.0");
    assert_eq!(r.record.started_at, 100);
    assert_eq!(r.record.completed_at, Some(200));
    assert_eq!(r.record.inputs.len(), 1);
    assert_eq!(r.record.inputs[0].version, 4);
    assert_eq!(r.output, Some(vec![Some(20.0), None, Some(60.0)]));
}

#[test]
fn unknown_udf_leaves_a_failed_record() {
    let r = run(Behaviour::Scale, params(&[]), "t:nothing");
    assert_eq!(r.record.status, ExecutionStatus::Failed);
    assert_eq!(r.record.udf_id, "t:nothing");
    assert_eq!(r.record.completed_at, Some(200));
    assert_eq!(r.record.error_message.as_deref(), Some("UDF not found: t:nothing"));
    assert!(r.output.is_none());
}

#[test]
fn missing_required_parameters_fail_validation() {
    let r = run(Behaviour::Scale, params(&[]), "t:scale");
    assert_eq!(r.record.status, ExecutionStatus::Failed);
    assert!(r.output.is_none());
    assert_eq!(
        r.record.error_message.as_deref(),
        Some("Parameter validation failed: gr: 'GR' is required; scale: 'Scale' is required")
    );
}

#[test]
fn wrong_curve_type_is_a_mismatch() {
    let r = run(
        Behaviour::Scale,
        params(&[("gr", ParameterValue::String(RHOB_ID.to_string())), ("scale", ParameterValue::Number(1.0))]),
        "t:scale",
    );
    assert_eq!(r.record.error_message.as_deref(), Some("Curve type mismatch: expected Gamma Ray, got Bulk Density"));
}

#[test]
fn diverging_depths_stop_the_run() {
    let r = run(
        Behaviour::Scale,
        params(&[
            ("gr", gr()),
            ("aux", ParameterValue::String(SHIFTED_ID.to_string())),
            ("scale", ParameterValue::Number(1.0)),
        ]),
        "t:scale",
    );
    assert_eq!(
        r.record.error_message.as_deref(),
        Some("Incompatible curve data: Depth mismatch at index 1 for curve 'aux': 2 vs 2.5")
    );
}

#[test]
fn refused_preparation_and_failed_postprocessing() {
    let p = || params(&[("gr", gr()), ("scale", ParameterValue::Number(1.0))]);
    let r = run(Behaviour::Refuse, p(), "t:scale");
    assert_eq!(r.record.error_message.as_deref(), Some("Pre-execution check failed: Pre-execution check failed"));
    let r = run(Behaviour::FailPost, p(), "t:scale");
    assert_eq!(r.record.status, ExecutionStatus::Failed);
    assert!(r.output.is_none());
    assert_eq!(r.record.error_message.as_deref(), Some("Post-processing failed: bad output"));
    let r = run(Behaviour::Cancel, p(), "t:scale");
    assert_eq!(r.record.status, ExecutionStatus::Cancelled);
}

#[test]
fn validation_only_collects_all_errors() {
    let reg = registry(Behaviour::Scale);
    let errors = validate_only::<f64, Vec<Option<f64>>, Def, Provider, Scaler>(
        &reg,
        "t:scale",
        &params(&[("gr", ParameterValue::String("x".to_string())), ("scale", ParameterValue::Number(-1.0))]),
    )
    .unwrap();
    let fields: Vec<String> = errors.iter().map(|e| e.field.clone()).collect();
    assert_eq!(fields, vec!["gr", "scale"]);
    assert!(validate_only::<f64, Vec<Option<f64>>, Def, Provider, Scaler>(&reg, "t:x", &params(&[])).is_err());
    let defs = vec![Def::Scale { required: false, default: Some(2.0) }];
    assert!(validate_parameters(&defs, &params(&[])).is_empty());
}

#[test]
fn depth_mismatch_texts() {
    let e = depth_mismatch_error(DepthMismatch::<f64>::Length { curve: "rhob".to_string(), found: 120, expected: 7 }, |d: &f64| {
        d.to_string()
    });
    match e {
        UdfError::IncompatibleData(m) => assert_eq!(m, "Curve 'rhob' has 120 samples, expected 7"),
        _ => panic!(),
    }
}

#[test]
fn descriptor_validation_keeps_order_and_present_values() {
    let descriptors = vec![
        ParameterDescriptor { name: "a".to_string(), label: "A".to_string(), required: true, default: None },
        ParameterDescriptor { name: "b".to_string(), label: "B".to_string(), required: true, default: Some(ParameterValue::Number(1.0)) },
        ParameterDescriptor { name: "c".to_string(), label: "C".to_string(), required: false, default: None },
    ];
    let values = params(&[("b", ParameterValue::Number(-4.0))]);
    let seen = std::cell::RefCell::new(Vec::new());
    let errors = validate_descriptors(&descriptors, &values, |i: usize, v: &ParameterValue<f64>| {
        seen.borrow_mut().push((i, v.clone()));
        match v {
            ParameterValue::Number(n) if *n < 0.0 => Err(ValidationError::new("b", "negative")),
            _ => Ok(()),
        }
    });
    let fields: Vec<(String, String)> = errors.iter().map(|e| (e.field.clone(), e.message.clone())).collect();
    assert_eq!(fields, vec![("a".to_string(), "'A' is required".to_string()), ("b".to_string(), "negative".to_string())]);
    let seen = seen.into_inner();
    assert_eq!(seen.len(), 2);
    assert!(matches!(seen[0], (1, ParameterValue::Number(n)) if n == -4.0));
    assert!(matches!(seen[1], (2, ParameterValue::Null)));
}

#[test]
fn caller_token_and_progress_reach_the_run() {
    let p = params(&[("gr", gr()), ("scale", ParameterValue::Number(1.0))]);
    let token = Arc::new(CancellationToken::new());
    let progress = Arc::new(ProgressState::new());
    token.cancel();
    let r = run_shared(Behaviour::Watch, p, "t:scale", token, progress.clone());
    assert_eq!(r.record.status, ExecutionStatus::Cancelled);
    assert_eq!(progress.get_progress(), 50);
    assert_eq!(progress.get_message().as_deref(), Some("halfway"));
}
