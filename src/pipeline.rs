//! The execution pipeline: resolve the UDF, validate its parameters, load and
//! type-check its curves, check their depths, run the UDF's own checks and
//! hooks, execute, post-process, and finish the provenance record.
//!
//! The stages run strictly in order and the first failure stops the run. The
//! UDF's hooks, its parameter definitions and the curve loader are supplied
//! by the caller; so are the cancellation token and progress state, the
//! record's identifier and the clock.

use vstd::prelude::*;
use std::sync::Arc;
use crate::context::{depth_check_allows, CancellationToken, ExecutionContext, ProgressState};
use crate::curves::{CurveData, DepthMismatch};
use crate::stages::{is_missing, required_text, can_execute_outcome, check_curve_type, not_found, prepare_outcome, resolve_parameter, validation_outcome};
use crate::error::{UdfError, ValidationError};
use crate::parameters::{CurveParameter, ParameterValue, ParameterValues};
use crate::provenance::ExecutionRecord;
use crate::registry::{Udf, UdfRegistry};
use crate::text::append_decimal;
use crate::types::ExecutionStatus;

verus! {

/// A declared parameter of a UDF.
pub trait ParameterDefinition<N> {
    /// Parameter name.
    fn name(&self) -> String;

    /// Display label.
    fn label(&self) -> String;

    /// Whether a value must be supplied when there is no default.
    fn is_required(&self) -> bool;

    /// Value used when none is supplied.
    fn default_value(&self) -> Option<ParameterValue<N>>;

    /// Checks a value, after the default has been applied.
    fn validate(&self, value: &ParameterValue<N>) -> Result<(), ValidationError>;

    /// The curve parameter, when this parameter binds a curve.
    fn curve_parameter(&self) -> Option<&CurveParameter> {
        None
    }
}

/// Hooks of a UDF, with its sample type `N`, output type `O` and parameter
/// definition type `D`. Only `execute` has no default.
pub trait Computation<N, O, D> {
    /// The UDF's declared parameters.
    fn parameter_definitions(&self) -> Vec<D>;

    /// Cross-parameter or data-dependent checks.
    fn check_parameters(&self, _context: &ExecutionContext<N>) -> Result<(), Vec<ValidationError>> {
        Ok(())
    }

    /// Whether the UDF can run on this context.
    fn can_execute(&self, _context: &ExecutionContext<N>) -> bool {
        true
    }

    /// Setup before execution; `false` stops the run. It may set metadata,
    /// but keeps the parameters, identifiers, bound curves and inputs that
    /// the earlier stages checked.
    fn prepare(&self, context: &mut ExecutionContext<N>) -> (r: Result<bool, UdfError>)
        ensures
            final(context).params() == old(context).params(),
            final(context).spec_well_id() == old(context).spec_well_id(),
            final(context).spec_workspace_id() == old(context).spec_workspace_id(),
            final(context).bindings() == old(context).bindings(),
            final(context).inputs() == old(context).inputs(),
    {
        Ok(true)
    }

    /// The computation.
    fn execute(&self, context: &ExecutionContext<N>) -> Result<O, UdfError>;

    /// Adjusts the output after execution.
    fn postprocess(&self, _output: &mut O, _context: &ExecutionContext<N>) -> Result<(), UdfError> {
        Ok(())
    }
}

/// Loads curves from the host's storage.
pub trait CurveLoader<N> {
    /// The curve with an identifier.
    fn load_curve(&self, curve_id: uuid::Uuid) -> Result<Arc<CurveData<N>>, UdfError>;
}

/// Provenance record of a run, and the output when the run completed.
pub struct ExecutionResult<O> {
    pub record: ExecutionRecord,
    pub output: Option<O>,
}

/// What a parameter definition declares: its name, label, required flag and
/// default.
pub struct ParameterDescriptor<N> {
    pub name: String,
    pub label: String,
    pub required: bool,
    pub default: Option<ParameterValue<N>>,
}

/// The value a declared parameter is validated with: the supplied value when
/// present and not `Null`, else the default, else `Null` for an optional
/// parameter; none for a required parameter with neither.
pub open spec fn resolved_value<N>(d: ParameterDescriptor<N>, values: ParameterValues<N>) -> Option<ParameterValue<N>> {
    let supplied = values.lookup(d.name@);
    if !is_missing(supplied) {
        supplied
    } else {
        match d.default {
            Some(x) => Some(x),
            None => if d.required { None } else { Some(ParameterValue::Null) },
        }
    }
}

/// What validating the declared parameter at `i` may contribute: the
/// required error on its name when it resolves to no value, else the error
/// the verdict returned on its resolved value, or nothing when the verdict
/// accepted it.
pub open spec fn outcome_allowed<N, V: Fn(usize, &ParameterValue<N>) -> Result<(), ValidationError>>(
    d: ParameterDescriptor<N>,
    values: ParameterValues<N>,
    verdict: V,
    i: int,
    out: Option<ValidationError>,
) -> bool {
    match resolved_value(d, values) {
        None => out matches Some(e) && e.field@ == d.name@ && e.message@ == required_text(d.label@) && e.suggestion.is_none(),
        Some(v) => match out {
            Some(e) => call_ensures(verdict, (i as usize, &v), Err(e)),
            None => exists|answer: Result<(), ValidationError>| answer is Ok && #[trigger] call_ensures(verdict, (i as usize, &v), answer),
        },
    }
}

/// The errors among per-parameter outcomes, in order.
pub open spec fn collected(outs: Seq<Option<ValidationError>>) -> Seq<ValidationError>
    decreases outs.len(),
{
    if outs.len() == 0 {
        Seq::empty()
    } else {
        match outs.last() {
            Some(e) => collected(outs.drop_last()).push(e),
            None => collected(outs.drop_last()),
        }
    }
}

/// Validates declared parameters against the supplied values and collects
/// all errors, in declaration order: the required error for a parameter that
/// resolves to no value, and otherwise the error `verdict` returns for the
/// parameter's index and resolved value. A present value is never replaced
/// by the default.
pub fn validate_descriptors<N, V>(
    descriptors: &Vec<ParameterDescriptor<N>>,
    values: &ParameterValues<N>,
    verdict: V,
) -> (r: Vec<ValidationError>)
    where
        N: Copy,
        V: Fn(usize, &ParameterValue<N>) -> Result<(), ValidationError>,
    requires
        values.wf(),
        forall|i: usize, v: &ParameterValue<N>| i < descriptors@.len() ==> call_requires(verdict, (i, v)),
    ensures
        exists|outs: Seq<Option<ValidationError>>| {
            &&& outs.len() == descriptors@.len()
            &&& r@ == collected(outs)
            &&& forall|i: int| 0 <= i < outs.len() ==> #[trigger] outcome_allowed(descriptors@[i], *values, verdict, i, outs[i])
        },
{
    let mut errors: Vec<ValidationError> = Vec::new();
    let ghost mut outs: Seq<Option<ValidationError>> = Seq::empty();
    let mut i: usize = 0;
    while i < descriptors.len()
        invariant
            i <= descriptors@.len(),
            values.wf(),
            forall|k: usize, v: &ParameterValue<N>| k < descriptors@.len() ==> call_requires(verdict, (k, v)),
            outs.len() == i,
            errors@ == collected(outs),
            forall|k: int| 0 <= k < i ==> #[trigger] outcome_allowed(descriptors@[k], *values, verdict, k, outs[k]),
        decreases descriptors@.len() - i,
    {
        let d = &descriptors[i];
        let supplied = match values.get(d.name.as_str()) {
            Some(v) => Some(v.duplicate()),
            None => None,
        };
        let default = match &d.default {
            Some(v) => Some(v.duplicate()),
            None => None,
        };
        let ghost before = outs;
        assert(supplied == values.lookup(d.name@));
        assert(default == d.default);
        match resolve_parameter(d.name.as_str(), d.label.as_str(), d.required, default, supplied) {
            Err(e) => {
                assert(resolved_value(*d, *values) is None);
                proof {
                    outs = outs.push(Some(e));
                    assert(outcome_allowed(descriptors@[i as int], *values, verdict, i as int, outs[i as int]));
                }
                errors.push(e);
            },
            Ok(value) => {
                assert(resolved_value(*d, *values) == Some(value));
                let answer = verdict(i, &value);
                match answer {
                    Err(e) => {
                        proof {
                            outs = outs.push(Some(e));
                            assert(call_ensures(verdict, (i, &value), Err(e)));
                            assert(outcome_allowed(descriptors@[i as int], *values, verdict, i as int, outs[i as int]));
                        }
                        errors.push(e);
                    },
                    Ok(()) => {
                        proof {
                            outs = outs.push(None);
                            assert(call_ensures(verdict, (i, &value), answer));
                            assert(outcome_allowed(descriptors@[i as int], *values, verdict, i as int, outs[i as int]));
                        }
                    },
                }
            },
        }
        proof {
            assert(outs.drop_last() == before);
            assert forall|k: int| 0 <= k < i + 1 implies #[trigger] outcome_allowed(descriptors@[k], *values, verdict, k, outs[k]) by {
                if k < i {
                    assert(outs[k] == before[k]);
                }
            }
        }
        i = i + 1;
    }
    errors
}

/// What each definition declares, in order.
pub fn describe<N, D: ParameterDefinition<N>>(definitions: &Vec<D>) -> (r: Vec<ParameterDescriptor<N>>)
    ensures
        r@.len() == definitions@.len(),
{
    let mut r: Vec<ParameterDescriptor<N>> = Vec::new();
    let mut i: usize = 0;
    while i < definitions.len()
        invariant
            i <= definitions@.len(),
            r@.len() == i,
        decreases definitions@.len() - i,
    {
        let d = &definitions[i];
        r.push(ParameterDescriptor { name: d.name(), label: d.label(), required: d.is_required(), default: d.default_value() });
        i = i + 1;
    }
    r
}

/// Validates every declared parameter against the supplied values and
/// collects all errors in declaration order, one at most per parameter: the
/// required error on the parameter's name when it has no value and no
/// default, or the definition's own verdict on the value it resolves to.
pub fn validate_parameters<N: Copy, D: ParameterDefinition<N>>(
    definitions: &Vec<D>,
    values: &ParameterValues<N>,
) -> (r: Vec<ValidationError>)
    requires
        values.wf(),
    ensures
        exists|descriptors: Seq<ParameterDescriptor<N>>, outs: Seq<Option<ValidationError>>| {
            &&& descriptors.len() == definitions@.len()
            &&& outs.len() == definitions@.len()
            &&& r@ == collected(outs)
            &&& forall|i: int| 0 <= i < outs.len() && #[trigger] resolved_value(descriptors[i], *values) is None
                ==> (outs[i] matches Some(e) && e.field@ == descriptors[i].name@
                    && e.message@ == required_text(descriptors[i].label@))
        },
{
    let descriptors = describe(definitions);
    let verdict = |i: usize, v: &ParameterValue<N>| -> (r: Result<(), ValidationError>)
        requires
            i < definitions@.len(),
    {
        definitions[i].validate(v)
    };
    let r = validate_descriptors(&descriptors, values, verdict);
    proof {
        let outs = choose|outs: Seq<Option<ValidationError>>| {
            &&& outs.len() == descriptors@.len()
            &&& r@ == collected(outs)
            &&& forall|i: int| 0 <= i < outs.len() ==> #[trigger] outcome_allowed(descriptors@[i], *values, verdict, i, outs[i])
        };
        assert forall|i: int| 0 <= i < outs.len() && #[trigger] resolved_value(descriptors@[i], *values) is None
            implies (outs[i] matches Some(e) && e.field@ == descriptors@[i].name@
                && e.message@ == required_text(descriptors@[i].label@)) by {
            assert(outcome_allowed(descriptors@[i], *values, verdict, i, outs[i]));
        }
    }
    r
}

/// `IncompatibleData` describing a depth mismatch; `show` renders a depth.
pub fn depth_mismatch_error<N, G: Fn(&N) -> String>(mismatch: DepthMismatch<N>, show: G) -> (r: UdfError)
    requires
        forall|a: &N| call_requires(show, (a,)),
    ensures
        r is IncompatibleData,
        mismatch matches DepthMismatch::Length { curve, found, expected } ==> (r matches UdfError::IncompatibleData(m)
            && m@ == "Curve '"@ + curve@ + "' has "@ + crate::text::decimal_text(found as nat) + " samples, expected "@
                + crate::text::decimal_text(expected as nat)),
        mismatch matches DepthMismatch::Value { curve, index, expected, found } ==> (r matches UdfError::IncompatibleData(m)
            && exists|a: String, b: String| call_ensures(show, (&expected,), a) && call_ensures(show, (&found,), b)
                && m@ == "Depth mismatch at index "@ + crate::text::decimal_text(index as nat) + " for curve '"@ + curve@
                    + "': "@ + a@ + " vs "@ + b@),
{
    match mismatch {
        DepthMismatch::Length { curve, found, expected } => {
            let mut m = "Curve '".to_owned();
            m.append(curve.as_str());
            m.append("' has ");
            append_decimal(&mut m, found);
            m.append(" samples, expected ");
            append_decimal(&mut m, expected);
            UdfError::IncompatibleData(m)
        },
        DepthMismatch::Value { curve, index, expected, found } => {
            let mut m = "Depth mismatch at index ".to_owned();
            append_decimal(&mut m, index);
            m.append(" for curve '");
            m.append(curve.as_str());
            m.append("': ");
            let a = show(&expected);
            m.append(a.as_str());
            m.append(" vs ");
            let b = show(&found);
            m.append(b.as_str());
            UdfError::IncompatibleData(m)
        },
    }
}

/// Runs the stages from parameter validation to execution, in a context
/// that shares the caller's cancellation token and progress state, stopping
/// at the first stage that fails: parameter validation (all errors collected), loading
/// and type-checking each bound curve, depth compatibility, the UDF's own
/// checks, `can_execute`, `prepare`, and `execute`.
pub fn run_stages<N, O, D, U, L, F, G>(
    udf: &U,
    well_id: uuid::Uuid,
    workspace_id: uuid::Uuid,
    parameters: ParameterValues<N>,
    curve_loader: &L,
    cancellation_token: Arc<CancellationToken>,
    progress_state: Arc<ProgressState>,
    same_depth: F,
    show: G,
) -> (r: Result<(ExecutionContext<N>, O), UdfError>)
    where
        N: Clone + Copy,
        D: ParameterDefinition<N>,
        U: Computation<N, O, D>,
        L: CurveLoader<N>,
        F: Fn(&N, &N) -> bool,
        G: Fn(&N) -> String,
    requires
        parameters.wf(),
        forall|a: &N, b: &N| call_requires(same_depth, (a, b)),
        forall|a: &N| call_requires(show, (a,)),
    ensures
        r matches Ok((ctx, _)) ==> {
            &&& ctx.params() == parameters
            &&& ctx.spec_well_id() == well_id
            &&& ctx.spec_workspace_id() == workspace_id
            &&& ctx.inputs().len() == ctx.bindings().len()
            &&& depth_check_allows(ctx, same_depth, Ok(()))
        },
{
    let definitions = udf.parameter_definitions();
    validation_outcome(validate_parameters(&definitions, &parameters))?;

    let mut bound: Vec<(String, Arc<CurveData<N>>)> = Vec::new();
    let mut i: usize = 0;
    while i < definitions.len()
        invariant
            i <= definitions@.len(),
            parameters.wf(),
        decreases definitions@.len() - i,
    {
        let def = &definitions[i];
        match def.curve_parameter() {
            Some(curve_param) => {
                let name = def.name();
                match parameters.get_curve(name.as_str()) {
                    Some(curve_id) => {
                        let curve = curve_loader.load_curve(curve_id)?;
                        check_curve_type(curve_param, curve.curve_type)?;
                        bound.push((name, curve));
                    },
                    None => {},
                }
            },
            None => {},
        }
        i = i + 1;
    }

    let ghost supplied = parameters;
    let mut context = ExecutionContext::with_shared_state(
        well_id,
        workspace_id,
        parameters,
        cancellation_token,
        progress_state,
    );
    while bound.len() > 0
        invariant
            context.params() == supplied,
            context.spec_well_id() == well_id,
            context.spec_workspace_id() == workspace_id,
            context.inputs().len() == context.bindings().len(),
        decreases bound@.len(),
    {
        let (name, curve) = bound.remove(0);
        context.add_curve(name, curve);
    }

    match context.validate_depth_compatibility(same_depth) {
        Ok(()) => {},
        Err(mismatch) => {
            return Err(depth_mismatch_error(mismatch, show));
        },
    }
    match udf.check_parameters(&context) {
        Ok(()) => {},
        Err(errors) => {
            validation_outcome(errors)?;
        },
    }
    can_execute_outcome(udf.can_execute(&context))?;
    prepare_outcome(udf.prepare(&mut context))?;
    let output = udf.execute(&context)?;
    Ok((context, output))
}

/// Runs a registered UDF and records the run.
///
/// Every run leaves exactly one finished record, started at `started_at`
/// and finished at the time `clock` gives. An id that the registry does not
/// hold fails with the `UdfNotFound` text. A run that completes carries the
/// output and the inputs of the context it ran in, one per bound curve;
/// otherwise the record has the error text of the first failing stage and
/// no output. Post-processing that fails discards the output.
pub fn execute<N, O, D, P, U, L, F, G, C>(
    registry: &UdfRegistry<P, U>,
    udf_id: &str,
    well_id: uuid::Uuid,
    workspace_id: uuid::Uuid,
    parameters: ParameterValues<N>,
    parameters_json: String,
    curve_loader: &L,
    cancellation_token: Arc<CancellationToken>,
    progress_state: Arc<ProgressState>,
    record_id: uuid::Uuid,
    started_at: i64,
    app_version: String,
    clock: C,
    same_depth: F,
    show: G,
) -> (res: ExecutionResult<O>)
    where
        N: Clone + Copy,
        D: ParameterDefinition<N>,
        U: Udf + Computation<N, O, D>,
        L: CurveLoader<N>,
        F: Fn(&N, &N) -> bool,
        G: Fn(&N) -> String,
        C: Fn() -> i64,
    requires
        parameters.wf(),
        forall|a: &N, b: &N| call_requires(same_depth, (a, b)),
        forall|a: &N| call_requires(show, (a,)),
        call_requires(clock, ()),
    ensures
        res.record.wf(),
        !res.record.is_open(),
        res.record.id == record_id,
        res.record.udf_id@ == udf_id@,
        res.record.parameters == parameters_json,
        res.record.started_at == started_at,
        res.record.compute_app_version == app_version,
        res.output.is_some() == (res.record.status == ExecutionStatus::Completed),
        !registry.udf_ids().contains(udf_id@) ==> {
            &&& res.record.status == ExecutionStatus::Failed
            &&& res.record.error_message is Some
            &&& res.record.error_message.unwrap()@ == "UDF not found: "@ + udf_id@
        },
        res.record.status == ExecutionStatus::Completed ==> exists|ctx: ExecutionContext<N>| {
            &&& ctx.params() == parameters
            &&& ctx.spec_well_id() == well_id
            &&& ctx.spec_workspace_id() == workspace_id
            &&& ctx.inputs().len() == ctx.bindings().len()
            &&& depth_check_allows(ctx, same_depth, Ok(()))
            &&& res.record.inputs@ == ctx.inputs()
        },
{
    let udf = match registry.get_udf(udf_id) {
        Some(u) => u,
        None => {
            let mut record = ExecutionRecord::begin(
                record_id,
                udf_id.to_owned(),
                String::new(),
                parameters_json,
                started_at,
                app_version,
            );
            let at = clock();
            record.finish(Err(not_found(udf_id)), at);
            return ExecutionResult { record, output: None };
        },
    };
    let metadata = udf.metadata();
    let mut record = ExecutionRecord::begin(
        record_id,
        udf_id.to_owned(),
        metadata.version,
        parameters_json,
        started_at,
        app_version,
    );
    match run_stages(
        udf,
        well_id,
        workspace_id,
        parameters,
        curve_loader,
        cancellation_token,
        progress_state,
        same_depth,
        show,
    ) {
        Ok((context, output)) => {
            let mut output = output;
            match udf.postprocess(&mut output, &context) {
                Err(e) => {
                    let at = clock();
                    record.finish(Err(e), at);
                    ExecutionResult { record, output: None }
                },
                Ok(()) => {
                    let ghost ran_in = context;
                    let inputs = context.into_inputs();
                    let at = clock();
                    record.finish(Ok(inputs), at);
                    assert(record.inputs@ == ran_in.inputs());
                    ExecutionResult { record, output: Some(output) }
                },
            }
        },
        Err(e) => {
            let at = clock();
            record.finish(Err(e), at);
            ExecutionResult { record, output: None }
        },
    }
}

/// Validates the supplied values against a registered UDF's parameters,
/// without loading data; `UdfNotFound` for an id that is not registered.
pub fn validate_only<N, O, D, P, U>(
    registry: &UdfRegistry<P, U>,
    udf_id: &str,
    parameters: &ParameterValues<N>,
) -> (r: Result<Vec<ValidationError>, UdfError>)
    where
        N: Copy,
        D: ParameterDefinition<N>,
        U: Udf + Computation<N, O, D>,
    requires
        parameters.wf(),
    ensures
        r.is_err() == !registry.udf_ids().contains(udf_id@),
        r matches Err(e) ==> (e matches UdfError::UdfNotFound(m) && m@ == udf_id@),
        r matches Ok(errs) ==> exists|descriptors: Seq<ParameterDescriptor<N>>, outs: Seq<Option<ValidationError>>| {
            &&& outs.len() == descriptors.len()
            &&& errs@ == collected(outs)
            &&& forall|i: int| 0 <= i < outs.len() && #[trigger] resolved_value(descriptors[i], *parameters) is None
                ==> (outs[i] matches Some(e) && e.field@ == descriptors[i].name@
                    && e.message@ == required_text(descriptors[i].label@))
        },
{
    match registry.get_udf(udf_id) {
        Some(udf) => Ok(validate_parameters(&udf.parameter_definitions(), parameters)),
        None => Err(not_found(udf_id)),
    }
}

} // verus!
